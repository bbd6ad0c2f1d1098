use path_tracer::data::{UVec2, UVec3};
use path_tracer::rand::{hash1, hash2, hash3, hash_combine2, unit_float_bits, Rand};

#[test]
fn hash1_known_values() {
    assert_eq!(hash1(0), 0);
    assert_eq!(hash1(1), 307143837);
    assert_eq!(hash1(42), 4281892453);
    assert_eq!(hash1(u32::MAX), 2925896852);
}

#[test]
fn hash_combine2_known_values() {
    assert_eq!(hash_combine2(0, 0), 390479524);
    assert_eq!(hash_combine2(1, 2), 780540476);
    assert_eq!(hash_combine2(u32::MAX, 7), 3493878849);
}

#[test]
fn hash2_and_hash3_known_values() {
    assert_eq!(hash2(UVec2 { x: 3, y: 4 }), 3386873612);
    assert_eq!(hash2(UVec2 { x: 3, y: 4 }), hash_combine2(3, hash1(4)));
    assert_eq!(hash3(UVec3 { x: 3, y: 4, z: 5 }), 2859396830);
    assert_eq!(
        hash3(UVec3 { x: 3, y: 4, z: 5 }),
        hash_combine2(3, hash2(UVec2 { x: 4, y: 5 }))
    );
}

#[test]
fn gen_returns_the_successive_mixes_of_the_seed() {
    let mut rand = Rand::new(7);
    assert_eq!(rand.gen(), 2148040719);
    assert_eq!(rand.gen(), 666076741);
    assert_eq!(rand.gen(), 3258234513);
}

#[test]
fn fresh_generators_with_one_seed_draw_the_same_sequence() {
    for seed in [0u32, 1, 7, 12345, 0xdead_beef, u32::MAX] {
        let mut a = Rand::new(seed);
        let mut b = Rand::new(seed);
        let mut state = seed;
        for _ in 0..1000 {
            let x = a.gen();
            state = hash1(state);
            assert_eq!(x, b.gen());
            assert_eq!(x, state);
        }
    }
}

#[test]
fn seeding_from_coordinates_hashes_them() {
    let v2 = UVec2 { x: 3, y: 4 };
    let v3 = UVec3 { x: 3, y: 4, z: 5 };
    assert_eq!(Rand::from(v2).gen(), hash1(hash2(v2)));
    assert_eq!(Rand::from(v3).gen(), hash1(hash3(v3)));
    assert_ne!(Rand::from(v3).gen(), Rand::from(UVec3 { x: 3, y: 4, z: 6 }).gen());
}

#[test]
fn unit_float_bits_known_values() {
    assert_eq!(unit_float_bits(0), 0x3f80_0000);
    assert_eq!(unit_float_bits(u32::MAX), 0x3fff_ffff);
    assert_eq!(unit_float_bits(0x1234_5678), 0x3fb4_5678);
    assert_eq!(f32::from_bits(unit_float_bits(0)) - 1.0, 0.0);
    assert_eq!(f32::from_bits(unit_float_bits(0x0040_0000)) - 1.0, 0.5);
}

#[test]
fn draws_as_floats_lie_in_the_unit_interval() {
    for seed in [1u32, 2, 99, 0x8000_0000, u32::MAX] {
        let mut rand = Rand::new(seed);
        for _ in 0..10_000 {
            let f = f32::from_bits(unit_float_bits(rand.gen())) - 1.0;
            assert!((0.0..1.0).contains(&f));
        }
    }
}
