use path_tracer::bvh::BvhIndex;
use path_tracer::data::Face;
use path_tracer::integrator::{Bounce, PathAction, PathState};
use path_tracer::material::Reflection;

#[test]
fn no_bounce_allowed_gives_black() {
    let path = PathState::new(0);
    assert_eq!(path.next_action(), PathAction::ReturnBlack);
}

#[test]
fn escaping_ray_takes_the_sky() {
    let mut path = PathState::new(1);
    assert_eq!(path.next_action(), PathAction::Trace);
    path.record(Bounce::Escaped);
    assert_eq!(path.next_action(), PathAction::ReturnSky);
}

#[test]
fn absorbed_ray_is_black() {
    let mut path = PathState::new(50);
    path.record(Bounce::Scattered);
    assert_eq!(path.next_action(), PathAction::Trace);
    path.record(Bounce::Absorbed);
    assert_eq!(path.next_action(), PathAction::ReturnBlack);
}

#[test]
fn exhausted_path_is_black() {
    let mut path = PathState::new(3);
    for _ in 0..2 {
        path.record(Bounce::Scattered);
        assert_eq!(path.next_action(), PathAction::Trace);
    }
    path.record(Bounce::Scattered);
    assert_eq!(path.next_action(), PathAction::ReturnBlack);
}

#[test]
fn escape_on_last_bounce_still_takes_the_sky() {
    let mut path = PathState::new(2);
    path.record(Bounce::Scattered);
    path.record(Bounce::Escaped);
    assert_eq!(path.next_action(), PathAction::ReturnSky);
}

#[test]
fn bvh_children_follow_the_heap_layout() {
    let root = BvhIndex(0);
    assert_eq!(root.left(), BvhIndex(1));
    assert_eq!(root.right(), BvhIndex(2));
    assert_eq!(BvhIndex(5).left(), BvhIndex(11));
    assert_eq!(BvhIndex(5).right(), BvhIndex(12));
}

#[test]
fn defaults_are_front_face_and_diffuse() {
    assert_eq!(Face::default(), Face::Front);
    assert_eq!(Reflection::default(), Reflection::Diffuse);
}
