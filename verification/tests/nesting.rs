use bert::components::SceneNode;
use bert::nesting::NestingLevel;
use bert::scene::Scene;
use bert::units::{whole, Factor, ONE};

#[test]
fn scale_at_depth_zero_is_the_zoom() {
    for raw in [0u32, 1, 32768, 65536, 98304, 200_000, u32::MAX] {
        let zoom = Factor { raw };
        assert_eq!(NestingLevel::compute_scale(0, zoom), zoom);
    }
}

#[test]
fn scale_halves_with_each_level() {
    let zoom = Factor { raw: ONE };
    assert_eq!(NestingLevel::compute_scale(1, zoom).raw, 32768);
    assert_eq!(NestingLevel::compute_scale(2, zoom).raw, 16384);
    assert_eq!(NestingLevel::compute_scale(3, zoom).raw, 8192);
    assert_eq!(NestingLevel::compute_scale(16, zoom).raw, 1);
    assert_eq!(NestingLevel::compute_scale(17, zoom).raw, 0);
}

#[test]
fn scale_is_zoom_times_depth_factor() {
    let zoom = Factor { raw: 3 * ONE / 2 };
    assert_eq!(NestingLevel::compute_scale(1, zoom).raw, 49152);
    assert_eq!(NestingLevel::compute_scale(2, zoom).raw, 24576);
}

#[test]
fn scale_rounds_down() {
    assert_eq!(NestingLevel::compute_scale(1, Factor { raw: 7 }).raw, 3);
    assert_eq!(NestingLevel::compute_scale(2, Factor { raw: 7 }).raw, 1);
    assert_eq!(NestingLevel::compute_scale(3, Factor { raw: 7 }).raw, 0);
}

#[test]
fn scale_vanishes_at_great_depth() {
    let zoom = Factor { raw: u32::MAX };
    assert_eq!(NestingLevel::compute_scale(31, zoom).raw, 1);
    assert_eq!(NestingLevel::compute_scale(32, zoom).raw, 0);
    assert_eq!(NestingLevel::compute_scale(33, zoom).raw, 0);
    assert_eq!(NestingLevel::compute_scale(64, zoom).raw, 0);
    assert_eq!(NestingLevel::compute_scale(u16::MAX, zoom).raw, 0);
}

#[test]
fn scale_never_grows_with_depth() {
    for raw in [1u32, 65535, 65536, 65537, 1_000_000, u32::MAX] {
        let zoom = Factor { raw };
        let mut previous = NestingLevel::compute_scale(0, zoom).raw;
        for level in 1..80u16 {
            let scale = NestingLevel::compute_scale(level, zoom).raw;
            assert!(scale <= previous, "level {} at zoom {}", level, raw);
            previous = scale;
        }
    }
}

#[test]
fn nesting_level_new_keeps_the_level() {
    assert_eq!(NestingLevel::new(0).level, 0);
    assert_eq!(NestingLevel::new(9).level, 9);
}

#[test]
fn current_level_counts_subsystem_boundaries() {
    let mut scene = Scene::new();
    let root = scene.spawn_system();
    let child = scene.spawn_subsystem(root).unwrap();
    let grandchild = scene.spawn_subsystem(child).unwrap();
    let sibling = scene.spawn_subsystem(root).unwrap();
    assert_eq!(NestingLevel::current(root, &scene), 0);
    assert_eq!(NestingLevel::current(child, &scene), 1);
    assert_eq!(NestingLevel::current(grandchild, &scene), 2);
    assert_eq!(NestingLevel::current(sibling, &scene), 1);
}

#[test]
fn current_level_of_a_flow_is_the_level_it_was_spawned_at() {
    let mut scene = Scene::new();
    let flow = scene.spawn_flow(4);
    assert_eq!(NestingLevel::current(flow, &scene), 4);
    assert_eq!(flow, SceneNode { index: 0 });
}

#[test]
fn whole_units_are_scaled_by_one() {
    assert_eq!(whole(0), 0);
    assert_eq!(whole(1), 65536);
    assert_eq!(whole(-3), -196608);
    assert_eq!(whole(i32::MAX), 2147483647i64 * 65536);
    assert_eq!(whole(i32::MIN), -2147483648i64 * 65536);
    assert_eq!(Factor::identity().raw, ONE);
}
