use window_layout::geometry::{Monitor, Position, Size};
use window_layout::placement::Placement;
use window_layout::side_by_side::side_by_side_placement;
use window_layout::window::Role;

fn monitor(x: i32, y: i32, width: u32, height: u32) -> Monitor {
    Monitor { position: Position { x, y }, size: Size { width, height } }
}

fn size(width: u32, height: u32) -> Size {
    Size { width, height }
}

fn moved_to(x: i32, y: i32) -> Option<Placement> {
    Some(Placement { position: Position { x, y }, size: None })
}

#[test]
fn editor_ends_on_the_center_line() {
    let m = monitor(0, 0, 1920, 1080);
    assert_eq!(side_by_side_placement(&m, Role::Editor, size(800, 600)), moved_to(160, 240));
}

#[test]
fn viewer_begins_on_the_center_line() {
    let m = monitor(0, 0, 1920, 1080);
    assert_eq!(side_by_side_placement(&m, Role::Viewer, size(800, 600)), moved_to(960, 240));
}

#[test]
fn side_by_side_leaves_the_size_alone() {
    let m = monitor(0, 0, 1920, 1080);
    for role in [Role::Editor, Role::Viewer] {
        let placement = side_by_side_placement(&m, role, size(800, 600)).unwrap();
        assert_eq!(placement.size, None);
    }
}

#[test]
fn editor_and_viewer_meet_without_gap_or_overlap() {
    let m = monitor(37, -11, 2561, 1439);
    let editor = size(1001, 777);
    let viewer = size(640, 480);
    let e = side_by_side_placement(&m, Role::Editor, editor).unwrap();
    let v = side_by_side_placement(&m, Role::Viewer, viewer).unwrap();
    let center = 37 + 2561 / 2;
    assert_eq!(e.position.x as i64 + editor.width as i64, center);
    assert_eq!(v.position.x as i64, center);
}

#[test]
fn side_by_side_rounds_down_on_odd_sizes() {
    let m = monitor(0, 0, 1921, 1081);
    assert_eq!(side_by_side_placement(&m, Role::Editor, size(801, 601)), moved_to(159, 240));
    assert_eq!(side_by_side_placement(&m, Role::Viewer, size(801, 601)), moved_to(960, 240));
}

#[test]
fn side_by_side_follows_the_monitor_origin() {
    let m = monitor(-1920, -200, 1920, 1080);
    assert_eq!(side_by_side_placement(&m, Role::Editor, size(800, 600)), moved_to(-1760, 40));
    assert_eq!(side_by_side_placement(&m, Role::Viewer, size(800, 600)), moved_to(-960, 40));
}

#[test]
fn each_window_is_centered_by_its_own_height() {
    let m = monitor(0, 0, 1920, 1080);
    assert_eq!(side_by_side_placement(&m, Role::Editor, size(800, 1080)), moved_to(160, 0));
    assert_eq!(side_by_side_placement(&m, Role::Viewer, size(800, 100)), moved_to(960, 490));
    assert_eq!(side_by_side_placement(&m, Role::Viewer, size(800, 0)), moved_to(960, 540));
    assert_eq!(side_by_side_placement(&m, Role::Viewer, size(800, 1)), moved_to(960, 540));
}

#[test]
fn a_window_larger_than_the_monitor_sticks_out() {
    let m = monitor(0, 0, 800, 600);
    assert_eq!(side_by_side_placement(&m, Role::Editor, size(1000, 1000)), moved_to(-600, -200));
    assert_eq!(side_by_side_placement(&m, Role::Viewer, size(1000, 1000)), moved_to(400, -200));
}

#[test]
fn an_empty_monitor_places_at_its_corner() {
    let m = monitor(5, 7, 0, 0);
    assert_eq!(side_by_side_placement(&m, Role::Editor, size(0, 0)), moved_to(5, 7));
    assert_eq!(side_by_side_placement(&m, Role::Viewer, size(0, 0)), moved_to(5, 7));
}

#[test]
fn a_corner_right_of_every_position_is_refused() {
    let m = monitor(i32::MAX - 10, 0, 1920, 1080);
    assert_eq!(side_by_side_placement(&m, Role::Viewer, size(800, 600)), None);
    assert_eq!(side_by_side_placement(&m, Role::Editor, size(800, 600)), None);
    // Wide enough, the editor reaches back among the positions.
    assert_eq!(
        side_by_side_placement(&m, Role::Editor, size(1000, 600)),
        moved_to(i32::MAX - 50, 240)
    );
    assert_eq!(
        side_by_side_placement(&m, Role::Editor, size(950, 600)),
        moved_to(i32::MAX, 240)
    );
    assert_eq!(side_by_side_placement(&m, Role::Editor, size(949, 600)), None);
}

#[test]
fn a_corner_left_of_every_position_is_refused() {
    let m = monitor(i32::MIN, 0, 0, 1080);
    assert_eq!(side_by_side_placement(&m, Role::Editor, size(1, 600)), None);
    assert_eq!(side_by_side_placement(&m, Role::Editor, size(0, 600)), moved_to(i32::MIN, 240));
    assert_eq!(side_by_side_placement(&m, Role::Viewer, size(1, 600)), moved_to(i32::MIN, 240));
}

#[test]
fn a_corner_above_or_below_every_position_is_refused() {
    let low = monitor(0, i32::MAX, 100, 2);
    assert_eq!(side_by_side_placement(&low, Role::Viewer, size(10, 0)), None);
    assert_eq!(side_by_side_placement(&low, Role::Viewer, size(10, 2)), moved_to(50, i32::MAX));
    let high = monitor(0, i32::MIN, 100, 0);
    assert_eq!(side_by_side_placement(&high, Role::Viewer, size(10, 2)), None);
    assert_eq!(side_by_side_placement(&high, Role::Viewer, size(10, 1)), moved_to(50, i32::MIN));
}

#[test]
fn the_largest_sizes_do_not_wrap() {
    let m = monitor(0, 0, u32::MAX, u32::MAX);
    // The centre line is at 2147483647, so the editor begins at
    // 2147483647 - 4294967295, the least position.
    assert_eq!(
        side_by_side_placement(&m, Role::Editor, size(u32::MAX, u32::MAX)),
        moved_to(i32::MIN, 0)
    );
    let left = monitor(-1, 0, u32::MAX, u32::MAX);
    assert_eq!(side_by_side_placement(&left, Role::Editor, size(u32::MAX, u32::MAX)), None);
    assert_eq!(
        side_by_side_placement(&m, Role::Viewer, size(u32::MAX, u32::MAX)),
        moved_to(2_147_483_647, 0)
    );
    assert_eq!(
        side_by_side_placement(&m, Role::Editor, size(0x8000_0000, 0x8000_0000)),
        moved_to(-1, 2_147_483_647 - 0x4000_0000)
    );
}
