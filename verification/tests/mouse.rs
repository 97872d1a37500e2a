use sprite_collider::editor::{map_cursor, Editor, MouseFrame, ScreenPoint, WindowSize};
use sprite_collider::geometry::{GridPoint, WorldPoint};
use sprite_collider::scale::{Key, Scale};
use sprite_collider::shape::SpritePhysicsAsset;

const WINDOW: WindowSize = WindowSize { width: 800, height: 600 };

fn at(x: i32, y: i32) -> ScreenPoint {
    ScreenPoint { x, y }
}

fn scale_of(sixteenths: u32) -> Scale {
    Scale::from_sixteenths(sixteenths).unwrap()
}

fn parts(p: &WorldPoint) -> (i64, i64, i64) {
    (p.x(), p.y(), p.den())
}

fn editor() -> Editor {
    Editor::new(SpritePhysicsAsset {
        img_file: String::from("sprite.png"),
        points: Vec::new(),
        sensor: false,
    })
}

fn frame(moves: &[ScreenPoint], primary_down: bool) -> MouseFrame {
    MouseFrame { window: Some(WINDOW), cursor_moved: moves.to_vec(), primary_down }
}

/// The mapping and the snapping on single-precision numbers.
fn snapped_float(position: f32, size: f32, scale: f32) -> f32 {
    let world = (position - size * 0.5) / scale;
    (world * 2.0).round() * 0.5
}

#[test]
fn middle_of_the_window_is_the_world_origin() {
    let cursor = map_cursor(at(400, 300), WINDOW, Scale::one());
    assert_eq!(parts(&cursor), (0, 0, 16));
    assert_eq!(cursor.snap(), GridPoint { x: 0, y: 0 });
}

#[test]
fn map_cursor_centres_and_divides_by_the_scale() {
    // (500 - 400) / 1 = 100, (250 - 300) / 1 = -50, counted as 16ths over 16.
    let one = map_cursor(at(500, 250), WINDOW, Scale::one());
    assert_eq!(parts(&one), (1600, -800, 16));
    assert_eq!(one.snap(), GridPoint { x: 200, y: -100 });
    // At scale 4 the same pixel is a quarter as far out.
    let four = map_cursor(at(500, 250), WINDOW, scale_of(64));
    assert_eq!(parts(&four), (1600, -800, 64));
    assert_eq!(four.snap(), GridPoint { x: 50, y: -25 });
    // At scale 1/2 it is twice as far out.
    let half = map_cursor(at(500, 250), WINDOW, scale_of(8));
    assert_eq!(parts(&half), (1600, -800, 8));
    assert_eq!(half.snap(), GridPoint { x: 400, y: -200 });
}

#[test]
fn map_cursor_halves_odd_window_sizes_exactly() {
    let window = WindowSize { width: 801, height: 601 };
    // 401 - 400.5 = 0.5, 300 - 300.5 = -0.5
    let cursor = map_cursor(at(401, 300), window, Scale::one());
    assert_eq!(parts(&cursor), (8, -8, 16));
    assert_eq!(cursor.snap(), GridPoint { x: 1, y: -1 });
}

#[test]
fn map_cursor_takes_the_whole_range_of_its_inputs() {
    let window = WindowSize { width: u32::MAX, height: 0 };
    let cursor = map_cursor(at(i32::MIN, i32::MAX), window, scale_of(1));
    let x = 8 * (2 * i32::MIN as i64 - u32::MAX as i64);
    let y = 8 * (2 * i32::MAX as i64);
    assert_eq!(parts(&cursor), (x, y, 1));
    assert_eq!(cursor.snap(), GridPoint { x: 2 * x, y: 2 * y });
}

#[test]
fn mapping_and_snapping_agree_with_single_precision() {
    for sixteenths in [1u32, 2, 4, 8, 16, 32, 48, 112, 160] {
        for x in (0..800).step_by(7) {
            for y in (0..600).step_by(11) {
                let g = map_cursor(at(x, y), WINDOW, scale_of(sixteenths)).snap();
                let scale = sixteenths as f32 / 16.0;
                assert_eq!(g.x as f32 * 0.5, snapped_float(x as f32, 800.0, scale));
                assert_eq!(g.y as f32 * 0.5, snapped_float(y as f32, 600.0, scale));
            }
        }
    }
}

#[test]
fn cursor_follows_the_last_move_of_the_frame() {
    let mut e = editor();
    e.handle_mouse(&frame(&[at(10, 10), at(500, 250), at(420, 330)], false));
    assert_eq!(parts(&e.cursor_world), (8 * 40, 8 * 60, 16));
    assert!(e.asset.points.is_empty());
}

#[test]
fn cursor_stays_without_a_move() {
    let mut e = editor();
    e.handle_mouse(&frame(&[at(420, 330)], false));
    let before = e.clone();
    e.handle_mouse(&frame(&[], false));
    assert_eq!(e, before);
}

#[test]
fn cursor_stays_while_the_window_has_no_size() {
    let mut e = editor();
    e.handle_mouse(&frame(&[at(420, 330)], false));
    let before = e.clone();
    let sizeless = MouseFrame { window: None, cursor_moved: vec![at(1, 2)], primary_down: false };
    e.handle_mouse(&sizeless);
    assert_eq!(e, before);
}

#[test]
fn cursor_keeps_the_scale_it_was_mapped_with() {
    let mut e = editor();
    e.handle_mouse(&frame(&[at(500, 250)], false));
    e.adjust_scale(&vec![Key::Key4]);
    assert_eq!(parts(&e.cursor_world), (1600, -800, 16));
    e.handle_mouse(&frame(&[at(500, 250)], false));
    assert_eq!(parts(&e.cursor_world), (1600, -800, 64));
}

#[test]
fn press_appends_the_snapped_cursor_and_marks_dirty() {
    let mut e = editor();
    e.main_image.dirty = false;
    e.adjust_scale(&vec![Key::Key3]);
    // (410 - 400) / 3 = 3.33.. -> 3.5, (296 - 300) / 3 = -1.33.. -> -1.5
    e.handle_mouse(&frame(&[at(410, 296)], true));
    assert_eq!(e.asset.points, vec![GridPoint { x: 7, y: -3 }]);
    assert!(e.main_image.dirty);
    assert!(e.primary_down);
}

#[test]
fn press_uses_the_move_of_the_same_frame() {
    let mut e = editor();
    e.handle_mouse(&frame(&[at(0, 0)], false));
    e.handle_mouse(&frame(&[at(401, 302)], true));
    assert_eq!(e.asset.points, vec![GridPoint { x: 2, y: 4 }]);
}

#[test]
fn press_without_a_move_uses_the_cursor_as_it_was() {
    let mut e = editor();
    e.handle_mouse(&frame(&[at(403, 300)], false));
    e.handle_mouse(&frame(&[], true));
    assert_eq!(e.asset.points, vec![GridPoint { x: 6, y: 0 }]);
    let mut sizeless = editor();
    sizeless.handle_mouse(&frame(&[at(403, 300)], false));
    sizeless.handle_mouse(&MouseFrame { window: None, cursor_moved: vec![at(9, 9)], primary_down: true });
    assert_eq!(sizeless.asset.points, vec![GridPoint { x: 6, y: 0 }]);
    assert!(sizeless.main_image.dirty);
}

#[test]
fn held_button_appends_one_point_however_long() {
    let mut e = editor();
    for n in 0..50 {
        e.handle_mouse(&frame(&[at(400 + n, 300)], true));
        assert_eq!(e.asset.points, vec![GridPoint { x: 0, y: 0 }]);
    }
    assert!(e.primary_down);
}

#[test]
fn held_button_stays_one_press_across_key_frames() {
    let mut e = editor();
    e.handle_mouse(&frame(&[at(410, 300)], true));
    e.adjust_scale(&vec![Key::Minus]);
    e.handle_mouse(&frame(&[at(420, 300)], true));
    e.adjust_scale(&vec![Key::Key5]);
    e.handle_mouse(&frame(&[], true));
    assert_eq!(e.asset.points, vec![GridPoint { x: 20, y: 0 }]);
}

#[test]
fn button_already_down_is_no_press() {
    let mut e = editor();
    e.primary_down = true;
    e.main_image.dirty = false;
    e.handle_mouse(&frame(&[at(410, 300)], true));
    assert!(e.asset.points.is_empty());
    assert!(!e.main_image.dirty);
}

#[test]
fn every_press_after_a_release_appends() {
    let mut e = editor();
    e.handle_mouse(&frame(&[at(400, 300)], true));
    e.handle_mouse(&frame(&[], false));
    e.handle_mouse(&frame(&[at(402, 300)], true));
    e.handle_mouse(&frame(&[], true));
    e.handle_mouse(&frame(&[], false));
    e.handle_mouse(&frame(&[at(402, 303)], true));
    assert_eq!(
        e.asset.points,
        vec![GridPoint { x: 0, y: 0 }, GridPoint { x: 4, y: 0 }, GridPoint { x: 4, y: 6 }]
    );
}

#[test]
fn clicking_the_same_spot_twice_stores_it_twice() {
    let mut e = editor();
    e.handle_mouse(&frame(&[at(405, 300)], true));
    e.handle_mouse(&frame(&[], false));
    e.handle_mouse(&frame(&[], true));
    assert_eq!(e.asset.points, vec![GridPoint { x: 10, y: 0 }, GridPoint { x: 10, y: 0 }]);
}

#[test]
fn release_changes_nothing_but_the_button() {
    let mut e = editor();
    e.handle_mouse(&frame(&[at(405, 300)], true));
    let mut expected = e.clone();
    e.handle_mouse(&frame(&[], false));
    expected.primary_down = false;
    assert_eq!(e, expected);
}

#[test]
fn scale_change_leaves_stored_points_alone() {
    let mut e = editor();
    e.handle_mouse(&frame(&[at(405, 300)], true));
    e.handle_mouse(&frame(&[], false));
    let stored = e.asset.points.clone();
    for key in [Key::Key9, Key::Minus, Key::Key1, Key::Minus, Key::Minus, Key::Plus] {
        e.adjust_scale(&vec![key]);
        assert_eq!(e.asset.points, stored);
    }
    e.handle_mouse(&frame(&[at(405, 300)], true));
    assert_eq!(e.asset.points[0], stored[0]);
    assert_eq!(e.asset.points.len(), 2);
}

#[test]
fn mouse_leaves_asset_details_and_collider_alone() {
    let mut e = Editor::new(SpritePhysicsAsset {
        img_file: String::from("ship.png"),
        points: vec![GridPoint { x: 1, y: 2 }],
        sensor: true,
    });
    e.handle_mouse(&frame(&[at(405, 300)], true));
    assert_eq!(e.asset.img_file, "ship.png");
    assert!(e.asset.sensor);
    assert_eq!(e.collider, None);
    assert_eq!(e.scale, Scale::one());
    assert_eq!(e.asset.points, vec![GridPoint { x: 1, y: 2 }, GridPoint { x: 10, y: 0 }]);
}
