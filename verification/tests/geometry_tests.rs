use level_editor::geometry::snap_coord;
use level_editor::geometry::screen_to_world;
use level_editor::geometry::world_to_screen;
use level_editor::geometry::Camera;
use level_editor::geometry::ScreenPos;
use level_editor::geometry::Viewport;
use level_editor::geometry::WorldPos;

#[test]
fn snap_centers_cells() {
    assert_eq!(snap_coord(48), 60);
    assert_eq!(snap_coord(72), 84);
    assert_eq!(snap_coord(0), 12);
    assert_eq!(snap_coord(23), 12);
    assert_eq!(snap_coord(24), 36);
    assert_eq!(snap_coord(12), 12);
}

#[test]
fn snap_negative_coordinates_floor() {
    assert_eq!(snap_coord(-1), -12);
    assert_eq!(snap_coord(-24), -12);
    assert_eq!(snap_coord(-25), -36);
    assert_eq!(snap_coord(-48), -36);
}

#[test]
fn snap_is_idempotent() {
    for c in [-100i64, -25, -1, 0, 11, 12, 23, 48, 72, 1000] {
        let once = snap_coord(c);
        assert_eq!(snap_coord(once), once);
    }
}

#[test]
fn screen_to_world_snaps_cursor() {
    let cam = Camera { x: 0, y: 0 };
    let vp = Viewport { width: 800, height: 600 };
    // cursor over continuous world position (48, 72)
    let w = screen_to_world(&cam, &vp, ScreenPos { x: 448, y: 228 });
    assert_eq!(w, WorldPos { x: 60, y: 84 });
}

#[test]
fn screen_to_world_outside_viewport_falls_back_to_origin_cell() {
    let cam = Camera { x: 0, y: 0 };
    let vp = Viewport { width: 800, height: 600 };
    let w = screen_to_world(&cam, &vp, ScreenPos { x: 900, y: 10 });
    assert_eq!(w, WorldPos { x: 12, y: 12 });
    let w2 = screen_to_world(&cam, &vp, ScreenPos { x: -3, y: 10 });
    assert_eq!(w2, WorldPos { x: 12, y: 12 });
}

#[test]
fn screen_world_round_trip_keeps_cell() {
    let cam = Camera { x: 120, y: -48 };
    let vp = Viewport { width: 800, height: 600 };
    let w = WorldPos { x: 60, y: 84 };
    let p = world_to_screen(&cam, &vp, w).expect("on screen");
    let back = screen_to_world(&cam, &vp, p);
    assert_eq!(back, w);
}

#[test]
fn world_to_screen_offscreen_is_none() {
    let cam = Camera { x: 0, y: 0 };
    let vp = Viewport { width: 800, height: 600 };
    assert_eq!(world_to_screen(&cam, &vp, WorldPos { x: 100_000, y: 12 }), None);
    assert_eq!(world_to_screen(&cam, &vp, WorldPos { x: 12, y: -100_000 }), None);
}
