use level_editor::editor::Editor;
use level_editor::editor::EditorMode;
use level_editor::editor::ToolButton;
use level_editor::editor::ATLAS_TILE_COUNT;
use level_editor::geometry::Camera;
use level_editor::geometry::ScreenPos;
use level_editor::geometry::Viewport;
use level_editor::geometry::WorldPos;
use level_editor::geometry::CAMERA_BOUND;
use level_editor::input::Key;
use level_editor::ui::UiRegion;
use level_editor::world::ObjectKind;
use level_editor::world::Tool;

fn editing_editor() -> Editor {
    let mut e = Editor::new();
    e.path_key(Key::Enter);
    assert_eq!(e.mode, EditorMode::Editing);
    e
}

fn vp() -> Viewport {
    Viewport { width: 800, height: 600 }
}

#[test]
fn new_session_defaults() {
    let e = Editor::new();
    assert_eq!(e.mode, EditorMode::LoadingAssetPath);
    assert_eq!(e.tool, Tool::DrawTile);
    assert_eq!(e.selected_tile, 0);
    assert_eq!(e.camera, Camera { x: 0, y: 0 });
    assert!(!e.picker_visible);
    assert!(e.path.is_empty());
    assert!(e.world.objects.is_empty());
    assert_eq!(ATLAS_TILE_COUNT, 16);
}

#[test]
fn path_prompt_accumulates_characters() {
    let mut e = Editor::new();
    for k in [Key::T, Key::I, Key::L, Key::E, Key::S, Key::Period, Key::P, Key::N, Key::G] {
        e.path_key(k);
    }
    assert_eq!(e.path, b"tiles.png".to_vec());
    e.path_key(Key::Slash);
    e.path_key(Key::Minus);
    e.path_key(Key::ShiftLeft);
    assert_eq!(e.path, b"tiles.png/__".to_vec());
}

#[test]
fn path_prompt_backspace_deletes_last() {
    let mut e = Editor::new();
    e.path_key(Key::A);
    e.path_key(Key::B);
    e.path_key(Key::Backspace);
    assert_eq!(e.path, b"a".to_vec());
}

#[test]
fn path_prompt_backspace_on_empty_is_noop() {
    let mut e = Editor::new();
    e.path_key(Key::Backspace);
    assert!(e.path.is_empty());
    assert_eq!(e.mode, EditorMode::LoadingAssetPath);
}

#[test]
fn confirming_path_enters_editing_one_way() {
    let mut e = Editor::new();
    e.path_key(Key::M);
    e.path_key(Key::A);
    e.path_key(Key::P);
    e.path_key(Key::Enter);
    assert_eq!(e.mode, EditorMode::Editing);
    assert_eq!(e.path, b"map".to_vec());
}

#[test]
fn click_places_selected_tile_at_snapped_cell() {
    // selected tile 5, tool DrawTile, click over world cell (48, 72):
    // one tile with index 5 at the snapped centre (60, 84).
    let mut e = editing_editor();
    e.set_selected_tile(5);
    let regions: Vec<UiRegion> = Vec::new();
    e.apply_click(ScreenPos { x: 448, y: 228 }, vp(), &regions);
    assert_eq!(e.world.objects.len(), 1);
    assert_eq!(e.world.objects[0].kind, ObjectKind::Tile(5));
    assert_eq!(e.world.objects[0].pos, WorldPos { x: 60, y: 84 });
}

#[test]
fn click_inside_ui_region_is_fully_discarded() {
    let mut e = editing_editor();
    let regions = vec![
        UiRegion { center_x: 40, center_y: 300, half_width: 40, half_height: 300 },
    ];
    // strictly inside the toolbar's box: no placement at all
    e.apply_click(ScreenPos { x: 10, y: 150 }, vp(), &regions);
    assert!(e.world.objects.is_empty());
    // erase and player moves are suppressed the same way
    e.tool_button_pressed(ToolButton::Player);
    e.apply_click(ScreenPos { x: 79, y: 599 }, vp(), &regions);
    assert!(e.world.objects.is_empty());
    // a click beside the region still works
    e.apply_click(ScreenPos { x: 500, y: 300 }, vp(), &regions);
    assert_eq!(e.world.objects.len(), 1);
}

#[test]
fn erase_click_removes_overlapping_objects() {
    let mut e = editing_editor();
    let regions: Vec<UiRegion> = Vec::new();
    let click = ScreenPos { x: 448, y: 228 };
    e.apply_click(click, vp(), &regions);
    e.tool_button_pressed(ToolButton::Hazard);
    e.apply_click(click, vp(), &regions);
    assert_eq!(e.world.objects.len(), 2);
    e.tool_button_pressed(ToolButton::Erase);
    e.apply_click(click, vp(), &regions);
    assert!(e.world.objects.is_empty());
}

#[test]
fn toolbar_buttons_select_their_tool() {
    let mut e = editing_editor();
    e.tool_button_pressed(ToolButton::Hazard);
    assert_eq!(e.tool, Tool::DrawHazard);
    e.tool_button_pressed(ToolButton::Mob);
    assert_eq!(e.tool, Tool::DrawMob);
    e.tool_button_pressed(ToolButton::Erase);
    assert_eq!(e.tool, Tool::Erase);
    e.tool_button_pressed(ToolButton::Player);
    assert_eq!(e.tool, Tool::PlacePlayer);
    e.tool_button_pressed(ToolButton::Tile);
    assert_eq!(e.tool, Tool::DrawTile);
}

#[test]
fn selecting_erase_clears_no_other_state() {
    let mut e = editing_editor();
    e.set_selected_tile(7);
    e.toggle_picker();
    e.tool_button_pressed(ToolButton::Erase);
    assert_eq!(e.selected_tile, 7);
    assert!(e.picker_visible);
    assert_eq!(e.mode, EditorMode::Editing);
}

#[test]
fn selected_tile_is_stored_unvalidated() {
    let mut e = editing_editor();
    e.set_selected_tile(99);
    assert_eq!(e.selected_tile, 99);
}

#[test]
fn picker_toggle_flips_visibility() {
    let mut e = editing_editor();
    assert!(!e.picker_visible);
    e.toggle_picker();
    assert!(e.picker_visible);
    e.toggle_picker();
    assert!(!e.picker_visible);
}

#[test]
fn canvas_reset_clears_objects_and_keeps_settings() {
    let mut e = editing_editor();
    e.set_selected_tile(3);
    let regions: Vec<UiRegion> = Vec::new();
    e.apply_click(ScreenPos { x: 448, y: 228 }, vp(), &regions);
    e.tool_button_pressed(ToolButton::Player);
    e.apply_click(ScreenPos { x: 100, y: 100 }, vp(), &regions);
    assert_eq!(e.world.objects.len(), 2);
    e.reset_canvas();
    assert!(e.world.objects.is_empty());
    assert_eq!(e.selected_tile, 3);
    assert_eq!(e.tool, Tool::PlacePlayer);
}

#[test]
fn player_clicks_keep_a_single_player() {
    let mut e = editing_editor();
    e.tool_button_pressed(ToolButton::Player);
    let regions: Vec<UiRegion> = Vec::new();
    e.apply_click(ScreenPos { x: 448, y: 228 }, vp(), &regions);
    e.apply_click(ScreenPos { x: 100, y: 100 }, vp(), &regions);
    assert_eq!(e.world.objects.len(), 1);
    assert_eq!(e.world.objects[0].kind, ObjectKind::Player);
    // cursor (100, 100): world (-300, 200), snapped to (-300, 204)
    assert_eq!(e.world.objects[0].pos, WorldPos { x: -300, y: 204 });
}

#[test]
fn click_outside_viewport_places_at_origin_cell() {
    let mut e = editing_editor();
    let regions: Vec<UiRegion> = Vec::new();
    e.apply_click(ScreenPos { x: 900, y: 10 }, vp(), &regions);
    assert_eq!(e.world.objects.len(), 1);
    assert_eq!(e.world.objects[0].pos, WorldPos { x: 12, y: 12 });
}

#[test]
fn camera_pan_moves_and_opposite_keys_cancel() {
    let mut e = editing_editor();
    e.pan_camera(false, true, false, true, 300);
    assert_eq!(e.camera, Camera { x: 300, y: 300 });
    e.pan_camera(true, false, false, false, 50);
    assert_eq!(e.camera, Camera { x: 250, y: 300 });
    e.pan_camera(true, true, true, true, 300);
    assert_eq!(e.camera, Camera { x: 250, y: 300 });
}

#[test]
fn camera_pan_is_clamped_to_working_volume() {
    let mut e = editing_editor();
    e.camera = Camera { x: CAMERA_BOUND - 10, y: -CAMERA_BOUND + 10 };
    e.pan_camera(false, true, true, false, 300);
    assert_eq!(e.camera, Camera { x: CAMERA_BOUND, y: -CAMERA_BOUND });
}

#[test]
fn panned_camera_shifts_click_mapping() {
    let mut e = editing_editor();
    e.pan_camera(false, true, false, false, 240);
    let regions: Vec<UiRegion> = Vec::new();
    // cursor over continuous world position (240 + 48, 72)
    e.apply_click(ScreenPos { x: 448, y: 228 }, vp(), &regions);
    assert_eq!(e.world.objects[0].pos, WorldPos { x: 300, y: 84 });
}

#[test]
fn buffered_clicks_drain_in_arrival_order() {
    let mut e = editing_editor();
    e.tool_button_pressed(ToolButton::Player);
    let regions: Vec<UiRegion> = Vec::new();
    let clicks = vec![ScreenPos { x: 448, y: 228 }, ScreenPos { x: 100, y: 100 }];
    e.apply_clicks(&clicks, vp(), &regions);
    assert_eq!(e.world.objects.len(), 1);
    // the player ends at the position of the later click
    assert_eq!(e.world.objects[0].pos, WorldPos { x: -300, y: 204 });
}

#[test]
fn occluded_click_in_a_batch_is_skipped_alone() {
    let mut e = editing_editor();
    let regions = vec![
        UiRegion { center_x: 40, center_y: 300, half_width: 40, half_height: 300 },
    ];
    let clicks = vec![
        ScreenPos { x: 10, y: 150 },  // on the panel: discarded
        ScreenPos { x: 448, y: 228 }, // on the canvas: placed
    ];
    e.apply_clicks(&clicks, vp(), &regions);
    assert_eq!(e.world.objects.len(), 1);
    assert_eq!(e.world.objects[0].pos, WorldPos { x: 60, y: 84 });
}
