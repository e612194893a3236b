//! The editor session: its state machine and the click pipeline.
//!
//! A session starts at the asset-path prompt (`LoadingAssetPath`), where key
//! presses build up the atlas path; confirming moves it one way into
//! `Editing`, with no way back short of restarting.  While editing, a mouse
//! click runs through the occlusion filter (clicks on UI panels are fully
//! discarded), then through the coordinate mapper, and finally through the
//! placement engine under the active tool and selected atlas index.  The
//! toolbar, tile picker, picker toggle, canvas reset and camera pan each
//! mutate exactly one piece of this state.

use vstd::prelude::*;

verus! {

use crate::geometry::CAMERA_BOUND;
use crate::geometry::Camera;
use crate::geometry::ScreenPos;
use crate::geometry::Viewport;
use crate::geometry::spec_screen_to_world;
use crate::geometry::screen_to_world;
use crate::input::Key;
use crate::input::allowed_path_byte;
use crate::input::char_for_key;
use crate::input::spec_char_for_key;
use crate::ui::UiRegion;
use crate::ui::is_occluded;
use crate::ui::spec_occluded;
use crate::world::Tool;
use crate::world::World;
use crate::world::next_world_id;
use crate::world::next_world_objects;

/// Columns of the fixed tile atlas grid.
pub const ATLAS_COLUMNS: usize = 4;

/// Rows of the fixed tile atlas grid.
pub const ATLAS_ROWS: usize = 4;

/// Number of selectable tiles in the atlas.
pub const ATLAS_TILE_COUNT: usize = ATLAS_COLUMNS * ATLAS_ROWS;

/// The session's phase: typing the atlas path, or editing the level.  The
/// transition is one-way.
#[derive(Clone, Copy, PartialEq, Eq, Structural, Debug)]
pub enum EditorMode {
    LoadingAssetPath,
    Editing,
}

/// A toolbar button; pressing it selects the matching tool.
#[derive(Clone, Copy, PartialEq, Eq, Structural, Debug)]
pub enum ToolButton {
    Tile,
    Hazard,
    Mob,
    Erase,
    Player,
}

/// The tool each toolbar button activates.
pub open spec fn tool_for_button(b: ToolButton) -> Tool {
    match b {
        ToolButton::Tile => Tool::DrawTile,
        ToolButton::Hazard => Tool::DrawHazard,
        ToolButton::Mob => Tool::DrawMob,
        ToolButton::Erase => Tool::Erase,
        ToolButton::Player => Tool::PlacePlayer,
    }
}

/// Net camera movement on one axis: `step` units towards the positive
/// direction, the negative one, or neither when both or no keys are held.
pub open spec fn pan_delta(negative: bool, positive: bool, step: int) -> int {
    (if positive {
        step
    } else {
        0
    }) - (if negative {
        step
    } else {
        0
    })
}

/// A camera coordinate, kept inside the working volume.
pub open spec fn clamp_to_camera_bound(c: int) -> int {
    if c < -CAMERA_BOUND {
        -CAMERA_BOUND as int
    } else if c > CAMERA_BOUND {
        CAMERA_BOUND as int
    } else {
        c
    }
}

/// The whole editor state: session phase, typed asset path, active tool,
/// selected atlas index, camera, tile-picker visibility, and the level.
pub struct Editor {
    pub mode: EditorMode,
    pub path: Vec<u8>,
    pub tool: Tool,
    pub selected_tile: usize,
    pub camera: Camera,
    pub picker_visible: bool,
    pub world: World,
}

impl Editor {
    /// The level and the camera are well-formed, and the typed path uses
    /// only the path alphabet.
    pub open spec fn wf(self) -> bool {
        &&& self.world.wf()
        &&& self.camera.wf()
        &&& forall|i: int| 0 <= i < self.path@.len() ==> allowed_path_byte(#[trigger] self.path@[i])
    }

    /// A fresh session: at the path prompt with an empty path, the tile
    /// tool active, atlas index 0 selected, the picker hidden, the camera
    /// at the origin, and an empty level.
    pub fn new() -> (e: Editor)
        ensures
            e.wf(),
            e.mode == EditorMode::LoadingAssetPath,
            e.path@ == Seq::<u8>::empty(),
            e.tool == Tool::DrawTile,
            e.selected_tile == 0,
            e.camera == (Camera { x: 0, y: 0 }),
            e.picker_visible == false,
            e.world.objects@ == Seq::<crate::world::WorldObject>::empty(),
            e.world.next_id == 0,
    {
        Editor {
            mode: EditorMode::LoadingAssetPath,
            path: Vec::new(),
            tool: Tool::DrawTile,
            selected_tile: 0,
            camera: Camera { x: 0, y: 0 },
            picker_visible: false,
            world: World::new(),
        }
    }

    /// One key press at the asset-path prompt: character keys append their
    /// character, backspace deletes the last one (and does nothing on an
    /// empty path), and the confirm key commits the path and moves the
    /// session into editing.  No other state is touched.
    pub fn path_key(&mut self, k: Key)
        requires
            old(self).wf(),
            old(self).mode == EditorMode::LoadingAssetPath,
        ensures
            final(self).wf(),
            spec_char_for_key(k) matches Some(b) ==> final(self).path@ == old(self).path@.push(b)
                && final(self).mode == old(self).mode,
            k == Key::Backspace ==> final(self).mode == old(self).mode && final(self).path@ == (
            if old(self).path@.len() == 0 {
                old(self).path@
            } else {
                old(self).path@.drop_last()
            }),
            k == Key::Enter ==> final(self).mode == EditorMode::Editing && final(self).path@ == old(
                self,
            ).path@,
            final(self).tool == old(self).tool,
            final(self).selected_tile == old(self).selected_tile,
            final(self).camera == old(self).camera,
            final(self).picker_visible == old(self).picker_visible,
            final(self).world == old(self).world,
    {
        match char_for_key(k) {
            Some(b) => {
                self.path.push(b);
            },
            None => {
                match k {
                    Key::Backspace => {
                        let _ = self.path.pop();
                    },
                    Key::Enter => {
                        self.mode = EditorMode::Editing;
                    },
                    _ => {
                    },
                }
            },
        }
    }

    /// A press on a toolbar button makes its tool the active one; nothing
    /// else changes.  Selecting `Erase` or `PlacePlayer` in particular
    /// clears no other state.
    pub fn tool_button_pressed(&mut self, b: ToolButton)
        requires
            old(self).wf(),
            old(self).mode == EditorMode::Editing,
        ensures
            final(self).wf(),
            final(self).tool == tool_for_button(b),
            final(self).mode == old(self).mode,
            final(self).path@ == old(self).path@,
            final(self).selected_tile == old(self).selected_tile,
            final(self).camera == old(self).camera,
            final(self).picker_visible == old(self).picker_visible,
            final(self).world == old(self).world,
    {
        self.tool = match b {
            ToolButton::Tile => Tool::DrawTile,
            ToolButton::Hazard => Tool::DrawHazard,
            ToolButton::Mob => Tool::DrawMob,
            ToolButton::Erase => Tool::Erase,
            ToolButton::Player => Tool::PlacePlayer,
        };
    }

    /// A press on a tile-picker button records its atlas index for the next
    /// tile or hazard placement.  The index is stored as handed in; the
    /// picker as built only offers indices below `ATLAS_TILE_COUNT`, and no
    /// range check is applied here.
    pub fn set_selected_tile(&mut self, index: usize)
        requires
            old(self).wf(),
            old(self).mode == EditorMode::Editing,
        ensures
            final(self).wf(),
            final(self).selected_tile == index,
            final(self).mode == old(self).mode,
            final(self).path@ == old(self).path@,
            final(self).tool == old(self).tool,
            final(self).camera == old(self).camera,
            final(self).picker_visible == old(self).picker_visible,
            final(self).world == old(self).world,
    {
        self.selected_tile = index;
    }

    /// The picker-toggle shortcut: flips the tile picker's visibility.
    pub fn toggle_picker(&mut self)
        requires
            old(self).wf(),
            old(self).mode == EditorMode::Editing,
        ensures
            final(self).wf(),
            final(self).picker_visible == !old(self).picker_visible,
            final(self).mode == old(self).mode,
            final(self).path@ == old(self).path@,
            final(self).tool == old(self).tool,
            final(self).selected_tile == old(self).selected_tile,
            final(self).camera == old(self).camera,
            final(self).world == old(self).world,
    {
        self.picker_visible = !self.picker_visible;
    }

    /// The clear-canvas shortcut: removes every placed object.  Tool,
    /// selection, camera and picker state survive the reset.
    pub fn reset_canvas(&mut self)
        requires
            old(self).wf(),
            old(self).mode == EditorMode::Editing,
        ensures
            final(self).wf(),
            final(self).world.objects@ == Seq::<crate::world::WorldObject>::empty(),
            final(self).world.next_id == old(self).world.next_id,
            final(self).mode == old(self).mode,
            final(self).path@ == old(self).path@,
            final(self).tool == old(self).tool,
            final(self).selected_tile == old(self).selected_tile,
            final(self).camera == old(self).camera,
            final(self).picker_visible == old(self).picker_visible,
    {
        self.world.clear();
    }

    /// The camera-pan shortcut: moves the camera `step` units along each
    /// axis whose key is held (opposite keys cancel), clamped to the
    /// working volume.  `left`/`right` move along x, `down`/`up` along y.
    pub fn pan_camera(&mut self, left: bool, right: bool, down: bool, up: bool, step: i64)
        requires
            old(self).wf(),
            old(self).mode == EditorMode::Editing,
            0 <= step <= CAMERA_BOUND,
        ensures
            final(self).wf(),
            final(self).camera.x == clamp_to_camera_bound(
                old(self).camera.x + pan_delta(left, right, step as int),
            ),
            final(self).camera.y == clamp_to_camera_bound(
                old(self).camera.y + pan_delta(down, up, step as int),
            ),
            final(self).mode == old(self).mode,
            final(self).path@ == old(self).path@,
            final(self).tool == old(self).tool,
            final(self).selected_tile == old(self).selected_tile,
            final(self).picker_visible == old(self).picker_visible,
            final(self).world == old(self).world,
    {
        let dx: i64 = (if right {
            step
        } else {
            0
        }) - (if left {
            step
        } else {
            0
        });
        let dy: i64 = (if up {
            step
        } else {
            0
        }) - (if down {
            step
        } else {
            0
        });
        let nx: i64 = self.camera.x + dx;
        let ny: i64 = self.camera.y + dy;
        self.camera.x = if nx < -CAMERA_BOUND {
            -CAMERA_BOUND
        } else if nx > CAMERA_BOUND {
            CAMERA_BOUND
        } else {
            nx
        };
        self.camera.y = if ny < -CAMERA_BOUND {
            -CAMERA_BOUND
        } else if ny > CAMERA_BOUND {
            CAMERA_BOUND
        } else {
            ny
        };
    }

    /// One mouse click while editing.
    ///
    /// If the cursor lies inside any UI region laid out this frame, the
    /// click is fully discarded: no placement, no erase, no player move.
    /// Otherwise the cursor is mapped to the grid-snapped world position
    /// under it (falling back to the origin cell when the cursor is outside
    /// the viewport) and the placement engine applies the active tool there
    /// with the selected atlas index.  Everything but the level is left
    /// unchanged.
    pub fn apply_click(&mut self, cursor: ScreenPos, vp: Viewport, regions: &Vec<UiRegion>)
        requires
            old(self).wf(),
            old(self).mode == EditorMode::Editing,
            old(self).world.next_id < u64::MAX,
            vp.wf(),
        ensures
            final(self).wf(),
            spec_occluded(cursor, regions@) ==> *final(self) == *old(self),
            !spec_occluded(cursor, regions@) ==> final(self).world.objects@ == next_world_objects(
                old(self).world.objects@,
                old(self).world.next_id,
                old(self).tool,
                spec_screen_to_world(old(self).camera, vp, cursor),
                old(self).selected_tile,
            ) && final(self).world.next_id == next_world_id(
                old(self).world.objects@,
                old(self).world.next_id,
                old(self).tool,
            ),
            final(self).mode == old(self).mode,
            final(self).path@ == old(self).path@,
            final(self).tool == old(self).tool,
            final(self).selected_tile == old(self).selected_tile,
            final(self).camera == old(self).camera,
            final(self).picker_visible == old(self).picker_visible,
    {
        if is_occluded(cursor, regions) {
            return ;
        }
        let pos = screen_to_world(&self.camera, &vp, cursor);
        let tool = self.tool;
        let selected = self.selected_tile;
        self.world.apply_tool(tool, pos, selected);
    }

    /// Drains a frame's buffered clicks in arrival order.  Each click is
    /// filtered, mapped and applied exactly as by `apply_click`, against
    /// the UI-region list of the frame; tool, selection and camera are
    /// read, not changed, during the drain.
    pub fn apply_clicks(&mut self, clicks: &Vec<ScreenPos>, vp: Viewport, regions: &Vec<UiRegion>)
        requires
            old(self).wf(),
            old(self).mode == EditorMode::Editing,
            old(self).world.next_id + clicks@.len() <= u64::MAX,
            vp.wf(),
        ensures
            final(self).wf(),
            final(self).world.objects@ == world_after_clicks(
                old(self).world.objects@,
                old(self).world.next_id,
                old(self).tool,
                old(self).selected_tile,
                old(self).camera,
                vp,
                regions@,
                clicks@,
            ).0,
            final(self).world.next_id == world_after_clicks(
                old(self).world.objects@,
                old(self).world.next_id,
                old(self).tool,
                old(self).selected_tile,
                old(self).camera,
                vp,
                regions@,
                clicks@,
            ).1,
            final(self).mode == old(self).mode,
            final(self).path@ == old(self).path@,
            final(self).tool == old(self).tool,
            final(self).selected_tile == old(self).selected_tile,
            final(self).camera == old(self).camera,
            final(self).picker_visible == old(self).picker_visible,
    {
        let ghost s0 = old(self).world.objects@;
        let ghost id0 = old(self).world.next_id;
        let n = clicks.len();
        proof {
            assert(clicks@.subrange(0, n as int) =~= clicks@);
        }
        let mut i: usize = 0;
        while i < n
            invariant
                i <= n,
                n == clicks@.len(),
                self.wf(),
                self.mode == old(self).mode,
                self.mode == EditorMode::Editing,
                self.path@ == old(self).path@,
                self.tool == old(self).tool,
                self.selected_tile == old(self).selected_tile,
                self.camera == old(self).camera,
                self.picker_visible == old(self).picker_visible,
                self.world.next_id + (n - i) <= u64::MAX,
                vp.wf(),
                world_after_clicks(
                    self.world.objects@,
                    self.world.next_id,
                    self.tool,
                    self.selected_tile,
                    self.camera,
                    vp,
                    regions@,
                    clicks@.subrange(i as int, n as int),
                ) == world_after_clicks(s0, id0, self.tool, self.selected_tile, self.camera, vp, regions@, clicks@),
            decreases n - i,
        {
            proof {
                let remaining = clicks@.subrange(i as int, n as int);
                assert(remaining[0] == clicks@[i as int]);
                assert(remaining.subrange(1, remaining.len() as int) =~= clicks@.subrange(
                    i as int + 1,
                    n as int,
                ));
            }
            self.apply_click(clicks[i], vp, regions);
            i = i + 1;
        }
        proof {
            assert(clicks@.subrange(n as int, n as int) =~= Seq::<ScreenPos>::empty());
        }
    }
}

/// The level after one frame's clicks, drained first to last: each click is
/// dropped if the UI occludes it, and otherwise applied at the world
/// position under it.  Returns the object table and the id counter.
pub open spec fn world_after_clicks(
    s: Seq<crate::world::WorldObject>,
    id: u64,
    tool: Tool,
    selected_tile: usize,
    cam: Camera,
    vp: Viewport,
    regions: Seq<UiRegion>,
    clicks: Seq<ScreenPos>,
) -> (Seq<crate::world::WorldObject>, u64)
    decreases clicks.len(),
{
    if clicks.len() == 0 {
        (s, id)
    } else {
        let rest = clicks.subrange(1, clicks.len() as int);
        if spec_occluded(clicks[0], regions) {
            world_after_clicks(s, id, tool, selected_tile, cam, vp, regions, rest)
        } else {
            world_after_clicks(
                next_world_objects(
                    s,
                    id,
                    tool,
                    spec_screen_to_world(cam, vp, clicks[0]),
                    selected_tile,
                ),
                next_world_id(s, id, tool) as u64,
                tool,
                selected_tile,
                cam,
                vp,
                regions,
                rest,
            )
        }
    }
}

} // verus!
