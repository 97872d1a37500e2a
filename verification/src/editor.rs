//! The editing cycle: keys select the scale, the pointer is mapped into the
//! world and its clicks extend the outline, and a changed outline of three
//! or more points gets a new collider.

use vstd::prelude::*;
use crate::geometry::{GridPoint, Position, WorldPoint};
use crate::scale::{selected_by, Key, Scale};
use crate::shape::{
    assemble, assembled, close_outline, closed_outline, CompoundShape, CompoundShapeView,
    MainImage, RebuildError, SpritePhysicsAsset, Tessellation, TessellationFailure,
};

verus! {

/// A pointer position in whole screen pixels.
#[derive(Clone, Copy, Debug, PartialEq, Eq, Hash, Structural)]
pub struct ScreenPoint {
    pub x: i32,
    pub y: i32,
}

/// The size of the window in whole screen pixels.
#[derive(Clone, Copy, Debug, PartialEq, Eq, Hash, Structural)]
pub struct WindowSize {
    pub width: u32,
    pub height: u32,
}

/// What the window reports for one frame: its size, if it has one yet, the
/// pointer moves in the order they happened, and whether the primary button
/// is down.
#[derive(Clone, Debug, PartialEq, Eq)]
pub struct MouseFrame {
    pub window: Option<WindowSize>,
    pub cursor_moved: Vec<ScreenPoint>,
    pub primary_down: bool,
}

/// What a call of [`Editor::reconstruct_collider`] did.
#[derive(Clone, Copy, Debug, PartialEq, Eq, Structural)]
pub enum Rebuild {
    /// Nothing was due: the outline is unchanged or has fewer than three points.
    Skipped,
    /// The collider was replaced and the outline is clean again.
    Replaced,
}

/// The state of one authoring session.
#[derive(Clone, Debug, PartialEq, Eq)]
pub struct Editor {
    /// The zoom factor of the display.
    pub scale: Scale,
    /// Where the pointer was in the world when it last moved.
    pub cursor_world: WorldPoint,
    /// Whether the primary button was down in the last frame.
    pub primary_down: bool,
    /// The record that is being authored.
    pub asset: SpritePhysicsAsset,
    /// The dirty flag of the outline.
    pub main_image: MainImage,
    /// The collision shape attached to the sprite, if any.
    pub collider: Option<CompoundShape>,
}

/// The state of an [`Editor`] as mathematical values.
pub struct EditorView {
    /// The scale in sixteenths.
    pub scale: int,
    pub cursor_world: Position,
    pub primary_down: bool,
    pub img_file: Seq<char>,
    pub points: Seq<GridPoint>,
    pub sensor: bool,
    pub dirty: bool,
    pub collider: Option<CompoundShapeView>,
}

/// One step of the editing cycle, with what the outside world fed it.
pub enum Step {
    /// The keys pressed since the last frame.
    Keys(Seq<Key>),
    /// The window's report for the frame.
    Mouse(MouseFrame),
    /// The tessellator's answer for the pending outline.
    Rebuild(Result<Tessellation, TessellationFailure>),
}

/// Where a pointer at `position` lies in the world: its offset from the
/// middle of the window, divided by the scale of `scale / 16`.
pub open spec fn mapped_cursor(position: ScreenPoint, window: WindowSize, scale: int) -> Position {
    Position {
        x: 8 * (2 * position.x - window.width),
        y: 8 * (2 * position.y - window.height),
        den: scale,
    }
}

impl View for Editor {
    type V = EditorView;

    open spec fn view(&self) -> EditorView {
        EditorView {
            scale: self.scale@,
            cursor_world: self.cursor_world@,
            primary_down: self.primary_down,
            img_file: self.asset.img_file@,
            points: self.asset.points@,
            sensor: self.asset.sensor,
            dirty: self.main_image.dirty,
            collider: match self.collider {
                Some(shape) => Some(shape@),
                None => None,
            },
        }
    }
}

impl EditorView {
    /// The state after the keys of one frame: the scale that they select,
    /// if they select one, and nothing else changed.
    pub open spec fn after_keys(self, pressed: Seq<Key>) -> EditorView {
        match selected_by(self.scale, pressed) {
            Some(scale) => EditorView { scale, ..self },
            None => self,
        }
    }

    /// Where the cursor is after a frame: at the frame's last pointer move,
    /// mapped into the world, or where it was if the pointer did not move
    /// or the window has no size yet.
    pub open spec fn cursor_after(self, frame: MouseFrame) -> Position {
        match frame.window {
            Some(window) if frame.cursor_moved@.len() > 0 => mapped_cursor(
                frame.cursor_moved@.last(),
                window,
                self.scale,
            ),
            _ => self.cursor_world,
        }
    }

    /// Whether the frame sees the primary button go down.
    pub open spec fn pressed_in(self, frame: MouseFrame) -> bool {
        frame.primary_down && !self.primary_down
    }

    /// The state after one frame of the window: the cursor follows the
    /// pointer, and a press appends the snapped cursor to the outline and
    /// marks it dirty.
    pub open spec fn after_mouse(self, frame: MouseFrame) -> EditorView {
        let cursor_world = self.cursor_after(frame);
        if self.pressed_in(frame) {
            EditorView {
                cursor_world,
                primary_down: frame.primary_down,
                points: self.points.push(cursor_world.snapped()),
                dirty: true,
                ..self
            }
        } else {
            EditorView { cursor_world, primary_down: frame.primary_down, ..self }
        }
    }

    /// Whether the collider has to be rebuilt: the outline changed and has
    /// at least three points.
    pub open spec fn rebuild_due(self) -> bool {
        self.dirty && self.points.len() >= 3
    }

    /// What a rebuild reports when the tessellator answered `tessellated`.
    pub open spec fn rebuild_outcome(
        self,
        tessellated: Result<Tessellation, TessellationFailure>,
    ) -> Result<Rebuild, RebuildError> {
        if !self.rebuild_due() {
            Ok(Rebuild::Skipped)
        } else {
            match tessellated {
                Err(failure) => Err(RebuildError::Tessellation(failure)),
                Ok(mesh) => match assembled(mesh.vertices@, mesh.indices@) {
                    Ok(_) => Ok(Rebuild::Replaced),
                    Err(e) => Err(e),
                },
            }
        }
    }

    /// The state after a rebuild: where the collider is replaced, it is the
    /// compound shape of the tessellation and the outline is clean; in
    /// every other case nothing changed.
    pub open spec fn after_rebuild(
        self,
        tessellated: Result<Tessellation, TessellationFailure>,
    ) -> EditorView {
        if !self.rebuild_due() {
            self
        } else {
            match tessellated {
                Err(_) => self,
                Ok(mesh) => match assembled(mesh.vertices@, mesh.indices@) {
                    Ok(parts) => EditorView {
                        dirty: false,
                        collider: Some(CompoundShapeView { parts, sensor: self.sensor }),
                        ..self
                    },
                    Err(_) => self,
                },
            }
        }
    }

    /// The state after one step of the cycle.
    pub open spec fn after(self, step: Step) -> EditorView {
        match step {
            Step::Keys(pressed) => self.after_keys(pressed),
            Step::Mouse(frame) => self.after_mouse(frame),
            Step::Rebuild(tessellated) => self.after_rebuild(tessellated),
        }
    }

    /// The state after a run of steps, first to last.
    pub open spec fn after_all(self, steps: Seq<Step>) -> EditorView
        decreases steps.len(),
    {
        if steps.len() == 0 {
            self
        } else {
            self.after_all(steps.drop_last()).after(steps.last())
        }
    }

    /// What the collider owes the outline: an outline of fewer than three
    /// points has no collider, and a clean outline of three or more has one.
    pub open spec fn attached_consistently(self) -> bool {
        &&& self.points.len() < 3 ==> self.collider is None
        &&& !self.dirty && self.points.len() >= 3 ==> self.collider is Some
    }
}

/// Maps a pointer position into the world: its offset from the middle of
/// the window, divided by the scale.
pub fn map_cursor(position: ScreenPoint, window: WindowSize, scale: Scale) -> (cursor: WorldPoint)
    ensures
        cursor@ == mapped_cursor(position, window, scale@),
{
    let sixteenths: u32 = scale.sixteenths();
    let x: i64 = 8 * (2 * (position.x as i64) - (window.width as i64));
    let y: i64 = 8 * (2 * (position.y as i64) - (window.height as i64));
    WorldPoint::within_limits(x, y, sixteenths as i64)
}

impl Editor {
    /// A session on `asset` at scale one, with the cursor at the origin, no
    /// button down, no collider, and the outline marked dirty.
    pub fn new(asset: SpritePhysicsAsset) -> (editor: Editor)
        ensures
            editor.asset == asset,
            editor@.scale == crate::scale::UNIT,
            editor@.cursor_world == (Position { x: 0, y: 0, den: 1 }),
            !editor@.primary_down,
            editor@.dirty,
            editor@.collider is None,
            editor@.attached_consistently(),
    {
        Editor {
            scale: Scale::one(),
            cursor_world: WorldPoint::origin(),
            primary_down: false,
            asset,
            main_image: MainImage { dirty: true },
            collider: None,
        }
    }

    /// Applies the keys that were pressed since the last frame, in the
    /// order given: the last one decides. Returns the new scale where the
    /// keys select one.
    pub fn adjust_scale(&mut self, keyboard_input: &Vec<Key>) -> (change: Option<Scale>)
        ensures
            final(self)@ == old(self)@.after_keys(keyboard_input@),
            match change {
                Some(scale) => selected_by(old(self)@.scale, keyboard_input@) == Some(scale@),
                None => selected_by(old(self)@.scale, keyboard_input@) is None,
            },
    {
        let n: usize = keyboard_input.len();
        if n == 0 {
            return None;
        }
        let change = self.scale.apply(keyboard_input[n - 1]);
        if let Some(scale) = change {
            self.scale = scale;
        }
        change
    }

    /// Takes in one frame of the window: moves the cursor to the frame's
    /// last pointer position, and on a press of the primary button appends
    /// the snapped cursor to the outline and marks the outline dirty.
    ///
    /// A button that stays down is one press, however many frames it lasts.
    pub fn handle_mouse(&mut self, frame: &MouseFrame)
        ensures
            final(self)@ == old(self)@.after_mouse(*frame),
    {
        if let Some(window) = frame.window {
            let n: usize = frame.cursor_moved.len();
            if n > 0 {
                self.cursor_world = map_cursor(frame.cursor_moved[n - 1], window, self.scale);
            }
        }
        if frame.primary_down && !self.primary_down {
            let snapped = self.cursor_world.snap();
            self.asset.points.push(snapped);
            self.main_image.dirty = true;
        }
        self.primary_down = frame.primary_down;
    }

    /// The polygon that the tessellator has to fill before the next call of
    /// [`Editor::reconstruct_collider`], or `None` where no rebuild is due.
    pub fn pending_outline(&self) -> (outline: Option<Vec<GridPoint>>)
        ensures
            outline is Some <==> self@.rebuild_due(),
            outline matches Some(polygon) ==> polygon@ == closed_outline(self@.points),
    {
        if self.main_image.dirty && self.asset.points.len() >= 3 {
            Some(close_outline(&self.asset.points))
        } else {
            None
        }
    }

    /// Replaces the collider by the compound shape of `tessellated` and
    /// clears the dirty flag, where a rebuild is due and the tessellation is
    /// sound. Where none is due, nothing happens. Where the tessellator
    /// failed, found no triangle, or named a vertex that is not there, the
    /// collider and the dirty flag stay as they are and the error says
    /// which.
    pub fn reconstruct_collider(
        &mut self,
        tessellated: Result<Tessellation, TessellationFailure>,
    ) -> (outcome: Result<Rebuild, RebuildError>)
        ensures
            outcome == old(self)@.rebuild_outcome(tessellated),
            final(self)@ == old(self)@.after_rebuild(tessellated),
    {
        if !self.main_image.dirty || self.asset.points.len() < 3 {
            return Ok(Rebuild::Skipped);
        }
        match tessellated {
            Err(failure) => Err(RebuildError::Tessellation(failure)),
            Ok(mesh) => match assemble(&mesh, self.asset.sensor) {
                Err(e) => Err(e),
                Ok(shape) => {
                    self.collider = Some(shape);
                    self.main_image.dirty = false;
                    Ok(Rebuild::Replaced)
                },
            },
        }
    }
}

/// Whether the primary button is down in every frame among `steps`.
pub open spec fn button_held_throughout(steps: Seq<Step>) -> bool {
    forall|i: int|
        0 <= i < steps.len() ==> ((#[trigger] steps[i]) matches Step::Mouse(frame)
            ==> frame.primary_down)
}

/// Whether `shorter` is how `longer` begins.
pub open spec fn begins_with(longer: Seq<GridPoint>, shorter: Seq<GridPoint>) -> bool {
    shorter.len() <= longer.len() && longer.subrange(0, shorter.len() as int) == shorter
}

/// A single step appends at most one point, and only a frame that sees the
/// primary button go down appends one; the points already stored stay as
/// they are.
pub proof fn step_appends_on_press_only(s: EditorView, step: Step)
    ensures
        begins_with(s.after(step).points, s.points),
        s.after(step).points.len() == s.points.len() + (if step matches Step::Mouse(frame)
            && s.pressed_in(frame) {
            1int
        } else {
            0int
        }),
        step matches Step::Mouse(frame) ==> s.after(step).primary_down == frame.primary_down,
        !(step is Mouse) ==> s.after(step).primary_down == s.primary_down,
{
    let t = s.after(step);
    assert(t.points.subrange(0, s.points.len() as int) == s.points);
}

/// The outline only grows: whatever the steps, the points that were stored
/// before them are still there afterwards, unchanged and in order.
pub proof fn outline_only_grows(s: EditorView, steps: Seq<Step>)
    ensures
        begins_with(s.after_all(steps).points, s.points),
    decreases steps.len(),
{
    if steps.len() == 0 {
        assert(s.points.subrange(0, s.points.len() as int) == s.points);
    } else {
        let before = s.after_all(steps.drop_last());
        outline_only_grows(s, steps.drop_last());
        step_appends_on_press_only(before, steps.last());
        let end = before.after(steps.last());
        assert(end.points.subrange(0, s.points.len() as int) == before.points.subrange(
            0,
            s.points.len() as int,
        ));
    }
}

/// Holding the primary button down is one press: over any run of steps in
/// whose frames the button is down throughout, at most one point is
/// appended, and none if the button was already down before the run.
pub proof fn held_button_appends_at_most_one_point(s: EditorView, steps: Seq<Step>)
    requires
        button_held_throughout(steps),
    ensures
        s.after_all(steps).points.len() <= s.points.len() + 1,
        s.primary_down ==> s.after_all(steps).points.len() == s.points.len(),
        s.after_all(steps).points.len() > s.points.len() ==> s.after_all(steps).primary_down,
    decreases steps.len(),
{
    if steps.len() > 0 {
        let earlier = steps.drop_last();
        assert forall|i: int| 0 <= i < earlier.len() implies ((#[trigger] earlier[i]) matches Step::Mouse(
            frame,
        ) ==> frame.primary_down) by {
            assert(earlier[i] == steps[i]);
        }
        held_button_appends_at_most_one_point(s, earlier);
        let before = s.after_all(earlier);
        step_appends_on_press_only(before, steps.last());
        held_button_keeps_it_down(s, earlier);
    }
}

/// Once down, a button that is held stays down through every step.
pub proof fn held_button_keeps_it_down(s: EditorView, steps: Seq<Step>)
    requires
        button_held_throughout(steps),
    ensures
        s.primary_down ==> s.after_all(steps).primary_down,
        (exists|i: int| 0 <= i < steps.len() && (#[trigger] steps[i]) is Mouse) ==> s.after_all(
            steps,
        ).primary_down,
    decreases steps.len(),
{
    if steps.len() > 0 {
        let earlier = steps.drop_last();
        assert forall|i: int| 0 <= i < earlier.len() implies ((#[trigger] earlier[i]) matches Step::Mouse(
            frame,
        ) ==> frame.primary_down) by {
            assert(earlier[i] == steps[i]);
        }
        held_button_keeps_it_down(s, earlier);
        let before = s.after_all(earlier);
        step_appends_on_press_only(before, steps.last());
        if exists|i: int| 0 <= i < steps.len() && (#[trigger] steps[i]) is Mouse {
            let i = choose|i: int| 0 <= i < steps.len() && (#[trigger] steps[i]) is Mouse;
            if i < earlier.len() {
                assert(earlier[i] == steps[i]);
            }
        }
    }
}

/// A rebuild that replaced the collider leaves the outline clean, so the
/// next rebuild, whatever the tessellator answers, is skipped and changes
/// nothing.
pub proof fn rebuild_settles(
    s: EditorView,
    first: Result<Tessellation, TessellationFailure>,
    second: Result<Tessellation, TessellationFailure>,
)
    requires
        s.rebuild_outcome(first) == Ok::<Rebuild, RebuildError>(Rebuild::Replaced),
    ensures
        !s.after_rebuild(first).dirty,
        !s.after_rebuild(first).rebuild_due(),
        s.after_rebuild(first).rebuild_outcome(second) == Ok::<Rebuild, RebuildError>(
            Rebuild::Skipped,
        ),
        s.after_rebuild(first).after_rebuild(second) == s.after_rebuild(first),
{
}

/// A rebuild changes something only where it replaces the collider: a
/// skipped or failed rebuild leaves the whole state, dirty flag included,
/// as it was.
pub proof fn rebuild_changes_only_on_success(
    s: EditorView,
    tessellated: Result<Tessellation, TessellationFailure>,
)
    ensures
        s.rebuild_outcome(tessellated) != Ok::<Rebuild, RebuildError>(Rebuild::Replaced)
            ==> s.after_rebuild(tessellated) == s,
        !s.rebuild_due() ==> s.rebuild_outcome(tessellated) == Ok::<Rebuild, RebuildError>(
            Rebuild::Skipped,
        ),
        s.after_rebuild(tessellated).points == s.points,
{
}

/// Every step keeps the collider consistent with the outline.
pub proof fn step_keeps_attachment(s: EditorView, step: Step)
    requires
        s.attached_consistently(),
    ensures
        s.after(step).attached_consistently(),
{
}

/// A session that starts consistent stays consistent: after any run of
/// steps an outline of fewer than three points has no collider, and a clean
/// outline of three or more has one.
pub proof fn steps_keep_attachment(s: EditorView, steps: Seq<Step>)
    requires
        s.attached_consistently(),
    ensures
        s.after_all(steps).attached_consistently(),
    decreases steps.len(),
{
    if steps.len() > 0 {
        steps_keep_attachment(s, steps.drop_last());
        step_keeps_attachment(s.after_all(steps.drop_last()), steps.last());
    }
}

} // verus!
