//! Authoring of polygon colliders on top of a sprite: pointer positions are
//! mapped into world space, clicks are snapped to a half-unit grid and
//! collected into an outline, and the outline's triangulation becomes a
//! compound collision shape.
//!
//! All positions are exact: grid points count half world units, and the
//! cursor is a fraction. The tessellator is not part of the crate. Each
//! cycle, [`editor::Editor::pending_outline`] says which polygon has to be
//! filled, and [`editor::Editor::reconstruct_collider`] takes the answer.

pub mod geometry;
pub mod scale;
pub mod shape;
pub mod editor;
