//! Typed errors of the physics core.
//!
//! Setup errors (a targeted entity missing an expected component, no
//! unique world root) and unhandled-geometry errors are surfaced as values
//! instead of aborting the process; all of them are fatal to the tick that
//! raised them.

use vstd::prelude::*;

verus! {

/// Why a stage could not complete.
#[derive(Clone, Copy, PartialEq, Eq, Structural, Debug)]
pub enum PhysicsError {
    /// A targeted entity lacks a component the caller expected on it, or
    /// the entity index is out of range.
    MissingComponent { entity: usize },
    /// Transform propagation found no world-root entity.
    NoWorldRoot,
    /// Transform propagation found more than one world-root entity.
    MultipleWorldRoots,
    /// The swept wall-collision stage met a collider/wall pair whose
    /// shapes are not both rectangles.
    UnhandledWallShape { collider: usize, wall: usize },
    /// A swept test found the cast rectangles overlapping, yet neither
    /// axis separated the rectangles before the motion: the overlap cannot
    /// be explained by an axis, which is an unrecoverable logic error.
    NoContactAxis,
}

impl PhysicsError {
    /// A short diagnostic name for the error.
    pub fn describe(&self) -> (r: &'static str)
        ensures
            r@.len() > 0,
    {
        let s = match self {
            PhysicsError::MissingComponent { .. } => "missing component on targeted entity",
            PhysicsError::NoWorldRoot => "no world root entity",
            PhysicsError::MultipleWorldRoots => "more than one world root entity",
            PhysicsError::UnhandledWallShape { .. } => "unhandled wall collision shape pair",
            PhysicsError::NoContactAxis => "collision detected but no contact axis found",
        };
        proof {
            reveal_strlit("missing component on targeted entity");
            reveal_strlit("no world root entity");
            reveal_strlit("more than one world root entity");
            reveal_strlit("unhandled wall collision shape pair");
            reveal_strlit("collision detected but no contact axis found");
        }
        s
    }
}

} // verus!
