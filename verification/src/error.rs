//! The engine's error taxonomy. Configuration errors are produced at
//! set-up time and are fatal; lookup misses are absorbed where they occur
//! and never surface through this type.

use vstd::prelude::*;

verus! {

/// A fatal start-up error. Runtime per-entity misses are tolerated locally
/// and never reported through this enum.
#[derive(Debug)]
pub enum EngineError {
    /// A shader stage failed to compile.
    ShaderCompile(String),
    /// A shader program failed to link.
    ShaderLink(String),
    /// A renderer could not acquire its resources.
    RendererInit(String),
    /// A sprite-sheet atlas row is wider than the renderer's 255-tile cap.
    SheetSizeError(String),
    /// A sprite or animation schema the animation engine could not run.
    SchemaError(String),
    /// An animation request addressed an entity without the needed parts.
    AnimationError(String),
    /// Two concurrently schedulable systems declare overlapping access;
    /// the payload holds the two system identifiers.
    ScheduleConflict(u32, u32),
}

} // verus!
