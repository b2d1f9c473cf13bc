//! Error taxonomy of the rendering core.

use vstd::prelude::*;

verus! {

/// Everything that a core operation can fail with.
///
/// Resource, attribute and index errors are returned synchronously and leave
/// existing state untouched; a compile error aborts the render call that
/// produced it without partially binding state.
#[derive(Clone, Debug)]
pub enum RendererError {
    /// An upload or readback length is inconsistent with the resource's
    /// dimensions and element type.
    ResourceSizeMismatch { expected: usize, actual: usize },
    /// A material needs a vertex attribute the geometry does not provide.
    MissingVertexAttribute { attribute: String },
    /// A model part references a material index that is out of range.
    MissingMaterial { index: String, part: String },
    /// Composed shader source was rejected by the compiler; carries the raw
    /// diagnostic. Source is generated, so this signals a composition defect.
    ShaderCompileError { diagnostic: String },
    /// A generic driver-level failure surfaced by the post-call error check.
    ContextError { message: String },
}

} // verus!
