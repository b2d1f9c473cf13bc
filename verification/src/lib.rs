//! A verified core of a real-time rendering engine: texture resources with
//! mip-chain sizing, scoped render-target bindings, pure shader-source
//! composition with a program cache, and forward/deferred draw dispatch.
//!
//! GPU driver state is modelled as a plain value ([`context::Context`]); a
//! host layer mirrors the recorded transitions onto a real driver.

pub mod context;
pub mod error;
pub mod light;
pub mod object;
pub mod rendertarget;
pub mod shader;
pub mod texture;
