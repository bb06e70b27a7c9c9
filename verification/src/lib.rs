//! Rendering core for a fragment shader drawn over a fullscreen quad.
//!
//! A [`ShaderArea`] is one drawing surface. It is made with a fragment
//! shader, texture sources and initial uniforms; it compiles and links the
//! program, uploads the textures and resolves the uniforms when the surface
//! is realized, draws the quad on every frame request, and gives its GPU
//! objects back when the surface is unrealized.
//!
//! The core never touches the GPU itself. Every operation hands back a
//! [`Step`]: the calls the host has to make, in order, and the outcome once
//! the operation has ended. Where the core needs an answer (a handle, a
//! status, a uniform location) the step carries no outcome yet; the host
//! passes the answer to the last call to [`ShaderArea::resume`], which hands
//! back the next step. A host's loop is therefore
//!
//! ```text
//! step = area.realize()            (or render, unrealize, set_uniform)
//! loop:
//!     make step.calls, keep the last reply
//!     if step.outcome is there: done
//!     step = area.resume(reply)
//! ```
//!
//! What the surface does is written down twice: as the functions of
//! [`lifecycle`], which run, and as the transition system of [`model`],
//! which they are proved to follow step by step. What holds of every
//! surface is stated over the transition system and proved in [`laws`],
//! [`history`] and [`ledger`].
//!
//! Numbers of single precision are carried as their bit patterns
//! ([`FloatBits`]); the core stores and hands them on, and cuts them to
//! integers where a caller asks for that.

pub mod area;
pub mod call;
pub mod history;
pub mod laws;
pub mod ledger;
pub mod lifecycle;
pub mod model;
pub mod named;
pub mod registry;
pub mod resolver;
pub mod shader;
pub mod tally;
pub mod texture;
pub mod uniform_text;
pub mod value;
pub mod variant;

pub use area::{new_area_for_shader, RenderState, ShaderArea};
pub use call::{Call, Notice, Outcome, Reply, Step};
pub use lifecycle::set_uniform;
pub use registry::UniformRegistry;
pub use texture::{TextureData, TextureSource};
pub use value::{FloatBits, Uniform, UniformType, UniformValue, UniformValueFFI};
