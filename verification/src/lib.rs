//! A backend-agnostic core for real-time rendering pipelines.
//!
//! Client code describes shader programs, vertex data, render targets and
//! draw operations through a strongly typed API; the driver calls themselves
//! are delegated to a backend that implements the capability traits. Illegal
//! call orders (drawing before a program is bound, binding a program before a
//! target framebuffer is bound, looking up a uniform slot that the linked
//! program does not expose) are either unrepresentable or rejected with an
//! explicit error at the point of the mistake.
//!
//! Every backend reports the driver commands it has issued as a sequence
//! (see [`context::HasContext`]); the nested scopes of [`pipeline`] prove
//! that commands are only ever appended in the legal nesting order.

pub mod context;
pub mod render_state;
pub mod shader;
pub mod tess;
pub mod framebuffer;
pub mod pipeline;
pub mod sim;
