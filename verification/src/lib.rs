//! A full-screen post-processing node for a render graph, modelled as
//! verified logic over plain values.
//!
//! Each frame the node reads the current view's colour target, blends a
//! uniform colour into it with a fixed full-screen-triangle pipeline, and
//! writes the result to the view's other colour buffer.  The GPU work itself
//! belongs to the host engine; what is verified here is every decision the
//! node makes: where it sits in the render graph, what its bind-group layout
//! and pipeline descriptor say, and, per frame and per view, whether it draws
//! and exactly what the one draw call carries.

pub mod graph;
pub mod node;
pub mod pipeline;
