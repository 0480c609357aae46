//! The decision core of a minimal GPU bring-up scaffold: the render loop's
//! reaction to window events and surface errors, the initial surface
//! configuration, the vertex buffer layout, and the byte image of the demo
//! triangle's vertex buffer.  A host program owns the window and the GPU
//! handles and carries out what these functions decide.

pub mod events;
pub mod mesh_builder;
pub mod pipeline_builder;
pub mod state;
pub mod surface;
