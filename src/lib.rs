//! Integer and text logic of a small first-person scene renderer: the cube
//! grid, the mesh tables handed to the graphics library, the de-duplication
//! of model corners, the decoding of textures, the post-processing shader
//! text and the viewer's input state.
pub mod effects;
pub mod geometry;
pub mod common;
pub mod grid;
pub mod mesh;
pub mod shader;
pub mod controls;
pub mod texture;
