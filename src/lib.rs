//! The decisions of a small real-time renderer, kept in exact arithmetic:
//! procedural meshes with rational coordinates (`mesh`), a first-person
//! camera whose orientation is held in binary angles (`camera`), the frame
//! loop's surface state and draw plan (`frame`), and decoded textures ready
//! for upload (`texture`). Floating-point matrices and the GPU itself stay
//! with the caller.

pub mod camera;
pub mod frame;
pub mod mesh;
pub mod texture;
