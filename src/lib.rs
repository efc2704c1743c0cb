//! Decisions behind drawing finished object tracks on a camera overlay:
//! the hand-off latch between the bus callback and the render loop, the
//! completion and classification gates, the class colors, the fixed-stride
//! trajectory sampler, and the ordered surface calls for one track.
pub mod bridge;
pub mod class;
pub mod render;
pub mod sampler;
pub mod track;
