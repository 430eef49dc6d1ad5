//! A frame presentation engine: the decisions that drive an
//! acquire → submit → present cycle over a swap ring, kept apart from the
//! graphics API that carries them out.
//!
//! - [`swap_ring`] plans the ring of presentable images and its recreation.
//! - [`fence_table`] tracks, per ring slot, the completion signal of the last
//!   submission, and the log against which race freedom is stated.
//! - [`frame_recorder`] builds the fixed command sequence recorded per slot.
//! - [`presentation`] is the state machine that ties them together, advanced
//!   by one call per event.
//! - [`device_select`] picks the physical device and queue family to use.
//! - [`shader`] names shader stages and reads SPIR-V binaries as words.
pub mod device_select;
pub mod fence_table;
pub mod frame_recorder;
pub mod presentation;
pub mod shader;
pub mod swap_ring;
