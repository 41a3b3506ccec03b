//! Selection and frame engine of a full-screen region-selection overlay.
//!
//! The library holds the logic of the overlay: the selection state machine
//! driven by pointer and keyboard input, the extraction of the selected pixels
//! from the captured screen image, the per-frame shader parameters, and the
//! decisions of the frame lifecycle (surface acquisition with bounded retry,
//! and the order in which a finished frame is ended, submitted and presented).
//! Window, GPU, screen capture and clipboard calls live outside it.

pub mod geometry;
pub mod selection;
pub mod capture;
pub mod uniforms;
pub mod context;
pub mod frame;
