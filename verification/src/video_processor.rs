//! Modular video processing abstraction
//!
//! A video processor post-processes frames after the system's renderer made them
//! (CRT filters, scaling, etc.). The software processor is the CPU-based backend:
//! it needs no initialisation and handles resizing trivially.
use vstd::prelude::*;

verus! {

/// Why a video processor operation failed.
#[derive(Debug, Clone, PartialEq, Eq, Structural)]
pub enum VideoError {
    /// The backend could not be set up for the requested dimensions.
    Unavailable,
}

/// Result type for video processor operations
pub type VideoResult<T> = Result<T, VideoError>;

/// Video processor trait - abstraction for different rendering backends
pub trait VideoProcessor {
    /// Initialize the video processor with the given dimensions
    fn init(&mut self, width: usize, height: usize) -> VideoResult<()>;

    /// Resize the processor to new dimensions
    fn resize(&mut self, width: usize, height: usize) -> VideoResult<()>;

    /// Get the name of this processor (for debugging/UI)
    fn name(&self) -> &str;

    /// Check if this processor is hardware-accelerated (by default it is not)
    fn is_hardware_accelerated(&self) -> (b: bool)
        default_ensures
            !b,
    {
        false
    }
}

/// Software-based video processor
#[derive(Debug)]
pub struct SoftwareProcessor;

impl SoftwareProcessor {
    pub fn new() -> (p: Self) {
        SoftwareProcessor
    }
}

impl Default for SoftwareProcessor {
    fn default() -> (p: Self) {
        Self::new()
    }
}

impl VideoProcessor for SoftwareProcessor {
    /// Software processor needs no initialization
    fn init(&mut self, _width: usize, _height: usize) -> (r: VideoResult<()>)
        ensures
            r is Ok,
    {
        Ok(())
    }

    /// Software processor doesn't need to handle resize
    fn resize(&mut self, _width: usize, _height: usize) -> (r: VideoResult<()>)
        ensures
            r is Ok,
    {
        Ok(())
    }

    fn name(&self) -> (s: &str)
        ensures
            s@ == "Software Renderer"@,
    {
        "Software Renderer"
    }

    fn is_hardware_accelerated(&self) -> (b: bool)
        ensures
            !b,
    {
        false
    }
}

} // verus!
