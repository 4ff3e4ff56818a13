//! Swapchain session protocol for windows rendered through Vulkan.
//!
//! The crate holds the decisions of a per-window render session: when the
//! swapchain is recreated, which image a frame targets, how auxiliary render
//! targets follow the swapchain's size, and what becomes of the in-flight
//! future at the end of a frame. The session is driven by events: the
//! embedding application performs the GPU and window operations the session
//! asks for and reports their outcomes back.

pub mod config;
pub mod frame;
pub mod image_target;
pub mod laws;
pub mod runner;
pub mod target_map;
pub mod vulkano_window;

pub use config::VulkanoWinitConfig;
pub use frame::{
    AcquireOutcome, FlushOutcome, FrameEnd, FrameError, FrameStage, FrameStart, PlatformRequest,
    PresentMode, SwapchainOutcome,
};
pub use image_target::{ImageTarget, TargetError};
pub use laws::SessionEvent;
pub use runner::{
    close_window, control_flow, run_mode, ControlFlow, LoopAction, LoopEvent, RunMode, RunnerState,
};
pub use target_map::{TargetMap, Targets};
pub use vulkano_window::{FinalImage, SessionView, VulkanoWinitWindow, DEFAULT_IMAGE_FORMAT};
