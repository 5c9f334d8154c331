//! The bookkeeping behind the hardware pipeline and the tray icon.
pub mod decoder;
pub mod pipeline;
pub mod tray;

pub use pipeline::{HardwarePipeline, PipelineTelemetry, PublishResult, PublishedFrame};
pub use tray::{TrayController, TrayState};
