pub mod config;
pub mod engine;
pub mod groups;
pub mod usage;

pub use config::{SandboxBuilder, StdioPolicy};
pub use engine::{RunAction, RunEvent, RunState, SandboxError};
pub use groups::{LimitKey, LimitWrite, Subsystem};
pub use usage::SandboxUsage;
pub mod lifecycle;

pub use lifecycle::{ReleaseStep, Resources, SandboxPlan};
