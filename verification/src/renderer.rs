//! Negotiation of the rendering backend at process start.
//!
//! A [`LaunchConfig`] is read from the process arguments and environment.
//! From it follows an ordered plan of [`attempt::Attempt`]s, from the most
//! capable backend to one that cannot fail. [`detect`] walks the plan and
//! returns the first attempt that works as a [`RendererSelection`], with a
//! [`RendererDiagnostics`] that tells what was tried before it.
//! [`run_headless_probe`] does the same and gives the outcome as a
//! [`HeadlessReport`], which can be written out as text.
//!
//! The library neither reads the process environment nor talks to the
//! graphics stack. The caller hands it the values of the environment in a
//! [`environment::BackendEnv`], and a function that asks the graphics stack
//! for an adapter.

pub mod adapter;
pub mod attempt;
pub mod diagnostics;
pub mod environment;
pub mod host;
pub mod launch;
pub mod laws;
pub mod negotiation;
pub mod report;
pub mod selection;

pub use crate::renderer::diagnostics::RendererDiagnostics;
pub use crate::renderer::launch::LaunchConfig;
pub use crate::renderer::negotiation::detect;
pub use crate::renderer::report::HeadlessReport;
pub use crate::renderer::report::run_headless_probe;
pub use crate::renderer::selection::RendererSelection;
