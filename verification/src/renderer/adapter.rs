//! What is asked of the graphics stack, and what it answers.

use vstd::prelude::*;
use vstd::string::StringExecFns;
use crate::renderer::attempt::{Attempt, AttemptConfigView, BackendFamily, BackendSet};
use crate::renderer::launch::LaunchView;

verus! {

/// The kind of device behind an adapter.
#[derive(Clone, Copy, Debug, PartialEq, Eq, Structural)]
pub enum DeviceType {
    Other,
    IntegratedGpu,
    DiscreteGpu,
    VirtualGpu,
    Cpu,
}

impl DeviceType {
    /// The name of the kind in reports.
    pub open spec fn name_text(self) -> Seq<char> {
        match self {
            DeviceType::Other => "Other"@,
            DeviceType::IntegratedGpu => "IntegratedGpu"@,
            DeviceType::DiscreteGpu => "DiscreteGpu"@,
            DeviceType::VirtualGpu => "VirtualGpu"@,
            DeviceType::Cpu => "Cpu"@,
        }
    }

    /// The name of the kind in reports.
    pub fn name(self) -> (name: &'static str)
        ensures
            name@ == self.name_text(),
    {
        match self {
            DeviceType::Other => "Other",
            DeviceType::IntegratedGpu => "IntegratedGpu",
            DeviceType::DiscreteGpu => "DiscreteGpu",
            DeviceType::VirtualGpu => "VirtualGpu",
            DeviceType::Cpu => "Cpu",
        }
    }
}

/// The backend an adapter belongs to.
#[derive(Clone, Copy, Debug, PartialEq, Eq, Structural)]
pub enum Backend {
    Empty,
    Vulkan,
    Metal,
    Dx12,
    Gl,
    BrowserWebGpu,
}

impl Backend {
    /// The name of the backend in reports.
    pub open spec fn name_text(self) -> Seq<char> {
        match self {
            Backend::Empty => "Empty"@,
            Backend::Vulkan => "Vulkan"@,
            Backend::Metal => "Metal"@,
            Backend::Dx12 => "Dx12"@,
            Backend::Gl => "Gl"@,
            Backend::BrowserWebGpu => "BrowserWebGpu"@,
        }
    }

    /// The name of the backend in reports.
    pub fn name(self) -> (name: &'static str)
        ensures
            name@ == self.name_text(),
    {
        match self {
            Backend::Empty => "Empty",
            Backend::Vulkan => "Vulkan",
            Backend::Metal => "Metal",
            Backend::Dx12 => "Dx12",
            Backend::Gl => "Gl",
            Backend::BrowserWebGpu => "BrowserWebGpu",
        }
    }
}

/// One graphics device as its driver presents it.
#[derive(Clone, Debug)]
pub struct AdapterInfo {
    /// Name of the adapter.
    pub name: String,
    /// Kind of device.
    pub device_type: DeviceType,
    /// Name of the driver.
    pub driver: String,
    /// Backend the adapter belongs to.
    pub backend: Backend,
}

/// Mathematical model of an [`AdapterInfo`].
pub struct AdapterView {
    pub name: Seq<char>,
    pub device_type: DeviceType,
    pub driver: Seq<char>,
    pub backend: Backend,
}

impl View for AdapterInfo {
    type V = AdapterView;

    open spec fn view(&self) -> AdapterView {
        AdapterView {
            name: self.name@,
            device_type: self.device_type,
            driver: self.driver@,
            backend: self.backend,
        }
    }
}

/// The view of an optional adapter.
pub open spec fn opt_adapter_view(found: Option<AdapterInfo>) -> Option<AdapterView> {
    match found {
        Some(info) => Some(info@),
        None => None,
    }
}

/// Which adapter to prefer where several qualify.
#[derive(Clone, Copy, Debug, PartialEq, Eq, Structural)]
pub enum PowerPreference {
    LowPower,
    HighPerformance,
}

/// What the probe asks of the graphics stack.
#[derive(Clone, Copy, Debug, PartialEq, Eq, Structural)]
pub struct ProbeRequest {
    /// The families the adapter may come from.
    pub backends: BackendSet,
    /// Which adapter to prefer.
    pub power_preference: PowerPreference,
    /// Only a fallback adapter is acceptable.
    pub force_fallback_adapter: bool,
}

/// Mathematical model of a [`ProbeRequest`].
pub struct ProbeRequestView {
    pub backends: Set<BackendFamily>,
    pub power_preference: PowerPreference,
    pub force_fallback_adapter: bool,
}

impl View for ProbeRequest {
    type V = ProbeRequestView;

    open spec fn view(&self) -> ProbeRequestView {
        ProbeRequestView {
            backends: self.backends@,
            power_preference: self.power_preference,
            force_fallback_adapter: self.force_fallback_adapter,
        }
    }
}

/// The request that a restriction to `backends` makes: every family where
/// the restriction names none, low power exactly when `low_power` is set,
/// and the fallback flag as given.
pub open spec fn request_of(
    backends: Set<BackendFamily>,
    low_power: bool,
    force_fallback: bool,
) -> ProbeRequestView {
    ProbeRequestView {
        backends: if backends == Set::<BackendFamily>::empty() {
            Set::full()
        } else {
            backends
        },
        power_preference: if low_power {
            PowerPreference::LowPower
        } else {
            PowerPreference::HighPerformance
        },
        force_fallback_adapter: force_fallback,
    }
}

/// The request of an attempt under `launch`: restricted to the attempt's
/// family, with low power preferred and only a fallback adapter accepted
/// exactly when the attempt runs in software.
pub open spec fn request_for(attempt: Attempt, launch: LaunchView) -> ProbeRequestView {
    let config: AttemptConfigView = attempt.config_for(launch);
    request_of(config.backends, attempt.software_required(launch), config.force_fallback)
}

impl ProbeRequest {
    /// The request for an adapter from `backends`, or from every family where
    /// `backends` is empty.
    pub fn new(backends: BackendSet, low_power: bool, force_fallback_adapter: bool) -> (request:
        ProbeRequest)
        ensures
            request@ == request_of(backends@, low_power, force_fallback_adapter),
    {
        let requested = if backends.is_empty() {
            BackendSet::all()
        } else {
            backends
        };
        let power_preference = if low_power {
            PowerPreference::LowPower
        } else {
            PowerPreference::HighPerformance
        };
        ProbeRequest { backends: requested, power_preference, force_fallback_adapter }
    }
}

/// The error of a probe that found no adapter.
pub open spec fn no_adapter_text() -> Seq<char> {
    "No compatible GPU adapters"@
}

/// The outcome of a probe: the adapter that was found, or the error that
/// none was.
pub fn adapter_or_error(found: Option<AdapterInfo>) -> (outcome: Result<AdapterInfo, String>)
    ensures
        match found {
            Some(info) => outcome == Ok::<AdapterInfo, String>(info),
            None => outcome is Err && outcome->Err_0@ == no_adapter_text(),
        },
{
    match found {
        Some(info) => Ok(info),
        None => Err(String::from_str("No compatible GPU adapters")),
    }
}

} // verus!
