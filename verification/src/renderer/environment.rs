//! The part of the process environment that steers the graphics stack.
//!
//! The library never touches the process environment itself. It works on a
//! [`BackendEnv`] value; the caller loads that value from the process before
//! a call and stores it back afterwards.

use vstd::prelude::*;
use vstd::string::StringExecFns;
use crate::text::opt_view;

verus! {

/// Name of the variable that overrides the backend family.
pub const BACKEND_VAR: &'static str = "WGPU_BACKEND";

/// Name of the variable that switches the software rasterizer on.
pub const SOFTWARE_VAR: &'static str = "LIBGL_ALWAYS_SOFTWARE";

/// Name of the variable that states the power preference.
pub const POWER_PREF_VAR: &'static str = "WGPU_POWER_PREF";

/// Name of the variable by which a user forces software rendering.
pub const FORCE_VAR: &'static str = "MICROSERIAL_FORCE_SOFTWARE";

/// Name of the variable that indicates a Wayland session.
pub const WAYLAND_VAR: &'static str = "WAYLAND_DISPLAY";

/// Name of the variable that indicates an X11 session.
pub const X11_VAR: &'static str = "DISPLAY";

/// The operating system family the process runs on, as far as the plan of
/// attempts depends on it.
#[derive(Clone, Copy, Debug, PartialEq, Eq, Structural)]
pub enum Platform {
    /// Apple platforms, where the Metal backend exists.
    MacOs,
    /// Every other platform.
    Other,
}

/// The three environment values that steer backend selection. `None` means
/// that the variable is not set.
#[derive(Debug)]
pub struct BackendEnv {
    /// Override of the backend family ([`BACKEND_VAR`]).
    pub backend: Option<String>,
    /// Toggle of the software rasterizer ([`SOFTWARE_VAR`]).
    pub software_rasterizer: Option<String>,
    /// Power preference ([`POWER_PREF_VAR`]).
    pub power_preference: Option<String>,
}

/// Mathematical model of a [`BackendEnv`].
pub struct BackendEnvView {
    pub backend: Option<Seq<char>>,
    pub software_rasterizer: Option<Seq<char>>,
    pub power_preference: Option<Seq<char>>,
}

impl View for BackendEnv {
    type V = BackendEnvView;

    open spec fn view(&self) -> BackendEnvView {
        BackendEnvView {
            backend: opt_view(self.backend),
            software_rasterizer: opt_view(self.software_rasterizer),
            power_preference: opt_view(self.power_preference),
        }
    }
}

/// The value of the software toggle when it is on.
pub open spec fn software_on() -> Seq<char> {
    "1"@
}

/// The value of the power preference when low power is asked for.
pub open spec fn low_power() -> Seq<char> {
    "low_power"@
}

/// An environment with software rendering forced: the software rasterizer is
/// on and low power is preferred; the backend override stays as it is.
pub open spec fn forced_software(env: BackendEnvView) -> BackendEnvView {
    BackendEnvView {
        backend: env.backend,
        software_rasterizer: Some(software_on()),
        power_preference: Some(low_power()),
    }
}

/// The two variables that tell which display server the session runs on.
/// `None` means that the variable is not set.
#[derive(Clone, Debug)]
pub struct DisplayEnv {
    /// Value of [`WAYLAND_VAR`].
    pub wayland_display: Option<String>,
    /// Value of [`X11_VAR`].
    pub x11_display: Option<String>,
}

/// Mathematical model of a [`DisplayEnv`].
pub struct DisplayEnvView {
    pub wayland_display: Option<Seq<char>>,
    pub x11_display: Option<Seq<char>>,
}

impl View for DisplayEnv {
    type V = DisplayEnvView;

    open spec fn view(&self) -> DisplayEnvView {
        DisplayEnvView {
            wayland_display: opt_view(self.wayland_display),
            x11_display: opt_view(self.x11_display),
        }
    }
}

/// The compositor that the display variables indicate: Wayland when its
/// variable is set, else X11 when that one is set, else none.
pub open spec fn compositor_of(display: DisplayEnvView) -> Option<Seq<char>> {
    if display.wayland_display is Some {
        Some("Wayland"@)
    } else if display.x11_display is Some {
        Some("X11"@)
    } else {
        None
    }
}

/// The compositor that the display variables indicate.
pub fn compositor_name(display: &DisplayEnv) -> (name: Option<String>)
    ensures
        opt_view(name) == compositor_of(display@),
{
    if display.wayland_display.is_some() {
        Some(String::from_str("Wayland"))
    } else if display.x11_display.is_some() {
        Some(String::from_str("X11"))
    } else {
        None
    }
}

impl BackendEnv {
    /// An environment in which none of the three variables is set.
    pub fn unset() -> (env: BackendEnv)
        ensures
            env@ == (BackendEnvView {
                backend: None,
                software_rasterizer: None,
                power_preference: None,
            }),
    {
        BackendEnv { backend: None, software_rasterizer: None, power_preference: None }
    }

    /// Switches the software rasterizer on and asks for low power.
    pub fn force_software(&mut self)
        ensures
            final(self)@ == forced_software(old(self)@),
    {
        self.software_rasterizer = Some(String::from_str("1"));
        self.power_preference = Some(String::from_str("low_power"));
    }
}

impl Clone for BackendEnv {
    fn clone(&self) -> (copy: BackendEnv)
        ensures
            copy@ == self@,
    {
        BackendEnv {
            backend: self.backend.clone(),
            software_rasterizer: self.software_rasterizer.clone(),
            power_preference: self.power_preference.clone(),
        }
    }
}

/// Forcing software rendering twice leaves the environment as forcing it
/// once does.
pub proof fn lemma_force_software_idempotent(env: BackendEnvView)
    ensures
        forced_software(forced_software(env)) == forced_software(env),
{
}

} // verus!
