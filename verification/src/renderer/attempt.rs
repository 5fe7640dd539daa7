//! The attempts of a fallback plan, and what applying one means.

use vstd::prelude::*;
use vstd::string::StringExecFns;
use crate::renderer::diagnostics::{DiagnosticsView, RendererDiagnostics};
use crate::renderer::environment::{BackendEnv, BackendEnvView, Platform, low_power, software_on};
use crate::renderer::launch::{LaunchConfig, LaunchView};
use crate::text::str_eq;

verus! {

/// A class of graphics API that an adapter can be asked from.
#[derive(Clone, Copy, Debug, PartialEq, Eq, Structural)]
pub enum BackendFamily {
    Vulkan,
    Metal,
    Dx12,
    Gl,
}

impl BackendFamily {
    /// The name by which the backend override selects the family.
    pub open spec fn name_text(self) -> Seq<char> {
        match self {
            BackendFamily::Vulkan => "vulkan"@,
            BackendFamily::Metal => "metal"@,
            BackendFamily::Dx12 => "dx12"@,
            BackendFamily::Gl => "gl"@,
        }
    }

    /// The family that a name selects, if it selects one.
    pub open spec fn named(name: Seq<char>) -> Option<BackendFamily> {
        if name == "vulkan"@ {
            Some(BackendFamily::Vulkan)
        } else if name == "metal"@ {
            Some(BackendFamily::Metal)
        } else if name == "dx12"@ {
            Some(BackendFamily::Dx12)
        } else if name == "gl"@ {
            Some(BackendFamily::Gl)
        } else {
            None
        }
    }

    /// The name by which the backend override selects the family.
    pub fn name(self) -> (name: &'static str)
        ensures
            name@ == self.name_text(),
    {
        match self {
            BackendFamily::Vulkan => "vulkan",
            BackendFamily::Metal => "metal",
            BackendFamily::Dx12 => "dx12",
            BackendFamily::Gl => "gl",
        }
    }

    /// The family that `name` selects, if it selects one.
    pub fn from_name(name: &str) -> (family: Option<BackendFamily>)
        ensures
            family == BackendFamily::named(name@),
    {
        if str_eq(name, "vulkan") {
            Some(BackendFamily::Vulkan)
        } else if str_eq(name, "metal") {
            Some(BackendFamily::Metal)
        } else if str_eq(name, "dx12") {
            Some(BackendFamily::Dx12)
        } else if str_eq(name, "gl") {
            Some(BackendFamily::Gl)
        } else {
            None
        }
    }
}

/// The name of a family selects that family again.
pub proof fn lemma_family_name_round_trip(family: BackendFamily)
    ensures
        BackendFamily::named(family.name_text()) == Some(family),
{
    reveal_strlit("vulkan");
    reveal_strlit("metal");
    reveal_strlit("dx12");
    reveal_strlit("gl");
    assert("vulkan"@.len() == 6);
    assert("metal"@.len() == 5);
    assert("dx12"@.len() == 4);
}

/// A set of backend families.
#[derive(Clone, Copy, Debug, PartialEq, Eq, Structural)]
pub struct BackendSet {
    pub vulkan: bool,
    pub metal: bool,
    pub dx12: bool,
    pub gl: bool,
}

impl BackendSet {
    /// Whether `family` is in the set.
    pub open spec fn has(self, family: BackendFamily) -> bool {
        match family {
            BackendFamily::Vulkan => self.vulkan,
            BackendFamily::Metal => self.metal,
            BackendFamily::Dx12 => self.dx12,
            BackendFamily::Gl => self.gl,
        }
    }

    /// The set of no family.
    pub fn empty() -> (set: BackendSet)
        ensures
            set@ == Set::<BackendFamily>::empty(),
    {
        let set = BackendSet { vulkan: false, metal: false, dx12: false, gl: false };
        set
    }

    /// The set of every family.
    pub fn all() -> (set: BackendSet)
        ensures
            set@ == Set::<BackendFamily>::full(),
    {
        let set = BackendSet { vulkan: true, metal: true, dx12: true, gl: true };
        set
    }

    /// The set of `family` alone.
    pub fn only(family: BackendFamily) -> (set: BackendSet)
        ensures
            set@ == set![family],
    {
        let set = match family {
            BackendFamily::Vulkan => BackendSet {
                vulkan: true,
                metal: false,
                dx12: false,
                gl: false,
            },
            BackendFamily::Metal => BackendSet {
                vulkan: false,
                metal: true,
                dx12: false,
                gl: false,
            },
            BackendFamily::Dx12 => BackendSet {
                vulkan: false,
                metal: false,
                dx12: true,
                gl: false,
            },
            BackendFamily::Gl => BackendSet { vulkan: false, metal: false, dx12: false, gl: true },
        };
        set
    }

    /// Whether `family` is in the set.
    pub fn contains(&self, family: BackendFamily) -> (found: bool)
        ensures
            found == self@.contains(family),
    {
        match family {
            BackendFamily::Vulkan => self.vulkan,
            BackendFamily::Metal => self.metal,
            BackendFamily::Dx12 => self.dx12,
            BackendFamily::Gl => self.gl,
        }
    }

    /// Whether no family is in the set.
    pub fn is_empty(&self) -> (none: bool)
        ensures
            none == (self@ == Set::<BackendFamily>::empty()),
    {
        let none = !self.vulkan && !self.metal && !self.dx12 && !self.gl;
        proof {
            if none {
                assert(self@ =~= Set::<BackendFamily>::empty());
            } else {
                assert(self@.contains(BackendFamily::Vulkan) || self@.contains(
                    BackendFamily::Metal,
                ) || self@.contains(BackendFamily::Dx12) || self@.contains(BackendFamily::Gl));
            }
        }
        none
    }
}

impl View for BackendSet {
    type V = Set<BackendFamily>;

    open spec fn view(&self) -> Set<BackendFamily> {
        Set::new(|family: BackendFamily| self.has(family))
    }
}

/// The families an adapter may come from when the backend override names
/// `backend`: that family alone, or every family when none is named.
pub open spec fn backends_for(backend: Option<BackendFamily>) -> Set<BackendFamily> {
    match backend {
        Some(family) => set![family],
        None => Set::full(),
    }
}

/// The families an adapter may come from when the backend override names
/// `backend`.
pub fn backend_mask(backend: Option<BackendFamily>) -> (set: BackendSet)
    ensures
        set@ == backends_for(backend),
{
    match backend {
        Some(family) => BackendSet::only(family),
        None => BackendSet::all(),
    }
}

/// One entry of a fallback plan.
#[derive(Clone, Copy, Debug)]
pub enum Attempt {
    /// Ask the graphics stack for an adapter.
    Hardware {
        /// How reports name the attempt.
        label: &'static str,
        /// The one family to ask, or none to leave the choice to the system.
        explicit_backend: Option<BackendFamily>,
        /// The attempt runs on the software rasterizer whatever the launch
        /// configuration says.
        enforce_software: bool,
    },
    /// Render on the CPU. Nothing is asked of the hardware, so this cannot
    /// fail.
    SoftwareOnly {
        /// How reports name the attempt.
        label: &'static str,
    },
}

/// What an attempt hands to the probe.
#[derive(Clone, Copy, Debug, PartialEq, Eq, Structural)]
pub struct AttemptConfig {
    /// The families the adapter may come from.
    pub backends: BackendSet,
    /// Only a fallback adapter is acceptable.
    pub force_fallback: bool,
}

/// Mathematical model of an [`AttemptConfig`].
pub struct AttemptConfigView {
    pub backends: Set<BackendFamily>,
    pub force_fallback: bool,
}

impl View for AttemptConfig {
    type V = AttemptConfigView;

    open spec fn view(&self) -> AttemptConfigView {
        AttemptConfigView { backends: self.backends@, force_fallback: self.force_fallback }
    }
}

impl AttemptConfig {
    /// The configuration of the software-only attempt, which probes nothing.
    pub fn glow() -> (config: AttemptConfig)
        ensures
            config@ == (AttemptConfigView {
                backends: Set::<BackendFamily>::empty(),
                force_fallback: false,
            }),
    {
        AttemptConfig { backends: BackendSet::empty(), force_fallback: false }
    }
}

/// The system's own choice of backend.
pub open spec fn system_default_attempt() -> Attempt {
    Attempt::Hardware { label: "system default", explicit_backend: None, enforce_software: false }
}

/// The fast native API.
pub open spec fn vulkan_attempt() -> Attempt {
    Attempt::Hardware {
        label: "WGPU_BACKEND=vulkan",
        explicit_backend: Some(BackendFamily::Vulkan),
        enforce_software: false,
    }
}

/// The portable GL API on the software rasterizer.
pub open spec fn gl_software_attempt() -> Attempt {
    Attempt::Hardware {
        label: "WGPU_BACKEND=gl (software)",
        explicit_backend: Some(BackendFamily::Gl),
        enforce_software: true,
    }
}

/// The native API of Apple platforms.
pub open spec fn metal_attempt() -> Attempt {
    Attempt::Hardware {
        label: "WGPU_BACKEND=metal",
        explicit_backend: Some(BackendFamily::Metal),
        enforce_software: false,
    }
}

/// The attempt that cannot fail.
pub open spec fn glow_software_attempt() -> Attempt {
    Attempt::SoftwareOnly { label: "software glow" }
}

/// The fallback plan of a platform, from the most capable attempt to the
/// one that cannot fail.
pub open spec fn plan_for(platform: Platform) -> Seq<Attempt> {
    match platform {
        Platform::MacOs => seq![
            system_default_attempt(),
            vulkan_attempt(),
            gl_software_attempt(),
            metal_attempt(),
            glow_software_attempt(),
        ],
        Platform::Other => seq![
            system_default_attempt(),
            vulkan_attempt(),
            gl_software_attempt(),
            glow_software_attempt(),
        ],
    }
}

impl Attempt {
    /// The attempt that leaves the choice of backend to the system.
    pub fn system_default() -> (attempt: Attempt)
        ensures
            attempt == system_default_attempt(),
    {
        Attempt::Hardware {
            label: "system default",
            explicit_backend: None,
            enforce_software: false,
        }
    }

    /// The attempt on the fast native API.
    pub fn vulkan() -> (attempt: Attempt)
        ensures
            attempt == vulkan_attempt(),
    {
        Attempt::Hardware {
            label: "WGPU_BACKEND=vulkan",
            explicit_backend: Some(BackendFamily::Vulkan),
            enforce_software: false,
        }
    }

    /// The attempt on the portable GL API, on the software rasterizer.
    pub fn gl_software() -> (attempt: Attempt)
        ensures
            attempt == gl_software_attempt(),
    {
        Attempt::Hardware {
            label: "WGPU_BACKEND=gl (software)",
            explicit_backend: Some(BackendFamily::Gl),
            enforce_software: true,
        }
    }

    /// The attempt on the native API of Apple platforms.
    pub fn metal() -> (attempt: Attempt)
        ensures
            attempt == metal_attempt(),
    {
        Attempt::Hardware {
            label: "WGPU_BACKEND=metal",
            explicit_backend: Some(BackendFamily::Metal),
            enforce_software: false,
        }
    }

    /// The attempt that cannot fail.
    pub fn glow_software() -> (attempt: Attempt)
        ensures
            attempt == glow_software_attempt(),
    {
        Attempt::SoftwareOnly { label: "software glow" }
    }

    /// The label of the attempt.
    pub open spec fn label_text(self) -> Seq<char> {
        match self {
            Attempt::Hardware { label, .. } => label@,
            Attempt::SoftwareOnly { label } => label@,
        }
    }

    /// How reports name the attempt.
    pub fn label(&self) -> (label: &'static str)
        ensures
            label@ == self.label_text(),
    {
        match self {
            Attempt::Hardware { label, .. } => label,
            Attempt::SoftwareOnly { label } => label,
        }
    }

    /// Whether the attempt asks the graphics stack for an adapter.
    pub fn is_hardware(&self) -> (hardware: bool)
        ensures
            hardware == (*self is Hardware),
    {
        match self {
            Attempt::Hardware { .. } => true,
            Attempt::SoftwareOnly { .. } => false,
        }
    }

    /// Whether the attempt runs on the software rasterizer under `launch`:
    /// a hardware attempt does when the launch forces software or the
    /// attempt enforces it; the software-only attempt always does.
    pub open spec fn software_required(self, launch: LaunchView) -> bool {
        match self {
            Attempt::Hardware { enforce_software, .. } => launch.force_software
                || enforce_software,
            Attempt::SoftwareOnly { .. } => true,
        }
    }

    /// Whether a low-power adapter is preferred: exactly when the attempt
    /// runs on the software rasterizer.
    pub fn prefers_low_power(&self, launch: &LaunchConfig) -> (low: bool)
        ensures
            low == self.software_required(launch@),
    {
        match self {
            Attempt::Hardware { enforce_software, .. } => launch.force_software
                || *enforce_software,
            Attempt::SoftwareOnly { .. } => true,
        }
    }

    /// The environment in which the attempt runs. All three values follow
    /// from the attempt and from the values that `launch` kept from before
    /// the launch.
    ///
    /// A hardware attempt names its family in the backend override, or puts
    /// the original override back when it names none; it switches the
    /// software rasterizer on and asks for low power when it runs in
    /// software, and puts both originals back when it does not. The
    /// software-only attempt puts the original override back, switches the
    /// software rasterizer on and clears the power preference.
    pub open spec fn env_for(self, launch: LaunchView) -> BackendEnvView {
        match self {
            Attempt::Hardware { explicit_backend, .. } => BackendEnvView {
                backend: match explicit_backend {
                    Some(family) => Some(family.name_text()),
                    None => launch.original.backend,
                },
                software_rasterizer: if self.software_required(launch) {
                    Some(software_on())
                } else {
                    launch.original.software_rasterizer
                },
                power_preference: if self.software_required(launch) {
                    Some(low_power())
                } else {
                    launch.original.power_preference
                },
            },
            Attempt::SoftwareOnly { .. } => BackendEnvView {
                backend: launch.original.backend,
                software_rasterizer: Some(software_on()),
                power_preference: None,
            },
        }
    }

    /// What the attempt hands to the probe.
    pub open spec fn config_for(self, launch: LaunchView) -> AttemptConfigView {
        match self {
            Attempt::Hardware { explicit_backend, .. } => AttemptConfigView {
                backends: backends_for(explicit_backend),
                force_fallback: self.software_required(launch),
            },
            Attempt::SoftwareOnly { .. } => AttemptConfigView {
                backends: Set::empty(),
                force_fallback: false,
            },
        }
    }

    /// Puts the attempt into force: writes all three values of `env`,
    /// whatever they were, and records in `diagnostics` whether the attempt
    /// runs in software.
    pub fn apply(
        &self,
        launch: &LaunchConfig,
        env: &mut BackendEnv,
        diagnostics: &mut RendererDiagnostics,
    ) -> (config: AttemptConfig)
        ensures
            config@ == self.config_for(launch@),
            final(env)@ == self.env_for(launch@),
            final(diagnostics)@ == (DiagnosticsView {
                software_backend: self.software_required(launch@),
                ..old(diagnostics)@
            }),
            final(diagnostics).started_at == old(diagnostics).started_at,
    {
        match self {
            Attempt::Hardware { explicit_backend, enforce_software, .. } => {
                match explicit_backend {
                    Some(family) => {
                        env.backend = Some(String::from_str(family.name()));
                    },
                    None => {
                        env.backend = launch.original_backend.clone();
                    },
                }
                let software = launch.force_software || *enforce_software;
                diagnostics.software_backend = software;
                if software {
                    env.force_software();
                } else {
                    env.software_rasterizer = launch.original_software.clone();
                    env.power_preference = launch.original_power_pref.clone();
                }
                AttemptConfig { backends: backend_mask(*explicit_backend), force_fallback: software }
            },
            Attempt::SoftwareOnly { .. } => {
                diagnostics.software_backend = true;
                env.backend = launch.original_backend.clone();
                env.software_rasterizer = Some(String::from_str("1"));
                env.power_preference = None;
                AttemptConfig::glow()
            },
        }
    }
}

impl LaunchConfig {
    /// The attempts to make, in order.
    pub fn fallback_plan(&self) -> (plan: Vec<Attempt>)
        ensures
            plan@ == plan_for(self.platform),
    {
        let mut attempts: Vec<Attempt> = Vec::new();
        attempts.push(Attempt::system_default());
        attempts.push(Attempt::vulkan());
        attempts.push(Attempt::gl_software());
        match self.platform {
            Platform::MacOs => {
                attempts.push(Attempt::metal());
            },
            Platform::Other => {},
        }
        attempts.push(Attempt::glow_software());
        attempts
    }

    /// How many attempts the plan holds: four, and one more on the platform
    /// that has the Metal backend.
    pub fn attempt_count(&self) -> (count: usize)
        ensures
            count == plan_for(self.platform).len(),
            count >= 3,
            count == if self.platform == Platform::MacOs { 5int } else { 4int },
    {
        self.fallback_plan().len()
    }
}

/// Every plan holds at least three attempts; its last attempt is the
/// software-only one, and every attempt before it is a hardware attempt.
pub proof fn lemma_plan_ends_in_software(platform: Platform)
    ensures
        plan_for(platform).len() >= 3,
        plan_for(platform).last() is SoftwareOnly,
        forall|i: int|
            0 <= i < plan_for(platform).len() - 1 ==> (#[trigger] plan_for(platform)[i]) is Hardware,
{
}

/// The Metal attempt is in the plan of the platform that has that backend,
/// and in no other plan.
pub proof fn lemma_metal_only_on_its_platform(platform: Platform)
    ensures
        plan_for(platform).contains(metal_attempt()) <==> platform == Platform::MacOs,
{
    match platform {
        Platform::MacOs => {
        },
        Platform::Other => {},
    }
}

} // verus!
