//! The launch configuration: what the process arguments and environment say
//! about rendering.

use vstd::prelude::*;
use crate::renderer::environment::{BackendEnv, BackendEnvView, Platform, forced_software};
use crate::text::{eq_ignore_ascii_case, eq_ignoring_ascii_case, opt_view, str_eq, views};

verus! {

/// The argument that forces software rendering.
pub open spec fn force_flag() -> Seq<char> {
    "--force-software"@
}

/// The argument that asks for a headless probe.
pub open spec fn headless_flag() -> Seq<char> {
    "--headless-detect"@
}

/// Whether a value of the force variable switches software rendering on:
/// it does when it is `1`, or `true` in any mix of upper and lower case.
pub open spec fn flag_value_set(value: Option<Seq<char>>) -> bool {
    match value {
        Some(v) => v == "1"@ || eq_ignoring_ascii_case(v, "true"@),
        None => false,
    }
}

/// Whether `flag` is among the arguments that follow the program's name.
pub open spec fn has_flag(args: Seq<Seq<char>>, flag: Seq<char>) -> bool {
    exists|i: int| 1 <= i < args.len() && #[trigger] args[i] == flag
}

/// The two flags are different arguments.
pub proof fn lemma_flags_differ()
    ensures
        force_flag() != headless_flag(),
{
    reveal_strlit("--force-software");
    reveal_strlit("--headless-detect");
    assert(force_flag().len() == 16);
}

/// What was asked of the renderer at process start.
#[derive(Clone, Debug)]
pub struct LaunchConfig {
    /// Software rendering is forced, by the environment or by an argument.
    pub force_software: bool,
    /// The process only probes and reports; it opens no window.
    pub headless: bool,
    /// The force variable was set in the environment.
    pub env_forced: bool,
    /// The platform the plan of attempts is made for.
    pub platform: Platform,
    /// The backend override as it was before the launch.
    pub original_backend: Option<String>,
    /// The software toggle as it was before the launch.
    pub original_software: Option<String>,
    /// The power preference as it was before the launch.
    pub original_power_pref: Option<String>,
}

/// Mathematical model of a [`LaunchConfig`].
pub struct LaunchView {
    pub force_software: bool,
    pub headless: bool,
    pub env_forced: bool,
    pub platform: Platform,
    pub original: BackendEnvView,
}

impl View for LaunchConfig {
    type V = LaunchView;

    open spec fn view(&self) -> LaunchView {
        LaunchView {
            force_software: self.force_software,
            headless: self.headless,
            env_forced: self.env_forced,
            platform: self.platform,
            original: BackendEnvView {
                backend: opt_view(self.original_backend),
                software_rasterizer: opt_view(self.original_software),
                power_preference: opt_view(self.original_power_pref),
            },
        }
    }
}

/// The configuration that follows from the arguments `args` (the program's
/// name first), the value `force_variable` of the force variable, and the
/// environment `env` as it was before the launch.
pub open spec fn launch_from(
    args: Seq<Seq<char>>,
    force_variable: Option<Seq<char>>,
    env: BackendEnvView,
    platform: Platform,
) -> LaunchView {
    LaunchView {
        force_software: flag_value_set(force_variable) || has_flag(args, force_flag()),
        headless: has_flag(args, headless_flag()),
        env_forced: flag_value_set(force_variable),
        platform,
        original: env,
    }
}

/// Whether the value of the force variable switches software rendering on.
pub fn env_flag(value: &Option<String>) -> (set: bool)
    ensures
        set == flag_value_set(opt_view(*value)),
{
    match value {
        Some(v) => str_eq(v.as_str(), "1") || eq_ignore_ascii_case(v.as_str(), "true"),
        None => false,
    }
}

impl LaunchConfig {
    /// Reads the configuration from the process arguments `args` (the
    /// program's name first) and the value of the force variable. `env`
    /// holds the steering values of the environment: on entry as they were
    /// before the launch, which the configuration keeps; on exit with
    /// software rendering forced, if the configuration forces it.
    pub fn from_args(
        args: &Vec<String>,
        force_variable: &Option<String>,
        env: &mut BackendEnv,
        platform: Platform,
    ) -> (config: LaunchConfig)
        ensures
            config@ == launch_from(views(args@), opt_view(*force_variable), old(env)@, platform),
            final(env)@ == if config.force_software {
                forced_software(old(env)@)
            } else {
                old(env)@
            },
    {
        let env_forced = env_flag(force_variable);
        let mut config = LaunchConfig {
            force_software: false,
            headless: false,
            env_forced,
            platform,
            original_backend: env.backend.clone(),
            original_software: env.software_rasterizer.clone(),
            original_power_pref: env.power_preference.clone(),
        };
        if env_forced {
            config.enable_force_software(env);
        }
        let mut i: usize = 1;
        while i < args.len()
            invariant
                1 <= i,
                config@.original == old(env)@,
                config.platform == platform,
                config.env_forced == env_forced,
                config.force_software == (env_forced || exists|j: int|
                    1 <= j < i && j < args.len() && #[trigger] views(args@)[j] == force_flag()),
                config.headless == (exists|j: int|
                    1 <= j < i && j < args.len() && #[trigger] views(args@)[j] == headless_flag()),
                env@ == if config.force_software {
                    forced_software(old(env)@)
                } else {
                    old(env)@
                },
            decreases args.len() - i,
        {
            let arg = args[i].as_str();
            assert(views(args@)[i as int] == arg@);
            proof {
                lemma_flags_differ();
            }
            if str_eq(arg, "--force-software") {
                config.enable_force_software(env);
            } else if str_eq(arg, "--headless-detect") {
                config.headless = true;
            }
            i += 1;
        }
        config
    }

    /// Forces software rendering from here on: marks the configuration and
    /// sets the two toggles in `env`. Doing so again changes nothing.
    pub fn enable_force_software(&mut self, env: &mut BackendEnv)
        ensures
            final(self)@ == (LaunchView { force_software: true, ..old(self)@ }),
            final(env)@ == forced_software(old(env)@),
    {
        self.force_software = true;
        env.force_software();
    }
}

} // verus!
