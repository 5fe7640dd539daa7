use std::cell::RefCell;

use microserial_gui::renderer::adapter::{
    adapter_or_error, AdapterInfo, Backend, DeviceType, PowerPreference, ProbeRequest,
};
use microserial_gui::renderer::attempt::{
    backend_mask, Attempt, AttemptConfig, BackendFamily, BackendSet,
};
use microserial_gui::renderer::negotiation::{base_diagnostics, detect};
use microserial_gui::renderer::diagnostics::RendererDiagnostics;
use microserial_gui::renderer::environment::{
    compositor_name, BackendEnv, DisplayEnv, Platform,
};
use microserial_gui::renderer::host::next_start;
use microserial_gui::renderer::launch::{env_flag, LaunchConfig};
use microserial_gui::renderer::report::{report_of, run_headless_probe, HeadlessReport};
use microserial_gui::renderer::selection::{
    failure_message, HardwareAcceleration, HostRenderer, RendererSelection,
};

fn args(items: &[&str]) -> Vec<String> {
    items.iter().map(|item| item.to_string()).collect()
}

fn no_display() -> DisplayEnv {
    DisplayEnv { wayland_display: None, x11_display: None }
}

fn gpu() -> AdapterInfo {
    AdapterInfo {
        name: "Test GPU".to_string(),
        device_type: DeviceType::DiscreteGpu,
        driver: "testdrv 1.2".to_string(),
        backend: Backend::Vulkan,
    }
}

fn plain_launch(platform: Platform) -> LaunchConfig {
    let mut env = BackendEnv::unset();
    LaunchConfig::from_args(&args(&["app"]), &None, &mut env, platform)
}

fn never(_env: &BackendEnv, _request: &ProbeRequest) -> Option<AdapterInfo> {
    panic!("the hardware must not be asked")
}

fn nothing(_env: &BackendEnv, _request: &ProbeRequest) -> Option<AdapterInfo> {
    None
}

#[test]
fn force_variable_values() {
    for value in ["1", "true", "TRUE", "TrUe", "tRUE"] {
        let mut env = BackendEnv {
            backend: Some("dx12".to_string()),
            software_rasterizer: Some("0".to_string()),
            power_preference: None,
        };
        let launch = LaunchConfig::from_args(
            &args(&["app"]),
            &Some(value.to_string()),
            &mut env,
            Platform::Other,
        );
        assert!(launch.force_software, "{value}");
        assert!(launch.env_forced, "{value}");
        assert!(!launch.headless);
        assert_eq!(env.backend.as_deref(), Some("dx12"));
        assert_eq!(env.software_rasterizer.as_deref(), Some("1"));
        assert_eq!(env.power_preference.as_deref(), Some("low_power"));
        assert_eq!(launch.original_backend.as_deref(), Some("dx12"));
        assert_eq!(launch.original_software.as_deref(), Some("0"));
        assert_eq!(launch.original_power_pref, None);
    }
    for value in ["0", "", "yes", "true ", " 1", "11", "tru", "truee", "on"] {
        assert!(!env_flag(&Some(value.to_string())), "{value:?}");
    }
    assert!(!env_flag(&None));
}

#[test]
fn force_variable_unset_leaves_environment() {
    let mut env = BackendEnv {
        backend: None,
        software_rasterizer: Some("0".to_string()),
        power_preference: Some("high".to_string()),
    };
    let launch = LaunchConfig::from_args(
        &args(&["app", "--verbose"]),
        &Some("no".to_string()),
        &mut env,
        Platform::MacOs,
    );
    assert!(!launch.force_software);
    assert!(!launch.env_forced);
    assert!(!launch.headless);
    assert_eq!(launch.platform, Platform::MacOs);
    assert_eq!(env.backend, None);
    assert_eq!(env.software_rasterizer.as_deref(), Some("0"));
    assert_eq!(env.power_preference.as_deref(), Some("high"));
}

#[test]
fn program_name_is_no_flag() {
    let mut env = BackendEnv::unset();
    let launch = LaunchConfig::from_args(
        &args(&["--force-software", "--headless-detect"]),
        &None,
        &mut env,
        Platform::Other,
    );
    assert!(!launch.force_software);
    assert!(launch.headless);
    let launch = LaunchConfig::from_args(&args(&[]), &None, &mut env, Platform::Other);
    assert!(!launch.force_software);
    assert!(!launch.headless);
}

#[test]
fn force_flag_without_variable() {
    let mut env = BackendEnv::unset();
    let launch = LaunchConfig::from_args(
        &args(&["app", "--force-software"]),
        &None,
        &mut env,
        Platform::MacOs,
    );
    assert!(launch.force_software);
    assert!(!launch.env_forced);
    assert_eq!(env.software_rasterizer.as_deref(), Some("1"));
    assert_eq!(env.power_preference.as_deref(), Some("low_power"));

    let count: usize = launch.attempt_count();
    let plan = launch.fallback_plan();
    for index in 0..count - 1 {
        assert!(plan[index].is_hardware());
        assert!(plan[index].prefers_low_power(&launch));
        let seen: RefCell<usize> = RefCell::new(0);
        let acquire = |_env: &BackendEnv, request: &ProbeRequest| {
            assert!(request.force_fallback_adapter);
            assert_eq!(request.power_preference, PowerPreference::LowPower);
            let at: usize = *seen.borrow();
            *seen.borrow_mut() = at + 1;
            if at == index {
                Some(gpu())
            } else {
                None
            }
        };
        let selection = detect(&launch, &no_display(), 0, &mut env, acquire).unwrap();
        assert_eq!(selection.attempt, index);
        assert!(selection.diagnostics.software_backend);
        assert!(selection.diagnostics.forced_software);
        assert!(!selection.diagnostics.env_forced);
        assert_eq!(selection.options.hardware_acceleration, HardwareAcceleration::Off);
        assert_eq!(selection.options.renderer, HostRenderer::Wgpu);
    }
}

#[test]
fn enable_force_software_is_idempotent() {
    let mut env = BackendEnv {
        backend: Some("gl".to_string()),
        software_rasterizer: None,
        power_preference: Some("high_performance".to_string()),
    };
    let mut launch = LaunchConfig::from_args(&args(&["app"]), &None, &mut env, Platform::Other);
    assert!(!launch.force_software);
    launch.enable_force_software(&mut env);
    let once = (launch.clone(), env.clone());
    launch.enable_force_software(&mut env);
    assert!(launch.force_software);
    assert_eq!(launch.force_software, once.0.force_software);
    assert_eq!(launch.env_forced, once.0.env_forced);
    assert_eq!(launch.original_power_pref, once.0.original_power_pref);
    assert_eq!(env.backend, once.1.backend);
    assert_eq!(env.software_rasterizer, once.1.software_rasterizer);
    assert_eq!(env.power_preference, once.1.power_preference);
    assert_eq!(env.backend.as_deref(), Some("gl"));
    assert_eq!(env.software_rasterizer.as_deref(), Some("1"));
    assert_eq!(env.power_preference.as_deref(), Some("low_power"));
    assert_eq!(launch.original_power_pref.as_deref(), Some("high_performance"));
}

#[test]
fn attempt_count_by_platform() {
    let other = plain_launch(Platform::Other);
    let mac = plain_launch(Platform::MacOs);
    assert_eq!(other.attempt_count(), 4);
    assert_eq!(mac.attempt_count(), 5);
    assert!(other.attempt_count() >= 3);
    let labels = |launch: &LaunchConfig| -> Vec<&'static str> {
        launch.fallback_plan().iter().map(|attempt| attempt.label()).collect()
    };
    assert_eq!(
        labels(&other),
        vec![
            "system default",
            "WGPU_BACKEND=vulkan",
            "WGPU_BACKEND=gl (software)",
            "software glow"
        ]
    );
    assert_eq!(
        labels(&mac),
        vec![
            "system default",
            "WGPU_BACKEND=vulkan",
            "WGPU_BACKEND=gl (software)",
            "WGPU_BACKEND=metal",
            "software glow"
        ]
    );
    for launch in [&other, &mac] {
        let plan = launch.fallback_plan();
        assert_eq!(plan.len(), launch.attempt_count());
        assert!(!plan[plan.len() - 1].is_hardware());
        for attempt in &plan[..plan.len() - 1] {
            assert!(attempt.is_hardware());
        }
    }
}

#[test]
fn attempts_of_the_plan() {
    assert!(matches!(
        Attempt::system_default(),
        Attempt::Hardware { label: "system default", explicit_backend: None, enforce_software: false }
    ));
    assert!(matches!(
        Attempt::vulkan(),
        Attempt::Hardware {
            label: "WGPU_BACKEND=vulkan",
            explicit_backend: Some(BackendFamily::Vulkan),
            enforce_software: false
        }
    ));
    assert!(matches!(
        Attempt::gl_software(),
        Attempt::Hardware {
            label: "WGPU_BACKEND=gl (software)",
            explicit_backend: Some(BackendFamily::Gl),
            enforce_software: true
        }
    ));
    assert!(matches!(
        Attempt::metal(),
        Attempt::Hardware {
            label: "WGPU_BACKEND=metal",
            explicit_backend: Some(BackendFamily::Metal),
            enforce_software: false
        }
    ));
    assert!(matches!(Attempt::glow_software(), Attempt::SoftwareOnly { label: "software glow" }));
}

#[test]
fn backend_family_names() {
    for family in
        [BackendFamily::Vulkan, BackendFamily::Metal, BackendFamily::Dx12, BackendFamily::Gl]
    {
        assert_eq!(BackendFamily::from_name(family.name()), Some(family));
    }
    assert_eq!(BackendFamily::Vulkan.name(), "vulkan");
    assert_eq!(BackendFamily::Metal.name(), "metal");
    assert_eq!(BackendFamily::Dx12.name(), "dx12");
    assert_eq!(BackendFamily::Gl.name(), "gl");
    assert_eq!(BackendFamily::from_name("Vulkan"), None);
    assert_eq!(BackendFamily::from_name(""), None);
}

#[test]
fn backend_sets() {
    assert!(BackendSet::empty().is_empty());
    assert!(!BackendSet::all().is_empty());
    let only = BackendSet::only(BackendFamily::Dx12);
    assert!(only.contains(BackendFamily::Dx12));
    assert!(!only.contains(BackendFamily::Gl));
    assert!(!only.contains(BackendFamily::Vulkan));
    assert!(!only.contains(BackendFamily::Metal));
    assert!(!only.is_empty());
    assert_eq!(backend_mask(None), BackendSet::all());
    assert_eq!(backend_mask(Some(BackendFamily::Gl)), BackendSet::only(BackendFamily::Gl));
    assert_eq!(
        AttemptConfig::glow(),
        AttemptConfig { backends: BackendSet::empty(), force_fallback: false }
    );
}

#[test]
fn probe_request_fills_empty_restriction() {
    let request = ProbeRequest::new(BackendSet::empty(), false, false);
    assert_eq!(request.backends, BackendSet::all());
    assert_eq!(request.power_preference, PowerPreference::HighPerformance);
    assert!(!request.force_fallback_adapter);
    let request = ProbeRequest::new(BackendSet::only(BackendFamily::Vulkan), true, true);
    assert_eq!(request.backends, BackendSet::only(BackendFamily::Vulkan));
    assert_eq!(request.power_preference, PowerPreference::LowPower);
    assert!(request.force_fallback_adapter);
}

#[test]
fn missing_adapter_is_an_error() {
    assert_eq!(adapter_or_error(None).unwrap_err(), "No compatible GPU adapters");
    assert_eq!(adapter_or_error(Some(gpu())).unwrap().name, "Test GPU");
}

#[test]
fn apply_derives_environment_from_baseline() {
    let mut baseline = BackendEnv {
        backend: Some("dx12".to_string()),
        software_rasterizer: Some("0".to_string()),
        power_preference: Some("high_performance".to_string()),
    };
    let launch =
        LaunchConfig::from_args(&args(&["app"]), &None, &mut baseline, Platform::Other);
    let mut env = BackendEnv {
        backend: Some("left over".to_string()),
        software_rasterizer: Some("left over".to_string()),
        power_preference: Some("left over".to_string()),
    };

    let mut report = RendererDiagnostics::new();
    let config = Attempt::system_default().apply(&launch, &mut env, &mut report);
    assert_eq!(config, AttemptConfig { backends: BackendSet::all(), force_fallback: false });
    assert_eq!(env.backend.as_deref(), Some("dx12"));
    assert_eq!(env.software_rasterizer.as_deref(), Some("0"));
    assert_eq!(env.power_preference.as_deref(), Some("high_performance"));
    assert!(!report.software_backend);

    let config = Attempt::vulkan().apply(&launch, &mut env, &mut report);
    assert_eq!(
        config,
        AttemptConfig { backends: BackendSet::only(BackendFamily::Vulkan), force_fallback: false }
    );
    assert_eq!(env.backend.as_deref(), Some("vulkan"));
    assert_eq!(env.software_rasterizer.as_deref(), Some("0"));
    assert_eq!(env.power_preference.as_deref(), Some("high_performance"));
    assert!(!report.software_backend);

    let config = Attempt::gl_software().apply(&launch, &mut env, &mut report);
    assert_eq!(
        config,
        AttemptConfig { backends: BackendSet::only(BackendFamily::Gl), force_fallback: true }
    );
    assert_eq!(env.backend.as_deref(), Some("gl"));
    assert_eq!(env.software_rasterizer.as_deref(), Some("1"));
    assert_eq!(env.power_preference.as_deref(), Some("low_power"));
    assert!(report.software_backend);

    let config = Attempt::metal().apply(&launch, &mut env, &mut report);
    assert_eq!(
        config,
        AttemptConfig { backends: BackendSet::only(BackendFamily::Metal), force_fallback: false }
    );
    assert_eq!(env.backend.as_deref(), Some("metal"));
    assert_eq!(env.software_rasterizer.as_deref(), Some("0"));
    assert_eq!(env.power_preference.as_deref(), Some("high_performance"));
    assert!(!report.software_backend);

    let config = Attempt::glow_software().apply(&launch, &mut env, &mut report);
    assert_eq!(config, AttemptConfig::glow());
    assert_eq!(env.backend.as_deref(), Some("dx12"));
    assert_eq!(env.software_rasterizer.as_deref(), Some("1"));
    assert_eq!(env.power_preference, None);
    assert!(report.software_backend);
}

#[test]
fn apply_restores_unset_originals() {
    let launch = plain_launch(Platform::Other);
    let mut env = BackendEnv {
        backend: Some("vulkan".to_string()),
        software_rasterizer: Some("1".to_string()),
        power_preference: Some("low_power".to_string()),
    };
    let mut report = RendererDiagnostics::new();
    Attempt::system_default().apply(&launch, &mut env, &mut report);
    assert_eq!(env.backend, None);
    assert_eq!(env.software_rasterizer, None);
    assert_eq!(env.power_preference, None);
}

#[test]
fn first_attempt_wins() {
    let launch = plain_launch(Platform::Other);
    let mut env = BackendEnv::unset();
    let calls: RefCell<usize> = RefCell::new(0);
    let acquire = |env: &BackendEnv, request: &ProbeRequest| {
        let seen: usize = *calls.borrow();
        *calls.borrow_mut() = seen + 1;
        assert_eq!(env.backend, None);
        assert_eq!(request.backends, BackendSet::all());
        assert_eq!(request.power_preference, PowerPreference::HighPerformance);
        assert!(!request.force_fallback_adapter);
        Some(gpu())
    };
    let display = DisplayEnv { wayland_display: Some("wayland-0".to_string()), x11_display: Some(":0".to_string()) };
    let selection = detect(&launch, &display, 0, &mut env, acquire).unwrap();
    assert_eq!(*calls.borrow(), 1);
    assert_eq!(selection.attempt, 0);
    assert_eq!(selection.attempt_label, "system default");
    assert_eq!(selection.options.renderer, HostRenderer::Wgpu);
    assert_eq!(selection.options.hardware_acceleration, HardwareAcceleration::Preferred);
    let report = &selection.diagnostics;
    assert!(!report.forced_software);
    assert!(!report.env_forced);
    assert!(!report.fallback_used);
    assert!(!report.software_backend);
    assert_eq!(report.compositor.as_deref(), Some("Wayland"));
    assert_eq!(report.backend, "Vulkan");
    assert_eq!(report.adapter_name.as_deref(), Some("Test GPU"));
    assert_eq!(report.adapter_type.as_deref(), Some("DiscreteGpu"));
    assert_eq!(report.backend_details.as_deref(), Some("Driver: testdrv 1.2"));
    assert_eq!(report.failure_reason, None);
}

#[test]
fn failures_are_chained() {
    let launch = plain_launch(Platform::Other);
    let mut env = BackendEnv::unset();
    let seen: RefCell<Vec<(Option<String>, ProbeRequest)>> = RefCell::new(Vec::new());
    let acquire = |env: &BackendEnv, request: &ProbeRequest| {
        seen.borrow_mut().push((env.backend.clone(), *request));
        if seen.borrow().len() < 3 {
            None
        } else {
            Some(AdapterInfo {
                name: "llvmpipe".to_string(),
                device_type: DeviceType::Cpu,
                driver: "mesa".to_string(),
                backend: Backend::Gl,
            })
        }
    };
    let selection = detect(&launch, &no_display(), 0, &mut env, acquire).unwrap();
    assert_eq!(selection.attempt, 2);
    assert_eq!(selection.attempt_label, "WGPU_BACKEND=gl (software)");
    let report = &selection.diagnostics;
    assert_eq!(
        report.failure_reason.as_deref(),
        Some(
            "system default: No compatible GPU adapters -> WGPU_BACKEND=vulkan: No compatible GPU adapters"
        )
    );
    assert!(report.fallback_used);
    assert!(report.software_backend);
    assert_eq!(report.backend, "Gl");
    assert_eq!(report.adapter_type.as_deref(), Some("Cpu"));
    assert_eq!(report.backend_details.as_deref(), Some("Driver: mesa"));
    assert_eq!(selection.options.hardware_acceleration, HardwareAcceleration::Off);

    let seen = seen.borrow();
    assert_eq!(seen.len(), 3);
    assert_eq!(seen[0].0, None);
    assert_eq!(seen[1].0.as_deref(), Some("vulkan"));
    assert_eq!(seen[2].0.as_deref(), Some("gl"));
    assert_eq!(seen[1].1.backends, BackendSet::only(BackendFamily::Vulkan));
    assert_eq!(seen[2].1.backends, BackendSet::only(BackendFamily::Gl));
    assert!(seen[2].1.force_fallback_adapter);
    assert_eq!(seen[2].1.power_preference, PowerPreference::LowPower);
    assert_eq!(env.backend.as_deref(), Some("gl"));
    assert_eq!(env.software_rasterizer.as_deref(), Some("1"));
    assert_eq!(env.power_preference.as_deref(), Some("low_power"));
}

#[test]
fn cpu_adapter_is_accepted_as_software() {
    let launch = plain_launch(Platform::Other);
    let mut env = BackendEnv::unset();
    let acquire = |_env: &BackendEnv, _request: &ProbeRequest| {
        Some(AdapterInfo {
            name: "swiftshader".to_string(),
            device_type: DeviceType::Cpu,
            driver: String::new(),
            backend: Backend::Vulkan,
        })
    };
    let selection = detect(&launch, &no_display(), 0, &mut env, acquire).unwrap();
    assert_eq!(selection.attempt, 0);
    assert!(selection.diagnostics.software_backend);
    assert!(!selection.diagnostics.fallback_used);
    assert_eq!(selection.options.hardware_acceleration, HardwareAcceleration::Off);
    assert_eq!(selection.diagnostics.backend_details.as_deref(), Some("Driver: "));
}

#[test]
fn all_probes_fail_ends_in_software() {
    for (platform, last) in [(Platform::Other, 3usize), (Platform::MacOs, 4usize)] {
        let launch = plain_launch(platform);
        let mut env = BackendEnv {
            backend: Some("stale".to_string()),
            software_rasterizer: None,
            power_preference: Some("stale".to_string()),
        };
        let selection = detect(&launch, &no_display(), 0, &mut env, nothing).unwrap();
        assert_eq!(selection.attempt, last);
        assert_eq!(selection.attempt_label, "software glow");
        assert_eq!(selection.options.renderer, HostRenderer::Glow);
        assert_eq!(selection.options.hardware_acceleration, HardwareAcceleration::Off);
        let report = &selection.diagnostics;
        assert_eq!(report.backend, "glow");
        assert_eq!(report.backend_details.as_deref(), Some("Software renderer (glow fallback)"));
        assert_eq!(report.adapter_type.as_deref(), Some("Cpu"));
        assert_eq!(report.adapter_name.as_deref(), Some("Software Renderer"));
        assert!(report.software_backend);
        assert!(report.fallback_used);
        let mut expected = String::from(
            "system default: No compatible GPU adapters -> WGPU_BACKEND=vulkan: No compatible GPU adapters -> WGPU_BACKEND=gl (software): No compatible GPU adapters",
        );
        if platform == Platform::MacOs {
            expected.push_str(" -> WGPU_BACKEND=metal: No compatible GPU adapters");
        }
        assert_eq!(report.failure_reason.as_deref(), Some(expected.as_str()));
        assert_eq!(env.backend, None);
        assert_eq!(env.software_rasterizer.as_deref(), Some("1"));
        assert_eq!(env.power_preference, None);
    }
}

#[test]
fn last_attempt_needs_no_hardware() {
    for platform in [Platform::Other, Platform::MacOs] {
        let launch = plain_launch(platform);
        let mut env = BackendEnv::unset();
        let last: usize = launch.attempt_count() - 1;
        let selection = detect(&launch, &no_display(), last, &mut env, never).unwrap();
        assert_eq!(selection.attempt, last);
        assert_eq!(selection.attempt_label, "software glow");
        assert_eq!(selection.diagnostics.backend, "glow");
        assert!(selection.diagnostics.software_backend);
        assert!(selection.diagnostics.fallback_used);
        assert_eq!(selection.diagnostics.failure_reason, None);
    }
}

#[test]
fn resuming_past_a_failed_selection() {
    let launch = plain_launch(Platform::Other);
    let mut env = BackendEnv::unset();
    let acquire = |_env: &BackendEnv, request: &ProbeRequest| {
        if request.backends == BackendSet::only(BackendFamily::Gl) {
            Some(gpu())
        } else {
            None
        }
    };
    let selection = detect(&launch, &no_display(), 1, &mut env, acquire).unwrap();
    assert_eq!(selection.attempt, 2);
    assert!(selection.diagnostics.fallback_used);
    assert_eq!(
        selection.diagnostics.failure_reason.as_deref(),
        Some("WGPU_BACKEND=vulkan: No compatible GPU adapters")
    );
    let selection = detect(&launch, &no_display(), 2, &mut env, acquire).unwrap();
    assert_eq!(selection.attempt, 2);
    assert!(selection.diagnostics.fallback_used);
    assert_eq!(selection.diagnostics.failure_reason, None);
}

#[test]
fn start_beyond_the_plan_is_exhausted() {
    let launch = plain_launch(Platform::Other);
    let mut env = BackendEnv {
        backend: Some("kept".to_string()),
        software_rasterizer: None,
        power_preference: None,
    };
    for start in [4usize, 5, usize::MAX] {
        let error = detect(&launch, &no_display(), start, &mut env, never).unwrap_err();
        assert_eq!(error, "No compatible wgpu adapters found");
        assert_eq!(env.backend.as_deref(), Some("kept"));
    }
    let report = report_of(Err("No compatible wgpu adapters found".to_string()), &DisplayEnv {
        wayland_display: None,
        x11_display: Some(":1".to_string()),
    });
    assert_eq!(report.diagnostics.failure_reason.as_deref(), Some("No compatible wgpu adapters found"));
    assert_eq!(report.diagnostics.compositor.as_deref(), Some("X11"));
    assert_eq!(report.diagnostics.backend, "wgpu");
}

#[test]
fn detect_is_idempotent() {
    let launch = plain_launch(Platform::Other);
    let mut env = BackendEnv {
        backend: None,
        software_rasterizer: Some("0".to_string()),
        power_preference: None,
    };
    let acquire = |env: &BackendEnv, _request: &ProbeRequest| {
        if env.backend.as_deref() == Some("vulkan") {
            Some(gpu())
        } else {
            None
        }
    };
    let first = detect(&launch, &no_display(), 0, &mut env, acquire).unwrap();
    let after_first = env.clone();
    let second = detect(&launch, &no_display(), 0, &mut env, acquire).unwrap();
    assert_eq!(first.attempt, 1);
    assert_eq!(first.attempt, second.attempt);
    assert_eq!(first.diagnostics.backend, second.diagnostics.backend);
    assert_eq!(first.diagnostics.failure_reason, second.diagnostics.failure_reason);
    assert_eq!(env.backend, after_first.backend);
    assert_eq!(env.software_rasterizer, after_first.software_rasterizer);
    assert_eq!(env.power_preference, after_first.power_preference);
    assert_eq!(env.backend.as_deref(), Some("vulkan"));
    assert_eq!(env.software_rasterizer, None);
}

#[test]
fn env_forced_marks_the_report() {
    let mut env = BackendEnv::unset();
    let launch = LaunchConfig::from_args(
        &args(&["app"]),
        &Some("true".to_string()),
        &mut env,
        Platform::Other,
    );
    let report = base_diagnostics(&launch, &no_display());
    assert!(report.forced_software);
    assert!(report.env_forced);
    assert!(!report.fallback_used);
    assert!(!report.software_backend);
    assert_eq!(report.backend, "wgpu");
    assert_eq!(report.compositor, None);
}

#[test]
fn compositor_names() {
    let some = |text: &str| Some(text.to_string());
    assert_eq!(
        compositor_name(&DisplayEnv { wayland_display: some("wayland-0"), x11_display: some(":0") })
            .as_deref(),
        Some("Wayland")
    );
    assert_eq!(
        compositor_name(&DisplayEnv { wayland_display: some(""), x11_display: None }).as_deref(),
        Some("Wayland")
    );
    assert_eq!(
        compositor_name(&DisplayEnv { wayland_display: None, x11_display: some(":0") }).as_deref(),
        Some("X11")
    );
    assert_eq!(compositor_name(&no_display()), None);
}

#[test]
fn headless_scenario_without_display() {
    let mut env = BackendEnv::unset();
    let launch = LaunchConfig::from_args(
        &args(&["app", "--headless-detect"]),
        &None,
        &mut env,
        Platform::Other,
    );
    assert!(!launch.force_software);
    assert!(launch.headless);
    assert!(!launch.env_forced);
    let report = run_headless_probe(&launch, &no_display(), &mut env, nothing);
    assert_eq!(report.diagnostics.compositor, None);
    let text = report.to_text();
    assert!(text.lines().any(|line| line.starts_with("Renderer:")));
    assert!(text.starts_with("Renderer: glow\n"));
}

#[test]
fn report_text_lines() {
    let mut diagnostics = RendererDiagnostics::new();
    let report = HeadlessReport { diagnostics: diagnostics.clone() };
    assert_eq!(report.to_text(), "Renderer: wgpu\n");

    diagnostics.backend = "Vulkan".to_string();
    diagnostics.adapter_name = Some("Test GPU".to_string());
    diagnostics.adapter_type = Some("DiscreteGpu".to_string());
    diagnostics.compositor = Some("X11".to_string());
    diagnostics.backend_details = Some("Driver: x".to_string());
    diagnostics.software_backend = true;
    diagnostics.fallback_used = true;
    diagnostics.failure_reason = Some("a: b -> c: d".to_string());
    let report = HeadlessReport { diagnostics };
    assert_eq!(
        report.to_text(),
        "Renderer: Vulkan\nAdapter: Test GPU\nAdapter Type: DiscreteGpu\nCompositor: X11\nSoftware fallback active\nFallback engaged\nPrevious error: a: b -> c: d\n"
    );
}

#[test]
fn selections_of_both_kinds() {
    let mut report = RendererDiagnostics::new();
    let selection = RendererSelection::new_wgpu(2, "label", report.clone());
    assert_eq!(selection.attempt, 2);
    assert_eq!(selection.attempt_label, "label");
    assert_eq!(selection.options.renderer, HostRenderer::Wgpu);
    assert_eq!(selection.options.hardware_acceleration, HardwareAcceleration::Preferred);
    assert_eq!(selection.diagnostics.backend, "wgpu");

    report.software_backend = true;
    let selection = RendererSelection::new_wgpu(0, "label", report.clone());
    assert_eq!(selection.options.hardware_acceleration, HardwareAcceleration::Off);

    report.adapter_name = Some("kept".to_string());
    report.software_backend = false;
    let selection = RendererSelection::new_glow(7, "soft", report);
    assert_eq!(selection.attempt, 7);
    assert_eq!(selection.attempt_label, "soft");
    assert_eq!(selection.options.renderer, HostRenderer::Glow);
    assert_eq!(selection.options.hardware_acceleration, HardwareAcceleration::Off);
    assert_eq!(selection.diagnostics.backend, "glow");
    assert_eq!(selection.diagnostics.adapter_name.as_deref(), Some("kept"));
    assert_eq!(selection.diagnostics.adapter_type.as_deref(), Some("Cpu"));
    assert!(!selection.diagnostics.software_backend);
}

#[test]
fn recording_adapter_and_failures() {
    let mut report = RendererDiagnostics::new();
    report.record_failures(&Vec::new());
    assert_eq!(report.failure_reason, None);
    report.record_failures(&vec!["one".to_string()]);
    assert_eq!(report.failure_reason.as_deref(), Some("one"));
    report.record_failures(&vec!["one".to_string(), "two".to_string(), "three".to_string()]);
    assert_eq!(report.failure_reason.as_deref(), Some("one -> two -> three"));
    report.record_failures(&Vec::new());
    assert_eq!(report.failure_reason.as_deref(), Some("one -> two -> three"));

    report.record_adapter(&AdapterInfo {
        name: "igpu".to_string(),
        device_type: DeviceType::IntegratedGpu,
        driver: "drv".to_string(),
        backend: Backend::Dx12,
    });
    assert_eq!(report.backend, "Dx12");
    assert_eq!(report.adapter_name.as_deref(), Some("igpu"));
    assert_eq!(report.adapter_type.as_deref(), Some("IntegratedGpu"));
    assert_eq!(report.backend_details.as_deref(), Some("Driver: drv"));
    assert!(!report.software_backend);
    assert_eq!(failure_message("label", "error"), "label: error");
    assert_eq!(failure_message("", ""), ": ");
}

#[test]
fn names_of_kinds_and_backends() {
    assert_eq!(DeviceType::Other.name(), "Other");
    assert_eq!(DeviceType::IntegratedGpu.name(), "IntegratedGpu");
    assert_eq!(DeviceType::DiscreteGpu.name(), "DiscreteGpu");
    assert_eq!(DeviceType::VirtualGpu.name(), "VirtualGpu");
    assert_eq!(DeviceType::Cpu.name(), "Cpu");
    assert_eq!(Backend::Empty.name(), "Empty");
    assert_eq!(Backend::Vulkan.name(), "Vulkan");
    assert_eq!(Backend::Metal.name(), "Metal");
    assert_eq!(Backend::Dx12.name(), "Dx12");
    assert_eq!(Backend::Gl.name(), "Gl");
    assert_eq!(Backend::BrowserWebGpu.name(), "BrowserWebGpu");
}

#[test]
fn copies_keep_fields() {
    let mut report = RendererDiagnostics::new();
    report.compositor = Some("X11".to_string());
    report.env_forced = true;
    let mut copy = report.clone();
    assert_eq!(copy.compositor.as_deref(), Some("X11"));
    assert!(copy.env_forced);
    assert_eq!(copy.backend, "wgpu");
    assert_eq!(copy.started_at, report.started_at);
    copy.restart();
    assert!(copy.started_at >= report.started_at);
    assert_eq!(copy.compositor.as_deref(), Some("X11"));
    let env = BackendEnv {
        backend: Some("gl".to_string()),
        software_rasterizer: None,
        power_preference: Some("p".to_string()),
    };
    let copy = env.clone();
    assert_eq!(copy.backend.as_deref(), Some("gl"));
    assert_eq!(copy.software_rasterizer, None);
    assert_eq!(copy.power_preference.as_deref(), Some("p"));
}

#[test]
fn host_failures_are_carried_over() {
    assert_eq!(next_start(0, 4), Some(1));
    assert_eq!(next_start(2, 4), Some(3));
    assert_eq!(next_start(3, 4), None);
    assert_eq!(next_start(4, 4), None);
    assert_eq!(next_start(usize::MAX, usize::MAX), None);
    assert_eq!(next_start(usize::MAX - 1, usize::MAX), None);
    assert_eq!(next_start(0, 0), None);

    let fresh = || RendererSelection::new_wgpu(0, "system default", RendererDiagnostics::new());
    let mut selection = fresh();
    selection.carry_over(0, None);
    assert!(!selection.diagnostics.fallback_used);
    assert_eq!(selection.diagnostics.failure_reason, None);

    let mut selection = fresh();
    selection.carry_over(1, None);
    assert!(selection.diagnostics.fallback_used);
    assert_eq!(selection.diagnostics.failure_reason, None);

    let mut selection = RendererSelection::new_wgpu(2, "later", RendererDiagnostics::new());
    selection.carry_over(0, None);
    assert!(selection.diagnostics.fallback_used);

    let mut selection = fresh();
    selection.carry_over(0, Some("window failed".to_string()));
    assert!(selection.diagnostics.fallback_used);
    assert_eq!(selection.diagnostics.failure_reason.as_deref(), Some("window failed"));

    let mut selection = fresh();
    selection.diagnostics.failure_reason = Some("a: b".to_string());
    selection.carry_over(0, Some("window failed".to_string()));
    assert_eq!(selection.diagnostics.failure_reason.as_deref(), Some("a: b -> window failed"));
    assert_eq!(selection.attempt, 0);
    assert_eq!(selection.attempt_label, "system default");
}
