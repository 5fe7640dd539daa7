use microserial_gui::diagnostics::{DiagnosticsState, LineKind};
use microserial_gui::renderer::RendererDiagnostics;
use microserial_gui::settings::theme_options;
use microserial_gui::theme::ThemePreference;

#[test]
fn theme_choices() {
    assert_eq!(
        theme_options(),
        vec![ThemePreference::System, ThemePreference::Light, ThemePreference::Dark]
    );
    assert_eq!(ThemePreference::System.label(), "System");
    assert_eq!(ThemePreference::Light.label(), "Light");
    assert_eq!(ThemePreference::Dark.label(), "Dark");
}

#[test]
fn diagnostics_window_starts_closed() {
    let state = DiagnosticsState::default();
    assert!(!state.open);
    assert_eq!(state.last_error, None);
    assert_eq!(state.renderer.backend, "wgpu");
    assert_eq!(state.renderer.failure_reason, None);
}

#[test]
fn diagnostics_window_for_forced_software() {
    let mut renderer = RendererDiagnostics::new();
    renderer.backend = "Vulkan".to_string();
    let state = DiagnosticsState::with_renderer(renderer.clone(), false);
    assert!(!state.open);
    assert_eq!(state.last_error, None);
    assert!(!state.renderer.forced_software);
    assert!(!state.renderer.software_backend);
    assert_eq!(state.renderer.backend, "Vulkan");
    let state = DiagnosticsState::with_renderer(renderer.clone(), true);
    assert!(state.renderer.forced_software);
    assert!(state.renderer.software_backend);
    assert!(!state.renderer.fallback_used);
    assert_eq!(state.renderer.backend, "Vulkan");
    assert_eq!(state.renderer.started_at, renderer.started_at);
}

#[test]
fn diagnostics_window_lines() {
    let mut state = DiagnosticsState::default();
    let shown = |state: &DiagnosticsState| -> Vec<(LineKind, String)> {
        state.lines().into_iter().map(|line| (line.kind, line.text)).collect()
    };
    assert_eq!(
        shown(&state),
        vec![
            (LineKind::Plain, "Backend: wgpu".to_string()),
            (LineKind::ProbedAgo, String::new()),
        ]
    );
    state.renderer.backend = "Vulkan".to_string();
    state.renderer.adapter_name = Some("GPU".to_string());
    state.renderer.adapter_type = Some("DiscreteGpu".to_string());
    state.renderer.compositor = Some("Wayland".to_string());
    state.renderer.backend_details = Some("Driver: x".to_string());
    state.renderer.fallback_used = true;
    state.renderer.software_backend = true;
    state.renderer.failure_reason = Some("a: b".to_string());
    state.renderer.forced_software = true;
    state.renderer.env_forced = true;
    state.last_error = Some("boom".to_string());
    let texts: Vec<(LineKind, &str)> = vec![
        (LineKind::Plain, "Backend: Vulkan"),
        (LineKind::Plain, "Adapter: GPU"),
        (LineKind::Plain, "Adapter Type: DiscreteGpu"),
        (LineKind::Plain, "Compositor: Wayland"),
        (LineKind::Detail, "Driver: x"),
        (LineKind::Plain, "Fallback backend engaged"),
        (LineKind::Plain, "Software fallback active"),
        (LineKind::ProbedAgo, ""),
        (LineKind::Fallback, "Fallback: a: b"),
        (LineKind::Plain, "Software rendering forced"),
        (LineKind::Plain, "Set by MICROSERIAL_FORCE_SOFTWARE"),
        (LineKind::LastError, "Last error: boom"),
    ];
    let expected: Vec<(LineKind, String)> =
        texts.into_iter().map(|(kind, text)| (kind, text.to_string())).collect();
    assert_eq!(shown(&state), expected);
}
