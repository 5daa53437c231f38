//! The export registry, the reload protocol and emitter point lists.

use shark::fixed::SCALE;
use shark::primitives::{color, off, random_seeded};
use shark::reload::{apply_config, finish_reload, plan_reload, select_artifact, BuildResult,
    ConfigReadOutcome, HostAction, ResolveOutcome};
use shark::{Color, Config, ErrorMessageEvent, Fixed, FragOne, FragType, Fragment, HostState,
    Line, Point, ShaderRegistry, SystemFilePicker, Visualization, VisualizationExports};

fn fx(millionths: i64) -> Fixed {
    Fixed::from_millionths(millionths)
}

fn frag1(pos: i64, time: i64) -> Fragment {
    FragOne { pos: fx(pos), time: fx(time) }.fragment()
}

fn three_d_config() -> Config {
    Config {
        visualization: Visualization {
            fragment: FragType::FragThree,
            exports_fn_identifier: String::from("vis_exports"),
        },
    }
}

#[test]
fn registry_shades_through_handles() {
    let mut registry = ShaderRegistry::new();
    let white = registry.install(color(Color::new(fx(SCALE), fx(SCALE), fx(SCALE))));
    let black = registry.install(off());

    assert_eq!(registry.shade(&white, &frag1(0, 0)), Color::new(fx(SCALE), fx(SCALE), fx(SCALE)));
    assert_eq!(registry.shade(&black, &frag1(0, 0)), Color::new(fx(0), fx(0), fx(0)));
}

#[test]
fn shade_all_threads_state_like_single_calls() {
    let frames = vec![frag1(0, 0), frag1(SCALE, 0), frag1(2 * SCALE, 0)];

    let mut registry = ShaderRegistry::new();
    let h = registry.install(random_seeded(11));
    let batch = registry.shade_all(&h, &frames);

    let mut lone = random_seeded(11);
    let mut singles = Vec::new();
    for f in &frames {
        singles.push(lone.shade(f));
    }
    assert_eq!(batch, singles);
}

#[test]
fn teardown_retires_all_slots() {
    let mut registry = ShaderRegistry::new();
    registry.install(off());
    registry.install(off());
    registry.teardown();
    assert_eq!(registry.slots.len(), 0);
}

#[test]
fn select_artifact_counts() {
    assert!(matches!(
        select_artifact(Vec::new()),
        Err(ErrorMessageEvent::NoLibs)
    ));
    assert!(matches!(
        select_artifact(vec![String::from("a.so"), String::from("b.so")]),
        Err(ErrorMessageEvent::TooManyLibs)
    ));
    assert_eq!(select_artifact(vec![String::from("a.so")]).unwrap(), String::from("a.so"));
}

#[test]
fn plan_reload_reports_each_failure() {
    let mut state = HostState::new();

    assert!(matches!(
        plan_reload(&state, BuildResult::Artifacts(vec![String::from("a.so")])),
        Err(ErrorMessageEvent::ManifestPathNotSet)
    ));

    state.manifest_folder = Some(String::from("/proj"));
    match plan_reload(&state, BuildResult::Failed(String::from("expected `;`"))) {
        Err(ErrorMessageEvent::CargoError(msg)) => assert_eq!(msg, String::from("expected `;`")),
        other => panic!("wrong outcome: {:?}", other.is_ok()),
    }

    assert!(matches!(
        plan_reload(&state, BuildResult::Artifacts(vec![String::from("a.so")])),
        Err(ErrorMessageEvent::NoSharkToml)
    ));

    state.config = Some(Config {
        visualization: Visualization {
            fragment: FragType::FragOne,
            exports_fn_identifier: String::from("vis_exports"),
        },
    });
    assert!(matches!(
        plan_reload(&state, BuildResult::Artifacts(vec![String::from("a.so")])),
        Err(ErrorMessageEvent::UnsupportedFrag)
    ));

    state.config = Some(three_d_config());
    assert_eq!(
        plan_reload(&state, BuildResult::Artifacts(vec![String::from("a.so")])).unwrap(),
        String::from("a.so")
    );
}

#[test]
fn reload_failure_keeps_active_shader() {
    // A failed entry-point resolution after a successful build must
    // leave the running shader untouched and report exactly one error.
    let mut state = HostState::new();
    state.manifest_folder = Some(String::from("/proj"));
    state.config = Some(three_d_config());

    let mut registry = ShaderRegistry::new();
    let first = finish_reload(
        &mut state,
        &mut registry,
        ResolveOutcome::Resolved(off()),
        String::from("/proj/one.so"),
    );
    assert!(first.is_ok());
    let active_before = state.active.expect("a shader is running");

    let mut errors = Vec::new();
    match finish_reload(
        &mut state,
        &mut registry,
        ResolveOutcome::Missing,
        String::from("/proj/two.so"),
    ) {
        Ok(_) => panic!("resolution should have failed"),
        Err(e) => errors.push(e),
    }

    assert_eq!(errors.len(), 1);
    assert!(matches!(errors[0], ErrorMessageEvent::NoShaderExport));
    assert_eq!(state.active.expect("still running").handle, active_before.handle);
    assert_eq!(state.lib_path, Some(String::from("/proj/one.so")));
    assert_eq!(registry.slots.len(), 1);
}

#[test]
fn reload_success_retires_old_module_after_install() {
    let mut state = HostState::new();
    state.manifest_folder = Some(String::from("/proj"));
    state.config = Some(three_d_config());
    let mut registry = ShaderRegistry::new();

    let first = finish_reload(
        &mut state,
        &mut registry,
        ResolveOutcome::Resolved(off()),
        String::from("/proj/one.so"),
    )
    .unwrap();
    assert!(first.is_empty());

    let second = finish_reload(
        &mut state,
        &mut registry,
        ResolveOutcome::Resolved(off()),
        String::from("/proj/two.so"),
    )
    .unwrap();
    assert_eq!(second.len(), 2);
    assert!(matches!(&second[0], HostAction::RetireModule(p) if p == "/proj/one.so"));
    assert!(matches!(&second[1], HostAction::DeleteFile(p) if p == "/proj/one.so"));
    assert_eq!(state.lib_path, Some(String::from("/proj/two.so")));
    assert_eq!(state.active.unwrap().handle, 1);
}

#[test]
fn apply_config_outcomes() {
    let mut state = HostState::new();

    assert!(matches!(
        apply_config(&mut state, ConfigReadOutcome::Unreadable),
        Some(ErrorMessageEvent::CouldntReadSharkToml)
    ));
    assert!(state.config.is_none());

    assert!(matches!(
        apply_config(&mut state, ConfigReadOutcome::Invalid),
        Some(ErrorMessageEvent::InvalidSharkToml)
    ));
    assert!(state.config.is_none());

    assert!(apply_config(&mut state, ConfigReadOutcome::Read(three_d_config())).is_none());
    assert!(matches!(
        state.config.as_ref().unwrap().visualization.fragment,
        FragType::FragThree
    ));
}

#[test]
fn error_messages_name_the_failure() {
    assert_eq!(ErrorMessageEvent::NoShaderExport.message(), "The shader exports no entry point!");
    assert_eq!(ErrorMessageEvent::NoLibs.message(), "The build produced no library!");
    assert_eq!(
        ErrorMessageEvent::CargoError(String::from("boom")).message(),
        "Check the console for build errors!"
    );
}

#[test]
fn from_iterator() {
    let mut points = Line::new(
        Point::default(),
        Point::new(fx(SCALE), fx(SCALE), fx(SCALE)),
        2,
    );

    let mut collected: Vec<Point> = Vec::new();
    while let Some(p) = points.next() {
        collected.push(p);
    }

    assert_eq!(collected.len(), 2);
    assert_eq!(collected[0], Point::default());
    assert_eq!(collected[1], Point::new(fx(SCALE), fx(SCALE), fx(SCALE)));
}

#[test]
fn line_spaces_points_evenly() {
    let mut l = shark::point::line(
        Point::default(),
        Point::new(fx(3 * SCALE), fx(3 * SCALE), fx(0)),
        4,
    );
    let mut xs = Vec::new();
    while let Some(p) = l.next() {
        xs.push(p.x.raw);
    }
    // The factors 1/3 and 2/3 truncate to 333333 and 666666 millionths,
    // so the interior points land a millionth or two short; the
    // endpoints are exact.
    assert_eq!(xs, vec![0, 999_999, 1_999_998, 3 * SCALE]);
}

#[test]
fn point_arithmetic() {
    let p = Point::new(fx(SCALE), fx(2 * SCALE), fx(-SCALE));
    let q = Point::new(fx(SCALE / 2), fx(SCALE / 2), fx(SCALE / 2));
    assert_eq!(p.add(q), Point::new(fx(1_500_000), fx(2_500_000), fx(-500_000)));
    assert_eq!(p.sub(q), Point::new(fx(500_000), fx(1_500_000), fx(-1_500_000)));
    assert_eq!(p.mul(q), Point::new(fx(SCALE / 2), fx(SCALE), fx(-SCALE / 2)));
    assert_eq!(p.scale(fx(2 * SCALE)), Point::new(fx(2 * SCALE), fx(4 * SCALE), fx(-2 * SCALE)));
}

#[test]
fn export_bundle_carries_shader_and_points() {
    let bundle = VisualizationExports::new(off(), vec![Point::default()]);
    assert_eq!(bundle.points.len(), 1);

    let mut registry = ShaderRegistry::new();
    let h = registry.install(bundle.shader);
    assert_eq!(
        registry.shade(&h, &frag1(0, 0)),
        Color::new(fx(0), fx(0), fx(0))
    );

    let _picker = SystemFilePicker::new_from_main_thread();
}
