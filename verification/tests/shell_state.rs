use kuplung::rendering::gl_utils::{
    check_link, create_shader, create_shader_from_string, get_uniform, get_uniform_no_warning,
    is_contract_name, resolve, stage_kind, GpuError, UniformHandle, UniformPolicy,
};
use kuplung::rendering::gpu::{GpuCommand, ShaderStage};
use kuplung::rendering::renderer::{gl_config_picker, ConfigTraits};
use kuplung::rendering::rendering_manager::RenderingManager;
use kuplung::settings::kuplung_logger::{add_log, clear_log, get_log, LogBuffer};
use kuplung::ui::components::log::{ComponentLog, LOG_INITIALIZED, LOG_INITIALIZING};
use kuplung::ui::panel_backend::{history_excess, Command, EguiWindows, PanelBackend, RunMode};
use kuplung::fractals::fractals_manager::{FractalsManager, FractalsMenu};
use kuplung::kuplung::app::{KuplungApp, ShownWindows, LOG_EGUI_INITIALIZED};
use kuplung::ui::ui_manager::{UIManager, UiAction};

fn shell() -> KuplungApp {
    let mut log = LogBuffer::new();
    let ui = UIManager::new(&mut log);
    KuplungApp::new(ui, Some(RenderingManager::new()), Some(FractalsManager::new()), None, &mut log)
}

/// The messages of the log's lines, their stamps taken off.
fn messages(log: &LogBuffer) -> Vec<String> {
    get_log(log)
        .lines()
        .map(|line| {
            assert!(line.starts_with('['));
            line[line.find("] ").unwrap() + 2..].to_string()
        })
        .collect()
}

fn traits(transparency: Option<bool>, samples: u8) -> ConfigTraits {
    ConfigTraits { supports_transparency: transparency, num_samples: samples }
}

#[test]
fn entries_are_stamped_lines() {
    let mut log = LogBuffer::new();
    assert_eq!(get_log(&log), "");
    let line = log.push_entry("12:34:56.000000789", "hello");
    assert_eq!(line, "[12:34:56.000000789] hello\n");
    log.push_entry("", "");
    assert_eq!(get_log(&log), "[12:34:56.000000789] hello\n[] \n");
    clear_log(&mut log);
    assert_eq!(get_log(&log), "");
}

#[test]
fn add_log_stamps_with_the_time_of_day() {
    let mut log = LogBuffer::new();
    let line = add_log(&mut log, "[Kuplung] started");
    assert_eq!(get_log(&log), line);
    assert!(line.starts_with('['));
    assert!(line.ends_with("] [Kuplung] started\n"));
    let stamp = &line[1..line.len() - "] [Kuplung] started\n".len()];
    // Hours, minutes and seconds, then the nanoseconds.
    let parts: Vec<&str> = stamp.split(|c| c == ':' || c == '.').collect();
    assert_eq!(parts.len(), 4);
    assert!(parts.iter().all(|p| !p.is_empty() && p.chars().all(|c| c.is_ascii_digit())));
    assert!(parts[0].parse::<u32>().unwrap() < 24);
    assert!(parts[1].parse::<u32>().unwrap() < 60);
    let second = add_log(&mut log, "next");
    assert_eq!(get_log(&log), format!("{}{}", line, second));
}

#[test]
fn the_log_window_clears_the_log_and_keeps_its_filter() {
    let mut log = LogBuffer::new();
    log.push_entry("t", "one");
    let mut component = ComponentLog::new(&mut LogBuffer::new());
    assert_eq!(component.buffer_filter, "");
    component.buffer_filter = "needle".to_string();
    component.filter_log();
    assert_eq!(get_log(&log), "[t] one\n");
    component.clear_log_text(&mut log);
    assert_eq!(get_log(&log), "");
    assert_eq!(component.buffer_filter, "needle");
}

#[test]
fn the_shell_starts_with_only_the_log_open() {
    let manager = UIManager::new(&mut LogBuffer::new());
    assert!(manager.show_component_log);
    assert!(!manager.dark_mode);
    assert!(!manager.show_backend);
    assert!(!manager.show_options);
    assert!(!manager.show_about);
    assert!(!manager.show_viewer);
    assert!(!manager.show_fractals);
    assert!(!manager.show_toys);
    assert!(!manager.panel_backend.open);
    assert_eq!(manager.panel_backend.run_mode, RunMode::Reactive);
    assert_eq!(manager.panel_backend.egui_windows, EguiWindows::none());
}

#[test]
fn toggles_flip_their_window_and_close_the_menu() {
    let mut manager = UIManager::new(&mut LogBuffer::new());
    assert_eq!(manager.toggle_window_viewer(), UiAction::CloseMenu);
    assert!(manager.show_viewer);
    assert_eq!(manager.toggle_window_viewer(), UiAction::CloseMenu);
    assert!(!manager.show_viewer);
    manager.toggle_window_fractals();
    manager.toggle_window_toys();
    manager.toggle_options();
    manager.toggle_backend();
    manager.toggle_component_log();
    manager.toggle_about();
    assert!(manager.show_fractals && manager.show_toys && manager.show_options);
    assert!(manager.show_backend && manager.show_about && !manager.show_component_log);
    assert_eq!(manager.toggle_dialog_new(), UiAction::CloseMenu);
    assert_eq!(manager.toggle_dialog_open(), UiAction::CloseMenu);
    assert_eq!(manager.toggle_dialog_save(), UiAction::CloseMenu);
    manager.on_exit();
    assert!(manager.show_fractals);
}

#[test]
fn escape_closes_the_about_box_before_it_quits() {
    let mut manager = UIManager::new(&mut LogBuffer::new());
    manager.toggle_about();
    assert_eq!(manager.handle_key_escape(), UiAction::Stay);
    assert!(!manager.show_about);
    assert_eq!(manager.handle_key_escape(), UiAction::Exit);
    assert_eq!(manager.exit_kuplung(), UiAction::Exit);
}

#[test]
fn the_theme_button_switches_between_light_and_dark() {
    let mut manager = UIManager::new(&mut LogBuffer::new());
    assert!(manager.show_theme());
    assert!(manager.dark_mode);
    assert!(!manager.show_theme());
    assert!(!manager.dark_mode);
}

#[test]
fn only_the_reset_command_resets() {
    let mut manager = UIManager::new(&mut LogBuffer::new());
    assert!(!manager.run_cmd(Command::Nothing));
    assert!(manager.run_cmd(Command::ResetEverything));
}

#[test]
fn log_info_adds_one_line() {
    let mut manager = UIManager::new(&mut LogBuffer::new());
    let mut log = LogBuffer::new();
    manager.log_info(&mut log, "ready");
    let text = get_log(&log);
    assert!(text.ends_with("] ready\n"));
    assert_eq!(text.matches('\n').count(), 1);
}

#[test]
fn only_the_continuous_mode_asks_for_repaints() {
    let mut panel = PanelBackend::new();
    assert!(!panel.update());
    panel.run_mode = RunMode::Continuous;
    assert!(panel.update());
    assert_eq!(panel.run_mode, RunMode::Continuous);
}

#[test]
fn the_event_history_is_cut_back_to_a_thousand() {
    assert_eq!(history_excess(0), 0);
    assert_eq!(history_excess(1000), 0);
    assert_eq!(history_excess(1001), 1);
    assert_eq!(history_excess(2500), 1500);
}

#[test]
fn strict_resolution_fails_on_a_missing_uniform() {
    let name = "u_iterations".to_string();
    assert_eq!(get_uniform(Some(4), &name), Ok(UniformHandle::Location(4)));
    assert_eq!(
        get_uniform(None, &name),
        Err(GpuError::UniformNotFound { name: "u_iterations".to_string() })
    );
    assert_eq!(resolve(None, &name, UniformPolicy::Strict), get_uniform(None, &name));
    assert_eq!(resolve(Some(0), &name, UniformPolicy::Strict), Ok(UniformHandle::Location(0)));
}

#[test]
fn permissive_resolution_yields_a_no_op_handle() {
    let name = "iMouse".to_string();
    assert_eq!(get_uniform_no_warning(Some(9), &name), UniformHandle::Location(9));
    assert_eq!(get_uniform_no_warning(None, &name), UniformHandle::NoOp);
    assert_eq!(resolve(None, &name, UniformPolicy::Permissive), Ok(UniformHandle::NoOp));
    assert_eq!(resolve(Some(9), &name, UniformPolicy::Permissive), Ok(UniformHandle::Location(9)));
}

#[test]
fn the_contract_names_are_exact() {
    for name in [
        "u_window_width",
        "u_window_height",
        "u_iterations",
        "u_zoom_iterations",
        "u_black_and_white",
        "u_color_palette",
        "u_zoomCenter",
        "u_zoomSize",
        "iResolution",
        "iGlobalTime",
        "iTimeDelta",
        "iFrame",
        "iFrameRate",
        "iChannelTime",
        "iChannelResolution",
        "iMouse",
        "iDate",
        "iChannel0",
        "iChannel1",
        "iChannel2",
        "iChannel3",
    ] {
        assert!(is_contract_name(&name.to_string()), "{}", name);
    }
    for name in ["u_zoomcenter", "u_zoomSize ", "iChannel4", "vs_angle", "u_world_view", ""] {
        assert!(!is_contract_name(&name.to_string()), "{}", name);
    }
}

#[test]
fn compile_outcomes_carry_stage_log_and_file() {
    let path = "assets/shaders/viewer/triangle.frag".to_string();
    assert_eq!(
        create_shader(ShaderStage::Fragment, &path, true, "ignored".to_string()),
        Ok(GpuCommand::Attach(ShaderStage::Fragment))
    );
    assert_eq!(
        create_shader(ShaderStage::Fragment, &path, false, "line 3".to_string()),
        Err(GpuError::CompileError {
            stage: ShaderStage::Fragment,
            log: "line 3".to_string(),
            file: Some(path.clone()),
        })
    );
    assert_eq!(
        create_shader_from_string(ShaderStage::Vertex, true, String::new()),
        Ok(GpuCommand::Attach(ShaderStage::Vertex))
    );
    assert_eq!(
        create_shader_from_string(ShaderStage::Vertex, false, "oops".to_string()),
        Err(GpuError::CompileError {
            stage: ShaderStage::Vertex,
            log: "oops".to_string(),
            file: None,
        })
    );
}

#[test]
fn link_outcomes_carry_the_log() {
    assert_eq!(check_link(true, "ignored".to_string()), Ok(()));
    assert_eq!(
        check_link(false, "no main".to_string()),
        Err(GpuError::LinkError { log: "no main".to_string() })
    );
}

#[test]
fn stages_have_their_api_numbers() {
    assert_eq!(stage_kind(ShaderStage::Vertex), 0x8B31);
    assert_eq!(stage_kind(ShaderStage::Fragment), 0x8B30);
}

#[test]
fn the_picker_prefers_transparency_then_samples_in_turn() {
    assert_eq!(gl_config_picker(&vec![traits(None, 0)]), 0);
    // More samples displace.
    assert_eq!(gl_config_picker(&vec![traits(None, 0), traits(None, 4), traits(None, 2)]), 1);
    // Transparency displaces a configuration without it, whatever the samples.
    assert_eq!(
        gl_config_picker(&vec![traits(Some(false), 8), traits(Some(true), 0), traits(None, 0)]),
        1
    );
    // A later configuration with more samples displaces even a transparent one.
    assert_eq!(
        gl_config_picker(&vec![traits(Some(true), 2), traits(Some(false), 4)]),
        1
    );
    // Equal configurations keep the first.
    assert_eq!(gl_config_picker(&vec![traits(Some(true), 4), traits(Some(true), 4)]), 0);
}

#[test]
fn dragging_turns_the_triangle_by_a_hundredth() {
    let mut viewer = RenderingManager::new();
    assert!(viewer.show_triangler());
    assert_eq!(viewer.paint_triangler(0), 0);
    assert_eq!(viewer.paint_triangler(250), 2);
    assert_eq!(viewer.paint_triangler(-250), 0);
    assert_eq!(viewer.paint_triangler(-99), 0);
    assert_eq!(viewer.paint_triangler(3_000_000_000), 30_000_000);
    // The angle goes as far as its integer does.
    let mut far = RenderingManager::new();
    assert_eq!(far.paint_triangler(i64::MAX), 92_233_720_368_547_758);
    for _ in 0..99 {
        far.paint_triangler(i64::MAX);
    }
    assert_eq!(far.paint_triangler(0), 9_223_372_036_854_775_800);
    assert_eq!(far.paint_triangler(i64::MAX), i64::MAX);
    assert_eq!(far.paint_triangler(-700), i64::MAX - 7);
    let mut back = RenderingManager::new();
    assert_eq!(back.paint_triangler(i64::MIN), -92_233_720_368_547_758);
    for _ in 0..100 {
        back.paint_triangler(i64::MIN);
    }
    assert_eq!(back.paint_triangler(0), i64::MIN);
}

#[test]
fn only_windows_that_are_on_and_exist_are_drawn() {
    let mut app = shell();
    assert_eq!(app.update(), ShownWindows { viewer: false, fractals: false, toys: false });
    app.manager_ui.toggle_window_viewer();
    app.manager_ui.toggle_window_fractals();
    app.manager_ui.toggle_window_toys();
    // The toy window has no demo behind it and is never drawn.
    assert_eq!(app.update(), ShownWindows { viewer: true, fractals: true, toys: false });
}

#[test]
fn a_window_that_closed_itself_is_switched_off_in_the_menu() {
    let mut app = shell();
    app.manager_ui.toggle_window_viewer();
    app.manager_ui.toggle_window_fractals();
    app.manager_ui.toggle_window_toys();
    app.manager_fractals.as_mut().unwrap().update(FractalsMenu::Nothing);
    app.end_of_frame();
    assert!(app.manager_ui.show_viewer);
    assert!(app.manager_ui.show_fractals);
    assert!(!app.manager_ui.show_toys);
    app.manager_fractals.as_mut().unwrap().update(FractalsMenu::Close);
    app.end_of_frame();
    assert!(app.manager_ui.show_viewer);
    assert!(!app.manager_ui.show_fractals);
    assert!(app.manager_ui.show_component_log);
    assert!(app.on_exit().is_empty());
}

#[test]
fn windows_are_kept_only_where_they_may_stay() {
    let mut manager = UIManager::new(&mut LogBuffer::new());
    manager.toggle_window_viewer();
    manager.toggle_window_toys();
    manager.keep_windows(true, true, false);
    assert!(manager.show_viewer);
    assert!(!manager.show_fractals);
    assert!(!manager.show_toys);
}

#[test]
fn the_log_window_writes_two_lines_as_it_comes_up() {
    let mut log = LogBuffer::new();
    log.push_entry("t", "before");
    let component = ComponentLog::new(&mut log);
    assert_eq!(component.buffer_filter, "");
    assert_eq!(
        messages(&log),
        vec![
            "before",
            "[Kuplung] [UI] [Component] Initializing Log...",
            "[Kuplung] [UI] [Component] Log initialized.",
        ]
    );
    assert!(get_log(&log).starts_with("[t] before\n["));
    assert_eq!(LOG_INITIALIZING, "[Kuplung] [UI] [Component] Initializing Log...");
    assert_eq!(LOG_INITIALIZED, "[Kuplung] [UI] [Component] Log initialized.");
}

#[test]
fn the_shell_logs_its_start() {
    let mut log = LogBuffer::new();
    let ui = UIManager::new(&mut log);
    assert_eq!(messages(&log), vec![LOG_INITIALIZING, LOG_INITIALIZED]);
    let app = KuplungApp::new(ui, None, None, None, &mut log);
    assert_eq!(
        messages(&log),
        vec![LOG_INITIALIZING, LOG_INITIALIZED, "[Kuplung] egui initialized."]
    );
    assert_eq!(LOG_EGUI_INITIALIZED, "[Kuplung] egui initialized.");
    assert!(app.manager_ui.show_component_log);
    assert_eq!(app.update(), ShownWindows { viewer: false, fractals: false, toys: false });
}

#[test]
fn the_menu_keeps_one_fractal_selected() {
    let mut manager = FractalsManager::new();
    assert_eq!(
        manager.update(FractalsMenu::Julia),
        kuplung::fractals::fractals_manager::FractalChoice::Julia
    );
    assert_eq!(
        manager.update(FractalsMenu::Mandelbrot),
        kuplung::fractals::fractals_manager::FractalChoice::Mandelbrot
    );
    assert_eq!(
        manager.update(FractalsMenu::Julia),
        kuplung::fractals::fractals_manager::FractalChoice::Julia
    );
}
