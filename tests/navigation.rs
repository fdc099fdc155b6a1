use mira_launcher::{
    unknown_function_reply, NavStage, Navigation, NavigationTarget, WindowReport, WindowStep,
};

const ALL: [NavigationTarget; 4] = [
    NavigationTarget::Settings,
    NavigationTarget::Plugins,
    NavigationTarget::Downloads,
    NavigationTarget::About,
];

fn drive(target: NavigationTarget, reports: Vec<WindowReport>) -> (Vec<WindowStep>, Result<String, String>) {
    let mut nav = Navigation::new(target);
    let mut steps = Vec::new();
    for report in reports {
        steps.push(nav.pending());
        nav.advance(report);
    }
    match nav.pending() {
        WindowStep::Finish(r) => (steps, r),
        other => panic!("navigation not finished: {:?}", other),
    }
}

#[test]
fn action_names_select_views() {
    assert_eq!(NavigationTarget::from_action("open-settings"), Some(NavigationTarget::Settings));
    assert_eq!(NavigationTarget::from_action("open-plugins"), Some(NavigationTarget::Plugins));
    assert_eq!(NavigationTarget::from_action("open-downloads"), Some(NavigationTarget::Downloads));
    assert_eq!(NavigationTarget::from_action("open-about"), Some(NavigationTarget::About));
    assert_eq!(NavigationTarget::from_action("open-store"), None);
    assert_eq!(NavigationTarget::from_action("Open-Settings"), None);
    assert_eq!(NavigationTarget::from_action(""), None);
}

#[test]
fn scripts_and_confirmations() {
    assert_eq!(NavigationTarget::Settings.script(), "window.location.hash = '#/settings'");
    assert_eq!(NavigationTarget::About.script(), "window.location.hash = '#/about'");
    assert_eq!(NavigationTarget::Plugins.confirmation(), "已打开插件管理");
    assert_eq!(NavigationTarget::Downloads.confirmation(), "已打开下载管理");
    assert_eq!(NavigationTarget::Downloads.route_failed("gone"), "导航到下载失败: gone");
    assert_eq!(unknown_function_reply("open-store"), "未知的系统功能: open-store");
}

#[test]
fn smooth_navigation_runs_every_step() {
    let (steps, reply) = drive(
        NavigationTarget::Settings,
        vec![WindowReport::Found(true), WindowReport::Done, WindowReport::Done, WindowReport::Done],
    );
    assert_eq!(
        steps,
        vec![
            WindowStep::Locate,
            WindowStep::RunScript("window.location.hash = '#/settings'".to_string()),
            WindowStep::Show,
            WindowStep::Focus,
        ]
    );
    assert_eq!(reply, Ok("已打开设置".to_string()));
}

#[test]
fn missing_window_is_a_silent_success() {
    let (steps, reply) = drive(NavigationTarget::Settings, vec![WindowReport::Found(false)]);
    assert_eq!(steps, vec![WindowStep::Locate]);
    assert_eq!(reply, Ok("已打开设置".to_string()));
}

#[test]
fn navigating_twice_gives_the_same_success() {
    for t in ALL {
        let smooth = || vec![WindowReport::Found(true), WindowReport::Done, WindowReport::Done, WindowReport::Done];
        let (_, first) = drive(t, smooth());
        let (_, second) = drive(t, smooth());
        assert!(first.is_ok());
        assert_eq!(first, second);
    }
}

#[test]
fn failing_steps_stop_with_their_message() {
    let (_, r) = drive(NavigationTarget::Plugins, vec![WindowReport::Found(true), WindowReport::Failed("eval".to_string())]);
    assert_eq!(r, Err("导航到插件失败: eval".to_string()));
    let (_, r) = drive(
        NavigationTarget::About,
        vec![WindowReport::Found(true), WindowReport::Done, WindowReport::Failed("hidden".to_string())],
    );
    assert_eq!(r, Err("显示窗口失败: hidden".to_string()));
    let (_, r) = drive(
        NavigationTarget::Downloads,
        vec![
            WindowReport::Found(true),
            WindowReport::Done,
            WindowReport::Done,
            WindowReport::Failed("no focus".to_string()),
        ],
    );
    assert_eq!(r, Err("聚焦窗口失败: no focus".to_string()));
}

#[test]
fn reports_that_do_not_answer_are_ignored() {
    let mut nav = Navigation::new(NavigationTarget::About);
    nav.advance(WindowReport::Done);
    assert_eq!(nav.stage, NavStage::Locating);
    nav.advance(WindowReport::Found(true));
    assert_eq!(nav.stage, NavStage::Routing);
    nav.advance(WindowReport::Found(false));
    assert_eq!(nav.stage, NavStage::Routing);
}

#[test]
fn finished_navigation_stays_finished() {
    let mut nav = Navigation::new(NavigationTarget::About);
    nav.advance(WindowReport::Found(false));
    nav.advance(WindowReport::Failed("late".to_string()));
    assert_eq!(nav.stage, NavStage::Finished(Ok("已打开关于页面".to_string())));
}
