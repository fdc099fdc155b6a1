use mira_launcher::{
    devtools_access, system_info, Dispatch, NavigationTarget, Navigation, QuickSearchResult,
    WindowReport, WindowStep,
};

fn request(kind: &str, path: Option<&str>, action: Option<&str>) -> QuickSearchResult {
    QuickSearchResult {
        result_type: kind.to_string(),
        title: "Title".to_string(),
        description: "Description".to_string(),
        icon: "icon.png".to_string(),
        path: path.map(|p| p.to_string()),
        action: action.map(|a| a.to_string()),
        category: "general".to_string(),
    }
}

#[test]
fn application_without_path_is_refused() {
    let refused = Dispatch::Reply(Err("应用路径不能为空".to_string()));
    assert_eq!(request("application", None, None).dispatch(), refused);
    assert_eq!(request("application", Some(""), None).dispatch(), refused);
}

#[test]
fn application_with_path_is_launched() {
    assert_eq!(
        request("application", Some("/Applications/Safari.app"), None).dispatch(),
        Dispatch::Launch("/Applications/Safari.app".to_string())
    );
}

#[test]
fn file_is_opened() {
    assert_eq!(request("file", Some("/tmp/a.txt"), None).dispatch(), Dispatch::OpenFile("/tmp/a.txt".to_string()));
    let refused = Dispatch::Reply(Err("文件路径不能为空".to_string()));
    assert_eq!(request("file", None, None).dispatch(), refused);
    assert_eq!(request("file", Some(""), None).dispatch(), refused);
}

#[test]
fn function_actions() {
    assert_eq!(
        request("function", None, Some("open-downloads")).dispatch(),
        Dispatch::Navigate(NavigationTarget::Downloads)
    );
    assert_eq!(
        request("function", None, None).dispatch(),
        Dispatch::Reply(Err("功能动作不能为空".to_string()))
    );
}

#[test]
fn unknown_function_names_the_action() {
    let d = request("function", None, Some("open-store")).dispatch();
    assert_eq!(d, Dispatch::Reply(Err("未知的系统功能: open-store".to_string())));
    match d {
        Dispatch::Reply(Err(m)) => assert!(m.contains("open-store")),
        other => panic!("unexpected {:?}", other),
    }
}

#[test]
fn unknown_kind_names_the_kind() {
    let d = request("bookmark", Some("/x"), Some("open-settings")).dispatch();
    assert_eq!(d, Dispatch::Reply(Err("未知的结果类型: bookmark".to_string())));
    assert_eq!(request("", None, None).dispatch(), Dispatch::Reply(Err("未知的结果类型: ".to_string())));
}

#[test]
fn settings_without_window_still_succeeds() {
    let d = request("function", None, Some("open-settings")).dispatch();
    let target = match d {
        Dispatch::Navigate(t) => t,
        other => panic!("unexpected {:?}", other),
    };
    let mut nav = Navigation::new(target);
    assert_eq!(nav.pending(), WindowStep::Locate);
    nav.advance(WindowReport::Found(false));
    assert_eq!(nav.pending(), WindowStep::Finish(Ok("已打开设置".to_string())));
}

#[test]
fn devtools_only_in_debug_builds() {
    assert_eq!(devtools_access(true), Ok(()));
    assert_eq!(devtools_access(false), Err("開發者工具僅在調試模式下可用".to_string()));
}

#[test]
fn system_info_names_the_system() {
    assert_eq!(system_info("linux"), "System: linux");
}
