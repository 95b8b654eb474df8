use kubertui::app::{ActiveWindow, App, MainWindow, SideBarWindow};
use kubertui::events::{AppCommand, AppEvent, Log};
use kubertui::keys::Key;
use kubertui::pods::Pod;

fn pod(name: &str) -> Pod {
    Pod { name: name.to_string(), container_statuses: Vec::new(), containers: Vec::new() }
}

#[test]
fn fresh_startup_focuses_namespaces_with_empty_side_bar() {
    let mut app = App::new();
    app.namespaces.update_list(vec!["default".to_string(), "prod".to_string()]);
    assert_eq!(app.active_window, ActiveWindow::Main(MainWindow::Namespaces));
    assert_eq!(app.main_window, MainWindow::Namespaces);
    assert!(app.pods.is_none());
    assert!(app.side_bar.recent_namespaces.recent_namespaces_list.list.is_empty());
    assert!(app.side_bar.port_forwards.list.is_empty());
    assert!(!app.exit);
}

#[test]
fn selecting_a_namespace_records_it_and_mounts_pods() {
    let mut app = App::new();
    app.namespaces.update_list(vec!["default".to_string(), "prod".to_string()]);
    let cmd = app.handle_event(AppEvent::SelectNamespace("prod".to_string()));
    match cmd {
        AppCommand::FetchPods(ns) => assert_eq!(ns, "prod"),
        _ => panic!("expected a pod fetch"),
    }
    assert_eq!(
        app.side_bar.recent_namespaces.recent_namespaces_list.list,
        vec!["prod".to_string()]
    );
    app.mount_pods("prod".to_string(), vec![pod("api-1"), pod("web-1")]);
    assert_eq!(app.active_window, ActiveWindow::Main(MainWindow::Pods));
    assert_eq!(app.main_window, MainWindow::Pods);
    let pods = app.pods.as_ref().expect("pods view mounted");
    assert_eq!(pods.namespace, "prod");
    assert_eq!(pods.pods.list.len(), 2);
}

#[test]
fn typing_a_filter_on_the_pods_view_narrows_it() {
    let mut app = App::new();
    app.mount_pods(
        "prod".to_string(),
        vec![
            pod("api-1"),
            pod("web-1"),
            pod("api-2"),
            pod("db-1"),
            pod("cache"),
            pod("web-2"),
            pod("api-3"),
            pod("db-2"),
            pod("worker"),
            pod("cron"),
        ],
    );
    app.handle_event(AppEvent::Key(Key::Char('/')));
    for ch in "api".chars() {
        // 'p' and 'a' and 'i' are typed into the filter, not taken as hotkeys
        let cmd = app.handle_event(AppEvent::Key(Key::Char(ch)));
        assert!(matches!(cmd, AppCommand::Idle));
    }
    app.handle_event(AppEvent::Key(Key::Enter));
    let pods = app.pods.as_ref().unwrap();
    assert_eq!(pods.pods.filtered_list, vec![0, 2, 6]);
    assert_eq!(pods.pods.cursor, Some(0));
}

#[test]
fn quit_key_sets_the_terminate_flag_through_the_bus() {
    let mut app = App::new();
    let cmd = app.handle_event(AppEvent::Key(Key::Char('q')));
    let ev = match cmd {
        AppCommand::Emit(ev) => ev,
        _ => panic!("expected an emitted event"),
    };
    assert!(matches!(ev, AppEvent::Quit));
    assert!(!app.exit);
    app.handle_event(ev);
    assert!(app.exit);
}

#[test]
fn q_while_editing_a_filter_is_text_not_quit() {
    let mut app = App::new();
    app.namespaces.update_list(vec!["quota".to_string(), "prod".to_string()]);
    app.handle_event(AppEvent::Key(Key::Char('/')));
    let cmd = app.handle_event(AppEvent::Key(Key::Char('q')));
    assert!(matches!(cmd, AppCommand::Idle));
    assert!(!app.exit);
    assert_eq!(app.namespaces.namespace_list.filter, vec!['q']);
    assert_eq!(app.namespaces.namespace_list.filtered_list, vec![0]);
}

#[test]
fn numeric_hotkeys_jump_between_windows() {
    let mut app = App::new();
    let cmd = app.handle_event(AppEvent::Key(Key::Char('1')));
    let ev = match cmd {
        AppCommand::Emit(ev) => ev,
        _ => panic!("expected an emitted event"),
    };
    app.handle_event(ev);
    assert_eq!(
        app.active_window,
        ActiveWindow::SideBar(SideBarWindow::RecentNamespaces)
    );
    let cmd = app.handle_event(AppEvent::Key(Key::Char('2')));
    if let AppCommand::Emit(ev) = cmd {
        app.handle_event(ev);
    }
    assert_eq!(
        app.active_window,
        ActiveWindow::SideBar(SideBarWindow::RecentPortForwards)
    );
    let cmd = app.handle_event(AppEvent::Key(Key::Char('3')));
    if let AppCommand::Emit(ev) = cmd {
        app.handle_event(ev);
    }
    assert_eq!(app.active_window, ActiveWindow::Main(MainWindow::Namespaces));
}

#[test]
fn focusing_pods_without_a_mounted_view_is_a_no_op() {
    let mut app = App::new();
    app.handle_event(AppEvent::Focus(ActiveWindow::Main(MainWindow::Pods)));
    assert_eq!(app.active_window, ActiveWindow::Main(MainWindow::Namespaces));
    assert_eq!(app.main_window, MainWindow::Namespaces);
}

#[test]
fn closing_the_pods_view_returns_to_namespaces() {
    let mut app = App::new();
    app.mount_pods("prod".to_string(), vec![pod("a")]);
    let cmd = app.handle_event(AppEvent::ClosePodsList);
    assert!(matches!(cmd, AppCommand::Idle));
    assert!(app.pods.is_none());
    assert_eq!(app.main_window, MainWindow::Namespaces);
    assert_eq!(app.active_window, ActiveWindow::Main(MainWindow::Namespaces));
}

#[test]
fn a_forward_request_becomes_a_supervisor_command() {
    let mut app = App::new();
    let cmd = app.handle_event(AppEvent::PortForward {
        pod_name: "api-1".to_string(),
        local_port: 8080,
        app_port: 80,
        namespace: "prod".to_string(),
    });
    match cmd {
        AppCommand::StartForward { pod_name, local_port, app_port, namespace } => {
            assert_eq!(pod_name, "api-1");
            assert_eq!(local_port, 8080);
            assert_eq!(app_port, 80);
            assert_eq!(namespace, "prod");
        }
        _ => panic!("expected a forward command"),
    }
    // nothing is recorded until the supervisor reports success
    assert!(app.side_bar.port_forwards.list.is_empty());
    app.record_forward("prod".to_string(), "api-1".to_string(), 8080, 80, 4242);
    assert_eq!(app.side_bar.port_forwards.list.len(), 1);
    assert_eq!(app.side_bar.port_forwards.list[0].pid, Some(4242));
}

#[test]
fn deleting_a_forward_entry_asks_for_termination() {
    let mut app = App::new();
    app.record_forward("prod".to_string(), "api-1".to_string(), 8080, 80, 4242);
    app.handle_event(AppEvent::Focus(ActiveWindow::SideBar(
        SideBarWindow::RecentPortForwards,
    )));
    let cmd = app.handle_event(AppEvent::Key(Key::Char('d')));
    match cmd {
        AppCommand::Terminate(pid) => assert_eq!(pid, 4242),
        _ => panic!("expected a terminate command"),
    }
    assert!(app.side_bar.port_forwards.list.is_empty());
}

#[test]
fn notifications_are_collected_not_fatal() {
    let mut app = App::new();
    let cmd = app.handle_event(AppEvent::ShowNotification(Log::Warning(
        "probe failed".to_string(),
    )));
    assert!(matches!(cmd, AppCommand::Idle));
    assert_eq!(app.notifications.len(), 1);
    assert!(!app.exit);
}

#[test]
fn keys_go_only_to_the_focused_view() {
    let mut app = App::new();
    app.namespaces.update_list(vec!["a".to_string(), "b".to_string()]);
    app.record_forward("p".to_string(), "x".to_string(), 1, 1, 9);
    app.handle_event(AppEvent::Focus(ActiveWindow::SideBar(
        SideBarWindow::RecentPortForwards,
    )));
    app.handle_event(AppEvent::Key(Key::Down));
    // the namespaces cursor did not move; only the focused side-bar view did
    assert_eq!(app.namespaces.namespace_list.cursor, Some(0));
}
