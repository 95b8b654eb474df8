use kubertui::app::{ActiveWindow, App, MainWindow};
use kubertui::cache::{
    AppCache, FilterableListCache, NamespacesListCache, PortForwardsListCache,
    RecentNamespacesListCache, SideBarCache, StateCache,
};
use kubertui::events::AppEvent;
use kubertui::keys::Key;
use kubertui::pods::{Pod, PodContainer};

fn pod(name: &str, port: u16) -> Pod {
    Pod {
        name: name.to_string(),
        container_statuses: Vec::new(),
        containers: vec![PodContainer { name: format!("{}-c", name), port }],
    }
}

fn reachable_state() -> App {
    let mut app = App::new();
    app.namespaces.update_list(vec!["default".to_string(), "prod".to_string()]);
    app.handle_event(AppEvent::SelectNamespace("prod".to_string()));
    app.mount_pods(
        "prod".to_string(),
        vec![pod("api-1", 80), pod("web-1", 3000), pod("api-2", 9090)],
    );
    // narrow the pod view and move the cursor, so derived state is non-trivial
    app.handle_event(AppEvent::Key(Key::Char('/')));
    app.handle_event(AppEvent::Key(Key::Char('a')));
    app.handle_event(AppEvent::Key(Key::Enter));
    app.handle_event(AppEvent::Key(Key::Down));
    app.record_forward("prod".to_string(), "api-1".to_string(), 8080, 80, 4242);
    app
}

#[test]
fn snapshot_round_trip_restores_the_state() {
    let pre = reachable_state();
    let cache = reachable_state().to_cache();
    let post = App::from_cache(cache, &vec![true]);

    assert_eq!(
        post.namespaces.namespace_list.list,
        pre.namespaces.namespace_list.list
    );
    assert_eq!(
        post.namespaces.namespace_list.cursor,
        pre.namespaces.namespace_list.cursor
    );
    assert_eq!(
        post.side_bar.recent_namespaces.recent_namespaces_list.list,
        vec!["prod".to_string()]
    );
    let pre_pods = pre.pods.as_ref().unwrap();
    let post_pods = post.pods.as_ref().unwrap();
    assert_eq!(post_pods.namespace, pre_pods.namespace);
    assert_eq!(post_pods.longest_name, pre_pods.longest_name);
    assert_eq!(post_pods.pods.filter, pre_pods.pods.filter);
    assert_eq!(post_pods.pods.filtered_list, pre_pods.pods.filtered_list);
    assert_eq!(post_pods.pods.filtered_list, vec![0, 2]);
    assert_eq!(post_pods.pods.cursor, pre_pods.pods.cursor);
    assert_eq!(post_pods.pods.cursor, Some(1));
    assert_eq!(post.side_bar.port_forwards.list.len(), 1);
    let entry = &post.side_bar.port_forwards.list[0];
    assert_eq!(entry.pod_name, "api-1");
    assert_eq!(entry.local_port, 8080);
    assert_eq!(entry.app_port, 80);
    assert_eq!(entry.pid, Some(4242));
    assert_eq!(post.main_window, pre.main_window);
    assert_eq!(post.active_window, pre.active_window);
    assert!(!post.exit);
}

#[test]
fn restore_marks_dead_forwards_inactive_without_dropping_them() {
    let cache = reachable_state().to_cache();
    let post = App::from_cache(cache, &vec![false]);
    assert_eq!(post.side_bar.port_forwards.list.len(), 1);
    let entry = &post.side_bar.port_forwards.list[0];
    assert_eq!(entry.pod_name, "api-1");
    assert_eq!(entry.local_port, 8080);
    assert_eq!(entry.pid, None);
}

#[test]
fn restore_recomputes_filtered_indices_instead_of_trusting_them() {
    let mut cache = reachable_state().to_cache();
    // corrupt the persisted derived state: out-of-range indices and cursor
    let pods_cache = cache.pods.as_mut().unwrap();
    pods_cache.pods.filtered_list = vec![99, 98, 97];
    pods_cache.pods.state.selected = Some(42);
    let post = App::from_cache(cache, &vec![true]);
    let pods = post.pods.as_ref().unwrap();
    assert_eq!(pods.pods.filtered_list, vec![0, 2]);
    assert_eq!(pods.pods.cursor, Some(0));
}

#[test]
fn restore_coerces_an_incoherent_window_state() {
    let cache = AppCache {
        namespaces: NamespacesListCache {
            namespace_list: FilterableListCache {
                list: vec!["default".to_string()],
                state: StateCache { selected: Some(0) },
                list_name: "Namespaces".to_string(),
                is_filterable: true,
                filtered_list: vec![0],
                filter: Vec::new(),
                is_filter_mod: false,
            },
        },
        pods: None,
        side_bar: SideBarCache {
            recent_namespaces: RecentNamespacesListCache {
                recent_namespaces_list: FilterableListCache {
                    list: Vec::new(),
                    state: StateCache { selected: None },
                    list_name: "Recent Namespaces".to_string(),
                    is_filterable: false,
                    filtered_list: Vec::new(),
                    filter: Vec::new(),
                    is_filter_mod: false,
                },
            },
            port_forwards: PortForwardsListCache {
                list: Vec::new(),
                state: StateCache { selected: None },
            },
        },
        // the snapshot claims a pods main window, but holds no pods view
        main_window: MainWindow::Pods,
        active_window: ActiveWindow::Main(MainWindow::Pods),
    };
    let post = App::from_cache(cache, &Vec::new());
    assert!(post.pods.is_none());
    assert_eq!(post.main_window, MainWindow::Namespaces);
    assert_eq!(post.active_window, ActiveWindow::Main(MainWindow::Namespaces));
}
