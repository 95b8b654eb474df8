use kubertui::error::AppError;
use kubertui::events::AppEvent;
use kubertui::keys::Key;
use kubertui::namespaces_list::NamespacesList;
use kubertui::pods::{
    get_status, KnownPodStatus, Pod, PodContainer, PodStatus, StatusIcon, StatusSummary,
};
use kubertui::pods_list::PodsList;
use kubertui::port_forward_popup::{
    parse_port, u16_to_digits, PortForwardPopup, PortForwardPopupAction,
};
use kubertui::side_bar::port_forwards::{PortForward, PortForwardsList};
use kubertui::side_bar::recent_namespaces::RecentNamespacesList;

fn pod(name: &str, ports: &[u16]) -> Pod {
    Pod {
        name: name.to_string(),
        container_statuses: Vec::new(),
        containers: ports
            .iter()
            .enumerate()
            .map(|(i, p)| PodContainer { name: format!("{}-c{}", name, i), port: *p })
            .collect(),
    }
}

fn running() -> PodStatus {
    PodStatus::Known(KnownPodStatus::Running { started_at: "2024-01-01T00:00:00Z".to_string() })
}

fn waiting() -> PodStatus {
    PodStatus::Known(KnownPodStatus::Waiting {
        reason: "ImagePullBackOff".to_string(),
        message: None,
    })
}

#[test]
fn namespaces_enter_selects_the_namespace() {
    let mut v = NamespacesList::new();
    v.update_list(vec!["default".to_string(), "prod".to_string()]);
    v.handle_key_event(Key::Down);
    match v.handle_key_event(Key::Enter) {
        Some(AppEvent::SelectNamespace(ns)) => assert_eq!(ns, "prod"),
        _ => panic!("expected a namespace selection"),
    }
}

#[test]
fn namespaces_q_requests_quit() {
    let mut v = NamespacesList::new();
    v.update_list(vec!["default".to_string()]);
    assert!(matches!(v.handle_key_event(Key::Char('q')), Some(AppEvent::Quit)));
}

#[test]
fn recent_namespaces_keep_newest_first_without_duplicates() {
    let mut v = RecentNamespacesList::new();
    v.add_to_list("b".to_string());
    v.add_to_list("a".to_string());
    assert_eq!(v.recent_namespaces_list.list, vec!["a".to_string(), "b".to_string()]);
    v.add_to_list("a".to_string());
    assert_eq!(v.recent_namespaces_list.list, vec!["a".to_string(), "b".to_string()]);
    v.add_to_list("b".to_string());
    assert_eq!(v.recent_namespaces_list.list, vec!["b".to_string(), "a".to_string()]);
}

#[test]
fn pods_filter_narrows_and_cursor_lands_on_first_match() {
    let names = [
        "api-1", "web-1", "api-2", "db-1", "cache-1", "web-2", "api-3", "db-2", "worker", "cron",
    ];
    let pods: Vec<Pod> = names.iter().map(|n| pod(n, &[80])).collect();
    let mut v = PodsList::new("prod".to_string(), pods);
    v.handle_key_event(Key::Char('/'));
    for ch in "api".chars() {
        v.handle_key_event(Key::Char(ch));
    }
    v.handle_key_event(Key::Enter);
    assert_eq!(v.pods.filtered_list, vec![0, 2, 6]);
    assert_eq!(v.pods.cursor, Some(0));
    assert!(!v.pods.is_filter_mod);
}

#[test]
fn pods_longest_name_sizes_the_column() {
    let pods = vec![pod("ab", &[80]), pod("abcdef", &[80]), pod("abc", &[80])];
    let v = PodsList::new("ns".to_string(), pods);
    assert_eq!(v.longest_name, 6);
    let empty = PodsList::new("ns".to_string(), Vec::new());
    assert_eq!(empty.longest_name, 10);
}

#[test]
fn pods_p_opens_the_picker_on_the_selected_pod() {
    let pods = vec![pod("api-1", &[80, 9090]), pod("api-2", &[3000])];
    let mut v = PodsList::new("prod".to_string(), pods);
    v.handle_key_event(Key::Down);
    assert!(v.handle_key_event(Key::Char('p')).is_none());
    let popup = v.port_forward_popup.as_ref().expect("picker should be open");
    assert_eq!(popup.containers_len(), 1);
    assert_eq!(popup.pod_containers_list.list[0].port, 3000);
}

#[test]
fn pods_p_on_empty_list_is_safe() {
    let mut v = PodsList::new("prod".to_string(), Vec::new());
    assert!(v.handle_key_event(Key::Char('p')).is_none());
    assert!(v.port_forward_popup.is_none());
}

#[test]
fn picker_with_single_container_prefills_the_port() {
    let popup = PortForwardPopup::new(vec![PodContainer { name: "c".to_string(), port: 8080 }]);
    assert!(popup.selected_container.is_some());
    assert_eq!(popup.port, vec!['8', '0', '8', '0']);
}

#[test]
fn picker_forward_request_uses_typed_local_port() {
    let pods = vec![pod("api-1", &[80])];
    let mut v = PodsList::new("prod".to_string(), pods);
    v.handle_key_event(Key::Char('p'));
    // single container: picker is in port entry, prefilled with "80"
    v.handle_key_event(Key::Char('9'));
    v.handle_key_event(Key::Char('9'));
    let ev = v.handle_key_event(Key::Enter);
    match ev {
        Some(AppEvent::PortForward { pod_name, local_port, app_port, namespace }) => {
            assert_eq!(pod_name, "api-1");
            assert_eq!(local_port, 8099);
            assert_eq!(app_port, 80);
            assert_eq!(namespace, "prod");
        }
        _ => panic!("expected a forward request"),
    }
}

#[test]
fn picker_ignores_non_digits_and_rejects_empty_port() {
    let mut popup = PortForwardPopup::new(vec![PodContainer { name: "c".to_string(), port: 8 }]);
    assert_eq!(popup.handle_key_event(Key::Char('x')), None);
    assert_eq!(popup.port, vec!['8']);
    popup.handle_key_event(Key::Backspace);
    assert_eq!(popup.port, Vec::<char>::new());
    assert_eq!(popup.handle_key_event(Key::Enter), None);
    assert_eq!(popup.handle_key_event(Key::Esc), Some(PortForwardPopupAction::Quit));
}

#[test]
fn picker_container_choice_flows_into_port_entry() {
    let containers = vec![
        PodContainer { name: "main".to_string(), port: 80 },
        PodContainer { name: "sidecar".to_string(), port: 9090 },
    ];
    let mut popup = PortForwardPopup::new(containers);
    assert!(popup.selected_container.is_none());
    popup.handle_key_event(Key::Down);
    assert_eq!(popup.handle_key_event(Key::Enter), None);
    let chosen = popup.selected_container.as_ref().expect("container chosen");
    assert_eq!(chosen.name, "sidecar");
    assert_eq!(popup.port, vec!['9', '0', '9', '0']);
    match popup.handle_key_event(Key::Enter) {
        Some(PortForwardPopupAction::PortForward { local_port, app_port }) => {
            assert_eq!(local_port, 9090);
            assert_eq!(app_port, 9090);
        }
        _ => panic!("expected a forward action"),
    }
}

#[test]
fn parse_port_accepts_only_in_range_digit_strings() {
    assert_eq!(parse_port(&Vec::new()), None);
    assert_eq!(parse_port(&vec!['8', '0', '8', '0']), Some(8080));
    assert_eq!(parse_port(&vec!['6', '5', '5', '3', '5']), Some(65535));
    assert_eq!(parse_port(&vec!['6', '5', '5', '3', '6']), None);
    assert_eq!(parse_port(&vec!['1', 'x']), None);
    assert_eq!(parse_port(&vec!['0']), Some(0));
}

#[test]
fn port_digits_round_trip() {
    assert_eq!(u16_to_digits(0), vec!['0']);
    assert_eq!(u16_to_digits(65535), vec!['6', '5', '5', '3', '5']);
    for p in [0u16, 1, 9, 10, 80, 443, 8080, 65535] {
        assert_eq!(parse_port(&u16_to_digits(p)), Some(p));
    }
}

#[test]
fn forwards_live_entries_go_first_inactive_last() {
    let mut v = PortForwardsList::new();
    v.add_to_list(PortForward {
        namespace: "a".to_string(),
        pod_name: "p1".to_string(),
        local_port: 1,
        app_port: 1,
        pid: None,
    });
    v.add_to_list(PortForward {
        namespace: "a".to_string(),
        pod_name: "p2".to_string(),
        local_port: 2,
        app_port: 2,
        pid: Some(11),
    });
    assert_eq!(v.list[0].pod_name, "p2");
    assert_eq!(v.list[1].pod_name, "p1");
}

#[test]
fn forwards_delete_removes_entry_and_hands_back_the_pid() {
    let mut v = PortForwardsList::new();
    v.add_to_list(PortForward {
        namespace: "a".to_string(),
        pod_name: "p".to_string(),
        local_port: 1,
        app_port: 1,
        pid: Some(77),
    });
    let pid = v.handle_key_event(Key::Char('d'));
    assert_eq!(pid, Some(77));
    assert!(v.list.is_empty());
    assert_eq!(v.cursor, None);
    // deleting with nothing selected is a no-op
    assert_eq!(v.handle_key_event(Key::Char('d')), None);
}

#[test]
fn forwards_navigation_cycles() {
    let mut v = PortForwardsList::new();
    for i in 0..3u16 {
        v.add_to_list(PortForward {
            namespace: "a".to_string(),
            pod_name: format!("p{}", i),
            local_port: i,
            app_port: i,
            pid: Some(i as u32 + 1),
        });
    }
    assert_eq!(v.cursor, Some(0));
    v.handle_key_event(Key::Up);
    assert_eq!(v.cursor, Some(2));
    v.handle_key_event(Key::Down);
    assert_eq!(v.cursor, Some(0));
}

#[test]
fn status_column_shows_icons_for_few_containers() {
    let statuses = vec![running(), waiting(), PodStatus::Unknown("???".to_string())];
    match get_status(&statuses) {
        StatusSummary::Icons(icons) => {
            assert_eq!(
                icons,
                vec![StatusIcon::Running, StatusIcon::Waiting, StatusIcon::Unknown]
            );
        }
        StatusSummary::Ratio { .. } => panic!("expected icons"),
    }
}

#[test]
fn status_column_shows_ratio_for_many_containers() {
    let statuses = vec![running(), running(), waiting(), running(), waiting(), running()];
    match get_status(&statuses) {
        StatusSummary::Ratio { running, total } => {
            assert_eq!(running, 4);
            assert_eq!(total, 6);
        }
        StatusSummary::Icons(_) => panic!("expected a ratio"),
    }
}

#[test]
fn error_message_carries_the_detail() {
    let e = AppError::PortForwardError("tunnel failed".to_string());
    assert_eq!(e.message(), "tunnel failed");
    let e = AppError::CacheError("disk full".to_string());
    assert_eq!(e.message(), "disk full");
}
