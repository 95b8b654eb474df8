//! The application state machine: which views exist, which one holds the
//! focus, and how events move the whole dashboard from state to state.
//!
//! Every event is handled here as a pure state transition; whatever only
//! the outside world can do (fetch pods, spawn a forward, terminate a
//! process, put a synthesized event back on the bus) comes back as an
//! [`AppCommand`] for the runtime loop to perform.

use vstd::prelude::*;

use crate::cache::{restore_cursor, AppCache, SideBarCache};
use crate::events::{AppCommand, AppEvent};
use crate::filterable_list::{lemma_list_cache_round_trip, remove_first_keyed, FilterableList};
use crate::keys::Key;
use crate::namespaces_list::NamespacesList;
use crate::pods::Pod;
use crate::pods_list::{spec_name_column, PodsList};
use crate::side_bar::port_forwards::{reconciled, PortForward, PortForwardsList};
use crate::side_bar::recent_namespaces::RecentNamespacesList;
use crate::side_bar::SideBar;

verus! {

/// Which view is mounted in the main area.
#[derive(Clone, Copy, Debug, PartialEq, Eq, Structural)]
pub enum MainWindow {
    Namespaces,
    Pods,
}

/// Which side-bar view is meant.
#[derive(Clone, Copy, Debug, PartialEq, Eq, Structural)]
pub enum SideBarWindow {
    RecentNamespaces,
    RecentPortForwards,
}

/// The view that currently holds the focus; exactly one is active.
#[derive(Clone, Copy, Debug, PartialEq, Eq, Structural)]
pub enum ActiveWindow {
    Main(MainWindow),
    SideBar(SideBarWindow),
}

/// The focus hotkeys that work everywhere (outside text entry): quit, and
/// direct jumps to the side-bar views and the main namespaces view.
pub open spec fn general_key_event(key: Key) -> Option<AppEvent> {
    match key {
        Key::Char(ch) => if ch == 'q' {
            Some(AppEvent::Quit)
        } else if ch == '1' {
            Some(AppEvent::Focus(ActiveWindow::SideBar(SideBarWindow::RecentNamespaces)))
        } else if ch == '2' {
            Some(AppEvent::Focus(ActiveWindow::SideBar(SideBarWindow::RecentPortForwards)))
        } else if ch == '3' {
            Some(AppEvent::Focus(ActiveWindow::Main(MainWindow::Namespaces)))
        } else {
            None
        },
        _ => None,
    }
}

/// The event a general hotkey produces, if the key is one.
pub fn handle_general_keys(key: Key) -> (ev: Option<AppEvent>)
    ensures
        ev == general_key_event(key),
{
    match key {
        Key::Char(ch) => {
            if ch == 'q' {
                Some(AppEvent::Quit)
            } else if ch == '1' {
                Some(AppEvent::Focus(ActiveWindow::SideBar(SideBarWindow::RecentNamespaces)))
            } else if ch == '2' {
                Some(AppEvent::Focus(ActiveWindow::SideBar(SideBarWindow::RecentPortForwards)))
            } else if ch == '3' {
                Some(AppEvent::Focus(ActiveWindow::Main(MainWindow::Namespaces)))
            } else {
                None
            }
        },
        _ => None,
    }
}

/// The command that re-enqueues a view's synthesized event, if there is
/// one.
pub open spec fn emit_of(ev: Option<AppEvent>) -> AppCommand {
    match ev {
        Some(e) => AppCommand::Emit(e),
        None => AppCommand::Idle,
    }
}

/// The top-level state: the view tree, which view is mounted in the main
/// area, which view holds the focus, the collected notifications, and the
/// terminate flag.
pub struct App {
    pub namespaces: NamespacesList,
    pub pods: Option<PodsList>,
    pub side_bar: SideBar,
    pub exit: bool,
    pub main_window: MainWindow,
    pub active_window: ActiveWindow,
    pub notifications: Vec<crate::events::Log>,
}

impl App {
    /// Every view is well-formed, a mounted pods main area really has a
    /// pods view, and the pods view can only hold focus while mounted.
    pub open spec fn wf(&self) -> bool {
        &&& self.namespaces.wf()
        &&& self.side_bar.wf()
        &&& (match self.pods {
            Some(p) => p.wf(),
            None => true,
        })
        &&& (self.main_window == MainWindow::Pods ==> self.pods is Some)
        &&& (self.active_window == ActiveWindow::Main(MainWindow::Pods) ==> self.main_window
            == MainWindow::Pods)
    }

    /// Keys are currently spelling text (a filter, or the picker's port
    /// input) in the focused view, so hotkeys must not fire.
    pub open spec fn input_captured(&self) -> bool {
        match self.active_window {
            ActiveWindow::Main(MainWindow::Namespaces) => self.namespaces.namespace_list.is_filter_mod,
            ActiveWindow::Main(MainWindow::Pods) => match self.pods {
                Some(p) => p.pods.is_filter_mod || p.port_forward_popup is Some,
                None => false,
            },
            ActiveWindow::SideBar(SideBarWindow::RecentNamespaces) => self.side_bar.recent_namespaces.recent_namespaces_list.is_filter_mod,
            ActiveWindow::SideBar(SideBarWindow::RecentPortForwards) => false,
        }
    }

    /// The full transition relation of [`Self::handle_event`]: how each
    /// event changes the state and which command it hands to the runtime.
    pub open spec fn event_transition(pre: Self, post: Self, event: AppEvent, cmd: AppCommand) -> bool {
        match event {
            AppEvent::Key(k) => {
                if !pre.input_captured() && general_key_event(k) is Some {
                    post == pre && cmd == AppCommand::Emit(general_key_event(k).unwrap())
                } else {
                    match pre.active_window {
                        ActiveWindow::Main(MainWindow::Namespaces) => {
                            &&& post == (Self { namespaces: post.namespaces, ..pre })
                            &&& exists|ev: Option<AppEvent>|
                                #[trigger] NamespacesList::key_transition(
                                    pre.namespaces,
                                    post.namespaces,
                                    k,
                                    ev,
                                ) && cmd == emit_of(ev)
                        },
                        ActiveWindow::Main(MainWindow::Pods) => match (pre.pods, post.pods) {
                            (Some(pp), Some(qp)) => {
                                &&& post == (Self { pods: post.pods, ..pre })
                                &&& exists|ev: Option<AppEvent>|
                                    #[trigger] PodsList::key_transition(pp, qp, k, ev) && cmd
                                        == emit_of(ev)
                            },
                            _ => false,
                        },
                        ActiveWindow::SideBar(SideBarWindow::RecentNamespaces) => {
                            &&& post == (Self { side_bar: post.side_bar, ..pre })
                            &&& post.side_bar.port_forwards == pre.side_bar.port_forwards
                            &&& exists|ev: Option<AppEvent>|
                                #[trigger] RecentNamespacesList::key_transition(
                                    pre.side_bar.recent_namespaces,
                                    post.side_bar.recent_namespaces,
                                    k,
                                    ev,
                                ) && cmd == emit_of(ev)
                        },
                        ActiveWindow::SideBar(SideBarWindow::RecentPortForwards) => {
                            &&& post == (Self { side_bar: post.side_bar, ..pre })
                            &&& post.side_bar.recent_namespaces == pre.side_bar.recent_namespaces
                            &&& exists|r: Option<u32>|
                                #[trigger] PortForwardsList::key_transition(
                                    pre.side_bar.port_forwards,
                                    post.side_bar.port_forwards,
                                    k,
                                    r,
                                ) && cmd == (match r {
                                    Some(pid) => AppCommand::Terminate(pid),
                                    None => AppCommand::Idle,
                                })
                        },
                    }
                }
            },
            AppEvent::Quit => post == (Self { exit: true, ..pre }) && cmd == AppCommand::Idle,
            AppEvent::SelectNamespace(ns) => {
                &&& post == (Self { side_bar: post.side_bar, ..pre })
                &&& post.side_bar.port_forwards == pre.side_bar.port_forwards
                &&& post.side_bar.recent_namespaces.recent_namespaces_list.list@ == seq![ns].add(
                    remove_first_keyed(
                        pre.side_bar.recent_namespaces.recent_namespaces_list.list@,
                        ns@,
                    ),
                )
                &&& cmd == AppCommand::FetchPods(ns)
            },
            AppEvent::PortForward { pod_name, local_port, app_port, namespace } => {
                &&& post == pre
                &&& cmd == (AppCommand::StartForward { pod_name, local_port, app_port, namespace })
            },
            AppEvent::ClosePodsList => {
                &&& post == (Self {
                    pods: None,
                    main_window: MainWindow::Namespaces,
                    active_window: ActiveWindow::Main(MainWindow::Namespaces),
                    ..pre
                })
                &&& cmd == AppCommand::Idle
            },
            AppEvent::ShowNotification(log) => {
                &&& post == (Self { notifications: post.notifications, ..pre })
                &&& post.notifications@ == pre.notifications@.push(log)
                &&& cmd == AppCommand::Idle
            },
            AppEvent::Focus(w) => cmd == AppCommand::Idle && (match w {
                ActiveWindow::Main(MainWindow::Pods) => if pre.pods is Some {
                    post == (Self { active_window: w, main_window: MainWindow::Pods, ..pre })
                } else {
                    post == pre
                },
                ActiveWindow::Main(MainWindow::Namespaces) => post == (Self {
                    active_window: w,
                    main_window: MainWindow::Namespaces,
                    ..pre
                }),
                ActiveWindow::SideBar(_) => post == (Self { active_window: w, ..pre }),
            }),
        }
    }

    /// The fresh state of a first run: no snapshot, nothing mounted, the
    /// namespaces view focused, the side bar empty.
    pub fn new() -> (r: Self)
        ensures
            r.wf(),
            r.namespaces.namespace_list.list@.len() == 0,
            r.pods is None,
            r.side_bar.recent_namespaces.recent_namespaces_list.list@.len() == 0,
            r.side_bar.port_forwards.list@.len() == 0,
            r.exit == false,
            r.main_window == MainWindow::Namespaces,
            r.active_window == ActiveWindow::Main(MainWindow::Namespaces),
            r.notifications@.len() == 0,
    {
        App {
            namespaces: NamespacesList::new(),
            pods: None,
            side_bar: SideBar::new(),
            exit: false,
            main_window: MainWindow::Namespaces,
            active_window: ActiveWindow::Main(MainWindow::Namespaces),
            notifications: Vec::new(),
        }
    }

    /// Handle one event from the bus: route a key to exactly the focused
    /// view, apply a domain event to the state, and hand the outside work
    /// back as a command.
    pub fn handle_event(&mut self, event: AppEvent) -> (cmd: AppCommand)
        requires
            old(self).wf(),
        ensures
            final(self).wf(),
            Self::event_transition(*old(self), *final(self), event, cmd),
    {
        match event {
            AppEvent::Key(k) => {
                let captured = match self.active_window {
                    ActiveWindow::Main(MainWindow::Namespaces) => self.namespaces.namespace_list.is_filter_mod,
                    ActiveWindow::Main(MainWindow::Pods) => match &self.pods {
                        Some(p) => p.pods.is_filter_mod || p.port_forward_popup.is_some(),
                        None => false,
                    },
                    ActiveWindow::SideBar(SideBarWindow::RecentNamespaces) => self.side_bar.recent_namespaces.recent_namespaces_list.is_filter_mod,
                    ActiveWindow::SideBar(SideBarWindow::RecentPortForwards) => false,
                };
                if !captured {
                    let general = handle_general_keys(k);
                    match general {
                        Some(e) => {
                            return AppCommand::Emit(e);
                        },
                        None => {},
                    }
                }
                match self.active_window {
                    ActiveWindow::Main(MainWindow::Namespaces) => {
                        let ev = self.namespaces.handle_key_event(k);
                        match ev {
                            Some(e) => AppCommand::Emit(e),
                            None => AppCommand::Idle,
                        }
                    },
                    ActiveWindow::Main(MainWindow::Pods) => {
                        let ev = match &mut self.pods {
                            Some(p) => p.handle_key_event(k),
                            None => None,
                        };
                        match ev {
                            Some(e) => AppCommand::Emit(e),
                            None => AppCommand::Idle,
                        }
                    },
                    ActiveWindow::SideBar(SideBarWindow::RecentNamespaces) => {
                        let ev = self.side_bar.recent_namespaces.handle_key_event(k);
                        match ev {
                            Some(e) => AppCommand::Emit(e),
                            None => AppCommand::Idle,
                        }
                    },
                    ActiveWindow::SideBar(SideBarWindow::RecentPortForwards) => {
                        let pid = self.side_bar.port_forwards.handle_key_event(k);
                        match pid {
                            Some(pid) => AppCommand::Terminate(pid),
                            None => AppCommand::Idle,
                        }
                    },
                }
            },
            AppEvent::Quit => {
                self.exit = true;
                AppCommand::Idle
            },
            AppEvent::SelectNamespace(ns) => {
                self.side_bar.recent_namespaces.add_to_list(ns.clone());
                AppCommand::FetchPods(ns)
            },
            AppEvent::PortForward { pod_name, local_port, app_port, namespace } => {
                AppCommand::StartForward { pod_name, local_port, app_port, namespace }
            },
            AppEvent::ClosePodsList => {
                self.pods = None;
                self.main_window = MainWindow::Namespaces;
                self.active_window = ActiveWindow::Main(MainWindow::Namespaces);
                AppCommand::Idle
            },
            AppEvent::ShowNotification(log) => {
                self.notifications.push(log);
                AppCommand::Idle
            },
            AppEvent::Focus(w) => {
                match w {
                    ActiveWindow::Main(MainWindow::Pods) => {
                        if self.pods.is_some() {
                            self.active_window = w;
                            self.main_window = MainWindow::Pods;
                        }
                    },
                    ActiveWindow::Main(MainWindow::Namespaces) => {
                        self.active_window = w;
                        self.main_window = MainWindow::Namespaces;
                    },
                    ActiveWindow::SideBar(_) => {
                        self.active_window = w;
                    },
                }
                AppCommand::Idle
            },
        }
    }

    /// `c` is the persisted form of the state `a`: the full view tree and
    /// the two window values, carried over field by field.  The terminate
    /// flag and the notifications are session-local and not persisted.
    pub open spec fn cached_as(a: Self, c: AppCache) -> bool {
        &&& FilterableList::cached_as(a.namespaces.namespace_list, c.namespaces.namespace_list)
        &&& FilterableList::cached_as(
            a.side_bar.recent_namespaces.recent_namespaces_list,
            c.side_bar.recent_namespaces.recent_namespaces_list,
        )
        &&& c.side_bar.port_forwards.list == a.side_bar.port_forwards.list
        &&& c.side_bar.port_forwards.state.selected == a.side_bar.port_forwards.cursor
        &&& c.main_window == a.main_window
        &&& c.active_window == a.active_window
        &&& (match (a.pods, c.pods) {
            (Some(p), Some(cp)) => PodsList::cached_as(p, cp),
            (None, None) => true,
            _ => false,
        })
    }

    /// `r` is the state brought back from the persisted form `c`:
    /// derived list state recomputed, each port-forward entry reconciled
    /// against the process table through `liveness`, and the window values
    /// coerced back to coherence should the snapshot disagree with itself.
    pub open spec fn restored_from(c: AppCache, liveness: Seq<bool>, r: Self) -> bool {
        &&& FilterableList::restored_from(c.namespaces.namespace_list, r.namespaces.namespace_list)
        &&& FilterableList::restored_from(
            c.side_bar.recent_namespaces.recent_namespaces_list,
            r.side_bar.recent_namespaces.recent_namespaces_list,
        )
        &&& reconciled(c.side_bar.port_forwards.list@, liveness, r.side_bar.port_forwards.list@)
        &&& r.side_bar.port_forwards.cursor == restore_cursor(
            c.side_bar.port_forwards.state.selected,
            r.side_bar.port_forwards.list@.len(),
        )
        &&& (match (c.pods, r.pods) {
            (Some(cp), Some(p)) => PodsList::restored_from(cp, p),
            (None, None) => true,
            _ => false,
        })
        &&& r.main_window == (if c.main_window == MainWindow::Pods && c.pods is Some {
            MainWindow::Pods
        } else {
            MainWindow::Namespaces
        })
        &&& r.active_window == (match c.active_window {
            ActiveWindow::Main(MainWindow::Pods) => if c.main_window == MainWindow::Pods
                && c.pods is Some {
                ActiveWindow::Main(MainWindow::Pods)
            } else {
                ActiveWindow::Main(MainWindow::Namespaces)
            },
            w => w,
        })
        &&& r.exit == false
        &&& r.notifications@.len() == 0
    }

    /// The persisted form of this state, written wholesale on quit.
    pub fn to_cache(self) -> (c: AppCache)
        ensures
            Self::cached_as(self, c),
    {
        AppCache {
            namespaces: self.namespaces.to_cache(),
            pods: match self.pods {
                Some(p) => Some(p.to_cache()),
                None => None,
            },
            side_bar: SideBarCache {
                recent_namespaces: self.side_bar.recent_namespaces.to_cache(),
                port_forwards: self.side_bar.port_forwards.to_cache(),
            },
            main_window: self.main_window,
            active_window: self.active_window,
        }
    }

    /// Rebuild the state from a snapshot read at startup.  `liveness[i]`
    /// says whether the process recorded by the `i`-th port-forward entry
    /// was found alive; entries whose process is gone stay listed without
    /// a process id.
    pub fn from_cache(c: AppCache, liveness: &Vec<bool>) -> (r: Self)
        requires
            liveness@.len() == c.side_bar.port_forwards.list@.len(),
        ensures
            r.wf(),
            Self::restored_from(c, liveness@, r),
    {
        let pods = match c.pods {
            Some(cp) => Some(PodsList::from_cache(cp)),
            None => None,
        };
        let has_pods = pods.is_some();
        let main_window = match c.main_window {
            MainWindow::Pods => if has_pods {
                MainWindow::Pods
            } else {
                MainWindow::Namespaces
            },
            MainWindow::Namespaces => MainWindow::Namespaces,
        };
        let active_window = match c.active_window {
            ActiveWindow::Main(MainWindow::Pods) => if main_window == MainWindow::Pods {
                ActiveWindow::Main(MainWindow::Pods)
            } else {
                ActiveWindow::Main(MainWindow::Namespaces)
            },
            w => w,
        };
        App {
            namespaces: NamespacesList::from_cache(c.namespaces),
            pods,
            side_bar: SideBar {
                recent_namespaces: RecentNamespacesList::from_cache(c.side_bar.recent_namespaces),
                port_forwards: PortForwardsList::build_from_cache(
                    c.side_bar.port_forwards,
                    liveness,
                ),
            },
            exit: false,
            main_window,
            active_window,
            notifications: Vec::new(),
        }
    }

    /// Mount a freshly fetched pods view for `namespace` (replacing any
    /// previous one) and focus it.
    pub fn mount_pods(&mut self, namespace: String, pods: Vec<Pod>)
        requires
            old(self).wf(),
        ensures
            final(self).wf(),
            final(self).namespaces == old(self).namespaces,
            final(self).side_bar == old(self).side_bar,
            final(self).exit == old(self).exit,
            final(self).notifications == old(self).notifications,
            final(self).main_window == MainWindow::Pods,
            final(self).active_window == ActiveWindow::Main(MainWindow::Pods),
            match final(self).pods {
                Some(p) => {
                    &&& p.namespace@ == namespace@
                    &&& p.pods.list@ == pods@
                    &&& p.pods.filter@.len() == 0
                    &&& p.pods.is_filter_mod == false
                    &&& p.port_forward_popup is None
                    &&& p.longest_name as int == spec_name_column(pods@)
                },
                None => false,
            },
    {
        self.pods = Some(PodsList::new(namespace, pods));
        self.active_window = ActiveWindow::Main(MainWindow::Pods);
        self.main_window = MainWindow::Pods;
    }

    /// Record a forward that came up successfully: the new live entry goes
    /// to the front of the port-forward list.
    pub fn record_forward(
        &mut self,
        namespace: String,
        pod_name: String,
        local_port: u16,
        app_port: u16,
        pid: u32,
    )
        requires
            old(self).wf(),
        ensures
            final(self).wf(),
            final(self).namespaces == old(self).namespaces,
            final(self).pods == old(self).pods,
            final(self).side_bar.recent_namespaces == old(self).side_bar.recent_namespaces,
            final(self).exit == old(self).exit,
            final(self).notifications == old(self).notifications,
            final(self).main_window == old(self).main_window,
            final(self).active_window == old(self).active_window,
            final(self).side_bar.port_forwards.list@ == seq![
                PortForward { namespace, pod_name, local_port, app_port, pid: Some(pid) },
            ].add(old(self).side_bar.port_forwards.list@),
    {
        self.side_bar.port_forwards.add_to_list(
            PortForward { namespace, pod_name, local_port, app_port, pid: Some(pid) },
        );
    }
}

/// Round-trip persistence: saving a well-formed state and loading the
/// snapshot back restores every view and both window values verbatim,
/// provided every recorded process is still alive.  (Process liveness is
/// re-derived on load, never round-tripped: a dead process loses its id.)
pub proof fn lemma_snapshot_round_trip(pre: App, c: AppCache, liveness: Seq<bool>, post: App)
    requires
        pre.wf(),
        App::cached_as(pre, c),
        liveness.len() == c.side_bar.port_forwards.list@.len(),
        forall|i: int| 0 <= i < liveness.len() ==> liveness[i],
        App::restored_from(c, liveness, post),
    ensures
        post.namespaces.namespace_list.list@ == pre.namespaces.namespace_list.list@,
        post.namespaces.namespace_list.filter@ == pre.namespaces.namespace_list.filter@,
        post.namespaces.namespace_list.filtered_list@
            == pre.namespaces.namespace_list.filtered_list@,
        post.namespaces.namespace_list.cursor == pre.namespaces.namespace_list.cursor,
        post.side_bar.recent_namespaces.recent_namespaces_list.list@
            == pre.side_bar.recent_namespaces.recent_namespaces_list.list@,
        post.side_bar.recent_namespaces.recent_namespaces_list.filter@
            == pre.side_bar.recent_namespaces.recent_namespaces_list.filter@,
        post.side_bar.recent_namespaces.recent_namespaces_list.filtered_list@
            == pre.side_bar.recent_namespaces.recent_namespaces_list.filtered_list@,
        post.side_bar.recent_namespaces.recent_namespaces_list.cursor
            == pre.side_bar.recent_namespaces.recent_namespaces_list.cursor,
        post.side_bar.port_forwards.list@ =~= pre.side_bar.port_forwards.list@,
        post.side_bar.port_forwards.cursor == pre.side_bar.port_forwards.cursor,
        match (pre.pods, post.pods) {
            (Some(pp), Some(qp)) => {
                &&& qp.pods.list@ == pp.pods.list@
                &&& qp.pods.filter@ == pp.pods.filter@
                &&& qp.pods.filtered_list@ == pp.pods.filtered_list@
                &&& qp.pods.cursor == pp.pods.cursor
                &&& qp.longest_name == pp.longest_name
                &&& qp.namespace == pp.namespace
                &&& (match (pp.port_forward_popup, qp.port_forward_popup) {
                    (Some(a), Some(b)) => {
                        &&& b.port == a.port
                        &&& b.selected_container == a.selected_container
                        &&& b.pod_containers_list.list@ == a.pod_containers_list.list@
                        &&& b.pod_containers_list.cursor == a.pod_containers_list.cursor
                    },
                    (None, None) => true,
                    _ => false,
                })
            },
            (None, None) => true,
            _ => false,
        },
        post.main_window == pre.main_window,
        post.active_window == pre.active_window,
{
    lemma_list_cache_round_trip(
        pre.namespaces.namespace_list,
        c.namespaces.namespace_list,
        post.namespaces.namespace_list,
    );
    lemma_list_cache_round_trip(
        pre.side_bar.recent_namespaces.recent_namespaces_list,
        c.side_bar.recent_namespaces.recent_namespaces_list,
        post.side_bar.recent_namespaces.recent_namespaces_list,
    );
    let fpre = pre.side_bar.port_forwards.list@;
    let fpost = post.side_bar.port_forwards.list@;
    assert forall|i: int| 0 <= i < fpre.len() implies fpost[i] == fpre[i] by {
        assert(fpost[i].pid == fpre[i].pid);
    }
    match (pre.pods, post.pods) {
        (Some(pp), Some(qp)) => {
            let cp = c.pods.unwrap();
            lemma_list_cache_round_trip(pp.pods, cp.pods, qp.pods);
            match (pp.port_forward_popup, qp.port_forward_popup) {
                (Some(a), Some(b)) => {
                    lemma_list_cache_round_trip(
                        a.pod_containers_list,
                        cp.port_forward_popup.unwrap().pod_containers,
                        b.pod_containers_list,
                    );
                },
                _ => {},
            }
        },
        _ => {},
    }
}

} // verus!
