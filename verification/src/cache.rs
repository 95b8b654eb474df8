//! The snapshot (cache): the serializable projection of the whole UI state
//! tree, written on quit and read back on startup.  These are plain data
//! types; the runtime turns them into the durable document and back.

use vstd::prelude::*;

use crate::app::{ActiveWindow, MainWindow};
use crate::pods::{Pod, PodContainer};
use crate::side_bar::port_forwards::PortForward;

verus! {

/// A persisted cursor.
pub struct StateCache {
    pub selected: Option<usize>,
}

/// The persisted state of one filterable list.
pub struct FilterableListCache<T> {
    pub list: Vec<T>,
    pub state: StateCache,
    pub list_name: String,
    pub is_filterable: bool,
    pub filtered_list: Vec<usize>,
    pub filter: Vec<char>,
    pub is_filter_mod: bool,
}

/// The persisted namespaces view.
pub struct NamespacesListCache {
    pub namespace_list: FilterableListCache<String>,
}

/// The persisted recent-namespaces side-bar view.
pub struct RecentNamespacesListCache {
    pub recent_namespaces_list: FilterableListCache<String>,
}

/// The persisted port-forwards side-bar view.
pub struct PortForwardsListCache {
    pub list: Vec<PortForward>,
    pub state: StateCache,
}

/// The persisted side bar.
pub struct SideBarCache {
    pub recent_namespaces: RecentNamespacesListCache,
    pub port_forwards: PortForwardsListCache,
}

/// The persisted port-forward picker.
pub struct PortForwardPopupCache {
    pub port: Vec<char>,
    pub pod_containers: FilterableListCache<PodContainer>,
    pub selected_container: Option<PodContainer>,
}

/// The persisted pods view.
pub struct PodsListCache {
    pub pods: FilterableListCache<Pod>,
    pub longest_name: u16,
    pub port_forward_popup: Option<PortForwardPopupCache>,
    pub namespace: String,
}

/// The whole persisted UI state tree.
pub struct AppCache {
    pub namespaces: NamespacesListCache,
    pub pods: Option<PodsListCache>,
    pub side_bar: SideBarCache,
    pub main_window: MainWindow,
    pub active_window: ActiveWindow,
}

/// A persisted cursor brought back against a list of length `len`: kept
/// when still valid, otherwise moved to the first entry, and unset exactly
/// on an empty list.
pub open spec fn restore_cursor(sel: Option<usize>, len: nat) -> Option<usize> {
    if len == 0 {
        None
    } else {
        match sel {
            Some(s) => if (s as nat) < len {
                Some(s)
            } else {
                Some(0usize)
            },
            None => Some(0usize),
        }
    }
}

/// `restore_cursor`, executable form.
pub fn restore_cursor_exec(sel: Option<usize>, len: usize) -> (r: Option<usize>)
    ensures
        r == restore_cursor(sel, len as nat),
{
    if len == 0 {
        None
    } else {
        match sel {
            Some(s) => if s < len {
                Some(s)
            } else {
                Some(0)
            },
            None => Some(0),
        }
    }
}

} // verus!
