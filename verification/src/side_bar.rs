//! The side bar: the recent-namespaces list on top and the port-forward
//! list below it.

pub mod port_forwards;
pub mod recent_namespaces;

use vstd::prelude::*;

use crate::side_bar::port_forwards::PortForwardsList;
use crate::side_bar::recent_namespaces::RecentNamespacesList;

verus! {

/// The two side-bar views.
pub struct SideBar {
    pub recent_namespaces: RecentNamespacesList,
    pub port_forwards: PortForwardsList,
}

impl SideBar {
    pub open spec fn wf(&self) -> bool {
        &&& self.recent_namespaces.wf()
        &&& self.port_forwards.wf()
    }

    /// An empty side bar: no recent namespaces, no port-forwards.
    pub fn new() -> (r: Self)
        ensures
            r.wf(),
            r.recent_namespaces.recent_namespaces_list.list@.len() == 0,
            r.recent_namespaces.recent_namespaces_list.filter@.len() == 0,
            r.port_forwards.list@.len() == 0,
            r.port_forwards.cursor is None,
    {
        SideBar {
            recent_namespaces: RecentNamespacesList::new(),
            port_forwards: PortForwardsList::new(),
        }
    }
}

} // verus!
