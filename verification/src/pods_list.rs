//! The pods view: the filterable pod table of one namespace, the column
//! width hint for the name column, and the port-forward picker popup that
//! opens on a pod.

use vstd::prelude::*;
use vstd::string::StrSliceExecFns;

use crate::cache::PodsListCache;
use crate::events::AppEvent;
use crate::filterable_list::{
    keys_of, lemma_filtered_indices_characterize, FilterableList, ListEvent,
};
use crate::keys::Key;
use crate::pods::{clone_containers, Pod};
use crate::port_forward_popup::{PortForwardPopup, PortForwardPopupAction};

verus! {

/// The length of the longest pod name, in characters, or 10 for an empty
/// list; it sizes the name column.
pub open spec fn spec_longest_name(pods: Seq<Pod>) -> int
    decreases pods.len(),
{
    if pods.len() == 0 {
        10
    } else if pods.len() == 1 {
        pods.last().name@.len() as int
    } else {
        let rest = spec_longest_name(pods.drop_last());
        let last_len = pods.last().name@.len() as int;
        if last_len > rest {
            last_len
        } else {
            rest
        }
    }
}

/// `spec_longest_name`, saturated into a column width.
pub open spec fn spec_name_column(pods: Seq<Pod>) -> int {
    if spec_longest_name(pods) > u16::MAX {
        u16::MAX as int
    } else {
        spec_longest_name(pods)
    }
}

/// The name-column width for a pod list.
fn compute_longest_name(pods: &Vec<Pod>) -> (r: u16)
    ensures
        r as int == spec_name_column(pods@),
{
    let n: usize = pods.len();
    if n == 0 {
        return 10;
    }
    let mut m: usize = pods[0].name.as_str().unicode_len();
    proof {
        assert(pods@.take(1).last() == pods@[0]);
    }
    let mut i: usize = 1;
    while i < n
        invariant
            n == pods@.len(),
            1 <= i <= n,
            m as int == spec_longest_name(pods@.take(i as int)),
        decreases n - i,
    {
        let len_i: usize = pods[i].name.as_str().unicode_len();
        proof {
            assert(pods@.take(i + 1).drop_last() =~= pods@.take(i as int));
            assert(pods@.take(i + 1).last() == pods@[i as int]);
        }
        if len_i > m {
            m = len_i;
        }
        i += 1;
    }
    proof {
        assert(pods@.take(n as int) =~= pods@);
    }
    if m > 65535 {
        65535
    } else {
        m as u16
    }
}

/// The pod table of one namespace, with its filter state, the name-column
/// width hint and the optional port-forward picker on top.
pub struct PodsList {
    /// The pods, held by the shared filterable-list primitive.
    pub pods: FilterableList<Pod>,
    /// Width of the name column: the longest pod name, in characters.
    pub longest_name: u16,
    /// The port-forward picker, while it is open.
    pub port_forward_popup: Option<PortForwardPopup>,
    /// The namespace this view is scoped to.
    pub namespace: String,
}

impl PodsList {
    pub open spec fn wf(&self) -> bool {
        &&& self.pods.wf()
        &&& match self.port_forward_popup {
            Some(p) => p.wf(),
            None => true,
        }
    }

    /// A pods view over the given pods of `namespace`: unfiltered, cursor
    /// on the first pod, no picker open.
    pub fn new(namespace: String, pods: Vec<Pod>) -> (r: Self)
        ensures
            r.wf(),
            r.namespace@ == namespace@,
            r.port_forward_popup is None,
            r.pods.list@ == pods@,
            r.pods.filter@.len() == 0,
            r.pods.is_filter_mod == false,
            r.pods.is_filterable == true,
            r.pods.filtered_list@ =~= Seq::new(pods@.len(), |i: int| i as usize),
            r.pods.cursor == crate::filterable_list::cursor_reset(pods@.len()),
            r.longest_name as int == spec_name_column(pods@),
    {
        let longest_name = compute_longest_name(&pods);
        let mut list = FilterableList::new("Select pod".to_owned(), true);
        list.set_items(pods);
        PodsList { pods: list, longest_name, port_forward_popup: None, namespace }
    }

    /// `c` is the persisted form of the pods view `p`.
    pub open spec fn cached_as(p: Self, c: PodsListCache) -> bool {
        &&& FilterableList::cached_as(p.pods, c.pods)
        &&& c.longest_name == p.longest_name
        &&& c.namespace == p.namespace
        &&& (match (p.port_forward_popup, c.port_forward_popup) {
            (Some(pp), Some(cp)) => PortForwardPopup::cached_as(pp, cp),
            (None, None) => true,
            _ => false,
        })
    }

    /// `p` is the pods view brought back from the persisted form `c`.
    pub open spec fn restored_from(c: PodsListCache, p: Self) -> bool {
        &&& FilterableList::restored_from(c.pods, p.pods)
        &&& p.longest_name == c.longest_name
        &&& p.namespace == c.namespace
        &&& (match (c.port_forward_popup, p.port_forward_popup) {
            (Some(cp), Some(pp)) => PortForwardPopup::restored_from(cp, pp),
            (None, None) => true,
            _ => false,
        })
    }

    /// The persisted form of this view.
    pub fn to_cache(self) -> (c: PodsListCache)
        ensures
            Self::cached_as(self, c),
    {
        PodsListCache {
            pods: self.pods.to_cache(),
            longest_name: self.longest_name,
            port_forward_popup: match self.port_forward_popup {
                Some(p) => Some(p.to_cache()),
                None => None,
            },
            namespace: self.namespace,
        }
    }

    /// Bring the view back from its persisted form.
    pub fn from_cache(c: PodsListCache) -> (r: Self)
        ensures
            r.wf(),
            Self::restored_from(c, r),
    {
        PodsList {
            pods: FilterableList::from_cache(c.pods),
            longest_name: c.longest_name,
            port_forward_popup: match c.port_forward_popup {
                Some(p) => Some(PortForwardPopup::from_cache(p)),
                None => None,
            },
            namespace: c.namespace,
        }
    }

    /// The full effect of one key press on the view: an open picker
    /// consumes the key, `p` opens the picker on the selected pod, and
    /// everything else drives the pod list.
    pub open spec fn key_transition(pre: Self, post: Self, key: Key, ev: Option<AppEvent>) -> bool {
        &&& post.namespace@ == pre.namespace@
        &&& post.longest_name == pre.longest_name
        &&& match pre.port_forward_popup {
            Some(pre_popup) => exists|act: Option<PortForwardPopupAction>, mid: PortForwardPopup|
                {
                    &&& #[trigger] PortForwardPopup::key_transition(pre_popup, mid, key, act)
                    &&& post.pods == pre.pods
                    &&& (match act {
                        Some(PortForwardPopupAction::Quit) => post.port_forward_popup is None
                            && ev is None,
                        Some(PortForwardPopupAction::PortForward { local_port, app_port }) => {
                            &&& post.port_forward_popup == Some(mid)
                            &&& (match pre.pods.cursor {
                                Some(c) => ev == Some(
                                    AppEvent::PortForward {
                                        pod_name: pre.pods.list@[pre.pods.filtered_list@[c as int]
                                            as int].name,
                                        local_port,
                                        app_port,
                                        namespace: pre.namespace,
                                    },
                                ),
                                None => ev is None,
                            })
                        },
                        None => post.port_forward_popup == Some(mid) && ev is None,
                    })
                },
            None => {
                if key == Key::Char('p') && !pre.pods.is_filter_mod {
                    &&& post.pods == pre.pods
                    &&& ev is None
                    &&& (match pre.pods.cursor {
                        Some(c) => match post.port_forward_popup {
                            Some(p) => p.fresh_for(
                                pre.pods.list@[pre.pods.filtered_list@[c as int] as int].containers@,
                            ),
                            None => false,
                        },
                        None => post.port_forward_popup is None,
                    })
                } else {
                    exists|lev: Option<ListEvent>|
                        {
                            &&& #[trigger] FilterableList::key_transition(
                                pre.pods,
                                post.pods,
                                key,
                                lev,
                            )
                            &&& post.port_forward_popup is None
                            &&& (match lev {
                                Some(ListEvent::Quit) => ev == Some(AppEvent::Quit),
                                _ => ev is None,
                            })
                        }
                }
            },
        }
    }

    /// Route one key press.  An open picker consumes every key; otherwise
    /// `p` opens the picker on the selected pod, and the remaining keys
    /// drive the pod list (filter, cursor, quit).
    pub fn handle_key_event(&mut self, key: Key) -> (ev: Option<AppEvent>)
        requires
            old(self).wf(),
        ensures
            final(self).wf(),
            Self::key_transition(*old(self), *final(self), key, ev),
    {
        let has_popup = self.port_forward_popup.is_some();
        if has_popup {
            let act = match &mut self.port_forward_popup {
                Some(p) => p.handle_key_event(key),
                None => None,
            };
            match act {
                Some(PortForwardPopupAction::PortForward { local_port, app_port }) => {
                    match self.pods.selected_item_index() {
                        Some(idx) => {
                            let pod_name = self.pods.list[idx].name.clone();
                            Some(
                                AppEvent::PortForward {
                                    pod_name,
                                    local_port,
                                    app_port,
                                    namespace: self.namespace.clone(),
                                },
                            )
                        },
                        None => None,
                    }
                },
                Some(PortForwardPopupAction::Quit) => {
                    self.port_forward_popup = None;
                    None
                },
                None => None,
            }
        } else {
            let is_open_picker = match key {
                Key::Char(ch) => ch == 'p' && !self.pods.is_filter_mod,
                _ => false,
            };
            if is_open_picker {
                match self.pods.selected_item_index() {
                    Some(idx) => {
                        let containers = clone_containers(&self.pods.list[idx].containers);
                        self.port_forward_popup = Some(PortForwardPopup::new(containers));
                        None
                    },
                    None => None,
                }
            } else {
                let lev = self.pods.handle_key(key);
                match lev {
                    Some(ListEvent::Quit) => Some(AppEvent::Quit),
                    Some(ListEvent::SelectedItem(_)) => None,
                    None => None,
                }
            }
        }
    }
}

} // verus!
