//! The recent-namespaces side-bar view: a most-recently-used list.
//! Selecting a namespace anywhere records it here at the front, without
//! duplicates.

use vstd::prelude::*;

use crate::cache::RecentNamespacesListCache;
use crate::events::AppEvent;
use crate::filterable_list::{
    keys_of, lemma_filtered_indices_characterize, remove_first_keyed, FilterableList, ListEvent,
};
use crate::keys::Key;

verus! {

/// The most-recently-used namespaces, newest first.
pub struct RecentNamespacesList {
    pub recent_namespaces_list: FilterableList<String>,
}

impl RecentNamespacesList {
    pub open spec fn wf(&self) -> bool {
        self.recent_namespaces_list.wf()
    }

    /// An empty recency list.
    pub fn new() -> (r: Self)
        ensures
            r.wf(),
            r.recent_namespaces_list.list@.len() == 0,
            r.recent_namespaces_list.filter@.len() == 0,
            r.recent_namespaces_list.is_filter_mod == false,
            r.recent_namespaces_list.is_filterable == false,
            r.recent_namespaces_list.cursor is None,
    {
        RecentNamespacesList {
            recent_namespaces_list: FilterableList::new("Recent Namespaces".to_owned(), false),
        }
    }

    /// The persisted form of this view.
    pub fn to_cache(self) -> (c: RecentNamespacesListCache)
        ensures
            FilterableList::cached_as(self.recent_namespaces_list, c.recent_namespaces_list),
    {
        RecentNamespacesListCache {
            recent_namespaces_list: self.recent_namespaces_list.to_cache(),
        }
    }

    /// Bring the view back from its persisted form.
    pub fn from_cache(c: RecentNamespacesListCache) -> (r: Self)
        ensures
            r.wf(),
            FilterableList::restored_from(c.recent_namespaces_list, r.recent_namespaces_list),
    {
        RecentNamespacesList {
            recent_namespaces_list: FilterableList::from_cache(c.recent_namespaces_list),
        }
    }

    /// Record a namespace as the most recent one: any earlier occurrence is
    /// removed and the namespace goes to the front.
    pub fn add_to_list(&mut self, new_namespace: String)
        ensures
            final(self).wf(),
            final(self).recent_namespaces_list.list@ == seq![new_namespace].add(
                remove_first_keyed(old(self).recent_namespaces_list.list@, new_namespace@),
            ),
            final(self).recent_namespaces_list.filter@ == old(
                self,
            ).recent_namespaces_list.filter@,
            final(self).recent_namespaces_list.is_filter_mod == old(
                self,
            ).recent_namespaces_list.is_filter_mod,
            final(self).recent_namespaces_list.is_filterable == old(
                self,
            ).recent_namespaces_list.is_filterable,
    {
        self.recent_namespaces_list.promote(new_namespace);
    }

    /// The full effect of one key press on the view: the list transition,
    /// with activation turned into a namespace selection.
    pub open spec fn key_transition(pre: Self, post: Self, key: Key, ev: Option<AppEvent>) -> bool {
        exists|lev: Option<ListEvent>|
            {
                &&& #[trigger] FilterableList::key_transition(
                    pre.recent_namespaces_list,
                    post.recent_namespaces_list,
                    key,
                    lev,
                )
                &&& (match lev {
                    Some(ListEvent::Quit) => ev == Some(AppEvent::Quit),
                    Some(ListEvent::SelectedItem(idx)) => ev == Some(
                        AppEvent::SelectNamespace(pre.recent_namespaces_list.list@[idx as int]),
                    ),
                    None => ev is None,
                })
            }
    }

    /// Route one key press to the list; activating an entry re-selects that
    /// namespace.
    pub fn handle_key_event(&mut self, key: Key) -> (ev: Option<AppEvent>)
        requires
            old(self).wf(),
        ensures
            final(self).wf(),
            Self::key_transition(*old(self), *final(self), key, ev),
    {
        let lev = self.recent_namespaces_list.handle_key(key);
        match lev {
            Some(ListEvent::Quit) => Some(AppEvent::Quit),
            Some(ListEvent::SelectedItem(idx)) => {
                let n = self.recent_namespaces_list.list.len();
                proof {
                    let pre = old(self).recent_namespaces_list;
                    assert(keys_of(pre.list@).len() == n);
                    lemma_filtered_indices_characterize(keys_of(pre.list@), pre.filter@);
                }
                Some(AppEvent::SelectNamespace(self.recent_namespaces_list.list[idx].clone()))
            },
            None => None,
        }
    }
}

} // verus!
