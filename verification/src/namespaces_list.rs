//! The namespaces view: the filterable list of the cluster's namespaces.
//! Activating an entry selects the namespace; `q` requests quitting.

use vstd::prelude::*;

use crate::cache::NamespacesListCache;
use crate::events::AppEvent;
use crate::filterable_list::{
    cursor_reset, keys_of, lemma_filtered_indices_characterize, FilterableList, ListEvent,
};
use crate::keys::Key;

verus! {

/// The list of the cluster's namespaces shown in the main area.
pub struct NamespacesList {
    pub namespace_list: FilterableList<String>,
}

impl NamespacesList {
    pub open spec fn wf(&self) -> bool {
        self.namespace_list.wf()
    }

    /// An empty, filterable namespaces view.
    pub fn new() -> (r: Self)
        ensures
            r.wf(),
            r.namespace_list.list@.len() == 0,
            r.namespace_list.filter@.len() == 0,
            r.namespace_list.is_filter_mod == false,
            r.namespace_list.is_filterable == true,
            r.namespace_list.cursor is None,
    {
        NamespacesList { namespace_list: FilterableList::new("Namespaces".to_owned(), true) }
    }

    /// The persisted form of this view.
    pub fn to_cache(self) -> (c: NamespacesListCache)
        ensures
            FilterableList::cached_as(self.namespace_list, c.namespace_list),
    {
        NamespacesListCache { namespace_list: self.namespace_list.to_cache() }
    }

    /// Bring the view back from its persisted form.
    pub fn from_cache(c: NamespacesListCache) -> (r: Self)
        ensures
            r.wf(),
            FilterableList::restored_from(c.namespace_list, r.namespace_list),
    {
        NamespacesList { namespace_list: FilterableList::from_cache(c.namespace_list) }
    }

    /// Replace the namespaces with a freshly fetched list.
    pub fn update_list(&mut self, new_list: Vec<String>)
        ensures
            final(self).wf(),
            final(self).namespace_list.list@ == new_list@,
            final(self).namespace_list.filter@.len() == 0,
            final(self).namespace_list.is_filter_mod == old(self).namespace_list.is_filter_mod,
            final(self).namespace_list.is_filterable == old(self).namespace_list.is_filterable,
            final(self).namespace_list.cursor == cursor_reset(new_list@.len()),
    {
        self.namespace_list.set_items(new_list);
    }

    /// The full effect of one key press on the view: the list transition,
    /// with activation turned into a namespace selection.
    pub open spec fn key_transition(pre: Self, post: Self, key: Key, ev: Option<AppEvent>) -> bool {
        exists|lev: Option<ListEvent>|
            {
                &&& #[trigger] FilterableList::key_transition(
                    pre.namespace_list,
                    post.namespace_list,
                    key,
                    lev,
                )
                &&& (match lev {
                    Some(ListEvent::Quit) => ev == Some(AppEvent::Quit),
                    Some(ListEvent::SelectedItem(idx)) => ev == Some(
                        AppEvent::SelectNamespace(pre.namespace_list.list@[idx as int]),
                    ),
                    None => ev is None,
                })
            }
    }

    /// Route one key press to the list; activating an entry selects that
    /// namespace.
    pub fn handle_key_event(&mut self, key: Key) -> (ev: Option<AppEvent>)
        requires
            old(self).wf(),
        ensures
            final(self).wf(),
            Self::key_transition(*old(self), *final(self), key, ev),
    {
        let lev = self.namespace_list.handle_key(key);
        match lev {
            Some(ListEvent::Quit) => Some(AppEvent::Quit),
            Some(ListEvent::SelectedItem(idx)) => {
                let n = self.namespace_list.list.len();
                proof {
                    let pre = old(self).namespace_list;
                    assert(keys_of(pre.list@).len() == n);
                    lemma_filtered_indices_characterize(keys_of(pre.list@), pre.filter@);
                }
                Some(AppEvent::SelectNamespace(self.namespace_list.list[idx].clone()))
            },
            None => None,
        }
    }
}

} // verus!
