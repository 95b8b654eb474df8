//! The port-forward side-bar view: the list of forward entries, live ones
//! first, with cyclic selection and deletion (which also terminates the
//! underlying process).

use vstd::prelude::*;

use crate::cache::{restore_cursor, restore_cursor_exec, PortForwardsListCache, StateCache};
use crate::keys::Key;

verus! {

/// One local port-forward: where it points and, while the tunnel process
/// lives, its process id.  An entry whose process has gone stays listed
/// without a process id ("inactive").
pub struct PortForward {
    pub namespace: String,
    pub pod_name: String,
    pub local_port: u16,
    pub app_port: u16,
    pub pid: Option<u32>,
}

impl Clone for PortForward {
    fn clone(&self) -> (r: Self)
        ensures
            r == *self,
    {
        PortForward {
            namespace: self.namespace.clone(),
            pod_name: self.pod_name.clone(),
            local_port: self.local_port,
            app_port: self.app_port,
            pid: self.pid,
        }
    }
}

/// `post` is `pre` reconciled against the process table: all fields kept,
/// but the process id only where the probe found the process alive.
pub open spec fn reconciled(pre: Seq<PortForward>, alive: Seq<bool>, post: Seq<PortForward>) -> bool {
    &&& post.len() == pre.len()
    &&& forall|i: int|
        0 <= i < pre.len() ==> {
            &&& (#[trigger] post[i]).namespace == pre[i].namespace
            &&& post[i].pod_name == pre[i].pod_name
            &&& post[i].local_port == pre[i].local_port
            &&& post[i].app_port == pre[i].app_port
            &&& post[i].pid == (if pre[i].pid is Some && alive[i] {
                pre[i].pid
            } else {
                None::<u32>
            })
        }
}

/// The list of port-forward entries shown in the side bar.
pub struct PortForwardsList {
    pub list: Vec<PortForward>,
    pub cursor: Option<usize>,
}

impl PortForwardsList {
    pub open spec fn wf(&self) -> bool {
        match self.cursor {
            Some(c) => (c as int) < self.list@.len(),
            None => self.list@.len() == 0,
        }
    }

    /// An empty forward list.
    pub fn new() -> (r: Self)
        ensures
            r.wf(),
            r.list@.len() == 0,
            r.cursor is None,
    {
        PortForwardsList { list: Vec::new(), cursor: None }
    }

    /// The persisted form of this view.
    pub fn to_cache(self) -> (c: PortForwardsListCache)
        ensures
            c.list == self.list,
            c.state.selected == self.cursor,
    {
        PortForwardsListCache { list: self.list, state: StateCache { selected: self.cursor } }
    }

    /// Rebuild the view from a snapshot, reconciling every entry against
    /// the live process table: `liveness[i]` says whether entry `i`'s
    /// recorded process was found alive.  No entry is dropped.
    pub fn build_from_cache(value: PortForwardsListCache, liveness: &Vec<bool>) -> (r: Self)
        requires
            liveness@.len() == value.list@.len(),
        ensures
            r.wf(),
            reconciled(value.list@, liveness@, r.list@),
            r.cursor == restore_cursor(value.state.selected, r.list@.len()),
    {
        let n: usize = value.list.len();
        let mut list: Vec<PortForward> = Vec::new();
        let mut i: usize = 0;
        while i < n
            invariant
                n == value.list@.len(),
                n == liveness@.len(),
                i <= n,
                list@.len() == i,
                reconciled(value.list@.take(i as int), liveness@.take(i as int), list@),
            decreases n - i,
        {
            let entry = value.list[i].clone();
            let keep = match entry.pid {
                Some(_) => liveness[i],
                None => false,
            };
            let pid = if keep {
                entry.pid
            } else {
                None
            };
            list.push(
                PortForward {
                    namespace: entry.namespace,
                    pod_name: entry.pod_name,
                    local_port: entry.local_port,
                    app_port: entry.app_port,
                    pid,
                },
            );
            i += 1;
        }
        proof {
            assert(value.list@.take(n as int) =~= value.list@);
            assert(liveness@.take(n as int) =~= liveness@);
        }
        let cursor = restore_cursor_exec(value.state.selected, list.len());
        PortForwardsList { list, cursor }
    }

    /// Record a forward entry: live entries (with a process id) go to the
    /// front, inactive ones to the back.
    pub fn add_to_list(&mut self, new_item: PortForward)
        requires
            old(self).wf(),
        ensures
            final(self).wf(),
            new_item.pid is Some ==> final(self).list@ == seq![new_item].add(old(self).list@),
            new_item.pid is None ==> final(self).list@ == old(self).list@.push(new_item),
            final(self).cursor == (match old(self).cursor {
                Some(c) => Some(c),
                None => Some(0usize),
            }),
    {
        if new_item.pid.is_some() {
            self.list.insert(0, new_item);
        } else {
            self.list.push(new_item);
        }
        if self.cursor.is_none() {
            self.cursor = Some(0);
        }
    }

    /// Remove the entry at `index`; hands back the process id that now has
    /// to be terminated, if the entry had one.
    pub fn delete_item(&mut self, index: usize) -> (r: Option<u32>)
        requires
            old(self).wf(),
            index < old(self).list@.len(),
        ensures
            final(self).wf(),
            final(self).list@ == old(self).list@.remove(index as int),
            r == old(self).list@[index as int].pid,
            final(self).cursor == (if final(self).list@.len() == 0 {
                None::<usize>
            } else if (index as int) < final(self).list@.len() {
                Some(index)
            } else {
                Some((index - 1) as usize)
            }),
    {
        let entry = self.list.remove(index);
        let len = self.list.len();
        if len == 0 {
            self.cursor = None;
        } else if index < len {
            self.cursor = Some(index);
        } else {
            self.cursor = Some(index - 1);
        }
        entry.pid
    }

    /// Forward cyclic move; a no-op on an empty list.
    fn select_next(&mut self)
        requires
            old(self).wf(),
        ensures
            final(self).wf(),
            final(self).list@ == old(self).list@,
            final(self).cursor == (match old(self).cursor {
                Some(c) => Some(
                    crate::filterable_list::next_cursor(
                        old(self).list@.len() as int,
                        c as int,
                    ) as usize,
                ),
                None => None::<usize>,
            }),
    {
        match self.cursor {
            Some(i) => {
                let len = self.list.len();
                let ni = if i + 1 == len {
                    0
                } else {
                    i + 1
                };
                self.cursor = Some(ni);
            },
            None => {},
        }
    }

    /// Backward cyclic move; a no-op on an empty list.
    fn select_prev(&mut self)
        requires
            old(self).wf(),
        ensures
            final(self).wf(),
            final(self).list@ == old(self).list@,
            final(self).cursor == (match old(self).cursor {
                Some(c) => Some(
                    crate::filterable_list::prev_cursor(
                        old(self).list@.len() as int,
                        c as int,
                    ) as usize,
                ),
                None => None::<usize>,
            }),
    {
        match self.cursor {
            Some(i) => {
                let len = self.list.len();
                let ni = if i == 0 {
                    len - 1
                } else {
                    i - 1
                };
                self.cursor = Some(ni);
            },
            None => {},
        }
    }

    /// The full effect of one key press on the view, together with the
    /// process id to terminate when a live entry was deleted.
    pub open spec fn key_transition(pre: Self, post: Self, key: Key, r: Option<u32>) -> bool {
        match key {
            Key::Char(ch) => {
                if ch == 'j' {
                    r is None && post.list@ == pre.list@ && post.cursor == Self::spec_next_of(pre)
                } else if ch == 'k' {
                    r is None && post.list@ == pre.list@ && post.cursor == Self::spec_prev_of(pre)
                } else if ch == 'd' {
                    match pre.cursor {
                        Some(c) => post.list@ == pre.list@.remove(c as int) && r == pre.list@[c
                            as int].pid,
                        None => post == pre && r is None,
                    }
                } else {
                    post == pre && r is None
                }
            },
            Key::Down => r is None && post.list@ == pre.list@ && post.cursor == Self::spec_next_of(
                pre,
            ),
            Key::Up => r is None && post.list@ == pre.list@ && post.cursor == Self::spec_prev_of(
                pre,
            ),
            _ => post == pre && r is None,
        }
    }

    /// Route one key press: move the selection, or delete the selected
    /// entry with `d`.  Hands back the process id to terminate when a live
    /// entry was deleted.
    pub fn handle_key_event(&mut self, key: Key) -> (r: Option<u32>)
        requires
            old(self).wf(),
        ensures
            final(self).wf(),
            Self::key_transition(*old(self), *final(self), key, r),
    {
        match key {
            Key::Char(ch) => {
                if ch == 'j' {
                    self.select_next();
                    None
                } else if ch == 'k' {
                    self.select_prev();
                    None
                } else if ch == 'd' {
                    match self.cursor {
                        Some(c) => self.delete_item(c),
                        None => None,
                    }
                } else {
                    None
                }
            },
            Key::Down => {
                self.select_next();
                None
            },
            Key::Up => {
                self.select_prev();
                None
            },
            _ => None,
        }
    }

    /// The cursor after a forward move.
    pub open spec fn spec_next_of(pre: Self) -> Option<usize> {
        match pre.cursor {
            Some(c) => Some(
                crate::filterable_list::next_cursor(pre.list@.len() as int, c as int) as usize,
            ),
            None => None,
        }
    }

    /// The cursor after a backward move.
    pub open spec fn spec_prev_of(pre: Self) -> Option<usize> {
        match pre.cursor {
            Some(c) => Some(
                crate::filterable_list::prev_cursor(pre.list@.len() as int, c as int) as usize,
            ),
            None => None,
        }
    }
}

} // verus!
