//! The generic filterable-list navigation primitive: an ordered collection
//! with substring filtering, cyclic selection and a filter-edit mode.  Every
//! list view of the dashboard (namespaces, pods, recent namespaces,
//! containers, port-forwards) is built on it.

use vstd::prelude::*;

use crate::cache::{restore_cursor, restore_cursor_exec, FilterableListCache, StateCache};
use crate::keys::Key;
use crate::text::{is_substring_of, lemma_empty_substring, str_contains_chars};

verus! {

/// `items` with the first item whose key equals `x` removed; unchanged when
/// no key equals `x`.
pub open spec fn remove_first_keyed<T: ListItem>(items: Seq<T>, x: Seq<char>) -> Seq<T>
    decreases items.len(),
{
    if items.len() == 0 {
        items
    } else if items[0].key_spec() == x {
        items.drop_first()
    } else {
        seq![items[0]].add(remove_first_keyed(items.drop_first(), x))
    }
}

/// `remove_first_keyed` really removes the first occurrence: when `i` is the
/// first position whose key is `x`, the result is `items` without position
/// `i`.
pub proof fn lemma_remove_first_keyed_at<T: ListItem>(items: Seq<T>, x: Seq<char>, i: int)
    requires
        0 <= i < items.len(),
        items[i].key_spec() == x,
        forall|j: int| 0 <= j < i ==> (#[trigger] items[j].key_spec()) != x,
    ensures
        remove_first_keyed(items, x) =~= items.remove(i),
    decreases i,
{
    if i == 0 {
        assert(items.drop_first() =~= items.remove(0));
    } else {
        lemma_remove_first_keyed_at(items.drop_first(), x, i - 1);
        assert(seq![items[0]].add(items.drop_first().remove(i - 1)) =~= items.remove(i));
    }
}

/// When no key equals `x`, `remove_first_keyed` removes nothing.
pub proof fn lemma_remove_first_keyed_absent<T: ListItem>(items: Seq<T>, x: Seq<char>)
    requires
        forall|j: int| 0 <= j < items.len() ==> (#[trigger] items[j].key_spec()) != x,
    ensures
        remove_first_keyed(items, x) =~= items,
    decreases items.len(),
{
    if items.len() > 0 {
        lemma_remove_first_keyed_absent(items.drop_first(), x);
        assert(seq![items[0]].add(items.drop_first()) =~= items);
    }
}

/// Recency ordering: removing key `x` from a list whose keys are distinct
/// leaves only items drawn from the original, none keyed `x`, with keys
/// still distinct.  Prepending an item keyed `x` in front therefore yields
/// a duplicate-free list with the newest occurrence first.
pub proof fn lemma_promote_no_duplicates<T: ListItem>(items: Seq<T>, x: Seq<char>)
    requires
        forall|i: int, j: int|
            0 <= i < j < items.len() ==> items[i].key_spec() != items[j].key_spec(),
    ensures
        forall|i: int|
            0 <= i < remove_first_keyed(items, x).len() ==> (#[trigger] remove_first_keyed(
                items,
                x,
            )[i].key_spec()) != x,
        forall|i: int, j: int|
            0 <= i < j < remove_first_keyed(items, x).len() ==> remove_first_keyed(
                items,
                x,
            )[i].key_spec() != remove_first_keyed(items, x)[j].key_spec(),
        forall|i: int|
            0 <= i < remove_first_keyed(items, x).len() ==> exists|j: int|
                0 <= j < items.len() && #[trigger] remove_first_keyed(items, x)[i] == items[j],
    decreases items.len(),
{
    let r = remove_first_keyed(items, x);
    if items.len() == 0 {
    } else if items[0].key_spec() == x {
        assert forall|i: int| 0 <= i < r.len() implies exists|j: int|
            0 <= j < items.len() && #[trigger] r[i] == items[j] by {
            assert(r[i] == items[i + 1]);
        }
    } else {
        lemma_promote_no_duplicates(items.drop_first(), x);
        let rr = remove_first_keyed(items.drop_first(), x);
        assert forall|i: int| 0 <= i < r.len() implies exists|j: int|
            0 <= j < items.len() && #[trigger] r[i] == items[j] by {
            if i == 0 {
                assert(r[0] == items[0]);
            } else {
                assert(r[i] == rr[i - 1]);
                let j = choose|j: int| 0 <= j < items.drop_first().len() && rr[i - 1]
                    == items.drop_first()[j];
                assert(r[i] == items[j + 1]);
            }
        }
        assert forall|i: int, j: int| 0 <= i < j < r.len() implies r[i].key_spec()
            != r[j].key_spec() by {
            if i == 0 {
                let w = choose|w: int| 0 <= w < items.drop_first().len() && rr[j - 1]
                    == items.drop_first()[w];
                assert(r[j] == items[w + 1]);
                assert(items[0].key_spec() != items[w + 1].key_spec());
            } else {
                assert(r[i] == rr[i - 1] && r[j] == rr[j - 1]);
            }
        }
    }
}

/// An item that a [`FilterableList`] can hold: it only needs a display key,
/// the text by which it is shown and filtered.
pub trait ListItem {
    /// The display key as a character sequence.
    spec fn key_spec(&self) -> Seq<char>;

    /// The display key, as executable text.
    fn key(&self) -> (k: &str)
        ensures
            k@ == self.key_spec(),
    ;
}

impl ListItem for String {
    open spec fn key_spec(&self) -> Seq<char> {
        self@
    }

    fn key(&self) -> (k: &str) {
        self.as_str()
    }
}

/// The display keys of a sequence of items.
pub open spec fn keys_of<T: ListItem>(items: Seq<T>) -> Seq<Seq<char>> {
    items.map(|i: int, t: T| t.key_spec())
}

/// The indices, in order, of exactly those keys that contain `filter` as a
/// substring.  An empty filter matches every key, so it yields the identity
/// sequence.
pub open spec fn filtered_indices(keys: Seq<Seq<char>>, filter: Seq<char>) -> Seq<usize>
    decreases keys.len(),
{
    if keys.len() == 0 {
        Seq::empty()
    } else {
        let prefix = filtered_indices(keys.drop_last(), filter);
        if is_substring_of(filter, keys.last()) {
            prefix.push((keys.len() - 1) as usize)
        } else {
            prefix
        }
    }
}

/// Filter correctness: `filtered_indices` lists, in strictly increasing
/// order, exactly the positions whose key contains the filter.
pub proof fn lemma_filtered_indices_characterize(keys: Seq<Seq<char>>, filter: Seq<char>)
    requires
        keys.len() <= usize::MAX,
    ensures
        forall|p: int| 0 <= p < filtered_indices(keys, filter).len() ==> (
            #[trigger] filtered_indices(keys, filter)[p]) < keys.len(),
        forall|p: int, q: int|
            0 <= p < q < filtered_indices(keys, filter).len() ==> filtered_indices(keys, filter)[p]
                < filtered_indices(keys, filter)[q],
        forall|p: int| 0 <= p < filtered_indices(keys, filter).len() ==> is_substring_of(
            filter,
            keys[(#[trigger] filtered_indices(keys, filter)[p]) as int],
        ),
        forall|k: int|
            0 <= k < keys.len() && is_substring_of(filter, keys[k]) ==> filtered_indices(
                keys,
                filter,
            ).contains(k as usize),
    decreases keys.len(),
{
    if keys.len() > 0 {
        let prefix_keys = keys.drop_last();
        lemma_filtered_indices_characterize(prefix_keys, filter);
        let prefix = filtered_indices(prefix_keys, filter);
        let whole = filtered_indices(keys, filter);
        assert(forall|k: int| 0 <= k < prefix_keys.len() ==> prefix_keys[k] == keys[k]);
        assert forall|k: int|
            0 <= k < keys.len() && is_substring_of(filter, keys[k]) implies whole.contains(
            k as usize,
        ) by {
            if k < keys.len() - 1 {
                assert(prefix.contains(k as usize));
                let w = choose|w: int| 0 <= w < prefix.len() && prefix[w] == k as usize;
                assert(whole[w] == k as usize);
            } else {
                assert(whole.last() == k as usize);
            }
        }
    }
}

/// An empty filter yields the identity sequence over the keys.
pub proof fn lemma_empty_filter_identity(keys: Seq<Seq<char>>, filter: Seq<char>)
    requires
        filter.len() == 0,
        keys.len() <= usize::MAX,
    ensures
        filtered_indices(keys, filter) =~= Seq::new(keys.len(), |i: int| i as usize),
    decreases keys.len(),
{
    assert(filter =~= Seq::<char>::empty());
    if keys.len() > 0 {
        lemma_empty_filter_identity(keys.drop_last(), filter);
        lemma_empty_substring(keys.last());
    }
}

/// Cyclic successor of cursor position `c` in a list of length `len`.
pub open spec fn next_cursor(len: int, c: int) -> int {
    if c + 1 == len {
        0
    } else {
        c + 1
    }
}

/// Cyclic predecessor of cursor position `c` in a list of length `len`.
pub open spec fn prev_cursor(len: int, c: int) -> int {
    if c == 0 {
        len - 1
    } else {
        c - 1
    }
}

/// Moving back is the exact inverse of moving forward, and vice versa.
pub proof fn lemma_prev_inverts_next(len: int, c: int)
    requires
        0 <= c < len,
    ensures
        prev_cursor(len, next_cursor(len, c)) == c,
        next_cursor(len, prev_cursor(len, c)) == c,
{
}

/// The cursor after `k` forward moves from position `c`.
pub open spec fn iterate_next(len: int, c: int, k: nat) -> int
    decreases k,
{
    if k == 0 {
        c
    } else {
        next_cursor(len, iterate_next(len, c, (k - 1) as nat))
    }
}

/// Closed form of `iterate_next` for up to one full cycle.
pub proof fn lemma_iterate_next_value(len: int, c: int, k: nat)
    requires
        0 <= c < len,
        k <= len,
    ensures
        iterate_next(len, c, k) == if c + k < len {
            c + k
        } else {
            c + k - len
        },
    decreases k,
{
    if k > 0 {
        lemma_iterate_next_value(len, c, (k - 1) as nat);
    }
}

/// Cyclic navigation: `len` forward moves return the cursor to where it
/// started.
pub proof fn lemma_select_next_cycle(len: int, c: int)
    requires
        0 <= c < len,
    ensures
        iterate_next(len, c, len as nat) == c,
{
    lemma_iterate_next_value(len, c, len as nat);
}

/// The cursor value after a list mutation: the first match when anything
/// matches, unset when nothing does.
pub open spec fn cursor_reset(len: nat) -> Option<usize> {
    if len > 0 {
        Some(0usize)
    } else {
        None
    }
}

/// What a list keystroke produced: the position (into the full item list) of
/// an activated item, or a quit request.
#[derive(Clone, Copy, Debug, PartialEq, Eq, Structural)]
pub enum ListEvent {
    SelectedItem(usize),
    Quit,
}

/// An ordered collection with substring filtering and cyclic selection.
///
/// Well-formed values (see [`Self::wf`]) keep `filtered_list` equal to the
/// filter's matches recomputed from `list` and `filter`, and keep `cursor`
/// inside `filtered_list` (unset exactly when nothing matches).
pub struct FilterableList<T> {
    /// All items, in order; recency lists keep the newest first.
    pub list: Vec<T>,
    /// Indices into `list` of the items the filter currently keeps.
    pub filtered_list: Vec<usize>,
    /// The filter text.
    pub filter: Vec<char>,
    /// Whether keystrokes currently edit the filter.
    pub is_filter_mod: bool,
    /// Position of the selection within `filtered_list`, if any.
    pub cursor: Option<usize>,
    /// Whether filter editing may be entered at all.
    pub is_filterable: bool,
    /// The title under which the list is displayed.
    pub list_name: String,
}

impl<T: ListItem> FilterableList<T> {
    /// The invariant: the filtered indices are exactly the recomputed
    /// matches, and the cursor is a valid position among them.
    pub open spec fn wf(&self) -> bool {
        &&& self.filtered_list@ == filtered_indices(keys_of(self.list@), self.filter@)
        &&& match self.cursor {
            Some(c) => (c as int) < self.filtered_list@.len(),
            None => self.filtered_list@.len() == 0,
        }
    }

    /// The state after a forward cursor move.
    pub open spec fn spec_select_next(pre: Self) -> Self {
        match pre.cursor {
            Some(c) => (Self {
                cursor: Some(next_cursor(pre.filtered_list@.len() as int, c as int) as usize),
                ..pre
            }),
            None => pre,
        }
    }

    /// The state after a backward cursor move.
    pub open spec fn spec_select_prev(pre: Self) -> Self {
        match pre.cursor {
            Some(c) => (Self {
                cursor: Some(prev_cursor(pre.filtered_list@.len() as int, c as int) as usize),
                ..pre
            }),
            None => pre,
        }
    }

    /// `post` is `pre` with the filter set to `new_filter`, edit mode set to
    /// `edit`, the matches recomputed and the cursor reset to the first
    /// match.
    pub open spec fn filter_recomputed(
        pre: Self,
        post: Self,
        new_filter: Seq<char>,
        edit: bool,
    ) -> bool {
        &&& post.list@ == pre.list@
        &&& post.is_filterable == pre.is_filterable
        &&& post.list_name@ == pre.list_name@
        &&& post.filter@ == new_filter
        &&& post.is_filter_mod == edit
        &&& post.filtered_list@ == filtered_indices(keys_of(pre.list@), new_filter)
        &&& post.cursor == cursor_reset(post.filtered_list@.len())
    }

    /// An empty list with the given title.
    pub fn new(list_name: String, is_filterable: bool) -> (r: Self)
        ensures
            r.wf(),
            r.list@.len() == 0,
            r.filter@.len() == 0,
            r.filtered_list@.len() == 0,
            r.cursor is None,
            r.is_filter_mod == false,
            r.is_filterable == is_filterable,
            r.list_name@ == list_name@,
    {
        let r = FilterableList {
            list: Vec::new(),
            filtered_list: Vec::new(),
            filter: Vec::new(),
            is_filter_mod: false,
            cursor: None,
            is_filterable,
            list_name,
        };
        proof {
            assert(keys_of(r.list@) =~= Seq::<Seq<char>>::empty());
        }
        r
    }

    /// Recompute the matches from `list` and `filter` and reset the cursor
    /// to the first match.  Establishes well-formedness unconditionally.
    fn refilter(&mut self)
        ensures
            final(self).wf(),
            Self::filter_recomputed(
                *old(self),
                *final(self),
                old(self).filter@,
                old(self).is_filter_mod,
            ),
            final(self).filter == old(self).filter,
            final(self).list == old(self).list,
            final(self).list_name == old(self).list_name,
    {
        self.filtered_list = compute_filtered(&self.list, &self.filter);
        if self.filtered_list.len() > 0 {
            self.cursor = Some(0);
        } else {
            self.cursor = None;
        }
    }

    /// Replace the items: the filter is cleared, the matches become the
    /// identity order and the cursor lands on the first item if any.
    pub fn set_items(&mut self, new_list: Vec<T>)
        ensures
            final(self).wf(),
            final(self).list@ == new_list@,
            final(self).filter@.len() == 0,
            final(self).is_filter_mod == old(self).is_filter_mod,
            final(self).is_filterable == old(self).is_filterable,
            final(self).list_name@ == old(self).list_name@,
            final(self).filtered_list@ =~= Seq::new(new_list@.len(), |i: int| i as usize),
            final(self).cursor == cursor_reset(new_list@.len()),
    {
        let ghost n = new_list@.len();
        self.list = new_list;
        self.filter = Vec::new();
        let list_len = self.list.len();
        self.refilter();
        proof {
            assert(keys_of(self.list@).len() == list_len);
            lemma_empty_filter_identity(keys_of(self.list@), self.filter@);
            assert(self.filtered_list@ =~= Seq::new(n, |i: int| i as usize));
        }
    }

    /// Insert an item at the front (most-recently-used position), keep the
    /// filter and recompute the matches.
    pub fn append_to_list(&mut self, new_item: T)
        ensures
            final(self).wf(),
            final(self).list@ == seq![new_item].add(old(self).list@),
            Self::filter_recomputed(
                *final(self),
                *final(self),
                old(self).filter@,
                old(self).is_filter_mod,
            ),
            final(self).filter@ == old(self).filter@,
            final(self).is_filter_mod == old(self).is_filter_mod,
            final(self).is_filterable == old(self).is_filterable,
            final(self).list_name@ == old(self).list_name@,
            final(self).cursor == cursor_reset(final(self).filtered_list@.len()),
    {
        self.list.insert(0, new_item);
        self.refilter();
        proof {
            assert(self.list@ =~= seq![self.list@[0]].add(old(self).list@));
        }
    }

    /// Move `new_item` to the front as the most recent entry: the first
    /// existing item with the same key is removed, then the item is
    /// prepended, so a key occurs at most as often as before.
    pub fn promote(&mut self, new_item: T)
        ensures
            final(self).wf(),
            final(self).list@ == seq![new_item].add(
                remove_first_keyed(old(self).list@, new_item.key_spec()),
            ),
            Self::filter_recomputed(
                *final(self),
                *final(self),
                old(self).filter@,
                old(self).is_filter_mod,
            ),
            final(self).filter@ == old(self).filter@,
            final(self).is_filter_mod == old(self).is_filter_mod,
            final(self).is_filterable == old(self).is_filterable,
            final(self).list_name@ == old(self).list_name@,
            final(self).cursor == cursor_reset(final(self).filtered_list@.len()),
    {
        let n: usize = self.list.len();
        let mut i: usize = 0;
        let mut found: Option<usize> = None;
        while i < n
            invariant
                n == self.list@.len(),
                i <= n,
                match found {
                    Some(f) => (f as int) < i && self.list@[f as int].key_spec()
                        == new_item.key_spec() && (forall|j: int|
                        0 <= j < f ==> (#[trigger] self.list@[j].key_spec())
                            != new_item.key_spec()),
                    None => forall|j: int|
                        0 <= j < i ==> (#[trigger] self.list@[j].key_spec())
                            != new_item.key_spec(),
                },
            decreases n - i,
        {
            if found.is_none() {
                if crate::text::str_eq(self.list[i].key(), new_item.key()) {
                    found = Some(i);
                }
            }
            i += 1;
        }
        proof {
            match found {
                Some(f) => lemma_remove_first_keyed_at(self.list@, new_item.key_spec(), f as int),
                None => lemma_remove_first_keyed_absent(self.list@, new_item.key_spec()),
            }
        }
        match found {
            Some(f) => {
                let _ = self.list.remove(f);
            },
            None => {},
        }
        self.list.insert(0, new_item);
        self.refilter();
        proof {
            assert(self.list@ =~= seq![self.list@[0]].add(
                remove_first_keyed(old(self).list@, self.list@[0].key_spec()),
            ));
        }
    }

    /// Forward cyclic move; a no-op on an empty filtered list.
    pub fn select_next(&mut self)
        requires
            old(self).wf(),
        ensures
            final(self).wf(),
            *final(self) == Self::spec_select_next(*old(self)),
    {
        match self.cursor {
            Some(i) => {
                let len = self.filtered_list.len();
                let ni = if i + 1 == len {
                    0
                } else {
                    i + 1
                };
                self.cursor = Some(ni);
            },
            None => {},
        }
    }

    /// Backward cyclic move; a no-op on an empty filtered list.
    pub fn select_prev(&mut self)
        requires
            old(self).wf(),
        ensures
            final(self).wf(),
            *final(self) == Self::spec_select_prev(*old(self)),
    {
        match self.cursor {
            Some(i) => {
                let len = self.filtered_list.len();
                let ni = if i == 0 {
                    len - 1
                } else {
                    i - 1
                };
                self.cursor = Some(ni);
            },
            None => {},
        }
    }

    /// Enter filter-edit mode, if this list allows filtering at all.
    pub fn begin_filter_edit(&mut self)
        requires
            old(self).wf(),
        ensures
            final(self).wf(),
            old(self).is_filterable ==> *final(self) == (Self {
                is_filter_mod: true,
                ..*old(self)
            }),
            !old(self).is_filterable ==> *final(self) == *old(self),
    {
        if self.is_filterable {
            self.is_filter_mod = true;
        }
    }

    /// Append a character to the filter text.
    pub fn filter_push(&mut self, ch: char)
        ensures
            final(self).wf(),
            Self::filter_recomputed(
                *old(self),
                *final(self),
                old(self).filter@.push(ch),
                old(self).is_filter_mod,
            ),
    {
        self.filter.push(ch);
        self.refilter();
    }

    /// Remove the last character of the filter text, if any.
    pub fn filter_backspace(&mut self)
        ensures
            final(self).wf(),
            Self::filter_recomputed(
                *old(self),
                *final(self),
                if old(self).filter@.len() > 0 {
                    old(self).filter@.drop_last()
                } else {
                    old(self).filter@
                },
                old(self).is_filter_mod,
            ),
    {
        let _ = self.filter.pop();
        self.refilter();
    }

    /// Leave filter-edit mode, keeping the filter text and the matches;
    /// the cursor returns to the first match.
    pub fn filter_commit(&mut self)
        requires
            old(self).wf(),
        ensures
            final(self).wf(),
            final(self).list@ == old(self).list@,
            final(self).filter@ == old(self).filter@,
            final(self).filtered_list@ == old(self).filtered_list@,
            final(self).is_filterable == old(self).is_filterable,
            final(self).list_name@ == old(self).list_name@,
            final(self).is_filter_mod == false,
            final(self).cursor == cursor_reset(old(self).filtered_list@.len()),
    {
        self.is_filter_mod = false;
        if self.filtered_list.len() > 0 {
            self.cursor = Some(0);
        } else {
            self.cursor = None;
        }
    }

    /// Leave filter-edit mode and clear the filter: all items match again.
    pub fn filter_cancel(&mut self)
        ensures
            final(self).wf(),
            Self::filter_recomputed(*old(self), *final(self), Seq::<char>::empty(), false),
    {
        self.filter = Vec::new();
        self.is_filter_mod = false;
        self.refilter();
    }

    /// The position (into `list`) of the currently selected item, if any.
    pub fn selected_item_index(&self) -> (r: Option<usize>)
        requires
            self.wf(),
        ensures
            match r {
                Some(idx) => self.cursor is Some && idx == self.filtered_list@[self.cursor.unwrap()
                    as int] && (idx as int) < self.list@.len(),
                None => self.filtered_list@.len() == 0,
            },
    {
        match self.cursor {
            Some(c) => {
                let n = self.list.len();
                proof {
                    lemma_filtered_indices_characterize(keys_of(self.list@), self.filter@);
                }
                Some(self.filtered_list[c])
            },
            None => None,
        }
    }

    /// The currently selected item, or nothing when the filtered list is
    /// empty.  Never mutates.
    pub fn activate(&self) -> (r: Option<&T>)
        requires
            self.wf(),
        ensures
            match r {
                Some(item) => self.cursor is Some && *item == self.list@[self.filtered_list@[self.cursor.unwrap() as int] as int],
                None => self.filtered_list@.len() == 0,
            },
    {
        match self.selected_item_index() {
            Some(idx) => Some(&self.list[idx]),
            None => None,
        }
    }

    /// The full effect of one key press on a list: `post` and `ev` are what
    /// [`Self::handle_key`] leaves and returns when applied to `pre`.
    pub open spec fn key_transition(pre: Self, post: Self, key: Key, ev: Option<ListEvent>) -> bool {
        &&& post.list@ == pre.list@
        &&& post.is_filterable == pre.is_filterable
        &&& post.list_name@ == pre.list_name@
        &&& (pre.is_filter_mod ==> ev is None && (match key {
            Key::Enter => {
                &&& post.filter@ == pre.filter@
                &&& post.filtered_list@ == pre.filtered_list@
                &&& post.is_filter_mod == false
                &&& post.cursor == cursor_reset(pre.filtered_list@.len())
            },
            Key::Esc => Self::filter_recomputed(pre, post, Seq::<char>::empty(), false),
            Key::Backspace => Self::filter_recomputed(
                pre,
                post,
                if pre.filter@.len() > 0 {
                    pre.filter@.drop_last()
                } else {
                    pre.filter@
                },
                true,
            ),
            Key::Char(ch) => Self::filter_recomputed(pre, post, pre.filter@.push(ch), true),
            _ => post == pre,
        }))
        &&& (!pre.is_filter_mod ==> (match key {
            Key::Char(ch) => {
                if ch == '/' {
                    &&& ev is None
                    &&& pre.is_filterable ==> post == (Self { is_filter_mod: true, ..pre })
                    &&& !pre.is_filterable ==> post == pre
                } else if ch == 'j' {
                    ev is None && post == Self::spec_select_next(pre)
                } else if ch == 'k' {
                    ev is None && post == Self::spec_select_prev(pre)
                } else if ch == 'q' {
                    ev == Some(ListEvent::Quit) && post == pre
                } else {
                    ev is None && post == pre
                }
            },
            Key::Down => ev is None && post == Self::spec_select_next(pre),
            Key::Up => ev is None && post == Self::spec_select_prev(pre),
            Key::Enter => post == pre && (match pre.cursor {
                Some(c) => ev == Some(ListEvent::SelectedItem(pre.filtered_list@[c as int])),
                None => ev is None,
            }),
            _ => ev is None && post == pre,
        }))
    }

    /// Route one key press.  In filter-edit mode keys edit the filter and
    /// never produce an event; otherwise they move the cursor, enter
    /// filter-edit mode, activate the selection or request quitting.
    pub fn handle_key(&mut self, key: Key) -> (ev: Option<ListEvent>)
        requires
            old(self).wf(),
        ensures
            final(self).wf(),
            Self::key_transition(*old(self), *final(self), key, ev),
    {
        if self.is_filter_mod {
            match key {
                Key::Enter => {
                    self.filter_commit();
                },
                Key::Esc => {
                    self.filter_cancel();
                },
                Key::Backspace => {
                    self.filter_backspace();
                },
                Key::Char(ch) => {
                    self.filter_push(ch);
                },
                _ => {},
            }
            return None;
        }
        match key {
            Key::Char(ch) => {
                if ch == '/' {
                    self.begin_filter_edit();
                    None
                } else if ch == 'j' {
                    self.select_next();
                    None
                } else if ch == 'k' {
                    self.select_prev();
                    None
                } else if ch == 'q' {
                    Some(ListEvent::Quit)
                } else {
                    None
                }
            },
            Key::Down => {
                self.select_next();
                None
            },
            Key::Up => {
                self.select_prev();
                None
            },
            Key::Enter => {
                match self.selected_item_index() {
                    Some(idx) => Some(ListEvent::SelectedItem(idx)),
                    None => None,
                }
            },
            _ => None,
        }
    }
    /// `c` is the persisted form of the list `l`: every field carried over.
    pub open spec fn cached_as(l: Self, c: FilterableListCache<T>) -> bool {
        &&& c.list == l.list
        &&& c.state.selected == l.cursor
        &&& c.list_name == l.list_name
        &&& c.is_filterable == l.is_filterable
        &&& c.filtered_list == l.filtered_list
        &&& c.filter == l.filter
        &&& c.is_filter_mod == l.is_filter_mod
    }

    /// `l` is the list brought back from the persisted form `c`: items and
    /// filter carried over, the matches recomputed (never trusted from the
    /// snapshot), and the cursor restored where still valid.
    pub open spec fn restored_from(c: FilterableListCache<T>, l: Self) -> bool {
        &&& l.list == c.list
        &&& l.filter == c.filter
        &&& l.is_filter_mod == c.is_filter_mod
        &&& l.is_filterable == c.is_filterable
        &&& l.list_name == c.list_name
        &&& l.filtered_list@ == filtered_indices(keys_of(c.list@), c.filter@)
        &&& l.cursor == restore_cursor(c.state.selected, l.filtered_list@.len())
    }

    /// The persisted form of this list.
    pub fn to_cache(self) -> (c: FilterableListCache<T>)
        ensures
            Self::cached_as(self, c),
    {
        FilterableListCache {
            list: self.list,
            state: StateCache { selected: self.cursor },
            list_name: self.list_name,
            is_filterable: self.is_filterable,
            filtered_list: self.filtered_list,
            filter: self.filter,
            is_filter_mod: self.is_filter_mod,
        }
    }

    /// Bring a list back from its persisted form.
    pub fn from_cache(c: FilterableListCache<T>) -> (r: Self)
        ensures
            r.wf(),
            Self::restored_from(c, r),
    {
        let filtered = compute_filtered(&c.list, &c.filter);
        let cursor = restore_cursor_exec(c.state.selected, filtered.len());
        FilterableList {
            list: c.list,
            filtered_list: filtered,
            filter: c.filter,
            is_filter_mod: c.is_filter_mod,
            cursor,
            is_filterable: c.is_filterable,
            list_name: c.list_name,
        }
    }
}

/// Round-trip persistence of one list: saving a well-formed list and
/// loading it back restores every field (the matches by recomputation, the
/// cursor because it was valid).
pub proof fn lemma_list_cache_round_trip<T: ListItem>(
    pre: FilterableList<T>,
    c: FilterableListCache<T>,
    post: FilterableList<T>,
)
    requires
        pre.wf(),
        FilterableList::cached_as(pre, c),
        FilterableList::restored_from(c, post),
    ensures
        post.list@ == pre.list@,
        post.filter@ == pre.filter@,
        post.filtered_list@ == pre.filtered_list@,
        post.cursor == pre.cursor,
        post.is_filter_mod == pre.is_filter_mod,
        post.is_filterable == pre.is_filterable,
        post.list_name@ == pre.list_name@,
{
}

/// The indices of the items of `list` whose key contains `filter`.
fn compute_filtered<T: ListItem>(list: &Vec<T>, filter: &Vec<char>) -> (r: Vec<usize>)
    ensures
        r@ == filtered_indices(keys_of(list@), filter@),
{
    let mut r: Vec<usize> = Vec::new();
    let n: usize = list.len();
    let mut i: usize = 0;
    while i < n
        invariant
            n == list@.len(),
            i <= n,
            r@ == filtered_indices(keys_of(list@).take(i as int), filter@),
        decreases n - i,
    {
        let item_key: &str = list[i].key();
        if str_contains_chars(item_key, filter) {
            r.push(i);
        }
        proof {
            let ks = keys_of(list@);
            assert(ks.take(i + 1).drop_last() =~= ks.take(i as int));
            assert(ks.take(i + 1).last() == ks[i as int]);
        }
        i += 1;
    }
    proof {
        assert(keys_of(list@).take(n as int) =~= keys_of(list@));
    }
    r
}

} // verus!
