//! The port-forward picker that opens on a pod: choose a container, then
//! type the local port (digits only) and confirm.  Includes the verified
//! decimal rendering and parsing of port numbers.

use vstd::prelude::*;

use crate::cache::PortForwardPopupCache;
use crate::filterable_list::{
    keys_of, lemma_filtered_indices_characterize, FilterableList, ListEvent,
};
use crate::keys::Key;
use crate::pods::PodContainer;

verus! {

/// `c` is a decimal digit.
pub open spec fn is_digit_char(c: char) -> bool {
    c == '0' || c == '1' || c == '2' || c == '3' || c == '4' || c == '5' || c == '6' || c == '7'
        || c == '8' || c == '9'
}

/// The numeric value of a digit character (and 9 for anything else, which
/// keeps the function total and nonnegative).
pub open spec fn digit_val(c: char) -> int {
    if c == '0' {
        0
    } else if c == '1' {
        1
    } else if c == '2' {
        2
    } else if c == '3' {
        3
    } else if c == '4' {
        4
    } else if c == '5' {
        5
    } else if c == '6' {
        6
    } else if c == '7' {
        7
    } else if c == '8' {
        8
    } else {
        9
    }
}

/// The digit character for a value below ten (and '9' for anything else).
pub open spec fn digit_char(d: int) -> char {
    if d == 0 {
        '0'
    } else if d == 1 {
        '1'
    } else if d == 2 {
        '2'
    } else if d == 3 {
        '3'
    } else if d == 4 {
        '4'
    } else if d == 5 {
        '5'
    } else if d == 6 {
        '6'
    } else if d == 7 {
        '7'
    } else if d == 8 {
        '8'
    } else {
        '9'
    }
}

/// Every character of `s` is a decimal digit.
pub open spec fn all_digits(s: Seq<char>) -> bool {
    forall|i: int| 0 <= i < s.len() ==> is_digit_char(s[i])
}

/// The number that the digit string `s` denotes in base ten.
pub open spec fn digits_value(s: Seq<char>) -> int
    decreases s.len(),
{
    if s.len() == 0 {
        0
    } else {
        digits_value(s.drop_last()) * 10 + digit_val(s.last())
    }
}

/// The canonical decimal rendering of a nonnegative number.
pub open spec fn spec_digits_of(n: int) -> Seq<char>
    recommends
        0 <= n,
    decreases n,
    when n >= 0
{
    if n < 10 {
        seq![digit_char(n)]
    } else {
        spec_digits_of(n / 10).push(digit_char(n % 10))
    }
}

/// A digit string never denotes a negative number.
pub proof fn lemma_digits_value_nonneg(s: Seq<char>)
    ensures
        digits_value(s) >= 0,
    decreases s.len(),
{
    if s.len() > 0 {
        lemma_digits_value_nonneg(s.drop_last());
    }
}

/// A digit string denotes at least as much as any of its prefixes.
pub proof fn lemma_digits_value_prefix_le(s: Seq<char>, i: int)
    requires
        0 <= i <= s.len(),
    ensures
        digits_value(s.take(i)) <= digits_value(s),
    decreases s.len() - i,
{
    if i < s.len() {
        lemma_digits_value_nonneg(s.take(i));
        assert(s.take(i + 1).drop_last() =~= s.take(i));
        assert(s.take(i + 1).last() == s[i]);
        lemma_digits_value_prefix_le(s, i + 1);
    } else {
        assert(s.take(i) =~= s);
    }
}

/// Rendering a number and reading the digits back yields the number.
pub proof fn lemma_digits_round_trip(n: int)
    requires
        0 <= n,
    ensures
        all_digits(spec_digits_of(n)),
        spec_digits_of(n).len() > 0,
        digits_value(spec_digits_of(n)) == n,
    decreases n,
{
    if n < 10 {
        let s = seq![digit_char(n)];
        assert(s.drop_last() =~= Seq::<char>::empty());
        assert(digits_value(s.drop_last()) == 0);
        assert(digits_value(s) == digit_val(digit_char(n)));
    } else {
        lemma_digits_round_trip(n / 10);
        let prefix = spec_digits_of(n / 10);
        assert(prefix.push(digit_char(n % 10)).drop_last() =~= prefix);
        assert(prefix.push(digit_char(n % 10)).last() == digit_char(n % 10));
        assert(0 <= n % 10 < 10);
        assert(digit_val(digit_char(n % 10)) == n % 10);
        assert(digits_value(spec_digits_of(n)) == digits_value(prefix) * 10 + n % 10);
        vstd::arithmetic::div_mod::lemma_fundamental_div_mod(n, 10);
        assert(n == 10 * (n / 10) + n % 10);
    }
}

/// The digit character `c` stands for, or nothing when `c` is no digit.
fn digit_of(c: char) -> (r: Option<u32>)
    ensures
        match r {
            Some(d) => is_digit_char(c) && d as int == digit_val(c) && d <= 9,
            None => !is_digit_char(c),
        },
{
    match c {
        '0' => Some(0),
        '1' => Some(1),
        '2' => Some(2),
        '3' => Some(3),
        '4' => Some(4),
        '5' => Some(5),
        '6' => Some(6),
        '7' => Some(7),
        '8' => Some(8),
        '9' => Some(9),
        _ => None,
    }
}

/// The digit character for a value below ten, executable form.
fn digit_char_exec(d: u16) -> (c: char)
    requires
        d < 10,
    ensures
        c == digit_char(d as int),
{
    match d {
        0 => '0',
        1 => '1',
        2 => '2',
        3 => '3',
        4 => '4',
        5 => '5',
        6 => '6',
        7 => '7',
        8 => '8',
        _ => '9',
    }
}

/// The decimal rendering of a port number.
pub fn u16_to_digits(n: u16) -> (r: Vec<char>)
    ensures
        r@ == spec_digits_of(n as int),
    decreases n,
{
    if n < 10 {
        let mut v: Vec<char> = Vec::new();
        v.push(digit_char_exec(n));
        proof {
            assert(v@ =~= seq![digit_char(n as int)]);
        }
        v
    } else {
        let mut v = u16_to_digits(n / 10);
        v.push(digit_char_exec(n % 10));
        v
    }
}

/// Parse a typed port: the value of the digit string when it is nonempty,
/// all digits, and in range for a port number; nothing otherwise.
pub fn parse_port(digits: &Vec<char>) -> (r: Option<u16>)
    ensures
        match r {
            Some(v) => digits@.len() > 0 && all_digits(digits@) && digits_value(digits@) == v as int,
            None => digits@.len() == 0 || !all_digits(digits@) || digits_value(digits@)
                > u16::MAX,
        },
{
    let n: usize = digits.len();
    if n == 0 {
        return None;
    }
    let mut acc: u32 = 0;
    let mut i: usize = 0;
    while i < n
        invariant
            n == digits@.len(),
            i <= n,
            acc as int == digits_value(digits@.take(i as int)),
            acc <= 65535,
            all_digits(digits@.take(i as int)),
        decreases n - i,
    {
        let d = match digit_of(digits[i]) {
            Some(d) => d,
            None => {
                assert(!is_digit_char(digits@[i as int]));
                return None;
            },
        };
        let next: u32 = acc * 10 + d;
        proof {
            assert(digits@.take(i + 1).drop_last() =~= digits@.take(i as int));
            assert(digits@.take(i + 1).last() == digits@[i as int]);
        }
        if next > 65535 {
            proof {
                lemma_digits_value_prefix_le(digits@, i + 1);
            }
            return None;
        }
        acc = next;
        i += 1;
    }
    proof {
        assert(digits@.take(n as int) =~= digits@);
    }
    Some(acc as u16)
}

/// What a popup keystroke decided: request a forward, or close the popup.
#[derive(Clone, Copy, Debug, PartialEq, Eq, Structural)]
pub enum PortForwardPopupAction {
    PortForward { local_port: u16, app_port: u16 },
    Quit,
}

/// The picker shown over the pod table: first a container list, then a
/// digits-only input for the local port.
pub struct PortForwardPopup {
    /// The local-port input buffer (digit characters only).
    pub port: Vec<char>,
    /// The containers of the pod the picker was opened on.
    pub pod_containers_list: FilterableList<PodContainer>,
    /// The chosen container, once one was activated.
    pub selected_container: Option<PodContainer>,
}

impl PortForwardPopup {
    pub open spec fn wf(&self) -> bool {
        self.pod_containers_list.wf()
    }

    /// The full effect of one key press on the popup.
    pub open spec fn key_transition(
        pre: Self,
        post: Self,
        key: Key,
        act: Option<PortForwardPopupAction>,
    ) -> bool {
        match pre.selected_container {
            Some(container) => {
                &&& post.selected_container == pre.selected_container
                &&& post.pod_containers_list == pre.pod_containers_list
                &&& (match key {
                    Key::Char(ch) => act is None && (if is_digit_char(ch) {
                        post.port@ == pre.port@.push(ch)
                    } else {
                        post.port@ == pre.port@
                    }),
                    Key::Backspace => act is None && post.port@ == (if pre.port@.len() > 0 {
                        pre.port@.drop_last()
                    } else {
                        pre.port@
                    }),
                    Key::Enter => post.port@ == pre.port@ && (if pre.port@.len() > 0
                        && all_digits(pre.port@) && digits_value(pre.port@) <= u16::MAX {
                        act == Some(
                            PortForwardPopupAction::PortForward {
                                local_port: digits_value(pre.port@) as u16,
                                app_port: container.port,
                            },
                        )
                    } else {
                        act is None
                    }),
                    Key::Esc => post.port@ == pre.port@ && act == Some(
                        PortForwardPopupAction::Quit,
                    ),
                    _ => post.port@ == pre.port@ && act is None,
                })
            },
            None => exists|ev: Option<ListEvent>|
                {
                    &&& #[trigger] FilterableList::key_transition(
                        pre.pod_containers_list,
                        post.pod_containers_list,
                        key,
                        ev,
                    )
                    &&& (match ev {
                        Some(ListEvent::Quit) => act == Some(PortForwardPopupAction::Quit)
                            && post.selected_container is None && post.port@ == pre.port@,
                        Some(ListEvent::SelectedItem(idx)) => {
                            &&& act is None
                            &&& 0 <= idx < pre.pod_containers_list.list@.len()
                            &&& post.selected_container == Some(
                                pre.pod_containers_list.list@[idx as int],
                            )
                            &&& post.port@ == spec_digits_of(
                                pre.pod_containers_list.list@[idx as int].port as int,
                            )
                        },
                        None => act is None && post.selected_container is None && post.port@
                            == pre.port@,
                    })
                },
        }
    }

    /// `self` is a picker freshly opened on `containers`: no filter, and
    /// with a single container that container is already chosen and its
    /// port pre-fills the input.
    pub open spec fn fresh_for(self, containers: Seq<PodContainer>) -> bool {
        &&& self.pod_containers_list.list@ == containers
        &&& self.pod_containers_list.filter@.len() == 0
        &&& self.pod_containers_list.is_filter_mod == false
        &&& self.pod_containers_list.is_filterable == false
        &&& (containers.len() == 1 ==> self.selected_container == Some(containers[0])
            && self.port@ == spec_digits_of(containers[0].port as int))
        &&& (containers.len() != 1 ==> self.selected_container is None && self.port@.len() == 0)
    }

    /// How many containers the picker offers.
    pub fn containers_len(&self) -> (r: usize)
        ensures
            r == self.pod_containers_list.list@.len(),
    {
        self.pod_containers_list.list.len()
    }

    /// Open the picker on a pod's containers.  With exactly one container
    /// it is chosen immediately and its port pre-fills the input.
    pub fn new(pod_containers: Vec<PodContainer>) -> (r: Self)
        ensures
            r.wf(),
            r.fresh_for(pod_containers@),
    {
        let mut selected_container: Option<PodContainer> = None;
        let mut port: Vec<char> = Vec::new();
        if pod_containers.len() == 1 {
            let container = pod_containers[0].clone();
            port = u16_to_digits(container.port);
            selected_container = Some(container);
        }
        let mut list = FilterableList::new("Select container".to_owned(), false);
        list.set_items(pod_containers);
        PortForwardPopup { port, pod_containers_list: list, selected_container }
    }

    /// `c` is the persisted form of the picker `p`.
    pub open spec fn cached_as(p: Self, c: PortForwardPopupCache) -> bool {
        &&& c.port == p.port
        &&& FilterableList::cached_as(p.pod_containers_list, c.pod_containers)
        &&& c.selected_container == p.selected_container
    }

    /// `p` is the picker brought back from the persisted form `c`.
    pub open spec fn restored_from(c: PortForwardPopupCache, p: Self) -> bool {
        &&& p.port == c.port
        &&& FilterableList::restored_from(c.pod_containers, p.pod_containers_list)
        &&& p.selected_container == c.selected_container
    }

    /// The persisted form of this picker.
    pub fn to_cache(self) -> (c: PortForwardPopupCache)
        ensures
            Self::cached_as(self, c),
    {
        PortForwardPopupCache {
            port: self.port,
            pod_containers: self.pod_containers_list.to_cache(),
            selected_container: self.selected_container,
        }
    }

    /// Bring a picker back from its persisted form.
    pub fn from_cache(c: PortForwardPopupCache) -> (r: Self)
        ensures
            r.wf(),
            Self::restored_from(c, r),
    {
        PortForwardPopup {
            port: c.port,
            pod_containers_list: FilterableList::from_cache(c.pod_containers),
            selected_container: c.selected_container,
        }
    }

    /// Route one key press: while a container is chosen, keys edit the port
    /// input or confirm/abandon the forward; before that, they drive the
    /// container list.
    pub fn handle_key_event(&mut self, key: Key) -> (act: Option<PortForwardPopupAction>)
        requires
            old(self).wf(),
        ensures
            final(self).wf(),
            Self::key_transition(*old(self), *final(self), key, act),
    {
        let has_selection = self.selected_container.is_some();
        if has_selection {
            match key {
                Key::Char(ch) => {
                    if digit_of(ch).is_some() {
                        self.port.push(ch);
                    }
                    None
                },
                Key::Backspace => {
                    let _ = self.port.pop();
                    None
                },
                Key::Enter => {
                    match parse_port(&self.port) {
                        Some(local_port) => {
                            let app_port = match &self.selected_container {
                                Some(c) => c.port,
                                None => 0,
                            };
                            Some(
                                PortForwardPopupAction::PortForward { local_port, app_port },
                            )
                        },
                        None => None,
                    }
                },
                Key::Esc => Some(PortForwardPopupAction::Quit),
                _ => None,
            }
        } else {
            let ev = self.pod_containers_list.handle_key(key);
            let ghost gev = ev;
            match ev {
                Some(ListEvent::Quit) => Some(PortForwardPopupAction::Quit),
                Some(ListEvent::SelectedItem(idx)) => {
                    let n = self.pod_containers_list.list.len();
                    proof {
                        let pre = old(self).pod_containers_list;
                        assert(self.pod_containers_list.list@ == pre.list@);
                        assert(keys_of(pre.list@).len() == n);
                        lemma_filtered_indices_characterize(keys_of(pre.list@), pre.filter@);
                    }
                    let container = self.pod_containers_list.list[idx].clone();
                    self.port = u16_to_digits(container.port);
                    self.selected_container = Some(container);
                    None
                },
                None => None,
            }
        }
    }
}

} // verus!
