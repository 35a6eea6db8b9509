use vstd::prelude::*;
use crate::types::SubscribeFlag;

verus! {

/// What a caller of a signal or message endpoint asks for.
#[derive(Clone, Copy, Debug, PartialEq, Eq, Structural)]
pub enum Action {
    Subscribe,
    Unsubscribe,
    Read,
    Reset,
}

/// Code point of `c` with ASCII upper-case letters folded to lower case.
pub open spec fn ascii_folded(c: char) -> u32 {
    if 65 <= c as u32 <= 90 {
        (c as u32 + 32) as u32
    } else {
        c as u32
    }
}

/// `a` and `b` are equal once ASCII letters are folded to one case.
pub open spec fn eq_ascii_ci(a: Seq<char>, b: Seq<char>) -> bool {
    &&& a.len() == b.len()
    &&& forall|i: int| 0 <= i < a.len() ==> ascii_folded(#[trigger] a[i]) == ascii_folded(b[i])
}

/// The action that a keyword names, if any.
pub open spec fn action_named(s: Seq<char>) -> Option<Action> {
    if eq_ascii_ci(s, "SUBSCRIBE"@) {
        Some(Action::Subscribe)
    } else if eq_ascii_ci(s, "UNSUBSCRIBE"@) {
        Some(Action::Unsubscribe)
    } else if eq_ascii_ci(s, "READ"@) {
        Some(Action::Read)
    } else if eq_ascii_ci(s, "RESET"@) {
        Some(Action::Reset)
    } else {
        None
    }
}

/// The delivery flag that a keyword names, if any.
pub open spec fn flag_named(s: Seq<char>) -> Option<SubscribeFlag> {
    if eq_ascii_ci(s, "NEW"@) {
        Some(SubscribeFlag::NEW)
    } else if eq_ascii_ci(s, "ALL"@) {
        Some(SubscribeFlag::ALL)
    } else {
        None
    }
}

fn fold_char(c: char) -> (r: u32)
    ensures
        r == ascii_folded(c),
{
    let code = c as u32;
    if 65 <= code && code <= 90 {
        code + 32
    } else {
        code
    }
}

/// Compares two strings, ignoring the case of ASCII letters.
fn eq_ignore_case(a: &str, b: &str) -> (r: bool)
    ensures
        r == eq_ascii_ci(a@, b@),
{
    let n = a.unicode_len();
    if n != b.unicode_len() {
        return false;
    }
    let mut i: usize = 0;
    while i < n
        invariant
            n == a@.len(),
            n == b@.len(),
            i <= n,
            forall|k: int| 0 <= k < i ==> ascii_folded(#[trigger] a@[k]) == ascii_folded(b@[k]),
        decreases n - i,
    {
        if fold_char(a.get_char(i)) != fold_char(b.get_char(i)) {
            return false;
        }
        i += 1;
    }
    true
}

/// Reads an action keyword (`subscribe`, `unsubscribe`, `read`, `reset`),
/// whatever the case of its letters.
pub fn parse_action(s: &str) -> (r: Option<Action>)
    ensures
        r == action_named(s@),
{
    if eq_ignore_case(s, "SUBSCRIBE") {
        Some(Action::Subscribe)
    } else if eq_ignore_case(s, "UNSUBSCRIBE") {
        Some(Action::Unsubscribe)
    } else if eq_ignore_case(s, "READ") {
        Some(Action::Read)
    } else if eq_ignore_case(s, "RESET") {
        Some(Action::Reset)
    } else {
        None
    }
}

/// Reads a delivery flag keyword (`new` or `all`), whatever the case of its
/// letters.
pub fn parse_subscribe_flag(s: &str) -> (r: Option<SubscribeFlag>)
    ensures
        r == flag_named(s@),
{
    if eq_ignore_case(s, "NEW") {
        Some(SubscribeFlag::NEW)
    } else if eq_ignore_case(s, "ALL") {
        Some(SubscribeFlag::ALL)
    } else {
        None
    }
}

} // verus!
