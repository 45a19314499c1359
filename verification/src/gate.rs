//! The session gate: validates inbound session identifiers against the
//! session table and handles the login exchange that creates new sessions.
//! Lookup is exact-match on the whole identifier; identifiers in the table
//! are kept pairwise distinct.

use vstd::prelude::*;
use crate::state::Config;
use crate::state::Session;
use crate::state::Sessions;
use crate::text::str_eq;

verus! {

/// The one operator account name.
pub open spec fn spec_operator_name() -> Seq<char> {
    "admin"@
}

pub fn operator_name() -> (r: &'static str)
    ensures
        r@ == spec_operator_name(),
{
    "admin"
}

/// Whether `id` is the identifier of some session in the table.
pub open spec fn has_session(table: Seq<crate::state::SessionV>, id: Seq<char>) -> bool {
    exists|i: int| 0 <= i < table.len() && table[i].id == id
}

/// Session identifiers are pairwise distinct.
pub open spec fn wf_sessions(table: Seq<crate::state::SessionV>) -> bool {
    forall|i: int, j: int| 0 <= i < j < table.len() ==> table[i].id != table[j].id
}

/// Grants access iff the caller's identifier is stored, whole and equal,
/// in the session table.
pub fn authorize(table: &Sessions, session_id: &str) -> (granted: bool)
    ensures
        granted == has_session(table@, session_id@),
{
    let n = table.sessions.len();
    let mut i: usize = 0;
    while i < n
        invariant
            n == table.sessions@.len(),
            i <= n,
            forall|k: int| 0 <= k < i ==> table@[k].id != session_id@,
        decreases n - i,
    {
        if str_eq(table.sessions[i].id.as_str(), session_id) {
            assert(table@[i as int].id == session_id@);
            return true;
        }
        i = i + 1;
    }
    false
}

/// `id` is a proper part of `sup`: shorter, and occurring inside it.
pub open spec fn is_strict_substring(sub: Seq<char>, sup: Seq<char>) -> bool {
    sub.len() < sup.len() && exists|k: int|
        0 <= k <= sup.len() - sub.len() && #[trigger] sup.subrange(k, k + sub.len()) == sub
}

/// Containment does not authorize: an identifier that occurs inside some
/// stored identifier, but is itself equal to no stored identifier, is
/// denied. Lookup is exact-match, never substring containment.
pub proof fn lemma_substring_not_authorized(table: Seq<crate::state::SessionV>, id: Seq<char>)
    requires
        exists|i: int| 0 <= i < table.len() && is_strict_substring(id, table[i].id),
        forall|i: int| 0 <= i < table.len() ==> table[i].id != id,
    ensures
        !has_session(table, id),
{
}

/// The login exchange. Access is granted iff the submitted name is the
/// operator account and the password equals the stored password value; on
/// the first grant for a given transport identifier, exactly one session
/// carrying that identifier is appended; a repeated grant leaves the table
/// unchanged. The caller persists the updated table.
pub fn authenticate(
    config: &Config,
    table: &mut Sessions,
    username: &str,
    password: &str,
    session_id: &str,
) -> (granted: bool)
    ensures
        granted == (username@ == spec_operator_name() && password@
            == config.encrypted_password@),
        !granted ==> final(table)@ == old(table)@,
        granted && has_session(old(table)@, session_id@) ==> final(table)@ == old(table)@,
        granted && !has_session(old(table)@, session_id@) ==> {
            &&& final(table)@.len() == old(table)@.len() + 1
            &&& final(table)@.subrange(0, old(table)@.len() as int) == old(table)@
            &&& final(table)@.last().id == session_id@
            &&& final(table)@.last().delta == 0
        },
        granted ==> has_session(final(table)@, session_id@),
        wf_sessions(old(table)@) ==> wf_sessions(final(table)@),
{
    let name_ok = str_eq(username, operator_name());
    let pass_ok = str_eq(password, config.encrypted_password.as_str());
    if !(name_ok && pass_ok) {
        return false;
    }
    if authorize(table, session_id) {
        return true;
    }
    let ghost prev = table@;
    let fresh = Session { id: session_id.to_owned(), delta: 0 };
    table.sessions.push(fresh);
    proof {
        assert(table@ =~= prev.push(fresh@));
        assert(table@.subrange(0, prev.len() as int) =~= prev);
        assert(has_session(table@, session_id@)) by {
            assert(table@[prev.len() as int].id == session_id@);
        }
        if wf_sessions(prev) {
            assert forall|i: int, j: int| 0 <= i < j < table@.len() implies table@[i].id
                != table@[j].id by {
                if j == prev.len() {
                    assert(!has_session(prev, session_id@));
                    assert(table@[i] == prev[i]);
                }
            }
        }
    }
    true
}

} // verus!
