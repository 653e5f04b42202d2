//! Extracting one server's player count from the body of its status reply.
//!
//! A status reply is expected to be a JSON object with a numeric `players`
//! field.  Any failure to obtain such a number — the poll never answered, the
//! body is not JSON, the field is missing, negative or not an integer —
//! counts as zero players; a broken server must never spoil the aggregate.

use vstd::prelude::*;

use crate::aggregate::aggregate_players;
use crate::aggregate::clamped_sum;

verus! {

/// The `players` field of a status body, when the body is a JSON object
/// carrying a non-negative integer under that key; `None` otherwise.
/// This is determined by the body text alone.
pub uninterp spec fn players_of(body: Seq<char>) -> Option<u64>;

/// Relies on `serde_json::from_str` (parsing text into a JSON value),
/// `serde_json::Value::get` (field lookup, `None` when the value is not an
/// object or lacks the key) and `serde_json::Value::as_u64` (`Some` exactly
/// for integer numbers that fit in a `u64`).  The composition is a pure
/// function of the body text, named `players_of`.
#[verifier::external_body]
fn extract_players(body: &str) -> (r: Option<u64>)
    ensures
        r == players_of(body@),
{
    let parsed: serde_json::Value = match serde_json::from_str(body) {
        Ok(v) => v,
        Err(_) => return None,
    };
    match parsed.get("players") {
        Some(field) => field.as_u64(),
        None => None,
    }
}

/// How one extraction outcome counts towards the aggregate: the reported
/// number when there is one, zero otherwise.
pub open spec fn contribution_of(p: Option<u64>) -> u64 {
    match p {
        Some(n) => n,
        None => 0,
    }
}

/// Turn one extraction outcome into its contribution.
pub fn player_contribution(p: Option<u64>) -> (c: u64)
    ensures
        c == contribution_of(p),
{
    match p {
        Some(n) => n,
        None => 0,
    }
}

/// A body that yields no player number — not JSON, not an object, the
/// `players` field missing, negative, fractional or out of range —
/// contributes exactly zero to the aggregate.
pub proof fn lemma_malformed_body_contributes_zero(b: Seq<char>)
    requires
        players_of(b) is None,
    ensures
        contribution_of(players_of(b)) == 0,
{
}

/// The contribution of one finished poll.  `body` is `Some` only when the
/// request completed within its timeout with a success status; every other
/// outcome is `None` and counts as zero.
pub fn poll_count(body: &Option<String>) -> (c: u64)
    ensures
        c == match body {
            Some(b) => contribution_of(players_of(b@)),
            None => 0,
        },
{
    match body {
        Some(b) => player_contribution(extract_players(b.as_str())),
        None => 0,
    }
}

/// The count one finished poll contributes, as a function of its body.
pub open spec fn body_count(b: Option<String>) -> u64 {
    match b {
        Some(s) => contribution_of(players_of(s@)),
        None => 0,
    }
}

/// The counts of a whole pass's polls, in the order they were dispatched.
pub open spec fn body_counts(bodies: Seq<Option<String>>) -> Seq<u64> {
    bodies.map_values(|b: Option<String>| body_count(b))
}

/// Aggregate a whole pass from its collected poll bodies: every body
/// contributes exactly once, and the total is the exact sum of the
/// contributions (clamped to `u64`).
pub fn aggregate_polls(bodies: &Vec<Option<String>>) -> (total: u64)
    ensures
        total == clamped_sum(body_counts(bodies@)),
{
    let mut counts: Vec<u64> = Vec::new();
    let mut i: usize = 0;
    while i < bodies.len()
        invariant
            i <= bodies.len(),
            counts@ == body_counts(bodies@.take(i as int)),
        decreases bodies.len() - i,
    {
        let c = poll_count(&bodies[i]);
        counts.push(c);
        proof {
            assert(body_counts(bodies@.take(i + 1)) =~= body_counts(
                bodies@.take(i as int),
            ).push(body_count(bodies@[i as int])));
        }
        i = i + 1;
    }
    proof {
        assert(bodies@.take(bodies@.len() as int) =~= bodies@);
    }
    aggregate_players(&counts)
}

} // verus!
