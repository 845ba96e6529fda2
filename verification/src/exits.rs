//! Exit, bridge and token descriptors, and exit selection.
//!
//! The chosen exit is the one whose hostname lies nearest the requested
//! string under the Damerau-Levenshtein edit distance; ties go to the
//! first-listed candidate, matching a stable ascending sort by distance.

use vstd::prelude::*;

verus! {

/// A remote endpoint as plain values: the address bits (IPv4 addresses
/// carried in the low 32 bits) and the port.
#[derive(Clone, Copy, Debug, Hash, PartialEq, Eq, Structural)]
pub struct Endpoint {
    pub ip: u128,
    pub port: u16,
}

/// An exit relay: its hostname and its transport public key.
#[derive(Clone, Debug)]
pub struct ExitDescriptor {
    pub hostname: String,
    pub sosistab_key: Vec<u8>,
}

/// A bridge relay: its endpoint and its transport public key.
#[derive(Clone, Debug)]
pub struct BridgeDescriptor {
    pub endpoint: Endpoint,
    pub sosistab_key: Vec<u8>,
}

/// An authentication token: unblinded digest, unblinded signature, and the
/// UTF-8 bytes of the access level.
#[derive(Clone, Debug)]
pub struct AuthToken {
    pub unblinded_digest: Vec<u8>,
    pub unblinded_signature: Vec<u8>,
    pub level: Vec<u8>,
}

/// The Damerau-Levenshtein edit distance between two strings.  Left
/// uninterpreted here: the metric is an external collaborator, consulted
/// through `damerau_levenshtein` below and pinned down no further.
pub uninterp spec fn edit_distance(a: Seq<char>, b: Seq<char>) -> usize;

/// Relies on strsim::damerau_levenshtein: the distance depends on the two
/// strings alone.
#[verifier::external_body]
fn damerau_levenshtein(a: &str, b: &str) -> (r: usize)
    ensures
        r == edit_distance(a@, b@),
{
    strsim::damerau_levenshtein(a, b)
}

/// Picks the exit whose hostname minimizes the edit distance to the
/// requested hostname.  Returns `None` exactly when the list is empty;
/// otherwise the chosen index is minimal in distance, and every earlier
/// candidate is strictly farther, so ties resolve to the first listed.
pub fn select_exit(exits: &Vec<ExitDescriptor>, requested: &str) -> (r: Option<usize>)
    ensures
        (r is None) <==> exits@.len() == 0,
        r matches Some(i) ==> {
            &&& i < exits@.len()
            &&& forall|j: int| 0 <= j < exits@.len()
                ==> edit_distance(exits@[i as int].hostname@, requested@)
                    <= edit_distance(#[trigger] exits@[j].hostname@, requested@)
            &&& forall|j: int| 0 <= j < i
                ==> edit_distance(#[trigger] exits@[j].hostname@, requested@)
                    > edit_distance(exits@[i as int].hostname@, requested@)
        },
{
    if exits.len() == 0 {
        return None;
    }
    let mut best: usize = 0;
    let mut best_d: usize = damerau_levenshtein(exits[0].hostname.as_str(), requested);
    let mut i: usize = 1;
    while i < exits.len()
        invariant
            0 < exits@.len(),
            1 <= i <= exits@.len(),
            best < i,
            best_d == edit_distance(exits@[best as int].hostname@, requested@),
            forall|j: int| 0 <= j < i
                ==> best_d <= edit_distance(#[trigger] exits@[j].hostname@, requested@),
            forall|j: int| 0 <= j < best
                ==> edit_distance(#[trigger] exits@[j].hostname@, requested@) > best_d,
        decreases exits@.len() - i,
    {
        let d = damerau_levenshtein(exits[i].hostname.as_str(), requested);
        if d < best_d {
            best = i;
            best_d = d;
        }
        i = i + 1;
    }
    Some(best)
}

} // verus!
