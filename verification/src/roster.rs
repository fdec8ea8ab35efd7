//! Roster validation and state construction at bootstrap.
//!
//! The roster of sensors to poll is loaded once, before polling starts. A
//! sensor's identity within a roster is the pair `(name, tag_address)`;
//! duplicate identities are a configuration error, and bootstrap errors are
//! fatal — the engine is never handed a roster it did not validate.

use vstd::prelude::*;

use crate::sensor::{fresh_state, SensorConfig, SensorState};

verus! {

/// A bootstrap-level configuration error. Fatal: the process does not start.
#[derive(PartialEq, Eq, Structural, Clone, Copy, Debug)]
pub enum ConfigError {
    /// Two roster entries share one identity key `(name, tag_address)`; the
    /// fields give the indices of such a pair.
    DuplicateIdentity { first: usize, second: usize },
}

/// Two configurations name the same sensor.
pub open spec fn same_identity(a: SensorConfig, b: SensorConfig) -> bool {
    a.name@ == b.name@ && a.tag_address@ == b.tag_address@
}

/// No two roster entries share an identity key.
pub open spec fn unique_roster(r: Seq<SensorConfig>) -> bool {
    forall|i: int, j: int|
        0 <= i < j < r.len() ==> !(#[trigger] same_identity(r[i], r[j]))
}

/// Builds one fresh sensor state per roster entry, in roster order. Succeeds
/// exactly when every identity key is unique; otherwise names a duplicated
/// pair and builds nothing.
pub fn build_states(roster: &Vec<SensorConfig>) -> (res: Result<Vec<SensorState>, ConfigError>)
    ensures
        res is Ok <==> unique_roster(roster@),
        res is Ok ==> (res->Ok_0)@.len() == roster@.len(),
        res is Ok ==> forall|i: int|
            0 <= i < roster@.len() ==> #[trigger] (res->Ok_0)@[i] == fresh_state(roster@[i]),
        res is Err ==> ({
            let e = res->Err_0;
            match e {
                ConfigError::DuplicateIdentity { first, second } => first < second
                    && second < roster@.len() && same_identity(
                    roster@[first as int],
                    roster@[second as int],
                ),
            }
        }),
{
    let n = roster.len();
    let mut i: usize = 0;
    while i < n
        invariant
            n == roster@.len(),
            i <= n,
            forall|p: int, q: int|
                0 <= p < q < n && p < i ==> !(#[trigger] same_identity(roster@[p], roster@[q])),
        decreases n - i,
    {
        let mut j = i + 1;
        while j < n
            invariant
                n == roster@.len(),
                i < j <= n,
                forall|q: int|
                    i < q < j ==> !(#[trigger] same_identity(roster@[i as int], roster@[q])),
            decreases n - j,
        {
            if roster[i].name == roster[j].name && roster[i].tag_address == roster[j].tag_address {
                proof {
                    assert(same_identity(roster@[i as int], roster@[j as int]));
                }
                return Err(ConfigError::DuplicateIdentity { first: i, second: j });
            }
            j = j + 1;
        }
        i = i + 1;
    }
    let mut states: Vec<SensorState> = Vec::new();
    let mut k: usize = 0;
    while k < n
        invariant
            n == roster@.len(),
            k <= n,
            states@.len() == k,
            forall|m: int| 0 <= m < k ==> #[trigger] states@[m] == fresh_state(roster@[m]),
        decreases n - k,
    {
        let s = SensorState::new(&roster[k]);
        states.push(s);
        k = k + 1;
    }
    Ok(states)
}

} // verus!
