//! What removing duplicates is worth: a guarantee, a ceiling, or an admission that neither is
//! known.

use vstd::prelude::*;

verus! {

/// How much of an estimate is established.
#[derive(Debug, Clone, Copy, PartialEq, Eq, Structural)]
pub enum ReclaimState {
    /// The guarantee and the ceiling are one number.
    Exact,
    /// The ceiling lies above what is guaranteed.
    UpperBound,
    /// The link counts were never recorded; there is no number to give.
    Unknown,
}

/// A reclaim figure: the bytes a purge is sure to release and the most it could release.
#[derive(Debug, Clone, Copy, PartialEq, Eq, Structural)]
pub struct ReclaimEstimate {
    pub guaranteed: u64,
    pub potential: Option<u64>,
}

impl ReclaimEstimate {
    /// A figure that is its own guarantee.
    pub fn exact(bytes: u64) -> (r: ReclaimEstimate)
        ensures
            r.guaranteed == bytes,
            r.potential == Some(bytes),
    {
        ReclaimEstimate { guaranteed: bytes, potential: Some(bytes) }
    }

    /// A ceiling with nothing guaranteed under it.
    pub fn upper_bound(bytes: u64) -> (r: ReclaimEstimate)
        ensures
            r.guaranteed == 0,
            r.potential == Some(bytes),
    {
        ReclaimEstimate { guaranteed: 0, potential: Some(bytes) }
    }

    /// No figure at all.
    pub fn unknown() -> (r: ReclaimEstimate)
        ensures
            r.guaranteed == 0,
            r.potential is None,
    {
        ReclaimEstimate { guaranteed: 0, potential: None }
    }

    pub fn guaranteed_bytes(self) -> (r: u64)
        ensures
            r == self.guaranteed,
    {
        self.guaranteed
    }

    pub fn potential_bytes(self) -> (r: Option<u64>)
        ensures
            r == self.potential,
    {
        self.potential
    }

    pub open spec fn spec_state(self) -> ReclaimState {
        match self.potential {
            None => ReclaimState::Unknown,
            Some(ceiling) => if ceiling == self.guaranteed {
                ReclaimState::Exact
            } else {
                ReclaimState::UpperBound
            },
        }
    }

    pub fn state(self) -> (r: ReclaimState)
        ensures
            r == self.spec_state(),
    {
        match self.potential {
            None => ReclaimState::Unknown,
            Some(ceiling) => if ceiling == self.guaranteed {
                ReclaimState::Exact
            } else {
                ReclaimState::UpperBound
            },
        }
    }

    /// The figure of a whole scan: guarantees add up, ceilings add up, and one group without a
    /// figure leaves the scan without one. `None` when a sum does not fit.
    pub fn for_fresh_scan(parts: &[ReclaimEstimate]) -> (r: Option<ReclaimEstimate>)
        ensures
            r is Some <==> (total_guaranteed(parts@) <= u64::MAX && total_potential(parts@)
                <= u64::MAX),
            r matches Some(total) ==> total == (if any_unknown(parts@) {
                (ReclaimEstimate { guaranteed: 0, potential: None })
            } else {
                (ReclaimEstimate {
                    guaranteed: total_guaranteed(parts@) as u64,
                    potential: Some(total_potential(parts@) as u64),
                })
            }),
    {
        let mut guaranteed: u64 = 0;
        let mut potential: u64 = 0;
        let mut unknown = false;
        let mut i: usize = 0;
        while i < parts.len()
            invariant
                i <= parts@.len(),
                guaranteed == total_guaranteed(parts@.take(i as int)),
                potential == total_potential(parts@.take(i as int)),
                unknown == any_unknown(parts@.take(i as int)),
            decreases parts@.len() - i,
        {
            proof {
                assert(parts@.take(i as int + 1).drop_last() =~= parts@.take(i as int));
                lemma_totals_grow(parts@, i as int + 1);
                let shorter = parts@.take(i as int);
                let longer = parts@.take(i as int + 1);
                assert(any_unknown(longer) <==> any_unknown(shorter) || parts@[i as int].potential is None) by {
                    assert(longer[i as int] == parts@[i as int]);
                    assert forall|k: int| 0 <= k < i implies shorter[k] == longer[k] by {}
                }
            }
            let part = parts[i];
            guaranteed = match guaranteed.checked_add(part.guaranteed) {
                Some(sum) => sum,
                None => {
                    return None;
                },
            };
            match part.potential {
                None => {
                    unknown = true;
                },
                Some(ceiling) => {
                    potential = match potential.checked_add(ceiling) {
                        Some(sum) => sum,
                        None => {
                            return None;
                        },
                    };
                },
            }
            i = i + 1;
        }
        assert(parts@.take(parts@.len() as int) =~= parts@);
        if unknown {
            Some(ReclaimEstimate::unknown())
        } else {
            Some(ReclaimEstimate { guaranteed, potential: Some(potential) })
        }
    }
}

/// Sum of the guarantees.
pub open spec fn total_guaranteed(parts: Seq<ReclaimEstimate>) -> nat
    decreases parts.len(),
{
    if parts.len() == 0 {
        0
    } else {
        total_guaranteed(parts.drop_last()) + parts.last().guaranteed as nat
    }
}

/// Sum of the ceilings that are known.
pub open spec fn total_potential(parts: Seq<ReclaimEstimate>) -> nat
    decreases parts.len(),
{
    if parts.len() == 0 {
        0
    } else {
        total_potential(parts.drop_last()) + (match parts.last().potential {
            Some(ceiling) => ceiling as nat,
            None => 0nat,
        })
    }
}

/// Some group has no figure.
pub open spec fn any_unknown(parts: Seq<ReclaimEstimate>) -> bool {
    exists|i: int| 0 <= i < parts.len() && (#[trigger] parts[i]).potential is None
}

proof fn lemma_totals_grow(parts: Seq<ReclaimEstimate>, n: int)
    requires
        0 <= n <= parts.len(),
    ensures
        total_guaranteed(parts.take(n)) <= total_guaranteed(parts),
        total_potential(parts.take(n)) <= total_potential(parts),
    decreases parts.len() - n,
{
    if n < parts.len() {
        assert(parts.take(n + 1).drop_last() =~= parts.take(n));
        lemma_totals_grow(parts, n + 1);
    } else {
        assert(parts.take(n) =~= parts);
    }
}

/// How many links an allocation has, where the scan recorded it.
#[derive(Debug, Clone, Copy, PartialEq, Eq, Structural)]
pub enum LinkCount {
    Known(u64),
    Unknown,
}

/// The links of a group's allocations: how many the scan saw, of how many there are.
#[derive(Debug, Clone, Copy, PartialEq, Eq, Structural)]
pub struct GroupLinks {
    pub observed: u64,
    pub total: LinkCount,
}

/// What an open group claims: its reclaim figure and the link evidence behind it.
#[derive(Debug, Clone, Copy, PartialEq, Eq, Structural)]
pub struct GroupClaim {
    pub reclaim: ReclaimEstimate,
    pub links: GroupLinks,
}

} // verus!
