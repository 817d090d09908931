use vstd::prelude::*;
use crate::errors::VoteError;
use crate::identity::Identity;
use crate::proposal::Proposal;
use crate::registry::{Voters, VoterView};

verus! {

/// The first registry entry at position `k` or later registered for
/// `(pk, pid)`, or -1 when there is none.
pub open spec fn first_match_from(s: Seq<VoterView>, pk: Seq<u8>, pid: u8, k: int) -> int
    decreases s.len() - k,
{
    if k < 0 || k >= s.len() {
        -1
    } else if s[k].pubkey == pk && s[k].proposal_id == pid {
        k
    } else {
        first_match_from(s, pk, pid, k + 1)
    }
}

/// The registry entry that a vote by `pk` on proposal `pid` is tallied
/// against: the first entry registered for that pair, or -1. In a registry
/// without duplicate pairs this is the only such entry.
pub open spec fn first_match(s: Seq<VoterView>, pk: Seq<u8>, pid: u8) -> int {
    first_match_from(s, pk, pid, 0)
}

/// Casts `vote_value` by `voter` on `proposal`. The registry is scanned for
/// the first entry registered for `(voter, proposal.id)`; an actor with no
/// such entry is rejected with `NotFound`. A fresh entry (`voted == false`)
/// tallies exactly one vote — up for value 1, down for any other value, the
/// tally engine's lenient coercion of malformed values — and is marked
/// `voted`, so a repeated vote by the same entry succeeds without any
/// effect. The counters never decrease and the tally invariant
/// `total_votes == up_votes + down_votes` is preserved.
pub fn vote(proposal: &mut Proposal, registry: &mut Voters, voter: &Identity, vote_value: u8) -> (r: Result<
    (),
    VoteError,
>)
    requires
        old(proposal).wf(),
        old(proposal).total_votes < u128::MAX,
    ensures
        final(proposal).wf(),
        final(proposal).id == old(proposal).id,
        final(proposal).desc@ == old(proposal).desc@,
        final(proposal).owner@ == old(proposal).owner@,
        final(proposal).up_votes >= old(proposal).up_votes,
        final(proposal).down_votes >= old(proposal).down_votes,
        final(proposal).total_votes >= old(proposal).total_votes,
        ({
            let j = first_match(old(registry)@, voter@, old(proposal).id);
            if j < 0 {
                &&& r == Result::<(), VoteError>::Err(VoteError::NotFound)
                &&& *final(proposal) == *old(proposal)
                &&& final(registry)@ == old(registry)@
            } else if old(registry)@[j].voted {
                &&& r == Result::<(), VoteError>::Ok(())
                &&& *final(proposal) == *old(proposal)
                &&& final(registry)@ == old(registry)@
            } else {
                &&& r == Result::<(), VoteError>::Ok(())
                &&& final(registry)@ == old(registry)@.update(
                    j,
                    (VoterView { voted: true, ..old(registry)@[j] }),
                )
                &&& final(proposal).total_votes == old(proposal).total_votes + 1
                &&& (vote_value == 1 ==> final(proposal).up_votes == old(proposal).up_votes + 1
                    && final(proposal).down_votes == old(proposal).down_votes)
                &&& (vote_value != 1 ==> final(proposal).down_votes == old(proposal).down_votes + 1
                    && final(proposal).up_votes == old(proposal).up_votes)
            }
        }),
{
    let ghost reg_view = registry@;
    let pid = proposal.id;
    let n = registry.voters.len();
    let mut j: usize = 0;
    while j < n
        invariant
            0 <= j <= n,
            n == registry.voters.len(),
            registry@ == reg_view,
            reg_view == old(registry)@,
            *proposal == *old(proposal),
            old(proposal).wf(),
            old(proposal).total_votes < u128::MAX,
            pid == old(proposal).id,
            first_match(reg_view, voter@, pid) == first_match_from(reg_view, voter@, pid, j as int),
        decreases n - j,
    {
        let is_match: bool;
        let already_voted: bool;
        {
            let v = &registry.voters[j];
            proof {
                assert(reg_view[j as int] == v@);
            }
            is_match = v.pubkey == *voter && v.proposal_id == pid;
            already_voted = v.voted;
        }
        if is_match {
            proof {
                assert(first_match(reg_view, voter@, pid) == j as int);
            }
            if already_voted {
                return Ok(());
            }
            mark_voted(registry, j);
            if vote_value == 1 {
                proposal.up_votes = proposal.up_votes + 1;
            } else {
                proposal.down_votes = proposal.down_votes + 1;
            }
            proposal.total_votes = proposal.total_votes + 1;
            return Ok(());
        }
        j += 1;
    }
    Err(VoteError::NotFound)
}

/// Marks the registry entry at `j` as having voted, leaving it otherwise
/// unchanged and in place.
fn mark_voted(registry: &mut Voters, j: usize)
    requires
        j < old(registry)@.len(),
    ensures
        final(registry)@ == old(registry)@.update(
            j as int,
            (VoterView { voted: true, ..old(registry)@[j as int] }),
        ),
{
    let mut entry = registry.voters.remove(j);
    entry.voted = true;
    registry.voters.insert(j, entry);
    proof {
        assert(registry@ =~= old(registry)@.update(
            j as int,
            (VoterView { voted: true, ..old(registry)@[j as int] }),
        ));
    }
}

} // verus!
