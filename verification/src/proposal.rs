use vstd::prelude::*;
use vstd::utf8::encode_utf8;
use crate::capacity::MAX_DESC_BYTES;
use crate::errors::VoteError;
use crate::identity::Identity;

verus! {

/// The mathematical value of a proposal record.
pub ghost struct ProposalView {
    pub id: u8,
    pub desc: Seq<char>,
    pub up_votes: u128,
    pub down_votes: u128,
    pub total_votes: u128,
    pub owner: Seq<u8>,
}

/// A proposal record: a caller-supplied identifier and description, the
/// creating actor, and the three running tallies.
#[derive(Debug)]
pub struct Proposal {
    /// Caller-supplied small identifier; not guaranteed globally unique.
    pub id: u8,
    /// Free text, bounded by the record capacity.
    pub desc: String,
    pub up_votes: u128,
    pub down_votes: u128,
    pub total_votes: u128,
    /// The actor that created the proposal; set once, never mutated.
    pub owner: Identity,
}

impl View for Proposal {
    type V = ProposalView;

    open spec fn view(&self) -> ProposalView {
        ProposalView {
            id: self.id,
            desc: self.desc@,
            up_votes: self.up_votes,
            down_votes: self.down_votes,
            total_votes: self.total_votes,
            owner: self.owner@,
        }
    }
}

impl Proposal {
    /// The record invariant: the total tally is exactly the sum of the two
    /// directed tallies, the description fits the record budget, and the
    /// owner is a well-formed identity.
    pub open spec fn wf(&self) -> bool {
        &&& self.total_votes == self.up_votes + self.down_votes
        &&& encode_utf8(self.desc@).len() <= MAX_DESC_BYTES
        &&& self.owner.wf()
    }
}

/// Builds the proposal record that the collaborator then persists at the
/// address derived from `(seed, proposer)`; the `AlreadyExists` failure when
/// that address is already occupied is raised by the collaborator, not here.
/// The tallies start at zero and the proposer is recorded as owner. A
/// description longer than the record budget is rejected whole.
pub fn initialize_proposal(desc: String, id: u8, proposer: &Identity) -> (r: Result<Proposal, VoteError>)
    requires
        proposer.wf(),
        encode_utf8(desc@).len() <= usize::MAX,
    ensures
        encode_utf8(desc@).len() <= MAX_DESC_BYTES ==> (r matches Ok(p) && {
            &&& p.id == id
            &&& p.desc@ == desc@
            &&& p.up_votes == 0
            &&& p.down_votes == 0
            &&& p.total_votes == 0
            &&& p.owner@ == proposer@
            &&& p.wf()
        }),
        encode_utf8(desc@).len() > MAX_DESC_BYTES ==> r == Result::<Proposal, VoteError>::Err(
            VoteError::CapacityExceeded,
        ),
{
    if desc.as_str().len() > MAX_DESC_BYTES {
        return Err(VoteError::CapacityExceeded);
    }
    Ok(Proposal {
        id,
        desc,
        up_votes: 0,
        down_votes: 0,
        total_votes: 0,
        owner: proposer.clone(),
    })
}

} // verus!
