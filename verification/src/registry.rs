use vstd::prelude::*;
use crate::capacity::MAX_VOTERS;
use crate::errors::VoteError;
use crate::identity::Identity;

verus! {

/// The mathematical value of one registry entry.
pub ghost struct VoterView {
    pub id: u8,
    pub pubkey: Seq<u8>,
    pub proposal_id: u8,
    pub voted: bool,
}

/// One eligibility entry: an actor registered to vote on one proposal.
#[derive(Debug)]
pub struct Voter {
    /// Position assigned at registration time: the index within the batch
    /// being registered, not a registry-wide sequence number.
    pub id: u8,
    /// The voter's authenticated identity.
    pub pubkey: Identity,
    /// The proposal this voter is eligible to vote on.
    pub proposal_id: u8,
    /// Whether this voter has already cast its vote.
    pub voted: bool,
}

impl View for Voter {
    type V = VoterView;

    open spec fn view(&self) -> VoterView {
        VoterView {
            id: self.id,
            pubkey: self.pubkey@,
            proposal_id: self.proposal_id,
            voted: self.voted,
        }
    }
}

/// The voter registry of one registering actor: an insertion-ordered list of
/// eligibility entries; entries are appended, never removed.
#[derive(Debug)]
pub struct Voters {
    pub voters: Vec<Voter>,
}

impl View for Voters {
    type V = Seq<VoterView>;

    open spec fn view(&self) -> Seq<VoterView> {
        self.voters@.map_values(|v: Voter| v@)
    }
}

/// Whether some entry is registered for `(pk, pid)`.
pub open spec fn has_pair(s: Seq<VoterView>, pk: Seq<u8>, pid: u8) -> bool {
    exists|j: int| 0 <= j < s.len() && s[j].pubkey == pk && s[j].proposal_id == pid
}

/// At most one entry per `(pubkey, proposal_id)` pair.
pub open spec fn no_duplicate_pairs(s: Seq<VoterView>) -> bool {
    forall|i: int, j: int| #![trigger s[i].pubkey, s[j].pubkey]
        0 <= i < j < s.len() ==> !(s[i].pubkey == s[j].pubkey && s[i].proposal_id
            == s[j].proposal_id)
}

/// The views of a batch of submitted voter identities.
pub open spec fn views_of(addrs: Seq<Identity>) -> Seq<Seq<u8>> {
    addrs.map_values(|a: Identity| a@)
}

/// One registration step: the candidate at batch position `k` is skipped if
/// `(pk, pid)` is already registered, and appended with `voted == false` and
/// its batch position as `id` otherwise.
pub open spec fn register_step(s: Seq<VoterView>, pid: u8, pk: Seq<u8>, k: int) -> Seq<VoterView> {
    if has_pair(s, pk, pid) {
        s
    } else {
        s.push(VoterView { id: k as u8, pubkey: pk, proposal_id: pid, voted: false })
    }
}

/// The registry contents after registering the candidates of `addrs` from
/// batch position `k` on, in input order.
pub open spec fn register_from(s: Seq<VoterView>, pid: u8, addrs: Seq<Seq<u8>>, k: int) -> Seq<VoterView>
    decreases addrs.len() - k,
{
    if k < 0 || k >= addrs.len() {
        s
    } else {
        register_from(register_step(s, pid, addrs[k], k), pid, addrs, k + 1)
    }
}

/// The registry contents after one whole `submit_voters` batch.
pub open spec fn register_batch(s: Seq<VoterView>, pid: u8, addrs: Seq<Seq<u8>>) -> Seq<VoterView> {
    register_from(s, pid, addrs, 0)
}

/// Registration only appends: what was registered stays, in place.
proof fn lemma_register_from_extends(s: Seq<VoterView>, pid: u8, addrs: Seq<Seq<u8>>, k: int)
    ensures
        s.len() <= register_from(s, pid, addrs, k).len(),
        forall|j: int| 0 <= j < s.len() ==> register_from(s, pid, addrs, k)[j] == s[j],
    decreases addrs.len() - k,
{
    if k < 0 || k >= addrs.len() {
    } else {
        let s1 = register_step(s, pid, addrs[k], k);
        lemma_register_from_extends(s1, pid, addrs, k + 1);
        let t = register_from(s, pid, addrs, k);
        assert(t == register_from(s1, pid, addrs, k + 1));
        assert forall|j: int| 0 <= j < s.len() implies t[j] == s[j] by {
            assert(t[j] == s1[j]);
            assert(s1[j] == s[j]);
        }
    }
}

/// A registered pair stays registered through any further registration.
proof fn lemma_register_from_keeps_pair(
    s: Seq<VoterView>,
    pid: u8,
    addrs: Seq<Seq<u8>>,
    k: int,
    pk: Seq<u8>,
    pid2: u8,
)
    requires
        has_pair(s, pk, pid2),
    ensures
        has_pair(register_from(s, pid, addrs, k), pk, pid2),
{
    let j = choose|j: int| 0 <= j < s.len() && s[j].pubkey == pk && s[j].proposal_id == pid2;
    lemma_register_from_extends(s, pid, addrs, k);
    assert(register_from(s, pid, addrs, k)[j].pubkey == pk);
    assert(register_from(s, pid, addrs, k)[j].proposal_id == pid2);
}

/// After a batch is registered, every candidate pair of the batch is
/// registered.
proof fn lemma_register_from_complete(s: Seq<VoterView>, pid: u8, addrs: Seq<Seq<u8>>, k: int)
    requires
        0 <= k,
    ensures
        forall|i: int|
            k <= i < addrs.len() ==> has_pair(register_from(s, pid, addrs, k), #[trigger] addrs[i], pid),
    decreases addrs.len() - k,
{
    if k >= addrs.len() {
    } else {
        let s1 = register_step(s, pid, addrs[k], k);
        if !has_pair(s, addrs[k], pid) {
            assert(s1[s.len() as int].pubkey == addrs[k]);
            assert(s1[s.len() as int].proposal_id == pid);
        }
        assert(has_pair(s1, addrs[k], pid));
        lemma_register_from_keeps_pair(s1, pid, addrs, k + 1, addrs[k], pid);
        lemma_register_from_complete(s1, pid, addrs, k + 1);
        let t = register_from(s, pid, addrs, k);
        assert(t == register_from(s1, pid, addrs, k + 1));
        assert forall|i: int| k <= i < addrs.len() implies has_pair(t, #[trigger] addrs[i], pid) by {
            if i != k {
                assert(has_pair(register_from(s1, pid, addrs, k + 1), addrs[i], pid));
            }
        }
    }
}

/// Registering candidates whose pairs are all present changes nothing.
proof fn lemma_register_from_noop(s: Seq<VoterView>, pid: u8, addrs: Seq<Seq<u8>>, k: int)
    requires
        forall|i: int| k <= i < addrs.len() ==> has_pair(s, #[trigger] addrs[i], pid),
    ensures
        register_from(s, pid, addrs, k) == s,
    decreases addrs.len() - k,
{
    if k < 0 || k >= addrs.len() {
    } else {
        assert(register_step(s, pid, addrs[k], k) == s);
        lemma_register_from_noop(s, pid, addrs, k + 1);
    }
}

/// Dedup idempotence: re-submitting a batch that was already registered
/// leaves the registry exactly as it was, duplicates skipped entry by entry.
pub proof fn lemma_register_batch_idempotent(s: Seq<VoterView>, pid: u8, addrs: Seq<Seq<u8>>)
    ensures
        register_batch(register_batch(s, pid, addrs), pid, addrs) == register_batch(s, pid, addrs),
{
    let t = register_batch(s, pid, addrs);
    lemma_register_from_complete(s, pid, addrs, 0);
    lemma_register_from_noop(t, pid, addrs, 0);
}

/// Registration never introduces a duplicate `(pubkey, proposal_id)` pair.
pub proof fn lemma_register_from_no_duplicates(s: Seq<VoterView>, pid: u8, addrs: Seq<Seq<u8>>, k: int)
    requires
        no_duplicate_pairs(s),
    ensures
        no_duplicate_pairs(register_from(s, pid, addrs, k)),
    decreases addrs.len() - k,
{
    if k < 0 || k >= addrs.len() {
    } else {
        let s1 = register_step(s, pid, addrs[k], k);
        assert(no_duplicate_pairs(s1)) by {
            if !has_pair(s, addrs[k], pid) {
                assert forall|i: int, j: int|
                    0 <= i < j < s1.len() implies !(s1[i].pubkey == s1[j].pubkey
                    && s1[i].proposal_id == s1[j].proposal_id) by {
                    if j == s.len() {
                        assert(!(s[i].pubkey == addrs[k] && s[i].proposal_id == pid));
                    }
                }
            }
        }
        lemma_register_from_no_duplicates(s1, pid, addrs, k + 1);
    }
}

/// Unfolding one candidate off the end of a batch prefix.
proof fn lemma_register_from_take_step(s: Seq<VoterView>, pid: u8, addrs: Seq<Seq<u8>>, n: int, k: int)
    requires
        0 <= k <= n < addrs.len(),
    ensures
        register_from(s, pid, addrs.take(n + 1), k) == register_step(
            register_from(s, pid, addrs.take(n), k),
            pid,
            addrs[n],
            n,
        ),
    decreases n - k,
{
    if k == n {
        assert(addrs.take(n + 1)[k] == addrs[k]);
        let s1 = register_step(s, pid, addrs[n], n);
        assert(register_from(s1, pid, addrs.take(n + 1), n + 1) == s1);
        assert(register_from(s, pid, addrs.take(n + 1), k) == register_from(s1, pid, addrs.take(n + 1), n + 1));
        assert(register_from(s, pid, addrs.take(n), k) == s);
    } else {
        assert(addrs.take(n + 1)[k] == addrs[k]);
        assert(addrs.take(n)[k] == addrs[k]);
        let s1 = register_step(s, pid, addrs[k], k);
        lemma_register_from_take_step(s1, pid, addrs, n, k + 1);
    }
}

/// The whole-batch result is at least as long as any prefix result.
proof fn lemma_register_batch_len_mono(s: Seq<VoterView>, pid: u8, addrs: Seq<Seq<u8>>, n: int)
    requires
        0 <= n <= addrs.len(),
    ensures
        register_batch(s, pid, addrs.take(n)).len() <= register_batch(s, pid, addrs).len(),
    decreases addrs.len() - n,
{
    if n == addrs.len() {
        assert(addrs.take(n) =~= addrs);
    } else {
        lemma_register_from_take_step(s, pid, addrs, n, 0);
        lemma_register_batch_len_mono(s, pid, addrs, n + 1);
    }
}

impl Voters {
    /// An empty registry, as first created for a registering actor.
    pub fn new() -> (r: Voters)
        ensures
            r@ == Seq::<VoterView>::empty(),
    {
        let r = Voters { voters: Vec::new() };
        proof {
            assert(r@ =~= Seq::<VoterView>::empty());
        }
        r
    }

    /// The registry invariant: at most one entry per `(pubkey, proposal_id)`
    /// pair, and the entries fit the record budget.
    pub open spec fn wf(&self) -> bool {
        &&& no_duplicate_pairs(self@)
        &&& self@.len() <= MAX_VOTERS
    }

    /// Whether some entry is already registered for `(pk, pid)`.
    fn contains_pair(&self, pk: &Identity, pid: u8) -> (r: bool)
        ensures
            r == has_pair(self@, pk@, pid),
    {
        let n = self.voters.len();
        let mut j: usize = 0;
        while j < n
            invariant
                0 <= j <= n,
                n == self.voters.len(),
                forall|i: int| #![trigger self@[i]]
                    0 <= i < j ==> !(self@[i].pubkey == pk@ && self@[i].proposal_id == pid),
            decreases n - j,
        {
            let v = &self.voters[j];
            if v.pubkey == *pk && v.proposal_id == pid {
                assert(self@[j as int].pubkey == pk@);
                return true;
            }
            assert(self@[j as int] == v@);
            j += 1;
        }
        false
    }

    /// Registers a batch of voters for `proposal_id`, in input order: a
    /// candidate whose `(pubkey, proposal_id)` pair is already registered is
    /// skipped (no error), any other is appended with its position in this
    /// batch as `id` and `voted == false`. A batch that would grow the
    /// registry past its record budget fails whole with `CapacityExceeded`
    /// and leaves the registry unchanged, since the collaborator persists
    /// each call atomically.
    pub fn submit_voters(&mut self, proposal_id: u8, voter_addresses: &Vec<Identity>) -> (r: Result<
        (),
        VoteError,
    >)
        ensures
            register_batch(old(self)@, proposal_id, views_of(voter_addresses@)).len() <= MAX_VOTERS
                ==> (r matches Ok(_) && final(self)@ == register_batch(
                old(self)@,
                proposal_id,
                views_of(voter_addresses@),
            )),
            register_batch(old(self)@, proposal_id, views_of(voter_addresses@)).len() > MAX_VOTERS
                ==> (r == Result::<(), VoteError>::Err(VoteError::CapacityExceeded) && final(self)@
                == old(self)@),
            old(self).wf() ==> final(self).wf(),
    {
        let ghost old_view = self@;
        let ghost addrs = views_of(voter_addresses@);
        let old_len = self.voters.len();
        if old_len > MAX_VOTERS {
            proof {
                lemma_register_from_extends(old_view, proposal_id, addrs, 0);
            }
            return Err(VoteError::CapacityExceeded);
        }
        let n = voter_addresses.len();
        let mut idx: usize = 0;
        while idx < n
            invariant
                0 <= idx <= n,
                n == voter_addresses.len(),
                addrs == views_of(voter_addresses@),
                addrs.len() == n,
                old_view == old(self)@,
                old_view.len() == old_len <= MAX_VOTERS,
                self@ == register_batch(old_view, proposal_id, addrs.take(idx as int)),
                self@.len() <= MAX_VOTERS,
            decreases n - idx,
        {
            let candidate = &voter_addresses[idx];
            proof {
                assert(addrs[idx as int] == candidate@);
            }
            let already_exists = self.contains_pair(candidate, proposal_id);
            proof {
                lemma_register_from_take_step(old_view, proposal_id, addrs, idx as int, 0);
            }
            if !already_exists {
                if self.voters.len() >= MAX_VOTERS {
                    // The batch no longer fits: reject it whole.
                    proof {
                        assert(register_batch(old_view, proposal_id, addrs.take(idx as int + 1)).len()
                            > MAX_VOTERS);
                        lemma_register_batch_len_mono(old_view, proposal_id, addrs, idx as int + 1);
                        lemma_register_from_extends(old_view, proposal_id, addrs.take(idx as int), 0);
                    }
                    self.voters.truncate(old_len);
                    proof {
                        assert(self@ =~= old_view);
                    }
                    return Err(VoteError::CapacityExceeded);
                }
                let batch_pos: u8 = #[verifier::truncate] (idx as u8);
                let entry = Voter {
                    id: batch_pos,
                    pubkey: candidate.clone(),
                    proposal_id,
                    voted: false,
                };
                proof {
                    assert(entry@ == (VoterView {
                        id: idx as u8,
                        pubkey: candidate@,
                        proposal_id,
                        voted: false,
                    }));
                }
                self.voters.push(entry);
                proof {
                    assert(self@ =~= register_batch(old_view, proposal_id, addrs.take(idx as int + 1)));
                }
            }
            idx += 1;
            proof {
                assert(self@ == register_batch(old_view, proposal_id, addrs.take(idx as int)));
            }
        }
        proof {
            assert(addrs.take(n as int) =~= addrs);
            if old(self).wf() {
                lemma_register_from_no_duplicates(old_view, proposal_id, addrs, 0);
            }
        }
        Ok(())
    }
}

} // verus!
