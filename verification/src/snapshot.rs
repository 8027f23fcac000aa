//! The bundle of everything that one generation pass made.

use crate::models::{
    views, APITokenData, Fund, FundView, Proposal, ProposalView, Voteplan, VoteplanView,
};
use crate::token_pool::{EntryView, TokenPool};
use vstd::pervasive::unreached;
use vstd::prelude::*;

verus! {

/// What a snapshot holds: its funds, proposals and vote plans in order, and
/// the entries of its token pool in the order in which they came in.
pub struct SnapshotView {
    pub funds: Seq<FundView>,
    pub proposals: Seq<ProposalView>,
    pub tokens: Seq<EntryView>,
    pub voteplans: Seq<VoteplanView>,
}

/// `at` is the place of the first fund with the given identifier.
pub open spec fn first_fund_with(funds: Seq<FundView>, id: int, at: int) -> bool {
    &&& 0 <= at < funds.len()
    &&& funds[at].id == id
    &&& forall|i: int| 0 <= i < at ==> (#[trigger] funds[i]).id != id
}

/// `at` is the place of the first proposal with the given external
/// identifier.
pub open spec fn first_proposal_with(proposals: Seq<ProposalView>, id: Seq<char>, at: int) -> bool {
    &&& 0 <= at < proposals.len()
    &&& proposals[at].proposal_id == id
    &&& forall|i: int| 0 <= i < at ==> (#[trigger] proposals[i]).proposal_id != id
}

/// The collections of one generation pass. A snapshot owns them; the
/// entities in them refer to one another by copied values only.
#[derive(Debug)]
pub struct Snapshot {
    funds: Vec<Fund>,
    proposals: Vec<Proposal>,
    tokens: TokenPool,
    voteplans: Vec<Voteplan>,
}

impl View for Snapshot {
    type V = SnapshotView;

    closed spec fn view(&self) -> SnapshotView {
        SnapshotView {
            funds: views(self.funds@),
            proposals: views(self.proposals@),
            tokens: self.tokens.order(),
            voteplans: views(self.voteplans@),
        }
    }
}

impl Clone for Snapshot {
    fn clone(&self) -> (copy: Self)
        ensures
            copy@ == self@,
    {
        Snapshot {
            funds: self.funds(),
            proposals: self.proposals(),
            tokens: self.tokens(),
            voteplans: self.voteplans(),
        }
    }
}

impl Snapshot {
    /// The snapshot of the given collections.
    pub fn new(
        funds: Vec<Fund>,
        proposals: Vec<Proposal>,
        tokens: TokenPool,
        voteplans: Vec<Voteplan>,
    ) -> (snapshot: Snapshot)
        ensures
            snapshot@ == (SnapshotView {
                funds: views(funds@),
                proposals: views(proposals@),
                tokens: tokens.order(),
                voteplans: views(voteplans@),
            }),
    {
        Snapshot { funds, proposals, tokens, voteplans }
    }

    /// A copy of the funds.
    pub fn funds(&self) -> (copy: Vec<Fund>)
        ensures
            views(copy@) == self@.funds,
    {
        let copy = self.funds.clone();
        assert(views(copy@) =~= views(self.funds@));
        copy
    }

    /// A copy of the proposals.
    pub fn proposals(&self) -> (copy: Vec<Proposal>)
        ensures
            views(copy@) == self@.proposals,
    {
        let copy = self.proposals.clone();
        assert(views(copy@) =~= views(self.proposals@));
        copy
    }

    /// A copy of the token pool.
    pub fn tokens(&self) -> (copy: TokenPool)
        ensures
            copy.order() == self@.tokens,
    {
        self.tokens.clone()
    }

    /// A copy of the vote plans.
    pub fn voteplans(&self) -> (copy: Vec<Voteplan>)
        ensures
            views(copy@) == self@.voteplans,
    {
        let copy = self.voteplans.clone();
        assert(views(copy@) =~= views(self.voteplans@));
        copy
    }

    /// The funds themselves, to be changed in place: what the caller leaves
    /// in the vector is what the snapshot then holds.
    pub fn funds_mut(&mut self) -> (funds: &mut Vec<Fund>)
        ensures
            views(funds@) == old(self)@.funds,
            final(self)@ == (SnapshotView { funds: views(final(funds)@), ..old(self)@ }),
    {
        &mut self.funds
    }

    /// The proposals themselves, to be changed in place.
    pub fn proposals_mut(&mut self) -> (proposals: &mut Vec<Proposal>)
        ensures
            views(proposals@) == old(self)@.proposals,
            final(self)@ == (SnapshotView {
                proposals: views(final(proposals)@),
                ..old(self)@
            }),
    {
        &mut self.proposals
    }

    /// The vote plans themselves, to be changed in place.
    pub fn voteplans_mut(&mut self) -> (voteplans: &mut Vec<Voteplan>)
        ensures
            views(voteplans@) == old(self)@.voteplans,
            final(self)@ == (SnapshotView {
                voteplans: views(final(voteplans)@),
                ..old(self)@
            }),
    {
        &mut self.voteplans
    }

    /// The first proposal with the given external identifier.
    pub fn proposal_by_id(&self, id: &str) -> (found: Option<&Proposal>)
        ensures
            found matches Some(proposal) ==> exists|at: int|
                first_proposal_with(self@.proposals, id@, at) && proposal@
                    == #[trigger] self@.proposals[at],
            found is None ==> forall|i: int|
                0 <= i < self@.proposals.len() ==> (#[trigger] self@.proposals[i]).proposal_id
                    != id@,
    {
        let wanted = id.to_owned();
        let mut i: usize = 0;
        while i < self.proposals.len()
            invariant
                i <= self.proposals.len(),
                wanted@ == id@,
                forall|j: int| 0 <= j < i ==> (#[trigger] self@.proposals[j]).proposal_id != id@,
            decreases self.proposals.len() - i,
        {
            if self.proposals[i].proposal_id == wanted {
                assert(first_proposal_with(self@.proposals, id@, i as int));
                return Some(&self.proposals[i]);
            }
            i += 1;
        }
        None
    }

    /// The first fund with the given identifier.
    pub fn fund_by_id(&self, id: i32) -> (found: Option<&Fund>)
        ensures
            found matches Some(fund) ==> exists|at: int|
                first_fund_with(self@.funds, id as int, at) && fund@ == #[trigger] self@.funds[at],
            found is None ==> forall|i: int|
                0 <= i < self@.funds.len() ==> (#[trigger] self@.funds[i]).id != id,
    {
        let mut i: usize = 0;
        while i < self.funds.len()
            invariant
                i <= self.funds.len(),
                forall|j: int| 0 <= j < i ==> (#[trigger] self@.funds[j]).id != id,
            decreases self.funds.len() - i,
        {
            if self.funds[i].id == id {
                assert(first_fund_with(self@.funds, id as int, i as int));
                return Some(&self.funds[i]);
            }
            i += 1;
        }
        None
    }

    /// A token of the pool with its key: the one that came in first.
    pub fn any_token(&self) -> (entry: (String, APITokenData))
        requires
            self@.tokens.len() > 0,
        ensures
            (entry.0@, entry.1@) == self@.tokens[0],
    {
        match self.tokens.first() {
            Some((key, token)) => (key.clone(), token.clone()),
            None => unreached(),
        }
    }

    /// The key of the token that `any_token` gives.
    pub fn token_hash(&self) -> (key: String)
        requires
            self@.tokens.len() > 0,
        ensures
            key@ == self@.tokens[0].0,
    {
        self.any_token().0
    }
}

} // verus!
