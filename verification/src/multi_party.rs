//! Multi-party approval: a whitelist of approvers, a quorum, a timeout and
//! the approvals given so far.
//!
//! The whitelist and the approvals are kept in collections of the ledger
//! host; each party is kept there as the text of its address.

use vstd::prelude::*;
use crate::address::Address;
use crate::error::Error;
use crate::host::{
    count_marks,
    entries,
    has_mark,
    marked,
    name_at,
    names,
    names_len,
    no_marks,
    no_names,
    push_name,
    remove_mark,
    set_mark,
    PartyList,
    PartyMarks,
};

verus! {

/// The approval state of one escrow.
///
/// An approver who has approved and not revoked is a key of `approvals`.
#[derive(Clone, Debug, PartialEq, Eq)]
pub struct MultiPartyConfig {
    pub required_approvals: u32,
    pub approval_timeout: u64,
    pub whitelisted_approvers: PartyList,
    pub approvals: PartyMarks,
    pub finalized: bool,
}

/// The parties that `list` names other than `who`, in order.
pub open spec fn without(list: Seq<Option<Seq<char>>>, who: Seq<char>) -> Seq<Option<Seq<char>>> {
    list.filter(|name: Option<Seq<char>>| name is Some && name != Some(who))
}

/// The first place at which `list` names `who`, if it does.
pub fn position(list: &PartyList, who: &Address) -> (at: Option<u32>)
    ensures
        at is Some <==> names(*list).contains(Some(who@)),
        at is Some ==> at->0 < names(*list).len() && names(*list)[at->0 as int] == Some(who@)
            && forall|j: int| 0 <= j < at->0 ==> names(*list)[j] != Some(who@),
{
    let n = names_len(list);
    let mut i: u32 = 0;
    while i < n
        invariant
            i <= n,
            n == names(*list).len(),
            forall|j: int| 0 <= j < i ==> names(*list)[j] != Some(who@),
        decreases n - i,
    {
        match name_at(list, i) {
            Some(name) => {
                if name.same_as(who) {
                    return Some(i);
                }
            },
            None => {},
        }
        i = i + 1;
    }
    None
}

/// A list of the parties that `list` names other than `who`, in order.
pub fn remaining(list: &PartyList, who: &Address) -> (rest: PartyList)
    ensures
        names(rest) == without(names(*list), who@),
{
    let ghost keep = |name: Option<Seq<char>>| name is Some && name != Some(who@);
    let ghost all = names(*list);
    let mut rest = no_names(list);
    let n = names_len(list);
    let mut i: u32 = 0;
    proof {
        reveal(Seq::filter);
        assert(all.take(0).filter(keep) =~= Seq::<Option<Seq<char>>>::empty());
        assert(names(rest) =~= Seq::<Option<Seq<char>>>::empty());
    }
    while i < n
        invariant
            i <= n,
            n == all.len(),
            all == names(*list),
            keep == |name: Option<Seq<char>>| name is Some && name != Some(who@),
            names(rest) == all.take(i as int).filter(keep),
        decreases n - i,
    {
        let ghost next = all.take(i as int + 1);
        proof {
            reveal(Seq::filter);
            assert(next.drop_last() =~= all.take(i as int));
            assert(next.last() == all[i as int]);
            assert(next.filter(keep) == if keep(next.last()) {
                next.drop_last().filter(keep).push(next.last())
            } else {
                next.drop_last().filter(keep)
            });
        }
        match name_at(list, i) {
            Some(name) => {
                if !name.same_as(who) {
                    push_name(&mut rest, &name);
                }
            },
            None => {},
        }
        assert(names(rest) == next.filter(keep));
        i = i + 1;
    }
    assert(all.take(n as int) =~= all);
    rest
}

impl MultiPartyConfig {
    /// For each item of the whitelist, in order, the party that it names,
    /// if it names one.
    pub open spec fn whitelist(&self) -> Seq<Option<Seq<char>>> {
        names(self.whitelisted_approvers)
    }

    /// The parties whose approval stands.
    pub open spec fn approved(&self) -> Set<Seq<char>> {
        marked(self.approvals)
    }

    /// The number of approvals that stand.
    pub open spec fn approval_count(&self) -> nat {
        entries(self.approvals)
    }

    /// Whether as many approvals stand as are required.
    pub open spec fn quorum(&self) -> bool {
        self.approval_count() >= self.required_approvals
    }

    /// Whether approvals are closed at `now`: a timeout is set and has passed.
    pub open spec fn timed_out(&self, now: u64) -> bool {
        self.approval_timeout > 0 && now > self.approval_timeout
    }

    /// Whether this is the configuration with which approval starts: the
    /// given whitelist, quorum and timeout, no approvals, not closed.
    pub open spec fn fresh(
        &self,
        approvers: PartyList,
        required_approvals: u32,
        approval_timeout: u64,
    ) -> bool {
        &&& self.required_approvals == required_approvals
        &&& self.approval_timeout == approval_timeout
        &&& self.whitelisted_approvers == approvers
        &&& self.approved() == Set::<Seq<char>>::empty()
        &&& self.approval_count() == 0
        &&& !self.finalized
    }

    /// `after` is this configuration with the approval of `approver` added
    /// and nothing else changed.
    pub open spec fn approved_by(&self, after: MultiPartyConfig, approver: Seq<char>) -> bool {
        &&& after == (MultiPartyConfig { approvals: after.approvals, ..*self })
        &&& after.approved() == self.approved().insert(approver)
        &&& after.approval_count() == self.approval_count() + 1
    }

    /// `after` is this configuration without the approval of `approver`, if
    /// there was one, and nothing else changed.
    pub open spec fn revoked_by(&self, after: MultiPartyConfig, approver: Seq<char>) -> bool {
        &&& after == (MultiPartyConfig { approvals: after.approvals, ..*self })
        &&& after.approved() == self.approved().remove(approver)
        &&& self.approval_count() == after.approval_count() + if self.approved().contains(
            approver,
        ) {
            1nat
        } else {
            0nat
        }
    }

    /// `after` is this configuration with `new_approver` added at the end of
    /// the whitelist and nothing else changed.
    pub open spec fn admits(&self, after: MultiPartyConfig, new_approver: Seq<char>) -> bool {
        &&& after == (MultiPartyConfig {
            whitelisted_approvers: after.whitelisted_approvers,
            ..*self
        })
        &&& after.whitelist() == self.whitelist().push(Some(new_approver))
    }

    /// `after` is this configuration with `approver` off the whitelist, an
    /// approval of theirs dropped, and nothing else changed.
    pub open spec fn dismisses(&self, after: MultiPartyConfig, approver: Seq<char>) -> bool {
        &&& after == (MultiPartyConfig {
            whitelisted_approvers: after.whitelisted_approvers,
            approvals: after.approvals,
            ..*self
        })
        &&& after.whitelist() == without(self.whitelist(), approver)
        &&& after.approved() == self.approved().remove(approver)
        &&& self.approval_count() == after.approval_count() + if self.approved().contains(
            approver,
        ) {
            1nat
        } else {
            0nat
        }
    }

    /// The configuration with which approval starts: `InvalidApproverCount`
    /// unless `0 < required_approvals <= approvers.len()`.
    pub fn new(approvers: PartyList, required_approvals: u32, approval_timeout: u64) -> (r: Result<
        MultiPartyConfig,
        Error,
    >)
        ensures
            r is Ok <==> 0 < required_approvals <= names(approvers).len(),
            r is Err ==> r == Err::<MultiPartyConfig, Error>(Error::InvalidApproverCount),
            r is Ok ==> r->Ok_0.fresh(approvers, required_approvals, approval_timeout),
    {
        if required_approvals == 0 || required_approvals > names_len(&approvers) {
            return Err(Error::InvalidApproverCount);
        }
        let approvals = no_marks(&approvers);
        Ok(
            MultiPartyConfig {
                required_approvals,
                approval_timeout,
                whitelisted_approvers: approvers,
                approvals,
                finalized: false,
            },
        )
    }

    /// Whether as many approvals stand as are required.
    pub fn quorum_met(&self) -> (met: bool)
        ensures
            met == self.quorum(),
    {
        count_marks(&self.approvals) >= self.required_approvals
    }

    /// Why `approver` may not approve at `now`, if anything forbids it.
    pub open spec fn approval_refused(&self, approver: Seq<char>, now: u64) -> Option<Error> {
        if self.finalized {
            Some(Error::EscrowFinalized)
        } else if self.timed_out(now) {
            Some(Error::ApprovalExpired)
        } else if !self.whitelist().contains(Some(approver)) {
            Some(Error::ApproverNotWhitelisted)
        } else if self.approved().contains(approver) {
            Some(Error::AlreadyApproved)
        } else {
            None
        }
    }

    /// Records the approval of `approver` and reports whether the quorum is
    /// now met.
    pub fn approve(&mut self, approver: Address, now: u64) -> (r: Result<bool, Error>)
        ensures
            match old(self).approval_refused(approver@, now) {
                Some(e) => r == Err::<bool, Error>(e) && *final(self) == *old(self),
                None => r == Ok::<bool, Error>(final(self).quorum()) && old(self).approved_by(
                    *final(self),
                    approver@,
                ),
            },
    {
        if self.finalized {
            return Err(Error::EscrowFinalized);
        }
        if self.approval_timeout > 0 && now > self.approval_timeout {
            return Err(Error::ApprovalExpired);
        }
        if position(&self.whitelisted_approvers, &approver).is_none() {
            return Err(Error::ApproverNotWhitelisted);
        }
        if has_mark(&self.approvals, &approver) {
            return Err(Error::AlreadyApproved);
        }
        set_mark(&mut self.approvals, &approver);
        Ok(count_marks(&self.approvals) >= self.required_approvals)
    }

    /// Why `approver` may not revoke, if anything forbids it.
    pub open spec fn revocation_refused(&self, approver: Seq<char>) -> Option<Error> {
        if self.finalized {
            Some(Error::EscrowFinalized)
        } else if !self.approved().contains(approver) {
            Some(Error::ApprovalNotFound)
        } else {
            None
        }
    }

    /// Withdraws the approval of `approver`.
    pub fn revoke(&mut self, approver: &Address) -> (r: Result<(), Error>)
        ensures
            match old(self).revocation_refused(approver@) {
                Some(e) => r == Err::<(), Error>(e) && *final(self) == *old(self),
                None => r == Ok::<(), Error>(()) && old(self).revoked_by(*final(self), approver@),
            },
    {
        if self.finalized {
            return Err(Error::EscrowFinalized);
        }
        if !has_mark(&self.approvals, approver) {
            return Err(Error::ApprovalNotFound);
        }
        remove_mark(&mut self.approvals, approver);
        Ok(())
    }

    /// Why `new_approver` may not be added to the whitelist, if anything
    /// forbids it.
    pub open spec fn addition_refused(&self, new_approver: Seq<char>) -> Option<Error> {
        if self.finalized {
            Some(Error::EscrowFinalized)
        } else if self.whitelist().contains(Some(new_approver)) {
            Some(Error::AlreadyApproved)
        } else {
            None
        }
    }

    /// Appends `new_approver` to the whitelist.
    pub fn add_approver(&mut self, new_approver: Address) -> (r: Result<(), Error>)
        ensures
            match old(self).addition_refused(new_approver@) {
                Some(e) => r == Err::<(), Error>(e) && *final(self) == *old(self),
                None => r == Ok::<(), Error>(()) && old(self).admits(*final(self), new_approver@),
            },
    {
        if self.finalized {
            return Err(Error::EscrowFinalized);
        }
        if position(&self.whitelisted_approvers, &new_approver).is_some() {
            return Err(Error::AlreadyApproved);
        }
        push_name(&mut self.whitelisted_approvers, &new_approver);
        Ok(())
    }

    /// Why `approver` may not be taken off the whitelist, if anything forbids
    /// it.
    pub open spec fn removal_refused(&self, approver: Seq<char>) -> Option<Error> {
        if self.finalized {
            Some(Error::EscrowFinalized)
        } else if !self.whitelist().contains(Some(approver)) {
            Some(Error::ApproverNotWhitelisted)
        } else if without(self.whitelist(), approver).len() < self.required_approvals {
            Some(Error::InvalidApproverCount)
        } else {
            None
        }
    }

    /// Takes `approver` off the whitelist and drops an approval that they
    /// gave.
    pub fn remove_approver(&mut self, approver: &Address) -> (r: Result<(), Error>)
        ensures
            match old(self).removal_refused(approver@) {
                Some(e) => r == Err::<(), Error>(e) && *final(self) == *old(self),
                None => r == Ok::<(), Error>(()) && old(self).dismisses(*final(self), approver@),
            },
    {
        if self.finalized {
            return Err(Error::EscrowFinalized);
        }
        if position(&self.whitelisted_approvers, approver).is_none() {
            return Err(Error::ApproverNotWhitelisted);
        }
        let rest = remaining(&self.whitelisted_approvers, approver);
        if names_len(&rest) < self.required_approvals {
            return Err(Error::InvalidApproverCount);
        }
        remove_mark(&mut self.approvals, approver);
        self.whitelisted_approvers = rest;
        Ok(())
    }

    /// Closes the configuration: no approval is taken or withdrawn after it.
    pub fn finalize(&mut self)
        ensures
            *final(self) == (MultiPartyConfig { finalized: true, ..*old(self) }),
    {
        self.finalized = true;
    }
}

} // verus!
