//! Escrows opened, funded and released in batches on the hub. A batch is
//! carried out as a whole or not at all.
//!
//! The escrows of a batch are named by their numbers in a list of the ledger
//! host.

use vstd::prelude::*;
use crate::address::Address;
use crate::invoicing::{charge, hub_fee};
use crate::host::{number_at, numbers, numbers_len, NumberList};
use crate::registry::{lemma_value_replaced, Registry};
use crate::remittance_hub::{
    BatchStatus,
    EscrowData,
    EscrowRequest,
    HubView,
    RemittanceError,
    RemittanceHubContract,
};

verus! {

/// The largest number of requests in one batch.
pub const MAX_BATCH: usize = 10;

/// What a batch of deposits moves into custody.
#[derive(Clone, Copy, Debug, PartialEq, Eq, Structural)]
pub struct BatchDeposit {
    pub total_amount: i128,
    pub total_fees: i128,
    pub total_transfer: i128,
}

/// A transfer out of custody.
#[derive(Clone, Debug, PartialEq, Eq)]
pub struct Payment {
    pub to: Address,
    pub amount: i128,
}

/// Why a request is refused, if it is, `taken` escrow numbers being in use:
/// `InvalidAmount` unless the amount is positive, `DueDateInPast` unless the
/// expiration lies ahead, `InvalidAmount` where the numbers are used up.
pub open spec fn request_refused(request: EscrowRequest, taken: int, now: u64) -> Option<
    RemittanceError,
> {
    if request.amount <= 0 {
        Some(RemittanceError::InvalidAmount)
    } else if request.expiration_timestamp <= now {
        Some(RemittanceError::DueDateInPast)
    } else if taken >= u64::MAX {
        Some(RemittanceError::InvalidAmount)
    } else {
        None
    }
}

/// The refusal of the first request among the first `n` that is refused,
/// `counter` escrow numbers being in use before the batch.
pub open spec fn first_refusal(
    requests: Seq<EscrowRequest>,
    counter: u64,
    now: u64,
    n: nat,
) -> Option<
    RemittanceError,
>
    decreases n,
{
    if n == 0 {
        None
    } else {
        match first_refusal(requests, counter, now, (n - 1) as nat) {
            Some(e) => Some(e),
            None => request_refused(requests[n - 1], counter + n - 1, now),
        }
    }
}

/// Why a batch of requests is refused, if it is: `BatchTooLarge` for more
/// than 10 requests, else the refusal of the first request that is refused.
pub open spec fn batch_refused(requests: Seq<EscrowRequest>, counter: u64, now: u64) -> Option<
    RemittanceError,
> {
    if requests.len() > 10 {
        Some(RemittanceError::BatchTooLarge)
    } else {
        first_refusal(requests, counter, now, requests.len())
    }
}

/// The escrow that a request opens for `sender`.
pub open spec fn requested(sender: Address, request: EscrowRequest) -> EscrowData {
    EscrowData {
        sender,
        recipient: request.recipient,
        amount: request.amount,
        asset: request.asset,
        expiration_timestamp: request.expiration_timestamp,
        status: BatchStatus::Pending,
    }
}

/// The escrows after the first `n` requests are opened under the numbers
/// that follow `counter`.
pub open spec fn opened(
    escrows: Map<u64, EscrowData>,
    sender: Address,
    requests: Seq<EscrowRequest>,
    counter: u64,
    n: nat,
) -> Map<u64, EscrowData>
    decreases n,
{
    if n == 0 {
        escrows
    } else {
        opened(escrows, sender, requests, counter, (n - 1) as nat).insert(
            (counter + n) as u64,
            requested(sender, requests[n - 1]),
        )
    }
}

/// The sum of the amounts of the first `n` escrows named.
pub open spec fn amounts(escrows: Map<u64, EscrowData>, ids: Seq<Option<u64>>, n: nat) -> int
    decreases n,
{
    if n == 0 {
        0
    } else {
        amounts(escrows, ids, (n - 1) as nat) + escrows[ids[n - 1]->0].amount
    }
}

/// The sum of the hub's fees on the first `n` escrows named.
pub open spec fn fees(escrows: Map<u64, EscrowData>, ids: Seq<Option<u64>>, n: nat) -> int
    decreases n,
{
    if n == 0 {
        0
    } else {
        fees(escrows, ids, (n - 1) as nat) + hub_fee(escrows[ids[n - 1]->0].amount)
    }
}

/// Whether `x` can be held in an `i128`.
pub open spec fn fits(x: int) -> bool {
    i128::MIN <= x <= i128::MAX
}

/// Why the deposit for the escrow named at place `k` is refused, if it is:
/// the item names no escrow, the escrow is not `sender`'s, it is not pending
/// or was named before in the batch, or the running totals cannot be held.
pub open spec fn funding_refused_at(
    escrows: Map<u64, EscrowData>,
    sender: Seq<char>,
    ids: Seq<Option<u64>>,
    k: int,
) -> Option<RemittanceError> {
    if ids[k] is None || !escrows.contains_key(ids[k]->0) {
        Some(RemittanceError::NotFound)
    } else {
        let escrow = escrows[ids[k]->0];
        if escrow.sender@ != sender {
            Some(RemittanceError::Unauthorized)
        } else if escrow.status != BatchStatus::Pending || ids.take(k).contains(ids[k]) {
            Some(RemittanceError::InvalidStatus)
        } else if !fits(amounts(escrows, ids, k as nat) + escrow.amount) || !fits(
            fees(escrows, ids, k as nat) + hub_fee(escrow.amount),
        ) {
            Some(RemittanceError::InvalidAmount)
        } else {
            None
        }
    }
}

/// Why the release of the escrow named at place `k` is refused, if it is:
/// the item names no escrow, `caller` is neither the escrow's recipient nor
/// its sender, or it is not funded or was named before in the batch.
pub open spec fn release_refused_at(
    escrows: Map<u64, EscrowData>,
    caller: Seq<char>,
    ids: Seq<Option<u64>>,
    k: int,
) -> Option<RemittanceError> {
    if ids[k] is None || !escrows.contains_key(ids[k]->0) {
        Some(RemittanceError::NotFound)
    } else {
        let escrow = escrows[ids[k]->0];
        if escrow.recipient@ != caller && escrow.sender@ != caller {
            Some(RemittanceError::Unauthorized)
        } else if escrow.status != BatchStatus::Funded || ids.take(k).contains(ids[k]) {
            Some(RemittanceError::InvalidStatus)
        } else {
            None
        }
    }
}

/// The first refusal that `refused_at` gives among the first `n` places.
pub open spec fn first_refused(
    refused_at: spec_fn(int) -> Option<RemittanceError>, n: nat,
) -> Option<
    RemittanceError,
>
    decreases n,
{
    if n == 0 {
        None
    } else {
        match first_refused(refused_at, (n - 1) as nat) {
            Some(e) => Some(e),
            None => refused_at(n - 1),
        }
    }
}

/// Why a batch of deposits is refused, if it is: the first refusal of a
/// deposit, or `InvalidAmount` where amounts and fees together cannot be
/// held.
pub open spec fn funding_refused(
    escrows: Map<u64, EscrowData>,
    sender: Seq<char>,
    ids: Seq<Option<u64>>,
) -> Option<
    RemittanceError,
> {
    match first_refused(|k: int| funding_refused_at(escrows, sender, ids, k), ids.len()) {
        Some(e) => Some(e),
        None => if !fits(amounts(escrows, ids, ids.len()) + fees(escrows, ids, ids.len())) {
            Some(RemittanceError::InvalidAmount)
        } else {
            None
        },
    }
}

/// Why a batch of releases is refused, if it is: the first refusal of a
/// release.
pub open spec fn releasing_refused(
    escrows: Map<u64, EscrowData>,
    caller: Seq<char>,
    ids: Seq<Option<u64>>,
) -> Option<
    RemittanceError,
> {
    first_refused(|k: int| release_refused_at(escrows, caller, ids, k), ids.len())
}

/// The escrows with the first `n` of those named given `status`.
pub open spec fn given_status(
    escrows: Map<u64, EscrowData>,
    ids: Seq<Option<u64>>,
    status: BatchStatus,
    n: nat,
) -> Map<
    u64,
    EscrowData,
>
    decreases n,
{
    if n == 0 {
        escrows
    } else {
        given_status(escrows, ids, status, (n - 1) as nat).insert(
            ids[n - 1]->0,
            EscrowData { status, ..escrows[ids[n - 1]->0] },
        )
    }
}

/// The payments that release the escrows named: to each recipient the
/// amount of the escrow.
pub open spec fn payments(escrows: Map<u64, EscrowData>, ids: Seq<Option<u64>>) -> Seq<Payment> {
    Seq::new(
        ids.len(),
        |k: int|
            Payment { to: escrows[ids[k]->0].recipient, amount: escrows[ids[k]->0].amount },
    )
}

/// A refusal among the first places stays the first refusal among more.
pub proof fn lemma_refusal_stands(
    refused_at: spec_fn(int,
) -> Option<RemittanceError>, n: nat, m: nat)
    requires
        n <= m,
        first_refused(refused_at, n) is Some,
    ensures
        first_refused(refused_at, m) == first_refused(refused_at, n),
    decreases m,
{
    if n < m {
        lemma_refusal_stands(refused_at, n, (m - 1) as nat);
    }
}

/// Where none of the first places is refused, none of them is.
pub proof fn lemma_none_refused(refused_at: spec_fn(int) -> Option<RemittanceError>, n: nat, k: int)
    requires
        first_refused(refused_at, n) is None,
        0 <= k < n,
    ensures
        refused_at(k) is None,
    decreases n,
{
    if k < n - 1 {
        lemma_none_refused(refused_at, (n - 1) as nat, k);
    }
}

/// Marking escrows that exist neither adds nor removes an escrow, and
/// leaves those that are not named as they were.
pub proof fn lemma_status_frame(
    escrows: Map<u64, EscrowData>,
    ids: Seq<Option<u64>>,
    status: BatchStatus,
    n: nat,
    id: u64,
)
    requires
        n <= ids.len(),
        forall|k: int|
            0 <= k < n ==> (#[trigger] ids[k]) is Some && escrows.contains_key(ids[k]->0),
    ensures
        given_status(escrows, ids, status, n).contains_key(id) == escrows.contains_key(id),
        !ids.take(n as int).contains(Some(id)) ==> given_status(escrows, ids, status, n)[id]
            == escrows[id],
    decreases n,
{
    if n > 0 {
        lemma_status_frame(escrows, ids, status, (n - 1) as nat, id);
        assert(ids[n - 1] is Some && escrows.contains_key(ids[n - 1]->0));
        if !ids.take(n as int).contains(Some(id)) {
            assert(ids.take(n as int)[n - 1] == ids[n - 1]);
            assert(ids[n - 1] != Some(id));
            let shorter = ids.take(n - 1);
            if shorter.contains(Some(id)) {
                let j = choose|j: int| 0 <= j < shorter.len() && #[trigger] shorter[j] == Some(id);
                assert(ids.take(n as int)[j] == Some(id));
            }
        }
    }
}

/// Whether the escrow named at place `k` was named before in the batch.
fn named_before(ids: &NumberList, k: u32) -> (before: bool)
    requires
        k < numbers(*ids).len(),
    ensures
        before == numbers(*ids).take(k as int).contains(numbers(*ids)[k as int]),
{
    let named = number_at(ids, k);
    let mut j: u32 = 0;
    while j < k
        invariant
            j <= k,
            k < numbers(*ids).len(),
            named == numbers(*ids)[k as int],
            forall|i: int| 0 <= i < j ==> numbers(*ids)[i] != numbers(*ids)[k as int],
        decreases k - j,
    {
        if number_at(ids, j) == named {
            assert(numbers(*ids).take(k as int)[j as int] == numbers(*ids)[k as int]);
            return true;
        }
        j = j + 1;
    }
    false
}

impl RemittanceHubContract {
    /// Gives `status` to every escrow named.
    fn mark_escrows(&mut self, ids: &NumberList, status: BatchStatus)
        requires
            old(self).wf(),
            forall|k: int|
                0 <= k < numbers(*ids).len() ==> (#[trigger] numbers(*ids)[k]) is Some
                    && old(self)@.escrows.contains_key(numbers(*ids)[k]->0),
            forall|k: int|
                0 <= k < numbers(*ids).len() ==> !numbers(*ids).take(k).contains(
                    #[trigger] numbers(*ids)[k],
                ),
        ensures
            final(self).wf(),
            final(self)@ == (HubView {
                escrows: given_status(
                    old(self)@.escrows,
                    numbers(*ids),
                    status,
                    numbers(*ids).len(),
                ),
                ..old(self)@
            }),
    {
        let ghost before = self@.escrows;
        let ghost named = numbers(*ids);
        let n = numbers_len(ids);
        let mut k: u32 = 0;
        while k < n
            invariant
                k <= n,
                n == named.len(),
                named == numbers(*ids),
                self.wf(),
                before == old(self)@.escrows,
                forall|j: int|
                    0 <= j < named.len() ==> (#[trigger] named[j]) is Some && before.contains_key(
                        named[j]->0,
                    ),
                forall|j: int|
                    0 <= j < named.len() ==> !named.take(j).contains(#[trigger] named[j]),
                self@ == (HubView {
                    escrows: given_status(before, named, status, k as nat),
                    ..old(self)@
                }),
            decreases n - k,
        {
            let ghost current = self.escrows;
            proof {
                lemma_status_frame(before, named, status, k as nat, named[k as int]->0);
            }
            match number_at(ids, k) {
                Some(id) => {
                    match self.escrows.find(&id) {
                        Some(at) => {
                            self.escrows.values[at].status = status;
                            proof {
                                lemma_value_replaced(current, self.escrows, at as int);
                            }
                        },
                        None => {},
                    }
                },
                None => {},
            }
            k = k + 1;
        }
    }

    /// Opens an escrow for `sender` on each request and returns their
    /// numbers, which follow the last number given.
    ///
    /// `BatchTooLarge` for more than 10 requests; else the refusal of the
    /// first request that is refused.
    pub fn batch_create_escrows(
        &mut self,
        sender: &Address,
        requests: Vec<EscrowRequest>,
        now: u64,
    ) -> (r:
        Result<Vec<u64>, RemittanceError>)
        requires
            old(self).wf(),
        ensures
            final(self).wf(),
            match batch_refused(requests@, old(self).escrow_counter, now) {
                Some(e) => r == Err::<Vec<u64>, RemittanceError>(e) && final(self)@ == old(self)@,
                None => {
                    &&& r is Ok
                    &&& r->Ok_0@ == Seq::new(
                        requests@.len(),
                        |k: int| (old(self).escrow_counter + 1 + k) as u64,
                    )
                    &&& final(self)@ == (HubView {
                        escrow_counter: (old(self).escrow_counter + requests@.len()) as u64,
                        escrows: opened(
                            old(self)@.escrows,
                            *sender,
                            requests@,
                            old(self).escrow_counter,
                            requests@.len(),
                        ),
                        ..old(self)@
                    })
                },
            },
    {
        if requests.len() > MAX_BATCH {
            return Err(RemittanceError::BatchTooLarge);
        }
        let counter = self.escrow_counter;
        let n = requests.len();
        let mut i: usize = 0;
        while i < n
            invariant
                i <= n,
                n == requests@.len(),
                n <= 10,
                self.wf(),
                self@ == old(self)@,
                counter == old(self).escrow_counter,
                first_refusal(requests@, counter, now, i as nat) is None,
                i > 0 ==> counter + i - 1 < u64::MAX,
            decreases n - i,
        {
            let refusal = if requests[i].amount <= 0 {
                Some(RemittanceError::InvalidAmount)
            } else if requests[i].expiration_timestamp <= now {
                Some(RemittanceError::DueDateInPast)
            } else if counter >= u64::MAX - i as u64 {
                Some(RemittanceError::InvalidAmount)
            } else {
                None
            };
            proof {
                assert(refusal == request_refused(requests@[i as int], counter + i, now));
                assert(first_refusal(requests@, counter, now, (i + 1) as nat) == refusal);
            }
            match refusal {
                Some(e) => {
                    proof {
                        lemma_first_refusal_stands(
                            requests@,
                            counter,
                            now,
                            (i + 1) as nat,
                            n as nat,
                        );
                    }
                    return Err(e);
                },
                None => {},
            }
            i = i + 1;
        }
        let mut ids: Vec<u64> = Vec::new();
        let mut k: usize = 0;
        while k < n
            invariant
                k <= n,
                n == requests@.len(),
                n <= 10,
                n > 0 ==> counter + n - 1 < u64::MAX,
                counter == old(self).escrow_counter,
                self.wf(),
                ids@ == Seq::new(k as nat, |j: int| (counter + 1 + j) as u64),
                self@ == (HubView {
                    escrows: opened(old(self)@.escrows, *sender, requests@, counter, k as nat),
                    ..old(self)@
                }),
            decreases n - k,
        {
            let id = counter + k as u64 + 1;
            let request = &requests[k];
            let escrow = EscrowData {
                sender: sender.duplicate(),
                recipient: request.recipient.duplicate(),
                amount: request.amount,
                asset: request.asset.duplicate(),
                expiration_timestamp: request.expiration_timestamp,
                status: BatchStatus::Pending,
            };
            self.escrows.set(id, escrow);
            ids.push(id);
            k = k + 1;
            proof {
                assert(ids@ =~= Seq::new(k as nat, |j: int| (counter + 1 + j) as u64));
            }
        }
        self.escrow_counter = counter + n as u64;
        Ok(ids)
    }

    /// Funds the pending escrows named, all of them `sender`'s, and returns
    /// what is to be moved into custody: their amounts and the hub's fee on
    /// each.
    pub fn batch_deposit(&mut self, sender: &Address, escrow_ids: &NumberList) -> (r: Result<
        BatchDeposit,
        RemittanceError,
    >)
        requires
            old(self).wf(),
        ensures
            final(self).wf(),
            match funding_refused(old(self)@.escrows, sender@, numbers(*escrow_ids)) {
                Some(e) => r == Err::<BatchDeposit, RemittanceError>(e)
                    && final(self)@ == old(self)@,
                None => {
                    &&& r is Ok
                    &&& r->Ok_0.total_amount == amounts(
                        old(self)@.escrows,
                        numbers(*escrow_ids),
                        numbers(*escrow_ids).len(),
                    )
                    &&& r->Ok_0.total_fees == fees(
                        old(self)@.escrows,
                        numbers(*escrow_ids),
                        numbers(*escrow_ids).len(),
                    )
                    &&& r->Ok_0.total_transfer == r->Ok_0.total_amount + r->Ok_0.total_fees
                    &&& final(self)@ == (HubView {
                        escrows: given_status(
                            old(self)@.escrows,
                            numbers(*escrow_ids),
                            BatchStatus::Funded,
                            numbers(*escrow_ids).len(),
                        ),
                        ..old(self)@
                    })
                },
            },
    {
        let ghost escrows = self@.escrows;
        let ghost named = numbers(*escrow_ids);
        let ghost refused_at = |k: int| funding_refused_at(escrows, sender@, named, k);
        let n = numbers_len(escrow_ids);
        let mut total_amount: i128 = 0;
        let mut total_fees: i128 = 0;
        let mut k: u32 = 0;
        while k < n
            invariant
                k <= n,
                n == numbers(*escrow_ids).len(),
                self.wf(),
                escrows == self@.escrows,
                named == numbers(*escrow_ids),
                refused_at == |k: int| funding_refused_at(escrows, sender@, named, k),
                first_refused(refused_at, k as nat) is None,
                total_amount == amounts(escrows, numbers(*escrow_ids), k as nat),
                total_fees == fees(escrows, numbers(*escrow_ids), k as nat),
            decreases n - k,
        {
            let found = match number_at(escrow_ids, k) {
                Some(id) => self.escrows.get(&id),
                None => None,
            };
            let refusal = match found {
                None => Some(RemittanceError::NotFound),
                Some(escrow) => {
                    if !escrow.sender.same_as(sender) {
                        Some(RemittanceError::Unauthorized)
                    } else if escrow.status != BatchStatus::Pending || named_before(escrow_ids, k) {
                        Some(RemittanceError::InvalidStatus)
                    } else {
                        let fee = charge(escrow.amount);
                        let amount = total_amount.checked_add(escrow.amount);
                        match (amount, total_fees.checked_add(fee)) {
                            (Some(amount), Some(fees)) => {
                                total_amount = amount;
                                total_fees = fees;
                                None
                            },
                            _ => Some(RemittanceError::InvalidAmount),
                        }
                    }
                },
            };
            proof {
                assert(refusal == refused_at(k as int));
                assert(first_refused(refused_at, (k + 1) as nat) == refusal);
            }
            match refusal {
                Some(e) => {
                    proof {
                        lemma_refusal_stands(refused_at, (k + 1) as nat, n as nat);
                    }
                    return Err(e);
                },
                None => {},
            }
            k = k + 1;
        }
        let total_transfer = match total_amount.checked_add(total_fees) {
            Some(total) => total,
            None => {
                return Err(RemittanceError::InvalidAmount);
            },
        };
        proof {
            let named = numbers(*escrow_ids);
            assert forall|j: int| 0 <= j < n implies (#[trigger] named[j]) is Some
                && escrows.contains_key(named[j]->0) && !named.take(j).contains(named[j]) by {
                lemma_none_refused(refused_at, n as nat, j);
            }
        }
        self.mark_escrows(escrow_ids, BatchStatus::Funded);
        Ok(BatchDeposit { total_amount, total_fees, total_transfer })
    }

    /// Releases the funded escrows named, of each of which `caller` is the
    /// recipient or the sender, and returns the payments to make, in the
    /// order of the names.
    pub fn batch_release(&mut self, caller: &Address, escrow_ids: &NumberList) -> (r: Result<
        Vec<Payment>,
        RemittanceError,
    >)
        requires
            old(self).wf(),
        ensures
            final(self).wf(),
            match releasing_refused(old(self)@.escrows, caller@, numbers(*escrow_ids)) {
                Some(e) => r == Err::<Vec<Payment>, RemittanceError>(e)
                    && final(self)@ == old(self)@,
                None => {
                    &&& r is Ok
                    &&& r->Ok_0@ == payments(old(self)@.escrows, numbers(*escrow_ids))
                    &&& final(self)@ == (HubView {
                        escrows: given_status(
                            old(self)@.escrows,
                            numbers(*escrow_ids),
                            BatchStatus::Released,
                            numbers(*escrow_ids).len(),
                        ),
                        ..old(self)@
                    })
                },
            },
    {
        let ghost escrows = self@.escrows;
        let ghost named = numbers(*escrow_ids);
        let ghost refused_at = |k: int| release_refused_at(escrows, caller@, named, k);
        let n = numbers_len(escrow_ids);
        let mut transfers: Vec<Payment> = Vec::new();
        let mut k: u32 = 0;
        while k < n
            invariant
                k <= n,
                n == numbers(*escrow_ids).len(),
                self.wf(),
                escrows == self@.escrows,
                named == numbers(*escrow_ids),
                refused_at == |k: int| release_refused_at(escrows, caller@, named, k),
                first_refused(refused_at, k as nat) is None,
                transfers@ == payments(escrows, numbers(*escrow_ids).take(k as int)),
            decreases n - k,
        {
            let found = match number_at(escrow_ids, k) {
                Some(id) => self.escrows.get(&id),
                None => None,
            };
            let refusal = match found {
                None => Some(RemittanceError::NotFound),
                Some(escrow) => {
                    if !escrow.recipient.same_as(caller) && !escrow.sender.same_as(caller) {
                        Some(RemittanceError::Unauthorized)
                    } else if escrow.status != BatchStatus::Funded || named_before(escrow_ids, k) {
                        Some(RemittanceError::InvalidStatus)
                    } else {
                        transfers.push(
                            Payment { to: escrow.recipient.duplicate(), amount: escrow.amount },
                        );
                        None
                    }
                },
            };
            proof {
                assert(refusal == refused_at(k as int));
                assert(first_refused(refused_at, (k + 1) as nat) == refusal);
            }
            match refusal {
                Some(e) => {
                    proof {
                        lemma_refusal_stands(refused_at, (k + 1) as nat, n as nat);
                    }
                    return Err(e);
                },
                None => {},
            }
            k = k + 1;
            proof {
                assert(transfers@ =~= payments(escrows, numbers(*escrow_ids).take(k as int)));
            }
        }
        proof {
            assert(numbers(*escrow_ids).take(n as int) =~= numbers(*escrow_ids));
            let named = numbers(*escrow_ids);
            assert forall|j: int| 0 <= j < n implies (#[trigger] named[j]) is Some
                && escrows.contains_key(named[j]->0) && !named.take(j).contains(named[j]) by {
                lemma_none_refused(refused_at, n as nat, j);
            }
        }
        self.mark_escrows(escrow_ids, BatchStatus::Released);
        Ok(transfers)
    }
}

/// A refusal among the first requests stays the first refusal among more.
pub proof fn lemma_first_refusal_stands(
    requests: Seq<EscrowRequest>,
    counter: u64,
    now: u64,
    n: nat,
    m: nat,
)
    requires
        n <= m,
        first_refusal(requests, counter, now, n) is Some,
    ensures
        first_refusal(requests, counter, now, m) == first_refusal(requests, counter, now, n),
    decreases m,
{
    if n < m {
        lemma_first_refusal_stands(requests, counter, now, n, (m - 1) as nat);
    }
}

} // verus!
