//! Programmable release conditions and their evaluation.

use vstd::prelude::*;

verus! {

#[derive(Clone, Copy, PartialEq, Eq, Debug, Structural)]
pub enum ConditionType {
    Timestamp,
    Approval,
    OraclePrice,
    MultiSignature,
    KYCVerified,
}

#[derive(Clone, Copy, PartialEq, Eq, Debug, Structural)]
pub enum ConditionOperator {
    And,
    Or,
}

/// One release condition. `verified` caches the outcome of the last
/// evaluation; it is recomputed by every evaluation.
#[derive(Clone, Copy, PartialEq, Eq, Debug, Structural)]
pub struct Condition {
    pub condition_type: ConditionType,
    pub required: bool,
    pub verified: bool,
    pub threshold_value: i128,
}

/// What the conditions of one escrow are judged against.
#[derive(Clone, Copy, PartialEq, Eq, Debug, Structural)]
pub struct Facts {
    pub now: u64,
    pub expiration_timestamp: u64,
    pub current_approvals: u32,
    pub min_approvals: u32,
    pub proof_data: i128,
    pub kyc_compliant: bool,
}

/// The outcome of an evaluation: the verdict, and the types of the required
/// conditions that failed, in the order of the conditions.
#[derive(Clone, Debug, PartialEq, Eq)]
pub struct VerificationResult {
    pub all_passed: bool,
    pub failed_conditions: Vec<ConditionType>,
}

/// The release terms embedded in an escrow.
#[derive(Clone, Debug, PartialEq, Eq)]
pub struct ReleaseCondition {
    pub expiration_timestamp: u64,
    pub recipient_approval: bool,
    pub oracle_confirmation: bool,
    pub conditions: Vec<Condition>,
    pub operator: ConditionOperator,
    pub min_approvals: u32,
    pub current_approvals: u32,
}

impl Condition {
    /// Whether the condition passes against `facts`.
    pub open spec fn holds(&self, facts: Facts) -> bool {
        match self.condition_type {
            ConditionType::Timestamp => facts.now >= facts.expiration_timestamp,
            ConditionType::Approval => facts.current_approvals >= facts.min_approvals,
            ConditionType::OraclePrice => facts.proof_data > 0 && facts.proof_data
                >= self.threshold_value,
            ConditionType::MultiSignature => facts.current_approvals >= facts.min_approvals,
            ConditionType::KYCVerified => facts.kyc_compliant,
        }
    }

    /// The condition with `verified` set to its outcome against `facts`.
    pub open spec fn judged(&self, facts: Facts) -> Condition {
        Condition { verified: self.holds(facts), ..*self }
    }

    /// The type of the condition where it is required and fails.
    pub open spec fn failure(&self, facts: Facts) -> Option<ConditionType> {
        if self.required && !self.holds(facts) {
            Some(self.condition_type)
        } else {
            None
        }
    }

    /// Judges the condition against `facts`.
    pub fn check(&self, facts: &Facts) -> (passed: bool)
        ensures
            passed == self.holds(*facts),
    {
        match self.condition_type {
            ConditionType::Timestamp => facts.now >= facts.expiration_timestamp,
            ConditionType::Approval => facts.current_approvals >= facts.min_approvals,
            ConditionType::OraclePrice => {
                if facts.proof_data > 0 {
                    facts.proof_data >= self.threshold_value
                } else {
                    false
                }
            },
            ConditionType::MultiSignature => facts.current_approvals >= facts.min_approvals,
            ConditionType::KYCVerified => facts.kyc_compliant,
        }
    }
}

/// The conditions `conditions`, each judged against `facts`.
pub open spec fn judged_all(conditions: Seq<Condition>, facts: Facts) -> Seq<Condition> {
    Seq::new(conditions.len(), |i: int| conditions[i].judged(facts))
}

/// The types of the required conditions that fail against `facts`, in order.
pub open spec fn failures(conditions: Seq<Condition>, facts: Facts) -> Seq<ConditionType> {
    conditions.filter_map(|c: Condition| c.failure(facts))
}

/// The verdict on `conditions` under `operator`: under `And`, no required
/// condition fails; under `Or`, some condition passes.
pub open spec fn verdict(
    conditions: Seq<Condition>,
    operator: ConditionOperator,
    facts: Facts,
) -> bool {
    match operator {
        ConditionOperator::And => forall|i: int|
            0 <= i < conditions.len() && conditions[i].required ==> #[trigger] conditions[i].holds(
                facts,
            ),
        ConditionOperator::Or => exists|i: int|
            0 <= i < conditions.len() && #[trigger] conditions[i].holds(facts),
    }
}

impl ReleaseCondition {
    /// The terms of a new escrow: no conditions, `And`, one approval asked
    /// and none given.
    pub fn new(expiration_timestamp: u64) -> (terms: ReleaseCondition)
        ensures
            terms.expiration_timestamp == expiration_timestamp,
            !terms.recipient_approval,
            !terms.oracle_confirmation,
            terms.conditions@ == Seq::<Condition>::empty(),
            terms.operator == ConditionOperator::And,
            terms.min_approvals == 1,
            terms.current_approvals == 0,
    {
        ReleaseCondition {
            expiration_timestamp,
            recipient_approval: false,
            oracle_confirmation: false,
            conditions: Vec::new(),
            operator: ConditionOperator::And,
            min_approvals: 1,
            current_approvals: 0,
        }
    }

    /// The facts that these terms contribute, with the three that the caller
    /// supplies.
    pub open spec fn facts_at(&self, now: u64, proof_data: i128, kyc_compliant: bool) -> Facts {
        Facts {
            now,
            expiration_timestamp: self.expiration_timestamp,
            current_approvals: self.current_approvals,
            min_approvals: self.min_approvals,
            proof_data,
            kyc_compliant,
        }
    }

    /// `after` is these terms with `condition` added at the end and nothing
    /// else changed.
    pub open spec fn extended(&self, after: ReleaseCondition, condition: Condition) -> bool {
        &&& after == (ReleaseCondition { conditions: after.conditions, ..*self })
        &&& after.conditions@ == self.conditions@.push(condition)
    }

    /// Whether the terms are met against `facts`.
    pub open spec fn satisfied(&self, facts: Facts) -> bool {
        verdict(self.conditions@, self.operator, facts)
    }

    /// The terms after an evaluation against `facts`: every condition
    /// judged, nothing else changed.
    pub open spec fn evaluated(&self, after: ReleaseCondition, facts: Facts) -> bool {
        &&& after == (ReleaseCondition { conditions: after.conditions, ..*self })
        &&& after.conditions@ == judged_all(self.conditions@, facts)
    }

    /// Judges every condition against the terms' own state, `now`,
    /// `proof_data` and `kyc_compliant`, stores each outcome in the
    /// condition, and returns the verdict with the required failures.
    pub fn evaluate(&mut self, now: u64, proof_data: i128, kyc_compliant: bool) -> (result:
        VerificationResult)
        ensures
            old(self).evaluated(*final(self), old(self).facts_at(now, proof_data, kyc_compliant)),
            result.all_passed == old(self).satisfied(
                old(self).facts_at(now, proof_data, kyc_compliant),
            ),
            result.failed_conditions@ == failures(
                old(self).conditions@,
                old(self).facts_at(now, proof_data, kyc_compliant),
            ),
    {
        let facts = Facts {
            now,
            expiration_timestamp: self.expiration_timestamp,
            current_approvals: self.current_approvals,
            min_approvals: self.min_approvals,
            proof_data,
            kyc_compliant,
        };
        let ghost before = self.conditions@;
        let ghost fail = |c: Condition| c.failure(facts);
        let mut failed_conditions: Vec<ConditionType> = Vec::new();
        let mut passed_count: usize = 0;
        let mut required_count: usize = 0;
        let n = self.conditions.len();
        let mut i: usize = 0;
        assert(before.take(0).filter_map(fail) =~= Seq::<ConditionType>::empty());
        while i < n
            invariant
                i <= n,
                n == before.len(),
                self.conditions@.len() == n,
                self.expiration_timestamp == old(self).expiration_timestamp,
                self.recipient_approval == old(self).recipient_approval,
                self.oracle_confirmation == old(self).oracle_confirmation,
                self.operator == old(self).operator,
                self.min_approvals == old(self).min_approvals,
                self.current_approvals == old(self).current_approvals,
                before == old(self).conditions@,
                facts == old(self).facts_at(now, proof_data, kyc_compliant),
                fail == |c: Condition| c.failure(facts),
                forall|j: int| 0 <= j < i ==> self.conditions@[j] == before[j].judged(facts),
                forall|j: int| i <= j < n ==> self.conditions@[j] == before[j],
                failed_conditions@ == before.take(i as int).filter_map(fail),
                passed_count <= i,
                required_count <= i,
                passed_count + failed_conditions@.len() >= required_count,
                passed_count > 0 <==> exists|j: int| 0 <= j < i
                    && #[trigger] before[j].holds(facts),
                failed_conditions@.len() == 0 <==> forall|j: int|
                    0 <= j < i && before[j].required ==> #[trigger] before[j].holds(facts),
            decreases n - i,
        {
            let condition = self.conditions[i];
            let passed = condition.check(&facts);
            if condition.required {
                required_count = required_count + 1;
            }
            self.conditions[i].verified = passed;
            proof {
                before.lemma_filter_map_take_succ(fail, i as int);
            }
            if passed {
                passed_count = passed_count + 1;
            } else if condition.required {
                failed_conditions.push(condition.condition_type);
            }
            i = i + 1;
        }
        assert(before.take(n as int) =~= before);
        assert(self.conditions@ =~= judged_all(before, facts));
        let all_passed = match self.operator {
            ConditionOperator::And => failed_conditions.len() == 0 && (required_count == 0
                || passed_count >= required_count),
            ConditionOperator::Or => passed_count > 0,
        };
        VerificationResult { all_passed, failed_conditions }
    }
}

/// A timestamp condition that passes at one time passes at every later time,
/// the expiration being the same.
pub proof fn lemma_timestamp_monotonic(condition: Condition, facts: Facts, later: u64)
    requires
        condition.condition_type == ConditionType::Timestamp,
        condition.holds(facts),
        later > facts.now,
    ensures
        condition.holds(Facts { now: later, ..facts }),
{
}

/// Judging the conditions changes neither the verdict nor the failures of a
/// second evaluation against the same facts.
pub proof fn lemma_evaluation_idempotent(
    terms: ReleaseCondition,
    after: ReleaseCondition,
    facts: Facts,
)
    requires
        terms.evaluated(after, facts),
    ensures
        after.satisfied(facts) == terms.satisfied(facts),
        failures(after.conditions@, facts) == failures(terms.conditions@, facts),
        judged_all(after.conditions@, facts) == judged_all(terms.conditions@, facts),
{
    let a = after.conditions@;
    let t = terms.conditions@;
    assert forall|i: int| 0 <= i < t.len() implies #[trigger] a[i].holds(facts) == t[i].holds(
        facts,
    ) && a[i].required == t[i].required && a[i].failure(facts) == t[i].failure(facts) by {
        assert(a[i] == t[i].judged(facts));
    }
    assert(judged_all(a, facts) =~= judged_all(t, facts));
    lemma_failures_agree(a, t, facts);
    match terms.operator {
        ConditionOperator::And => {
            if terms.satisfied(facts) {
                assert forall|i: int| 0 <= i < a.len() && a[i].required implies #[trigger] a[i]
                    .holds(facts) by {
                    assert(t[i].holds(facts));
                }
            }
            if after.satisfied(facts) {
                assert forall|i: int| 0 <= i < t.len() && t[i].required implies #[trigger] t[i]
                    .holds(facts) by {
                    assert(a[i].holds(facts));
                }
            }
        },
        ConditionOperator::Or => {
            if terms.satisfied(facts) {
                let i = choose|i: int| 0 <= i < t.len() && #[trigger] t[i].holds(facts);
                assert(a[i].holds(facts));
            }
            if after.satisfied(facts) {
                let i = choose|i: int| 0 <= i < a.len() && #[trigger] a[i].holds(facts);
                assert(t[i].holds(facts));
            }
        },
    }
}

/// Two lists of conditions that fail alike, place by place, have the same
/// failures.
pub proof fn lemma_failures_agree(a: Seq<Condition>, b: Seq<Condition>, facts: Facts)
    requires
        a.len() == b.len(),
        forall|i: int| 0 <= i < a.len() ==> #[trigger] a[i].failure(facts) == b[i].failure(facts),
    ensures
        failures(a, facts) == failures(b, facts),
    decreases a.len(),
{
    if a.len() > 0 {
        let (ra, rb) = (a.drop_last(), b.drop_last());
        assert forall|i: int| 0 <= i < ra.len() implies #[trigger] ra[i].failure(facts)
            == rb[i].failure(facts) by {
            assert(a[i].failure(facts) == b[i].failure(facts));
        }
        lemma_failures_agree(ra, rb, facts);
        assert(a[a.len() - 1].failure(facts) == b[b.len() - 1].failure(facts));
    }
}

/// With no conditions, `And` is met and `Or` is not.
pub proof fn lemma_no_conditions(facts: Facts)
    ensures
        verdict(Seq::<Condition>::empty(), ConditionOperator::And, facts),
        !verdict(Seq::<Condition>::empty(), ConditionOperator::Or, facts),
        failures(Seq::<Condition>::empty(), facts) == Seq::<ConditionType>::empty(),
{
}

/// Under `And` the terms are met exactly when the list of failures is empty.
pub proof fn lemma_and_iff_no_failure(conditions: Seq<Condition>, facts: Facts)
    ensures
        verdict(conditions, ConditionOperator::And, facts) <==> failures(conditions, facts).len()
            == 0,
    decreases conditions.len(),
{
    if conditions.len() > 0 {
        let rest = conditions.drop_last();
        lemma_and_iff_no_failure(rest, facts);
        assert(forall|i: int| 0 <= i < rest.len() ==> rest[i] == conditions[i]);
        if verdict(conditions, ConditionOperator::And, facts) {
            assert(conditions.last() == conditions[conditions.len() - 1]);
            assert(verdict(rest, ConditionOperator::And, facts));
        }
        if failures(conditions, facts).len() == 0 {
            assert forall|i: int| 0 <= i < conditions.len()
                && conditions[i].required implies #[trigger] conditions[i].holds(facts) by {
                if i < rest.len() {
                    assert(rest[i] == conditions[i]);
                }
            }
        }
    }
}

} // verus!
