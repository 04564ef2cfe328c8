use vstd::prelude::*;

verus! {

/// What a chain reported when it refused a submitted transaction.
#[derive(Clone, Copy, Debug, PartialEq, Eq, Structural)]
pub enum SubmissionFailure {
    UnderPriced,
    NonceConflict,
    InsufficientFunds,
    Other,
}

/// A rule's opinion on one failed attempt.
#[derive(Clone, Copy, Debug, PartialEq, Eq, Structural)]
pub enum Verdict {
    /// Try again, raising the gas price by this many percent.
    Retryable(u8),
    /// Stop at once.
    Fatal,
    /// Leave the decision to the next rule.
    NoOpinion,
}

/// A classification rule for failed submissions.
#[derive(Clone, Copy, Debug, PartialEq, Eq, Structural)]
pub enum SendTransactionErrorRule {
    /// An underpriced transaction is retried with the gas price raised by a fifth.
    UnderPriced,
    /// A nonce race is retried at the same gas price.
    NonceConflict,
    /// Insufficient funds end the submission.
    InsufficientFunds,
}

/// The percentage by which an underpriced transaction's gas price is raised.
pub const UNDERPRICED_GAS_BUMP_PERCENT: u8 = 20;

/// The verdict of `rule` on `failure`.
pub open spec fn rule_verdict(rule: SendTransactionErrorRule, failure: SubmissionFailure) -> Verdict {
    match rule {
        SendTransactionErrorRule::UnderPriced => if failure == SubmissionFailure::UnderPriced {
            Verdict::Retryable(UNDERPRICED_GAS_BUMP_PERCENT)
        } else {
            Verdict::NoOpinion
        },
        SendTransactionErrorRule::NonceConflict => if failure == SubmissionFailure::NonceConflict {
            Verdict::Retryable(0)
        } else {
            Verdict::NoOpinion
        },
        SendTransactionErrorRule::InsufficientFunds => if failure
            == SubmissionFailure::InsufficientFunds {
            Verdict::Fatal
        } else {
            Verdict::NoOpinion
        },
    }
}

/// The first verdict other than `NoOpinion` among `rules[i..]`, or `NoOpinion`.
pub open spec fn first_verdict_from(
    rules: Seq<SendTransactionErrorRule>,
    i: int,
    failure: SubmissionFailure,
) -> Verdict
    decreases rules.len() - i,
{
    if i < 0 || i >= rules.len() {
        Verdict::NoOpinion
    } else if rule_verdict(rules[i], failure) != Verdict::NoOpinion {
        rule_verdict(rules[i], failure)
    } else {
        first_verdict_from(rules, i + 1, failure)
    }
}

impl SendTransactionErrorRule {
    /// This rule's verdict on `failure`.
    pub fn verify(&self, failure: SubmissionFailure) -> (r: Verdict)
        ensures
            r == rule_verdict(*self, failure),
    {
        match self {
            SendTransactionErrorRule::UnderPriced => if failure == SubmissionFailure::UnderPriced {
                Verdict::Retryable(UNDERPRICED_GAS_BUMP_PERCENT)
            } else {
                Verdict::NoOpinion
            },
            SendTransactionErrorRule::NonceConflict => if failure
                == SubmissionFailure::NonceConflict {
                Verdict::Retryable(0)
            } else {
                Verdict::NoOpinion
            },
            SendTransactionErrorRule::InsufficientFunds => if failure
                == SubmissionFailure::InsufficientFunds {
                Verdict::Fatal
            } else {
                Verdict::NoOpinion
            },
        }
    }
}

/// The rules, in order, that classify failures of both sides' submissions.
pub fn default_rules() -> (r: Vec<SendTransactionErrorRule>)
    ensures
        r@ == seq![SendTransactionErrorRule::UnderPriced, SendTransactionErrorRule::InsufficientFunds],
{
    let mut v: Vec<SendTransactionErrorRule> = Vec::new();
    v.push(SendTransactionErrorRule::UnderPriced);
    v.push(SendTransactionErrorRule::InsufficientFunds);
    proof {
        assert(v@ =~= seq![
            SendTransactionErrorRule::UnderPriced,
            SendTransactionErrorRule::InsufficientFunds,
        ]);
    }
    v
}

/// The verdict of the first rule in `rules` that has an opinion on `failure`.
pub fn classify(rules: &Vec<SendTransactionErrorRule>, failure: SubmissionFailure) -> (r: Verdict)
    ensures
        r == first_verdict_from(rules@, 0, failure),
{
    let mut i: usize = 0;
    while i < rules.len()
        invariant
            i <= rules@.len(),
            first_verdict_from(rules@, 0, failure) == first_verdict_from(rules@, i as int, failure),
        decreases rules@.len() - i,
    {
        let v = rules[i].verify(failure);
        if v != Verdict::NoOpinion {
            return v;
        }
        i = i + 1;
    }
    Verdict::NoOpinion
}

/// Why a submission was given up.
#[derive(Clone, Copy, Debug, PartialEq, Eq, Structural)]
pub enum SendTransactionError {
    /// A rule judged the failure fatal.
    FatalSubmissionError(SubmissionFailure),
    /// The failure was retryable but the retry budget was spent.
    RetryExhausted(SubmissionFailure),
    /// No rule had an opinion on the failure.
    Unclassified(SubmissionFailure),
}

/// Where one submission stands: the retry budget, the retries made, the gas
/// price of the next attempt, and the ceiling that price may not pass.
#[derive(Clone, Copy, Debug, PartialEq, Eq, Structural)]
pub struct RetryState {
    pub max_retries: u32,
    pub retries_done: u32,
    pub gas_price: u64,
    pub gas_ceiling: u64,
}

/// What the caller does next.
#[derive(Clone, Copy, Debug, PartialEq, Eq, Structural)]
pub enum RetryDecision {
    /// Submit again at this gas price.
    Resubmit(u64),
    Succeeded,
    Failed(SendTransactionError),
}

/// `price` raised by `percent` percent (rounded down), but no higher than `ceiling`.
pub open spec fn bumped_price(price: u64, percent: u8, ceiling: u64) -> u64 {
    let raised = price + price * percent / 100;
    if raised > ceiling { ceiling } else { raised as u64 }
}

/// The state and decision that follow an attempt with outcome `outcome`.
pub open spec fn retry_step(
    s: RetryState,
    rules: Seq<SendTransactionErrorRule>,
    outcome: Result<(), SubmissionFailure>,
) -> (RetryState, RetryDecision) {
    match outcome {
        Ok(()) => (s, RetryDecision::Succeeded),
        Err(f) => match first_verdict_from(rules, 0, f) {
            Verdict::Fatal => (s, RetryDecision::Failed(SendTransactionError::FatalSubmissionError(f))),
            Verdict::NoOpinion => (s, RetryDecision::Failed(SendTransactionError::Unclassified(f))),
            Verdict::Retryable(p) => if s.retries_done >= s.max_retries {
                (s, RetryDecision::Failed(SendTransactionError::RetryExhausted(f)))
            } else {
                let n = RetryState {
                    max_retries: s.max_retries,
                    retries_done: (s.retries_done + 1) as u32,
                    gas_price: bumped_price(s.gas_price, p, s.gas_ceiling),
                    gas_ceiling: s.gas_ceiling,
                };
                (n, RetryDecision::Resubmit(n.gas_price))
            },
        },
    }
}

impl RetryState {
    /// The retries made never pass the budget, nor the price its ceiling.
    pub open spec fn wf(&self) -> bool {
        &&& self.retries_done <= self.max_retries
        &&& self.gas_price <= self.gas_ceiling
    }

    /// The state before the first attempt: `max_retries` retries allowed, at
    /// `gas_price` held to `gas_ceiling`.
    pub fn start(max_retries: u32, gas_price: u64, gas_ceiling: u64) -> (r: RetryState)
        ensures
            r.wf(),
            r.max_retries == max_retries,
            r.retries_done == 0,
            r.gas_ceiling == gas_ceiling,
            r.gas_price == if gas_price > gas_ceiling { gas_ceiling } else { gas_price },
    {
        let p = if gas_price > gas_ceiling { gas_ceiling } else { gas_price };
        RetryState { max_retries, retries_done: 0, gas_price: p, gas_ceiling }
    }

    /// Decides what follows an attempt with outcome `outcome`, classified by `rules`.
    pub fn next(
        &self,
        rules: &Vec<SendTransactionErrorRule>,
        outcome: Result<(), SubmissionFailure>,
    ) -> (r: (RetryState, RetryDecision))
        requires
            self.wf(),
        ensures
            r == retry_step(*self, rules@, outcome),
            r.0.wf(),
    {
        match outcome {
            Ok(()) => (*self, RetryDecision::Succeeded),
            Err(f) => match classify(rules, f) {
                Verdict::Fatal => (
                    *self,
                    RetryDecision::Failed(SendTransactionError::FatalSubmissionError(f)),
                ),
                Verdict::NoOpinion => (
                    *self,
                    RetryDecision::Failed(SendTransactionError::Unclassified(f)),
                ),
                Verdict::Retryable(p) => {
                    if self.retries_done >= self.max_retries {
                        (*self, RetryDecision::Failed(SendTransactionError::RetryExhausted(f)))
                    } else {
                        proof {
                            let g = self.gas_price as int;
                            assert(g * (p as int) <= 0xffff_ffff_ffff_ffff * 255) by (nonlinear_arith)
                                requires
                                    0 <= g <= 0xffff_ffff_ffff_ffff,
                                    0 <= p <= 255,
                            ;
                        }
                        let raised: u128 = self.gas_price as u128 + (self.gas_price as u128)
                            * (p as u128) / 100;
                        let price: u64 = if raised > self.gas_ceiling as u128 {
                            self.gas_ceiling
                        } else {
                            raised as u64
                        };
                        let n = RetryState {
                            max_retries: self.max_retries,
                            retries_done: self.retries_done + 1,
                            gas_price: price,
                            gas_ceiling: self.gas_ceiling,
                        };
                        (n, RetryDecision::Resubmit(price))
                    }
                },
            },
        }
    }
}

} // verus!
