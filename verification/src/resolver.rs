//! Finding out the node type at start: a bounded run of probes at a fixed interval.
//! The caller probes and waits; the resolver decides what comes next.

use crate::inventory::{determine_node_type, node_type, DStackResponse, InventoryView};
use crate::transport::{outcome_view, TransportError, TransportErrorView};
use vstd::prelude::*;

verus! {

/// How often and at what interval the backend is probed.
#[derive(Copy, Clone, PartialEq, Eq, Structural, Debug)]
pub struct RetryPolicy {
    pub max_attempts: u32,
    pub retry_delay_secs: u64,
}

impl RetryPolicy {
    /// Five attempts, two seconds apart.
    pub fn standard() -> (policy: RetryPolicy)
        ensures
            policy == (RetryPolicy { max_attempts: 5, retry_delay_secs: 2 }),
    {
        RetryPolicy { max_attempts: 5, retry_delay_secs: 2 }
    }
}

/// Where a resolution stands.
#[derive(Debug, Clone, PartialEq)]
pub enum ResolverState {
    /// `attempts_made` probes failed; another one is due.
    Probing { attempts_made: u32 },
    /// The node type is settled after `attempts_made` probes.
    Resolved { node_type: String, attempts_made: u32 },
}

/// What a [`ResolverState`] holds.
pub enum ResolverStateView {
    Probing { attempts_made: nat },
    Resolved { node_type: Seq<char>, attempts_made: nat },
}

impl View for ResolverState {
    type V = ResolverStateView;

    open spec fn view(&self) -> ResolverStateView {
        match self {
            ResolverState::Probing { attempts_made } => ResolverStateView::Probing {
                attempts_made: *attempts_made as nat,
            },
            ResolverState::Resolved { node_type, attempts_made } => ResolverStateView::Resolved {
                node_type: node_type@,
                attempts_made: *attempts_made as nat,
            },
        }
    }
}

/// What the caller does next.
#[derive(Copy, Clone, PartialEq, Eq, Structural, Debug)]
pub enum ResolverAction {
    /// Probe the backend now.
    Probe,
    /// Wait, then probe the backend.
    WaitThenProbe { delay_secs: u64 },
    /// Nothing: the node type is settled.
    Finish,
}

/// The state and the action at the start of a resolution.
pub open spec fn resolver_start(policy: RetryPolicy) -> (ResolverStateView, ResolverAction) {
    if policy.max_attempts == 0 {
        (
            ResolverStateView::Resolved { node_type: "Unknown"@, attempts_made: 0 },
            ResolverAction::Finish,
        )
    } else {
        (ResolverStateView::Probing { attempts_made: 0 }, ResolverAction::Probe)
    }
}

/// The state and the action after the outcome of a probe: an inventory settles the
/// node type; a failure leads to another probe after the interval, or, with the
/// attempts spent, settles the node type as `Unknown`.
pub open spec fn resolver_step(
    policy: RetryPolicy,
    state: ResolverStateView,
    outcome: Result<InventoryView, TransportErrorView>,
) -> (ResolverStateView, ResolverAction) {
    match state {
        ResolverStateView::Resolved { .. } => (state, ResolverAction::Finish),
        ResolverStateView::Probing { attempts_made } => if attempts_made >= policy.max_attempts {
            (
                ResolverStateView::Resolved { node_type: "Unknown"@, attempts_made },
                ResolverAction::Finish,
            )
        } else {
            match outcome {
                Ok(inventory) => (
                    ResolverStateView::Resolved {
                        node_type: node_type(inventory),
                        attempts_made: attempts_made + 1,
                    },
                    ResolverAction::Finish,
                ),
                Err(_) => if attempts_made + 1 >= policy.max_attempts {
                    (
                        ResolverStateView::Resolved {
                            node_type: "Unknown"@,
                            attempts_made: attempts_made + 1,
                        },
                        ResolverAction::Finish,
                    )
                } else {
                    (
                        ResolverStateView::Probing { attempts_made: attempts_made + 1 },
                        ResolverAction::WaitThenProbe { delay_secs: policy.retry_delay_secs },
                    )
                },
            }
        },
    }
}

/// The state after a run of probes with the given outcomes, one after the other.
pub open spec fn resolver_run(
    policy: RetryPolicy,
    state: ResolverStateView,
    outcomes: Seq<Result<InventoryView, TransportErrorView>>,
) -> ResolverStateView
    decreases outcomes.len(),
{
    if outcomes.len() == 0 {
        state
    } else {
        resolver_run(policy, resolver_step(policy, state, outcomes[0]).0, outcomes.drop_first())
    }
}

/// Starts a resolution.
pub fn start_resolution(policy: RetryPolicy) -> (next: (ResolverState, ResolverAction))
    ensures
        (next.0@, next.1) == resolver_start(policy),
{
    if policy.max_attempts == 0 {
        (
            ResolverState::Resolved { node_type: String::from_str("Unknown"), attempts_made: 0 },
            ResolverAction::Finish,
        )
    } else {
        (ResolverState::Probing { attempts_made: 0 }, ResolverAction::Probe)
    }
}

/// Takes the outcome of a probe and says what comes next.
pub fn on_probe_outcome(
    policy: RetryPolicy,
    state: ResolverState,
    outcome: &Result<DStackResponse, TransportError>,
) -> (next: (ResolverState, ResolverAction))
    ensures
        (next.0@, next.1) == resolver_step(policy, state@, outcome_view(*outcome)),
{
    match state {
        ResolverState::Resolved { node_type, attempts_made } => (
            ResolverState::Resolved { node_type, attempts_made },
            ResolverAction::Finish,
        ),
        ResolverState::Probing { attempts_made } => {
            if attempts_made >= policy.max_attempts {
                return (
                    ResolverState::Resolved {
                        node_type: String::from_str("Unknown"),
                        attempts_made,
                    },
                    ResolverAction::Finish,
                );
            }
            let made: u32 = attempts_made + 1;
            match outcome {
                Ok(inventory) => (
                    ResolverState::Resolved {
                        node_type: determine_node_type(inventory),
                        attempts_made: made,
                    },
                    ResolverAction::Finish,
                ),
                Err(_) => {
                    if made >= policy.max_attempts {
                        (
                            ResolverState::Resolved {
                                node_type: String::from_str("Unknown"),
                                attempts_made: made,
                            },
                            ResolverAction::Finish,
                        )
                    } else {
                        (
                            ResolverState::Probing { attempts_made: made },
                            ResolverAction::WaitThenProbe { delay_secs: policy.retry_delay_secs },
                        )
                    }
                },
            }
        },
    }
}

/// What each outcome of a list holds.
pub open spec fn outcomes_view(outcomes: Seq<Result<DStackResponse, TransportError>>) -> Seq<
    Result<InventoryView, TransportErrorView>,
> {
    Seq::new(outcomes.len(), |i: int| outcome_view(outcomes[i]))
}

/// Runs a resolution over recorded outcomes, one probe after the other.
pub fn replay_resolution(
    policy: RetryPolicy,
    outcomes: &Vec<Result<DStackResponse, TransportError>>,
) -> (state: ResolverState)
    ensures
        state@ == resolver_run(policy, resolver_start(policy).0, outcomes_view(outcomes@)),
{
    let ghost views = outcomes_view(outcomes@);
    let (mut state, _) = start_resolution(policy);
    let mut i: usize = 0;
    assert(views.skip(0) =~= views);
    while i < outcomes.len()
        invariant
            i <= outcomes.len(),
            views == outcomes_view(outcomes@),
            resolver_run(policy, state@, views.skip(i as int)) == resolver_run(
                policy,
                resolver_start(policy).0,
                views,
            ),
        decreases outcomes.len() - i,
    {
        proof {
            assert(views.skip(i as int)[0] == views[i as int]);
            assert(views.skip(i as int).drop_first() =~= views.skip(i + 1));
        }
        let (next, _) = on_probe_outcome(policy, state, &outcomes[i]);
        state = next;
        i += 1;
    }
    assert(views.skip(i as int).len() == 0);
    state
}

impl ResolverState {
    /// The node type as far as it is known: `Unknown` until it is settled.
    pub fn node_type(&self) -> (name: String)
        ensures
            name@ == match self@ {
                ResolverStateView::Resolved { node_type, .. } => node_type,
                ResolverStateView::Probing { .. } => "Unknown"@,
            },
    {
        match self {
            ResolverState::Resolved { node_type, .. } => node_type.clone(),
            ResolverState::Probing { .. } => String::from_str("Unknown"),
        }
    }

    /// The number of probes made so far.
    pub fn attempts_made(&self) -> (count: u32)
        ensures
            count as nat == match self@ {
                ResolverStateView::Resolved { attempts_made, .. } => attempts_made,
                ResolverStateView::Probing { attempts_made } => attempts_made,
            },
    {
        match self {
            ResolverState::Resolved { attempts_made, .. } => *attempts_made,
            ResolverState::Probing { attempts_made } => *attempts_made,
        }
    }
}

/// An inventory without accelerators settles the node type as `CPU` with the first
/// probe.
pub proof fn lemma_cpu_in_one_attempt(policy: RetryPolicy, inventory: InventoryView)
    requires
        policy.max_attempts >= 1,
        inventory.gpus.len() == 0,
    ensures
        resolver_step(policy, resolver_start(policy).0, Ok(inventory)) == (
            ResolverStateView::Resolved { node_type: "CPU"@, attempts_made: 1 },
            ResolverAction::Finish,
        ),
{
}

/// An inventory settles the node type with the first probe, whatever it holds.
pub proof fn lemma_success_in_one_attempt(policy: RetryPolicy, inventory: InventoryView)
    requires
        policy.max_attempts >= 1,
    ensures
        resolver_step(policy, resolver_start(policy).0, Ok(inventory)) == (
            ResolverStateView::Resolved { node_type: node_type(inventory), attempts_made: 1 },
            ResolverAction::Finish,
        ),
{
}

proof fn lemma_failures_from(
    policy: RetryPolicy,
    done: nat,
    outcomes: Seq<Result<InventoryView, TransportErrorView>>,
)
    requires
        done < policy.max_attempts,
        outcomes.len() == policy.max_attempts - done,
        forall|i: int| 0 <= i < outcomes.len() ==> outcomes[i] is Err,
    ensures
        resolver_run(policy, ResolverStateView::Probing { attempts_made: done }, outcomes)
            == (ResolverStateView::Resolved {
            node_type: "Unknown"@,
            attempts_made: policy.max_attempts as nat,
        }),
    decreases outcomes.len(),
{
    let rest = outcomes.drop_first();
    let first = ResolverStateView::Probing { attempts_made: done };
    let second = resolver_step(policy, first, outcomes[0]).0;
    assert(outcomes[0] is Err);
    assert(resolver_run(policy, first, outcomes) == resolver_run(policy, second, rest));
    if done + 1 < policy.max_attempts {
        assert(second == ResolverStateView::Probing { attempts_made: done + 1 });
        assert forall|i: int| 0 <= i < rest.len() implies rest[i] is Err by {
            assert(rest[i] == outcomes[i + 1]);
        }
        lemma_failures_from(policy, done + 1, rest);
    } else {
        assert(rest.len() == 0);
        assert(resolver_run(policy, second, rest) == second);
    }
}

/// Where every one of `max_attempts` probes fails, the node type is settled as
/// `Unknown`, and exactly `max_attempts` probes were made.
pub proof fn lemma_unreachable_backend(
    policy: RetryPolicy,
    outcomes: Seq<Result<InventoryView, TransportErrorView>>,
)
    requires
        outcomes.len() == policy.max_attempts,
        forall|i: int| 0 <= i < outcomes.len() ==> outcomes[i] is Err,
    ensures
        resolver_run(policy, resolver_start(policy).0, outcomes) == (ResolverStateView::Resolved {
            node_type: "Unknown"@,
            attempts_made: policy.max_attempts as nat,
        }),
{
    if policy.max_attempts > 0 {
        lemma_failures_from(policy, 0, outcomes);
    }
}

} // verus!
