//! The anti-replay nonce over a whole run of the flow: every nonce that a
//! response brings is used by the request that follows, once, and by no
//! other.

use crate::acme::flow::{transition, Action, Context, Event, Flow};
use vstd::prelude::*;

verus! {

/// One step of a flow: where it stood, what came, where it stands now, and
/// what it asked for.
pub ghost struct Step {
    pub before: Flow,
    pub event: Event,
    pub after: Flow,
    pub action: Action,
}

/// Whether `steps` is a run of the flow from its start: every step is one
/// that the flow may take, and each begins where the one before it ended.
pub open spec fn is_run(context: Context, steps: Seq<Step>) -> bool {
    &&& forall|i: int|
        0 <= i < steps.len() ==> transition(
            (#[trigger] steps[i]).before,
            context,
            steps[i].event,
            steps[i].after,
            steps[i].action,
        )
    &&& steps.len() > 0 ==> steps[0].before == Flow::Start
    &&& forall|i: int| 0 < i < steps.len() ==> (#[trigger] steps[i]).before == steps[i - 1].after
}

/// Where a run stands at its end.
pub open spec fn end_of(steps: Seq<Step>) -> Flow {
    if steps.len() == 0 {
        Flow::Start
    } else {
        steps.last().after
    }
}

/// The nonce that a step receives: the one of a response that the flow
/// awaited for its nonce.
pub open spec fn received(step: Step) -> Option<Seq<char>> {
    match step.event {
        Event::Response(response) => if step.before.awaits_nonce() {
            match response.replay_nonce {
                Some(nonce) => Some(nonce@),
                None => None,
            }
        } else {
            None
        },
        _ => None,
    }
}

/// The nonce that a step uses: the one in the header of a request that the
/// step prepares.
pub open spec fn used(step: Step) -> Option<Seq<char>> {
    match (step.before.pending(), step.after.pending()) {
        (None, Some(pending)) => Some(pending.nonce@),
        _ => None,
    }
}

/// The nonces that a run receives, in their order.
pub open spec fn nonces_received(steps: Seq<Step>) -> Seq<Seq<char>>
    decreases steps.len(),
{
    if steps.len() == 0 {
        Seq::empty()
    } else {
        match received(steps.last()) {
            Some(nonce) => nonces_received(steps.drop_last()).push(nonce),
            None => nonces_received(steps.drop_last()),
        }
    }
}

/// The nonces that a run uses, in their order.
pub open spec fn nonces_used(steps: Seq<Step>) -> Seq<Seq<char>>
    decreases steps.len(),
{
    if steps.len() == 0 {
        Seq::empty()
    } else {
        match used(steps.last()) {
            Some(nonce) => nonces_used(steps.drop_last()).push(nonce),
            None => nonces_used(steps.drop_last()),
        }
    }
}

/// Whether the nonces that a run has received are all used, but for the one
/// that the flow keeps over the delay and, where the flow has failed, the
/// last.
pub open spec fn settled(steps: Seq<Step>) -> bool {
    let got = nonces_received(steps);
    let spent = nonces_used(steps);
    match end_of(steps) {
        Flow::Failed { .. } => got == spent || (got.len() > 0 && got.drop_last() == spent),
        Flow::Waiting { nonce, .. } => got == spent.push(nonce@),
        _ => got == spent,
    }
}

/// What one step does with the nonce: a flow that has failed does nothing
/// with it; a flow that kept a nonce over the delay uses that one or fails;
/// every other flow uses the nonce that the step receives, keeps it over the
/// delay, or fails.
pub open spec fn handles_nonce(step: Step) -> bool {
    &&& step.before is Failed ==> step.after is Failed && received(step) is None && used(step)
        is None
    &&& step.before matches Flow::Waiting { nonce, .. } ==> received(step) is None && (
    step.after is Failed && used(step) is None || used(step) == Some(nonce@)
        && step.after.kept_nonce() is None)
    &&& !(step.before is Failed) && !(step.before is Waiting) ==> {
        ||| received(step) is None && used(step) is None && step.after.kept_nonce() is None
        ||| received(step) is Some && used(step) is None && step.after is Failed
        ||| received(step) is Some && used(step) == received(step) && step.after.kept_nonce()
            is None && !(step.after is Failed)
        ||| received(step) is Some && used(step) is None && (
        step.after matches Flow::Waiting { nonce, .. } && received(step) == Some(nonce@))
    }
}

/// Every step that the flow may take handles the nonce as it should.
pub proof fn lemma_step_handles_nonce(context: Context, step: Step)
    requires
        transition(step.before, context, step.event, step.after, step.action),
    ensures
        handles_nonce(step),
{
}

/// Whether `steps` begins at the start, each step begins where the one
/// before it ended, and each handles the nonce as it should.
spec fn is_chain(steps: Seq<Step>) -> bool {
    &&& forall|i: int| 0 <= i < steps.len() ==> handles_nonce(#[trigger] steps[i])
    &&& steps.len() > 0 ==> steps[0].before == Flow::Start
    &&& forall|i: int| 0 < i < steps.len() ==> (#[trigger] steps[i]).before == steps[i - 1].after
}

/// A run is a chain.
proof fn lemma_run_is_chain(context: Context, steps: Seq<Step>)
    requires
        is_run(context, steps),
    ensures
        is_chain(steps),
{
}

/// In a chain every nonce that is received is used, but for the last.
proof fn lemma_chain_settles(steps: Seq<Step>)
    requires
        is_chain(steps),
    ensures
        settled(steps),
        nonces_used(steps).len() <= nonces_received(steps).len() <= nonces_used(steps).len() + 1,
        forall|i: int|
            0 <= i < nonces_used(steps).len() ==> nonces_used(steps)[i] == nonces_received(
                steps,
            )[i],
    decreases steps.len(),
{
    if steps.len() > 0 {
        let earlier = steps.drop_last();
        let step = steps.last();
        lemma_chain_settles(earlier);
        let got = nonces_received(earlier);
        let spent = nonces_used(earlier);
        match received(step) {
            Some(nonce) => {
                assert(got.push(nonce).drop_last() == got);
            },
            None => {},
        }
        match step.before {
            Flow::Waiting { nonce, .. } => {
                assert(spent.push(nonce@).drop_last() == spent);
            },
            _ => {},
        }
    }
}

/// Over a whole run, the nonces that the requests use are the nonces that
/// the responses brought, one for one and in their order: the request after
/// a response uses that response's nonce, and no nonce is used twice. At
/// most the last nonce that came is not used yet.
pub proof fn lemma_nonces_are_used_once_and_in_order(context: Context, steps: Seq<Step>)
    requires
        is_run(context, steps),
    ensures
        settled(steps),
        nonces_used(steps).len() <= nonces_received(steps).len() <= nonces_used(steps).len() + 1,
        forall|i: int|
            0 <= i < nonces_used(steps).len() ==> nonces_used(steps)[i] == nonces_received(
                steps,
            )[i],
{
    lemma_run_is_chain(context, steps);
    lemma_chain_settles(steps);
}

} // verus!
