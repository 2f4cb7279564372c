//! Properties that relate calls of the gateway, proved from its contracts.
use vstd::prelude::*;

use crate::gateway::{apply_reply_matches, evaluation_reply_matches, outcome_matches};
use crate::reply::{RedeemerOutcome, Reply};

verus! {

/// Two parameter applications for which the engine returned the same thing
/// give the same arm and byte-identical payloads or reasons: the gateway adds
/// no state of its own.
pub proof fn lemma_apply_deterministic(
    engine: Result<Vec<u8>, String>,
    r1: Reply<Vec<u8>>,
    r2: Reply<Vec<u8>>,
)
    requires
        apply_reply_matches(engine, r1),
        apply_reply_matches(engine, r2),
    ensures
        r1 is Success <==> r2 is Success,
        r1 is Success ==> r1->Success_0@ == r2->Success_0@,
        r1 is Failure ==> r1->Failure_0@ == r2->Failure_0@,
{
}

/// Two evaluations for which the engine returned the same thing give the
/// same arm, and the same outcomes, element by element, or the same reason.
pub proof fn lemma_evaluation_idempotent(
    engine: Result<Vec<(Vec<u8>, Vec<String>)>, String>,
    r1: Reply<Vec<RedeemerOutcome>>,
    r2: Reply<Vec<RedeemerOutcome>>,
)
    requires
        evaluation_reply_matches(engine, r1),
        evaluation_reply_matches(engine, r2),
    ensures
        r1 is Success <==> r2 is Success,
        r1 is Failure ==> r1->Failure_0@ == r2->Failure_0@,
        r1 is Success ==> r1->Success_0@.len() == r2->Success_0@.len(),
        r1 is Success ==> forall|i: int|
            0 <= i < r1->Success_0@.len() ==> (#[trigger] r1->Success_0@[i]).redeemer@
                == r2->Success_0@[i].redeemer@ && r1->Success_0@[i].logs@
                == r2->Success_0@[i].logs@,
{
    if r1 is Success {
        let results = engine->Ok_0@;
        assert forall|i: int| 0 <= i < r1->Success_0@.len() implies (#[trigger] r1->Success_0@[
            i
        ]).redeemer@ == r2->Success_0@[i].redeemer@ && r1->Success_0@[i].logs@
            == r2->Success_0@[i].logs@ by {
            assert(outcome_matches(r1->Success_0@[i], results[i]));
            assert(outcome_matches(r2->Success_0@[i], results[i]));
        }
    }
}

/// A whole-call failure of the engine, such as bytes that are no transaction,
/// never yields a partial outcome list; an empty list of redeemers yields the
/// success arm with no outcomes.
pub proof fn lemma_failure_and_empty(
    engine: Result<Vec<(Vec<u8>, Vec<String>)>, String>,
    r: Reply<Vec<RedeemerOutcome>>,
)
    requires
        evaluation_reply_matches(engine, r),
    ensures
        engine is Err ==> r is Failure,
        engine is Ok && engine->Ok_0@.len() == 0 ==> r is Success && r->Success_0@.len() == 0,
{
}

} // verus!
