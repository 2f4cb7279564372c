//! The gateway's own work around each engine call: owned copies of the host's
//! buffers, the era gate, and the tagging of what the engine returned.
//!
//! The engine itself runs between [`prepare_evaluation`] and
//! [`evaluation_reply`] (or between the copies and [`apply_reply`]); its
//! result, with the error already rendered as text and each evaluation reduced
//! to its log lines, is handed back to these functions as plain values.
use vstd::prelude::*;

use crate::engine::{decode_in_era, engine_accepts_era, TxEra};
use crate::marshal::{
    borrowed_pairs_view, copy_bytes, copy_optional, copy_pairs, optional_vec_view,
    optional_view, pairs_view,
};
use crate::reply::{RedeemerOutcome, Reply};

verus! {

/// Which validation phases an evaluation runs.
#[derive(PartialEq, Eq, Structural, Clone, Copy, Debug)]
pub enum Phases {
    /// Script execution alone; the caller has resolved and checked the inputs.
    ScriptsOnly,
    /// Input resolution and its checks first, then script execution.
    ResolutionThenScripts,
}

/// Whether the engine is asked to run the input-resolution phase.
pub open spec fn runs_phase_one(phases: Phases) -> bool {
    phases == Phases::ResolutionThenScripts
}

/// The reason given for a transaction that is encoded for an era before Conway.
pub open spec fn legacy_era_reason() -> Seq<char> {
    "transaction is not encoded in the Conway era format"@
}

/// An evaluation request in owned memory, ready for the engine.
pub struct EvalRequest {
    pub tx: Vec<u8>,
    pub utxos: Vec<(Vec<u8>, Vec<u8>)>,
    /// Absent means the engine's built-in coefficients, and then the engine
    /// evaluates under its own default ceiling rather than `budget`.
    pub cost_models: Option<Vec<u8>>,
    /// The ceiling as the engine reads it: (cpu units, memory units).
    pub budget: (u64, u64),
    /// (time of slot zero in ms, number of slot zero, slot length in ms).
    pub slot_config: (u64, u64, u32),
    pub run_phase_one: bool,
}

/// The request holds exactly the given buffers and settings.
pub open spec fn request_matches(
    q: EvalRequest,
    tx: Seq<u8>,
    utxos: Seq<(Seq<u8>, Seq<u8>)>,
    cost_models: Option<Seq<u8>>,
    budget: (u64, u64),
    slot_config: (u64, u64, u32),
    phases: Phases,
) -> bool {
    &&& q.tx@ == tx
    &&& pairs_view(q.utxos@) == utxos
    &&& optional_vec_view(q.cost_models) == cost_models
    &&& q.budget == budget
    &&& q.slot_config == slot_config
    &&& q.run_phase_one == runs_phase_one(phases)
}

/// Whether the engine can be handed the transaction: it decodes in the Conway
/// era, or in none of the earlier eras that the engine tries.
pub fn era_is_supported(tx: &[u8]) -> (r: bool)
    ensures
        r == engine_accepts_era(tx@),
{
    if decode_in_era(tx, TxEra::Conway) {
        true
    } else {
        !(decode_in_era(tx, TxEra::Babbage) || decode_in_era(tx, TxEra::Alonzo))
    }
}

/// Copies every host buffer of an evaluation into owned memory and settles
/// the phases. A transaction that only an earlier era decodes is answered
/// here with a reason, since the engine would stop on it.
pub fn prepare_evaluation(
    tx_bytes: &[u8],
    utxos: &[(&[u8], &[u8])],
    cost_models_bytes: Option<&[u8]>,
    initial_budget: (u64, u64),
    slot_config: (u64, u64, u32),
    phases: Phases,
) -> (r: Result<EvalRequest, String>)
    ensures
        r is Ok <==> engine_accepts_era(tx_bytes@),
        r is Err ==> r->Err_0@ == legacy_era_reason(),
        r is Ok ==> request_matches(
            r->Ok_0,
            tx_bytes@,
            borrowed_pairs_view(utxos@),
            optional_view(cost_models_bytes),
            initial_budget,
            slot_config,
            phases,
        ),
{
    let tx = copy_bytes(tx_bytes);
    if !era_is_supported(tx.as_slice()) {
        return Err("transaction is not encoded in the Conway era format".to_owned());
    }
    let run_phase_one = match phases {
        Phases::ScriptsOnly => false,
        Phases::ResolutionThenScripts => true,
    };
    Ok(
        EvalRequest {
            tx,
            utxos: copy_pairs(utxos),
            cost_models: copy_optional(cost_models_bytes),
            budget: initial_budget,
            slot_config,
            run_phase_one,
        },
    )
}

/// The reply owed for what parameter application returned: the applied
/// script, or the engine's failure text.
pub open spec fn apply_reply_matches(engine: Result<Vec<u8>, String>, r: Reply<Vec<u8>>) -> bool {
    match engine {
        Ok(script) => r is Success && r->Success_0@ == script@,
        Err(reason) => r is Failure && r->Failure_0@ == reason@,
    }
}

/// Tags what the engine returned for a parameter application.
pub fn apply_reply(engine: Result<Vec<u8>, String>) -> (r: Reply<Vec<u8>>)
    ensures
        apply_reply_matches(engine, r),
{
    match engine {
        Ok(script) => Reply::Success(script),
        Err(reason) => Reply::Failure(reason),
    }
}

/// One outcome holds exactly the redeemer bytes and log lines it was made from.
pub open spec fn outcome_matches(o: RedeemerOutcome, p: (Vec<u8>, Vec<String>)) -> bool {
    o.redeemer@ == p.0@ && o.logs@ == p.1@
}

/// The outcome of one redeemer: its encoded form after evaluation and the log
/// lines of its run, in the order they were emitted.
pub fn eval_result_to_outcome(redeemer: Vec<u8>, logs: Vec<String>) -> (r: RedeemerOutcome)
    ensures
        r.redeemer@ == redeemer@,
        r.logs@ == logs@,
{
    RedeemerOutcome { redeemer, logs }
}

/// The reply owed for what evaluation returned: one outcome per redeemer that
/// the engine reports, at the same position, or the engine's failure text.
pub open spec fn evaluation_reply_matches(
    engine: Result<Vec<(Vec<u8>, Vec<String>)>, String>,
    r: Reply<Vec<RedeemerOutcome>>,
) -> bool {
    match engine {
        Ok(results) => {
            &&& r is Success
            &&& r->Success_0@.len() == results@.len()
            &&& forall|i: int|
                0 <= i < results@.len() ==> outcome_matches(
                    #[trigger] r->Success_0@[i],
                    results@[i],
                )
        },
        Err(reason) => r is Failure && r->Failure_0@ == reason@,
    }
}

/// Tags what the engine returned for an evaluation, keeping the engine's order
/// of redeemers, which is their order in the transaction's encoding.
///
/// The engine stops at the first redeemer whose script rejects or runs over
/// its budget and reports that as an error of the whole call, so a failing
/// script reaches the host as the failure arm, with the engine's text.
pub fn evaluation_reply(engine: Result<Vec<(Vec<u8>, Vec<String>)>, String>) -> (r: Reply<
    Vec<RedeemerOutcome>,
>)
    ensures
        evaluation_reply_matches(engine, r),
{
    match engine {
        Ok(results) => {
            let ghost all = results@;
            let mut rest = results;
            let mut outcomes: Vec<RedeemerOutcome> = Vec::new();
            while rest.len() > 0
                invariant
                    outcomes@.len() + rest@.len() == all.len(),
                    rest@ == all.subrange(outcomes@.len() as int, all.len() as int),
                    forall|j: int|
                        0 <= j < outcomes@.len() ==> outcome_matches(
                            #[trigger] outcomes@[j],
                            all[j],
                        ),
                decreases rest@.len(),
            {
                let (redeemer, logs) = rest.remove(0);
                outcomes.push(eval_result_to_outcome(redeemer, logs));
            }
            Reply::Success(outcomes)
        },
        Err(reason) => Reply::Failure(reason),
    }
}

} // verus!
