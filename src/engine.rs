//! What this library asks of the ledger decoder before a transaction goes to
//! the evaluation engine.
//!
//! The function marked `external_body` is trusted: its contract restates what
//! the decoder's source shows, and nothing in this crate proves it.
use vstd::prelude::*;

verus! {

/// The ledger eras whose transaction encoding the engine tries, in its order.
#[derive(PartialEq, Eq, Structural, Clone, Copy, Debug)]
pub enum TxEra {
    Conway,
    Babbage,
    Alonzo,
}

/// Whether the bytes decode as a whole transaction of the given era.
pub uninterp spec fn decodes_for_era(tx: Seq<u8>, era: TxEra) -> bool;

/// The engine tries the Conway encoding first, then Babbage, then Alonzo, and
/// stops by a panic on a transaction that only an earlier era decodes. Bytes
/// that decode in no era are an ordinary error of the engine.
pub open spec fn engine_accepts_era(tx: Seq<u8>) -> bool {
    decodes_for_era(tx, TxEra::Conway) || !(decodes_for_era(tx, TxEra::Babbage)
        || decodes_for_era(tx, TxEra::Alonzo))
}

/// Relies on pallas_traverse::MultiEraTx::decode_for_era: whether the bytes
/// decode as a transaction of that era, a function of the bytes alone.
#[verifier::external_body]
pub(crate) fn decode_in_era(tx: &[u8], era: TxEra) -> (r: bool)
    ensures
        r == decodes_for_era(tx@, era),
{
    let era = match era {
        TxEra::Conway => pallas_traverse::Era::Conway,
        TxEra::Babbage => pallas_traverse::Era::Babbage,
        TxEra::Alonzo => pallas_traverse::Era::Alonzo,
    };
    pallas_traverse::MultiEraTx::decode_for_era(era, tx).is_ok()
}

} // verus!
