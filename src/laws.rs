//! Properties of the store that hold over every submission or sequence of them.
use vstd::prelude::*;

use crate::pallet::{accept, accept_all, genesis_state, history_at, LedgerState};
use crate::record::OracleRecord;
use crate::validation::{submission_outcome, Error, Origin};

verus! {

/// Rejections: an unsigned origin is refused as `Unauthorized` whatever the
/// fields; from a signed origin, a zero value is refused as `InvalidValue`
/// whatever the source, and a non-zero value with an empty source as
/// `InvalidSource`; the status plays no part.
pub proof fn lemma_rejections(origin: Origin, value: u128, source: Seq<u8>)
    ensures
        origin is Unsigned ==> submission_outcome(origin, value, source) == Err::<(), Error>(
            Error::Unauthorized,
        ),
        origin is Signed && value == 0 ==> submission_outcome(origin, value, source) == Err::<
            (),
            Error,
        >(Error::InvalidValue),
        origin is Signed && value != 0 && source.len() == 0 ==> submission_outcome(
            origin,
            value,
            source,
        ) == Err::<(), Error>(Error::InvalidSource),
        origin is Signed && value != 0 && source.len() != 0 ==> submission_outcome(
            origin,
            value,
            source,
        ) is Ok,
{
}

/// History from genesis: after `n` accepted records, with `n` no larger than
/// the largest `u64`, the history index is `n`, slot `i` holds the `i`-th
/// record for every `i < n` and no other slot is written, every record was
/// published once and in order, and the latest record is the last one (absent
/// exactly when none was accepted).
pub proof fn lemma_history_from_genesis(recs: Seq<OracleRecord>)
    requires
        recs.len() <= u64::MAX,
    ensures
        accept_all(genesis_state(), recs).history_index == recs.len(),
        forall|i: int|
            0 <= i < recs.len() ==> #[trigger] history_at(accept_all(genesis_state(), recs), i as u64)
                == recs[i],
        forall|k: u64|
            accept_all(genesis_state(), recs).history.contains_key(k) <==> k < recs.len(),
        accept_all(genesis_state(), recs).events == recs,
        accept_all(genesis_state(), recs).last_value is None <==> recs.len() == 0,
        recs.len() > 0 ==> accept_all(genesis_state(), recs).last_value == Some(recs.last()),
    decreases recs.len(),
{
    if recs.len() > 0 {
        let prefix = recs.drop_last();
        lemma_history_from_genesis(prefix);
        let s = accept_all(genesis_state(), prefix);
        assert(s.events.push(recs.last()) =~= recs);
        assert forall|i: int| 0 <= i < recs.len() implies #[trigger] history_at(
            accept_all(genesis_state(), recs),
            i as u64,
        ) == recs[i] by {
            if i < prefix.len() {
                assert(history_at(s, i as u64) == prefix[i]);
            }
        }
    }
}

/// The latest record is the newest history entry: after any accepted record,
/// while the index had not reached the largest `u64`, the latest record equals
/// the one at history slot `history_index - 1`.
pub proof fn lemma_last_value_is_newest_entry(s: LedgerState, rec: OracleRecord)
    requires
        s.history_index < u64::MAX,
    ensures
        accept(s, rec).last_value == Some(
            history_at(accept(s, rec), (accept(s, rec).history_index - 1) as u64),
        ),
{
}

/// Saturation: once the history index is the largest `u64`, an accepted record
/// leaves it there and overwrites that last slot.
pub proof fn lemma_saturated_index(s: LedgerState, rec: OracleRecord)
    requires
        s.history_index == u64::MAX,
    ensures
        accept(s, rec).history_index == u64::MAX,
        history_at(accept(s, rec), u64::MAX) == rec,
        accept(s, rec).last_value == Some(rec),
{
}

} // verus!
