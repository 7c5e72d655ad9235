//! The oracle value store: the latest record, an append-only history keyed
//! by index, the next index to write, and the notifications published.
use std::collections::HashMap;
use vstd::prelude::*;

use crate::record::{empty_record, copy_bytes, Event, OracleRecord, OracleValue};
use crate::validation::{check_submission, submission_outcome, Error, Origin};

verus! {

broadcast use vstd::std_specs::hash::group_hash_axioms;

/// What the hosting runtime supplies to the store.
pub trait Config {
    /// The current time, in seconds since the epoch.
    fn now(&self) -> u64;
}

/// The model of the store.
pub struct LedgerState {
    pub last_value: Option<OracleRecord>,
    pub history: Map<u64, OracleRecord>,
    pub history_index: u64,
    pub events: Seq<OracleRecord>,
}

/// The state at genesis: nothing accepted, the next index is 0.
pub open spec fn genesis_state() -> LedgerState {
    LedgerState {
        last_value: None,
        history: Map::empty(),
        history_index: 0,
        events: Seq::empty(),
    }
}

/// `i + 1`, clamped at the largest `u64`.
pub open spec fn saturating_succ(i: u64) -> u64 {
    if i == u64::MAX {
        i
    } else {
        (i + 1) as u64
    }
}

/// The state after `rec` is accepted: it becomes the latest record, is written
/// at the next index, the index advances (saturating) and `rec` is published.
pub open spec fn accept(s: LedgerState, rec: OracleRecord) -> LedgerState {
    LedgerState {
        last_value: Some(rec),
        history: s.history.insert(s.history_index, rec),
        history_index: saturating_succ(s.history_index),
        events: s.events.push(rec),
    }
}

/// The state after each record of `recs` is accepted in turn, starting from `s`.
pub open spec fn accept_all(s: LedgerState, recs: Seq<OracleRecord>) -> LedgerState
    decreases recs.len(),
{
    if recs.len() == 0 {
        s
    } else {
        accept(accept_all(s, recs.drop_last()), recs.last())
    }
}

/// What reading history slot `index` gives in state `s`.
pub open spec fn history_at(s: LedgerState, index: u64) -> OracleRecord {
    if s.history.contains_key(index) {
        s.history[index]
    } else {
        empty_record()
    }
}

/// The record that a submission of these fields at time `now` stores.
pub open spec fn submitted_record(value: u128, source: Seq<u8>, now: u64, status: Seq<u8>) -> OracleRecord {
    OracleRecord { value, source, updated_at: now, status }
}

/// The oracle value store.
pub struct Pallet {
    last_value: Option<OracleValue>,
    history: HashMap<u64, OracleValue>,
    history_index: u64,
    events: Vec<Event>,
}

impl View for Pallet {
    type V = LedgerState;

    closed spec fn view(&self) -> LedgerState {
        LedgerState {
            last_value: match self.last_value {
                Some(v) => Some(v@),
                None => None,
            },
            history: self.history@.map_values(|v: OracleValue| v@),
            history_index: self.history_index,
            events: self.events@.map_values(|e: Event| e@),
        }
    }
}

/// Builds the store at genesis.
#[derive(Debug, Default)]
pub struct GenesisConfig {}

impl GenesisConfig {
    /// The store at genesis: history index 0, no latest record, empty history.
    pub fn build(&self) -> (r: Pallet)
        ensures
            r@ == genesis_state(),
    {
        let r = Pallet { last_value: None, history: HashMap::new(), history_index: 0, events: Vec::new() };
        assert(r@.history =~= Map::empty());
        assert(r@.events =~= Seq::empty());
        r
    }
}

impl Pallet {
    /// Writes an accepted record: latest value, history slot, index, notification.
    fn commit(&mut self, value: u128, source: Vec<u8>, status: Vec<u8>, now: u64)
        ensures
            final(self)@ == accept(old(self)@, submitted_record(value, source@, now, status@)),
    {
        let rec = OracleValue { value, source: copy_bytes(&source), updated_at: now, status: copy_bytes(&status) };
        let ghost r = rec@;
        self.last_value = Some(rec.duplicate());
        let index = self.history_index;
        self.history.insert(index, rec);
        self.history_index = index.saturating_add(1);
        self.events.push(Event::ValueUpdated { value, source, updated_at: now, status });
        assert(self@.history =~= old(self)@.history.insert(index, r));
        assert(self@.events =~= old(self)@.events.push(r));
    }

    /// Submits a value with the time taken from `cfg`. The origin is checked
    /// first, then the value and the source; a rejected submission changes
    /// nothing, and the time is read only once the checks have passed. An
    /// accepted one is stored with that time and published.
    pub fn submit_oracle_value<C: Config>(
        &mut self,
        cfg: &C,
        origin: Origin,
        value: u128,
        source: Vec<u8>,
        status: Vec<u8>,
    ) -> (r: Result<(), Error>)
        ensures
            r == submission_outcome(origin, value, source@),
            r is Err ==> final(self)@ == old(self)@,
            r is Ok ==> final(self)@.last_value is Some && final(self)@ == accept(
                old(self)@,
                submitted_record(value, source@, final(self)@.last_value->0.updated_at, status@),
            ),
    {
        match check_submission(origin, value, &source) {
            Err(e) => Err(e),
            Ok(()) => {
                let now = cfg.now();
                self.commit(value, source, status, now);
                Ok(())
            },
        }
    }

    /// Submits a value at the given time `now`, with the same checks and
    /// effects as [`Pallet::submit_oracle_value`].
    pub fn submit_oracle_value_at(
        &mut self,
        origin: Origin,
        value: u128,
        source: Vec<u8>,
        status: Vec<u8>,
        now: u64,
    ) -> (r: Result<(), Error>)
        ensures
            r == submission_outcome(origin, value, source@),
            r is Err ==> final(self)@ == old(self)@,
            r is Ok ==> final(self)@ == accept(old(self)@, submitted_record(value, source@, now, status@)),
    {
        match check_submission(origin, value, &source) {
            Err(e) => Err(e),
            Ok(()) => {
                self.commit(value, source, status, now);
                Ok(())
            },
        }
    }

    /// The most recently accepted record, if any.
    pub fn last_value(&self) -> (r: Option<OracleValue>)
        ensures
            match r {
                Some(v) => self@.last_value == Some(v@),
                None => self@.last_value is None,
            },
    {
        match &self.last_value {
            Some(v) => Some(v.duplicate()),
            None => None,
        }
    }

    /// The record at history slot `index`; an empty record where none was written.
    pub fn history(&self, index: u64) -> (r: OracleValue)
        ensures
            r@ == history_at(self@, index),
    {
        match self.history.get(&index) {
            Some(v) => v.duplicate(),
            None => OracleValue::empty(),
        }
    }

    /// The index that the next accepted record is written at.
    pub fn history_index(&self) -> (r: u64)
        ensures
            r == self@.history_index,
    {
        self.history_index
    }

    /// Overwrites the history index, as a direct storage write does.
    pub fn put_history_index(&mut self, index: u64)
        ensures
            final(self)@ == (LedgerState { history_index: index, ..old(self)@ }),
    {
        self.history_index = index;
    }

    /// The notifications published so far, oldest first.
    pub fn events(&self) -> (r: &Vec<Event>)
        ensures
            r@.map_values(|e: Event| e@) == self@.events,
    {
        &self.events
    }
}

} // verus!
