//! The published data point and its mathematical model.
use vstd::prelude::*;

verus! {

/// One published data point, as the store keeps it.
#[derive(Debug, PartialEq, Eq)]
pub struct OracleValue {
    pub value: u128,
    pub source: Vec<u8>,
    pub updated_at: u64,
    pub status: Vec<u8>,
}

/// The model of an [`OracleValue`]: its fields, with byte vectors as sequences.
pub struct OracleRecord {
    pub value: u128,
    pub source: Seq<u8>,
    pub updated_at: u64,
    pub status: Seq<u8>,
}

impl View for OracleValue {
    type V = OracleRecord;

    open spec fn view(&self) -> OracleRecord {
        OracleRecord {
            value: self.value,
            source: self.source@,
            updated_at: self.updated_at,
            status: self.status@,
        }
    }
}

/// The record that stands for a history slot that was never written.
pub open spec fn empty_record() -> OracleRecord {
    OracleRecord { value: 0, source: Seq::empty(), updated_at: 0, status: Seq::empty() }
}

/// Copies a byte vector.
pub(crate) fn copy_bytes(v: &Vec<u8>) -> (r: Vec<u8>)
    ensures
        r@ == v@,
{
    let r = v.clone();
    assert(r@ =~= v@);
    r
}

impl OracleValue {
    /// The value that an unwritten history slot reads as.
    pub fn empty() -> (r: OracleValue)
        ensures
            r@ == empty_record(),
    {
        OracleValue { value: 0, source: Vec::new(), updated_at: 0, status: Vec::new() }
    }

    /// A copy of this value, field for field.
    pub fn duplicate(&self) -> (r: OracleValue)
        ensures
            r@ == self@,
    {
        OracleValue {
            value: self.value,
            source: copy_bytes(&self.source),
            updated_at: self.updated_at,
            status: copy_bytes(&self.status),
        }
    }
}

/// The notification published after each accepted submission.
#[derive(Debug, PartialEq, Eq)]
pub enum Event {
    /// A value was accepted and stored.
    ValueUpdated { value: u128, source: Vec<u8>, updated_at: u64, status: Vec<u8> },
}

impl View for Event {
    type V = OracleRecord;

    /// The record that the notification carries.
    open spec fn view(&self) -> OracleRecord {
        match self {
            Event::ValueUpdated { value, source, updated_at, status } => OracleRecord {
                value: *value,
                source: source@,
                updated_at: *updated_at,
                status: status@,
            },
        }
    }
}

} // verus!
