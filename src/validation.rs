//! Who may submit, and which submissions are accepted.
use vstd::prelude::*;

verus! {

/// The identity of a caller whose signature was checked upstream.
pub type AccountId = u64;

/// Where a submission comes from.
#[derive(Debug, Clone, Copy, PartialEq, Eq, Structural)]
pub enum Origin {
    /// A request signed by the given account.
    Signed(AccountId),
    /// A request that carries no signature.
    Unsigned,
}

/// Why a submission was rejected.
#[derive(Debug, Clone, Copy, PartialEq, Eq, Structural)]
pub enum Error {
    /// The origin is not a signed request.
    Unauthorized,
    /// The value is zero.
    InvalidValue,
    /// The source is empty.
    InvalidSource,
}

/// The outcome of the field checks: the value first, then the source.
pub open spec fn validation_outcome(value: u128, source: Seq<u8>) -> Result<(), Error> {
    if value == 0 {
        Err(Error::InvalidValue)
    } else if source.len() == 0 {
        Err(Error::InvalidSource)
    } else {
        Ok(())
    }
}

/// The outcome of a whole submission: the origin is checked before the fields.
pub open spec fn submission_outcome(origin: Origin, value: u128, source: Seq<u8>) -> Result<
    (),
    Error,
> {
    match origin {
        Origin::Unsigned => Err(Error::Unauthorized),
        Origin::Signed(_) => validation_outcome(value, source),
    }
}

/// The account behind a signed origin; `Unauthorized` for any other.
pub fn ensure_signed(origin: Origin) -> (r: Result<AccountId, Error>)
    ensures
        r == match origin {
            Origin::Signed(who) => Ok::<AccountId, Error>(who),
            Origin::Unsigned => Err(Error::Unauthorized),
        },
{
    match origin {
        Origin::Signed(who) => Ok(who),
        Origin::Unsigned => Err(Error::Unauthorized),
    }
}

/// Checks the submitted fields: the value must be non-zero and the source
/// non-empty. The status is not checked.
pub fn validate(value: u128, source: &Vec<u8>) -> (r: Result<(), Error>)
    ensures
        r == validation_outcome(value, source@),
{
    if value == 0 {
        Err(Error::InvalidValue)
    } else if source.len() == 0 {
        Err(Error::InvalidSource)
    } else {
        Ok(())
    }
}

/// Checks a whole submission, origin first.
pub fn check_submission(origin: Origin, value: u128, source: &Vec<u8>) -> (r: Result<(), Error>)
    ensures
        r == submission_outcome(origin, value, source@),
{
    match ensure_signed(origin) {
        Err(e) => Err(e),
        Ok(_) => validate(value, source),
    }
}

} // verus!
