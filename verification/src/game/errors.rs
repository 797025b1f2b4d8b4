use vstd::prelude::*;

use crate::game::jobs::Job;
use crate::game::resources::Resource;

verus! {

/// Why an action cannot be applied to a state.
#[derive(Clone, Copy, Debug, PartialEq, Eq, Structural)]
pub enum IterationError {
    NotEnaughtResource(Resource),
    NotEnaughtFreeLand,
    NotEnaughtIdleWorkers,
    NoWorkersInJob(Job),
    PopulationLimitReached,
}

/// The text shown to the player for an iteration error.
pub open spec fn iteration_message(e: IterationError) -> Seq<char> {
    match e {
        IterationError::NotEnaughtFreeLand => "not enauth free land"@,
        IterationError::NotEnaughtIdleWorkers => "not enauth idle workers"@,
        IterationError::NotEnaughtResource(_) => "not enauth resources"@,
        IterationError::NoWorkersInJob(_) => "no workers in job"@,
        IterationError::PopulationLimitReached => "population limit reached"@,
    }
}

impl IterationError {
    pub fn get_message(&self) -> (r: String)
        ensures
            r@ == iteration_message(*self),
    {
        match self {
            IterationError::NotEnaughtFreeLand => "not enauth free land".to_owned(),
            IterationError::NotEnaughtIdleWorkers => "not enauth idle workers".to_owned(),
            IterationError::NotEnaughtResource(_) => "not enauth resources".to_owned(),
            IterationError::NoWorkersInJob(_) => "no workers in job".to_owned(),
            IterationError::PopulationLimitReached => "population limit reached".to_owned(),
        }
    }
}

/// Why a saved state fails its integrity check.
#[derive(Clone, Copy, Debug, PartialEq, Eq, Structural)]
pub enum CheckError {
    /// The replayed state does not hash to the saved one.
    HashMismatch,
    /// Replaying the log failed at the given (one-based) iteration.
    InvalidStateRecreation(usize, IterationError),
}

/// The character of a decimal digit.
pub open spec fn digit_char(d: nat) -> char {
    (48 + d) as char
}

/// The decimal notation of `n`, without leading zeros.
pub open spec fn decimal(n: nat) -> Seq<char>
    decreases n,
{
    if n < 10 {
        seq![digit_char(n)]
    } else {
        decimal(n / 10).push(digit_char(n % 10))
    }
}

/// The text shown to the player for a check error.
pub open spec fn check_message(e: CheckError) -> Seq<char> {
    match e {
        CheckError::HashMismatch => "Hash mismatch"@,
        CheckError::InvalidStateRecreation(iteration, error) => "Invalid state recreation ("@
            + iteration_message(error) + " at iteration "@ + decimal(iteration as nat) + ")"@,
    }
}

/// Trusted: `usize::to_string`, which writes `x` with the integer `Display`
/// of std: its decimal digits, without sign or leading zeros.
#[verifier::external_body]
fn usize_to_string(x: usize) -> (r: String)
    ensures
        r@ == decimal(x as nat),
{
    x.to_string()
}

impl CheckError {
    pub fn get_message(&self) -> (r: String)
        ensures
            r@ == check_message(*self),
    {
        match self {
            CheckError::HashMismatch => "Hash mismatch".to_owned(),
            CheckError::InvalidStateRecreation(iteration, error) => {
                let mut message = String::from_str("Invalid state recreation (");
                let error_message = error.get_message();
                message.append(error_message.as_str());
                message.append(" at iteration ");
                let number = usize_to_string(*iteration);
                message.append(number.as_str());
                message.append(")");
                message
            },
        }
    }
}

} // verus!
