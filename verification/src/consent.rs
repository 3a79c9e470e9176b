//! The once-taken networking-consent decision and the routing it implies.
//!
//! A capability provider may be policy-gated: the first networking call asks
//! the operator whether to enable real networking, and every later call must
//! see the same answer, so that the provider behaves identically between a
//! recorded run and its replay.  The decision object is created once per
//! instance, read many times and never reset mid-instance; asking the
//! operator is I/O and lives outside the library.

use vstd::prelude::*;

verus! {

/// Why a networking decision could not be obtained.
#[derive(Clone, Copy, Debug, PartialEq, Eq, Structural)]
pub enum NetworkError {
    /// The operator could not be asked, or gave no usable answer.
    UnknownError,
}

/// Which backend a networking call routes to.
#[derive(Clone, Copy, Debug, PartialEq, Eq, Structural)]
pub enum NetBackend {
    /// The real, capable networking implementation.
    Capable,
    /// The stub that refuses every networking call.
    Unsupported,
}

/// The decision whether networking is enabled for this instance, taken at
/// most once and then held for the instance's whole lifetime.
pub struct NetworkConsent {
    state: Option<Result<bool, NetworkError>>,
}

impl NetworkConsent {
    /// The decision taken so far, if any.
    pub closed spec fn decision(&self) -> Option<Result<bool, NetworkError>> {
        self.state
    }

    /// No decision yet: the operator has not been asked.
    pub fn new() -> (c: NetworkConsent)
        ensures
            c.decision() is None,
    {
        NetworkConsent { state: None }
    }

    /// The decision in force, or `None` while the operator has not been
    /// asked yet.
    pub fn current(&self) -> (d: Option<Result<bool, NetworkError>>)
        ensures
            d == self.decision(),
    {
        self.state
    }

    /// Stores the outcome of asking the operator, and hands back the
    /// decision in force: the first call stores its outcome, every later
    /// call keeps and returns the stored decision unchanged — a decision is
    /// never reset mid-instance.
    pub fn get_or_init(&mut self, outcome: Result<bool, NetworkError>) -> (d: Result<
        bool,
        NetworkError,
    >)
        ensures
            final(self).decision() == Some(d),
            old(self).decision() is Some ==> final(self).decision() == old(self).decision(),
            old(self).decision() is None ==> d == outcome,
    {
        match self.state {
            Some(d) => d,
            None => {
                self.state = Some(outcome);
                outcome
            },
        }
    }
}

/// Where a networking call must go, given the decision in force: to the
/// capable backend when networking was enabled, to the unsupported stub when
/// it was declined, and to a failure when no decision could be obtained.
pub fn route_networking(decision: Result<bool, NetworkError>) -> (r: Result<
    NetBackend,
    NetworkError,
>)
    ensures
        r == (match decision {
            Ok(true) => Ok::<NetBackend, NetworkError>(NetBackend::Capable),
            Ok(false) => Ok::<NetBackend, NetworkError>(NetBackend::Unsupported),
            Err(_) => Err::<NetBackend, NetworkError>(NetworkError::UnknownError),
        }),
{
    match decision {
        Ok(true) => Ok(NetBackend::Capable),
        Ok(false) => Ok(NetBackend::Unsupported),
        Err(_) => Err(NetworkError::UnknownError),
    }
}

} // verus!
