//! The capability that every authentication strategy offers, and the
//! outcomes its operations report.

use crate::state::State;
use vstd::prelude::*;

verus! {

/// A successful outcome: the claims of the principal and the state to go on
/// with.
#[derive(Debug)]
pub struct Success<C> {
    pub claims: C,
    pub state: State,
}

impl<C> Success<C> {
    pub fn new(claims: C, state: State) -> (r: Success<C>)
        ensures
            r == (Success { claims, state }),
    {
        Success { claims, state }
    }
}

/// A failed outcome: the state and the claims gathered so far, and the
/// strategy's own account of what went wrong. It is a value to be handled,
/// never a reason to abort.
#[derive(Debug)]
pub struct Failure<C, E> {
    pub state: State,
    pub claims: C,
    pub help: E,
}

impl<C, E> Failure<C, E> {
    pub fn new(state: State, claims: C, help: E) -> (r: Failure<C, E>)
        ensures
            r == (Failure { state, claims, help }),
    {
        Failure { state, claims, help }
    }
}

/// An authentication strategy (bearer token, cookie session, ...) over
/// requests of type `Request`.
///
/// Several strategies may be registered side by side; the pipeline picks
/// none of them. A handler calls the one it finds in the request's context.
pub trait Authentication<Request> {
    /// What identifies an authenticated principal.
    type Claim;

    /// What the strategy reports when it fails.
    type Error;

    /// The strategy's name, for diagnostics.
    const NAME: &'static str;

    /// Judges the credentials that `req` carries. Absent, malformed or
    /// expired credentials give a [`Failure`].
    fn authenticate(&self, req: Request) -> Result<
        Success<Self::Claim>,
        Failure<Self::Claim, Self::Error>,
    >;

    /// Notes that the request is disallowed. Calling it again for the same
    /// request changes nothing.
    fn forbid(&self, req: Request, state: State);

    /// Asks the caller to start a fresh authentication exchange. Calling it
    /// again for the same request changes nothing.
    fn challenge(&self, req: Request, state: State);

    /// Establishes a session for `claims`.
    fn sign_in(&self, req: Request, claims: Self::Claim, state: State) -> Result<
        Success<Self::Claim>,
        Failure<Self::Claim, Self::Error>,
    >;

    /// Ends the session of `claims`. That there was none to end is a
    /// [`Failure`], not a fault.
    fn sign_out(&self, req: Request, claims: Self::Claim, state: State) -> Result<
        Success<Self::Claim>,
        Failure<Self::Claim, Self::Error>,
    >;
}

} // verus!
