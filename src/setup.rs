//! The order in which a context, a store context and a session are brought up
//! against the engine. Each step is one engine call; the first call that fails
//! stops the run and its code is the error reported.
use vstd::prelude::*;

use crate::errors::{check_status, error_of_code, status_result, Error};

verus! {

/// Steps of bringing up a context.
#[derive(Clone, Copy, Debug, PartialEq, Eq, Structural)]
pub enum ContextSetupStep {
    /// Create the engine context, handing it the lock state.
    CreateContext,
    /// Register the crypto capability's callback table.
    CryptoProvider,
    /// Register the lock and unlock callbacks.
    LockingFunctions,
    /// Every step succeeded.
    Ready,
}

impl ContextSetupStep {
    /// The step that follows this one.
    pub open spec fn successor(self) -> ContextSetupStep {
        match self {
            ContextSetupStep::CreateContext => ContextSetupStep::CryptoProvider,
            ContextSetupStep::CryptoProvider => ContextSetupStep::LockingFunctions,
            _ => ContextSetupStep::Ready,
        }
    }

    /// The first step of a run.
    pub fn start() -> (r: ContextSetupStep)
        ensures
            r == ContextSetupStep::CreateContext,
    {
        ContextSetupStep::CreateContext
    }

    /// Records the status code of this step's engine call: success moves on to
    /// the next step, a failure ends the run with that code's error.
    pub fn advance(self, code: i32) -> (r: Result<ContextSetupStep, Error>)
        requires
            self != ContextSetupStep::Ready,
        ensures
            r == (match status_result(code) {
                Ok(_) => Ok(self.successor()),
                Err(e) => Err(e),
            }),
    {
        match check_status(code) {
            Err(e) => Err(e),
            Ok(()) => Ok(
                match self {
                    ContextSetupStep::CreateContext => ContextSetupStep::CryptoProvider,
                    ContextSetupStep::CryptoProvider => ContextSetupStep::LockingFunctions,
                    _ => ContextSetupStep::Ready,
                },
            ),
        }
    }
}

/// Steps of bringing up a store context: create it, then register the four
/// storage capabilities in a fixed order.
#[derive(Clone, Copy, Debug, PartialEq, Eq, Structural)]
pub enum StoreSetupStep {
    CreateStoreContext,
    PreKeyStore,
    SignedPreKeyStore,
    SessionStore,
    IdentityKeyStore,
    /// Every step succeeded.
    Ready,
}

impl StoreSetupStep {
    /// The step that follows this one.
    pub open spec fn successor(self) -> StoreSetupStep {
        match self {
            StoreSetupStep::CreateStoreContext => StoreSetupStep::PreKeyStore,
            StoreSetupStep::PreKeyStore => StoreSetupStep::SignedPreKeyStore,
            StoreSetupStep::SignedPreKeyStore => StoreSetupStep::SessionStore,
            StoreSetupStep::SessionStore => StoreSetupStep::IdentityKeyStore,
            _ => StoreSetupStep::Ready,
        }
    }

    /// The first step of a run.
    pub fn start() -> (r: StoreSetupStep)
        ensures
            r == StoreSetupStep::CreateStoreContext,
    {
        StoreSetupStep::CreateStoreContext
    }

    /// Records the status code of this step's engine call: success moves on to
    /// the next step, a failure ends the run with that code's error, so no
    /// partly registered store context is ever handed out.
    pub fn advance(self, code: i32) -> (r: Result<StoreSetupStep, Error>)
        requires
            self != StoreSetupStep::Ready,
        ensures
            r == (match status_result(code) {
                Ok(_) => Ok(self.successor()),
                Err(e) => Err(e),
            }),
    {
        match check_status(code) {
            Err(e) => Err(e),
            Ok(()) => Ok(
                match self {
                    StoreSetupStep::CreateStoreContext => StoreSetupStep::PreKeyStore,
                    StoreSetupStep::PreKeyStore => StoreSetupStep::SignedPreKeyStore,
                    StoreSetupStep::SignedPreKeyStore => StoreSetupStep::SessionStore,
                    StoreSetupStep::SessionStore => StoreSetupStep::IdentityKeyStore,
                    _ => StoreSetupStep::Ready,
                },
            ),
        }
    }
}

/// The outcome of running the store setup steps with the given status codes,
/// one per step, from `step` on.
pub open spec fn store_setup_run(step: StoreSetupStep, codes: Seq<i32>) -> Result<
    StoreSetupStep,
    Error,
>
    decreases codes.len(),
{
    if codes.len() == 0 || step == StoreSetupStep::Ready {
        Ok(step)
    } else {
        match status_result(codes[0]) {
            Ok(_) => store_setup_run(step.successor(), codes.drop_first()),
            Err(e) => Err(e),
        }
    }
}

/// A store setup run reaches `Ready` exactly when its five calls all succeed;
/// otherwise it reports the error of the first call that failed.
pub proof fn lemma_store_setup_first_failure(codes: Seq<i32>)
    requires
        codes.len() == 5,
    ensures
        store_setup_run(StoreSetupStep::CreateStoreContext, codes) == Ok::<StoreSetupStep, Error>(
            StoreSetupStep::Ready,
        ) <==> forall|i: int| 0 <= i < 5 ==> codes[i] == 0,
        forall|i: int|
            0 <= i < 5 && codes[i] != 0 && (forall|j: int| 0 <= j < i ==> codes[j] == 0)
                ==> store_setup_run(StoreSetupStep::CreateStoreContext, codes) == Err::<
                StoreSetupStep,
                Error,
            >(error_of_code(codes[i])),
{
    let c = codes;
    assert(c.drop_first()[0] == c[1]);
    assert(c.drop_first().drop_first()[0] == c[2]);
    assert(c.drop_first().drop_first().drop_first()[0] == c[3]);
    assert(c.drop_first().drop_first().drop_first().drop_first()[0] == c[4]);
    assert(c.drop_first().drop_first().drop_first().drop_first().drop_first().len() == 0);
    reveal_with_fuel(store_setup_run, 6);
}

/// Where a session builder is in its life.
#[derive(Clone, Copy, Debug, PartialEq, Eq, Structural)]
pub enum SessionBuilderState {
    /// Bound to an address and a store context; no bundle processed yet.
    Constructed,
    /// A pre-key bundle has been processed; the builder's work is done.
    BundleProcessed,
}

impl SessionBuilderState {
    /// Records the status code of processing a bundle: the builder is then done,
    /// whatever the outcome, and the code becomes the result.
    pub fn bundle_processed(self, code: i32) -> (r: (SessionBuilderState, Result<(), Error>))
        ensures
            r.0 == SessionBuilderState::BundleProcessed,
            r.1 == status_result(code),
    {
        (SessionBuilderState::BundleProcessed, check_status(code))
    }
}

} // verus!
