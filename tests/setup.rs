use libsignal_protocol::{ContextSetupStep, Error, InternalError, SessionBuilderState, StoreSetupStep};

#[test]
fn context_setup_runs_three_steps() {
    let s = ContextSetupStep::start();
    assert_eq!(s, ContextSetupStep::CreateContext);
    let s = s.advance(0).unwrap();
    assert_eq!(s, ContextSetupStep::CryptoProvider);
    let s = s.advance(0).unwrap();
    assert_eq!(s, ContextSetupStep::LockingFunctions);
    let s = s.advance(0).unwrap();
    assert_eq!(s, ContextSetupStep::Ready);
}

#[test]
fn context_setup_stops_at_first_failure() {
    let s = ContextSetupStep::start().advance(0).unwrap();
    assert_eq!(s.advance(-12), Err(Error::Internal(InternalError::NoMemory)));
}

#[test]
fn store_setup_registers_four_stores_in_order() {
    let mut s = StoreSetupStep::start();
    let expected = [
        StoreSetupStep::PreKeyStore,
        StoreSetupStep::SignedPreKeyStore,
        StoreSetupStep::SessionStore,
        StoreSetupStep::IdentityKeyStore,
        StoreSetupStep::Ready,
    ];
    for e in expected.iter() {
        s = s.advance(0).unwrap();
        assert_eq!(s, *e);
    }
}

#[test]
fn store_setup_reports_first_error() {
    let codes = [0, 0, -22, -1000, 0];
    let mut s = StoreSetupStep::start();
    let mut outcome = Ok(s);
    for c in codes.iter() {
        outcome = s.advance(*c);
        match outcome {
            Ok(next) => s = next,
            Err(_) => break,
        }
    }
    assert_eq!(outcome, Err(Error::Internal(InternalError::InvalidArgument)));
    assert_eq!(s, StoreSetupStep::SignedPreKeyStore);
}

#[test]
fn store_setup_unknown_code() {
    assert_eq!(StoreSetupStep::start().advance(-77), Err(Error::UnknownCode(-77)));
}

#[test]
fn session_builder_is_done_after_a_bundle() {
    let (state, r) = SessionBuilderState::Constructed.bundle_processed(0);
    assert_eq!(state, SessionBuilderState::BundleProcessed);
    assert_eq!(r, Ok(()));
    let (state, r) = SessionBuilderState::Constructed.bundle_processed(-1010);
    assert_eq!(state, SessionBuilderState::BundleProcessed);
    assert_eq!(r, Err(Error::Internal(InternalError::UntrustedIdentity)));
}
