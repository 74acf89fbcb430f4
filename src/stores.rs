//! The four storage capabilities that the embedding application supplies, each
//! stated over the records it holds, and an in-memory store for the two kinds
//! keyed by id.
//!
//! The engine may call a capability from inside another capability's call, on
//! the same thread; an implementation must tolerate that and take no lock that
//! is not reentrant.
use vstd::prelude::*;
use std::collections::HashMap;

use crate::address::Address;
use crate::bytes::copy_bytes;
use crate::errors::{code_of, InternalError, SUCCESS};

verus! {

/// Address keys of the records held under the peer name `name`, any device.
pub open spec fn keys_under_name(
    m: Map<(Seq<u8>, i32), Seq<u8>>,
    name: Seq<u8>,
) -> Set<(Seq<u8>, i32)> {
    m.dom().filter(|k: (Seq<u8>, i32)| k.0 == name)
}

/// The records of `m` that are kept when every record under `name` is deleted.
pub open spec fn without_name(
    m: Map<(Seq<u8>, i32), Seq<u8>>,
    name: Seq<u8>,
) -> Map<(Seq<u8>, i32), Seq<u8>> {
    m.restrict(m.dom().filter(|k: (Seq<u8>, i32)| k.0 != name))
}

/// Deleting every record under a name removes exactly the records keyed under
/// that name, whatever their device, and keeps every other record as it was.
pub proof fn lemma_delete_all_scope(m: Map<(Seq<u8>, i32), Seq<u8>>, name: Seq<u8>)
    ensures
        forall|k: (Seq<u8>, i32)|
            #[trigger] without_name(m, name).contains_key(k) <==> (m.contains_key(k) && k.0
                != name),
        forall|k: (Seq<u8>, i32)|
            #[trigger] without_name(m, name).contains_key(k) ==> without_name(m, name)[k] == m[k],
        forall|k: (Seq<u8>, i32)|
            keys_under_name(m, name).contains(k) ==> !#[trigger] without_name(
                m,
                name,
            ).contains_key(k),
{
}

/// Storing a record and then loading it under the same key gives back the
/// same bytes; removing it leaves no record under that key; neither touches
/// another key.
pub proof fn lemma_store_load_round_trip<K>(m: Map<K, Seq<u8>>, k: K, body: Seq<u8>, other: K)
    requires
        other != k,
    ensures
        m.insert(k, body).contains_key(k),
        m.insert(k, body)[k] == body,
        !m.insert(k, body).remove(k).contains_key(k),
        m.insert(k, body).contains_key(other) == m.contains_key(other),
        m.remove(k).contains_key(other) == m.contains_key(other),
        m.contains_key(other) ==> m.insert(k, body)[other] == m[other] && m.remove(k)[other]
            == m[other],
{
}

/// Storage for one-time pre-keys, keyed by pre-key id.
pub trait PreKeyStore {
    /// The serialized pre-key records held, by id.
    spec fn pre_keys(&self) -> Map<u32, Seq<u8>>;

    /// The record stored under `id`, if any.
    fn load(&self, id: u32) -> (r: Option<Vec<u8>>)
        ensures
            match r {
                Some(b) => self.pre_keys().contains_key(id) && b@ == self.pre_keys()[id],
                None => !self.pre_keys().contains_key(id),
            },
    ;

    /// Stores `body` under `id`, replacing any record there.
    fn store(&mut self, id: u32, body: &[u8]) -> (r: Result<(), InternalError>)
        ensures
            r is Ok ==> final(self).pre_keys() == old(self).pre_keys().insert(id, body@),
            r is Err ==> final(self).pre_keys() == old(self).pre_keys(),
    ;

    /// Whether a record is stored under `id`.
    fn contains(&self, id: u32) -> (r: bool)
        ensures
            r == self.pre_keys().contains_key(id),
    ;

    /// Removes the record under `id`; removing a missing record is no error.
    fn remove(&mut self, id: u32) -> (r: Result<(), InternalError>)
        ensures
            r is Ok ==> final(self).pre_keys() == old(self).pre_keys().remove(id),
            r is Err ==> final(self).pre_keys() == old(self).pre_keys(),
    ;
}

/// Storage for signed pre-keys, keyed by signed pre-key id.
pub trait SignedPreKeyStore {
    /// The serialized signed pre-key records held, by id.
    spec fn signed_pre_keys(&self) -> Map<u32, Seq<u8>>;

    /// The record stored under `id`, if any.
    fn load(&self, id: u32) -> (r: Option<Vec<u8>>)
        ensures
            match r {
                Some(b) => self.signed_pre_keys().contains_key(id) && b@
                    == self.signed_pre_keys()[id],
                None => !self.signed_pre_keys().contains_key(id),
            },
    ;

    /// Stores `body` under `id`, replacing any record there.
    fn store(&mut self, id: u32, body: &[u8]) -> (r: Result<(), InternalError>)
        ensures
            r is Ok ==> final(self).signed_pre_keys() == old(self).signed_pre_keys().insert(
                id,
                body@,
            ),
            r is Err ==> final(self).signed_pre_keys() == old(self).signed_pre_keys(),
    ;

    /// Whether a record is stored under `id`.
    fn contains(&self, id: u32) -> (r: bool)
        ensures
            r == self.signed_pre_keys().contains_key(id),
    ;

    /// Removes the record under `id`; removing a missing record is no error.
    fn remove(&mut self, id: u32) -> (r: Result<(), InternalError>)
        ensures
            r is Ok ==> final(self).signed_pre_keys() == old(self).signed_pre_keys().remove(id),
            r is Err ==> final(self).signed_pre_keys() == old(self).signed_pre_keys(),
    ;
}

/// Storage for session state, keyed by peer address.
pub trait SessionStore {
    /// The serialized session records held, by (name bytes, device id).
    spec fn sessions(&self) -> Map<(Seq<u8>, i32), Seq<u8>>;

    /// The session stored for `address`, if any.
    fn load_session(&self, address: &Address) -> (r: Option<Vec<u8>>)
        ensures
            match r {
                Some(b) => self.sessions().contains_key(address.key()) && b@
                    == self.sessions()[address.key()],
                None => !self.sessions().contains_key(address.key()),
            },
    ;

    /// Stores `session` for `address`, replacing any session there.
    fn store_session(&mut self, address: &Address, session: &[u8]) -> (r: Result<
        (),
        InternalError,
    >)
        ensures
            r is Ok ==> final(self).sessions() == old(self).sessions().insert(
                address.key(),
                session@,
            ),
            r is Err ==> final(self).sessions() == old(self).sessions(),
    ;

    /// The device ids of `name` that have a session.
    fn sub_device_sessions(&self, name: &[u8]) -> (r: Result<Vec<i32>, InternalError>)
        ensures
            r matches Ok(ids) ==> forall|d: i32|
                ids@.contains(d) <==> self.sessions().contains_key((name@, d)),
    ;

    /// Whether a session is stored for `address`.
    fn contains_session(&self, address: &Address) -> (r: bool)
        ensures
            r == self.sessions().contains_key(address.key()),
    ;

    /// Deletes the session for `address`; deleting a missing one is no error.
    fn delete_session(&mut self, address: &Address) -> (r: Result<(), InternalError>)
        ensures
            r is Ok ==> final(self).sessions() == old(self).sessions().remove(address.key()),
            r is Err ==> final(self).sessions() == old(self).sessions(),
    ;

    /// Deletes the sessions of every device of the peer `name`, and no other.
    fn delete_all_sessions(&mut self, name: &[u8]) -> (r: Result<(), InternalError>)
        ensures
            r is Ok ==> final(self).sessions() == without_name(old(self).sessions(), name@),
            r is Err ==> final(self).sessions() == old(self).sessions(),
    ;
}

/// Storage for this client's identity and the identity keys of its peers.
pub trait IdentityKeyStore {
    /// The serialized identity keys saved for peers, by (name bytes, device id).
    spec fn identities(&self) -> Map<(Seq<u8>, i32), Seq<u8>>;

    /// This client's identity key pair, as serialized public and private keys.
    fn identity_key_pair(&self) -> (r: Result<(Vec<u8>, Vec<u8>), InternalError>);

    /// This client's registration id.
    fn local_registration_id(&self) -> (r: Result<u32, InternalError>);

    /// Saves `identity_key` as the identity of `address`.
    fn save_identity(&mut self, address: &Address, identity_key: &[u8]) -> (r: Result<
        (),
        InternalError,
    >)
        ensures
            r is Ok ==> final(self).identities() == old(self).identities().insert(
                address.key(),
                identity_key@,
            ),
            r is Err ==> final(self).identities() == old(self).identities(),
    ;

    /// Whether `identity_key` is to be trusted for `address`. The policy (trust
    /// on first use, an explicit allow list, ...) is the implementation's own.
    fn is_trusted_identity(&self, address: &Address, identity_key: &[u8]) -> (r: Result<
        bool,
        InternalError,
    >);
}

/// The status a pre-key or signed pre-key load reports to the engine: success
/// when the record was found, else the invalid-key-id code.
pub fn key_load_status(found: bool) -> (r: i32)
    ensures
        found ==> r == SUCCESS,
        !found ==> r == code_of(InternalError::InvalidKeyId),
{
    if found {
        SUCCESS
    } else {
        InternalError::InvalidKeyId.code()
    }
}

/// The status a yes-or-no answer reports to the engine (a session or record
/// loaded or present, an identity trusted): one for yes, zero for no.
pub fn presence_status(present: bool) -> (r: i32)
    ensures
        present ==> r == 1,
        !present ==> r == 0,
{
    if present {
        1
    } else {
        0
    }
}

/// Records keyed by id, held in memory. Serves as a pre-key store or as a
/// signed pre-key store.
pub struct MemoryKeyStore {
    records: HashMap<u32, Vec<u8>>,
}

impl MemoryKeyStore {
    /// The records held, by id.
    pub closed spec fn records(&self) -> Map<u32, Seq<u8>> {
        self.records@.map_values(|v: Vec<u8>| v@)
    }

    /// An empty store.
    pub fn new() -> (r: MemoryKeyStore)
        ensures
            r.records() == Map::<u32, Seq<u8>>::empty(),
    {
        let r = MemoryKeyStore { records: HashMap::new() };
        assert(r.records() =~= Map::<u32, Seq<u8>>::empty());
        r
    }

    /// The record stored under `id`, if any.
    pub fn load_record(&self, id: u32) -> (r: Option<Vec<u8>>)
        ensures
            match r {
                Some(b) => self.records().contains_key(id) && b@ == self.records()[id],
                None => !self.records().contains_key(id),
            },
    {
        broadcast use vstd::std_specs::hash::group_hash_axioms;

        match self.records.get(&id) {
            Some(v) => Some(copy_bytes(v.as_slice())),
            None => None,
        }
    }

    /// Stores `body` under `id`, replacing any record there; never fails.
    pub fn store_record(&mut self, id: u32, body: &[u8])
        ensures
            final(self).records() == old(self).records().insert(id, body@),
    {
        broadcast use vstd::std_specs::hash::group_hash_axioms;

        let v = copy_bytes(body);
        self.records.insert(id, v);
        assert(self.records() =~= old(self).records().insert(id, body@));
    }

    /// Whether a record is stored under `id`.
    pub fn contains_record(&self, id: u32) -> (r: bool)
        ensures
            r == self.records().contains_key(id),
    {
        broadcast use vstd::std_specs::hash::group_hash_axioms;

        self.records.contains_key(&id)
    }

    /// Removes the record under `id`, if any; never fails.
    pub fn remove_record(&mut self, id: u32)
        ensures
            final(self).records() == old(self).records().remove(id),
    {
        broadcast use vstd::std_specs::hash::group_hash_axioms;

        self.records.remove(&id);
        assert(self.records() =~= old(self).records().remove(id));
    }
}

impl PreKeyStore for MemoryKeyStore {
    open spec fn pre_keys(&self) -> Map<u32, Seq<u8>> {
        self.records()
    }

    fn load(&self, id: u32) -> (r: Option<Vec<u8>>) {
        self.load_record(id)
    }

    fn store(&mut self, id: u32, body: &[u8]) -> (r: Result<(), InternalError>) {
        self.store_record(id, body);
        Ok(())
    }

    fn contains(&self, id: u32) -> (r: bool) {
        self.contains_record(id)
    }

    fn remove(&mut self, id: u32) -> (r: Result<(), InternalError>) {
        self.remove_record(id);
        Ok(())
    }
}

impl SignedPreKeyStore for MemoryKeyStore {
    open spec fn signed_pre_keys(&self) -> Map<u32, Seq<u8>> {
        self.records()
    }

    fn load(&self, id: u32) -> (r: Option<Vec<u8>>) {
        self.load_record(id)
    }

    fn store(&mut self, id: u32, body: &[u8]) -> (r: Result<(), InternalError>) {
        self.store_record(id, body);
        Ok(())
    }

    fn contains(&self, id: u32) -> (r: bool) {
        self.contains_record(id)
    }

    fn remove(&mut self, id: u32) -> (r: Result<(), InternalError>) {
        self.remove_record(id);
        Ok(())
    }
}

} // verus!
