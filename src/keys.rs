//! Public keys as the 32 bytes of a curve point, their one-byte-tagged
//! encoding, and the order the library puts them in.
use vstd::prelude::*;
use std::cmp::Ordering;

use crate::bytes::copy_bytes;
use crate::errors::{check_status, error_of_code, Error, InternalError};

verus! {

/// Tag byte that opens every encoded public key.
pub const KEY_TYPE_TAG: u8 = 5;

/// Number of bytes in a curve point.
pub const KEY_LEN: usize = 32;

/// Whether `b` is a well-formed encoding: the tag byte followed by a point.
pub open spec fn is_encoding(b: Seq<u8>) -> bool {
    b.len() == KEY_LEN + 1 && b[0] == KEY_TYPE_TAG
}

/// The encoding of the point `k`.
pub open spec fn encoding_of(k: Seq<u8>) -> Seq<u8> {
    seq![KEY_TYPE_TAG] + k
}

/// Lexicographic order on byte strings: the first differing byte decides, and a
/// proper prefix comes first.
pub open spec fn lex_cmp(a: Seq<u8>, b: Seq<u8>) -> Ordering
    decreases a.len(),
{
    if a.len() == 0 {
        if b.len() == 0 {
            Ordering::Equal
        } else {
            Ordering::Less
        }
    } else if b.len() == 0 {
        Ordering::Greater
    } else if a[0] < b[0] {
        Ordering::Less
    } else if a[0] > b[0] {
        Ordering::Greater
    } else {
        lex_cmp(a.drop_first(), b.drop_first())
    }
}

/// A curve public key, held as the bytes of its point. Its derived `Ord`
/// compares those bytes lexicographically, as `compare` does.
#[derive(Debug, Eq, Ord)]
pub struct PublicKey {
    data: Vec<u8>,
}

impl View for PublicKey {
    type V = Seq<u8>;

    closed spec fn view(&self) -> Seq<u8> {
        self.data@
    }
}

impl PublicKey {
    #[verifier::type_invariant]
    closed spec fn inv(&self) -> bool {
        self.data@.len() == KEY_LEN
    }

    /// Reads a key from its encoding; anything but the tag byte followed by
    /// exactly one point is rejected as an invalid key.
    pub fn decode_point(key: &[u8]) -> (r: Result<PublicKey, Error>)
        ensures
            match r {
                Ok(k) => is_encoding(key@) && k@ == key@.subrange(1, key@.len() as int),
                Err(e) => !is_encoding(key@) && e == Error::Internal(InternalError::InvalidKey),
            },
    {
        if key.len() != KEY_LEN + 1 || key[0] != KEY_TYPE_TAG {
            return Err(Error::Internal(InternalError::InvalidKey));
        }
        let mut data: Vec<u8> = Vec::with_capacity(KEY_LEN);
        let mut i: usize = 1;
        while i < key.len()
            invariant
                key@.len() == KEY_LEN + 1,
                1 <= i <= key@.len(),
                data@ == key@.subrange(1, i as int),
            decreases key@.len() - i,
        {
            data.push(key[i]);
            i = i + 1;
        }
        Ok(PublicKey { data })
    }

    /// The encoding of this key: the tag byte, then the point.
    pub fn serialize(&self) -> (r: Vec<u8>)
        ensures
            self@.len() == KEY_LEN,
            r@ == encoding_of(self@),
            is_encoding(r@),
    {
        proof {
            use_type_invariant(self);
        }
        let mut out: Vec<u8> = Vec::with_capacity(KEY_LEN + 1);
        out.push(KEY_TYPE_TAG);
        let mut i: usize = 0;
        while i < self.data.len()
            invariant
                self.data@.len() == KEY_LEN,
                0 <= i <= self.data@.len(),
                out@ == seq![KEY_TYPE_TAG] + self.data@.subrange(0, i as int),
            decreases self.data@.len() - i,
        {
            out.push(self.data[i]);
            i = i + 1;
        }
        assert(self.data@.subrange(0, i as int) =~= self.data@);
        out
    }

    /// Compares two keys by their point bytes, lexicographically.
    pub fn compare(&self, other: &PublicKey) -> (r: Ordering)
        ensures
            r == lex_cmp(self@, other@),
    {
        proof {
            use_type_invariant(self);
            use_type_invariant(other);
        }
        let mut i: usize = 0;
        assert(self@.skip(0) =~= self@);
        assert(other@.skip(0) =~= other@);
        while i < self.data.len()
            invariant
                self.data@.len() == KEY_LEN,
                other.data@.len() == KEY_LEN,
                0 <= i <= KEY_LEN,
                lex_cmp(self@, other@) == lex_cmp(self@.skip(i as int), other@.skip(i as int)),
            decreases KEY_LEN - i,
        {
            let a = self.data[i];
            let b = other.data[i];
            if a < b {
                return Ordering::Less;
            } else if a > b {
                return Ordering::Greater;
            }
            assert(self@.skip(i as int).drop_first() =~= self@.skip(i + 1));
            assert(other@.skip(i as int).drop_first() =~= other@.skip(i + 1));
            i = i + 1;
        }
        Ordering::Equal
    }

    /// Classifies the engine's answer to a signature check: one means valid,
    /// zero means invalid, anything else is a failure code.
    pub fn signature_outcome(result: i32) -> (r: Result<(), Error>)
        ensures
            result == 1 ==> r == Ok::<(), Error>(()),
            result == 0 ==> r == Err::<(), Error>(Error::InvalidSignature),
            result != 1 && result != 0 ==> r == Err::<(), Error>(error_of_code(result)),
    {
        if result == 1 {
            Ok(())
        } else if result == 0 {
            Err(Error::InvalidSignature)
        } else {
            match check_status(result) {
                Err(e) => Err(e),
                Ok(()) => Ok(()),
            }
        }
    }
}

impl Clone for PublicKey {
    fn clone(&self) -> (r: PublicKey)
        ensures
            r@ == self@,
    {
        proof {
            use_type_invariant(self);
        }
        PublicKey { data: copy_bytes(self.data.as_slice()) }
    }
}

impl PartialEq for PublicKey {
    fn eq(&self, other: &PublicKey) -> (r: bool) {
        match self.compare(other) {
            Ordering::Equal => true,
            _ => false,
        }
    }
}

impl vstd::std_specs::cmp::PartialEqSpecImpl for PublicKey {
    open spec fn obeys_eq_spec() -> bool {
        true
    }

    open spec fn eq_spec(&self, other: &PublicKey) -> bool {
        lex_cmp(self@, other@) == Ordering::Equal
    }
}

impl PartialOrd for PublicKey {
    fn partial_cmp(&self, other: &PublicKey) -> (r: Option<Ordering>) {
        Some(self.compare(other))
    }
}

impl vstd::std_specs::cmp::PartialOrdSpecImpl for PublicKey {
    open spec fn obeys_partial_cmp_spec() -> bool {
        true
    }

    open spec fn partial_cmp_spec(&self, other: &PublicKey) -> Option<Ordering> {
        Some(lex_cmp(self@, other@))
    }
}

/// Two byte strings compare equal exactly when they are the same string.
pub proof fn lemma_lex_equal(a: Seq<u8>, b: Seq<u8>)
    ensures
        lex_cmp(a, b) == Ordering::Equal <==> a == b,
    decreases a.len(),
{
    if a.len() > 0 && b.len() > 0 && a[0] == b[0] {
        lemma_lex_equal(a.drop_first(), b.drop_first());
        if a.drop_first() == b.drop_first() {
            assert(a =~= seq![a[0]] + a.drop_first());
            assert(b =~= seq![b[0]] + b.drop_first());
        }
        if a == b {
            assert(a.drop_first() =~= b.drop_first());
        }
    } else if a.len() == 0 && b.len() == 0 {
        assert(a =~= b);
    }
}

/// Swapping the two sides turns `Less` into `Greater` and back.
pub proof fn lemma_lex_antisymmetric(a: Seq<u8>, b: Seq<u8>)
    ensures
        lex_cmp(a, b) == Ordering::Less <==> lex_cmp(b, a) == Ordering::Greater,
        lex_cmp(a, b) == Ordering::Equal <==> lex_cmp(b, a) == Ordering::Equal,
    decreases a.len(),
{
    if a.len() > 0 && b.len() > 0 && a[0] == b[0] {
        lemma_lex_antisymmetric(a.drop_first(), b.drop_first());
    }
}

/// `Less` chains: a before b and b before c puts a before c.
pub proof fn lemma_lex_transitive(a: Seq<u8>, b: Seq<u8>, c: Seq<u8>)
    requires
        lex_cmp(a, b) == Ordering::Less,
        lex_cmp(b, c) == Ordering::Less,
    ensures
        lex_cmp(a, c) == Ordering::Less,
    decreases a.len(),
{
    if a.len() > 0 && b.len() > 0 && c.len() > 0 && a[0] == b[0] && b[0] == c[0] {
        lemma_lex_transitive(a.drop_first(), b.drop_first(), c.drop_first());
    }
}

/// Decoding the encoding of a point (every key's point has `KEY_LEN` bytes, as
/// `serialize` states) succeeds and gives back that same point.
pub proof fn lemma_decode_serialize_round_trip(k: Seq<u8>)
    requires
        k.len() == KEY_LEN,
    ensures
        is_encoding(encoding_of(k)),
        encoding_of(k).subrange(1, encoding_of(k).len() as int) == k,
{
    assert(encoding_of(k).subrange(1, encoding_of(k).len() as int) =~= k);
}

/// The order on public keys is total and consistent: each pair compares one way
/// from one side and the opposite way from the other, keys compare equal only to
/// keys with the same point, and `Less` is transitive. Keys with equal points
/// compare the same against any third key, whichever is the receiver.
pub proof fn lemma_public_key_total_order(a: PublicKey, b: PublicKey, c: PublicKey)
    ensures
        lex_cmp(a@, b@) == Ordering::Less <==> lex_cmp(b@, a@) == Ordering::Greater,
        lex_cmp(a@, b@) == Ordering::Equal <==> a@ == b@,
        lex_cmp(a@, b@) == Ordering::Equal <==> lex_cmp(b@, a@) == Ordering::Equal,
        lex_cmp(a@, b@) == Ordering::Less && lex_cmp(b@, c@) == Ordering::Less ==> lex_cmp(
            a@,
            c@,
        ) == Ordering::Less,
        a@ == b@ ==> lex_cmp(a@, c@) == lex_cmp(b@, c@) && lex_cmp(c@, a@) == lex_cmp(c@, b@),
{
    lemma_lex_antisymmetric(a@, b@);
    lemma_lex_equal(a@, b@);
    if lex_cmp(a@, b@) == Ordering::Less && lex_cmp(b@, c@) == Ordering::Less {
        lemma_lex_transitive(a@, b@, c@);
    }
}

} // verus!
