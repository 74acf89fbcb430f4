//! A peer's address: the name it goes by and one of its devices.
use vstd::prelude::*;
use vstd::string::StringSliceAdditionalSpecFns;

verus! {

/// Declares std's error for bytes that are not UTF-8, so that `as_str` can
/// keep its usual signature.
#[verifier::external_type_specification]
#[verifier::external_body]
pub struct ExUtf8Error(std::str::Utf8Error);

/// A peer address. It borrows the name it was built from and lives no longer
/// than that name.
pub struct Address<'a> {
    name: &'a str,
    device_id: i32,
}

impl<'a> Address<'a> {
    /// The bytes of the name.
    pub closed spec fn name_bytes(&self) -> Seq<u8> {
        self.name.spec_bytes()
    }

    /// The name as text.
    pub closed spec fn name_text(&self) -> Seq<char> {
        self.name@
    }

    /// The device id.
    pub closed spec fn device(&self) -> i32 {
        self.device_id
    }

    /// The key that stores use for this address: name bytes and device id.
    pub open spec fn key(&self) -> (Seq<u8>, i32) {
        (self.name_bytes(), self.device())
    }

    pub fn new(name: &'a str, device_id: i32) -> (r: Address<'a>)
        ensures
            r.name_bytes() == name.spec_bytes(),
            r.name_text() == name@,
            r.device() == device_id,
    {
        Address { name, device_id }
    }

    /// The bytes of the name, borrowed for as long as the name lives.
    pub fn bytes(&self) -> (r: &'a [u8])
        ensures
            r@ == self.name_bytes(),
    {
        self.name.as_bytes()
    }

    /// The name as text. An address is only ever built from text, so this
    /// always succeeds.
    pub fn as_str(&self) -> (r: Result<&'a str, std::str::Utf8Error>)
        ensures
            r is Ok,
            r matches Ok(s) ==> s@ == self.name_text() && s.spec_bytes() == self.name_bytes(),
    {
        Ok(self.name)
    }

    pub fn device_id(&self) -> (r: i32)
        ensures
            r == self.device(),
    {
        self.device_id
    }
}

} // verus!
