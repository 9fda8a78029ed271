//! Chain addresses in their display form and in their fixed-width binary form.
use vstd::prelude::*;
use vstd::std_specs::convert::FromSpecImpl;
use vstd::utf8::encode_utf8;

verus! {

/// A chain address as it is shown to people. Any text can be held; whether it
/// is a valid address is only decided when it is converted.
#[derive(Debug, PartialEq, Eq, Hash, Default)]
pub struct HumanAddr(pub String);

impl Clone for HumanAddr {
    fn clone(&self) -> (copy: Self)
        ensures
            copy == *self,
    {
        HumanAddr(self.0.clone())
    }
}

impl View for HumanAddr {
    type V = Seq<char>;

    open spec fn view(&self) -> Seq<char> {
        self.0@
    }
}

impl HumanAddr {
    /// The bytes of the address text in UTF-8.
    pub open spec fn bytes(&self) -> Seq<u8> {
        encode_utf8(self@)
    }

    /// The address text.
    pub fn as_str(&self) -> (text: &str)
        ensures
            text@ == self@,
    {
        self.0.as_str()
    }

    /// The length of the address text in bytes.
    pub fn len(&self) -> (n: usize)
        ensures
            n == self.bytes().len(),
    {
        self.0.as_str().as_bytes().len()
    }
}

/// An address can be given as plain text.
impl<'a> From<&'a str> for HumanAddr {
    fn from(addr: &'a str) -> (human: Self)
        ensures
            human@ == addr@,
    {
        HumanAddr(addr.to_owned())
    }
}

/// What `from` makes of a text is fixed by its `ensures`, over the address
/// text. It cannot be given as a spec function, since a specification has no
/// way to make a `String` out of text.
impl<'a> FromSpecImpl<&'a str> for HumanAddr {
    open spec fn obeys_from_spec() -> bool {
        false
    }

    open spec fn from_spec(addr: &'a str) -> Self {
        arbitrary()
    }
}

/// An address can be given as a borrowed address, of which a copy is made.
impl<'a> From<&'a HumanAddr> for HumanAddr {
    fn from(addr: &'a HumanAddr) -> (human: Self)
        ensures
            human == *addr,
    {
        HumanAddr(addr.0.clone())
    }
}

impl<'a> FromSpecImpl<&'a HumanAddr> for HumanAddr {
    open spec fn obeys_from_spec() -> bool {
        true
    }

    open spec fn from_spec(addr: &'a HumanAddr) -> Self {
        *addr
    }
}

/// A byte string.
#[derive(Clone, Debug, PartialEq, Eq, Default)]
pub struct Binary(pub Vec<u8>);

impl View for Binary {
    type V = Seq<u8>;

    open spec fn view(&self) -> Seq<u8> {
        self.0@
    }
}

impl Binary {
    /// The bytes held.
    pub fn as_slice(&self) -> (bytes: &[u8])
        ensures
            bytes@ == self@,
    {
        self.0.as_slice()
    }

    /// The number of bytes held.
    pub fn len(&self) -> (n: usize)
        ensures
            n == self@.len(),
    {
        self.0.len()
    }
}

/// A chain address in binary form. An [`Api`](crate::Api) instance only hands
/// out addresses of its own fixed width, and only accepts such.
#[derive(Clone, Debug, PartialEq, Eq, Default)]
pub struct CanonicalAddr(pub Binary);

impl View for CanonicalAddr {
    type V = Seq<u8>;

    open spec fn view(&self) -> Seq<u8> {
        self.0@
    }
}

impl CanonicalAddr {
    /// The bytes of the address.
    pub fn as_slice(&self) -> (bytes: &[u8])
        ensures
            bytes@ == self@,
    {
        self.0.as_slice()
    }

    /// The number of bytes in the address.
    pub fn len(&self) -> (n: usize)
        ensures
            n == self@.len(),
    {
        self.0.len()
    }
}

} // verus!
