//! Principals: opaque identifiers of users and of peer canisters.
//!
//! A principal is at most 29 bytes. Its textual form, with checksum and
//! grouping, is computed by the `candid` crate.

use vstd::prelude::*;

verus! {

/// Largest number of bytes in a principal.
pub const MAX_PRINCIPAL_BYTES: usize = 29;

/// The textual form of the principal with the given bytes, as
/// `candid::Principal::to_text` renders it.
pub uninterp spec fn principal_text(bytes: Seq<u8>) -> Seq<char>;

/// The bytes of the principal that a text denotes, as
/// `candid::Principal::from_text` parses it; `None` where it rejects the text.
pub uninterp spec fn principal_parse(text: Seq<char>) -> Option<Seq<u8>>;

/// `candid::Principal::from_slice`, which panics on more than 29 bytes, then
/// `Principal::to_text`: the result is the textual form of those bytes.
#[verifier::external_body]
fn text_of_bytes(bytes: &Vec<u8>) -> (r: String)
    requires
        bytes@.len() <= 29,
    ensures
        r@ == principal_text(bytes@),
{
    candid::Principal::from_slice(bytes.as_slice()).to_text()
}

/// `candid::Principal::from_text`: the bytes of the parsed principal, never more
/// than 29, or `None` where the text is rejected.
#[verifier::external_body]
fn bytes_of_text(text: &str) -> (r: Option<Vec<u8>>)
    ensures
        r matches Some(b) ==> b@.len() <= 29 && principal_parse(text@) == Some(b@),
        r.is_none() ==> principal_parse(text@).is_none(),
{
    match candid::Principal::from_text(text) {
        Ok(p) => Some(p.as_slice().to_vec()),
        Err(_) => None,
    }
}

/// The bytes of the anonymous principal.
pub open spec fn anonymous_bytes() -> Seq<u8> {
    seq![4u8]
}

/// An identifier of a user or canister.
#[derive(Debug)]
pub struct Principal {
    bytes: Vec<u8>,
}

impl View for Principal {
    type V = Seq<u8>;

    closed spec fn view(&self) -> Seq<u8> {
        self.bytes@
    }
}

impl Principal {
    #[verifier::type_invariant]
    closed spec fn well_formed(self) -> bool {
        self.bytes@.len() <= 29
    }

    /// The anonymous principal, which no caller check accepts.
    pub fn anonymous() -> (r: Principal)
        ensures
            r@ == anonymous_bytes(),
    {
        let mut bytes: Vec<u8> = Vec::new();
        bytes.push(4u8);
        Principal { bytes }
    }

    /// The principal with the given bytes, or `None` for more than 29 bytes.
    pub fn from_slice(bytes: &[u8]) -> (r: Option<Principal>)
        ensures
            bytes@.len() <= 29 ==> (r matches Some(p) && p@ == bytes@),
            bytes@.len() > 29 ==> r.is_none(),
    {
        if bytes.len() > MAX_PRINCIPAL_BYTES {
            return None;
        }
        let mut copy: Vec<u8> = Vec::new();
        let mut i: usize = 0;
        while i < bytes.len()
            invariant
                i <= bytes@.len(),
                bytes@.len() <= 29,
                copy@ == bytes@.take(i as int),
            decreases bytes@.len() - i,
        {
            copy.push(bytes[i]);
            proof {
                assert(bytes@.take(i as int + 1) == bytes@.take(i as int).push(bytes@[i as int]));
            }
            i = i + 1;
        }
        proof {
            assert(bytes@.take(bytes@.len() as int) == bytes@);
        }
        Some(Principal { bytes: copy })
    }

    /// The principal that `text` denotes, or `None` where the text is not a
    /// principal's textual form.
    pub fn from_text(text: &str) -> (r: Option<Principal>)
        ensures
            r matches Some(p) ==> principal_parse(text@) == Some(p@),
            r.is_none() ==> principal_parse(text@).is_none(),
    {
        match bytes_of_text(text) {
            Some(bytes) => Some(Principal { bytes }),
            None => None,
        }
    }

    /// The textual form.
    pub fn to_text(&self) -> (r: String)
        ensures
            r@ == principal_text(self@),
    {
        proof {
            use_type_invariant(self);
        }
        text_of_bytes(&self.bytes)
    }

    /// The bytes of this principal.
    pub fn as_bytes(&self) -> (r: &Vec<u8>)
        ensures
            r@ == self@,
            r@.len() <= 29,
    {
        proof {
            use_type_invariant(self);
        }
        &self.bytes
    }

    pub fn is_anonymous(&self) -> (r: bool)
        ensures
            r == (self@ == anonymous_bytes()),
    {
        let r = self.bytes.len() == 1 && self.bytes[0] == 4u8;
        proof {
            if r {
                assert(self.bytes@ =~= anonymous_bytes());
            }
        }
        r
    }

    /// Whether the two principals are the same.
    pub fn same(&self, other: &Principal) -> (r: bool)
        ensures
            r == (self@ == other@),
    {
        if self.bytes.len() != other.bytes.len() {
            return false;
        }
        let n: usize = self.bytes.len();
        let mut i: usize = 0;
        while i < n
            invariant
                i <= n,
                n == self.bytes@.len(),
                n == other.bytes@.len(),
                forall|j: int| 0 <= j < i ==> self.bytes@[j] == other.bytes@[j],
            decreases n - i,
        {
            if self.bytes[i] != other.bytes[i] {
                return false;
            }
            i = i + 1;
        }
        proof {
            assert(self.bytes@ =~= other.bytes@);
        }
        true
    }

    /// A copy of this principal.
    pub fn duplicate(&self) -> (r: Principal)
        ensures
            r@ == self@,
    {
        proof {
            use_type_invariant(self);
        }
        Principal { bytes: self.bytes.clone() }
    }
}

impl Clone for Principal {
    fn clone(&self) -> (r: Principal)
        ensures
            r@ == self@,
    {
        self.duplicate()
    }
}

} // verus!
