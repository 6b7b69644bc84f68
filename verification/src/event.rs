//! The identifier of an event in a profile's history.

use vstd::prelude::*;
use vstd::string::*;
use vstd::std_specs::cmp::PartialEqSpec;
use crate::encoding::{hex_encode, hex_lower, lemma_hex_lower_injective};

verus! {

/// The characters that every event identifier's text starts with.
pub open spec fn event_prefix() -> Seq<char> {
    seq!['E', '_', 'I', 'D', '.']
}

/// Names an event by the 32-byte digest of its content.
#[derive(Debug, Eq, Hash)]
pub struct EventIdentifier([u8; 32]);

impl View for EventIdentifier {
    type V = Seq<u8>;

    /// The digest: 32 bytes.
    closed spec fn view(&self) -> Seq<u8> {
        self.0@
    }
}

impl EventIdentifier {
    /// The identifier that wraps `hash`.
    pub closed spec fn spec_from_hash(hash: [u8; 32]) -> Self {
        EventIdentifier(hash)
    }

    /// The text form of the identifier: the prefix, then the digest in lowercase hexadecimal.
    pub open spec fn spec_string_representation(&self) -> Seq<char> {
        event_prefix() + hex_lower(self@)
    }

    /// Wraps a digest, unchanged.
    #[verifier::when_used_as_spec(spec_from_hash)]
    pub fn from_hash(hash: [u8; 32]) -> (id: Self)
        ensures
            id == Self::spec_from_hash(hash),
            id@ == hash@,
    {
        EventIdentifier(hash)
    }

    /// `E_ID.` followed by the 64 lowercase hexadecimal digits of the digest.
    pub fn to_string_representation(&self) -> (text: String)
        ensures
            text@ == self.spec_string_representation(),
            text@.len() == 69,
    {
        proof {
            reveal_strlit("E_ID.");
        }
        let mut text = String::from_str("E_ID.");
        let digits = hex_encode(&self.0);
        text.append(digits.as_str());
        text
    }
}

impl AsRef<[u8]> for EventIdentifier {
    /// The digest as a slice of 32 bytes.
    fn as_ref(&self) -> (bytes: &[u8])
        ensures
            bytes@ == self@,
            bytes@.len() == 32,
    {
        &self.0
    }
}

impl Clone for EventIdentifier {
    /// A copy that holds the same digest.
    fn clone(&self) -> (copy: Self)
        ensures
            copy == *self,
    {
        EventIdentifier(self.0)
    }
}

impl PartialEq for EventIdentifier {
    /// Whether the two identifiers hold the same digest.
    fn eq(&self, other: &Self) -> (r: bool) {
        let mut i: usize = 0;
        while i < 32
            invariant
                i <= 32,
                forall|j: int| 0 <= j < i ==> self.0@[j] == other.0@[j],
            decreases 32 - i,
        {
            if self.0[i] != other.0[i] {
                return false;
            }
            i += 1;
        }
        assert(self.0@ =~= other.0@);
        true
    }
}

impl vstd::std_specs::cmp::PartialEqSpecImpl for EventIdentifier {
    open spec fn obeys_eq_spec() -> bool {
        true
    }

    /// Identifiers are equal when their digests are.
    open spec fn eq_spec(&self, other: &Self) -> bool {
        self@ == other@
    }
}

/// The digest of the identifier built from `hash` is `hash`.
pub proof fn lemma_from_hash_view(hash: [u8; 32])
    ensures
        EventIdentifier::from_hash(hash)@ == hash@,
{
}

/// Identifiers built from two digests are equal exactly when the digests are, and two digests
/// are the same exactly when they hold the same bytes.
pub proof fn lemma_from_hash_equal_iff(h1: [u8; 32], h2: [u8; 32])
    ensures
        EventIdentifier::from_hash(h1).eq_spec(&EventIdentifier::from_hash(h2)) <==> h1 == h2,
        h1 == h2 <==> h1@ == h2@,
{
    if h1@ == h2@ {
        assert(h1 =~= h2);
    }
}

/// Identifiers that compare equal are one and the same value, and only those.
pub proof fn lemma_equal_is_identical(a: EventIdentifier, b: EventIdentifier)
    ensures
        a.eq_spec(&b) <==> a == b,
{
    if a@ == b@ {
        assert(a.0 =~= b.0);
    }
}

/// The digest of every identifier has 32 bytes.
pub proof fn lemma_digest_len(id: EventIdentifier)
    ensures
        id@.len() == 32,
{
}

/// An identifier built from the bytes of another is equal to it.
pub proof fn lemma_from_hash_of_digest(id: EventIdentifier, hash: [u8; 32])
    requires
        hash@ == id@,
    ensures
        EventIdentifier::from_hash(hash).eq_spec(&id),
        EventIdentifier::from_hash(hash) == id,
{
    assert(hash =~= id.0);
}

/// Two identifiers have the same text exactly when they are equal.
pub proof fn lemma_string_representation_injective(a: EventIdentifier, b: EventIdentifier)
    ensures
        a.spec_string_representation() == b.spec_string_representation() <==> a.eq_spec(&b),
{
    let ta = a.spec_string_representation();
    let tb = b.spec_string_representation();
    if ta == tb {
        assert(ta.subrange(5, ta.len() as int) =~= hex_lower(a@));
        assert(tb.subrange(5, tb.len() as int) =~= hex_lower(b@));
        lemma_hex_lower_injective(a@, b@);
    }
}

} // verus!
