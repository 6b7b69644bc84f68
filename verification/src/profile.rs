//! The identifier of a profile.

use vstd::prelude::*;
use vstd::string::*;
use vstd::std_specs::cmp::PartialEqSpec;
use ockam_vault_core::KeyId;

verus! {

/// The characters that every profile identifier's text starts with.
pub open spec fn profile_prefix() -> Seq<char> {
    seq!['P', '_', 'I', 'D', '.']
}

/// Names a profile by the id of its key. The key id is kept as it was given: nothing is checked
/// or changed.
#[derive(Debug, Eq, Hash)]
pub struct ProfileIdentifier(KeyId);

impl View for ProfileIdentifier {
    type V = Seq<char>;

    /// The characters of the key id.
    closed spec fn view(&self) -> Seq<char> {
        self.0@
    }
}

impl ProfileIdentifier {
    /// The identifier that wraps `key_id`.
    pub closed spec fn spec_from_key_id(key_id: KeyId) -> Self {
        ProfileIdentifier(key_id)
    }

    /// The text form of the identifier: the prefix, then the key id.
    pub open spec fn spec_string_representation(&self) -> Seq<char> {
        profile_prefix() + self@
    }

    /// Wraps a key id, unchanged.
    #[verifier::when_used_as_spec(spec_from_key_id)]
    pub fn from_key_id(key_id: KeyId) -> (id: Self)
        ensures
            id == Self::spec_from_key_id(key_id),
            id@ == key_id@,
    {
        ProfileIdentifier(key_id)
    }

    /// `P_ID.` followed by the key id.
    pub fn to_string_representation(&self) -> (text: String)
        ensures
            text@ == self.spec_string_representation(),
    {
        proof {
            reveal_strlit("P_ID.");
        }
        let mut text = String::from_str("P_ID.");
        text.append(self.0.as_str());
        text
    }
}

impl Clone for ProfileIdentifier {
    /// A copy that holds the same key id.
    fn clone(&self) -> (copy: Self)
        ensures
            copy == *self,
    {
        ProfileIdentifier(self.0.clone())
    }
}

impl PartialEq for ProfileIdentifier {
    /// Whether the two identifiers hold the same key id.
    fn eq(&self, other: &Self) -> (r: bool) {
        self.0 == other.0
    }
}

impl vstd::std_specs::cmp::PartialEqSpecImpl for ProfileIdentifier {
    open spec fn obeys_eq_spec() -> bool {
        true
    }

    /// Identifiers are equal when their key ids are.
    open spec fn eq_spec(&self, other: &Self) -> bool {
        self@ == other@
    }
}

/// The key id of the identifier built from `key_id` is `key_id`.
pub proof fn lemma_from_key_id_view(key_id: KeyId)
    ensures
        ProfileIdentifier::from_key_id(key_id)@ == key_id@,
{
}

/// Identifiers built from two key ids are equal exactly when the key ids hold the same
/// characters.
pub proof fn lemma_from_key_id_equal_iff(k1: KeyId, k2: KeyId)
    ensures
        ProfileIdentifier::from_key_id(k1).eq_spec(&ProfileIdentifier::from_key_id(k2)) <==> k1@
            == k2@,
{
}

/// Two identifiers have the same text exactly when they are equal.
pub proof fn lemma_string_representation_injective(a: ProfileIdentifier, b: ProfileIdentifier)
    ensures
        a.spec_string_representation() == b.spec_string_representation() <==> a.eq_spec(&b),
{
    let ta = a.spec_string_representation();
    let tb = b.spec_string_representation();
    if ta == tb {
        assert(ta.subrange(5, ta.len() as int) =~= a@);
        assert(tb.subrange(5, tb.len() as int) =~= b@);
    }
}

} // verus!
