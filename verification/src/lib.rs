//! Identifiers of a decentralized identity system: a profile is named by the id of its key,
//! an event of a profile's history by the digest of its content.

pub mod encoding;
pub mod event;
pub mod profile;

pub use event::EventIdentifier;
pub use profile::ProfileIdentifier;

use vstd::prelude::*;

verus! {

/// The text of a profile identifier is never the text of an event identifier: the prefix tells
/// the two kinds apart.
pub proof fn lemma_kinds_differ_in_text(profile: ProfileIdentifier, event: EventIdentifier)
    ensures
        profile.spec_string_representation() != event.spec_string_representation(),
{
    assert(profile.spec_string_representation()[0] == 'P');
    assert(event.spec_string_representation()[0] == 'E');
}

} // verus!
