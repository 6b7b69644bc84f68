use std::collections::hash_map::DefaultHasher;
use std::collections::HashMap;
use std::hash::{Hash, Hasher};

use profile_identifiers::{EventIdentifier, ProfileIdentifier};

fn hash_code_of_profile(id: &ProfileIdentifier) -> u64 {
    let mut hasher = DefaultHasher::new();
    id.hash(&mut hasher);
    hasher.finish()
}

#[test]
fn test_new() {
    let _identifier = ProfileIdentifier::from_key_id("test".to_string());
}

#[test]
fn profile_text_is_prefix_then_key_id() {
    let id = ProfileIdentifier::from_key_id("abc".to_string());
    assert_eq!(id.to_string_representation(), "P_ID.abc");
}

#[test]
fn profile_text_of_empty_key_id_is_the_prefix() {
    let id = ProfileIdentifier::from_key_id(String::new());
    assert_eq!(id.to_string_representation(), "P_ID.");
}

#[test]
fn profile_text_keeps_the_key_id_unchanged() {
    let id = ProfileIdentifier::from_key_id("  Key-Ä/é 01\n".to_string());
    assert_eq!(id.to_string_representation(), "P_ID.  Key-Ä/é 01\n");
    let id = ProfileIdentifier::from_key_id("P_ID.abc".to_string());
    assert_eq!(id.to_string_representation(), "P_ID.P_ID.abc");
}

#[test]
fn profile_text_is_the_same_on_every_call() {
    let id = ProfileIdentifier::from_key_id("7f3a".to_string());
    assert_eq!(id.to_string_representation(), id.to_string_representation());
    let again = ProfileIdentifier::from_key_id("7f3a".to_string());
    assert_eq!(id.to_string_representation(), again.to_string_representation());
}

#[test]
fn profiles_are_equal_exactly_when_key_ids_are() {
    let a = ProfileIdentifier::from_key_id("abc".to_string());
    let b = ProfileIdentifier::from_key_id("abc".to_string());
    let c = ProfileIdentifier::from_key_id("abd".to_string());
    let d = ProfileIdentifier::from_key_id("ABC".to_string());
    let e = ProfileIdentifier::from_key_id("abc ".to_string());
    let f = ProfileIdentifier::from_key_id(String::new());
    assert!(a == b);
    assert!(b == a);
    assert!(a == a);
    assert!(a != c);
    assert!(a != d);
    assert!(a != e);
    assert!(a != f);
    assert!(f == ProfileIdentifier::from_key_id(String::new()));
}

#[test]
fn different_profiles_have_different_text() {
    let a = ProfileIdentifier::from_key_id("abc".to_string());
    let c = ProfileIdentifier::from_key_id("abd".to_string());
    assert_ne!(a.to_string_representation(), c.to_string_representation());
}

#[test]
fn profile_clone_is_equal() {
    let a = ProfileIdentifier::from_key_id("abc".to_string());
    let b = a.clone();
    assert!(a == b);
    assert_eq!(b.to_string_representation(), "P_ID.abc");
}

#[test]
fn equal_profiles_hash_equally() {
    let a = ProfileIdentifier::from_key_id("abc".to_string());
    let b = ProfileIdentifier::from_key_id("abc".to_string());
    assert_eq!(hash_code_of_profile(&a), hash_code_of_profile(&b));
    assert_eq!(hash_code_of_profile(&a), hash_code_of_profile(&a.clone()));
}

#[test]
fn profiles_are_map_keys() {
    let mut names: HashMap<ProfileIdentifier, u32> = HashMap::new();
    names.insert(ProfileIdentifier::from_key_id("abc".to_string()), 1);
    names.insert(ProfileIdentifier::from_key_id("abd".to_string()), 2);
    names.insert(ProfileIdentifier::from_key_id("abc".to_string()), 3);
    assert_eq!(names.len(), 2);
    assert_eq!(names.get(&ProfileIdentifier::from_key_id("abc".to_string())), Some(&3));
    assert_eq!(names.get(&ProfileIdentifier::from_key_id("abd".to_string())), Some(&2));
    assert_eq!(names.get(&ProfileIdentifier::from_key_id("abe".to_string())), None);
}

#[test]
fn profile_debug_names_the_type() {
    let id = ProfileIdentifier::from_key_id("abc".to_string());
    assert_eq!(format!("{:?}", id), "ProfileIdentifier(\"abc\")");
}

#[test]
fn profile_text_is_never_event_text() {
    let zeros = "0".repeat(64);
    let profile = ProfileIdentifier::from_key_id(zeros.clone());
    let event = EventIdentifier::from_hash([0u8; 32]);
    assert_eq!(profile.to_string_representation(), format!("P_ID.{}", zeros));
    assert_eq!(event.to_string_representation(), format!("E_ID.{}", zeros));
    assert_ne!(profile.to_string_representation(), event.to_string_representation());
}
