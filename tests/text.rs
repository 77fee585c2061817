use backend::ids::{parse_user_id, user_id_text};
use backend::error::CoreError;
use backend::profile::{finalize_profile, image_entry, profile_response};
use backend::text::{bearer_token, copy_strings, object_url, storage_endpoint, upload_key};
use backend::user::{identifier_order, lookup_key, required_contact, ContactError, Lookup, UserKey};
use backend::responses::StatusResponse;

#[test]
fn user_ids_read_and_print_as_uuids() {
    let id = parse_user_id("550e8400-e29b-41d4-a716-446655440000").unwrap();
    assert_eq!(id, 0x550e8400_e29b_41d4_a716_446655440000);
    assert_eq!(user_id_text(id), "550e8400-e29b-41d4-a716-446655440000");
    assert_eq!(parse_user_id("550e8400e29b41d4a716446655440000"), Ok(id));
    assert_eq!(parse_user_id("550E8400-E29B-41D4-A716-446655440000"), Ok(id));
    assert_eq!(user_id_text(0), "00000000-0000-0000-0000-000000000000");
    assert_eq!(user_id_text(u128::MAX), "ffffffff-ffff-ffff-ffff-ffffffffffff");
}

#[test]
fn malformed_user_ids_are_invalid_targets() {
    assert_eq!(parse_user_id(""), Err(CoreError::InvalidTarget));
    assert_eq!(parse_user_id("550e8400-e29b-41d4-a716-44665544000"), Err(CoreError::InvalidTarget));
    assert_eq!(parse_user_id("zz0e8400-e29b-41d4-a716-446655440000"), Err(CoreError::InvalidTarget));
}

#[test]
fn upload_keys_carry_timestamp_and_name() {
    assert_eq!(upload_key(1700000000123, "me.png"), "uploads/1700000000123-me.png");
    assert_eq!(upload_key(0, "a"), "uploads/0-a");
    assert_eq!(upload_key(-5, "b.jpg"), "uploads/-5-b.jpg");
}

#[test]
fn storage_addresses() {
    assert_eq!(storage_endpoint("acct"), "https://acct.r2.cloudflarestorage.com");
    assert_eq!(object_url("pics", "uploads/1-a.png"), "https://pics.r2.cloudflarestorage.com/uploads/1-a.png");
}

#[test]
fn bearer_tokens_are_taken_after_the_scheme() {
    assert_eq!(bearer_token("Bearer abc.def"), Some("abc.def".to_string()));
    assert_eq!(bearer_token("Bearer "), Some(String::new()));
    assert_eq!(bearer_token("bearer abc"), None);
    assert_eq!(bearer_token("Basic abc"), None);
    assert_eq!(bearer_token("Bearer"), None);
    assert_eq!(bearer_token(""), None);
}

#[test]
fn incomplete_profile_lists_pending_actions() {
    let r = finalize_profile(4, 1, 2);
    assert_eq!(r.status, "error");
    assert_eq!(r.message.as_deref(), Some("Profile not finalized"));
    assert_eq!(
        r.pending_actions.unwrap(),
        vec![
            "Upload 2 more images".to_string(),
            "Upload 2 more prompts".to_string(),
            "Fill 2 more profile details".to_string(),
        ]
    );
    let r = finalize_profile(0, 3, 0);
    assert_eq!(r.pending_actions.unwrap(), vec!["Upload 6 more images".to_string()]);
    let r = finalize_profile(7, 2, 0);
    assert_eq!(r.pending_actions.unwrap(), vec!["Upload 1 more prompts".to_string()]);
}

#[test]
fn complete_profile_is_finalized() {
    let r = finalize_profile(6, 3, 0);
    assert_eq!(r.status, "success");
    assert_eq!(r.message.as_deref(), Some("Profile finalized successfully"));
    assert_eq!(r.pending_actions.unwrap().len(), 0);
}

#[test]
fn image_address_falls_back_to_key() {
    let signed = image_entry("i1".to_string(), "uploads/k".to_string(), Some("https://signed".to_string()), 2);
    assert_eq!(signed.url, "https://signed");
    assert_eq!(signed.order, 2);
    let plain = image_entry("i2".to_string(), "uploads/k".to_string(), None, 3);
    assert_eq!(plain.url, "uploads/k");
    assert_eq!(plain.id, "i2");
}

#[test]
fn own_profile_carries_uuid_text() {
    let p = profile_response(0x10, None, None, None);
    assert_eq!(p.id, "00000000-0000-0000-0000-000000000010");
    assert!(p.images.is_none() && p.prompts.is_none() && p.details.is_none());
}

#[test]
fn new_users_need_phone_and_email() {
    assert_eq!(required_contact(None, Some("a@b.c".to_string())).unwrap_err(), ContactError::PhoneRequired);
    assert_eq!(required_contact(Some(String::new()), Some("a@b.c".to_string())).unwrap_err(), ContactError::PhoneRequired);
    assert_eq!(required_contact(Some("+1".to_string()), None).unwrap_err(), ContactError::EmailRequired);
    assert_eq!(required_contact(Some("+1".to_string()), Some(String::new())).unwrap_err(), ContactError::EmailRequired);
    assert_eq!(
        required_contact(Some("+1".to_string()), Some("a@b.c".to_string())).unwrap(),
        ("+1".to_string(), "a@b.c".to_string())
    );
    assert_eq!(ContactError::PhoneRequired.message(), "Phone number is required");
    assert_eq!(ContactError::EmailRequired.message(), "Email is required");
}

#[test]
fn lookup_prefers_phone() {
    match lookup_key(Some("+1".to_string()), Some("a@b.c".to_string())).unwrap() {
        Lookup::ByPhone(p) => assert_eq!(p, "+1"),
        Lookup::ByEmail(_) => panic!("expected phone"),
    }
    match lookup_key(None, Some("a@b.c".to_string())).unwrap() {
        Lookup::ByEmail(e) => assert_eq!(e, "a@b.c"),
        Lookup::ByPhone(_) => panic!("expected email"),
    }
    assert_eq!(lookup_key(None, None).unwrap_err(), ContactError::IdentifierRequired);
    assert_eq!(ContactError::IdentifierRequired.message(), "At least one of phone or email is required");
}

#[test]
fn status_responses() {
    let ok = StatusResponse::success("done".to_string());
    assert_eq!(ok.status, "success");
    assert_eq!(ok.message.as_deref(), Some("done"));
    let err = StatusResponse::failure(CoreError::NotFound);
    assert_eq!(err.status, "error");
    assert_eq!(err.message.as_deref(), Some("User not found"));
}

#[test]
fn copies_of_string_lists_are_equal() {
    let v = vec!["a".to_string(), "bc".to_string()];
    assert_eq!(copy_strings(&v), v);
    assert!(copy_strings(&vec![]).is_empty());
}

#[test]
fn identifiers_are_tried_id_then_email_then_phone() {
    let keys = identifier_order(Some(5), Some("a@b.c".to_string()), Some("+1".to_string()));
    assert_eq!(keys.len(), 3);
    assert!(matches!(keys[0], UserKey::ById(5)));
    assert!(matches!(&keys[1], UserKey::ByEmail(e) if e == "a@b.c"));
    assert!(matches!(&keys[2], UserKey::ByPhone(p) if p == "+1"));
    let keys = identifier_order(None, None, Some("+1".to_string()));
    assert_eq!(keys.len(), 1);
    assert!(matches!(&keys[0], UserKey::ByPhone(p) if p == "+1"));
    assert!(identifier_order(None, None, None).is_empty());
}

#[test]
fn printed_user_ids_read_back() {
    for v in [0u128, 1, 0x550e8400_e29b_41d4_a716_446655440000, u128::MAX] {
        assert_eq!(parse_user_id(&user_id_text(v)), Ok(v));
    }
}
