use goose_bumps_backend::api::{
    create_user, create_user_fresh, get_user, get_user_by_text, mint_nft_token, put_userprogress,
};
use goose_bumps_backend::cors::cors_headers;
use goose_bumps_backend::database::Database;
use goose_bumps_backend::models::{example_solana_token, example_uuid};
use goose_bumps_backend::uuid_text::{format_uuid, parse_uuid};

#[test]
fn hello_world() {
    let mut db = Database::new();
    let user = create_user_fresh(&mut db, "token".to_string());
    assert_eq!(user.solana_token, "token");
    let user_id = user.user_id;

    let response = get_user_by_text(&db, &format_uuid(user_id));
    assert!(response.is_some());
}

#[test]
fn create_then_get_round_trip() {
    let mut db = Database::new();
    let user = create_user_fresh(&mut db, "token".to_string());
    assert_eq!(user.solana_token, "token");
    assert!(user.chapter_ids.is_empty());

    let got = get_user(&db, user.user_id).expect("created user must be present");
    assert_eq!(got.user_id, user.user_id);
    assert_eq!(got.solana_token, user.solana_token);
    assert_eq!(got.chapter_ids, user.chapter_ids);
}

#[test]
fn get_unknown_user_is_absent() {
    let db = Database::new();
    let r = get_user_by_text(&db, "00000000-0000-0000-0000-000000000000");
    assert!(r.is_none());
}

#[test]
fn progress_appends_chapters_in_order() {
    let mut db = Database::new();
    let user = create_user_fresh(&mut db, "tok".to_string());

    let u1 = put_userprogress(&mut db, user.user_id, "c1", "ch-1".to_string())
        .expect("known user");
    assert_eq!(u1.chapter_ids, vec!["ch-1".to_string()]);

    let u2 = put_userprogress(&mut db, user.user_id, "c1", "ch-2".to_string())
        .expect("known user");
    assert_eq!(u2.chapter_ids, vec!["ch-1".to_string(), "ch-2".to_string()]);
}

#[test]
fn progress_preserves_duplicates() {
    let mut db = Database::new();
    let user = create_user_fresh(&mut db, "tok".to_string());
    for _ in 0..3 {
        put_userprogress(&mut db, user.user_id, "c", "k".to_string()).expect("known user");
    }
    let got = get_user(&db, user.user_id).expect("present");
    assert_eq!(got.chapter_ids, vec!["k".to_string(), "k".to_string(), "k".to_string()]);
}

#[test]
fn progress_unknown_user_leaves_store_unchanged() {
    let mut db = Database::new();
    let known = create_user_fresh(&mut db, "tok".to_string());
    put_userprogress(&mut db, known.user_id, "c", "ch-1".to_string()).expect("known user");

    let unknown_id = known.user_id ^ 1;
    let r = put_userprogress(&mut db, unknown_id, "c1", "ch-9".to_string());
    assert!(r.is_none());

    let still = get_user(&db, known.user_id).expect("prior user still present");
    assert_eq!(still.chapter_ids, vec!["ch-1".to_string()]);
}

#[test]
fn mint_on_unknown_user_issues_no_call() {
    let mut db = Database::new();
    create_user_fresh(&mut db, "tok".to_string());

    let mut adapter_calls: Vec<String> = Vec::new();
    let r = mint_nft_token(&db, 0xdead_beef);
    if let Some(token) = r {
        adapter_calls.push(token);
    }
    assert_eq!(adapter_calls.len(), 0);
}

#[test]
fn mint_on_known_user_hands_out_stored_token() {
    let mut db = Database::new();
    let user = create_user_fresh(&mut db, "sol-token-1".to_string());
    let token = mint_nft_token(&db, user.user_id).expect("known user");
    assert_eq!(token, "sol-token-1");
}

#[test]
fn create_overwrites_record_under_same_id() {
    let mut db = Database::new();
    create_user(&mut db, 42, "first".to_string());
    create_user(&mut db, 42, "second".to_string());
    let got = get_user(&db, 42).expect("present");
    assert_eq!(got.solana_token, "second");
    assert!(got.chapter_ids.is_empty());
}

#[test]
fn fresh_user_id_is_version_4() {
    let mut db = Database::new();
    let user = create_user_fresh(&mut db, "tok".to_string());
    let text = format_uuid(user.user_id);
    assert_eq!(text.as_bytes()[14], b'4');
    let variant = text.as_bytes()[19];
    assert!(variant == b'8' || variant == b'9' || variant == b'a' || variant == b'b');

    let parsed = uuid::Uuid::parse_str(&text).expect("canonical text");
    assert_eq!(parsed.get_version_num(), 4);
    assert_eq!(parsed.as_u128(), user.user_id);
}

#[test]
fn format_uuid_matches_canonical_form() {
    assert_eq!(format_uuid(0), "00000000-0000-0000-0000-000000000000");
    let x: u128 = 0xfdb12d510e3f4ff8821efbc255d8e413;
    assert_eq!(format_uuid(x), "fdb12d51-0e3f-4ff8-821e-fbc255d8e413");
    assert_eq!(format_uuid(x), uuid::Uuid::from_u128(x).to_string());
}

#[test]
fn parse_uuid_round_trips_and_accepts_upper_case() {
    let x: u128 = 0xfdb12d510e3f4ff8821efbc255d8e413;
    assert_eq!(parse_uuid(&format_uuid(x)), Some(x));
    assert_eq!(parse_uuid("FDB12D51-0E3F-4FF8-821E-FBC255D8E413"), Some(x));
}

#[test]
fn parse_uuid_rejects_malformed_text() {
    assert_eq!(parse_uuid(""), None);
    assert_eq!(parse_uuid("fdb12d51-0e3f-4ff8-821e-fbc255d8e41"), None);
    assert_eq!(parse_uuid("fdb12d51-0e3f-4ff8-821e-fbc255d8e4133"), None);
    assert_eq!(parse_uuid("fdb12d51x0e3f-4ff8-821e-fbc255d8e413"), None);
    assert_eq!(parse_uuid("fdb12d51-0e3f-4ff8-821e-fbc255d8e41g"), None);
}

#[test]
fn cors_headers_are_the_four_permissive_ones() {
    let h = cors_headers();
    assert_eq!(h.len(), 4);
    assert_eq!(h[0], ("Access-Control-Allow-Origin".to_string(), "*".to_string()));
    assert_eq!(
        h[1],
        ("Access-Control-Allow-Methods".to_string(), "POST, GET, PATCH, OPTIONS".to_string())
    );
    assert_eq!(h[2], ("Access-Control-Allow-Headers".to_string(), "*".to_string()));
    assert_eq!(h[3], ("Access-Control-Allow-Credentials".to_string(), "true".to_string()));
}

#[test]
fn store_counter_starts_at_zero() {
    let db = Database::new();
    assert_eq!(db.token_counter, 0);
    assert_eq!(db.next_token_id(), 0);
}

#[test]
fn example_values_are_the_documented_ones() {
    assert_eq!(example_uuid(), "fdb12d51-0e3f-4ff8-821e-fbc255d8e413");
    assert_eq!(example_solana_token(), "fdb12d51-0e3f-4ff8-821e-fbc255d8e413");
}
