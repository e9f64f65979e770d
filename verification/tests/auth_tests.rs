use fae_agent::ids::{
    generate_session_id, generate_session_token, session_id_from, session_token_from,
    uuid_from_random_bytes,
};
use rand::SeedableRng;

#[test]
fn test_generate_session_token() {
    let token = generate_session_token().expect("random source");
    assert_eq!(token.len(), 64);
}

#[test]
fn session_token_is_alphanumeric_and_fresh() {
    let a = generate_session_token().expect("random source");
    let b = generate_session_token().expect("random source");
    assert!(a.chars().all(|c| c.is_ascii_alphanumeric()));
    assert_ne!(a, b);
}

#[test]
fn session_id_shape() {
    let id = generate_session_id().expect("random source");
    assert!(id.starts_with("session_"));
    assert_eq!(id.len(), 44);
    let uuid = &id[8..];
    assert_eq!(&uuid[14..15], "4");
    for (i, c) in uuid.chars().enumerate() {
        if i == 8 || i == 13 || i == 18 || i == 23 {
            assert_eq!(c, '-');
        } else {
            assert!(c.is_ascii_hexdigit() && !c.is_ascii_uppercase());
        }
    }
}

#[test]
fn uuid_built_from_given_bytes() {
    assert_eq!(uuid_from_random_bytes([0u8; 16]), "00000000-0000-4000-8000-000000000000");
    assert_eq!(uuid_from_random_bytes([0xffu8; 16]), "ffffffff-ffff-4fff-bfff-ffffffffffff");
}

#[test]
fn session_id_and_token_from_given_sources() {
    assert_eq!(
        session_id_from("00000000-0000-4000-8000-000000000000"),
        "session_00000000-0000-4000-8000-000000000000"
    );
    let mut a = rand::rngs::StdRng::seed_from_u64(7);
    let mut b = rand::rngs::StdRng::seed_from_u64(7);
    let ta = session_token_from(&mut a);
    assert_eq!(ta.len(), 64);
    assert!(ta.chars().all(|c| c.is_ascii_alphanumeric()));
    assert_eq!(ta, session_token_from(&mut b));
}

#[test]
fn timestamps_from_clock_seconds() {
    assert_eq!(fae_agent::ids::timestamp_from_secs(0), Some(0));
    assert_eq!(fae_agent::ids::timestamp_from_secs(1_700_000_000), Some(1_700_000_000));
    assert_eq!(fae_agent::ids::timestamp_from_secs(i64::MAX as u64), Some(i64::MAX));
    assert_eq!(fae_agent::ids::timestamp_from_secs(i64::MAX as u64 + 1), None);
    assert!(fae_agent::ids::now_timestamp().expect("clock") > 1_600_000_000);
}
