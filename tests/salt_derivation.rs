use zklogin::nonce::{Nonce, NONCE_VALIDITY_SECS};
use zklogin::salt::{
    derive_salt, get_master_seed, hkdf_salt, salt_endpoint, salt_from_okm, ConfigError,
    MasterSeed, SaltRequest,
};

const ZERO_SEED: &str = "0000000000000000000000000000000000000000000000000000000000000000";

fn request(iss: &str, aud: &str, sub: &str) -> SaltRequest {
    SaltRequest { iss: iss.to_string(), aud: aud.to_string(), sub: sub.to_string() }
}

fn example_request() -> SaltRequest {
    request("https://accounts.example.com", "client123", "user456")
}

fn salt_with(seed_hex: &str, req: &SaltRequest) -> String {
    salt_endpoint(Some(seed_hex), req).ok().unwrap().user_salt
}

#[test]
fn fixed_vector_zero_seed() {
    assert_eq!(salt_with(ZERO_SEED, &example_request()), "92ec29fcaa8d957d4e39c2c7e3c6e007");
}

#[test]
fn fixed_vector_counting_seed() {
    let seed = "000102030405060708090a0b0c0d0e0f101112131415161718191a1b1c1d1e1f";
    assert_eq!(salt_with(seed, &example_request()), "c4071c7cde958e7ec67b55e7478d4f49");
}

#[test]
fn uppercase_seed_hex_is_accepted() {
    let seed = "000102030405060708090A0B0C0D0E0F101112131415161718191A1B1C1D1E1F";
    assert_eq!(salt_with(seed, &example_request()), "c4071c7cde958e7ec67b55e7478d4f49");
}

#[test]
fn derivation_is_deterministic() {
    let a = salt_with(ZERO_SEED, &example_request());
    let b = salt_with(ZERO_SEED, &example_request());
    assert_eq!(a, b);
    let seed = get_master_seed(Some(ZERO_SEED)).ok().unwrap();
    assert_eq!(derive_salt(&seed, &example_request()).user_salt, a);
}

#[test]
fn salt_is_32_lowercase_hex_chars() {
    for req in [example_request(), request("", "", ""), request("é", "ü", "ß")] {
        let s = salt_with(ZERO_SEED, &req);
        assert_eq!(s.len(), 32);
        assert!(s.chars().all(|c| c.is_ascii_digit() || ('a'..='f').contains(&c)));
    }
}

#[test]
fn changing_one_claim_changes_salt() {
    let base = salt_with(ZERO_SEED, &example_request());
    let aud = salt_with(ZERO_SEED, &request("https://accounts.example.com", "client124", "user456"));
    let sub = salt_with(ZERO_SEED, &request("https://accounts.example.com", "client123", "user457"));
    let iss = salt_with(ZERO_SEED, &request("https://accounts.example.org", "client123", "user456"));
    assert_eq!(aud, "729016ecfe28e9296406b967a8f48ab3");
    assert_eq!(sub, "58e7cb2d36968b4f406ecb49f2afed70");
    assert_ne!(base, aud);
    assert_ne!(base, sub);
    assert_ne!(base, iss);
}

#[test]
fn changing_seed_changes_salt() {
    let ones = "0101010101010101010101010101010101010101010101010101010101010101";
    let s = salt_with(ones, &example_request());
    assert_eq!(s, "697113e310557643733500c687ef3ed0");
    assert_ne!(s, salt_with(ZERO_SEED, &example_request()));
}

#[test]
fn issuer_audience_boundary_is_not_delimited() {
    assert_eq!(salt_with(ZERO_SEED, &request("AB", "C", "s")), "f3d51dd4d71ce65917996031c70d03fb");
    assert_eq!(salt_with(ZERO_SEED, &request("A", "BC", "s")), "f3d51dd4d71ce65917996031c70d03fb");
}

#[test]
fn hkdf_salt_concatenates_issuer_and_audience() {
    assert_eq!(hkdf_salt("ab", "cd"), b"abcd".to_vec());
    assert_eq!(hkdf_salt("", ""), Vec::<u8>::new());
}

#[test]
fn okm_is_encoded_as_lowercase_hex() {
    let okm: [u8; 16] = [0, 1, 0x0f, 0x10, 0xab, 0xff, 2, 3, 4, 5, 6, 7, 8, 9, 0xa0, 0xcd];
    assert_eq!(salt_from_okm(&okm).user_salt, "00010f10abff0203040506070809a0cd");
}

#[test]
fn missing_seed_is_refused() {
    assert_eq!(salt_endpoint(None, &example_request()).err(), Some(ConfigError::MissingSeed));
    assert_eq!(get_master_seed(None).err(), Some(ConfigError::MissingSeed));
}

#[test]
fn non_hex_seed_is_refused() {
    let bad = "zz00000000000000000000000000000000000000000000000000000000000000";
    assert_eq!(salt_endpoint(Some(bad), &example_request()).err(), Some(ConfigError::SeedNotHex));
    let odd = "000000000000000000000000000000000000000000000000000000000000000";
    assert_eq!(salt_endpoint(Some(odd), &example_request()).err(), Some(ConfigError::SeedNotHex));
}

#[test]
fn wrong_length_seed_is_refused() {
    let short = "00000000000000000000000000000000000000000000000000000000000000";
    assert_eq!(
        salt_endpoint(Some(short), &example_request()).err(),
        Some(ConfigError::SeedWrongLength)
    );
    let long = "000000000000000000000000000000000000000000000000000000000000000000";
    assert_eq!(get_master_seed(Some(long)).err(), Some(ConfigError::SeedWrongLength));
    assert_eq!(get_master_seed(Some("")).err(), Some(ConfigError::SeedWrongLength));
}

#[test]
fn seed_from_bytes_checks_length() {
    assert_eq!(MasterSeed::from_bytes(vec![7u8; 31]).err(), Some(ConfigError::SeedWrongLength));
    let seed = MasterSeed::from_bytes(vec![7u8; 32]).ok().unwrap();
    assert_eq!(seed.as_bytes(), &[7u8; 32][..]);
}

#[test]
fn seed_from_hex_decodes_bytes() {
    let seed = MasterSeed::from_hex("ff0102030405060708090a0b0c0d0e0f101112131415161718191a1b1c1d1e1f")
        .ok()
        .unwrap();
    assert_eq!(seed.as_bytes()[0], 255);
    assert_eq!(seed.as_bytes()[31], 31);
}

#[test]
fn nonce_expiry_is_one_validity_window_ahead() {
    let n = Nonce::new("pk".to_string(), 1_700_000_000, "rand".to_string()).unwrap();
    assert_eq!(n.max_epoch, 1_700_003_600);
    assert_eq!(NONCE_VALIDITY_SECS, 3600);
    assert_eq!(n.eph_pk, "pk");
    assert_eq!(n.jwt_randomness, "rand");
}

#[test]
fn nonce_expiry_overflow_is_refused() {
    assert!(Nonce::new("pk".to_string(), i64::MAX - 3599, "r".to_string()).is_none());
    let n = Nonce::new("pk".to_string(), i64::MAX - 3600, "r".to_string()).unwrap();
    assert_eq!(n.max_epoch, i64::MAX);
}
