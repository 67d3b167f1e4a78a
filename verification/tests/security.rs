use prior_notebook::adapters::clock::Timestamp;
use prior_notebook::security::auth::{AuthError, AuthService, Claims, UserRole};
use prior_notebook::security::crypto::{to_hex, CryptoError, CryptoService};
use prior_notebook::security::zero_trust::{
    host_part, Admission, IpAddress, Network, ZeroTrustConfig, ZeroTrustMiddleware,
};

#[test]
fn test_encrypt_decrypt() {
    let key = CryptoService::generate_key();
    let crypto = CryptoService::new(key);

    let plaintext = b"Hello, World!";
    let ciphertext = crypto.encrypt(plaintext).unwrap();
    let decrypted = crypto.decrypt(&ciphertext).unwrap();

    assert_eq!(plaintext.to_vec(), decrypted);
}

#[test]
fn test_from_password() {
    let crypto = CryptoService::from_password("password123", b"salt");
    let plaintext = b"Secret data";

    let ciphertext = crypto.encrypt(plaintext).unwrap();
    let decrypted = crypto.decrypt(&ciphertext).unwrap();

    assert_eq!(plaintext.to_vec(), decrypted);
}

#[test]
fn test_password_hashing() {
    let auth = AuthService::new("secret".to_string(), 24);
    let hash = auth.hash_password("mypassword123").unwrap();
    assert!(auth.verify_password("mypassword123", &hash).unwrap());
    assert!(!auth.verify_password("wrongpassword", &hash).unwrap());
}

#[test]
fn test_jwt_generation() {
    let auth = AuthService::new("secret".to_string(), 24);
    let token = auth
        .generate_token("user123", "user@example.com", UserRole::User)
        .unwrap();

    let claims = auth.validate_token(&token).unwrap();
    assert_eq!(claims.sub, "user123");
    assert_eq!(claims.email, "user@example.com");
    assert_eq!(claims.role, UserRole::User);
}

#[test]
fn test_zero_trust_config() {
    let config = ZeroTrustConfig::default();

    // 127.0.0.1
    let localhost = IpAddress::V4(0x7f00_0001);
    assert!(config.is_allowed(&localhost));

    // 10.0.0.5
    let wg_ip = IpAddress::V4(0x0a00_0005);
    assert!(config.is_allowed(&wg_ip));

    // 8.8.8.8
    let external_ip = IpAddress::V4(0x0808_0808);
    assert!(!config.is_allowed(&external_ip));
}

#[test]
fn sha256_of_known_input() {
    assert_eq!(
        to_hex(&CryptoService::hash(b"abc")),
        "ba7816bf8f01cfea414140de5dae2223b00361a396177a9cb410ff61f20015ad"
    );
    assert_eq!(
        to_hex(&CryptoService::hash(b"")),
        "e3b0c44298fc1c149afbf4c8996fb92427ae41e4649b934ca495991b7852b855"
    );
}

#[test]
fn password_keys_hash_password_then_salt() {
    let from_password = CryptoService::from_password("abc", b"def");
    let direct = CryptoService::new(CryptoService::hash(b"abcdef"));
    let nonce = [7u8; 12];
    assert_eq!(
        from_password.encrypt_with_nonce(&nonce, b"x").unwrap(),
        direct.encrypt_with_nonce(&nonce, b"x").unwrap()
    );
    let other = CryptoService::from_password("abc", b"deg");
    assert_ne!(
        from_password.encrypt_with_nonce(&nonce, b"x").unwrap(),
        other.encrypt_with_nonce(&nonce, b"x").unwrap()
    );
}

#[test]
fn ciphertext_is_nonce_then_sealed_bytes() {
    let crypto = CryptoService::new([0u8; 32]);
    let nonce = [0u8; 12];
    let ciphertext = crypto.encrypt_with_nonce(&nonce, b"").unwrap();
    assert_eq!(
        to_hex(&ciphertext),
        "000000000000000000000000530f8afbc74536b9a963b4f1c4cb738b"
    );
    let ciphertext = crypto.encrypt_with_nonce(&[1u8; 12], b"Hello").unwrap();
    assert_eq!(ciphertext.len(), 12 + 5 + 16);
    assert_eq!(&ciphertext[..12], &[1u8; 12]);
    assert_ne!(&ciphertext[12..17], b"Hello");
    assert_eq!(crypto.decrypt(&ciphertext).unwrap(), b"Hello");
}

#[test]
fn encrypt_draws_fresh_nonces() {
    let crypto = CryptoService::new([3u8; 32]);
    let first = crypto.encrypt(b"same").unwrap();
    let second = crypto.encrypt(b"same").unwrap();
    assert_ne!(first, second);
    assert_eq!(first.len(), 12 + 4 + 16);
}

#[test]
fn decrypt_refuses_what_it_cannot_open() {
    let crypto = CryptoService::new([9u8; 32]);
    assert_eq!(crypto.decrypt(b""), Err(CryptoError::TooShort));
    assert_eq!(crypto.decrypt(&[0u8; 11]), Err(CryptoError::TooShort));
    assert_eq!(crypto.decrypt(&[0u8; 12]), Err(CryptoError::DecryptionFailed));
    let mut ciphertext = crypto.encrypt(b"payload").unwrap();
    let last = ciphertext.len() - 1;
    ciphertext[last] ^= 1;
    assert_eq!(crypto.decrypt(&ciphertext), Err(CryptoError::DecryptionFailed));
    let other = CryptoService::new([8u8; 32]);
    let ciphertext = crypto.encrypt(b"payload").unwrap();
    assert_eq!(other.decrypt(&ciphertext), Err(CryptoError::DecryptionFailed));
    assert_eq!(CryptoError::TooShort.message(), "Ciphertext too short");
    assert_eq!(CryptoError::EncryptionFailed.message(), "Encryption failed");
    assert_eq!(CryptoError::DecryptionFailed.message(), "Decryption failed");
}

#[test]
fn random_bytes_have_the_length_asked_for() {
    assert_eq!(CryptoService::random_bytes(0).len(), 0);
    assert_eq!(CryptoService::random_bytes(33).len(), 33);
    assert_ne!(CryptoService::random_bytes(32), CryptoService::random_bytes(32));
    assert_ne!(CryptoService::generate_key(), CryptoService::generate_key());
}

#[test]
fn hex_writes_two_digits_per_byte() {
    assert_eq!(to_hex(&[]), "");
    assert_eq!(to_hex(&[0x00, 0x0f, 0xa0, 0xff]), "000fa0ff");
}

#[test]
fn hashing_with_a_salt_is_repeatable() {
    let auth = AuthService::new("secret".to_string(), 24);
    let first = auth.hash_password_with_salt("pw", "c29tZXNhbHRzb21lc2FsdA").unwrap();
    let second = auth.hash_password_with_salt("pw", "c29tZXNhbHRzb21lc2FsdA").unwrap();
    assert_eq!(first, second);
    assert!(first.starts_with("$argon2id$v=19$m=19456,t=2,p=1$c29tZXNhbHRzb21lc2FsdA$"));
    assert_ne!(first, "pw");
    assert_eq!(auth.verify_password("pw", &first), Ok(true));
    assert_eq!(auth.verify_password("pW", &first), Ok(false));
    assert_eq!(auth.hash_password_with_salt("pw", "!"), Err(AuthError::HashFailed));
    assert_ne!(auth.hash_password("pw").unwrap(), auth.hash_password("pw").unwrap());
}

#[test]
fn a_text_that_is_no_hash_is_refused() {
    let auth = AuthService::new("secret".to_string(), 24);
    assert_eq!(auth.verify_password("pw", "not a hash"), Err(AuthError::InvalidHashFormat));
    assert_eq!(auth.verify_password("pw", ""), Err(AuthError::InvalidHashFormat));
}

#[test]
fn issued_tokens_are_signed_claims() {
    let auth = AuthService::new("secret".to_string(), 24);
    let issued = Timestamp { secs: 4_000_000_000, nanos: 0 };
    let token = auth.issue_token("u1", "a@b.c", UserRole::Admin, issued, "id-1").unwrap();
    let again = auth.issue_token("u1", "a@b.c", UserRole::Admin, issued, "id-1").unwrap();
    assert_eq!(token, again);
    assert_eq!(token.split('.').count(), 3);
    let claims = auth.validate_token(&token).unwrap();
    assert_eq!(claims.sub, "u1");
    assert_eq!(claims.email, "a@b.c");
    assert_eq!(claims.role, UserRole::Admin);
    assert_eq!(claims.iat, 4_000_000_000);
    assert_eq!(claims.exp, 4_000_000_000 + 24 * 3600);
    assert_eq!(claims.jti, "id-1");
    let other = AuthService::new("other".to_string(), 24);
    assert_eq!(other.validate_token(&token).err(), Some(AuthError::InvalidToken));
    assert_ne!(other.issue_token("u1", "a@b.c", UserRole::Admin, issued, "id-1").unwrap(), token);
}

#[test]
fn expired_and_broken_tokens_are_refused() {
    let auth = AuthService::new("secret".to_string(), 1);
    let long_ago = Timestamp { secs: 1_000_000, nanos: 0 };
    let token = auth.issue_token("u", "e", UserRole::ReadOnly, long_ago, "j").unwrap();
    assert_eq!(auth.validate_token(&token).err(), Some(AuthError::InvalidToken));
    assert_eq!(auth.validate_token("").err(), Some(AuthError::InvalidToken));
    assert_eq!(auth.validate_token("a.b.c").err(), Some(AuthError::InvalidToken));
    assert_eq!(auth.refresh_token("a.b.c").err(), Some(AuthError::InvalidToken));
}

#[test]
fn expiry_out_of_range_is_refused() {
    let auth = AuthService::new("secret".to_string(), u64::MAX / 2);
    let now = Timestamp { secs: 1_700_000_000, nanos: 0 };
    assert_eq!(
        auth.issue_token("u", "e", UserRole::User, now, "j"),
        Err(AuthError::ExpiryOutOfRange)
    );
    let auth = AuthService::new("secret".to_string(), 24);
    let late = Timestamp { secs: i64::MAX - 10, nanos: 0 };
    assert_eq!(
        auth.issue_token("u", "e", UserRole::User, late, "j"),
        Err(AuthError::ExpiryOutOfRange)
    );
    assert_eq!(
        auth.generate_token("u", "e", UserRole::User).map(|_| ()),
        Ok(())
    );
}

#[test]
fn refreshed_tokens_keep_the_user() {
    let auth = AuthService::new("secret".to_string(), 24);
    let token = auth.generate_token("user9", "u9@example.com", UserRole::ReadOnly).unwrap();
    let refreshed = auth.refresh_token(&token).unwrap();
    assert_ne!(refreshed, token);
    let claims = auth.validate_token(&refreshed).unwrap();
    assert_eq!(claims.sub, "user9");
    assert_eq!(claims.email, "u9@example.com");
    assert_eq!(claims.role, UserRole::ReadOnly);
    let first = auth.validate_token(&token).unwrap();
    assert_ne!(first.jti, claims.jti);
    assert_eq!(first.jti.len(), 36);
}

#[test]
fn roles_have_names() {
    assert_eq!(UserRole::Admin.as_str(), "admin");
    assert_eq!(UserRole::User.as_str(), "user");
    assert_eq!(UserRole::ReadOnly.as_str(), "readonly");
    assert_eq!(UserRole::parse("admin"), Some(UserRole::Admin));
    assert_eq!(UserRole::parse("user"), Some(UserRole::User));
    assert_eq!(UserRole::parse("readonly"), Some(UserRole::ReadOnly));
    assert_eq!(UserRole::parse("Admin"), None);
    assert_eq!(UserRole::parse(""), None);
}

fn object(members: &[(&str, serde_json::Value)]) -> serde_json::Value {
    let mut map = serde_json::Map::new();
    for (name, value) in members {
        map.insert(name.to_string(), value.clone());
    }
    serde_json::Value::Object(map)
}

#[test]
fn claims_are_read_off_json() {
    let full = [
        ("sub", serde_json::Value::from("u")),
        ("email", serde_json::Value::from("e")),
        ("role", serde_json::Value::from("admin")),
        ("exp", serde_json::Value::from(20i64)),
        ("iat", serde_json::Value::from(10i64)),
        ("jti", serde_json::Value::from("j")),
        ("more", serde_json::Value::from(true)),
    ];
    let claims: Claims = Claims::from_json(&object(&full)).unwrap();
    assert_eq!(claims.sub, "u");
    assert_eq!(claims.email, "e");
    assert_eq!(claims.role, UserRole::Admin);
    assert_eq!(claims.exp, 20);
    assert_eq!(claims.iat, 10);
    assert_eq!(claims.jti, "j");
    for missing in 0..6 {
        let mut members = full.to_vec();
        members.remove(missing);
        assert_eq!(Claims::from_json(&object(&members)).err(), Some(AuthError::InvalidToken));
    }
    let mut members = full.to_vec();
    members[2] = ("role", serde_json::Value::from("root"));
    assert_eq!(Claims::from_json(&object(&members)).err(), Some(AuthError::InvalidToken));
    let mut members = full.to_vec();
    members[3] = ("exp", serde_json::Value::from("20"));
    assert_eq!(Claims::from_json(&object(&members)).err(), Some(AuthError::InvalidToken));
    let mut members = full.to_vec();
    members[0] = ("sub", serde_json::Value::from(5));
    assert_eq!(Claims::from_json(&object(&members)).err(), Some(AuthError::InvalidToken));
    assert_eq!(
        Claims::from_json(&serde_json::Value::Null).err(),
        Some(AuthError::InvalidToken)
    );
}

#[test]
fn auth_errors_have_messages() {
    assert_eq!(AuthError::HashFailed.message(), "Failed to hash password");
    assert_eq!(AuthError::InvalidHashFormat.message(), "Invalid hash format");
    assert_eq!(AuthError::ExpiryOutOfRange.message(), "Token expiry out of range");
    assert_eq!(AuthError::TokenFailed.message(), "Failed to generate JWT token");
    assert_eq!(AuthError::InvalidToken.message(), "Invalid or expired token");
}

#[test]
fn networks_contain_their_addresses() {
    let net = Network::v4(0x0a00_0000, 24).unwrap();
    assert!(net.contains(IpAddress::V4(0x0a00_0000)));
    assert!(net.contains(IpAddress::V4(0x0a00_00ff)));
    assert!(!net.contains(IpAddress::V4(0x0a00_0100)));
    assert!(!net.contains(IpAddress::V6(0x0a00_0005)));
    let all = Network::v4(0, 0).unwrap();
    assert!(all.contains(IpAddress::V4(0xffff_ffff)));
    let one = Network::v4(0x0102_0304, 32).unwrap();
    assert!(one.contains(IpAddress::V4(0x0102_0304)));
    assert!(!one.contains(IpAddress::V4(0x0102_0305)));
    assert!(Network::v4(0, 33).is_none());
    let v6 = Network::v6(0xfd00 << 112, 8).unwrap();
    assert!(v6.contains(IpAddress::V6((0xfd12 << 112) | 5)));
    assert!(!v6.contains(IpAddress::V6(0xfe00 << 112)));
    assert!(!v6.contains(IpAddress::V4(1)));
    assert!(Network::v6(0, 129).is_none());
    assert!(Network::v6(1, 128).unwrap().contains(IpAddress::V6(1)));
}

#[test]
fn networks_are_read_from_text() {
    let net = Network::parse("10.0.0.0/24").unwrap();
    assert!(net.contains(IpAddress::V4(0x0a00_0005)));
    assert!(!net.contains(IpAddress::V4(0x0a00_0105)));
    let host = Network::parse("192.168.1.7").unwrap();
    assert!(host.contains(IpAddress::V4(0xc0a8_0107)));
    assert!(!host.contains(IpAddress::V4(0xc0a8_0108)));
    let v6 = Network::parse("fd00::/8").unwrap();
    assert!(v6.contains(IpAddress::V6(0xfd00 << 112 | 1)));
    assert!(Network::parse("10.0.0.0/33").is_none());
    assert!(Network::parse("wireguard").is_none());
    assert!(Network::parse("").is_none());
}

#[test]
fn admission_follows_the_rules() {
    let mut config = ZeroTrustConfig::default();
    config.allow_localhost = false;
    assert!(!config.is_allowed(&IpAddress::V4(0x7f00_0001)));
    assert!(config.is_allowed(&IpAddress::V4(0x0a00_0001)));
    config.enabled = false;
    assert!(config.is_allowed(&IpAddress::V4(0x0808_0808)));
    let mut config = ZeroTrustConfig::default();
    config.allowed_networks.clear();
    assert!(config.is_allowed(&IpAddress::V6(1)));
    assert!(config.is_allowed(&IpAddress::V4(0x7fff_ffff)));
    assert!(!config.is_allowed(&IpAddress::V4(0x8000_0000)));
    assert!(!config.is_allowed(&IpAddress::V6(2)));
    assert!(!config.is_allowed(&IpAddress::V4(0x0a00_0001)));
    config.allowed_networks.push(Network::v4(0x0808_0000, 16).unwrap());
    config.allowed_networks.push(Network::v4(0x0a00_0000, 8).unwrap());
    assert!(config.is_allowed(&IpAddress::V4(0x0a00_0001)));
    assert!(config.is_allowed(&IpAddress::V4(0x0808_0808)));
}

#[test]
fn middleware_admits_or_refuses() {
    let middleware = ZeroTrustMiddleware::new(ZeroTrustConfig::default());
    assert_eq!(middleware.call(Some(IpAddress::V4(0x0a00_0005))), Admission::Forward);
    assert_eq!(middleware.call(Some(IpAddress::V4(0x0808_0808))), Admission::NotAllowed);
    assert_eq!(middleware.call(None), Admission::Unverified);
    assert_eq!(Admission::NotAllowed.message(), "Access denied: IP not in allowed range");
    assert_eq!(Admission::Unverified.message(), "Access denied: Unable to verify client");
    assert_eq!(Admission::Forward.message(), "");
}

#[test]
fn host_part_stops_at_the_first_colon() {
    assert_eq!(host_part("10.0.0.5:8080"), "10.0.0.5");
    assert_eq!(host_part("10.0.0.5"), "10.0.0.5");
    assert_eq!(host_part("::1"), "");
    assert_eq!(host_part(""), "");
    assert_eq!(host_part("a:b:c"), "a");
}
