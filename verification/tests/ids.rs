use nexigon::ids::any::AnyId;
use nexigon::ids::encoding::encode;
use nexigon::ids::ids::AuditLogEventId;
use nexigon::ids::ids::DeploymentToken;
use nexigon::ids::ids::DeviceFingerprint;
use nexigon::ids::ids::UserId;
use nexigon::ids::ids::UserToken;
use nexigon::ids::is_base58_digit;
use nexigon::ids::tag::Tag;
use nexigon::ids::DatedRawId;
use nexigon::ids::FlatRawId;
use nexigon::ids::Generate;
use nexigon::ids::Id;
use nexigon::ids::RawId;
use nexigon::ids::ALPHABET_BASE36;
use nexigon::ids::ALPHABET_BASE58;

#[test]
pub fn test_raw_id_generation() {
    for size in 0..256 {
        assert_eq!(FlatRawId::generate(size).as_str().len(), size);
    }
}

#[test]
pub fn test_raw_id_parsing() {
    assert!(FlatRawId::from_str("abc0").is_err());
    assert!(FlatRawId::from_str("abc123").is_ok());
}

#[test]
pub fn test_id_parsing() {
    const TEST_ID: &str = "u_ZjRcffdyfXutC6XUAkswBx";
    const TEST_ID_RAW: &str = "ZjRcffdyfXutC6XUAkswBx";
    let user_id = UserId::from_str(TEST_ID).unwrap();
    assert_eq!(user_id.raw().as_str(), TEST_ID_RAW);
    assert!(
        AnyId::from_str(TEST_ID).unwrap() == UserId::from_str(TEST_ID).unwrap().into_any()
    );
    DatedRawId::from_str("20250721-1133-ArDVfyQp").unwrap();
    AuditLogEventId::from_str("audit_ev_20250721-1133-ArDVfyQp").unwrap();
}

#[test]
pub fn test_device_fingerprint() {
    assert_eq!(
        DeviceFingerprint::from_data(b"abc").raw().as_str().len(),
        Tag::DeviceFingerprint.raw_size()
    );
}

#[test]
fn generated_raw_ids_are_base58() {
    let id = FlatRawId::generate(64);
    assert!(id.as_str().chars().all(is_base58_digit));
    assert!(FlatRawId::from_str(id.as_str()).is_ok());
}

#[test]
fn base58_digits_leave_out_what_is_mistaken() {
    for c in ['0', 'I', 'O', 'l', '-', '_', ' ', 'é'] {
        assert!(!is_base58_digit(c));
    }
    for c in ALPHABET_BASE58 {
        assert!(is_base58_digit(c));
    }
}

#[test]
fn encode_of_nothing_is_nothing() {
    let mut out = String::from("x");
    encode(&mut out, &ALPHABET_BASE58, 0xFFFF, &[]);
    assert_eq!(out, "x");
}

#[test]
fn encode_of_one_byte_gives_its_digits_least_first() {
    // 255 = 23 + 4 * 58, and the base 256 takes two digits to 58.
    let mut out = String::new();
    encode(&mut out, &ALPHABET_BASE58, 0xFFFF, &[255]);
    assert_eq!(out, "Q5");
    let mut out = String::new();
    encode(&mut out, &ALPHABET_BASE58, 0xFFFF, &[0]);
    assert_eq!(out, "11");
}

#[test]
fn encode_of_two_bytes_joins_them_below_the_product_of_the_bases() {
    // 1 + 2 * 256 = 513 below 65536, which is not below the limit 65535:
    // one digit is due at once, 513 % 36 = 9, and 14 below 1821 is left,
    // which takes three digits more: 14, 0, 0.
    let mut out = String::new();
    encode(&mut out, &ALPHABET_BASE36, 0xFFFF, &[1, 2]);
    assert_eq!(out, "9e00");
}

#[test]
fn from_bytes_of_a_digest_has_the_size_of_a_fingerprint() {
    assert_eq!(FlatRawId::from_bytes(&[0u8; 32]).as_str().len(), 44);
    assert_eq!(FlatRawId::from_bytes(&[255u8; 32]).as_str().len(), 44);
}

#[test]
fn flat_raw_id_refuses_other_characters() {
    let error = FlatRawId::from_str("abc-def").unwrap_err();
    assert_eq!(error.reason(), "invalid digit in raw id");
    assert!(FlatRawId::from_str("").is_ok());
    assert!(FlatRawId::from_str("abcé").is_err());
}

#[test]
fn dated_raw_id_refusals() {
    let reason = |s: &str| DatedRawId::from_str(s).unwrap_err().reason();
    assert_eq!(reason("abc"), "missing '-' separator in dated raw id");
    assert_eq!(reason("20250721-abc"), "missing '-' separator in dated raw id");
    assert_eq!(reason("2025072-1133-abc"), "invalid date length");
    assert_eq!(reason("20250721-113-abc"), "invalid time length");
    assert_eq!(reason("2025072x-1133-abc"), "invalid character in date");
    assert_eq!(reason("20250721-11x3-abc"), "invalid character in time");
    assert_eq!(reason("20250721-1133-ab0"), "invalid digit in raw id");
    assert_eq!(
        DatedRawId::from_str("20250721-1133-").unwrap().as_str(),
        "20250721-1133-"
    );
}

#[test]
fn dated_raw_id_is_generated_behind_its_date() {
    let id = DatedRawId::generate_at("20250721-1133", 22);
    assert_eq!(id.as_str().len(), 22);
    assert!(id.as_str().starts_with("20250721-1133-"));
    assert!(DatedRawId::from_str(id.as_str()).is_ok());
    let id = DatedRawId::generate_at("20250721-1133", 3);
    assert_eq!(id.as_str(), "20250721-1133-");
    let id = DatedRawId::generate(22).unwrap();
    assert_eq!(id.as_str().len(), 22);
    assert!(DatedRawId::from_str(id.as_str()).is_ok());
}

#[test]
fn tags_have_their_names_and_sizes() {
    assert_eq!(Tag::UserId.as_str(), "u");
    assert_eq!(Tag::UserId.tag_size(), 1);
    assert_eq!(Tag::UserId.raw_size(), 22);
    assert!(!Tag::UserId.is_secret());
    assert_eq!(Tag::DeploymentToken.as_str(), "deployment");
    assert_eq!(Tag::DeploymentToken.raw_size(), 66);
    assert!(Tag::DeploymentToken.is_secret());
    assert_eq!(Tag::ProjectToken.raw_size(), 44);
    assert!(Tag::AuditLogEventId.is_dated());
    assert!(matches!(Tag::from_str("audit_ev"), Ok(Tag::AuditLogEventId)));
    assert!(matches!(Tag::from_str("repo_a"), Ok(Tag::RepositoryAssetId)));
    assert_eq!(Tag::from_str("nope").unwrap_err().message(), "invalid id tag");
}

#[test]
fn typed_ids_refuse_what_is_not_theirs() {
    let reason = |s: &str| UserId::from_str(s).unwrap_err().reason();
    assert_eq!(reason("p_ZjRcffdyfXutC6XUAkswBx"), "invalid prefix (expected: `u_`)");
    assert_eq!(reason("u_ZjRcffdyfXutC6XUAkswB0"), "invalid digit in raw id");
    assert_eq!(reason("u_ZjRcffdyfXutC6XUAkswB"), "invalid size of raw id (expected: 22)");
    assert_eq!(reason("u_ZjRcffdyfXutC6XUAkswBé"), "invalid digit in raw id");
}

#[test]
fn any_id_is_cut_at_its_last_underscore() {
    let id = AnyId::from_str("u_pk_ZjRcffdyfXutC6XUAkswBx").unwrap();
    assert!(matches!(id.tag(), Tag::UserTokenId));
    assert_eq!(id.raw().as_str(), "ZjRcffdyfXutC6XUAkswBx");
    assert_eq!(id.stringify(), "u_pk_ZjRcffdyfXutC6XUAkswBx");
    let reason = |s: &str| match AnyId::from_str(s) {
        Ok(_) => "",
        Err(error) => error.reason(),
    };
    assert_eq!(reason("ZjRcffdyfXutC6XUAkswBx"), "id does not start with a tag");
    assert_eq!(reason("x_ZjRcffdyfXutC6XUAkswBx"), "unknown tag");
    assert_eq!(reason("u_abc"), "invalid size of raw id (expected: 22)");
    assert_eq!(reason("p_sk_abc"), "invalid size of raw id (expected: 44)");
    assert_eq!(reason("u_sk_abc"), "invalid size of raw id (expected: 66)");
    assert_eq!(reason("job_abc"), "missing '-' separator in dated raw id");
}

#[test]
fn secrets_are_not_shown() {
    let raw = "1".repeat(66);
    let token = UserToken::from_raw_unchecked(RawId::new(&raw));
    assert_eq!(token.to_string(), "u_sk_<redacted>");
    assert_eq!(token.stringify(), format!("u_sk_{raw}"));
    let id = UserId::from_raw_unchecked(RawId::new("abc"));
    assert_eq!(id.to_string(), "u_abc");
    assert_eq!(token.into_any().to_string(), "u_sk_<redacted>");
}

#[test]
fn token_ids_are_the_front_of_their_tokens() {
    let raw = format!("{}{}", "a".repeat(22), "b".repeat(44));
    let token = UserToken::from_raw_unchecked(RawId::new(&raw));
    assert_eq!(token.token_id().stringify(), format!("u_pk_{}", "a".repeat(22)));
    let token = DeploymentToken::from_raw_unchecked(RawId::new(&raw));
    assert_eq!(
        token.token_id().stringify(),
        format!("deployment_id_{}", "a".repeat(22))
    );
    let fingerprint = DeviceFingerprint::from_data(b"abc");
    assert_eq!(
        fingerprint.fingerprint_id().raw().as_str(),
        &fingerprint.raw().as_str()[..22]
    );
}

#[test]
fn ids_of_a_kind_are_generated_with_its_size() {
    let id = UserId::generate().unwrap();
    assert_eq!(id.raw().as_str().len(), 22);
    assert!(UserId::from_str(&id.stringify()).is_ok());
    let id = Tag::JobId.generate().unwrap();
    assert!(matches!(id.tag(), Tag::JobId));
    assert!(AnyId::from_str(&id.stringify()).is_ok());
}

#[test]
fn fingerprint_of_an_id_is_base36_of_a_digest() {
    let id = UserId::from_str("u_ZjRcffdyfXutC6XUAkswBx").unwrap();
    let fingerprint = id.base36_fingerprint();
    // A digest of 32 bytes takes 50 digits to 36.
    assert_eq!(fingerprint.len(), 50);
    assert!(fingerprint.chars().all(|c| ALPHABET_BASE36.contains(&c)));
    assert_eq!(fingerprint, id.base36_fingerprint());
    let other = UserId::from_str("u_ZjRcffdyfXutC6XUAkswBy").unwrap();
    assert_ne!(fingerprint, other.base36_fingerprint());
}
