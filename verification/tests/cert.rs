use nexigon::cert::Certificate;
use nexigon::cert::Fingerprint;
use nexigon::cert::Sha1Fingerprint;

/// Test certificate in PEM format.
const TEST_PEM: &str = r#"-----BEGIN CERTIFICATE-----
MIIBdzCCAR6gAwIBAgIUVZIf2/2hnYWfZPXx+0iAZ/5WuCwwCgYIKoZIzj0EAwIw
ITEfMB0GA1UEAwwWcmNnZW4gc2VsZiBzaWduZWQgY2VydDAgFw03NTAxMDEwMDAw
MDBaGA80MDk2MDEwMTAwMDAwMFowITEfMB0GA1UEAwwWcmNnZW4gc2VsZiBzaWdu
ZWQgY2VydDBZMBMGByqGSM49AgEGCCqGSM49AwEHA0IABD/+RLBF+9gewjruFTy/
4y0lvjT+QdXJbWsRSADvJBvAe9SaNaID8KYmXo+8HcrVZWvNuDixRbM5DWeCGi8P
ej+jMjAwMB0GA1UdDgQWBBThwd9+3SvcyM5XeNw03YaGlUh0UDAPBgNVHRMBAf8E
BTADAQEAMAoGCCqGSM49BAMCA0cAMEQCIAaO5LVY3DHIArxkL/QKQSCnsNDZNtcJ
mdmQLWVrntBTAiBaLBx68yLNs9e7InnB3SvEUVxmObOFy3Y6XG+kNDz9iQ==
-----END CERTIFICATE-----"#;

/// SHA1 fingerprint of the test certificate.
const TEST_SHA1: &str = "67:DA:DC:12:18:20:3D:9B:91:16:F7:C0:44:E9:68:6B:37:58:31:98";

/// SHA256 fingerprint of the test certificate.
const TEST_SHA256: &str = "DE:49:D9:AF:6D:1E:9E:88:B0:00:8A:36:8D:4F:10:1B:7B:54:99:35:2E:8D:27:44:35:6C:78:15:71:7D:02:FE";

#[test]
pub fn test_fingerprints() {
    let certificate = Certificate::parse_pem(TEST_PEM).unwrap();
    assert_eq!(certificate.sha1_fingerprint().to_string(), TEST_SHA1);
    assert_eq!(certificate.sha256_fingerprint().to_string(), TEST_SHA256);
}

#[test]
fn certificate_goes_through_der_and_pem() {
    let certificate = Certificate::parse_pem(TEST_PEM).unwrap();
    let der = certificate.to_der();
    let again = Certificate::parse_der(&der).unwrap();
    assert_eq!(again.to_der(), der);
    assert_eq!(again.to_pem().unwrap().trim_end(), TEST_PEM);
    assert_eq!(again.sha1_fingerprint().to_string(), TEST_SHA1);
}

#[test]
fn what_is_no_certificate_is_refused() {
    let error = Certificate::parse_pem("-----BEGIN CERTIFICATE-----").unwrap_err();
    assert_eq!(error.message(), "invalid x509 certificate");
    assert!(Certificate::parse_der(&[0x30, 0x00]).is_err());
    assert!(Certificate::parse_der(&[]).is_err());
}

#[test]
fn fingerprint_is_written_in_uppercase_hex() {
    assert_eq!(Fingerprint::new([0x00u8, 0x0A, 0xFF]).to_string(), "00:0A:FF");
    assert_eq!(Fingerprint::new([0x7Fu8]).to_string(), "7F");
    assert_eq!(Fingerprint::new([0u8; 0]).to_string(), "");
}

#[test]
fn fingerprint_is_parsed_in_either_case() {
    let parsed = Sha1Fingerprint::from_str(TEST_SHA1).unwrap();
    assert_eq!(parsed.to_string(), TEST_SHA1);
    let lower = Fingerprint::<[u8; 3]>::from_str("00:a:fF").unwrap();
    assert_eq!(lower.into_digest(), [0x00, 0x0A, 0xFF]);
    let signed = Fingerprint::<[u8; 2]>::from_str("+1:+0ff").unwrap();
    assert_eq!(signed.into_digest(), [0x01, 0xFF]);
}

#[test]
fn fingerprint_of_another_size_is_refused() {
    let refused = |s: &str| Fingerprint::<[u8; 2]>::from_str(s).is_err();
    assert!(refused(""));
    assert!(refused("00"));
    assert!(refused("00:01:02"));
    assert!(refused("00:"));
    assert!(refused("00:100"));
    assert!(refused("00:0g"));
    assert!(refused("00:-1"));
    assert!(refused("00:+"));
    assert!(refused("00 :01"));
    assert_eq!(
        Fingerprint::<[u8; 2]>::from_str("zz").unwrap_err().message(),
        "invalid certificate fingerprint"
    );
}
