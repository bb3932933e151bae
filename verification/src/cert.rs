//! Fingerprints of device certificates.
//!
//! A fingerprint is the digest of a certificate. It is written as its bytes
//! in hexadecimal, two uppercase digits each, with `:` between them.

use crate::ids::sha256;
use crate::ids::sha256_digest;
use crate::text::head;
use crate::text::hex_char;
use crate::text::hex_digit_char;
use crate::text::parse_hex_u8;
use crate::text::parsed_hex_u8;
use crate::text::split_first;
use crate::text::string_push;
use crate::text::tail;
use vstd::array::array_fill_for_copy_types;
use vstd::prelude::*;

verus! {

/// Certificate fingerprint.
#[derive(Debug, PartialEq, Eq, Hash)]
pub struct Fingerprint<T> {
    digest: T,
}

impl<T> Fingerprint<T> {
    /// The digest that the fingerprint holds.
    pub closed spec fn digest(&self) -> T {
        self.digest
    }

    /// Create a new fingerprint with the given digest.
    pub fn new(digest: T) -> (fingerprint: Self)
        ensures
            fingerprint.digest() == digest,
    {
        Self { digest }
    }

    /// Convert the fingerprint to the underlying digest.
    pub fn into_digest(self) -> (digest: T)
        ensures
            digest == self.digest(),
    {
        self.digest
    }
}

/// SHA1 fingerprint.
pub type Sha1Fingerprint = Fingerprint<[u8; 20]>;

/// SHA256 fingerprint.
pub type Sha256Fingerprint = Fingerprint<[u8; 32]>;

/// Invalid fingerprint error.
#[derive(Debug)]
pub struct InvalidFingerprintError(());

impl InvalidFingerprintError {
    /// The error in words.
    pub fn message(&self) -> (message: &'static str)
        ensures
            message@ == "invalid certificate fingerprint"@,
    {
        "invalid certificate fingerprint"
    }
}

/// The bytes that a text writes out in hexadecimal with `:` between them, if
/// it writes out any: every part between `:` stands for one byte.
pub open spec fn hex_bytes(text: Seq<char>) -> Option<Seq<u8>>
    decreases text.len(),
    via hex_bytes_decreases
{
    match parsed_hex_u8(head(text, ':')) {
        None => None,
        Some(byte) => match tail(text, ':') {
            None => Some(seq![byte]),
            Some(rest) => match hex_bytes(rest) {
                Some(bytes) => Some(seq![byte] + bytes),
                None => None,
            },
        },
    }
}

#[via_fn]
proof fn hex_bytes_decreases(text: Seq<char>) {
    lemma_tail_is_shorter(text, ':');
}

/// What stands behind the first separator is shorter than the whole.
proof fn lemma_tail_is_shorter(text: Seq<char>, separator: char)
    ensures
        tail(text, separator) is Some ==> tail(text, separator)->0.len() < text.len(),
{
    if tail(text, separator) is Some {
        let at = crate::text::first_char(text, separator)->0;
        assert(crate::text::is_first_char(text, separator, at));
    }
}

/// The digest of the given size that a text writes out, if it writes out
/// one.
pub open spec fn fingerprint_digest(text: Seq<char>, size: nat) -> Option<Seq<u8>> {
    match hex_bytes(text) {
        Some(bytes) => if bytes.len() == size {
            Some(bytes)
        } else {
            None
        },
        None => None,
    }
}

/// The text that writes out the bytes in hexadecimal, two uppercase digits
/// each, with `:` between them.
pub open spec fn hex_text(bytes: Seq<u8>) -> Seq<char>
    decreases bytes.len(),
{
    if bytes.len() == 0 {
        Seq::empty()
    } else if bytes.len() == 1 {
        seq![hex_char(bytes[0] as nat / 16), hex_char(bytes[0] as nat % 16)]
    } else {
        hex_text(bytes.drop_last()) + seq![
            ':',
            hex_char(bytes.last() as nat / 16),
            hex_char(bytes.last() as nat % 16),
        ]
    }
}

impl<const N: usize> Fingerprint<[u8; N]> {
    /// The bytes of the digest.
    pub fn as_slice(&self) -> (bytes: &[u8])
        ensures
            bytes@ == self.digest()@,
    {
        self.digest.as_slice()
    }

    /// The fingerprint written out: the bytes of the digest in hexadecimal,
    /// two uppercase digits each, with `:` between them.
    pub fn to_string(&self) -> (text: String)
        ensures
            text@ == hex_text(self.digest()@),
    {
        let mut text = String::new();
        let mut idx: usize = 0;
        assert(self.digest@.take(0) =~= Seq::<u8>::empty());
        while idx < N
            invariant
                idx <= N,
                self.digest@.len() == N,
                text@ == hex_text(self.digest@.take(idx as int)),
            decreases N - idx,
        {
            let byte = self.digest[idx];
            let ghost before = text@;
            if idx > 0 {
                string_push(&mut text, ':');
            }
            string_push(&mut text, hex_digit_char(byte / 16));
            string_push(&mut text, hex_digit_char(byte % 16));
            proof {
                let taken = self.digest@.take(idx + 1);
                assert(taken.drop_last() =~= self.digest@.take(idx as int));
                assert(taken.last() == byte);
                if idx > 0 {
                    assert(text@ =~= before + seq![
                        ':',
                        hex_char(byte as nat / 16),
                        hex_char(byte as nat % 16),
                    ]);
                } else {
                    assert(before =~= Seq::<char>::empty());
                    assert(text@ =~= seq![hex_char(byte as nat / 16), hex_char(byte as nat % 16)]);
                }
            }
            idx += 1;
        }
        assert(self.digest@.take(N as int) =~= self.digest@);
        text
    }

    /// Parse a fingerprint: as many bytes as the digest has, in hexadecimal,
    /// with `:` between them.
    pub fn from_str(s: &str) -> (parsed: Result<Self, InvalidFingerprintError>)
        ensures
            match fingerprint_digest(s@, N as nat) {
                Some(digest) => parsed is Ok && parsed->Ok_0.digest()@ == digest,
                None => parsed is Err,
            },
    {
        let mut digest: [u8; N] = array_fill_for_copy_types(0);
        let mut idx: usize = 0;
        let mut rest: Option<&str> = Some(s);
        let ghost mut read: Seq<u8> = Seq::empty();
        loop
            invariant
                idx <= N,
                read.len() == idx,
                digest@.len() == N,
                digest@.take(idx as int) == read,
                match rest {
                    Some(text) => hex_bytes(s@) == match hex_bytes(text@) {
                        Some(bytes) => Some(read + bytes),
                        None => None,
                    },
                    None => hex_bytes(s@) == Some(read),
                },
            ensures
                rest is None,
            decreases
                    match rest {
                        Some(text) => text@.len() + 1,
                        None => 0,
                    },
        {
            let text = match rest {
                Some(text) => text,
                None => {
                    break ;
                },
            };
            proof {
                lemma_tail_is_shorter(text@, ':');
            }
            let (part, next) = split_first(text, ':');
            let byte = match parse_hex_u8(part) {
                Some(byte) => byte,
                None => {
                    return Err(InvalidFingerprintError(()));
                },
            };
            if idx < N {
                let ghost before = digest@;
                digest[idx] = byte;
                proof {
                    assert(digest@.take(idx + 1) =~= before.take(idx as int).push(byte));
                    match next {
                        Some(following) => {
                            if hex_bytes(following@) is Some {
                                assert(read + (seq![byte] + hex_bytes(following@)->0)
                                    =~= read.push(byte) + hex_bytes(following@)->0);
                            }
                        },
                        None => {
                            assert(read + seq![byte] =~= read.push(byte));
                        },
                    }
                    read = read.push(byte);
                }
                idx += 1;
            } else {
                proof {
                    // One byte more than the digest has: whatever follows,
                    // the text does not write out a digest of this size.
                    if hex_bytes(text@) is Some {
                        assert(hex_bytes(text@)->0.len() >= 1);
                    }
                }
                return Err(InvalidFingerprintError(()));
            }
            rest = next;
        }
        if idx < N {
            Err(InvalidFingerprintError(()))
        } else {
            assert(digest@.take(N as int) =~= digest@);
            Ok(Fingerprint::new(digest))
        }
    }
}

/// `x509_cert::der::Error`: why bytes or text hold no certificate. Nothing is
/// known of a value but that it can be handed on.
#[verifier::external_type_specification]
#[verifier::external_body]
pub struct ExDerError(x509_cert::der::Error);

/// The digest that SHA-1 gives for the data: 20 bytes.
pub uninterp spec fn sha1_digest(data: Seq<u8>) -> Seq<u8>;

/// `Digest::digest` of `sha1::Sha1`: the SHA-1 digest of the data.
#[verifier::external_body]
fn sha1(data: &[u8]) -> (digest: [u8; 20])
    ensures
        digest@ == sha1_digest(data@),
{
    <sha1::Sha1 as sha1::Digest>::digest(data).into()
}

/// The DER format of the certificate that a text holds in PEM format, if
/// it holds one.
pub uninterp spec fn pem_certificate(pem: Seq<char>) -> Option<Seq<u8>>;

/// The DER format of the certificate that the bytes hold in DER format, if
/// they hold one.
pub uninterp spec fn der_certificate(der: Seq<u8>) -> Option<Seq<u8>>;

/// The PEM format, with line feeds, of the certificate that the bytes hold in
/// DER format, if they hold one.
pub uninterp spec fn certificate_pem(der: Seq<u8>) -> Option<Seq<char>>;

/// `DecodePem::from_pem` of `x509_cert::Certificate`, handed on as DER by
/// `Encode::to_der`: the certificate that the text holds in PEM format, or
/// why it holds none.
#[verifier::external_body]
fn certificate_from_pem(pem: &str) -> (parsed: Result<Vec<u8>, x509_cert::der::Error>)
    ensures
        match parsed {
            Ok(der) => pem_certificate(pem@) == Some(der@),
            Err(_) => pem_certificate(pem@) is None,
        },
{
    let certificate = <x509_cert::Certificate as x509_cert::der::DecodePem>::from_pem(pem)?;
    x509_cert::der::Encode::to_der(&certificate)
}

/// `Decode::from_der` of `x509_cert::Certificate`, handed on as DER by
/// `Encode::to_der`: the certificate that the bytes hold in DER format, or
/// why they hold none.
#[verifier::external_body]
fn certificate_from_der(der: &[u8]) -> (parsed: Result<Vec<u8>, x509_cert::der::Error>)
    ensures
        match parsed {
            Ok(kept) => der_certificate(der@) == Some(kept@),
            Err(_) => der_certificate(der@) is None,
        },
{
    let certificate = <x509_cert::Certificate as x509_cert::der::Decode>::from_der(der)?;
    x509_cert::der::Encode::to_der(&certificate)
}

/// `Decode::from_der` of `x509_cert::Certificate`, handed on as PEM by
/// `EncodePem::to_pem` with line feeds: the certificate in PEM format, or
/// why it cannot be written so.
#[verifier::external_body]
fn certificate_to_pem(der: &[u8]) -> (pem: Result<String, x509_cert::der::Error>)
    ensures
        match pem {
            Ok(text) => certificate_pem(der@) == Some(text@),
            Err(_) => certificate_pem(der@) is None,
        },
{
    let certificate = <x509_cert::Certificate as x509_cert::der::Decode>::from_der(der)?;
    x509_cert::der::EncodePem::to_pem(&certificate, x509_cert::der::pem::LineEnding::LF)
}

/// Invalid certificate error.
#[derive(Debug)]
pub struct InvalidCertificateError {
    /// Inner error from the decoder.
    inner: x509_cert::der::Error,
}

impl InvalidCertificateError {
    /// Wrap an error of the decoder.
    fn new(inner: x509_cert::der::Error) -> Self {
        Self { inner }
    }

    /// The error in words.
    pub fn message(&self) -> (message: &'static str)
        ensures
            message@ == "invalid x509 certificate"@,
    {
        "invalid x509 certificate"
    }

    /// The error of the decoder that this error came from.
    pub fn source(&self) -> &x509_cert::der::Error {
        &self.inner
    }

    /// The error of the decoder that this error came from.
    pub fn into_source(self) -> x509_cert::der::Error {
        self.inner
    }
}

/// X509 certificate, kept in DER format.
#[derive(Debug)]
pub struct Certificate {
    /// The certificate in DER format, as the decoder wrote it out again.
    der: Vec<u8>,
}

impl Certificate {
    /// The certificate in DER format, as a sequence of bytes.
    pub closed spec fn der(&self) -> Seq<u8> {
        self.der@
    }

    /// Parse a certificate in PEM format.
    pub fn parse_pem(pem: &str) -> (parsed: Result<Self, InvalidCertificateError>)
        ensures
            match pem_certificate(pem@) {
                Some(der) => parsed is Ok && parsed->Ok_0.der() == der,
                None => parsed is Err,
            },
    {
        match certificate_from_pem(pem) {
            Ok(der) => Ok(Self { der }),
            Err(error) => Err(InvalidCertificateError::new(error)),
        }
    }

    /// Parse a certificate in DER format.
    pub fn parse_der(der: &[u8]) -> (parsed: Result<Self, InvalidCertificateError>)
        ensures
            match der_certificate(der@) {
                Some(kept) => parsed is Ok && parsed->Ok_0.der() == kept,
                None => parsed is Err,
            },
    {
        match certificate_from_der(der) {
            Ok(der) => Ok(Self { der }),
            Err(error) => Err(InvalidCertificateError::new(error)),
        }
    }

    /// SHA1 fingerprint of the certificate: the digest of its DER format.
    pub fn sha1_fingerprint(&self) -> (fingerprint: Sha1Fingerprint)
        ensures
            fingerprint.digest()@ == sha1_digest(self.der()),
    {
        Fingerprint::new(sha1(self.der.as_slice()))
    }

    /// SHA256 fingerprint of the certificate: the digest of its DER format.
    pub fn sha256_fingerprint(&self) -> (fingerprint: Sha256Fingerprint)
        ensures
            fingerprint.digest()@ == sha256_digest(self.der()),
    {
        Fingerprint::new(sha256(self.der.as_slice()))
    }

    /// Encode the certificate in PEM format.
    pub fn to_pem(&self) -> (pem: Result<String, InvalidCertificateError>)
        ensures
            match certificate_pem(self.der()) {
                Some(text) => pem is Ok && pem->Ok_0@ == text,
                None => pem is Err,
            },
    {
        match certificate_to_pem(self.der.as_slice()) {
            Ok(pem) => Ok(pem),
            Err(error) => Err(InvalidCertificateError::new(error)),
        }
    }

    /// Encode the certificate in DER format.
    pub fn to_der(&self) -> (der: Vec<u8>)
        ensures
            der@ == self.der(),
    {
        self.der.clone()
    }
}

/// `rcgen::generate_simple_self_signed` for no names, with
/// `Certificate::pem` and `KeyPair::serialize_pem`: a fresh key pair and a
/// certificate that it signed itself, both in PEM format. The key is drawn
/// at random, so nothing is known of either text; there is none where the
/// generation fails.
#[verifier::external_body]
fn self_signed_pem() -> (generated: Option<(String, String)>) {
    rcgen::generate_simple_self_signed(Vec::<String>::new()).ok().map(
        |generated| (generated.cert.pem(), generated.key_pair.serialize_pem()),
    )
}

/// Whether the bytes are the DER format of a certificate that some text
/// holds in PEM format.
pub open spec fn is_pem_certificate(der: Seq<u8>) -> bool {
    exists|pem: Seq<char>| pem_certificate(pem) == Some(der)
}

/// Generate a self-signed certificate and key in PEM format. There is none
/// where the generation fails or gives what is no certificate.
pub fn generate_self_signed_certificate() -> (generated: Option<(Certificate, String)>)
    ensures
        match generated {
            Some(pair) => is_pem_certificate(pair.0.der()),
            None => true,
        },
{
    match self_signed_pem() {
        Some((certificate, key)) => match Certificate::parse_pem(certificate.as_str()) {
            Ok(certificate) => Some((certificate, key)),
            Err(_) => None,
        },
        None => None,
    }
}

} // verus!
