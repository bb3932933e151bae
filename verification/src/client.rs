//! What a client shows to the hub to be let in, and where it connects to.

use crate::ids::id_text;
use crate::ids::ids::DeploymentToken;
use crate::ids::ids::DeviceFingerprint;
use crate::ids::ids::UserToken;
use crate::ids::tag::str_eq;
use crate::ids::Id;
use crate::text::hex_char;
use vstd::prelude::*;
use vstd::string::StringExecFns;
use vstd::string::StringSliceAdditionalSpecFns;

verus! {

/// Path of the websocket endpoint at the hub.
pub const CONNECT_PATH: &'static str = "/api/v1/connect/ws";

/// Client token to use for authentication.
pub enum ClientToken {
    /// Deployment token.
    DeploymentToken(DeploymentToken),
    /// User token.
    UserToken(UserToken),
}

impl ClientToken {
    /// The token as a string: its tag, `_`, and its raw id.
    pub open spec fn text(&self) -> Seq<char> {
        match self {
            ClientToken::DeploymentToken(token) => id_text(token.tag_of(), token.raw_of()),
            ClientToken::UserToken(token) => id_text(token.tag_of(), token.raw_of()),
        }
    }

    /// Return the token as a string.
    pub fn stringify(&self) -> (text: String)
        ensures
            text@ == self.text(),
    {
        match self {
            Self::DeploymentToken(token) => token.stringify(),
            Self::UserToken(token) => token.stringify(),
        }
    }
}

/// The scheme of the websocket that goes with the scheme of the hub: secure
/// for secure, plain for plain, and none for any other scheme.
pub open spec fn websocket_scheme_of(scheme: Seq<char>) -> Option<Seq<char>> {
    if scheme == "https"@ {
        Some("wss"@)
    } else if scheme == "http"@ {
        Some("ws"@)
    } else {
        None
    }
}

/// The scheme of the websocket that goes with the scheme of the hub.
pub fn websocket_scheme(scheme: &str) -> (websocket: Option<&'static str>)
    ensures
        match websocket_scheme_of(scheme@) {
            Some(text) => websocket is Some && websocket->0@ == text,
            None => websocket is None,
        },
{
    if str_eq(scheme, "https") {
        Some("wss")
    } else if str_eq(scheme, "http") {
        Some("ws")
    } else {
        None
    }
}

/// A header of the request that opens the websocket.
#[derive(Debug)]
pub struct Header {
    /// Name of the header.
    pub name: &'static str,
    /// Value of the header.
    pub value: String,
}

impl View for Header {
    type V = (Seq<char>, Seq<char>);

    open spec fn view(&self) -> (Seq<char>, Seq<char>) {
        (self.name@, self.value@)
    }
}

/// The headers of a list, as plain values.
pub open spec fn header_views(headers: Seq<Header>) -> Seq<(Seq<char>, Seq<char>)> {
    headers.map_values(|header: Header| header@)
}

/// Whether a byte goes into a header as it is: a letter or digit of ASCII,
/// or one of `-`, `_`, `.` and `~`.
pub open spec fn is_unreserved(byte: u8) -> bool {
    (0x30 <= byte <= 0x39) || (0x41 <= byte <= 0x5A) || (0x61 <= byte <= 0x7A) || byte == 0x2D
        || byte == 0x2E || byte == 0x5F || byte == 0x7E
}

/// Bytes in percent-encoding: every byte as it is where that is safe, and
/// else as `%` and its two hexadecimal digits in uppercase.
pub open spec fn percent_encoded(data: Seq<u8>) -> Seq<char>
    decreases data.len(),
{
    if data.len() == 0 {
        Seq::empty()
    } else if is_unreserved(data.last()) {
        percent_encoded(data.drop_last()).push(data.last() as char)
    } else {
        percent_encoded(data.drop_last()) + seq![
            '%',
            hex_char(data.last() as nat / 16),
            hex_char(data.last() as nat % 16),
        ]
    }
}

/// `urlencoding::encode_binary`: the bytes in percent-encoding, which
/// leaves letters and digits of ASCII and `-`, `_`, `.`, `~` as they are and
/// writes every other byte as `%` and two uppercase hexadecimal digits.
#[verifier::external_body]
fn url_encode(data: &[u8]) -> (encoded: String)
    ensures
        encoded@ == percent_encoded(data@),
{
    urlencoding::encode_binary(data).into_owned()
}

/// The headers by which a client shows who it is.
///
/// The token goes out as a bearer and once more under the name of its kind.
/// Whether the connection is to be registered is said as `true` or `false`.
/// The fingerprint of the device follows if there is one, and the client
/// certificate, in percent-encoding, if there is one and it cannot go out by
/// TLS because TLS is disabled.
pub open spec fn connect_header_views(
    token: ClientToken,
    register_connection: bool,
    device_fingerprint: Option<DeviceFingerprint>,
    client_cert: Option<Seq<char>>,
) -> Seq<(Seq<char>, Seq<char>)> {
    seq![
        ("Authorization"@, "Bearer "@ + token.text()),
        (
            "X-Register-Connection"@,
            if register_connection {
                "true"@
            } else {
                "false"@
            },
        ),
        (
            match token {
                ClientToken::DeploymentToken(_) => "X-Deployment-Token"@,
                ClientToken::UserToken(_) => "X-User-Token"@,
            },
            token.text(),
        ),
    ] + match device_fingerprint {
        Some(fingerprint) => seq![
            ("X-Device-Fingerprint"@, id_text(fingerprint.tag_of(), fingerprint.raw_of())),
        ],
        None => seq![],
    } + match client_cert {
        Some(encoded) => seq![("X-Client-Cert"@, encoded)],
        None => seq![],
    }
}

/// The client certificate as it goes into a header, if it goes into one.
pub open spec fn client_cert_header(certificate_pem: Option<&str>, disable_tls: bool) -> Option<
    Seq<char>,
> {
    match certificate_pem {
        Some(pem) => if disable_tls {
            Some(percent_encoded(pem.spec_bytes()))
        } else {
            None
        },
        None => None,
    }
}

/// The headers of the request that opens the websocket, in order.
pub fn connect_headers(
    token: &ClientToken,
    register_connection: bool,
    device_fingerprint: Option<&DeviceFingerprint>,
    certificate_pem: Option<&str>,
    disable_tls: bool,
) -> (headers: Vec<Header>)
    ensures
        header_views(headers@) == connect_header_views(
            *token,
            register_connection,
            match device_fingerprint {
                Some(fingerprint) => Some(*fingerprint),
                None => None,
            },
            client_cert_header(certificate_pem, disable_tls),
        ),
{
    let mut headers: Vec<Header> = Vec::new();
    let mut bearer = String::from_str("Bearer ");
    bearer.append(token.stringify().as_str());
    headers.push(Header { name: "Authorization", value: bearer });
    headers.push(
        Header {
            name: "X-Register-Connection",
            value: String::from_str(
                if register_connection {
                    "true"
                } else {
                    "false"
                },
            ),
        },
    );
    match token {
        ClientToken::DeploymentToken(token) => {
            headers.push(Header { name: "X-Deployment-Token", value: token.stringify() });
        },
        ClientToken::UserToken(token) => {
            headers.push(Header { name: "X-User-Token", value: token.stringify() });
        },
    }
    match device_fingerprint {
        Some(fingerprint) => {
            headers.push(Header { name: "X-Device-Fingerprint", value: fingerprint.stringify() });
        },
        None => {},
    }
    match certificate_pem {
        Some(pem) => {
            if disable_tls {
                headers.push(Header { name: "X-Client-Cert", value: url_encode(pem.as_bytes()) });
            }
        },
        None => {},
    }
    assert(header_views(headers@) =~= connect_header_views(
        *token,
        register_connection,
        match device_fingerprint {
            Some(fingerprint) => Some(*fingerprint),
            None => None,
        },
        client_cert_header(certificate_pem, disable_tls),
    ));
    headers
}

} // verus!
