//! Id types.
//!
//! One type for each kind of id. A value holds the raw id; the tag is that of
//! its type.

use crate::ids::any::AnyId;
use crate::ids::all_base58_chars;
use crate::ids::byte_len;
use crate::ids::encoding::encoded;
use crate::ids::errors::InvalidIdError;
use crate::ids::is_generated_to;
use crate::ids::parse_tagged;
use crate::ids::sha512_256;
use crate::ids::sha512_256_digest;
use crate::ids::show_id;
use crate::ids::shown_text;
use crate::ids::stringify_id;
use crate::ids::tag::Tag;
use crate::ids::tagged_refusal;
use crate::ids::ConcreteId;
use crate::ids::DatedRawId;
use crate::ids::FlatRawId;
use crate::ids::Generate;
use crate::ids::Id;
use crate::ids::PublicId;
use crate::ids::RawId;
use crate::ids::SecretId;
use crate::ids::ALPHABET_BASE58;
use crate::ids::LIMIT;
use vstd::prelude::*;
use vstd::string::StrSliceExecFns;
use vstd::string::StringSliceAdditionalSpecFns;
use vstd::utf8::encode_utf8;
use vstd::utf8::is_ascii_chars;

verus! {

/// Cluster node id (globally unique).
///
/// Uniquely identifies a cluster node within the system.
#[derive(Debug, PartialEq, Eq, Hash)]
pub struct ClusterNodeId {
    /// Raw id.
    raw: FlatRawId,
}

impl View for ClusterNodeId {
    type V = Seq<char>;

    closed spec fn view(&self) -> Seq<char> {
        self.raw@
    }
}

impl ClusterNodeId {
    /// Create an id from the provided raw id without checking its size.
    pub fn from_raw_unchecked(raw: RawId) -> (id: Self)
        ensures
            id@ == raw@,
    {
        Self { raw: FlatRawId::from_raw_unchecked(raw) }
    }

    /// Parse an id of this kind: `cluster_node_` and a raw id of size 22.
    pub fn from_str(s: &str) -> (parsed: Result<Self, InvalidIdError>)
        ensures
            match tagged_refusal(
                s.spec_bytes(),
                "cluster_node_".spec_bytes(),
                false,
                22,
                "invalid prefix (expected: `cluster_node_`)"@,
                "invalid size of raw id (expected: 22)"@,
            ) {
                Some(reason) => parsed is Err && parsed->Err_0.reason_text() == reason,
                None => parsed is Ok && encode_utf8(parsed->Ok_0@) == s.spec_bytes().skip(
                    "cluster_node_".spec_bytes().len() as int,
                ),
            },
    {
        match parse_tagged(
            s,
            "cluster_node_",
            false,
            22,
            "invalid prefix (expected: `cluster_node_`)",
            "invalid size of raw id (expected: 22)",
        ) {
            Ok(raw) => Ok(Self::from_raw_unchecked(raw)),
            Err(error) => Err(error),
        }
    }

    /// Make an id of the raw id, which must have the size of this kind.
    pub fn try_from(raw: FlatRawId) -> (id: Result<Self, InvalidIdError>)
        ensures
            byte_len(raw@) == 22 ==> id is Ok && id->Ok_0@ == raw@,
            byte_len(raw@) != 22 ==> id is Err && id->Err_0.reason_text()
                == "invalid size of raw id (expected: 22)"@,
    {
        if raw.as_str().as_bytes().len() == 22 {
            Ok(Self { raw })
        } else {
            Err(InvalidIdError::new("invalid size of raw id (expected: 22)"))
        }
    }

    /// The raw id.
    pub fn into_raw(self) -> (raw: FlatRawId)
        ensures
            raw@ == self@,
    {
        self.raw
    }

    /// The id as one of any kind.
    pub fn into_any(self) -> (any: AnyId)
        ensures
            any == AnyId::ClusterNodeId(self),
    {
        AnyId::ClusterNodeId(self)
    }

    /// The id as it is shown.
    pub fn to_string(&self) -> (text: String)
        ensures
            text@ == shown_text(Tag::ClusterNodeId, self@),
    {
        show_id(Tag::ClusterNodeId, self.raw.as_raw())
    }
}

impl Id for ClusterNodeId {
    open spec fn tag_of(&self) -> Tag {
        Tag::ClusterNodeId
    }

    open spec fn raw_of(&self) -> Seq<char> {
        self@
    }

    fn tag(&self) -> (tag: Tag) {
        Tag::ClusterNodeId
    }

    fn raw(&self) -> (raw: &RawId) {
        self.raw.as_raw()
    }

    fn stringify(&self) -> (text: String) {
        stringify_id(Tag::ClusterNodeId, self.raw.as_raw())
    }
}

impl ConcreteId for ClusterNodeId {
    type Type = FlatRawId;
}

impl PublicId for ClusterNodeId {

}

impl Generate for ClusterNodeId {
    open spec fn generated(&self) -> bool {
        self@.len() == 22 && all_base58_chars(self@)
    }

    fn generate() -> (id: Option<Self>)
        ensures
            id is Some,
    {
        Some(Self { raw: FlatRawId::generate(22) })
    }
}

/// User id (globally unique).
///
/// Uniquely identifies a user within the system.
#[derive(Debug, PartialEq, Eq, Hash)]
pub struct UserId {
    /// Raw id.
    raw: FlatRawId,
}

impl View for UserId {
    type V = Seq<char>;

    closed spec fn view(&self) -> Seq<char> {
        self.raw@
    }
}

impl UserId {
    /// Create an id from the provided raw id without checking its size.
    pub fn from_raw_unchecked(raw: RawId) -> (id: Self)
        ensures
            id@ == raw@,
    {
        Self { raw: FlatRawId::from_raw_unchecked(raw) }
    }

    /// Parse an id of this kind: `u_` and a raw id of size 22.
    pub fn from_str(s: &str) -> (parsed: Result<Self, InvalidIdError>)
        ensures
            match tagged_refusal(
                s.spec_bytes(),
                "u_".spec_bytes(),
                false,
                22,
                "invalid prefix (expected: `u_`)"@,
                "invalid size of raw id (expected: 22)"@,
            ) {
                Some(reason) => parsed is Err && parsed->Err_0.reason_text() == reason,
                None => parsed is Ok && encode_utf8(parsed->Ok_0@) == s.spec_bytes().skip(
                    "u_".spec_bytes().len() as int,
                ),
            },
    {
        match parse_tagged(
            s,
            "u_",
            false,
            22,
            "invalid prefix (expected: `u_`)",
            "invalid size of raw id (expected: 22)",
        ) {
            Ok(raw) => Ok(Self::from_raw_unchecked(raw)),
            Err(error) => Err(error),
        }
    }

    /// Make an id of the raw id, which must have the size of this kind.
    pub fn try_from(raw: FlatRawId) -> (id: Result<Self, InvalidIdError>)
        ensures
            byte_len(raw@) == 22 ==> id is Ok && id->Ok_0@ == raw@,
            byte_len(raw@) != 22 ==> id is Err && id->Err_0.reason_text()
                == "invalid size of raw id (expected: 22)"@,
    {
        if raw.as_str().as_bytes().len() == 22 {
            Ok(Self { raw })
        } else {
            Err(InvalidIdError::new("invalid size of raw id (expected: 22)"))
        }
    }

    /// The raw id.
    pub fn into_raw(self) -> (raw: FlatRawId)
        ensures
            raw@ == self@,
    {
        self.raw
    }

    /// The id as one of any kind.
    pub fn into_any(self) -> (any: AnyId)
        ensures
            any == AnyId::UserId(self),
    {
        AnyId::UserId(self)
    }

    /// The id as it is shown.
    pub fn to_string(&self) -> (text: String)
        ensures
            text@ == shown_text(Tag::UserId, self@),
    {
        show_id(Tag::UserId, self.raw.as_raw())
    }
}

impl Id for UserId {
    open spec fn tag_of(&self) -> Tag {
        Tag::UserId
    }

    open spec fn raw_of(&self) -> Seq<char> {
        self@
    }

    fn tag(&self) -> (tag: Tag) {
        Tag::UserId
    }

    fn raw(&self) -> (raw: &RawId) {
        self.raw.as_raw()
    }

    fn stringify(&self) -> (text: String) {
        stringify_id(Tag::UserId, self.raw.as_raw())
    }
}

impl ConcreteId for UserId {
    type Type = FlatRawId;
}

impl PublicId for UserId {

}

impl Generate for UserId {
    open spec fn generated(&self) -> bool {
        self@.len() == 22 && all_base58_chars(self@)
    }

    fn generate() -> (id: Option<Self>)
        ensures
            id is Some,
    {
        Some(Self { raw: FlatRawId::generate(22) })
    }
}

/// User secret access token (globally unique).
///
/// Used in-place of the password for login with the API and client.
#[derive(PartialEq, Eq, Hash)]
pub struct UserToken {
    /// Raw id.
    raw: FlatRawId,
}

impl View for UserToken {
    type V = Seq<char>;

    closed spec fn view(&self) -> Seq<char> {
        self.raw@
    }
}

impl UserToken {
    /// Create an id from the provided raw id without checking its size.
    pub fn from_raw_unchecked(raw: RawId) -> (id: Self)
        ensures
            id@ == raw@,
    {
        Self { raw: FlatRawId::from_raw_unchecked(raw) }
    }

    /// Parse an id of this kind: `u_sk_` and a raw id of size 66.
    pub fn from_str(s: &str) -> (parsed: Result<Self, InvalidIdError>)
        ensures
            match tagged_refusal(
                s.spec_bytes(),
                "u_sk_".spec_bytes(),
                false,
                66,
                "invalid prefix (expected: `u_sk_`)"@,
                "invalid size of raw id (expected: 66)"@,
            ) {
                Some(reason) => parsed is Err && parsed->Err_0.reason_text() == reason,
                None => parsed is Ok && encode_utf8(parsed->Ok_0@) == s.spec_bytes().skip(
                    "u_sk_".spec_bytes().len() as int,
                ),
            },
    {
        match parse_tagged(
            s,
            "u_sk_",
            false,
            66,
            "invalid prefix (expected: `u_sk_`)",
            "invalid size of raw id (expected: 66)",
        ) {
            Ok(raw) => Ok(Self::from_raw_unchecked(raw)),
            Err(error) => Err(error),
        }
    }

    /// Make an id of the raw id, which must have the size of this kind.
    pub fn try_from(raw: FlatRawId) -> (id: Result<Self, InvalidIdError>)
        ensures
            byte_len(raw@) == 66 ==> id is Ok && id->Ok_0@ == raw@,
            byte_len(raw@) != 66 ==> id is Err && id->Err_0.reason_text()
                == "invalid size of raw id (expected: 66)"@,
    {
        if raw.as_str().as_bytes().len() == 66 {
            Ok(Self { raw })
        } else {
            Err(InvalidIdError::new("invalid size of raw id (expected: 66)"))
        }
    }

    /// The raw id.
    pub fn into_raw(self) -> (raw: FlatRawId)
        ensures
            raw@ == self@,
    {
        self.raw
    }

    /// The id as one of any kind.
    pub fn into_any(self) -> (any: AnyId)
        ensures
            any == AnyId::UserToken(self),
    {
        AnyId::UserToken(self)
    }

    /// The id as it is shown: the raw id is left out.
    pub fn to_string(&self) -> (text: String)
        ensures
            text@ == shown_text(Tag::UserToken, self@),
    {
        show_id(Tag::UserToken, self.raw.as_raw())
    }
}

impl Id for UserToken {
    open spec fn tag_of(&self) -> Tag {
        Tag::UserToken
    }

    open spec fn raw_of(&self) -> Seq<char> {
        self@
    }

    fn tag(&self) -> (tag: Tag) {
        Tag::UserToken
    }

    fn raw(&self) -> (raw: &RawId) {
        self.raw.as_raw()
    }

    fn stringify(&self) -> (text: String) {
        stringify_id(Tag::UserToken, self.raw.as_raw())
    }
}

impl ConcreteId for UserToken {
    type Type = FlatRawId;
}

impl SecretId for UserToken {

}

impl Generate for UserToken {
    open spec fn generated(&self) -> bool {
        self@.len() == 66 && all_base58_chars(self@)
    }

    fn generate() -> (id: Option<Self>)
        ensures
            id is Some,
    {
        Some(Self { raw: FlatRawId::generate(66) })
    }
}

/// User access token id (globally unique).
///
/// The first 22 characters of the respective secret access token.
#[derive(Debug, PartialEq, Eq, Hash)]
pub struct UserTokenId {
    /// Raw id.
    raw: FlatRawId,
}

impl View for UserTokenId {
    type V = Seq<char>;

    closed spec fn view(&self) -> Seq<char> {
        self.raw@
    }
}

impl UserTokenId {
    /// Create an id from the provided raw id without checking its size.
    pub fn from_raw_unchecked(raw: RawId) -> (id: Self)
        ensures
            id@ == raw@,
    {
        Self { raw: FlatRawId::from_raw_unchecked(raw) }
    }

    /// Parse an id of this kind: `u_pk_` and a raw id of size 22.
    pub fn from_str(s: &str) -> (parsed: Result<Self, InvalidIdError>)
        ensures
            match tagged_refusal(
                s.spec_bytes(),
                "u_pk_".spec_bytes(),
                false,
                22,
                "invalid prefix (expected: `u_pk_`)"@,
                "invalid size of raw id (expected: 22)"@,
            ) {
                Some(reason) => parsed is Err && parsed->Err_0.reason_text() == reason,
                None => parsed is Ok && encode_utf8(parsed->Ok_0@) == s.spec_bytes().skip(
                    "u_pk_".spec_bytes().len() as int,
                ),
            },
    {
        match parse_tagged(
            s,
            "u_pk_",
            false,
            22,
            "invalid prefix (expected: `u_pk_`)",
            "invalid size of raw id (expected: 22)",
        ) {
            Ok(raw) => Ok(Self::from_raw_unchecked(raw)),
            Err(error) => Err(error),
        }
    }

    /// Make an id of the raw id, which must have the size of this kind.
    pub fn try_from(raw: FlatRawId) -> (id: Result<Self, InvalidIdError>)
        ensures
            byte_len(raw@) == 22 ==> id is Ok && id->Ok_0@ == raw@,
            byte_len(raw@) != 22 ==> id is Err && id->Err_0.reason_text()
                == "invalid size of raw id (expected: 22)"@,
    {
        if raw.as_str().as_bytes().len() == 22 {
            Ok(Self { raw })
        } else {
            Err(InvalidIdError::new("invalid size of raw id (expected: 22)"))
        }
    }

    /// The raw id.
    pub fn into_raw(self) -> (raw: FlatRawId)
        ensures
            raw@ == self@,
    {
        self.raw
    }

    /// The id as one of any kind.
    pub fn into_any(self) -> (any: AnyId)
        ensures
            any == AnyId::UserTokenId(self),
    {
        AnyId::UserTokenId(self)
    }

    /// The id as it is shown.
    pub fn to_string(&self) -> (text: String)
        ensures
            text@ == shown_text(Tag::UserTokenId, self@),
    {
        show_id(Tag::UserTokenId, self.raw.as_raw())
    }
}

impl Id for UserTokenId {
    open spec fn tag_of(&self) -> Tag {
        Tag::UserTokenId
    }

    open spec fn raw_of(&self) -> Seq<char> {
        self@
    }

    fn tag(&self) -> (tag: Tag) {
        Tag::UserTokenId
    }

    fn raw(&self) -> (raw: &RawId) {
        self.raw.as_raw()
    }

    fn stringify(&self) -> (text: String) {
        stringify_id(Tag::UserTokenId, self.raw.as_raw())
    }
}

impl ConcreteId for UserTokenId {
    type Type = FlatRawId;
}

impl PublicId for UserTokenId {

}

impl Generate for UserTokenId {
    open spec fn generated(&self) -> bool {
        self@.len() == 22 && all_base58_chars(self@)
    }

    fn generate() -> (id: Option<Self>)
        ensures
            id is Some,
    {
        Some(Self { raw: FlatRawId::generate(22) })
    }
}

/// User session token (globally unique).
#[derive(PartialEq, Eq, Hash)]
pub struct UserSessionToken {
    /// Raw id.
    raw: FlatRawId,
}

impl View for UserSessionToken {
    type V = Seq<char>;

    closed spec fn view(&self) -> Seq<char> {
        self.raw@
    }
}

impl UserSessionToken {
    /// Create an id from the provided raw id without checking its size.
    pub fn from_raw_unchecked(raw: RawId) -> (id: Self)
        ensures
            id@ == raw@,
    {
        Self { raw: FlatRawId::from_raw_unchecked(raw) }
    }

    /// Parse an id of this kind: `u_session_sk_` and a raw id of size 66.
    pub fn from_str(s: &str) -> (parsed: Result<Self, InvalidIdError>)
        ensures
            match tagged_refusal(
                s.spec_bytes(),
                "u_session_sk_".spec_bytes(),
                false,
                66,
                "invalid prefix (expected: `u_session_sk_`)"@,
                "invalid size of raw id (expected: 66)"@,
            ) {
                Some(reason) => parsed is Err && parsed->Err_0.reason_text() == reason,
                None => parsed is Ok && encode_utf8(parsed->Ok_0@) == s.spec_bytes().skip(
                    "u_session_sk_".spec_bytes().len() as int,
                ),
            },
    {
        match parse_tagged(
            s,
            "u_session_sk_",
            false,
            66,
            "invalid prefix (expected: `u_session_sk_`)",
            "invalid size of raw id (expected: 66)",
        ) {
            Ok(raw) => Ok(Self::from_raw_unchecked(raw)),
            Err(error) => Err(error),
        }
    }

    /// Make an id of the raw id, which must have the size of this kind.
    pub fn try_from(raw: FlatRawId) -> (id: Result<Self, InvalidIdError>)
        ensures
            byte_len(raw@) == 66 ==> id is Ok && id->Ok_0@ == raw@,
            byte_len(raw@) != 66 ==> id is Err && id->Err_0.reason_text()
                == "invalid size of raw id (expected: 66)"@,
    {
        if raw.as_str().as_bytes().len() == 66 {
            Ok(Self { raw })
        } else {
            Err(InvalidIdError::new("invalid size of raw id (expected: 66)"))
        }
    }

    /// The raw id.
    pub fn into_raw(self) -> (raw: FlatRawId)
        ensures
            raw@ == self@,
    {
        self.raw
    }

    /// The id as one of any kind.
    pub fn into_any(self) -> (any: AnyId)
        ensures
            any == AnyId::UserSessionToken(self),
    {
        AnyId::UserSessionToken(self)
    }

    /// The id as it is shown: the raw id is left out.
    pub fn to_string(&self) -> (text: String)
        ensures
            text@ == shown_text(Tag::UserSessionToken, self@),
    {
        show_id(Tag::UserSessionToken, self.raw.as_raw())
    }
}

impl Id for UserSessionToken {
    open spec fn tag_of(&self) -> Tag {
        Tag::UserSessionToken
    }

    open spec fn raw_of(&self) -> Seq<char> {
        self@
    }

    fn tag(&self) -> (tag: Tag) {
        Tag::UserSessionToken
    }

    fn raw(&self) -> (raw: &RawId) {
        self.raw.as_raw()
    }

    fn stringify(&self) -> (text: String) {
        stringify_id(Tag::UserSessionToken, self.raw.as_raw())
    }
}

impl ConcreteId for UserSessionToken {
    type Type = FlatRawId;
}

impl SecretId for UserSessionToken {

}

impl Generate for UserSessionToken {
    open spec fn generated(&self) -> bool {
        self@.len() == 66 && all_base58_chars(self@)
    }

    fn generate() -> (id: Option<Self>)
        ensures
            id is Some,
    {
        Some(Self { raw: FlatRawId::generate(66) })
    }
}

/// User session id (globally unique).
#[derive(Debug, PartialEq, Eq, Hash)]
pub struct UserSessionId {
    /// Raw id.
    raw: FlatRawId,
}

impl View for UserSessionId {
    type V = Seq<char>;

    closed spec fn view(&self) -> Seq<char> {
        self.raw@
    }
}

impl UserSessionId {
    /// Create an id from the provided raw id without checking its size.
    pub fn from_raw_unchecked(raw: RawId) -> (id: Self)
        ensures
            id@ == raw@,
    {
        Self { raw: FlatRawId::from_raw_unchecked(raw) }
    }

    /// Parse an id of this kind: `u_session_pk_` and a raw id of size 22.
    pub fn from_str(s: &str) -> (parsed: Result<Self, InvalidIdError>)
        ensures
            match tagged_refusal(
                s.spec_bytes(),
                "u_session_pk_".spec_bytes(),
                false,
                22,
                "invalid prefix (expected: `u_session_pk_`)"@,
                "invalid size of raw id (expected: 22)"@,
            ) {
                Some(reason) => parsed is Err && parsed->Err_0.reason_text() == reason,
                None => parsed is Ok && encode_utf8(parsed->Ok_0@) == s.spec_bytes().skip(
                    "u_session_pk_".spec_bytes().len() as int,
                ),
            },
    {
        match parse_tagged(
            s,
            "u_session_pk_",
            false,
            22,
            "invalid prefix (expected: `u_session_pk_`)",
            "invalid size of raw id (expected: 22)",
        ) {
            Ok(raw) => Ok(Self::from_raw_unchecked(raw)),
            Err(error) => Err(error),
        }
    }

    /// Make an id of the raw id, which must have the size of this kind.
    pub fn try_from(raw: FlatRawId) -> (id: Result<Self, InvalidIdError>)
        ensures
            byte_len(raw@) == 22 ==> id is Ok && id->Ok_0@ == raw@,
            byte_len(raw@) != 22 ==> id is Err && id->Err_0.reason_text()
                == "invalid size of raw id (expected: 22)"@,
    {
        if raw.as_str().as_bytes().len() == 22 {
            Ok(Self { raw })
        } else {
            Err(InvalidIdError::new("invalid size of raw id (expected: 22)"))
        }
    }

    /// The raw id.
    pub fn into_raw(self) -> (raw: FlatRawId)
        ensures
            raw@ == self@,
    {
        self.raw
    }

    /// The id as one of any kind.
    pub fn into_any(self) -> (any: AnyId)
        ensures
            any == AnyId::UserSessionId(self),
    {
        AnyId::UserSessionId(self)
    }

    /// The id as it is shown.
    pub fn to_string(&self) -> (text: String)
        ensures
            text@ == shown_text(Tag::UserSessionId, self@),
    {
        show_id(Tag::UserSessionId, self.raw.as_raw())
    }
}

impl Id for UserSessionId {
    open spec fn tag_of(&self) -> Tag {
        Tag::UserSessionId
    }

    open spec fn raw_of(&self) -> Seq<char> {
        self@
    }

    fn tag(&self) -> (tag: Tag) {
        Tag::UserSessionId
    }

    fn raw(&self) -> (raw: &RawId) {
        self.raw.as_raw()
    }

    fn stringify(&self) -> (text: String) {
        stringify_id(Tag::UserSessionId, self.raw.as_raw())
    }
}

impl ConcreteId for UserSessionId {
    type Type = FlatRawId;
}

impl PublicId for UserSessionId {

}

impl Generate for UserSessionId {
    open spec fn generated(&self) -> bool {
        self@.len() == 22 && all_base58_chars(self@)
    }

    fn generate() -> (id: Option<Self>)
        ensures
            id is Some,
    {
        Some(Self { raw: FlatRawId::generate(22) })
    }
}

/// Project id (globally unique).
///
/// Uniquely identifies a project within the system.
#[derive(Debug, PartialEq, Eq, Hash)]
pub struct ProjectId {
    /// Raw id.
    raw: FlatRawId,
}

impl View for ProjectId {
    type V = Seq<char>;

    closed spec fn view(&self) -> Seq<char> {
        self.raw@
    }
}

impl ProjectId {
    /// Create an id from the provided raw id without checking its size.
    pub fn from_raw_unchecked(raw: RawId) -> (id: Self)
        ensures
            id@ == raw@,
    {
        Self { raw: FlatRawId::from_raw_unchecked(raw) }
    }

    /// Parse an id of this kind: `p_` and a raw id of size 22.
    pub fn from_str(s: &str) -> (parsed: Result<Self, InvalidIdError>)
        ensures
            match tagged_refusal(
                s.spec_bytes(),
                "p_".spec_bytes(),
                false,
                22,
                "invalid prefix (expected: `p_`)"@,
                "invalid size of raw id (expected: 22)"@,
            ) {
                Some(reason) => parsed is Err && parsed->Err_0.reason_text() == reason,
                None => parsed is Ok && encode_utf8(parsed->Ok_0@) == s.spec_bytes().skip(
                    "p_".spec_bytes().len() as int,
                ),
            },
    {
        match parse_tagged(
            s,
            "p_",
            false,
            22,
            "invalid prefix (expected: `p_`)",
            "invalid size of raw id (expected: 22)",
        ) {
            Ok(raw) => Ok(Self::from_raw_unchecked(raw)),
            Err(error) => Err(error),
        }
    }

    /// Make an id of the raw id, which must have the size of this kind.
    pub fn try_from(raw: FlatRawId) -> (id: Result<Self, InvalidIdError>)
        ensures
            byte_len(raw@) == 22 ==> id is Ok && id->Ok_0@ == raw@,
            byte_len(raw@) != 22 ==> id is Err && id->Err_0.reason_text()
                == "invalid size of raw id (expected: 22)"@,
    {
        if raw.as_str().as_bytes().len() == 22 {
            Ok(Self { raw })
        } else {
            Err(InvalidIdError::new("invalid size of raw id (expected: 22)"))
        }
    }

    /// The raw id.
    pub fn into_raw(self) -> (raw: FlatRawId)
        ensures
            raw@ == self@,
    {
        self.raw
    }

    /// The id as one of any kind.
    pub fn into_any(self) -> (any: AnyId)
        ensures
            any == AnyId::ProjectId(self),
    {
        AnyId::ProjectId(self)
    }

    /// The id as it is shown.
    pub fn to_string(&self) -> (text: String)
        ensures
            text@ == shown_text(Tag::ProjectId, self@),
    {
        show_id(Tag::ProjectId, self.raw.as_raw())
    }
}

impl Id for ProjectId {
    open spec fn tag_of(&self) -> Tag {
        Tag::ProjectId
    }

    open spec fn raw_of(&self) -> Seq<char> {
        self@
    }

    fn tag(&self) -> (tag: Tag) {
        Tag::ProjectId
    }

    fn raw(&self) -> (raw: &RawId) {
        self.raw.as_raw()
    }

    fn stringify(&self) -> (text: String) {
        stringify_id(Tag::ProjectId, self.raw.as_raw())
    }
}

impl ConcreteId for ProjectId {
    type Type = FlatRawId;
}

impl PublicId for ProjectId {

}

impl Generate for ProjectId {
    open spec fn generated(&self) -> bool {
        self@.len() == 22 && all_base58_chars(self@)
    }

    fn generate() -> (id: Option<Self>)
        ensures
            id is Some,
    {
        Some(Self { raw: FlatRawId::generate(22) })
    }
}

/// Project secret access token (globally unique).
///
/// Used by devices to connect to the project.
#[derive(PartialEq, Eq, Hash)]
pub struct ProjectToken {
    /// Raw id.
    raw: FlatRawId,
}

impl View for ProjectToken {
    type V = Seq<char>;

    closed spec fn view(&self) -> Seq<char> {
        self.raw@
    }
}

impl ProjectToken {
    /// Create an id from the provided raw id without checking its size.
    pub fn from_raw_unchecked(raw: RawId) -> (id: Self)
        ensures
            id@ == raw@,
    {
        Self { raw: FlatRawId::from_raw_unchecked(raw) }
    }

    /// Parse an id of this kind: `p_sk_` and a raw id of size 44.
    pub fn from_str(s: &str) -> (parsed: Result<Self, InvalidIdError>)
        ensures
            match tagged_refusal(
                s.spec_bytes(),
                "p_sk_".spec_bytes(),
                false,
                44,
                "invalid prefix (expected: `p_sk_`)"@,
                "invalid size of raw id (expected: 44)"@,
            ) {
                Some(reason) => parsed is Err && parsed->Err_0.reason_text() == reason,
                None => parsed is Ok && encode_utf8(parsed->Ok_0@) == s.spec_bytes().skip(
                    "p_sk_".spec_bytes().len() as int,
                ),
            },
    {
        match parse_tagged(
            s,
            "p_sk_",
            false,
            44,
            "invalid prefix (expected: `p_sk_`)",
            "invalid size of raw id (expected: 44)",
        ) {
            Ok(raw) => Ok(Self::from_raw_unchecked(raw)),
            Err(error) => Err(error),
        }
    }

    /// Make an id of the raw id, which must have the size of this kind.
    pub fn try_from(raw: FlatRawId) -> (id: Result<Self, InvalidIdError>)
        ensures
            byte_len(raw@) == 44 ==> id is Ok && id->Ok_0@ == raw@,
            byte_len(raw@) != 44 ==> id is Err && id->Err_0.reason_text()
                == "invalid size of raw id (expected: 44)"@,
    {
        if raw.as_str().as_bytes().len() == 44 {
            Ok(Self { raw })
        } else {
            Err(InvalidIdError::new("invalid size of raw id (expected: 44)"))
        }
    }

    /// The raw id.
    pub fn into_raw(self) -> (raw: FlatRawId)
        ensures
            raw@ == self@,
    {
        self.raw
    }

    /// The id as one of any kind.
    pub fn into_any(self) -> (any: AnyId)
        ensures
            any == AnyId::ProjectToken(self),
    {
        AnyId::ProjectToken(self)
    }

    /// The id as it is shown: the raw id is left out.
    pub fn to_string(&self) -> (text: String)
        ensures
            text@ == shown_text(Tag::ProjectToken, self@),
    {
        show_id(Tag::ProjectToken, self.raw.as_raw())
    }
}

impl Id for ProjectToken {
    open spec fn tag_of(&self) -> Tag {
        Tag::ProjectToken
    }

    open spec fn raw_of(&self) -> Seq<char> {
        self@
    }

    fn tag(&self) -> (tag: Tag) {
        Tag::ProjectToken
    }

    fn raw(&self) -> (raw: &RawId) {
        self.raw.as_raw()
    }

    fn stringify(&self) -> (text: String) {
        stringify_id(Tag::ProjectToken, self.raw.as_raw())
    }
}

impl ConcreteId for ProjectToken {
    type Type = FlatRawId;
}

impl SecretId for ProjectToken {

}

impl Generate for ProjectToken {
    open spec fn generated(&self) -> bool {
        self@.len() == 44 && all_base58_chars(self@)
    }

    fn generate() -> (id: Option<Self>)
        ensures
            id is Some,
    {
        Some(Self { raw: FlatRawId::generate(44) })
    }
}

/// Project access token id (globally unique).
///
/// The first 22 characters of the respective secret access token.
#[derive(Debug, PartialEq, Eq, Hash)]
pub struct ProjectTokenId {
    /// Raw id.
    raw: FlatRawId,
}

impl View for ProjectTokenId {
    type V = Seq<char>;

    closed spec fn view(&self) -> Seq<char> {
        self.raw@
    }
}

impl ProjectTokenId {
    /// Create an id from the provided raw id without checking its size.
    pub fn from_raw_unchecked(raw: RawId) -> (id: Self)
        ensures
            id@ == raw@,
    {
        Self { raw: FlatRawId::from_raw_unchecked(raw) }
    }

    /// Parse an id of this kind: `p_pk_` and a raw id of size 22.
    pub fn from_str(s: &str) -> (parsed: Result<Self, InvalidIdError>)
        ensures
            match tagged_refusal(
                s.spec_bytes(),
                "p_pk_".spec_bytes(),
                false,
                22,
                "invalid prefix (expected: `p_pk_`)"@,
                "invalid size of raw id (expected: 22)"@,
            ) {
                Some(reason) => parsed is Err && parsed->Err_0.reason_text() == reason,
                None => parsed is Ok && encode_utf8(parsed->Ok_0@) == s.spec_bytes().skip(
                    "p_pk_".spec_bytes().len() as int,
                ),
            },
    {
        match parse_tagged(
            s,
            "p_pk_",
            false,
            22,
            "invalid prefix (expected: `p_pk_`)",
            "invalid size of raw id (expected: 22)",
        ) {
            Ok(raw) => Ok(Self::from_raw_unchecked(raw)),
            Err(error) => Err(error),
        }
    }

    /// Make an id of the raw id, which must have the size of this kind.
    pub fn try_from(raw: FlatRawId) -> (id: Result<Self, InvalidIdError>)
        ensures
            byte_len(raw@) == 22 ==> id is Ok && id->Ok_0@ == raw@,
            byte_len(raw@) != 22 ==> id is Err && id->Err_0.reason_text()
                == "invalid size of raw id (expected: 22)"@,
    {
        if raw.as_str().as_bytes().len() == 22 {
            Ok(Self { raw })
        } else {
            Err(InvalidIdError::new("invalid size of raw id (expected: 22)"))
        }
    }

    /// The raw id.
    pub fn into_raw(self) -> (raw: FlatRawId)
        ensures
            raw@ == self@,
    {
        self.raw
    }

    /// The id as one of any kind.
    pub fn into_any(self) -> (any: AnyId)
        ensures
            any == AnyId::ProjectTokenId(self),
    {
        AnyId::ProjectTokenId(self)
    }

    /// The id as it is shown.
    pub fn to_string(&self) -> (text: String)
        ensures
            text@ == shown_text(Tag::ProjectTokenId, self@),
    {
        show_id(Tag::ProjectTokenId, self.raw.as_raw())
    }
}

impl Id for ProjectTokenId {
    open spec fn tag_of(&self) -> Tag {
        Tag::ProjectTokenId
    }

    open spec fn raw_of(&self) -> Seq<char> {
        self@
    }

    fn tag(&self) -> (tag: Tag) {
        Tag::ProjectTokenId
    }

    fn raw(&self) -> (raw: &RawId) {
        self.raw.as_raw()
    }

    fn stringify(&self) -> (text: String) {
        stringify_id(Tag::ProjectTokenId, self.raw.as_raw())
    }
}

impl ConcreteId for ProjectTokenId {
    type Type = FlatRawId;
}

impl PublicId for ProjectTokenId {

}

impl Generate for ProjectTokenId {
    open spec fn generated(&self) -> bool {
        self@.len() == 22 && all_base58_chars(self@)
    }

    fn generate() -> (id: Option<Self>)
        ensures
            id is Some,
    {
        Some(Self { raw: FlatRawId::generate(22) })
    }
}

/// Uniquely identifies an invitation to a project.
#[derive(Debug, PartialEq, Eq, Hash)]
pub struct ProjectInvitationId {
    /// Raw id.
    raw: FlatRawId,
}

impl View for ProjectInvitationId {
    type V = Seq<char>;

    closed spec fn view(&self) -> Seq<char> {
        self.raw@
    }
}

impl ProjectInvitationId {
    /// Create an id from the provided raw id without checking its size.
    pub fn from_raw_unchecked(raw: RawId) -> (id: Self)
        ensures
            id@ == raw@,
    {
        Self { raw: FlatRawId::from_raw_unchecked(raw) }
    }

    /// Parse an id of this kind: `p_invite_` and a raw id of size 22.
    pub fn from_str(s: &str) -> (parsed: Result<Self, InvalidIdError>)
        ensures
            match tagged_refusal(
                s.spec_bytes(),
                "p_invite_".spec_bytes(),
                false,
                22,
                "invalid prefix (expected: `p_invite_`)"@,
                "invalid size of raw id (expected: 22)"@,
            ) {
                Some(reason) => parsed is Err && parsed->Err_0.reason_text() == reason,
                None => parsed is Ok && encode_utf8(parsed->Ok_0@) == s.spec_bytes().skip(
                    "p_invite_".spec_bytes().len() as int,
                ),
            },
    {
        match parse_tagged(
            s,
            "p_invite_",
            false,
            22,
            "invalid prefix (expected: `p_invite_`)",
            "invalid size of raw id (expected: 22)",
        ) {
            Ok(raw) => Ok(Self::from_raw_unchecked(raw)),
            Err(error) => Err(error),
        }
    }

    /// Make an id of the raw id, which must have the size of this kind.
    pub fn try_from(raw: FlatRawId) -> (id: Result<Self, InvalidIdError>)
        ensures
            byte_len(raw@) == 22 ==> id is Ok && id->Ok_0@ == raw@,
            byte_len(raw@) != 22 ==> id is Err && id->Err_0.reason_text()
                == "invalid size of raw id (expected: 22)"@,
    {
        if raw.as_str().as_bytes().len() == 22 {
            Ok(Self { raw })
        } else {
            Err(InvalidIdError::new("invalid size of raw id (expected: 22)"))
        }
    }

    /// The raw id.
    pub fn into_raw(self) -> (raw: FlatRawId)
        ensures
            raw@ == self@,
    {
        self.raw
    }

    /// The id as one of any kind.
    pub fn into_any(self) -> (any: AnyId)
        ensures
            any == AnyId::ProjectInvitationId(self),
    {
        AnyId::ProjectInvitationId(self)
    }

    /// The id as it is shown.
    pub fn to_string(&self) -> (text: String)
        ensures
            text@ == shown_text(Tag::ProjectInvitationId, self@),
    {
        show_id(Tag::ProjectInvitationId, self.raw.as_raw())
    }
}

impl Id for ProjectInvitationId {
    open spec fn tag_of(&self) -> Tag {
        Tag::ProjectInvitationId
    }

    open spec fn raw_of(&self) -> Seq<char> {
        self@
    }

    fn tag(&self) -> (tag: Tag) {
        Tag::ProjectInvitationId
    }

    fn raw(&self) -> (raw: &RawId) {
        self.raw.as_raw()
    }

    fn stringify(&self) -> (text: String) {
        stringify_id(Tag::ProjectInvitationId, self.raw.as_raw())
    }
}

impl ConcreteId for ProjectInvitationId {
    type Type = FlatRawId;
}

impl PublicId for ProjectInvitationId {

}

impl Generate for ProjectInvitationId {
    open spec fn generated(&self) -> bool {
        self@.len() == 22 && all_base58_chars(self@)
    }

    fn generate() -> (id: Option<Self>)
        ensures
            id is Some,
    {
        Some(Self { raw: FlatRawId::generate(22) })
    }
}

/// Deployment token (globally unique).
///
/// Used by devices to connect to a project.
#[derive(PartialEq, Eq, Hash)]
pub struct DeploymentToken {
    /// Raw id.
    raw: FlatRawId,
}

impl View for DeploymentToken {
    type V = Seq<char>;

    closed spec fn view(&self) -> Seq<char> {
        self.raw@
    }
}

impl DeploymentToken {
    /// Create an id from the provided raw id without checking its size.
    pub fn from_raw_unchecked(raw: RawId) -> (id: Self)
        ensures
            id@ == raw@,
    {
        Self { raw: FlatRawId::from_raw_unchecked(raw) }
    }

    /// Parse an id of this kind: `deployment_` and a raw id of size 66.
    pub fn from_str(s: &str) -> (parsed: Result<Self, InvalidIdError>)
        ensures
            match tagged_refusal(
                s.spec_bytes(),
                "deployment_".spec_bytes(),
                false,
                66,
                "invalid prefix (expected: `deployment_`)"@,
                "invalid size of raw id (expected: 66)"@,
            ) {
                Some(reason) => parsed is Err && parsed->Err_0.reason_text() == reason,
                None => parsed is Ok && encode_utf8(parsed->Ok_0@) == s.spec_bytes().skip(
                    "deployment_".spec_bytes().len() as int,
                ),
            },
    {
        match parse_tagged(
            s,
            "deployment_",
            false,
            66,
            "invalid prefix (expected: `deployment_`)",
            "invalid size of raw id (expected: 66)",
        ) {
            Ok(raw) => Ok(Self::from_raw_unchecked(raw)),
            Err(error) => Err(error),
        }
    }

    /// Make an id of the raw id, which must have the size of this kind.
    pub fn try_from(raw: FlatRawId) -> (id: Result<Self, InvalidIdError>)
        ensures
            byte_len(raw@) == 66 ==> id is Ok && id->Ok_0@ == raw@,
            byte_len(raw@) != 66 ==> id is Err && id->Err_0.reason_text()
                == "invalid size of raw id (expected: 66)"@,
    {
        if raw.as_str().as_bytes().len() == 66 {
            Ok(Self { raw })
        } else {
            Err(InvalidIdError::new("invalid size of raw id (expected: 66)"))
        }
    }

    /// The raw id.
    pub fn into_raw(self) -> (raw: FlatRawId)
        ensures
            raw@ == self@,
    {
        self.raw
    }

    /// The id as one of any kind.
    pub fn into_any(self) -> (any: AnyId)
        ensures
            any == AnyId::DeploymentToken(self),
    {
        AnyId::DeploymentToken(self)
    }

    /// The id as it is shown: the raw id is left out.
    pub fn to_string(&self) -> (text: String)
        ensures
            text@ == shown_text(Tag::DeploymentToken, self@),
    {
        show_id(Tag::DeploymentToken, self.raw.as_raw())
    }
}

impl Id for DeploymentToken {
    open spec fn tag_of(&self) -> Tag {
        Tag::DeploymentToken
    }

    open spec fn raw_of(&self) -> Seq<char> {
        self@
    }

    fn tag(&self) -> (tag: Tag) {
        Tag::DeploymentToken
    }

    fn raw(&self) -> (raw: &RawId) {
        self.raw.as_raw()
    }

    fn stringify(&self) -> (text: String) {
        stringify_id(Tag::DeploymentToken, self.raw.as_raw())
    }
}

impl ConcreteId for DeploymentToken {
    type Type = FlatRawId;
}

impl SecretId for DeploymentToken {

}

impl Generate for DeploymentToken {
    open spec fn generated(&self) -> bool {
        self@.len() == 66 && all_base58_chars(self@)
    }

    fn generate() -> (id: Option<Self>)
        ensures
            id is Some,
    {
        Some(Self { raw: FlatRawId::generate(66) })
    }
}

/// Deployment token id (globally unique).
///
/// The first 22 characters of the respective deployment token.
#[derive(Debug, PartialEq, Eq, Hash)]
pub struct DeploymentTokenId {
    /// Raw id.
    raw: FlatRawId,
}

impl View for DeploymentTokenId {
    type V = Seq<char>;

    closed spec fn view(&self) -> Seq<char> {
        self.raw@
    }
}

impl DeploymentTokenId {
    /// Create an id from the provided raw id without checking its size.
    pub fn from_raw_unchecked(raw: RawId) -> (id: Self)
        ensures
            id@ == raw@,
    {
        Self { raw: FlatRawId::from_raw_unchecked(raw) }
    }

    /// Parse an id of this kind: `deployment_id_` and a raw id of size 22.
    pub fn from_str(s: &str) -> (parsed: Result<Self, InvalidIdError>)
        ensures
            match tagged_refusal(
                s.spec_bytes(),
                "deployment_id_".spec_bytes(),
                false,
                22,
                "invalid prefix (expected: `deployment_id_`)"@,
                "invalid size of raw id (expected: 22)"@,
            ) {
                Some(reason) => parsed is Err && parsed->Err_0.reason_text() == reason,
                None => parsed is Ok && encode_utf8(parsed->Ok_0@) == s.spec_bytes().skip(
                    "deployment_id_".spec_bytes().len() as int,
                ),
            },
    {
        match parse_tagged(
            s,
            "deployment_id_",
            false,
            22,
            "invalid prefix (expected: `deployment_id_`)",
            "invalid size of raw id (expected: 22)",
        ) {
            Ok(raw) => Ok(Self::from_raw_unchecked(raw)),
            Err(error) => Err(error),
        }
    }

    /// Make an id of the raw id, which must have the size of this kind.
    pub fn try_from(raw: FlatRawId) -> (id: Result<Self, InvalidIdError>)
        ensures
            byte_len(raw@) == 22 ==> id is Ok && id->Ok_0@ == raw@,
            byte_len(raw@) != 22 ==> id is Err && id->Err_0.reason_text()
                == "invalid size of raw id (expected: 22)"@,
    {
        if raw.as_str().as_bytes().len() == 22 {
            Ok(Self { raw })
        } else {
            Err(InvalidIdError::new("invalid size of raw id (expected: 22)"))
        }
    }

    /// The raw id.
    pub fn into_raw(self) -> (raw: FlatRawId)
        ensures
            raw@ == self@,
    {
        self.raw
    }

    /// The id as one of any kind.
    pub fn into_any(self) -> (any: AnyId)
        ensures
            any == AnyId::DeploymentTokenId(self),
    {
        AnyId::DeploymentTokenId(self)
    }

    /// The id as it is shown.
    pub fn to_string(&self) -> (text: String)
        ensures
            text@ == shown_text(Tag::DeploymentTokenId, self@),
    {
        show_id(Tag::DeploymentTokenId, self.raw.as_raw())
    }
}

impl Id for DeploymentTokenId {
    open spec fn tag_of(&self) -> Tag {
        Tag::DeploymentTokenId
    }

    open spec fn raw_of(&self) -> Seq<char> {
        self@
    }

    fn tag(&self) -> (tag: Tag) {
        Tag::DeploymentTokenId
    }

    fn raw(&self) -> (raw: &RawId) {
        self.raw.as_raw()
    }

    fn stringify(&self) -> (text: String) {
        stringify_id(Tag::DeploymentTokenId, self.raw.as_raw())
    }
}

impl ConcreteId for DeploymentTokenId {
    type Type = FlatRawId;
}

impl PublicId for DeploymentTokenId {

}

impl Generate for DeploymentTokenId {
    open spec fn generated(&self) -> bool {
        self@.len() == 22 && all_base58_chars(self@)
    }

    fn generate() -> (id: Option<Self>)
        ensures
            id is Some,
    {
        Some(Self { raw: FlatRawId::generate(22) })
    }
}

/// Device id (globally unique).
///
/// Uniquely identifies a device within the system.
#[derive(Debug, PartialEq, Eq, Hash)]
pub struct DeviceId {
    /// Raw id.
    raw: FlatRawId,
}

impl View for DeviceId {
    type V = Seq<char>;

    closed spec fn view(&self) -> Seq<char> {
        self.raw@
    }
}

impl DeviceId {
    /// Create an id from the provided raw id without checking its size.
    pub fn from_raw_unchecked(raw: RawId) -> (id: Self)
        ensures
            id@ == raw@,
    {
        Self { raw: FlatRawId::from_raw_unchecked(raw) }
    }

    /// Parse an id of this kind: `d_` and a raw id of size 22.
    pub fn from_str(s: &str) -> (parsed: Result<Self, InvalidIdError>)
        ensures
            match tagged_refusal(
                s.spec_bytes(),
                "d_".spec_bytes(),
                false,
                22,
                "invalid prefix (expected: `d_`)"@,
                "invalid size of raw id (expected: 22)"@,
            ) {
                Some(reason) => parsed is Err && parsed->Err_0.reason_text() == reason,
                None => parsed is Ok && encode_utf8(parsed->Ok_0@) == s.spec_bytes().skip(
                    "d_".spec_bytes().len() as int,
                ),
            },
    {
        match parse_tagged(
            s,
            "d_",
            false,
            22,
            "invalid prefix (expected: `d_`)",
            "invalid size of raw id (expected: 22)",
        ) {
            Ok(raw) => Ok(Self::from_raw_unchecked(raw)),
            Err(error) => Err(error),
        }
    }

    /// Make an id of the raw id, which must have the size of this kind.
    pub fn try_from(raw: FlatRawId) -> (id: Result<Self, InvalidIdError>)
        ensures
            byte_len(raw@) == 22 ==> id is Ok && id->Ok_0@ == raw@,
            byte_len(raw@) != 22 ==> id is Err && id->Err_0.reason_text()
                == "invalid size of raw id (expected: 22)"@,
    {
        if raw.as_str().as_bytes().len() == 22 {
            Ok(Self { raw })
        } else {
            Err(InvalidIdError::new("invalid size of raw id (expected: 22)"))
        }
    }

    /// The raw id.
    pub fn into_raw(self) -> (raw: FlatRawId)
        ensures
            raw@ == self@,
    {
        self.raw
    }

    /// The id as one of any kind.
    pub fn into_any(self) -> (any: AnyId)
        ensures
            any == AnyId::DeviceId(self),
    {
        AnyId::DeviceId(self)
    }

    /// The id as it is shown.
    pub fn to_string(&self) -> (text: String)
        ensures
            text@ == shown_text(Tag::DeviceId, self@),
    {
        show_id(Tag::DeviceId, self.raw.as_raw())
    }
}

impl Id for DeviceId {
    open spec fn tag_of(&self) -> Tag {
        Tag::DeviceId
    }

    open spec fn raw_of(&self) -> Seq<char> {
        self@
    }

    fn tag(&self) -> (tag: Tag) {
        Tag::DeviceId
    }

    fn raw(&self) -> (raw: &RawId) {
        self.raw.as_raw()
    }

    fn stringify(&self) -> (text: String) {
        stringify_id(Tag::DeviceId, self.raw.as_raw())
    }
}

impl ConcreteId for DeviceId {
    type Type = FlatRawId;
}

impl PublicId for DeviceId {

}

impl Generate for DeviceId {
    open spec fn generated(&self) -> bool {
        self@.len() == 22 && all_base58_chars(self@)
    }

    fn generate() -> (id: Option<Self>)
        ensures
            id is Some,
    {
        Some(Self { raw: FlatRawId::generate(22) })
    }
}

/// Device fingerprint (unique per project).
///
/// Generated by the device as a unique identifier for itself.
///
/// Used for authenticating the device together with a project token.
#[derive(PartialEq, Eq, Hash)]
pub struct DeviceFingerprint {
    /// Raw id.
    raw: FlatRawId,
}

impl View for DeviceFingerprint {
    type V = Seq<char>;

    closed spec fn view(&self) -> Seq<char> {
        self.raw@
    }
}

impl DeviceFingerprint {
    /// Create an id from the provided raw id without checking its size.
    pub fn from_raw_unchecked(raw: RawId) -> (id: Self)
        ensures
            id@ == raw@,
    {
        Self { raw: FlatRawId::from_raw_unchecked(raw) }
    }

    /// Parse an id of this kind: `d_sk_` and a raw id of size 44.
    pub fn from_str(s: &str) -> (parsed: Result<Self, InvalidIdError>)
        ensures
            match tagged_refusal(
                s.spec_bytes(),
                "d_sk_".spec_bytes(),
                false,
                44,
                "invalid prefix (expected: `d_sk_`)"@,
                "invalid size of raw id (expected: 44)"@,
            ) {
                Some(reason) => parsed is Err && parsed->Err_0.reason_text() == reason,
                None => parsed is Ok && encode_utf8(parsed->Ok_0@) == s.spec_bytes().skip(
                    "d_sk_".spec_bytes().len() as int,
                ),
            },
    {
        match parse_tagged(
            s,
            "d_sk_",
            false,
            44,
            "invalid prefix (expected: `d_sk_`)",
            "invalid size of raw id (expected: 44)",
        ) {
            Ok(raw) => Ok(Self::from_raw_unchecked(raw)),
            Err(error) => Err(error),
        }
    }

    /// Make an id of the raw id, which must have the size of this kind.
    pub fn try_from(raw: FlatRawId) -> (id: Result<Self, InvalidIdError>)
        ensures
            byte_len(raw@) == 44 ==> id is Ok && id->Ok_0@ == raw@,
            byte_len(raw@) != 44 ==> id is Err && id->Err_0.reason_text()
                == "invalid size of raw id (expected: 44)"@,
    {
        if raw.as_str().as_bytes().len() == 44 {
            Ok(Self { raw })
        } else {
            Err(InvalidIdError::new("invalid size of raw id (expected: 44)"))
        }
    }

    /// The raw id.
    pub fn into_raw(self) -> (raw: FlatRawId)
        ensures
            raw@ == self@,
    {
        self.raw
    }

    /// The id as one of any kind.
    pub fn into_any(self) -> (any: AnyId)
        ensures
            any == AnyId::DeviceFingerprint(self),
    {
        AnyId::DeviceFingerprint(self)
    }

    /// The id as it is shown: the raw id is left out.
    pub fn to_string(&self) -> (text: String)
        ensures
            text@ == shown_text(Tag::DeviceFingerprint, self@),
    {
        show_id(Tag::DeviceFingerprint, self.raw.as_raw())
    }
}

impl Id for DeviceFingerprint {
    open spec fn tag_of(&self) -> Tag {
        Tag::DeviceFingerprint
    }

    open spec fn raw_of(&self) -> Seq<char> {
        self@
    }

    fn tag(&self) -> (tag: Tag) {
        Tag::DeviceFingerprint
    }

    fn raw(&self) -> (raw: &RawId) {
        self.raw.as_raw()
    }

    fn stringify(&self) -> (text: String) {
        stringify_id(Tag::DeviceFingerprint, self.raw.as_raw())
    }
}

impl ConcreteId for DeviceFingerprint {
    type Type = FlatRawId;
}

impl SecretId for DeviceFingerprint {

}

impl Generate for DeviceFingerprint {
    open spec fn generated(&self) -> bool {
        self@.len() == 44 && all_base58_chars(self@)
    }

    fn generate() -> (id: Option<Self>)
        ensures
            id is Some,
    {
        Some(Self { raw: FlatRawId::generate(44) })
    }
}

/// Device fingerprint id (unique per project).
#[derive(Debug, PartialEq, Eq, Hash)]
pub struct DeviceFingerprintId {
    /// Raw id.
    raw: FlatRawId,
}

impl View for DeviceFingerprintId {
    type V = Seq<char>;

    closed spec fn view(&self) -> Seq<char> {
        self.raw@
    }
}

impl DeviceFingerprintId {
    /// Create an id from the provided raw id without checking its size.
    pub fn from_raw_unchecked(raw: RawId) -> (id: Self)
        ensures
            id@ == raw@,
    {
        Self { raw: FlatRawId::from_raw_unchecked(raw) }
    }

    /// Parse an id of this kind: `d_pk_` and a raw id of size 22.
    pub fn from_str(s: &str) -> (parsed: Result<Self, InvalidIdError>)
        ensures
            match tagged_refusal(
                s.spec_bytes(),
                "d_pk_".spec_bytes(),
                false,
                22,
                "invalid prefix (expected: `d_pk_`)"@,
                "invalid size of raw id (expected: 22)"@,
            ) {
                Some(reason) => parsed is Err && parsed->Err_0.reason_text() == reason,
                None => parsed is Ok && encode_utf8(parsed->Ok_0@) == s.spec_bytes().skip(
                    "d_pk_".spec_bytes().len() as int,
                ),
            },
    {
        match parse_tagged(
            s,
            "d_pk_",
            false,
            22,
            "invalid prefix (expected: `d_pk_`)",
            "invalid size of raw id (expected: 22)",
        ) {
            Ok(raw) => Ok(Self::from_raw_unchecked(raw)),
            Err(error) => Err(error),
        }
    }

    /// Make an id of the raw id, which must have the size of this kind.
    pub fn try_from(raw: FlatRawId) -> (id: Result<Self, InvalidIdError>)
        ensures
            byte_len(raw@) == 22 ==> id is Ok && id->Ok_0@ == raw@,
            byte_len(raw@) != 22 ==> id is Err && id->Err_0.reason_text()
                == "invalid size of raw id (expected: 22)"@,
    {
        if raw.as_str().as_bytes().len() == 22 {
            Ok(Self { raw })
        } else {
            Err(InvalidIdError::new("invalid size of raw id (expected: 22)"))
        }
    }

    /// The raw id.
    pub fn into_raw(self) -> (raw: FlatRawId)
        ensures
            raw@ == self@,
    {
        self.raw
    }

    /// The id as one of any kind.
    pub fn into_any(self) -> (any: AnyId)
        ensures
            any == AnyId::DeviceFingerprintId(self),
    {
        AnyId::DeviceFingerprintId(self)
    }

    /// The id as it is shown.
    pub fn to_string(&self) -> (text: String)
        ensures
            text@ == shown_text(Tag::DeviceFingerprintId, self@),
    {
        show_id(Tag::DeviceFingerprintId, self.raw.as_raw())
    }
}

impl Id for DeviceFingerprintId {
    open spec fn tag_of(&self) -> Tag {
        Tag::DeviceFingerprintId
    }

    open spec fn raw_of(&self) -> Seq<char> {
        self@
    }

    fn tag(&self) -> (tag: Tag) {
        Tag::DeviceFingerprintId
    }

    fn raw(&self) -> (raw: &RawId) {
        self.raw.as_raw()
    }

    fn stringify(&self) -> (text: String) {
        stringify_id(Tag::DeviceFingerprintId, self.raw.as_raw())
    }
}

impl ConcreteId for DeviceFingerprintId {
    type Type = FlatRawId;
}

impl PublicId for DeviceFingerprintId {

}

impl Generate for DeviceFingerprintId {
    open spec fn generated(&self) -> bool {
        self@.len() == 22 && all_base58_chars(self@)
    }

    fn generate() -> (id: Option<Self>)
        ensures
            id is Some,
    {
        Some(Self { raw: FlatRawId::generate(22) })
    }
}

/// Device certificate id (globally unique).
#[derive(Debug, PartialEq, Eq, Hash)]
pub struct DeviceCertificateId {
    /// Raw id.
    raw: FlatRawId,
}

impl View for DeviceCertificateId {
    type V = Seq<char>;

    closed spec fn view(&self) -> Seq<char> {
        self.raw@
    }
}

impl DeviceCertificateId {
    /// Create an id from the provided raw id without checking its size.
    pub fn from_raw_unchecked(raw: RawId) -> (id: Self)
        ensures
            id@ == raw@,
    {
        Self { raw: FlatRawId::from_raw_unchecked(raw) }
    }

    /// Parse an id of this kind: `d_c_` and a raw id of size 22.
    pub fn from_str(s: &str) -> (parsed: Result<Self, InvalidIdError>)
        ensures
            match tagged_refusal(
                s.spec_bytes(),
                "d_c_".spec_bytes(),
                false,
                22,
                "invalid prefix (expected: `d_c_`)"@,
                "invalid size of raw id (expected: 22)"@,
            ) {
                Some(reason) => parsed is Err && parsed->Err_0.reason_text() == reason,
                None => parsed is Ok && encode_utf8(parsed->Ok_0@) == s.spec_bytes().skip(
                    "d_c_".spec_bytes().len() as int,
                ),
            },
    {
        match parse_tagged(
            s,
            "d_c_",
            false,
            22,
            "invalid prefix (expected: `d_c_`)",
            "invalid size of raw id (expected: 22)",
        ) {
            Ok(raw) => Ok(Self::from_raw_unchecked(raw)),
            Err(error) => Err(error),
        }
    }

    /// Make an id of the raw id, which must have the size of this kind.
    pub fn try_from(raw: FlatRawId) -> (id: Result<Self, InvalidIdError>)
        ensures
            byte_len(raw@) == 22 ==> id is Ok && id->Ok_0@ == raw@,
            byte_len(raw@) != 22 ==> id is Err && id->Err_0.reason_text()
                == "invalid size of raw id (expected: 22)"@,
    {
        if raw.as_str().as_bytes().len() == 22 {
            Ok(Self { raw })
        } else {
            Err(InvalidIdError::new("invalid size of raw id (expected: 22)"))
        }
    }

    /// The raw id.
    pub fn into_raw(self) -> (raw: FlatRawId)
        ensures
            raw@ == self@,
    {
        self.raw
    }

    /// The id as one of any kind.
    pub fn into_any(self) -> (any: AnyId)
        ensures
            any == AnyId::DeviceCertificateId(self),
    {
        AnyId::DeviceCertificateId(self)
    }

    /// The id as it is shown.
    pub fn to_string(&self) -> (text: String)
        ensures
            text@ == shown_text(Tag::DeviceCertificateId, self@),
    {
        show_id(Tag::DeviceCertificateId, self.raw.as_raw())
    }
}

impl Id for DeviceCertificateId {
    open spec fn tag_of(&self) -> Tag {
        Tag::DeviceCertificateId
    }

    open spec fn raw_of(&self) -> Seq<char> {
        self@
    }

    fn tag(&self) -> (tag: Tag) {
        Tag::DeviceCertificateId
    }

    fn raw(&self) -> (raw: &RawId) {
        self.raw.as_raw()
    }

    fn stringify(&self) -> (text: String) {
        stringify_id(Tag::DeviceCertificateId, self.raw.as_raw())
    }
}

impl ConcreteId for DeviceCertificateId {
    type Type = FlatRawId;
}

impl PublicId for DeviceCertificateId {

}

impl Generate for DeviceCertificateId {
    open spec fn generated(&self) -> bool {
        self@.len() == 22 && all_base58_chars(self@)
    }

    fn generate() -> (id: Option<Self>)
        ensures
            id is Some,
    {
        Some(Self { raw: FlatRawId::generate(22) })
    }
}

/// Device connection id (globally unique).
#[derive(Debug, PartialEq, Eq, Hash)]
pub struct DeviceConnectionId {
    /// Raw id.
    raw: FlatRawId,
}

impl View for DeviceConnectionId {
    type V = Seq<char>;

    closed spec fn view(&self) -> Seq<char> {
        self.raw@
    }
}

impl DeviceConnectionId {
    /// Create an id from the provided raw id without checking its size.
    pub fn from_raw_unchecked(raw: RawId) -> (id: Self)
        ensures
            id@ == raw@,
    {
        Self { raw: FlatRawId::from_raw_unchecked(raw) }
    }

    /// Parse an id of this kind: `d_conn_` and a raw id of size 22.
    pub fn from_str(s: &str) -> (parsed: Result<Self, InvalidIdError>)
        ensures
            match tagged_refusal(
                s.spec_bytes(),
                "d_conn_".spec_bytes(),
                false,
                22,
                "invalid prefix (expected: `d_conn_`)"@,
                "invalid size of raw id (expected: 22)"@,
            ) {
                Some(reason) => parsed is Err && parsed->Err_0.reason_text() == reason,
                None => parsed is Ok && encode_utf8(parsed->Ok_0@) == s.spec_bytes().skip(
                    "d_conn_".spec_bytes().len() as int,
                ),
            },
    {
        match parse_tagged(
            s,
            "d_conn_",
            false,
            22,
            "invalid prefix (expected: `d_conn_`)",
            "invalid size of raw id (expected: 22)",
        ) {
            Ok(raw) => Ok(Self::from_raw_unchecked(raw)),
            Err(error) => Err(error),
        }
    }

    /// Make an id of the raw id, which must have the size of this kind.
    pub fn try_from(raw: FlatRawId) -> (id: Result<Self, InvalidIdError>)
        ensures
            byte_len(raw@) == 22 ==> id is Ok && id->Ok_0@ == raw@,
            byte_len(raw@) != 22 ==> id is Err && id->Err_0.reason_text()
                == "invalid size of raw id (expected: 22)"@,
    {
        if raw.as_str().as_bytes().len() == 22 {
            Ok(Self { raw })
        } else {
            Err(InvalidIdError::new("invalid size of raw id (expected: 22)"))
        }
    }

    /// The raw id.
    pub fn into_raw(self) -> (raw: FlatRawId)
        ensures
            raw@ == self@,
    {
        self.raw
    }

    /// The id as one of any kind.
    pub fn into_any(self) -> (any: AnyId)
        ensures
            any == AnyId::DeviceConnectionId(self),
    {
        AnyId::DeviceConnectionId(self)
    }

    /// The id as it is shown.
    pub fn to_string(&self) -> (text: String)
        ensures
            text@ == shown_text(Tag::DeviceConnectionId, self@),
    {
        show_id(Tag::DeviceConnectionId, self.raw.as_raw())
    }
}

impl Id for DeviceConnectionId {
    open spec fn tag_of(&self) -> Tag {
        Tag::DeviceConnectionId
    }

    open spec fn raw_of(&self) -> Seq<char> {
        self@
    }

    fn tag(&self) -> (tag: Tag) {
        Tag::DeviceConnectionId
    }

    fn raw(&self) -> (raw: &RawId) {
        self.raw.as_raw()
    }

    fn stringify(&self) -> (text: String) {
        stringify_id(Tag::DeviceConnectionId, self.raw.as_raw())
    }
}

impl ConcreteId for DeviceConnectionId {
    type Type = FlatRawId;
}

impl PublicId for DeviceConnectionId {

}

impl Generate for DeviceConnectionId {
    open spec fn generated(&self) -> bool {
        self@.len() == 22 && all_base58_chars(self@)
    }

    fn generate() -> (id: Option<Self>)
        ensures
            id is Some,
    {
        Some(Self { raw: FlatRawId::generate(22) })
    }
}

/// Device event id (unique per device).
#[derive(Debug, PartialEq, Eq, Hash)]
pub struct DeviceEventId {
    /// Raw id.
    raw: DatedRawId,
}

impl View for DeviceEventId {
    type V = Seq<char>;

    closed spec fn view(&self) -> Seq<char> {
        self.raw@
    }
}

impl DeviceEventId {
    /// Create an id from the provided raw id without checking its size.
    pub fn from_raw_unchecked(raw: RawId) -> (id: Self)
        ensures
            id@ == raw@,
    {
        Self { raw: DatedRawId::from_raw_unchecked(raw) }
    }

    /// Parse an id of this kind: `d_ev_` and a raw id of size 22.
    pub fn from_str(s: &str) -> (parsed: Result<Self, InvalidIdError>)
        ensures
            match tagged_refusal(
                s.spec_bytes(),
                "d_ev_".spec_bytes(),
                true,
                22,
                "invalid prefix (expected: `d_ev_`)"@,
                "invalid size of raw id (expected: 22)"@,
            ) {
                Some(reason) => parsed is Err && parsed->Err_0.reason_text() == reason,
                None => parsed is Ok && encode_utf8(parsed->Ok_0@) == s.spec_bytes().skip(
                    "d_ev_".spec_bytes().len() as int,
                ),
            },
    {
        match parse_tagged(
            s,
            "d_ev_",
            true,
            22,
            "invalid prefix (expected: `d_ev_`)",
            "invalid size of raw id (expected: 22)",
        ) {
            Ok(raw) => Ok(Self::from_raw_unchecked(raw)),
            Err(error) => Err(error),
        }
    }

    /// Make an id of the raw id, which must have the size of this kind.
    pub fn try_from(raw: DatedRawId) -> (id: Result<Self, InvalidIdError>)
        ensures
            byte_len(raw@) == 22 ==> id is Ok && id->Ok_0@ == raw@,
            byte_len(raw@) != 22 ==> id is Err && id->Err_0.reason_text()
                == "invalid size of raw id (expected: 22)"@,
    {
        if raw.as_str().as_bytes().len() == 22 {
            Ok(Self { raw })
        } else {
            Err(InvalidIdError::new("invalid size of raw id (expected: 22)"))
        }
    }

    /// The raw id.
    pub fn into_raw(self) -> (raw: DatedRawId)
        ensures
            raw@ == self@,
    {
        self.raw
    }

    /// The id as one of any kind.
    pub fn into_any(self) -> (any: AnyId)
        ensures
            any == AnyId::DeviceEventId(self),
    {
        AnyId::DeviceEventId(self)
    }

    /// The id as it is shown.
    pub fn to_string(&self) -> (text: String)
        ensures
            text@ == shown_text(Tag::DeviceEventId, self@),
    {
        show_id(Tag::DeviceEventId, self.raw.as_raw())
    }
}

impl Id for DeviceEventId {
    open spec fn tag_of(&self) -> Tag {
        Tag::DeviceEventId
    }

    open spec fn raw_of(&self) -> Seq<char> {
        self@
    }

    fn tag(&self) -> (tag: Tag) {
        Tag::DeviceEventId
    }

    fn raw(&self) -> (raw: &RawId) {
        self.raw.as_raw()
    }

    fn stringify(&self) -> (text: String) {
        stringify_id(Tag::DeviceEventId, self.raw.as_raw())
    }
}

impl ConcreteId for DeviceEventId {
    type Type = DatedRawId;
}

impl PublicId for DeviceEventId {

}

impl Generate for DeviceEventId {
    open spec fn generated(&self) -> bool {
        is_generated_to(self@, 22)
    }

    fn generate() -> (id: Option<Self>)
    {
        match DatedRawId::generate(22) {
            Some(raw) => Some(Self { raw }),
            None => None,
        }
    }
}

/// Repository id (globally unique).
#[derive(Debug, PartialEq, Eq, Hash)]
pub struct RepositoryId {
    /// Raw id.
    raw: FlatRawId,
}

impl View for RepositoryId {
    type V = Seq<char>;

    closed spec fn view(&self) -> Seq<char> {
        self.raw@
    }
}

impl RepositoryId {
    /// Create an id from the provided raw id without checking its size.
    pub fn from_raw_unchecked(raw: RawId) -> (id: Self)
        ensures
            id@ == raw@,
    {
        Self { raw: FlatRawId::from_raw_unchecked(raw) }
    }

    /// Parse an id of this kind: `repo_` and a raw id of size 22.
    pub fn from_str(s: &str) -> (parsed: Result<Self, InvalidIdError>)
        ensures
            match tagged_refusal(
                s.spec_bytes(),
                "repo_".spec_bytes(),
                false,
                22,
                "invalid prefix (expected: `repo_`)"@,
                "invalid size of raw id (expected: 22)"@,
            ) {
                Some(reason) => parsed is Err && parsed->Err_0.reason_text() == reason,
                None => parsed is Ok && encode_utf8(parsed->Ok_0@) == s.spec_bytes().skip(
                    "repo_".spec_bytes().len() as int,
                ),
            },
    {
        match parse_tagged(
            s,
            "repo_",
            false,
            22,
            "invalid prefix (expected: `repo_`)",
            "invalid size of raw id (expected: 22)",
        ) {
            Ok(raw) => Ok(Self::from_raw_unchecked(raw)),
            Err(error) => Err(error),
        }
    }

    /// Make an id of the raw id, which must have the size of this kind.
    pub fn try_from(raw: FlatRawId) -> (id: Result<Self, InvalidIdError>)
        ensures
            byte_len(raw@) == 22 ==> id is Ok && id->Ok_0@ == raw@,
            byte_len(raw@) != 22 ==> id is Err && id->Err_0.reason_text()
                == "invalid size of raw id (expected: 22)"@,
    {
        if raw.as_str().as_bytes().len() == 22 {
            Ok(Self { raw })
        } else {
            Err(InvalidIdError::new("invalid size of raw id (expected: 22)"))
        }
    }

    /// The raw id.
    pub fn into_raw(self) -> (raw: FlatRawId)
        ensures
            raw@ == self@,
    {
        self.raw
    }

    /// The id as one of any kind.
    pub fn into_any(self) -> (any: AnyId)
        ensures
            any == AnyId::RepositoryId(self),
    {
        AnyId::RepositoryId(self)
    }

    /// The id as it is shown.
    pub fn to_string(&self) -> (text: String)
        ensures
            text@ == shown_text(Tag::RepositoryId, self@),
    {
        show_id(Tag::RepositoryId, self.raw.as_raw())
    }
}

impl Id for RepositoryId {
    open spec fn tag_of(&self) -> Tag {
        Tag::RepositoryId
    }

    open spec fn raw_of(&self) -> Seq<char> {
        self@
    }

    fn tag(&self) -> (tag: Tag) {
        Tag::RepositoryId
    }

    fn raw(&self) -> (raw: &RawId) {
        self.raw.as_raw()
    }

    fn stringify(&self) -> (text: String) {
        stringify_id(Tag::RepositoryId, self.raw.as_raw())
    }
}

impl ConcreteId for RepositoryId {
    type Type = FlatRawId;
}

impl PublicId for RepositoryId {

}

impl Generate for RepositoryId {
    open spec fn generated(&self) -> bool {
        self@.len() == 22 && all_base58_chars(self@)
    }

    fn generate() -> (id: Option<Self>)
        ensures
            id is Some,
    {
        Some(Self { raw: FlatRawId::generate(22) })
    }
}

/// Repository asset id (globally unique).
#[derive(Debug, PartialEq, Eq, Hash)]
pub struct RepositoryAssetId {
    /// Raw id.
    raw: FlatRawId,
}

impl View for RepositoryAssetId {
    type V = Seq<char>;

    closed spec fn view(&self) -> Seq<char> {
        self.raw@
    }
}

impl RepositoryAssetId {
    /// Create an id from the provided raw id without checking its size.
    pub fn from_raw_unchecked(raw: RawId) -> (id: Self)
        ensures
            id@ == raw@,
    {
        Self { raw: FlatRawId::from_raw_unchecked(raw) }
    }

    /// Parse an id of this kind: `repo_a_` and a raw id of size 22.
    pub fn from_str(s: &str) -> (parsed: Result<Self, InvalidIdError>)
        ensures
            match tagged_refusal(
                s.spec_bytes(),
                "repo_a_".spec_bytes(),
                false,
                22,
                "invalid prefix (expected: `repo_a_`)"@,
                "invalid size of raw id (expected: 22)"@,
            ) {
                Some(reason) => parsed is Err && parsed->Err_0.reason_text() == reason,
                None => parsed is Ok && encode_utf8(parsed->Ok_0@) == s.spec_bytes().skip(
                    "repo_a_".spec_bytes().len() as int,
                ),
            },
    {
        match parse_tagged(
            s,
            "repo_a_",
            false,
            22,
            "invalid prefix (expected: `repo_a_`)",
            "invalid size of raw id (expected: 22)",
        ) {
            Ok(raw) => Ok(Self::from_raw_unchecked(raw)),
            Err(error) => Err(error),
        }
    }

    /// Make an id of the raw id, which must have the size of this kind.
    pub fn try_from(raw: FlatRawId) -> (id: Result<Self, InvalidIdError>)
        ensures
            byte_len(raw@) == 22 ==> id is Ok && id->Ok_0@ == raw@,
            byte_len(raw@) != 22 ==> id is Err && id->Err_0.reason_text()
                == "invalid size of raw id (expected: 22)"@,
    {
        if raw.as_str().as_bytes().len() == 22 {
            Ok(Self { raw })
        } else {
            Err(InvalidIdError::new("invalid size of raw id (expected: 22)"))
        }
    }

    /// The raw id.
    pub fn into_raw(self) -> (raw: FlatRawId)
        ensures
            raw@ == self@,
    {
        self.raw
    }

    /// The id as one of any kind.
    pub fn into_any(self) -> (any: AnyId)
        ensures
            any == AnyId::RepositoryAssetId(self),
    {
        AnyId::RepositoryAssetId(self)
    }

    /// The id as it is shown.
    pub fn to_string(&self) -> (text: String)
        ensures
            text@ == shown_text(Tag::RepositoryAssetId, self@),
    {
        show_id(Tag::RepositoryAssetId, self.raw.as_raw())
    }
}

impl Id for RepositoryAssetId {
    open spec fn tag_of(&self) -> Tag {
        Tag::RepositoryAssetId
    }

    open spec fn raw_of(&self) -> Seq<char> {
        self@
    }

    fn tag(&self) -> (tag: Tag) {
        Tag::RepositoryAssetId
    }

    fn raw(&self) -> (raw: &RawId) {
        self.raw.as_raw()
    }

    fn stringify(&self) -> (text: String) {
        stringify_id(Tag::RepositoryAssetId, self.raw.as_raw())
    }
}

impl ConcreteId for RepositoryAssetId {
    type Type = FlatRawId;
}

impl PublicId for RepositoryAssetId {

}

impl Generate for RepositoryAssetId {
    open spec fn generated(&self) -> bool {
        self@.len() == 22 && all_base58_chars(self@)
    }

    fn generate() -> (id: Option<Self>)
        ensures
            id is Some,
    {
        Some(Self { raw: FlatRawId::generate(22) })
    }
}

/// Uniquely identifies an invitation to a repository.
#[derive(Debug, PartialEq, Eq, Hash)]
pub struct RepositoryInvitationId {
    /// Raw id.
    raw: FlatRawId,
}

impl View for RepositoryInvitationId {
    type V = Seq<char>;

    closed spec fn view(&self) -> Seq<char> {
        self.raw@
    }
}

impl RepositoryInvitationId {
    /// Create an id from the provided raw id without checking its size.
    pub fn from_raw_unchecked(raw: RawId) -> (id: Self)
        ensures
            id@ == raw@,
    {
        Self { raw: FlatRawId::from_raw_unchecked(raw) }
    }

    /// Parse an id of this kind: `repo_invite_` and a raw id of size 22.
    pub fn from_str(s: &str) -> (parsed: Result<Self, InvalidIdError>)
        ensures
            match tagged_refusal(
                s.spec_bytes(),
                "repo_invite_".spec_bytes(),
                false,
                22,
                "invalid prefix (expected: `repo_invite_`)"@,
                "invalid size of raw id (expected: 22)"@,
            ) {
                Some(reason) => parsed is Err && parsed->Err_0.reason_text() == reason,
                None => parsed is Ok && encode_utf8(parsed->Ok_0@) == s.spec_bytes().skip(
                    "repo_invite_".spec_bytes().len() as int,
                ),
            },
    {
        match parse_tagged(
            s,
            "repo_invite_",
            false,
            22,
            "invalid prefix (expected: `repo_invite_`)",
            "invalid size of raw id (expected: 22)",
        ) {
            Ok(raw) => Ok(Self::from_raw_unchecked(raw)),
            Err(error) => Err(error),
        }
    }

    /// Make an id of the raw id, which must have the size of this kind.
    pub fn try_from(raw: FlatRawId) -> (id: Result<Self, InvalidIdError>)
        ensures
            byte_len(raw@) == 22 ==> id is Ok && id->Ok_0@ == raw@,
            byte_len(raw@) != 22 ==> id is Err && id->Err_0.reason_text()
                == "invalid size of raw id (expected: 22)"@,
    {
        if raw.as_str().as_bytes().len() == 22 {
            Ok(Self { raw })
        } else {
            Err(InvalidIdError::new("invalid size of raw id (expected: 22)"))
        }
    }

    /// The raw id.
    pub fn into_raw(self) -> (raw: FlatRawId)
        ensures
            raw@ == self@,
    {
        self.raw
    }

    /// The id as one of any kind.
    pub fn into_any(self) -> (any: AnyId)
        ensures
            any == AnyId::RepositoryInvitationId(self),
    {
        AnyId::RepositoryInvitationId(self)
    }

    /// The id as it is shown.
    pub fn to_string(&self) -> (text: String)
        ensures
            text@ == shown_text(Tag::RepositoryInvitationId, self@),
    {
        show_id(Tag::RepositoryInvitationId, self.raw.as_raw())
    }
}

impl Id for RepositoryInvitationId {
    open spec fn tag_of(&self) -> Tag {
        Tag::RepositoryInvitationId
    }

    open spec fn raw_of(&self) -> Seq<char> {
        self@
    }

    fn tag(&self) -> (tag: Tag) {
        Tag::RepositoryInvitationId
    }

    fn raw(&self) -> (raw: &RawId) {
        self.raw.as_raw()
    }

    fn stringify(&self) -> (text: String) {
        stringify_id(Tag::RepositoryInvitationId, self.raw.as_raw())
    }
}

impl ConcreteId for RepositoryInvitationId {
    type Type = FlatRawId;
}

impl PublicId for RepositoryInvitationId {

}

impl Generate for RepositoryInvitationId {
    open spec fn generated(&self) -> bool {
        self@.len() == 22 && all_base58_chars(self@)
    }

    fn generate() -> (id: Option<Self>)
        ensures
            id is Some,
    {
        Some(Self { raw: FlatRawId::generate(22) })
    }
}

/// Package id (globally unique).
#[derive(Debug, PartialEq, Eq, Hash)]
pub struct PackageId {
    /// Raw id.
    raw: FlatRawId,
}

impl View for PackageId {
    type V = Seq<char>;

    closed spec fn view(&self) -> Seq<char> {
        self.raw@
    }
}

impl PackageId {
    /// Create an id from the provided raw id without checking its size.
    pub fn from_raw_unchecked(raw: RawId) -> (id: Self)
        ensures
            id@ == raw@,
    {
        Self { raw: FlatRawId::from_raw_unchecked(raw) }
    }

    /// Parse an id of this kind: `pkg_` and a raw id of size 22.
    pub fn from_str(s: &str) -> (parsed: Result<Self, InvalidIdError>)
        ensures
            match tagged_refusal(
                s.spec_bytes(),
                "pkg_".spec_bytes(),
                false,
                22,
                "invalid prefix (expected: `pkg_`)"@,
                "invalid size of raw id (expected: 22)"@,
            ) {
                Some(reason) => parsed is Err && parsed->Err_0.reason_text() == reason,
                None => parsed is Ok && encode_utf8(parsed->Ok_0@) == s.spec_bytes().skip(
                    "pkg_".spec_bytes().len() as int,
                ),
            },
    {
        match parse_tagged(
            s,
            "pkg_",
            false,
            22,
            "invalid prefix (expected: `pkg_`)",
            "invalid size of raw id (expected: 22)",
        ) {
            Ok(raw) => Ok(Self::from_raw_unchecked(raw)),
            Err(error) => Err(error),
        }
    }

    /// Make an id of the raw id, which must have the size of this kind.
    pub fn try_from(raw: FlatRawId) -> (id: Result<Self, InvalidIdError>)
        ensures
            byte_len(raw@) == 22 ==> id is Ok && id->Ok_0@ == raw@,
            byte_len(raw@) != 22 ==> id is Err && id->Err_0.reason_text()
                == "invalid size of raw id (expected: 22)"@,
    {
        if raw.as_str().as_bytes().len() == 22 {
            Ok(Self { raw })
        } else {
            Err(InvalidIdError::new("invalid size of raw id (expected: 22)"))
        }
    }

    /// The raw id.
    pub fn into_raw(self) -> (raw: FlatRawId)
        ensures
            raw@ == self@,
    {
        self.raw
    }

    /// The id as one of any kind.
    pub fn into_any(self) -> (any: AnyId)
        ensures
            any == AnyId::PackageId(self),
    {
        AnyId::PackageId(self)
    }

    /// The id as it is shown.
    pub fn to_string(&self) -> (text: String)
        ensures
            text@ == shown_text(Tag::PackageId, self@),
    {
        show_id(Tag::PackageId, self.raw.as_raw())
    }
}

impl Id for PackageId {
    open spec fn tag_of(&self) -> Tag {
        Tag::PackageId
    }

    open spec fn raw_of(&self) -> Seq<char> {
        self@
    }

    fn tag(&self) -> (tag: Tag) {
        Tag::PackageId
    }

    fn raw(&self) -> (raw: &RawId) {
        self.raw.as_raw()
    }

    fn stringify(&self) -> (text: String) {
        stringify_id(Tag::PackageId, self.raw.as_raw())
    }
}

impl ConcreteId for PackageId {
    type Type = FlatRawId;
}

impl PublicId for PackageId {

}

impl Generate for PackageId {
    open spec fn generated(&self) -> bool {
        self@.len() == 22 && all_base58_chars(self@)
    }

    fn generate() -> (id: Option<Self>)
        ensures
            id is Some,
    {
        Some(Self { raw: FlatRawId::generate(22) })
    }
}

/// Package version id (globally unique).
#[derive(Debug, PartialEq, Eq, Hash)]
pub struct PackageVersionId {
    /// Raw id.
    raw: FlatRawId,
}

impl View for PackageVersionId {
    type V = Seq<char>;

    closed spec fn view(&self) -> Seq<char> {
        self.raw@
    }
}

impl PackageVersionId {
    /// Create an id from the provided raw id without checking its size.
    pub fn from_raw_unchecked(raw: RawId) -> (id: Self)
        ensures
            id@ == raw@,
    {
        Self { raw: FlatRawId::from_raw_unchecked(raw) }
    }

    /// Parse an id of this kind: `pkg_v_` and a raw id of size 22.
    pub fn from_str(s: &str) -> (parsed: Result<Self, InvalidIdError>)
        ensures
            match tagged_refusal(
                s.spec_bytes(),
                "pkg_v_".spec_bytes(),
                false,
                22,
                "invalid prefix (expected: `pkg_v_`)"@,
                "invalid size of raw id (expected: 22)"@,
            ) {
                Some(reason) => parsed is Err && parsed->Err_0.reason_text() == reason,
                None => parsed is Ok && encode_utf8(parsed->Ok_0@) == s.spec_bytes().skip(
                    "pkg_v_".spec_bytes().len() as int,
                ),
            },
    {
        match parse_tagged(
            s,
            "pkg_v_",
            false,
            22,
            "invalid prefix (expected: `pkg_v_`)",
            "invalid size of raw id (expected: 22)",
        ) {
            Ok(raw) => Ok(Self::from_raw_unchecked(raw)),
            Err(error) => Err(error),
        }
    }

    /// Make an id of the raw id, which must have the size of this kind.
    pub fn try_from(raw: FlatRawId) -> (id: Result<Self, InvalidIdError>)
        ensures
            byte_len(raw@) == 22 ==> id is Ok && id->Ok_0@ == raw@,
            byte_len(raw@) != 22 ==> id is Err && id->Err_0.reason_text()
                == "invalid size of raw id (expected: 22)"@,
    {
        if raw.as_str().as_bytes().len() == 22 {
            Ok(Self { raw })
        } else {
            Err(InvalidIdError::new("invalid size of raw id (expected: 22)"))
        }
    }

    /// The raw id.
    pub fn into_raw(self) -> (raw: FlatRawId)
        ensures
            raw@ == self@,
    {
        self.raw
    }

    /// The id as one of any kind.
    pub fn into_any(self) -> (any: AnyId)
        ensures
            any == AnyId::PackageVersionId(self),
    {
        AnyId::PackageVersionId(self)
    }

    /// The id as it is shown.
    pub fn to_string(&self) -> (text: String)
        ensures
            text@ == shown_text(Tag::PackageVersionId, self@),
    {
        show_id(Tag::PackageVersionId, self.raw.as_raw())
    }
}

impl Id for PackageVersionId {
    open spec fn tag_of(&self) -> Tag {
        Tag::PackageVersionId
    }

    open spec fn raw_of(&self) -> Seq<char> {
        self@
    }

    fn tag(&self) -> (tag: Tag) {
        Tag::PackageVersionId
    }

    fn raw(&self) -> (raw: &RawId) {
        self.raw.as_raw()
    }

    fn stringify(&self) -> (text: String) {
        stringify_id(Tag::PackageVersionId, self.raw.as_raw())
    }
}

impl ConcreteId for PackageVersionId {
    type Type = FlatRawId;
}

impl PublicId for PackageVersionId {

}

impl Generate for PackageVersionId {
    open spec fn generated(&self) -> bool {
        self@.len() == 22 && all_base58_chars(self@)
    }

    fn generate() -> (id: Option<Self>)
        ensures
            id is Some,
    {
        Some(Self { raw: FlatRawId::generate(22) })
    }
}

/// Job id (globally unique).
#[derive(Debug, PartialEq, Eq, Hash)]
pub struct JobId {
    /// Raw id.
    raw: DatedRawId,
}

impl View for JobId {
    type V = Seq<char>;

    closed spec fn view(&self) -> Seq<char> {
        self.raw@
    }
}

impl JobId {
    /// Create an id from the provided raw id without checking its size.
    pub fn from_raw_unchecked(raw: RawId) -> (id: Self)
        ensures
            id@ == raw@,
    {
        Self { raw: DatedRawId::from_raw_unchecked(raw) }
    }

    /// Parse an id of this kind: `job_` and a raw id of size 22.
    pub fn from_str(s: &str) -> (parsed: Result<Self, InvalidIdError>)
        ensures
            match tagged_refusal(
                s.spec_bytes(),
                "job_".spec_bytes(),
                true,
                22,
                "invalid prefix (expected: `job_`)"@,
                "invalid size of raw id (expected: 22)"@,
            ) {
                Some(reason) => parsed is Err && parsed->Err_0.reason_text() == reason,
                None => parsed is Ok && encode_utf8(parsed->Ok_0@) == s.spec_bytes().skip(
                    "job_".spec_bytes().len() as int,
                ),
            },
    {
        match parse_tagged(
            s,
            "job_",
            true,
            22,
            "invalid prefix (expected: `job_`)",
            "invalid size of raw id (expected: 22)",
        ) {
            Ok(raw) => Ok(Self::from_raw_unchecked(raw)),
            Err(error) => Err(error),
        }
    }

    /// Make an id of the raw id, which must have the size of this kind.
    pub fn try_from(raw: DatedRawId) -> (id: Result<Self, InvalidIdError>)
        ensures
            byte_len(raw@) == 22 ==> id is Ok && id->Ok_0@ == raw@,
            byte_len(raw@) != 22 ==> id is Err && id->Err_0.reason_text()
                == "invalid size of raw id (expected: 22)"@,
    {
        if raw.as_str().as_bytes().len() == 22 {
            Ok(Self { raw })
        } else {
            Err(InvalidIdError::new("invalid size of raw id (expected: 22)"))
        }
    }

    /// The raw id.
    pub fn into_raw(self) -> (raw: DatedRawId)
        ensures
            raw@ == self@,
    {
        self.raw
    }

    /// The id as one of any kind.
    pub fn into_any(self) -> (any: AnyId)
        ensures
            any == AnyId::JobId(self),
    {
        AnyId::JobId(self)
    }

    /// The id as it is shown.
    pub fn to_string(&self) -> (text: String)
        ensures
            text@ == shown_text(Tag::JobId, self@),
    {
        show_id(Tag::JobId, self.raw.as_raw())
    }
}

impl Id for JobId {
    open spec fn tag_of(&self) -> Tag {
        Tag::JobId
    }

    open spec fn raw_of(&self) -> Seq<char> {
        self@
    }

    fn tag(&self) -> (tag: Tag) {
        Tag::JobId
    }

    fn raw(&self) -> (raw: &RawId) {
        self.raw.as_raw()
    }

    fn stringify(&self) -> (text: String) {
        stringify_id(Tag::JobId, self.raw.as_raw())
    }
}

impl ConcreteId for JobId {
    type Type = DatedRawId;
}

impl PublicId for JobId {

}

impl Generate for JobId {
    open spec fn generated(&self) -> bool {
        is_generated_to(self@, 22)
    }

    fn generate() -> (id: Option<Self>)
    {
        match DatedRawId::generate(22) {
            Some(raw) => Some(Self { raw }),
            None => None,
        }
    }
}

/// Audit log action id (globally unique).
#[derive(Debug, PartialEq, Eq, Hash)]
pub struct AuditLogActionId {
    /// Raw id.
    raw: DatedRawId,
}

impl View for AuditLogActionId {
    type V = Seq<char>;

    closed spec fn view(&self) -> Seq<char> {
        self.raw@
    }
}

impl AuditLogActionId {
    /// Create an id from the provided raw id without checking its size.
    pub fn from_raw_unchecked(raw: RawId) -> (id: Self)
        ensures
            id@ == raw@,
    {
        Self { raw: DatedRawId::from_raw_unchecked(raw) }
    }

    /// Parse an id of this kind: `audit_act_` and a raw id of size 22.
    pub fn from_str(s: &str) -> (parsed: Result<Self, InvalidIdError>)
        ensures
            match tagged_refusal(
                s.spec_bytes(),
                "audit_act_".spec_bytes(),
                true,
                22,
                "invalid prefix (expected: `audit_act_`)"@,
                "invalid size of raw id (expected: 22)"@,
            ) {
                Some(reason) => parsed is Err && parsed->Err_0.reason_text() == reason,
                None => parsed is Ok && encode_utf8(parsed->Ok_0@) == s.spec_bytes().skip(
                    "audit_act_".spec_bytes().len() as int,
                ),
            },
    {
        match parse_tagged(
            s,
            "audit_act_",
            true,
            22,
            "invalid prefix (expected: `audit_act_`)",
            "invalid size of raw id (expected: 22)",
        ) {
            Ok(raw) => Ok(Self::from_raw_unchecked(raw)),
            Err(error) => Err(error),
        }
    }

    /// Make an id of the raw id, which must have the size of this kind.
    pub fn try_from(raw: DatedRawId) -> (id: Result<Self, InvalidIdError>)
        ensures
            byte_len(raw@) == 22 ==> id is Ok && id->Ok_0@ == raw@,
            byte_len(raw@) != 22 ==> id is Err && id->Err_0.reason_text()
                == "invalid size of raw id (expected: 22)"@,
    {
        if raw.as_str().as_bytes().len() == 22 {
            Ok(Self { raw })
        } else {
            Err(InvalidIdError::new("invalid size of raw id (expected: 22)"))
        }
    }

    /// The raw id.
    pub fn into_raw(self) -> (raw: DatedRawId)
        ensures
            raw@ == self@,
    {
        self.raw
    }

    /// The id as one of any kind.
    pub fn into_any(self) -> (any: AnyId)
        ensures
            any == AnyId::AuditLogActionId(self),
    {
        AnyId::AuditLogActionId(self)
    }

    /// The id as it is shown.
    pub fn to_string(&self) -> (text: String)
        ensures
            text@ == shown_text(Tag::AuditLogActionId, self@),
    {
        show_id(Tag::AuditLogActionId, self.raw.as_raw())
    }
}

impl Id for AuditLogActionId {
    open spec fn tag_of(&self) -> Tag {
        Tag::AuditLogActionId
    }

    open spec fn raw_of(&self) -> Seq<char> {
        self@
    }

    fn tag(&self) -> (tag: Tag) {
        Tag::AuditLogActionId
    }

    fn raw(&self) -> (raw: &RawId) {
        self.raw.as_raw()
    }

    fn stringify(&self) -> (text: String) {
        stringify_id(Tag::AuditLogActionId, self.raw.as_raw())
    }
}

impl ConcreteId for AuditLogActionId {
    type Type = DatedRawId;
}

impl PublicId for AuditLogActionId {

}

impl Generate for AuditLogActionId {
    open spec fn generated(&self) -> bool {
        is_generated_to(self@, 22)
    }

    fn generate() -> (id: Option<Self>)
    {
        match DatedRawId::generate(22) {
            Some(raw) => Some(Self { raw }),
            None => None,
        }
    }
}

/// Audit log event id (globally unique).
#[derive(Debug, PartialEq, Eq, Hash)]
pub struct AuditLogEventId {
    /// Raw id.
    raw: DatedRawId,
}

impl View for AuditLogEventId {
    type V = Seq<char>;

    closed spec fn view(&self) -> Seq<char> {
        self.raw@
    }
}

impl AuditLogEventId {
    /// Create an id from the provided raw id without checking its size.
    pub fn from_raw_unchecked(raw: RawId) -> (id: Self)
        ensures
            id@ == raw@,
    {
        Self { raw: DatedRawId::from_raw_unchecked(raw) }
    }

    /// Parse an id of this kind: `audit_ev_` and a raw id of size 22.
    pub fn from_str(s: &str) -> (parsed: Result<Self, InvalidIdError>)
        ensures
            match tagged_refusal(
                s.spec_bytes(),
                "audit_ev_".spec_bytes(),
                true,
                22,
                "invalid prefix (expected: `audit_ev_`)"@,
                "invalid size of raw id (expected: 22)"@,
            ) {
                Some(reason) => parsed is Err && parsed->Err_0.reason_text() == reason,
                None => parsed is Ok && encode_utf8(parsed->Ok_0@) == s.spec_bytes().skip(
                    "audit_ev_".spec_bytes().len() as int,
                ),
            },
    {
        match parse_tagged(
            s,
            "audit_ev_",
            true,
            22,
            "invalid prefix (expected: `audit_ev_`)",
            "invalid size of raw id (expected: 22)",
        ) {
            Ok(raw) => Ok(Self::from_raw_unchecked(raw)),
            Err(error) => Err(error),
        }
    }

    /// Make an id of the raw id, which must have the size of this kind.
    pub fn try_from(raw: DatedRawId) -> (id: Result<Self, InvalidIdError>)
        ensures
            byte_len(raw@) == 22 ==> id is Ok && id->Ok_0@ == raw@,
            byte_len(raw@) != 22 ==> id is Err && id->Err_0.reason_text()
                == "invalid size of raw id (expected: 22)"@,
    {
        if raw.as_str().as_bytes().len() == 22 {
            Ok(Self { raw })
        } else {
            Err(InvalidIdError::new("invalid size of raw id (expected: 22)"))
        }
    }

    /// The raw id.
    pub fn into_raw(self) -> (raw: DatedRawId)
        ensures
            raw@ == self@,
    {
        self.raw
    }

    /// The id as one of any kind.
    pub fn into_any(self) -> (any: AnyId)
        ensures
            any == AnyId::AuditLogEventId(self),
    {
        AnyId::AuditLogEventId(self)
    }

    /// The id as it is shown.
    pub fn to_string(&self) -> (text: String)
        ensures
            text@ == shown_text(Tag::AuditLogEventId, self@),
    {
        show_id(Tag::AuditLogEventId, self.raw.as_raw())
    }
}

impl Id for AuditLogEventId {
    open spec fn tag_of(&self) -> Tag {
        Tag::AuditLogEventId
    }

    open spec fn raw_of(&self) -> Seq<char> {
        self@
    }

    fn tag(&self) -> (tag: Tag) {
        Tag::AuditLogEventId
    }

    fn raw(&self) -> (raw: &RawId) {
        self.raw.as_raw()
    }

    fn stringify(&self) -> (text: String) {
        stringify_id(Tag::AuditLogEventId, self.raw.as_raw())
    }
}

impl ConcreteId for AuditLogEventId {
    type Type = DatedRawId;
}

impl PublicId for AuditLogEventId {

}

impl Generate for AuditLogEventId {
    open spec fn generated(&self) -> bool {
        is_generated_to(self@, 22)
    }

    fn generate() -> (id: Option<Self>)
    {
        match DatedRawId::generate(22) {
            Some(raw) => Some(Self { raw }),
            None => None,
        }
    }
}

impl UserToken {
    /// Id of the token: the first 22 characters of its raw id. The raw id,
    /// being one of base 58 digits, is made of ASCII and at least as long.
    pub fn token_id(&self) -> (id: UserTokenId)
        requires
            is_ascii_chars(self@),
            self@.len() >= 22,
        ensures
            id@ == self@.take(22),
    {
        let raw = self.raw.as_str();
        let size = Tag::UserTokenId.raw_size();
        assert(raw.is_ascii());
        UserTokenId::from_raw_unchecked(RawId::new(raw.substring_ascii(0, size)))
    }
}

impl DeploymentToken {
    /// Id of the token: the first 22 characters of its raw id. The raw id,
    /// being one of base 58 digits, is made of ASCII and at least as long.
    pub fn token_id(&self) -> (id: DeploymentTokenId)
        requires
            is_ascii_chars(self@),
            self@.len() >= 22,
        ensures
            id@ == self@.take(22),
    {
        let raw = self.raw.as_str();
        let size = Tag::ProjectTokenId.raw_size();
        assert(raw.is_ascii());
        DeploymentTokenId::from_raw_unchecked(RawId::new(raw.substring_ascii(0, size)))
    }
}

impl ProjectToken {
    /// Id of the token: the first 22 characters of its raw id. The raw id,
    /// being one of base 58 digits, is made of ASCII and at least as long.
    pub fn token_id(&self) -> (id: ProjectTokenId)
        requires
            is_ascii_chars(self@),
            self@.len() >= 22,
        ensures
            id@ == self@.take(22),
    {
        let raw = self.raw.as_str();
        let size = Tag::ProjectTokenId.raw_size();
        assert(raw.is_ascii());
        ProjectTokenId::from_raw_unchecked(RawId::new(raw.substring_ascii(0, size)))
    }
}

impl UserSessionToken {
    /// Id of the token: the first 22 characters of its raw id. The raw id,
    /// being one of base 58 digits, is made of ASCII and at least as long.
    pub fn token_id(&self) -> (id: UserSessionId)
        requires
            is_ascii_chars(self@),
            self@.len() >= 22,
        ensures
            id@ == self@.take(22),
    {
        let raw = self.raw.as_str();
        let size = Tag::UserSessionId.raw_size();
        assert(raw.is_ascii());
        UserSessionId::from_raw_unchecked(RawId::new(raw.substring_ascii(0, size)))
    }
}

impl DeviceFingerprint {
    /// Id of the fingerprint: the first 22 characters of its raw id. The raw id,
    /// being one of base 58 digits, is made of ASCII and at least as long.
    pub fn fingerprint_id(&self) -> (id: DeviceFingerprintId)
        requires
            is_ascii_chars(self@),
            self@.len() >= 22,
        ensures
            id@ == self@.take(22),
    {
        let raw = self.raw.as_str();
        let size = Tag::DeviceFingerprintId.raw_size();
        assert(raw.is_ascii());
        DeviceFingerprintId::from_raw_unchecked(RawId::new(raw.substring_ascii(0, size)))
    }
}

impl DeviceFingerprint {
    /// Create a fingerprint from the given data: the SHA-512/256 digest of
    /// the data, encoded in base 58.
    pub fn from_data(data: &[u8]) -> (fingerprint: DeviceFingerprint)
        ensures
            fingerprint@ == encoded(ALPHABET_BASE58@, LIMIT as nat, sha512_256_digest(data@)),
    {
        let digest = sha512_256(data);
        Self::from_raw_unchecked(FlatRawId::from_bytes(digest.as_slice()).into_raw())
    }
}

} // verus!
