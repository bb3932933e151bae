//! Ids of any kind.

use crate::ids::all_base58_chars;
use crate::ids::check_dated;
use crate::ids::check_flat;
use crate::ids::errors::InvalidIdError;
use crate::ids::ids::AuditLogActionId;
use crate::ids::ids::AuditLogEventId;
use crate::ids::ids::ClusterNodeId;
use crate::ids::ids::DeploymentToken;
use crate::ids::ids::DeploymentTokenId;
use crate::ids::ids::DeviceCertificateId;
use crate::ids::ids::DeviceConnectionId;
use crate::ids::ids::DeviceEventId;
use crate::ids::ids::DeviceFingerprint;
use crate::ids::ids::DeviceFingerprintId;
use crate::ids::ids::DeviceId;
use crate::ids::ids::JobId;
use crate::ids::ids::PackageId;
use crate::ids::ids::PackageVersionId;
use crate::ids::ids::ProjectId;
use crate::ids::ids::ProjectInvitationId;
use crate::ids::ids::ProjectToken;
use crate::ids::ids::ProjectTokenId;
use crate::ids::ids::RepositoryAssetId;
use crate::ids::ids::RepositoryId;
use crate::ids::ids::RepositoryInvitationId;
use crate::ids::ids::UserId;
use crate::ids::ids::UserSessionId;
use crate::ids::ids::UserSessionToken;
use crate::ids::ids::UserToken;
use crate::ids::ids::UserTokenId;
use crate::ids::last_index;
use crate::ids::is_generated_to;
use crate::ids::is_last_index;
use crate::ids::lemma_checked_raw_starts_char;
use crate::ids::raw_refusal;
use crate::ids::show_id;
use crate::ids::shown_text;
use crate::ids::tag::Tag;
use crate::ids::find_last;
use crate::ids::Generate;
use crate::ids::Id;
use crate::ids::RawId;
use vstd::prelude::*;
use vstd::slice::slice_subrange;
use vstd::string::StringSliceAdditionalSpecFns;
use vstd::utf8::decode_utf8;
use vstd::utf8::encode_utf8;
use vstd::utf8::encode_utf8_decode_utf8;
use vstd::utf8::encode_utf8_valid_utf8;
use vstd::utf8::is_char_boundary_iff_not_is_continuation_byte;
use vstd::utf8::is_char_boundary_start_end_of_seq;

verus! {

/// Polymorphic id.
#[derive(PartialEq, Eq, Hash)]
pub enum AnyId {
    /// Cluster node id (globally unique).
    ///
    /// Uniquely identifies a cluster node within the system.
    ClusterNodeId(ClusterNodeId),
    /// User id (globally unique).
    ///
    /// Uniquely identifies a user within the system.
    UserId(UserId),
    /// User secret access token (globally unique).
    ///
    /// Used in-place of the password for login with the API and client.
    UserToken(UserToken),
    /// User access token id (globally unique).
    ///
    /// The first 22 characters of the respective secret access token.
    UserTokenId(UserTokenId),
    /// User session token (globally unique).
    UserSessionToken(UserSessionToken),
    /// User session id (globally unique).
    UserSessionId(UserSessionId),
    /// Project id (globally unique).
    ///
    /// Uniquely identifies a project within the system.
    ProjectId(ProjectId),
    /// Project secret access token (globally unique).
    ///
    /// Used by devices to connect to the project.
    ProjectToken(ProjectToken),
    /// Project access token id (globally unique).
    ///
    /// The first 22 characters of the respective secret access token.
    ProjectTokenId(ProjectTokenId),
    /// Uniquely identifies an invitation to a project.
    ProjectInvitationId(ProjectInvitationId),
    /// Deployment token (globally unique).
    ///
    /// Used by devices to connect to a project.
    DeploymentToken(DeploymentToken),
    /// Deployment token id (globally unique).
    ///
    /// The first 22 characters of the respective deployment token.
    DeploymentTokenId(DeploymentTokenId),
    /// Device id (globally unique).
    ///
    /// Uniquely identifies a device within the system.
    DeviceId(DeviceId),
    /// Device fingerprint (unique per project).
    ///
    /// Generated by the device as a unique identifier for itself.
    ///
    /// Used for authenticating the device together with a project token.
    DeviceFingerprint(DeviceFingerprint),
    /// Device fingerprint id (unique per project).
    DeviceFingerprintId(DeviceFingerprintId),
    /// Device certificate id (globally unique).
    DeviceCertificateId(DeviceCertificateId),
    /// Device connection id (globally unique).
    DeviceConnectionId(DeviceConnectionId),
    /// Device event id (unique per device).
    DeviceEventId(DeviceEventId),
    /// Repository id (globally unique).
    RepositoryId(RepositoryId),
    /// Repository asset id (globally unique).
    RepositoryAssetId(RepositoryAssetId),
    /// Uniquely identifies an invitation to a repository.
    RepositoryInvitationId(RepositoryInvitationId),
    /// Package id (globally unique).
    PackageId(PackageId),
    /// Package version id (globally unique).
    PackageVersionId(PackageVersionId),
    /// Job id (globally unique).
    JobId(JobId),
    /// Audit log action id (globally unique).
    AuditLogActionId(AuditLogActionId),
    /// Audit log event id (globally unique).
    AuditLogEventId(AuditLogEventId),
}

impl Id for AnyId {
    open spec fn tag_of(&self) -> Tag {
        match self {
            AnyId::ClusterNodeId(id) => id.tag_of(),
            AnyId::UserId(id) => id.tag_of(),
            AnyId::UserToken(id) => id.tag_of(),
            AnyId::UserTokenId(id) => id.tag_of(),
            AnyId::UserSessionToken(id) => id.tag_of(),
            AnyId::UserSessionId(id) => id.tag_of(),
            AnyId::ProjectId(id) => id.tag_of(),
            AnyId::ProjectToken(id) => id.tag_of(),
            AnyId::ProjectTokenId(id) => id.tag_of(),
            AnyId::ProjectInvitationId(id) => id.tag_of(),
            AnyId::DeploymentToken(id) => id.tag_of(),
            AnyId::DeploymentTokenId(id) => id.tag_of(),
            AnyId::DeviceId(id) => id.tag_of(),
            AnyId::DeviceFingerprint(id) => id.tag_of(),
            AnyId::DeviceFingerprintId(id) => id.tag_of(),
            AnyId::DeviceCertificateId(id) => id.tag_of(),
            AnyId::DeviceConnectionId(id) => id.tag_of(),
            AnyId::DeviceEventId(id) => id.tag_of(),
            AnyId::RepositoryId(id) => id.tag_of(),
            AnyId::RepositoryAssetId(id) => id.tag_of(),
            AnyId::RepositoryInvitationId(id) => id.tag_of(),
            AnyId::PackageId(id) => id.tag_of(),
            AnyId::PackageVersionId(id) => id.tag_of(),
            AnyId::JobId(id) => id.tag_of(),
            AnyId::AuditLogActionId(id) => id.tag_of(),
            AnyId::AuditLogEventId(id) => id.tag_of(),
        }
    }

    open spec fn raw_of(&self) -> Seq<char> {
        match self {
            AnyId::ClusterNodeId(id) => id.raw_of(),
            AnyId::UserId(id) => id.raw_of(),
            AnyId::UserToken(id) => id.raw_of(),
            AnyId::UserTokenId(id) => id.raw_of(),
            AnyId::UserSessionToken(id) => id.raw_of(),
            AnyId::UserSessionId(id) => id.raw_of(),
            AnyId::ProjectId(id) => id.raw_of(),
            AnyId::ProjectToken(id) => id.raw_of(),
            AnyId::ProjectTokenId(id) => id.raw_of(),
            AnyId::ProjectInvitationId(id) => id.raw_of(),
            AnyId::DeploymentToken(id) => id.raw_of(),
            AnyId::DeploymentTokenId(id) => id.raw_of(),
            AnyId::DeviceId(id) => id.raw_of(),
            AnyId::DeviceFingerprint(id) => id.raw_of(),
            AnyId::DeviceFingerprintId(id) => id.raw_of(),
            AnyId::DeviceCertificateId(id) => id.raw_of(),
            AnyId::DeviceConnectionId(id) => id.raw_of(),
            AnyId::DeviceEventId(id) => id.raw_of(),
            AnyId::RepositoryId(id) => id.raw_of(),
            AnyId::RepositoryAssetId(id) => id.raw_of(),
            AnyId::RepositoryInvitationId(id) => id.raw_of(),
            AnyId::PackageId(id) => id.raw_of(),
            AnyId::PackageVersionId(id) => id.raw_of(),
            AnyId::JobId(id) => id.raw_of(),
            AnyId::AuditLogActionId(id) => id.raw_of(),
            AnyId::AuditLogEventId(id) => id.raw_of(),
        }
    }

    fn tag(&self) -> (tag: Tag) {
        match self {
            Self::ClusterNodeId(id) => id.tag(),
            Self::UserId(id) => id.tag(),
            Self::UserToken(id) => id.tag(),
            Self::UserTokenId(id) => id.tag(),
            Self::UserSessionToken(id) => id.tag(),
            Self::UserSessionId(id) => id.tag(),
            Self::ProjectId(id) => id.tag(),
            Self::ProjectToken(id) => id.tag(),
            Self::ProjectTokenId(id) => id.tag(),
            Self::ProjectInvitationId(id) => id.tag(),
            Self::DeploymentToken(id) => id.tag(),
            Self::DeploymentTokenId(id) => id.tag(),
            Self::DeviceId(id) => id.tag(),
            Self::DeviceFingerprint(id) => id.tag(),
            Self::DeviceFingerprintId(id) => id.tag(),
            Self::DeviceCertificateId(id) => id.tag(),
            Self::DeviceConnectionId(id) => id.tag(),
            Self::DeviceEventId(id) => id.tag(),
            Self::RepositoryId(id) => id.tag(),
            Self::RepositoryAssetId(id) => id.tag(),
            Self::RepositoryInvitationId(id) => id.tag(),
            Self::PackageId(id) => id.tag(),
            Self::PackageVersionId(id) => id.tag(),
            Self::JobId(id) => id.tag(),
            Self::AuditLogActionId(id) => id.tag(),
            Self::AuditLogEventId(id) => id.tag(),
        }
    }

    fn raw(&self) -> (raw: &RawId) {
        match self {
            Self::ClusterNodeId(id) => id.raw(),
            Self::UserId(id) => id.raw(),
            Self::UserToken(id) => id.raw(),
            Self::UserTokenId(id) => id.raw(),
            Self::UserSessionToken(id) => id.raw(),
            Self::UserSessionId(id) => id.raw(),
            Self::ProjectId(id) => id.raw(),
            Self::ProjectToken(id) => id.raw(),
            Self::ProjectTokenId(id) => id.raw(),
            Self::ProjectInvitationId(id) => id.raw(),
            Self::DeploymentToken(id) => id.raw(),
            Self::DeploymentTokenId(id) => id.raw(),
            Self::DeviceId(id) => id.raw(),
            Self::DeviceFingerprint(id) => id.raw(),
            Self::DeviceFingerprintId(id) => id.raw(),
            Self::DeviceCertificateId(id) => id.raw(),
            Self::DeviceConnectionId(id) => id.raw(),
            Self::DeviceEventId(id) => id.raw(),
            Self::RepositoryId(id) => id.raw(),
            Self::RepositoryAssetId(id) => id.raw(),
            Self::RepositoryInvitationId(id) => id.raw(),
            Self::PackageId(id) => id.raw(),
            Self::PackageVersionId(id) => id.raw(),
            Self::JobId(id) => id.raw(),
            Self::AuditLogActionId(id) => id.raw(),
            Self::AuditLogEventId(id) => id.raw(),
        }
    }

    fn stringify(&self) -> (text: String) {
        match self {
            Self::ClusterNodeId(id) => id.stringify(),
            Self::UserId(id) => id.stringify(),
            Self::UserToken(id) => id.stringify(),
            Self::UserTokenId(id) => id.stringify(),
            Self::UserSessionToken(id) => id.stringify(),
            Self::UserSessionId(id) => id.stringify(),
            Self::ProjectId(id) => id.stringify(),
            Self::ProjectToken(id) => id.stringify(),
            Self::ProjectTokenId(id) => id.stringify(),
            Self::ProjectInvitationId(id) => id.stringify(),
            Self::DeploymentToken(id) => id.stringify(),
            Self::DeploymentTokenId(id) => id.stringify(),
            Self::DeviceId(id) => id.stringify(),
            Self::DeviceFingerprint(id) => id.stringify(),
            Self::DeviceFingerprintId(id) => id.stringify(),
            Self::DeviceCertificateId(id) => id.stringify(),
            Self::DeviceConnectionId(id) => id.stringify(),
            Self::DeviceEventId(id) => id.stringify(),
            Self::RepositoryId(id) => id.stringify(),
            Self::RepositoryAssetId(id) => id.stringify(),
            Self::RepositoryInvitationId(id) => id.stringify(),
            Self::PackageId(id) => id.stringify(),
            Self::PackageVersionId(id) => id.stringify(),
            Self::JobId(id) => id.stringify(),
            Self::AuditLogActionId(id) => id.stringify(),
            Self::AuditLogEventId(id) => id.stringify(),
        }
    }
}

/// The reason given for a raw id of the wrong size.
pub open spec fn invalid_size_text(size: usize) -> Seq<char> {
    if size == 22 {
        "invalid size of raw id (expected: 22)"@
    } else if size == 44 {
        "invalid size of raw id (expected: 44)"@
    } else {
        "invalid size of raw id (expected: 66)"@
    }
}

/// Why a string is no id, or `None` where it is one. The string is cut at
/// its last `_`: what stands before is the tag of a kind of id, and what
/// follows is a raw id of the form and the size of that kind.
pub open spec fn any_refusal(bytes: Seq<u8>) -> Option<Seq<char>> {
    match last_index(bytes, 0x5F) {
        None => Some("id does not start with a tag"@),
        Some(last) => match Tag::named(decode_utf8(bytes.take(last))) {
            None => Some("unknown tag"@),
            Some(tag) => match raw_refusal(bytes.skip(last + 1), tag.spec_is_dated()) {
                Some(reason) => Some(reason),
                None => if bytes.len() - last - 1 != tag.spec_raw_size() {
                    Some(invalid_size_text(tag.spec_raw_size()))
                } else {
                    None
                },
            },
        },
    }
}

impl AnyId {
    /// An id with the given tag and raw id, whatever the raw id is.
    pub fn from_raw_unchecked(tag: Tag, raw: RawId) -> (id: AnyId)
        ensures
            id.tag_of() == tag,
            id.raw_of() == raw@,
    {
        match tag {
            Tag::ClusterNodeId => ClusterNodeId::from_raw_unchecked(raw).into_any(),
            Tag::UserId => UserId::from_raw_unchecked(raw).into_any(),
            Tag::UserToken => UserToken::from_raw_unchecked(raw).into_any(),
            Tag::UserTokenId => UserTokenId::from_raw_unchecked(raw).into_any(),
            Tag::UserSessionToken => UserSessionToken::from_raw_unchecked(raw).into_any(),
            Tag::UserSessionId => UserSessionId::from_raw_unchecked(raw).into_any(),
            Tag::ProjectId => ProjectId::from_raw_unchecked(raw).into_any(),
            Tag::ProjectToken => ProjectToken::from_raw_unchecked(raw).into_any(),
            Tag::ProjectTokenId => ProjectTokenId::from_raw_unchecked(raw).into_any(),
            Tag::ProjectInvitationId => ProjectInvitationId::from_raw_unchecked(raw).into_any(),
            Tag::DeploymentToken => DeploymentToken::from_raw_unchecked(raw).into_any(),
            Tag::DeploymentTokenId => DeploymentTokenId::from_raw_unchecked(raw).into_any(),
            Tag::DeviceId => DeviceId::from_raw_unchecked(raw).into_any(),
            Tag::DeviceFingerprint => DeviceFingerprint::from_raw_unchecked(raw).into_any(),
            Tag::DeviceFingerprintId => DeviceFingerprintId::from_raw_unchecked(raw).into_any(),
            Tag::DeviceCertificateId => DeviceCertificateId::from_raw_unchecked(raw).into_any(),
            Tag::DeviceConnectionId => DeviceConnectionId::from_raw_unchecked(raw).into_any(),
            Tag::DeviceEventId => DeviceEventId::from_raw_unchecked(raw).into_any(),
            Tag::RepositoryId => RepositoryId::from_raw_unchecked(raw).into_any(),
            Tag::RepositoryAssetId => RepositoryAssetId::from_raw_unchecked(raw).into_any(),
            Tag::RepositoryInvitationId => RepositoryInvitationId::from_raw_unchecked(raw).into_any(),
            Tag::PackageId => PackageId::from_raw_unchecked(raw).into_any(),
            Tag::PackageVersionId => PackageVersionId::from_raw_unchecked(raw).into_any(),
            Tag::JobId => JobId::from_raw_unchecked(raw).into_any(),
            Tag::AuditLogActionId => AuditLogActionId::from_raw_unchecked(raw).into_any(),
            Tag::AuditLogEventId => AuditLogEventId::from_raw_unchecked(raw).into_any(),
        }
    }

    /// The id as it is shown: the raw id of a secret is left out.
    pub fn to_string(&self) -> (text: String)
        ensures
            text@ == shown_text(self.tag_of(), self.raw_of()),
    {
        show_id(self.tag(), self.raw())
    }

    /// Parse an id of any kind.
    pub fn from_str(s: &str) -> (parsed: Result<AnyId, InvalidIdError>)
        ensures
            match any_refusal(s.spec_bytes()) {
                Some(reason) => parsed is Err && parsed->Err_0.reason_text() == reason,
                None => {
                    let last = last_index(s.spec_bytes(), 0x5F)->0;
                    &&& parsed is Ok
                    &&& Some(parsed->Ok_0.tag_of()) == Tag::named(
                        decode_utf8(s.spec_bytes().take(last)),
                    )
                    &&& encode_utf8(parsed->Ok_0.raw_of()) == s.spec_bytes().skip(last + 1)
                },
            },
    {
        let bytes = s.as_bytes();
        let len = bytes.len();
        let last = match find_last(bytes, 0x5F) {
            Some(last) => last,
            None => {
                return Err(InvalidIdError::new("id does not start with a tag"));
            },
        };
        proof {
            encode_utf8_valid_utf8(s@);
            assert(is_last_index(bytes@, 0x5F, last as int));
            is_char_boundary_iff_not_is_continuation_byte(bytes@, last as int);
        }
        let (tag_text, rest) = s.split_at(last);
        proof {
            encode_utf8_decode_utf8(tag_text@);
            assert(tag_text.spec_bytes() =~= bytes@.take(last as int));
        }
        let tag = match Tag::from_str(tag_text) {
            Ok(tag) => tag,
            Err(_) => {
                return Err(InvalidIdError::new("unknown tag"));
            },
        };
        let raw_bytes = slice_subrange(bytes, last + 1, len);
        assert(raw_bytes@ =~= bytes@.skip(last + 1));
        let refusal = if tag.is_dated() {
            check_dated(raw_bytes)
        } else {
            check_flat(raw_bytes)
        };
        match refusal {
            Some(reason) => {
                return Err(InvalidIdError::new(reason));
            },
            None => {},
        }
        let size = tag.raw_size();
        if raw_bytes.len() != size {
            return Err(
                InvalidIdError::new(
                    if size == 22 {
                        "invalid size of raw id (expected: 22)"
                    } else if size == 44 {
                        "invalid size of raw id (expected: 44)"
                    } else {
                        "invalid size of raw id (expected: 66)"
                    },
                ),
            );
        }
        proof {
            if last + 1 < bytes@.len() {
                lemma_checked_raw_starts_char(raw_bytes@, tag.spec_is_dated());
                is_char_boundary_iff_not_is_continuation_byte(bytes@, last + 1);
            } else {
                is_char_boundary_start_end_of_seq(bytes@);
            }
        }
        let (_, raw) = s.split_at(last + 1);
        assert(raw.spec_bytes() =~= bytes@.skip(last + 1));
        Ok(AnyId::from_raw_unchecked(tag, RawId::new(raw)))
    }
}

impl Tag {
    /// Generate an id with the given tag. There is none where the kind of id
    /// starts with the date and the clock of the system shows no time that
    /// can be written as one.
    pub fn generate(&self) -> (id: Option<AnyId>)
        ensures
            id is Some ==> id->0.tag_of() == *self,
            !self.spec_is_dated() ==> id is Some && id->0.raw_of().len() == self.spec_raw_size()
                && all_base58_chars(id->0.raw_of()),
            self.spec_is_dated() && id is Some ==> is_generated_to(
                id->0.raw_of(),
                self.spec_raw_size(),
            ),
    {
        match self {
            Self::ClusterNodeId => match ClusterNodeId::generate() {
                Some(id) => Some(AnyId::ClusterNodeId(id)),
                None => None,
            },
            Self::UserId => match UserId::generate() {
                Some(id) => Some(AnyId::UserId(id)),
                None => None,
            },
            Self::UserToken => match UserToken::generate() {
                Some(id) => Some(AnyId::UserToken(id)),
                None => None,
            },
            Self::UserTokenId => match UserTokenId::generate() {
                Some(id) => Some(AnyId::UserTokenId(id)),
                None => None,
            },
            Self::UserSessionToken => match UserSessionToken::generate() {
                Some(id) => Some(AnyId::UserSessionToken(id)),
                None => None,
            },
            Self::UserSessionId => match UserSessionId::generate() {
                Some(id) => Some(AnyId::UserSessionId(id)),
                None => None,
            },
            Self::ProjectId => match ProjectId::generate() {
                Some(id) => Some(AnyId::ProjectId(id)),
                None => None,
            },
            Self::ProjectToken => match ProjectToken::generate() {
                Some(id) => Some(AnyId::ProjectToken(id)),
                None => None,
            },
            Self::ProjectTokenId => match ProjectTokenId::generate() {
                Some(id) => Some(AnyId::ProjectTokenId(id)),
                None => None,
            },
            Self::ProjectInvitationId => match ProjectInvitationId::generate() {
                Some(id) => Some(AnyId::ProjectInvitationId(id)),
                None => None,
            },
            Self::DeploymentToken => match DeploymentToken::generate() {
                Some(id) => Some(AnyId::DeploymentToken(id)),
                None => None,
            },
            Self::DeploymentTokenId => match DeploymentTokenId::generate() {
                Some(id) => Some(AnyId::DeploymentTokenId(id)),
                None => None,
            },
            Self::DeviceId => match DeviceId::generate() {
                Some(id) => Some(AnyId::DeviceId(id)),
                None => None,
            },
            Self::DeviceFingerprint => match DeviceFingerprint::generate() {
                Some(id) => Some(AnyId::DeviceFingerprint(id)),
                None => None,
            },
            Self::DeviceFingerprintId => match DeviceFingerprintId::generate() {
                Some(id) => Some(AnyId::DeviceFingerprintId(id)),
                None => None,
            },
            Self::DeviceCertificateId => match DeviceCertificateId::generate() {
                Some(id) => Some(AnyId::DeviceCertificateId(id)),
                None => None,
            },
            Self::DeviceConnectionId => match DeviceConnectionId::generate() {
                Some(id) => Some(AnyId::DeviceConnectionId(id)),
                None => None,
            },
            Self::DeviceEventId => match DeviceEventId::generate() {
                Some(id) => Some(AnyId::DeviceEventId(id)),
                None => None,
            },
            Self::RepositoryId => match RepositoryId::generate() {
                Some(id) => Some(AnyId::RepositoryId(id)),
                None => None,
            },
            Self::RepositoryAssetId => match RepositoryAssetId::generate() {
                Some(id) => Some(AnyId::RepositoryAssetId(id)),
                None => None,
            },
            Self::RepositoryInvitationId => match RepositoryInvitationId::generate() {
                Some(id) => Some(AnyId::RepositoryInvitationId(id)),
                None => None,
            },
            Self::PackageId => match PackageId::generate() {
                Some(id) => Some(AnyId::PackageId(id)),
                None => None,
            },
            Self::PackageVersionId => match PackageVersionId::generate() {
                Some(id) => Some(AnyId::PackageVersionId(id)),
                None => None,
            },
            Self::JobId => match JobId::generate() {
                Some(id) => Some(AnyId::JobId(id)),
                None => None,
            },
            Self::AuditLogActionId => match AuditLogActionId::generate() {
                Some(id) => Some(AnyId::AuditLogActionId(id)),
                None => None,
            },
            Self::AuditLogEventId => match AuditLogEventId::generate() {
                Some(id) => Some(AnyId::AuditLogEventId(id)),
                None => None,
            },
        }
    }
}

} // verus!
