//! The tags that tell the kinds of ids apart.

use crate::ids::errors::InvalidTagError;
use vstd::prelude::*;
use vstd::string::StringSliceAdditionalSpecFns;
use vstd::utf8::encode_utf8;
use vstd::utf8::encode_utf8_decode_utf8;

verus! {

/// Id tag.
#[derive(Debug, Clone, Copy, PartialEq, Eq, Hash, Structural)]
pub enum Tag {
    /// Cluster node id (globally unique).
    ///
    /// Uniquely identifies a cluster node within the system.
    ClusterNodeId,
    /// User id (globally unique).
    ///
    /// Uniquely identifies a user within the system.
    UserId,
    /// User secret access token (globally unique).
    ///
    /// Used in-place of the password for login with the API and client.
    UserToken,
    /// User access token id (globally unique).
    ///
    /// The first 22 characters of the respective secret access token.
    UserTokenId,
    /// User session token (globally unique).
    UserSessionToken,
    /// User session id (globally unique).
    UserSessionId,
    /// Project id (globally unique).
    ///
    /// Uniquely identifies a project within the system.
    ProjectId,
    /// Project secret access token (globally unique).
    ///
    /// Used by devices to connect to the project.
    ProjectToken,
    /// Project access token id (globally unique).
    ///
    /// The first 22 characters of the respective secret access token.
    ProjectTokenId,
    /// Uniquely identifies an invitation to a project.
    ProjectInvitationId,
    /// Deployment token (globally unique).
    ///
    /// Used by devices to connect to a project.
    DeploymentToken,
    /// Deployment token id (globally unique).
    ///
    /// The first 22 characters of the respective deployment token.
    DeploymentTokenId,
    /// Device id (globally unique).
    ///
    /// Uniquely identifies a device within the system.
    DeviceId,
    /// Device fingerprint (unique per project).
    ///
    /// Generated by the device as a unique identifier for itself.
    ///
    /// Used for authenticating the device together with a project token.
    DeviceFingerprint,
    /// Device fingerprint id (unique per project).
    DeviceFingerprintId,
    /// Device certificate id (globally unique).
    DeviceCertificateId,
    /// Device connection id (globally unique).
    DeviceConnectionId,
    /// Device event id (unique per device).
    DeviceEventId,
    /// Repository id (globally unique).
    RepositoryId,
    /// Repository asset id (globally unique).
    RepositoryAssetId,
    /// Uniquely identifies an invitation to a repository.
    RepositoryInvitationId,
    /// Package id (globally unique).
    PackageId,
    /// Package version id (globally unique).
    PackageVersionId,
    /// Job id (globally unique).
    JobId,
    /// Audit log action id (globally unique).
    AuditLogActionId,
    /// Audit log event id (globally unique).
    AuditLogEventId,
}

/// Compares two byte strings.
pub fn bytes_eq(left: &[u8], right: &[u8]) -> (equal: bool)
    ensures
        equal == (left@ == right@),
{
    if left.len() != right.len() {
        return false;
    }
    let mut i: usize = 0;
    while i < left.len()
        invariant
            left@.len() == right@.len(),
            i <= left@.len(),
            forall|j: int| 0 <= j < i ==> left@[j] == right@[j],
        decreases left@.len() - i,
    {
        if left[i] != right[i] {
            return false;
        }
        i += 1;
    }
    assert(left@ =~= right@);
    true
}

/// Compares two strings.
pub fn str_eq(left: &str, right: &str) -> (equal: bool)
    ensures
        equal == (left@ == right@),
{
    proof {
        encode_utf8_decode_utf8(left@);
        encode_utf8_decode_utf8(right@);
    }
    bytes_eq(left.as_bytes(), right.as_bytes())
}

impl Tag {
    /// String representation of the tag, as a sequence of characters.
    pub open spec fn text(self) -> Seq<char> {
        match self {
            Tag::ClusterNodeId => "cluster_node"@,
            Tag::UserId => "u"@,
            Tag::UserToken => "u_sk"@,
            Tag::UserTokenId => "u_pk"@,
            Tag::UserSessionToken => "u_session_sk"@,
            Tag::UserSessionId => "u_session_pk"@,
            Tag::ProjectId => "p"@,
            Tag::ProjectToken => "p_sk"@,
            Tag::ProjectTokenId => "p_pk"@,
            Tag::ProjectInvitationId => "p_invite"@,
            Tag::DeploymentToken => "deployment"@,
            Tag::DeploymentTokenId => "deployment_id"@,
            Tag::DeviceId => "d"@,
            Tag::DeviceFingerprint => "d_sk"@,
            Tag::DeviceFingerprintId => "d_pk"@,
            Tag::DeviceCertificateId => "d_c"@,
            Tag::DeviceConnectionId => "d_conn"@,
            Tag::DeviceEventId => "d_ev"@,
            Tag::RepositoryId => "repo"@,
            Tag::RepositoryAssetId => "repo_a"@,
            Tag::RepositoryInvitationId => "repo_invite"@,
            Tag::PackageId => "pkg"@,
            Tag::PackageVersionId => "pkg_v"@,
            Tag::JobId => "job"@,
            Tag::AuditLogActionId => "audit_act"@,
            Tag::AuditLogEventId => "audit_ev"@,
        }
    }

    /// Size of the raw id of ids with the tag.
    pub open spec fn spec_raw_size(self) -> usize {
        match self {
            Tag::ClusterNodeId => 22,
            Tag::UserId => 22,
            Tag::UserToken => 66,
            Tag::UserTokenId => 22,
            Tag::UserSessionToken => 66,
            Tag::UserSessionId => 22,
            Tag::ProjectId => 22,
            Tag::ProjectToken => 44,
            Tag::ProjectTokenId => 22,
            Tag::ProjectInvitationId => 22,
            Tag::DeploymentToken => 66,
            Tag::DeploymentTokenId => 22,
            Tag::DeviceId => 22,
            Tag::DeviceFingerprint => 44,
            Tag::DeviceFingerprintId => 22,
            Tag::DeviceCertificateId => 22,
            Tag::DeviceConnectionId => 22,
            Tag::DeviceEventId => 22,
            Tag::RepositoryId => 22,
            Tag::RepositoryAssetId => 22,
            Tag::RepositoryInvitationId => 22,
            Tag::PackageId => 22,
            Tag::PackageVersionId => 22,
            Tag::JobId => 22,
            Tag::AuditLogActionId => 22,
            Tag::AuditLogEventId => 22,
        }
    }

    /// Whether ids with the tag are secrets.
    pub open spec fn spec_is_secret(self) -> bool {
        match self {
            Tag::ClusterNodeId => false,
            Tag::UserId => false,
            Tag::UserToken => true,
            Tag::UserTokenId => false,
            Tag::UserSessionToken => true,
            Tag::UserSessionId => false,
            Tag::ProjectId => false,
            Tag::ProjectToken => true,
            Tag::ProjectTokenId => false,
            Tag::ProjectInvitationId => false,
            Tag::DeploymentToken => true,
            Tag::DeploymentTokenId => false,
            Tag::DeviceId => false,
            Tag::DeviceFingerprint => true,
            Tag::DeviceFingerprintId => false,
            Tag::DeviceCertificateId => false,
            Tag::DeviceConnectionId => false,
            Tag::DeviceEventId => false,
            Tag::RepositoryId => false,
            Tag::RepositoryAssetId => false,
            Tag::RepositoryInvitationId => false,
            Tag::PackageId => false,
            Tag::PackageVersionId => false,
            Tag::JobId => false,
            Tag::AuditLogActionId => false,
            Tag::AuditLogEventId => false,
        }
    }

    /// Whether ids with the tag start with a date and time.
    pub open spec fn spec_is_dated(self) -> bool {
        match self {
            Tag::ClusterNodeId => false,
            Tag::UserId => false,
            Tag::UserToken => false,
            Tag::UserTokenId => false,
            Tag::UserSessionToken => false,
            Tag::UserSessionId => false,
            Tag::ProjectId => false,
            Tag::ProjectToken => false,
            Tag::ProjectTokenId => false,
            Tag::ProjectInvitationId => false,
            Tag::DeploymentToken => false,
            Tag::DeploymentTokenId => false,
            Tag::DeviceId => false,
            Tag::DeviceFingerprint => false,
            Tag::DeviceFingerprintId => false,
            Tag::DeviceCertificateId => false,
            Tag::DeviceConnectionId => false,
            Tag::DeviceEventId => true,
            Tag::RepositoryId => false,
            Tag::RepositoryAssetId => false,
            Tag::RepositoryInvitationId => false,
            Tag::PackageId => false,
            Tag::PackageVersionId => false,
            Tag::JobId => true,
            Tag::AuditLogActionId => true,
            Tag::AuditLogEventId => true,
        }
    }

    /// The tag with the given string representation, if there is one.
    pub open spec fn named(text: Seq<char>) -> Option<Tag> {
        if text == "cluster_node"@ {
            Some(Tag::ClusterNodeId)
        } else if text == "u"@ {
            Some(Tag::UserId)
        } else if text == "u_sk"@ {
            Some(Tag::UserToken)
        } else if text == "u_pk"@ {
            Some(Tag::UserTokenId)
        } else if text == "u_session_sk"@ {
            Some(Tag::UserSessionToken)
        } else if text == "u_session_pk"@ {
            Some(Tag::UserSessionId)
        } else if text == "p"@ {
            Some(Tag::ProjectId)
        } else if text == "p_sk"@ {
            Some(Tag::ProjectToken)
        } else if text == "p_pk"@ {
            Some(Tag::ProjectTokenId)
        } else if text == "p_invite"@ {
            Some(Tag::ProjectInvitationId)
        } else if text == "deployment"@ {
            Some(Tag::DeploymentToken)
        } else if text == "deployment_id"@ {
            Some(Tag::DeploymentTokenId)
        } else if text == "d"@ {
            Some(Tag::DeviceId)
        } else if text == "d_sk"@ {
            Some(Tag::DeviceFingerprint)
        } else if text == "d_pk"@ {
            Some(Tag::DeviceFingerprintId)
        } else if text == "d_c"@ {
            Some(Tag::DeviceCertificateId)
        } else if text == "d_conn"@ {
            Some(Tag::DeviceConnectionId)
        } else if text == "d_ev"@ {
            Some(Tag::DeviceEventId)
        } else if text == "repo"@ {
            Some(Tag::RepositoryId)
        } else if text == "repo_a"@ {
            Some(Tag::RepositoryAssetId)
        } else if text == "repo_invite"@ {
            Some(Tag::RepositoryInvitationId)
        } else if text == "pkg"@ {
            Some(Tag::PackageId)
        } else if text == "pkg_v"@ {
            Some(Tag::PackageVersionId)
        } else if text == "job"@ {
            Some(Tag::JobId)
        } else if text == "audit_act"@ {
            Some(Tag::AuditLogActionId)
        } else if text == "audit_ev"@ {
            Some(Tag::AuditLogEventId)
        } else {
            None
        }
    }

    /// String representation of the tag.
    pub fn as_str(&self) -> (text: &'static str)
        ensures
            text@ == self.text(),
    {
        match self {
            Self::ClusterNodeId => "cluster_node",
            Self::UserId => "u",
            Self::UserToken => "u_sk",
            Self::UserTokenId => "u_pk",
            Self::UserSessionToken => "u_session_sk",
            Self::UserSessionId => "u_session_pk",
            Self::ProjectId => "p",
            Self::ProjectToken => "p_sk",
            Self::ProjectTokenId => "p_pk",
            Self::ProjectInvitationId => "p_invite",
            Self::DeploymentToken => "deployment",
            Self::DeploymentTokenId => "deployment_id",
            Self::DeviceId => "d",
            Self::DeviceFingerprint => "d_sk",
            Self::DeviceFingerprintId => "d_pk",
            Self::DeviceCertificateId => "d_c",
            Self::DeviceConnectionId => "d_conn",
            Self::DeviceEventId => "d_ev",
            Self::RepositoryId => "repo",
            Self::RepositoryAssetId => "repo_a",
            Self::RepositoryInvitationId => "repo_invite",
            Self::PackageId => "pkg",
            Self::PackageVersionId => "pkg_v",
            Self::JobId => "job",
            Self::AuditLogActionId => "audit_act",
            Self::AuditLogEventId => "audit_ev",
        }
    }

    /// Size of the tag.
    pub fn tag_size(&self) -> (size: usize)
        ensures
            size == encode_utf8(self.text()).len(),
    {
        self.as_str().as_bytes().len()
    }

    /// Size of the respective raw id.
    pub fn raw_size(&self) -> (size: usize)
        ensures
            size == self.spec_raw_size(),
    {
        match self {
            Self::ClusterNodeId => 22,
            Self::UserId => 22,
            Self::UserToken => 66,
            Self::UserTokenId => 22,
            Self::UserSessionToken => 66,
            Self::UserSessionId => 22,
            Self::ProjectId => 22,
            Self::ProjectToken => 44,
            Self::ProjectTokenId => 22,
            Self::ProjectInvitationId => 22,
            Self::DeploymentToken => 66,
            Self::DeploymentTokenId => 22,
            Self::DeviceId => 22,
            Self::DeviceFingerprint => 44,
            Self::DeviceFingerprintId => 22,
            Self::DeviceCertificateId => 22,
            Self::DeviceConnectionId => 22,
            Self::DeviceEventId => 22,
            Self::RepositoryId => 22,
            Self::RepositoryAssetId => 22,
            Self::RepositoryInvitationId => 22,
            Self::PackageId => 22,
            Self::PackageVersionId => 22,
            Self::JobId => 22,
            Self::AuditLogActionId => 22,
            Self::AuditLogEventId => 22,
        }
    }

    /// Indicates whether an id with the tag is a secret.
    pub fn is_secret(&self) -> (secret: bool)
        ensures
            secret == self.spec_is_secret(),
    {
        match self {
            Self::ClusterNodeId => false,
            Self::UserId => false,
            Self::UserToken => true,
            Self::UserTokenId => false,
            Self::UserSessionToken => true,
            Self::UserSessionId => false,
            Self::ProjectId => false,
            Self::ProjectToken => true,
            Self::ProjectTokenId => false,
            Self::ProjectInvitationId => false,
            Self::DeploymentToken => true,
            Self::DeploymentTokenId => false,
            Self::DeviceId => false,
            Self::DeviceFingerprint => true,
            Self::DeviceFingerprintId => false,
            Self::DeviceCertificateId => false,
            Self::DeviceConnectionId => false,
            Self::DeviceEventId => false,
            Self::RepositoryId => false,
            Self::RepositoryAssetId => false,
            Self::RepositoryInvitationId => false,
            Self::PackageId => false,
            Self::PackageVersionId => false,
            Self::JobId => false,
            Self::AuditLogActionId => false,
            Self::AuditLogEventId => false,
        }
    }

    /// Indicates whether an id with the tag starts with a date and time.
    pub fn is_dated(&self) -> (dated: bool)
        ensures
            dated == self.spec_is_dated(),
    {
        match self {
            Self::ClusterNodeId => false,
            Self::UserId => false,
            Self::UserToken => false,
            Self::UserTokenId => false,
            Self::UserSessionToken => false,
            Self::UserSessionId => false,
            Self::ProjectId => false,
            Self::ProjectToken => false,
            Self::ProjectTokenId => false,
            Self::ProjectInvitationId => false,
            Self::DeploymentToken => false,
            Self::DeploymentTokenId => false,
            Self::DeviceId => false,
            Self::DeviceFingerprint => false,
            Self::DeviceFingerprintId => false,
            Self::DeviceCertificateId => false,
            Self::DeviceConnectionId => false,
            Self::DeviceEventId => true,
            Self::RepositoryId => false,
            Self::RepositoryAssetId => false,
            Self::RepositoryInvitationId => false,
            Self::PackageId => false,
            Self::PackageVersionId => false,
            Self::JobId => true,
            Self::AuditLogActionId => true,
            Self::AuditLogEventId => true,
        }
    }

    /// The tag with the given string representation, if there is one.
    pub fn from_str(s: &str) -> (parsed: Result<Self, InvalidTagError>)
        ensures
            match Tag::named(s@) {
                Some(tag) => parsed is Ok && parsed->Ok_0 == tag,
                None => parsed is Err,
            },
            match parsed {
                Ok(tag) => tag.text() == s@,
                Err(_) => forall|tag: Tag| tag.text() != s@,
            },
    {
        if str_eq(s, "cluster_node") {
            Ok(Self::ClusterNodeId)
        } else if str_eq(s, "u") {
            Ok(Self::UserId)
        } else if str_eq(s, "u_sk") {
            Ok(Self::UserToken)
        } else if str_eq(s, "u_pk") {
            Ok(Self::UserTokenId)
        } else if str_eq(s, "u_session_sk") {
            Ok(Self::UserSessionToken)
        } else if str_eq(s, "u_session_pk") {
            Ok(Self::UserSessionId)
        } else if str_eq(s, "p") {
            Ok(Self::ProjectId)
        } else if str_eq(s, "p_sk") {
            Ok(Self::ProjectToken)
        } else if str_eq(s, "p_pk") {
            Ok(Self::ProjectTokenId)
        } else if str_eq(s, "p_invite") {
            Ok(Self::ProjectInvitationId)
        } else if str_eq(s, "deployment") {
            Ok(Self::DeploymentToken)
        } else if str_eq(s, "deployment_id") {
            Ok(Self::DeploymentTokenId)
        } else if str_eq(s, "d") {
            Ok(Self::DeviceId)
        } else if str_eq(s, "d_sk") {
            Ok(Self::DeviceFingerprint)
        } else if str_eq(s, "d_pk") {
            Ok(Self::DeviceFingerprintId)
        } else if str_eq(s, "d_c") {
            Ok(Self::DeviceCertificateId)
        } else if str_eq(s, "d_conn") {
            Ok(Self::DeviceConnectionId)
        } else if str_eq(s, "d_ev") {
            Ok(Self::DeviceEventId)
        } else if str_eq(s, "repo") {
            Ok(Self::RepositoryId)
        } else if str_eq(s, "repo_a") {
            Ok(Self::RepositoryAssetId)
        } else if str_eq(s, "repo_invite") {
            Ok(Self::RepositoryInvitationId)
        } else if str_eq(s, "pkg") {
            Ok(Self::PackageId)
        } else if str_eq(s, "pkg_v") {
            Ok(Self::PackageVersionId)
        } else if str_eq(s, "job") {
            Ok(Self::JobId)
        } else if str_eq(s, "audit_act") {
            Ok(Self::AuditLogActionId)
        } else if str_eq(s, "audit_ev") {
            Ok(Self::AuditLogEventId)
        } else {
            Err(InvalidTagError::new())
        }
    }
}

} // verus!
