//! Types shared by the actions that the hub offers.

use crate::ids::ids::ProjectId;
use crate::ids::ids::RepositoryId;
use crate::ids::ids::UserId;
use crate::ids::tag::str_eq;
use vstd::prelude::*;
use vstd::std_specs::convert::FromSpecImpl;

verus! {

/// A JSON web token, as text.
pub struct Jwt(String);

impl View for Jwt {
    type V = Seq<char>;

    closed spec fn view(&self) -> Seq<char> {
        self.0@
    }
}

impl Jwt {
    /// Wraps the text of a token without looking at it.
    pub fn from_string_unchecked(jwt: String) -> (token: Self)
        ensures
            token@ == jwt@,
    {
        Self(jwt)
    }

    /// The text of the token.
    pub fn as_str(&self) -> (text: &str)
        ensures
            text@ == self@,
    {
        self.0.as_str()
    }
}

/// A resource that can be audited.
pub enum AuditEntity {
    /// A project.
    Project(ProjectId),
    /// A user.
    User(UserId),
    /// A repository.
    Repository(RepositoryId),
}

impl From<ProjectId> for AuditEntity {
    fn from(value: ProjectId) -> (entity: Self) {
        Self::Project(value)
    }
}

impl FromSpecImpl<ProjectId> for AuditEntity {
    open spec fn obeys_from_spec() -> bool {
        true
    }

    open spec fn from_spec(value: ProjectId) -> Self {
        AuditEntity::Project(value)
    }
}

impl From<UserId> for AuditEntity {
    fn from(value: UserId) -> (entity: Self) {
        Self::User(value)
    }
}

impl FromSpecImpl<UserId> for AuditEntity {
    open spec fn obeys_from_spec() -> bool {
        true
    }

    open spec fn from_spec(value: UserId) -> Self {
        AuditEntity::User(value)
    }
}

impl From<RepositoryId> for AuditEntity {
    fn from(value: RepositoryId) -> (entity: Self) {
        Self::Repository(value)
    }
}

impl FromSpecImpl<RepositoryId> for AuditEntity {
    open spec fn obeys_from_spec() -> bool {
        true
    }

    open spec fn from_spec(value: RepositoryId) -> Self {
        AuditEntity::Repository(value)
    }
}

/// Represents an event that can be recorded in the audit log.
pub trait Event {
    /// Unique name of the event.
    fn name() -> &'static str;

    /// Affected entities.
    fn audit_entities(&self) -> Vec<AuditEntity>;
}

/// How severe an event on a device is.
#[derive(Debug, Clone, Copy, PartialEq, Eq, Structural)]
pub enum DeviceEventSeverity {
    /// Details for tracing.
    Trace,
    /// Details for debugging.
    Debug,
    /// Information.
    Info,
    /// Something to look at.
    Warning,
    /// Something failed.
    Error,
    /// Something failed that must not fail.
    Critical,
}

impl DeviceEventSeverity {
    /// The name of the severity.
    pub open spec fn text(self) -> Seq<char> {
        match self {
            DeviceEventSeverity::Trace => "trace"@,
            DeviceEventSeverity::Debug => "debug"@,
            DeviceEventSeverity::Info => "info"@,
            DeviceEventSeverity::Warning => "warning"@,
            DeviceEventSeverity::Error => "error"@,
            DeviceEventSeverity::Critical => "critical"@,
        }
    }

    /// The severity with the given name, if there is one.
    pub open spec fn named(text: Seq<char>) -> Option<DeviceEventSeverity> {
        if text == "trace"@ {
            Some(DeviceEventSeverity::Trace)
        } else if text == "debug"@ {
            Some(DeviceEventSeverity::Debug)
        } else if text == "info"@ {
            Some(DeviceEventSeverity::Info)
        } else if text == "warning"@ {
            Some(DeviceEventSeverity::Warning)
        } else if text == "error"@ {
            Some(DeviceEventSeverity::Error)
        } else if text == "critical"@ {
            Some(DeviceEventSeverity::Critical)
        } else {
            None
        }
    }

    /// Parse the name of a severity.
    pub fn from_str(s: &str) -> (parsed: Result<Self, &'static str>)
        ensures
            match DeviceEventSeverity::named(s@) {
                Some(severity) => parsed == Ok::<DeviceEventSeverity, &'static str>(severity),
                None => parsed is Err && parsed->Err_0@ == "invalid severity"@,
            },
    {
        if str_eq(s, "trace") {
            Ok(DeviceEventSeverity::Trace)
        } else if str_eq(s, "debug") {
            Ok(DeviceEventSeverity::Debug)
        } else if str_eq(s, "info") {
            Ok(DeviceEventSeverity::Info)
        } else if str_eq(s, "warning") {
            Ok(DeviceEventSeverity::Warning)
        } else if str_eq(s, "error") {
            Ok(DeviceEventSeverity::Error)
        } else if str_eq(s, "critical") {
            Ok(DeviceEventSeverity::Critical)
        } else {
            Err("invalid severity")
        }
    }
}

impl Default for DeviceEventSeverity {
    fn default() -> (severity: Self)
        ensures
            severity == DeviceEventSeverity::Info,
    {
        DeviceEventSeverity::Info
    }
}

} // verus!
