//! What the command line names: paths into repositories, ports to forward,
//! and tags to add.

use crate::common::ParsePathError;
use crate::ids::errors::InvalidIdError;
use crate::ids::has_prefix;
use crate::ids::ids::DeviceId;
use crate::ids::ids::PackageId;
use crate::ids::ids::PackageVersionId;
use crate::ids::ids::RepositoryAssetId;
use crate::ids::ids::RepositoryId;
use crate::ids::shown_text;
use crate::ids::starts_with;
use crate::ids::tag::Tag;
use crate::ids::tagged_refusal;
use crate::ids::tag::str_eq;
use crate::text::decimal_text;
use crate::text::head;
use crate::text::parse_u16;
use crate::text::parsed_u16;
use crate::text::push_decimal;
use crate::text::split_first;
use crate::text::tail;
use std::path::PathBuf;
use vstd::prelude::*;
use vstd::string::StringExecFns;
use vstd::string::StringSliceAdditionalSpecFns;
use vstd::utf8::encode_utf8;

pub mod config;

verus! {

/// Packages subcommand.
pub enum PackagesCmd {
    /// Create a new package.
    Create {
        /// Repository name or ID.
        repository: String,
        /// Package name.
        name: String,
    },
    /// Delete a package.
    Delete {
        /// Package path or ID.
        package: String,
    },
}

/// What a tag argument says, as plain values.
pub ghost struct AddTagView {
    /// The tag to add.
    pub tag: Seq<char>,
    /// Whether the tag is locked to the version.
    pub locked: bool,
    /// Whether the tag may be taken from another version.
    pub reassign: bool,
}

/// Argument describing a tag to add: the tag, and behind it, after commas,
/// the options `locked` and `reassign`.
#[derive(Debug)]
pub struct AddTagArg {
    tag: String,
    locked: bool,
    reassign: bool,
}

impl View for AddTagArg {
    type V = AddTagView;

    closed spec fn view(&self) -> AddTagView {
        AddTagView { tag: self.tag@, locked: self.locked, reassign: self.reassign }
    }
}

/// Why a tag argument is refused.
#[derive(Debug)]
pub enum AddTagError {
    /// An option is neither `locked` nor `reassign`.
    UnknownOption(String),
}

/// What a run of options behind a tag says, given what the options before
/// them said, or the first option among them that is unknown.
pub open spec fn tag_options(options: Option<Seq<char>>, locked: bool, reassign: bool) -> Result<
    (bool, bool),
    Seq<char>,
>
    decreases
            match options {
                Some(text) => text.len() + 1,
                None => 0,
            },
    via tag_options_decreases
{
    match options {
        None => Ok((locked, reassign)),
        Some(text) => {
            let option = head(text, ',');
            let rest = tail(text, ',');
            if option == "locked"@ {
                tag_options(rest, true, reassign)
            } else if option == "reassign"@ {
                tag_options(rest, locked, true)
            } else {
                Err(option)
            }
        },
    }
}

#[via_fn]
proof fn tag_options_decreases(options: Option<Seq<char>>, locked: bool, reassign: bool) {
    if options is Some {
        lemma_tail_is_shorter(options->0, ',');
    }
}

/// What a tag argument says, or its first unknown option.
pub open spec fn add_tag(text: Seq<char>) -> Result<AddTagView, Seq<char>> {
    match tag_options(tail(text, ','), false, false) {
        Ok((locked, reassign)) => Ok(AddTagView { tag: head(text, ','), locked, reassign }),
        Err(option) => Err(option),
    }
}

/// What stands behind the first separator is shorter than the whole.
proof fn lemma_tail_is_shorter(text: Seq<char>, separator: char)
    ensures
        tail(text, separator) is Some ==> tail(text, separator)->0.len() < text.len(),
{
    if tail(text, separator) is Some {
        let at = crate::text::first_char(text, separator)->0;
        assert(crate::text::is_first_char(text, separator, at));
    }
}

impl AddTagArg {
    /// The tag to add.
    pub fn tag(&self) -> (tag: &str)
        ensures
            tag@ == self@.tag,
    {
        self.tag.as_str()
    }

    /// Whether the tag is locked to the version.
    pub fn locked(&self) -> (locked: bool)
        ensures
            locked == self@.locked,
    {
        self.locked
    }

    /// Whether the tag may be taken from another version.
    pub fn reassign(&self) -> (reassign: bool)
        ensures
            reassign == self@.reassign,
    {
        self.reassign
    }

    /// Parse a tag argument.
    pub fn from_str(s: &str) -> (parsed: Result<Self, AddTagError>)
        ensures
            match add_tag(s@) {
                Ok(view) => parsed is Ok && parsed->Ok_0@ == view,
                Err(option) => parsed matches Err(AddTagError::UnknownOption(unknown)) && unknown@
                    == option,
            },
    {
        let (tag, rest) = split_first(s, ',');
        let mut rest = rest;
        let mut locked = false;
        let mut reassign = false;
        loop
            invariant
                tag_options(rest_view(rest), locked, reassign) == tag_options(
                    tail(s@, ','),
                    false,
                    false,
                ),
                tag@ == head(s@, ','),
            decreases
                    match rest {
                        Some(text) => text@.len() + 1,
                        None => 0,
                    },
        {
            let text = match rest {
                Some(text) => text,
                None => {
                    return Ok(Self { tag: tag.to_owned(), locked, reassign });
                },
            };
            proof {
                lemma_tail_is_shorter(text@, ',');
            }
            let (option, next) = split_first(text, ',');
            if str_eq(option, "locked") {
                locked = true;
            } else if str_eq(option, "reassign") {
                reassign = true;
            } else {
                return Err(AddTagError::UnknownOption(option.to_owned()));
            }
            rest = next;
        }
    }
}

/// What is left of a text, as a sequence of characters.
pub open spec fn rest_view(rest: Option<&str>) -> Option<Seq<char>> {
    match rest {
        Some(text) => Some(text@),
        None => None,
    }
}

/// Package versions subcommand.
pub enum PackageVersionsCmd {
    /// Resolve a package version path.
    Resolve {
        /// Package version path.
        version: String,
    },
    /// Create a new package version.
    Create {
        /// Package path or ID.
        package: String,
        /// Tags to add.
        tags: Vec<AddTagArg>,
    },
    /// Delete a package version.
    Delete {
        /// Package version path or ID.
        version: String,
    },
    /// Get information about a package version.
    Info {
        /// Package version path or ID.
        version: String,
    },
    /// Manage the assets of a package version.
    Assets(VersionAssetsCommand),
    /// Add tags to a version.
    Tag {
        /// Package version path or ID.
        version: String,
        /// Tags to add.
        tags: Vec<AddTagArg>,
    },
}

/// Subcommand for the assets of a package version.
pub enum VersionAssetsCommand {
    /// Add an asset to a package version.
    Add {
        /// Package version path or ID.
        version: String,
        /// Asset ID.
        asset_id: RepositoryAssetId,
        /// Asset Filename.
        filename: String,
    },
    /// Remove an asset from a package version.
    Remove {
        /// Package version path or ID.
        version: String,
        /// Asset filename.
        filename: String,
    },
}

/// Assets subcommand.
pub enum AssetsCmd {
    /// Upload an asset to the repository.
    Upload {
        /// Repository name or ID.
        repository: String,
        /// Path to the asset.
        path: String,
    },
}

/// Why a pair of ports is refused.
#[derive(Debug, Clone, Copy, PartialEq, Eq, Structural)]
pub enum ForwardPortsError {
    /// The local port is no 16-bit number.
    InvalidLocalPort,
    /// No remote port is given.
    MissingRemotePort,
    /// The remote port is no 16-bit number.
    InvalidRemotePort,
}

/// Forward ports: `local:remote`.
#[derive(Debug, Clone, Copy, PartialEq, Eq, Structural)]
pub struct ForwardPorts {
    /// Local port.
    pub local: u16,
    /// Remote port.
    pub remote: u16,
}

/// The pair of ports that a text names, or why it names none: the local port
/// stands before the first `:` and the remote port behind it, up to the next
/// `:` if there is one.
pub open spec fn forward_ports(text: Seq<char>) -> Result<ForwardPorts, ForwardPortsError> {
    match parsed_u16(head(text, ':')) {
        None => Err(ForwardPortsError::InvalidLocalPort),
        Some(local) => match tail(text, ':') {
            None => Err(ForwardPortsError::MissingRemotePort),
            Some(rest) => match parsed_u16(head(rest, ':')) {
                None => Err(ForwardPortsError::InvalidRemotePort),
                Some(remote) => Ok(ForwardPorts { local, remote }),
            },
        },
    }
}

impl ForwardPorts {
    /// Parse a pair of ports.
    pub fn from_str(s: &str) -> (parsed: Result<Self, ForwardPortsError>)
        ensures
            parsed == forward_ports(s@),
    {
        let (local, rest) = split_first(s, ':');
        let local = match parse_u16(local) {
            Some(local) => local,
            None => {
                return Err(ForwardPortsError::InvalidLocalPort);
            },
        };
        let rest = match rest {
            Some(rest) => rest,
            None => {
                return Err(ForwardPortsError::MissingRemotePort);
            },
        };
        let (remote, _) = split_first(rest, ':');
        match parse_u16(remote) {
            Some(remote) => Ok(Self { local, remote }),
            None => Err(ForwardPortsError::InvalidRemotePort),
        }
    }
}

/// The endpoint on a device to which a local port is forwarded: the TCP port
/// of the device behind its proxy.
pub open spec fn forward_endpoint_text(device: Seq<char>, remote: u16) -> Seq<char> {
    "device/"@ + shown_text(Tag::DeviceId, device) + "/proxy/forward/tcp/"@ + decimal_text(
        remote as nat,
    )
}

/// The endpoint to open for forwarding to the remote port of a device.
pub fn forward_endpoint(device: &DeviceId, forward: &ForwardPorts) -> (endpoint: String)
    ensures
        endpoint@ == forward_endpoint_text(device@, forward.remote),
{
    let mut endpoint = String::from_str("device/");
    endpoint.append(device.to_string().as_str());
    endpoint.append("/proxy/forward/tcp/");
    push_decimal(&mut endpoint, forward.remote);
    endpoint
}

/// What a version path names, as plain values.
pub ghost struct VersionPathView {
    /// Name of the repository.
    pub repository: Seq<char>,
    /// Name of the package.
    pub package: Seq<char>,
    /// Tag of the version.
    pub tag: Seq<char>,
}

/// Path of a package version: `repository/package/tag`.
#[derive(Debug)]
pub struct VersionPath {
    repository: String,
    package: String,
    tag: String,
}

impl View for VersionPath {
    type V = VersionPathView;

    closed spec fn view(&self) -> VersionPathView {
        VersionPathView { repository: self.repository@, package: self.package@, tag: self.tag@ }
    }
}

impl VersionPath {
    /// Name of the repository.
    pub fn repository(&self) -> (repository: &str)
        ensures
            repository@ == self@.repository,
    {
        self.repository.as_str()
    }

    /// Name of the package.
    pub fn package(&self) -> (package: &str)
        ensures
            package@ == self@.package,
    {
        self.package.as_str()
    }

    /// Tag of the version.
    pub fn tag(&self) -> (tag: &str)
        ensures
            tag@ == self@.tag,
    {
        self.tag.as_str()
    }
}

/// What a path names as a package version, or why it names none: exactly
/// three parts between `/`.
pub open spec fn version_path(path: Seq<char>) -> Result<VersionPathView, ParsePathError> {
    match tail(path, '/') {
        None => Err(ParsePathError::MissingPackage),
        Some(behind_repository) => match tail(behind_repository, '/') {
            None => Err(ParsePathError::MissingVersionTag),
            Some(behind_package) => match tail(behind_package, '/') {
                Some(_) => Err(ParsePathError::TooManyParts),
                None => Ok(
                    VersionPathView {
                        repository: head(path, '/'),
                        package: head(behind_repository, '/'),
                        tag: behind_package,
                    },
                ),
            },
        },
    }
}

/// Parse the path of a package version.
pub fn parse_version_path(path: &str) -> (parsed: Result<VersionPath, ParsePathError>)
    ensures
        match version_path(path@) {
            Ok(view) => parsed is Ok && parsed->Ok_0@ == view,
            Err(error) => parsed == Err::<VersionPath, ParsePathError>(error),
        },
{
    let (repository, rest) = split_first(path, '/');
    let rest = match rest {
        Some(rest) => rest,
        None => {
            return Err(ParsePathError::MissingPackage);
        },
    };
    let (package, rest) = split_first(rest, '/');
    let rest = match rest {
        Some(rest) => rest,
        None => {
            return Err(ParsePathError::MissingVersionTag);
        },
    };
    let (tag, rest) = split_first(rest, '/');
    if rest.is_some() {
        return Err(ParsePathError::TooManyParts);
    }
    Ok(
        VersionPath {
            repository: repository.to_owned(),
            package: package.to_owned(),
            tag: tag.to_owned(),
        },
    )
}

/// What an asset path names, as plain values.
pub ghost struct AssetPathView {
    /// Name of the repository.
    pub repository: Seq<char>,
    /// Name of the package.
    pub package: Seq<char>,
    /// Tag of the version.
    pub tag: Seq<char>,
    /// Name of the file.
    pub filename: Seq<char>,
}

/// Path of an asset of a package version:
/// `repository/package/tag/filename`.
#[derive(Debug)]
pub struct AssetPath {
    repository: String,
    package: String,
    tag: String,
    filename: String,
}

impl View for AssetPath {
    type V = AssetPathView;

    closed spec fn view(&self) -> AssetPathView {
        AssetPathView {
            repository: self.repository@,
            package: self.package@,
            tag: self.tag@,
            filename: self.filename@,
        }
    }
}

impl AssetPath {
    /// Name of the repository.
    pub fn repository(&self) -> (repository: &str)
        ensures
            repository@ == self@.repository,
    {
        self.repository.as_str()
    }

    /// Name of the package.
    pub fn package(&self) -> (package: &str)
        ensures
            package@ == self@.package,
    {
        self.package.as_str()
    }

    /// Tag of the version.
    pub fn tag(&self) -> (tag: &str)
        ensures
            tag@ == self@.tag,
    {
        self.tag.as_str()
    }

    /// Name of the file.
    pub fn filename(&self) -> (filename: &str)
        ensures
            filename@ == self@.filename,
    {
        self.filename.as_str()
    }
}

/// What a path names as an asset of a package version, or why it names
/// none: exactly four parts between `/`.
pub open spec fn asset_path(path: Seq<char>) -> Result<AssetPathView, ParsePathError> {
    match tail(path, '/') {
        None => Err(ParsePathError::MissingPackage),
        Some(behind_repository) => match tail(behind_repository, '/') {
            None => Err(ParsePathError::MissingVersionTag),
            Some(behind_package) => match tail(behind_package, '/') {
                None => Err(ParsePathError::MissingFilename),
                Some(behind_tag) => match tail(behind_tag, '/') {
                    Some(_) => Err(ParsePathError::TooManyParts),
                    None => Ok(
                        AssetPathView {
                            repository: head(path, '/'),
                            package: head(behind_repository, '/'),
                            tag: head(behind_package, '/'),
                            filename: behind_tag,
                        },
                    ),
                },
            },
        },
    }
}

/// Parse the path of an asset of a package version.
pub fn parse_asset_path(path: &str) -> (parsed: Result<AssetPath, ParsePathError>)
    ensures
        match asset_path(path@) {
            Ok(view) => parsed is Ok && parsed->Ok_0@ == view,
            Err(error) => parsed == Err::<AssetPath, ParsePathError>(error),
        },
{
    let (repository, rest) = split_first(path, '/');
    let rest = match rest {
        Some(rest) => rest,
        None => {
            return Err(ParsePathError::MissingPackage);
        },
    };
    let (package, rest) = split_first(rest, '/');
    let rest = match rest {
        Some(rest) => rest,
        None => {
            return Err(ParsePathError::MissingVersionTag);
        },
    };
    let (tag, rest) = split_first(rest, '/');
    let rest = match rest {
        Some(rest) => rest,
        None => {
            return Err(ParsePathError::MissingFilename);
        },
    };
    let (filename, rest) = split_first(rest, '/');
    if rest.is_some() {
        return Err(ParsePathError::TooManyParts);
    }
    Ok(
        AssetPath {
            repository: repository.to_owned(),
            package: package.to_owned(),
            tag: tag.to_owned(),
            filename: filename.to_owned(),
        },
    )
}

/// Where the configuration is read from: the path given on the command
/// line, else the file in the current directory if there is one, else the
/// file in the home directory if there is one.
pub fn choose_config_path(
    given: Option<PathBuf>,
    local: Option<PathBuf>,
    home: Option<PathBuf>,
) -> (chosen: Option<PathBuf>)
    ensures
        chosen == if given is Some {
            given
        } else if local is Some {
            local
        } else {
            home
        },
{
    if given.is_some() {
        given
    } else if local.is_some() {
        local
    } else {
        home
    }
}

/// Why what names a thing in a repository is refused.
#[derive(Debug)]
pub enum ReferenceError {
    /// It starts like an id and is none.
    InvalidId(InvalidIdError),
    /// It is a path with parts missing or too many.
    InvalidPath(ParsePathError),
}

/// What names a repository: its id, or its name.
#[derive(Debug)]
pub enum RepositoryRef {
    /// The id of the repository.
    Id(RepositoryId),
    /// The name of the repository, to be looked up.
    Name(String),
}

/// What a text names as a repository: what starts with `repo_` is an id,
/// and anything else is a name.
pub fn repository_ref(repository: &str) -> (parsed: Result<RepositoryRef, ReferenceError>)
    ensures
        has_prefix(repository.spec_bytes(), "repo_".spec_bytes()) ==> match tagged_refusal(
            repository.spec_bytes(),
            "repo_".spec_bytes(),
            false,
            22,
            "invalid prefix (expected: `repo_`)"@,
            "invalid size of raw id (expected: 22)"@,
        ) {
            Some(reason) => parsed matches Err(ReferenceError::InvalidId(error))
                && error.reason_text() == reason,
            None => parsed matches Ok(RepositoryRef::Id(id)) && encode_utf8(id@)
                == repository.spec_bytes().skip("repo_".spec_bytes().len() as int),
        },
        !has_prefix(repository.spec_bytes(), "repo_".spec_bytes()) ==> (parsed matches Ok(
            RepositoryRef::Name(name),
        ) && name@ == repository@),
{
    if starts_with(repository.as_bytes(), "repo_".as_bytes()) {
        match RepositoryId::from_str(repository) {
            Ok(id) => Ok(RepositoryRef::Id(id)),
            Err(error) => Err(ReferenceError::InvalidId(error)),
        }
    } else {
        Ok(RepositoryRef::Name(repository.to_owned()))
    }
}

/// What names a package: its id, or the names of its repository and of
/// itself.
#[derive(Debug)]
pub enum PackageRef {
    /// The id of the package.
    Id(PackageId),
    /// The path of the package, to be looked up.
    Path {
        /// Name of the repository.
        repository: String,
        /// Name of the package.
        package: String,
    },
}

/// The names that a package path holds, or why it holds none: exactly two
/// parts between `/`.
pub open spec fn package_path(path: Seq<char>) -> Result<(Seq<char>, Seq<char>), ParsePathError> {
    match tail(path, '/') {
        None => Err(ParsePathError::MissingPackage),
        Some(behind_repository) => match tail(behind_repository, '/') {
            Some(_) => Err(ParsePathError::TooManyParts),
            None => Ok((head(path, '/'), behind_repository)),
        },
    }
}

/// What a text names as a package: what starts with `pkg_` is an id, and
/// anything else is a path `repository/package`.
pub fn package_ref(package: &str) -> (parsed: Result<PackageRef, ReferenceError>)
    ensures
        has_prefix(package.spec_bytes(), "pkg_".spec_bytes()) ==> match tagged_refusal(
            package.spec_bytes(),
            "pkg_".spec_bytes(),
            false,
            22,
            "invalid prefix (expected: `pkg_`)"@,
            "invalid size of raw id (expected: 22)"@,
        ) {
            Some(reason) => parsed matches Err(ReferenceError::InvalidId(error))
                && error.reason_text() == reason,
            None => parsed matches Ok(PackageRef::Id(id)) && encode_utf8(id@)
                == package.spec_bytes().skip("pkg_".spec_bytes().len() as int),
        },
        !has_prefix(package.spec_bytes(), "pkg_".spec_bytes()) ==> match package_path(package@) {
            Ok(names) => parsed matches Ok(PackageRef::Path { repository, package: name })
                && repository@ == names.0 && name@ == names.1,
            Err(refused) => parsed matches Err(ReferenceError::InvalidPath(error)) && error
                == refused,
        },
{
    if starts_with(package.as_bytes(), "pkg_".as_bytes()) {
        return match PackageId::from_str(package) {
            Ok(id) => Ok(PackageRef::Id(id)),
            Err(error) => Err(ReferenceError::InvalidId(error)),
        };
    }
    let (repository, rest) = split_first(package, '/');
    let rest = match rest {
        Some(rest) => rest,
        None => {
            return Err(ReferenceError::InvalidPath(ParsePathError::MissingPackage));
        },
    };
    let (name, rest) = split_first(rest, '/');
    if rest.is_some() {
        return Err(ReferenceError::InvalidPath(ParsePathError::TooManyParts));
    }
    Ok(PackageRef::Path { repository: repository.to_owned(), package: name.to_owned() })
}

/// What names a package version: its id, or its path.
#[derive(Debug)]
pub enum VersionRef {
    /// The id of the version.
    Id(PackageVersionId),
    /// The path of the version, to be looked up.
    Path(VersionPath),
}

/// What a text names as a package version: what starts with `pkg_v` is an
/// id, and anything else is a path `repository/package/tag`.
pub fn version_ref(version: &str) -> (parsed: Result<VersionRef, ReferenceError>)
    ensures
        has_prefix(version.spec_bytes(), "pkg_v".spec_bytes()) ==> match tagged_refusal(
            version.spec_bytes(),
            "pkg_v_".spec_bytes(),
            false,
            22,
            "invalid prefix (expected: `pkg_v_`)"@,
            "invalid size of raw id (expected: 22)"@,
        ) {
            Some(reason) => parsed matches Err(ReferenceError::InvalidId(error))
                && error.reason_text() == reason,
            None => parsed matches Ok(VersionRef::Id(id)) && encode_utf8(id@)
                == version.spec_bytes().skip("pkg_v_".spec_bytes().len() as int),
        },
        !has_prefix(version.spec_bytes(), "pkg_v".spec_bytes()) ==> match version_path(version@) {
            Ok(view) => parsed matches Ok(VersionRef::Path(path)) && path@ == view,
            Err(refused) => parsed matches Err(ReferenceError::InvalidPath(error)) && error
                == refused,
        },
{
    if starts_with(version.as_bytes(), "pkg_v".as_bytes()) {
        return match PackageVersionId::from_str(version) {
            Ok(id) => Ok(VersionRef::Id(id)),
            Err(error) => Err(ReferenceError::InvalidId(error)),
        };
    }
    match parse_version_path(version) {
        Ok(path) => Ok(VersionRef::Path(path)),
        Err(error) => Err(ReferenceError::InvalidPath(error)),
    }
}

/// What names an asset: its id, or its path.
#[derive(Debug)]
pub enum AssetRef {
    /// The id of the asset.
    Id(RepositoryAssetId),
    /// The path of the asset, to be looked up.
    Path(AssetPath),
}

/// What a text names as an asset: what starts with `repo_a_` is an id, and
/// anything else is a path `repository/package/tag/filename`.
pub fn asset_ref(asset: &str) -> (parsed: Result<AssetRef, ReferenceError>)
    ensures
        has_prefix(asset.spec_bytes(), "repo_a_".spec_bytes()) ==> match tagged_refusal(
            asset.spec_bytes(),
            "repo_a_".spec_bytes(),
            false,
            22,
            "invalid prefix (expected: `repo_a_`)"@,
            "invalid size of raw id (expected: 22)"@,
        ) {
            Some(reason) => parsed matches Err(ReferenceError::InvalidId(error))
                && error.reason_text() == reason,
            None => parsed matches Ok(AssetRef::Id(id)) && encode_utf8(id@)
                == asset.spec_bytes().skip("repo_a_".spec_bytes().len() as int),
        },
        !has_prefix(asset.spec_bytes(), "repo_a_".spec_bytes()) ==> match asset_path(asset@) {
            Ok(view) => parsed matches Ok(AssetRef::Path(path)) && path@ == view,
            Err(refused) => parsed matches Err(ReferenceError::InvalidPath(error)) && error
                == refused,
        },
{
    if starts_with(asset.as_bytes(), "repo_a_".as_bytes()) {
        return match RepositoryAssetId::from_str(asset) {
            Ok(id) => Ok(AssetRef::Id(id)),
            Err(error) => Err(ReferenceError::InvalidId(error)),
        };
    }
    match parse_asset_path(asset) {
        Ok(path) => Ok(AssetRef::Path(path)),
        Err(error) => Err(ReferenceError::InvalidPath(error)),
    }
}

} // verus!
