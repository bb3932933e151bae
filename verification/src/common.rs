//! Paths that name an asset of a package version in a repository.

use crate::ids::errors::InvalidIdError;
use crate::ids::has_prefix;
use crate::ids::ids::RepositoryAssetId;
use crate::ids::starts_with;
use crate::ids::tagged_refusal;
use crate::text::split_first;
use crate::text::tail;
use crate::text::head;
use vstd::prelude::*;
use vstd::string::StringSliceAdditionalSpecFns;
use vstd::utf8::encode_utf8;

verus! {

/// Why a path is refused.
#[derive(Debug, Clone, Copy, PartialEq, Eq, Structural)]
pub enum ParsePathError {
    /// The path names no repository.
    MissingRepository,
    /// The path names no package.
    MissingPackage,
    /// The path names no version tag.
    MissingVersionTag,
    /// The path names no filename.
    MissingFilename,
    /// The path has more parts than it may have.
    TooManyParts,
}

impl ParsePathError {
    /// The error in words.
    pub fn message(&self) -> (message: &'static str)
        ensures
            message@ == match self {
                ParsePathError::MissingRepository => "missing repository"@,
                ParsePathError::MissingPackage => "missing package"@,
                ParsePathError::MissingVersionTag => "missing version tag"@,
                ParsePathError::MissingFilename => "missing filename"@,
                ParsePathError::TooManyParts => "too many parts in package name"@,
            },
    {
        match self {
            ParsePathError::MissingRepository => "missing repository",
            ParsePathError::MissingPackage => "missing package",
            ParsePathError::MissingVersionTag => "missing version tag",
            ParsePathError::MissingFilename => "missing filename",
            ParsePathError::TooManyParts => "too many parts in package name",
        }
    }
}

/// What an asset path names, as plain values.
pub ghost struct AssetPathView {
    /// Name of the repository.
    pub repository: Seq<char>,
    /// Name of the package.
    pub package: Seq<char>,
    /// Tag of the version.
    pub tag: Seq<char>,
    /// Name of the file, which may hold further `/`.
    pub filename: Seq<char>,
}

/// Path of an asset: `repository/package/tag/filename`.
#[derive(Debug)]
pub struct AssetPath {
    repository: String,
    package: String,
    tag: String,
    filename: String,
}

impl View for AssetPath {
    type V = AssetPathView;

    closed spec fn view(&self) -> AssetPathView {
        AssetPathView {
            repository: self.repository@,
            package: self.package@,
            tag: self.tag@,
            filename: self.filename@,
        }
    }
}

impl AssetPath {
    /// Name of the repository.
    pub fn repository(&self) -> (repository: &str)
        ensures
            repository@ == self@.repository,
    {
        self.repository.as_str()
    }

    /// Name of the package.
    pub fn package(&self) -> (package: &str)
        ensures
            package@ == self@.package,
    {
        self.package.as_str()
    }

    /// Tag of the version.
    pub fn tag(&self) -> (tag: &str)
        ensures
            tag@ == self@.tag,
    {
        self.tag.as_str()
    }

    /// Name of the file.
    pub fn filename(&self) -> (filename: &str)
        ensures
            filename@ == self@.filename,
    {
        self.filename.as_str()
    }
}

/// What a path names as an asset, or why it names none.
///
/// The first three parts between `/` are the repository, the package and the
/// version tag. All that follows the third `/` is the filename, which is
/// empty where there is no third `/`.
pub open spec fn asset_path(path: Seq<char>) -> Result<AssetPathView, ParsePathError> {
    match tail(path, '/') {
        None => Err(ParsePathError::MissingPackage),
        Some(behind_repository) => match tail(behind_repository, '/') {
            None => Err(ParsePathError::MissingVersionTag),
            Some(behind_package) => Ok(
                AssetPathView {
                    repository: head(path, '/'),
                    package: head(behind_repository, '/'),
                    tag: head(behind_package, '/'),
                    filename: match tail(behind_package, '/') {
                        Some(filename) => filename,
                        None => Seq::empty(),
                    },
                },
            ),
        },
    }
}

/// Parse the path of an asset.
pub fn parse_asset_path(path: &str) -> (parsed: Result<AssetPath, ParsePathError>)
    ensures
        match asset_path(path@) {
            Ok(view) => parsed is Ok && parsed->Ok_0@ == view,
            Err(error) => parsed == Err::<AssetPath, ParsePathError>(error),
        },
{
    let (repository, rest) = split_first(path, '/');
    let rest = match rest {
        Some(rest) => rest,
        None => {
            return Err(ParsePathError::MissingPackage);
        },
    };
    let (package, rest) = split_first(rest, '/');
    let rest = match rest {
        Some(rest) => rest,
        None => {
            return Err(ParsePathError::MissingVersionTag);
        },
    };
    let (tag, rest) = split_first(rest, '/');
    let filename = match rest {
        Some(filename) => filename.to_owned(),
        None => String::new(),
    };
    Ok(
        AssetPath {
            repository: repository.to_owned(),
            package: package.to_owned(),
            tag: tag.to_owned(),
            filename,
        },
    )
}

/// Why what names an asset is refused.
#[derive(Debug)]
pub enum AssetRefError {
    /// It starts like an id and is none.
    InvalidId(InvalidIdError),
    /// It is a path with parts missing.
    InvalidPath(ParsePathError),
}

/// What names an asset: its id, or its path.
#[derive(Debug)]
pub enum AssetRef {
    /// The id of the asset.
    Id(RepositoryAssetId),
    /// The path of the asset, to be looked up.
    Path(AssetPath),
}

/// What a text names as an asset: what starts with `repo_a_` is an id, and
/// anything else is a path.
pub fn asset_ref(asset: &str) -> (parsed: Result<AssetRef, AssetRefError>)
    ensures
        has_prefix(asset.spec_bytes(), "repo_a_".spec_bytes()) ==> match tagged_refusal(
            asset.spec_bytes(),
            "repo_a_".spec_bytes(),
            false,
            22,
            "invalid prefix (expected: `repo_a_`)"@,
            "invalid size of raw id (expected: 22)"@,
        ) {
            Some(reason) => parsed matches Err(AssetRefError::InvalidId(error))
                && error.reason_text() == reason,
            None => parsed matches Ok(AssetRef::Id(id)) && encode_utf8(id@)
                == asset.spec_bytes().skip("repo_a_".spec_bytes().len() as int),
        },
        !has_prefix(asset.spec_bytes(), "repo_a_".spec_bytes()) ==> match asset_path(asset@) {
            Ok(view) => parsed matches Ok(AssetRef::Path(path)) && path@ == view,
            Err(refused) => parsed matches Err(AssetRefError::InvalidPath(error)) && error
                == refused,
        },
{
    if starts_with(asset.as_bytes(), "repo_a_".as_bytes()) {
        return match RepositoryAssetId::from_str(asset) {
            Ok(id) => Ok(AssetRef::Id(id)),
            Err(error) => Err(AssetRefError::InvalidId(error)),
        };
    }
    match parse_asset_path(asset) {
        Ok(path) => Ok(AssetRef::Path(path)),
        Err(error) => Err(AssetRefError::InvalidPath(error)),
    }
}

} // verus!
