//! The ways in which documentation generation and upload can fail.

use vstd::prelude::*;

verus! {

/// A part of the manifest that an upload cannot do without.
#[derive(Debug, Clone, Copy, PartialEq, Eq)]
pub enum ManifestField {
    /// The `package` table.
    Package,
    /// The `name` key of the `package` table.
    Name,
    /// The `version` key of the `package` table.
    Version,
}

/// Why a command stopped.
#[derive(Debug, Clone, PartialEq, Eq)]
pub enum UploadError {
    /// The manifest file could not be read.
    ManifestMissing,
    /// The manifest is not a TOML document, or its author list is not a
    /// list of strings.
    ManifestMalformed,
    /// The manifest lacks a required part.
    RequiredFieldMissing(ManifestField),
    /// Listing the git remotes failed or printed nothing.
    NotAGitRepository,
    /// A remote line that names GitHub does not have three fields.
    MalformedRemoteLine,
    /// The documentation directory or one of its files could not be read.
    DocFileUnreadable,
    /// The service answered with a 4xx status; the text is its answer.
    RemoteClientError(String),
    /// The service answered with a 5xx status, or did not answer.
    RemoteServerError,
    /// The documentation generator failed; the text is its message.
    GenerationFailed(String),
}

impl UploadError {
    /// The text shown to the user for this error.
    pub open spec fn message_text(self) -> Seq<char> {
        match self {
            UploadError::ManifestMissing => "Unable to read Move.toml"@,
            UploadError::ManifestMalformed => "Move.toml is malformed"@,
            UploadError::RequiredFieldMissing(ManifestField::Package) =>
                "package is not defined in Move.toml"@,
            UploadError::RequiredFieldMissing(ManifestField::Name) =>
                "package name is not defined in Move.toml"@,
            UploadError::RequiredFieldMissing(ManifestField::Version) =>
                "package version is not defined in Move.toml"@,
            UploadError::NotAGitRepository => "invalid git repository"@,
            UploadError::MalformedRemoteLine => "invalid remote url"@,
            UploadError::DocFileUnreadable => "Unable to read md file"@,
            UploadError::RemoteClientError(body) => body@,
            UploadError::RemoteServerError =>
                "An unexpected error occurred. Please try again later"@,
            UploadError::GenerationFailed(reason) => reason@,
        }
    }

    /// Returns a copy of this error.
    pub fn duplicate(&self) -> (e: UploadError)
        ensures
            e == *self,
    {
        match self {
            UploadError::ManifestMissing => UploadError::ManifestMissing,
            UploadError::ManifestMalformed => UploadError::ManifestMalformed,
            UploadError::RequiredFieldMissing(field) => UploadError::RequiredFieldMissing(*field),
            UploadError::NotAGitRepository => UploadError::NotAGitRepository,
            UploadError::MalformedRemoteLine => UploadError::MalformedRemoteLine,
            UploadError::DocFileUnreadable => UploadError::DocFileUnreadable,
            UploadError::RemoteClientError(body) => UploadError::RemoteClientError(body.clone()),
            UploadError::RemoteServerError => UploadError::RemoteServerError,
            UploadError::GenerationFailed(reason) => UploadError::GenerationFailed(reason.clone()),
        }
    }

    /// Returns the text shown to the user for this error.
    pub fn message(&self) -> (s: String)
        ensures
            s@ == self.message_text(),
    {
        match self {
            UploadError::ManifestMissing => "Unable to read Move.toml".to_owned(),
            UploadError::ManifestMalformed => "Move.toml is malformed".to_owned(),
            UploadError::RequiredFieldMissing(ManifestField::Package) =>
                "package is not defined in Move.toml".to_owned(),
            UploadError::RequiredFieldMissing(ManifestField::Name) =>
                "package name is not defined in Move.toml".to_owned(),
            UploadError::RequiredFieldMissing(ManifestField::Version) =>
                "package version is not defined in Move.toml".to_owned(),
            UploadError::NotAGitRepository => "invalid git repository".to_owned(),
            UploadError::MalformedRemoteLine => "invalid remote url".to_owned(),
            UploadError::DocFileUnreadable => "Unable to read md file".to_owned(),
            UploadError::RemoteClientError(body) => body.clone(),
            UploadError::RemoteServerError =>
                "An unexpected error occurred. Please try again later".to_owned(),
            UploadError::GenerationFailed(reason) => reason.clone(),
        }
    }
}

} // verus!
