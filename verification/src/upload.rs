//! The upload command: what is sent, and how the answers are handled.

use crate::error::UploadError;
use crate::json::{json_array, json_list};
use crate::manifest::{
    has_package_table, lemma_package_table_is_required, manifest_outcome, read_manifest,
    PackageInfo, PackageInfoView,
};
use crate::toml_table::document_of;
use crate::remote::{resolution, resolve_repository_url};
use crate::scan::{
    all_readable, part_texts, scan_documents, scanned_modules, scanned_parts, DocFile,
    UploadPart,
};
use crate::text::texts;
use vstd::prelude::*;

verus! {

/// The upload command and its options.
#[derive(Debug, Clone, PartialEq, Eq)]
pub struct Upload {
    /// A short description of the package.
    pub description: Option<String>,
}

/// What the upload command reads before it sends anything.
#[derive(Debug, Clone, PartialEq, Eq)]
pub struct UploadInputs {
    /// Whether listing the git remotes exited with success.
    pub git_succeeded: bool,
    /// What listing the git remotes printed.
    pub git_output: String,
    /// The text of the manifest, or `None` when it could not be read.
    pub manifest: Option<String>,
    /// The entries of the documentation directory, or `None` when it could
    /// not be listed.
    pub documents: Option<Vec<DocFile>>,
}

/// The metadata of a package, as sent to the metadata endpoint.
#[derive(Debug, Clone, PartialEq, Eq)]
pub struct MetadataRecord {
    pub package_name: String,
    pub version: String,
    pub license: String,
    /// The author list, as a JSON array.
    pub authors: String,
    pub description: String,
    /// The module names, as a JSON array.
    pub module_names: String,
    /// The URL of the repository; empty when no remote names GitHub.
    pub github: String,
}

/// What the upload command sends: the metadata first, then the documents.
#[derive(Debug, Clone, PartialEq, Eq)]
pub struct UploadPlan {
    pub metadata: MetadataRecord,
    pub parts: Vec<UploadPart>,
}

/// The mathematical value of a `MetadataRecord`.
pub struct MetadataView {
    pub package_name: Seq<char>,
    pub version: Seq<char>,
    pub license: Seq<char>,
    pub authors: Seq<char>,
    pub description: Seq<char>,
    pub module_names: Seq<char>,
    pub github: Seq<char>,
}

impl View for MetadataRecord {
    type V = MetadataView;

    open spec fn view(&self) -> MetadataView {
        MetadataView {
            package_name: self.package_name@,
            version: self.version@,
            license: self.license@,
            authors: self.authors@,
            description: self.description@,
            module_names: self.module_names@,
            github: self.github@,
        }
    }
}

/// The description that the command line gave; empty when it gave none.
pub open spec fn description_text(description: Option<String>) -> Seq<char> {
    match description {
        Some(text) => text@,
        None => Seq::empty(),
    }
}

/// The metadata record of a package: its manifest data, the description, the
/// module names and the repository URL. The two lists are JSON arrays.
pub open spec fn metadata_of(
    info: PackageInfoView,
    description: Seq<char>,
    module_names: Seq<Seq<char>>,
    github: Seq<char>,
) -> MetadataView {
    MetadataView {
        package_name: info.name,
        version: info.version,
        license: info.license,
        authors: json_array(info.authors),
        description,
        module_names: json_array(module_names),
        github,
    }
}

/// The name and the value of each field of the JSON body that carries a
/// metadata record.
pub open spec fn body_fields(record: MetadataView) -> Seq<(Seq<char>, Seq<char>)> {
    seq![
        ("github"@, record.github),
        ("packageName"@, record.package_name),
        ("version"@, record.version),
        ("license"@, record.license),
        ("authors"@, record.authors),
        ("description"@, record.description),
        ("moduleNames"@, record.module_names),
    ]
}

/// The views of a list of pairs of strings.
pub open spec fn pair_texts(pairs: Seq<(String, String)>) -> Seq<(Seq<char>, Seq<char>)> {
    Seq::new(pairs.len(), |i: int| (pairs[i].0@, pairs[i].1@))
}

/// Why nothing is sent: the first of the steps before the upload that fails,
/// in the order remotes, manifest, documents. `None` when all succeed.
pub open spec fn upload_failure(inputs: UploadInputs) -> Option<UploadError> {
    match resolution(inputs.git_succeeded, inputs.git_output@) {
        Err(e) => Some(e),
        Ok(_) => match inputs.manifest {
            None => Some(UploadError::ManifestMissing),
            Some(text) => match manifest_outcome(text@) {
                Err(e) => Some(e),
                Ok(_) => match inputs.documents {
                    None => Some(UploadError::DocFileUnreadable),
                    Some(files) => if all_readable(files@) {
                        None
                    } else {
                        Some(UploadError::DocFileUnreadable)
                    },
                },
            },
        },
    }
}

/// The metadata record that is sent when no step before the upload fails.
pub open spec fn planned_metadata(description: Option<String>, inputs: UploadInputs) -> MetadataView {
    metadata_of(
        manifest_outcome(inputs.manifest->0@)->Ok_0,
        description_text(description),
        scanned_modules(inputs.documents->0@),
        resolution(inputs.git_succeeded, inputs.git_output@)->Ok_0,
    )
}

/// The documents that are sent when no step before the upload fails.
pub open spec fn planned_parts(inputs: UploadInputs) -> Seq<(Seq<char>, Seq<char>)> {
    scanned_parts(manifest_outcome(inputs.manifest->0@)->Ok_0.name, inputs.documents->0@)
}

/// An upload whose manifest has no `package` table sends nothing: a step
/// before the upload fails, whatever the other inputs are.
pub proof fn lemma_upload_needs_package_table(inputs: UploadInputs)
    requires
        inputs.manifest matches Some(text) ==> (document_of(text@) matches Some(entries)
            ==> !has_package_table(entries)),
    ensures
        upload_failure(inputs) is Some,
{
    if let Some(text) = inputs.manifest {
        lemma_package_table_is_required(text@);
    }
}

impl MetadataRecord {
    /// Puts a metadata record together, encoding the two lists as JSON
    /// arrays.
    pub fn assemble(
        info: PackageInfo,
        description: Option<String>,
        module_names: &Vec<String>,
        github: String,
    ) -> (record: MetadataRecord)
        ensures
            record@ == metadata_of(
                info@,
                description_text(description),
                texts(module_names@),
                github@,
            ),
    {
        let authors = json_list(&info.authors);
        let module_names = json_list(module_names);
        let description = match description {
            Some(text) => text,
            None => String::new(),
        };
        MetadataRecord {
            package_name: info.name,
            version: info.version,
            license: info.license,
            authors,
            description,
            module_names,
            github,
        }
    }

    /// Returns the fields of the JSON body that carries this record, each
    /// with its name.
    pub fn fields(&self) -> (pairs: Vec<(String, String)>)
        ensures
            pair_texts(pairs@) == body_fields(self@),
    {
        let mut pairs: Vec<(String, String)> = Vec::new();
        pairs.push(("github".to_owned(), self.github.clone()));
        pairs.push(("packageName".to_owned(), self.package_name.clone()));
        pairs.push(("version".to_owned(), self.version.clone()));
        pairs.push(("license".to_owned(), self.license.clone()));
        pairs.push(("authors".to_owned(), self.authors.clone()));
        pairs.push(("description".to_owned(), self.description.clone()));
        pairs.push(("moduleNames".to_owned(), self.module_names.clone()));
        proof {
            assert(pair_texts(pairs@) =~= body_fields(self@));
        }
        pairs
    }
}

impl Upload {
    /// Decides what to send, from what was read.
    ///
    /// The steps are taken in this order, and the first that fails gives the
    /// error: the repository URL is resolved from the git remotes, the
    /// manifest is read, the documentation directory is scanned. Nothing is
    /// to be sent unless all of them succeed.
    pub fn execute(self, inputs: UploadInputs) -> (r: Result<UploadPlan, UploadError>)
        ensures
            match r {
                Ok(plan) => {
                    &&& upload_failure(inputs) is None
                    &&& plan.metadata@ == planned_metadata(self.description, inputs)
                    &&& part_texts(plan.parts@) == planned_parts(inputs)
                },
                Err(e) => upload_failure(inputs) == Some(e),
            },
    {
        let github = match resolve_repository_url(inputs.git_succeeded, inputs.git_output.as_str()) {
            Ok(url) => url,
            Err(e) => {
                return Err(e);
            },
        };
        let info = match &inputs.manifest {
            None => {
                return Err(UploadError::ManifestMissing);
            },
            Some(text) => match read_manifest(text.as_str()) {
                Ok(info) => info,
                Err(e) => {
                    return Err(e);
                },
            },
        };
        let scan = match &inputs.documents {
            None => {
                return Err(UploadError::DocFileUnreadable);
            },
            Some(files) => match scan_documents(info.name.as_str(), files) {
                Ok(scan) => scan,
                Err(e) => {
                    return Err(e);
                },
            },
        };
        let metadata = MetadataRecord::assemble(info, self.description, &scan.module_names, github);
        Ok(UploadPlan { metadata, parts: scan.parts })
    }
}

} // verus!
