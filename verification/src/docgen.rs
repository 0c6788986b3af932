//! The documentation command: what is asked of the documentation generator.

use vstd::prelude::*;

verus! {

/// The options of the documentation generator.
#[derive(Debug, Clone, PartialEq, Eq)]
pub struct DocgenOptions {
    /// The heading level at which sections start.
    pub section_level_start: usize,
    /// Whether private functions are documented.
    pub include_private_fun: bool,
    /// Whether specifications are documented.
    pub include_specs: bool,
    /// Whether specifications stand next to what they specify.
    pub specs_inlined: bool,
    /// Whether implementations are shown.
    pub include_impl: bool,
    /// The depth of the table of contents.
    pub toc_depth: usize,
    /// Whether sections are collapsed.
    pub collapsed_sections: bool,
    /// The directory that the documents are written to.
    pub output_directory: String,
    /// The templates of the root documents.
    pub root_doc_templates: Vec<String>,
    /// The file that holds the references, if any.
    pub references_file: Option<String>,
    /// Whether the package is compiled relative to the output directory.
    pub compile_relative_to_output_dir: bool,
}

/// The documentation command, with its package resolved.
#[derive(Debug, Clone, PartialEq, Eq)]
pub struct DocumentPackage {
    /// The directory of the package.
    pub package_path: String,
    /// The named addresses of the package, each with its value.
    pub named_addresses: Vec<(String, String)>,
    /// The bytecode version to build for.
    pub bytecode_version: u32,
    /// The options of the documentation generator.
    pub docgen_options: DocgenOptions,
}

/// What a build of the package produces and how it is made.
#[derive(Debug, Clone, PartialEq, Eq)]
pub struct BuildOptions {
    pub with_srcs: bool,
    pub with_abis: bool,
    pub with_source_maps: bool,
    pub with_error_map: bool,
    pub with_docs: bool,
    pub install_dir: Option<String>,
    pub named_addresses: Vec<(String, String)>,
    pub docgen_options: Option<DocgenOptions>,
    pub skip_fetch_latest_git_deps: bool,
    pub bytecode_version: Option<u32>,
}

/// A build to ask of the generator.
#[derive(Debug, Clone, PartialEq, Eq)]
pub struct BuildRequest {
    /// The directory of the package.
    pub package_path: String,
    /// The options of the build.
    pub options: BuildOptions,
}

/// The build that produces the documents of a package and nothing else:
/// no sources, ABIs, source maps or error map, no install directory, and no
/// fetching of git dependencies.
pub open spec fn documentation_build(command: DocumentPackage) -> BuildRequest {
    BuildRequest {
        package_path: command.package_path,
        options: BuildOptions {
            with_srcs: false,
            with_abis: false,
            with_source_maps: false,
            with_error_map: false,
            with_docs: true,
            install_dir: None,
            named_addresses: command.named_addresses,
            docgen_options: Some(command.docgen_options),
            skip_fetch_latest_git_deps: true,
            bytecode_version: Some(command.bytecode_version),
        },
    }
}

impl DocumentPackage {
    /// Returns the build to ask of the generator.
    pub fn execute(self) -> (request: BuildRequest)
        ensures
            request == documentation_build(self),
    {
        BuildRequest {
            package_path: self.package_path,
            options: BuildOptions {
                with_srcs: false,
                with_abis: false,
                with_source_maps: false,
                with_error_map: false,
                with_docs: true,
                install_dir: None,
                named_addresses: self.named_addresses,
                docgen_options: Some(self.docgen_options),
                skip_fetch_latest_git_deps: true,
                bytecode_version: Some(self.bytecode_version),
            },
        }
    }
}

} // verus!
