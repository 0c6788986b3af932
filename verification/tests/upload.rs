use movedogs::error::{ManifestField, UploadError};
use movedogs::json::json_list;
use movedogs::manifest::PackageInfo;
use movedogs::scan::{DocFile, UploadPart};
use movedogs::upload::{MetadataRecord, Upload, UploadInputs, UploadPlan};

const REMOTES: &str = "origin\tgit@github.com:acme/widget.git (fetch)\n\
                       origin\tgit@github.com:acme/widget.git (push)\n";

fn inputs(manifest: &str, documents: Vec<DocFile>) -> UploadInputs {
    UploadInputs {
        git_succeeded: true,
        git_output: REMOTES.to_string(),
        manifest: Some(manifest.to_string()),
        documents: Some(documents),
    }
}

#[test]
fn minimal_manifest_gives_empty_optional_fields() {
    let plan = Upload { description: None }
        .execute(inputs("[package]\nname = \"foo\"\nversion = \"1.0.0\"\n", vec![]))
        .unwrap();
    assert_eq!(plan.metadata.package_name, "foo");
    assert_eq!(plan.metadata.version, "1.0.0");
    assert_eq!(plan.metadata.license, "");
    assert_eq!(plan.metadata.authors, "[]");
    assert_eq!(plan.metadata.description, "");
    assert_eq!(plan.metadata.module_names, "[]");
    assert_eq!(plan.metadata.github, "https://github.com/acme/widget");
    assert!(plan.parts.is_empty());
}

#[test]
fn whole_upload_is_planned() {
    let manifest = "[package]\nname = \"widget\"\nversion = \"0.3.1\"\nlicense = \"MIT\"\n\
                    authors = [\"Ann\", \"Bo \\\"B\\\" Li\"]\n";
    let a = "# Module `0x42::gear`\n";
    let b = "plain\n";
    let documents = vec![
        DocFile { name: "gear.md".to_string(), content: Some(a.to_string()) },
        DocFile { name: "notes.txt".to_string(), content: None },
        DocFile { name: "overview.md".to_string(), content: Some(b.to_string()) },
    ];
    let plan = Upload { description: Some("Gears".to_string()) }.execute(inputs(manifest, documents));
    assert_eq!(
        plan,
        Ok(UploadPlan {
            metadata: MetadataRecord {
                package_name: "widget".to_string(),
                version: "0.3.1".to_string(),
                license: "MIT".to_string(),
                authors: "[\"Ann\",\"Bo \\\"B\\\" Li\"]".to_string(),
                description: "Gears".to_string(),
                module_names: "[\"gear\"]".to_string(),
                github: "https://github.com/acme/widget".to_string(),
            },
            parts: vec![
                UploadPart { file_name: "widget+gear.md".to_string(), content: a.to_string() },
                UploadPart { file_name: "widget".to_string(), content: b.to_string() },
            ],
        })
    );
}

#[test]
fn manifest_without_package_stops_the_upload() {
    let documents = vec![DocFile { name: "a.md".to_string(), content: Some("x".to_string()) }];
    assert_eq!(
        Upload { description: None }.execute(inputs("[addresses]\nstd = \"0x1\"\n", documents)),
        Err(UploadError::RequiredFieldMissing(ManifestField::Package))
    );
}

#[test]
fn first_failing_step_gives_the_error() {
    let all_bad = UploadInputs {
        git_succeeded: false,
        git_output: String::new(),
        manifest: None,
        documents: None,
    };
    assert_eq!(
        Upload { description: None }.execute(all_bad.clone()),
        Err(UploadError::NotAGitRepository)
    );
    let git_ok = UploadInputs { git_succeeded: true, git_output: REMOTES.to_string(), ..all_bad };
    assert_eq!(
        Upload { description: None }.execute(git_ok.clone()),
        Err(UploadError::ManifestMissing)
    );
    let bad_manifest = UploadInputs { manifest: Some("x = ".to_string()), ..git_ok.clone() };
    assert_eq!(
        Upload { description: None }.execute(bad_manifest),
        Err(UploadError::ManifestMalformed)
    );
    let manifest_ok = UploadInputs {
        manifest: Some("[package]\nname = \"a\"\nversion = \"1\"\n".to_string()),
        ..git_ok
    };
    assert_eq!(
        Upload { description: None }.execute(manifest_ok.clone()),
        Err(UploadError::DocFileUnreadable)
    );
    let unreadable = UploadInputs {
        documents: Some(vec![DocFile { name: "a.md".to_string(), content: None }]),
        ..manifest_ok
    };
    assert_eq!(
        Upload { description: None }.execute(unreadable),
        Err(UploadError::DocFileUnreadable)
    );
}

#[test]
fn malformed_remote_line_stops_the_upload() {
    let bad = UploadInputs {
        git_succeeded: true,
        git_output: "origin git@github.com:acme/widget.git".to_string(),
        manifest: Some("[package]\nname = \"a\"\nversion = \"1\"\n".to_string()),
        documents: Some(vec![]),
    };
    assert_eq!(Upload { description: None }.execute(bad), Err(UploadError::MalformedRemoteLine));
}

#[test]
fn repository_link_may_be_missing() {
    let no_github = UploadInputs {
        git_succeeded: true,
        git_output: "origin\thttps://example.org/a.git (fetch)\n".to_string(),
        manifest: Some("[package]\nname = \"a\"\nversion = \"1\"\n".to_string()),
        documents: Some(vec![]),
    };
    let plan = Upload { description: None }.execute(no_github).unwrap();
    assert_eq!(plan.metadata.github, "");
}

#[test]
fn string_lists_are_encoded_as_json() {
    assert_eq!(json_list(&vec![]), "[]");
    assert_eq!(json_list(&vec!["coin".to_string()]), "[\"coin\"]");
    assert_eq!(
        json_list(&vec!["a\"b".to_string(), "c\\d".to_string(), "e\nf".to_string()]),
        "[\"a\\\"b\",\"c\\\\d\",\"e\\nf\"]"
    );
    assert_eq!(json_list(&vec![String::new(), "é".to_string()]), "[\"\",\"é\"]");
}

#[test]
fn record_is_assembled_from_its_parts() {
    let info = PackageInfo {
        name: "foo".to_string(),
        version: "1.0.0".to_string(),
        license: "Apache-2.0".to_string(),
        authors: vec!["Ann".to_string()],
    };
    let record = MetadataRecord::assemble(
        info,
        Some("about".to_string()),
        &vec!["coin".to_string(), "account".to_string()],
        "https://github.com/acme/foo".to_string(),
    );
    assert_eq!(
        record,
        MetadataRecord {
            package_name: "foo".to_string(),
            version: "1.0.0".to_string(),
            license: "Apache-2.0".to_string(),
            authors: "[\"Ann\"]".to_string(),
            description: "about".to_string(),
            module_names: "[\"coin\",\"account\"]".to_string(),
            github: "https://github.com/acme/foo".to_string(),
        }
    );
}

#[test]
fn body_fields_have_fixed_names() {
    let record = MetadataRecord {
        package_name: "foo".to_string(),
        version: "1.0.0".to_string(),
        license: "MIT".to_string(),
        authors: "[]".to_string(),
        description: "d".to_string(),
        module_names: "[\"m\"]".to_string(),
        github: "g".to_string(),
    };
    let pairs: Vec<(String, String)> = vec![
        ("github", "g"),
        ("packageName", "foo"),
        ("version", "1.0.0"),
        ("license", "MIT"),
        ("authors", "[]"),
        ("description", "d"),
        ("moduleNames", "[\"m\"]"),
    ]
    .into_iter()
    .map(|(k, v)| (k.to_string(), v.to_string()))
    .collect();
    assert_eq!(record.fields(), pairs);
}
