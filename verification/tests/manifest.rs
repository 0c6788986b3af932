use movedogs::error::{ManifestField, UploadError};
use movedogs::manifest::{
    package_info, parse_manifest, read_manifest, Authors, Entry, Manifest, PackageInfo,
    PackageTable,
};

fn text(s: &str) -> Entry {
    Entry::Text(s.to_string())
}

#[test]
fn manifest_without_package_table_fails() {
    let manifest = "[addresses]\nstd = \"0x1\"\n";
    assert_eq!(
        read_manifest(manifest),
        Err(UploadError::RequiredFieldMissing(ManifestField::Package))
    );
    assert_eq!(read_manifest(""), Err(UploadError::RequiredFieldMissing(ManifestField::Package)));
}

#[test]
fn minimal_manifest_gets_defaults() {
    let manifest = "[package]\nname = \"foo\"\nversion = \"1.0.0\"\n";
    assert_eq!(
        read_manifest(manifest),
        Ok(PackageInfo {
            name: "foo".to_string(),
            version: "1.0.0".to_string(),
            license: String::new(),
            authors: vec![],
        })
    );
}

#[test]
fn full_manifest_is_read() {
    let manifest = "[package]\nname = \"widget\"\nversion = \"0.3.1\"\nlicense = \"MIT\"\n\
                    authors = [\"Ann <ann@example.org>\", \"Bo\"]\n\n\
                    [addresses]\nwidget = \"0x42\"\n";
    assert_eq!(
        read_manifest(manifest),
        Ok(PackageInfo {
            name: "widget".to_string(),
            version: "0.3.1".to_string(),
            license: "MIT".to_string(),
            authors: vec!["Ann <ann@example.org>".to_string(), "Bo".to_string()],
        })
    );
}

#[test]
fn text_that_is_not_toml_is_malformed() {
    assert_eq!(read_manifest("[package\nname = foo"), Err(UploadError::ManifestMalformed));
    assert_eq!(read_manifest("name = "), Err(UploadError::ManifestMalformed));
    assert_eq!(parse_manifest("= 3"), Err(UploadError::ManifestMalformed));
}

#[test]
fn missing_name_or_version_is_reported() {
    assert_eq!(
        read_manifest("[package]\nversion = \"1.0.0\"\n"),
        Err(UploadError::RequiredFieldMissing(ManifestField::Name))
    );
    assert_eq!(
        read_manifest("[package]\nname = \"foo\"\n"),
        Err(UploadError::RequiredFieldMissing(ManifestField::Version))
    );
    assert_eq!(
        read_manifest("[package]\n"),
        Err(UploadError::RequiredFieldMissing(ManifestField::Name))
    );
}

#[test]
fn package_that_is_not_a_table_has_no_name() {
    assert_eq!(
        read_manifest("package = \"foo\"\n"),
        Err(UploadError::RequiredFieldMissing(ManifestField::Name))
    );
    assert_eq!(
        parse_manifest("package = 3\n"),
        Ok(Manifest {
            package: Some(PackageTable {
                name: Entry::Absent,
                version: Entry::Absent,
                license: Entry::Absent,
                authors: Authors::Absent,
            })
        })
    );
}

#[test]
fn values_that_are_not_strings_count_as_empty() {
    let manifest = "[package]\nname = 7\nversion = true\nlicense = [\"MIT\"]\n";
    assert_eq!(
        read_manifest(manifest),
        Ok(PackageInfo {
            name: String::new(),
            version: String::new(),
            license: String::new(),
            authors: vec![],
        })
    );
}

#[test]
fn authors_must_be_a_list_of_strings() {
    let head = "[package]\nname = \"foo\"\nversion = \"1.0.0\"\n";
    assert_eq!(
        read_manifest(&format!("{}authors = \"Ann\"\n", head)),
        Err(UploadError::ManifestMalformed)
    );
    assert_eq!(
        read_manifest(&format!("{}authors = [\"Ann\", 3]\n", head)),
        Err(UploadError::ManifestMalformed)
    );
    assert_eq!(
        read_manifest(&format!("{}authors = []\n", head)).map(|info| info.authors),
        Ok(vec![])
    );
}

#[test]
fn required_fields_come_before_authors() {
    assert_eq!(
        read_manifest("[package]\nversion = \"1\"\nauthors = 3\n"),
        Err(UploadError::RequiredFieldMissing(ManifestField::Name))
    );
}

#[test]
fn parsed_manifest_shows_what_each_key_holds() {
    let manifest = "[package]\nname = \"foo\"\nversion = 2\nauthors = [\"a\", \"b\"]\n";
    assert_eq!(
        parse_manifest(manifest),
        Ok(Manifest {
            package: Some(PackageTable {
                name: text("foo"),
                version: Entry::Other,
                license: Entry::Absent,
                authors: Authors::Names(vec!["a".to_string(), "b".to_string()]),
            })
        })
    );
    assert_eq!(parse_manifest("[addresses]\n"), Ok(Manifest { package: None }));
}

#[test]
fn package_info_from_plain_values() {
    let table = PackageTable {
        name: text("foo"),
        version: text("1.0.0"),
        license: Entry::Absent,
        authors: Authors::Absent,
    };
    assert_eq!(
        package_info(Manifest { package: Some(table.clone()) }),
        Ok(PackageInfo {
            name: "foo".to_string(),
            version: "1.0.0".to_string(),
            license: String::new(),
            authors: vec![],
        })
    );
    assert_eq!(
        package_info(Manifest { package: None }),
        Err(UploadError::RequiredFieldMissing(ManifestField::Package))
    );
    assert_eq!(
        package_info(Manifest {
            package: Some(PackageTable { authors: Authors::Other, ..table.clone() })
        }),
        Err(UploadError::ManifestMalformed)
    );
    assert_eq!(
        package_info(Manifest {
            package: Some(PackageTable { version: Entry::Absent, ..table })
        }),
        Err(UploadError::RequiredFieldMissing(ManifestField::Version))
    );
}
