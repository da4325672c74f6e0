use package_maker::origin::name_version_of_segments;
use package_maker::origin::repo_of_parts;
use package_maker::origin::{
    extract_name_version, hosted_repo, kind_of_file_name, name_version_of_file, update_license_id,
    url_format, url_kind_analyze, ArchiveKind, OriginError, UrlKind,
};

#[test]
fn classify_by_extension() {
    assert_eq!(url_kind_analyze("https://github.com/owner/repo.git"), Ok(UrlKind::VersionControlled));
    assert_eq!(url_kind_analyze("https://example.com/dl/foo-1.2.3.zip"), Ok(UrlKind::Archive(ArchiveKind::Zip)));
    assert_eq!(url_kind_analyze("https://github.com/owner/repo"), Ok(UrlKind::VersionControlled));
    assert_eq!(url_kind_analyze("https://example.com/dl/foo-1.2.tar.gz"), Ok(UrlKind::Archive(ArchiveKind::Other)));
    assert_eq!(url_kind_analyze("https://example.com/"), Ok(UrlKind::VersionControlled));
}

#[test]
fn invalid_url_refused() {
    assert_eq!(url_kind_analyze("not a url"), Err(OriginError::InvalidUrl));
    assert_eq!(extract_name_version("no scheme here"), Err(OriginError::InvalidUrl));
}

#[test]
fn file_name_kinds() {
    assert_eq!(kind_of_file_name(".git"), UrlKind::VersionControlled);
    assert_eq!(kind_of_file_name("a.ZIP"), UrlKind::Archive(ArchiveKind::Other));
    assert_eq!(kind_of_file_name("a."), UrlKind::Archive(ArchiveKind::Other));
}

#[test]
fn name_and_version_from_file_name() {
    assert_eq!(name_version_of_file("foo-1.2.3.zip"), ("foo".to_string(), "1.2.3".to_string()));
    assert_eq!(name_version_of_file("gtk 3.24.zip"), ("gtk".to_string(), "3.24".to_string()));
    assert_eq!(name_version_of_file("2.0.zip"), ("".to_string(), "2.0".to_string()));
    assert_eq!(name_version_of_file("bar.zip"), ("bar".to_string(), "".to_string()));
    assert_eq!(name_version_of_file("xy-1.2.3.4.zip"), ("xy".to_string(), "1.2.3".to_string()));
    assert_eq!(name_version_of_file("x-1.2.zip"), ("".to_string(), "".to_string()));
}

#[test]
fn name_and_version_from_url() {
    assert_eq!(
        extract_name_version("https://example.com/releases/foo-1.2.3.zip"),
        Ok(("foo".to_string(), "1.2.3".to_string()))
    );
    assert_eq!(
        extract_name_version("https://github.com/owner/project/archive/1.2.zip"),
        Ok(("project".to_string(), "1.2".to_string()))
    );
    assert_eq!(
        extract_name_version("https://example.com/owner/project/v2/2.0.zip"),
        Ok(("project".to_string(), "2.0".to_string()))
    );
    assert_eq!(extract_name_version("https://example.com/1.0.zip"), Ok(("".to_string(), "1.0".to_string())));
}

#[test]
fn hosted_repository() {
    assert_eq!(
        hosted_repo("https://github.com/owner/repo/archive/v1.zip"),
        Some(("owner".to_string(), "repo".to_string()))
    );
    assert_eq!(hosted_repo("https://gitlab.com/owner/repo"), None);
    assert_eq!(hosted_repo("https://github.com/owner"), None);
}

#[test]
fn license_ids_and_locators() {
    assert_eq!(update_license_id("GPL-3.0".to_string()), "GPL-3.0-or-later");
    assert_eq!(update_license_id("MIT".to_string()), "MIT");
    assert_eq!(url_format("https://x.org/r.git", UrlKind::VersionControlled), "git|https://x.org/r.git");
    assert_eq!(url_format("https://x.org/r.zip", UrlKind::Archive(ArchiveKind::Zip)), "https://x.org/r.zip");
}

#[test]
fn name_and_version_from_segments() {
    let segs: Vec<String> = ["owner", "project", "v2", "2.0.zip"].iter().map(|s| s.to_string()).collect();
    assert_eq!(name_version_of_segments(&segs), ("project".to_string(), "2.0".to_string()));
    let short: Vec<String> = vec!["3.1.zip".to_string()];
    assert_eq!(name_version_of_segments(&short), ("".to_string(), "3.1".to_string()));
    assert_eq!(name_version_of_segments(&Vec::new()), ("".to_string(), "".to_string()));
}

#[test]
fn repository_from_parts() {
    let segs = vec!["me".to_string(), "tool".to_string(), "x".to_string()];
    assert_eq!(repo_of_parts("github.com", &segs), Some(("me".to_string(), "tool".to_string())));
    assert_eq!(repo_of_parts("example.com", &segs), None);
    assert_eq!(repo_of_parts("github.com", &vec!["me".to_string()]), None);
}
