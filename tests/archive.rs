use package_maker::archive::first_matching_key;
use std::io::Write;

use package_maker::archive::{
    inspect_archive,
    base_name, guess_build_sys_from_zip, guess_license_from_archive, guess_license_from_archive_file,
    open_archive, search_like, ArchiveError, MemArchive,
};
use package_maker::license::GPL_V_3_SNIPPET;
use package_maker::pkg::try_guess_license_build_sys_from_url;

fn zip_bytes(entries: &[(&str, &str)]) -> Vec<u8> {
    let mut w = zip::ZipWriter::new(std::io::Cursor::new(Vec::new()));
    for (name, content) in entries {
        let opts = zip::write::SimpleFileOptions::default().compression_method(zip::CompressionMethod::Stored);
        w.start_file(*name, opts).unwrap();
        w.write_all(content.as_bytes()).unwrap();
    }
    w.finish().unwrap().into_inner()
}

fn archive(entries: &[(&str, &str)]) -> MemArchive {
    open_archive(zip_bytes(entries)).unwrap()
}

#[test]
fn base_name_strips_directories() {
    assert_eq!(base_name("src/main"), "main");
    assert_eq!(base_name("a/b/LICENSE"), "LICENSE");
    assert_eq!(base_name("README"), "README");
    assert_eq!(base_name("dir/"), "");
}

#[test]
fn find_by_name_ignores_case() {
    let mut a = archive(&[("README", "r"), ("LICENSE", "l"), ("src/main", "m")]);
    assert_eq!(search_like(&mut a, &["license"]), Some(1));
    assert_eq!(search_like(&mut a, &["LICENSE"]), Some(1));
    assert_eq!(search_like(&mut a, &["License"]), Some(1));
    assert_eq!(search_like(&mut a, &["main"]), Some(2));
    assert_eq!(search_like(&mut a, &["copying"]), None);
}

#[test]
fn find_by_name_returns_first_entry() {
    let mut a = archive(&[("a/COPYING", "x"), ("b/license", "y"), ("LICENSE", "z")]);
    assert_eq!(search_like(&mut a, &["license", "copying"]), Some(0));
    assert_eq!(search_like(&mut a, &["license"]), Some(1));
}

#[test]
fn meson_has_priority_over_configure() {
    let mut a = archive(&[("pkg/configure", "#!/bin/sh"), ("pkg/meson.build", "project('x')")]);
    assert_eq!(guess_build_sys_from_zip(&mut a), Some("Meson".to_string()));
}

#[test]
fn configure_then_cmake() {
    let mut a = archive(&[("pkg/CMakeLists.txt", "x"), ("pkg/configure", "y")]);
    assert_eq!(guess_build_sys_from_zip(&mut a), Some("Configure & Make".to_string()));
    let mut b = archive(&[("pkg/CMakeLists.txt", "x")]);
    assert_eq!(guess_build_sys_from_zip(&mut b), Some("CMake & Make".to_string()));
    let mut c = archive(&[("pkg/README", "x")]);
    assert_eq!(guess_build_sys_from_zip(&mut c), None);
}

#[test]
fn license_from_archive() {
    let mut a = archive(&[("pkg/README", "hello"), ("pkg/LICENSE", GPL_V_3_SNIPPET)]);
    assert_eq!(guess_license_from_archive(&mut a), Some("GPL-3.0-only".to_string()));
    assert_eq!(guess_license_from_archive_file(&mut a, 0), Some("Unknown".to_string()));
    let mut b = archive(&[("pkg/README", "hello")]);
    assert_eq!(guess_license_from_archive(&mut b), None);
}

#[test]
fn corrupt_archive_is_refused() {
    assert_eq!(open_archive(b"not a zip at all".to_vec()).err(), Some(ArchiveError::CorruptArchive));
}

#[test]
fn inspect_fetched_zip() {
    let bytes = zip_bytes(&[("foo-1.0/LICENSE", GPL_V_3_SNIPPET), ("foo-1.0/meson.build", "project('foo')")]);
    let (license, build) = try_guess_license_build_sys_from_url("https://example.com/dl/foo-1.0.zip", bytes.clone());
    assert_eq!(license, Some("GPL-3.0-only".to_string()));
    assert_eq!(build, Some("Meson".to_string()));
    let (l2, b2) = try_guess_license_build_sys_from_url("https://example.com/dl/foo-1.0.tar.gz", bytes);
    assert_eq!((l2, b2), (None, None));
    let (l3, b3) = try_guess_license_build_sys_from_url("https://example.com/dl/foo.zip", b"junk".to_vec());
    assert_eq!((l3, b3), (None, None));
}

#[test]
fn first_matching_key_order() {
    let keys = vec![None, Some("readme".to_string()), Some("license".to_string()), Some("copying".to_string())];
    let cands = vec!["copying".to_string(), "license".to_string()];
    assert_eq!(first_matching_key(&keys, &cands), Some(2));
    assert_eq!(first_matching_key(&keys, &vec!["x".to_string()]), None);
    assert_eq!(first_matching_key(&Vec::new(), &cands), None);
}

#[test]
fn inspect_archive_bytes() {
    let bytes = zip_bytes(&[("p/COPYING", GPL_V_3_SNIPPET), ("p/LICENSE", "MIT"), ("p/configure", "x")]);
    assert_eq!(inspect_archive(bytes), (Some("GPL-3.0-only".to_string()), Some("Configure & Make".to_string())));
    assert_eq!(inspect_archive(b"PK\x05\x06 truncated".to_vec()), (None, None));
    assert_eq!(inspect_archive(Vec::new()), (None, None));
}
