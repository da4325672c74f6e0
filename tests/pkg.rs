use std::io::Write;

use package_maker::anchor::calc_sha;
use package_maker::origin::OriginError;
use package_maker::pkg::{
    build_steps, build_sys_from_steps, from_url, try_guess_license_build_sys_from_url, PkgData, PkgDataUrl,
    RepoFacts,
};

fn origin(summary: Option<&str>, license: Option<&str>, build: Option<&str>) -> PkgDataUrl {
    PkgDataUrl {
        name: "foo".to_string(),
        version: "2.0".to_string(),
        source: "https://example.com/foo-2.0.zip".to_string(),
        summary: summary.map(|s| s.to_string()),
        license: license.map(|s| s.to_string()),
        build_sys: build.map(|s| s.to_string()),
    }
}

#[test]
fn fusion_keeps_filled_fields() {
    let mut d = PkgData::new();
    d.summary = "mine".to_string();
    d.license = "MIT".to_string();
    d.build_sys = "CMake & Make".to_string();
    d.version = "1.0".to_string();
    d.join_url_data(&origin(Some("theirs"), Some("GPL-3.0-only"), Some("Meson")));
    assert_eq!(d.summary, "mine");
    assert_eq!(d.license, "MIT");
    assert_eq!(d.build_sys, "CMake & Make");
    assert_eq!(d.version, "2.0");
    assert_eq!(d.name, "foo");
    assert_eq!(d.description, "theirs");
    assert_eq!(d.source, "https://example.com/foo-2.0.zip");
}

#[test]
fn fusion_fills_empty_fields() {
    let mut d = PkgData::new();
    d.name = "bar".to_string();
    d.join_url_data(&origin(Some("A tool"), Some("GPL-3.0-only"), Some("Meson")));
    assert_eq!(d.name, "bar");
    assert_eq!(d.summary, "A tool");
    assert_eq!(d.description, "A tool");
    assert_eq!(d.license, "GPL-3.0-only");
    assert_eq!(d.build_sys, "Meson");
    assert_eq!(d.release, 1);
    let mut e = PkgData::new();
    e.join_url_data(&origin(None, None, None));
    assert_eq!(e.summary, "");
    assert_eq!(e.license, "");
    assert_eq!(e.build_sys, "");
}

#[test]
fn filled_manifest() {
    let mut d = PkgData::new();
    assert!(!d.is_filled());
    d.join_url_data(&origin(Some("s"), Some("MIT"), Some("Meson")));
    assert!(!d.is_filled());
    d.component = "programming".to_string();
    assert!(d.is_filled());
}

#[test]
fn build_steps_round_trip() {
    for label in ["Meson", "Configure & Make", "CMake & Make", "CMake & Ninja"] {
        let (s, b, i) = build_steps(label).unwrap();
        assert_eq!(build_sys_from_steps(&s, &b, &i), label);
    }
    assert_eq!(
        build_steps("Meson"),
        Some(("%meson_configure".to_string(), "%ninja_build".to_string(), "%ninja_install".to_string()))
    );
    assert_eq!(build_steps("None"), None);
    assert_eq!(build_sys_from_steps("%meson_configure", "%make", "%ninja_install"), "Unknown");
    assert_eq!(build_sys_from_steps("", "", ""), "Unknown");
}

#[test]
fn origin_of_repository() {
    let facts = RepoFacts { description: Some("A repo".to_string()), license_id: Some("GPL-3.0".to_string()) };
    let o = from_url("https://github.com/owner/tool.git", "202401021530", Some(facts), (None, None)).unwrap();
    assert_eq!(o.name, "tool");
    assert_eq!(o.version, "202401021530");
    assert_eq!(o.summary, Some("A repo".to_string()));
    assert_eq!(o.license, Some("GPL-3.0-or-later".to_string()));
    assert_eq!(o.build_sys, None);
    assert_eq!(o.source, "https://github.com/owner/tool.git");
}

#[test]
fn origin_of_invalid_url() {
    assert_eq!(from_url("::::", "x", None, (None, None)).err(), Some(OriginError::InvalidUrl));
}

#[test]
fn end_to_end_zip_origin() {
    let mut w = zip::ZipWriter::new(std::io::Cursor::new(Vec::new()));
    let opts = zip::write::SimpleFileOptions::default().compression_method(zip::CompressionMethod::Stored);
    w.start_file("foo-1.2.3/LICENSE", opts).unwrap();
    w.write_all(package_maker::license::GPL_V_3_SNIPPET.as_bytes()).unwrap();
    w.start_file("foo-1.2.3/meson.build", opts).unwrap();
    w.write_all(b"project('foo')").unwrap();
    let bytes = w.finish().unwrap().into_inner();
    let url = "https://example.com/dl/foo-1.2.3.zip";
    let facts = try_guess_license_build_sys_from_url(url, bytes.clone());
    let o = from_url(url, "", None, facts).unwrap();
    let anchor = calc_sha(&bytes);
    let mut d = PkgData::new();
    d.join_url_data(&o);
    assert_eq!(d.license, "GPL-3.0-only");
    assert_eq!(d.build_sys, "Meson");
    assert_eq!(d.name, "foo");
    assert_eq!(d.version, "1.2.3");
    assert_eq!(anchor.len(), 64);
    assert!(anchor.chars().all(|c| c.is_ascii_hexdigit()));
}
