use package_maker::pkg::{PkgData, PkgDataUrl};
use package_maker::window::{Model, WinMsg};

#[test]
fn edits_mark_unsaved_and_enable_start() {
    let mut m = Model::model();
    assert!(!m.can_start);
    assert_eq!(m.header.subtitle, "Untitled*");
    m.update(WinMsg::NameChanged("foo".to_string()));
    assert_eq!(m.pkg_data.name, "foo");
    assert_eq!(m.header.subtitle, "foo*");
    m.update(WinMsg::VersionChanged("1.0".to_string()));
    m.update(WinMsg::UrlChanged("https://x.org/foo-1.0.zip".to_string()));
    m.update(WinMsg::LicenseChanged("MIT".to_string()));
    m.update(WinMsg::ComponentChanged("programming".to_string()));
    m.update(WinMsg::BuildSysChanged("Meson".to_string()));
    m.update(WinMsg::SummaryChanged("A tool".to_string()));
    assert!(!m.can_start);
    m.update(WinMsg::DescriptionChanged("A longer text".to_string()));
    assert!(m.can_start);
    m.update(WinMsg::StartMaking);
    assert!(m.header.is_saved);
    assert_eq!(m.header.subtitle, "foo");
    m.update(WinMsg::New);
    assert!(!m.can_start);
    assert_eq!(m.pkg_data.name, "");
    assert!(!m.header.is_saved);
}

#[test]
fn load_advances_release() {
    let mut d = PkgData::new();
    d.name = "bar".to_string();
    d.release = 4;
    let mut m = Model::model();
    m.update(WinMsg::LoadFile(d.clone()));
    assert_eq!(m.pkg_data.release, 5);
    assert_eq!(m.pkg_data.name, "bar");
    assert!(m.header.is_saved);
    d.release = u16::MAX;
    m.update(WinMsg::LoadFile(d));
    assert_eq!(m.pkg_data.release, u16::MAX);
}

#[test]
fn from_url_merges() {
    let mut m = Model::model();
    m.update(WinMsg::SummaryChanged("kept".to_string()));
    m.update(WinMsg::FromUrl(PkgDataUrl {
        name: "foo".to_string(),
        version: "2.0".to_string(),
        source: "https://x.org/foo-2.0.zip".to_string(),
        summary: Some("new".to_string()),
        license: Some("GPL-3.0-only".to_string()),
        build_sys: Some("Meson".to_string()),
    }));
    assert_eq!(m.pkg_data.summary, "kept");
    assert_eq!(m.pkg_data.description, "new");
    assert_eq!(m.pkg_data.license, "GPL-3.0-only");
    assert_eq!(m.pkg_data.version, "2.0");
    m.update(WinMsg::Quit);
    assert_eq!(m.pkg_data.name, "foo");
}

#[test]
fn new_clears_every_field() {
    let mut m = Model::model();
    m.update(WinMsg::NameChanged("foo".to_string()));
    m.update(WinMsg::VersionChanged("1".to_string()));
    m.update(WinMsg::UrlChanged("u".to_string()));
    m.update(WinMsg::LicenseChanged("MIT".to_string()));
    m.update(WinMsg::ComponentChanged("c".to_string()));
    m.update(WinMsg::BuildSysChanged("Meson".to_string()));
    m.update(WinMsg::SummaryChanged("s".to_string()));
    m.update(WinMsg::DescriptionChanged("d".to_string()));
    m.update(WinMsg::New);
    let d = &m.pkg_data;
    for f in [&d.name, &d.version, &d.source, &d.license, &d.component, &d.build_sys, &d.summary, &d.description] {
        assert_eq!(f, "");
    }
    assert_eq!(d.release, 1);
    assert!(!m.can_start);
}
