use package_maker::header::{HeaderModel, HeaderMsg};

#[test]
fn subtitle_follows_name_and_saved_state() {
    let mut h = HeaderModel::model();
    assert_eq!(h.subtitle, "Untitled*");
    h.update(HeaderMsg::NewSubtitle("foo".to_string()));
    assert_eq!(h.subtitle, "foo*");
    h.update(HeaderMsg::SetSaved(true));
    assert_eq!(h.subtitle, "foo");
    h.update(HeaderMsg::NewSubtitle(String::new()));
    assert_eq!(h.subtitle, "Untitled");
    h.update(HeaderMsg::BtnNew);
    assert_eq!(h.subtitle, "Untitled");
    assert!(h.is_saved);
}
