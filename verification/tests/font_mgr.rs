use skia_safe::font_mgr::{CMapEntry, Request};

#[test]
fn default_request_is_empty() {
    let r = Request::default();
    assert!(r.cmap_entries.is_empty());
    assert!(r.bcp_47.is_empty());
    assert_eq!(r.family_name, None);
    assert!(r.model.is_empty());
    assert_eq!(r.synthetic_bold, None);
    assert_eq!(r.synthetic_oblique, None);
    assert_eq!(
        CMapEntry::default(),
        CMapEntry {
            character: 0,
            variation: 0
        }
    );
}

use skia_safe::font_mgr::{bcp_47_tags_are_valid, contains_nul, family_name_for_ffi};

#[test]
fn names_handed_to_the_font_manager() {
    assert!(!contains_nul("Arial"));
    assert!(contains_nul("Ari\0al"));
    assert_eq!(family_name_for_ffi(Some("Arial")), Some("Arial"));
    assert_eq!(family_name_for_ffi(Some("Ari\0al")), None);
    assert_eq!(family_name_for_ffi(None), None);
    assert!(bcp_47_tags_are_valid(&["en", "de-CH"]));
    assert!(!bcp_47_tags_are_valid(&["en", "d\0e"]));
}

#[test]
fn native_request() {
    let tags = ["en"];
    let r = Request {
        bcp_47: &tags,
        family_name: Some("Serif"),
        synthetic_bold: Some(true),
        synthetic_oblique: None,
        ..Default::default()
    };
    let n = r.to_native();
    assert_eq!(n.family_name, Some("Serif"));
    assert_eq!(n.bcp_47, &tags);
    assert_eq!(n.synthetic_bold, 1);
    assert_eq!(n.synthetic_oblique, -1);
}
