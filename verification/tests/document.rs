use skia_safe::document::Open;

#[test]
fn pages_are_counted() {
    let open = Open::new();
    assert_eq!(open.pages(), 0);
    let page = open.begin_page();
    assert_eq!(page.page(), 1);
    let open = page.end_page();
    assert_eq!(open.pages(), 1);
    let page = open.begin_page();
    assert_eq!(page.page(), 2);
    assert_eq!(page.end_page().pages(), 2);
}
