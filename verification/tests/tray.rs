use golive::tray::tray_texts;

#[test]
fn tray_texts_for_an_active_process_names_it_in_both_strings() {
    let (tooltip, menu_text) = tray_texts(Some("Create a sales order — ERP Migration"));
    assert_eq!(tooltip, "GoLive — Create a sales order — ERP Migration");
    assert_eq!(menu_text, "Active: Create a sales order — ERP Migration");
}

#[test]
fn tray_texts_for_no_active_process_says_so_plainly() {
    let (tooltip, menu_text) = tray_texts(None);
    assert_eq!(tooltip, "GoLive");
    assert_eq!(menu_text, "No active process");
}
