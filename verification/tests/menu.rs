use marklight::menu::menu_definition;
use marklight::menu::menu_event_for;
use marklight::menu::MenuEntry;
use marklight::menu::NativeItem;

#[test]
fn known_ids_dispatch_to_same_named_events() {
    let ids = [
        "new",
        "open",
        "open_folder",
        "save",
        "save_as",
        "export_html",
        "export_wechat",
        "undo",
        "redo",
        "cut",
        "copy",
        "paste",
        "select_all",
        "toggle_sidebar",
        "sidebar_outline",
        "sidebar_files",
        "toggle_source",
        "settings",
    ];
    for id in ids {
        let ev = menu_event_for(id);
        assert_eq!(ev.as_deref(), Some(id));
    }
}

#[test]
fn unknown_ids_dispatch_nothing() {
    assert_eq!(menu_event_for("bogus"), None);
    assert_eq!(menu_event_for(""), None);
    assert_eq!(menu_event_for("Save"), None);
    assert_eq!(menu_event_for("about"), None);
}

#[test]
fn menu_has_four_submenus_with_expected_titles() {
    let menus = menu_definition();
    assert_eq!(menus.len(), 4);
    assert_eq!(menus[0].title.as_str(), "MarkLight");
    assert_eq!(menus[1].title.as_str(), "文件");
    assert_eq!(menus[2].title.as_str(), "编辑");
    assert_eq!(menus[3].title.as_str(), "视图");
    assert_eq!(menus[0].items.len(), 9);
    assert_eq!(menus[1].items.len(), 9);
    assert_eq!(menus[2].items.len(), 7);
    assert_eq!(menus[3].items.len(), 9);
}

#[test]
fn file_submenu_holds_the_file_actions() {
    let menus = menu_definition();
    let items = &menus[1].items;
    match &items[0] {
        MenuEntry::Action { id, label, accelerator } => {
            assert_eq!(id.as_str(), "new");
            assert_eq!(label.as_str(), "新建");
            assert_eq!(accelerator.as_deref(), Some("CmdOrCtrl+N"));
        }
        other => panic!("expected an action at the top of the file menu, got {:?}", other),
    }
    match &items[3] {
        MenuEntry::Native { item, label } => {
            assert_eq!(*item, NativeItem::Separator);
            assert_eq!(*label, None);
        }
        other => panic!("expected a separator, got {:?}", other),
    }
    match &items[8] {
        MenuEntry::Action { id, label, accelerator } => {
            assert_eq!(id.as_str(), "export_wechat");
            assert_eq!(label.as_str(), "微信导出");
            assert_eq!(accelerator.as_deref(), Some("CmdOrCtrl+E"));
        }
        other => panic!("expected the export action, got {:?}", other),
    }
}

#[test]
fn view_submenu_holds_the_toggles_with_initial_state() {
    let menus = menu_definition();
    let items = &menus[3].items;
    match &items[0] {
        MenuEntry::Toggle { id, label, checked, accelerator } => {
            assert_eq!(id.as_str(), "toggle_sidebar");
            assert_eq!(label.as_str(), "侧边栏");
            assert!(*checked);
            assert_eq!(accelerator.as_deref(), Some("CmdOrCtrl+\\"));
        }
        other => panic!("expected the sidebar toggle, got {:?}", other),
    }
    match &items[4] {
        MenuEntry::Toggle { id, checked, accelerator, .. } => {
            assert_eq!(id.as_str(), "toggle_source");
            assert!(!*checked);
            assert_eq!(accelerator.as_deref(), Some("CmdOrCtrl+/"));
        }
        other => panic!("expected the source-mode toggle, got {:?}", other),
    }
}

#[test]
fn edit_submenu_is_native_items_with_labels() {
    let menus = menu_definition();
    let items = &menus[2].items;
    match &items[0] {
        MenuEntry::Native { item, label } => {
            assert_eq!(*item, NativeItem::Undo);
            assert_eq!(label.as_deref(), Some("撤销"));
        }
        other => panic!("expected the undo item, got {:?}", other),
    }
    match &items[6] {
        MenuEntry::Native { item, label } => {
            assert_eq!(*item, NativeItem::SelectAll);
            assert_eq!(label.as_deref(), Some("全选"));
        }
        other => panic!("expected the select-all item, got {:?}", other),
    }
}

#[test]
fn every_menu_identifier_dispatches_an_event() {
    let menus = menu_definition();
    for submenu in &menus {
        for item in &submenu.items {
            match item {
                MenuEntry::Action { id, .. } | MenuEntry::Toggle { id, .. } => {
                    let ev = menu_event_for(id.as_str());
                    assert_eq!(ev.as_deref(), Some(id.as_str()));
                }
                MenuEntry::Native { .. } => {}
            }
        }
    }
}
