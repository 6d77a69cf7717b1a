//! The application menu and its event dispatch.
//!
//! The menu is static declarative data: four submenus whose items carry an
//! identifier, a label, and an optional keyboard shortcut, or stand for a
//! native item the host shell provides. Activating an item with an
//! identifier publishes an event of the same name on the host's event bus;
//! `menu_event_for` is that lookup, and `menu_definition` builds the data.

use vstd::prelude::*;
use crate::order::str_eq;

verus! {

/// A menu item the host shell implements natively.
#[derive(Clone, Copy, PartialEq, Eq, Structural, Debug)]
pub enum NativeItem {
    About,
    Separator,
    Services,
    Hide,
    HideOthers,
    ShowAll,
    Quit,
    Undo,
    Redo,
    Cut,
    Copy,
    Paste,
    SelectAll,
    Fullscreen,
}

/// One entry of a submenu.
#[derive(Debug)]
pub enum MenuEntry {
    /// An item that publishes the event named by `id` when activated.
    Action { id: String, label: String, accelerator: Option<String> },
    /// A checkable item that publishes the event named by `id`; `checked`
    /// is its initial state.
    Toggle { id: String, label: String, checked: bool, accelerator: Option<String> },
    /// An item the host shell renders and handles itself, with an optional
    /// label override.
    Native { item: NativeItem, label: Option<String> },
}

/// One submenu of the application menu.
#[derive(Debug)]
pub struct SubmenuDef {
    /// Title shown in the menu bar.
    pub title: String,
    /// The submenu's entries, in display order.
    pub items: Vec<MenuEntry>,
}

/// The identifiers whose activation publishes a menu event.
pub open spec fn known_menu_id(s: Seq<char>) -> bool {
    ||| s == "new"@
    ||| s == "open"@
    ||| s == "open_folder"@
    ||| s == "save"@
    ||| s == "save_as"@
    ||| s == "export_html"@
    ||| s == "export_wechat"@
    ||| s == "undo"@
    ||| s == "redo"@
    ||| s == "cut"@
    ||| s == "copy"@
    ||| s == "paste"@
    ||| s == "select_all"@
    ||| s == "toggle_sidebar"@
    ||| s == "sidebar_outline"@
    ||| s == "sidebar_files"@
    ||| s == "toggle_source"@
    ||| s == "settings"@
}

/// The event published for a menu identifier: the identifier itself for
/// every known identifier, and nothing for any other.
pub fn menu_event_for(id: &str) -> (r: Option<String>)
    ensures
        r is Some <==> known_menu_id(id@),
        r matches Some(ev) ==> ev@ == id@,
{
    let known = str_eq(id, "new") || str_eq(id, "open") || str_eq(id, "open_folder") || str_eq(
        id,
        "save",
    ) || str_eq(id, "save_as") || str_eq(id, "export_html") || str_eq(id, "export_wechat")
        || str_eq(id, "undo") || str_eq(id, "redo") || str_eq(id, "cut") || str_eq(id, "copy")
        || str_eq(id, "paste") || str_eq(id, "select_all") || str_eq(id, "toggle_sidebar")
        || str_eq(id, "sidebar_outline") || str_eq(id, "sidebar_files") || str_eq(
        id,
        "toggle_source",
    ) || str_eq(id, "settings");
    if known {
        Some(id.to_owned())
    } else {
        None
    }
}

/// `e` is an action item with exactly this identifier, label and shortcut.
pub open spec fn action_is(
    e: MenuEntry,
    id: Seq<char>,
    label: Seq<char>,
    accelerator: Option<Seq<char>>,
) -> bool {
    match e {
        MenuEntry::Action { id: i, label: l, accelerator: a } => i@ == id && l@ == label
            && a.deep_view() == accelerator,
        _ => false,
    }
}

/// `e` is a toggle item with exactly this identifier, label, initial state
/// and shortcut.
pub open spec fn toggle_is(
    e: MenuEntry,
    id: Seq<char>,
    label: Seq<char>,
    checked: bool,
    accelerator: Option<Seq<char>>,
) -> bool {
    match e {
        MenuEntry::Toggle { id: i, label: l, checked: c, accelerator: a } => i@ == id && l@
            == label && c == checked && a.deep_view() == accelerator,
        _ => false,
    }
}

/// `e` is this native item, with exactly this label override.
pub open spec fn native_is(e: MenuEntry, item: NativeItem, label: Option<Seq<char>>) -> bool {
    match e {
        MenuEntry::Native { item: it, label: l } => it == item && l.deep_view() == label,
        _ => false,
    }
}

/// The application submenu: the native items of the application's own menu.
pub open spec fn app_submenu_ok(m: SubmenuDef) -> bool {
    &&& m.title@ == "MarkLight"@
    &&& m.items@.len() == 9
    &&& native_is(m.items@[0], NativeItem::About, None)
    &&& native_is(m.items@[1], NativeItem::Separator, None)
    &&& native_is(m.items@[2], NativeItem::Services, None)
    &&& native_is(m.items@[3], NativeItem::Separator, None)
    &&& native_is(m.items@[4], NativeItem::Hide, None)
    &&& native_is(m.items@[5], NativeItem::HideOthers, None)
    &&& native_is(m.items@[6], NativeItem::ShowAll, None)
    &&& native_is(m.items@[7], NativeItem::Separator, None)
    &&& native_is(m.items@[8], NativeItem::Quit, None)
}

/// The file submenu: new, open, open folder, save, save as, and the two
/// export actions, with their shortcuts.
pub open spec fn file_submenu_ok(m: SubmenuDef) -> bool {
    &&& m.title@ == "文件"@
    &&& m.items@.len() == 9
    &&& action_is(m.items@[0], "new"@, "新建"@, Some("CmdOrCtrl+N"@))
    &&& action_is(m.items@[1], "open"@, "打开..."@, Some("CmdOrCtrl+O"@))
    &&& action_is(m.items@[2], "open_folder"@, "打开文件夹..."@, None)
    &&& native_is(m.items@[3], NativeItem::Separator, None)
    &&& action_is(m.items@[4], "save"@, "保存"@, Some("CmdOrCtrl+S"@))
    &&& action_is(m.items@[5], "save_as"@, "另存为..."@, Some("CmdOrCtrl+Shift+S"@))
    &&& native_is(m.items@[6], NativeItem::Separator, None)
    &&& action_is(m.items@[7], "export_html"@, "导出为 HTML"@, None)
    &&& action_is(m.items@[8], "export_wechat"@, "微信导出"@, Some("CmdOrCtrl+E"@))
}

/// The edit submenu: the native editing items with localized labels.
pub open spec fn edit_submenu_ok(m: SubmenuDef) -> bool {
    &&& m.title@ == "编辑"@
    &&& m.items@.len() == 7
    &&& native_is(m.items@[0], NativeItem::Undo, Some("撤销"@))
    &&& native_is(m.items@[1], NativeItem::Redo, Some("重做"@))
    &&& native_is(m.items@[2], NativeItem::Separator, None)
    &&& native_is(m.items@[3], NativeItem::Cut, Some("剪切"@))
    &&& native_is(m.items@[4], NativeItem::Copy, Some("复制"@))
    &&& native_is(m.items@[5], NativeItem::Paste, Some("粘贴"@))
    &&& native_is(m.items@[6], NativeItem::SelectAll, Some("全选"@))
}

/// The view submenu: the sidebar toggles, the source-mode toggle,
/// fullscreen, and settings.
pub open spec fn view_submenu_ok(m: SubmenuDef) -> bool {
    &&& m.title@ == "视图"@
    &&& m.items@.len() == 9
    &&& toggle_is(m.items@[0], "toggle_sidebar"@, "侧边栏"@, true, Some("CmdOrCtrl+\\"@))
    &&& action_is(m.items@[1], "sidebar_outline"@, "  └ 大纲"@, Some("CmdOrCtrl+1"@))
    &&& action_is(m.items@[2], "sidebar_files"@, "  └ 文件树"@, Some("CmdOrCtrl+2"@))
    &&& native_is(m.items@[3], NativeItem::Separator, None)
    &&& toggle_is(m.items@[4], "toggle_source"@, "源码模式"@, false, Some("CmdOrCtrl+/"@))
    &&& native_is(m.items@[5], NativeItem::Separator, None)
    &&& native_is(m.items@[6], NativeItem::Fullscreen, None)
    &&& native_is(m.items@[7], NativeItem::Separator, None)
    &&& action_is(m.items@[8], "settings"@, "设置..."@, Some("CmdOrCtrl+,"@))
}

/// The whole menu bar: the four submenus, in order.
pub open spec fn menu_ok(menus: Seq<SubmenuDef>) -> bool {
    &&& menus.len() == 4
    &&& app_submenu_ok(menus[0])
    &&& file_submenu_ok(menus[1])
    &&& edit_submenu_ok(menus[2])
    &&& view_submenu_ok(menus[3])
}

/// Every entry of `e` that carries an identifier carries a known one.
pub open spec fn entry_id_known(e: MenuEntry) -> bool {
    match e {
        MenuEntry::Action { id, .. } => known_menu_id(id@),
        MenuEntry::Toggle { id, .. } => known_menu_id(id@),
        MenuEntry::Native { .. } => true,
    }
}

/// Every identifier anywhere in the menu bar is a known one.
pub open spec fn all_ids_known(menus: Seq<SubmenuDef>) -> bool {
    forall|i: int, j: int|
        0 <= i < menus.len() && 0 <= j < menus[i].items@.len() ==> entry_id_known(
            #[trigger] menus[i].items@[j],
        )
}

/// Every identifier the menu carries is one the dispatcher recognizes: an
/// activation of any action or toggle item of the menu publishes an event.
pub proof fn lemma_menu_ids_dispatchable(menus: Seq<SubmenuDef>)
    requires
        menu_ok(menus),
    ensures
        all_ids_known(menus),
{
    assert forall|i: int, j: int|
        0 <= i < menus.len() && 0 <= j < menus[i].items@.len() implies entry_id_known(
        #[trigger] menus[i].items@[j],
    ) by {
        if i == 0 {
            assert(app_submenu_ok(menus[0]));
        } else if i == 1 {
            assert(file_submenu_ok(menus[1]));
        } else if i == 2 {
            assert(edit_submenu_ok(menus[2]));
        } else {
            assert(view_submenu_ok(menus[3]));
        }
    }
}

/// Builds the application menu: the four submenus with their items,
/// labels, shortcuts and identifiers.
pub fn menu_definition() -> (r: Vec<SubmenuDef>)
    ensures
        menu_ok(r@),
        all_ids_known(r@),
{
    let mut app_items: Vec<MenuEntry> = Vec::new();
    app_items.push(MenuEntry::Native { item: NativeItem::About, label: None });
    app_items.push(MenuEntry::Native { item: NativeItem::Separator, label: None });
    app_items.push(MenuEntry::Native { item: NativeItem::Services, label: None });
    app_items.push(MenuEntry::Native { item: NativeItem::Separator, label: None });
    app_items.push(MenuEntry::Native { item: NativeItem::Hide, label: None });
    app_items.push(MenuEntry::Native { item: NativeItem::HideOthers, label: None });
    app_items.push(MenuEntry::Native { item: NativeItem::ShowAll, label: None });
    app_items.push(MenuEntry::Native { item: NativeItem::Separator, label: None });
    app_items.push(MenuEntry::Native { item: NativeItem::Quit, label: None });

    let mut file_items: Vec<MenuEntry> = Vec::new();
    file_items.push(
        MenuEntry::Action {
            id: "new".to_owned(),
            label: "新建".to_owned(),
            accelerator: Some("CmdOrCtrl+N".to_owned()),
        },
    );
    file_items.push(
        MenuEntry::Action {
            id: "open".to_owned(),
            label: "打开...".to_owned(),
            accelerator: Some("CmdOrCtrl+O".to_owned()),
        },
    );
    file_items.push(
        MenuEntry::Action {
            id: "open_folder".to_owned(),
            label: "打开文件夹...".to_owned(),
            accelerator: None,
        },
    );
    file_items.push(MenuEntry::Native { item: NativeItem::Separator, label: None });
    file_items.push(
        MenuEntry::Action {
            id: "save".to_owned(),
            label: "保存".to_owned(),
            accelerator: Some("CmdOrCtrl+S".to_owned()),
        },
    );
    file_items.push(
        MenuEntry::Action {
            id: "save_as".to_owned(),
            label: "另存为...".to_owned(),
            accelerator: Some("CmdOrCtrl+Shift+S".to_owned()),
        },
    );
    file_items.push(MenuEntry::Native { item: NativeItem::Separator, label: None });
    file_items.push(
        MenuEntry::Action {
            id: "export_html".to_owned(),
            label: "导出为 HTML".to_owned(),
            accelerator: None,
        },
    );
    file_items.push(
        MenuEntry::Action {
            id: "export_wechat".to_owned(),
            label: "微信导出".to_owned(),
            accelerator: Some("CmdOrCtrl+E".to_owned()),
        },
    );

    let mut edit_items: Vec<MenuEntry> = Vec::new();
    edit_items.push(
        MenuEntry::Native { item: NativeItem::Undo, label: Some("撤销".to_owned()) },
    );
    edit_items.push(
        MenuEntry::Native { item: NativeItem::Redo, label: Some("重做".to_owned()) },
    );
    edit_items.push(MenuEntry::Native { item: NativeItem::Separator, label: None });
    edit_items.push(MenuEntry::Native { item: NativeItem::Cut, label: Some("剪切".to_owned()) });
    edit_items.push(
        MenuEntry::Native { item: NativeItem::Copy, label: Some("复制".to_owned()) },
    );
    edit_items.push(
        MenuEntry::Native { item: NativeItem::Paste, label: Some("粘贴".to_owned()) },
    );
    edit_items.push(
        MenuEntry::Native { item: NativeItem::SelectAll, label: Some("全选".to_owned()) },
    );

    let mut view_items: Vec<MenuEntry> = Vec::new();
    view_items.push(
        MenuEntry::Toggle {
            id: "toggle_sidebar".to_owned(),
            label: "侧边栏".to_owned(),
            checked: true,
            accelerator: Some("CmdOrCtrl+\\".to_owned()),
        },
    );
    view_items.push(
        MenuEntry::Action {
            id: "sidebar_outline".to_owned(),
            label: "  └ 大纲".to_owned(),
            accelerator: Some("CmdOrCtrl+1".to_owned()),
        },
    );
    view_items.push(
        MenuEntry::Action {
            id: "sidebar_files".to_owned(),
            label: "  └ 文件树".to_owned(),
            accelerator: Some("CmdOrCtrl+2".to_owned()),
        },
    );
    view_items.push(MenuEntry::Native { item: NativeItem::Separator, label: None });
    view_items.push(
        MenuEntry::Toggle {
            id: "toggle_source".to_owned(),
            label: "源码模式".to_owned(),
            checked: false,
            accelerator: Some("CmdOrCtrl+/".to_owned()),
        },
    );
    view_items.push(MenuEntry::Native { item: NativeItem::Separator, label: None });
    view_items.push(MenuEntry::Native { item: NativeItem::Fullscreen, label: None });
    view_items.push(MenuEntry::Native { item: NativeItem::Separator, label: None });
    view_items.push(
        MenuEntry::Action {
            id: "settings".to_owned(),
            label: "设置...".to_owned(),
            accelerator: Some("CmdOrCtrl+,".to_owned()),
        },
    );

    let mut menus: Vec<SubmenuDef> = Vec::new();
    menus.push(SubmenuDef { title: "MarkLight".to_owned(), items: app_items });
    menus.push(SubmenuDef { title: "文件".to_owned(), items: file_items });
    menus.push(SubmenuDef { title: "编辑".to_owned(), items: edit_items });
    menus.push(SubmenuDef { title: "视图".to_owned(), items: view_items });
    proof {
        lemma_menu_ids_dispatchable(menus@);
    }
    menus
}

} // verus!
