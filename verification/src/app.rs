//! The application's menus and its list of open tabs.

use vstd::prelude::*;

use crate::decimal::{append_decimal, decimal};

verus! {

/// A menu item: its title, the selector it sends (by name), its key
/// equivalent and its tag.
pub struct MenuItem {
    pub title: String,
    pub action: String,
    pub key: String,
    pub tag: Option<isize>,
}

/// A menu item seen as values.
pub struct MenuItemModel {
    pub title: Seq<char>,
    pub action: Seq<char>,
    pub key: Seq<char>,
    pub tag: Option<isize>,
}

impl View for MenuItem {
    type V = MenuItemModel;

    open spec fn view(&self) -> MenuItemModel {
        MenuItemModel { title: self.title@, action: self.action@, key: self.key@, tag: self.tag }
    }
}

/// An entry of a menu.
pub enum MenuEntry {
    Item(MenuItem),
    Separator,
}

/// A menu entry seen as values; `None` is a separator.
pub open spec fn entry_view(e: MenuEntry) -> Option<MenuItemModel> {
    match e {
        MenuEntry::Item(i) => Some(i@),
        MenuEntry::Separator => None,
    }
}

/// The entries of a menu seen as values.
pub open spec fn entries_view(s: Seq<MenuEntry>) -> Seq<Option<MenuItemModel>> {
    s.map_values(|e: MenuEntry| entry_view(e))
}

/// A menu of the menu bar: its title (`None` for the application menu),
/// its entries, and whether it is the menu that the system fills with the
/// list of windows.
pub struct Menu {
    pub title: Option<String>,
    pub entries: Vec<MenuEntry>,
    pub windows_menu: bool,
}

/// A menu seen as values.
pub struct MenuModel {
    pub title: Option<Seq<char>>,
    pub entries: Seq<Option<MenuItemModel>>,
    pub windows_menu: bool,
}

impl View for Menu {
    type V = MenuModel;

    open spec fn view(&self) -> MenuModel {
        MenuModel {
            title: match self.title {
                Some(t) => Some(t@),
                None => None,
            },
            entries: entries_view(self.entries@),
            windows_menu: self.windows_menu,
        }
    }
}

/// An item without a tag.
pub open spec fn plain_item(title: Seq<char>, action: Seq<char>, key: Seq<char>) -> Option<MenuItemModel> {
    Some(MenuItemModel { title, action, key, tag: None })
}

/// The item "Tab k" of the Window menu (`1 <= k <= 9`): the key equivalent
/// is the digit `k` and the tag, `k - 1`, is the index of the tab that it
/// selects.
pub open spec fn tab_item(k: nat) -> Option<MenuItemModel> {
    Some(MenuItemModel {
        title: "Tab "@ + decimal(k),
        action: "selectTabByIndex:"@,
        key: decimal(k),
        tag: Some((k - 1) as isize),
    })
}

/// The menu bar: the application menu (Quit), File, Edit and Window.
pub open spec fn main_menu_spec() -> Seq<MenuModel> {
    seq![
        MenuModel {
            title: None,
            entries: seq![plain_item("Quit Folium"@, "terminate:"@, "q"@)],
            windows_menu: false,
        },
        MenuModel {
            title: Some("File"@),
            entries: seq![
                plain_item("New Tab"@, "newWindowForTab:"@, "t"@),
                plain_item("Open…"@, "openDocument:"@, "o"@),
                plain_item("Save"@, "saveDocument:"@, "s"@),
                plain_item("Close Tab"@, "performClose:"@, "w"@),
            ],
            windows_menu: false,
        },
        MenuModel {
            title: Some("Edit"@),
            entries: seq![
                plain_item("Undo"@, "undo:"@, "z"@),
                plain_item("Redo"@, "redo:"@, "Z"@),
                plain_item("Cut"@, "cut:"@, "x"@),
                plain_item("Copy"@, "copy:"@, "c"@),
                plain_item("Paste"@, "paste:"@, "v"@),
                plain_item("Select All"@, "selectAll:"@, "a"@),
            ],
            windows_menu: false,
        },
        MenuModel {
            title: Some("Window"@),
            entries: seq![
                plain_item("Minimize"@, "performMiniaturize:"@, "m"@),
                None,
            ] + tab_items(9),
            windows_menu: true,
        },
    ]
}

fn plain(title: &str, action: &str, key: &str) -> (r: MenuEntry)
    ensures
        entry_view(r) == plain_item(title@, action@, key@),
{
    MenuEntry::Item(MenuItem {
        title: String::from_str(title),
        action: String::from_str(action),
        key: String::from_str(key),
        tag: None,
    })
}

fn menu(title: Option<&str>, entries: Vec<MenuEntry>, windows_menu: bool) -> (r: Menu)
    ensures
        r@.title == (match title {
            Some(t) => Some(t@),
            None => None::<Seq<char>>,
        }),
        r@.entries == entries_view(entries@),
        r@.windows_menu == windows_menu,
{
    let t = match title {
        Some(t) => Some(String::from_str(t)),
        None => None,
    };
    Menu { title: t, entries, windows_menu }
}

fn tab_entry(k: usize) -> (r: MenuEntry)
    requires
        1 <= k <= 9,
    ensures
        entry_view(r) == tab_item(k as nat),
{
    let mut title = String::from_str("Tab ");
    append_decimal(&mut title, k);
    let mut key = String::new();
    append_decimal(&mut key, k);
    assert(key@ == decimal(k as nat));
    MenuEntry::Item(MenuItem {
        title,
        action: String::from_str("selectTabByIndex:"),
        key,
        tag: Some((k - 1) as isize),
    })
}

/// The first `n` "Tab k" items.
pub open spec fn tab_items(n: nat) -> Seq<Option<MenuItemModel>> {
    Seq::new(n, |i: int| tab_item((i + 1) as nat))
}

/// The menu bar of the application.
pub fn main_menu() -> (r: Vec<Menu>)
    ensures
        r@.map_values(|m: Menu| m@) == main_menu_spec(),
{
    let mut app_entries: Vec<MenuEntry> = Vec::new();
    app_entries.push(plain("Quit Folium", "terminate:", "q"));
    assert(entries_view(app_entries@) =~= seq![plain_item("Quit Folium"@, "terminate:"@, "q"@)]);
    let app_menu = menu(None, app_entries, false);

    let mut file_entries: Vec<MenuEntry> = Vec::new();
    file_entries.push(plain("New Tab", "newWindowForTab:", "t"));
    file_entries.push(plain("Open…", "openDocument:", "o"));
    file_entries.push(plain("Save", "saveDocument:", "s"));
    file_entries.push(plain("Close Tab", "performClose:", "w"));
    assert(entries_view(file_entries@) =~= seq![
        plain_item("New Tab"@, "newWindowForTab:"@, "t"@),
        plain_item("Open…"@, "openDocument:"@, "o"@),
        plain_item("Save"@, "saveDocument:"@, "s"@),
        plain_item("Close Tab"@, "performClose:"@, "w"@),
    ]);
    let file_menu = menu(Some("File"), file_entries, false);

    let mut edit_entries: Vec<MenuEntry> = Vec::new();
    edit_entries.push(plain("Undo", "undo:", "z"));
    edit_entries.push(plain("Redo", "redo:", "Z"));
    edit_entries.push(plain("Cut", "cut:", "x"));
    edit_entries.push(plain("Copy", "copy:", "c"));
    edit_entries.push(plain("Paste", "paste:", "v"));
    edit_entries.push(plain("Select All", "selectAll:", "a"));
    assert(entries_view(edit_entries@) =~= seq![
        plain_item("Undo"@, "undo:"@, "z"@),
        plain_item("Redo"@, "redo:"@, "Z"@),
        plain_item("Cut"@, "cut:"@, "x"@),
        plain_item("Copy"@, "copy:"@, "c"@),
        plain_item("Paste"@, "paste:"@, "v"@),
        plain_item("Select All"@, "selectAll:"@, "a"@),
    ]);
    let edit_menu = menu(Some("Edit"), edit_entries, false);

    let mut win_entries: Vec<MenuEntry> = Vec::new();
    win_entries.push(plain("Minimize", "performMiniaturize:", "m"));
    win_entries.push(MenuEntry::Separator);
    let ghost head = seq![plain_item("Minimize"@, "performMiniaturize:"@, "m"@), None];
    assert(entries_view(win_entries@) =~= head + tab_items(0));
    let mut k: usize = 1;
    while k <= 9
        invariant
            1 <= k <= 10,
            win_entries@.len() == k + 1,
            entries_view(win_entries@) == head + tab_items((k - 1) as nat),
        decreases 10 - k,
    {
        let ghost before = win_entries@;
        let e = tab_entry(k);
        let ghost ev = entry_view(e);
        win_entries.push(e);
        assert(entries_view(win_entries@) =~= entries_view(before).push(ev));
        assert(tab_items(k as nat) =~= tab_items((k - 1) as nat).push(tab_item(k as nat)));
        assert(entries_view(win_entries@) =~= head + tab_items(k as nat));
        k = k + 1;
    }
    let win_menu = menu(Some("Window"), win_entries, true);

    let mut bar: Vec<Menu> = Vec::new();
    bar.push(app_menu);
    bar.push(file_menu);
    bar.push(edit_menu);
    bar.push(win_menu);
    assert(bar@.map_values(|m: Menu| m@) =~= main_menu_spec());
    bar
}

/// The window index that a menu item's tag selects in a tab group of
/// `window_count` windows.
pub open spec fn select_tab_spec(tag: i64, window_count: usize) -> Option<usize> {
    if (tag as usize) < window_count { Some(tag as usize) } else { None }
}

/// The tab that a "Tab k" item selects: the item's tag read back as a
/// window index (a negative tag wraps to a huge index), if the tab group has
/// that many windows.
pub fn select_tab_index(tag: i64, window_count: usize) -> (r: Option<usize>)
    ensures
        r == select_tab_spec(tag, window_count),
{
    let index = tag as usize;
    if index < window_count {
        Some(index)
    } else {
        None
    }
}

/// A tab to open at launch: the file it loads (`None`: a blank tab) and
/// whether it joins the tab group of the first tab rather than coming to
/// the front on its own.
pub struct LaunchTab {
    pub path: Option<String>,
    pub joins_first: bool,
}

/// The tabs opened at launch for the files named on the command line: one
/// blank tab when there is none, else one tab per file, in order, all in the
/// group of the first.
pub fn launch_plan(paths: &Vec<String>) -> (r: Vec<LaunchTab>)
    ensures
        paths@.len() == 0 ==> r@.len() == 1 && r@[0].path is None && !r@[0].joins_first,
        paths@.len() > 0 ==> {
            &&& r@.len() == paths@.len()
            &&& forall|i: int| 0 <= i < r@.len() ==> {
                &&& r@[i].path matches Some(p) && p@ == paths@[i]@
                &&& r@[i].joins_first == (i > 0)
            }
        },
{
    let mut plan: Vec<LaunchTab> = Vec::new();
    if paths.len() == 0 {
        plan.push(LaunchTab { path: None, joins_first: false });
        return plan;
    }
    let mut i: usize = 0;
    while i < paths.len()
        invariant
            i <= paths@.len(),
            plan@.len() == i,
            forall|j: int| 0 <= j < i ==> {
                &&& plan@[j].path matches Some(p) && p@ == paths@[j]@
                &&& plan@[j].joins_first == (j > 0)
            },
        decreases paths@.len() - i,
    {
        plan.push(LaunchTab { path: Some(paths[i].clone()), joins_first: i > 0 });
        i = i + 1;
    }
    plan
}

/// The tabs of `tabs` (window, tab) that do not belong to `window`, in their
/// order.
pub open spec fn without_window<T>(tabs: Seq<(usize, T)>, window: usize) -> Seq<(usize, T)>
    decreases tabs.len(),
{
    if tabs.len() == 0 {
        tabs
    } else if tabs[0].0 == window {
        without_window(tabs.drop_first(), window)
    } else {
        seq![tabs[0]] + without_window(tabs.drop_first(), window)
    }
}

/// The open tabs in the order they were opened, each with the identity of
/// its window.
#[derive(Debug)]
pub struct TabList<T> {
    tabs: Vec<(usize, T)>,
}

impl<T> View for TabList<T> {
    type V = Seq<(usize, T)>;

    closed spec fn view(&self) -> Seq<(usize, T)> {
        self.tabs@
    }
}

impl<T> TabList<T> {
    /// No tab.
    pub fn new() -> (r: Self)
        ensures
            r@ == Seq::<(usize, T)>::empty(),
    {
        TabList { tabs: Vec::new() }
    }

    /// A tab opened in window `window`.
    pub fn push(&mut self, window: usize, tab: T)
        ensures
            final(self)@ == old(self)@.push((window, tab)),
    {
        self.tabs.push((window, tab));
    }

    /// Number of open tabs.
    pub fn len(&self) -> (r: usize)
        ensures
            r == self@.len(),
    {
        self.tabs.len()
    }

    /// The first tab opened among those still open; its window leads the tab
    /// group.
    pub fn first(&self) -> (r: Option<&T>)
        ensures
            self@.len() == 0 ==> r is None,
            self@.len() > 0 ==> r == Some(&self@[0].1),
    {
        if self.tabs.len() == 0 {
            None
        } else {
            Some(&self.tabs[0].1)
        }
    }

    /// Window `window` closed: its tabs are dropped, the others keep their
    /// order.
    pub fn remove_window(&mut self, window: usize)
        ensures
            final(self)@ == without_window(old(self)@, window),
    {
        let ghost orig = self.tabs@;
        assert(self.tabs@.take(0) + self.tabs@.skip(0) =~= self.tabs@);
        assert(self.tabs@.take(0) =~= Seq::<(usize, T)>::empty());
        assert(self.tabs@.skip(0) =~= self.tabs@);
        let mut i: usize = 0;
        while i < self.tabs.len()
            invariant
                i <= self.tabs@.len(),
                without_window(orig, window) == self.tabs@.take(i as int) + without_window(
                    self.tabs@.skip(i as int),
                    window,
                ),
            decreases self.tabs@.len() - i,
        {
            let ghost s = self.tabs@;
            if self.tabs[i].0 == window {
                self.tabs.remove(i);
                assert(s.skip(i as int).drop_first() =~= self.tabs@.skip(i as int));
                assert(s.take(i as int) =~= self.tabs@.take(i as int));
            } else {
                assert(s.skip(i as int).drop_first() =~= s.skip(i + 1));
                assert(s.take(i + 1) =~= s.take(i as int) + seq![s[i as int]]);
                assert(s.take(i as int) + (seq![s[i as int]] + without_window(s.skip(i + 1), window))
                    =~= s.take(i + 1) + without_window(s.skip(i + 1), window));
                i = i + 1;
            }
        }
        assert(self.tabs@.take(i as int) =~= self.tabs@);
        assert(self.tabs@.skip(i as int) =~= Seq::<(usize, T)>::empty());
        assert(self.tabs@.take(i as int) + Seq::<(usize, T)>::empty() =~= self.tabs@);
    }
}

} // verus!
