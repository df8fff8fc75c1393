use folium::app::{launch_plan, main_menu, select_tab_index, MenuEntry, TabList};

fn item(e: &MenuEntry) -> (&str, &str, &str, Option<isize>) {
    match e {
        MenuEntry::Item(i) => (i.title.as_str(), i.action.as_str(), i.key.as_str(), i.tag),
        MenuEntry::Separator => ("-", "", "", None),
    }
}

#[test]
fn menu_bar_has_four_menus() {
    let bar = main_menu();
    let titles: Vec<Option<&str>> = bar.iter().map(|m| m.title.as_deref()).collect();
    assert_eq!(titles, vec![None, Some("File"), Some("Edit"), Some("Window")]);
    assert_eq!(bar.iter().filter(|m| m.windows_menu).count(), 1);
    assert!(bar[3].windows_menu);
}

#[test]
fn file_and_edit_items() {
    let bar = main_menu();
    assert_eq!(item(&bar[0].entries[0]), ("Quit Folium", "terminate:", "q", None));
    let file: Vec<_> = bar[1].entries.iter().map(item).collect();
    assert_eq!(file, vec![
        ("New Tab", "newWindowForTab:", "t", None),
        ("Open…", "openDocument:", "o", None),
        ("Save", "saveDocument:", "s", None),
        ("Close Tab", "performClose:", "w", None),
    ]);
    let edit: Vec<_> = bar[2].entries.iter().map(item).collect();
    assert_eq!(edit, vec![
        ("Undo", "undo:", "z", None),
        ("Redo", "redo:", "Z", None),
        ("Cut", "cut:", "x", None),
        ("Copy", "copy:", "c", None),
        ("Paste", "paste:", "v", None),
        ("Select All", "selectAll:", "a", None),
    ]);
}

#[test]
fn window_menu_tab_items() {
    let bar = main_menu();
    let win = &bar[3].entries;
    assert_eq!(win.len(), 11);
    assert_eq!(item(&win[0]), ("Minimize", "performMiniaturize:", "m", None));
    assert!(matches!(win[1], MenuEntry::Separator));
    assert_eq!(item(&win[2]), ("Tab 1", "selectTabByIndex:", "1", Some(0)));
    assert_eq!(item(&win[10]), ("Tab 9", "selectTabByIndex:", "9", Some(8)));
}

#[test]
fn tab_item_selects_its_tab() {
    let bar = main_menu();
    for k in 1..=9usize {
        let (_, _, _, tag) = item(&bar[3].entries[k + 1]);
        let tag = tag.unwrap() as i64;
        assert_eq!(select_tab_index(tag, 9), Some(k - 1));
        assert_eq!(select_tab_index(tag, k - 1), None);
    }
}

#[test]
fn negative_or_large_tag_selects_nothing() {
    assert_eq!(select_tab_index(-1, 5), None);
    assert_eq!(select_tab_index(5, 5), None);
    assert_eq!(select_tab_index(4, 5), Some(4));
}

#[test]
fn closing_a_window_drops_its_tabs_only() {
    let mut tabs: TabList<&str> = TabList::new();
    assert_eq!(tabs.first(), None);
    tabs.push(10, "a");
    tabs.push(20, "b");
    tabs.push(10, "c");
    tabs.push(30, "d");
    tabs.remove_window(10);
    assert_eq!(tabs.len(), 2);
    assert_eq!(tabs.first(), Some(&"b"));
    tabs.remove_window(99);
    assert_eq!(tabs.len(), 2);
    tabs.remove_window(20);
    assert_eq!(tabs.first(), Some(&"d"));
    tabs.remove_window(30);
    assert_eq!(tabs.len(), 0);
    assert_eq!(tabs.first(), None);
}

#[test]
fn launch_with_and_without_files() {
    let blank = launch_plan(&Vec::new());
    assert_eq!(blank.len(), 1);
    assert!(blank[0].path.is_none() && !blank[0].joins_first);
    let plan = launch_plan(&vec!["a.pdf".to_string(), "b.pdf".to_string(), "c.pdf".to_string()]);
    let got: Vec<(Option<&str>, bool)> = plan.iter().map(|t| (t.path.as_deref(), t.joins_first)).collect();
    assert_eq!(got, vec![(Some("a.pdf"), false), (Some("b.pdf"), true), (Some("c.pdf"), true)]);
}
