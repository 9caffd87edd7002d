use tlbview::browse::{App, Focus, Key, SearchTarget, ViewMode};
use tlbview::model::{FuncDesc, Guid, InvokeKind, TypeDesc, TypeEntry, TypeKind, TypeLib, VarDesc};

fn entry(name: &str, kind: TypeKind) -> TypeEntry {
    TypeEntry {
        name: name.to_string(),
        doc: String::new(),
        kind,
        guid: Guid { data1: 1, data2: 2, data3: 3, data4: 4 },
        major: 0,
        minor: 0,
        flags: 0,
        custom: Vec::new(),
        impls: Vec::new(),
        funcs: Vec::new(),
        vars: Vec::new(),
        alias_of: None,
    }
}

fn method(memid: i32, name: &str) -> Option<FuncDesc> {
    Some(FuncDesc {
        memid,
        name: name.to_string(),
        doc: String::new(),
        invkind: InvokeKind::Func,
        ret: TypeDesc::Prim(24),
        params: Vec::new(),
        dll_name: None,
    })
}

fn interface(name: &str, methods: &[&str]) -> TypeEntry {
    let mut e = entry(name, TypeKind::Interface);
    e.funcs = methods.iter().enumerate().map(|(i, m)| method(i as i32 + 1, m)).collect();
    e
}

fn lib(entries: Vec<Option<TypeEntry>>) -> TypeLib {
    TypeLib {
        name: "L".to_string(),
        doc: String::new(),
        guid: Guid { data1: 0, data2: 0, data3: 0, data4: 0 },
        major: 1,
        minor: 0,
        custom: Vec::new(),
        entries,
    }
}

fn sample() -> App {
    App::new(lib(vec![
        Some(interface("Document", &["Open", "OpenAsync"])),
        Some(interface("Window", &["Close"])),
    ]))
}

fn typed(app: &mut App, text: &str) {
    for c in text.chars() {
        app.handle_key(Key::Char(c));
    }
}

#[test]
fn global_search_scenario() {
    let mut app = sample();
    assert_eq!(app.all_search_items.len(), 3);
    assert!(!app.handle_key(Key::Ctrl('p')));
    assert!(app.show_global_search);
    typed(&mut app, "open");
    assert_eq!(app.global_search_results, vec![0, 1]);
    assert_eq!(app.global_sel, Some(0));
    app.handle_key(Key::Down);
    assert_eq!(app.global_sel, Some(1));
    app.handle_key(Key::Enter);
    assert!(!app.show_global_search);
    assert_eq!(app.member_search_query.iter().collect::<String>(), "OpenAsync");
    assert_eq!(app.search_target, SearchTarget::Members);
    assert_eq!(app.search_query.len(), 0);
    let row = app.filtered_types[app.type_sel.unwrap()];
    assert_eq!(app.types[row].1, "Document");
    assert_eq!(app.visible_member_positions(), vec![1]);
    assert_eq!(app.member_sel, Some(0));
    app.focus = Focus::Content;
    assert_eq!(app.get_selected_name(), Some("OpenAsync".to_string()));
}

#[test]
fn global_search_empty_query_has_no_results() {
    let mut app = sample();
    app.open_global_search();
    assert!(app.global_search_results.is_empty());
    assert_eq!(app.global_sel, None);
    typed(&mut app, "zzz");
    assert!(app.global_search_results.is_empty());
    app.handle_key(Key::Down);
    assert_eq!(app.global_sel, None);
    app.handle_key(Key::Esc);
    assert!(!app.show_global_search);
}

#[test]
fn filter_idempotence() {
    let mut app = sample();
    typed(&mut app, "WIN");
    let once = (app.filtered_types.clone(), app.type_sel, app.current_idl.clone());
    app.update_filter();
    let twice = (app.filtered_types.clone(), app.type_sel, app.current_idl.clone());
    assert_eq!(once, twice);
    assert_eq!(app.filtered_types, vec![1]);
    assert_eq!(app.type_sel, Some(0));
}

#[test]
fn filter_reset() {
    let mut app = sample();
    app.focus = Focus::Content;
    app.handle_key(Key::Down);
    assert_eq!(app.member_sel, Some(1));
    app.focus = Focus::TypeList;
    app.handle_key(Key::Down);
    assert_eq!(app.type_sel, Some(1));
    assert_eq!(app.current_methods.len(), 1);
    assert_eq!(app.member_sel, Some(0));
    assert!(app.current_idl.contains("interface Window {"));
}

#[test]
fn filter_with_no_match_clears_selection() {
    let mut app = sample();
    typed(&mut app, "xyz");
    assert!(app.filtered_types.is_empty());
    assert_eq!(app.type_sel, None);
    assert_eq!(app.member_sel, None);
    assert!(app.current_methods.is_empty());
    assert_eq!(app.current_idl, "");
    app.handle_key(Key::Down);
    app.handle_key(Key::Up);
    assert_eq!(app.type_sel, None);
    app.handle_key(Key::Backspace);
    app.handle_key(Key::Backspace);
    app.handle_key(Key::Backspace);
    assert_eq!(app.filtered_types, vec![0, 1]);
}

#[test]
fn selection_wraps_around() {
    let mut app = sample();
    assert_eq!(app.type_sel, Some(0));
    app.handle_key(Key::Up);
    assert_eq!(app.type_sel, Some(1));
    app.handle_key(Key::Down);
    assert_eq!(app.type_sel, Some(0));
    app.handle_key(Key::Right);
    assert_eq!(app.focus, Focus::Content);
    app.handle_key(Key::Up);
    assert_eq!(app.member_sel, Some(1));
    app.handle_key(Key::Down);
    assert_eq!(app.member_sel, Some(0));
    assert!(app.is_method_selected());
    app.handle_key(Key::Enter);
    assert!(app.show_doc);
    app.handle_key(Key::Left);
    assert_eq!(app.focus, Focus::TypeList);
    assert_eq!(app.get_selected_name(), Some("Document".to_string()));
}

#[test]
fn member_filter_and_toggles() {
    let mut app = sample();
    app.handle_key(Key::Ctrl('f'));
    assert_eq!(app.search_target, SearchTarget::Members);
    typed(&mut app, "async");
    assert_eq!(app.visible_member_positions(), vec![1]);
    assert_eq!(app.member_sel, Some(0));
    assert_eq!(app.filtered_types, vec![0, 1]);
    app.handle_key(Key::Tab);
    assert_eq!(app.view_mode, ViewMode::Idl);
    app.toggle_view();
    assert_eq!(app.view_mode, ViewMode::Structured);
}

#[test]
fn quit_keys() {
    let mut app = sample();
    assert!(app.handle_key(Key::Char('q')));
    typed(&mut app, "d");
    assert!(!app.handle_key(Key::Char('q')));
    assert_eq!(app.search_query.iter().collect::<String>(), "dq");
    assert!(app.handle_key(Key::Esc));
}

#[test]
fn unreadable_entries_are_listed_by_ordinal() {
    let mut en = entry("Color", TypeKind::Enum);
    en.vars = vec![Some(VarDesc { memid: 0, name: "Red".to_string(), ty: TypeDesc::Prim(3), value: Some(1) })];
    let app = App::new(lib(vec![None, Some(en), Some(interface("Shape", &["Draw"]))]));
    assert_eq!(app.types.len(), 2);
    assert_eq!((app.types[0].0, app.types[0].1.as_str(), app.types[0].2.as_str()), (1, "Color", "Enum"));
    assert_eq!(app.all_search_items.len(), 2);
    assert_eq!(app.all_search_items[0].kind, "Enum");
    assert_eq!(app.all_search_items[0].type_index, 1);
    assert_eq!(app.all_search_items[1].kind, "Method");
    assert_eq!(app.current_enums.len(), 1);
    assert_eq!(app.current_enums[0].value, "1");
}

#[test]
fn filters_ignore_case_beyond_ascii() {
    let mut app = App::new(lib(vec![
        Some(interface("Élan", &["ÉTAT"])),
        Some(interface("Other", &["Run"])),
    ]));
    typed(&mut app, "é");
    assert_eq!(app.filtered_types, vec![0]);
    app.handle_key(Key::Ctrl('p'));
    typed(&mut app, "état");
    assert_eq!(app.global_search_results, vec![0]);
}

#[test]
fn failed_read_keeps_shown_members() {
    let mut app = sample();
    assert_eq!(app.current_methods.len(), 2);
    let idl = app.current_idl.clone();
    app.type_lib_info = tlbview::library::TypeLibInfo::new();
    app.type_sel = Some(1);
    app.update_selection();
    assert_eq!(app.current_methods.len(), 2);
    assert_eq!(app.current_methods[0].name, "Open");
    assert_eq!(app.current_idl, idl);
}
