//! The browsing state: type list, member list, filters and global search.
use vstd::prelude::*;
use vstd::string::*;
use crate::idl::{EnumItemInfo, MethodInfo};
use crate::library::{entries_of, entry_at, entry_enums, entry_methods, kind_name, lookup_error, TypeLibInfo};
use crate::emit::entry_text;
use crate::model::TypeLib;
use crate::text::{chars_of, contains_lower, contains_lower_of, eq_lower, lower_of};

verus! {

/// What the content pane shows.
#[derive(Clone, Copy, Debug, PartialEq, Eq, Structural)]
pub enum ViewMode {
    Idl,
    Structured,
}

/// Which filter typing goes to.
#[derive(Clone, Copy, Debug, PartialEq, Eq, Structural)]
pub enum SearchTarget {
    Types,
    Members,
}

/// Which pane receives key input.
#[derive(Clone, Copy, Debug, PartialEq, Eq, Structural)]
pub enum Focus {
    TypeList,
    Content,
}

/// One (type, member) pair of the search index.
#[derive(Clone, Debug)]
pub struct SearchItem {
    pub type_index: usize,
    pub owner_name: String,
    pub member_name: String,
    /// `Method` or `Enum`.
    pub kind: String,
}

impl View for SearchItem {
    type V = (usize, Seq<char>, Seq<char>, Seq<char>);

    open spec fn view(&self) -> Self::V {
        (self.type_index, self.owner_name@, self.member_name@, self.kind@)
    }
}

/// The browsing state over one library.
pub struct App {
    pub type_lib_info: TypeLibInfo,
    pub show_doc: bool,
    /// The readable entries: ordinal, name and kind name.
    pub types: Vec<(u32, String, String)>,
    /// Positions in `types` that pass the type filter.
    pub filtered_types: Vec<usize>,
    /// The selected position in `filtered_types`.
    pub type_sel: Option<usize>,
    pub current_idl: String,
    pub current_methods: Vec<MethodInfo>,
    pub current_enums: Vec<EnumItemInfo>,
    pub search_query: Vec<char>,
    pub member_search_query: Vec<char>,
    pub view_mode: ViewMode,
    pub search_target: SearchTarget,
    pub focus: Focus,
    /// The selected position among the members that pass the member filter.
    pub member_sel: Option<usize>,
    /// The scroll offset of the detail pane.
    pub detail_scroll: usize,
    pub all_search_items: Vec<SearchItem>,
    pub show_global_search: bool,
    pub global_search_query: Vec<char>,
    /// Positions in `all_search_items` that pass the global query.
    pub global_search_results: Vec<usize>,
    /// The selected position in `global_search_results`.
    pub global_sel: Option<usize>,
}

/// The positions of the names among the first `n` that contain `q`, both put in lower case.
pub open spec fn filter_upto(names: Seq<Seq<char>>, q: Seq<char>, n: int) -> Seq<usize>
    decreases n,
{
    if n <= 0 {
        Seq::empty()
    } else {
        filter_upto(names, q, n - 1) + if contains_lower(names[n - 1], q) {
            seq![(n - 1) as usize]
        } else {
            Seq::empty()
        }
    }
}

/// Every position a filter keeps is below the number of names looked at.
pub proof fn lemma_filter_bounds(names: Seq<Seq<char>>, q: Seq<char>, n: int)
    ensures
        forall|k: int| 0 <= k < filter_upto(names, q, n).len() ==> #[trigger] filter_upto(names, q, n)[k] < n,
        filter_upto(names, q, n).len() <= if n < 0 { 0 } else { n },
    decreases n,
{
    if n > 0 {
        lemma_filter_bounds(names, q, n - 1);
    }
}

/// The positions of the names that contain `q`, both put in lower case, in order.
pub open spec fn filter_names(names: Seq<Seq<char>>, q: Seq<char>) -> Seq<usize> {
    filter_upto(names, q, names.len() as int)
}

/// The names of the type rows.
pub open spec fn type_names(types: Seq<(u32, String, String)>) -> Seq<Seq<char>> {
    types.map_values(|t: (u32, String, String)| t.1@)
}

/// The names of the current members: the methods, or the enum values where there are no methods.
pub open spec fn member_names(app: App) -> Seq<Seq<char>> {
    if app.current_methods@.len() > 0 {
        app.current_methods@.map_values(|m: MethodInfo| m.name@)
    } else {
        app.current_enums@.map_values(|e: EnumItemInfo| e.name@)
    }
}

/// The positions of the current members that pass the member filter.
pub open spec fn visible_members(app: App) -> Seq<usize> {
    filter_names(member_names(app), app.member_search_query@)
}

/// The first selection in a list of `len` rows: the first row, or none.
pub open spec fn first_of(len: int) -> Option<usize> {
    if len > 0 {
        Some(0usize)
    } else {
        None
    }
}

/// The ordinal of the type row at filtered position `s`.
pub open spec fn row_ordinal(app: App, s: int) -> u32 {
    app.types@[app.filtered_types@[s] as int].0
}

/// The state after the entry at `ord` is shown: its text and its members (where it cannot be
/// read, what was shown stays in place), the member selection reset to the first
/// visible member, and the detail pane scrolled to the top.
pub open spec fn shows_entry(old: App, new: App, ord: u32) -> bool {
    let info = old.type_lib_info;
    &&& new.current_idl@ == if lookup_error(info, ord as int) is None {
        entry_text(entries_of(info), entry_at(info, ord as int)->0)
    } else {
        old.current_idl@
    }
    &&& new.current_methods@.map_values(|m: MethodInfo| m@) == if lookup_error(info, ord as int) is None {
        entry_methods(entries_of(info), entry_at(info, ord as int)->0)
    } else {
        old.current_methods@.map_values(|m: MethodInfo| m@)
    }
    &&& new.current_enums@.map_values(|e: EnumItemInfo| e@) == if lookup_error(info, ord as int) is None {
        entry_enums(entry_at(info, ord as int)->0)
    } else {
        old.current_enums@.map_values(|e: EnumItemInfo| e@)
    }
    &&& new.member_sel == first_of(visible_members(new).len() as int)
    &&& new.detail_scroll == 0
}

/// Everything but what showing an entry changes is the same.
pub open spec fn same_but_shown(old: App, new: App) -> bool {
    new == App {
        current_idl: new.current_idl,
        current_methods: new.current_methods,
        current_enums: new.current_enums,
        member_sel: new.member_sel,
        detail_scroll: new.detail_scroll,
        ..old
    }
}

/// What `update_selection` does: where the type selection names a row, that row's entry is shown.
pub open spec fn selection_post(old: App, new: App) -> bool {
    match old.type_sel {
        Some(s) => if s < old.filtered_types@.len() && old.filtered_types@[s as int] < old.types@.len() {
            same_but_shown(old, new) && shows_entry(old, new, row_ordinal(old, s as int))
        } else {
            new == old
        },
        None => new == old,
    }
}

/// What `update_filter` does: the type rows are filtered afresh by the type query, the first
/// row is selected and shown; with no row left, nothing is selected or shown.
pub open spec fn filter_post(old: App, new: App) -> bool {
    let f = filter_names(type_names(old.types@), old.search_query@);
    &&& new == App {
        filtered_types: new.filtered_types,
        type_sel: new.type_sel,
        current_idl: new.current_idl,
        current_methods: new.current_methods,
        current_enums: new.current_enums,
        member_sel: new.member_sel,
        detail_scroll: new.detail_scroll,
        ..old
    }
    &&& new.filtered_types@ == f
    &&& new.type_sel == first_of(f.len() as int)
    &&& if f.len() > 0 {
        f[0] < old.types@.len() && shows_entry(old, new, old.types@[f[0] as int].0)
    } else {
        &&& new.current_idl@ == Seq::<char>::empty()
        &&& new.current_methods@.len() == 0
        &&& new.current_enums@.len() == 0
        &&& new.member_sel is None
        &&& new.detail_scroll == 0
    }
}

/// The next row after `sel` in a list of `len` rows, wrapping past the last to the first.
pub open spec fn wrap_next(sel: Option<usize>, len: int) -> usize {
    match sel {
        Some(i) => if i + 1 >= len {
            0usize
        } else {
            (i + 1) as usize
        },
        None => 0usize,
    }
}

/// The row before `sel` in a list of `len` rows, wrapping before the first to the last;
/// a selection past the end goes to the last row.
pub open spec fn wrap_prev(sel: Option<usize>, len: int) -> usize {
    match sel {
        Some(i) => if i == 0 || i >= len {
            (len - 1) as usize
        } else {
            (i - 1) as usize
        },
        None => 0usize,
    }
}

/// What moving the selection does in the focused list: with `forward`, to the next row, else
/// to the previous one, wrapping around; a new type row is shown. An empty list is left alone.
pub open spec fn move_post(old: App, new: App, forward: bool) -> bool {
    match old.focus {
        Focus::TypeList => {
            let len = old.filtered_types@.len() as int;
            if len > 0 {
                selection_post(
                    App {
                        type_sel: Some(
                            if forward {
                                wrap_next(old.type_sel, len)
                            } else {
                                wrap_prev(old.type_sel, len)
                            },
                        ),
                        ..old
                    },
                    new,
                )
            } else {
                new == old
            }
        },
        Focus::Content => {
            let len = visible_members(old).len() as int;
            if len > 0 {
                new == App {
                    member_sel: Some(
                        if forward {
                            wrap_next(old.member_sel, len)
                        } else {
                            wrap_prev(old.member_sel, len)
                        },
                    ),
                    ..old
                }
            } else {
                new == old
            }
        },
    }
}

/// What a change of the member query does: the member selection goes to the first visible member.
pub open spec fn member_query_post(old: App, new: App) -> bool {
    &&& new == App { member_sel: new.member_sel, ..old }
    &&& new.member_sel == first_of(visible_members(new).len() as int)
}

/// What typing `c` does: it goes to the targeted query, which then takes effect.
pub open spec fn push_char_post(old: App, new: App, c: char) -> bool {
    match old.search_target {
        SearchTarget::Types => exists|mid: App|
            mid == App { search_query: mid.search_query, ..old } && mid.search_query@ == old.search_query@.push(c)
                && #[trigger] filter_post(mid, new),
        SearchTarget::Members => exists|mid: App|
            mid == App { member_search_query: mid.member_search_query, ..old } && mid.member_search_query@
                == old.member_search_query@.push(c) && #[trigger] member_query_post(mid, new),
    }
}

/// What a backspace does: the targeted query loses its last character, which then takes effect.
pub open spec fn backspace_post(old: App, new: App) -> bool {
    match old.search_target {
        SearchTarget::Types => exists|mid: App|
            mid == App { search_query: mid.search_query, ..old } && mid.search_query@ == drop_last_char(
                old.search_query@,
            ) && #[trigger] filter_post(mid, new),
        SearchTarget::Members => exists|mid: App|
            mid == App { member_search_query: mid.member_search_query, ..old } && mid.member_search_query@
                == drop_last_char(old.member_search_query@) && #[trigger] member_query_post(mid, new),
    }
}

/// The member names of the search index.
pub open spec fn item_names(items: Seq<SearchItem>) -> Seq<Seq<char>> {
    items.map_values(|it: SearchItem| it.member_name@)
}

/// The positions of index items whose member name contains the global query; none for an empty query.
pub open spec fn global_results(app: App) -> Seq<usize> {
    if app.global_search_query@.len() == 0 {
        Seq::empty()
    } else {
        filter_names(item_names(app.all_search_items@), app.global_search_query@)
    }
}

/// What `update_global_search` does: the results are recomputed and the first one selected.
pub open spec fn global_post(old: App, new: App) -> bool {
    &&& new == App { global_search_results: new.global_search_results, global_sel: new.global_sel, ..old }
    &&& new.global_search_results@ == global_results(old)
    &&& new.global_sel == first_of(global_results(old).len() as int)
}

/// What opening the global search overlay does: it shows with an empty query and no results.
pub open spec fn open_global_post(old: App, new: App) -> bool {
    exists|mid: App|
        mid == App { show_global_search: true, global_search_query: mid.global_search_query, ..old }
            && mid.global_search_query@.len() == 0 && #[trigger] global_post(mid, new)
}

/// What moving through the global results does: the next or previous result, wrapping around.
pub open spec fn global_move_post(old: App, new: App, forward: bool) -> bool {
    let len = old.global_search_results@.len() as int;
    if len > 0 {
        new == App {
            global_sel: Some(
                if forward {
                    wrap_next(old.global_sel, len)
                } else {
                    wrap_prev(old.global_sel, len)
                },
            ),
            ..old
        }
    } else {
        new == old
    }
}

/// The index item the global selection names, if any.
pub open spec fn picked_item(app: App) -> Option<SearchItem> {
    match app.global_sel {
        Some(s) => if s < app.global_search_results@.len() && app.global_search_results@[s as int]
            < app.all_search_items@.len() {
            Some(app.all_search_items@[app.global_search_results@[s as int] as int])
        } else {
            None
        },
        None => None,
    }
}

/// The first of the first `n` filtered rows whose entry has ordinal `ord`.
pub open spec fn first_row_upto(app: App, ord: usize, n: int) -> Option<usize>
    decreases n,
{
    if n <= 0 {
        None
    } else {
        match first_row_upto(app, ord, n - 1) {
            Some(p) => Some(p),
            None => {
                let k = app.filtered_types@[n - 1];
                if k < app.types@.len() && app.types@[k as int].0 as usize == ord {
                    Some((n - 1) as usize)
                } else {
                    None
                }
            },
        }
    }
}

/// The filtered row whose entry has ordinal `ord`.
pub open spec fn row_of(app: App, ord: usize) -> Option<usize> {
    first_row_upto(app, ord, app.filtered_types@.len() as int)
}

/// The first of the first `n` positions in `vis` whose name equals `name` in lower case.
pub open spec fn first_named_upto(names: Seq<Seq<char>>, vis: Seq<usize>, name: Seq<char>, n: int) -> Option<usize>
    decreases n,
{
    if n <= 0 {
        None
    } else {
        match first_named_upto(names, vis, name, n - 1) {
            Some(j) => Some(j),
            None => {
                let k = vis[n - 1];
                if k < names.len() && lower_of(names[k as int]) == lower_of(name) {
                    Some((n - 1) as usize)
                } else {
                    None
                }
            },
        }
    }
}

/// The visible member named `name`, else the first visible member.
pub open spec fn member_pick(app: App, name: Seq<char>) -> Option<usize> {
    match first_named_upto(member_names(app), visible_members(app), name, visible_members(app).len() as int) {
        Some(j) => Some(j),
        None => first_of(visible_members(app).len() as int),
    }
}

/// The steps of accepting a global result `item`: the overlay closes and the type query is
/// cleared (`pre`), the type rows are filtered afresh (`a`), the owning type is selected and
/// shown (`b`), and the member query is seeded with the member's name, which is selected.
pub open spec fn select_steps(old: App, pre: App, a: App, b: App, new: App, item: SearchItem) -> bool {
    &&& pre == App { show_global_search: false, search_query: pre.search_query, ..old }
    &&& pre.search_query@.len() == 0
    &&& filter_post(pre, a)
    &&& match row_of(a, item.type_index) {
        Some(p) => selection_post(App { type_sel: Some(p), ..a }, b),
        None => b == a,
    }
    &&& new == App {
        member_search_query: new.member_search_query,
        search_target: SearchTarget::Members,
        member_sel: new.member_sel,
        ..b
    }
    &&& new.member_search_query@ == item.member_name@
    &&& new.member_sel == member_pick(new, item.member_name@)
}

/// What accepting the selected global result does; with no result selected, nothing.
pub open spec fn select_global_post(old: App, new: App) -> bool {
    if picked_item(old) is Some {
        exists|pre: App, a: App, b: App| #[trigger] select_steps(old, pre, a, b, new, picked_item(old)->0)
    } else {
        new == old
    }
}

/// The name of the selected row of the focused list.
pub open spec fn selected_name(app: App) -> Option<Seq<char>> {
    match app.focus {
        Focus::TypeList => match app.type_sel {
            Some(i) => if i < app.filtered_types@.len() && app.filtered_types@[i as int] < app.types@.len() {
                Some(app.types@[app.filtered_types@[i as int] as int].1@)
            } else {
                None
            },
            None => None,
        },
        Focus::Content => match app.member_sel {
            Some(i) => if i < visible_members(app).len() && visible_members(app)[i as int] < member_names(
                app,
            ).len() {
                Some(member_names(app)[visible_members(app)[i as int] as int])
            } else {
                None
            },
            None => None,
        },
    }
}

/// The number of entries the browser walks: the count that `get_type_info_count` gives.
pub open spec fn type_count(info: TypeLibInfo) -> int {
    if entries_of(info).len() > u32::MAX {
        u32::MAX as int
    } else {
        entries_of(info).len() as int
    }
}

/// The type rows of the first `n` entries: each readable entry's ordinal, name and kind name.
pub open spec fn types_upto(info: TypeLibInfo, n: int) -> Seq<(u32, Seq<char>, Seq<char>)>
    decreases n,
{
    if n <= 0 {
        Seq::empty()
    } else {
        types_upto(info, n - 1) + match entry_at(info, n - 1) {
            Some(e) => seq![((n - 1) as u32, e.name@, kind_name(e.kind))],
            None => Seq::empty(),
        }
    }
}

/// The index items of one type: its methods, then its enum values.
pub open spec fn items_for(i: usize, name: Seq<char>, methods: Seq<Seq<char>>, values: Seq<Seq<char>>) -> Seq<
    (usize, Seq<char>, Seq<char>, Seq<char>),
> {
    Seq::new(methods.len(), |j: int| (i, name, methods[j], "Method"@)) + Seq::new(
        values.len(),
        |j: int| (i, name, values[j], "Enum"@),
    )
}

/// The index items of the first `n` entries, in ordinal order.
pub open spec fn index_upto(info: TypeLibInfo, n: int) -> Seq<(usize, Seq<char>, Seq<char>, Seq<char>)>
    decreases n,
{
    if n <= 0 {
        Seq::empty()
    } else {
        index_upto(info, n - 1) + match entry_at(info, n - 1) {
            Some(e) => items_for(
                (n - 1) as usize,
                e.name@,
                entry_methods(entries_of(info), e).map_values(|m: (Seq<char>, Seq<char>, Seq<(Seq<char>, Seq<char>, Seq<Seq<char>>)>, Seq<char>)| m.0),
                entry_enums(e).map_values(|v: (Seq<char>, Seq<char>)| v.0),
            ),
            None => Seq::empty(),
        }
    }
}

/// The state a browser starts in over `lib`: every readable entry listed and indexed, no
/// query, the structured view, the type list focused, and the first type shown.
pub open spec fn initial_post(lib: TypeLib, r: App) -> bool {
    &&& r.type_lib_info.tlib == Some(lib)
    &&& r.types@.map_values(|t: (u32, String, String)| (t.0, t.1@, t.2@)) == types_upto(
        r.type_lib_info,
        type_count(r.type_lib_info),
    )
    &&& r.all_search_items@.map_values(|it: SearchItem| it@) == index_upto(
        r.type_lib_info,
        type_count(r.type_lib_info),
    )
    &&& r.search_query@.len() == 0
    &&& r.member_search_query@.len() == 0
    &&& r.view_mode == ViewMode::Structured
    &&& r.search_target == SearchTarget::Types
    &&& r.focus == Focus::TypeList
    &&& !r.show_doc
    &&& !r.show_global_search
    &&& r.global_search_query@.len() == 0
    &&& r.global_search_results@.len() == 0
    &&& r.global_sel is None
    &&& exists|pre: App|
        #[trigger] filter_post(pre, r) && pre.current_idl@.len() == 0 && pre.types == r.types
            && pre.search_query == r.search_query && pre.type_lib_info == r.type_lib_info
}

/// Appends the index items of one type.
fn push_items(
    items: &mut Vec<SearchItem>,
    i: usize,
    name: &String,
    methods: &Vec<MethodInfo>,
    values: &Vec<EnumItemInfo>,
)
    ensures
        final(items)@.map_values(|it: SearchItem| it@) == old(items)@.map_values(|it: SearchItem| it@)
            + items_for(
            i,
            name@,
            methods@.map_values(|m: MethodInfo| m.name@),
            values@.map_values(|v: EnumItemInfo| v.name@),
        ),
{
    let ghost start = items@.map_values(|it: SearchItem| it@);
    let ghost want = start + items_for(
        i,
        name@,
        methods@.map_values(|m: MethodInfo| m.name@),
        values@.map_values(|v: EnumItemInfo| v.name@),
    );
    let ghost n0 = start.len();
    let mut j: usize = 0;
    while j < methods.len()
        invariant
            want == start + items_for(
                i,
                name@,
                methods@.map_values(|m: MethodInfo| m.name@),
                values@.map_values(|v: EnumItemInfo| v.name@),
            ),
            n0 == start.len(),
            j <= methods.len(),
            items@.len() == n0 + j,
            forall|k: int| 0 <= k < n0 + j ==> #[trigger] items@[k]@ == want[k],
        decreases methods.len() - j,
    {
        items.push(
            SearchItem {
                type_index: i,
                owner_name: name.clone(),
                member_name: methods[j].name.clone(),
                kind: String::from_str("Method"),
            },
        );
        j = j + 1;
    }
    let mut j: usize = 0;
    while j < values.len()
        invariant
            want == start + items_for(
                i,
                name@,
                methods@.map_values(|m: MethodInfo| m.name@),
                values@.map_values(|v: EnumItemInfo| v.name@),
            ),
            n0 == start.len(),
            j <= values.len(),
            items@.len() == n0 + methods.len() + j,
            forall|k: int| 0 <= k < n0 + methods.len() + j ==> #[trigger] items@[k]@ == want[k],
        decreases values.len() - j,
    {
        items.push(
            SearchItem {
                type_index: i,
                owner_name: name.clone(),
                member_name: values[j].name.clone(),
                kind: String::from_str("Enum"),
            },
        );
        j = j + 1;
    }
    assert(items@.map_values(|it: SearchItem| it@) =~= want);
}

/// A key press, as the browser sees it.
#[derive(Clone, Copy, Debug)]
pub enum Key {
    Char(char),
    /// A character typed with the control modifier.
    Ctrl(char),
    Backspace,
    Enter,
    Esc,
    Up,
    Down,
    Left,
    Right,
    Tab,
    Other,
}

/// What typing `c` into the global query does.
pub open spec fn global_char_post(old: App, new: App, c: char) -> bool {
    exists|mid: App|
        mid == App { global_search_query: mid.global_search_query, ..old } && mid.global_search_query@
            == old.global_search_query@.push(c) && #[trigger] global_post(mid, new)
}

/// What a backspace in the global query does.
pub open spec fn global_backspace_post(old: App, new: App) -> bool {
    exists|mid: App|
        mid == App { global_search_query: mid.global_search_query, ..old } && mid.global_search_query@
            == drop_last_char(old.global_search_query@) && #[trigger] global_post(mid, new)
}

/// What a key does outside the global overlay when it is a plain character: `q` with both
/// queries empty quits, anything else is typed.
pub open spec fn char_key_post(old: App, new: App, c: char, quit: bool) -> bool {
    if c == 'q' && old.search_query@.len() == 0 && old.member_search_query@.len() == 0 {
        quit && new == old
    } else {
        !quit && push_char_post(old, new, c)
    }
}

/// What a key does: the transition it makes, and whether the session ends.
pub open spec fn key_post(old: App, new: App, key: Key, quit: bool) -> bool {
    if old.show_global_search {
        &&& !quit
        &&& match key {
            Key::Esc => new == App { show_global_search: false, ..old },
            Key::Down => global_move_post(old, new, true),
            Key::Up => global_move_post(old, new, false),
            Key::Enter => select_global_post(old, new),
            Key::Char(c) => global_char_post(old, new, c),
            Key::Backspace => global_backspace_post(old, new),
            _ => new == old,
        }
    } else {
        match key {
            Key::Char(c) => char_key_post(old, new, c, quit),
            Key::Ctrl(c) => if c == 'p' {
                !quit && open_global_post(old, new)
            } else if c == 'f' {
                !quit && new == App {
                    search_target: match old.search_target {
                        SearchTarget::Types => SearchTarget::Members,
                        SearchTarget::Members => SearchTarget::Types,
                    },
                    ..old
                }
            } else {
                char_key_post(old, new, c, quit)
            },
            Key::Esc => quit && new == old,
            Key::Down => !quit && move_post(old, new, true),
            Key::Up => !quit && move_post(old, new, false),
            Key::Right => !quit && new == App { focus: Focus::Content, ..old },
            Key::Left => !quit && new == App { focus: Focus::TypeList, ..old },
            Key::Tab => !quit && new == App {
                view_mode: match old.view_mode {
                    ViewMode::Idl => ViewMode::Structured,
                    ViewMode::Structured => ViewMode::Idl,
                },
                ..old
            },
            Key::Enter => !quit && new == if old.focus == Focus::Content && old.current_methods@.len() > 0 {
                App { show_doc: !old.show_doc, ..old }
            } else {
                old
            },
            Key::Backspace => !quit && backspace_post(old, new),
            Key::Other => !quit && new == old,
        }
    }
}

/// The positions of type rows that pass a type filter.
fn filter_rows(types: &Vec<(u32, String, String)>, q: &Vec<char>) -> (r: Vec<usize>)
    ensures
        r@ == filter_names(type_names(types@), q@),
{
    let ghost names = type_names(types@);
    let mut r: Vec<usize> = Vec::new();
    let mut i: usize = 0;
    while i < types.len()
        invariant
            names == type_names(types@),
            i <= types.len(),
            r@ == filter_upto(names, q@, i as int),
        decreases types.len() - i,
    {
        let name = chars_of(types[i].1.as_str());
        if contains_lower_of(&name, q) {
            r.push(i);
        }
        i = i + 1;
    }
    r
}

/// The positions of names that pass a filter.
fn filter_strings(names: &Vec<String>, q: &Vec<char>) -> (r: Vec<usize>)
    ensures
        r@ == filter_names(names@.map_values(|s: String| s@), q@),
{
    let ghost ns = names@.map_values(|s: String| s@);
    let mut r: Vec<usize> = Vec::new();
    let mut i: usize = 0;
    while i < names.len()
        invariant
            ns == names@.map_values(|s: String| s@),
            i <= names.len(),
            r@ == filter_upto(ns, q@, i as int),
        decreases names.len() - i,
    {
        let name = chars_of(names[i].as_str());
        if contains_lower_of(&name, q) {
            r.push(i);
        }
        i = i + 1;
    }
    r
}

impl App {
    /// A browser over `lib`: every readable entry listed and indexed, and the first one shown.
    pub fn new(lib: TypeLib) -> (r: App)
        ensures
            initial_post(lib, r),
    {
        let mut info = TypeLibInfo::new();
        info.load_type_lib(lib);
        let count = info.get_type_info_count();
        let mut types: Vec<(u32, String, String)> = Vec::new();
        let mut items: Vec<SearchItem> = Vec::new();
        let mut i: u32 = 0;
        while i < count
            invariant
                info.tlib == Some(lib),
                count == type_count(info),
                i <= count,
                types@.map_values(|t: (u32, String, String)| (t.0, t.1@, t.2@)) == types_upto(info, i as int),
                items@.map_values(|it: SearchItem| it@) == index_upto(info, i as int),
            decreases count - i,
        {
            let ghost tv = types@.map_values(|t: (u32, String, String)| (t.0, t.1@, t.2@));
            match info.get_type_name_and_kind(i) {
                Ok((name, kind)) => {
                    let ms = match info.get_type_methods(i) {
                        Ok(ms) => ms,
                        Err(_) => Vec::new(),
                    };
                    let es = match info.get_type_enums(i) {
                        Ok(es) => es,
                        Err(_) => Vec::new(),
                    };
                    let ghost e = entry_at(info, i as int)->0;
                    assert(ms@.map_values(|m: MethodInfo| m.name@) =~= entry_methods(entries_of(info), e).map_values(
                        |m: (Seq<char>, Seq<char>, Seq<(Seq<char>, Seq<char>, Seq<Seq<char>>)>, Seq<char>)| m.0,
                    ));
                    assert(es@.map_values(|v: EnumItemInfo| v.name@) =~= entry_enums(e).map_values(
                        |v: (Seq<char>, Seq<char>)| v.0,
                    ));
                    push_items(&mut items, i as usize, &name, &ms, &es);
                    types.push((i, name, kind));
                    assert(types@.map_values(|t: (u32, String, String)| (t.0, t.1@, t.2@)) =~= tv + seq![
                        (i, e.name@, kind_name(e.kind)),
                    ]);
                },
                Err(_) => {
                    assert(types@.map_values(|t: (u32, String, String)| (t.0, t.1@, t.2@)) =~= tv + Seq::<(u32, Seq<char>, Seq<char>)>::empty());
                },
            }
            i = i + 1;
        }
        let mut app = App {
            type_lib_info: info,
            show_doc: false,
            types,
            filtered_types: Vec::new(),
            type_sel: None,
            current_idl: String::new(),
            current_methods: Vec::new(),
            current_enums: Vec::new(),
            search_query: Vec::new(),
            member_search_query: Vec::new(),
            view_mode: ViewMode::Structured,
            search_target: SearchTarget::Types,
            focus: Focus::TypeList,
            member_sel: None,
            detail_scroll: 0,
            all_search_items: items,
            show_global_search: false,
            global_search_query: Vec::new(),
            global_search_results: Vec::new(),
            global_sel: None,
        };
        let ghost pre = app;
        app.update_filter();
        assert(filter_post(pre, app));
        app
    }

    /// The names of the current members.
    fn member_name_list(&self) -> (r: Vec<String>)
        ensures
            r@.map_values(|s: String| s@) == member_names(*self),
    {
        let mut r: Vec<String> = Vec::new();
        let mut i: usize = 0;
        if self.current_methods.len() > 0 {
            while i < self.current_methods.len()
                invariant
                    i <= self.current_methods.len(),
                    r@.len() == i,
                    forall|k: int| 0 <= k < i ==> #[trigger] r@[k]@ == self.current_methods@[k].name@,
                decreases self.current_methods.len() - i,
            {
                r.push(self.current_methods[i].name.clone());
                i = i + 1;
            }
        } else {
            while i < self.current_enums.len()
                invariant
                    i <= self.current_enums.len(),
                    r@.len() == i,
                    forall|k: int| 0 <= k < i ==> #[trigger] r@[k]@ == self.current_enums@[k].name@,
                decreases self.current_enums.len() - i,
            {
                r.push(self.current_enums[i].name.clone());
                i = i + 1;
            }
        }
        assert(r@.map_values(|s: String| s@) =~= member_names(*self));
        r
    }

    /// The positions of the current members that pass the member filter.
    pub fn visible_member_positions(&self) -> (r: Vec<usize>)
        ensures
            r@ == visible_members(*self),
    {
        let names = self.member_name_list();
        filter_strings(&names, &self.member_search_query)
    }

    /// Shows the entry of the selected type row, and resets the member selection.
    pub fn update_selection(&mut self)
        ensures
            selection_post(*old(self), *final(self)),
    {
        let s = match self.type_sel {
            Some(s) => s,
            None => return,
        };
        if s >= self.filtered_types.len() || self.filtered_types[s] >= self.types.len() {
            return;
        }
        let ord = self.types[self.filtered_types[s]].0;
        match self.type_lib_info.get_type_idl(ord) {
            Ok(idl) => self.current_idl = idl,
            Err(_) => {},
        }
        match self.type_lib_info.get_type_methods(ord) {
            Ok(ms) => self.current_methods = ms,
            Err(_) => {},
        }
        match self.type_lib_info.get_type_enums(ord) {
            Ok(es) => self.current_enums = es,
            Err(_) => {},
        }
        self.detail_scroll = 0;
        let vis = self.visible_member_positions();
        self.member_sel = if vis.len() > 0 {
            Some(0)
        } else {
            None
        };
    }

    /// Filters the type rows by the type query, and selects and shows the first one.
    pub fn update_filter(&mut self)
        ensures
            filter_post(*old(self), *final(self)),
    {
        let ghost start = *self;
        self.filtered_types = filter_rows(&self.types, &self.search_query);
        proof {
            lemma_filter_bounds(type_names(self.types@), self.search_query@, self.types@.len() as int);
        }
        if self.filtered_types.len() > 0 {
            self.type_sel = Some(0);
            let ghost mid = *self;
            self.update_selection();
            assert(selection_post(mid, *self));
        } else {
            self.type_sel = None;
            self.current_idl = String::new();
            self.current_methods = Vec::new();
            self.current_enums = Vec::new();
            self.member_sel = None;
            self.detail_scroll = 0;
        }
    }

    /// Moves to the next row of the focused list, wrapping around.
    pub fn next(&mut self)
        ensures
            move_post(*old(self), *final(self), true),
    {
        match self.focus {
            Focus::TypeList => {
                let len = self.filtered_types.len();
                if len > 0 {
                    let i = match self.type_sel {
                        Some(i) => if i >= len - 1 {
                            0
                        } else {
                            i + 1
                        },
                        None => 0,
                    };
                    self.type_sel = Some(i);
                    self.update_selection();
                }
            },
            Focus::Content => {
                let len = self.visible_member_positions().len();
                if len > 0 {
                    let i = match self.member_sel {
                        Some(i) => if i >= len - 1 {
                            0
                        } else {
                            i + 1
                        },
                        None => 0,
                    };
                    self.member_sel = Some(i);
                }
            },
        }
    }

    /// Moves to the previous row of the focused list, wrapping around.
    pub fn previous(&mut self)
        ensures
            move_post(*old(self), *final(self), false),
    {
        match self.focus {
            Focus::TypeList => {
                let len = self.filtered_types.len();
                if len > 0 {
                    let i = match self.type_sel {
                        Some(i) => if i == 0 || i >= len {
                            len - 1
                        } else {
                            i - 1
                        },
                        None => 0,
                    };
                    self.type_sel = Some(i);
                    self.update_selection();
                }
            },
            Focus::Content => {
                let len = self.visible_member_positions().len();
                if len > 0 {
                    let i = match self.member_sel {
                        Some(i) => if i == 0 || i >= len {
                            len - 1
                        } else {
                            i - 1
                        },
                        None => 0,
                    };
                    self.member_sel = Some(i);
                }
            },
        }
    }

    /// Switches between the IDL text and the structured view.
    pub fn toggle_view(&mut self)
        ensures
            final(self).view_mode == (match old(self).view_mode {
                ViewMode::Idl => ViewMode::Structured,
                ViewMode::Structured => ViewMode::Idl,
            }),
            *final(self) == (App { view_mode: final(self).view_mode, ..*old(self) }),
    {
        self.view_mode = match self.view_mode {
            ViewMode::Idl => ViewMode::Structured,
            ViewMode::Structured => ViewMode::Idl,
        };
    }

    /// Switches which filter typing goes to.
    pub fn toggle_search_target(&mut self)
        ensures
            final(self).search_target == (match old(self).search_target {
                SearchTarget::Types => SearchTarget::Members,
                SearchTarget::Members => SearchTarget::Types,
            }),
            *final(self) == (App { search_target: final(self).search_target, ..*old(self) }),
    {
        self.search_target = match self.search_target {
            SearchTarget::Types => SearchTarget::Members,
            SearchTarget::Members => SearchTarget::Types,
        };
    }

    /// Resets the member selection after the member query changed.
    fn update_member_filter(&mut self)
        ensures
            member_query_post(*old(self), *final(self)),
    {
        let len = self.visible_member_positions().len();
        self.member_sel = if len > 0 {
            Some(0)
        } else {
            None
        };
    }

    /// Types one character into the targeted filter.
    pub fn push_char(&mut self, c: char)
        ensures
            push_char_post(*old(self), *final(self), c),
    {
        match self.search_target {
            SearchTarget::Types => {
                self.search_query.push(c);
                let ghost mid = *self;
                self.update_filter();
                assert(filter_post(mid, *self));
            },
            SearchTarget::Members => {
                self.member_search_query.push(c);
                let ghost mid = *self;
                self.update_member_filter();
                assert(member_query_post(mid, *self));
            },
        }
    }

    /// Removes the last character of the targeted filter, if any.
    pub fn backspace(&mut self)
        ensures
            backspace_post(*old(self), *final(self)),
    {
        match self.search_target {
            SearchTarget::Types => {
                self.search_query.pop();
                let ghost mid = *self;
                self.update_filter();
                assert(filter_post(mid, *self));
            },
            SearchTarget::Members => {
                self.member_search_query.pop();
                let ghost mid = *self;
                self.update_member_filter();
                assert(member_query_post(mid, *self));
            },
        }
    }
}

impl App {
    /// Recomputes the global results and selects the first.
    pub fn update_global_search(&mut self)
        ensures
            global_post(*old(self), *final(self)),
    {
        if self.global_search_query.len() == 0 {
            self.global_search_results = Vec::new();
            self.global_sel = None;
            return;
        }
        let mut names: Vec<String> = Vec::new();
        let mut i: usize = 0;
        while i < self.all_search_items.len()
            invariant
                i <= self.all_search_items.len(),
                names@.len() == i,
                forall|k: int| 0 <= k < i ==> #[trigger] names@[k]@ == self.all_search_items@[k].member_name@,
            decreases self.all_search_items.len() - i,
        {
            names.push(self.all_search_items[i].member_name.clone());
            i = i + 1;
        }
        assert(names@.map_values(|s: String| s@) =~= item_names(self.all_search_items@));
        self.global_search_results = filter_strings(&names, &self.global_search_query);
        self.global_sel = if self.global_search_results.len() > 0 {
            Some(0)
        } else {
            None
        };
    }

    /// Opens the global search overlay with an empty query.
    pub fn open_global_search(&mut self)
        ensures
            open_global_post(*old(self), *final(self)),
    {
        self.show_global_search = true;
        self.global_search_query = Vec::new();
        let ghost mid = *self;
        self.update_global_search();
        assert(global_post(mid, *self));
    }

    /// Moves to the next global result, wrapping around.
    pub fn next_global_result(&mut self)
        ensures
            global_move_post(*old(self), *final(self), true),
    {
        let len = self.global_search_results.len();
        if len == 0 {
            return;
        }
        let i = match self.global_sel {
            Some(i) => if i >= len - 1 {
                0
            } else {
                i + 1
            },
            None => 0,
        };
        self.global_sel = Some(i);
    }

    /// Moves to the previous global result, wrapping around.
    pub fn previous_global_result(&mut self)
        ensures
            global_move_post(*old(self), *final(self), false),
    {
        let len = self.global_search_results.len();
        if len == 0 {
            return;
        }
        let i = match self.global_sel {
            Some(i) => if i == 0 || i >= len {
                len - 1
            } else {
                i - 1
            },
            None => 0,
        };
        self.global_sel = Some(i);
    }

    /// The filtered row whose entry has ordinal `ord`.
    fn row_position(&self, ord: usize) -> (r: Option<usize>)
        ensures
            r == row_of(*self, ord),
    {
        let mut i: usize = 0;
        while i < self.filtered_types.len()
            invariant
                i <= self.filtered_types.len(),
                first_row_upto(*self, ord, i as int) is None,
            decreases self.filtered_types.len() - i,
        {
            let k = self.filtered_types[i];
            if k < self.types.len() && self.types[k].0 as usize == ord {
                proof {
                    lemma_first_row_stable(*self, ord, i + 1, self.filtered_types@.len() as int);
                }
                return Some(i);
            }
            i = i + 1;
        }
        None
    }

    /// The visible member named `name`, else the first visible member.
    fn pick_member(&self, name: &String) -> (r: Option<usize>)
        ensures
            r == member_pick(*self, name@),
    {
        let vis = self.visible_member_positions();
        let names = self.member_name_list();
        let target = chars_of(name.as_str());
        let mut j: usize = 0;
        while j < vis.len()
            invariant
                vis@ == visible_members(*self),
                names@.map_values(|s: String| s@) == member_names(*self),
                target@ == name@,
                j <= vis.len(),
                first_named_upto(member_names(*self), vis@, name@, j as int) is None,
            decreases vis.len() - j,
        {
            if vis[j] < names.len() {
                let n = chars_of(names[vis[j]].as_str());
                if eq_lower(&n, &target) {
                    proof {
                        lemma_first_named_stable(member_names(*self), vis@, name@, j + 1, vis@.len() as int);
                    }
                    return Some(j);
                }
            }
            j = j + 1;
        }
        if vis.len() > 0 {
            Some(0)
        } else {
            None
        }
    }

    /// Accepts the selected global result: shows its type and seeds the member filter with its name.
    pub fn select_global_result(&mut self)
        ensures
            select_global_post(*old(self), *final(self)),
    {
        let ghost start = *self;
        let s = match self.global_sel {
            Some(s) => s,
            None => return,
        };
        if s >= self.global_search_results.len() || self.global_search_results[s] >= self.all_search_items.len() {
            return;
        }
        let item_idx = self.global_search_results[s];
        let ghost item = self.all_search_items@[item_idx as int];
        let type_index = self.all_search_items[item_idx].type_index;
        let member_name = self.all_search_items[item_idx].member_name.clone();
        self.show_global_search = false;
        self.search_query = Vec::new();
        let ghost pre = *self;
        self.update_filter();
        let ghost a = *self;
        match self.row_position(type_index) {
            Some(p) => {
                self.type_sel = Some(p);
                self.update_selection();
            },
            None => {},
        }
        let ghost b = *self;
        self.member_search_query = chars_of(member_name.as_str());
        self.search_target = SearchTarget::Members;
        self.member_sel = self.pick_member(&member_name);
        assert(picked_item(start) == Some(item));
        assert(select_steps(start, pre, a, b, *self, picked_item(start)->0));
    }

    /// The name of the selected row of the focused list.
    pub fn get_selected_name(&self) -> (r: Option<String>)
        ensures
            match (r, selected_name(*self)) {
                (Some(x), Some(y)) => x@ == y,
                (None, None) => true,
                _ => false,
            },
    {
        match self.focus {
            Focus::TypeList => match self.type_sel {
                Some(i) => {
                    if i < self.filtered_types.len() && self.filtered_types[i] < self.types.len() {
                        Some(self.types[self.filtered_types[i]].1.clone())
                    } else {
                        None
                    }
                },
                None => None,
            },
            Focus::Content => match self.member_sel {
                Some(i) => {
                    let vis = self.visible_member_positions();
                    let names = self.member_name_list();
                    if i < vis.len() && vis[i] < names.len() {
                        Some(names[vis[i]].clone())
                    } else {
                        None
                    }
                },
                None => None,
            },
        }
    }

    /// Handles a plain character outside the global overlay; returns whether to quit.
    fn char_key(&mut self, c: char) -> (quit: bool)
        ensures
            char_key_post(*old(self), *final(self), c, quit),
    {
        if c == 'q' && self.search_query.len() == 0 && self.member_search_query.len() == 0 {
            true
        } else {
            self.push_char(c);
            false
        }
    }

    /// Handles one key press; returns whether the session ends.
    pub fn handle_key(&mut self, key: Key) -> (quit: bool)
        ensures
            key_post(*old(self), *final(self), key, quit),
    {
        if self.show_global_search {
            match key {
                Key::Esc => self.show_global_search = false,
                Key::Down => self.next_global_result(),
                Key::Up => self.previous_global_result(),
                Key::Enter => self.select_global_result(),
                Key::Char(c) => {
                    self.global_search_query.push(c);
                    let ghost mid = *self;
                    self.update_global_search();
                    assert(global_post(mid, *self));
                },
                Key::Backspace => {
                    self.global_search_query.pop();
                    let ghost mid = *self;
                    self.update_global_search();
                    assert(global_post(mid, *self));
                },
                _ => {},
            }
            false
        } else {
            match key {
                Key::Char(c) => self.char_key(c),
                Key::Ctrl(c) => {
                    if c == 'p' {
                        self.open_global_search();
                        false
                    } else if c == 'f' {
                        self.toggle_search_target();
                        false
                    } else {
                        self.char_key(c)
                    }
                },
                Key::Esc => true,
                Key::Down => {
                    self.next();
                    false
                },
                Key::Up => {
                    self.previous();
                    false
                },
                Key::Right => {
                    self.focus = Focus::Content;
                    false
                },
                Key::Left => {
                    self.focus = Focus::TypeList;
                    false
                },
                Key::Tab => {
                    self.toggle_view();
                    false
                },
                Key::Enter => {
                    if self.is_method_selected() {
                        self.show_doc = !self.show_doc;
                    }
                    false
                },
                Key::Backspace => {
                    self.backspace();
                    false
                },
                Key::Other => false,
            }
        }
    }

    /// Whether a method row of the content pane has the focus.
    pub fn is_method_selected(&self) -> (r: bool)
        ensures
            r == (self.focus == Focus::Content && self.current_methods@.len() > 0),
    {
        self.focus == Focus::Content && self.current_methods.len() > 0
    }
}

/// Once found, the first matching row stays the first as more rows are looked at.
proof fn lemma_first_row_stable(app: App, ord: usize, n: int, m: int)
    requires
        first_row_upto(app, ord, n) is Some,
        n <= m,
    ensures
        first_row_upto(app, ord, m) == first_row_upto(app, ord, n),
    decreases m,
{
    if m > n {
        lemma_first_row_stable(app, ord, n, m - 1);
    }
}

/// Once found, the first matching member stays the first as more members are looked at.
proof fn lemma_first_named_stable(names: Seq<Seq<char>>, vis: Seq<usize>, name: Seq<char>, n: int, m: int)
    requires
        first_named_upto(names, vis, name, n) is Some,
        n <= m,
    ensures
        first_named_upto(names, vis, name, m) == first_named_upto(names, vis, name, n),
    decreases m,
{
    if m > n {
        lemma_first_named_stable(names, vis, name, n, m - 1);
    }
}

/// Filtering by the same type query twice gives the same filtered rows, the same selected row
/// and the same text shown as filtering once.
pub proof fn lemma_filter_idempotent(a: App, b: App, c: App)
    requires
        filter_post(a, b),
        filter_post(b, c),
    ensures
        c.filtered_types@ == b.filtered_types@,
        c.type_sel == b.type_sel,
        c.current_idl@ == b.current_idl@,
{
}

/// Selecting a type row always puts the member selection on the first visible member of the
/// new type, or on nothing where it has none: never on a position left from the type before.
pub proof fn lemma_selection_resets_member(old: App, new: App)
    requires
        selection_post(old, new),
        old.type_sel matches Some(s) && s < old.filtered_types@.len() && old.filtered_types@[s as int] < old.types@.len(),
    ensures
        new.member_sel == first_of(visible_members(new).len() as int),
        new.member_sel matches Some(j) ==> j < visible_members(new).len(),
{
}

/// A query with its last character removed; an empty query stays empty.
pub open spec fn drop_last_char(q: Seq<char>) -> Seq<char> {
    if q.len() > 0 {
        q.drop_last()
    } else {
        q
    }
}

} // verus!
