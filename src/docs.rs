//! Documentation records, and the keyword index of a help archive.
use vstd::prelude::*;
use vstd::string::*;
use crate::text::{chars_of, contains_lower, contains_lower_of, eq_lower, lower_of, lowercase, same_chars, same_text};

verus! {

/// The description of one parameter.
#[derive(Debug, Clone)]
pub struct ParamDoc {
    pub name: String,
    pub description: String,
}

/// The documentation of one member.
#[derive(Debug, Clone)]
pub struct DocStructure {
    pub description: String,
    pub parameters: Vec<ParamDoc>,
}

/// The first position below `n` where `pat` starts in `s`.
pub open spec fn find_upto(s: Seq<char>, pat: Seq<char>, n: int) -> Option<int>
    decreases n,
{
    if n <= 0 {
        None
    } else {
        match find_upto(s, pat, n - 1) {
            Some(i) => Some(i),
            None => if n - 1 + pat.len() <= s.len() && s.subrange(n - 1, n - 1 + pat.len()) == pat {
                Some(n - 1)
            } else {
                None
            },
        }
    }
}

/// The first position where `pat` starts in `s`.
pub open spec fn find(s: Seq<char>, pat: Seq<char>) -> Option<int> {
    find_upto(s, pat, s.len() + 1int)
}

/// The text between `value="` and the next `"` on a line.
pub open spec fn quoted_value(line: Seq<char>) -> Option<Seq<char>> {
    match find(line, "value=\""@) {
        Some(i) => {
            let rest = line.subrange(i + 7, line.len() as int);
            match find(rest, "\""@) {
                Some(j) => Some(rest.subrange(0, j)),
                None => None,
            }
        },
        None => None,
    }
}

/// The first of the first `n` pairs of an association list whose key is `key`.
pub open spec fn key_pos(m: Seq<(Seq<char>, Seq<char>)>, key: Seq<char>, n: int) -> Option<int>
    decreases n,
{
    if n <= 0 {
        None
    } else {
        match key_pos(m, key, n - 1) {
            Some(k) => Some(k),
            None => if m[n - 1].0 == key {
                Some(n - 1)
            } else {
                None
            },
        }
    }
}

/// Sets `key` to `value` in an association list: in place where the key is there, else at the end.
pub open spec fn assoc_insert(m: Seq<(Seq<char>, Seq<char>)>, key: Seq<char>, value: Seq<char>) -> Seq<
    (Seq<char>, Seq<char>),
> {
    match key_pos(m, key, m.len() as int) {
        Some(k) => m.update(k, (key, value)),
        None => m.push((key, value)),
    }
}

/// The parser's state: the keyword waiting for its target, and the index so far.
pub type HhkState = (Option<Seq<char>>, Seq<(Seq<char>, Seq<char>)>);

/// One line of the index: a `Name` line holds a keyword; the next `Local` line gives its target.
pub open spec fn hhk_step(st: HhkState, line: Seq<char>) -> HhkState {
    if find(line, "name=\"Name\""@) is Some {
        match quoted_value(line) {
            Some(v) => (Some(v), st.1),
            None => st,
        }
    } else if find(line, "name=\"Local\""@) is Some {
        match st.0 {
            Some(n) => (
                None,
                match quoted_value(line) {
                    Some(l) => assoc_insert(st.1, n, l),
                    None => st.1,
                },
            ),
            None => st,
        }
    } else {
        st
    }
}

/// The text cut at each line feed; the last line is what follows the last line feed.
pub open spec fn split_lines(s: Seq<char>) -> Seq<Seq<char>>
    decreases s.len(),
{
    if s.len() == 0 {
        seq![Seq::empty()]
    } else if s.last() == '\n' {
        split_lines(s.drop_last()).push(Seq::empty())
    } else {
        let ls = split_lines(s.drop_last());
        ls.update(ls.len() - 1, ls.last().push(s.last()))
    }
}

/// The state after a run of lines.
pub open spec fn hhk_lines(lines: Seq<Seq<char>>) -> HhkState
    decreases lines.len(),
{
    if lines.len() == 0 {
        (None, Seq::empty())
    } else {
        hhk_step(hhk_lines(lines.drop_last()), lines.last())
    }
}

/// The keyword index of a help archive's index file: each keyword with its page, in the order
/// keywords first appear; a keyword given twice keeps its last page.
pub open spec fn hhk_index(content: Seq<char>) -> Seq<(Seq<char>, Seq<char>)> {
    hhk_lines(split_lines(content)).1
}

/// Cutting a text into lines always gives at least one line.
pub(crate) proof fn lemma_split_lines_nonempty(s: Seq<char>)
    ensures
        split_lines(s).len() > 0,
    decreases s.len(),
{
    if s.len() > 0 {
        lemma_split_lines_nonempty(s.drop_last());
    }
}

/// Finds the first position in `cs[lo..hi]` where `pat` starts, relative to `lo`.
pub(crate) fn find_in(cs: &Vec<char>, lo: usize, hi: usize, pat: &Vec<char>) -> (r: Option<usize>)
    requires
        lo <= hi <= cs@.len(),
    ensures
        match r {
            Some(i) => find(cs@.subrange(lo as int, hi as int), pat@) == Some(i as int) && i + pat@.len() <= hi - lo,
            None => find(cs@.subrange(lo as int, hi as int), pat@) is None,
        },
{
    let ghost s = cs@.subrange(lo as int, hi as int);
    let n = hi - lo;
    let mut i: usize = 0;
    while i <= n
        invariant
            s == cs@.subrange(lo as int, hi as int),
            n == hi - lo,
            lo <= hi <= cs@.len(),
            i <= n + 1,
            find_upto(s, pat@, i as int) is None,
        decreases n + 1 - i,
    {
        if pat.len() <= n - i {
            let mut k: usize = 0;
            let mut ok = true;
            while k < pat.len()
                invariant
                    s == cs@.subrange(lo as int, hi as int),
                    lo <= hi <= cs@.len(),
                    i + pat@.len() <= n,
                    n == hi - lo,
                    k <= pat@.len(),
                    ok == forall|j: int| 0 <= j < k ==> s[i + j] == pat@[j],
                decreases pat.len() - k,
            {
                if cs[lo + i + k] != pat[k] {
                    ok = false;
                }
                k = k + 1;
            }
            if ok {
                assert(s.subrange(i as int, i + pat@.len()) =~= pat@);
                proof {
                    lemma_find_stable(s, pat@, i + 1, s.len() + 1int);
                }
                return Some(i);
            }
            assert(s.subrange(i as int, i + pat@.len()) != pat@) by {
                let j = choose|j: int| 0 <= j < pat@.len() && s[i + j] != pat@[j];
                assert(s.subrange(i as int, i + pat@.len())[j] != pat@[j]);
            }
        }
        if i == n {
            proof {
                assert(find_upto(s, pat@, n + 1) is None);
            }
            return None;
        }
        i = i + 1;
    }
    None
}

/// Once found, the first matching key stays the first as the search goes on.
proof fn lemma_key_pos_stable(m: Seq<(Seq<char>, Seq<char>)>, key: Seq<char>, n: int, k: int)
    requires
        key_pos(m, key, n) is Some,
        n <= k,
    ensures
        key_pos(m, key, k) == key_pos(m, key, n),
        0 <= key_pos(m, key, n)->0 < n,
    decreases k,
{
    if k > n {
        lemma_key_pos_stable(m, key, n, k - 1);
    } else if n > 0 && key_pos(m, key, n - 1) is Some {
        lemma_key_pos_stable(m, key, n - 1, n - 1);
    }
}

/// The view of an association list of strings.
pub open spec fn pairs_view(m: Seq<(String, String)>) -> Seq<(Seq<char>, Seq<char>)> {
    m.map_values(|p: (String, String)| (p.0@, p.1@))
}

/// Sets `key` to `value` in an association list.
fn assoc_set(m: &mut Vec<(String, String)>, key: String, value: String)
    ensures
        pairs_view(final(m)@) == assoc_insert(pairs_view(old(m)@), key@, value@),
{
    let ghost v = pairs_view(m@);
    let mut k: usize = 0;
    while k < m.len()
        invariant
            v == pairs_view(m@),
            m@ == old(m)@,
            k <= m.len(),
            key_pos(v, key@, k as int) is None,
        decreases m.len() - k,
    {
        if same_text(m[k].0.as_str(), key.as_str()) {
            assert(v[k as int].0 == key@);
            assert(key_pos(v, key@, k + 1) == Some(k as int));
            proof {
                lemma_key_pos_stable(v, key@, k + 1, v.len() as int);
            }
            let ghost kv = key@;
            let ghost vv = value@;
            assert(assoc_insert(v, kv, vv) == v.update(k as int, (kv, vv)));
            m[k] = (key, value);
            assert(pairs_view(m@) =~= v.update(k as int, (kv, vv)));

            return;
        }
        k = k + 1;
    }
    m.push((key, value));
    assert(pairs_view(m@) =~= v.push((key@, value@)));
}

/// The text between `value="` and the next `"` in `cs[lo..hi]`, cut from `content`.
fn quoted_value_in(content: &str, cs: &Vec<char>, lo: usize, hi: usize) -> (r: Option<String>)
    requires
        cs@ == content@,
        lo <= hi <= cs@.len(),
    ensures
        match (r, quoted_value(cs@.subrange(lo as int, hi as int))) {
            (Some(x), Some(y)) => x@ == y,
            (None, None) => true,
            _ => false,
        },
{
    let ghost line = cs@.subrange(lo as int, hi as int);
    let value_pat = chars_of("value=\"");
    let quote = chars_of("\"");
    proof {
        reveal_strlit("value=\"");
        reveal_strlit("\"");
    }
    match find_in(cs, lo, hi, &value_pat) {
        Some(a) => {
            let start = lo + a + 7;
            assert(line.subrange(a + 7, line.len() as int) =~= cs@.subrange(start as int, hi as int));
            match find_in(cs, start, hi, &quote) {
                Some(b) => {
                    let t = content.substring_char(start, start + b);
                    assert(t@ =~= cs@.subrange(start as int, hi as int).subrange(0, b as int));
                    Some(String::from_str(t))
                },
                None => None,
            }
        },
        None => None,
    }
}

/// Applies one line of the index to the parser's state.
fn hhk_line(
    content: &str,
    cs: &Vec<char>,
    lo: usize,
    hi: usize,
    current: &mut Option<String>,
    map: &mut Vec<(String, String)>,
)
    requires
        cs@ == content@,
        lo <= hi <= cs@.len(),
    ensures
        (opt_view(*final(current)), pairs_view(final(map)@)) == hhk_step(
            (opt_view(*old(current)), pairs_view(old(map)@)),
            cs@.subrange(lo as int, hi as int),
        ),
{
    let name_pat = chars_of("name=\"Name\"");
    let local_pat = chars_of("name=\"Local\"");
    if find_in(cs, lo, hi, &name_pat).is_some() {
        match quoted_value_in(content, cs, lo, hi) {
            Some(v) => {
                *current = Some(v);
            },
            None => {},
        }
    } else if find_in(cs, lo, hi, &local_pat).is_some() {
        let taken = current.take();
        match taken {
            Some(n) => {
                match quoted_value_in(content, cs, lo, hi) {
                    Some(l) => assoc_set(map, n, l),
                    None => {},
                }
            },
            None => {},
        }
    }
}

/// The view of an optional string.
pub open spec fn opt_view(o: Option<String>) -> Option<Seq<char>> {
    match o {
        Some(s) => Some(s@),
        None => None,
    }
}

/// Reads the keyword index of a help archive's index file: each keyword with its page, in the
/// order keywords first appear; a keyword given twice keeps its last page.
pub fn parse_hhk(content: &str) -> (r: Vec<(String, String)>)
    ensures
        pairs_view(r@) == hhk_index(content@),
{
    let cs = chars_of(content);
    let mut current: Option<String> = None;
    let mut map: Vec<(String, String)> = Vec::new();
    let mut ls: usize = 0;
    let mut i: usize = 0;
    proof {
        assert(cs@.subrange(0, 0) =~= Seq::<char>::empty());
        assert(pairs_view(map@) =~= Seq::empty());
    }
    while i < cs.len()
        invariant
            cs@ == content@,
            ls <= i <= cs@.len(),
            split_lines(cs@.subrange(0, i as int)).len() > 0,
            (opt_view(current), pairs_view(map@)) == hhk_lines(split_lines(cs@.subrange(0, i as int)).drop_last()),
            split_lines(cs@.subrange(0, i as int)).last() == cs@.subrange(ls as int, i as int),
        decreases cs.len() - i,
    {
        let ghost pre = cs@.subrange(0, i as int);
        let ghost next = cs@.subrange(0, i + 1);
        assert(next.drop_last() =~= pre);
        proof {
            lemma_split_lines_nonempty(pre);
        }
        if cs[i] == '\n' {
            hhk_line(content, &cs, ls, i, &mut current, &mut map);
            assert(split_lines(next).drop_last() =~= split_lines(pre));
            assert(split_lines(pre) =~= split_lines(pre).drop_last().push(split_lines(pre).last()));
            ls = i + 1;
            i = i + 1;
            assert(cs@.subrange(ls as int, i as int) =~= Seq::<char>::empty());
        } else {
            assert(split_lines(next).drop_last() =~= split_lines(pre).drop_last());
            i = i + 1;
            assert(split_lines(next).last() =~= cs@.subrange(ls as int, i as int));
        }
    }
    assert(cs@.subrange(0, i as int) =~= content@);
    hhk_line(content, &cs, ls, i, &mut current, &mut map);
    proof {
        let ls_all = split_lines(content@);
        assert(ls_all =~= ls_all.drop_last().push(ls_all.last()));
    }
    map
}

/// Once found, the first position stays the first as the search goes on.
proof fn lemma_find_stable(s: Seq<char>, pat: Seq<char>, n: int, m: int)
    requires
        find_upto(s, pat, n) is Some,
        n <= m,
    ensures
        find_upto(s, pat, m) == find_upto(s, pat, n),
    decreases m,
{
    if m > n {
        lemma_find_stable(s, pat, n, m - 1);
    }
}

/// The first of the first `n` index entries whose keyword equals `q` in lower case.
pub open spec fn exact_upto(index: Seq<(Seq<char>, Seq<char>)>, q: Seq<char>, n: int) -> Option<int>
    decreases n,
{
    if n <= 0 {
        None
    } else {
        match exact_upto(index, q, n - 1) {
            Some(k) => Some(k),
            None => if lower_of(index[n - 1].0) == lower_of(q) {
                Some(n - 1)
            } else {
                None
            },
        }
    }
}

/// The first of the first `n` index entries whose keyword contains `q`, both in lower case.
pub open spec fn fuzzy_upto(index: Seq<(Seq<char>, Seq<char>)>, q: Seq<char>, n: int) -> Option<int>
    decreases n,
{
    if n <= 0 {
        None
    } else {
        match fuzzy_upto(index, q, n - 1) {
            Some(k) => Some(k),
            None => if contains_lower(index[n - 1].0, q) {
                Some(n - 1)
            } else {
                None
            },
        }
    }
}

/// The page the index gives for a member name: the first keyword equal to it, else the first
/// keyword that contains it, compared in lower case.
pub open spec fn index_page(index: Seq<(Seq<char>, Seq<char>)>, q: Seq<char>) -> Option<Seq<char>> {
    match exact_upto(index, q, index.len() as int) {
        Some(k) => Some(index[k].1),
        None => match fuzzy_upto(index, q, index.len() as int) {
            Some(k) => Some(index[k].1),
            None => None,
        },
    }
}

/// Once found, the first exact keyword stays the first as the search goes on.
proof fn lemma_exact_stable(index: Seq<(Seq<char>, Seq<char>)>, q: Seq<char>, n: int, m: int)
    requires
        exact_upto(index, q, n) is Some,
        n <= m,
    ensures
        exact_upto(index, q, m) == exact_upto(index, q, n),
    decreases m,
{
    if m > n {
        lemma_exact_stable(index, q, n, m - 1);
    }
}

/// Once found, the first containing keyword stays the first as the search goes on.
proof fn lemma_fuzzy_stable(index: Seq<(Seq<char>, Seq<char>)>, q: Seq<char>, n: int, m: int)
    requires
        fuzzy_upto(index, q, n) is Some,
        n <= m,
    ensures
        fuzzy_upto(index, q, m) == fuzzy_upto(index, q, n),
    decreases m,
{
    if m > n {
        lemma_fuzzy_stable(index, q, n, m - 1);
    }
}

/// A keyword found among the first `n` entries is one of them.
proof fn lemma_upto_bounds(index: Seq<(Seq<char>, Seq<char>)>, q: Seq<char>, n: int)
    ensures
        exact_upto(index, q, n) matches Some(k) ==> 0 <= k < n,
        fuzzy_upto(index, q, n) matches Some(k) ==> 0 <= k < n,
    decreases n,
{
    if n > 0 {
        lemma_upto_bounds(index, q, n - 1);
    }
}

/// Looks a member name up in the keyword index of a help archive.
pub fn find_doc_page(index: &Vec<(String, String)>, name: &str) -> (r: Option<String>)
    ensures
        opt_view(r) == index_page(pairs_view(index@), name@),
{
    let ghost v = pairs_view(index@);
    let q = chars_of(name);
    proof {
        lemma_upto_bounds(v, name@, v.len() as int);
    }
    let mut k: usize = 0;
    while k < index.len()
        invariant
            v == pairs_view(index@),
            q@ == name@,
            k <= index.len(),
            exact_upto(v, name@, k as int) is None,
        decreases index.len() - k,
    {
        let key = chars_of(index[k].0.as_str());
        if eq_lower(&key, &q) {
            proof {
                lemma_exact_stable(v, name@, k + 1, v.len() as int);
            }
            return Some(index[k].1.clone());
        }
        k = k + 1;
    }
    let mut k: usize = 0;
    while k < index.len()
        invariant
            v == pairs_view(index@),
            q@ == name@,
            k <= index.len(),
            exact_upto(v, name@, v.len() as int) is None,
            fuzzy_upto(v, name@, k as int) is None,
        decreases index.len() - k,
    {
        let key = chars_of(index[k].0.as_str());
        if contains_lower_of(&key, &q) {
            proof {
                lemma_fuzzy_stable(v, name@, k + 1, v.len() as int);
            }
            return Some(index[k].1.clone());
        }
        k = k + 1;
    }
    None
}

/// The file name of an archive path: what follows its last `/`.
pub open spec fn file_name_of(path: Seq<char>) -> Seq<char>
    decreases path.len(),
{
    if path.len() == 0 {
        Seq::empty()
    } else if path.last() == '/' {
        Seq::empty()
    } else {
        file_name_of(path.drop_last()).push(path.last())
    }
}

/// `s` ends with `p`.
pub open spec fn ends_with(s: Seq<char>, p: Seq<char>) -> bool {
    p.len() <= s.len() && s.subrange(s.len() - p.len(), s.len() as int) == p
}

/// An archive page that may document `name`: an HTML page whose file name contains the name,
/// both in lower case.
pub open spec fn is_page_for(path: Seq<char>, name: Seq<char>) -> bool {
    contains_lower(file_name_of(path), name) && (ends_with(lower_of(path), ".htm"@) || ends_with(lower_of(path), ".html"@))
}

/// Whether `s` ends with `p`.
fn ends_with_seq(s: &Vec<char>, p: &Vec<char>) -> (r: bool)
    ensures
        r == ends_with(s@, p@),
{
    if p.len() > s.len() {
        return false;
    }
    let mut tail: Vec<char> = Vec::new();
    let mut i: usize = s.len() - p.len();
    while i < s.len()
        invariant
            p@.len() <= s@.len(),
            s.len() - p.len() <= i <= s.len(),
            tail@ == s@.subrange(s@.len() - p@.len(), i as int),
        decreases s.len() - i,
    {
        tail.push(s[i]);
        i = i + 1;
        assert(tail@ =~= s@.subrange(s@.len() - p@.len(), i as int));
    }
    same_chars(&tail, p)
}

/// Whether an archive page may document `name`.
pub fn page_matches(path: &str, name: &str) -> (r: bool)
    ensures
        r == is_page_for(path@, name@),
{
    let cs = chars_of(path);
    let mut start: usize = 0;
    let mut i: usize = 0;
    while i < cs.len()
        invariant
            cs@ == path@,
            start <= i <= cs@.len(),
            file_name_of(cs@.subrange(0, i as int)) == cs@.subrange(start as int, i as int),
        decreases cs.len() - i,
    {
        let ghost next = cs@.subrange(0, i + 1);
        assert(next.drop_last() =~= cs@.subrange(0, i as int));
        if cs[i] == '/' {
            start = i + 1;
        }
        i = i + 1;
        assert(file_name_of(next) =~= cs@.subrange(start as int, i as int));
    }
    assert(cs@.subrange(0, i as int) =~= path@);
    let mut file: Vec<char> = Vec::new();
    let mut j: usize = start;
    while j < cs.len()
        invariant
            start <= j <= cs@.len(),
            file@ == cs@.subrange(start as int, j as int),
        decreases cs.len() - j,
    {
        file.push(cs[j]);
        j = j + 1;
        assert(file@ =~= cs@.subrange(start as int, j as int));
    }
    let q = chars_of(name);
    let lower = lowercase(&cs);
    contains_lower_of(&file, &q) && (ends_with_seq(&lower, &chars_of(".htm")) || ends_with_seq(&lower, &chars_of(".html")))
}

/// The archive paths to try for a page: as given, then from the archive root.
pub fn page_candidates(path: &str) -> (r: Vec<String>)
    ensures
        r@.len() == 2,
        r@[0]@ == path@,
        r@[1]@ == "/"@ + path@,
{
    let mut rooted = String::from_str("/");
    rooted.append(path);
    let mut r: Vec<String> = Vec::new();
    r.push(String::from_str(path));
    r.push(rooted);
    r
}

} // verus!
