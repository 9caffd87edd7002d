//! Help pages: tags stripped, description and parameter descriptions pulled out.
use vstd::prelude::*;
use vstd::string::*;
use crate::docs::{lemma_split_lines_nonempty, split_lines, DocStructure, ParamDoc};
use crate::text::{chars_of, join, push_joined};

verus! {

/// What `Regex::new(pattern)` then `replace_all(text, rep)` gives; `None` where the pattern
/// does not compile.
pub uninterp spec fn regex_replace(pattern: Seq<char>, text: Seq<char>, rep: Seq<char>) -> Option<Seq<char>>;

/// Group 1 of the first match of `pattern` in `text`; `None` where the pattern does not
/// compile, nothing matches, or the group took no part.
pub uninterp spec fn regex_group(pattern: Seq<char>, text: Seq<char>) -> Option<Seq<char>>;

/// The texts of the successive non-overlapping matches of `pattern` in `text`; none where the
/// pattern does not compile.
pub uninterp spec fn regex_find_all(pattern: Seq<char>, text: Seq<char>) -> Seq<Seq<char>>;

/// The character position where the first match of `pattern` in `text` ends; `None` where
/// the pattern does not compile or nothing matches.
pub uninterp spec fn regex_match_end(pattern: Seq<char>, text: Seq<char>) -> Option<nat>;

/// Relies on regex::Regex::new and Regex::replace_all: every match replaced by `rep`, which
/// holds no `$` group reference.
#[verifier::external_body]
fn replace_all(pattern: &str, text: &str, rep: &str) -> (r: Option<String>)
    ensures
        match r {
            Some(s) => regex_replace(pattern@, text@, rep@) == Some(s@),
            None => regex_replace(pattern@, text@, rep@) is None,
        },
{
    regex::Regex::new(pattern).ok().map(|re| re.replace_all(text, rep).into_owned())
}

/// Relies on regex::Regex::new, Regex::captures and Captures::get: group 1 of the first match.
#[verifier::external_body]
fn first_group(pattern: &str, text: &str) -> (r: Option<String>)
    ensures
        match r {
            Some(s) => regex_group(pattern@, text@) == Some(s@),
            None => regex_group(pattern@, text@) is None,
        },
{
    regex::Regex::new(pattern).ok().and_then(|re| re.captures(text)).and_then(|c| c.get(1)).map(
        |m| m.as_str().to_string(),
    )
}

/// Relies on regex::Regex::new and Regex::find_iter: the successive matches, each as text.
#[verifier::external_body]
fn find_all(pattern: &str, text: &str) -> (r: Vec<String>)
    ensures
        r@.map_values(|s: String| s@) == regex_find_all(pattern@, text@),
{
    match regex::Regex::new(pattern) {
        Ok(re) => re.find_iter(text).map(|m| m.as_str().to_string()).collect(),
        Err(_) => Vec::new(),
    }
}

/// Relies on regex::Regex::new and Regex::find: where the first match ends, counted in
/// characters.
#[verifier::external_body]
fn match_end(pattern: &str, text: &str) -> (r: Option<usize>)
    ensures
        match r {
            Some(n) => regex_match_end(pattern@, text@) == Some(n as nat) && n <= text@.len(),
            None => regex_match_end(pattern@, text@) is None,
        },
{
    regex::Regex::new(pattern).ok().and_then(|re| re.find(text)).map(|m| text[..m.end()].chars().count())
}

/// The characters that `char::is_whitespace` accepts.
pub open spec fn is_white(c: char) -> bool {
    let u = c as u32;
    (9 <= u <= 13) || u == 32 || u == 0x85 || u == 0xa0 || u == 0x1680 || (0x2000 <= u <= 0x200a) || u
        == 0x2028 || u == 0x2029 || u == 0x202f || u == 0x205f || u == 0x3000
}

/// A text without leading white space.
pub open spec fn trim_start(s: Seq<char>) -> Seq<char>
    decreases s.len(),
{
    if s.len() > 0 && is_white(s[0]) {
        trim_start(s.drop_first())
    } else {
        s
    }
}

/// A text without trailing white space.
pub open spec fn trim_end(s: Seq<char>) -> Seq<char>
    decreases s.len(),
{
    if s.len() > 0 && is_white(s.last()) {
        trim_end(s.drop_last())
    } else {
        s
    }
}

/// A text without white space at either end.
pub open spec fn trim(s: Seq<char>) -> Seq<char> {
    trim_end(trim_start(s))
}

/// The trimmed lines that are not empty, in order.
pub open spec fn kept_lines(lines: Seq<Seq<char>>) -> Seq<Seq<char>>
    decreases lines.len(),
{
    if lines.len() == 0 {
        Seq::empty()
    } else {
        kept_lines(lines.drop_last()) + if trim(lines.last()).len() > 0 {
            seq![trim(lines.last())]
        } else {
            Seq::empty()
        }
    }
}

/// The lines of a text trimmed, empty ones dropped, joined again by line feeds.
pub open spec fn tidy_lines(s: Seq<char>) -> Seq<char> {
    join(kept_lines(split_lines(s)), "\n"@)
}

/// The pass over a text that drops tags: whether it is inside a tag, and what it kept; the end
/// of each tag leaves a space.
pub open spec fn untag(s: Seq<char>) -> (bool, Seq<char>)
    decreases s.len(),
{
    if s.len() == 0 {
        (false, Seq::empty())
    } else {
        let st = untag(s.drop_last());
        let c = s.last();
        if c == '<' {
            (true, st.1)
        } else if c == '>' {
            (false, st.1.push(' '))
        } else if !st.0 {
            (false, st.1.push(c))
        } else {
            st
        }
    }
}

/// A text with its tags dropped and its lines tidied.
pub open spec fn tags_stripped(s: Seq<char>) -> Seq<char> {
    tidy_lines(untag(s).1)
}

/// A regex replacement, or the text unchanged where the pattern does not compile.
pub open spec fn replaced_or_same(pattern: Seq<char>, text: Seq<char>, rep: Seq<char>) -> Seq<char> {
    match regex_replace(pattern, text, rep) {
        Some(s) => s,
        None => text,
    }
}

/// The pattern of a script block.
pub open spec fn script_pattern() -> Seq<char> {
    "(?is)<script[^>]*>.*?</script>"@
}

/// The pattern of a style block.
pub open spec fn style_pattern() -> Seq<char> {
    "(?is)<style[^>]*>.*?</style>"@
}

/// The text of an HTML fragment: script and style blocks removed, tags dropped, lines tidied.
pub open spec fn html_text(html: Seq<char>) -> Seq<char> {
    tags_stripped(replaced_or_same(style_pattern(), replaced_or_same(script_pattern(), html, Seq::empty()), Seq::empty()))
}

/// Whether `c` is white space.
fn is_white_char(c: char) -> (r: bool)
    ensures
        r == is_white(c),
{
    let u = c as u32;
    (9 <= u && u <= 13) || u == 32 || u == 0x85 || u == 0xa0 || u == 0x1680 || (0x2000 <= u && u <= 0x200a)
        || u == 0x2028 || u == 0x2029 || u == 0x202f || u == 0x205f || u == 0x3000
}

/// Leading white space can be cut off before trimming.
proof fn lemma_trim_start_range(s: Seq<char>, i: int)
    requires
        0 <= i <= s.len(),
        forall|k: int| 0 <= k < i ==> is_white(s[k]),
    ensures
        trim_start(s) == trim_start(s.subrange(i, s.len() as int)),
    decreases i,
{
    if i > 0 {
        assert(s.drop_first().subrange(i - 1, s.drop_first().len() as int) =~= s.subrange(i, s.len() as int));
        lemma_trim_start_range(s.drop_first(), i - 1);
    } else {
        assert(s.subrange(0, s.len() as int) =~= s);
    }
}

/// Trailing white space can be cut off before trimming.
proof fn lemma_trim_end_range(s: Seq<char>, j: int)
    requires
        0 <= j <= s.len(),
        forall|k: int| j <= k < s.len() ==> is_white(s[k]),
    ensures
        trim_end(s) == trim_end(s.subrange(0, j)),
    decreases s.len() - j,
{
    if j < s.len() {
        assert(s.drop_last().subrange(0, j) =~= s.subrange(0, j));
        lemma_trim_end_range(s.drop_last(), j);
    } else {
        assert(s.subrange(0, j) =~= s);
    }
}

/// Trims `cs[lo..hi]`, returning the bounds of what is left.
fn trim_bounds(cs: &Vec<char>, lo: usize, hi: usize) -> (r: (usize, usize))
    requires
        lo <= hi <= cs@.len(),
    ensures
        lo <= r.0 <= r.1 <= hi,
        cs@.subrange(r.0 as int, r.1 as int) == trim(cs@.subrange(lo as int, hi as int)),
{
    let ghost s = cs@.subrange(lo as int, hi as int);
    let mut a = lo;
    while a < hi && is_white_char(cs[a])
        invariant
            lo <= a <= hi <= cs@.len(),
            s == cs@.subrange(lo as int, hi as int),
            forall|k: int| lo <= k < a ==> is_white(cs@[k]),
        decreases hi - a,
    {
        a = a + 1;
    }
    proof {
        lemma_trim_start_range(s, a - lo);
        assert(s.subrange(a - lo, s.len() as int) =~= cs@.subrange(a as int, hi as int));
        let t = cs@.subrange(a as int, hi as int);
        if t.len() > 0 {
            assert(!is_white(t[0]));
        }
        assert(trim_start(t) == t);
    }
    let mut b = hi;
    while b > a && is_white_char(cs[b - 1])
        invariant
            lo <= a <= b <= hi <= cs@.len(),
            forall|k: int| b <= k < hi ==> is_white(cs@[k]),
        decreases b - a,
    {
        b = b - 1;
    }
    proof {
        let t = cs@.subrange(a as int, hi as int);
        lemma_trim_end_range(t, b - a);
        assert(t.subrange(0, b - a) =~= cs@.subrange(a as int, b as int));
        let u = cs@.subrange(a as int, b as int);
        if u.len() > 0 {
            assert(!is_white(u.last()));
        }
    }
    (a, b)
}

/// Keeps the trimmed line `cs[lo..hi]` where it is not empty.
fn keep_line(kept: &mut Vec<String>, text: &str, cs: &Vec<char>, lo: usize, hi: usize)
    requires
        cs@ == text@,
        lo <= hi <= cs@.len(),
    ensures
        final(kept)@.map_values(|s: String| s@) == old(kept)@.map_values(|s: String| s@) + if trim(
            cs@.subrange(lo as int, hi as int),
        ).len() > 0 {
            seq![trim(cs@.subrange(lo as int, hi as int))]
        } else {
            Seq::empty()
        },
{
    let ghost before = kept@.map_values(|s: String| s@);
    let (a, b) = trim_bounds(cs, lo, hi);
    if a < b {
        kept.push(String::from_str(text.substring_char(a, b)));
    }
    assert(kept@.map_values(|s: String| s@) =~= before + if trim(cs@.subrange(lo as int, hi as int)).len() > 0 {
        seq![trim(cs@.subrange(lo as int, hi as int))]
    } else {
        Seq::empty()
    });
}

/// Tidies the lines of a text: each trimmed, empty ones dropped, joined by line feeds.
pub fn tidy(text: &str) -> (r: String)
    ensures
        r@ == tidy_lines(text@),
{
    let cs = chars_of(text);
    let mut kept: Vec<String> = Vec::new();
    let mut ls: usize = 0;
    let mut i: usize = 0;
    proof {
        assert(cs@.subrange(0, 0) =~= Seq::<char>::empty());
        assert(kept@.map_values(|s: String| s@) =~= Seq::<Seq<char>>::empty());
    }
    while i < cs.len()
        invariant
            cs@ == text@,
            ls <= i <= cs@.len(),
            split_lines(cs@.subrange(0, i as int)).len() > 0,
            kept@.map_values(|s: String| s@) == kept_lines(split_lines(cs@.subrange(0, i as int)).drop_last()),
            split_lines(cs@.subrange(0, i as int)).last() == cs@.subrange(ls as int, i as int),
        decreases cs.len() - i,
    {
        let ghost pre = cs@.subrange(0, i as int);
        let ghost next = cs@.subrange(0, i + 1);
        assert(next.drop_last() =~= pre);
        proof {
            lemma_split_lines_nonempty(pre);
        }
        if cs[i] == '\n' {
            keep_line(&mut kept, text, &cs, ls, i);
            assert(split_lines(next).drop_last() =~= split_lines(pre));
            assert(split_lines(pre) =~= split_lines(pre).drop_last().push(split_lines(pre).last()));
            ls = i + 1;
            i = i + 1;
            assert(cs@.subrange(ls as int, i as int) =~= Seq::<char>::empty());
        } else {
            assert(split_lines(next).drop_last() =~= split_lines(pre).drop_last());
            i = i + 1;
            assert(split_lines(next).last() =~= cs@.subrange(ls as int, i as int));
        }
    }
    assert(cs@.subrange(0, i as int) =~= text@);
    keep_line(&mut kept, text, &cs, ls, i);
    proof {
        let all = split_lines(text@);
        assert(all =~= all.drop_last().push(all.last()));
    }
    let mut out = String::new();
    push_joined(&mut out, &kept, "\n");
    out
}

/// Drops the tags of a text and tidies its lines; the script and style blocks are already out.
pub fn strip_tags_text(text: &str) -> (r: String)
    ensures
        r@ == tags_stripped(text@),
{
    let n = text.unicode_len();
    let mut kept = String::new();
    let mut inside = false;
    let mut i: usize = 0;
    while i < n
        invariant
            n == text@.len(),
            i <= n,
            (inside, kept@) == untag(text@.subrange(0, i as int)),
        decreases n - i,
    {
        let ghost next = text@.subrange(0, i + 1);
        assert(next.drop_last() =~= text@.subrange(0, i as int));
        let c = text.get_char(i);
        if c == '<' {
            inside = true;
        } else if c == '>' {
            inside = false;
            kept.append(" ");
            proof {
                reveal_strlit(" ");
            }
        } else if !inside {
            let one = text.substring_char(i, i + 1);
            assert(one@ =~= seq![c]);
            kept.append(one);
        }
        i = i + 1;
        assert(kept@ =~= untag(next).1);
    }
    assert(text@.subrange(0, i as int) =~= text@);
    tidy(kept.as_str())
}

/// The text of an HTML fragment: script and style blocks removed, tags dropped, lines tidied.
pub fn strip_html_tags(html: &str) -> (r: String)
    ensures
        r@ == html_text(html@),
{
    let no_script = match replace_all("(?is)<script[^>]*>.*?</script>", html, "") {
        Some(t) => t,
        None => String::from_str(html),
    };
    let no_style = match replace_all("(?is)<style[^>]*>.*?</style>", no_script.as_str(), "") {
        Some(t) => t,
        None => no_script,
    };
    proof {
        reveal_strlit("");
    }
    assert(Seq::<char>::empty() =~= ""@);
    strip_tags_text(no_style.as_str())
}

/// `s` starts with `p`.
pub open spec fn starts_with(s: Seq<char>, p: Seq<char>) -> bool {
    p.len() <= s.len() && s.subrange(0, p.len() as int) == p
}

/// `p` occurs in `s`.
pub open spec fn contains(s: Seq<char>, p: Seq<char>) -> bool {
    crate::docs::find(s, p) is Some
}

/// A description line worth keeping: not empty, and not one of the namespace, assembly or
/// version lines that stand between a page's title and its text.
pub open spec fn desc_line_kept(t: Seq<char>) -> bool {
    t.len() > 0 && !starts_with(t, "Namespace:"@) && !starts_with(t, "Assembly:"@) && !starts_with(t, "Version:"@)
        && !contains(t, "(in "@) && !contains(t, "ETABSv1"@)
}

/// The trimmed lines worth keeping, in order.
pub open spec fn desc_lines(lines: Seq<Seq<char>>) -> Seq<Seq<char>>
    decreases lines.len(),
{
    if lines.len() == 0 {
        Seq::empty()
    } else {
        desc_lines(lines.drop_last()) + if desc_line_kept(trim(lines.last())) {
            seq![trim(lines.last())]
        } else {
            Seq::empty()
        }
    }
}

/// A description taken from the text after a page's title.
pub open spec fn cleaned_description(raw: Seq<char>) -> Seq<char> {
    join(desc_lines(split_lines(raw)), "\n"@)
}

/// A text without leading `/` characters.
pub open spec fn trim_slashes(s: Seq<char>) -> Seq<char>
    decreases s.len(),
{
    if s.len() > 0 && s[0] == '/' {
        trim_slashes(s.drop_first())
    } else {
        s
    }
}

/// The description of a parameter from its `<dd>` block, given where its `Type:` line ends:
/// the text after that line, without leading slashes; the whole block where there is none.
pub open spec fn param_text_of(dd: Seq<char>, type_end: Option<nat>) -> Seq<char> {
    match type_end {
        Some(e) => trim(trim_slashes(html_text(dd.subrange(e as int, dd.len() as int)))),
        None => html_text(dd),
    }
}

/// The pattern of the script that stands for a language-specific separator.
pub open spec fn separator_pattern() -> Seq<char> {
    "(?is)<script[^>]*>AddLanguageSpecificTextSet.*?</script>"@
}

/// The pattern of a summary block.
pub open spec fn summary_pattern() -> Seq<char> {
    "(?is)<div class=.summary.>(.*?)</div>"@
}

/// The pattern of the text between a page's title and its first section.
pub open spec fn title_text_pattern() -> Seq<char> {
    "(?is)</h1>\\s*(.*?)\\s*(?:<h|<div id=.syntax.|<div id=.parameters.|<div class=.collapsibleAreaRegion.)"@
}

/// The pattern of the parameters section.
pub open spec fn params_pattern() -> Seq<char> {
    "(?is)(?:<h3[^>]*>|<h4[^>]*>|<strong>)Parameters(?:</h3>|</h4>|</strong>)(.*?)(?:<h3[^>]*>|<h4[^>]*>|<strong>|<div id=.remarks.|<div id=.example.|<div class=.collapsibleAreaRegion.)"@
}

/// The pattern of the `Type:` line of a parameter.
pub open spec fn type_line_pattern() -> Seq<char> {
    "(?is)Type:\\s*(.*?)(?:<br[^>]*>|$)"@
}

/// The page with its separator scripts replaced by `.`.
pub open spec fn processed_page(html: Seq<char>) -> Seq<char> {
    replaced_or_same(separator_pattern(), html, "."@)
}

/// The description of a page: its summary block, else the cleaned text after its title.
pub open spec fn page_description(html: Seq<char>) -> Seq<char> {
    let p = processed_page(html);
    match regex_group(summary_pattern(), p) {
        Some(g) => html_text(g),
        None => match regex_group(title_text_pattern(), p) {
            Some(g) => cleaned_description(html_text(g)),
            None => Seq::empty(),
        },
    }
}

/// The parameters of a page: the `<dt>` and `<dd>` blocks of its parameters section, paired.
pub open spec fn page_params(html: Seq<char>) -> Seq<(Seq<char>, Seq<char>)> {
    match regex_group(params_pattern(), processed_page(html)) {
        Some(sec) => {
            let dts = regex_find_all("(?is)<dt>(.*?)</dt>"@, sec);
            let dds = regex_find_all("(?is)<dd>(.*?)</dd>"@, sec);
            let n = if dts.len() < dds.len() {
                dts.len()
            } else {
                dds.len()
            };
            Seq::new(
                n,
                |k: int| (html_text(dts[k]), param_text_of(dds[k], regex_match_end(type_line_pattern(), dds[k]))),
            )
        },
        None => Seq::empty(),
    }
}

impl View for ParamDoc {
    type V = (Seq<char>, Seq<char>);

    open spec fn view(&self) -> Self::V {
        (self.name@, self.description@)
    }
}

/// Whether `cs[lo..hi]` starts with `p`.
fn starts_with_at(cs: &Vec<char>, lo: usize, hi: usize, p: &Vec<char>) -> (r: bool)
    requires
        lo <= hi <= cs@.len(),
    ensures
        r == starts_with(cs@.subrange(lo as int, hi as int), p@),
{
    if p.len() > hi - lo {
        return false;
    }
    let mut k: usize = 0;
    while k < p.len()
        invariant
            lo <= hi <= cs@.len(),
            p@.len() <= hi - lo,
            k <= p@.len(),
            forall|j: int| 0 <= j < k ==> cs@[lo + j] == p@[j],
        decreases p.len() - k,
    {
        if cs[lo + k] != p[k] {
            assert(cs@.subrange(lo as int, hi as int).subrange(0, p@.len() as int)[k as int] != p@[k as int]);
            return false;
        }
        k = k + 1;
    }
    assert(cs@.subrange(lo as int, hi as int).subrange(0, p@.len() as int) =~= p@);
    true
}

/// Whether a trimmed line `cs[lo..hi]` is worth keeping in a description.
fn desc_line_kept_at(cs: &Vec<char>, lo: usize, hi: usize) -> (r: bool)
    requires
        lo <= hi <= cs@.len(),
    ensures
        r == desc_line_kept(cs@.subrange(lo as int, hi as int)),
{
    lo < hi && !starts_with_at(cs, lo, hi, &chars_of("Namespace:")) && !starts_with_at(cs, lo, hi, &chars_of("Assembly:"))
        && !starts_with_at(cs, lo, hi, &chars_of("Version:")) && crate::docs::find_in(cs, lo, hi, &chars_of("(in ")).is_none()
        && crate::docs::find_in(cs, lo, hi, &chars_of("ETABSv1")).is_none()
}

/// Keeps the trimmed line `cs[lo..hi]` where it is worth keeping in a description.
fn keep_desc_line(kept: &mut Vec<String>, text: &str, cs: &Vec<char>, lo: usize, hi: usize)
    requires
        cs@ == text@,
        lo <= hi <= cs@.len(),
    ensures
        final(kept)@.map_values(|s: String| s@) == old(kept)@.map_values(|s: String| s@) + if desc_line_kept(
            trim(cs@.subrange(lo as int, hi as int)),
        ) {
            seq![trim(cs@.subrange(lo as int, hi as int))]
        } else {
            Seq::empty()
        },
{
    let ghost before = kept@.map_values(|s: String| s@);
    let (a, b) = trim_bounds(cs, lo, hi);
    if desc_line_kept_at(cs, a, b) {
        kept.push(String::from_str(text.substring_char(a, b)));
    }
    assert(kept@.map_values(|s: String| s@) =~= before + if desc_line_kept(trim(cs@.subrange(lo as int, hi as int))) {
        seq![trim(cs@.subrange(lo as int, hi as int))]
    } else {
        Seq::empty()
    });
}

/// Cleans the text after a page's title: lines trimmed, and empty, namespace, assembly and
/// version lines dropped.
pub fn clean_description(raw: &str) -> (r: String)
    ensures
        r@ == cleaned_description(raw@),
{
    let cs = chars_of(raw);
    let mut kept: Vec<String> = Vec::new();
    let mut ls: usize = 0;
    let mut i: usize = 0;
    proof {
        assert(cs@.subrange(0, 0) =~= Seq::<char>::empty());
        assert(kept@.map_values(|s: String| s@) =~= Seq::<Seq<char>>::empty());
    }
    while i < cs.len()
        invariant
            cs@ == raw@,
            ls <= i <= cs@.len(),
            split_lines(cs@.subrange(0, i as int)).len() > 0,
            kept@.map_values(|s: String| s@) == desc_lines(split_lines(cs@.subrange(0, i as int)).drop_last()),
            split_lines(cs@.subrange(0, i as int)).last() == cs@.subrange(ls as int, i as int),
        decreases cs.len() - i,
    {
        let ghost pre = cs@.subrange(0, i as int);
        let ghost next = cs@.subrange(0, i + 1);
        assert(next.drop_last() =~= pre);
        proof {
            lemma_split_lines_nonempty(pre);
        }
        if cs[i] == '\n' {
            keep_desc_line(&mut kept, raw, &cs, ls, i);
            assert(split_lines(next).drop_last() =~= split_lines(pre));
            assert(split_lines(pre) =~= split_lines(pre).drop_last().push(split_lines(pre).last()));
            ls = i + 1;
            i = i + 1;
            assert(cs@.subrange(ls as int, i as int) =~= Seq::<char>::empty());
        } else {
            assert(split_lines(next).drop_last() =~= split_lines(pre).drop_last());
            i = i + 1;
            assert(split_lines(next).last() =~= cs@.subrange(ls as int, i as int));
        }
    }
    assert(cs@.subrange(0, i as int) =~= raw@);
    keep_desc_line(&mut kept, raw, &cs, ls, i);
    proof {
        let all = split_lines(raw@);
        assert(all =~= all.drop_last().push(all.last()));
    }
    let mut out = String::new();
    push_joined(&mut out, &kept, "\n");
    out
}

/// The view of a type-end position.
pub open spec fn end_view(e: Option<usize>) -> Option<nat> {
    match e {
        Some(n) => Some(n as nat),
        None => None,
    }
}

/// Leading slashes can be cut off before dropping slashes.
proof fn lemma_trim_slashes_range(s: Seq<char>, i: int)
    requires
        0 <= i <= s.len(),
        forall|k: int| 0 <= k < i ==> s[k] == '/',
    ensures
        trim_slashes(s) == trim_slashes(s.subrange(i, s.len() as int)),
    decreases i,
{
    if i > 0 {
        assert(s.drop_first().subrange(i - 1, s.drop_first().len() as int) =~= s.subrange(i, s.len() as int));
        lemma_trim_slashes_range(s.drop_first(), i - 1);
    } else {
        assert(s.subrange(0, s.len() as int) =~= s);
    }
}

/// A text without leading slashes, then without white space at either end.
fn trim_slashes_then_trim(text: &str) -> (r: String)
    ensures
        r@ == trim(trim_slashes(text@)),
{
    let cs = chars_of(text);
    let mut a: usize = 0;
    while a < cs.len() && cs[a] == '/'
        invariant
            cs@ == text@,
            a <= cs@.len(),
            forall|k: int| 0 <= k < a ==> cs@[k] == '/',
        decreases cs.len() - a,
    {
        a = a + 1;
    }
    proof {
        lemma_trim_slashes_range(cs@, a as int);
        let t = cs@.subrange(a as int, cs@.len() as int);
        if t.len() > 0 {
            assert(t[0] != '/');
        }
        assert(trim_slashes(t) == t);
    }
    let (x, y) = trim_bounds(&cs, a, cs.len());
    String::from_str(text.substring_char(x, y))
}

/// The description of a parameter from its `<dd>` block, given where its `Type:` line ends.
pub fn param_text(dd: &str, type_end: Option<usize>) -> (r: String)
    requires
        type_end matches Some(e) ==> e <= dd@.len(),
    ensures
        r@ == param_text_of(dd@, end_view(type_end)),
{
    match type_end {
        Some(e) => {
            let n = dd.unicode_len();
            let rest = dd.substring_char(e, n);
            let t = strip_html_tags(rest);
            trim_slashes_then_trim(t.as_str())
        },
        None => strip_html_tags(dd),
    }
}

/// The parameters of a parameters section, from its `<dt>` and `<dd>` blocks, paired.
fn section_params(dts: &Vec<String>, dds: &Vec<String>) -> (r: Vec<ParamDoc>)
    ensures
        r@.len() == if dts@.len() < dds@.len() {
            dts@.len()
        } else {
            dds@.len()
        },
        forall|k: int|
            0 <= k < r@.len() ==> #[trigger] r@[k]@ == (html_text(dts@[k]@), param_text_of(
                dds@[k]@,
                regex_match_end(type_line_pattern(), dds@[k]@),
            )),
{
    let n = if dts.len() < dds.len() {
        dts.len()
    } else {
        dds.len()
    };
    let mut r: Vec<ParamDoc> = Vec::new();
    let mut k: usize = 0;
    while k < n
        invariant
            n <= dts@.len(),
            n <= dds@.len(),
            n == if dts@.len() < dds@.len() {
                dts@.len()
            } else {
                dds@.len()
            },
            k <= n,
            r@.len() == k,
            forall|j: int|
                0 <= j < k ==> #[trigger] r@[j]@ == (html_text(dts@[j]@), param_text_of(
                    dds@[j]@,
                    regex_match_end(type_line_pattern(), dds@[j]@),
                )),
        decreases n - k,
    {
        let name = strip_html_tags(dts[k].as_str());
        let end = match_end("(?is)Type:\\s*(.*?)(?:<br[^>]*>|$)", dds[k].as_str());
        let description = param_text(dds[k].as_str(), end);
        r.push(ParamDoc { name, description });
        k = k + 1;
    }
    r
}

/// Reads the description and parameter descriptions of a help page.
pub fn parse_html(html: &str) -> (r: DocStructure)
    ensures
        r.description@ == page_description(html@),
        r.parameters@.map_values(|p: ParamDoc| p@) == page_params(html@),
{
    let page = match replace_all("(?is)<script[^>]*>AddLanguageSpecificTextSet.*?</script>", html, ".") {
        Some(t) => t,
        None => String::from_str(html),
    };
    let description = match first_group("(?is)<div class=.summary.>(.*?)</div>", page.as_str()) {
        Some(g) => strip_html_tags(g.as_str()),
        None => match first_group(
            "(?is)</h1>\\s*(.*?)\\s*(?:<h|<div id=.syntax.|<div id=.parameters.|<div class=.collapsibleAreaRegion.)",
            page.as_str(),
        ) {
            Some(g) => {
                let raw = strip_html_tags(g.as_str());
                clean_description(raw.as_str())
            },
            None => String::new(),
        },
    };
    let parameters = match first_group(
        "(?is)(?:<h3[^>]*>|<h4[^>]*>|<strong>)Parameters(?:</h3>|</h4>|</strong>)(.*?)(?:<h3[^>]*>|<h4[^>]*>|<strong>|<div id=.remarks.|<div id=.example.|<div class=.collapsibleAreaRegion.)",
        page.as_str(),
    ) {
        Some(sec) => {
            let dts = find_all("(?is)<dt>(.*?)</dt>", sec.as_str());
            let dds = find_all("(?is)<dd>(.*?)</dd>", sec.as_str());
            let ps = section_params(&dts, &dds);
            assert(ps@.map_values(|p: ParamDoc| p@) =~= page_params(html@));
            ps
        },
        None => {
            let ps: Vec<ParamDoc> = Vec::new();
            assert(ps@.map_values(|p: ParamDoc| p@) =~= page_params(html@));
            ps
        },
    };
    DocStructure { description, parameters }
}

} // verus!
