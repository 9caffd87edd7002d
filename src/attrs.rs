//! Attribute collection: the bracketed attribute blocks of types and of the library.
use vstd::prelude::*;
use vstd::string::*;
use crate::idl::opt;
use crate::model::{CustomDatum, Guid, Literal, TypeEntry, TypeLib};
use crate::text::{concat, dec_int, dec_nat, hex_fixed, lemma_concat_push, push_dec, push_hex, push_i32};

verus! {

/// A GUID in its registry form, upper-case hexadecimal.
pub open spec fn guid_text(g: Guid) -> Seq<char> {
    hex_fixed(g.data1 as nat, 8, true) + "-"@ + hex_fixed(g.data2 as nat, 4, true) + "-"@
        + hex_fixed(g.data3 as nat, 4, true) + "-"@ + hex_fixed(
        g.data4 as nat / 0x1000000000000,
        4,
        true,
    ) + "-"@ + hex_fixed(g.data4 as nat, 12, true)
}

/// How a tagged constant reads as a default value.
pub open spec fn literal_text(l: Literal) -> Seq<char> {
    match l {
        Literal::Short(v) => dec_int(v as int),
        Literal::Long(v) => dec_int(v as int),
        Literal::Real(s) => s@,
        Literal::Bool(b) => if b {
            "TRUE"@
        } else {
            "FALSE"@
        },
        Literal::Text(s) => "\""@ + s@ + "\""@,
        Literal::Empty => Seq::empty(),
        Literal::Null => "null"@,
        Literal::Other(vt) => "/* vt: "@ + dec_nat(vt as nat) + " */"@,
    }
}

/// The attribute of one custom datum: only string values are shown.
pub open spec fn custom_attr(c: CustomDatum) -> Seq<Seq<char>> {
    match c.value {
        Literal::Text(s) => seq!["custom("@ + guid_text(c.guid) + ", \""@ + s@ + "\")"@],
        _ => Seq::empty(),
    }
}

/// The attributes of a list of custom data, in order.
pub open spec fn custom_attrs(cs: Seq<CustomDatum>) -> Seq<Seq<char>>
    decreases cs.len(),
{
    if cs.len() == 0 {
        Seq::empty()
    } else {
        custom_attrs(cs.drop_last()) + custom_attr(cs.last())
    }
}

/// `helpstring("doc")`.
pub open spec fn helpstring(doc: Seq<char>) -> Seq<char> {
    "helpstring(\""@ + doc + "\")"@
}

/// `uuid(...)`.
pub open spec fn uuid_attr(g: Guid) -> Seq<char> {
    "uuid("@ + guid_text(g) + ")"@
}

/// `version(M.m)`.
pub open spec fn version_attr(major: u16, minor: u16) -> Seq<char> {
    "version("@ + dec_nat(major as nat) + "."@ + dec_nat(minor as nat) + ")"@
}

/// The attributes of a type: identity, version, documentation, flags, then custom data.
pub open spec fn type_attrs(e: TypeEntry) -> Seq<Seq<char>> {
    seq![uuid_attr(e.guid)] + opt(e.major != 0 || e.minor > 0, version_attr(e.major, e.minor)) + opt(
        e.doc@.len() > 0,
        helpstring(e.doc@),
    ) + opt(e.flags & 0x10 != 0, "hidden"@) + opt(e.flags & 0x40 != 0, "dual"@) + opt(
        e.flags & 0x200 != 0,
        "restricted"@,
    ) + opt(e.flags & 0x80 != 0, "nonextensible"@) + opt(e.flags & 0x1140 != 0, "oleautomation"@)
        + custom_attrs(e.custom@)
}

/// The attributes of the library: identity, version, documentation, then custom data.
pub open spec fn lib_attrs(lib: TypeLib) -> Seq<Seq<char>> {
    seq![uuid_attr(lib.guid), version_attr(lib.major, lib.minor), helpstring(lib.doc@)] + custom_attrs(
        lib.custom@,
    )
}

/// One line of an attribute block; all but the last end in a comma.
pub open spec fn attr_line(attrs: Seq<Seq<char>>, i: int, inner: Seq<char>) -> Seq<char> {
    inner + attrs[i] + (if i + 1 < attrs.len() {
        ","@
    } else {
        Seq::empty()
    }) + "\n"@
}

/// The lines of an attribute block.
pub open spec fn attr_lines(attrs: Seq<Seq<char>>, inner: Seq<char>) -> Seq<Seq<char>> {
    Seq::new(attrs.len(), |i: int| attr_line(attrs, i, inner))
}

/// A bracketed attribute block, one attribute per line.
pub open spec fn attr_block(attrs: Seq<Seq<char>>, outer: Seq<char>, inner: Seq<char>) -> Seq<char> {
    outer + "[\n"@ + concat(attr_lines(attrs, inner)) + outer + "]\n"@
}

/// Appends a GUID in its registry form.
pub fn push_guid(out: &mut String, g: &Guid)
    ensures
        final(out)@ == old(out)@ + guid_text(*g),
{
    let ghost start = out@;
    push_hex(out, g.data1 as u64, 8, true);
    out.append("-");
    push_hex(out, g.data2 as u64, 4, true);
    out.append("-");
    push_hex(out, g.data3 as u64, 4, true);
    out.append("-");
    push_hex(out, g.data4 / 0x1000000000000, 4, true);
    out.append("-");
    push_hex(out, g.data4, 12, true);
    assert(out@ =~= start + guid_text(*g));
}

/// The text of a tagged constant.
pub fn literal_text_of(l: &Literal) -> (r: String)
    ensures
        r@ == literal_text(*l),
{
    let mut s = String::new();
    match l {
        Literal::Short(v) => push_i32(&mut s, *v as i32),
        Literal::Long(v) => push_i32(&mut s, *v),
        Literal::Real(t) => s.append(t.as_str()),
        Literal::Bool(b) => if *b {
            s.append("TRUE")
        } else {
            s.append("FALSE")
        },
        Literal::Text(t) => {
            s.append("\"");
            s.append(t.as_str());
            s.append("\"");
        },
        Literal::Empty => {},
        Literal::Null => s.append("null"),
        Literal::Other(vt) => {
            s.append("/* vt: ");
            push_dec(&mut s, *vt as u64);
            s.append(" */");
        },
    }
    assert(s@ =~= literal_text(*l));
    s
}

/// Appends the attributes of custom data to a list.
fn push_custom_attrs(attrs: &mut Vec<String>, cs: &Vec<CustomDatum>)
    ensures
        final(attrs)@.map_values(|s: String| s@) == old(attrs)@.map_values(|s: String| s@)
            + custom_attrs(cs@),
{
    let ghost start = attrs@.map_values(|s: String| s@);
    let mut i: usize = 0;
    while i < cs.len()
        invariant
            i <= cs.len(),
            attrs@.map_values(|s: String| s@) == start + custom_attrs(cs@.subrange(0, i as int)),
        decreases cs.len() - i,
    {
        let ghost next = cs@.subrange(0, i + 1);
        assert(next.drop_last() =~= cs@.subrange(0, i as int));
        assert(next.last() == cs@[i as int]);
        assert(custom_attrs(next) == custom_attrs(cs@.subrange(0, i as int)) + custom_attr(cs@[i as int]));
        let ghost mid = attrs@.map_values(|s: String| s@);
        match &cs[i].value {
            Literal::Text(t) => {
                let mut s = String::from_str("custom(");
                push_guid(&mut s, &cs[i].guid);
                s.append(", \"");
                s.append(t.as_str());
                s.append("\")");
                attrs.push(s);
                assert(attrs@.map_values(|s: String| s@) =~= mid + custom_attr(cs@[i as int]));
            },
            _ => {
                assert(mid =~= mid + custom_attr(cs@[i as int]));
            },
        }
        i = i + 1;
        assert(attrs@.map_values(|s: String| s@) =~= start + custom_attrs(cs@.subrange(0, i as int)));
    }
    assert(cs@.subrange(0, i as int) =~= cs@);
}

/// `uuid(...)` as a string.
fn uuid_attr_of(g: &Guid) -> (r: String)
    ensures
        r@ == uuid_attr(*g),
{
    let mut s = String::from_str("uuid(");
    push_guid(&mut s, g);
    s.append(")");
    s
}

/// `version(M.m)` as a string.
fn version_attr_of(major: u16, minor: u16) -> (r: String)
    ensures
        r@ == version_attr(major, minor),
{
    let mut s = String::from_str("version(");
    push_dec(&mut s, major as u64);
    s.append(".");
    push_dec(&mut s, minor as u64);
    s.append(")");
    s
}

/// `helpstring("doc")` as a string.
fn helpstring_of(doc: &String) -> (r: String)
    ensures
        r@ == helpstring(doc@),
{
    let mut s = String::from_str("helpstring(\"");
    s.append(doc.as_str());
    s.append("\")");
    s
}

/// Appends `s` to a list when `b` holds.
pub(crate) fn push_when(r: &mut Vec<String>, b: bool, s: String)
    ensures
        final(r)@.map_values(|x: String| x@) == old(r)@.map_values(|x: String| x@) + opt(b, s@),
{
    let ghost before = r@.map_values(|x: String| x@);
    if b {
        r.push(s);
    }
    assert(r@.map_values(|x: String| x@) =~= before + opt(b, s@));
}

/// Collects the attributes of a type.
pub fn collect_type_attrs(e: &TypeEntry) -> (r: Vec<String>)
    ensures
        r@.map_values(|s: String| s@) == type_attrs(*e),
{
    let mut r: Vec<String> = Vec::new();
    r.push(uuid_attr_of(&e.guid));
    assert(r@.map_values(|x: String| x@) =~= seq![uuid_attr(e.guid)]);
    push_when(&mut r, e.major != 0 || e.minor > 0, version_attr_of(e.major, e.minor));
    push_when(&mut r, e.doc.as_str().unicode_len() > 0, helpstring_of(&e.doc));
    push_when(&mut r, e.flags & 0x10 != 0, String::from_str("hidden"));
    push_when(&mut r, e.flags & 0x40 != 0, String::from_str("dual"));
    push_when(&mut r, e.flags & 0x200 != 0, String::from_str("restricted"));
    push_when(&mut r, e.flags & 0x80 != 0, String::from_str("nonextensible"));
    push_when(&mut r, e.flags & 0x1140 != 0, String::from_str("oleautomation"));
    push_custom_attrs(&mut r, &e.custom);
    r
}

/// Collects the attributes of the library.
pub fn collect_lib_attrs(lib: &TypeLib) -> (r: Vec<String>)
    ensures
        r@.map_values(|s: String| s@) == lib_attrs(*lib),
{
    let mut r: Vec<String> = Vec::new();
    r.push(uuid_attr_of(&lib.guid));
    r.push(version_attr_of(lib.major, lib.minor));
    r.push(helpstring_of(&lib.doc));
    assert(r@.map_values(|s: String| s@) =~= seq![uuid_attr(lib.guid), version_attr(lib.major, lib.minor), helpstring(lib.doc@)]);
    push_custom_attrs(&mut r, &lib.custom);
    r
}

/// Appends an attribute block.
pub fn push_attr_block(out: &mut String, attrs: &Vec<String>, outer: &str, inner: &str)
    ensures
        final(out)@ == old(out)@ + attr_block(attrs@.map_values(|s: String| s@), outer@, inner@),
{
    let ghost start = out@;
    let ghost v = attrs@.map_values(|s: String| s@);
    let ghost lines = attr_lines(v, inner@);
    out.append(outer);
    out.append("[\n");
    let ghost head = out@;
    let mut i: usize = 0;
    while i < attrs.len()
        invariant
            v == attrs@.map_values(|s: String| s@),
            lines == attr_lines(v, inner@),
            i <= attrs.len(),
            out@ == head + concat(lines.subrange(0, i as int)),
        decreases attrs.len() - i,
    {
        proof {
            lemma_concat_push(lines, i as int);
        }
        out.append(inner);
        out.append(attrs[i].as_str());
        if i + 1 < attrs.len() {
            out.append(",");
        }
        out.append("\n");
        i = i + 1;
        assert(out@ =~= head + concat(lines.subrange(0, i as int)));
    }
    assert(lines.subrange(0, i as int) =~= lines);
    out.append(outer);
    out.append("]\n");
    assert(out@ =~= start + attr_block(v, outer@, inner@));
}

} // verus!
