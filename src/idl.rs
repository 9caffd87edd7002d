//! Type resolution, member extraction and IDL text synthesis.
use vstd::prelude::*;
use vstd::string::*;
use crate::model::{FuncDesc, InvokeKind, ParamDesc, TypeDesc, TypeEntry, TypeKind, TypeRef};
use crate::text::{dec_int, dec_nat, push_dec, push_i32, same_text};

verus! {

/// The name of a primitive variant tag; unknown tags read `TYPE_<n>`.
pub open spec fn prim_name(vt: u16) -> Seq<char> {
    match vt {
        2 => "short"@,
        3 => "long"@,
        4 => "float"@,
        5 => "double"@,
        6 => "CURRENCY"@,
        7 => "DATE"@,
        8 => "BSTR"@,
        9 => "IDispatch*"@,
        10 => "SCODE"@,
        11 => "VARIANT_BOOL"@,
        12 => "VARIANT"@,
        13 => "IUnknown*"@,
        14 => "DECIMAL"@,
        16 => "char"@,
        17 => "unsigned char"@,
        18 => "unsigned short"@,
        19 => "unsigned long"@,
        20 => "int64"@,
        21 => "uint64"@,
        22 => "int"@,
        23 => "unsigned int"@,
        24 => "void"@,
        25 => "HRESULT"@,
        27 => "SAFEARRAY"@,
        30 => "LPSTR"@,
        31 => "LPWSTR"@,
        _ => "TYPE_"@ + dec_nat(vt as nat),
    }
}

/// The name and kind of the type a reference points at, where it can be followed.
pub open spec fn ref_target(entries: Seq<Option<TypeEntry>>, r: TypeRef) -> Option<(Seq<char>, TypeKind)> {
    match r {
        TypeRef::Local(i) => {
            if i < entries.len() && entries[i as int] is Some {
                Some((entries[i as int]->0.name@, entries[i as int]->0.kind))
            } else {
                None
            }
        },
        TypeRef::Foreign { name, kind } => Some((name@, kind)),
        TypeRef::Unresolved => None,
    }
}

/// How a reference to a named type reads in a declaration.
pub open spec fn ref_text(entries: Seq<Option<TypeEntry>>, r: TypeRef) -> Seq<char> {
    match ref_target(entries, r) {
        Some(t) => if t.1 is Enum {
            "enum "@ + t.0
        } else {
            t.0
        },
        None => "UnknownUserDefined"@,
    }
}

/// How a type descriptor reads in a declaration.
pub open spec fn type_text(entries: Seq<Option<TypeEntry>>, t: TypeDesc) -> Seq<char>
    decreases t,
{
    match t {
        TypeDesc::Prim(vt) => prim_name(vt),
        TypeDesc::Ptr(b) => type_text(entries, *b) + "*"@,
        TypeDesc::User(r) => ref_text(entries, r),
    }
}

/// The name of a primitive variant tag.
fn prim_name_of(vt: u16) -> (r: String)
    ensures
        r@ == prim_name(vt),
{
    match vt {
        2 => String::from_str("short"),
        3 => String::from_str("long"),
        4 => String::from_str("float"),
        5 => String::from_str("double"),
        6 => String::from_str("CURRENCY"),
        7 => String::from_str("DATE"),
        8 => String::from_str("BSTR"),
        9 => String::from_str("IDispatch*"),
        10 => String::from_str("SCODE"),
        11 => String::from_str("VARIANT_BOOL"),
        12 => String::from_str("VARIANT"),
        13 => String::from_str("IUnknown*"),
        14 => String::from_str("DECIMAL"),
        16 => String::from_str("char"),
        17 => String::from_str("unsigned char"),
        18 => String::from_str("unsigned short"),
        19 => String::from_str("unsigned long"),
        20 => String::from_str("int64"),
        21 => String::from_str("uint64"),
        22 => String::from_str("int"),
        23 => String::from_str("unsigned int"),
        24 => String::from_str("void"),
        25 => String::from_str("HRESULT"),
        27 => String::from_str("SAFEARRAY"),
        30 => String::from_str("LPSTR"),
        31 => String::from_str("LPWSTR"),
        _ => {
            let mut s = String::from_str("TYPE_");
            push_dec(&mut s, vt as u64);
            s
        },
    }
}

/// Follows a reference to the name and kind of its target.
pub fn ref_target_of(entries: &Vec<Option<TypeEntry>>, r: &TypeRef) -> (res: Option<(String, TypeKind)>)
    ensures
        match (res, ref_target(entries@, *r)) {
            (Some(x), Some(y)) => x.0@ == y.0 && x.1 == y.1,
            (None, None) => true,
            _ => false,
        },
{
    match r {
        TypeRef::Local(i) => {
            if *i < entries.len() {
                match &entries[*i] {
                    Some(e) => Some((e.name.clone(), e.kind)),
                    None => None,
                }
            } else {
                None
            }
        },
        TypeRef::Foreign { name, kind } => Some((name.clone(), *kind)),
        TypeRef::Unresolved => None,
    }
}

/// Resolves a type descriptor to its declaration text.
pub fn resolve(entries: &Vec<Option<TypeEntry>>, t: &TypeDesc) -> (r: String)
    ensures
        r@ == type_text(entries@, *t),
    decreases t,
{
    match t {
        TypeDesc::Prim(vt) => prim_name_of(*vt),
        TypeDesc::Ptr(b) => {
            let mut s = resolve(entries, b);
            s.append("*");
            s
        },
        TypeDesc::User(r) => {
            match ref_target_of(entries, r) {
                Some((name, kind)) => {
                    match kind {
                        TypeKind::Enum => {
                            let mut s = String::from_str("enum ");
                            s.append(name.as_str());
                            s
                        },
                        _ => name,
                    }
                },
                None => String::from_str("UnknownUserDefined"),
            }
        },
    }
}


/// One enum value, as shown in the structured view.
#[derive(Debug, Clone)]
pub struct EnumItemInfo {
    pub name: String,
    pub value: String,
}

/// One visible parameter of a method.
#[derive(Debug, Clone)]
pub struct ParamInfo {
    pub name: String,
    pub type_str: String,
    pub flags: Vec<String>,
}

/// One method, with its return value normalized.
#[derive(Debug, Clone)]
pub struct MethodInfo {
    pub name: String,
    pub ret_type: String,
    pub params: Vec<ParamInfo>,
    pub _invoke_kind: String,
}

impl View for EnumItemInfo {
    type V = (Seq<char>, Seq<char>);

    open spec fn view(&self) -> Self::V {
        (self.name@, self.value@)
    }
}

impl View for ParamInfo {
    type V = (Seq<char>, Seq<char>, Seq<Seq<char>>);

    open spec fn view(&self) -> Self::V {
        (self.name@, self.type_str@, self.flags@.map_values(|f: String| f@))
    }
}

impl View for MethodInfo {
    type V = (Seq<char>, Seq<char>, Seq<(Seq<char>, Seq<char>, Seq<Seq<char>>)>, Seq<char>);

    open spec fn view(&self) -> Self::V {
        (self.name@, self.ret_type@, self.params@.map_values(|p: ParamInfo| p@), self._invoke_kind@)
    }
}

/// Member ids of the universal base-interface methods, which are never shown.
pub open spec fn is_hidden_id(memid: i32) -> bool {
    0x60000000 <= memid && memid < 0x60020000
}

/// `[x]` when `b` holds, else nothing.
pub open spec fn opt<T>(b: bool, x: T) -> Seq<T> {
    if b {
        seq![x]
    } else {
        Seq::empty()
    }
}

/// The words of a parameter's flag bits, in the fixed order in, out, lcid, retval, optional, defaultvalue.
pub open spec fn flag_words(f: u16) -> Seq<Seq<char>> {
    opt(f & 1 != 0, "in"@) + opt(f & 2 != 0, "out"@) + opt(f & 4 != 0, "lcid"@) + opt(
        f & 8 != 0,
        "retval"@,
    ) + opt(f & 16 != 0, "optional"@) + opt(f & 32 != 0, "defaultvalue"@)
}

/// A parameter's name; one without a name is called `arg<i>` after its position.
pub open spec fn arg_name(p: ParamDesc, i: nat) -> Seq<char> {
    match p.name {
        Some(n) => n@,
        None => "arg"@ + dec_nat(i),
    }
}

/// A parameter as extracted: name, type text and flag words.
pub open spec fn param_view(entries: Seq<Option<TypeEntry>>, p: ParamDesc, i: nat) -> (
    Seq<char>,
    Seq<char>,
    Seq<Seq<char>>,
) {
    (arg_name(p, i), type_text(entries, p.ty), flag_words(p.flags))
}

/// All parameters as extracted, in order.
pub open spec fn params_view(entries: Seq<Option<TypeEntry>>, ps: Seq<ParamDesc>) -> Seq<
    (Seq<char>, Seq<char>, Seq<Seq<char>>),
> {
    Seq::new(ps.len(), |i: int| param_view(entries, ps[i], i as nat))
}

/// The parameter carries the retval flag.
pub open spec fn is_retval(p: ParamDesc) -> bool {
    p.flags & 8 != 0
}

/// The first of the first `n` parameters that carries the retval flag.
pub open spec fn first_retval(ps: Seq<ParamDesc>, n: int) -> Option<int>
    decreases n,
{
    if n <= 0 {
        None
    } else {
        match first_retval(ps, n - 1) {
            Some(k) => Some(k),
            None => if is_retval(ps[n - 1]) {
                Some(n - 1)
            } else {
                None
            },
        }
    }
}

/// The method is a candidate for retval normalization: it returns something, or is a property getter.
pub open spec fn wants_retval(entries: Seq<Option<TypeEntry>>, f: FuncDesc) -> bool {
    f.invkind is PropGet || type_text(entries, f.ret) != "void"@
}

/// The parameter that becomes the method's visible return value.
pub open spec fn retval_index(entries: Seq<Option<TypeEntry>>, f: FuncDesc) -> Option<int> {
    if wants_retval(entries, f) {
        first_retval(f.params@, f.params@.len() as int)
    } else {
        None
    }
}

/// A type text with one trailing pointer marker removed.
pub open spec fn strip_one_star(s: Seq<char>) -> Seq<char> {
    if s.len() > 0 && s.last() == '*' {
        s.drop_last()
    } else {
        s
    }
}

/// The visible return type of a method.
pub open spec fn visible_ret(entries: Seq<Option<TypeEntry>>, f: FuncDesc) -> Seq<char> {
    match retval_index(entries, f) {
        Some(k) => strip_one_star(type_text(entries, f.params@[k].ty)),
        None => type_text(entries, f.ret),
    }
}

/// The visible parameters of a method: all of them but the one that became its return value.
pub open spec fn visible_params(entries: Seq<Option<TypeEntry>>, f: FuncDesc) -> Seq<
    (Seq<char>, Seq<char>, Seq<Seq<char>>),
> {
    match retval_index(entries, f) {
        Some(k) => params_view(entries, f.params@).remove(k),
        None => params_view(entries, f.params@),
    }
}

/// The word for an invoke kind.
pub open spec fn invoke_word(k: InvokeKind) -> Seq<char> {
    match k {
        InvokeKind::PropGet => "propget"@,
        InvokeKind::PropPut => "propput"@,
        InvokeKind::PropPutRef => "propputref"@,
        InvokeKind::Func => "func"@,
    }
}

/// A method as the extractor reports it.
pub open spec fn method_view(entries: Seq<Option<TypeEntry>>, f: FuncDesc) -> (
    Seq<char>,
    Seq<char>,
    Seq<(Seq<char>, Seq<char>, Seq<Seq<char>>)>,
    Seq<char>,
) {
    (f.name@, visible_ret(entries, f), visible_params(entries, f), invoke_word(f.invkind))
}

/// An enum value as the extractor reports it: its name, and its value in decimal or nothing.
pub open spec fn enum_item_view(name: Seq<char>, value: Option<i32>) -> (Seq<char>, Seq<char>) {
    match value {
        Some(v) => (name, dec_int(v as int)),
        None => (name, Seq::empty()),
    }
}

/// The flag words of a parameter.
fn flag_words_of(f: u16) -> (r: Vec<String>)
    ensures
        r@.map_values(|s: String| s@) == flag_words(f),
{
    let mut r: Vec<String> = Vec::new();
    if f & 1 != 0 {
        r.push(String::from_str("in"));
    }
    if f & 2 != 0 {
        r.push(String::from_str("out"));
    }
    if f & 4 != 0 {
        r.push(String::from_str("lcid"));
    }
    if f & 8 != 0 {
        r.push(String::from_str("retval"));
    }
    if f & 16 != 0 {
        r.push(String::from_str("optional"));
    }
    if f & 32 != 0 {
        r.push(String::from_str("defaultvalue"));
    }
    assert(r@.map_values(|s: String| s@) =~= flag_words(f));
    r
}

/// The name of parameter `i`.
fn arg_name_of(p: &ParamDesc, i: usize) -> (r: String)
    ensures
        r@ == arg_name(*p, i as nat),
{
    match &p.name {
        Some(n) => n.clone(),
        None => {
            let mut s = String::from_str("arg");
            push_dec(&mut s, i as u64);
            s
        },
    }
}

/// Once found, the first retval parameter stays the first as more parameters are looked at.
proof fn lemma_first_retval_stable(ps: Seq<ParamDesc>, n: int, m: int)
    requires
        first_retval(ps, n) is Some,
        n <= m,
    ensures
        first_retval(ps, m) == first_retval(ps, n),
        0 <= first_retval(ps, n)->0 < n,
        is_retval(ps[first_retval(ps, n)->0]),
    decreases m,
{
    if m > n {
        lemma_first_retval_stable(ps, n, m - 1);
    } else if n > 0 && first_retval(ps, n - 1) is Some {
        lemma_first_retval_stable(ps, n - 1, n - 1);
    }
}

/// Finds the first parameter with the retval flag.
fn first_retval_of(ps: &Vec<ParamDesc>) -> (r: Option<usize>)
    ensures
        match r {
            Some(k) => first_retval(ps@, ps@.len() as int) == Some(k as int) && k < ps@.len(),
            None => first_retval(ps@, ps@.len() as int) is None,
        },
{
    let mut i: usize = 0;
    while i < ps.len()
        invariant
            i <= ps.len(),
            first_retval(ps@, i as int) is None,
        decreases ps.len() - i,
    {
        if ps[i].flags & 8 != 0 {
            proof {
                lemma_first_retval_stable(ps@, i + 1, ps@.len() as int);
            }
            return Some(i);
        }
        i = i + 1;
    }
    None
}

/// Removes one trailing pointer marker.
fn strip_one_star_of(s: String) -> (r: String)
    ensures
        r@ == strip_one_star(s@),
{
    let n = s.as_str().unicode_len();
    if n > 0 && s.as_str().get_char(n - 1) == '*' {
        String::from_str(s.as_str().substring_char(0, n - 1))
    } else {
        s
    }
}

/// Finds the parameter that becomes the method's visible return value.
pub fn retval_index_of(entries: &Vec<Option<TypeEntry>>, f: &FuncDesc) -> (r: Option<usize>)
    ensures
        match r {
            Some(k) => retval_index(entries@, *f) == Some(k as int) && k < f.params@.len(),
            None => retval_index(entries@, *f) is None,
        },
{
    let is_get = match f.invkind {
        InvokeKind::PropGet => true,
        _ => false,
    };
    let ret = resolve(entries, &f.ret);
    if is_get || !same_text(ret.as_str(), "void") {
        first_retval_of(&f.params)
    } else {
        None
    }
}

/// Extracts one method with its return value normalized; a base-interface method gives `None`.
pub fn get_function_info(entries: &Vec<Option<TypeEntry>>, f: &FuncDesc) -> (r: Option<MethodInfo>)
    ensures
        r is None <==> is_hidden_id(f.memid),
        r matches Some(m) ==> m@ == method_view(entries@, *f),
{
    if 0x60000000 <= f.memid && f.memid < 0x60020000 {
        return None;
    }
    let invoke = match f.invkind {
        InvokeKind::PropGet => String::from_str("propget"),
        InvokeKind::PropPut => String::from_str("propput"),
        InvokeKind::PropPutRef => String::from_str("propputref"),
        InvokeKind::Func => String::from_str("func"),
    };
    let mut ret_type = resolve(entries, &f.ret);
    let mut params: Vec<ParamInfo> = Vec::new();
    let mut i: usize = 0;
    while i < f.params.len()
        invariant
            i <= f.params.len(),
            params@.len() == i,
            forall|k: int| 0 <= k < i ==> #[trigger] params@[k]@ == param_view(entries@, f.params@[k], k as nat),
        decreases f.params.len() - i,
    {
        let p = &f.params[i];
        let info = ParamInfo { name: arg_name_of(p, i), type_str: resolve(entries, &p.ty), flags: flag_words_of(p.flags) };
        params.push(info);
        i = i + 1;
    }
    assert(params@.map_values(|p: ParamInfo| p@) =~= params_view(entries@, f.params@));
    match retval_index_of(entries, f) {
        Some(k) => {
            ret_type = strip_one_star_of(resolve(entries, &f.params[k].ty));
            params.remove(k);
            assert(params@.map_values(|p: ParamInfo| p@) =~= params_view(entries@, f.params@).remove(k as int));
        },
        None => {},
    }
    let m = MethodInfo { name: f.name.clone(), ret_type, params, _invoke_kind: invoke };
    Some(m)
}

/// Extracts one enum value.
pub fn get_enum_info(name: &String, value: Option<i32>) -> (r: EnumItemInfo)
    ensures
        r@ == enum_item_view(name@, value),
{
    match value {
        Some(v) => {
            let mut s = String::new();
            push_i32(&mut s, v);
            assert(s@ =~= dec_int(v as int));
            EnumItemInfo { name: name.clone(), value: s }
        },
        None => EnumItemInfo { name: name.clone(), value: String::new() },
    }
}

} // verus!
