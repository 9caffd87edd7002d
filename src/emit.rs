//! IDL text: method signatures, type bodies and the whole library.
use vstd::prelude::*;
use vstd::string::*;
use crate::attrs::{
    attr_block, collect_lib_attrs, collect_type_attrs, helpstring, lib_attrs, literal_text,
    literal_text_of, push_attr_block, push_when, type_attrs, uuid_attr,
};
use crate::idl::{
    strip_one_star, arg_name, get_function_info, opt, is_hidden_id, retval_index, retval_index_of, type_text, resolve,
    ref_target, ref_target_of, visible_params, visible_ret, is_retval, method_view, MethodInfo,
};
use crate::model::{
    FuncDesc, ImplType, InvokeKind, ParamDesc, TypeDesc, TypeEntry, TypeKind, TypeLib, VarDesc,
};
use crate::text::{
    chars_of, concat, has_infix, lemma_concat_part, lemma_infix_extend, lemma_infix_self, dec_int, dec_nat, eq_ci, folded, hex_fixed, join, lemma_concat_push, push_dec,
    push_hex, push_i32, push_joined, same_text,
};

verus! {

/// The bracketed tag in front of a property accessor.
pub open spec fn prop_prefix(k: InvokeKind) -> Seq<char> {
    match k {
        InvokeKind::PropGet => "[propget] "@,
        InvokeKind::PropPut => "[propput] "@,
        InvokeKind::PropPutRef => "[propputref] "@,
        InvokeKind::Func => Seq::empty(),
    }
}

/// The default-value attribute of a parameter, with its value where it has a non-empty one.
pub open spec fn default_attr(p: ParamDesc) -> Seq<char> {
    match p.default {
        Some(l) => if literal_text(l).len() > 0 {
            "defaultvalue("@ + literal_text(l) + ")"@
        } else {
            "defaultvalue"@
        },
        None => "defaultvalue"@,
    }
}

/// The attribute words of a parameter in a signature.
pub open spec fn param_attr_words(p: ParamDesc) -> Seq<Seq<char>> {
    opt(p.flags & 1 != 0, "in"@) + opt(p.flags & 2 != 0, "out"@) + opt(p.flags & 4 != 0, "lcid"@)
        + opt(p.flags & 8 != 0, "retval"@) + opt(p.flags & 16 != 0, "optional"@) + opt(
        p.flags & 32 != 0,
        default_attr(p),
    )
}

/// The bracketed attributes in front of a parameter, where it has any.
pub open spec fn param_attr_prefix(p: ParamDesc) -> Seq<char> {
    if param_attr_words(p).len() > 0 {
        "["@ + join(param_attr_words(p), ", "@) + "] "@
    } else {
        Seq::empty()
    }
}

/// One parameter in a signature: `[attrs] Type name`.
pub open spec fn param_decl(entries: Seq<Option<TypeEntry>>, p: ParamDesc, i: nat) -> Seq<char> {
    param_attr_prefix(p) + type_text(entries, p.ty) + " "@ + arg_name(p, i)
}

/// Every parameter in a signature, in order.
pub open spec fn all_param_decls(entries: Seq<Option<TypeEntry>>, f: FuncDesc) -> Seq<Seq<char>> {
    Seq::new(f.params@.len(), |i: int| param_decl(entries, f.params@[i], i as nat))
}

/// The visible parameters in a signature: the one that became the return value is left out.
pub open spec fn param_decls(entries: Seq<Option<TypeEntry>>, f: FuncDesc) -> Seq<Seq<char>> {
    match retval_index(entries, f) {
        Some(k) => all_param_decls(entries, f).remove(k),
        None => all_param_decls(entries, f),
    }
}

/// A return type that carries a value of its own: neither `void` nor `HRESULT`.
pub open spec fn needs_out_param(ret: Seq<char>) -> bool {
    ret != "void"@ && ret != "HRESULT"@
}

/// The signature ends in an output parameter: the method's retval parameter was moved there,
/// or, without one, its return type carries a value of its own.
pub open spec fn writes_out_param(entries: Seq<Option<TypeEntry>>, f: FuncDesc) -> bool {
    retval_index(entries, f) is Some || needs_out_param(visible_ret(entries, f))
}

/// Some visible parameter is already called `val`, in any case.
pub open spec fn has_val_param(vis: Seq<(Seq<char>, Seq<char>, Seq<Seq<char>>)>) -> bool {
    exists|j: int| 0 <= j < vis.len() && folded(#[trigger] vis[j].0) == folded("val"@)
}

/// The name of the trailing output parameter: `val`, or `retVal` where `val` is taken.
pub open spec fn out_param_name(vis: Seq<(Seq<char>, Seq<char>, Seq<Seq<char>>)>) -> Seq<char> {
    if has_val_param(vis) {
        "retVal"@
    } else {
        "val"@
    }
}

/// The trailing `[out, retval] Type* name` of a signature, where it has one.
pub open spec fn out_param(entries: Seq<Option<TypeEntry>>, f: FuncDesc) -> Seq<char> {
    if writes_out_param(entries, f) {
        (if param_decls(entries, f).len() > 0 {
            ", "@
        } else {
            Seq::empty()
        }) + "[out, retval] "@ + visible_ret(entries, f) + "* "@ + out_param_name(
            visible_params(entries, f),
        )
    } else {
        Seq::empty()
    }
}

/// The attribute line of a method: its id in eight hex digits and its documentation.
pub open spec fn id_line(f: FuncDesc) -> Seq<char> {
    "        [id(0x"@ + hex_fixed((f.memid as u32) as nat, 8, false) + ")"@ + (if f.doc@.len() > 0 {
        ", helpstring(\""@ + f.doc@ + "\")"@
    } else {
        Seq::empty()
    }) + "]\n"@
}

/// The signature line of a method.
pub open spec fn signature_line(entries: Seq<Option<TypeEntry>>, f: FuncDesc) -> Seq<char> {
    "        "@ + prop_prefix(f.invkind) + "HRESULT "@ + f.name@ + " ("@ + join(
        param_decls(entries, f),
        ", "@,
    ) + out_param(entries, f) + ");\n"@
}

/// The text of a method; base-interface methods are left out.
pub open spec fn func_text(entries: Seq<Option<TypeEntry>>, f: FuncDesc) -> Seq<char> {
    if is_hidden_id(f.memid) {
        Seq::empty()
    } else {
        id_line(f) + signature_line(entries, f)
    }
}

/// The default-value attribute of a parameter.
fn default_attr_of(p: &ParamDesc) -> (r: String)
    ensures
        r@ == default_attr(*p),
{
    match &p.default {
        Some(l) => {
            let t = literal_text_of(l);
            if t.as_str().unicode_len() > 0 {
                let mut s = String::from_str("defaultvalue(");
                s.append(t.as_str());
                s.append(")");
                s
            } else {
                String::from_str("defaultvalue")
            }
        },
        None => String::from_str("defaultvalue"),
    }
}

/// Appends the bracketed attributes in front of a parameter.
fn push_param_attrs(s: &mut String, p: &ParamDesc)
    ensures
        final(s)@ == old(s)@ + param_attr_prefix(*p),
{
    let ghost start = s@;
    let mut words: Vec<String> = Vec::new();
    push_when(&mut words, p.flags & 1 != 0, String::from_str("in"));
    push_when(&mut words, p.flags & 2 != 0, String::from_str("out"));
    push_when(&mut words, p.flags & 4 != 0, String::from_str("lcid"));
    push_when(&mut words, p.flags & 8 != 0, String::from_str("retval"));
    push_when(&mut words, p.flags & 16 != 0, String::from_str("optional"));
    push_when(&mut words, p.flags & 32 != 0, default_attr_of(p));
    assert(words@.map_values(|x: String| x@) == param_attr_words(*p));
    if words.len() > 0 {
        s.append("[");
        push_joined(s, &words, ", ");
        s.append("] ");
    }
    assert(s@ =~= start + param_attr_prefix(*p));
}

/// One parameter in a signature.
fn param_decl_of(entries: &Vec<Option<TypeEntry>>, p: &ParamDesc, i: usize) -> (r: String)
    ensures
        r@ == param_decl(entries@, *p, i as nat),
{
    let mut s = String::new();
    push_param_attrs(&mut s, p);
    let t = resolve(entries, &p.ty);
    s.append(t.as_str());
    s.append(" ");
    match &p.name {
        Some(n) => s.append(n.as_str()),
        None => {
            s.append("arg");
            crate::text::push_dec(&mut s, i as u64);
        },
    }
    assert(s@ =~= param_decl(entries@, *p, i as nat));
    s
}

/// The visible parameters in a signature.
fn param_decls_of(entries: &Vec<Option<TypeEntry>>, f: &FuncDesc) -> (r: Vec<String>)
    ensures
        r@.map_values(|x: String| x@) == param_decls(entries@, *f),
{
    let mut r: Vec<String> = Vec::new();
    let mut i: usize = 0;
    while i < f.params.len()
        invariant
            i <= f.params.len(),
            r@.len() == i,
            forall|k: int| 0 <= k < i ==> #[trigger] r@[k]@ == param_decl(entries@, f.params@[k], k as nat),
        decreases f.params.len() - i,
    {
        r.push(param_decl_of(entries, &f.params[i], i));
        i = i + 1;
    }
    assert(r@.map_values(|x: String| x@) =~= all_param_decls(entries@, *f));
    match retval_index_of(entries, f) {
        Some(k) => {
            r.remove(k);
            assert(r@.map_values(|x: String| x@) =~= all_param_decls(entries@, *f).remove(k as int));
        },
        None => {},
    }
    r
}

/// The name of the trailing output parameter.
fn out_param_name_of(m: &MethodInfo) -> (r: String)
    ensures
        r@ == out_param_name(m@.2),
{
    let val = chars_of("val");
    let mut i: usize = 0;
    while i < m.params.len()
        invariant
            val@ == "val"@,
            i <= m.params.len(),
            forall|j: int| 0 <= j < i ==> folded(#[trigger] m@.2[j].0) != folded("val"@),
        decreases m.params.len() - i,
    {
        let n = chars_of(m.params[i].name.as_str());
        if eq_ci(&n, &val) {
            assert(folded(m@.2[i as int].0) == folded("val"@));
            return String::from_str("retVal");
        }
        i = i + 1;
    }
    String::from_str("val")
}

/// Appends the attribute line of a method.
fn push_id_line(out: &mut String, f: &FuncDesc)
    ensures
        final(out)@ == old(out)@ + id_line(*f),
{
    let ghost start = out@;
    out.append("        [id(0x");
    push_hex(out, f.memid as u32 as u64, 8, false);
    out.append(")");
    if f.doc.as_str().unicode_len() > 0 {
        out.append(", helpstring(\"");
        out.append(f.doc.as_str());
        out.append("\")");
    }
    out.append("]\n");
    assert(out@ =~= start + id_line(*f));
}

/// Appends the trailing output parameter of a method.
fn push_out_param(out: &mut String, entries: &Vec<Option<TypeEntry>>, f: &FuncDesc, m: &MethodInfo, n_decls: usize)
    requires
        m@ == crate::idl::method_view(entries@, *f),
        n_decls == param_decls(entries@, *f).len(),
    ensures
        final(out)@ == old(out)@ + out_param(entries@, *f),
{
    let ghost start = out@;
    let moved = retval_index_of(entries, f).is_some();
    if moved || (!same_text(m.ret_type.as_str(), "void") && !same_text(m.ret_type.as_str(), "HRESULT")) {
        if n_decls > 0 {
            out.append(", ");
        }
        out.append("[out, retval] ");
        out.append(m.ret_type.as_str());
        out.append("* ");
        let name = out_param_name_of(m);
        out.append(name.as_str());
    }
    assert(out@ =~= start + out_param(entries@, *f));
}

/// Appends the tag in front of a property accessor.
fn push_prop_prefix(out: &mut String, k: InvokeKind)
    ensures
        final(out)@ == old(out)@ + prop_prefix(k),
{
    let ghost start = out@;
    match k {
        InvokeKind::PropGet => out.append("[propget] "),
        InvokeKind::PropPut => out.append("[propput] "),
        InvokeKind::PropPutRef => out.append("[propputref] "),
        InvokeKind::Func => {},
    }
    assert(out@ =~= start + prop_prefix(k));
}

/// Appends the signature line of a method.
fn push_signature(out: &mut String, entries: &Vec<Option<TypeEntry>>, f: &FuncDesc, m: &MethodInfo)
    requires
        m@ == crate::idl::method_view(entries@, *f),
    ensures
        final(out)@ == old(out)@ + signature_line(entries@, *f),
{
    let ghost start = out@;
    out.append("        ");
    push_prop_prefix(out, f.invkind);
    out.append("HRESULT ");
    out.append(f.name.as_str());
    out.append(" (");
    let decls = param_decls_of(entries, f);
    push_joined(out, &decls, ", ");
    push_out_param(out, entries, f, m, decls.len());
    out.append(");\n");
    assert(out@ =~= start + signature_line(entries@, *f));
}

/// Appends the text of one method.
pub fn print_function(out: &mut String, entries: &Vec<Option<TypeEntry>>, f: &FuncDesc)
    ensures
        final(out)@ == old(out)@ + func_text(entries@, *f),
{
    let ghost start = out@;
    let m = match get_function_info(entries, f) {
        Some(m) => m,
        None => {
            assert(out@ =~= start + func_text(entries@, *f));
            return;
        },
    };
    push_id_line(out, f);
    push_signature(out, entries, f, &m);
    assert(out@ =~= start + func_text(entries@, *f));
}

/// The attribute block in front of an interface, dispatch interface, coclass or enum.
pub open spec fn header_block(e: TypeEntry) -> Seq<char> {
    attr_block(type_attrs(e), "    "@, "      "@)
}

/// The texts of a list of functions; unreadable ones give nothing.
pub open spec fn funcs_parts(entries: Seq<Option<TypeEntry>>, fs: Seq<Option<FuncDesc>>) -> Seq<Seq<char>> {
    Seq::new(
        fs.len(),
        |i: int|
            match fs[i] {
                Some(f) => func_text(entries, f),
                None => Seq::empty(),
            },
    )
}

/// How the variables of a type are written.
#[derive(Clone, Copy, Debug)]
pub enum VarStyle {
    /// `[id(0x...)] Type name;` in a dispatch interface.
    Property,
    /// `name = value,` in an enum.
    EnumValue,
    /// `Type name;` in a record.
    Field,
    /// `const int name = value;` in a module; variables without a value are left out.
    Constant,
}

/// The line of one variable.
pub open spec fn var_line(entries: Seq<Option<TypeEntry>>, v: VarDesc, style: VarStyle) -> Seq<char> {
    match style {
        VarStyle::Property => "        [id(0x"@ + hex_fixed((v.memid as u32) as nat, 8, false) + ")] "@
            + type_text(entries, v.ty) + " "@ + v.name@ + ";\n"@,
        VarStyle::EnumValue => "        "@ + v.name@ + (match v.value {
            Some(x) => " = "@ + dec_int(x as int),
            None => Seq::empty(),
        }) + ",\n"@,
        VarStyle::Field => "        "@ + type_text(entries, v.ty) + " "@ + v.name@ + ";\n"@,
        VarStyle::Constant => match v.value {
            Some(x) => "        const int "@ + v.name@ + " = "@ + dec_int(x as int) + ";\n"@,
            None => Seq::empty(),
        },
    }
}

/// The lines of a list of variables; unreadable ones give nothing.
pub open spec fn var_parts(entries: Seq<Option<TypeEntry>>, vs: Seq<Option<VarDesc>>, style: VarStyle) -> Seq<
    Seq<char>,
> {
    Seq::new(
        vs.len(),
        |i: int|
            match vs[i] {
                Some(v) => var_line(entries, v, style),
                None => Seq::empty(),
            },
    )
}

/// ` : Base` after an interface name, where its first implemented type can be followed.
pub open spec fn base_part(entries: Seq<Option<TypeEntry>>, e: TypeEntry) -> Seq<char> {
    if e.impls@.len() > 0 {
        match ref_target(entries, e.impls@[0].target) {
            Some(t) => if t.0.len() > 0 {
                " : "@ + t.0
            } else {
                Seq::empty()
            },
            None => Seq::empty(),
        }
    } else {
        Seq::empty()
    }
}

/// The body of an interface, or of a dual dispatch interface.
pub open spec fn interface_body(entries: Seq<Option<TypeEntry>>, e: TypeEntry) -> Seq<char> {
    header_block(e) + "    interface "@ + e.name@ + base_part(entries, e) + " {\n"@ + concat(
        funcs_parts(entries, e.funcs@),
    ) + "    };\n"@
}

/// The body of a dispatch-only interface, with its properties and methods sections.
pub open spec fn dispinterface_body(entries: Seq<Option<TypeEntry>>, e: TypeEntry) -> Seq<char> {
    header_block(e) + "    dispinterface "@ + e.name@ + " {\n"@ + "    properties:\n"@ + concat(
        var_parts(entries, e.vars@, VarStyle::Property),
    ) + "    methods:\n"@ + concat(funcs_parts(entries, e.funcs@)) + "    };\n"@
}

/// The body of an enum.
pub open spec fn enum_body(entries: Seq<Option<TypeEntry>>, e: TypeEntry) -> Seq<char> {
    header_block(e) + "    enum "@ + e.name@ + " {\n"@ + concat(var_parts(entries, e.vars@, VarStyle::EnumValue))
        + "    };\n"@
}

/// The line of one implemented type of a coclass, where its reference can be followed.
pub open spec fn impl_line(entries: Seq<Option<TypeEntry>>, it: ImplType) -> Seq<char> {
    match ref_target(entries, it.target) {
        Some(t) => "        "@ + (if it.flags & 1 != 0 {
            "[default] "@
        } else {
            Seq::empty()
        }) + (if it.flags & 2 != 0 {
            "[source] "@
        } else {
            Seq::empty()
        }) + "interface "@ + t.0 + ";\n"@,
        None => Seq::empty(),
    }
}

/// The lines of the implemented types of a coclass.
pub open spec fn impl_parts(entries: Seq<Option<TypeEntry>>, its: Seq<ImplType>) -> Seq<Seq<char>> {
    Seq::new(its.len(), |i: int| impl_line(entries, its[i]))
}

/// The body of a coclass.
pub open spec fn coclass_body(entries: Seq<Option<TypeEntry>>, e: TypeEntry) -> Seq<char> {
    header_block(e) + "    coclass "@ + e.name@ + " {\n"@ + concat(impl_parts(entries, e.impls@)) + "    };\n"@
}

/// Every named type inside a descriptor can be followed.
pub open spec fn resolves(entries: Seq<Option<TypeEntry>>, t: TypeDesc) -> bool
    decreases t,
{
    match t {
        TypeDesc::Prim(_) => true,
        TypeDesc::Ptr(b) => resolves(entries, *b),
        TypeDesc::User(r) => ref_target(entries, r) is Some,
    }
}

/// The typedef of an alias; nothing where its target cannot be followed.
pub open spec fn alias_body(entries: Seq<Option<TypeEntry>>, e: TypeEntry) -> Seq<char> {
    match e.alias_of {
        Some(t) => if resolves(entries, t) {
            "    typedef "@ + type_text(entries, t) + " "@ + e.name@ + ";\n"@
        } else {
            Seq::empty()
        },
        None => Seq::empty(),
    }
}

/// The body of a record.
pub open spec fn record_body(entries: Seq<Option<TypeEntry>>, e: TypeEntry) -> Seq<char> {
    "    typedef struct tag"@ + e.name@ + " {\n"@ + concat(var_parts(entries, e.vars@, VarStyle::Field))
        + "    } "@ + e.name@ + ";\n"@
}

/// The library named by the linkage of a module's first function, or nothing.
pub open spec fn dll_of(e: TypeEntry) -> Seq<char> {
    if e.funcs@.len() > 0 && e.funcs@[0] is Some && e.funcs@[0]->0.dll_name is Some {
        e.funcs@[0]->0.dll_name->0@
    } else {
        Seq::empty()
    }
}

/// The attributes of a module: its library, identity and documentation.
pub open spec fn module_attrs(e: TypeEntry) -> Seq<Seq<char>> {
    opt(dll_of(e).len() > 0, "dllname(\""@ + dll_of(e) + "\")"@) + seq![uuid_attr(e.guid)] + opt(
        e.doc@.len() > 0,
        helpstring(e.doc@),
    )
}

/// The body of a module: its attributes and its constants.
pub open spec fn module_body(entries: Seq<Option<TypeEntry>>, e: TypeEntry) -> Seq<char> {
    attr_block(module_attrs(e), "    "@, "      "@) + "    module "@ + e.name@ + " {\n"@ + concat(
        var_parts(entries, e.vars@, VarStyle::Constant),
    ) + "    };\n"@
}

/// The comment that stands for a type of a kind that has no body.
pub open spec fn unsupported_line(code: i32) -> Seq<char> {
    "    // Unsupported type kind: TYPEKIND("@ + dec_int(code as int) + ")\n"@
}

/// The body of a type, by its kind.
pub open spec fn type_body(entries: Seq<Option<TypeEntry>>, e: TypeEntry) -> Seq<char> {
    match e.kind {
        TypeKind::Interface => interface_body(entries, e),
        TypeKind::Dispatch => if e.flags & 0x40 != 0 {
            interface_body(entries, e)
        } else {
            dispinterface_body(entries, e)
        },
        TypeKind::Enum => enum_body(entries, e),
        TypeKind::CoClass => coclass_body(entries, e),
        TypeKind::Alias => alias_body(entries, e),
        TypeKind::Record => record_body(entries, e),
        TypeKind::Module => module_body(entries, e),
        TypeKind::Union => unsupported_line(7),
        TypeKind::Other(c) => unsupported_line(c),
    }
}

/// The text of one type entry: its body and a blank line.
pub open spec fn entry_text(entries: Seq<Option<TypeEntry>>, e: TypeEntry) -> Seq<char> {
    type_body(entries, e) + "\n"@
}

/// Appends the texts of a list of functions.
fn push_funcs(out: &mut String, entries: &Vec<Option<TypeEntry>>, fs: &Vec<Option<FuncDesc>>)
    ensures
        final(out)@ == old(out)@ + concat(funcs_parts(entries@, fs@)),
{
    let ghost start = out@;
    let ghost parts = funcs_parts(entries@, fs@);
    let mut i: usize = 0;
    while i < fs.len()
        invariant
            parts == funcs_parts(entries@, fs@),
            i <= fs.len(),
            out@ == start + concat(parts.subrange(0, i as int)),
        decreases fs.len() - i,
    {
        proof {
            lemma_concat_push(parts, i as int);
        }
        match &fs[i] {
            Some(f) => print_function(out, entries, f),
            None => {},
        }
        i = i + 1;
        assert(out@ =~= start + concat(parts.subrange(0, i as int)));
    }
    assert(parts.subrange(0, i as int) =~= parts);
}

/// Appends the line of one variable.
fn push_var_line(out: &mut String, entries: &Vec<Option<TypeEntry>>, v: &VarDesc, style: VarStyle)
    ensures
        final(out)@ == old(out)@ + var_line(entries@, *v, style),
{
    let ghost start = out@;
    match style {
        VarStyle::Property => {
            out.append("        [id(0x");
            push_hex(out, v.memid as u32 as u64, 8, false);
            out.append(")] ");
            let t = resolve(entries, &v.ty);
            out.append(t.as_str());
            out.append(" ");
            out.append(v.name.as_str());
            out.append(";\n");
        },
        VarStyle::EnumValue => {
            out.append("        ");
            out.append(v.name.as_str());
            match v.value {
                Some(x) => {
                    out.append(" = ");
                    push_i32(out, x);
                },
                None => {},
            }
            out.append(",\n");
        },
        VarStyle::Field => {
            out.append("        ");
            let t = resolve(entries, &v.ty);
            out.append(t.as_str());
            out.append(" ");
            out.append(v.name.as_str());
            out.append(";\n");
        },
        VarStyle::Constant => {
            match v.value {
                Some(x) => {
                    out.append("        const int ");
                    out.append(v.name.as_str());
                    out.append(" = ");
                    push_i32(out, x);
                    out.append(";\n");
                },
                None => {},
            }
        },
    }
    assert(out@ =~= start + var_line(entries@, *v, style));
}

/// Appends the lines of a list of variables.
fn push_vars(out: &mut String, entries: &Vec<Option<TypeEntry>>, vs: &Vec<Option<VarDesc>>, style: VarStyle)
    ensures
        final(out)@ == old(out)@ + concat(var_parts(entries@, vs@, style)),
{
    let ghost start = out@;
    let ghost parts = var_parts(entries@, vs@, style);
    let mut i: usize = 0;
    while i < vs.len()
        invariant
            parts == var_parts(entries@, vs@, style),
            i <= vs.len(),
            out@ == start + concat(parts.subrange(0, i as int)),
        decreases vs.len() - i,
    {
        proof {
            lemma_concat_push(parts, i as int);
        }
        match &vs[i] {
            Some(v) => push_var_line(out, entries, v, style),
            None => {},
        }
        i = i + 1;
        assert(out@ =~= start + concat(parts.subrange(0, i as int)));
    }
    assert(parts.subrange(0, i as int) =~= parts);
}

/// Appends the lines of the implemented types of a coclass.
fn push_impls(out: &mut String, entries: &Vec<Option<TypeEntry>>, its: &Vec<ImplType>)
    ensures
        final(out)@ == old(out)@ + concat(impl_parts(entries@, its@)),
{
    let ghost start = out@;
    let ghost parts = impl_parts(entries@, its@);
    let mut i: usize = 0;
    while i < its.len()
        invariant
            parts == impl_parts(entries@, its@),
            i <= its.len(),
            out@ == start + concat(parts.subrange(0, i as int)),
        decreases its.len() - i,
    {
        proof {
            lemma_concat_push(parts, i as int);
        }
        let ghost before = out@;
        match ref_target_of(entries, &its[i].target) {
            Some((name, _)) => {
                out.append("        ");
                if its[i].flags & 1 != 0 {
                    out.append("[default] ");
                }
                if its[i].flags & 2 != 0 {
                    out.append("[source] ");
                }
                out.append("interface ");
                out.append(name.as_str());
                out.append(";\n");
            },
            None => {},
        }
        assert(out@ =~= before + impl_line(entries@, its@[i as int]));
        i = i + 1;
        assert(out@ =~= start + concat(parts.subrange(0, i as int)));
    }
    assert(parts.subrange(0, i as int) =~= parts);
}


/// Appends the attribute block of a type.
fn push_header(out: &mut String, e: &TypeEntry)
    ensures
        final(out)@ == old(out)@ + header_block(*e),
{
    let attrs = collect_type_attrs(e);
    push_attr_block(out, &attrs, "    ", "      ");
}

/// Appends the body of an interface or dual dispatch interface.
fn push_interface(out: &mut String, entries: &Vec<Option<TypeEntry>>, e: &TypeEntry)
    ensures
        final(out)@ == old(out)@ + interface_body(entries@, *e),
{
    let ghost start = out@;
    push_header(out, e);
    out.append("    interface ");
    out.append(e.name.as_str());
    let ghost before_base = out@;
    if e.impls.len() > 0 {
        match ref_target_of(entries, &e.impls[0].target) {
            Some((base, _)) => {
                if base.as_str().unicode_len() > 0 {
                    out.append(" : ");
                    out.append(base.as_str());
                }
            },
            None => {},
        }
    }
    assert(out@ =~= before_base + base_part(entries@, *e));
    out.append(" {\n");
    push_funcs(out, entries, &e.funcs);
    out.append("    };\n");
    assert(out@ =~= start + interface_body(entries@, *e));
}

/// Appends the body of a dispatch-only interface.
fn push_dispinterface(out: &mut String, entries: &Vec<Option<TypeEntry>>, e: &TypeEntry)
    ensures
        final(out)@ == old(out)@ + dispinterface_body(entries@, *e),
{
    let ghost start = out@;
    push_header(out, e);
    out.append("    dispinterface ");
    out.append(e.name.as_str());
    out.append(" {\n");
    out.append("    properties:\n");
    let ghost a = out@;
    assert(a =~= start + (header_block(*e) + "    dispinterface "@ + e.name@ + " {\n"@ + "    properties:\n"@));
    push_vars(out, entries, &e.vars, VarStyle::Property);
    out.append("    methods:\n");
    let ghost b = out@;
    assert(b =~= a + (concat(var_parts(entries@, e.vars@, VarStyle::Property)) + "    methods:\n"@));
    push_funcs(out, entries, &e.funcs);
    out.append("    };\n");
    assert(out@ =~= b + (concat(funcs_parts(entries@, e.funcs@)) + "    };\n"@));
    assert(out@ =~= start + dispinterface_body(entries@, *e));
}

/// Whether every named type inside a descriptor can be followed.
fn resolves_of(entries: &Vec<Option<TypeEntry>>, t: &TypeDesc) -> (r: bool)
    ensures
        r == resolves(entries@, *t),
    decreases t,
{
    match t {
        TypeDesc::Prim(_) => true,
        TypeDesc::Ptr(b) => resolves_of(entries, b),
        TypeDesc::User(r) => ref_target_of(entries, r).is_some(),
    }
}

/// The library named by the linkage of a module's first function.
fn dll_of_entry(e: &TypeEntry) -> (r: String)
    ensures
        r@ == dll_of(*e),
{
    if e.funcs.len() > 0 {
        match &e.funcs[0] {
            Some(f) => match &f.dll_name {
                Some(d) => d.clone(),
                None => String::new(),
            },
            None => String::new(),
        }
    } else {
        String::new()
    }
}

/// Collects the attributes of a module.
fn module_attrs_of(e: &TypeEntry) -> (r: Vec<String>)
    ensures
        r@.map_values(|x: String| x@) == module_attrs(*e),
{
    let dll = dll_of_entry(e);
    let mut attrs: Vec<String> = Vec::new();
    let mut d = String::from_str("dllname(\"");
    d.append(dll.as_str());
    d.append("\")");
    push_when(&mut attrs, dll.as_str().unicode_len() > 0, d);
    let mut u = String::from_str("uuid(");
    crate::attrs::push_guid(&mut u, &e.guid);
    u.append(")");
    push_when(&mut attrs, true, u);
    let mut h = String::from_str("helpstring(\"");
    h.append(e.doc.as_str());
    h.append("\")");
    push_when(&mut attrs, e.doc.as_str().unicode_len() > 0, h);
    assert(attrs@.map_values(|x: String| x@) =~= module_attrs(*e));
    attrs
}

/// Appends the body of a module.
fn push_module(out: &mut String, entries: &Vec<Option<TypeEntry>>, e: &TypeEntry)
    ensures
        final(out)@ == old(out)@ + module_body(entries@, *e),
{
    let ghost start = out@;
    let attrs = module_attrs_of(e);
    push_attr_block(out, &attrs, "    ", "      ");
    out.append("    module ");
    out.append(e.name.as_str());
    out.append(" {\n");
    push_vars(out, entries, &e.vars, VarStyle::Constant);
    out.append("    };\n");
    assert(out@ =~= start + module_body(entries@, *e));
}

/// Appends the comment for a type kind without a body.
fn push_unsupported(out: &mut String, code: i32)
    ensures
        final(out)@ == old(out)@ + unsupported_line(code),
{
    let ghost start = out@;
    out.append("    // Unsupported type kind: TYPEKIND(");
    push_i32(out, code);
    out.append(")\n");
    assert(out@ =~= start + unsupported_line(code));
}

/// Appends the body of a type, by its kind.
fn push_type_body(out: &mut String, entries: &Vec<Option<TypeEntry>>, e: &TypeEntry)
    ensures
        final(out)@ == old(out)@ + type_body(entries@, *e),
{
    let ghost start = out@;
    match e.kind {
        TypeKind::Interface => push_interface(out, entries, e),
        TypeKind::Dispatch => {
            if e.flags & 0x40 != 0 {
                push_interface(out, entries, e);
            } else {
                push_dispinterface(out, entries, e);
            }
        },
        TypeKind::Enum => {
            push_header(out, e);
            out.append("    enum ");
            out.append(e.name.as_str());
            out.append(" {\n");
            push_vars(out, entries, &e.vars, VarStyle::EnumValue);
            out.append("    };\n");
            assert(out@ =~= start + enum_body(entries@, *e));
        },
        TypeKind::CoClass => {
            push_header(out, e);
            out.append("    coclass ");
            out.append(e.name.as_str());
            out.append(" {\n");
            push_impls(out, entries, &e.impls);
            out.append("    };\n");
            assert(out@ =~= start + coclass_body(entries@, *e));
        },
        TypeKind::Alias => {
            match &e.alias_of {
                Some(t) => {
                    if resolves_of(entries, t) {
                        out.append("    typedef ");
                        let s = resolve(entries, t);
                        out.append(s.as_str());
                        out.append(" ");
                        out.append(e.name.as_str());
                        out.append(";\n");
                    }
                },
                None => {},
            }
            assert(out@ =~= start + alias_body(entries@, *e));
        },
        TypeKind::Record => {
            out.append("    typedef struct tag");
            out.append(e.name.as_str());
            out.append(" {\n");
            push_vars(out, entries, &e.vars, VarStyle::Field);
            out.append("    } ");
            out.append(e.name.as_str());
            out.append(";\n");
            assert(out@ =~= start + record_body(entries@, *e));
        },
        TypeKind::Module => push_module(out, entries, e),
        TypeKind::Union => push_unsupported(out, 7),
        TypeKind::Other(c) => push_unsupported(out, c),
    }
}

/// Appends the text of one type entry: its body and a blank line.
pub fn print_type_info(out: &mut String, entries: &Vec<Option<TypeEntry>>, e: &TypeEntry)
    ensures
        final(out)@ == old(out)@ + entry_text(entries@, *e),
{
    let ghost start = out@;
    push_type_body(out, entries, e);
    out.append("\n");
    assert(out@ =~= start + entry_text(entries@, *e));
}


/// The forward declaration of an interface, dispatch interface or coclass; nothing for other kinds.
pub open spec fn forward_decl(e: TypeEntry) -> Seq<char> {
    match e.kind {
        TypeKind::Interface => "    interface "@ + e.name@ + ";\n"@,
        TypeKind::Dispatch => if e.flags & 0x40 != 0 {
            "    interface "@ + e.name@ + ";\n"@
        } else {
            "    dispinterface "@ + e.name@ + ";\n"@
        },
        TypeKind::CoClass => "    coclass "@ + e.name@ + ";\n"@,
        _ => Seq::empty(),
    }
}

/// The comment that stands for an entry that could not be read.
pub open spec fn unreadable_line(i: nat) -> Seq<char> {
    "    // Unreadable type entry "@ + dec_nat(i) + "\n\n"@
}

/// The three runs over the entries that make up a library's text.
#[derive(Clone, Copy, Debug)]
pub enum Section {
    /// Forward declarations.
    Forward,
    /// Enum bodies.
    Enums,
    /// Every other body, and the placeholders of unreadable entries.
    Rest,
}

/// What entry `i` gives in a section.
pub open spec fn section_part(entries: Seq<Option<TypeEntry>>, i: int, sec: Section) -> Seq<char> {
    match entries[i] {
        Some(e) => match sec {
            Section::Forward => forward_decl(e),
            Section::Enums => if e.kind is Enum {
                entry_text(entries, e)
            } else {
                Seq::empty()
            },
            Section::Rest => if e.kind is Enum {
                Seq::empty()
            } else {
                entry_text(entries, e)
            },
        },
        None => match sec {
            Section::Rest => unreadable_line(i as nat),
            _ => Seq::empty(),
        },
    }
}

/// What every entry gives in a section, in ascending ordinal order.
pub open spec fn section_parts(entries: Seq<Option<TypeEntry>>, sec: Section) -> Seq<Seq<char>> {
    Seq::new(entries.len(), |i: int| section_part(entries, i, sec))
}

/// The IDL text of a whole library read from `path`.
pub open spec fn idl_text(lib: TypeLib, path: Seq<char>) -> Seq<char> {
    "// Decompilated from "@ + path + "\n"@ + attr_block(lib_attrs(lib), Seq::empty(), "  "@) + "library "@
        + lib.name@ + "\n{\n\n"@ + concat(section_parts(lib.entries@, Section::Forward)) + "\n"@ + concat(
        section_parts(lib.entries@, Section::Enums),
    ) + "\n"@ + concat(section_parts(lib.entries@, Section::Rest)) + "};\n"@
}

/// Appends what entry `i` gives in a section.
fn push_section_part(out: &mut String, entries: &Vec<Option<TypeEntry>>, i: usize, sec: Section)
    requires
        i < entries@.len(),
    ensures
        final(out)@ == old(out)@ + section_part(entries@, i as int, sec),
{
    let ghost start = out@;
    match &entries[i] {
        Some(e) => {
            let is_enum = match e.kind {
                TypeKind::Enum => true,
                _ => false,
            };
            match sec {
                Section::Forward => {
                    match e.kind {
                        TypeKind::Interface => {
                            out.append("    interface ");
                            out.append(e.name.as_str());
                            out.append(";\n");
                        },
                        TypeKind::Dispatch => {
                            if e.flags & 0x40 != 0 {
                                out.append("    interface ");
                            } else {
                                out.append("    dispinterface ");
                            }
                            out.append(e.name.as_str());
                            out.append(";\n");
                        },
                        TypeKind::CoClass => {
                            out.append("    coclass ");
                            out.append(e.name.as_str());
                            out.append(";\n");
                        },
                        _ => {},
                    }
                },
                Section::Enums => {
                    if is_enum {
                        print_type_info(out, entries, e);
                    }
                },
                Section::Rest => {
                    if !is_enum {
                        print_type_info(out, entries, e);
                    }
                },
            }
        },
        None => match sec {
            Section::Rest => {
                out.append("    // Unreadable type entry ");
                push_dec(out, i as u64);
                out.append("\n\n");
            },
            _ => {},
        },
    }
    assert(out@ =~= start + section_part(entries@, i as int, sec));
}

/// Appends a section.
fn push_section(out: &mut String, entries: &Vec<Option<TypeEntry>>, sec: Section)
    ensures
        final(out)@ == old(out)@ + concat(section_parts(entries@, sec)),
{
    let ghost start = out@;
    let ghost parts = section_parts(entries@, sec);
    let mut i: usize = 0;
    while i < entries.len()
        invariant
            parts == section_parts(entries@, sec),
            i <= entries.len(),
            out@ == start + concat(parts.subrange(0, i as int)),
        decreases entries.len() - i,
    {
        proof {
            lemma_concat_push(parts, i as int);
        }
        push_section_part(out, entries, i, sec);
        i = i + 1;
        assert(out@ =~= start + concat(parts.subrange(0, i as int)));
    }
    assert(parts.subrange(0, i as int) =~= parts);
}

/// Synthesizes the IDL text of a whole library read from `path`.
pub fn build_tlb(lib: &TypeLib, path: &str) -> (r: String)
    ensures
        r@ == idl_text(*lib, path@),
{
    let mut out = String::from_str("// Decompilated from ");
    out.append(path);
    out.append("\n");
    let attrs = collect_lib_attrs(lib);
    push_attr_block(&mut out, &attrs, "", "  ");
    out.append("library ");
    out.append(lib.name.as_str());
    out.append("\n{\n\n");
    push_section(&mut out, &lib.entries, Section::Forward);
    out.append("\n");
    push_section(&mut out, &lib.entries, Section::Enums);
    out.append("\n");
    push_section(&mut out, &lib.entries, Section::Rest);
    out.append("};\n");
    proof {
        reveal_strlit("");
    }
    assert(out@ =~= idl_text(*lib, path@));
    out
}


/// Every entry is accounted for exactly once in the bodies of a library's text: a readable entry
/// by its own text, in the enum section or in the other, and an unreadable one by a placeholder.
pub proof fn lemma_entry_once(entries: Seq<Option<TypeEntry>>, i: int)
    requires
        0 <= i < entries.len(),
    ensures
        section_part(entries, i, Section::Enums) + section_part(entries, i, Section::Rest) == match entries[i] {
            Some(e) => entry_text(entries, e),
            None => unreadable_line(i as nat),
        },
        section_part(entries, i, Section::Enums).len() == 0 || section_part(entries, i, Section::Rest).len()
            == 0,
{
    let a = section_part(entries, i, Section::Enums);
    let b = section_part(entries, i, Section::Rest);
    match entries[i] {
        Some(e) => {
            if e.kind is Enum {
                assert(a + b =~= a);
            } else {
                assert(a + b =~= b);
            }
        },
        None => {
            assert(a + b =~= b);
        },
    }
}

/// The number of readable entries among the first `n`.
pub open spec fn readable_count(entries: Seq<Option<TypeEntry>>, n: int) -> nat
    decreases n,
{
    if n <= 0 {
        0
    } else {
        readable_count(entries, n - 1) + if entries[n - 1] is Some {
            1nat
        } else {
            0nat
        }
    }
}

/// The number of the first `n` entries whose body slots hold the entry's own text.
pub open spec fn emitted_count(entries: Seq<Option<TypeEntry>>, n: int) -> nat
    decreases n,
{
    if n <= 0 {
        0
    } else {
        emitted_count(entries, n - 1) + match entries[n - 1] {
            Some(e) => if section_part(entries, n - 1, Section::Enums) + section_part(entries, n - 1, Section::Rest)
                == entry_text(entries, e) {
                1nat
            } else {
                0nat
            },
            None => 0nat,
        }
    }
}

/// The number of the first `n` entries whose body slots hold a placeholder.
pub open spec fn placeholder_count(entries: Seq<Option<TypeEntry>>, n: int) -> nat
    decreases n,
{
    if n <= 0 {
        0
    } else {
        placeholder_count(entries, n - 1) + if entries[n - 1] is None && section_part(entries, n - 1, Section::Enums)
            + section_part(entries, n - 1, Section::Rest) == unreadable_line((n - 1) as nat) {
            1nat
        } else {
            0nat
        }
    }
}

/// As many bodies are emitted as there are readable entries, and one placeholder for each
/// unreadable one: every entry fills its own slot of the body sections, once.
pub proof fn lemma_emitted_count(entries: Seq<Option<TypeEntry>>, n: int)
    requires
        0 <= n <= entries.len(),
    ensures
        emitted_count(entries, n) == readable_count(entries, n),
        placeholder_count(entries, n) + readable_count(entries, n) == n,
    decreases n,
{
    if n > 0 {
        lemma_emitted_count(entries, n - 1);
        lemma_entry_once(entries, n - 1);
    }
}

/// A library's text holds the text of every readable entry, and a placeholder for every
/// unreadable one: damaged entries never keep the others out.
pub proof fn lemma_every_entry_emitted(lib: TypeLib, path: Seq<char>, i: int)
    requires
        0 <= i < lib.entries@.len(),
    ensures
        match lib.entries@[i] {
            Some(e) => has_infix(idl_text(lib, path), entry_text(lib.entries@, e)),
            None => has_infix(idl_text(lib, path), unreadable_line(i as nat)),
        },
{
    let entries = lib.entries@;
    let head = "// Decompilated from "@ + path + "\n"@ + attr_block(lib_attrs(lib), Seq::empty(), "  "@)
        + "library "@ + lib.name@ + "\n{\n\n"@ + concat(section_parts(entries, Section::Forward)) + "\n"@;
    let enums = concat(section_parts(entries, Section::Enums));
    let rest = concat(section_parts(entries, Section::Rest));
    assert(idl_text(lib, path) == head + enums + "\n"@ + rest + "};\n"@);
    let target = match entries[i] {
        Some(e) => entry_text(entries, e),
        None => unreadable_line(i as nat),
    };
    let in_enums = match entries[i] {
        Some(e) => e.kind is Enum,
        None => false,
    };
    if in_enums {
        assert(section_parts(entries, Section::Enums)[i] == target);
        lemma_concat_part(section_parts(entries, Section::Enums), i);
        lemma_infix_extend(head, enums, Seq::empty(), target);
        lemma_infix_extend(Seq::empty(), head + enums, "\n"@, target);
        lemma_infix_extend(Seq::empty(), head + enums + "\n"@, rest, target);
        lemma_infix_extend(Seq::empty(), head + enums + "\n"@ + rest, "};\n"@, target);
    } else {
        assert(section_parts(entries, Section::Rest)[i] == target);
        lemma_concat_part(section_parts(entries, Section::Rest), i);
        lemma_infix_extend(head + enums + "\n"@, rest, Seq::empty(), target);
        lemma_infix_extend(Seq::empty(), head + enums + "\n"@ + rest, "};\n"@, target);
    }
}

/// A method returning `HRESULT`, invoked plainly, whose one parameter carries the retval flag
/// and reads `long*`, shows no parameters and returns `long`.
pub proof fn lemma_retval_normalized(entries: Seq<Option<TypeEntry>>, f: FuncDesc)
    requires
        f.ret == TypeDesc::Prim(25),
        f.invkind == InvokeKind::Func,
        f.params@.len() == 1,
        is_retval(f.params@[0]),
        type_text(entries, f.params@[0].ty) == "long*"@,
    ensures
        method_view(entries, f).2.len() == 0,
        method_view(entries, f).1 == "long"@,
{
    reveal_strlit("HRESULT");
    reveal_strlit("void");
    reveal_strlit("long*");
    reveal_strlit("long");
    assert(type_text(entries, f.ret) == "HRESULT"@);
    assert(type_text(entries, f.ret) != "void"@);
    assert(crate::idl::first_retval(f.params@, 0) is None);
    assert(crate::idl::first_retval(f.params@, 1) == Some(0int));
    assert(strip_one_star("long*"@) =~= "long"@);
}

/// Where a visible parameter is already called `val` in any case, the trailing output
/// parameter of the method's signature is called `retVal`.
pub proof fn lemma_retval_name_avoids_clash(entries: Seq<Option<TypeEntry>>, f: FuncDesc)
    requires
        !is_hidden_id(f.memid),
        writes_out_param(entries, f),
        has_val_param(visible_params(entries, f)),
    ensures
        out_param_name(visible_params(entries, f)) == "retVal"@,
        has_infix(func_text(entries, f), "* retVal"@),
{
    let sep: Seq<char> = if param_decls(entries, f).len() > 0 {
        ", "@
    } else {
        Seq::empty()
    };
    let x = sep + "[out, retval] "@ + visible_ret(entries, f);
    assert(out_param(entries, f) == x + "* "@ + "retVal"@);
    assert(x + "* "@ + "retVal"@ =~= x + ("* "@ + "retVal"@));
    reveal_strlit("* retVal");
    reveal_strlit("* ");
    reveal_strlit("retVal");
    assert("* "@ + "retVal"@ =~= "* retVal"@);
    lemma_infix_self(x, "* retVal"@);
    let head = "        "@ + prop_prefix(f.invkind) + "HRESULT "@ + f.name@ + " ("@ + join(
        param_decls(entries, f),
        ", "@,
    );
    assert(has_infix(out_param(entries, f), "* retVal"@));
    lemma_infix_extend(head, out_param(entries, f), Seq::empty(), "* retVal"@);
    lemma_infix_extend(Seq::empty(), head + out_param(entries, f), ");\n"@, "* retVal"@);
    assert(signature_line(entries, f) == head + out_param(entries, f) + ");\n"@);
    lemma_infix_extend(id_line(f), signature_line(entries, f), Seq::empty(), "* retVal"@);
}

} // verus!
