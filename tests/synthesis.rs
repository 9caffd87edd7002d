use tlbview::emit::{build_tlb, print_function, print_type_info};
use tlbview::idl::{get_function_info, resolve};
use tlbview::library::{get_library_name, Error, TypeLibInfo};
use tlbview::model::{
    CustomDatum, FuncDesc, Guid, ImplType, InvokeKind, Literal, ParamDesc, TypeDesc, TypeEntry, TypeKind,
    TypeLib, TypeRef, VarDesc,
};

fn guid(n: u32) -> Guid {
    Guid { data1: n, data2: 0, data3: 0, data4: 0xC000_0000_0000_0046 }
}

fn entry(name: &str, kind: TypeKind) -> TypeEntry {
    TypeEntry {
        name: name.to_string(),
        doc: String::new(),
        kind,
        guid: guid(1),
        major: 0,
        minor: 0,
        flags: 0,
        custom: Vec::new(),
        impls: Vec::new(),
        funcs: Vec::new(),
        vars: Vec::new(),
        alias_of: None,
    }
}

fn lib(entries: Vec<Option<TypeEntry>>) -> TypeLib {
    TypeLib {
        name: "SampleLib".to_string(),
        doc: "Sample library".to_string(),
        guid: guid(0x12345678),
        major: 1,
        minor: 2,
        custom: Vec::new(),
        entries,
    }
}

fn param(name: Option<&str>, ty: TypeDesc, flags: u16) -> ParamDesc {
    ParamDesc { name: name.map(|s| s.to_string()), ty, flags, default: None }
}

fn func(memid: i32, name: &str, invkind: InvokeKind, ret: TypeDesc, params: Vec<ParamDesc>) -> FuncDesc {
    FuncDesc { memid, name: name.to_string(), doc: String::new(), invkind, ret, params, dll_name: None }
}

fn long_ptr() -> TypeDesc {
    TypeDesc::Ptr(Box::new(TypeDesc::Prim(3)))
}

fn enum_value(name: &str, value: Option<i32>) -> Option<VarDesc> {
    Some(VarDesc { memid: 0, name: name.to_string(), ty: TypeDesc::Prim(3), value })
}

#[test]
fn enum_body_round_trip() {
    let mut e = entry("Name", TypeKind::Enum);
    e.vars = vec![enum_value("A", Some(1)), enum_value("B", Some(2))];
    let entries = vec![Some(e)];
    let mut out = String::new();
    print_type_info(&mut out, &entries, entries[0].as_ref().unwrap());
    assert!(out.contains("    enum Name {\n        A = 1,\n        B = 2,\n    };\n"));
    assert!(out.find("A = 1").unwrap() < out.find("B = 2").unwrap());
}

#[test]
fn enum_value_without_literal_has_trailing_comma_only() {
    let mut e = entry("Flags", TypeKind::Enum);
    e.vars = vec![enum_value("None", None), enum_value("Neg", Some(-5))];
    let entries = vec![Some(e)];
    let mut out = String::new();
    print_type_info(&mut out, &entries, entries[0].as_ref().unwrap());
    assert!(out.contains("        None,\n        Neg = -5,\n"));
}

#[test]
fn retval_normalization() {
    let f = func(1, "GetCount", InvokeKind::Func, TypeDesc::Prim(25), vec![param(Some("pCount"), long_ptr(), 2 | 8)]);
    let m = get_function_info(&Vec::new(), &f).unwrap();
    assert_eq!(m.params.len(), 0);
    assert_eq!(m.ret_type, "long");
    assert_eq!(m._invoke_kind, "func");
}

#[test]
fn retval_strips_exactly_one_pointer() {
    let ty = TypeDesc::Ptr(Box::new(TypeDesc::Ptr(Box::new(TypeDesc::Prim(8)))));
    let f = func(1, "Names", InvokeKind::PropGet, TypeDesc::Prim(25), vec![param(Some("p"), ty, 2 | 8)]);
    let m = get_function_info(&Vec::new(), &f).unwrap();
    assert_eq!(m.ret_type, "BSTR*");
    assert_eq!(m._invoke_kind, "propget");
}

#[test]
fn no_retval_keeps_declared_type() {
    let f = func(1, "Reset", InvokeKind::Func, TypeDesc::Prim(25), vec![param(Some("x"), TypeDesc::Prim(3), 1)]);
    let m = get_function_info(&Vec::new(), &f).unwrap();
    assert_eq!(m.ret_type, "HRESULT");
    assert_eq!(m.params.len(), 1);
    assert_eq!(m.params[0].flags, vec!["in".to_string()]);
}

#[test]
fn hidden_base_methods_are_skipped() {
    let f = func(0x6000_0000, "QueryInterface", InvokeKind::Func, TypeDesc::Prim(25), Vec::new());
    assert!(get_function_info(&Vec::new(), &f).is_none());
    let mut out = String::new();
    print_function(&mut out, &Vec::new(), &f);
    assert_eq!(out, "");
    let g = func(0x6002_0000, "Visible", InvokeKind::Func, TypeDesc::Prim(24), Vec::new());
    assert!(get_function_info(&Vec::new(), &g).is_some());
}

#[test]
fn retval_naming() {
    let f = func(
        0x10,
        "Compute",
        InvokeKind::Func,
        TypeDesc::Prim(25),
        vec![param(Some("val"), TypeDesc::Prim(3), 1), param(Some("pResult"), long_ptr(), 2 | 8)],
    );
    let mut out = String::new();
    print_function(&mut out, &Vec::new(), &f);
    assert_eq!(out, "        [id(0x00000010)]\n        HRESULT Compute ([in] long val, [out, retval] long* retVal);\n");
}

#[test]
fn retval_default_name_is_val() {
    let mut f = func(-1, "Item", InvokeKind::PropGet, TypeDesc::Prim(25), vec![param(None, long_ptr(), 2 | 8)]);
    f.doc = "The item".to_string();
    let mut out = String::new();
    print_function(&mut out, &Vec::new(), &f);
    assert_eq!(
        out,
        "        [id(0xffffffff), helpstring(\"The item\")]\n        [propget] HRESULT Item ([out, retval] long* val);\n"
    );
}

#[test]
fn unnamed_parameters_and_defaults() {
    let mut p0 = param(None, TypeDesc::Prim(3), 1 | 16 | 32);
    p0.default = Some(Literal::Long(5));
    let mut p1 = param(Some("s"), TypeDesc::Prim(8), 1 | 32);
    p1.default = Some(Literal::Text("x".to_string()));
    let mut p2 = param(Some("b"), TypeDesc::Prim(11), 32);
    p2.default = Some(Literal::Empty);
    let f = func(2, "Put", InvokeKind::PropPut, TypeDesc::Prim(24), vec![p0, p1, p2]);
    let mut out = String::new();
    print_function(&mut out, &Vec::new(), &f);
    assert!(out.contains(
        "[propput] HRESULT Put ([in, optional, defaultvalue(5)] long arg0, [in, defaultvalue(\"x\")] BSTR s, [defaultvalue] VARIANT_BOOL b);"
    ));
}

#[test]
fn type_resolution() {
    let mut color = entry("Color", TypeKind::Enum);
    color.vars = vec![enum_value("Red", Some(0))];
    let entries = vec![Some(color), Some(entry("Shape", TypeKind::Interface)), None];
    assert_eq!(resolve(&entries, &TypeDesc::Prim(99)), "TYPE_99");
    assert_eq!(resolve(&entries, &TypeDesc::Prim(24)), "void");
    assert_eq!(resolve(&entries, &TypeDesc::User(TypeRef::Local(0))), "enum Color");
    assert_eq!(
        resolve(&entries, &TypeDesc::Ptr(Box::new(TypeDesc::User(TypeRef::Local(1))))),
        "Shape*"
    );
    assert_eq!(resolve(&entries, &TypeDesc::User(TypeRef::Local(2))), "UnknownUserDefined");
    assert_eq!(resolve(&entries, &TypeDesc::User(TypeRef::Local(7))), "UnknownUserDefined");
    assert_eq!(resolve(&entries, &TypeDesc::User(TypeRef::Unresolved)), "UnknownUserDefined");
    let foreign = TypeRef::Foreign { name: "IDispatch".to_string(), kind: TypeKind::Dispatch };
    assert_eq!(resolve(&entries, &TypeDesc::Ptr(Box::new(TypeDesc::User(foreign)))), "IDispatch*");
}

#[test]
fn interface_body_with_attributes() {
    let mut e = entry("IShape", TypeKind::Dispatch);
    e.guid = Guid { data1: 0x00020400, data2: 0, data3: 0, data4: 0xC000_0000_0000_0046 };
    e.major = 1;
    e.minor = 0;
    e.doc = "A shape".to_string();
    e.flags = 0x40 | 0x1000 | 0x10;
    e.custom = vec![
        CustomDatum { guid: guid(7), value: Literal::Text("vendor".to_string()) },
        CustomDatum { guid: guid(8), value: Literal::Long(3) },
    ];
    e.impls = vec![ImplType {
        target: TypeRef::Foreign { name: "IDispatch".to_string(), kind: TypeKind::Interface },
        flags: 0,
    }];
    e.funcs = vec![
        Some(func(1, "Area", InvokeKind::PropGet, TypeDesc::Prim(5), Vec::new())),
        None,
        Some(func(0x6000_0001, "AddRef", InvokeKind::Func, TypeDesc::Prim(19), Vec::new())),
    ];
    let entries = vec![Some(e)];
    let mut out = String::new();
    print_type_info(&mut out, &entries, entries[0].as_ref().unwrap());
    let expected = "    [\n      uuid(00020400-0000-0000-C000-000000000046),\n      version(1.0),\n      helpstring(\"A shape\"),\n      hidden,\n      dual,\n      oleautomation,\n      custom(00000007-0000-0000-C000-000000000046, \"vendor\")\n    ]\n    interface IShape : IDispatch {\n        [id(0x00000001)]\n        [propget] HRESULT Area ([out, retval] double* val);\n    };\n\n";
    assert_eq!(out, expected);
}

#[test]
fn dispinterface_body_has_sections() {
    let mut e = entry("DEvents", TypeKind::Dispatch);
    e.vars = vec![Some(VarDesc { memid: 3, name: "Count".to_string(), ty: TypeDesc::Prim(3), value: None })];
    e.funcs = vec![Some(func(4, "Fire", InvokeKind::Func, TypeDesc::Prim(24), Vec::new()))];
    let entries = vec![Some(e)];
    let mut out = String::new();
    print_type_info(&mut out, &entries, entries[0].as_ref().unwrap());
    assert!(out.contains(
        "    dispinterface DEvents {\n    properties:\n        [id(0x00000003)] long Count;\n    methods:\n        [id(0x00000004)]\n        HRESULT Fire ();\n    };\n"
    ));
}

#[test]
fn coclass_body_marks_default_and_source() {
    let mut e = entry("Shape", TypeKind::CoClass);
    e.impls = vec![
        ImplType { target: TypeRef::Local(1), flags: 1 },
        ImplType { target: TypeRef::Local(2), flags: 3 },
        ImplType { target: TypeRef::Unresolved, flags: 1 },
    ];
    let entries = vec![Some(e), Some(entry("IShape", TypeKind::Interface)), Some(entry("DEvents", TypeKind::Dispatch))];
    let mut out = String::new();
    print_type_info(&mut out, &entries, entries[0].as_ref().unwrap());
    assert!(out.contains(
        "    coclass Shape {\n        [default] interface IShape;\n        [default] [source] interface DEvents;\n    };\n"
    ));
}

#[test]
fn record_module_alias_and_unknown_bodies() {
    let mut rec = entry("Point", TypeKind::Record);
    rec.vars = vec![
        Some(VarDesc { memid: 0, name: "x".to_string(), ty: TypeDesc::Prim(3), value: None }),
        Some(VarDesc { memid: 1, name: "y".to_string(), ty: TypeDesc::Prim(3), value: None }),
    ];
    let mut module = entry("Consts", TypeKind::Module);
    let mut f = func(5, "Helper", InvokeKind::Func, TypeDesc::Prim(24), Vec::new());
    f.dll_name = Some("helper.dll".to_string());
    module.funcs = vec![Some(f)];
    module.vars = vec![
        Some(VarDesc { memid: 0, name: "Max".to_string(), ty: TypeDesc::Prim(3), value: Some(10) }),
        Some(VarDesc { memid: 1, name: "NoValue".to_string(), ty: TypeDesc::Prim(3), value: None }),
    ];
    let mut alias = entry("Handle", TypeKind::Alias);
    alias.alias_of = Some(TypeDesc::Prim(3));
    let mut broken = entry("Broken", TypeKind::Alias);
    broken.alias_of = Some(TypeDesc::User(TypeRef::Unresolved));
    let entries = vec![
        Some(rec),
        Some(module),
        Some(alias),
        Some(broken),
        Some(entry("U", TypeKind::Union)),
        Some(entry("Odd", TypeKind::Other(42))),
    ];
    let text = |i: usize| {
        let mut out = String::new();
        print_type_info(&mut out, &entries, entries[i].as_ref().unwrap());
        out
    };
    assert_eq!(text(0), "    typedef struct tagPoint {\n        long x;\n        long y;\n    } Point;\n\n");
    assert_eq!(
        text(1),
        "    [\n      dllname(\"helper.dll\"),\n      uuid(00000001-0000-0000-C000-000000000046)\n    ]\n    module Consts {\n        const int Max = 10;\n    };\n\n"
    );
    assert_eq!(text(2), "    typedef long Handle;\n\n");
    assert_eq!(text(3), "\n");
    assert_eq!(text(4), "    // Unsupported type kind: TYPEKIND(7)\n\n");
    assert_eq!(text(5), "    // Unsupported type kind: TYPEKIND(42)\n\n");
}

#[test]
fn library_text_order() {
    let mut iface = entry("IShape", TypeKind::Interface);
    iface.funcs = vec![Some(func(1, "Draw", InvokeKind::Func, TypeDesc::Prim(24), Vec::new()))];
    let mut en = entry("Color", TypeKind::Enum);
    en.vars = vec![enum_value("Red", Some(0))];
    let l = lib(vec![Some(iface), Some(entry("DEvents", TypeKind::Dispatch)), Some(en), Some(entry("Shape", TypeKind::CoClass))]);
    let text = build_tlb(&l, "C:/libs/sample.tlb");
    assert!(text.starts_with(
        "// Decompilated from C:/libs/sample.tlb\n[\n  uuid(12345678-0000-0000-C000-000000000046),\n  version(1.2),\n  helpstring(\"Sample library\")\n]\nlibrary SampleLib\n{\n\n    interface IShape;\n    dispinterface DEvents;\n    coclass Shape;\n\n"
    ));
    assert!(text.ends_with("};\n"));
    let enum_at = text.find("enum Color {").unwrap();
    let iface_at = text.find("interface IShape {").unwrap();
    let coclass_at = text.find("coclass Shape {").unwrap();
    assert!(enum_at < iface_at && iface_at < coclass_at);
}

#[test]
fn every_readable_type_is_emitted_once() {
    let kinds = vec![
        ("IOne", TypeKind::Interface),
        ("DTwo", TypeKind::Dispatch),
        ("Three", TypeKind::CoClass),
        ("Four", TypeKind::Enum),
        ("Five", TypeKind::Record),
        ("Six", TypeKind::Module),
    ];
    let entries: Vec<Option<TypeEntry>> = kinds.iter().map(|(n, k)| Some(entry(n, *k))).collect();
    let text = build_tlb(&lib(entries), "x.tlb");
    for (open, _) in [
        ("interface IOne {", 0),
        ("dispinterface DTwo {", 0),
        ("coclass Three {", 0),
        ("enum Four {", 0),
        ("typedef struct tagFive {", 0),
        ("module Six {", 0),
    ] {
        assert_eq!(text.matches(open).count(), 1, "{}", open);
    }
}

#[test]
fn malformed_entry_resilience() {
    let mut entries: Vec<Option<TypeEntry>> = Vec::new();
    for i in 0..10 {
        if i == 2 {
            entries.push(None);
        } else {
            entries.push(Some(entry(&format!("IType{}", i), TypeKind::Interface)));
        }
    }
    let text = build_tlb(&lib(entries), "broken.tlb");
    for i in 0..10 {
        let body = format!("interface IType{} {{", i);
        if i == 2 {
            assert!(!text.contains(&body));
        } else {
            assert_eq!(text.matches(&body).count(), 1);
        }
    }
    assert_eq!(text.matches("    // Unreadable type entry 2\n").count(), 1);
    assert!(text.ends_with("};\n"));
}

#[test]
fn library_queries_and_errors() {
    let mut info = TypeLibInfo::new();
    assert_eq!(info.get_type_info_count(), 0);
    assert_eq!(info.get_type_name_and_kind(0).unwrap_err(), Error::TypeLibNotLoaded);
    let mut en = entry("Color", TypeKind::Enum);
    en.vars = vec![enum_value("Red", Some(0)), None, enum_value("Blue", Some(2))];
    let mut iface = entry("IShape", TypeKind::Interface);
    iface.funcs = vec![
        Some(func(1, "Draw", InvokeKind::Func, TypeDesc::Prim(24), Vec::new())),
        Some(func(0x6000_0002, "Release", InvokeKind::Func, TypeDesc::Prim(19), Vec::new())),
    ];
    info.load_type_lib(lib(vec![Some(en), None, Some(iface)]));
    assert_eq!(info.get_type_info_count(), 3);
    assert_eq!(info.get_type_name_and_kind(0).unwrap(), ("Color".to_string(), "Enum".to_string()));
    assert_eq!(info.get_type_name_and_kind(1).unwrap_err(), Error::TypeInfoUnavailable);
    assert_eq!(info.get_type_name_and_kind(9).unwrap_err(), Error::TypeInfoUnavailable);
    let enums = info.get_type_enums(0).unwrap();
    assert_eq!(enums.len(), 2);
    assert_eq!((enums[1].name.as_str(), enums[1].value.as_str()), ("Blue", "2"));
    let methods = info.get_type_methods(2).unwrap();
    assert_eq!(methods.len(), 1);
    assert_eq!(methods[0].name, "Draw");
    assert_eq!(info.get_type_enums(2).unwrap().len(), 0);
    assert!(info.get_type_idl(2).unwrap().contains("interface IShape {"));
}

#[test]
fn library_name() {
    assert_eq!(get_library_name(&lib(Vec::new())), "SampleLib");
}

#[test]
fn retval_of_status_type_stays_as_output_parameter() {
    let hresult_ptr = TypeDesc::Ptr(Box::new(TypeDesc::Prim(25)));
    let f = func(3, "LastError", InvokeKind::Func, TypeDesc::Prim(25), vec![param(Some("pErr"), hresult_ptr, 2 | 8)]);
    let mut out = String::new();
    print_function(&mut out, &Vec::new(), &f);
    assert!(out.ends_with("        HRESULT LastError ([out, retval] HRESULT* val);\n"));
    let void_ptr = TypeDesc::Ptr(Box::new(TypeDesc::Prim(24)));
    let g = func(
        4,
        "Handle",
        InvokeKind::PropGet,
        TypeDesc::Prim(25),
        vec![param(Some("Val"), TypeDesc::Prim(3), 1), param(Some("p"), void_ptr, 2 | 8)],
    );
    let mut out = String::new();
    print_function(&mut out, &Vec::new(), &g);
    assert!(out.ends_with("[propget] HRESULT Handle ([in] long Val, [out, retval] void* retVal);\n"));
}
