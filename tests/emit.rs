use win32ole::emit::{
    build, guid_to_literal, sanitize_reserved, strip_tag_prefix, union_storage_type,
    vartype_mutator,
};
use win32ole::error::Error;
use win32ole::model::{
    ConstValue, FuncDesc, Guid, ImplType, OleTypeData, OleTypeLibData, ParamDesc, RefEntry,
    TypeDesc, TypeKind, VarDesc, FUNC_DISPATCH, FUNC_PUREVIRTUAL, FUNC_STATIC, IMPLTYPEFLAG_FDEFAULT,
    INVOKE_FUNC, INVOKE_PROPERTYGET, PARAMFLAG_FIN, PARAMFLAG_FOUT, PARAMFLAG_FRETVAL,
    TYPE_E_CANTLOADLIBRARY, TYPE_E_ELEMENTNOTFOUND, VAR_CONST, VAR_PERINSTANCE, VT_BOOL, VT_BSTR,
    VT_BYREF, VT_DISPATCH, VT_HRESULT, VT_I2, VT_I4, VT_R8, VT_VARIANT, VT_VOID,
};

fn guid(n: u32) -> Guid {
    Guid { data1: n, data2: 0x1234, data3: 0xabcd, data4: [1, 2, 3, 4, 5, 6, 7, 0xff] }
}

fn record(name: &str, kind: TypeKind) -> OleTypeData {
    OleTypeData {
        name: name.to_string(),
        help_string: String::new(),
        help_context: 0,
        help_file: String::new(),
        kind,
        guid: guid(0x00020400),
        major_version: 1,
        minor_version: 0,
        type_flags: 0,
        size_instance: 4,
        alignment: 4,
        size_vft: 0,
        alias: TypeDesc::Base(VT_VOID),
        functions: vec![],
        variables: vec![],
        impl_types: vec![],
        refs: vec![],
        dual: Err(TYPE_E_ELEMENTNOTFOUND),
    }
}

fn var(name: &str, tdesc: TypeDesc, value: Option<ConstValue>) -> Result<VarDesc, i32> {
    Ok(VarDesc {
        name: name.to_string(),
        help_string: String::new(),
        help_context: 0,
        help_file: String::new(),
        memid: 0,
        varkind: if value.is_some() { VAR_CONST } else { VAR_PERINSTANCE },
        flags: 0,
        tdesc,
        value,
    })
}

fn library(entries: Vec<Result<usize, i32>>, records: Vec<OleTypeData>) -> OleTypeLibData {
    OleTypeLibData {
        name: String::new(),
        library_name: "Lib".to_string(),
        guid: guid(1),
        major_version: 1,
        minor_version: 0,
        lcid: 0,
        syskind: 3,
        lib_flags: 0,
        records,
        entries,
    }
}

fn method(name: &str, invkind: u32, funckind: u32, params: Vec<(&str, TypeDesc, u16)>) -> FuncDesc {
    let mut names = vec![name.to_string()];
    let mut descs = vec![];
    for (p, tdesc, flags) in params {
        names.push(p.to_string());
        descs.push(ParamDesc { tdesc, flags });
    }
    FuncDesc {
        name: name.to_string(),
        help_string: String::new(),
        help_context: 0,
        help_file: String::new(),
        memid: 7,
        funckind,
        invkind,
        params: descs,
        names,
        opt_params: 0,
        ret: TypeDesc::Base(VT_HRESULT),
        vft_offset: 24,
    }
}

#[test]
fn reserved_member_names() {
    assert_eq!(sanitize_reserved("type"), "type_");
    assert_eq!(sanitize_reserved("impl"), "impl_");
    assert_eq!(sanitize_reserved("Type"), "Type");
    assert_eq!(sanitize_reserved("value"), "value");
}

#[test]
fn tag_word_is_stripped() {
    assert_eq!(strip_tag_prefix("tagCOLOR"), "COLOR");
    assert_eq!(strip_tag_prefix("Color"), "Color");
    assert_eq!(strip_tag_prefix("tagAtagB"), "AtagB");
    assert_eq!(strip_tag_prefix("Stage"), "Stage");
    assert_eq!(strip_tag_prefix("tag"), "");
    assert_eq!(strip_tag_prefix("ta"), "ta");
    assert_eq!(strip_tag_prefix(""), "");
}

#[test]
fn identifier_literal() {
    let g = Guid { data1: 0x00020400, data2: 0, data3: 0, data4: [0xc0, 0, 0, 0, 0, 0, 0, 0x46] };
    assert_eq!(guid_to_literal(&g), "0x00020400_0000_0000_c000_000000000046");
    assert_eq!(guid_to_literal(&guid(0xdeadbeef)), "0xdeadbeef_1234_abcd_0102_0304050607ff");
}

#[test]
fn union_storage_width() {
    assert_eq!(union_storage_type(4, 4).unwrap(), "u32");
    assert_eq!(union_storage_type(12, 4).unwrap(), "[u32; 3]");
    assert_eq!(union_storage_type(10, 8).unwrap(), "[u64; 2]");
    assert_eq!(union_storage_type(8, 8).unwrap(), "u64");
    assert!(matches!(union_storage_type(8, 2), Err(Error::Custom(_))));
    assert!(matches!(union_storage_type(0, 4), Err(Error::Custom(_))));
}

#[test]
fn variant_mutators() {
    let mut enum_rec = record("Color", TypeKind::Enum);
    enum_rec.size_instance = 4;
    let mut owner = record("IFoo", TypeKind::Dispatch);
    owner.refs = vec![RefEntry { href: 3, target: Ok(1) }];
    let lib = library(vec![Ok(0)], vec![owner, enum_rec]);
    let owner = &lib.records[0];
    let (vt, text) = vartype_mutator(&TypeDesc::Base(VT_I4), "count", owner, &lib).unwrap();
    assert_eq!(vt, VT_I4);
    assert_eq!(text, ".Anonymous.Anonymous.Anonymous.lVal = count");
    let (vt, text) = vartype_mutator(&TypeDesc::Base(VT_VARIANT), "v", owner, &lib).unwrap();
    assert_eq!(vt, VT_VARIANT);
    assert_eq!(text, " = *(&v as *const _ as *mut _)");
    let by_ref = TypeDesc::Ptr(Box::new(TypeDesc::Base(VT_BOOL)));
    let (vt, text) = vartype_mutator(&by_ref, "flag", owner, &lib).unwrap();
    assert_eq!(vt, VT_BOOL | VT_BYREF);
    assert_eq!(text, ".Anonymous.Anonymous.Anonymous.pboolVal = flag");
    let var_ref = TypeDesc::Ptr(Box::new(TypeDesc::Base(VT_VARIANT)));
    let (vt, text) = vartype_mutator(&var_ref, "p", owner, &lib).unwrap();
    assert_eq!(vt, VT_VARIANT | VT_BYREF);
    assert_eq!(text, ".Anonymous.Anonymous.Anonymous.pvarVal = p");
    let obj = TypeDesc::Ptr(Box::new(TypeDesc::UserDefined(3)));
    assert_eq!(vartype_mutator(&obj, "o", owner, &lib).unwrap().0, VT_DISPATCH);
    let (vt, text) = vartype_mutator(&TypeDesc::UserDefined(3), "c", owner, &lib).unwrap();
    assert_eq!(vt, VT_I4);
    assert_eq!(text, ".Anonymous.Anonymous.Anonymous.lVal = c");
    assert!(vartype_mutator(&TypeDesc::Base(VT_R8), "x", owner, &lib).is_err());
    assert!(vartype_mutator(&TypeDesc::UserDefined(4), "x", owner, &lib).is_err());
}

#[test]
fn build_emits_enum_and_counts_entries() {
    let mut color = record("tagCOLOR", TypeKind::Enum);
    color.variables = vec![
        var("Red", TypeDesc::Base(VT_I4), Some(ConstValue::I4(0))),
        var("Blue", TypeDesc::Base(VT_I4), Some(ConstValue::I4(-2))),
    ];
    let lib = library(vec![Ok(0), Err(TYPE_E_CANTLOADLIBRARY)], vec![color]);
    let mut out = String::new();
    let r = build(&lib, false, &mut out).unwrap();
    assert_eq!(r.num_types_not_found, 1);
    assert_eq!(r.num_missing_types, 0);
    assert_eq!(
        out,
        "pub struct COLOR(pub i32);\npub const Red: COLOR = COLOR(0i32);\npub const Blue: COLOR = COLOR(-2i32);\n\n"
    );
}

#[test]
fn build_stops_on_other_entry_failures() {
    let lib = library(vec![Err(TYPE_E_ELEMENTNOTFOUND)], vec![]);
    let mut out = String::new();
    assert!(matches!(build(&lib, false, &mut out), Err(Error::Windows(h)) if h == TYPE_E_ELEMENTNOTFOUND));
}

#[test]
fn build_emits_record_alias_and_union() {
    let mut point = record("tagPOINT", TypeKind::Record);
    point.variables = vec![
        var("x", TypeDesc::Base(VT_I4), None),
        var("type", TypeDesc::UserDefined(5), None),
    ];
    point.refs = vec![RefEntry { href: 5, target: Err(TYPE_E_CANTLOADLIBRARY) }];
    let mut alias = record("LONG_PTR", TypeKind::Alias);
    alias.alias = TypeDesc::Base(VT_I4);
    let mut un = record("VALUE", TypeKind::Union);
    un.size_instance = 12;
    un.alignment = 4;
    un.variables = vec![var("i", TypeDesc::Base(VT_I2), None)];
    let lib = library(vec![Ok(0), Ok(1), Ok(2)], vec![point, alias, un]);
    let mut out = String::new();
    let r = build(&lib, false, &mut out).unwrap();
    assert_eq!(r.num_missing_types, 1);
    assert!(out.starts_with("#[repr(C)]\npub struct POINT {\n    pub x: i32,\n    pub type_: __missing_type__,\n}\n"));
    assert!(out.contains(".field(\"x\", &self.x).field(\"type_\", &self.type_).finish()"));
    assert!(out.contains("pub type LONG_PTR = i32;\n\n"));
    assert!(out.contains("UNION2!{union VALUE {\n    [u32; 3],\n    i i_mut: i16,\n}}\n\n"));
}

#[test]
fn build_emits_interface_after_parents() {
    let mut unknown = record("IUnknown", TypeKind::Interface);
    unknown.size_vft = 24;
    unknown.functions = vec![Ok(FuncDesc {
        vft_offset: 0,
        ..method("QueryInterface", INVOKE_FUNC, FUNC_PUREVIRTUAL, vec![])
    })];
    let mut foo = record("IFoo", TypeKind::Interface);
    foo.impl_types = vec![Ok(ImplType { flags: 0, href: 1 })];
    foo.refs = vec![RefEntry { href: 1, target: Ok(0) }];
    foo.functions = vec![
        Ok(method(
            "Open",
            INVOKE_FUNC,
            FUNC_PUREVIRTUAL,
            vec![("path", TypeDesc::Base(VT_BSTR), PARAMFLAG_FIN)],
        )),
        Ok(method(
            "Name",
            INVOKE_PROPERTYGET,
            FUNC_PUREVIRTUAL,
            vec![("value", TypeDesc::Ptr(Box::new(TypeDesc::Base(VT_BSTR))), PARAMFLAG_FOUT | PARAMFLAG_FRETVAL)],
        )),
    ];
    let lib = library(vec![Ok(1)], vec![unknown, foo]);
    let mut out = String::new();
    build(&lib, false, &mut out).unwrap();
    assert!(out.starts_with("unsafe impl ::windows::core::Interface for IFoo {\n    const IID: ::windows::core::GUID = ::windows::core::GUID::from_u128(0x00020400_1234_abcd_0102_03040506"));
    assert!(out.contains("interface IFoo(IFooVtbl): IUnknown(IUnknownVtbl) {\n"));
    assert!(out.contains("    fn Open(\n        path: ::windows::core::PWSTR,\n    ) -> ::windows::core::HRESULT,\n"));
    assert!(out.contains("    fn get_Name(\n        value: *mut ::windows::core::PWSTR,\n    ) -> ::windows::core::HRESULT,\n"));
    assert!(!out.contains("QueryInterface"));
    assert!(out.ends_with("}}\n\n"));
}

#[test]
fn build_skips_dispatch_interfaces_unless_asked() {
    let mut idispatch = record("IDispatch", TypeKind::Interface);
    idispatch.size_vft = 56;
    let mut events = record("Events", TypeKind::Dispatch);
    events.impl_types = vec![Ok(ImplType { flags: IMPLTYPEFLAG_FDEFAULT, href: 1 })];
    events.refs = vec![RefEntry { href: 1, target: Ok(0) }];
    events.functions = vec![Ok(FuncDesc {
        vft_offset: 0,
        ..method(
            "Fire",
            INVOKE_FUNC,
            FUNC_DISPATCH,
            vec![
                ("a", TypeDesc::Base(VT_I4), PARAMFLAG_FIN),
                ("b", TypeDesc::Base(VT_BSTR), PARAMFLAG_FIN),
            ],
        )
    })];
    let mut dual = record("IDual", TypeKind::Dispatch);
    dual.dual = Ok(3);
    let iface = record("IDualVtbl", TypeKind::Interface);
    let lib = library(vec![Ok(1), Ok(2)], vec![idispatch, events, dual, iface]);

    let mut out = String::new();
    let r = build(&lib, false, &mut out).unwrap();
    assert_eq!(r.skipped_dispinterfaces, vec!["Events".to_string()]);
    assert_eq!(r.skipped_dispinterface_of_dual_interfaces, vec!["IDual".to_string()]);
    assert!(out.contains("interface IDualVtbl(IDualVtblVtbl) {\n"));
    assert!(!out.contains("Fire"));

    let mut out = String::new();
    let r = build(&lib, true, &mut out).unwrap();
    assert!(r.skipped_dispinterfaces.is_empty());
    assert!(out.contains("    pub unsafe fn Fire(\n        &self,\n        a: i32,\n        b: ::windows::core::PWSTR,\n"));
    let b_pos = out.find("bstrVal = b").unwrap();
    let a_pos = out.find("lVal = a").unwrap();
    assert!(b_pos < a_pos);
    assert!(out.contains("let mut args: [VARIANT; 2] = ["));
    assert!(out.contains("/* dispIdMember */ 7,"));
    assert!(out.contains("cArgs: 2,"));
}

#[test]
fn build_output_of_simple_blocks_is_exact() {
    let mut iface = record("IFoo", TypeKind::Interface);
    iface.guid = Guid { data1: 1, data2: 2, data3: 3, data4: [4, 5, 6, 7, 8, 9, 10, 11] };
    let mut class = record("Foo", TypeKind::Coclass);
    class.guid = iface.guid;
    class.impl_types = vec![Ok(ImplType { flags: IMPLTYPEFLAG_FDEFAULT, href: 1 })];
    class.refs = vec![RefEntry { href: 1, target: Ok(0) }];
    let mut alias = record("HANDLE", TypeKind::Alias);
    alias.alias = TypeDesc::Ptr(Box::new(TypeDesc::Base(VT_VOID)));
    let lib = library(vec![Ok(1), Err(TYPE_E_CANTLOADLIBRARY), Ok(2)], vec![iface, class, alias]);
    let mut out = "// head\n".to_string();
    let r = build(&lib, false, &mut out).unwrap();
    assert_eq!(
        out,
        "// head\n// Implements IFoo\nunsafe impl ::windows::core::Interface for Foo {\n    const IID: ::windows::core::GUID = ::windows::core::GUID::from_u128(0x00000001_0002_0003_0405_060708090a0b);\n}\nclass Foo; }\n\npub type HANDLE = *mut c_void;\n\n"
    );
    assert_eq!(r.num_types_not_found, 1);
}

#[test]
fn missing_type_count_stops_at_the_largest_value() {
    let mut owner = record("IFoo", TypeKind::Interface);
    owner.refs = vec![RefEntry { href: 2, target: Err(TYPE_E_CANTLOADLIBRARY) }];
    let lib = library(vec![Ok(0)], vec![owner]);
    let mut br = win32ole::emit::BuildResult {
        num_missing_types: usize::MAX,
        num_types_not_found: 0,
        skipped_dispinterfaces: vec![],
        skipped_dispinterface_of_dual_interfaces: vec![],
    };
    let s = win32ole::emit::type_to_string(&TypeDesc::UserDefined(2), 0, &lib.records[0], &lib, &mut br);
    assert_eq!(s.unwrap(), "__missing_type__");
    assert_eq!(br.num_missing_types, usize::MAX);
}

#[test]
fn build_emits_module_functions() {
    let mut module = record("Kernel", TypeKind::Module);
    module.functions = vec![Ok(method(
        "Beep",
        INVOKE_FUNC,
        FUNC_STATIC,
        vec![("type", TypeDesc::Base(VT_I4), PARAMFLAG_FIN)],
    ))];
    let lib = library(vec![Ok(0)], vec![module]);
    let mut out = String::new();
    build(&lib, false, &mut out).unwrap();
    assert_eq!(
        out,
        "extern \"system\" pub fn Beep(\n    type_: i32,\n) -> ::windows::core::HRESULT,\n\n\n"
    );
    let mut virtual_module = record("Bad", TypeKind::Module);
    virtual_module.functions =
        vec![Ok(method("Beep", INVOKE_FUNC, FUNC_PUREVIRTUAL, vec![]))];
    let bad = library(vec![Ok(0)], vec![virtual_module]);
    assert!(matches!(build(&bad, false, &mut String::new()), Err(Error::Custom(_))));
}

#[test]
fn build_synthesizes_property_accessors() {
    let mut iface = record("IShape", TypeKind::Interface);
    iface.variables = vec![var("Width", TypeDesc::Base(VT_I4), None)];
    let lib = library(vec![Ok(0)], vec![iface]);
    let mut out = String::new();
    build(&lib, false, &mut out).unwrap();
    assert!(out.ends_with(
        "interface IShape(IShapeVtbl) {\n    fn get_Width(\n        value: *mut i32,\n    ) -> ::windows::core::HRESULT,\n    fn put_Width(\n        value: i32,\n    ) -> ::windows::core::HRESULT,\n}}\n\n"
    ));
}

#[test]
fn dispatch_property_wrappers() {
    let mut idispatch = record("IDispatch", TypeKind::Interface);
    idispatch.size_vft = 56;
    let mut shape = record("Shape", TypeKind::Dispatch);
    shape.impl_types = vec![Ok(ImplType { flags: 0, href: 1 })];
    shape.refs = vec![RefEntry { href: 1, target: Ok(0) }];
    shape.variables = vec![Ok(VarDesc {
        memid: 4,
        ..var("Visible", TypeDesc::Base(VT_BOOL), None).unwrap()
    })];
    let lib = library(vec![Ok(1)], vec![idispatch, shape]);
    let mut out = String::new();
    build(&lib, true, &mut out).unwrap();
    assert!(out.contains("    pub unsafe fn get_Visible(\n    ) -> (HRESULT, VARIANT, EXCEPINFO, UINT) {\n"));
    assert!(out.contains("    pub unsafe fn put_Visible(\n        value: VARIANT_BOOL,\n"));
    assert!(out.contains(".boolVal = value; v },\n        ];\n\n"));
    assert!(out.contains("/* dispIdMember */ 4,\n"));
    assert!(out.contains("/* wFlags */ DISPATCH_PROPERTYPUT,\n"));
    assert!(out.ends_with("}\n\n"));
    let mut lonely = lib;
    lonely.records[1].impl_types = vec![];
    assert!(matches!(build(&lonely, true, &mut String::new()), Err(Error::Custom(_))));
}

#[test]
fn enum_names_lose_only_a_leading_tag() {
    let mut color = record("tagColor", TypeKind::Enum);
    color.variables = vec![var("RED", TypeDesc::Base(VT_I4), Some(ConstValue::I4(1)))];
    let mut stage = record("Stage", TypeKind::Enum);
    stage.variables = vec![var("EARLY", TypeDesc::Base(VT_I4), Some(ConstValue::I4(0)))];
    let lib = library(vec![Ok(0), Ok(1)], vec![color, stage]);
    let mut out = String::new();
    build(&lib, false, &mut out).unwrap();
    assert!(out.contains("pub struct Color(pub i32);\npub const RED: Color = Color(1i32);\n"));
    assert!(out.contains("pub struct Stage(pub i32);\npub const EARLY: Stage = Stage(0i32);\n"));
}
