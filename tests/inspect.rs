use win32ole::error::Error;
use win32ole::inspect::{ole_method_help, ole_methods_from_typeinfo, OleMethodData, OleParamData};
use win32ole::model::{
    ConstValue, FuncDesc, Guid, ImplType, OleTypeData, OleTypeLibData, ParamDesc, RefEntry,
    TypeDesc, TypeKind, VarDesc, FUNC_DISPATCH, IMPLTYPEFLAG_FDEFAULT, IMPLTYPEFLAG_FSOURCE,
    INVOKE_ALL, INVOKE_FUNC, INVOKE_PROPERTYGET, INVOKE_PROPERTYPUT, PARAMFLAG_FIN,
    PARAMFLAG_FOUT, PARAMFLAG_FRETVAL, TYPE_E_CANTLOADLIBRARY, TYPE_E_ELEMENTNOTFOUND,
    TYPEFLAG_FHIDDEN, VAR_CONST, VARFLAG_FHIDDEN, VT_BSTR, VT_HRESULT, VT_I4, VT_VOID,
};
use win32ole::typelib::{
    find_coclass, find_default_source, find_default_source_from_typeinfo, find_iid,
    oleclass_from_typelib, E_NOINTERFACE,
};

fn guid(n: u32) -> Guid {
    Guid { data1: n, data2: 0, data3: 0, data4: [0, 0, 0, 0, 0, 0, 0, n as u8] }
}

fn func(name: &str, invkind: u32, params: Vec<(&str, u16)>) -> FuncDesc {
    let mut names = vec![name.to_string()];
    let mut descs = vec![];
    for (p, flags) in params {
        names.push(p.to_string());
        descs.push(ParamDesc { tdesc: TypeDesc::Base(VT_I4), flags });
    }
    FuncDesc {
        name: name.to_string(),
        help_string: String::new(),
        help_context: 0,
        help_file: String::new(),
        memid: 1,
        funckind: FUNC_DISPATCH,
        invkind,
        params: descs,
        names,
        opt_params: 0,
        ret: TypeDesc::Base(VT_HRESULT),
        vft_offset: 0,
    }
}

fn record(name: &str, kind: TypeKind, n: u32) -> OleTypeData {
    OleTypeData {
        name: name.to_string(),
        help_string: String::new(),
        help_context: 0,
        help_file: String::new(),
        kind,
        guid: guid(n),
        major_version: 1,
        minor_version: 0,
        type_flags: 0,
        size_instance: 4,
        alignment: 4,
        size_vft: 0,
        alias: TypeDesc::Base(VT_VOID),
        functions: vec![],
        variables: vec![],
        impl_types: vec![],
        refs: vec![],
        dual: Err(TYPE_E_ELEMENTNOTFOUND),
    }
}

/// Slot 0: coclass `App`, implementing `IApp` (default, slot 2) and
/// `AppEvents` (default source, slot 1). Entry 3 failed to load.
fn library(source_flag: bool) -> OleTypeLibData {
    let mut app = record("App", TypeKind::Coclass, 10);
    let src = if source_flag { IMPLTYPEFLAG_FSOURCE | IMPLTYPEFLAG_FDEFAULT } else { IMPLTYPEFLAG_FDEFAULT };
    app.impl_types = vec![
        Ok(ImplType { flags: IMPLTYPEFLAG_FDEFAULT, href: 100 }),
        Ok(ImplType { flags: src, href: 101 }),
        Err(TYPE_E_CANTLOADLIBRARY),
    ];
    app.refs = vec![
        RefEntry { href: 100, target: Ok(2) },
        RefEntry { href: 101, target: Ok(1) },
    ];
    let mut events = record("AppEvents", TypeKind::Dispatch, 11);
    events.functions = vec![Ok(func("OnClick", INVOKE_FUNC, vec![("x", PARAMFLAG_FIN)]))];
    let mut iapp = record("IApp", TypeKind::Dispatch, 12);
    iapp.functions = vec![
        Ok(func("Run", INVOKE_FUNC, vec![("a", PARAMFLAG_FIN), ("b", PARAMFLAG_FIN | PARAMFLAG_FOUT)])),
        Err(TYPE_E_ELEMENTNOTFOUND),
        Ok(func("Name", INVOKE_PROPERTYGET, vec![("value", PARAMFLAG_FOUT | PARAMFLAG_FRETVAL)])),
        Ok(func("Name", INVOKE_PROPERTYPUT, vec![("value", PARAMFLAG_FIN)])),
    ];
    iapp.variables = vec![
        Ok(VarDesc {
            name: "Count".to_string(),
            help_string: String::new(),
            help_context: 0,
            help_file: String::new(),
            memid: 5,
            varkind: VAR_CONST,
            flags: 0,
            tdesc: TypeDesc::Base(VT_I4),
            value: Some(ConstValue::I4(3)),
        }),
        Err(TYPE_E_ELEMENTNOTFOUND),
        Ok(VarDesc {
            name: "Secret".to_string(),
            help_string: String::new(),
            help_context: 0,
            help_file: String::new(),
            memid: 6,
            varkind: 9,
            flags: VARFLAG_FHIDDEN,
            tdesc: TypeDesc::Base(VT_BSTR),
            value: None,
        }),
    ];
    OleTypeLibData {
        name: "App Library".to_string(),
        library_name: "AppLib".to_string(),
        guid: guid(1),
        major_version: 1,
        minor_version: 2,
        lcid: 0,
        syskind: 3,
        lib_flags: 0,
        records: vec![app, events, iapp],
        entries: vec![Ok(0), Ok(1), Ok(2), Err(TYPE_E_CANTLOADLIBRARY)],
    }
}

fn names(methods: &[OleMethodData]) -> Vec<String> {
    methods.iter().map(|m| m.name().to_string()).collect()
}

#[test]
fn parameters_are_reindexed_from_zero() {
    let lib = library(true);
    let run = OleMethodData::from_typeinfo(&lib, 2, "Run").unwrap();
    let params = run.params(&lib);
    assert_eq!(params.len(), 2);
    assert_eq!(params[0].name(), "a");
    assert_eq!(params[0].index(), 0);
    assert!(params[0].input());
    assert!(!params[0].output());
    assert_eq!(params[1].name(), "b");
    assert_eq!(params[1].index(), 1);
    assert!(params[1].input() && params[1].output());
    assert!(!params[1].optional() && !params[1].retval());
    assert_eq!(params[1].method_index(), 0);
    assert_eq!(params[0].ole_type(&lib), "I4");
    assert_eq!(params[0].ole_type_detail(&lib), vec!["I4".to_string()]);
}

#[test]
fn parameters_follow_the_name_list_when_it_is_short() {
    let mut lib = library(true);
    if let Ok(f) = &mut lib.records[2].functions[0] {
        f.names.truncate(2);
    }
    let run = OleMethodData::from_typeinfo(&lib, 2, "Run").unwrap();
    let params = run.params(&lib);
    assert_eq!(params.len(), 1);
    assert_eq!(params[0].name(), "a");
    let get = OleMethodData::from_typeinfo(&lib, 2, "Name").unwrap();
    let p = get.params(&lib);
    assert_eq!(p.len(), 1);
    assert!(p[0].retval());
}

#[test]
fn event_needs_the_source_flag() {
    let lib = library(true);
    let methods = ole_methods_from_typeinfo(&lib, 0, INVOKE_ALL);
    let click = methods.iter().find(|m| m.name() == "OnClick").unwrap();
    assert!(click.is_event(&lib));
    assert_eq!(click.event_interface(&lib), Some("AppEvents".to_string()));
    let run = methods.iter().find(|m| m.name() == "Run").unwrap();
    assert!(!run.is_event(&lib));
    assert_eq!(run.event_interface(&lib), None);

    let lib = library(false);
    let methods = ole_methods_from_typeinfo(&lib, 0, INVOKE_ALL);
    let click = methods.iter().find(|m| m.name() == "OnClick").unwrap();
    assert!(!click.is_event(&lib));
}

#[test]
fn method_found_directly_is_no_event() {
    let lib = library(true);
    let own = OleMethodData::from_typeinfo(&lib, 1, "OnClick").unwrap();
    assert_eq!(own.owner, None);
    assert!(!own.is_event(&lib));
}

#[test]
fn methods_list_own_then_implemented_by_kind() {
    let lib = library(true);
    let all = ole_methods_from_typeinfo(&lib, 0, INVOKE_ALL);
    assert_eq!(names(&all), vec!["Run", "Name", "Name", "OnClick"]);
    assert!(all.iter().all(|m| m.owner == Some(0)));
    assert_eq!(all[0].record, 2);
    assert_eq!(all[1].index(), 2);
    let gets = ole_methods_from_typeinfo(&lib, 2, INVOKE_PROPERTYGET);
    assert_eq!(names(&gets), vec!["Name"]);
    assert_eq!(gets[0].owner, None);
    assert_eq!(gets[0].invoke_kind(&lib), "PROPERTYGET");
    let puts_and_calls = ole_methods_from_typeinfo(&lib, 2, INVOKE_FUNC | INVOKE_PROPERTYPUT);
    assert_eq!(names(&puts_and_calls), vec!["Run", "Name"]);
    assert_eq!(puts_and_calls[1].invoke_kind(&lib), "PROPERTYPUT");
    assert_eq!(puts_and_calls[0].invoke_kind(&lib), "FUNC");
    assert_eq!(puts_and_calls[0].size_params(&lib), 2);
    assert_eq!(puts_and_calls[0].return_type(&lib), "HRESULT");
    assert_eq!(puts_and_calls[0].return_type_detail(&lib), vec!["HRESULT".to_string()]);
}

#[test]
fn lookup_by_name_searches_one_level() {
    let lib = library(true);
    let run = OleMethodData::from_typeinfo(&lib, 0, "Run").unwrap();
    assert_eq!(run.owner, Some(0));
    assert_eq!(run.record, 2);
    assert_eq!(run.index(), 0);
    assert!(OleMethodData::from_typeinfo(&lib, 0, "run").is_none());
    assert!(OleMethodData::from_typeinfo(&lib, 0, "Missing").is_none());
    let name = OleMethodData::from_typeinfo(&lib, 2, "Name").unwrap();
    assert_eq!(name.index(), 2);
}

#[test]
fn implemented_types_filtered_by_flags() {
    let lib = library(true);
    let app = &lib.records[0];
    assert_eq!(app.implemented_ole_types(&lib), vec![2, 1]);
    assert_eq!(app.source_ole_types(&lib), vec![1]);
    assert_eq!(app.default_ole_types(&lib), vec![2, 1]);
    assert_eq!(app.default_event_sources(&lib), vec![1]);
    let lib = library(false);
    assert_eq!(lib.records[0].source_ole_types(&lib), Vec::<usize>::new());
}

#[test]
fn variables_keep_failed_entries_in_place() {
    let lib = library(true);
    let iapp = &lib.records[2];
    let vars = iapp.variables();
    assert_eq!(vars.len(), 3);
    let count = vars[0].as_ref().unwrap();
    assert_eq!(count.name(), "Count");
    assert_eq!(count.member_id(), 5);
    assert_eq!(count.variable_kind(), "CONSTANT");
    assert!(count.visible());
    assert_eq!(count.ole_type(&lib, iapp), "I4");
    assert!(matches!(vars[1], Err(Error::Windows(h)) if h == TYPE_E_ELEMENTNOTFOUND));
    let secret = vars[2].as_ref().unwrap();
    assert_eq!(secret.variable_kind(), "UNKNOWN");
    assert!(!secret.visible());
    assert_eq!(secret.ole_type_detail(&lib, iapp), vec!["BSTR".to_string()]);
}

#[test]
fn enumeration_keeps_every_entry_in_order() {
    let mut lib = library(true);
    lib.entries = vec![Ok(0), Ok(1), Err(TYPE_E_CANTLOADLIBRARY), Ok(2), Ok(0)];
    let types = lib.ole_types();
    assert_eq!(types.len(), 5);
    assert_eq!(types.iter().filter(|t| t.is_ok()).count(), 4);
    assert!(matches!(types[0], Ok(0)));
    assert!(matches!(types[1], Ok(1)));
    assert!(matches!(types[2], Err(Error::Windows(h)) if h == TYPE_E_CANTLOADLIBRARY));
    assert!(matches!(types[3], Ok(2)));
    assert!(matches!(types[4], Ok(0)));
    assert_eq!(lib.num_type_entries(), 5);
}

#[test]
fn dual_interface_companion() {
    let mut lib = library(true);
    assert!(matches!(lib.records[2].get_interface_of_dispinterface(), Ok(None)));
    lib.records[2].dual = Ok(1);
    assert!(matches!(lib.records[2].get_interface_of_dispinterface(), Ok(Some(1))));
    lib.records[2].dual = Err(TYPE_E_CANTLOADLIBRARY);
    assert!(matches!(
        lib.records[2].get_interface_of_dispinterface(),
        Err(Error::Windows(h)) if h == TYPE_E_CANTLOADLIBRARY
    ));
}

#[test]
fn record_accessors() {
    let mut lib = library(true);
    lib.records[0].help_string = "The application".to_string();
    lib.records[0].help_context = 12;
    lib.records[0].help_file = "app.chm".to_string();
    assert_eq!(
        lib.records[0].get_documentation(),
        ("App".to_string(), "The application".to_string(), 12, "app.chm".to_string())
    );
    assert_eq!(lib.records[0].helpstring(), "The application");
    assert_eq!(lib.records[0].helpfile(), "app.chm");
    assert_eq!(lib.records[0].helpcontext(), 12);
    if let Ok(f) = &mut lib.records[2].functions[0] {
        f.help_string = "Runs it".to_string();
        f.help_context = 3;
    }
    let run = OleMethodData::from_typeinfo(&lib, 2, "Run").unwrap();
    assert_eq!(run.helpstring(&lib), "Runs it");
    assert_eq!(run.helpcontext(&lib), 3);
    assert_eq!(run.helpfile(&lib), "");
    assert_eq!(run.get_documentation(&lib).0, "Run");
    assert_eq!(run.dispid(&lib), 1);
    assert_eq!(run.offset_vtbl(&lib), 0);
    assert_eq!(run.size_opt_params(&lib), 0);
    let vars = lib.records[2].variables();
    let count = vars[0].as_ref().unwrap();
    assert_eq!(count.get_documentation().0, "Count");
    assert_eq!(count.helpcontext(), 0);
    let app = &lib.records[0];
    assert_eq!(app.ole_type(), "Class");
    assert_eq!(app.name(), "App");
    assert_eq!(app.num_impl_types(), 3);
    assert!(app.visible());
    assert_eq!(lib.records[1].ole_type(), "Dispatch");
    assert_eq!(lib.records[2].num_funcs(), 4);
    assert_eq!(lib.records[2].num_variables(), 3);
    assert_eq!(lib.records[2].src_type(&lib), None);
    lib.records[1].type_flags = TYPEFLAG_FHIDDEN;
    assert!(!lib.records[1].visible());
    lib.records[1].kind = TypeKind::Alias;
    lib.records[1].alias = TypeDesc::Base(VT_BSTR);
    assert_eq!(lib.records[1].src_type(&lib), Some("BSTR".to_string()));
    assert_eq!(lib.name(), "App Library");
    assert_eq!(lib.library_name(), "AppLib");
    assert_eq!(lib.major_version(), 1);
    assert_eq!(lib.minor_version(), 2);
    assert!(lib.visible());
}

#[test]
fn class_and_source_searches() {
    let lib = library(true);
    assert_eq!(oleclass_from_typelib(&lib, "IApp"), Some(2));
    assert_eq!(oleclass_from_typelib(&lib, "Nothing"), None);
    assert!(matches!(find_coclass(&lib, 2), Ok(0)));
    assert!(matches!(find_default_source_from_typeinfo(&lib, 0), Ok(1)));
    assert!(matches!(
        find_default_source_from_typeinfo(&lib, 2),
        Err(Error::Windows(h)) if h == TYPE_E_ELEMENTNOTFOUND
    ));
    assert!(matches!(find_default_source(&lib, 2), Ok(1)));
    let no_source = library(false);
    assert!(find_default_source(&no_source, 2).is_err());
    assert!(matches!(find_coclass(&lib, 0), Err(Error::Windows(h)) if h == E_NOINTERFACE));
}

#[test]
fn interface_search_by_name_or_identifier() {
    let lib = library(true);
    let by_name = find_iid(&lib, Some("AppEvents"), &guid(0)).unwrap();
    assert_eq!(by_name.typeinfo, 1);
    assert_eq!(by_name.guid.unwrap().data1, 11);
    assert!(matches!(find_iid(&lib, Some("Other"), &guid(0)), Err(Error::Windows(h)) if h == E_NOINTERFACE));
    let by_guid = find_iid(&lib, None, &guid(12)).unwrap();
    assert_eq!(by_guid.typeinfo, 2);
    assert!(by_guid.guid.is_none());
    assert!(matches!(find_iid(&lib, None, &guid(99)), Err(Error::Windows(h)) if h == TYPE_E_ELEMENTNOTFOUND));
}

#[test]
fn cursor_by_index() {
    let mut lib = library(true);
    lib.records[2].help_string = "Main interface".to_string();
    assert!(matches!(lib.get_type_info(2), Ok(2)));
    assert!(matches!(lib.get_type_info(3), Err(Error::Windows(h)) if h == TYPE_E_CANTLOADLIBRARY));
    assert!(matches!(lib.get_type_info(4), Err(Error::Windows(h)) if h == TYPE_E_ELEMENTNOTFOUND));
    let doc = lib.get_documentation(2).unwrap();
    assert_eq!(doc.0, "IApp");
    assert_eq!(doc.1, "Main interface");
    assert!(matches!(lib.get_documentation(3), Err(Error::Windows(h)) if h == TYPE_E_CANTLOADLIBRARY));
    assert!(lib.get_documentation(9).is_err());
}

#[test]
fn parameter_by_position_from_one() {
    let lib = library(true);
    let run = OleMethodData::from_typeinfo(&lib, 2, "Run").unwrap();
    let second = OleParamData::new(&lib, &run, 2).unwrap();
    assert_eq!(second.name(), "b");
    assert_eq!(second.index(), 1);
    assert_eq!(OleParamData::new(&lib, &run, 1).unwrap().name(), "a");
    assert!(matches!(OleParamData::new(&lib, &run, 0), Err(Error::Custom(_))));
    assert!(matches!(OleParamData::new(&lib, &run, 3), Err(Error::Custom(_))));
}

#[test]
fn method_help_reports_missing_names() {
    let lib = library(true);
    assert_eq!(ole_method_help(&lib, 0, "OnClick").unwrap().record, 1);
    match ole_method_help(&lib, 0, "Close") {
        Err(Error::Custom(msg)) => assert_eq!(msg, "not found Close"),
        _ => panic!("expected a not-found error"),
    }
}
