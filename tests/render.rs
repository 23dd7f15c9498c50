use win32ole::emit::{type_to_string, well_known_type_to_string, BuildResult};
use win32ole::error::Error;
use win32ole::model::{
    FuncDesc, Guid, ImplType, OleTypeData, OleTypeLibData, RefEntry, TypeDesc, TypeKind,
    PARAMFLAG_FIN, PARAMFLAG_FOUT, TYPE_E_CANTLOADLIBRARY, TYPE_E_ELEMENTNOTFOUND, VT_I2, VT_I4,
    VT_BSTR, VT_RECORD, VT_VOID,
};
use win32ole::render::{ole_typedesc2val, vt_name};

fn guid() -> Guid {
    Guid { data1: 0, data2: 0, data3: 0, data4: [0; 8] }
}

fn record(name: &str, kind: TypeKind, refs: Vec<RefEntry>) -> OleTypeData {
    OleTypeData {
        name: name.to_string(),
        help_string: String::new(),
        help_context: 0,
        help_file: String::new(),
        kind,
        guid: guid(),
        major_version: 1,
        minor_version: 0,
        type_flags: 0,
        size_instance: 4,
        alignment: 4,
        size_vft: 0,
        alias: TypeDesc::Base(VT_VOID),
        functions: Vec::<Result<FuncDesc, i32>>::new(),
        variables: vec![],
        impl_types: Vec::<Result<ImplType, i32>>::new(),
        refs,
        dual: Err(TYPE_E_ELEMENTNOTFOUND),
    }
}

/// Record 0 refers through handle 7 to a library that cannot be loaded,
/// through handle 8 to record 1, and through handle 9 to nothing found.
fn library() -> OleTypeLibData {
    let owner = record(
        "Owner",
        TypeKind::Interface,
        vec![
            RefEntry { href: 7, target: Err(TYPE_E_CANTLOADLIBRARY) },
            RefEntry { href: 8, target: Ok(1) },
            RefEntry { href: 9, target: Err(TYPE_E_ELEMENTNOTFOUND) },
        ],
    );
    let color = record("Color", TypeKind::Enum, vec![]);
    OleTypeLibData {
        name: "Lib".to_string(),
        library_name: "Lib".to_string(),
        guid: guid(),
        major_version: 1,
        minor_version: 0,
        lcid: 0,
        syskind: 3,
        lib_flags: 0,
        records: vec![owner, color],
        entries: vec![Ok(0), Ok(1)],
    }
}

fn empty_result() -> BuildResult {
    BuildResult {
        num_missing_types: 0,
        num_types_not_found: 0,
        skipped_dispinterfaces: vec![],
        skipped_dispinterface_of_dual_interfaces: vec![],
    }
}

fn ptr(inner: TypeDesc) -> TypeDesc {
    TypeDesc::Ptr(Box::new(inner))
}

#[test]
fn primitive_tags_render_from_table() {
    let lib = library();
    let owner = &lib.records[0];
    for &(vt, name) in &[(VT_I2, "I2"), (VT_I4, "I4"), (VT_BSTR, "BSTR"), (VT_RECORD, "RECORD")] {
        let mut d1 = vec![];
        let mut d2 = vec![];
        let first = ole_typedesc2val(&lib, owner, &TypeDesc::Base(vt), &mut d1);
        let second = ole_typedesc2val(&lib, owner, &TypeDesc::Base(vt), &mut d2);
        assert_eq!(first, name);
        assert_eq!(first, second);
        assert_eq!(d1, vec![name.to_string()]);
    }
    assert_eq!(vt_name(25), "HRESULT");
    assert_eq!(vt_name(24), "VOID");
}

#[test]
fn unknown_tag_has_numbered_label() {
    assert_eq!(vt_name(99), "Unknown Type 99");
    assert_eq!(vt_name(0), "Unknown Type 0");
    assert_eq!(vt_name(1234), "Unknown Type 1234");
}

#[test]
fn well_known_binding_types() {
    assert_eq!(well_known_type_to_string(VT_I2), Some("i16"));
    assert_eq!(well_known_type_to_string(VT_I4), Some("i32"));
    assert_eq!(well_known_type_to_string(VT_BSTR), Some("::windows::core::PWSTR"));
    assert_eq!(well_known_type_to_string(VT_RECORD), None);
}

#[test]
fn pointer_direction_policy() {
    let lib = library();
    let owner = &lib.records[0];
    let mut br = empty_result();
    let td = ptr(TypeDesc::Base(VT_I4));
    let only_in = type_to_string(&td, PARAMFLAG_FIN, owner, &lib, &mut br).unwrap();
    assert_eq!(only_in, "*const i32");
    let none = type_to_string(&td, 0, owner, &lib, &mut br).unwrap();
    assert_eq!(none, "*mut i32");
    let in_out = type_to_string(&td, PARAMFLAG_FIN | PARAMFLAG_FOUT, owner, &lib, &mut br).unwrap();
    assert_eq!(in_out, "*mut i32");
    let only_out = type_to_string(&td, PARAMFLAG_FOUT, owner, &lib, &mut br).unwrap();
    assert_eq!(only_out, "*mut i32");
    let nested = type_to_string(&ptr(ptr(TypeDesc::Base(VT_I2))), PARAMFLAG_FIN, owner, &lib, &mut br)
        .unwrap();
    assert_eq!(nested, "*const *const i16");
}

#[test]
fn fixed_array_dimension_order() {
    let lib = library();
    let owner = &lib.records[0];
    let mut br = empty_result();
    let td = TypeDesc::CArray(Box::new(TypeDesc::Base(VT_I2)), vec![3, 5]);
    let s = type_to_string(&td, PARAMFLAG_FOUT, owner, &lib, &mut br).unwrap();
    assert_eq!(s, "[[i16; 3]; 5]");
    let one = TypeDesc::CArray(Box::new(TypeDesc::Base(VT_I4)), vec![16]);
    assert_eq!(type_to_string(&one, 0, owner, &lib, &mut br).unwrap(), "[i32; 16]");
}

#[test]
fn missing_type_is_substituted_and_counted_per_occurrence() {
    let lib = library();
    let owner = &lib.records[0];
    let mut br = empty_result();
    let td = TypeDesc::UserDefined(7);
    assert_eq!(type_to_string(&td, 0, owner, &lib, &mut br).unwrap(), "__missing_type__");
    assert_eq!(br.num_missing_types, 1);
    assert_eq!(type_to_string(&td, 0, owner, &lib, &mut br).unwrap(), "__missing_type__");
    assert_eq!(br.num_missing_types, 2);
    assert_eq!(br.num_types_not_found, 0);
    let behind_ptr = ptr(TypeDesc::UserDefined(7));
    assert_eq!(type_to_string(&behind_ptr, 0, owner, &lib, &mut br).unwrap(), "*mut __missing_type__");
    assert_eq!(br.num_missing_types, 3);
}

#[test]
fn user_defined_reference_resolves_to_record_name() {
    let lib = library();
    let owner = &lib.records[0];
    let mut br = empty_result();
    let s = type_to_string(&ptr(TypeDesc::UserDefined(8)), PARAMFLAG_FIN, owner, &lib, &mut br)
        .unwrap();
    assert_eq!(s, "*const Color");
    assert_eq!(br.num_missing_types, 0);
    let mut details = vec![];
    let name = ole_typedesc2val(&lib, owner, &TypeDesc::UserDefined(8), &mut details);
    assert_eq!(name, "Color");
    assert_eq!(details, vec!["USERDEFINED".to_string(), "Color".to_string()]);
}

#[test]
fn other_resolution_failure_is_an_error() {
    let lib = library();
    let owner = &lib.records[0];
    let mut br = empty_result();
    match type_to_string(&TypeDesc::UserDefined(9), 0, owner, &lib, &mut br) {
        Err(Error::Windows(h)) => assert_eq!(h, TYPE_E_ELEMENTNOTFOUND),
        _ => panic!("expected the lookup status"),
    }
    match type_to_string(&TypeDesc::UserDefined(42), 0, owner, &lib, &mut br) {
        Err(Error::Windows(h)) => assert_eq!(h, TYPE_E_ELEMENTNOTFOUND),
        _ => panic!("expected the lookup status"),
    }
    assert_eq!(br.num_missing_types, 0);
    br.num_missing_types = 5;
    let failing = TypeDesc::Ptr(Box::new(TypeDesc::UserDefined(9)));
    assert!(type_to_string(&failing, 0, owner, &lib, &mut br).is_err());
    assert_eq!(br.num_missing_types, 5);
    let mut details = vec![];
    assert_eq!(ole_typedesc2val(&lib, owner, &TypeDesc::UserDefined(9), &mut details), "USERDEFINED");
    assert_eq!(details, vec!["USERDEFINED".to_string()]);
}

#[test]
fn unsupported_tag_has_no_binding_type() {
    let lib = library();
    let owner = &lib.records[0];
    let mut br = empty_result();
    assert!(matches!(
        type_to_string(&TypeDesc::Base(VT_RECORD), 0, owner, &lib, &mut br),
        Err(Error::Custom(_))
    ));
}

#[test]
fn safe_array_renders_as_wrapper() {
    let lib = library();
    let owner = &lib.records[0];
    let mut br = empty_result();
    let td = TypeDesc::SafeArray(Box::new(TypeDesc::Base(VT_BSTR)));
    assert_eq!(type_to_string(&td, PARAMFLAG_FIN, owner, &lib, &mut br).unwrap(), "SAFEARRAY");
    let missing = TypeDesc::SafeArray(Box::new(TypeDesc::UserDefined(7)));
    assert_eq!(type_to_string(&missing, 0, owner, &lib, &mut br).unwrap(), "SAFEARRAY");
    assert_eq!(br.num_missing_types, 1);
}

#[test]
fn detail_chain_lists_every_level() {
    let lib = library();
    let owner = &lib.records[0];
    let mut details = vec!["start".to_string()];
    let td = ptr(TypeDesc::SafeArray(Box::new(TypeDesc::Base(VT_I4))));
    let name = ole_typedesc2val(&lib, owner, &td, &mut details);
    assert_eq!(name, "I4");
    assert_eq!(details, vec!["start", "PTR", "SAFEARRAY", "I4"]);
    let mut d = vec![];
    let carray = TypeDesc::CArray(Box::new(TypeDesc::Base(VT_I4)), vec![2]);
    assert_eq!(ole_typedesc2val(&lib, owner, &carray, &mut d), "I4");
    assert_eq!(d, vec!["CARRAY", "I4"]);
}
