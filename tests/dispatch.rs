use win32ole::dispatch::{
    call_params, get_params, ole_excepinfo2msg, put_params, unpack_invoke, IEventSink,
    DISPATCH_METHOD, DISPATCH_PROPERTYGET, DISPATCH_PROPERTYPUT, DISPATCH_PROPERTYPUTREF,
    DISPID_PROPERTYPUT, DISP_E_BADINDEX, DISP_E_EXCEPTION, DISP_E_PARAMNOTFOUND,
    DISP_E_TYPEMISMATCH,
};
use win32ole::error::{ComArgumentErrorType, Error, ExcepInfo, OleError, OleErrorType};

fn excep(code: u16, scode: i32, source: &str, description: &str) -> ExcepInfo {
    ExcepInfo {
        code,
        scode,
        source: source.to_string(),
        description: description.to_string(),
        help_file: String::new(),
        help_context: 0,
    }
}

#[test]
fn call_arguments_are_reversed() {
    let req = call_params("Add", vec!["a", "b", "c"]);
    assert_eq!(req.params.args, vec!["c", "b", "a"]);
    assert!(req.params.named_args.is_empty());
    assert_eq!(req.flags, DISPATCH_METHOD);
    assert_eq!(req.member, "Add");
    let none = call_params::<i32>("Quit", vec![]);
    assert!(none.params.args.is_empty());
}

#[test]
fn property_put_names_its_value() {
    let req = put_params("Visible", 1, false);
    assert_eq!(req.params.args, vec![1]);
    assert_eq!(req.params.named_args, vec![DISPID_PROPERTYPUT]);
    assert_eq!(DISPID_PROPERTYPUT, -3);
    assert_eq!(req.flags, DISPATCH_PROPERTYPUT);
    let by_ref = put_params("Font", 7, true);
    assert_eq!(by_ref.flags, DISPATCH_PROPERTYPUTREF);
    let get = get_params::<i32>("Visible");
    assert_eq!(get.flags, DISPATCH_PROPERTYGET);
    assert!(get.params.args.is_empty() && get.params.named_args.is_empty());
}

#[test]
fn invoke_statuses_unpack_to_results_and_errors() {
    assert!(matches!(unpack_invoke(0, 42, excep(0, 0, "", ""), 0), Ok(42)));
    assert!(matches!(unpack_invoke(1, 42, excep(0, 0, "", ""), 0), Ok(42)));
    match unpack_invoke(DISP_E_EXCEPTION, 0, excep(5, 0, "Excel", "bad range"), 0) {
        Err(Error::Exception(e)) => {
            assert_eq!(e.code, 5);
            assert_eq!(e.source, "Excel");
        },
        _ => panic!("expected an exception"),
    }
    match unpack_invoke(DISP_E_TYPEMISMATCH, 0, excep(0, 0, "", ""), 2) {
        Err(Error::IDispatchArgument { error_type, arg_err }) => {
            assert_eq!(error_type, ComArgumentErrorType::TypeMismatch);
            assert_eq!(arg_err, 2);
        },
        _ => panic!("expected an argument error"),
    }
    match unpack_invoke(DISP_E_PARAMNOTFOUND, 0, excep(0, 0, "", ""), 1) {
        Err(Error::IDispatchArgument { error_type, arg_err }) => {
            assert_eq!(error_type, ComArgumentErrorType::ParameterNotFound);
            assert_eq!(arg_err, 1);
        },
        _ => panic!("expected an argument error"),
    }
    assert!(matches!(unpack_invoke(-5, 0, excep(0, 0, "", ""), 0), Err(Error::Windows(-5))));
}

#[test]
fn exception_message_uses_placeholders() {
    assert_eq!(
        ole_excepinfo2msg(&excep(0, -2147352567, "", "")),
        "\n    OLE error code: -2147352567 in <Unknown>\n      <No Description>"
    );
    assert_eq!(
        ole_excepinfo2msg(&excep(1004, 0, "Microsoft Excel", "Cannot run the macro")),
        "\n    OLE error code: 1004 in Microsoft Excel\n      Cannot run the macro"
    );
}

#[test]
fn error_messages() {
    let e = Error::IDispatchArgument { error_type: ComArgumentErrorType::ParameterNotFound, arg_err: 3 };
    assert_eq!(e.message(), "COM argument error A required parameter was missing for argument 3\n");
    assert_eq!(Error::Windows(-2147467262).message(), "HRESULT error code: -2147467262");
    assert_eq!(Error::Custom("not found Foo".to_string()).message(), "not found Foo");
    let ole = Error::Ole(OleError::runtime(-1, "failed: OLE initialization"));
    assert_eq!(ole.message(), "Win32OleRuntimeError: failed: OLE initialization. HRESULT error code: -1");
    let x = Error::Exception(excep(7, 0, "Src", "Desc"));
    assert_eq!(x.message(), "\n    OLE error code: 7 in Src\n      Desc\n");
}

#[test]
fn error_kinds_and_labels() {
    let q = OleError::interface(5, "failed to GetTypeInfo");
    assert_eq!(q.error_type, OleErrorType::QueryInterface);
    assert_eq!(q.hresult, 5);
    assert_eq!(q.context_message, "failed to GetTypeInfo");
    let n = OleError::new(OleErrorType::Runtime, 6, "x");
    assert_eq!(n.error_type.label(), "Win32OleRuntimeError");
    assert_eq!(OleErrorType::QueryInterface.label(), "Win32OleQueryInterfaceError");
    assert_eq!(
        ComArgumentErrorType::TypeMismatch.message(),
        "The value's type does not match the expected type for the parameter"
    );
}

#[test]
fn event_sink_offers_no_type_information() {
    let sink = IEventSink {};
    assert_eq!(sink.get_type_info_count(), 0);
    assert!(matches!(sink.get_type_info(0, 0), Err(Error::Windows(h)) if h == DISP_E_BADINDEX));
}
