use typst_shared::buffer::ThickBytePtr;
use typst_shared::envelope::JavaExceptPtrResult;
use typst_shared::envelope::JavaResult;
use typst_shared::envelope::ReleaseRegistry;
use typst_shared::envelope::NO_TICKET;
use typst_shared::exception::exception_to_json;
use typst_shared::exception::Exception;
use typst_shared::exception::FailureKind;
use typst_shared::exception::StackTraceElement;

#[test]
fn release_callback_registers_once() {
    let mut registry = ReleaseRegistry::new();
    assert_eq!(registry.set_freer(), 1);
    // A reattempt fails without side effect on the registration.
    assert_eq!(registry.set_freer(), 0);
    assert_eq!(registry.set_freer(), 0);
    assert!(registry.registered);
}

#[test]
fn pack_attaches_no_resource() {
    let jr = JavaResult::pack(String::from("{\"ok\":true}"));
    assert_eq!(jr.ticket, NO_TICKET);
}

#[test]
fn valid_ticket_released_exactly_once() {
    let mut registry = ReleaseRegistry::new();
    registry.set_freer();
    let mut jr = JavaResult {
        ticket: 7,
        value: ThickBytePtr::from_str(String::from("payload")),
    };
    let (payload, release) = jr.unpack(&registry);
    assert_eq!(payload.unwrap(), "payload");
    // The release callback is owed exactly this ticket, once.
    assert_eq!(release, Some(7));
    // A replayed unpack of the consumed envelope owes nothing.
    let (_, release) = jr.unpack(&registry);
    assert_eq!(release, None);
    assert_eq!(jr.ticket, NO_TICKET);
}

#[test]
fn sentinel_ticket_triggers_no_release() {
    let registry = ReleaseRegistry::new();
    let mut jr = JavaResult::pack(String::from("value"));
    let (payload, release) = jr.unpack(&registry);
    assert_eq!(payload.unwrap(), "value");
    assert_eq!(release, None);
}

#[test]
fn except_ptr_result_packs_both_arms() {
    let ok: JavaExceptPtrResult<u64> = JavaExceptPtrResult::pack(Ok(Box::new(99)));
    assert_eq!(*ok.ptr.unwrap(), 99);
    assert_eq!(ok.comment.0.len(), 0);

    let record = Exception::raise(
        &FailureKind::IllegalState,
        Some(String::from("boom")),
        Vec::new(),
    );
    let err: JavaExceptPtrResult<u64> = JavaExceptPtrResult::pack(Err(record));
    assert!(err.ptr.is_none());
    let mut expected = String::from("{\"class\":\"java.lang.IllegalStateException\",");
    expected.push_str("\"message\":\"boom\",");
    expected.push_str("\"cause\":null,\"stack_trace\":[],\"suppressed\":[]}");
    assert_eq!(err.comment.to_str().unwrap(), expected);
}

#[test]
fn exception_wire_form_escapes_and_nests() {
    let frame = StackTraceElement {
        class_loader_name: Some(String::from("TypstSharedLibrary")),
        module_name: None,
        module_version: None,
        declaring_class: Some(String::from("World")),
        method_name: Some(String::from("build")),
        file_name: Some(String::from("world.rs")),
        line_number: 42,
    };
    let cause = Exception::raise(&FailureKind::IllegalArgument, None, Vec::new());
    let record = Exception::raise(
        &FailureKind::IllegalState,
        Some(String::from("say \"hi\"\nnow")),
        vec![frame],
    )
    .with_cause(cause);
    let wire = String::from_utf8(exception_to_json(&record)).unwrap();
    let mut expected = String::from("{\"class\":\"java.lang.IllegalStateException\",");
    expected.push_str("\"message\":\"say \\\"hi\\\"\\nnow\",");
    expected.push_str("\"cause\":{\"class\":\"java.lang.IllegalArgumentException\",");
    expected.push_str("\"message\":null,\"cause\":null,\"stack_trace\":[],\"suppressed\":[]},");
    expected.push_str("\"stack_trace\":[{\"class_loader_name\":\"TypstSharedLibrary\",");
    expected.push_str("\"module_name\":null,\"module_version\":null,");
    expected.push_str("\"declaring_class\":\"World\",\"method_name\":\"build\",");
    expected.push_str("\"file_name\":\"world.rs\",\"line_number\":42}],");
    expected.push_str("\"suppressed\":[]}");
    assert_eq!(wire, expected);
}

#[test]
fn exception_records_kind_and_cause() {
    let cause = Exception::raise(&FailureKind::IllegalArgument, None, Vec::new());
    let exc = Exception::raise(
        &FailureKind::IllegalState,
        Some(String::from("release callback already configured")),
        Vec::new(),
    )
    .with_cause(cause);
    assert_eq!(exc.class, "java.lang.IllegalStateException");
    assert_eq!(exc.message.as_deref(), Some("release callback already configured"));
    let inner = exc.cause.unwrap();
    assert_eq!(inner.class, "java.lang.IllegalArgumentException");
    assert!(inner.cause.is_none());
    assert!(exc.suppressed.is_empty());
}
