use veight::bridging::exception::JsError;
use veight::bridging::exception::JsException;
use veight::bridging::exception::JsProperty;
use veight::error::PyError;

fn property(text: &str) -> Option<JsProperty> {
    Some(JsProperty { nullish: false, text: text.to_string() })
}

fn report(exception: &JsException) -> String {
    match JsError::from_exception(exception) {
        PyError::Js(message) => message,
        _ => panic!("a thrown object is a JsError"),
    }
}

#[test]
fn exception_is_reported_with_all_its_parts() {
    let exception = JsException {
        name: property("TypeError"),
        message: property("x is not a function"),
        stack: property("at <anonymous>:1:1"),
    };
    assert_eq!(
        report(&exception),
        "(TypeError) x is not a function\nStack trace:\nat <anonymous>:1:1"
    );
}

#[test]
fn missing_parts_have_defaults() {
    let exception = JsException { name: None, message: None, stack: None };
    assert_eq!(report(&exception), "(Error) unknown message\nStack trace:\n");
}

#[test]
fn undefined_parts_are_text_but_no_stack_trace() {
    let undefined = || Some(JsProperty { nullish: true, text: "undefined".to_string() });
    let exception =
        JsException { name: undefined(), message: undefined(), stack: undefined() };
    assert_eq!(report(&exception), "(undefined) undefined\nStack trace:\n");
}

#[test]
fn properties_are_read_by_their_names() {
    let exception = JsException::read(|name: &str| match name {
        "name" => property("RangeError"),
        "message" => property("too deep"),
        "stack" => Some(JsProperty { nullish: true, text: "null".to_string() }),
        _ => panic!("no other property is read"),
    });
    assert_eq!(report(&exception), "(RangeError) too deep\nStack trace:\n");
}

#[test]
fn errors_have_their_message() {
    assert_eq!(PyError::runtime("a").message(), "a");
    assert_eq!(PyError::type_error("b").message(), "b");
    assert_eq!(PyError::Js("c".to_string()).message(), "c");
    assert!(matches!(PyError::runtime("a"), PyError::Runtime(_)));
    assert!(matches!(PyError::type_error("b"), PyError::Type(_)));
}

#[test]
fn thrown_value_without_properties_has_defaults() {
    let exception = JsException::read(|_: &str| None);
    assert_eq!(report(&exception), "(Error) unknown message\nStack trace:\n");
}
