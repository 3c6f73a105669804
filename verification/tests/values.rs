use std::cell::RefCell;

use veight::bridging::undefined::PyUndefined;
use veight::bridging::value::converted_or;
use veight::bridging::value::none_of;
use veight::bridging::value::undefined_of;
use veight::bridging::value::PyValue;
use veight::bridging::value::ValueFacts;
use veight::error::PyError;
use veight::isolates::isolate::PyIsolate;
use veight::isolates::isolate::PyIsolateCreateValue;
use veight::isolates::PyIsolates;
use veight::transmit::ObscuredGlobal;

const NOTHING: ValueFacts = ValueFacts {
    int32: false,
    uint32: false,
    number: false,
    big_int: false,
    boolean: false,
    string: false,
    undefined: false,
    null: false,
};

fn value(address: usize) -> PyValue {
    PyValue::new(4, ObscuredGlobal::new(address))
}

fn free(_global: ObscuredGlobal) {}

fn isolate(state: u64) -> PyIsolate {
    let opened = PyIsolates::new().py_create_isolate(false);
    PyIsolate {
        isolate_tx: opened.creation.isolate_tx,
        python_tx: opened.creation.python_tx,
        state,
    }
}

fn assert_released<T>(result: Result<T, PyError>) {
    match result {
        Err(PyError::Runtime(message)) => assert_eq!(message, "data is already released"),
        _ => panic!("the value should be gone"),
    }
}

fn assert_type_error<T>(result: Result<T, PyError>, expected: &str) {
    match result {
        Err(PyError::Type(message)) => assert_eq!(message, expected),
        _ => panic!("the conversion should fail"),
    }
}

#[test]
fn handle_gives_its_address_back() {
    let global = ObscuredGlobal::new(0x7f10);
    assert_eq!(global.with(|address: usize| address + 1), 0x7f11);
    assert_eq!(global.to_string(), "0x7f10");
    assert_eq!(global.take(), 0x7f10);
}

#[test]
fn handle_prints_its_address_in_hexadecimal() {
    for address in [1usize, 9, 10, 15, 16, 255, 256, 0xdead_beef, usize::MAX] {
        let printed = format!("{:#x}", address);
        assert_eq!(ObscuredGlobal::new(address).to_string(), printed);
    }
}

#[test]
fn different_addresses_print_differently() {
    let mut seen: Vec<String> = Vec::new();
    for address in 1usize..600 {
        let printed = ObscuredGlobal::new(address).to_string();
        assert!(!seen.contains(&printed));
        seen.push(printed);
    }
}

#[test]
fn new_value_holds_its_handle() {
    let v = value(32);
    assert_eq!(v.state, 4);
    assert_eq!(v.data.unwrap().take(), 32);
}

#[test]
fn release_hands_the_handle_out_once() {
    let mut v = value(48);
    assert_eq!(v.release().unwrap().take(), 48);
    assert!(v.data.is_none());
    assert!(v.release().is_none());
    assert_released(v.to_int(|_| Some(1), free));
    assert_released(v.is_string(|_| NOTHING));
    assert_eq!(v.state, 4);
}

#[test]
fn take_hands_the_handle_on_and_gives_the_value_up() {
    let mut v = value(64);
    let taken = v.try_take_data_with(|global: ObscuredGlobal| Ok(global.take() * 2));
    assert_eq!(taken.unwrap(), 128);
    assert_released(v.try_take_data_with(|global: ObscuredGlobal| Ok(global.take())));
}

#[test]
fn take_gives_the_value_up_even_if_it_fails() {
    let mut v = value(64);
    let failed: Result<(), PyError> = v.try_take_data_with(|_| Err(PyError::type_error("no")));
    assert_type_error(failed, "no");
    assert!(v.data.is_none());
}

#[test]
fn look_keeps_the_value() {
    let v = value(80);
    assert_eq!(v.try_get_data_with(|address: usize| Ok(address)).unwrap(), 80);
    assert_eq!(v.try_get_data_with(|address: usize| Ok(address)).unwrap(), 80);
    assert!(v.data.is_some());
}

#[test]
fn questions_pick_their_fact() {
    let v = value(96);
    assert!(v.is_int32(|_| ValueFacts { int32: true, ..NOTHING }).unwrap());
    assert!(!v.is_int32(|_| ValueFacts { uint32: true, ..NOTHING }).unwrap());
    assert!(v.is_uint32(|_| ValueFacts { uint32: true, ..NOTHING }).unwrap());
    assert!(v.is_float64(|_| ValueFacts { number: true, ..NOTHING }).unwrap());
    assert!(!v.is_float64(|_| NOTHING).unwrap());
    assert!(v.is_bigint(|_| ValueFacts { big_int: true, ..NOTHING }).unwrap());
    assert!(v.is_boolean(|_| ValueFacts { boolean: true, ..NOTHING }).unwrap());
    assert!(v.is_string(|_| ValueFacts { string: true, ..NOTHING }).unwrap());
    assert!(v.is_undefined(|_| ValueFacts { undefined: true, ..NOTHING }).unwrap());
    assert!(!v.is_undefined(|_| ValueFacts { null: true, ..NOTHING }).unwrap());
    assert!(v.is_null(|_| ValueFacts { null: true, ..NOTHING }).unwrap());
    assert!(!v.is_null(|_| ValueFacts { undefined: true, ..NOTHING }).unwrap());
    assert!(v.is_null_or_undefined(|_| ValueFacts { null: true, ..NOTHING }).unwrap());
    assert!(v.is_null_or_undefined(|_| ValueFacts { undefined: true, ..NOTHING }).unwrap());
    assert!(!v.is_null_or_undefined(|_| ValueFacts { string: true, ..NOTHING }).unwrap());
    assert!(v.data.is_some());
}

#[test]
fn questions_are_asked_about_the_value() {
    let v = value(96);
    let asked = v.is_string(|address: usize| ValueFacts { string: address == 96, ..NOTHING });
    assert!(asked.unwrap());
}

#[test]
fn conversions_give_what_the_engine_gives() {
    assert_eq!(value(8).to_int(|_| Some(-3), free).unwrap(), -3);
    assert_eq!(value(8).to_uint(|_| Some(3_000_000_000), free).unwrap(), 3_000_000_000);
    assert_eq!(value(8).to_float(|_| Some(0.5f64), free).unwrap(), 0.5);
    assert_eq!(value(8).to_bigint(|_| Some(-9_000_000_000), free).unwrap(), -9_000_000_000);
    assert!(value(8).to_bool(|_| true, free).unwrap());
    assert!(!value(8).to_bool(|_| false, free).unwrap());
}

#[test]
fn declined_conversions_are_type_errors() {
    let mut v = value(8);
    assert_type_error(v.to_int(|_| None, free), "failed to convert value to int32");
    assert!(v.data.is_none());
    assert_type_error(value(8).to_uint(|_| None, free), "failed to convert value to uint32");
    assert_type_error(
        value(8).to_float(|_| None::<f64>, free),
        "failed to convert value to float (float64)",
    );
    assert_type_error(
        value(8).to_bigint(|_| None, free),
        "failed to convert value to integer (int64)",
    );
    assert_type_error(converted_or(None::<u8>, "no such thing"), "no such thing");
    assert_eq!(converted_or(Some(9u8), "no such thing").unwrap(), 9);
}

#[test]
fn conversions_free_the_value_once() {
    let freed = RefCell::new(Vec::new());
    let free = |global: ObscuredGlobal| freed.borrow_mut().push(global.take());
    let string = ValueFacts { string: true, ..NOTHING };
    let null = ValueFacts { null: true, ..NOTHING };
    let _ = value(1).to_int(|_| Some(1), free);
    let _ = value(2).to_int(|_| None, free);
    let _ = value(3).to_uint(|_| None, free);
    let _ = value(4).to_float(|_| Some(0.5f64), free);
    let _ = value(5).to_bigint(|_| None, free);
    let _ = value(6).to_bool(|_| false, free);
    let _ = value(7).to_str(|_| string, |_| String::new(), free);
    let _ = value(8).to_str(|_| NOTHING, |_| String::new(), free);
    let _ = value(9).to_undefined(|_| null, free);
    let _ = value(10).to_undefined(|_| NOTHING, free);
    let _ = value(11).to_none(|_| null, free);
    let mut v = value(12);
    let _ = v.to_none(|_| NOTHING, free);
    assert_released(v.to_none(|_| null, free));
    assert_eq!(freed.into_inner(), (1..13).collect::<Vec<usize>>());
}

#[test]
fn only_strings_have_text() {
    let mut v = value(8);
    let text = v.to_str(
        |_| ValueFacts { string: true, ..NOTHING },
        |address: usize| format!("at {}", address),
        free,
    );
    assert_eq!(text.unwrap(), "at 8");
    let mut v = value(8);
    let text = v.to_str(|_| NOTHING, |_| panic!("the text of a number is not asked for"), free);
    assert_type_error(text, "failed to convert to string");
    assert!(v.data.is_none());
    assert_released(v.to_str(|_| NOTHING, |_| String::new(), free));
}

#[test]
fn undefined_takes_null_too() {
    let undefined = ValueFacts { undefined: true, ..NOTHING };
    let null = ValueFacts { null: true, ..NOTHING };
    assert_eq!(value(8).to_undefined(|_| undefined, free).unwrap(), PyUndefined);
    assert_eq!(value(8).to_undefined(|_| null, free).unwrap(), PyUndefined);
    assert_type_error(
        value(8).to_undefined(|_| NOTHING, free),
        "expected undefined while converting value to undefined",
    );
    assert_type_error(
        undefined_of(NOTHING),
        "expected undefined while converting value to undefined",
    );
}

#[test]
fn none_takes_undefined_too() {
    let undefined = ValueFacts { undefined: true, ..NOTHING };
    let null = ValueFacts { null: true, ..NOTHING };
    assert!(value(8).to_none(|_| undefined, free).is_ok());
    assert!(value(8).to_none(|_| null, free).is_ok());
    assert_type_error(
        value(8).to_none(|_| NOTHING, free),
        "expected undefined or null while converting value to null",
    );
    assert_type_error(
        none_of(NOTHING),
        "expected undefined or null while converting value to null",
    );
}

#[test]
fn undefined_is_false_and_prints_its_name() {
    assert!(!PyUndefined.__bool__());
    assert_eq!(PyUndefined.__repr__(), "undefined");
}

#[test]
fn value_prints_its_address() {
    let mut v = value(0xabc);
    assert_eq!(v.__repr__(), "Value(0xabc)");
    let _ = v.release();
    assert_eq!(v.__repr__(), "Value(None)");
}

#[test]
fn created_values_belong_to_their_isolate() {
    let isolate = isolate(12);
    let v = PyValue::create_string(&isolate, "abc".to_string(), |cv| match cv {
        PyIsolateCreateValue::String(text) => Some(ObscuredGlobal::new(text.len())),
        _ => None,
    });
    let v = v.unwrap();
    assert_eq!((v.state, v.data.unwrap().take()), (12, 3));

    let v = PyValue::create_number(&isolate, 1.5f64.to_bits(), |cv| match cv {
        PyIsolateCreateValue::Number(bits) if f64::from_bits(bits) == 1.5 => {
            Some(ObscuredGlobal::new(5))
        }
        _ => None,
    });
    let v = v.unwrap();
    assert_eq!((v.state, v.data.unwrap().take()), (12, 5));

    let v = PyValue::create_undefined(&isolate, |cv| match cv {
        PyIsolateCreateValue::Undefined => Some(ObscuredGlobal::new(6)),
        _ => None,
    });
    assert_eq!(v.unwrap().data.unwrap().take(), 6);

    let v = PyValue::create_null(&isolate, |cv| match cv {
        PyIsolateCreateValue::Null => Some(ObscuredGlobal::new(7)),
        _ => None,
    });
    assert_eq!(v.unwrap().data.unwrap().take(), 7);
}

#[test]
fn declined_string_is_a_runtime_error() {
    let created = PyValue::create_string(&isolate(1), "long".to_string(), |_| None);
    match created {
        Err(PyError::Runtime(message)) => assert_eq!(message, "failed to create string"),
        _ => panic!("the creation should fail"),
    }
}

#[test]
fn created_string_is_taken_back() {
    let isolate = isolate(12);
    for text in ["", "world", "\u{e9}\u{1F600}", "a\0b"] {
        let roots = RefCell::new(Vec::new());
        let created = PyValue::create_string(&isolate, text.to_string(), |cv| match cv {
            PyIsolateCreateValue::String(text) => {
                roots.borrow_mut().push(text);
                Some(ObscuredGlobal::new(roots.borrow().len()))
            }
            _ => None,
        });
        let mut v = created.unwrap();
        let string = ValueFacts { string: true, ..NOTHING };
        let taken = v.to_str(|_| string, |address| roots.borrow()[address - 1].clone(), free);
        assert_eq!(taken.unwrap(), text);
        assert!(v.data.is_none());
    }
}

#[test]
fn created_number_is_taken_back() {
    let isolate = isolate(12);
    for number in [0.0, -1.5, 1e300, f64::INFINITY, f64::NEG_INFINITY] {
        let roots = RefCell::new(Vec::new());
        let created = PyValue::create_number(&isolate, number.to_bits(), |cv| match cv {
            PyIsolateCreateValue::Number(bits) => {
                roots.borrow_mut().push(f64::from_bits(bits));
                Some(ObscuredGlobal::new(roots.borrow().len()))
            }
            _ => None,
        });
        let mut v = created.unwrap();
        let taken = v.to_float(|address| Some(roots.borrow()[address - 1]), free);
        assert_eq!(taken.unwrap(), number);
        assert!(v.data.is_none());
    }
}
