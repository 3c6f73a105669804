//! What the operations on values are for, stated of every call of them.
use vstd::prelude::*;

use crate::bridging::undefined::PyUndefined;
use crate::bridging::value::converted_or;
use crate::bridging::value::none_of;
use crate::bridging::value::undefined_of;
use crate::bridging::value::PyValue;
use crate::bridging::value::ValueFacts;
use crate::error::PyError;
use crate::isolates::isolate::PyIsolate;
use crate::isolates::isolate::PyIsolateCreateValue;
use crate::transmit::ObscuredGlobal;

verus! {

/// A new value belongs to the isolate and has the handle that it is given, and gives that handle
/// out when it is released, after which it has none.
pub proof fn law_new_value_releases_its_handle(
    state: u64,
    global: ObscuredGlobal,
    value: &mut PyValue,
    freed: Option<ObscuredGlobal>,
)
    requires
        call_ensures(PyValue::new, (state, global), *old(value)),
        call_ensures(PyValue::release, (value,), freed),
    ensures
        old(value).state == state,
        freed == Some(global),
        final(value).data is None,
        final(value).state == state,
{
}

/// A release gives out what the value holds, and a second one nothing.
pub proof fn law_second_release_gives_nothing(
    value: &mut PyValue,
    freed: Option<ObscuredGlobal>,
    again: &mut PyValue,
    nothing: Option<ObscuredGlobal>,
)
    requires
        call_ensures(PyValue::release, (value,), freed),
        *old(again) == *final(value),
        call_ensures(PyValue::release, (again,), nothing),
    ensures
        freed == old(value).data,
        nothing is None,
        final(again).state == old(value).state,
{
}

/// Taking a value hands its very handle on and gives the result of that; the value has none
/// afterwards. A value without one is an error.
pub proof fn law_take_hands_the_handle_on<T, F: FnOnce(ObscuredGlobal) -> Result<T, PyError>>(
    value: &mut PyValue,
    run: F,
    result: Result<T, PyError>,
)
    requires
        call_ensures(PyValue::try_take_data_with::<T, F>, (value, run), result),
    ensures
        final(value).data is None,
        final(value).state == old(value).state,
        match old(value).data {
            Some(global) => run.ensures((global,), result),
            None => result matches Err(PyError::Runtime(message)) && message@
                == "data is already released"@,
        },
{
}

/// Looking at a value shows the address of its root and gives the result of that. A value
/// without a handle is an error.
pub proof fn law_look_shows_the_address<T, F: FnOnce(usize) -> Result<T, PyError>>(
    value: &PyValue,
    run: F,
    result: Result<T, PyError>,
)
    requires
        call_ensures(PyValue::try_get_data_with::<T, F>, (value, run), result),
    ensures
        match value.data {
            Some(global) => run.ensures((global@,), result),
            None => result matches Err(PyError::Runtime(message)) && message@
                == "data is already released"@,
        },
{
}

/// A string is created exactly if the engine makes it. It then belongs to the isolate and is
/// what the engine made of the whole text; otherwise the engine declined it.
pub proof fn law_string_fails_only_if_declined<
    F: FnOnce(PyIsolateCreateValue) -> Option<ObscuredGlobal>,
>(isolate: &PyIsolate, data: String, make: F, result: Result<PyValue, PyError>)
    requires
        call_ensures(PyValue::create_string::<F>, (isolate, data, make), result),
    ensures
        result matches Ok(value) ==> value.state == isolate.state && value.data is Some
            && make.ensures((PyIsolateCreateValue::String(data),), value.data),
        result is Err ==> make.ensures((PyIsolateCreateValue::String(data),), None),
        result matches Err(error) ==> (error matches PyError::Runtime(message) && message@
            == "failed to create string"@),
{
}

/// A string that the engine never declines is created.
pub proof fn law_string_that_is_not_declined_is_created<
    F: FnOnce(PyIsolateCreateValue) -> Option<ObscuredGlobal>,
>(isolate: &PyIsolate, data: String, make: F, result: Result<PyValue, PyError>)
    requires
        call_ensures(PyValue::create_string::<F>, (isolate, data, make), result),
        !make.ensures((PyIsolateCreateValue::String(data),), None),
    ensures
        result is Ok,
{
}

/// A string that the engine always declines is not created.
pub proof fn law_declined_string_is_not_created<
    F: FnOnce(PyIsolateCreateValue) -> Option<ObscuredGlobal>,
>(isolate: &PyIsolate, data: String, make: F, result: Result<PyValue, PyError>)
    requires
        call_ensures(PyValue::create_string::<F>, (isolate, data, make), result),
        forall|made: Option<ObscuredGlobal>| #[trigger]
            make.ensures((PyIsolateCreateValue::String(data),), made) ==> made is None,
    ensures
        result is Err,
{
}

/// A number is always created: it belongs to the isolate, and is what the engine made of all its
/// bits.
pub proof fn law_create_number_gives_what_the_engine_makes<
    F: FnOnce(PyIsolateCreateValue) -> Option<ObscuredGlobal>,
>(isolate: &PyIsolate, data: u64, make: F, result: Result<PyValue, PyError>)
    requires
        call_ensures(PyValue::create_number::<F>, (isolate, data, make), result),
    ensures
        result matches Ok(value) && value.state == isolate.state && value.data is Some
            && make.ensures((PyIsolateCreateValue::Number(data),), value.data),
{
}

/// Javascript's `undefined` is always created: it belongs to the isolate, and is what the engine
/// made for it.
pub proof fn law_create_undefined_gives_what_the_engine_makes<
    F: FnOnce(PyIsolateCreateValue) -> Option<ObscuredGlobal>,
>(isolate: &PyIsolate, make: F, result: Result<PyValue, PyError>)
    requires
        call_ensures(PyValue::create_undefined::<F>, (isolate, make), result),
    ensures
        result matches Ok(value) && value.state == isolate.state && value.data is Some
            && make.ensures((PyIsolateCreateValue::Undefined,), value.data),
{
}

/// Javascript's `null` is always created: it belongs to the isolate, and is what the engine made
/// for it.
pub proof fn law_create_null_gives_what_the_engine_makes<
    F: FnOnce(PyIsolateCreateValue) -> Option<ObscuredGlobal>,
>(isolate: &PyIsolate, make: F, result: Result<PyValue, PyError>)
    requires
        call_ensures(PyValue::create_null::<F>, (isolate, make), result),
    ensures
        result matches Ok(value) && value.state == isolate.state && value.data is Some
            && make.ensures((PyIsolateCreateValue::Null,), value.data),
{
}

/// Every value can be created in an engine that can be asked for it and, unless it is a string,
/// does not decline it.
pub proof fn law_every_value_can_be_created<
    F: FnOnce(PyIsolateCreateValue) -> Option<ObscuredGlobal>,
>(isolate: &PyIsolate, text: String, number: u64, make: F)
    requires
        forall|cv: PyIsolateCreateValue| #[trigger] make.requires((cv,)),
        forall|cv: PyIsolateCreateValue|
            !(cv is String) ==> !(#[trigger] make.ensures((cv,), None)),
    ensures
        call_requires(PyValue::create_string::<F>, (isolate, text, make)),
        call_requires(PyValue::create_number::<F>, (isolate, number, make)),
        call_requires(PyValue::create_undefined::<F>, (isolate, make)),
        call_requires(PyValue::create_null::<F>, (isolate, make)),
{
    assert(forall|cv: PyIsolateCreateValue, made: Option<ObscuredGlobal>|
        !(cv is String) && #[trigger] make.ensures((cv,), made) ==> made is Some);
}

/// A value is said to be a 32-bit integer exactly if the engine says so of it, whatever else the
/// engine says. A value without a handle is an error.
pub proof fn law_is_int32_is_what_the_engine_says<F: FnOnce(usize) -> ValueFacts>(
    value: &PyValue,
    inspect: F,
    result: Result<bool, PyError>,
)
    requires
        call_ensures(PyValue::is_int32::<F>, (value, inspect), result),
    ensures
        match value.data {
            Some(global) => exists|facts: ValueFacts| #[trigger]
                inspect.ensures((global@,), facts) && result == Ok::<bool, PyError>(facts.int32),
            None => result matches Err(PyError::Runtime(message)) && message@
                == "data is already released"@,
        },
{
}

/// A value is said to be an unsigned 32-bit integer exactly if the engine says so of it, whatever else the
/// engine says. A value without a handle is an error.
pub proof fn law_is_uint32_is_what_the_engine_says<F: FnOnce(usize) -> ValueFacts>(
    value: &PyValue,
    inspect: F,
    result: Result<bool, PyError>,
)
    requires
        call_ensures(PyValue::is_uint32::<F>, (value, inspect), result),
    ensures
        match value.data {
            Some(global) => exists|facts: ValueFacts| #[trigger]
                inspect.ensures((global@,), facts) && result == Ok::<bool, PyError>(facts.uint32),
            None => result matches Err(PyError::Runtime(message)) && message@
                == "data is already released"@,
        },
{
}

/// A value is said to be a number exactly if the engine says so of it, whatever else the
/// engine says. A value without a handle is an error.
pub proof fn law_is_float64_is_what_the_engine_says<F: FnOnce(usize) -> ValueFacts>(
    value: &PyValue,
    inspect: F,
    result: Result<bool, PyError>,
)
    requires
        call_ensures(PyValue::is_float64::<F>, (value, inspect), result),
    ensures
        match value.data {
            Some(global) => exists|facts: ValueFacts| #[trigger]
                inspect.ensures((global@,), facts) && result == Ok::<bool, PyError>(facts.number),
            None => result matches Err(PyError::Runtime(message)) && message@
                == "data is already released"@,
        },
{
}

/// A value is said to be a big integer exactly if the engine says so of it, whatever else the
/// engine says. A value without a handle is an error.
pub proof fn law_is_bigint_is_what_the_engine_says<F: FnOnce(usize) -> ValueFacts>(
    value: &PyValue,
    inspect: F,
    result: Result<bool, PyError>,
)
    requires
        call_ensures(PyValue::is_bigint::<F>, (value, inspect), result),
    ensures
        match value.data {
            Some(global) => exists|facts: ValueFacts| #[trigger]
                inspect.ensures((global@,), facts) && result == Ok::<bool, PyError>(facts.big_int),
            None => result matches Err(PyError::Runtime(message)) && message@
                == "data is already released"@,
        },
{
}

/// A value is said to be a boolean exactly if the engine says so of it, whatever else the
/// engine says. A value without a handle is an error.
pub proof fn law_is_boolean_is_what_the_engine_says<F: FnOnce(usize) -> ValueFacts>(
    value: &PyValue,
    inspect: F,
    result: Result<bool, PyError>,
)
    requires
        call_ensures(PyValue::is_boolean::<F>, (value, inspect), result),
    ensures
        match value.data {
            Some(global) => exists|facts: ValueFacts| #[trigger]
                inspect.ensures((global@,), facts) && result == Ok::<bool, PyError>(facts.boolean),
            None => result matches Err(PyError::Runtime(message)) && message@
                == "data is already released"@,
        },
{
}

/// A value is said to be a string exactly if the engine says so of it, whatever else the
/// engine says. A value without a handle is an error.
pub proof fn law_is_string_is_what_the_engine_says<F: FnOnce(usize) -> ValueFacts>(
    value: &PyValue,
    inspect: F,
    result: Result<bool, PyError>,
)
    requires
        call_ensures(PyValue::is_string::<F>, (value, inspect), result),
    ensures
        match value.data {
            Some(global) => exists|facts: ValueFacts| #[trigger]
                inspect.ensures((global@,), facts) && result == Ok::<bool, PyError>(facts.string),
            None => result matches Err(PyError::Runtime(message)) && message@
                == "data is already released"@,
        },
{
}

/// A value is said to be `undefined` exactly if the engine says so of it, whatever else the
/// engine says. A value without a handle is an error.
pub proof fn law_is_undefined_is_what_the_engine_says<F: FnOnce(usize) -> ValueFacts>(
    value: &PyValue,
    inspect: F,
    result: Result<bool, PyError>,
)
    requires
        call_ensures(PyValue::is_undefined::<F>, (value, inspect), result),
    ensures
        match value.data {
            Some(global) => exists|facts: ValueFacts| #[trigger]
                inspect.ensures((global@,), facts) && result == Ok::<bool, PyError>(facts.undefined),
            None => result matches Err(PyError::Runtime(message)) && message@
                == "data is already released"@,
        },
{
}

/// A value is said to be `null` exactly if the engine says so of it, whatever else the
/// engine says. A value without a handle is an error.
pub proof fn law_is_null_is_what_the_engine_says<F: FnOnce(usize) -> ValueFacts>(
    value: &PyValue,
    inspect: F,
    result: Result<bool, PyError>,
)
    requires
        call_ensures(PyValue::is_null::<F>, (value, inspect), result),
    ensures
        match value.data {
            Some(global) => exists|facts: ValueFacts| #[trigger]
                inspect.ensures((global@,), facts) && result == Ok::<bool, PyError>(facts.null),
            None => result matches Err(PyError::Runtime(message)) && message@
                == "data is already released"@,
        },
{
}

/// A value is said to be `null` or `undefined` exactly if the engine says so of it, whatever else the
/// engine says. A value without a handle is an error.
pub proof fn law_is_null_or_undefined_is_what_the_engine_says<F: FnOnce(usize) -> ValueFacts>(
    value: &PyValue,
    inspect: F,
    result: Result<bool, PyError>,
)
    requires
        call_ensures(PyValue::is_null_or_undefined::<F>, (value, inspect), result),
    ensures
        match value.data {
            Some(global) => exists|facts: ValueFacts| #[trigger]
                inspect.ensures((global@,), facts) && result == Ok::<bool, PyError>(facts.null || facts.undefined),
            None => result matches Err(PyError::Runtime(message)) && message@
                == "data is already released"@,
        },
{
}

/// Every question can be asked about every value that the engine can look at, and about every
/// value that is gone.
pub proof fn law_every_question_can_be_asked<F: FnOnce(usize) -> ValueFacts>(
    value: &PyValue,
    inspect: F,
)
    requires
        value.data matches Some(global) ==> inspect.requires((global@,)),
    ensures
        call_requires(PyValue::is_int32::<F>, (value, inspect)),
        call_requires(PyValue::is_uint32::<F>, (value, inspect)),
        call_requires(PyValue::is_float64::<F>, (value, inspect)),
        call_requires(PyValue::is_bigint::<F>, (value, inspect)),
        call_requires(PyValue::is_boolean::<F>, (value, inspect)),
        call_requires(PyValue::is_string::<F>, (value, inspect)),
        call_requires(PyValue::is_undefined::<F>, (value, inspect)),
        call_requires(PyValue::is_null::<F>, (value, inspect)),
        call_requires(PyValue::is_null_or_undefined::<F>, (value, inspect)),
{
}

/// A value of which the engine says neither `null` nor `undefined` is never taken for one of
/// them.
pub proof fn law_nothing_else_is_null_or_undefined<
    F: FnOnce(usize) -> ValueFacts,
    D: FnOnce(ObscuredGlobal),
>(
    value: &mut PyValue,
    inspect: F,
    free: D,
    asked: Result<bool, PyError>,
    undefined: Result<PyUndefined, PyError>,
    none: Result<(), PyError>,
)
    requires
        old(value).data is Some,
        forall|facts: ValueFacts| #[trigger]
            inspect.ensures((old(value).data->0@,), facts) ==> !facts.null && !facts.undefined,
        call_ensures(PyValue::is_null_or_undefined::<F>, (old(value), inspect), asked),
        call_ensures(PyValue::to_undefined::<F, D>, (value, inspect, free), undefined),
        call_ensures(PyValue::to_none::<F, D>, (value, inspect, free), none),
    ensures
        asked == Ok::<bool, PyError>(false),
        undefined matches Err(PyError::Type(_)),
        none matches Err(PyError::Type(_)),
{
}

/// The facts of a value say `null` or `undefined` exactly if one of the two is set.
pub proof fn law_facts_say_null_or_undefined(facts: &ValueFacts, nullish: bool)
    requires
        call_ensures(ValueFacts::is_nullish, (facts,), nullish),
    ensures
        nullish == (facts.null || facts.undefined),
{
}

/// A value taken as a 32-bit integer is what the engine says of it, unchanged, and a type error if
/// the engine declines. Either way the value has no handle afterwards, which was freed.
pub proof fn law_to_int_gives_what_the_engine_says<
    F: FnOnce(usize) -> Option<i32>,
    D: FnOnce(ObscuredGlobal),
>(value: &mut PyValue, int32_value: F, free: D, result: Result<i32, PyError>)
    requires
        call_ensures(PyValue::to_int::<F, D>, (value, int32_value, free), result),
    ensures
        final(value).data is None,
        final(value).state == old(value).state,
        old(value).data matches Some(global) ==> free.ensures((global,), ()),
        match old(value).data {
            Some(global) => match result {
                Ok(converted) => int32_value.ensures((global@,), Some(converted)),
                Err(error) => int32_value.ensures((global@,), None) && (
                error matches PyError::Type(message) && message@
                    == "failed to convert value to int32"@),
            },
            None => result matches Err(PyError::Runtime(message)) && message@
                == "data is already released"@,
        },
{
}

/// A value taken as an unsigned 32-bit integer is what the engine says of it, unchanged, and a type error if
/// the engine declines. Either way the value has no handle afterwards, which was freed.
pub proof fn law_to_uint_gives_what_the_engine_says<
    F: FnOnce(usize) -> Option<u32>,
    D: FnOnce(ObscuredGlobal),
>(value: &mut PyValue, uint32_value: F, free: D, result: Result<u32, PyError>)
    requires
        call_ensures(PyValue::to_uint::<F, D>, (value, uint32_value, free), result),
    ensures
        final(value).data is None,
        final(value).state == old(value).state,
        old(value).data matches Some(global) ==> free.ensures((global,), ()),
        match old(value).data {
            Some(global) => match result {
                Ok(converted) => uint32_value.ensures((global@,), Some(converted)),
                Err(error) => uint32_value.ensures((global@,), None) && (
                error matches PyError::Type(message) && message@
                    == "failed to convert value to uint32"@),
            },
            None => result matches Err(PyError::Runtime(message)) && message@
                == "data is already released"@,
        },
{
}

/// A value taken as a number is what the engine says of it, unchanged, and a type error if
/// the engine declines. Either way the value has no handle afterwards, which was freed.
pub proof fn law_to_float_gives_what_the_engine_says<
    N,
    F: FnOnce(usize) -> Option<N>,
    D: FnOnce(ObscuredGlobal),
>(value: &mut PyValue, number_value: F, free: D, result: Result<N, PyError>)
    requires
        call_ensures(PyValue::to_float::<N, F, D>, (value, number_value, free), result),
    ensures
        final(value).data is None,
        final(value).state == old(value).state,
        old(value).data matches Some(global) ==> free.ensures((global,), ()),
        match old(value).data {
            Some(global) => match result {
                Ok(converted) => number_value.ensures((global@,), Some(converted)),
                Err(error) => number_value.ensures((global@,), None) && (
                error matches PyError::Type(message) && message@
                    == "failed to convert value to float (float64)"@),
            },
            None => result matches Err(PyError::Runtime(message)) && message@
                == "data is already released"@,
        },
{
}

/// A value taken as a 64-bit integer is what the engine says of it, unchanged, and a type error if
/// the engine declines. Either way the value has no handle afterwards, which was freed.
pub proof fn law_to_bigint_gives_what_the_engine_says<
    F: FnOnce(usize) -> Option<i64>,
    D: FnOnce(ObscuredGlobal),
>(value: &mut PyValue, integer_value: F, free: D, result: Result<i64, PyError>)
    requires
        call_ensures(PyValue::to_bigint::<F, D>, (value, integer_value, free), result),
    ensures
        final(value).data is None,
        final(value).state == old(value).state,
        old(value).data matches Some(global) ==> free.ensures((global,), ()),
        match old(value).data {
            Some(global) => match result {
                Ok(converted) => integer_value.ensures((global@,), Some(converted)),
                Err(error) => integer_value.ensures((global@,), None) && (
                error matches PyError::Type(message) && message@
                    == "failed to convert value to integer (int64)"@),
            },
            None => result matches Err(PyError::Runtime(message)) && message@
                == "data is already released"@,
        },
{
}

/// A value taken as a boolean is what the engine says of it, and never a failure. The value has
/// no handle afterwards, which was freed.
pub proof fn law_to_bool_gives_what_the_engine_says<
    F: FnOnce(usize) -> bool,
    D: FnOnce(ObscuredGlobal),
>(value: &mut PyValue, boolean_value: F, free: D, result: Result<bool, PyError>)
    requires
        call_ensures(PyValue::to_bool::<F, D>, (value, boolean_value, free), result),
    ensures
        final(value).data is None,
        final(value).state == old(value).state,
        old(value).data matches Some(global) ==> free.ensures((global,), ()),
        match old(value).data {
            Some(global) => result matches Ok(truth) && boolean_value.ensures((global@,), truth),
            None => result matches Err(PyError::Runtime(message)) && message@
                == "data is already released"@,
        },
{
}

/// Text is taken only of what the engine says is a string, and is then all of the text that the
/// engine has for it; anything else fails. Either way the value has no handle afterwards, which
/// was freed.
pub proof fn law_text_is_taken_of_strings_only<
    F: FnOnce(usize) -> ValueFacts,
    G: FnOnce(usize) -> String,
    D: FnOnce(ObscuredGlobal),
>(value: &mut PyValue, inspect: F, text: G, free: D, result: Result<String, PyError>)
    requires
        call_ensures(PyValue::to_str::<F, G, D>, (value, inspect, text, free), result),
    ensures
        final(value).data is None,
        final(value).state == old(value).state,
        old(value).data matches Some(global) ==> free.ensures((global,), ()),
        match old(value).data {
            Some(global) => match result {
                Ok(characters) => text.ensures((global@,), characters) && exists|facts: ValueFacts|
                 #[trigger]
                    inspect.ensures((global@,), facts) && facts.string,
                Err(error) => (error matches PyError::Type(message) && message@
                    == "failed to convert to string"@) && exists|facts: ValueFacts| #[trigger]
                    inspect.ensures((global@,), facts) && !facts.string,
            },
            None => result matches Err(PyError::Runtime(message)) && message@
                == "data is already released"@,
        },
{
}

/// A value of which the engine never says that it is a string has no text, whatever else the
/// engine says of it.
pub proof fn law_no_string_has_no_text<
    F: FnOnce(usize) -> ValueFacts,
    G: FnOnce(usize) -> String,
    D: FnOnce(ObscuredGlobal),
>(value: &mut PyValue, inspect: F, text: G, free: D, result: Result<String, PyError>)
    requires
        call_ensures(PyValue::to_str::<F, G, D>, (value, inspect, text, free), result),
        old(value).data is Some,
        forall|facts: ValueFacts| #[trigger]
            inspect.ensures((old(value).data->0@,), facts) ==> !facts.string,
    ensures
        result matches Err(PyError::Type(_)),
{
}

/// A value of which the engine always says that it is a string has its text taken.
pub proof fn law_string_has_its_text<
    F: FnOnce(usize) -> ValueFacts,
    G: FnOnce(usize) -> String,
    D: FnOnce(ObscuredGlobal),
>(value: &mut PyValue, inspect: F, text: G, free: D, result: Result<String, PyError>)
    requires
        call_ensures(PyValue::to_str::<F, G, D>, (value, inspect, text, free), result),
        old(value).data is Some,
        forall|facts: ValueFacts| #[trigger]
            inspect.ensures((old(value).data->0@,), facts) ==> facts.string,
    ensures
        result is Ok,
{
}

/// A value is taken as `undefined` exactly if the engine says that it is `null` or `undefined`.
/// Either way the value has no handle afterwards, which was freed.
pub proof fn law_to_undefined_takes_null_and_undefined<
    F: FnOnce(usize) -> ValueFacts,
    D: FnOnce(ObscuredGlobal),
>(value: &mut PyValue, inspect: F, free: D, result: Result<PyUndefined, PyError>)
    requires
        call_ensures(PyValue::to_undefined::<F, D>, (value, inspect, free), result),
    ensures
        final(value).data is None,
        final(value).state == old(value).state,
        old(value).data matches Some(global) ==> free.ensures((global,), ()),
        match old(value).data {
            Some(global) => match result {
                Ok(_) => exists|facts: ValueFacts| #[trigger]
                    inspect.ensures((global@,), facts) && (facts.null || facts.undefined),
                Err(error) => (error matches PyError::Type(message) && message@
                    == "expected undefined while converting value to undefined"@) && exists|facts: ValueFacts| #[trigger]
                    inspect.ensures((global@,), facts) && !facts.null && !facts.undefined,
            },
            None => result matches Err(PyError::Runtime(message)) && message@
                == "data is already released"@,
        },
{
}

/// A value is taken as Python's `None` exactly if the engine says that it is `null` or `undefined`.
/// Either way the value has no handle afterwards, which was freed.
pub proof fn law_to_none_takes_null_and_undefined<
    F: FnOnce(usize) -> ValueFacts,
    D: FnOnce(ObscuredGlobal),
>(value: &mut PyValue, inspect: F, free: D, result: Result<(), PyError>)
    requires
        call_ensures(PyValue::to_none::<F, D>, (value, inspect, free), result),
    ensures
        final(value).data is None,
        final(value).state == old(value).state,
        old(value).data matches Some(global) ==> free.ensures((global,), ()),
        match old(value).data {
            Some(global) => match result {
                Ok(_) => exists|facts: ValueFacts| #[trigger]
                    inspect.ensures((global@,), facts) && (facts.null || facts.undefined),
                Err(error) => (error matches PyError::Type(message) && message@
                    == "expected undefined or null while converting value to null"@) && exists|facts: ValueFacts| #[trigger]
                    inspect.ensures((global@,), facts) && !facts.null && !facts.undefined,
            },
            None => result matches Err(PyError::Runtime(message)) && message@
                == "data is already released"@,
        },
{
}

/// Every conversion can be tried on every value that the engine can look at and free, and on
/// every value that is gone.
pub proof fn law_every_conversion_can_be_tried<
    N,
    I: FnOnce(usize) -> Option<i32>,
    U: FnOnce(usize) -> Option<u32>,
    F: FnOnce(usize) -> Option<N>,
    B: FnOnce(usize) -> Option<i64>,
    T: FnOnce(usize) -> bool,
    K: FnOnce(usize) -> ValueFacts,
    S: FnOnce(usize) -> String,
    D: FnOnce(ObscuredGlobal),
>(
    value: &mut PyValue,
    int32_value: I,
    uint32_value: U,
    number_value: F,
    integer_value: B,
    boolean_value: T,
    inspect: K,
    text: S,
    free: D,
)
    requires
        old(value).data matches Some(global) ==> {
            &&& int32_value.requires((global@,))
            &&& uint32_value.requires((global@,))
            &&& number_value.requires((global@,))
            &&& integer_value.requires((global@,))
            &&& boolean_value.requires((global@,))
            &&& inspect.requires((global@,))
            &&& text.requires((global@,))
            &&& free.requires((global,))
        },
    ensures
        call_requires(PyValue::to_int::<I, D>, (value, int32_value, free)),
        call_requires(PyValue::to_uint::<U, D>, (value, uint32_value, free)),
        call_requires(PyValue::to_float::<N, F, D>, (value, number_value, free)),
        call_requires(PyValue::to_bigint::<B, D>, (value, integer_value, free)),
        call_requires(PyValue::to_bool::<T, D>, (value, boolean_value, free)),
        call_requires(PyValue::to_str::<K, S, D>, (value, inspect, text, free)),
        call_requires(PyValue::to_undefined::<K, D>, (value, inspect, free)),
        call_requires(PyValue::to_none::<K, D>, (value, inspect, free)),
{
}

/// What the engine converts is passed on as it is, and what it declines is a type error with the
/// given message.
pub proof fn law_conversion_is_passed_on<T>(
    converted: Option<T>,
    message: &str,
    result: Result<T, PyError>,
)
    requires
        call_ensures(converted_or::<T>, (converted, message), result),
    ensures
        converted matches Some(value) ==> result == Ok::<T, PyError>(value),
        converted is None ==> (result matches Err(PyError::Type(text)) && text@ == message@),
{
}

/// Facts stand for `undefined`, and for `None`, exactly if they say `null` or `undefined`.
pub proof fn law_facts_stand_for_nothing(
    facts: ValueFacts,
    undefined: Result<PyUndefined, PyError>,
    none: Result<(), PyError>,
)
    requires
        call_ensures(undefined_of, (facts,), undefined),
        call_ensures(none_of, (facts,), none),
    ensures
        undefined is Ok == (facts.null || facts.undefined),
        none is Ok == (facts.null || facts.undefined),
        undefined matches Err(error) ==> (error matches PyError::Type(message) && message@
            == "expected undefined while converting value to undefined"@),
        none matches Err(error) ==> (error matches PyError::Type(message) && message@
            == "expected undefined or null while converting value to null"@),
{
}

/// A value is printed with its handle as that is printed, and with `None` if it has none.
pub proof fn law_value_prints_its_handle(value: &PyValue, text: String, printed: String)
    requires
        call_ensures(PyValue::__repr__, (value,), text),
        value.data matches Some(global) ==> call_ensures(
            ObscuredGlobal::to_string,
            (&global,),
            printed,
        ),
    ensures
        value.data is Some ==> text@ == "Value("@ + printed@ + ")"@,
        value.data is None ==> text@ == "Value(None)"@,
{
    reveal_strlit("Value(");
    reveal_strlit("None");
    reveal_strlit(")");
    reveal_strlit("Value(None)");
    assert("Value("@ + "None"@ + ")"@ =~= "Value(None)"@);
}

} // verus!
