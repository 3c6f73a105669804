//! A value of the engine that Python holds.
use vstd::prelude::*;
use vstd::string::StringExecFns;

use crate::bridging::undefined::PyUndefined;
use crate::error::fails_with;
use crate::error::PyError;
use crate::error::PyErrorView;
use crate::isolates::isolate::creates;
use crate::isolates::isolate::never_declines;
use crate::isolates::isolate::PyIsolate;
use crate::isolates::isolate::PyIsolateCreateValue;
use crate::transmit::pointer_text;
use crate::transmit::ObscuredGlobal;

verus! {

/// What the engine says of the kind of a value.
#[derive(Clone, Copy, Debug, PartialEq, Eq, Structural)]
pub struct ValueFacts {
    pub int32: bool,
    pub uint32: bool,
    pub number: bool,
    pub big_int: bool,
    pub boolean: bool,
    pub string: bool,
    pub undefined: bool,
    pub null: bool,
}

impl ValueFacts {
    /// Whether the value is `null` or `undefined`.
    pub open spec fn nullish(self) -> bool {
        self.null || self.undefined
    }

    /// Whether the value is `null` or `undefined`.
    pub fn is_nullish(&self) -> (nullish: bool)
        ensures
            nullish == self.nullish(),
    {
        self.null || self.undefined
    }
}

/// The error of every use of a value that was released or taken before.
pub open spec fn already_released() -> PyErrorView {
    PyErrorView::Runtime("data is already released"@)
}

/// `result` is what a conversion gives that the engine answered with `converted`: the value,
/// or a type error with the given message.
pub open spec fn conversion<T>(
    converted: Option<T>,
    message: Seq<char>,
    result: Result<T, PyError>,
) -> bool {
    match converted {
        Some(value) => result == Ok::<T, PyError>(value),
        None => fails_with(result, PyErrorView::Type(message)),
    }
}

/// The result of a conversion that the engine may decline.
pub fn converted_or<T>(converted: Option<T>, message: &str) -> (result: Result<T, PyError>)
    ensures
        conversion(converted, message@, result),
{
    match converted {
        Some(value) => Ok(value),
        None => Err(PyError::type_error(message)),
    }
}

/// A value of the engine, until it is released or taken.
#[derive(Debug)]
pub struct PyValue {
    /// The number of the state of the isolate that the value lives in.
    pub state: u64,
    /// The handle on the value, unless it was released or taken.
    pub data: Option<ObscuredGlobal>,
}

impl PyValue {
    /// The same value once it was released or taken.
    pub open spec fn given_up(self) -> PyValue {
        PyValue { state: self.state, data: None }
    }

    /// A value that Python holds from now on.
    #[must_use]
    pub fn new(state: u64, value: ObscuredGlobal) -> (py_value: PyValue)
        ensures
            py_value == (PyValue { state, data: Some(value) }),
    {
        PyValue { state, data: Some(value) }
    }

    /// Gives the value up. The handle that was still held, if any, is left to the caller to
    /// free.
    pub fn release(&mut self) -> (freed: Option<ObscuredGlobal>)
        ensures
            freed == old(self).data,
            *final(self) == old(self).given_up(),
    {
        self.data.take()
    }

    /// Takes the value and hands its handle to `run`, which has to see to it that the root is
    /// freed. Afterwards Python does not hold the value any more, whatever `run` made of it.
    pub fn try_take_data_with<T, F: FnOnce(ObscuredGlobal) -> Result<T, PyError>>(
        &mut self,
        run: F,
    ) -> (result: Result<T, PyError>)
        requires
            old(self).data matches Some(global) ==> run.requires((global,)),
        ensures
            *final(self) == old(self).given_up(),
            match old(self).data {
                Some(global) => run.ensures((global,), result),
                None => fails_with(result, already_released()),
            },
    {
        match self.data.take() {
            Some(global) => run(global),
            None => Err(PyError::runtime("data is already released")),
        }
    }

    /// Lets `run` look at the value, by the address of its root. Python keeps the value, and
    /// `run` must not free the root.
    pub fn try_get_data_with<T, F: FnOnce(usize) -> Result<T, PyError>>(&self, run: F) -> (result:
        Result<T, PyError>)
        requires
            self.data matches Some(global) ==> run.requires((global@,)),
        ensures
            match self.data {
                Some(global) => run.ensures((global@,), result),
                None => fails_with(result, already_released()),
            },
    {
        match &self.data {
            Some(global) => global.with(run),
            None => Err(PyError::runtime("data is already released")),
        }
    }

    /// A Javascript string. `make` creates values in the engine, and may decline a string.
    pub fn create_string<F: FnOnce(PyIsolateCreateValue) -> Option<ObscuredGlobal>>(
        isolate: &PyIsolate,
        data: String,
        make: F,
    ) -> (result: Result<PyValue, PyError>)
        requires
            make.requires((PyIsolateCreateValue::String(data),)),
        ensures
            creates_string(make, data, isolate.state, result),
    {
        match isolate.create_value(PyIsolateCreateValue::String(data), make) {
            Ok(value) => Ok(PyValue::new(isolate.state, value)),
            Err(error) => Err(error),
        }
    }

    /// A Javascript number, from the bits of a double.
    pub fn create_number<F: FnOnce(PyIsolateCreateValue) -> Option<ObscuredGlobal>>(
        isolate: &PyIsolate,
        data: u64,
        make: F,
    ) -> (result: Result<PyValue, PyError>)
        requires
            never_declines(make, PyIsolateCreateValue::Number(data)),
        ensures
            creates(make, PyIsolateCreateValue::Number(data), isolate.state, result),
    {
        match isolate.create_value(PyIsolateCreateValue::Number(data), make) {
            Ok(value) => Ok(PyValue::new(isolate.state, value)),
            Err(error) => Err(error),
        }
    }

    /// Javascript's `undefined`.
    pub fn create_undefined<F: FnOnce(PyIsolateCreateValue) -> Option<ObscuredGlobal>>(
        isolate: &PyIsolate,
        make: F,
    ) -> (result: Result<PyValue, PyError>)
        requires
            never_declines(make, PyIsolateCreateValue::Undefined),
        ensures
            creates(make, PyIsolateCreateValue::Undefined, isolate.state, result),
    {
        match isolate.create_value(PyIsolateCreateValue::Undefined, make) {
            Ok(value) => Ok(PyValue::new(isolate.state, value)),
            Err(error) => Err(error),
        }
    }

    /// Javascript's `null`.
    pub fn create_null<F: FnOnce(PyIsolateCreateValue) -> Option<ObscuredGlobal>>(
        isolate: &PyIsolate,
        make: F,
    ) -> (result: Result<PyValue, PyError>)
        requires
            never_declines(make, PyIsolateCreateValue::Null),
        ensures
            creates(make, PyIsolateCreateValue::Null, isolate.state, result),
    {
        match isolate.create_value(PyIsolateCreateValue::Null, make) {
            Ok(value) => Ok(PyValue::new(isolate.state, value)),
            Err(error) => Err(error),
        }
    }
}

/// `result` holds, for the isolate with the given state, the string that `make` made of `data`,
/// or the error that it declined.
pub open spec fn creates_string<F: FnOnce(PyIsolateCreateValue) -> Option<ObscuredGlobal>>(
    make: F,
    data: String,
    state: u64,
    result: Result<PyValue, PyError>,
) -> bool {
    exists|made: Option<ObscuredGlobal>| #[trigger]
        make.ensures((PyIsolateCreateValue::String(data),), made) && match made {
            Some(value) => result == Ok::<PyValue, PyError>(PyValue { state, data: Some(value) }),
            None => fails_with(result, PyErrorView::Runtime("failed to create string"@)),
        }
}

/// `result` is the answer to a question about the kind of `value`: what `select` picks of what
/// `inspect` says of it, or an error if the value is gone.
pub open spec fn answers<F: FnOnce(usize) -> ValueFacts>(
    value: PyValue,
    inspect: F,
    select: spec_fn(ValueFacts) -> bool,
    result: Result<bool, PyError>,
) -> bool {
    match value.data {
        Some(global) => exists|facts: ValueFacts| #[trigger]
            inspect.ensures((global@,), facts) && result == Ok::<bool, PyError>(select(facts)),
        None => fails_with(result, already_released()),
    }
}

/// `result` is what the conversion of `value` by `convert` gives: what `convert` says, or a
/// type error with the given message if it declines, or an error if the value is gone.
pub open spec fn converts<T, F: FnOnce(usize) -> Option<T>>(
    value: PyValue,
    convert: F,
    message: Seq<char>,
    result: Result<T, PyError>,
) -> bool {
    match value.data {
        Some(global) => exists|converted: Option<T>| #[trigger]
            convert.ensures((global@,), converted) && conversion(converted, message, result),
        None => fails_with(result, already_released()),
    }
}

/// `f` can be called on the address of the root of `value`, unless the value is gone.
pub open spec fn callable_on<R, F: FnOnce(usize) -> R>(f: F, value: PyValue) -> bool {
    value.data matches Some(global) ==> f.requires((global@,))
}

/// `free` can be handed the handle of `value`, unless the value is gone.
pub open spec fn can_free<D: FnOnce(ObscuredGlobal)>(free: D, value: PyValue) -> bool {
    value.data matches Some(global) ==> free.requires((global,))
}

/// The handle of `value` was handed to `free`, unless the value was gone.
pub open spec fn freed<D: FnOnce(ObscuredGlobal)>(free: D, value: PyValue) -> bool {
    value.data matches Some(global) ==> free.ensures((global,), ())
}

/// Questions about the kind of a value. `inspect` asks the engine, by the address of the
/// value's root, and only looks at it.
impl PyValue {
    /// What the engine says of the kind of the value.
    fn facts<F: FnOnce(usize) -> ValueFacts>(&self, inspect: F) -> (result: Result<
        ValueFacts,
        PyError,
    >)
        requires
            callable_on(inspect, *self),
        ensures
            match self.data {
                Some(global) => result matches Ok(facts) && inspect.ensures((global@,), facts),
                None => fails_with(result, already_released()),
            },
    {
        let ask = |address: usize| -> (result: Result<ValueFacts, PyError>)
            requires
                inspect.requires((address,)),
            ensures
                result matches Ok(facts) && inspect.ensures((address,), facts),
            { Ok(inspect(address)) };
        self.try_get_data_with(ask)
    }

    /// Whether the value is a 32-bit integer.
    pub fn is_int32<F: FnOnce(usize) -> ValueFacts>(&self, inspect: F) -> (result: Result<
        bool,
        PyError,
    >)
        requires
            callable_on(inspect, *self),
        ensures
            answers(*self, inspect, (|facts: ValueFacts| facts.int32), result),
    {
        match self.facts(inspect) {
            Ok(facts) => Ok(facts.int32),
            Err(error) => Err(error),
        }
    }

    /// Whether the value is an unsigned 32-bit integer.
    pub fn is_uint32<F: FnOnce(usize) -> ValueFacts>(&self, inspect: F) -> (result: Result<
        bool,
        PyError,
    >)
        requires
            callable_on(inspect, *self),
        ensures
            answers(*self, inspect, (|facts: ValueFacts| facts.uint32), result),
    {
        match self.facts(inspect) {
            Ok(facts) => Ok(facts.uint32),
            Err(error) => Err(error),
        }
    }

    /// Whether the value is a number.
    pub fn is_float64<F: FnOnce(usize) -> ValueFacts>(&self, inspect: F) -> (result: Result<
        bool,
        PyError,
    >)
        requires
            callable_on(inspect, *self),
        ensures
            answers(*self, inspect, (|facts: ValueFacts| facts.number), result),
    {
        match self.facts(inspect) {
            Ok(facts) => Ok(facts.number),
            Err(error) => Err(error),
        }
    }

    /// Whether the value is a big integer.
    pub fn is_bigint<F: FnOnce(usize) -> ValueFacts>(&self, inspect: F) -> (result: Result<
        bool,
        PyError,
    >)
        requires
            callable_on(inspect, *self),
        ensures
            answers(*self, inspect, (|facts: ValueFacts| facts.big_int), result),
    {
        match self.facts(inspect) {
            Ok(facts) => Ok(facts.big_int),
            Err(error) => Err(error),
        }
    }

    /// Whether the value is a boolean.
    pub fn is_boolean<F: FnOnce(usize) -> ValueFacts>(&self, inspect: F) -> (result: Result<
        bool,
        PyError,
    >)
        requires
            callable_on(inspect, *self),
        ensures
            answers(*self, inspect, (|facts: ValueFacts| facts.boolean), result),
    {
        match self.facts(inspect) {
            Ok(facts) => Ok(facts.boolean),
            Err(error) => Err(error),
        }
    }

    /// Whether the value is a string.
    pub fn is_string<F: FnOnce(usize) -> ValueFacts>(&self, inspect: F) -> (result: Result<
        bool,
        PyError,
    >)
        requires
            callable_on(inspect, *self),
        ensures
            answers(*self, inspect, (|facts: ValueFacts| facts.string), result),
    {
        match self.facts(inspect) {
            Ok(facts) => Ok(facts.string),
            Err(error) => Err(error),
        }
    }

    /// Whether the value is `undefined`.
    pub fn is_undefined<F: FnOnce(usize) -> ValueFacts>(&self, inspect: F) -> (result: Result<
        bool,
        PyError,
    >)
        requires
            callable_on(inspect, *self),
        ensures
            answers(*self, inspect, (|facts: ValueFacts| facts.undefined), result),
    {
        match self.facts(inspect) {
            Ok(facts) => Ok(facts.undefined),
            Err(error) => Err(error),
        }
    }

    /// Whether the value is `null`.
    pub fn is_null<F: FnOnce(usize) -> ValueFacts>(&self, inspect: F) -> (result: Result<
        bool,
        PyError,
    >)
        requires
            callable_on(inspect, *self),
        ensures
            answers(*self, inspect, (|facts: ValueFacts| facts.null), result),
    {
        match self.facts(inspect) {
            Ok(facts) => Ok(facts.null),
            Err(error) => Err(error),
        }
    }

    /// Whether the value is `null` or `undefined`.
    pub fn is_null_or_undefined<F: FnOnce(usize) -> ValueFacts>(&self, inspect: F) -> (result:
        Result<bool, PyError>)
        requires
            callable_on(inspect, *self),
        ensures
            answers(*self, inspect, (|facts: ValueFacts| facts.nullish()), result),
    {
        match self.facts(inspect) {
            Ok(facts) => Ok(facts.is_nullish()),
            Err(error) => Err(error),
        }
    }
}

/// Conversions. The functions that ask the engine only look at the value, by the address of its
/// root. Whatever comes of it, Python does not hold the value afterwards, and its handle was
/// handed to `free`, which frees the root.
impl PyValue {
    /// Takes the value and lets `convert` convert it, which may decline.
    fn take_converted<T, F: FnOnce(usize) -> Option<T>, D: FnOnce(ObscuredGlobal)>(
        &mut self,
        convert: F,
        free: D,
        message: &str,
    ) -> (result: Result<T, PyError>)
        requires
            callable_on(convert, *old(self)),
            can_free(free, *old(self)),
        ensures
            *final(self) == old(self).given_up(),
            freed(free, *old(self)),
            converts(*old(self), convert, message@, result),
    {
        let ask = |global: ObscuredGlobal| -> (result: Result<T, PyError>)
            requires
                convert.requires((global@,)),
                free.requires((global,)),
            ensures
                free.ensures((global,), ()),
                exists|converted: Option<T>| #[trigger]
                    convert.ensures((global@,), converted) && conversion(
                        converted,
                        message@,
                        result,
                    ),
            {
                let converted: Option<T> = global.with(convert);
                free(global);
                converted_or(converted, message)
            };
        self.try_take_data_with(ask)
    }

    /// Takes the value as a 32-bit integer. `int32_value` asks the engine for it.
    pub fn to_int<F: FnOnce(usize) -> Option<i32>, D: FnOnce(ObscuredGlobal)>(
        &mut self,
        int32_value: F,
        free: D,
    ) -> (result: Result<i32, PyError>)
        requires
            callable_on(int32_value, *old(self)),
            can_free(free, *old(self)),
        ensures
            *final(self) == old(self).given_up(),
            freed(free, *old(self)),
            converts(*old(self), int32_value, "failed to convert value to int32"@, result),
    {
        self.take_converted(int32_value, free, "failed to convert value to int32")
    }

    /// Takes the value as an unsigned 32-bit integer. `uint32_value` asks the engine for it.
    pub fn to_uint<F: FnOnce(usize) -> Option<u32>, D: FnOnce(ObscuredGlobal)>(
        &mut self,
        uint32_value: F,
        free: D,
    ) -> (result: Result<u32, PyError>)
        requires
            callable_on(uint32_value, *old(self)),
            can_free(free, *old(self)),
        ensures
            *final(self) == old(self).given_up(),
            freed(free, *old(self)),
            converts(*old(self), uint32_value, "failed to convert value to uint32"@, result),
    {
        self.take_converted(uint32_value, free, "failed to convert value to uint32")
    }

    /// Takes the value as a number. `number_value` asks the engine for it.
    /// `N` is the type in which the engine gives numbers.
    pub fn to_float<N, F: FnOnce(usize) -> Option<N>, D: FnOnce(ObscuredGlobal)>(
        &mut self,
        number_value: F,
        free: D,
    ) -> (result: Result<N, PyError>)
        requires
            callable_on(number_value, *old(self)),
            can_free(free, *old(self)),
        ensures
            *final(self) == old(self).given_up(),
            freed(free, *old(self)),
            converts(*old(self), number_value, "failed to convert value to float (float64)"@, result),
    {
        self.take_converted(number_value, free, "failed to convert value to float (float64)")
    }

    /// Takes the value as a 64-bit integer. `integer_value` asks the engine for it.
    pub fn to_bigint<F: FnOnce(usize) -> Option<i64>, D: FnOnce(ObscuredGlobal)>(
        &mut self,
        integer_value: F,
        free: D,
    ) -> (result: Result<i64, PyError>)
        requires
            callable_on(integer_value, *old(self)),
            can_free(free, *old(self)),
        ensures
            *final(self) == old(self).given_up(),
            freed(free, *old(self)),
            converts(*old(self), integer_value, "failed to convert value to integer (int64)"@, result),
    {
        self.take_converted(integer_value, free, "failed to convert value to integer (int64)")
    }

    /// Takes the value as a boolean, which every value has.
    pub fn to_bool<F: FnOnce(usize) -> bool, D: FnOnce(ObscuredGlobal)>(
        &mut self,
        boolean_value: F,
        free: D,
    ) -> (result: Result<bool, PyError>)
        requires
            callable_on(boolean_value, *old(self)),
            can_free(free, *old(self)),
        ensures
            *final(self) == old(self).given_up(),
            freed(free, *old(self)),
            match old(self).data {
                Some(global) => result matches Ok(truth) && boolean_value.ensures(
                    (global@,),
                    truth,
                ),
                None => fails_with(result, already_released()),
            },
    {
        let ask = |global: ObscuredGlobal| -> (result: Result<bool, PyError>)
            requires
                boolean_value.requires((global@,)),
                free.requires((global,)),
            ensures
                free.ensures((global,), ()),
                result matches Ok(truth) && boolean_value.ensures((global@,), truth),
            {
                let truth: bool = global.with(boolean_value);
                free(global);
                Ok(truth)
            };
        self.try_take_data_with(ask)
    }

    /// Takes what the engine says of the kind of the value.
    fn take_facts<F: FnOnce(usize) -> ValueFacts, D: FnOnce(ObscuredGlobal)>(
        &mut self,
        inspect: F,
        free: D,
    ) -> (result: Result<ValueFacts, PyError>)
        requires
            callable_on(inspect, *old(self)),
            can_free(free, *old(self)),
        ensures
            *final(self) == old(self).given_up(),
            freed(free, *old(self)),
            match old(self).data {
                Some(global) => result matches Ok(facts) && inspect.ensures((global@,), facts),
                None => fails_with(result, already_released()),
            },
    {
        let ask = |global: ObscuredGlobal| -> (result: Result<ValueFacts, PyError>)
            requires
                inspect.requires((global@,)),
                free.requires((global,)),
            ensures
                free.ensures((global,), ()),
                result matches Ok(facts) && inspect.ensures((global@,), facts),
            {
                let facts: ValueFacts = global.with(inspect);
                free(global);
                Ok(facts)
            };
        self.try_take_data_with(ask)
    }

    /// Takes the text of a string. A value of another kind is not converted. `inspect` asks
    /// the engine for the kind of the value, and `text` for its text.
    pub fn to_str<
        F: FnOnce(usize) -> ValueFacts,
        G: FnOnce(usize) -> String,
        D: FnOnce(ObscuredGlobal),
    >(
        &mut self,
        inspect: F,
        text: G,
        free: D,
    ) -> (result: Result<String, PyError>)
        requires
            callable_on(inspect, *old(self)),
            callable_on(text, *old(self)),
            can_free(free, *old(self)),
        ensures
            *final(self) == old(self).given_up(),
            freed(free, *old(self)),
            takes_text(*old(self), inspect, text, result),
    {
        let ask = |global: ObscuredGlobal| -> (result: Result<String, PyError>)
            requires
                inspect.requires((global@,)),
                text.requires((global@,)),
                free.requires((global,)),
            ensures
                free.ensures((global,), ()),
                exists|facts: ValueFacts| #[trigger]
                    inspect.ensures((global@,), facts) && reads_text(
                        facts,
                        text,
                        global@,
                        result,
                    ),
            {
                let facts: ValueFacts = global.with(inspect);
                let result: Result<String, PyError> = if facts.string {
                    Ok(global.with(text))
                } else {
                    Err(PyError::type_error("failed to convert to string"))
                };
                free(global);
                result
            };
        self.try_take_data_with(ask)
    }

    /// Takes `undefined`, for which `null` is taken too.
    pub fn to_undefined<F: FnOnce(usize) -> ValueFacts, D: FnOnce(ObscuredGlobal)>(
        &mut self,
        inspect: F,
        free: D,
    ) -> (result: Result<PyUndefined, PyError>)
        requires
            callable_on(inspect, *old(self)),
            can_free(free, *old(self)),
        ensures
            *final(self) == old(self).given_up(),
            freed(free, *old(self)),
            match old(self).data {
                Some(global) => exists|facts: ValueFacts| #[trigger]
                    inspect.ensures((global@,), facts) && conversion(
                        nullish_as(facts, PyUndefined),
                        "expected undefined while converting value to undefined"@,
                        result,
                    ),
                None => fails_with(result, already_released()),
            },
    {
        match self.take_facts(inspect, free) {
            Ok(facts) => undefined_of(facts),
            Err(error) => Err(error),
        }
    }

    /// Takes `null`, for which `undefined` is taken too, as Python's `None`.
    pub fn to_none<F: FnOnce(usize) -> ValueFacts, D: FnOnce(ObscuredGlobal)>(
        &mut self,
        inspect: F,
        free: D,
    ) -> (result: Result<(), PyError>)
        requires
            callable_on(inspect, *old(self)),
            can_free(free, *old(self)),
        ensures
            *final(self) == old(self).given_up(),
            freed(free, *old(self)),
            match old(self).data {
                Some(global) => exists|facts: ValueFacts| #[trigger]
                    inspect.ensures((global@,), facts) && conversion(
                        nullish_as(facts, ()),
                        "expected undefined or null while converting value to null"@,
                        result,
                    ),
                None => fails_with(result, already_released()),
            },
    {
        match self.take_facts(inspect, free) {
            Ok(facts) => none_of(facts),
            Err(error) => Err(error),
        }
    }

    /// The value as Python prints it: with the address of its root, or with `None` once it is
    /// gone.
    pub fn __repr__(&self) -> (text: String)
        ensures
            text@ == match self.data {
                Some(global) => "Value("@ + pointer_text(global@) + ")"@,
                None => "Value("@ + "None"@ + ")"@,
            },
    {
        let mut text: String = "Value(".to_owned();
        match &self.data {
            Some(global) => text.append(global.to_string().as_str()),
            None => text.append("None"),
        }
        text.append(")");
        text
    }
}

/// `result` is the text of a value of the kind `facts` with the root at `address`, as `text`
/// gives it, or a type error if the value is no string.
pub open spec fn reads_text<G: FnOnce(usize) -> String>(
    facts: ValueFacts,
    text: G,
    address: usize,
    result: Result<String, PyError>,
) -> bool {
    if facts.string {
        result matches Ok(characters) && text.ensures((address,), characters)
    } else {
        fails_with(result, PyErrorView::Type("failed to convert to string"@))
    }
}

/// `result` is what taking the text of `value` gives: its text, or a type error if the value is
/// no string, or an error if the value is gone.
pub open spec fn takes_text<F: FnOnce(usize) -> ValueFacts, G: FnOnce(usize) -> String>(
    value: PyValue,
    inspect: F,
    text: G,
    result: Result<String, PyError>,
) -> bool {
    match value.data {
        Some(global) => exists|facts: ValueFacts| #[trigger]
            inspect.ensures((global@,), facts) && reads_text(facts, text, global@, result),
        None => fails_with(result, already_released()),
    }
}

/// `object` for a value that is `null` or `undefined`, and nothing for any other.
pub open spec fn nullish_as<T>(facts: ValueFacts, object: T) -> Option<T> {
    if facts.nullish() {
        Some(object)
    } else {
        None
    }
}

/// `undefined` for a value that is `null` or `undefined`.
pub fn undefined_of(facts: ValueFacts) -> (result: Result<PyUndefined, PyError>)
    ensures
        conversion(
            nullish_as(facts, PyUndefined),
            "expected undefined while converting value to undefined"@,
            result,
        ),
{
    if facts.is_nullish() {
        Ok(PyUndefined)
    } else {
        Err(PyError::type_error("expected undefined while converting value to undefined"))
    }
}

/// Python's `None` for a value that is `null` or `undefined`.
pub fn none_of(facts: ValueFacts) -> (result: Result<(), PyError>)
    ensures
        conversion(
            nullish_as(facts, ()),
            "expected undefined or null while converting value to null"@,
            result,
        ),
{
    if facts.is_nullish() {
        Ok(())
    } else {
        Err(PyError::type_error("expected undefined or null while converting value to null"))
    }
}

/// The same value over time. A look at it leaves it as it is; a release or a conversion gives
/// it up.
pub open spec fn value_history(values: Seq<PyValue>) -> bool {
    forall|i: int, j: int|
        #![trigger values[i], values[j]]
        0 <= i && j == i + 1 && j < values.len() ==> values[j] == values[i] || values[j]
            == values[i].given_up()
}

/// A value that was given up is gone for ever.
pub proof fn law_given_up_value_is_gone(values: Seq<PyValue>, earlier: int, later: int)
    requires
        value_history(values),
        0 <= earlier <= later < values.len(),
        values[earlier].data is None,
    ensures
        values[later] == values[earlier],
    decreases later,
{
    if earlier < later {
        law_given_up_value_is_gone(values, earlier, later - 1);
        assert(values[later] == values[later - 1] || values[later] == values[later - 1].given_up());
    }
}

/// The handle of a value leaves it at most once, however the value is used: it is released, or
/// one conversion has it freed.
pub proof fn law_root_is_handed_out_once(values: Seq<PyValue>, first: int, second: int)
    requires
        value_history(values),
        0 <= first,
        0 <= second,
        first + 1 < values.len(),
        second + 1 < values.len(),
        values[first].data is Some && values[first + 1].data is None,
        values[second].data is Some && values[second + 1].data is None,
    ensures
        first == second,
{
    if first < second {
        law_given_up_value_is_gone(values, first + 1, second);
    }
    if second < first {
        law_given_up_value_is_gone(values, second + 1, first);
    }
}

/// A string that is created and then taken is the same, character for character, as far as the
/// engine keeps it: what `make` makes of it is a string, and has its text.
pub proof fn law_created_string_is_taken_back<
    M: FnOnce(PyIsolateCreateValue) -> Option<ObscuredGlobal>,
    F: FnOnce(usize) -> ValueFacts,
    G: FnOnce(usize) -> String,
>(
    make: M,
    inspect: F,
    text: G,
    data: String,
    state: u64,
    created: PyValue,
    taken: Result<String, PyError>,
)
    requires
        creates_string(make, data, state, Ok(created)),
        takes_text(created, inspect, text, taken),
        forall|root: ObscuredGlobal, facts: ValueFacts|
            #![trigger make.ensures((PyIsolateCreateValue::String(data),), Some(root)), inspect.ensures((root@,), facts)]
            make.ensures((PyIsolateCreateValue::String(data),), Some(root)) && inspect.ensures(
                (root@,),
                facts,
            ) ==> facts.string,
        forall|root: ObscuredGlobal, characters: String|
            #![trigger make.ensures((PyIsolateCreateValue::String(data),), Some(root)), text.ensures((root@,), characters)]
            make.ensures((PyIsolateCreateValue::String(data),), Some(root)) && text.ensures(
                (root@,),
                characters,
            ) ==> characters@ == data@,
    ensures
        created.state == state,
        taken matches Ok(characters) && characters@ == data@,
{
}

/// A number that is created and then taken is the same, as far as the engine keeps it: what the
/// engine gives for what `make` makes of the number is, by `same`, that number.
pub proof fn law_created_number_is_taken_back<
    N,
    M: FnOnce(PyIsolateCreateValue) -> Option<ObscuredGlobal>,
    F: FnOnce(usize) -> Option<N>,
>(
    make: M,
    number_value: F,
    same: spec_fn(u64, N) -> bool,
    data: u64,
    state: u64,
    created: PyValue,
    taken: Result<N, PyError>,
)
    requires
        creates(make, PyIsolateCreateValue::Number(data), state, Ok(created)),
        converts(
            created,
            number_value,
            "failed to convert value to float (float64)"@,
            taken,
        ),
        forall|root: ObscuredGlobal, given: Option<N>|
            #![trigger make.ensures((PyIsolateCreateValue::Number(data),), Some(root)), number_value.ensures((root@,), given)]
            make.ensures((PyIsolateCreateValue::Number(data),), Some(root))
                && number_value.ensures((root@,), given) ==> (given matches Some(number) && same(
                data,
                number,
            )),
    ensures
        created.state == state,
        taken matches Ok(number) && same(data, number),
{
}

} // verus!
