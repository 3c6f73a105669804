//! The exceptions that the bindings raise on the Python side.
use vstd::prelude::*;

verus! {

/// An exception to be raised in Python, by its class and its message.
#[derive(Debug)]
pub enum PyError {
    /// A `RuntimeError`.
    Runtime(String),
    /// A `TypeError`.
    Type(String),
    /// A `JsError`: something that a script threw.
    Js(String),
}

/// What a [`PyError`] says, with the message as a sequence of characters.
pub enum PyErrorView {
    Runtime(Seq<char>),
    Type(Seq<char>),
    Js(Seq<char>),
}

impl View for PyError {
    type V = PyErrorView;

    open spec fn view(&self) -> PyErrorView {
        match self {
            PyError::Runtime(message) => PyErrorView::Runtime(message@),
            PyError::Type(message) => PyErrorView::Type(message@),
            PyError::Js(message) => PyErrorView::Js(message@),
        }
    }
}

impl PyError {
    /// A `RuntimeError` with the given message.
    pub fn runtime(message: &str) -> (error: PyError)
        ensures
            error@ == PyErrorView::Runtime(message@),
    {
        PyError::Runtime(message.to_owned())
    }

    /// A `TypeError` with the given message.
    pub fn type_error(message: &str) -> (error: PyError)
        ensures
            error@ == PyErrorView::Type(message@),
    {
        PyError::Type(message.to_owned())
    }

    /// The message that the exception carries.
    pub fn message(&self) -> (message: &str)
        ensures
            message@ == self.text(),
    {
        match self {
            PyError::Runtime(message) => message.as_str(),
            PyError::Type(message) => message.as_str(),
            PyError::Js(message) => message.as_str(),
        }
    }

    /// The characters of the message, whatever the class.
    pub open spec fn text(&self) -> Seq<char> {
        match self@ {
            PyErrorView::Runtime(message) => message,
            PyErrorView::Type(message) => message,
            PyErrorView::Js(message) => message,
        }
    }
}

/// `result` is the failure that `error` describes.
pub open spec fn fails_with<T>(result: Result<T, PyError>, error: PyErrorView) -> bool {
    result matches Err(raised) && raised@ == error
}

/// A runtime error is one, and has exactly the message that it is made with.
pub proof fn law_runtime_error_has_its_message(message: &str, error: PyError)
    requires
        call_ensures(PyError::runtime, (message,), error),
    ensures
        error matches PyError::Runtime(text) && text@ == message@,
{
}

/// A type error is one, and has exactly the message that it is made with.
pub proof fn law_type_error_has_its_message(message: &str, error: PyError)
    requires
        call_ensures(PyError::type_error, (message,), error),
    ensures
        error matches PyError::Type(text) && text@ == message@,
{
}

/// Whatever its class, an error tells the message that it holds.
pub proof fn law_error_tells_what_it_holds(error: &PyError, message: &str)
    requires
        call_ensures(PyError::message, (error,), message),
    ensures
        *error matches PyError::Runtime(text) ==> message@ == text@,
        *error matches PyError::Type(text) ==> message@ == text@,
        *error matches PyError::Js(text) ==> message@ == text@,
{
}

} // verus!
