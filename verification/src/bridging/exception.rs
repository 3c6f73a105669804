//! What a script threw, as a Python exception.
use vstd::prelude::*;
use vstd::string::StringExecFns;

use crate::error::PyError;
use crate::error::PyErrorView;

verus! {

/// A property of a Javascript object: the text that it converts to, and whether it is `null`
/// or `undefined`.
#[derive(Debug)]
pub struct JsProperty {
    pub nullish: bool,
    pub text: String,
}

/// What is read of an object that a script threw. A property that could not be read is
/// missing.
#[derive(Debug)]
pub struct JsException {
    pub name: Option<JsProperty>,
    pub message: Option<JsProperty>,
    pub stack: Option<JsProperty>,
}

/// The text of a property, and `default` for one that could not be read.
pub open spec fn text_or(property: Option<JsProperty>, default: Seq<char>) -> Seq<char> {
    match property {
        Some(read) => read.text@,
        None => default,
    }
}

/// The text of a property, and nothing for one that is `null`, `undefined` or could not be
/// read.
pub open spec fn text_if_present(property: Option<JsProperty>) -> Seq<char> {
    match property {
        Some(read) => if read.nullish {
            Seq::empty()
        } else {
            read.text@
        },
        None => Seq::empty(),
    }
}

impl JsException {
    /// The message of the Python exception for this one.
    pub open spec fn report(&self) -> Seq<char> {
        "("@ + text_or(self.name, "Error"@) + ") "@ + text_or(self.message, "unknown message"@)
            + "\nStack trace:\n"@ + text_if_present(self.stack)
    }

    /// Reads the name, the message and the stack trace of a thrown object through `get`, which
    /// reads a property by its name.
    pub fn read<F: Fn(&str) -> Option<JsProperty>>(get: F) -> (exception: JsException)
        requires
            get.requires(("name",)),
            get.requires(("message",)),
            get.requires(("stack",)),
        ensures
            get.ensures(("name",), exception.name),
            get.ensures(("message",), exception.message),
            get.ensures(("stack",), exception.stack),
    {
        let name: Option<JsProperty> = get("name");
        let message: Option<JsProperty> = get("message");
        let stack: Option<JsProperty> = get("stack");
        JsException { name, message, stack }
    }
}

/// The Python exception class for what scripts throw.
pub struct JsError;

impl JsError {
    /// The Python exception for a thrown object. Without a name it is an `Error`, without a
    /// message its message is unknown, and without a stack trace it has an empty one.
    pub fn from_exception(exception: &JsException) -> (error: PyError)
        ensures
            error@ == PyErrorView::Js(exception.report()),
    {
        let mut report: String = "(".to_owned();
        match &exception.name {
            Some(name) => report.append(name.text.as_str()),
            None => report.append("Error"),
        }
        report.append(") ");
        match &exception.message {
            Some(message) => report.append(message.text.as_str()),
            None => report.append("unknown message"),
        }
        report.append("\nStack trace:\n");
        match &exception.stack {
            Some(stack) => if !stack.nullish {
                report.append(stack.text.as_str());
            },
            None => {},
        }
        assert(report@ =~= exception.report());
        PyError::Js(report)
    }
}

/// Each part of an exception is what the thrown object has under that part's own name.
pub proof fn law_parts_are_read_by_their_names<F: Fn(&str) -> Option<JsProperty>>(
    get: F,
    exception: JsException,
)
    requires
        call_ensures(JsException::read::<F>, (get,), exception),
    ensures
        get.ensures(("name",), exception.name),
        get.ensures(("message",), exception.message),
        get.ensures(("stack",), exception.stack),
{
}

/// An exception becomes a `JsError` whose message has the name in brackets, then the message,
/// and below that the stack trace. A name or a message that could not be read has a default,
/// but one that is `null` or `undefined` is written as it converts to text; a stack trace that
/// could not be read, or is `null` or `undefined`, is left out.
pub proof fn law_exception_reports_its_parts(exception: &JsException, error: PyError)
    requires
        call_ensures(JsError::from_exception, (exception,), error),
    ensures
        error matches PyError::Js(text) && text@ == "("@ + (match exception.name {
            Some(name) => name.text@,
            None => "Error"@,
        }) + ") "@ + (match exception.message {
            Some(message) => message.text@,
            None => "unknown message"@,
        }) + "\nStack trace:\n"@ + (match exception.stack {
            Some(JsProperty { nullish: false, text: trace }) => trace@,
            _ => Seq::<char>::empty(),
        }),
{
}

/// Exceptions whose parts read the same are reported the same.
pub proof fn law_report_depends_on_the_parts_alone(
    one: &JsException,
    other: &JsException,
    first: PyError,
    second: PyError,
)
    requires
        one.name is Some && other.name is Some && one.name->0.text@ == other.name->0.text@,
        one.message is Some && other.message is Some && one.message->0.text@
            == other.message->0.text@,
        one.stack is Some && other.stack is Some && one.stack->0.nullish == other.stack->0.nullish
            && one.stack->0.text@ == other.stack->0.text@,
        call_ensures(JsError::from_exception, (one,), first),
        call_ensures(JsError::from_exception, (other,), second),
    ensures
        first matches PyError::Js(text) && (second matches PyError::Js(same) && text@ == same@),
{
}

} // verus!
