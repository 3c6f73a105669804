//! Javascript's `undefined`, as Python sees it.
use vstd::prelude::*;

verus! {

/// The Python object for `undefined`. It holds nothing, so all of them are the same.
#[derive(Clone, Copy, Debug, PartialEq, Eq, Structural)]
pub struct PyUndefined;

impl PyUndefined {
    /// `undefined` is false.
    pub fn __bool__(&self) -> (truth: bool)
        ensures
            !truth,
    {
        false
    }

    /// `undefined` is written as in Javascript.
    pub fn __repr__(&self) -> (text: &'static str)
        ensures
            text@ == "undefined"@,
    {
        "undefined"
    }
}

/// However it came about, `undefined` counts as false and is written in one way.
pub proof fn law_undefined_is_false(undefined: &PyUndefined, truth: bool, text: &'static str)
    requires
        call_ensures(PyUndefined::__bool__, (undefined,), truth),
        call_ensures(PyUndefined::__repr__, (undefined,), text),
    ensures
        truth == false,
        text@ == seq!['u', 'n', 'd', 'e', 'f', 'i', 'n', 'e', 'd'],
{
    reveal_strlit("undefined");
}

} // verus!
