//! Value types that the C++ bridge test project exchanges with C++ code.

use vstd::prelude::*;

verus! {

/// An outcome with a flag and a message.
#[derive(Clone, Debug)]
pub struct OkResult {
    pub value: bool,
    pub message: String,
}

/// A result that holds a shared, possibly null, outcome.
#[derive(Clone, Debug)]
pub struct TestResult {
    pub ok: Option<OkResult>,
}

/// A value handed from one bridge to the other.
#[derive(Clone, Debug)]
pub struct NewVal {
    pub value: bool,
    pub message: String,
}

/// A successful result whose message is `message` (the caller passes a timestamp).
pub fn make_result(message: String) -> (r: Result<TestResult, String>)
    ensures
        r matches Ok(t) && t.ok matches Some(o) && o.value && o.message@ == message@,
{
    Ok(TestResult { ok: Some(OkResult { value: true, message }) })
}

/// A set value whose message is `message` (the caller passes a timestamp).
pub fn make_new_val(message: String) -> (r: NewVal)
    ensures
        r.value,
        r.message@ == message@,
{
    NewVal { value: true, message }
}

/// The result that carries `other`'s flag and message, or, when there is no `other`, a fresh
/// successful result with message `message`.
pub fn combine_result(other: Option<NewVal>, message: String) -> (r: Result<TestResult, String>)
    ensures
        r matches Ok(t) && t.ok matches Some(o) && match other {
            Some(v) => o.value == v.value && o.message@ == v.message@,
            None => o.value && o.message@ == message@,
        },
{
    match other {
        Some(v) => Ok(TestResult { ok: Some(OkResult { value: v.value, message: v.message }) }),
        None => make_result(message),
    }
}

} // verus!
