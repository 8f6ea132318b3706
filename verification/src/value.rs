//! Values and errors as compiled code sees them.

use vstd::prelude::*;

verus! {

/// A JavaScript value.
///
/// Floating-point numbers are kept as their bits. What lives on the heap is known
/// by a handle.
#[derive(Clone, Copy, Debug, PartialEq, Eq, Structural)]
pub enum JsValue {
    Undefined,
    Null,
    Boolean(bool),
    Integer32(i32),
    Float64(u64),
    BigInt(u64),
    String(u64),
    Symbol(u64),
    Object(u64),
}

impl JsValue {
    /// Tells whether the value is an object.
    pub fn is_object(&self) -> (yes: bool)
        ensures
            yes == (*self is Object),
    {
        matches!(*self, JsValue::Object(_))
    }

    /// Tells whether the value is undefined.
    pub fn is_undefined(&self) -> (yes: bool)
        ensures
            yes == (*self is Undefined),
    {
        matches!(*self, JsValue::Undefined)
    }

    /// The handle of the object that the value is, if it is one.
    pub open spec fn spec_as_object(self) -> Option<u64> {
        match self {
            JsValue::Object(object) => Some(object),
            _ => None,
        }
    }

    /// Returns the handle of the object that the value is, if it is one.
    pub fn as_object(&self) -> (object: Option<u64>)
        ensures
            object == self.spec_as_object(),
    {
        match *self {
            JsValue::Object(object) => Some(object),
            _ => None,
        }
    }
}

impl Default for JsValue {
    /// The default value is undefined.
    fn default() -> (value: JsValue)
        ensures
            value == JsValue::Undefined,
    {
        JsValue::Undefined
    }
}

/// The constructor of a native error.
#[derive(Clone, Copy, Debug, PartialEq, Eq, Structural)]
pub enum ErrorKind {
    Type,
    Reference,
}

/// What an exception carries.
#[derive(Debug)]
pub enum JsError {
    /// A value that was thrown.
    Thrown(JsValue),
    /// An error raised by the engine itself.
    Native { kind: ErrorKind, message: String },
    /// A loop ran for more iterations than the limit allows.
    LoopIterationLimit,
}

/// [`JsError`] as a mathematical value.
pub enum ErrorView {
    Thrown(JsValue),
    Native { kind: ErrorKind, message: Seq<char> },
    LoopIterationLimit,
}

impl View for JsError {
    type V = ErrorView;

    open spec fn view(&self) -> ErrorView {
        match *self {
            JsError::Thrown(value) => ErrorView::Thrown(value),
            JsError::Native { kind, message } => ErrorView::Native { kind, message: message@ },
            JsError::LoopIterationLimit => ErrorView::LoopIterationLimit,
        }
    }
}

/// How a function or a script finished.
pub enum CompletionRecord {
    Normal(JsValue),
    Return(JsValue),
    Throw(JsError),
}

/// A value is taken for an object exactly if it is one, and then its handle is its own.
pub proof fn objects_have_handles(value: JsValue, object: u64)
    ensures
        JsValue::Object(object).spec_as_object() == Some(object),
        value.spec_as_object() is Some <==> value is Object,
        value.spec_as_object() == Some(object) ==> value == JsValue::Object(object),
{
}

/// An error as a mathematical value has all that the error has.
pub proof fn errors_keep_their_contents(value: JsValue, kind: ErrorKind, message: String)
    ensures
        JsError::Thrown(value)@ == ErrorView::Thrown(value),
        (JsError::Native { kind, message })@ == (ErrorView::Native { kind, message: message@ }),
        JsError::LoopIterationLimit@ == ErrorView::LoopIterationLimit,
{
}

} // verus!
