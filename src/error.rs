use vstd::prelude::*;
use vstd::string::*;

verus! {

/// The ways in which evaluation fails.
#[derive(Debug, PartialEq)]
pub enum AsaErrorKind {
    /// An unknown function name, or an unknown variable name.
    UndefinedFunction,
    VariableNotDefined(String),
    DivisionByZero,
    NumberOverflow,
    NumberUnderflow,
    TypeMismatch,
    Generic(String),
    IoError(String),
}

/// The mathematical form of an [`AsaErrorKind`].
pub enum Fault {
    UndefinedFunction,
    VariableNotDefined(Seq<char>),
    DivisionByZero,
    NumberOverflow,
    NumberUnderflow,
    TypeMismatch,
    Generic(Seq<char>),
    IoError(Seq<char>),
}

impl View for AsaErrorKind {
    type V = Fault;

    open spec fn view(&self) -> Fault {
        match self {
            AsaErrorKind::UndefinedFunction => Fault::UndefinedFunction,
            AsaErrorKind::VariableNotDefined(s) => Fault::VariableNotDefined(s@),
            AsaErrorKind::DivisionByZero => Fault::DivisionByZero,
            AsaErrorKind::NumberOverflow => Fault::NumberOverflow,
            AsaErrorKind::NumberUnderflow => Fault::NumberUnderflow,
            AsaErrorKind::TypeMismatch => Fault::TypeMismatch,
            AsaErrorKind::Generic(s) => Fault::Generic(s@),
            AsaErrorKind::IoError(s) => Fault::IoError(s@),
        }
    }
}

/// Builds a `Generic` error that carries `msg`.
pub fn generic(msg: &str) -> (e: AsaErrorKind)
    ensures
        e@ == Fault::Generic(msg@),
{
    AsaErrorKind::Generic(String::from_str(msg))
}

} // verus!
