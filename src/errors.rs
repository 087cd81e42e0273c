//! Errors of the expression language.
use vstd::prelude::*;

verus! {

/// Byte range of the source text that an error refers to.
#[derive(Debug, Clone, Copy, PartialEq, Eq, Structural)]
pub struct Span {
    /// Byte offset of the start position.
    pub start: usize,
    /// Byte offset of the end position.
    pub end: usize,
}

/// What went wrong while evaluating, as a mathematical value.
pub enum Fault {
    DivisionByZero,
    Overflow,
    NegativeExponent,
    ExponentTooLarge,
    FactorialOfNegative,
    FactorialTooLarge,
    InvalidNumber,
    Undefined(Seq<u8>),
    Syntax,
}

/// Specific kinds of errors that can occur during evaluation.
#[derive(Debug)]
pub enum EvalErrorKind {
    DivisionByZero,
    IntegerOverflow(String),
    NegativeExponent,
    ExponentTooLarge,
    FactorialOfNegative,
    FactorialTooLarge,
    InvalidNumber(String),
    UnknownOperator(String),
    MissingOperand,
    SyntaxError,
    Other(String),
}

/// Characters of a byte sequence read as ASCII.
pub open spec fn ascii_chars(b: Seq<u8>) -> Seq<char> {
    b.map_values(|c: u8| c as char)
}

pub open spec fn is_ascii_bytes(b: Seq<u8>) -> bool {
    forall|i: int| 0 <= i < b.len() ==> b[i] < 128
}

/// The text of the error on an undefined name.
pub open spec fn undefined_text(name: Seq<u8>) -> Seq<char> {
    "Undefined variable: "@ + ascii_chars(name)
}

/// `k` is the error kind that reports `f`.
pub open spec fn reports(k: EvalErrorKind, f: Fault) -> bool {
    match f {
        Fault::DivisionByZero => k is DivisionByZero,
        Fault::Overflow => k is IntegerOverflow,
        Fault::NegativeExponent => k is NegativeExponent,
        Fault::ExponentTooLarge => k is ExponentTooLarge,
        Fault::FactorialOfNegative => k is FactorialOfNegative,
        Fault::FactorialTooLarge => k is FactorialTooLarge,
        Fault::InvalidNumber => k is InvalidNumber,
        Fault::Undefined(n) => k matches EvalErrorKind::Other(s) && (is_ascii_bytes(n) ==> s@
            == undefined_text(n)),
        Fault::Syntax => k is SyntaxError,
    }
}

/// Machine-readable code of an error kind.
pub open spec fn kind_code(k: EvalErrorKind) -> Seq<char> {
    match k {
        EvalErrorKind::DivisionByZero => "DIVISION_BY_ZERO"@,
        EvalErrorKind::IntegerOverflow(_) => "INTEGER_OVERFLOW"@,
        EvalErrorKind::NegativeExponent => "NEGATIVE_EXPONENT"@,
        EvalErrorKind::ExponentTooLarge => "EXPONENT_TOO_LARGE"@,
        EvalErrorKind::FactorialOfNegative => "FACTORIAL_OF_NEGATIVE"@,
        EvalErrorKind::FactorialTooLarge => "FACTORIAL_TOO_LARGE"@,
        EvalErrorKind::InvalidNumber(_) => "INVALID_NUMBER"@,
        EvalErrorKind::UnknownOperator(_) => "UNKNOWN_OPERATOR"@,
        EvalErrorKind::MissingOperand => "MISSING_OPERAND"@,
        EvalErrorKind::SyntaxError => "SYNTAX_ERROR"@,
        EvalErrorKind::Other(_) => "OTHER_ERROR"@,
    }
}

/// Human-readable text of an error kind.
pub open spec fn kind_message(k: EvalErrorKind) -> Seq<char> {
    match k {
        EvalErrorKind::DivisionByZero => "Division by zero"@,
        EvalErrorKind::IntegerOverflow(d) => "Integer overflow: "@ + d@,
        EvalErrorKind::NegativeExponent => "Negative exponent"@,
        EvalErrorKind::ExponentTooLarge => "Exponent too large"@,
        EvalErrorKind::FactorialOfNegative => "Factorial of negative number"@,
        EvalErrorKind::FactorialTooLarge => "Factorial too large"@,
        EvalErrorKind::InvalidNumber(d) => "Invalid number: "@ + d@,
        EvalErrorKind::UnknownOperator(d) => "Unknown operator: "@ + d@,
        EvalErrorKind::MissingOperand => "Missing operand"@,
        EvalErrorKind::SyntaxError => "Syntax error in expression"@,
        EvalErrorKind::Other(d) => d@,
    }
}

fn joined(head: &str, tail: &String) -> (r: String)
    ensures
        r@ == head@ + tail@,
{
    let mut m = String::from_str(head);
    m.append(tail.as_str());
    m
}

impl EvalErrorKind {
    /// Returns a machine-readable error code for this error kind.
    pub fn code(&self) -> (r: &'static str)
        ensures
            r@ == kind_code(*self),
    {
        match self {
            EvalErrorKind::DivisionByZero => "DIVISION_BY_ZERO",
            EvalErrorKind::IntegerOverflow(_) => "INTEGER_OVERFLOW",
            EvalErrorKind::NegativeExponent => "NEGATIVE_EXPONENT",
            EvalErrorKind::ExponentTooLarge => "EXPONENT_TOO_LARGE",
            EvalErrorKind::FactorialOfNegative => "FACTORIAL_OF_NEGATIVE",
            EvalErrorKind::FactorialTooLarge => "FACTORIAL_TOO_LARGE",
            EvalErrorKind::InvalidNumber(_) => "INVALID_NUMBER",
            EvalErrorKind::UnknownOperator(_) => "UNKNOWN_OPERATOR",
            EvalErrorKind::MissingOperand => "MISSING_OPERAND",
            EvalErrorKind::SyntaxError => "SYNTAX_ERROR",
            EvalErrorKind::Other(_) => "OTHER_ERROR",
        }
    }

    /// Human-readable description of this error kind.
    pub fn message(&self) -> (r: String)
        ensures
            r@ == kind_message(*self),
    {
        match self {
            EvalErrorKind::DivisionByZero => String::from_str("Division by zero"),
            EvalErrorKind::IntegerOverflow(d) => joined("Integer overflow: ", d),
            EvalErrorKind::NegativeExponent => String::from_str("Negative exponent"),
            EvalErrorKind::ExponentTooLarge => String::from_str("Exponent too large"),
            EvalErrorKind::FactorialOfNegative => String::from_str("Factorial of negative number"),
            EvalErrorKind::FactorialTooLarge => String::from_str("Factorial too large"),
            EvalErrorKind::InvalidNumber(d) => joined("Invalid number: ", d),
            EvalErrorKind::UnknownOperator(d) => joined("Unknown operator: ", d),
            EvalErrorKind::MissingOperand => String::from_str("Missing operand"),
            EvalErrorKind::SyntaxError => String::from_str("Syntax error in expression"),
            EvalErrorKind::Other(d) => d.clone(),
        }
    }
}

/// An evaluation error with the source range it refers to.
#[derive(Debug)]
pub struct EvalError {
    pub kind: EvalErrorKind,
    pub span: Span,
}

impl EvalError {
    /// An error of `kind` over `span`.
    pub fn new(kind: EvalErrorKind, span: Span) -> (r: EvalError)
        ensures
            r.kind == kind,
            r.span == span,
    {
        EvalError { kind, span }
    }

    /// The machine-readable code of this error.
    pub fn code(&self) -> (r: Option<&'static str>)
        ensures
            r matches Some(c) && c@ == kind_code(self.kind),
    {
        Some(self.kind.code())
    }

    /// The human-readable text of this error.
    pub fn message(&self) -> (r: String)
        ensures
            r@ == kind_message(self.kind),
    {
        self.kind.message()
    }
}

} // verus!
