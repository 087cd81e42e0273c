//! Evaluation of parsed expressions over 64-bit signed integers.
use crate::errors::{
    ascii_chars, is_ascii_bytes, reports, EvalError, EvalErrorKind, Fault, Span,
};
use crate::signature::same_bytes;
use crate::parser::{
    is_digit, lex, parse_expr, parse_tokens, tokenize, Ast, BinOp, Expr,
};
use vstd::arithmetic::power::pow;
use vstd::prelude::*;
use vstd::string::StringSliceAdditionalSpecFns;

verus! {

/// Value of a decimal digit byte; other bytes count as zero.
pub open spec fn digit_val(c: u8) -> int {
    if is_digit(c) {
        c - 48
    } else {
        0
    }
}

/// Value of a run of decimal digits.
pub open spec fn digits_value(d: Seq<u8>) -> int
    decreases d.len(),
{
    if d.len() == 0 {
        0
    } else {
        digits_value(d.drop_last()) * 10 + digit_val(d.last())
    }
}

pub open spec fn factorial(n: nat) -> nat
    decreases n,
{
    if n == 0 {
        1
    } else {
        n * factorial((n - 1) as nat)
    }
}

pub open spec fn in_i64(v: int) -> bool {
    i64::MIN <= v <= i64::MAX
}

/// The value bound last to `name` in `env`, if any.
pub open spec fn lookup(env: Seq<(Seq<u8>, i64)>, name: Seq<u8>) -> Option<i64>
    decreases env.len(),
{
    if env.len() == 0 {
        None
    } else if env.last().0 == name {
        Some(env.last().1)
    } else {
        lookup(env.drop_last(), name)
    }
}

pub open spec fn checked(v: Option<i64>) -> Result<i64, Fault> {
    match v {
        Some(x) => Ok(x),
        None => Err(Fault::Overflow),
    }
}

/// A binary operator applied to two values, with Rust's truncating division.
pub open spec fn apply_bin(op: BinOp, a: i64, b: i64) -> Result<i64, Fault> {
    match op {
        BinOp::Add => checked(a.checked_add(b)),
        BinOp::Sub => checked(a.checked_sub(b)),
        BinOp::Mul => checked(a.checked_mul(b)),
        BinOp::Div => if b == 0 {
            Err(Fault::DivisionByZero)
        } else {
            checked(a.checked_div(b))
        },
        BinOp::Rem => if b == 0 {
            Err(Fault::DivisionByZero)
        } else {
            checked(a.checked_rem(b))
        },
    }
}

/// `b` raised to `e`.
pub open spec fn power_of(b: i64, e: i64) -> Result<i64, Fault> {
    if e < 0 {
        Err(Fault::NegativeExponent)
    } else if e > 63 {
        Err(Fault::ExponentTooLarge)
    } else if in_i64(pow(b as int, e as nat)) {
        Ok(pow(b as int, e as nat) as i64)
    } else {
        Err(Fault::Overflow)
    }
}

/// The factorial of `n`.
pub open spec fn factorial_of(n: i64) -> Result<i64, Fault> {
    if n < 0 {
        Err(Fault::FactorialOfNegative)
    } else if n > 20 {
        Err(Fault::FactorialTooLarge)
    } else if factorial(n as nat) <= i64::MAX {
        Ok(factorial(n as nat) as i64)
    } else {
        Err(Fault::Overflow)
    }
}

pub open spec fn negate(v: i64) -> Result<i64, Fault> {
    if v == i64::MIN {
        Err(Fault::Overflow)
    } else {
        Ok((-v) as i64)
    }
}

/// The value of `e` under the bindings `env`; operands are evaluated left to right.
pub open spec fn eval(e: Expr, env: Seq<(Seq<u8>, i64)>) -> Result<i64, Fault>
    decreases e,
{
    match e {
        Expr::Num(d) => if digits_value(d) <= i64::MAX {
            Ok(digits_value(d) as i64)
        } else {
            Err(Fault::InvalidNumber)
        },
        Expr::Var(n) => match lookup(env, n) {
            Some(v) => Ok(v),
            None => Err(Fault::Undefined(n)),
        },
        Expr::Neg(x) => match eval(*x, env) {
            Ok(v) => negate(v),
            Err(f) => Err(f),
        },
        Expr::Bin(op, l, r) => match eval(*l, env) {
            Ok(a) => match eval(*r, env) {
                Ok(b) => apply_bin(op, a, b),
                Err(f) => Err(f),
            },
            Err(f) => Err(f),
        },
        Expr::Pow(b, x) => match eval(*b, env) {
            Ok(a) => match eval(*x, env) {
                Ok(k) => power_of(a, k),
                Err(f) => Err(f),
            },
            Err(f) => Err(f),
        },
        Expr::Fact(x) => match eval(*x, env) {
            Ok(v) => factorial_of(v),
            Err(f) => Err(f),
        },
    }
}

/// The result of a whole source text evaluated with no bindings.
pub open spec fn expression_result(s: Seq<u8>) -> Result<i64, Fault> {
    match lex(s) {
        Some(t) => match parse_expr(t) {
            Some(e) => eval(e, Seq::empty()),
            None => Err(Fault::Syntax),
        },
        None => Err(Fault::Syntax),
    }
}

/// `r` is the executable outcome of the mathematical result `m`.
pub open spec fn outcome_matches(r: Result<i64, EvalErrorKind>, m: Result<i64, Fault>) -> bool {
    match r {
        Ok(v) => m == Ok::<i64, Fault>(v),
        Err(k) => m matches Err(f) && reports(k, f),
    }
}

/// Relies on `i64::checked_pow`: the power when it fits in an `i64`, else `None`.
#[verifier::external_body]
fn checked_power(b: i64, e: u32) -> (r: Option<i64>)
    ensures
        r == (if in_i64(pow(b as int, e as nat)) {
            Some(pow(b as int, e as nat) as i64)
        } else {
            None
        }),
{
    b.checked_pow(e)
}

/// Relies on `String::from_utf8_lossy`: ASCII bytes are kept as they are.
#[verifier::external_body]
fn ascii_text(b: &[u8]) -> (r: String)
    ensures
        is_ascii_bytes(b@) ==> r@ == ascii_chars(b@),
{
    String::from_utf8_lossy(b).into_owned()
}

/// Variable bindings; a later binding of a name hides an earlier one.
#[derive(Debug)]
pub struct Environment {
    bindings: Vec<(Vec<u8>, i64)>,
}

impl View for Environment {
    type V = Seq<(Seq<u8>, i64)>;

    closed spec fn view(&self) -> Seq<(Seq<u8>, i64)> {
        self.bindings@.map_values(|b: (Vec<u8>, i64)| (b.0@, b.1))
    }
}

impl Environment {
    /// An environment with no bindings.
    pub fn new() -> (r: Environment)
        ensures
            r@ == Seq::<(Seq<u8>, i64)>::empty(),
    {
        Environment { bindings: Vec::new() }
    }

    /// Binds `name` to `value`, hiding any earlier binding of `name`.
    pub fn define(&mut self, name: Vec<u8>, value: i64)
        ensures
            final(self)@ == old(self)@.push((name@, value)),
    {
        let ghost n = name@;
        self.bindings.push((name, value));
        assert(self@ == old(self)@.push((n, value)));
    }

    /// The value bound last to `name`, if any.
    pub fn lookup(&self, name: &Vec<u8>) -> (r: Option<i64>)
        ensures
            r == lookup(self@, name@),
    {
        let mut i: usize = self.bindings.len();
        assert(self@.subrange(0, i as int) == self@);
        while i > 0
            invariant
                i <= self.bindings@.len(),
                lookup(self@, name@) == lookup(self@.subrange(0, i as int), name@),
            decreases i,
        {
            let ghost pre = self@.subrange(0, i as int);
            assert(pre.drop_last() == self@.subrange(0, i - 1));
            assert(pre.last() == (self.bindings@[i - 1].0@, self.bindings@[i - 1].1));
            if same_bytes(self.bindings[i - 1].0.as_slice(), name.as_slice()) {
                return Some(self.bindings[i - 1].1);
            }
            i -= 1;
        }
        None
    }

    /// A copy of these bindings.
    pub fn clone_bindings(&self) -> (r: Environment)
        ensures
            r@ == self@,
    {
        let mut out: Vec<(Vec<u8>, i64)> = Vec::new();
        let mut i: usize = 0;
        while i < self.bindings.len()
            invariant
                i <= self.bindings@.len(),
                out@.map_values(|b: (Vec<u8>, i64)| (b.0@, b.1)) =~= self@.subrange(0, i as int),
            decreases self.bindings@.len() - i,
        {
            let name = vstd::slice::slice_to_vec(self.bindings[i].0.as_slice());
            let ghost before = out@;
            out.push((name, self.bindings[i].1));
            assert(self@[i as int] == (self.bindings@[i as int].0@, self.bindings@[i as int].1));
            assert(out@.map_values(|b: (Vec<u8>, i64)| (b.0@, b.1)) =~= before.map_values(
                |b: (Vec<u8>, i64)| (b.0@, b.1),
            ).push(self@[i as int]));
            assert(self@.subrange(0, i + 1) =~= self@.subrange(0, i as int).push(self@[i as int]));
            assert(out@.map_values(|b: (Vec<u8>, i64)| (b.0@, b.1)) =~= self@.subrange(0, i + 1));
            i += 1;
        }
        Environment { bindings: out }
    }

    /// Number of bindings held.
    pub fn size(&self) -> (r: usize)
        ensures
            r == self@.len(),
    {
        self.bindings.len()
    }
}

proof fn lemma_digits_value_nonneg(d: Seq<u8>)
    ensures
        digits_value(d) >= 0,
    decreases d.len(),
{
    if d.len() > 0 {
        lemma_digits_value_nonneg(d.drop_last());
    }
}

proof fn lemma_digits_value_prefix(d: Seq<u8>, i: int)
    requires
        0 <= i <= d.len(),
    ensures
        digits_value(d.subrange(0, i)) <= digits_value(d),
    decreases d.len(),
{
    if i < d.len() {
        lemma_digits_value_nonneg(d.drop_last());
        assert(d.drop_last().subrange(0, i) == d.subrange(0, i));
        lemma_digits_value_prefix(d.drop_last(), i);
    } else {
        assert(d.subrange(0, i) == d);
    }
}

/// Value of a run of digits; `None` where it does not fit in an `i64`.
fn number_value(d: &Vec<u8>) -> (r: Option<i64>)
    ensures
        match r {
            Some(v) => digits_value(d@) == v,
            None => digits_value(d@) > i64::MAX,
        },
{
    let mut acc: i64 = 0;
    let mut i: usize = 0;
    while i < d.len()
        invariant
            i <= d@.len(),
            acc >= 0,
            acc == digits_value(d@.subrange(0, i as int)),
        decreases d@.len() - i,
    {
        let c = d[i];
        let v: i64 = if 48 <= c && c <= 57 { (c - 48) as i64 } else { 0 };
        assert(d@.subrange(0, i + 1).drop_last() == d@.subrange(0, i as int));
        match acc.checked_mul(10) {
            Some(m) => match m.checked_add(v) {
                Some(n) => {
                    acc = n;
                },
                None => {
                    proof { lemma_digits_value_prefix(d@, i + 1); }
                    return None;
                },
            },
            None => {
                proof { lemma_digits_value_prefix(d@, i + 1); }
                return None;
            },
        }
        i += 1;
    }
    assert(d@.subrange(0, d@.len() as int) == d@);
    Some(acc)
}

proof fn lemma_factorial_pos(n: nat)
    ensures
        factorial(n) >= 1,
    decreases n,
{
    if n > 0 {
        lemma_factorial_pos((n - 1) as nat);
        assert(n * factorial((n - 1) as nat) >= factorial((n - 1) as nat)) by (nonlinear_arith)
            requires n >= 1, factorial((n - 1) as nat) >= 1;
    }
}

proof fn lemma_factorial_mono(i: nat, n: nat)
    requires
        i <= n,
    ensures
        factorial(i) <= factorial(n),
    decreases n - i,
{
    if i < n {
        lemma_factorial_mono(i, (n - 1) as nat);
        lemma_factorial_pos((n - 1) as nat);
        assert(n * factorial((n - 1) as nat) >= factorial((n - 1) as nat)) by (nonlinear_arith)
            requires n >= 1, factorial((n - 1) as nat) >= 1;
    }
}

fn overflow(what: &str) -> (r: EvalErrorKind)
    ensures
        r is IntegerOverflow,
{
    EvalErrorKind::IntegerOverflow(String::from_str(what))
}

fn factorial_checked(n: i64) -> (r: Result<i64, EvalErrorKind>)
    ensures
        outcome_matches(r, factorial_of(n)),
{
    if n < 0 {
        return Err(EvalErrorKind::FactorialOfNegative);
    }
    if n > 20 {
        return Err(EvalErrorKind::FactorialTooLarge);
    }
    let mut acc: i64 = 1;
    let mut i: i64 = 1;
    while i <= n
        invariant
            1 <= i <= n + 1,
            n <= 20,
            acc == factorial((i - 1) as nat),
        decreases n + 1 - i,
    {
        assert(factorial(i as nat) == i * factorial((i - 1) as nat));
        proof {
            lemma_factorial_pos((i - 1) as nat);
            assert(acc * i == i * acc && acc * i >= 0) by (nonlinear_arith)
                requires i >= 1, acc >= 1;
        }
        match acc.checked_mul(i) {
            Some(v) => {
                acc = v;
            },
            None => {
                proof {
                    lemma_factorial_mono(i as nat, n as nat);
                }
                return Err(overflow("factorial computation"));
            },
        }
        i += 1;
    }
    Ok(acc)
}

fn power_checked(b: i64, e: i64) -> (r: Result<i64, EvalErrorKind>)
    ensures
        outcome_matches(r, power_of(b, e)),
{
    if e < 0 {
        return Err(EvalErrorKind::NegativeExponent);
    }
    if e > 63 {
        return Err(EvalErrorKind::ExponentTooLarge);
    }
    match checked_power(b, e as u32) {
        Some(v) => Ok(v),
        None => Err(overflow("exponentiation")),
    }
}

fn binary_checked(op: BinOp, a: i64, b: i64) -> (r: Result<i64, EvalErrorKind>)
    ensures
        outcome_matches(r, apply_bin(op, a, b)),
{
    match op {
        BinOp::Add => match a.checked_add(b) {
            Some(v) => Ok(v),
            None => Err(overflow("addition")),
        },
        BinOp::Sub => match a.checked_sub(b) {
            Some(v) => Ok(v),
            None => Err(overflow("subtraction")),
        },
        BinOp::Mul => match a.checked_mul(b) {
            Some(v) => Ok(v),
            None => Err(overflow("multiplication")),
        },
        BinOp::Div => if b == 0 {
            Err(EvalErrorKind::DivisionByZero)
        } else {
            match a.checked_div(b) {
                Some(v) => Ok(v),
                None => Err(overflow("division")),
            }
        },
        BinOp::Rem => if b == 0 {
            Err(EvalErrorKind::DivisionByZero)
        } else {
            match a.checked_rem(b) {
                Some(v) => Ok(v),
                None => Err(overflow("remainder")),
            }
        },
    }
}

fn undefined(name: &Vec<u8>) -> (r: EvalErrorKind)
    ensures
        reports(r, Fault::Undefined(name@)),
{
    let text = ascii_text(name.as_slice());
    let mut m = String::from_str("Undefined variable: ");
    m.append(text.as_str());
    EvalErrorKind::Other(m)
}

/// Evaluates `a` under `env`.
pub fn eval_ast(a: &Ast, env: &Environment) -> (r: Result<i64, EvalErrorKind>)
    ensures
        outcome_matches(r, eval(a@, env@)),
    decreases a,
{
    match a {
        Ast::Num(d) => match number_value(d) {
            Some(v) => Ok(v),
            None => Err(EvalErrorKind::InvalidNumber(
                String::from_str("number too large to fit in target type"),
            )),
        },
        Ast::Var(n) => match env.lookup(n) {
            Some(v) => Ok(v),
            None => Err(undefined(n)),
        },
        Ast::Neg(x) => {
            let v = eval_ast(x, env)?;
            if v == i64::MIN {
                Err(overflow("negation"))
            } else {
                Ok(-v)
            }
        },
        Ast::Bin(op, l, r) => {
            let x = eval_ast(l, env)?;
            let y = eval_ast(r, env)?;
            binary_checked(*op, x, y)
        },
        Ast::Pow(b, x) => {
            let base = eval_ast(b, env)?;
            let exponent = eval_ast(x, env)?;
            power_checked(base, exponent)
        },
        Ast::Fact(x) => {
            let v = eval_ast(x, env)?;
            factorial_checked(v)
        },
    }
}

/// Evaluates a source text with no bindings: a syntax error where the text is
/// not one expression, else the value or the first evaluation error.
pub fn evaluate_expression(input: &str) -> (r: Result<i64, EvalError>)
    ensures
        match r {
            Ok(v) => expression_result(input.spec_bytes()) == Ok::<i64, Fault>(v),
            Err(e) => expression_result(input.spec_bytes()) matches Err(f) && reports(e.kind, f),
        },
{
    let bytes = input.as_bytes();
    let span = Span { start: 0, end: bytes.len() };
    let toks = match tokenize(bytes) {
        Some(t) => t,
        None => {
            return Err(EvalError::new(EvalErrorKind::SyntaxError, span));
        },
    };
    let ast = match parse_tokens(&toks) {
        Some(a) => a,
        None => {
            return Err(EvalError::new(EvalErrorKind::SyntaxError, span));
        },
    };
    let env = Environment::new();
    match eval_ast(&ast, &env) {
        Ok(v) => Ok(v),
        Err(k) => Err(EvalError::new(k, span)),
    }
}

} // verus!
