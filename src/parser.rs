//! Lexer and recursive-descent parser of the expression language.
//!
//! Grammar, loosest binding first:
//!   statement := identifier ':' sum | sum
//!   sum       := product (('+' | '-') product)*
//!   product   := unary (('*' | '/' | '%') unary)*
//!   unary     := '-' unary | power
//!   power     := postfix ('^' unary)?
//!   postfix   := primary '!'*
//!   primary   := number | identifier | '(' sum ')'
//!
//! A backslash starts a comment that runs to the end of the line.
use vstd::prelude::*;

verus! {

/// A token, as a mathematical value.
pub enum Tok {
    Num(Seq<u8>),
    Ident(Seq<u8>),
    Plus,
    Minus,
    Star,
    Slash,
    Percent,
    Caret,
    Bang,
    LParen,
    RParen,
    Colon,
}

/// A token of the source text.
#[derive(Debug)]
pub enum Token {
    Num(Vec<u8>),
    Ident(Vec<u8>),
    Plus,
    Minus,
    Star,
    Slash,
    Percent,
    Caret,
    Bang,
    LParen,
    RParen,
    Colon,
}

impl View for Token {
    type V = Tok;

    open spec fn view(&self) -> Tok {
        match self {
            Token::Num(d) => Tok::Num(d@),
            Token::Ident(n) => Tok::Ident(n@),
            Token::Plus => Tok::Plus,
            Token::Minus => Tok::Minus,
            Token::Star => Tok::Star,
            Token::Slash => Tok::Slash,
            Token::Percent => Tok::Percent,
            Token::Caret => Tok::Caret,
            Token::Bang => Tok::Bang,
            Token::LParen => Tok::LParen,
            Token::RParen => Tok::RParen,
            Token::Colon => Tok::Colon,
        }
    }
}

pub open spec fn toks_view(ts: Seq<Token>) -> Seq<Tok> {
    ts.map_values(|t: Token| t@)
}

pub open spec fn is_space(c: u8) -> bool {
    c == 32 || c == 9 || c == 10 || c == 13
}

pub open spec fn is_digit(c: u8) -> bool {
    48 <= c <= 57
}

pub open spec fn is_ident_start(c: u8) -> bool {
    (65 <= c <= 90) || (97 <= c <= 122) || c == 95
}

pub open spec fn is_ident_char(c: u8) -> bool {
    is_ident_start(c) || is_digit(c)
}

/// The token that a one-byte operator or bracket stands for.
pub open spec fn punct(c: u8) -> Option<Tok> {
    if c == 43 {
        Some(Tok::Plus)
    } else if c == 45 {
        Some(Tok::Minus)
    } else if c == 42 {
        Some(Tok::Star)
    } else if c == 47 {
        Some(Tok::Slash)
    } else if c == 37 {
        Some(Tok::Percent)
    } else if c == 94 {
        Some(Tok::Caret)
    } else if c == 33 {
        Some(Tok::Bang)
    } else if c == 40 {
        Some(Tok::LParen)
    } else if c == 41 {
        Some(Tok::RParen)
    } else if c == 58 {
        Some(Tok::Colon)
    } else {
        None
    }
}

/// End of the run of digits (`digits`) or identifier bytes starting at `i`.
pub open spec fn run_end(s: Seq<u8>, i: int, digits: bool) -> int
    decreases s.len() - i,
{
    if 0 <= i < s.len() && (if digits { is_digit(s[i]) } else { is_ident_char(s[i]) }) {
        run_end(s, i + 1, digits)
    } else {
        i
    }
}

/// End of the comment that starts at `i`: the next line break, or the end.
pub open spec fn comment_end(s: Seq<u8>, i: int) -> int
    decreases s.len() - i,
{
    if 0 <= i < s.len() && s[i] != 10 {
        comment_end(s, i + 1)
    } else {
        i
    }
}

pub open spec fn prepend(pre: Seq<Tok>, rest: Option<Seq<Tok>>) -> Option<Seq<Tok>> {
    match rest {
        Some(ts) => Some(pre + ts),
        None => None,
    }
}

/// The tokens of `s` from byte `i` on; `None` where a byte starts no token.
pub open spec fn lex_from(s: Seq<u8>, i: int) -> Option<Seq<Tok>>
    decreases s.len() - i,
{
    if i < 0 || i >= s.len() {
        Some(Seq::empty())
    } else if is_space(s[i]) {
        lex_from(s, i + 1)
    } else if s[i] == 92 {
        let j = comment_end(s, i + 1);
        if i < j <= s.len() {
            lex_from(s, j)
        } else {
            None
        }
    } else if is_digit(s[i]) || is_ident_start(s[i]) {
        let j = run_end(s, i + 1, is_digit(s[i]));
        if i < j <= s.len() {
            let word = s.subrange(i, j);
            let t = if is_digit(s[i]) { Tok::Num(word) } else { Tok::Ident(word) };
            prepend(seq![t], lex_from(s, j))
        } else {
            None
        }
    } else {
        match punct(s[i]) {
            Some(t) => prepend(seq![t], lex_from(s, i + 1)),
            None => None,
        }
    }
}

/// The tokens of `s`, or `None` where it holds a byte that starts no token.
pub open spec fn lex(s: Seq<u8>) -> Option<Seq<Tok>> {
    lex_from(s, 0)
}

fn byte_is_space(c: u8) -> (r: bool)
    ensures
        r == is_space(c),
{
    c == 32 || c == 9 || c == 10 || c == 13
}

fn byte_is_digit(c: u8) -> (r: bool)
    ensures
        r == is_digit(c),
{
    48 <= c && c <= 57
}

fn byte_is_ident_start(c: u8) -> (r: bool)
    ensures
        r == is_ident_start(c),
{
    (65 <= c && c <= 90) || (97 <= c && c <= 122) || c == 95
}

fn byte_in_run(c: u8, digits: bool) -> (r: bool)
    ensures
        r == (if digits { is_digit(c) } else { is_ident_char(c) }),
{
    if digits {
        byte_is_digit(c)
    } else {
        byte_is_digit(c) || byte_is_ident_start(c)
    }
}

fn punct_token(c: u8) -> (r: Option<Token>)
    ensures
        match r {
            Some(t) => punct(c) == Some(t@),
            None => punct(c) is None,
        },
{
    if c == 43 {
        Some(Token::Plus)
    } else if c == 45 {
        Some(Token::Minus)
    } else if c == 42 {
        Some(Token::Star)
    } else if c == 47 {
        Some(Token::Slash)
    } else if c == 37 {
        Some(Token::Percent)
    } else if c == 94 {
        Some(Token::Caret)
    } else if c == 33 {
        Some(Token::Bang)
    } else if c == 40 {
        Some(Token::LParen)
    } else if c == 41 {
        Some(Token::RParen)
    } else if c == 58 {
        Some(Token::Colon)
    } else {
        None
    }
}

/// Splits `s` into tokens; `None` where a byte starts no token.
pub fn tokenize(s: &[u8]) -> (r: Option<Vec<Token>>)
    ensures
        match r {
            Some(ts) => lex(s@) == Some(toks_view(ts@)),
            None => lex(s@) is None,
        },
{
    let mut acc: Vec<Token> = Vec::new();
    let mut i: usize = 0;
    while i < s.len()
        invariant
            i <= s@.len(),
            lex(s@) == prepend(toks_view(acc@), lex_from(s@, i as int)),
        decreases s@.len() - i,
    {
        let c = s[i];
        if byte_is_space(c) {
            i += 1;
        } else if c == 92 {
            let mut j: usize = i + 1;
            while j < s.len() && s[j] != 10
                invariant
                    i < j <= s@.len(),
                    comment_end(s@, i + 1) == comment_end(s@, j as int),
                decreases s@.len() - j,
            {
                j += 1;
            }
            i = j;
        } else if byte_is_digit(c) || byte_is_ident_start(c) {
            let digits = byte_is_digit(c);
            let mut j: usize = i + 1;
            while j < s.len() && byte_in_run(s[j], digits)
                invariant
                    i < j <= s@.len(),
                    digits == is_digit(c),
                    run_end(s@, i + 1, digits) == run_end(s@, j as int, digits),
                decreases s@.len() - j,
            {
                j += 1;
            }
            let word = vstd::slice::slice_to_vec(vstd::slice::slice_subrange(s, i, j));
            let ghost before = acc@;
            let t = if digits { Token::Num(word) } else { Token::Ident(word) };
            acc.push(t);
            proof {
                assert(toks_view(acc@) == toks_view(before) + seq![t@]);
                assert(toks_view(before) + seq![t@] + lex_from(s@, j as int)->0
                    == toks_view(before) + (seq![t@] + lex_from(s@, j as int)->0));
            }
            i = j;
        } else {
            match punct_token(c) {
                Some(t) => {
                    let ghost before = acc@;
                    acc.push(t);
                    proof {
                        assert(toks_view(acc@) == toks_view(before) + seq![t@]);
                        assert(toks_view(before) + seq![t@] + lex_from(s@, i + 1)->0
                            == toks_view(before) + (seq![t@] + lex_from(s@, i + 1)->0));
                    }
                    i += 1;
                },
                None => {
                    return None;
                },
            }
        }
    }
    assert(toks_view(acc@) + Seq::<Tok>::empty() == toks_view(acc@));
    Some(acc)
}


/// A binary operator of a sum or a product.
#[derive(Debug, Clone, Copy, PartialEq, Eq, Structural)]
pub enum BinOp {
    Add,
    Sub,
    Mul,
    Div,
    Rem,
}

/// An expression, as a mathematical value.
pub enum Expr {
    Num(Seq<u8>),
    Var(Seq<u8>),
    Neg(Box<Expr>),
    Bin(BinOp, Box<Expr>, Box<Expr>),
    Pow(Box<Expr>, Box<Expr>),
    Fact(Box<Expr>),
}

/// A parsed expression.
#[derive(Debug)]
pub enum Ast {
    Num(Vec<u8>),
    Var(Vec<u8>),
    Neg(Box<Ast>),
    Bin(BinOp, Box<Ast>, Box<Ast>),
    Pow(Box<Ast>, Box<Ast>),
    Fact(Box<Ast>),
}

impl View for Ast {
    type V = Expr;

    open spec fn view(&self) -> Expr
        decreases self,
    {
        match self {
            Ast::Num(d) => Expr::Num(d@),
            Ast::Var(n) => Expr::Var(n@),
            Ast::Neg(x) => Expr::Neg(Box::new((**x)@)),
            Ast::Bin(op, l, r) => Expr::Bin(*op, Box::new((**l)@), Box::new((**r)@)),
            Ast::Pow(b, x) => Expr::Pow(Box::new((**b)@), Box::new((**x)@)),
            Ast::Fact(x) => Expr::Fact(Box::new((**x)@)),
        }
    }
}

/// A top-level statement: a binding or an expression.
pub enum Stmt {
    Assign(Seq<u8>, Expr),
    Eval(Expr),
}

/// A parsed top-level statement.
#[derive(Debug)]
pub enum Statement {
    Assign(Vec<u8>, Ast),
    Eval(Ast),
}

impl View for Statement {
    type V = Stmt;

    open spec fn view(&self) -> Stmt {
        match self {
            Statement::Assign(n, e) => Stmt::Assign(n@, e@),
            Statement::Eval(e) => Stmt::Eval(e@),
        }
    }
}

pub open spec fn tok_at(t: Seq<Tok>, p: int) -> Option<Tok> {
    if 0 <= p < t.len() {
        Some(t[p])
    } else {
        None
    }
}

pub open spec fn add_op(t: Option<Tok>) -> Option<BinOp> {
    match t {
        Some(Tok::Plus) => Some(BinOp::Add),
        Some(Tok::Minus) => Some(BinOp::Sub),
        _ => None,
    }
}

pub open spec fn mul_op(t: Option<Tok>) -> Option<BinOp> {
    match t {
        Some(Tok::Star) => Some(BinOp::Mul),
        Some(Tok::Slash) => Some(BinOp::Div),
        Some(Tok::Percent) => Some(BinOp::Rem),
        _ => None,
    }
}

/// `primary` at `p`: the expression and the position after it.
pub open spec fn p_primary(t: Seq<Tok>, p: int) -> Option<(Expr, int)>
    decreases t.len() - p, 0int,
{
    match tok_at(t, p) {
        Some(Tok::Num(d)) => Some((Expr::Num(d), p + 1)),
        Some(Tok::Ident(n)) => Some((Expr::Var(n), p + 1)),
        Some(Tok::LParen) => match p_sum(t, p + 1) {
            Some((e, q)) => if tok_at(t, q) == Some(Tok::RParen) {
                Some((e, q + 1))
            } else {
                None
            },
            None => None,
        },
        _ => None,
    }
}

/// The factorial marks that follow `e` from `p` on.
pub open spec fn p_bangs(t: Seq<Tok>, e: Expr, p: int) -> (Expr, int)
    decreases t.len() - p, 0int,
{
    if tok_at(t, p) == Some(Tok::Bang) {
        p_bangs(t, Expr::Fact(Box::new(e)), p + 1)
    } else {
        (e, p)
    }
}

pub open spec fn p_postfix(t: Seq<Tok>, p: int) -> Option<(Expr, int)>
    decreases t.len() - p, 1int,
{
    match p_primary(t, p) {
        Some((e, q)) => if q > p {
            Some(p_bangs(t, e, q))
        } else {
            None
        },
        None => None,
    }
}

pub open spec fn p_power(t: Seq<Tok>, p: int) -> Option<(Expr, int)>
    decreases t.len() - p, 2int,
{
    match p_postfix(t, p) {
        Some((b, q)) => if q >= p && tok_at(t, q) == Some(Tok::Caret) {
            match p_unary(t, q + 1) {
                Some((x, r)) => Some((Expr::Pow(Box::new(b), Box::new(x)), r)),
                None => None,
            }
        } else {
            Some((b, q))
        },
        None => None,
    }
}

pub open spec fn p_unary(t: Seq<Tok>, p: int) -> Option<(Expr, int)>
    decreases t.len() - p, 3int,
{
    if tok_at(t, p) == Some(Tok::Minus) {
        match p_unary(t, p + 1) {
            Some((e, q)) => Some((Expr::Neg(Box::new(e)), q)),
            None => None,
        }
    } else {
        p_power(t, p)
    }
}

/// The rest of a product whose left part `l` ends at `q`.
pub open spec fn p_product_tail(t: Seq<Tok>, l: Expr, q: int) -> Option<(Expr, int)>
    decreases t.len() - q, 4int,
{
    match mul_op(tok_at(t, q)) {
        Some(op) => match p_unary(t, q + 1) {
            Some((r, q2)) => if q < q2 <= t.len() {
                p_product_tail(t, Expr::Bin(op, Box::new(l), Box::new(r)), q2)
            } else {
                None
            },
            None => None,
        },
        None => Some((l, q)),
    }
}

pub open spec fn p_product(t: Seq<Tok>, p: int) -> Option<(Expr, int)>
    decreases t.len() - p, 5int,
{
    match p_unary(t, p) {
        Some((l, q)) => if p < q <= t.len() {
            p_product_tail(t, l, q)
        } else {
            None
        },
        None => None,
    }
}

/// The rest of a sum whose left part `l` ends at `q`.
pub open spec fn p_sum_tail(t: Seq<Tok>, l: Expr, q: int) -> Option<(Expr, int)>
    decreases t.len() - q, 6int,
{
    match add_op(tok_at(t, q)) {
        Some(op) => match p_product(t, q + 1) {
            Some((r, q2)) => if q < q2 <= t.len() {
                p_sum_tail(t, Expr::Bin(op, Box::new(l), Box::new(r)), q2)
            } else {
                None
            },
            None => None,
        },
        None => Some((l, q)),
    }
}

/// `sum` at `p`: the expression and the position after it.
pub open spec fn p_sum(t: Seq<Tok>, p: int) -> Option<(Expr, int)>
    decreases t.len() - p, 7int,
{
    match p_product(t, p) {
        Some((l, q)) => if p < q <= t.len() {
            p_sum_tail(t, l, q)
        } else {
            None
        },
        None => None,
    }
}

/// The expression that all of `t` forms, if any.
pub open spec fn parse_expr(t: Seq<Tok>) -> Option<Expr> {
    match p_sum(t, 0) {
        Some((e, q)) => if q == t.len() {
            Some(e)
        } else {
            None
        },
        None => None,
    }
}

/// The statement that all of `t` forms, if any.
pub open spec fn parse_stmt(t: Seq<Tok>) -> Option<Stmt> {
    if t.len() >= 2 && t[0] is Ident && t[1] == Tok::Colon {
        match p_sum(t, 2) {
            Some((e, q)) => if q == t.len() {
                Some(Stmt::Assign(t[0]->Ident_0, e))
            } else {
                None
            },
            None => None,
        }
    } else {
        match parse_expr(t) {
            Some(e) => Some(Stmt::Eval(e)),
            None => None,
        }
    }
}

pub open spec fn res_view(r: Option<(Ast, usize)>) -> Option<(Expr, int)> {
    match r {
        Some((a, q)) => Some((a@, q as int)),
        None => None,
    }
}

pub open spec fn in_bounds(r: Option<(Ast, usize)>, p: int, n: int) -> bool {
    r matches Some((_, q)) ==> p <= q <= n
}


fn copy_bytes(b: &Vec<u8>) -> (r: Vec<u8>)
    ensures
        r@ == b@,
{
    vstd::slice::slice_to_vec(b.as_slice())
}

fn token_is(t: &Vec<Token>, p: usize, k: &Token) -> (r: bool)
    requires
        k@ == Tok::Bang || k@ == Tok::Caret || k@ == Tok::Minus || k@ == Tok::RParen,
    ensures
        r == (tok_at(toks_view(t@), p as int) == Some(k@)),
        r ==> p < t.len(),
{
    if p >= t.len() {
        return false;
    }
    match (&t[p], k) {
        (Token::Bang, Token::Bang) => true,
        (Token::Caret, Token::Caret) => true,
        (Token::Minus, Token::Minus) => true,
        (Token::RParen, Token::RParen) => true,
        _ => false,
    }
}

fn add_op_at(t: &Vec<Token>, p: usize) -> (r: Option<BinOp>)
    ensures
        r == add_op(tok_at(toks_view(t@), p as int)),
        r is Some ==> p < t.len(),
{
    if p >= t.len() {
        return None;
    }
    match &t[p] {
        Token::Plus => Some(BinOp::Add),
        Token::Minus => Some(BinOp::Sub),
        _ => None,
    }
}

fn mul_op_at(t: &Vec<Token>, p: usize) -> (r: Option<BinOp>)
    ensures
        r == mul_op(tok_at(toks_view(t@), p as int)),
        r is Some ==> p < t.len(),
{
    if p >= t.len() {
        return None;
    }
    match &t[p] {
        Token::Star => Some(BinOp::Mul),
        Token::Slash => Some(BinOp::Div),
        Token::Percent => Some(BinOp::Rem),
        _ => None,
    }
}

fn parse_primary(t: &Vec<Token>, p: usize) -> (r: Option<(Ast, usize)>)
    requires
        p <= t@.len(),
    ensures
        res_view(r) == p_primary(toks_view(t@), p as int),
        in_bounds(r, p as int, t@.len() as int),
    decreases t@.len() - p, 0int,
{
    if p >= t.len() {
        return None;
    }
    match &t[p] {
        Token::Num(d) => Some((Ast::Num(copy_bytes(d)), p + 1)),
        Token::Ident(n) => Some((Ast::Var(copy_bytes(n)), p + 1)),
        Token::LParen => match parse_sum(t, p + 1) {
            Some((e, q)) => if token_is(t, q, &Token::RParen) {
                Some((e, q + 1))
            } else {
                None
            },
            None => None,
        },
        _ => None,
    }
}

fn parse_bangs(t: &Vec<Token>, e: Ast, p: usize) -> (r: (Ast, usize))
    requires
        p <= t@.len(),
    ensures
        (r.0@, r.1 as int) == p_bangs(toks_view(t@), e@, p as int),
        p <= r.1 <= t@.len(),
    decreases t@.len() - p,
{
    if token_is(t, p, &Token::Bang) {
        parse_bangs(t, Ast::Fact(Box::new(e)), p + 1)
    } else {
        (e, p)
    }
}

fn parse_postfix(t: &Vec<Token>, p: usize) -> (r: Option<(Ast, usize)>)
    requires
        p <= t@.len(),
    ensures
        res_view(r) == p_postfix(toks_view(t@), p as int),
        in_bounds(r, p as int, t@.len() as int),
    decreases t@.len() - p, 1int,
{
    match parse_primary(t, p) {
        Some((e, q)) => if q > p {
            Some(parse_bangs(t, e, q))
        } else {
            None
        },
        None => None,
    }
}

fn parse_power(t: &Vec<Token>, p: usize) -> (r: Option<(Ast, usize)>)
    requires
        p <= t@.len(),
    ensures
        res_view(r) == p_power(toks_view(t@), p as int),
        in_bounds(r, p as int, t@.len() as int),
    decreases t@.len() - p, 2int,
{
    match parse_postfix(t, p) {
        Some((b, q)) => if token_is(t, q, &Token::Caret) {
            match parse_unary(t, q + 1) {
                Some((x, r)) => Some((Ast::Pow(Box::new(b), Box::new(x)), r)),
                None => None,
            }
        } else {
            Some((b, q))
        },
        None => None,
    }
}

fn parse_unary(t: &Vec<Token>, p: usize) -> (r: Option<(Ast, usize)>)
    requires
        p <= t@.len(),
    ensures
        res_view(r) == p_unary(toks_view(t@), p as int),
        in_bounds(r, p as int, t@.len() as int),
    decreases t@.len() - p, 3int,
{
    if token_is(t, p, &Token::Minus) {
        match parse_unary(t, p + 1) {
            Some((e, q)) => Some((Ast::Neg(Box::new(e)), q)),
            None => None,
        }
    } else {
        parse_power(t, p)
    }
}

fn parse_product_tail(t: &Vec<Token>, l: Ast, q: usize) -> (r: Option<(Ast, usize)>)
    requires
        q <= t@.len(),
    ensures
        res_view(r) == p_product_tail(toks_view(t@), l@, q as int),
        in_bounds(r, q as int, t@.len() as int),
    decreases t@.len() - q, 4int,
{
    match mul_op_at(t, q) {
        Some(op) => match parse_unary(t, q + 1) {
            Some((rhs, q2)) => if q < q2 {
                parse_product_tail(t, Ast::Bin(op, Box::new(l), Box::new(rhs)), q2)
            } else {
                None
            },
            None => None,
        },
        None => Some((l, q)),
    }
}

fn parse_product(t: &Vec<Token>, p: usize) -> (r: Option<(Ast, usize)>)
    requires
        p <= t@.len(),
    ensures
        res_view(r) == p_product(toks_view(t@), p as int),
        in_bounds(r, p as int, t@.len() as int),
    decreases t@.len() - p, 5int,
{
    match parse_unary(t, p) {
        Some((l, q)) => if p < q {
            parse_product_tail(t, l, q)
        } else {
            None
        },
        None => None,
    }
}

fn parse_sum_tail(t: &Vec<Token>, l: Ast, q: usize) -> (r: Option<(Ast, usize)>)
    requires
        q <= t@.len(),
    ensures
        res_view(r) == p_sum_tail(toks_view(t@), l@, q as int),
        in_bounds(r, q as int, t@.len() as int),
    decreases t@.len() - q, 6int,
{
    match add_op_at(t, q) {
        Some(op) => match parse_product(t, q + 1) {
            Some((rhs, q2)) => if q < q2 {
                parse_sum_tail(t, Ast::Bin(op, Box::new(l), Box::new(rhs)), q2)
            } else {
                None
            },
            None => None,
        },
        None => Some((l, q)),
    }
}

fn parse_sum(t: &Vec<Token>, p: usize) -> (r: Option<(Ast, usize)>)
    requires
        p <= t@.len(),
    ensures
        res_view(r) == p_sum(toks_view(t@), p as int),
        in_bounds(r, p as int, t@.len() as int),
    decreases t@.len() - p, 7int,
{
    match parse_product(t, p) {
        Some((l, q)) => if p < q {
            parse_sum_tail(t, l, q)
        } else {
            None
        },
        None => None,
    }
}

/// The expression that all of `t` forms, if any.
pub fn parse_tokens(t: &Vec<Token>) -> (r: Option<Ast>)
    ensures
        match r {
            Some(a) => parse_expr(toks_view(t@)) == Some(a@),
            None => parse_expr(toks_view(t@)) is None,
        },
{
    match parse_sum(t, 0) {
        Some((e, q)) => if q == t.len() {
            Some(e)
        } else {
            None
        },
        None => None,
    }
}

/// The statement that all of `t` forms, if any.
pub fn parse_statement(t: &Vec<Token>) -> (r: Option<Statement>)
    ensures
        match r {
            Some(st) => parse_stmt(toks_view(t@)) == Some(st@),
            None => parse_stmt(toks_view(t@)) is None,
        },
{
    if t.len() >= 2 {
        if let Token::Ident(n) = &t[0] {
            if let Token::Colon = &t[1] {
                return match parse_sum(t, 2) {
                    Some((e, q)) => if q == t.len() {
                        Some(Statement::Assign(copy_bytes(n), e))
                    } else {
                        None
                    },
                    None => None,
                };
            }
        }
    }
    match parse_tokens(t) {
        Some(e) => Some(Statement::Eval(e)),
        None => None,
    }
}

} // verus!
