//! Rendering of values for display, one text per mimetype.
use crate::errors::EvalError;
use vstd::prelude::*;

verus! {

pub open spec fn digit_char(d: nat) -> char {
    (('0' as nat) + d) as char
}

/// Decimal digits of a natural number, most significant first.
pub open spec fn nat_digits(n: nat) -> Seq<char>
    decreases n,
{
    if n < 10 {
        seq![digit_char(n)]
    } else {
        nat_digits(n / 10) + seq![digit_char(n % 10)]
    }
}

/// Decimal text of an integer, with a leading minus sign when negative.
pub open spec fn decimal_text(n: int) -> Seq<char> {
    if n < 0 {
        seq!['-'] + nat_digits((-n) as nat)
    } else {
        nat_digits(n as nat)
    }
}

/// Relies on `i64::to_string`: the decimal text of `n`.
#[verifier::external_body]
pub(crate) fn decimal(n: i64) -> (r: String)
    ensures
        r@ == decimal_text(n as int),
{
    n.to_string()
}

/// `head` followed by `tail`.
pub fn concat(head: &str, tail: &str) -> (r: String)
    ensures
        r@ == head@ + tail@,
{
    let mut m = String::from_str(head);
    m.append(tail);
    m
}

/// A value that a cell evaluates to.
#[derive(Debug, Clone, Copy, PartialEq, Eq, Structural)]
pub enum Value {
    Integer(i64),
}

impl Value {
    /// The integer held, if the value is one.
    pub fn as_integer(&self) -> (r: Option<i64>)
        ensures
            r == (match *self {
                Value::Integer(n) => Some(n),
            }),
    {
        match self {
            Value::Integer(n) => Some(*n),
        }
    }
}

/// Plain-text rendering of a value.
pub open spec fn plain_text(v: Value) -> Seq<char> {
    match v {
        Value::Integer(n) => decimal_text(n as int),
    }
}

/// HTML rendering of a value.
pub open spec fn html_text(v: Value) -> Seq<char> {
    "<span class=\"nb-integer\">"@ + plain_text(v) + "</span>"@
}

/// Display data: pairs of mimetype and rendered text.
pub open spec fn display_view(d: Seq<(String, String)>) -> Seq<(Seq<char>, Seq<char>)> {
    d.map_values(|p: (String, String)| (p.0@, p.1@))
}

/// Formats values for display.
pub struct DisplayFormatter;

impl DisplayFormatter {
    /// The display data of a value: its plain text and its HTML.
    pub fn format_value(value: &Value) -> (r: Vec<(String, String)>)
        ensures
            display_view(r@) == seq![
                ("text/plain"@, plain_text(*value)),
                ("text/html"@, html_text(*value)),
            ],
    {
        let text = match value {
            Value::Integer(n) => decimal(*n),
        };
        let open = concat("<span class=\"nb-integer\">", text.as_str());
        let html = concat(open.as_str(), "</span>");
        let r = vec![
            (String::from_str("text/plain"), text),
            (String::from_str("text/html"), html),
        ];
        assert(display_view(r@) =~= seq![
            ("text/plain"@, plain_text(*value)),
            ("text/html"@, html_text(*value)),
        ]);
        r
    }

    /// The display data of a result: none for a statement without a value.
    pub fn format_result(result: &Option<Value>) -> (r: Vec<(String, String)>)
        ensures
            match *result {
                Some(v) => display_view(r@) == seq![
                    ("text/plain"@, plain_text(v)),
                    ("text/html"@, html_text(v)),
                ],
                None => r@.len() == 0,
            },
    {
        match result {
            Some(v) => DisplayFormatter::format_value(v),
            None => Vec::new(),
        }
    }

    /// CSS styles for rendered values.
    pub fn get_css_styles() -> (r: &'static str)
        ensures
            r@ == css_styles(),
    {
        "\n        <style>\n        .nb-integer {\n            color: #0066cc;\n            font-weight: bold;\n        }\n        .nb-function {\n            background-color: #f8f9fa;\n            border: 1px solid #e9ecef;\n            border-radius: 4px;\n            padding: 8px;\n            margin: 4px 0;\n        }\n        .nb-function-keyword {\n            color: #d73a49;\n            font-weight: bold;\n        }\n        .nb-function code {\n            background-color: transparent;\n            color: #24292e;\n            font-family: 'SFMono-Regular', Consolas, 'Liberation Mono', Menlo, monospace;\n        }\n        </style>\n        "
    }
}

pub open spec fn css_styles() -> Seq<char> {
    "\n        <style>\n        .nb-integer {\n            color: #0066cc;\n            font-weight: bold;\n        }\n        .nb-function {\n            background-color: #f8f9fa;\n            border: 1px solid #e9ecef;\n            border-radius: 4px;\n            padding: 8px;\n            margin: 4px 0;\n        }\n        .nb-function-keyword {\n            color: #d73a49;\n            font-weight: bold;\n        }\n        .nb-function code {\n            background-color: transparent;\n            color: #24292e;\n            font-family: 'SFMono-Regular', Consolas, 'Liberation Mono', Menlo, monospace;\n        }\n        </style>\n        "@
}

/// The name under which evaluation errors are reported.
pub open spec fn error_name() -> Seq<char> {
    "WabznasmError"@
}

/// The traceback lines of an error with message `msg`.
pub open spec fn traceback_lines(msg: Seq<char>) -> Seq<Seq<char>> {
    seq!["WabznasmError: "@ + msg, "Error: "@ + msg]
}

/// Converts evaluation errors to the report format of the protocol.
pub struct JupyterErrorFormatter;

impl JupyterErrorFormatter {
    /// The traceback of an error: its name with its message, then its message.
    pub fn create_traceback(error: &EvalError) -> (r: Vec<String>)
        ensures
            r@.map_values(|s: String| s@) == traceback_lines(
                crate::errors::kind_message(error.kind),
            ),
    {
        let msg = error.message();
        let first = concat("WabznasmError: ", msg.as_str());
        let second = concat("Error: ", msg.as_str());
        let r = vec![first, second];
        assert(r@.map_values(|s: String| s@) =~= traceback_lines(
            crate::errors::kind_message(error.kind),
        ));
        r
    }

    /// CSS styles for error display.
    pub fn get_error_css() -> (r: &'static str)
        ensures
            r@ == error_css(),
    {
        "\n        <style>\n        .nb-error {\n            background-color: #fff5f5;\n            border: 1px solid #feb2b2;\n            border-radius: 4px;\n            padding: 12px;\n            margin: 8px 0;\n        }\n        .nb-traceback {\n            font-family: 'SFMono-Regular', Consolas, 'Liberation Mono', Menlo, monospace;\n            font-size: 13px;\n            line-height: 1.4;\n            color: #2d3748;\n            background-color: transparent;\n            margin: 0;\n            white-space: pre-wrap;\n        }\n        .nb-error-line {\n            background-color: #fed7d7;\n            color: #c53030;\n        }\n        .nb-error-pointer {\n            color: #e53e3e;\n            font-weight: bold;\n        }\n        </style>\n        "
    }
}

pub open spec fn error_css() -> Seq<char> {
    "\n        <style>\n        .nb-error {\n            background-color: #fff5f5;\n            border: 1px solid #feb2b2;\n            border-radius: 4px;\n            padding: 12px;\n            margin: 8px 0;\n        }\n        .nb-traceback {\n            font-family: 'SFMono-Regular', Consolas, 'Liberation Mono', Menlo, monospace;\n            font-size: 13px;\n            line-height: 1.4;\n            color: #2d3748;\n            background-color: transparent;\n            margin: 0;\n            white-space: pre-wrap;\n        }\n        .nb-error-line {\n            background-color: #fed7d7;\n            color: #c53030;\n        }\n        .nb-error-pointer {\n            color: #e53e3e;\n            font-weight: bold;\n        }\n        </style>\n        "@
}

} // verus!
