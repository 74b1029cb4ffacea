//! The expression resolver: literal text or embedded expression.
//!
//! A value is an embedded expression where it starts with `{` and ends with
//! `}`. What stands between the braces is then an expression of the host
//! language; any other value is literal text.
use vstd::prelude::*;
use vstd::string::*;
use crate::plain::same;
use crate::text::chars_of;

verus! {

/// Whether a value starts with `{` and ends with `}`.
pub open spec fn is_expr(s: Seq<char>) -> bool {
    s.len() > 0 && s[0] == '{' && s[s.len() - 1] == '}'
}

/// The index of the first character at or after `from` that is not `c`; the
/// length of `s` where only `c` follows.
pub open spec fn leading(s: Seq<char>, c: char, from: int) -> int
    decreases s.len() - from,
{
    if 0 <= from < s.len() && s[from] == c {
        leading(s, c, from + 1)
    } else {
        from
    }
}

/// The index at which the run of `c` starts that ends `s[start..to)`; `to`
/// where that part does not end in `c`.
pub open spec fn trailing(s: Seq<char>, c: char, start: int, to: int) -> int
    decreases to - start,
{
    if start < to <= s.len() && s[to - 1] == c {
        trailing(s, c, start, to - 1)
    } else {
        to
    }
}

/// A value without the braces around it: without every `{` that it starts
/// with and, of what is left, every `}` that it ends with.
pub open spec fn inner_text(s: Seq<char>) -> Seq<char> {
    let from = leading(s, '{', 0);
    let to = trailing(s, '}', from, s.len() as int);
    s.subrange(from, to)
}

proof fn leading_bounds(s: Seq<char>, c: char, from: int)
    requires
        0 <= from <= s.len(),
    ensures
        from <= leading(s, c, from) <= s.len(),
        leading(s, c, from) < s.len() ==> s[leading(s, c, from)] != c,
    decreases s.len() - from,
{
    if from < s.len() && s[from] == c {
        leading_bounds(s, c, from + 1);
    }
}

proof fn trailing_bounds(s: Seq<char>, c: char, start: int, to: int)
    requires
        0 <= start <= to <= s.len(),
    ensures
        start <= trailing(s, c, start, to) <= to,
        start < trailing(s, c, start, to) ==> s[trailing(s, c, start, to) - 1] != c,
    decreases to - start,
{
    if start < to && s[to - 1] == c {
        trailing_bounds(s, c, start, to - 1);
    }
}

/// What stands between the braces of a value is never itself taken for an
/// embedded expression: for every text `s`, the text without its braces
/// neither starts with `{` nor ends with `}`.
pub proof fn inner_text_is_no_expr(s: Seq<char>)
    ensures
        !is_expr(inner_text(s)),
        inner_text(s).len() > 0 ==> inner_text(s)[0] != '{' && inner_text(s).last() != '}',
{
    let from = leading(s, '{', 0);
    leading_bounds(s, '{', 0);
    trailing_bounds(s, '}', from, s.len() as int);
}

/// Whether a value is an embedded expression: whether it starts with `{` and
/// ends with `}`. Nothing is trimmed before the test.
pub fn is_iced_expr(expr: &str) -> (r: bool)
    ensures
        r == is_expr(expr@),
{
    let s = chars_of(expr);
    s.len() > 0 && s[0] == '{' && s[s.len() - 1] == '}'
}

/// A value without the braces around it.
pub fn trim_iced_expr(expr: &str) -> (r: &str)
    ensures
        r@ == inner_text(expr@),
{
    let s = chars_of(expr);
    let mut from: usize = 0;
    while from < s.len() && s[from] == '{'
        invariant
            from <= s.len(),
            leading(s@, '{', 0) == leading(s@, '{', from as int),
        decreases s.len() - from,
    {
        from += 1;
    }
    let mut to: usize = s.len();
    while from < to && s[to - 1] == '}'
        invariant
            from <= to <= s.len(),
            trailing(s@, '}', from as int, s.len() as int) == trailing(s@, '}', from as int, to as int),
        decreases to,
    {
        to -= 1;
    }
    expr.substring_char(from, to)
}

/// Calls `syn::parse_str::<syn::Expr>` and tells whether it accepted the
/// text as one Rust expression. Nothing is claimed of the answer: the parser
/// lexes with the compiler's own lexer too where it runs inside a procedural
/// macro, so the same text need not get the same answer everywhere.
#[verifier::external_body]
pub(crate) fn is_host_expression(text: &str) -> (r: bool) {
    syn::parse_str::<syn::Expr>(text).is_ok()
}

/// What an emitter shows: literal text or an embedded expression.
#[derive(Debug, Clone, PartialEq, Eq)]
pub enum Content {
    /// Text that is shown as it stands.
    Literal(String),
    /// An expression of the host language, without the braces around it.
    Expression(String),
}

/// A [`Content`] as plain text.
pub enum ContentView {
    Literal(Seq<char>),
    Expression(Seq<char>),
}

impl View for Content {
    type V = ContentView;

    open spec fn view(&self) -> ContentView {
        match self {
            Content::Literal(text) => ContentView::Literal(text@),
            Content::Expression(text) => ContentView::Expression(text@),
        }
    }
}

/// Why a value is no embedded expression.
#[derive(Debug, Clone, PartialEq, Eq)]
pub enum ExprError {
    /// The value has no braces around it.
    NotAnExpression,
    /// The value has braces around it, and what stands between them is no
    /// expression of the host language.
    Malformed { text: String },
}

/// An [`ExprError`] as plain text.
pub enum ExprErrorView {
    NotAnExpression,
    Malformed { text: Seq<char> },
}

impl View for ExprError {
    type V = ExprErrorView;

    open spec fn view(&self) -> ExprErrorView {
        match self {
            ExprError::NotAnExpression => ExprErrorView::NotAnExpression,
            ExprError::Malformed { text } => ExprErrorView::Malformed { text: text@ },
        }
    }
}

/// The embedded expression that a value holds, given whether what stands
/// between its braces is an expression of the host language.
pub open spec fn expr_of(s: Seq<char>, valid: bool) -> Result<Seq<char>, ExprErrorView> {
    if !is_expr(s) {
        Err(ExprErrorView::NotAnExpression)
    } else if valid {
        Ok(inner_text(s))
    } else {
        Err(ExprErrorView::Malformed { text: s })
    }
}

/// What a value is, given whether what stands between its braces is an
/// expression of the host language: literal text where it has no braces
/// around it, else the embedded expression.
pub open spec fn content_of(s: Seq<char>, valid: bool) -> Result<ContentView, ExprErrorView> {
    match expr_of(s, valid) {
        Ok(inner) => Ok(ContentView::Expression(inner)),
        Err(ExprErrorView::NotAnExpression) => Ok(ContentView::Literal(s)),
        Err(e) => Err(e),
    }
}

/// A value of the markup once the host parser has been asked about it. The
/// value is resolved once; every emitter goes by what was resolved.
#[derive(Debug, Clone, PartialEq, Eq)]
pub enum Resolved {
    /// The value has no braces around it: text that is shown as it stands.
    Literal(String),
    /// An expression of the host language, without the braces around it.
    Expression(String),
    /// The value as it came: it has braces around it, and what stands between
    /// them is no expression of the host language.
    Malformed(String),
}

/// A [`Resolved`] as plain text.
pub enum ResolvedView {
    Literal(Seq<char>),
    Expression(Seq<char>),
    Malformed(Seq<char>),
}

impl View for Resolved {
    type V = ResolvedView;

    open spec fn view(&self) -> ResolvedView {
        match self {
            Resolved::Literal(text) => ResolvedView::Literal(text@),
            Resolved::Expression(text) => ResolvedView::Expression(text@),
            Resolved::Malformed(text) => ResolvedView::Malformed(text@),
        }
    }
}

/// What a value resolves to, given whether what stands between its braces is
/// an expression of the host language.
pub open spec fn resolved_of(s: Seq<char>, valid: bool) -> ResolvedView {
    if !is_expr(s) {
        ResolvedView::Literal(s)
    } else if valid {
        ResolvedView::Expression(inner_text(s))
    } else {
        ResolvedView::Malformed(s)
    }
}

/// Whether `out` is what the value `s` resolves to under one of the two
/// answers that the host parser can give.
pub open spec fn resolves_value(s: Seq<char>, out: ResolvedView) -> bool {
    out == resolved_of(s, true) || out == resolved_of(s, false)
}

/// A value without braces resolves to itself as literal text, whatever the
/// host parser answers; a value with braces never resolves to literal text.
pub proof fn classification_is_total(s: Seq<char>, out: ResolvedView)
    requires
        resolves_value(s, out),
    ensures
        !is_expr(s) <==> out == ResolvedView::Literal(s),
        is_expr(s) <==> (out == ResolvedView::Expression(inner_text(s)) || out
            == ResolvedView::Malformed(s)),
{
}

/// The embedded expression that `expr` holds, where `valid` tells whether
/// what stands between its braces is an expression of the host language.
pub fn resolve_expr(expr: &str, valid: bool) -> (r: Result<String, ExprError>)
    ensures
        same(r, expr_of(expr@, valid)),
{
    if !is_iced_expr(expr) {
        Err(ExprError::NotAnExpression)
    } else if valid {
        Ok(String::from_str(trim_iced_expr(expr)))
    } else {
        Err(ExprError::Malformed { text: String::from_str(expr) })
    }
}

/// What the value `expr_or_lit` is, where `valid` tells whether what stands
/// between its braces is an expression of the host language.
pub fn resolve_expr_or_lit(expr_or_lit: &str, valid: bool) -> (r: Result<Content, ExprError>)
    ensures
        same(r, content_of(expr_or_lit@, valid)),
{
    match resolve_expr(expr_or_lit, valid) {
        Ok(inner) => Ok(Content::Expression(inner)),
        Err(ExprError::NotAnExpression) => Ok(Content::Literal(String::from_str(expr_or_lit))),
        Err(e) => Err(e),
    }
}

/// What the value resolves to, where `valid` tells whether what stands
/// between its braces is an expression of the host language.
pub fn resolve(value: &str, valid: bool) -> (r: Resolved)
    ensures
        r@ == resolved_of(value@, valid),
{
    if !is_iced_expr(value) {
        Resolved::Literal(String::from_str(value))
    } else if valid {
        Resolved::Expression(String::from_str(trim_iced_expr(value)))
    } else {
        Resolved::Malformed(String::from_str(value))
    }
}

/// Asks the host parser whether what stands between the braces of a value is
/// an expression of the host language. A value without braces is not handed
/// to the parser, and the answer for it is no.
pub fn is_valid_expr(expr: &str) -> (r: bool)
    ensures
        r ==> is_expr(expr@),
{
    is_iced_expr(expr) && is_host_expression(trim_iced_expr(expr))
}

/// What the value resolves to. The host parser is asked about what stands
/// between the braces; the outcome is that of [`resolve`] for the answer
/// that came back.
pub fn resolve_value(value: &str) -> (r: Resolved)
    ensures
        resolves_value(value@, r@),
{
    let valid = is_valid_expr(value);
    resolve(value, valid)
}

/// The embedded expression that a value holds: what stands between its
/// braces, where the value has braces around it and the host parser takes
/// that text for an expression. The outcome is that of [`resolve_expr`] for
/// the answer that came back; a value without braces is no expression
/// whatever the answer.
pub fn parse_expr(expr: &str) -> (r: Result<String, ExprError>)
    ensures
        same(r, expr_of(expr@, true)) || same(r, expr_of(expr@, false)),
        !is_expr(expr@) <==> r == Err::<String, ExprError>(ExprError::NotAnExpression),
{
    let valid = is_valid_expr(expr);
    resolve_expr(expr, valid)
}

/// What a value is: literal text where it has no braces around it, else the
/// embedded expression between the braces; an error where the host parser
/// does not take that text for an expression. The outcome is that of
/// [`resolve_expr_or_lit`] for the answer that came back; a value without
/// braces is literal text whatever the answer.
pub fn parse_expr_or_lit(expr_or_lit: &str) -> (r: Result<Content, ExprError>)
    ensures
        same(r, content_of(expr_or_lit@, true)) || same(r, content_of(expr_or_lit@, false)),
        !is_expr(expr_or_lit@) ==> same(
            r,
            Ok::<ContentView, ExprErrorView>(ContentView::Literal(expr_or_lit@)),
        ),
{
    let valid = is_valid_expr(expr_or_lit);
    resolve_expr_or_lit(expr_or_lit, valid)
}

} // verus!
