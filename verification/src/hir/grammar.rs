//! What the parser reads: where each piece of syntax ends, and what tree it
//! is, as functions of the tokens.
use crate::hir::expr::{BinaryOp, Expression, Path, UnaryOp};
use crate::hir::group::group_name;
use crate::hir::parse::SyntaxError;
use crate::hir::punctuated::Punctuated;
use crate::token::group::Delimiter;
use crate::token::ident::Ident;
use crate::token::marks::Comma;
use crate::token::punct::PunctToken;
use crate::token::tree::{same_token, span_of, Token, TokenTree};
use vstd::prelude::*;

verus! {

/// How reading a piece of syntax from some place ends.
pub enum Parsed {
    /// The piece was read; it ends before the given place.
    Done(int),
    /// The tokens ended at the given place, where more were expected.
    Ended(int),
    /// The given token stands where what the given name names was expected.
    Stuck(TokenTree, Seq<char>),
}

/// The token at place `at`, if there is one.
pub open spec fn token_at(tokens: Seq<TokenTree>, at: int) -> Option<TokenTree> {
    if 0 <= at < tokens.len() {
        Some(tokens[at])
    } else {
        None
    }
}

/// Whether a token of the kind `T` stands at `at`.
pub open spec fn kind_at<T: Token>(tokens: Seq<TokenTree>, at: int) -> bool {
    0 <= at < tokens.len() && T::is_kind(tokens[at])
}

/// Whether `token` is the punctuation `value`.
pub open spec fn is_punct(token: TokenTree, value: PunctToken) -> bool {
    token matches TokenTree::Punct(punct) && punct.value == value
}

/// Reading one token of the kind `T` at `pos`.
pub open spec fn one<T: Token>(tokens: Seq<TokenTree>, pos: int) -> Parsed {
    match token_at(tokens, pos) {
        None => Parsed::Ended(pos),
        Some(token) => if T::is_kind(token) {
            Parsed::Done(pos + 1)
        } else {
            Parsed::Stuck(token, T::kind_name())
        },
    }
}

/// Whether `punct` stands for an operator before its operand.
pub open spec fn is_unary_op(punct: PunctToken) -> bool {
    punct is Not || punct is Minus
}

/// Whether `punct` stands for an operator between two operands.
pub open spec fn is_binary_op(punct: PunctToken) -> bool {
    punct is Plus || punct is Minus || punct is Star || punct is Slash || punct is Percent
        || punct is Equals || punct is NotEquals || punct is LessThan || punct is LessThanEquals
        || punct is GreaterThan || punct is GreaterThanEquals || punct is And || punct is Or
}

/// `op` is the operator that the punctuation `token` stands for before an
/// operand.
pub open spec fn reads_unary_op(token: TokenTree, op: UnaryOp) -> bool {
    match op {
        UnaryOp::Not(mark) => is_punct(token, PunctToken::Not) && mark.span == span_of(token),
        UnaryOp::Negate(mark) => is_punct(token, PunctToken::Minus) && mark.span == span_of(token),
    }
}

/// `op` is the operator that the punctuation `token` stands for between two
/// operands.
pub open spec fn reads_binary_op(token: TokenTree, op: BinaryOp) -> bool {
    match op {
        BinaryOp::Add(mark) => is_punct(token, PunctToken::Plus) && mark.span == span_of(token),
        BinaryOp::Subtract(mark) => is_punct(token, PunctToken::Minus) && mark.span == span_of(
            token,
        ),
        BinaryOp::Multiply(mark) => is_punct(token, PunctToken::Star) && mark.span == span_of(
            token,
        ),
        BinaryOp::Divide(mark) => is_punct(token, PunctToken::Slash) && mark.span == span_of(token),
        BinaryOp::Modulo(mark) => is_punct(token, PunctToken::Percent) && mark.span == span_of(
            token,
        ),
        BinaryOp::Equals(mark) => is_punct(token, PunctToken::Equals) && mark.span == span_of(
            token,
        ),
        BinaryOp::NotEquals(mark) => is_punct(token, PunctToken::NotEquals) && mark.span
            == span_of(token),
        BinaryOp::LessThan(mark) => is_punct(token, PunctToken::LessThan) && mark.span == span_of(
            token,
        ),
        BinaryOp::LessThanEquals(mark) => is_punct(token, PunctToken::LessThanEquals) && mark.span
            == span_of(token),
        BinaryOp::GreaterThan(mark) => is_punct(token, PunctToken::GreaterThan) && mark.span
            == span_of(token),
        BinaryOp::GreaterThanEquals(mark) => is_punct(token, PunctToken::GreaterThanEquals)
            && mark.span == span_of(token),
        BinaryOp::And(mark) => is_punct(token, PunctToken::And) && mark.span == span_of(token),
        BinaryOp::Or(mark) => is_punct(token, PunctToken::Or) && mark.span == span_of(token),
    }
}

/// Where the path that starts at `pos` ends: after the first identifier that
/// no dot follows, or where the tokens end after a dot. `first` says that no
/// identifier of the path has been read yet; a path needs one.
pub open spec fn path_end(tokens: Seq<TokenTree>, pos: int, first: bool) -> Parsed
    decreases tokens.len() - pos,
{
    if pos < 0 || pos >= tokens.len() {
        if first {
            Parsed::Ended(pos)
        } else {
            Parsed::Done(pos)
        }
    } else if !(tokens[pos] is Ident) {
        Parsed::Stuck(tokens[pos], "Ident"@)
    } else if pos + 1 < tokens.len() && is_punct(tokens[pos + 1], PunctToken::Dot) {
        path_end(tokens, pos + 2, false)
    } else {
        Parsed::Done(pos + 1)
    }
}

/// The identifiers of the path that starts at `pos`.
pub open spec fn path_idents(tokens: Seq<TokenTree>, pos: int) -> Seq<Ident>
    decreases tokens.len() - pos,
{
    if pos < 0 || pos >= tokens.len() || !(tokens[pos] is Ident) {
        Seq::empty()
    } else if pos + 1 < tokens.len() && is_punct(tokens[pos + 1], PunctToken::Dot) {
        seq![tokens[pos]->Ident_0] + path_idents(tokens, pos + 2)
    } else {
        seq![tokens[pos]->Ident_0]
    }
}

/// The places of the dots of the path that starts at `pos`.
pub open spec fn path_dots(tokens: Seq<TokenTree>, pos: int) -> Seq<crate::Span>
    decreases tokens.len() - pos,
{
    if pos < 0 || pos >= tokens.len() || !(tokens[pos] is Ident) {
        Seq::empty()
    } else if pos + 1 < tokens.len() && is_punct(tokens[pos + 1], PunctToken::Dot) {
        seq![span_of(tokens[pos + 1])] + path_dots(tokens, pos + 2)
    } else {
        Seq::empty()
    }
}

/// `path` is the path that starts at `pos`.
pub open spec fn reads_path(tokens: Seq<TokenTree>, pos: int, path: Path) -> bool {
    &&& path.idents() == path_idents(tokens, pos)
    &&& path.dots() == path_dots(tokens, pos)
}

/// Where the expression that starts at `pos` ends.
///
/// An expression starts with a literal, a path, a group in round brackets
/// that holds an expression, or one of the operators `!` and `-` followed by
/// an expression. What follows belongs to it as [`rest_end`] says.
pub open spec fn expr_end(tokens: Seq<TokenTree>, pos: int) -> Parsed
    decreases tokens, tokens.len() - pos, 3nat,
{
    if pos < 0 || pos >= tokens.len() {
        Parsed::Ended(pos)
    } else {
        match tokens[pos] {
            TokenTree::Literal(_) => rest_end(tokens, pos + 1, false),
            TokenTree::Ident(_) => match path_end(tokens, pos, true) {
                Parsed::Done(end) => if pos < end <= tokens.len() {
                    rest_end(tokens, end, true)
                } else {
                    Parsed::Done(end)
                },
                other => other,
            },
            TokenTree::Group(group) => if group.delimiter == Delimiter::Parenthesis {
                match expr_end(group.tokens.0@, 0) {
                    Parsed::Done(_) => rest_end(tokens, pos + 1, false),
                    Parsed::Ended(_) => Parsed::Ended(pos + 1),
                    Parsed::Stuck(token, expected) => Parsed::Stuck(token, expected),
                }
            } else {
                Parsed::Stuck(tokens[pos], "expression"@)
            },
            TokenTree::Punct(punct) => if is_unary_op(punct.value) {
                match expr_end(tokens, pos + 1) {
                    Parsed::Done(end) => if pos < end <= tokens.len() {
                        rest_end(tokens, end, false)
                    } else {
                        Parsed::Done(end)
                    },
                    other => other,
                }
            } else {
                match token_at(tokens, pos + 1) {
                    Some(token) => Parsed::Stuck(token, "expression"@),
                    None => Parsed::Ended(pos + 1),
                }
            },
        }
    }
}

/// Where the expression ends of which the part before `pos` has been read;
/// `is_path` says that this part is a path and nothing else.
///
/// A group in round brackets after a path holds the arguments of a call; a
/// group in square brackets is an index; a dot and an identifier are a
/// property; an operator between two operands takes the expression after it
/// as its right operand and ends the expression. Anything else does not
/// belong to the expression.
pub open spec fn rest_end(tokens: Seq<TokenTree>, pos: int, is_path: bool) -> Parsed
    decreases tokens, tokens.len() - pos, 2nat,
{
    if pos < 0 || pos >= tokens.len() {
        Parsed::Done(pos)
    } else {
        match tokens[pos] {
            TokenTree::Group(group) => match group.delimiter {
                Delimiter::Parenthesis => if is_path {
                    match expr_list_end(group.tokens.0@, 0) {
                        Parsed::Stuck(token, expected) => Parsed::Stuck(token, expected),
                        _ => rest_end(tokens, pos + 1, false),
                    }
                } else {
                    Parsed::Done(pos)
                },
                Delimiter::Bracket => match expr_end(group.tokens.0@, 0) {
                    Parsed::Done(_) => rest_end(tokens, pos + 1, false),
                    Parsed::Ended(_) => Parsed::Ended(pos + 1),
                    Parsed::Stuck(token, expected) => Parsed::Stuck(token, expected),
                },
                Delimiter::Brace => Parsed::Done(pos),
            },
            TokenTree::Punct(punct) => if punct.value is Dot {
                match token_at(tokens, pos + 1) {
                    None => Parsed::Ended(pos + 1),
                    Some(token) => if token is Ident {
                        rest_end(tokens, pos + 2, false)
                    } else {
                        Parsed::Stuck(token, "Ident"@)
                    },
                }
            } else if is_binary_op(punct.value) {
                expr_end(tokens, pos + 1)
            } else {
                Parsed::Done(pos)
            },
            _ => Parsed::Done(pos),
        }
    }
}

/// Where the list of expressions that starts at `pos` ends: after the first
/// expression that no comma follows, or where the tokens end.
pub open spec fn expr_list_end(tokens: Seq<TokenTree>, pos: int) -> Parsed
    decreases tokens, tokens.len() - pos, 4nat,
{
    match expr_end(tokens, pos) {
        Parsed::Done(end) => if pos < end < tokens.len() && is_punct(
            tokens[end],
            PunctToken::Comma,
        ) {
            expr_list_end(tokens, end + 1)
        } else {
            Parsed::Done(end)
        },
        Parsed::Ended(at) => Parsed::Done(at),
        Parsed::Stuck(token, expected) => Parsed::Stuck(token, expected),
    }
}

/// Where item number `i` of the list of expressions that starts at `pos`
/// starts.
pub open spec fn expr_item_start(tokens: Seq<TokenTree>, pos: int, i: int) -> int
    decreases i,
{
    if i <= 0 {
        pos
    } else {
        match expr_end(tokens, expr_item_start(tokens, pos, i - 1)) {
            Parsed::Done(end) => end + 1,
            _ => pos,
        }
    }
}

/// `expr` is the expression that stands in the tokens from `pos` up to
/// `end`.
pub open spec fn reads_expr(tokens: Seq<TokenTree>, pos: int, end: int, expr: Expression) -> bool
    decreases expr, 1nat,
{
    match expr {
        Expression::Literal(literal) => end == pos + 1 && token_at(tokens, pos) == Some(
            TokenTree::Literal(literal),
        ),
        Expression::Variable(path) => path_end(tokens, pos, true) == Parsed::Done(end)
            && reads_path(tokens, pos, path),
        Expression::Call(path, args) => {
            &&& path_end(tokens, pos, true) == Parsed::Done(end - 1)
            &&& reads_path(tokens, pos, path)
            &&& token_at(tokens, end - 1) matches Some(TokenTree::Group(group))
                && group.delimiter == Delimiter::Parenthesis && args.span == group.span
                && reads_expr_list(group.tokens.0@, 0, args.contents)
        },
        Expression::Parenthesized(inner) => {
            &&& end == pos + 1
            &&& token_at(tokens, pos) matches Some(TokenTree::Group(group)) && group.delimiter
                == Delimiter::Parenthesis && inner.span == group.span && reads_whole_expr(
                group.tokens.0@,
                inner.contents,
            )
        },
        Expression::Index(left, index) => {
            &&& reads_expr(tokens, pos, end - 1, *left)
            &&& token_at(tokens, end - 1) matches Some(TokenTree::Group(group))
                && group.delimiter == Delimiter::Bracket && index.span == group.span
                && reads_whole_expr(group.tokens.0@, index.contents)
        },
        Expression::Property(left, dot, ident) => {
            &&& reads_expr(tokens, pos, end - 2, *left)
            &&& token_at(tokens, end - 2) is Some
            &&& is_punct(tokens[end - 2], PunctToken::Dot)
            &&& dot.span == span_of(tokens[end - 2])
            &&& token_at(tokens, end - 1) == Some(TokenTree::Ident(ident))
        },
        Expression::UnaryOp(op, inner) => {
            &&& token_at(tokens, pos) is Some
            &&& reads_unary_op(tokens[pos], op)
            &&& reads_expr(tokens, pos + 1, end, *inner)
        },
        Expression::BinaryOp(left, op, right) => exists|at: int|
            {
                &&& reads_expr(tokens, pos, at, *left)
                &&& #[trigger] token_at(tokens, at) is Some
                &&& reads_binary_op(tokens[at], op)
                &&& reads_expr(tokens, at + 1, end, *right)
            },
    }
}

/// `expr` is the expression at the start of `tokens`; what follows it is
/// left alone.
pub open spec fn reads_whole_expr(tokens: Seq<TokenTree>, expr: Expression) -> bool
    decreases expr, 2nat,
{
    expr_end(tokens, 0) matches Parsed::Done(end) && reads_expr(tokens, 0, end, expr)
}

/// `item` is the expression that starts at `from` and the comma after it.
pub open spec fn reads_expr_item(
    tokens: Seq<TokenTree>,
    from: int,
    item: (Expression, Comma),
) -> bool
    decreases item, 0nat,
{
    expr_end(tokens, from) matches Parsed::Done(end) && reads_expr(tokens, from, end, item.0)
        && token_at(tokens, end) is Some && is_punct(tokens[end], PunctToken::Comma) && item.1.span
        == span_of(tokens[end])
}

/// `list` is the list of expressions that starts at `pos`.
pub open spec fn reads_expr_list(
    tokens: Seq<TokenTree>,
    pos: int,
    list: Punctuated<Expression, Comma>,
) -> bool
    decreases list, 0nat,
{
    &&& forall|i: int|
        0 <= i < list.inner@.len() ==> reads_expr_item(
            tokens,
            expr_item_start(tokens, pos, i),
            #[trigger] list.inner@[i],
        )
    &&& {
        let start = expr_item_start(tokens, pos, list.inner@.len() as int);
        match list.last {
            Some(last) => expr_end(tokens, start) matches Parsed::Done(end) && reads_expr(
                tokens,
                start,
                end,
                *last,
            ) && !(token_at(tokens, end) is Some && is_punct(tokens[end], PunctToken::Comma)),
            None => expr_end(tokens, start) is Ended,
        }
    }
}

/// The group of the kind `delimiter` at `at`, if one stands there.
pub open spec fn group_at(tokens: Seq<TokenTree>, at: int, delimiter: Delimiter) -> Option<
    crate::token::group::Group,
> {
    match token_at(tokens, at) {
        Some(TokenTree::Group(group)) => if group.delimiter == delimiter {
            Some(group)
        } else {
            None
        },
        _ => None,
    }
}

/// Reading at `pos` a group of the kind `delimiter` whose inside ends as
/// `inside` says.
pub open spec fn in_group(
    tokens: Seq<TokenTree>,
    pos: int,
    delimiter: Delimiter,
    inside: Parsed,
) -> Parsed {
    match token_at(tokens, pos) {
        None => Parsed::Ended(pos),
        Some(token) => if group_at(tokens, pos, delimiter) is Some {
            match inside {
                Parsed::Done(_) => Parsed::Done(pos + 1),
                Parsed::Ended(_) => Parsed::Ended(pos + 1),
                Parsed::Stuck(found, expected) => Parsed::Stuck(found, expected),
            }
        } else if token is Group {
            Parsed::Stuck(token, group_name(delimiter))
        } else {
            Parsed::Stuck(token, "Group"@)
        },
    }
}

/// Where the group of the kind `delimiter` at `pos` ends that holds an
/// expression.
pub open spec fn group_expr_end(tokens: Seq<TokenTree>, pos: int, delimiter: Delimiter) -> Parsed {
    in_group(
        tokens,
        pos,
        delimiter,
        match group_at(tokens, pos, delimiter) {
            Some(group) => expr_end(group.tokens.0@, 0),
            None => Parsed::Ended(0),
        },
    )
}

/// The outcome `r` of a parser that started at `pos` is what `parsed` says:
/// success, the end of the tokens, or a token out of place.
pub open spec fn outcome_is<T>(
    r: Result<T, SyntaxError>,
    offset: int,
    parsed: Parsed,
) -> bool {
    match parsed {
        Parsed::Done(end) => r is Ok && offset == end,
        Parsed::Ended(at) => r is Err && r->Err_0 is EarlyEof && offset == at,
        Parsed::Stuck(token, name) => r is Err && (r->Err_0 matches SyntaxError::UnexpectedToken(
            found,
            expected,
        ) && same_token(token, found) && expected@ == name),
    }
}

} // verus!
