//! Expressions and paths, and how they are parsed.
use crate::hir::grammar::{
    expr_end, expr_item_start, expr_list_end, group_at, group_expr_end, in_group, is_binary_op,
    is_punct, outcome_is, path_dots, path_end, path_idents, reads_binary_op, reads_expr,
    reads_expr_item, reads_expr_list, reads_path, reads_whole_expr, rest_end, token_at, Parsed,
};
use crate::hir::group::{expect_group, Bracket, Parenthesis};
use crate::hir::parse::{SyntaxError, SyntaxResult, TokenIter};
use crate::hir::punctuated::Punctuated;
use crate::token::group::Delimiter;
use crate::token::ident::Ident;
use crate::token::literal::Literal;
use crate::token::marks::{
    And, Comma, Dot, Equals, GreaterThan, GreaterThanEquals, LessThan, LessThanEquals, Minus, Not,
    NotEquals, Or, Percent, Plus, Slash, Star,
};
use crate::token::punct::{Punct, PunctToken};
use crate::token::tree::TokenTree;
use crate::Span;
use vstd::prelude::*;

verus! {

/// A path as it is written: identifiers with dots between them, at least one
/// identifier.
#[derive(Debug, PartialEq)]
pub struct Path {
    list: Punctuated<Ident, Dot>,
}

impl Path {
    #[verifier::type_invariant]
    closed spec fn wf(self) -> bool {
        self.list.items().len() > 0
    }

    /// The identifiers of the path, in order.
    pub closed spec fn idents(&self) -> Seq<Ident> {
        self.list.items()
    }

    /// The places of the dots of the path, in order.
    pub closed spec fn dots(&self) -> Seq<Span> {
        Seq::new(self.list.inner@.len(), |i: int| self.list.inner@[i].1.span)
    }

    /// The path that `list` holds; `None` exactly when it holds no
    /// identifier.
    pub fn new(list: Punctuated<Ident, Dot>) -> (path: Option<Path>)
        ensures
            path is Some <==> list.items().len() > 0,
            path is Some ==> path->0.idents() == list.items(),
            path is Some ==> path->0.dots() == Seq::new(
                list.inner@.len(),
                |i: int| list.inner@[i].1.span,
            ),
    {
        if list.is_empty() {
            None
        } else {
            Some(Path { list })
        }
    }

    /// The identifiers and the dots as they were read.
    pub fn list(&self) -> (list: &Punctuated<Ident, Dot>)
        ensures
            list.items() == self.idents(),
            list.items().len() > 0,
            Seq::new(list.inner@.len(), |i: int| list.inner@[i].1.span) == self.dots(),
    {
        proof {
            use_type_invariant(self);
        }
        &self.list
    }

    /// Reads a path: identifiers with a dot after each but the last. The
    /// path ends after the first identifier that no dot follows, or where
    /// the tokens end.
    #[verifier::loop_isolation(false)]
    pub fn parse(iter: &mut TokenIter) -> (r: SyntaxResult<Path>)
        requires
            old(iter).wf(),
        ensures
            final(iter).follows(old(iter)),
            final(iter).weight() <= old(iter).weight(),
            r is Ok ==> final(iter).weight() < old(iter).weight(),
            outcome_is(
                r,
                final(iter).offset(),
                path_end(old(iter).stream(), old(iter).offset(), true),
            ),
            r is Ok ==> reads_path(old(iter).stream(), old(iter).offset(), r->Ok_0),
    {
        let mut inner: Vec<(Ident, Dot)> = Vec::new();
        let mut last: Option<Box<Ident>> = None;
        let ghost tokens = iter.stream();
        let ghost start = iter.offset();
        proof {
            assert(Seq::new(inner@.len(), |i: int| inner@[i].0) + path_idents(tokens, start)
                =~= path_idents(tokens, start));
            assert(Seq::new(inner@.len(), |i: int| inner@[i].1.span) + path_dots(tokens, start)
                =~= path_dots(tokens, start));
        }
        loop
            invariant
                iter.follows(old(iter)),
                iter.weight() <= old(iter).weight(),
                inner@.len() > 0 ==> iter.weight() < old(iter).weight(),
                last is None,
                path_end(tokens, start, true) == path_end(tokens, iter.offset(), inner@.len() == 0),
                Seq::new(inner@.len(), |i: int| inner@[i].0) + path_idents(tokens, iter.offset())
                    == path_idents(tokens, start),
                Seq::new(inner@.len(), |i: int| inner@[i].1.span) + path_dots(tokens, iter.offset())
                    == path_dots(tokens, start),
            decreases iter.weight(),
        {
            let ghost before = iter.offset();
            let ghost firsts = Seq::new(inner@.len(), |i: int| inner@[i].0);
            let ghost marks = Seq::new(inner@.len(), |i: int| inner@[i].1.span);
            match iter.parse_token::<Ident>() {
                Ok(token) => {
                    match iter.parse_optional::<Dot>() {
                        Some(punct) => {
                            inner.push((token, punct));
                            proof {
                                assert(Seq::new(inner@.len(), |i: int| inner@[i].0) =~= firsts.push(
                                    token,
                                ));
                                assert(firsts.push(token) + path_idents(tokens, before + 2)
                                    =~= firsts + (seq![token] + path_idents(tokens, before + 2)));
                                assert(Seq::new(inner@.len(), |i: int| inner@[i].1.span)
                                    =~= marks.push(punct.span));
                                assert(marks.push(punct.span) + path_dots(tokens, before + 2)
                                    =~= marks + (seq![punct.span] + path_dots(tokens, before + 2)));
                            }
                        },
                        None => {
                            proof {
                                assert(path_idents(tokens, before) =~= seq![token]);
                                assert(firsts.push(token) =~= path_idents(tokens, start));
                                assert(path_dots(tokens, before) =~= Seq::<Span>::empty());
                                assert(marks =~= path_dots(tokens, start));
                            }
                            last = Some(Box::new(token));
                            break ;
                        },
                    }
                },
                Err(SyntaxError::EarlyEof) => {
                    proof {
                        assert(path_idents(tokens, before) =~= Seq::<Ident>::empty());
                        assert(firsts =~= path_idents(tokens, start));
                        assert(path_dots(tokens, before) =~= Seq::<Span>::empty());
                        assert(marks =~= path_dots(tokens, start));
                    }
                    break ;
                },
                Err(other) => {
                    return Err(other);
                },
            }
        }
        match Path::new(Punctuated { inner, last }) {
            Some(path) => Ok(path),
            None => Err(SyntaxError::EarlyEof),
        }
    }
}

/// An operator that stands before its operand.
#[derive(Debug, PartialEq)]
pub enum UnaryOp {
    Not(Not),
    Negate(Minus),
}

impl UnaryOp {
    /// The operator that `punct` is when it stands before its operand.
    pub fn parse_left(punct: Punct) -> (r: SyntaxResult<Option<UnaryOp>>)
        ensures
            r is Ok,
            match r->Ok_0 {
                Some(UnaryOp::Not(mark)) => punct.value == PunctToken::Not && mark.span
                    == punct.span,
                Some(UnaryOp::Negate(mark)) => punct.value == PunctToken::Minus && mark.span
                    == punct.span,
                None => punct.value != PunctToken::Not && punct.value != PunctToken::Minus,
            },
    {
        Ok(
            match punct.value {
                PunctToken::Not => Some(UnaryOp::Not(Not { span: punct.span })),
                PunctToken::Minus => Some(UnaryOp::Negate(Minus { span: punct.span })),
                _ => None,
            },
        )
    }

    /// The operator that `punct` is when it stands after its operand: there
    /// is no such operator.
    pub fn parse_right(punct: Punct) -> (r: Option<UnaryOp>)
        ensures
            r is None,
    {
        None
    }
}

/// An operator that stands between two operands.
#[derive(Debug, PartialEq)]
pub enum BinaryOp {
    Add(Plus),
    Subtract(Minus),
    Multiply(Star),
    Divide(Slash),
    Modulo(Percent),
    Equals(Equals),
    NotEquals(NotEquals),
    LessThan(LessThan),
    LessThanEquals(LessThanEquals),
    GreaterThan(GreaterThan),
    GreaterThanEquals(GreaterThanEquals),
    And(And),
    Or(Or),
}

impl BinaryOp {
    /// Reads the operator that `punct` stands for, if it stands for one;
    /// `punct` is the punctuation that was seen next.
    pub fn parse(iter: &mut TokenIter, punct: PunctToken) -> (r: SyntaxResult<Option<BinaryOp>>)
        requires
            old(iter).wf(),
        ensures
            final(iter).follows(old(iter)),
            final(iter).weight() <= old(iter).weight(),
            r is Ok && r->Ok_0 is Some ==> final(iter).weight() < old(iter).weight()
                && is_binary_op(punct),
            r is Ok && r->Ok_0 is None ==> final(iter).offset() == old(iter).offset()
                && !is_binary_op(punct),
            r is Ok && r->Ok_0 is Some ==> final(iter).offset() == old(iter).offset() + 1
                && reads_binary_op(old(iter).next()->0, r->Ok_0->0),
            old(iter).next() is Some && is_punct(old(iter).next()->0, punct) ==> r is Ok,
    {
        Ok(
            match punct {
                PunctToken::Plus => Some(BinaryOp::Add(iter.parse_token::<Plus>()?)),
                PunctToken::Minus => Some(BinaryOp::Subtract(iter.parse_token::<Minus>()?)),
                PunctToken::Star => Some(BinaryOp::Multiply(iter.parse_token::<Star>()?)),
                PunctToken::Slash => Some(BinaryOp::Divide(iter.parse_token::<Slash>()?)),
                PunctToken::Percent => Some(BinaryOp::Modulo(iter.parse_token::<Percent>()?)),
                PunctToken::Equals => Some(BinaryOp::Equals(iter.parse_token::<Equals>()?)),
                PunctToken::NotEquals => Some(
                    BinaryOp::NotEquals(iter.parse_token::<NotEquals>()?),
                ),
                PunctToken::LessThan => Some(BinaryOp::LessThan(iter.parse_token::<LessThan>()?)),
                PunctToken::LessThanEquals => Some(
                    BinaryOp::LessThanEquals(iter.parse_token::<LessThanEquals>()?),
                ),
                PunctToken::GreaterThan => Some(
                    BinaryOp::GreaterThan(iter.parse_token::<GreaterThan>()?),
                ),
                PunctToken::GreaterThanEquals => Some(
                    BinaryOp::GreaterThanEquals(iter.parse_token::<GreaterThanEquals>()?),
                ),
                PunctToken::And => Some(BinaryOp::And(iter.parse_token::<And>()?)),
                PunctToken::Or => Some(BinaryOp::Or(iter.parse_token::<Or>()?)),
                _ => None,
            },
        )
    }
}

/// An expression, with the tokens it was read from.
#[derive(Debug, PartialEq)]
pub enum Expression {
    Literal(Literal),
    Variable(Path),
    Property(Box<Expression>, Dot, Ident),
    Call(Path, Parenthesis<Punctuated<Expression, Comma>>),
    Parenthesized(Box<Parenthesis<Expression>>),
    Index(Box<Expression>, Box<Bracket<Expression>>),
    UnaryOp(UnaryOp, Box<Expression>),
    BinaryOp(Box<Expression>, BinaryOp, Box<Expression>),
}

impl Expression {
    /// Reads what may follow an expression and belongs to it: the arguments
    /// of a call after a path, an index, a property, or an operator and its
    /// right operand. `start` is where the expression read so far starts.
    fn continue_parsing(self, iter: &mut TokenIter, Ghost(start): Ghost<int>) -> (r: SyntaxResult<
        Expression,
    >)
        requires
            old(iter).wf(),
            reads_expr(old(iter).stream(), start, old(iter).offset(), self),
        ensures
            final(iter).follows(old(iter)),
            final(iter).weight() <= old(iter).weight(),
            outcome_is(
                r,
                final(iter).offset(),
                rest_end(old(iter).stream(), old(iter).offset(), self is Variable),
            ),
            r is Ok ==> reads_expr(old(iter).stream(), start, final(iter).offset(), r->Ok_0),
        decreases old(iter).weight(), 2nat,
    {
        let ghost tokens = iter.stream();
        let ghost pos = iter.offset();
        match iter.peek() {
            None => Ok(self),
            Some(next_token) => match next_token {
                TokenTree::Group(group) => match group.delimiter {
                    Delimiter::Parenthesis => match self {
                        Expression::Variable(path) => {
                            let args = parse_call_args(iter)?;
                            Expression::Call(path, args).continue_parsing(iter, Ghost(start))
                        },
                        other => Ok(other),
                    },
                    Delimiter::Bracket => {
                        let index = parse_bracketed(iter)?;
                        Expression::Index(Box::new(self), Box::new(index)).continue_parsing(
                            iter,
                            Ghost(start),
                        )
                    },
                    _ => Ok(self),
                },
                TokenTree::Punct(punct) => {
                    let token = punct.value;
                    match token {
                        PunctToken::Dot => {
                            let dot = iter.parse_token::<Dot>()?;
                            let ident = iter.parse_token::<Ident>()?;
                            Expression::Property(Box::new(self), dot, ident).continue_parsing(
                                iter,
                                Ghost(start),
                            )
                        },
                        _ => match UnaryOp::parse_right(*punct) {
                            Some(op) => Ok(Expression::UnaryOp(op, Box::new(self))),
                            None => match BinaryOp::parse(iter, token)? {
                                Some(op) => {
                                    let right = Expression::parse(iter)?;
                                    let whole = Expression::BinaryOp(
                                        Box::new(self),
                                        op,
                                        Box::new(right),
                                    );
                                    proof {
                                        assert(token_at(tokens, pos) is Some);
                                    }
                                    Ok(whole)
                                },
                                None => Ok(self),
                            },
                        },
                    }
                },
                _ => Ok(self),
            },
        }
    }

    /// Reads an expression.
    pub fn parse(iter: &mut TokenIter) -> (r: SyntaxResult<Expression>)
        requires
            old(iter).wf(),
        ensures
            final(iter).follows(old(iter)),
            final(iter).weight() <= old(iter).weight(),
            r is Ok ==> final(iter).weight() < old(iter).weight(),
            outcome_is(r, final(iter).offset(), expr_end(old(iter).stream(), old(iter).offset())),
            r is Ok ==> reads_expr(
                old(iter).stream(),
                old(iter).offset(),
                final(iter).offset(),
                r->Ok_0,
            ),
        decreases old(iter).weight(), 3nat,
    {
        let ghost start = iter.offset();
        let left = match iter.expect_peek()? {
            TokenTree::Literal(_) => Expression::Literal(iter.parse_token::<Literal>()?),
            TokenTree::Ident(_) => Expression::Variable(Path::parse(iter)?),
            TokenTree::Group(group) => {
                if group.delimiter == Delimiter::Parenthesis {
                    let inner = parse_parenthesized(iter)?;
                    Expression::Parenthesized(Box::new(inner))
                } else {
                    let token = iter.expect_consume()?;
                    return Err(SyntaxError::UnexpectedToken(token.duplicate(), "expression"));
                }
            },
            TokenTree::Punct(_) => {
                match UnaryOp::parse_left(iter.parse_token::<Punct>()?)? {
                    Some(op) => {
                        let right = Expression::parse(iter)?;
                        Expression::UnaryOp(op, Box::new(right))
                    },
                    None => {
                        let token = iter.expect_consume()?;
                        return Err(SyntaxError::UnexpectedToken(token.duplicate(), "expression"));
                    },
                }
            },
        };
        left.continue_parsing(iter, Ghost(start))
    }
}

/// `inner` is what the group in round brackets at `pos` holds: the
/// expression at the start of its tokens.
pub open spec fn reads_parenthesized(
    tokens: Seq<TokenTree>,
    pos: int,
    inner: Parenthesis<Expression>,
) -> bool {
    group_at(tokens, pos, Delimiter::Parenthesis) matches Some(group) && inner.span == group.span
        && reads_whole_expr(group.tokens.0@, inner.contents)
}

/// `inner` is what the group in square brackets at `pos` holds: the
/// expression at the start of its tokens.
pub open spec fn reads_bracketed(
    tokens: Seq<TokenTree>,
    pos: int,
    inner: Bracket<Expression>,
) -> bool {
    group_at(tokens, pos, Delimiter::Bracket) matches Some(group) && inner.span == group.span
        && reads_whole_expr(group.tokens.0@, inner.contents)
}

/// `args` is what the group in round brackets at `pos` holds: the list of
/// expressions at the start of its tokens.
pub open spec fn reads_call_args(
    tokens: Seq<TokenTree>,
    pos: int,
    args: Parenthesis<Punctuated<Expression, Comma>>,
) -> bool {
    group_at(tokens, pos, Delimiter::Parenthesis) matches Some(group) && args.span == group.span
        && reads_expr_list(group.tokens.0@, 0, args.contents)
}

/// Reads a group in round brackets and the expression in it. Tokens after
/// the expression inside the group are left unread.
pub fn parse_parenthesized(iter: &mut TokenIter) -> (r: SyntaxResult<Parenthesis<Expression>>)
    requires
        old(iter).wf(),
    ensures
        final(iter).follows(old(iter)),
        final(iter).weight() <= old(iter).weight(),
        r is Ok ==> final(iter).weight() < old(iter).weight(),
        outcome_is(
            r,
            final(iter).offset(),
            group_expr_end(old(iter).stream(), old(iter).offset(), Delimiter::Parenthesis),
        ),
        r is Ok ==> reads_parenthesized(old(iter).stream(), old(iter).offset(), r->Ok_0),
    decreases old(iter).weight(), 1nat,
{
    let group = expect_group(iter, Delimiter::Parenthesis)?;
    let mut inner = TokenIter::new(&group.tokens);
    let contents = Expression::parse(&mut inner)?;
    Ok(Parenthesis { span: group.span, contents })
}

/// Reads a group in square brackets and the expression in it. Tokens after
/// the expression inside the group are left unread.
pub fn parse_bracketed(iter: &mut TokenIter) -> (r: SyntaxResult<Bracket<Expression>>)
    requires
        old(iter).wf(),
    ensures
        final(iter).follows(old(iter)),
        final(iter).weight() <= old(iter).weight(),
        r is Ok ==> final(iter).weight() < old(iter).weight(),
        outcome_is(
            r,
            final(iter).offset(),
            group_expr_end(old(iter).stream(), old(iter).offset(), Delimiter::Bracket),
        ),
        r is Ok ==> reads_bracketed(old(iter).stream(), old(iter).offset(), r->Ok_0),
    decreases old(iter).weight(), 1nat,
{
    let group = expect_group(iter, Delimiter::Bracket)?;
    let mut inner = TokenIter::new(&group.tokens);
    let contents = Expression::parse(&mut inner)?;
    Ok(Bracket { span: group.span, contents })
}

/// Reads a group in round brackets and the expressions in it, which have
/// commas between them.
pub fn parse_call_args(iter: &mut TokenIter) -> (r: SyntaxResult<
    Parenthesis<Punctuated<Expression, Comma>>,
>)
    requires
        old(iter).wf(),
    ensures
        final(iter).follows(old(iter)),
        final(iter).weight() <= old(iter).weight(),
        r is Ok ==> final(iter).weight() < old(iter).weight(),
        outcome_is(
            r,
            final(iter).offset(),
            in_group(
                old(iter).stream(),
                old(iter).offset(),
                Delimiter::Parenthesis,
                match group_at(old(iter).stream(), old(iter).offset(), Delimiter::Parenthesis) {
                    Some(group) => expr_list_end(group.tokens.0@, 0),
                    None => Parsed::Ended(0),
                },
            ),
        ),
        r is Ok ==> reads_call_args(old(iter).stream(), old(iter).offset(), r->Ok_0),
        group_at(old(iter).stream(), old(iter).offset(), Delimiter::Parenthesis) is Some ==> !(
        expr_list_end(
            group_at(old(iter).stream(), old(iter).offset(), Delimiter::Parenthesis)->0.tokens.0@,
            0,
        ) is Ended),
    decreases old(iter).weight(), 1nat,
{
    let group = expect_group(iter, Delimiter::Parenthesis)?;
    let mut inner = TokenIter::new(&group.tokens);
    let contents = parse_expr_list(&mut inner)?;
    Ok(Parenthesis { span: group.span, contents })
}

/// Reads expressions with a comma after each but the last. The list ends
/// after the first expression that no comma follows, or where the tokens
/// end.
#[verifier::loop_isolation(false)]
pub fn parse_expr_list(iter: &mut TokenIter) -> (r: SyntaxResult<Punctuated<Expression, Comma>>)
    requires
        old(iter).wf(),
    ensures
        final(iter).follows(old(iter)),
        final(iter).weight() <= old(iter).weight(),
        outcome_is(r, final(iter).offset(), expr_list_end(old(iter).stream(), old(iter).offset())),
        !(expr_list_end(old(iter).stream(), old(iter).offset()) is Ended),
        r is Ok ==> reads_expr_list(old(iter).stream(), old(iter).offset(), r->Ok_0),
    decreases old(iter).weight(), 4nat,
{
    let mut inner: Vec<(Expression, Comma)> = Vec::new();
    let mut last: Option<Box<Expression>> = None;
    let ghost tokens = iter.stream();
    let ghost start = iter.offset();
    loop
        invariant
            iter.follows(old(iter)),
            iter.weight() <= old(iter).weight(),
            last is None,
            iter.offset() == expr_item_start(tokens, start, inner@.len() as int),
            expr_list_end(tokens, start) == expr_list_end(tokens, iter.offset()),
            forall|i: int|
                0 <= i < inner@.len() ==> reads_expr_item(
                    tokens,
                    expr_item_start(tokens, start, i),
                    #[trigger] inner@[i],
                ),
        decreases iter.weight(),
    {
        let ghost before = iter.offset();
        match Expression::parse(iter) {
            Ok(token) => {
                match iter.parse_optional::<Comma>() {
                    Some(punct) => {
                        let ghost items = inner@;
                        inner.push((token, punct));
                        proof {
                            let k = items.len() as int;
                            assert(expr_item_start(tokens, start, k + 1) == iter.offset());
                            assert forall|i: int| 0 <= i < inner@.len() implies reads_expr_item(
                                tokens,
                                expr_item_start(tokens, start, i),
                                #[trigger] inner@[i],
                            ) by {
                                if i < k {
                                    assert(inner@[i] == items[i]);
                                } else {
                                    assert(inner@[i] == (token, punct));
                                    assert(expr_item_start(tokens, start, i) == before);
                                }
                            }
                        }
                    },
                    None => {
                        last = Some(Box::new(token));
                        break ;
                    },
                }
            },
            Err(SyntaxError::EarlyEof) => {
                break ;
            },
            Err(other) => {
                return Err(other);
            },
        }
    }
    Ok(Punctuated { inner, last })
}

} // verus!
