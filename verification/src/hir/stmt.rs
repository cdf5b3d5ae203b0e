//! Statements, and how they are parsed.
use crate::hir::expr::{parse_parenthesized, Expression, Path};
use crate::hir::grammar::outcome_is;
use crate::hir::group::{expect_group, Brace, Parenthesis};
use crate::hir::parse::{SyntaxError, SyntaxResult, TokenIter};
use crate::hir::punctuated::Punctuated;
use crate::hir::statements::{
    arg_end, arg_list_end, args_end, assign_end, block_end, decl_end, decl_start_end, else_end,
    for_end, for_group_end, for_inner_end, function_end, if_end, reads_arg, reads_arg_item,
    reads_arg_list, reads_args, reads_assign, reads_block, reads_decl, reads_decl_start,
    reads_else, reads_for, reads_for_group, reads_for_inner, reads_function, reads_if, reads_stmt,
    reads_stmts, reads_while, stmt_end, stmt_start, stmts_end, while_end,
};
use crate::hir::ty::Type;
use crate::token::group::Delimiter;
use crate::token::ident::Ident;
use crate::token::keyword::{Else, For, Function, If, Import, Let, Return, Static, Unsafe, While};
use crate::token::marks::{Assign, Colon, Comma, Semicolon};
use crate::token::tree::TokenTree;
use vstd::prelude::*;

verus! {

/// Statements between `{` and `}`.
pub type Block = Brace<Vec<Statement>>;

/// The word that a declaration starts with.
#[derive(Debug, PartialEq)]
pub enum DeclStart {
    Static(Static),
    Let(Let),
}

/// A declaration of a variable: `let name: type = value;` or
/// `static name: type;`, the value being optional.
#[derive(Debug, PartialEq)]
pub struct Declaration {
    pub start_token: DeclStart,
    pub ident: Ident,
    pub colon: Colon,
    pub ty: Type,
    pub value: Option<(Assign, Expression)>,
    pub semicolon: Semicolon,
}

/// An assignment: `variable = value;`.
#[derive(Debug, PartialEq)]
pub struct Assignment {
    pub variable: Path,
    pub assign: Assign,
    pub value: Expression,
    pub semicolon: Semicolon,
}

/// A parameter of a function: `name: type`.
#[derive(Debug, PartialEq)]
pub struct FunctionArg {
    pub name: Ident,
    pub colon: Colon,
    pub ty: Type,
}

/// A function: `static function name(parameters): type { body }`, the word
/// `static` being optional.
#[derive(Debug, PartialEq)]
pub struct FunctionDecl {
    pub staticness: Option<Static>,
    pub function_token: Function,
    pub ident: Ident,
    pub args: Parenthesis<Punctuated<FunctionArg, Comma>>,
    pub colon: Colon,
    pub return_type: Type,
    pub block: Block,
}

/// A conditional: `if (condition) { body }`, and possibly `else` and what
/// follows it.
#[derive(Debug, PartialEq)]
pub struct IfBlock {
    pub if_token: If,
    pub condition: Parenthesis<Expression>,
    pub block: Block,
    pub else_block: Option<(Else, ElseBlock)>,
}

/// What follows `else`: another conditional, or a body.
#[derive(Debug, PartialEq)]
pub enum ElseBlock {
    ElseIf(Box<IfBlock>),
    Else(Block),
}

/// A loop: `while (condition) { body }`.
#[derive(Debug, PartialEq)]
pub struct WhileLoop {
    pub while_token: While,
    pub condition: Parenthesis<Expression>,
    pub block: Block,
}

/// What stands in the round brackets of a `for`: a declaration, a condition
/// and an update.
#[derive(Debug, PartialEq)]
pub struct ForLoopInner {
    pub init: Declaration,
    pub condition: (Expression, Semicolon),
    pub update: Assignment,
}

/// A loop: `for (declaration condition; update) { body }`.
#[derive(Debug, PartialEq)]
pub struct ForLoop {
    pub for_token: For,
    pub inner: Parenthesis<ForLoopInner>,
    pub block: Block,
}

/// A statement, with the tokens it was read from.
#[derive(Debug, PartialEq)]
pub enum Statement {
    Block(Block),
    Function(FunctionDecl),
    Declaration(Declaration),
    Expression((Expression, Semicolon)),
    Assignment(Assignment),
    Return((Return, Expression, Semicolon)),
    While(WhileLoop),
    If(IfBlock),
    For(Box<ForLoop>),
    Unsafe((Unsafe, Block)),
    Import((Import, Path, Semicolon)),
}

impl DeclStart {
    /// Reads `static` or `let`.
    pub fn parse(iter: &mut TokenIter) -> (r: SyntaxResult<DeclStart>)
        requires
            old(iter).wf(),
        ensures
            outcome_is(
                r,
                final(iter).offset(),
                decl_start_end(old(iter).stream(), old(iter).offset()),
            ),
            r is Ok ==> reads_decl_start(old(iter).stream(), old(iter).offset(), r->Ok_0),
            final(iter).follows(old(iter)),
            final(iter).weight() <= old(iter).weight(),
            r is Ok ==> final(iter).weight() < old(iter).weight(),
    {
        match iter.expect_peek()? {
            TokenTree::Ident(ident) => {
                if Static::is_ident(ident) {
                    Ok(DeclStart::Static(iter.parse_token::<Static>()?))
                } else if Let::is_ident(ident) {
                    Ok(DeclStart::Let(iter.parse_token::<Let>()?))
                } else {
                    let token = iter.expect_consume()?;
                    Err(SyntaxError::UnexpectedToken(token.duplicate(), "static or let"))
                }
            },
            _ => {
                let token = iter.expect_consume()?;
                Err(SyntaxError::UnexpectedToken(token.duplicate(), "static or let"))
            },
        }
    }
}

impl Declaration {
    /// Reads a declaration.
    pub fn parse(iter: &mut TokenIter) -> (r: SyntaxResult<Declaration>)
        requires
            old(iter).wf(),
        ensures
            outcome_is(r, final(iter).offset(), decl_end(old(iter).stream(), old(iter).offset())),
            r is Ok ==> reads_decl(old(iter).stream(), old(iter).offset(), r->Ok_0),
            final(iter).follows(old(iter)),
            final(iter).weight() <= old(iter).weight(),
            r is Ok ==> final(iter).weight() < old(iter).weight(),
    {
        let start_token = DeclStart::parse(iter)?;
        let ident = iter.parse_token::<Ident>()?;
        let colon = iter.parse_token::<Colon>()?;
        let ty = Type::parse(iter)?;
        let value = match iter.parse_optional::<Assign>() {
            Some(assign) => {
                let expr = Expression::parse(iter)?;
                Some((assign, expr))
            },
            None => None,
        };
        let semicolon = iter.parse_token::<Semicolon>()?;
        Ok(Declaration { start_token, ident, colon, ty, value, semicolon })
    }
}

impl Assignment {
    /// Reads an assignment.
    pub fn parse(iter: &mut TokenIter) -> (r: SyntaxResult<Assignment>)
        requires
            old(iter).wf(),
        ensures
            outcome_is(r, final(iter).offset(), assign_end(old(iter).stream(), old(iter).offset())),
            r is Ok ==> reads_assign(old(iter).stream(), old(iter).offset(), r->Ok_0),
            final(iter).follows(old(iter)),
            final(iter).weight() <= old(iter).weight(),
            r is Ok ==> final(iter).weight() < old(iter).weight(),
    {
        let variable = Path::parse(iter)?;
        let assign = iter.parse_token::<Assign>()?;
        let value = Expression::parse(iter)?;
        let semicolon = iter.parse_token::<Semicolon>()?;
        Ok(Assignment { variable, assign, value, semicolon })
    }
}

impl FunctionArg {
    /// Reads a parameter.
    pub fn parse(iter: &mut TokenIter) -> (r: SyntaxResult<FunctionArg>)
        requires
            old(iter).wf(),
        ensures
            outcome_is(r, final(iter).offset(), arg_end(old(iter).stream(), old(iter).offset())),
            r is Ok ==> reads_arg(old(iter).stream(), old(iter).offset(), r->Ok_0),
            final(iter).follows(old(iter)),
            final(iter).weight() <= old(iter).weight(),
            r is Ok ==> final(iter).weight() < old(iter).weight(),
    {
        let name = iter.parse_token::<Ident>()?;
        let colon = iter.parse_token::<Colon>()?;
        let ty = Type::parse(iter)?;
        Ok(FunctionArg { name, colon, ty })
    }
}

/// Reads parameters with a comma after each but the last. The list ends
/// after the first parameter that no comma follows, or where the tokens end.
#[verifier::loop_isolation(false)]
pub fn parse_arg_list(iter: &mut TokenIter) -> (r: SyntaxResult<Punctuated<FunctionArg, Comma>>)
    requires
        old(iter).wf(),
    ensures
        outcome_is(r, final(iter).offset(), arg_list_end(old(iter).stream(), old(iter).offset())),
        r is Ok ==> reads_arg_list(old(iter).stream(), old(iter).offset(), r->Ok_0),
        final(iter).follows(old(iter)),
        final(iter).weight() <= old(iter).weight(),
{
    let mut inner: Vec<(FunctionArg, Comma)> = Vec::new();
    let mut last: Option<Box<FunctionArg>> = None;
    let ghost tokens = iter.stream();
    let ghost start = iter.offset();
    loop
        invariant
            iter.follows(old(iter)),
            iter.weight() <= old(iter).weight(),
            last is None,
            iter.offset() == start + 4 * inner@.len(),
            arg_list_end(tokens, start) == arg_list_end(tokens, iter.offset()),
            forall|i: int|
                0 <= i < inner@.len() ==> reads_arg_item(
                    tokens,
                    start + 4 * i,
                    #[trigger] inner@[i],
                ),
        decreases iter.weight(),
    {
        let ghost before = iter.offset();
        match FunctionArg::parse(iter) {
            Ok(token) => {
                match iter.parse_optional::<Comma>() {
                    Some(punct) => {
                        let ghost items = inner@;
                        inner.push((token, punct));
                        proof {
                            let k = items.len() as int;
                            assert forall|i: int| 0 <= i < inner@.len() implies reads_arg_item(
                                tokens,
                                start + 4 * i,
                                #[trigger] inner@[i],
                            ) by {
                                if i < k {
                                    assert(inner@[i] == items[i]);
                                } else {
                                    assert(inner@[i] == (token, punct));
                                    assert(start + 4 * i == before);
                                }
                            }
                        }
                    },
                    None => {
                        last = Some(Box::new(token));
                        break ;
                    },
                }
            },
            Err(SyntaxError::EarlyEof) => {
                break ;
            },
            Err(other) => {
                return Err(other);
            },
        }
    }
    Ok(Punctuated { inner, last })
}

/// Reads a group in round brackets and the parameters in it.
pub fn parse_args(iter: &mut TokenIter) -> (r: SyntaxResult<
    Parenthesis<Punctuated<FunctionArg, Comma>>,
>)
    requires
        old(iter).wf(),
    ensures
        outcome_is(r, final(iter).offset(), args_end(old(iter).stream(), old(iter).offset())),
        r is Ok ==> reads_args(old(iter).stream(), old(iter).offset(), r->Ok_0),
        final(iter).follows(old(iter)),
        final(iter).weight() <= old(iter).weight(),
        r is Ok ==> final(iter).weight() < old(iter).weight(),
{
    let group = expect_group(iter, Delimiter::Parenthesis)?;
    let mut inner = TokenIter::new(&group.tokens);
    let contents = parse_arg_list(&mut inner)?;
    Ok(Parenthesis { span: group.span, contents })
}

impl ForLoopInner {
    /// Reads the three parts of a `for`.
    pub fn parse(iter: &mut TokenIter) -> (r: SyntaxResult<ForLoopInner>)
        requires
            old(iter).wf(),
        ensures
            outcome_is(
                r,
                final(iter).offset(),
                for_inner_end(old(iter).stream(), old(iter).offset()),
            ),
            r is Ok ==> reads_for_inner(old(iter).stream(), old(iter).offset(), r->Ok_0),
            final(iter).follows(old(iter)),
            final(iter).weight() <= old(iter).weight(),
            r is Ok ==> final(iter).weight() < old(iter).weight(),
    {
        let init = Declaration::parse(iter)?;
        let condition = Expression::parse(iter)?;
        let semicolon = iter.parse_token::<Semicolon>()?;
        let update = Assignment::parse(iter)?;
        Ok(ForLoopInner { init, condition: (condition, semicolon), update })
    }
}

/// Reads a group in round brackets and the three parts of a `for` in it.
pub fn parse_for_inner(iter: &mut TokenIter) -> (r: SyntaxResult<Parenthesis<ForLoopInner>>)
    requires
        old(iter).wf(),
    ensures
        outcome_is(r, final(iter).offset(), for_group_end(old(iter).stream(), old(iter).offset())),
        r is Ok ==> reads_for_group(old(iter).stream(), old(iter).offset(), r->Ok_0),
        final(iter).follows(old(iter)),
        final(iter).weight() <= old(iter).weight(),
        r is Ok ==> final(iter).weight() < old(iter).weight(),
{
    let group = expect_group(iter, Delimiter::Parenthesis)?;
    let mut inner = TokenIter::new(&group.tokens);
    let contents = ForLoopInner::parse(&mut inner)?;
    Ok(Parenthesis { span: group.span, contents })
}

/// Reads a group in curly brackets and the statements in it.
pub fn parse_block(iter: &mut TokenIter) -> (r: SyntaxResult<Block>)
    requires
        old(iter).wf(),
    ensures
        outcome_is(r, final(iter).offset(), block_end(old(iter).stream(), old(iter).offset())),
        r is Ok ==> reads_block(old(iter).stream(), old(iter).offset(), r->Ok_0),
        final(iter).follows(old(iter)),
        final(iter).weight() <= old(iter).weight(),
        r is Ok ==> final(iter).weight() < old(iter).weight(),
    decreases old(iter).weight(), 5nat,
{
    let group = expect_group(iter, Delimiter::Brace)?;
    let mut inner = TokenIter::new(&group.tokens);
    let contents = parse_statements(&mut inner)?;
    Ok(Brace { span: group.span, contents })
}

/// Reads statements until the tokens end.
#[verifier::loop_isolation(false)]
pub fn parse_statements(iter: &mut TokenIter) -> (r: SyntaxResult<Vec<Statement>>)
    requires
        old(iter).wf(),
    ensures
        outcome_is(r, final(iter).offset(), stmts_end(old(iter).stream(), old(iter).offset())),
        r is Ok ==> reads_stmts(old(iter).stream(), old(iter).offset(), r->Ok_0@),
        final(iter).follows(old(iter)),
        final(iter).weight() <= old(iter).weight(),
        r is Ok ==> final(iter).next() is None,
    decreases old(iter).weight(), 10nat,
{
    let mut items: Vec<Statement> = Vec::new();
    let ghost tokens = iter.stream();
    let ghost start = iter.offset();
    loop
        invariant
            iter.follows(old(iter)),
            iter.weight() <= old(iter).weight(),
            iter.offset() == stmt_start(tokens, start, items@.len() as int),
            stmts_end(tokens, start) == stmts_end(tokens, iter.offset()),
            forall|i: int|
                0 <= i < items@.len() ==> reads_stmt(
                    tokens,
                    stmt_start(tokens, start, i),
                    #[trigger] items@[i],
                ),
        decreases iter.weight(),
    {
        match iter.peek() {
            Some(_) => {
                items.push(Statement::parse(iter)?);
            },
            None => {
                break ;
            },
        }
    }
    Ok(items)
}

impl FunctionDecl {
    /// Reads a function.
    pub fn parse(iter: &mut TokenIter) -> (r: SyntaxResult<FunctionDecl>)
        requires
            old(iter).wf(),
        ensures
            outcome_is(
                r,
                final(iter).offset(),
                function_end(old(iter).stream(), old(iter).offset()),
            ),
            r is Ok ==> reads_function(old(iter).stream(), old(iter).offset(), r->Ok_0),
            final(iter).follows(old(iter)),
            final(iter).weight() <= old(iter).weight(),
            r is Ok ==> final(iter).weight() < old(iter).weight(),
        decreases old(iter).weight(), 8nat,
    {
        let staticness = iter.parse_optional::<Static>();
        let function_token = iter.parse_token::<Function>()?;
        let ident = iter.parse_token::<Ident>()?;
        let args = parse_args(iter)?;
        let colon = iter.parse_token::<Colon>()?;
        let return_type = Type::parse(iter)?;
        let block = parse_block(iter)?;
        Ok(FunctionDecl { staticness, function_token, ident, args, colon, return_type, block })
    }
}

impl WhileLoop {
    /// Reads a `while`.
    pub fn parse(iter: &mut TokenIter) -> (r: SyntaxResult<WhileLoop>)
        requires
            old(iter).wf(),
        ensures
            outcome_is(r, final(iter).offset(), while_end(old(iter).stream(), old(iter).offset())),
            r is Ok ==> reads_while(old(iter).stream(), old(iter).offset(), r->Ok_0),
            final(iter).follows(old(iter)),
            final(iter).weight() <= old(iter).weight(),
            r is Ok ==> final(iter).weight() < old(iter).weight(),
        decreases old(iter).weight(), 8nat,
    {
        let while_token = iter.parse_token::<While>()?;
        let condition = parse_parenthesized(iter)?;
        let block = parse_block(iter)?;
        Ok(WhileLoop { while_token, condition, block })
    }
}

impl ForLoop {
    /// Reads a `for`.
    pub fn parse(iter: &mut TokenIter) -> (r: SyntaxResult<ForLoop>)
        requires
            old(iter).wf(),
        ensures
            outcome_is(r, final(iter).offset(), for_end(old(iter).stream(), old(iter).offset())),
            r is Ok ==> reads_for(old(iter).stream(), old(iter).offset(), r->Ok_0),
            final(iter).follows(old(iter)),
            final(iter).weight() <= old(iter).weight(),
            r is Ok ==> final(iter).weight() < old(iter).weight(),
        decreases old(iter).weight(), 8nat,
    {
        let for_token = iter.parse_token::<For>()?;
        let inner = parse_for_inner(iter)?;
        let block = parse_block(iter)?;
        Ok(ForLoop { for_token, inner, block })
    }
}

impl IfBlock {
    /// Reads a conditional.
    pub fn parse(iter: &mut TokenIter) -> (r: SyntaxResult<IfBlock>)
        requires
            old(iter).wf(),
        ensures
            outcome_is(r, final(iter).offset(), if_end(old(iter).stream(), old(iter).offset())),
            r is Ok ==> reads_if(old(iter).stream(), old(iter).offset(), r->Ok_0),
            final(iter).follows(old(iter)),
            final(iter).weight() <= old(iter).weight(),
            r is Ok ==> final(iter).weight() < old(iter).weight(),
        decreases old(iter).weight(), 8nat,
    {
        let if_token = iter.parse_token::<If>()?;
        let condition = parse_parenthesized(iter)?;
        let block = parse_block(iter)?;
        let else_block = match iter.parse_optional::<Else>() {
            Some(else_token) => Some((else_token, ElseBlock::parse(iter)?)),
            None => None,
        };
        Ok(IfBlock { if_token, condition, block, else_block })
    }
}

impl ElseBlock {
    /// Reads what follows `else`: a conditional if the next word is `if`,
    /// else a body.
    pub fn parse(iter: &mut TokenIter) -> (r: SyntaxResult<ElseBlock>)
        requires
            old(iter).wf(),
        ensures
            outcome_is(r, final(iter).offset(), else_end(old(iter).stream(), old(iter).offset())),
            r is Ok ==> reads_else(old(iter).stream(), old(iter).offset(), r->Ok_0),
            final(iter).follows(old(iter)),
            final(iter).weight() <= old(iter).weight(),
            r is Ok ==> final(iter).weight() < old(iter).weight(),
        decreases old(iter).weight(), 9nat,
    {
        let is_if = match iter.expect_peek()? {
            TokenTree::Ident(ident) => If::is_ident(ident),
            _ => false,
        };
        if is_if {
            Ok(ElseBlock::ElseIf(Box::new(IfBlock::parse(iter)?)))
        } else {
            Ok(ElseBlock::Else(parse_block(iter)?))
        }
    }
}

impl Statement {
    /// Reads one statement. The first token decides what kind it is, and for
    /// an identifier that is no keyword the token after it: a colon makes a
    /// declaration, an equals sign an assignment. Anything else is an
    /// expression followed by a semicolon.
    pub fn parse(iter: &mut TokenIter) -> (r: SyntaxResult<Statement>)
        requires
            old(iter).wf(),
        ensures
            outcome_is(r, final(iter).offset(), stmt_end(old(iter).stream(), old(iter).offset())),
            r is Ok ==> reads_stmt(old(iter).stream(), old(iter).offset(), r->Ok_0),
            final(iter).follows(old(iter)),
            final(iter).weight() <= old(iter).weight(),
            r is Ok ==> final(iter).weight() < old(iter).weight(),
            old(iter).next() is None ==> r is Err && r->Err_0 is EarlyEof,
        decreases old(iter).weight(), 9nat,
    {
        match iter.expect_peek()? {
            TokenTree::Group(group) => {
                if group.delimiter == Delimiter::Brace {
                    return Ok(Statement::Block(parse_block(iter)?));
                }
            },
            TokenTree::Ident(ident) => {
                if Return::is_ident(ident) {
                    let return_token = iter.parse_token::<Return>()?;
                    let value = Expression::parse(iter)?;
                    let semicolon = iter.parse_token::<Semicolon>()?;
                    return Ok(Statement::Return((return_token, value, semicolon)));
                }
                if Unsafe::is_ident(ident) {
                    let unsafe_token = iter.parse_token::<Unsafe>()?;
                    let block = parse_block(iter)?;
                    return Ok(Statement::Unsafe((unsafe_token, block)));
                }
                if While::is_ident(ident) {
                    return Ok(Statement::While(WhileLoop::parse(iter)?));
                }
                if If::is_ident(ident) {
                    return Ok(Statement::If(IfBlock::parse(iter)?));
                }
                if For::is_ident(ident) {
                    return Ok(Statement::For(Box::new(ForLoop::parse(iter)?)));
                }
                if Function::is_ident(ident) {
                    return Ok(Statement::Function(FunctionDecl::parse(iter)?));
                }
                if Import::is_ident(ident) {
                    let import_token = iter.parse_token::<Import>()?;
                    let path = Path::parse(iter)?;
                    let semicolon = iter.parse_token::<Semicolon>()?;
                    return Ok(Statement::Import((import_token, path, semicolon)));
                }
                if Let::is_ident(ident) {
                    return Ok(Statement::Declaration(Declaration::parse(iter)?));
                }
                if Static::is_ident(ident) {
                    match iter.expect_peek_ahead(1)? {
                        TokenTree::Ident(next_ident) => {
                            if Function::is_ident(next_ident) {
                                return Ok(Statement::Function(FunctionDecl::parse(iter)?));
                            }
                        },
                        _ => {},
                    }
                    return Ok(Statement::Declaration(Declaration::parse(iter)?));
                }
                match iter.expect_peek_ahead(1)? {
                    TokenTree::Punct(next_punct) => {
                        if Colon::is_punct(next_punct) {
                            return Ok(Statement::Declaration(Declaration::parse(iter)?));
                        }
                        if Assign::is_punct(next_punct) {
                            return Ok(Statement::Assignment(Assignment::parse(iter)?));
                        }
                    },
                    _ => {},
                }
            },
            _ => {},
        }
        let value = Expression::parse(iter)?;
        let semicolon = iter.parse_token::<Semicolon>()?;
        Ok(Statement::Expression((value, semicolon)))
    }
}

impl<'a> TokenIter<'a> {
    /// Reads the rest of the tokens as statements.
    pub fn parse(&mut self) -> (r: SyntaxResult<Vec<Statement>>)
        requires
            old(self).wf(),
        ensures
            outcome_is(r, final(self).offset(), stmts_end(old(self).stream(), old(self).offset())),
            r is Ok ==> reads_stmts(old(self).stream(), old(self).offset(), r->Ok_0@),
            final(self).follows(old(self)),
            r is Ok ==> final(self).next() is None,
    {
        parse_statements(self)
    }
}

} // verus!
