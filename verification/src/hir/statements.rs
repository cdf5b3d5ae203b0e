//! What the parser reads of statements: where each statement ends, and what
//! tree it is, as functions of the tokens.
use crate::hir::expr::{reads_parenthesized, Expression};
use crate::hir::grammar::{
    expr_end, group_at, group_expr_end, in_group, is_punct, kind_at, one, path_end, reads_expr,
    reads_path, token_at, Parsed,
};
use crate::hir::group::Parenthesis;
use crate::hir::punctuated::Punctuated;
use crate::hir::stmt::{
    Assignment, Block, DeclStart, Declaration, ElseBlock, ForLoop, ForLoopInner, FunctionArg,
    FunctionDecl, IfBlock, Statement, WhileLoop,
};
use crate::hir::ty::{reads_type, Type};
use crate::token::group::Delimiter;
use crate::token::ident::Ident;
use crate::token::keyword::{Else, For, Function, If, Import, Return, Static, Unsafe, While};
use crate::token::marks::{Assign, Colon, Comma, Semicolon};
use crate::token::punct::PunctToken;
use crate::token::tree::{span_of, TokenTree};
use vstd::prelude::*;

verus! {

/// `next` after `first`: what `first` says if it did not succeed, else what
/// `next` says.
pub open spec fn then(first: Parsed, next: Parsed) -> Parsed {
    match first {
        Parsed::Done(_) => next,
        other => other,
    }
}

/// Whether `token` is the identifier `word`.
pub open spec fn is_word(token: TokenTree, word: Seq<char>) -> bool {
    token matches TokenTree::Ident(ident) && ident.value@ == word
}

/// Whether the identifier `word` stands at `at`.
pub open spec fn word_at(tokens: Seq<TokenTree>, at: int, word: Seq<char>) -> bool {
    0 <= at < tokens.len() && is_word(tokens[at], word)
}

/// Whether the identifier `ident` stands at `at`.
pub open spec fn ident_at(tokens: Seq<TokenTree>, at: int, ident: Ident) -> bool {
    token_at(tokens, at) == Some(TokenTree::Ident(ident))
}

/// Whether `ty` is the type that the identifier at `at` names.
pub open spec fn type_at(tokens: Seq<TokenTree>, at: int, ty: Type) -> bool {
    token_at(tokens, at) matches Some(TokenTree::Ident(ident)) && reads_type(ty, ident)
}

/// Whether a token stands at `at` and `span` is its place.
pub open spec fn span_at(tokens: Seq<TokenTree>, at: int, span: crate::Span) -> bool {
    0 <= at < tokens.len() && span == span_of(tokens[at])
}

/// Where `static` or `let` at `pos` ends.
pub open spec fn decl_start_end(tokens: Seq<TokenTree>, pos: int) -> Parsed {
    match token_at(tokens, pos) {
        None => Parsed::Ended(pos),
        Some(token) => if is_word(token, "static"@) || is_word(token, "let"@) {
            Parsed::Done(pos + 1)
        } else {
            Parsed::Stuck(token, "static or let"@)
        },
    }
}

/// `start` is the `static` or `let` at `pos`.
pub open spec fn reads_decl_start(tokens: Seq<TokenTree>, pos: int, start: DeclStart) -> bool {
    match start {
        DeclStart::Static(mark) => word_at(tokens, pos, "static"@) && span_at(
            tokens,
            pos,
            mark.span,
        ),
        DeclStart::Let(mark) => word_at(tokens, pos, "let"@) && !word_at(tokens, pos, "static"@)
            && span_at(tokens, pos, mark.span),
    }
}

/// Where the expression at `pos` and the semicolon after it end.
pub open spec fn expr_semi_end(tokens: Seq<TokenTree>, pos: int) -> Parsed {
    match expr_end(tokens, pos) {
        Parsed::Done(end) => one::<Semicolon>(tokens, end),
        other => other,
    }
}

/// `expr` is the expression at `pos`, and `semicolon` the semicolon after
/// it.
pub open spec fn reads_expr_semi(
    tokens: Seq<TokenTree>,
    pos: int,
    expr: Expression,
    semicolon: Semicolon,
) -> bool {
    expr_end(tokens, pos) matches Parsed::Done(end) && reads_expr(tokens, pos, end, expr)
        && span_at(tokens, end, semicolon.span)
}

/// Where the declaration at `pos` ends: `static` or `let`, a name, a colon,
/// a type, an equals sign and a value or neither, and a semicolon.
pub open spec fn decl_end(tokens: Seq<TokenTree>, pos: int) -> Parsed {
    then(
        decl_start_end(tokens, pos),
        then(
            one::<Ident>(tokens, pos + 1),
            then(
                one::<Colon>(tokens, pos + 2),
                then(
                    one::<Ident>(tokens, pos + 3),
                    if kind_at::<Assign>(tokens, pos + 4) {
                        expr_semi_end(tokens, pos + 5)
                    } else {
                        one::<Semicolon>(tokens, pos + 4)
                    },
                ),
            ),
        ),
    )
}

/// `decl` is the declaration at `pos`.
pub open spec fn reads_decl(tokens: Seq<TokenTree>, pos: int, decl: Declaration) -> bool {
    &&& reads_decl_start(tokens, pos, decl.start_token)
    &&& ident_at(tokens, pos + 1, decl.ident)
    &&& span_at(tokens, pos + 2, decl.colon.span)
    &&& type_at(tokens, pos + 3, decl.ty)
    &&& if kind_at::<Assign>(tokens, pos + 4) {
        decl.value matches Some(pair) && span_at(tokens, pos + 4, pair.0.span) && reads_expr_semi(
            tokens,
            pos + 5,
            pair.1,
            decl.semicolon,
        )
    } else {
        decl.value is None && span_at(tokens, pos + 4, decl.semicolon.span)
    }
}

/// Where the assignment at `pos` ends: a path, an equals sign, a value and a
/// semicolon.
pub open spec fn assign_end(tokens: Seq<TokenTree>, pos: int) -> Parsed {
    match path_end(tokens, pos, true) {
        Parsed::Done(end) => then(one::<Assign>(tokens, end), expr_semi_end(tokens, end + 1)),
        other => other,
    }
}

/// `assign` is the assignment at `pos`.
pub open spec fn reads_assign(tokens: Seq<TokenTree>, pos: int, assign: Assignment) -> bool {
    path_end(tokens, pos, true) matches Parsed::Done(end) && reads_path(
        tokens,
        pos,
        assign.variable,
    ) && span_at(tokens, end, assign.assign.span) && reads_expr_semi(
        tokens,
        end + 1,
        assign.value,
        assign.semicolon,
    )
}

/// Where the parameter at `pos` ends: a name, a colon and a type.
pub open spec fn arg_end(tokens: Seq<TokenTree>, pos: int) -> Parsed {
    then(
        one::<Ident>(tokens, pos),
        then(one::<Colon>(tokens, pos + 1), one::<Ident>(tokens, pos + 2)),
    )
}

/// `arg` is the parameter at `pos`.
pub open spec fn reads_arg(tokens: Seq<TokenTree>, pos: int, arg: FunctionArg) -> bool {
    &&& ident_at(tokens, pos, arg.name)
    &&& span_at(tokens, pos + 1, arg.colon.span)
    &&& type_at(tokens, pos + 2, arg.ty)
}

/// Where the list of parameters that starts at `pos` ends: after the first
/// parameter that no comma follows, or where the tokens end.
pub open spec fn arg_list_end(tokens: Seq<TokenTree>, pos: int) -> Parsed
    decreases tokens.len() - pos,
{
    match arg_end(tokens, pos) {
        Parsed::Done(end) => if 0 <= pos && end < tokens.len() && is_punct(
            tokens[end],
            PunctToken::Comma,
        ) {
            arg_list_end(tokens, end + 1)
        } else {
            Parsed::Done(end)
        },
        Parsed::Ended(at) => Parsed::Done(at),
        Parsed::Stuck(token, expected) => Parsed::Stuck(token, expected),
    }
}

/// `item` is the parameter that starts at `from` and the comma after it.
pub open spec fn reads_arg_item(
    tokens: Seq<TokenTree>,
    from: int,
    item: (FunctionArg, Comma),
) -> bool {
    &&& reads_arg(tokens, from, item.0)
    &&& token_at(tokens, from + 3) is Some
    &&& is_punct(tokens[from + 3], PunctToken::Comma)
    &&& item.1.span == span_of(tokens[from + 3])
}

/// `list` is the list of parameters that starts at `pos`: a parameter and a
/// comma every four tokens, and possibly one last parameter.
pub open spec fn reads_arg_list(
    tokens: Seq<TokenTree>,
    pos: int,
    list: Punctuated<FunctionArg, Comma>,
) -> bool {
    &&& forall|i: int|
        0 <= i < list.inner@.len() ==> reads_arg_item(
            tokens,
            pos + 4 * i,
            #[trigger] list.inner@[i],
        )
    &&& {
        let start = pos + 4 * list.inner@.len();
        match list.last {
            Some(last) => reads_arg(tokens, start, *last) && !(token_at(tokens, start + 3) is Some
                && is_punct(tokens[start + 3], PunctToken::Comma)),
            None => arg_end(tokens, start) is Ended,
        }
    }
}

/// Where the group in round brackets at `pos` ends that holds parameters.
pub open spec fn args_end(tokens: Seq<TokenTree>, pos: int) -> Parsed {
    in_group(
        tokens,
        pos,
        Delimiter::Parenthesis,
        match group_at(tokens, pos, Delimiter::Parenthesis) {
            Some(group) => arg_list_end(group.tokens.0@, 0),
            None => Parsed::Ended(0),
        },
    )
}

/// `args` is what the group in round brackets at `pos` holds: the list of
/// parameters at the start of its tokens.
pub open spec fn reads_args(
    tokens: Seq<TokenTree>,
    pos: int,
    args: Parenthesis<Punctuated<FunctionArg, Comma>>,
) -> bool {
    group_at(tokens, pos, Delimiter::Parenthesis) matches Some(group) && args.span == group.span
        && reads_arg_list(group.tokens.0@, 0, args.contents)
}

/// Where the three parts of a `for` that start at `pos` end: a declaration,
/// a condition with a semicolon, and an assignment.
pub open spec fn for_inner_end(tokens: Seq<TokenTree>, pos: int) -> Parsed {
    match decl_end(tokens, pos) {
        Parsed::Done(first) => match expr_semi_end(tokens, first) {
            Parsed::Done(second) => assign_end(tokens, second),
            other => other,
        },
        other => other,
    }
}

/// `inner` is the three parts of a `for` that start at `pos`.
pub open spec fn reads_for_inner(tokens: Seq<TokenTree>, pos: int, inner: ForLoopInner) -> bool {
    decl_end(tokens, pos) matches Parsed::Done(first) && reads_decl(tokens, pos, inner.init)
        && (expr_semi_end(tokens, first) matches Parsed::Done(second) && reads_expr_semi(
        tokens,
        first,
        inner.condition.0,
        inner.condition.1,
    ) && reads_assign(tokens, second, inner.update))
}

/// Where the group in round brackets at `pos` ends that holds the three
/// parts of a `for`.
pub open spec fn for_group_end(tokens: Seq<TokenTree>, pos: int) -> Parsed {
    in_group(
        tokens,
        pos,
        Delimiter::Parenthesis,
        match group_at(tokens, pos, Delimiter::Parenthesis) {
            Some(group) => for_inner_end(group.tokens.0@, 0),
            None => Parsed::Ended(0),
        },
    )
}

/// `inner` is what the group in round brackets at `pos` holds: the three
/// parts of a `for` at the start of its tokens.
pub open spec fn reads_for_group(
    tokens: Seq<TokenTree>,
    pos: int,
    inner: Parenthesis<ForLoopInner>,
) -> bool {
    group_at(tokens, pos, Delimiter::Parenthesis) matches Some(group) && inner.span == group.span
        && reads_for_inner(group.tokens.0@, 0, inner.contents)
}

/// The kinds of statement.
#[derive(Debug, Clone, Copy, PartialEq, Eq, Structural)]
pub enum StatementKind {
    Block,
    Function,
    Declaration,
    Expression,
    Assignment,
    Return,
    While,
    If,
    For,
    Unsafe,
    Import,
}

/// Whether `first` is an identifier that is followed by the token that says
/// what statement it starts: `static`, or a word that is no keyword.
pub open spec fn needs_second(first: TokenTree) -> bool {
    first is Ident && !is_word(first, "return"@) && !is_word(first, "unsafe"@) && !is_word(
        first,
        "while"@,
    ) && !is_word(first, "if"@) && !is_word(first, "for"@) && !is_word(first, "function"@)
        && !is_word(first, "import"@) && !is_word(first, "let"@)
}

/// The kind of statement that starts with the token `first` when `second`
/// follows it. A group in curly brackets is a block; a keyword starts the
/// statement named after it, and `static` a function if `function` follows
/// and a declaration if not; after any other identifier a colon makes a
/// declaration and an equals sign an assignment. Everything else is an
/// expression.
pub open spec fn kind_for(first: TokenTree, second: Option<TokenTree>) -> StatementKind {
    match first {
        TokenTree::Group(group) => if group.delimiter == Delimiter::Brace {
            StatementKind::Block
        } else {
            StatementKind::Expression
        },
        TokenTree::Ident(_) => if is_word(first, "return"@) {
            StatementKind::Return
        } else if is_word(first, "unsafe"@) {
            StatementKind::Unsafe
        } else if is_word(first, "while"@) {
            StatementKind::While
        } else if is_word(first, "if"@) {
            StatementKind::If
        } else if is_word(first, "for"@) {
            StatementKind::For
        } else if is_word(first, "function"@) {
            StatementKind::Function
        } else if is_word(first, "import"@) {
            StatementKind::Import
        } else if is_word(first, "let"@) {
            StatementKind::Declaration
        } else if is_word(first, "static"@) {
            if second is Some && is_word(second->0, "function"@) {
                StatementKind::Function
            } else {
                StatementKind::Declaration
            }
        } else {
            match second {
                Some(TokenTree::Punct(punct)) => if punct.value == PunctToken::Colon {
                    StatementKind::Declaration
                } else if punct.value == PunctToken::Assign {
                    StatementKind::Assignment
                } else {
                    StatementKind::Expression
                },
                _ => StatementKind::Expression,
            }
        },
        _ => StatementKind::Expression,
    }
}

/// Where the group in curly brackets at `pos` ends that holds statements.
pub open spec fn block_end(tokens: Seq<TokenTree>, pos: int) -> Parsed
    decreases tokens, tokens.len() - pos, 5nat,
{
    in_group(
        tokens,
        pos,
        Delimiter::Brace,
        match token_at(tokens, pos) {
            Some(TokenTree::Group(group)) => stmts_end(group.tokens.0@, 0),
            _ => Parsed::Ended(0),
        },
    )
}

/// Where the statements that start at `pos` end: at the end of the tokens,
/// if every one of them can be read.
pub open spec fn stmts_end(tokens: Seq<TokenTree>, pos: int) -> Parsed
    decreases tokens, tokens.len() - pos, 10nat,
{
    if pos < 0 || pos >= tokens.len() {
        Parsed::Done(pos)
    } else {
        match stmt_end(tokens, pos) {
            Parsed::Done(end) => if pos < end <= tokens.len() {
                stmts_end(tokens, end)
            } else {
                Parsed::Done(end)
            },
            other => other,
        }
    }
}

/// Where the function at `pos` ends: `static` or not, `function`, a name,
/// the parameters in round brackets, a colon, the return type, and the body.
pub open spec fn function_end(tokens: Seq<TokenTree>, pos: int) -> Parsed
    decreases tokens, tokens.len() - pos, 8nat,
{
    let from = if kind_at::<Static>(tokens, pos) {
        pos + 1
    } else {
        pos
    };
    then(
        one::<Function>(tokens, from),
        then(
            one::<Ident>(tokens, from + 1),
            then(
                args_end(tokens, from + 2),
                then(
                    one::<Colon>(tokens, from + 3),
                    then(
                        one::<Ident>(tokens, from + 4),
                        if 0 <= pos && from + 5 < tokens.len() {
                            block_end(tokens, from + 5)
                        } else {
                            Parsed::Ended(from + 5)
                        },
                    ),
                ),
            ),
        ),
    )
}

/// Where the `while` at `pos` ends: the word, a condition in round brackets,
/// and the body.
pub open spec fn while_end(tokens: Seq<TokenTree>, pos: int) -> Parsed
    decreases tokens, tokens.len() - pos, 8nat,
{
    then(
        one::<While>(tokens, pos),
        then(
            group_expr_end(tokens, pos + 1, Delimiter::Parenthesis),
            if 0 <= pos && pos + 2 < tokens.len() {
                block_end(tokens, pos + 2)
            } else {
                Parsed::Ended(pos + 2)
            },
        ),
    )
}

/// Where the `for` at `pos` ends: the word, its three parts in round
/// brackets, and the body.
pub open spec fn for_end(tokens: Seq<TokenTree>, pos: int) -> Parsed
    decreases tokens, tokens.len() - pos, 8nat,
{
    then(
        one::<For>(tokens, pos),
        then(
            for_group_end(tokens, pos + 1),
            if 0 <= pos && pos + 2 < tokens.len() {
                block_end(tokens, pos + 2)
            } else {
                Parsed::Ended(pos + 2)
            },
        ),
    )
}

/// Where the conditional at `pos` ends: `if`, a condition in round brackets,
/// the body, and `else` with what follows it, if `else` comes next.
pub open spec fn if_end(tokens: Seq<TokenTree>, pos: int) -> Parsed
    decreases tokens, tokens.len() - pos, 8nat,
{
    then(
        one::<If>(tokens, pos),
        then(
            group_expr_end(tokens, pos + 1, Delimiter::Parenthesis),
            if 0 <= pos && pos + 2 < tokens.len() {
                then(
                    block_end(tokens, pos + 2),
                    if kind_at::<Else>(tokens, pos + 3) {
                        if pos + 4 < tokens.len() {
                            else_end(tokens, pos + 4)
                        } else {
                            Parsed::Ended(pos + 4)
                        }
                    } else {
                        Parsed::Done(pos + 3)
                    },
                )
            } else {
                Parsed::Ended(pos + 2)
            },
        ),
    )
}

/// Where what follows an `else` ends: a conditional if `if` stands at `pos`,
/// else a body.
pub open spec fn else_end(tokens: Seq<TokenTree>, pos: int) -> Parsed
    decreases tokens, tokens.len() - pos, 9nat,
{
    if pos < 0 || pos >= tokens.len() {
        Parsed::Ended(pos)
    } else if is_word(tokens[pos], "if"@) {
        if_end(tokens, pos)
    } else {
        block_end(tokens, pos)
    }
}

/// Where the statement at `pos` ends.
pub open spec fn stmt_end(tokens: Seq<TokenTree>, pos: int) -> Parsed
    decreases tokens, tokens.len() - pos, 9nat,
{
    if pos < 0 || pos >= tokens.len() {
        Parsed::Ended(pos)
    } else if needs_second(tokens[pos]) && token_at(tokens, pos + 1) is None {
        Parsed::Ended(pos)
    } else {
        match kind_for(tokens[pos], token_at(tokens, pos + 1)) {
            StatementKind::Block => block_end(tokens, pos),
            StatementKind::Return => expr_semi_end(tokens, pos + 1),
            StatementKind::Unsafe => if pos + 1 < tokens.len() {
                block_end(tokens, pos + 1)
            } else {
                Parsed::Ended(pos + 1)
            },
            StatementKind::While => while_end(tokens, pos),
            StatementKind::If => if_end(tokens, pos),
            StatementKind::For => for_end(tokens, pos),
            StatementKind::Function => function_end(tokens, pos),
            StatementKind::Import => match path_end(tokens, pos + 1, true) {
                Parsed::Done(end) => one::<Semicolon>(tokens, end),
                other => other,
            },
            StatementKind::Declaration => decl_end(tokens, pos),
            StatementKind::Assignment => assign_end(tokens, pos),
            StatementKind::Expression => expr_semi_end(tokens, pos),
        }
    }
}

/// Where statement number `i` of the statements that start at `pos` starts.
pub open spec fn stmt_start(tokens: Seq<TokenTree>, pos: int, i: int) -> int
    decreases i,
{
    if i <= 0 {
        pos
    } else {
        match stmt_end(tokens, stmt_start(tokens, pos, i - 1)) {
            Parsed::Done(end) => end,
            _ => pos,
        }
    }
}

/// `block` is what the group in curly brackets at `pos` holds: the
/// statements that its tokens spell.
pub open spec fn reads_block(tokens: Seq<TokenTree>, pos: int, block: Block) -> bool
    decreases block, 0nat,
{
    token_at(tokens, pos) matches Some(TokenTree::Group(group)) && group.delimiter
        == Delimiter::Brace && block.span == group.span && reads_stmts(
        group.tokens.0@,
        0,
        block.contents@,
    )
}

/// `stmts` are the statements that the tokens from `pos` on spell, all of
/// them, in order.
pub open spec fn reads_stmts(tokens: Seq<TokenTree>, pos: int, stmts: Seq<Statement>) -> bool
    decreases stmts, 0nat,
{
    &&& forall|i: int|
        0 <= i < stmts.len() ==> reads_stmt(tokens, stmt_start(tokens, pos, i), #[trigger] stmts[i])
    &&& stmt_start(tokens, pos, stmts.len() as int) >= tokens.len()
}

/// `func` is the function at `pos`.
pub open spec fn reads_function(tokens: Seq<TokenTree>, pos: int, func: FunctionDecl) -> bool
    decreases func, 0nat,
{
    let from = if kind_at::<Static>(tokens, pos) {
        pos + 1
    } else {
        pos
    };
    &&& match func.staticness {
        Some(mark) => kind_at::<Static>(tokens, pos) && span_at(tokens, pos, mark.span),
        None => !kind_at::<Static>(tokens, pos),
    }
    &&& span_at(tokens, from, func.function_token.span)
    &&& ident_at(tokens, from + 1, func.ident)
    &&& reads_args(tokens, from + 2, func.args)
    &&& span_at(tokens, from + 3, func.colon.span)
    &&& type_at(tokens, from + 4, func.return_type)
    &&& reads_block(tokens, from + 5, func.block)
}

/// `while_loop` is the `while` at `pos`.
pub open spec fn reads_while(tokens: Seq<TokenTree>, pos: int, while_loop: WhileLoop) -> bool
    decreases while_loop, 0nat,
{
    &&& span_at(tokens, pos, while_loop.while_token.span)
    &&& reads_parenthesized(tokens, pos + 1, while_loop.condition)
    &&& reads_block(tokens, pos + 2, while_loop.block)
}

/// `for_loop` is the `for` at `pos`.
pub open spec fn reads_for(tokens: Seq<TokenTree>, pos: int, for_loop: ForLoop) -> bool
    decreases for_loop, 0nat,
{
    &&& span_at(tokens, pos, for_loop.for_token.span)
    &&& reads_for_group(tokens, pos + 1, for_loop.inner)
    &&& reads_block(tokens, pos + 2, for_loop.block)
}

/// `if_block` is the conditional at `pos`.
pub open spec fn reads_if(tokens: Seq<TokenTree>, pos: int, if_block: IfBlock) -> bool
    decreases if_block, 0nat,
{
    &&& span_at(tokens, pos, if_block.if_token.span)
    &&& reads_parenthesized(tokens, pos + 1, if_block.condition)
    &&& reads_block(tokens, pos + 2, if_block.block)
    &&& match if_block.else_block {
        Some(pair) => kind_at::<Else>(tokens, pos + 3) && span_at(tokens, pos + 3, pair.0.span)
            && reads_else(tokens, pos + 4, pair.1),
        None => !kind_at::<Else>(tokens, pos + 3),
    }
}

/// `else_block` is what follows an `else`, from `pos` on.
pub open spec fn reads_else(tokens: Seq<TokenTree>, pos: int, else_block: ElseBlock) -> bool
    decreases else_block, 0nat,
{
    match else_block {
        ElseBlock::ElseIf(inner) => word_at(tokens, pos, "if"@) && reads_if(tokens, pos, *inner),
        ElseBlock::Else(block) => !word_at(tokens, pos, "if"@) && reads_block(tokens, pos, block),
    }
}

impl Statement {
    /// The kind of the statement.
    pub open spec fn kind(&self) -> StatementKind {
        match self {
            Statement::Block(_) => StatementKind::Block,
            Statement::Function(_) => StatementKind::Function,
            Statement::Declaration(_) => StatementKind::Declaration,
            Statement::Expression(_) => StatementKind::Expression,
            Statement::Assignment(_) => StatementKind::Assignment,
            Statement::Return(_) => StatementKind::Return,
            Statement::While(_) => StatementKind::While,
            Statement::If(_) => StatementKind::If,
            Statement::For(_) => StatementKind::For,
            Statement::Unsafe(_) => StatementKind::Unsafe,
            Statement::Import(_) => StatementKind::Import,
        }
    }
}

/// `stmt` is the statement at `pos`: of the kind that its first tokens call
/// for, and made of what the tokens spell.
pub open spec fn reads_stmt(tokens: Seq<TokenTree>, pos: int, stmt: Statement) -> bool
    decreases stmt, 0nat,
{
    &&& 0 <= pos < tokens.len()
    &&& stmt.kind() == kind_for(tokens[pos], token_at(tokens, pos + 1))
    &&& match stmt {
        Statement::Block(block) => reads_block(tokens, pos, block),
        Statement::Function(func) => reads_function(tokens, pos, func),
        Statement::Declaration(decl) => reads_decl(tokens, pos, decl),
        Statement::Expression(pair) => reads_expr_semi(tokens, pos, pair.0, pair.1),
        Statement::Assignment(assign) => reads_assign(tokens, pos, assign),
        Statement::Return(triple) => span_at(tokens, pos, triple.0.span) && reads_expr_semi(
            tokens,
            pos + 1,
            triple.1,
            triple.2,
        ),
        Statement::While(while_loop) => reads_while(tokens, pos, while_loop),
        Statement::If(if_block) => reads_if(tokens, pos, if_block),
        Statement::For(for_loop) => reads_for(tokens, pos, *for_loop),
        Statement::Unsafe(pair) => span_at(tokens, pos, pair.0.span) && reads_block(
            tokens,
            pos + 1,
            pair.1,
        ),
        Statement::Import(triple) => span_at(tokens, pos, triple.0.span) && (path_end(
            tokens,
            pos + 1,
            true,
        ) matches Parsed::Done(end) && reads_path(tokens, pos + 1, triple.1) && span_at(
            tokens,
            end,
            triple.2.span,
        )),
    }
}

} // verus!
