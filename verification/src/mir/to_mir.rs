//! Lowering: the syntax tree becomes the simplified statement tree.
//!
//! Keywords, punctuation, brackets and places in the source are dropped; an
//! expression in round brackets becomes the expression itself.
use crate::hir::expr::{BinaryOp, Expression, Path, UnaryOp};
use crate::hir::punctuated::Punctuated;
use crate::hir::stmt::{
    Assignment, DeclStart, Declaration, ElseBlock, FunctionArg, IfBlock, Statement,
};
use crate::hir::ty::{Primitive, Type};
use crate::mir::tree::{
    MirAssignment, MirBinaryOp, MirDeclaration, MirElseBlock, MirExpression, MirFor, MirFunction,
    MirIf, MirPrimitive, MirStatement, MirType, MirUnaryOp, MirWhile, RelativePath,
};
use crate::token::ident::{Ident, XID};
use crate::token::marks::Comma;
use vstd::prelude::*;

verus! {

/// The names of the identifiers of a path, in order.
pub open spec fn path_names(path: Path) -> Seq<Seq<char>> {
    path.idents().map_values(|ident: Ident| ident.value@)
}

/// The primitive type without its place in the source.
pub open spec fn lowered_primitive(primitive: Primitive) -> MirPrimitive {
    match primitive {
        Primitive::Void { .. } => MirPrimitive::Void,
        Primitive::Byte { .. } => MirPrimitive::Byte,
        Primitive::Short { .. } => MirPrimitive::Short,
        Primitive::Int { .. } => MirPrimitive::Int,
        Primitive::Long { .. } => MirPrimitive::Long,
        Primitive::Float { .. } => MirPrimitive::Float,
        Primitive::Double { .. } => MirPrimitive::Double,
        Primitive::String { .. } => MirPrimitive::String,
    }
}

/// The operator without its token.
pub open spec fn lowered_unary_op(op: UnaryOp) -> MirUnaryOp {
    match op {
        UnaryOp::Not(_) => MirUnaryOp::Not,
        UnaryOp::Negate(_) => MirUnaryOp::Negate,
    }
}

/// The operator without its token.
pub open spec fn lowered_binary_op(op: BinaryOp) -> MirBinaryOp {
    match op {
        BinaryOp::Add(_) => MirBinaryOp::Add,
        BinaryOp::Subtract(_) => MirBinaryOp::Subtract,
        BinaryOp::Multiply(_) => MirBinaryOp::Multiply,
        BinaryOp::Divide(_) => MirBinaryOp::Divide,
        BinaryOp::Modulo(_) => MirBinaryOp::Modulo,
        BinaryOp::Equals(_) => MirBinaryOp::Equals,
        BinaryOp::NotEquals(_) => MirBinaryOp::NotEquals,
        BinaryOp::LessThan(_) => MirBinaryOp::LessThan,
        BinaryOp::LessThanEquals(_) => MirBinaryOp::LessThanEquals,
        BinaryOp::GreaterThan(_) => MirBinaryOp::GreaterThan,
        BinaryOp::GreaterThanEquals(_) => MirBinaryOp::GreaterThanEquals,
        BinaryOp::And(_) => MirBinaryOp::And,
        BinaryOp::Or(_) => MirBinaryOp::Or,
    }
}

/// `out` is the type `input`: the same primitive, or the path of the one
/// name of a user-defined type.
pub open spec fn lowered_type(input: Type, out: MirType<RelativePath>) -> bool {
    match (input, out) {
        (Type::Primitive(a), MirType::Primitive(b)) => b == lowered_primitive(a),
        (Type::UserDefined(ident), MirType::UserDefined(path)) => path@ == seq![ident.value@],
        _ => false,
    }
}

/// `out` is the expression `input` without its tokens. Round brackets leave
/// no node of their own.
pub open spec fn lowered_expr(input: Expression, out: MirExpression<RelativePath>) -> bool
    decreases input,
{
    match input {
        Expression::Literal(literal) => out matches MirExpression::Literal(value) && value
            == literal.value,
        Expression::Variable(path) => out matches MirExpression::Variable(q) && q@ == path_names(
            path,
        ),
        Expression::Property(left, _, ident) => out matches MirExpression::Property(l, name)
            && name == ident.value && lowered_expr(*left, *l),
        Expression::Call(path, args) => out matches MirExpression::Call(q, outs) && q@
            == path_names(path) && lowered_exprs(args.contents, outs@),
        Expression::Parenthesized(inner) => lowered_expr(inner.contents, out),
        Expression::Index(left, index) => out matches MirExpression::Index(l, i) && lowered_expr(
            *left,
            *l,
        ) && lowered_expr(index.contents, *i),
        Expression::UnaryOp(op, inner) => out matches MirExpression::UnaryOp(o, e) && o
            == lowered_unary_op(op) && lowered_expr(*inner, *e),
        Expression::BinaryOp(left, op, right) => out matches MirExpression::BinaryOp(l, o, r) && o
            == lowered_binary_op(op) && lowered_expr(*left, *l) && lowered_expr(*right, *r),
    }
}

/// `out` holds the expressions of the list `input`, lowered, in order.
pub open spec fn lowered_exprs(
    input: Punctuated<Expression, Comma>,
    out: Seq<MirExpression<RelativePath>>,
) -> bool
    decreases input,
{
    &&& out.len() == input.inner@.len() + if input.last is Some {
        1int
    } else {
        0int
    }
    &&& forall|i: int|
        0 <= i < input.inner@.len() ==> lowered_expr((#[trigger] input.inner@[i]).0, out[i])
    &&& match input.last {
        Some(last) => lowered_expr(*last, out[input.inner@.len() as int]),
        None => true,
    }
}

/// `out` is the optional value `input` without its tokens.
pub open spec fn lowered_value(
    input: Option<(crate::token::marks::Assign, Expression)>,
    out: Option<MirExpression<RelativePath>>,
) -> bool {
    match (input, out) {
        (Some(pair), Some(value)) => lowered_expr(pair.1, value),
        (None, None) => true,
        _ => false,
    }
}

/// `out` is the declaration `input`: static exactly when it starts with
/// `static`, with the same name, type and value.
pub open spec fn lowered_decl(input: Declaration, out: MirDeclaration<XID, RelativePath>) -> bool {
    &&& out.is_static == (input.start_token is Static)
    &&& out.name == input.ident.value
    &&& lowered_type(input.ty, out.ty)
    &&& lowered_value(input.value, out.value)
}

/// `out` is the assignment `input` without its tokens.
pub open spec fn lowered_assign(input: Assignment, out: MirAssignment<RelativePath>) -> bool {
    &&& out.variable@ == path_names(input.variable)
    &&& lowered_expr(input.value, out.value)
}

/// `out` is the parameter `input` without its tokens.
pub open spec fn lowered_arg(input: FunctionArg, out: (XID, MirType<RelativePath>)) -> bool {
    out.0 == input.name.value && lowered_type(input.ty, out.1)
}

/// `out` holds the parameters of the list `input`, lowered, in order.
pub open spec fn lowered_args(
    input: Punctuated<FunctionArg, Comma>,
    out: Seq<(XID, MirType<RelativePath>)>,
) -> bool {
    &&& out.len() == input.inner@.len() + if input.last is Some {
        1int
    } else {
        0int
    }
    &&& forall|i: int|
        0 <= i < input.inner@.len() ==> lowered_arg((#[trigger] input.inner@[i]).0, out[i])
    &&& match input.last {
        Some(last) => lowered_arg(*last, out[input.inner@.len() as int]),
        None => true,
    }
}

/// `out` is the statement `input` without its tokens.
pub open spec fn lowered_stmt(input: Statement, out: MirStatement<XID, RelativePath>) -> bool
    decreases input,
{
    match input {
        Statement::Block(block) => out matches MirStatement::Block(outs) && lowered_block(
            block.contents@,
            outs@,
        ),
        Statement::Unsafe(pair) => out matches MirStatement::Unsafe(outs) && lowered_block(
            pair.1.contents@,
            outs@,
        ),
        Statement::Expression(pair) => out matches MirStatement::Expression(value) && lowered_expr(
            pair.0,
            value,
        ),
        Statement::Return(triple) => out matches MirStatement::Return(value) && lowered_expr(
            triple.1,
            value,
        ),
        Statement::Assignment(assign) => out matches MirStatement::Assignment(a) && lowered_assign(
            assign,
            a,
        ),
        Statement::Declaration(decl) => out matches MirStatement::Declaration(d) && lowered_decl(
            decl,
            d,
        ),
        Statement::Function(func) => out matches MirStatement::Function(f) && {
            &&& f.is_static == (func.staticness is Some)
            &&& f.name == func.ident.value
            &&& lowered_args(func.args.contents, f.args@)
            &&& lowered_type(func.return_type, f.return_type)
            &&& lowered_block(func.block.contents@, f.block@)
        },
        Statement::If(if_block) => out matches MirStatement::If(i) && lowered_if(if_block, i),
        Statement::While(while_loop) => out matches MirStatement::While(w) && {
            &&& lowered_expr(while_loop.condition.contents, w.condition)
            &&& lowered_block(while_loop.block.contents@, w.block@)
        },
        Statement::For(for_loop) => out matches MirStatement::For(f) && {
            &&& lowered_decl(for_loop.inner.contents.init, f.init)
            &&& lowered_expr(for_loop.inner.contents.condition.0, f.condition)
            &&& f.update matches MirStatement::Assignment(a) && lowered_assign(
                for_loop.inner.contents.update,
                a,
            )
            &&& lowered_block(for_loop.block.contents@, f.block@)
        },
        Statement::Import(triple) => out matches MirStatement::Import(q) && q@ == path_names(
            triple.1,
        ),
    }
}

/// `out` is the conditional `input` without its tokens.
pub open spec fn lowered_if(input: IfBlock, out: MirIf<XID, RelativePath>) -> bool
    decreases input,
{
    &&& lowered_expr(input.condition.contents, out.condition)
    &&& lowered_block(input.block.contents@, out.block@)
    &&& match input.else_block {
        None => out.else_block is None,
        Some(pair) => match pair.1 {
            ElseBlock::ElseIf(inner) => out.else_block matches Some(MirElseBlock::ElseIf(i))
                && lowered_if(*inner, *i),
            ElseBlock::Else(block) => out.else_block matches Some(MirElseBlock::Else(outs))
                && lowered_block(block.contents@, outs@),
        },
    }
}

/// `out` holds the statements of `input`, lowered, in order.
pub open spec fn lowered_block(
    input: Seq<Statement>,
    out: Seq<MirStatement<XID, RelativePath>>,
) -> bool
    decreases input,
{
    &&& input.len() == out.len()
    &&& forall|i: int| 0 <= i < input.len() ==> lowered_stmt(#[trigger] input[i], out[i])
}

/// What can be lowered to a piece of the simplified statement tree.
pub trait ToMir: Sized {
    type Output;

    /// Whether `out` is what this piece of syntax lowers to.
    spec fn lowers_to(&self, out: Self::Output) -> bool;

    fn into_mir(self) -> (out: Self::Output)
        ensures
            self.lowers_to(out),
    ;
}

/// Lowers a primitive type.
pub fn lower_primitive(primitive: &Primitive) -> (out: MirPrimitive)
    ensures
        out == lowered_primitive(*primitive),
{
    match primitive {
        Primitive::Void { .. } => MirPrimitive::Void,
        Primitive::Byte { .. } => MirPrimitive::Byte,
        Primitive::Short { .. } => MirPrimitive::Short,
        Primitive::Int { .. } => MirPrimitive::Int,
        Primitive::Long { .. } => MirPrimitive::Long,
        Primitive::Float { .. } => MirPrimitive::Float,
        Primitive::Double { .. } => MirPrimitive::Double,
        Primitive::String { .. } => MirPrimitive::String,
    }
}

/// Lowers an operator.
pub fn lower_unary_op(op: &UnaryOp) -> (out: MirUnaryOp)
    ensures
        out == lowered_unary_op(*op),
{
    match op {
        UnaryOp::Not(_) => MirUnaryOp::Not,
        UnaryOp::Negate(_) => MirUnaryOp::Negate,
    }
}

/// Lowers an operator.
pub fn lower_binary_op(op: &BinaryOp) -> (out: MirBinaryOp)
    ensures
        out == lowered_binary_op(*op),
{
    match op {
        BinaryOp::Add(_) => MirBinaryOp::Add,
        BinaryOp::Subtract(_) => MirBinaryOp::Subtract,
        BinaryOp::Multiply(_) => MirBinaryOp::Multiply,
        BinaryOp::Divide(_) => MirBinaryOp::Divide,
        BinaryOp::Modulo(_) => MirBinaryOp::Modulo,
        BinaryOp::Equals(_) => MirBinaryOp::Equals,
        BinaryOp::NotEquals(_) => MirBinaryOp::NotEquals,
        BinaryOp::LessThan(_) => MirBinaryOp::LessThan,
        BinaryOp::LessThanEquals(_) => MirBinaryOp::LessThanEquals,
        BinaryOp::GreaterThan(_) => MirBinaryOp::GreaterThan,
        BinaryOp::GreaterThanEquals(_) => MirBinaryOp::GreaterThanEquals,
        BinaryOp::And(_) => MirBinaryOp::And,
        BinaryOp::Or(_) => MirBinaryOp::Or,
    }
}

/// The path with the names of the identifiers of `path`.
pub fn lower_path(path: &Path) -> (out: RelativePath)
    ensures
        out@ == path_names(*path),
{
    let list = path.list();
    let ghost names = path_names(*path);
    if list.inner.len() == 0 {
        match &list.last {
            Some(last) => {
                let out = RelativePath::single(last.value.clone());
                proof {
                    assert(out@ =~= names);
                }
                out
            },
            None => vstd::pervasive::unreached(),
        }
    } else {
        let mut out = RelativePath::single(list.inner[0].0.value.clone());
        let mut i: usize = 1;
        proof {
            assert(out@ =~= names.take(1));
        }
        while i < list.inner.len()
            invariant
                1 <= i <= list.inner.len(),
                names == path_names(*path),
                list.items() == path.idents(),
                out@ == names.take(i as int),
            decreases list.inner.len() - i,
        {
            out = out.extended(list.inner[i].0.value.clone());
            proof {
                assert(names.take(i + 1) =~= names.take(i as int).push(names[i as int]));
            }
            i = i + 1;
        }
        match &list.last {
            Some(last) => {
                out = out.extended(last.value.clone());
                proof {
                    assert(out@ =~= names);
                }
            },
            None => {
                proof {
                    assert(out@ =~= names);
                }
            },
        }
        out
    }
}

/// Lowers a type.
pub fn lower_type(ty: &Type) -> (out: MirType<RelativePath>)
    ensures
        lowered_type(*ty, out),
{
    match ty {
        Type::Primitive(primitive) => MirType::Primitive(lower_primitive(primitive)),
        Type::UserDefined(ident) => MirType::UserDefined(RelativePath::single(ident.value.clone())),
    }
}

/// Lowers an expression.
pub fn lower_expr(expr: &Expression) -> (out: MirExpression<RelativePath>)
    ensures
        lowered_expr(*expr, out),
    decreases *expr,
{
    match expr {
        Expression::Literal(literal) => MirExpression::Literal(literal.value.clone()),
        Expression::Variable(path) => MirExpression::Variable(lower_path(path)),
        Expression::Property(left, _, ident) => MirExpression::Property(
            Box::new(lower_expr(&**left)),
            ident.value.clone(),
        ),
        Expression::Call(path, args) => MirExpression::Call(
            lower_path(path),
            lower_exprs(&args.contents),
        ),
        Expression::Parenthesized(inner) => lower_expr(&inner.contents),
        Expression::Index(left, index) => MirExpression::Index(
            Box::new(lower_expr(&**left)),
            Box::new(lower_expr(&index.contents)),
        ),
        Expression::UnaryOp(op, inner) => MirExpression::UnaryOp(
            lower_unary_op(op),
            Box::new(lower_expr(&**inner)),
        ),
        Expression::BinaryOp(left, op, right) => MirExpression::BinaryOp(
            Box::new(lower_expr(&**left)),
            lower_binary_op(op),
            Box::new(lower_expr(&**right)),
        ),
    }
}

/// Lowers each expression of a list.
#[verifier::loop_isolation(false)]
pub fn lower_exprs(list: &Punctuated<Expression, Comma>) -> (out: Vec<MirExpression<RelativePath>>)
    ensures
        lowered_exprs(*list, out@),
    decreases *list,
{
    let mut out: Vec<MirExpression<RelativePath>> = Vec::new();
    let mut i: usize = 0;
    while i < list.inner.len()
        invariant
            i <= list.inner.len(),
            out@.len() == i,
            forall|j: int| 0 <= j < i ==> lowered_expr((#[trigger] list.inner@[j]).0, out@[j]),
        decreases list.inner.len() - i,
    {
        out.push(lower_expr(&list.inner[i].0));
        i = i + 1;
    }
    match &list.last {
        Some(last) => {
            out.push(lower_expr(&**last));
        },
        None => {},
    }
    out
}

/// Lowers a declaration.
pub fn lower_decl(decl: &Declaration) -> (out: MirDeclaration<XID, RelativePath>)
    ensures
        lowered_decl(*decl, out),
{
    MirDeclaration {
        is_static: match &decl.start_token {
            DeclStart::Static(_) => true,
            DeclStart::Let(_) => false,
        },
        name: decl.ident.value.clone(),
        ty: lower_type(&decl.ty),
        value: match &decl.value {
            Some(pair) => Some(lower_expr(&pair.1)),
            None => None,
        },
    }
}

/// Lowers an assignment.
pub fn lower_assign(assign: &Assignment) -> (out: MirAssignment<RelativePath>)
    ensures
        lowered_assign(*assign, out),
{
    MirAssignment { variable: lower_path(&assign.variable), value: lower_expr(&assign.value) }
}

/// Lowers a parameter.
pub fn lower_arg(arg: &FunctionArg) -> (out: (XID, MirType<RelativePath>))
    ensures
        lowered_arg(*arg, out),
{
    (arg.name.value.clone(), lower_type(&arg.ty))
}

/// Lowers each parameter of a list.
#[verifier::loop_isolation(false)]
pub fn lower_args(list: &Punctuated<FunctionArg, Comma>) -> (out: Vec<(XID, MirType<RelativePath>)>)
    ensures
        lowered_args(*list, out@),
{
    let mut out: Vec<(XID, MirType<RelativePath>)> = Vec::new();
    let mut i: usize = 0;
    while i < list.inner.len()
        invariant
            i <= list.inner.len(),
            out@.len() == i,
            forall|j: int| 0 <= j < i ==> lowered_arg((#[trigger] list.inner@[j]).0, out@[j]),
        decreases list.inner.len() - i,
    {
        out.push(lower_arg(&list.inner[i].0));
        i = i + 1;
    }
    match &list.last {
        Some(last) => {
            out.push(lower_arg(&**last));
        },
        None => {},
    }
    out
}

/// Lowers a statement.
pub fn lower_stmt(stmt: &Statement) -> (out: MirStatement<XID, RelativePath>)
    ensures
        lowered_stmt(*stmt, out),
    decreases *stmt,
{
    match stmt {
        Statement::Block(block) => MirStatement::Block(lower_block(&block.contents)),
        Statement::Unsafe(pair) => MirStatement::Unsafe(lower_block(&pair.1.contents)),
        Statement::Expression(pair) => MirStatement::Expression(lower_expr(&pair.0)),
        Statement::Return(triple) => MirStatement::Return(lower_expr(&triple.1)),
        Statement::Assignment(assign) => MirStatement::Assignment(lower_assign(assign)),
        Statement::Declaration(decl) => MirStatement::Declaration(lower_decl(decl)),
        Statement::Function(func) => MirStatement::Function(
            MirFunction {
                is_static: func.staticness.is_some(),
                name: func.ident.value.clone(),
                args: lower_args(&func.args.contents),
                return_type: lower_type(&func.return_type),
                block: lower_block(&func.block.contents),
            },
        ),
        Statement::If(if_block) => MirStatement::If(lower_if(if_block)),
        Statement::While(while_loop) => MirStatement::While(
            MirWhile {
                condition: lower_expr(&while_loop.condition.contents),
                block: lower_block(&while_loop.block.contents),
            },
        ),
        Statement::For(for_loop) => MirStatement::For(
            Box::new(
                MirFor {
                    init: lower_decl(&for_loop.inner.contents.init),
                    condition: lower_expr(&for_loop.inner.contents.condition.0),
                    update: MirStatement::Assignment(lower_assign(&for_loop.inner.contents.update)),
                    block: lower_block(&for_loop.block.contents),
                },
            ),
        ),
        Statement::Import(triple) => MirStatement::Import(lower_path(&triple.1)),
    }
}

/// Lowers a conditional.
pub fn lower_if(if_block: &IfBlock) -> (out: MirIf<XID, RelativePath>)
    ensures
        lowered_if(*if_block, out),
    decreases *if_block,
{
    MirIf {
        condition: lower_expr(&if_block.condition.contents),
        block: lower_block(&if_block.block.contents),
        else_block: match &if_block.else_block {
            None => None,
            Some(pair) => match &pair.1 {
                ElseBlock::ElseIf(inner) => Some(
                    MirElseBlock::ElseIf(Box::new(lower_if(&**inner))),
                ),
                ElseBlock::Else(block) => Some(MirElseBlock::Else(lower_block(&block.contents))),
            },
        },
    }
}

/// Lowers statements, in order.
pub fn lower_block(stmts: &Vec<Statement>) -> (out: Vec<MirStatement<XID, RelativePath>>)
    ensures
        lowered_block(stmts@, out@),
    decreases stmts,
{
    let mut out: Vec<MirStatement<XID, RelativePath>> = Vec::new();
    let mut i: usize = 0;
    while i < stmts.len()
        invariant
            i <= stmts.len(),
            out@.len() == i,
            forall|j: int| 0 <= j < i ==> lowered_stmt(#[trigger] stmts@[j], out@[j]),
        decreases stmts.len() - i,
    {
        out.push(lower_stmt(&stmts[i]));
        i = i + 1;
    }
    out
}

impl ToMir for Path {
    type Output = RelativePath;

    open spec fn lowers_to(&self, out: RelativePath) -> bool {
        out@ == path_names(*self)
    }

    fn into_mir(self) -> (out: RelativePath) {
        lower_path(&self)
    }
}

impl ToMir for Type {
    type Output = MirType<RelativePath>;

    open spec fn lowers_to(&self, out: MirType<RelativePath>) -> bool {
        lowered_type(*self, out)
    }

    fn into_mir(self) -> (out: MirType<RelativePath>) {
        lower_type(&self)
    }
}

impl ToMir for Expression {
    type Output = MirExpression<RelativePath>;

    open spec fn lowers_to(&self, out: MirExpression<RelativePath>) -> bool {
        lowered_expr(*self, out)
    }

    fn into_mir(self) -> (out: MirExpression<RelativePath>) {
        lower_expr(&self)
    }
}

impl ToMir for Declaration {
    type Output = MirDeclaration<XID, RelativePath>;

    open spec fn lowers_to(&self, out: MirDeclaration<XID, RelativePath>) -> bool {
        lowered_decl(*self, out)
    }

    fn into_mir(self) -> (out: MirDeclaration<XID, RelativePath>) {
        lower_decl(&self)
    }
}

impl ToMir for Assignment {
    type Output = MirAssignment<RelativePath>;

    open spec fn lowers_to(&self, out: MirAssignment<RelativePath>) -> bool {
        lowered_assign(*self, out)
    }

    fn into_mir(self) -> (out: MirAssignment<RelativePath>) {
        lower_assign(&self)
    }
}

impl ToMir for IfBlock {
    type Output = MirIf<XID, RelativePath>;

    open spec fn lowers_to(&self, out: MirIf<XID, RelativePath>) -> bool {
        lowered_if(*self, out)
    }

    fn into_mir(self) -> (out: MirIf<XID, RelativePath>) {
        lower_if(&self)
    }
}

impl ToMir for Statement {
    type Output = MirStatement<XID, RelativePath>;

    open spec fn lowers_to(&self, out: MirStatement<XID, RelativePath>) -> bool {
        lowered_stmt(*self, out)
    }

    fn into_mir(self) -> (out: MirStatement<XID, RelativePath>) {
        lower_stmt(&self)
    }
}

impl ToMir for Vec<Statement> {
    type Output = Vec<MirStatement<XID, RelativePath>>;

    open spec fn lowers_to(&self, out: Vec<MirStatement<XID, RelativePath>>) -> bool {
        lowered_block(self@, out@)
    }

    fn into_mir(self) -> (out: Vec<MirStatement<XID, RelativePath>>) {
        lower_block(&self)
    }
}

} // verus!
