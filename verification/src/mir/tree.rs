//! The simplified statement tree.
//!
//! One tree serves three phases. It has two parameters: `N`, what stands in
//! a slot that declares a name, and `P`, what stands in a slot that refers to
//! one. After lowering these are an identifier and a path as written; after
//! resolution a resolved identifier and a fully qualified path; after
//! mangling both are a mangled identifier.
use crate::token::ident::XID;
use crate::token::literal::LiteralType;
use vstd::prelude::*;

verus! {

/// A path as the user wrote it, such as `a.b.c`: one identifier or more.
#[derive(Debug, PartialEq)]
pub struct RelativePath(Vec<XID>);

impl View for RelativePath {
    type V = Seq<Seq<char>>;

    closed spec fn view(&self) -> Seq<Seq<char>> {
        self.0@.map_values(|segment: XID| segment@)
    }
}

impl RelativePath {
    #[verifier::type_invariant]
    closed spec fn wf(self) -> bool {
        self.0@.len() > 0
    }

    /// The path made of `segments`; `None` exactly when there are none.
    pub fn new(segments: Vec<XID>) -> (path: Option<RelativePath>)
        ensures
            path is Some <==> segments@.len() > 0,
            path is Some ==> path->0@ == segments@.map_values(|segment: XID| segment@),
    {
        if segments.len() == 0 {
            None
        } else {
            Some(RelativePath(segments))
        }
    }

    /// The path of the one segment `name`.
    pub fn single(name: XID) -> (path: RelativePath)
        ensures
            path@ == seq![name@],
    {
        let mut segments: Vec<XID> = Vec::new();
        segments.push(name);
        let path = RelativePath(segments);
        proof {
            assert(path@ =~= seq![name@]);
        }
        path
    }

    /// The path with `segment` added at its end.
    pub fn extended(self, segment: XID) -> (path: RelativePath)
        ensures
            path@ == self@.push(segment@),
    {
        proof {
            use_type_invariant(&self);
        }
        let mut segments = self.0;
        segments.push(segment);
        let path = RelativePath(segments);
        proof {
            assert(path@ =~= self@.push(segment@));
        }
        path
    }

    /// How many segments the path has.
    pub fn len(&self) -> (n: usize)
        ensures
            n == self@.len(),
            n > 0,
    {
        proof {
            use_type_invariant(self);
        }
        self.0.len()
    }

    /// Segment number `i`, counted from 0.
    pub fn segment(&self, i: usize) -> (name: &XID)
        requires
            i < self@.len(),
        ensures
            name@ == self@[i as int],
    {
        &self.0[i]
    }

    /// The first segment.
    pub fn first(&self) -> (name: &XID)
        ensures
            name@ == self@.first(),
            self@.len() > 0,
    {
        proof {
            use_type_invariant(self);
        }
        &self.0[0]
    }

    /// The last segment.
    pub fn last(&self) -> (name: &XID)
        ensures
            name@ == self@.last(),
            self@.len() > 0,
    {
        proof {
            use_type_invariant(self);
        }
        &self.0[self.0.len() - 1]
    }
}

/// A type that the language has by itself.
#[derive(Debug, Clone, Copy, PartialEq, Eq, Structural)]
pub enum MirPrimitive {
    Void,
    Byte,
    Short,
    Int,
    Long,
    Float,
    Double,
    String,
}

/// An operator that stands before its operand.
#[derive(Debug, Clone, Copy, PartialEq, Eq, Structural)]
pub enum MirUnaryOp {
    Not,
    Negate,
}

/// An operator that stands between two operands.
#[derive(Debug, Clone, Copy, PartialEq, Eq, Structural)]
pub enum MirBinaryOp {
    Add,
    Subtract,
    Multiply,
    Divide,
    Modulo,
    Equals,
    NotEquals,
    LessThan,
    LessThanEquals,
    GreaterThan,
    GreaterThanEquals,
    And,
    Or,
}

/// A type: a primitive one, or one that the program names.
#[derive(Debug, PartialEq)]
pub enum MirType<P> {
    Primitive(MirPrimitive),
    UserDefined(P),
}

/// An expression.
#[derive(Debug, PartialEq)]
pub enum MirExpression<P> {
    Literal(LiteralType),
    Variable(P),
    Property(Box<MirExpression<P>>, XID),
    Call(P, Vec<MirExpression<P>>),
    Index(Box<MirExpression<P>>, Box<MirExpression<P>>),
    UnaryOp(MirUnaryOp, Box<MirExpression<P>>),
    BinaryOp(Box<MirExpression<P>>, MirBinaryOp, Box<MirExpression<P>>),
}

/// An assignment of a value to a variable.
#[derive(Debug, PartialEq)]
pub struct MirAssignment<P> {
    pub variable: P,
    pub value: MirExpression<P>,
}

/// A declaration of a variable.
#[derive(Debug, PartialEq)]
pub struct MirDeclaration<N, P> {
    pub is_static: bool,
    pub name: N,
    pub ty: MirType<P>,
    pub value: Option<MirExpression<P>>,
}

/// A function.
#[derive(Debug, PartialEq)]
pub struct MirFunction<N, P> {
    pub is_static: bool,
    pub name: N,
    pub args: Vec<(N, MirType<P>)>,
    pub return_type: MirType<P>,
    pub block: Vec<MirStatement<N, P>>,
}

/// A conditional.
#[derive(Debug, PartialEq)]
pub struct MirIf<N, P> {
    pub condition: MirExpression<P>,
    pub block: Vec<MirStatement<N, P>>,
    pub else_block: Option<MirElseBlock<N, P>>,
}

/// What follows an `else`: another conditional, or a body.
#[derive(Debug, PartialEq)]
pub enum MirElseBlock<N, P> {
    ElseIf(Box<MirIf<N, P>>),
    Else(Vec<MirStatement<N, P>>),
}

/// A loop with a condition.
#[derive(Debug, PartialEq)]
pub struct MirWhile<N, P> {
    pub condition: MirExpression<P>,
    pub block: Vec<MirStatement<N, P>>,
}

/// A loop with a declaration, a condition and an update.
#[derive(Debug, PartialEq)]
pub struct MirFor<N, P> {
    pub init: MirDeclaration<N, P>,
    pub condition: MirExpression<P>,
    pub update: MirStatement<N, P>,
    pub block: Vec<MirStatement<N, P>>,
}

/// A statement.
#[derive(Debug, PartialEq)]
pub enum MirStatement<N, P> {
    Block(Vec<MirStatement<N, P>>),
    Unsafe(Vec<MirStatement<N, P>>),
    Expression(MirExpression<P>),
    Return(MirExpression<P>),
    Assignment(MirAssignment<P>),
    Declaration(MirDeclaration<N, P>),
    Function(MirFunction<N, P>),
    If(MirIf<N, P>),
    While(MirWhile<N, P>),
    For(Box<MirFor<N, P>>),
    Import(P),
}

/// Two types have the same shape: the same primitive, or a user-defined type
/// each.
pub open spec fn same_shape_type<P, Q>(a: MirType<P>, b: MirType<Q>) -> bool {
    match (a, b) {
        (MirType::Primitive(x), MirType::Primitive(y)) => x == y,
        (MirType::UserDefined(_), MirType::UserDefined(_)) => true,
        _ => false,
    }
}

/// Two expressions have the same shape: the same kind of node at every place,
/// the same number of children, and the same literals, operators and property
/// names. What stands in the variable slots is not compared.
pub open spec fn same_shape_expr<P, Q>(a: MirExpression<P>, b: MirExpression<Q>) -> bool
    decreases a,
{
    match (a, b) {
        (MirExpression::Literal(x), MirExpression::Literal(y)) => x == y,
        (MirExpression::Variable(_), MirExpression::Variable(_)) => true,
        (MirExpression::Property(x, p), MirExpression::Property(y, q)) => p == q
            && same_shape_expr(*x, *y),
        (MirExpression::Call(_, xs), MirExpression::Call(_, ys)) => xs@.len() == ys@.len()
            && forall|i: int|
            0 <= i < xs@.len() ==> same_shape_expr(#[trigger] xs@[i], ys@[i]),
        (MirExpression::Index(x, i), MirExpression::Index(y, j)) => same_shape_expr(*x, *y)
            && same_shape_expr(*i, *j),
        (MirExpression::UnaryOp(o, x), MirExpression::UnaryOp(p, y)) => o == p
            && same_shape_expr(*x, *y),
        (MirExpression::BinaryOp(x1, o, x2), MirExpression::BinaryOp(y1, p, y2)) => o == p
            && same_shape_expr(*x1, *y1) && same_shape_expr(*x2, *y2),
        _ => false,
    }
}

/// Two optional expressions have the same shape: both absent, or both present
/// with the same shape.
pub open spec fn same_shape_value<P, Q>(
    a: Option<MirExpression<P>>,
    b: Option<MirExpression<Q>>,
) -> bool {
    match (a, b) {
        (Some(x), Some(y)) => same_shape_expr(x, y),
        (None, None) => true,
        _ => false,
    }
}

/// Two declarations have the same shape.
pub open spec fn same_shape_decl<N, P, M, Q>(
    a: MirDeclaration<N, P>,
    b: MirDeclaration<M, Q>,
) -> bool {
    &&& a.is_static == b.is_static
    &&& same_shape_type(a.ty, b.ty)
    &&& same_shape_value(a.value, b.value)
}

/// Two parameter lists have the same shape.
pub open spec fn same_shape_args<N, P, M, Q>(
    a: Seq<(N, MirType<P>)>,
    b: Seq<(M, MirType<Q>)>,
) -> bool {
    &&& a.len() == b.len()
    &&& forall|i: int| 0 <= i < a.len() ==> same_shape_type((#[trigger] a[i]).1, b[i].1)
}

/// Two statements have the same shape: the same kind of node at every place,
/// the same number of children in the same order, and the same flags,
/// literals, operators and property names. What stands in the name and
/// variable slots is not compared.
pub open spec fn same_shape_stmt<N, P, M, Q>(
    a: MirStatement<N, P>,
    b: MirStatement<M, Q>,
) -> bool
    decreases a,
{
    match (a, b) {
        (MirStatement::Block(x), MirStatement::Block(y)) => x@.len() == y@.len() && forall|
            i: int,
        | 0 <= i < x@.len() ==> same_shape_stmt(#[trigger] x@[i], y@[i]),
        (MirStatement::Unsafe(x), MirStatement::Unsafe(y)) => x@.len() == y@.len() && forall|
            i: int,
        | 0 <= i < x@.len() ==> same_shape_stmt(#[trigger] x@[i], y@[i]),
        (MirStatement::Expression(x), MirStatement::Expression(y)) => same_shape_expr(x, y),
        (MirStatement::Return(x), MirStatement::Return(y)) => same_shape_expr(x, y),
        (MirStatement::Assignment(x), MirStatement::Assignment(y)) => same_shape_expr(
            x.value,
            y.value,
        ),
        (MirStatement::Declaration(x), MirStatement::Declaration(y)) => same_shape_decl(x, y),
        (MirStatement::Function(x), MirStatement::Function(y)) => {
            &&& x.is_static == y.is_static
            &&& same_shape_args(x.args@, y.args@)
            &&& same_shape_type(x.return_type, y.return_type)
            &&& x.block@.len() == y.block@.len()
            &&& forall|i: int|
                0 <= i < x.block@.len() ==> same_shape_stmt(#[trigger] x.block@[i], y.block@[i])
        },
        (MirStatement::If(x), MirStatement::If(y)) => same_shape_if(x, y),
        (MirStatement::While(x), MirStatement::While(y)) => {
            &&& same_shape_expr(x.condition, y.condition)
            &&& x.block@.len() == y.block@.len()
            &&& forall|i: int|
                0 <= i < x.block@.len() ==> same_shape_stmt(#[trigger] x.block@[i], y.block@[i])
        },
        (MirStatement::For(x), MirStatement::For(y)) => {
            &&& same_shape_decl(x.init, y.init)
            &&& same_shape_expr(x.condition, y.condition)
            &&& same_shape_stmt(x.update, y.update)
            &&& x.block@.len() == y.block@.len()
            &&& forall|i: int|
                0 <= i < x.block@.len() ==> same_shape_stmt(#[trigger] x.block@[i], y.block@[i])
        },
        (MirStatement::Import(_), MirStatement::Import(_)) => true,
        _ => false,
    }
}

/// Two conditionals have the same shape: conditions and bodies of the same
/// shape, and the same chain of else branches.
pub open spec fn same_shape_if<N, P, M, Q>(a: MirIf<N, P>, b: MirIf<M, Q>) -> bool
    decreases a,
{
    &&& same_shape_expr(a.condition, b.condition)
    &&& a.block@.len() == b.block@.len()
    &&& forall|i: int|
        0 <= i < a.block@.len() ==> same_shape_stmt(#[trigger] a.block@[i], b.block@[i])
    &&& match (a.else_block, b.else_block) {
        (None, None) => true,
        (Some(x), Some(y)) => same_shape_else(x, y),
        _ => false,
    }
}

/// What follows two `else` has the same shape: a conditional each, of the
/// same shape, or a body each, of the same shape.
pub open spec fn same_shape_else<N, P, M, Q>(a: MirElseBlock<N, P>, b: MirElseBlock<M, Q>) -> bool
    decreases a,
{
    match (a, b) {
        (MirElseBlock::ElseIf(x), MirElseBlock::ElseIf(y)) => same_shape_if(*x, *y),
        (MirElseBlock::Else(x), MirElseBlock::Else(y)) => x@.len() == y@.len() && forall|i: int|
            0 <= i < x@.len() ==> same_shape_stmt(#[trigger] x@[i], y@[i]),
        _ => false,
    }
}

/// Two statement lists have the same shape: the same length, and statements
/// of the same shape at each place.
pub open spec fn same_shape_block<N, P, M, Q>(
    a: Seq<MirStatement<N, P>>,
    b: Seq<MirStatement<M, Q>>,
) -> bool {
    &&& a.len() == b.len()
    &&& forall|i: int| 0 <= i < a.len() ==> same_shape_stmt(#[trigger] a[i], b[i])
}

/// Two types are the same: the same primitive, or user-defined types with
/// the same path.
pub open spec fn same_type<P: View>(a: MirType<P>, b: MirType<P>) -> bool {
    match (a, b) {
        (MirType::Primitive(x), MirType::Primitive(y)) => x == y,
        (MirType::UserDefined(p), MirType::UserDefined(q)) => p@ == q@,
        _ => false,
    }
}

/// Two expressions are the same: the same shape, and in every variable slot
/// the same path or identifier.
pub open spec fn same_expr<P: View>(a: MirExpression<P>, b: MirExpression<P>) -> bool
    decreases a,
{
    match (a, b) {
        (MirExpression::Literal(x), MirExpression::Literal(y)) => x == y,
        (MirExpression::Variable(p), MirExpression::Variable(q)) => p@ == q@,
        (MirExpression::Property(x, p), MirExpression::Property(y, q)) => p == q && same_expr(
            *x,
            *y,
        ),
        (MirExpression::Call(p, xs), MirExpression::Call(q, ys)) => p@ == q@ && same_exprs(
            xs@,
            ys@,
        ),
        (MirExpression::Index(x, i), MirExpression::Index(y, j)) => same_expr(*x, *y) && same_expr(
            *i,
            *j,
        ),
        (MirExpression::UnaryOp(o, x), MirExpression::UnaryOp(p, y)) => o == p && same_expr(
            *x,
            *y,
        ),
        (MirExpression::BinaryOp(x1, o, x2), MirExpression::BinaryOp(y1, p, y2)) => o == p
            && same_expr(*x1, *y1) && same_expr(*x2, *y2),
        _ => false,
    }
}

/// Two lists of expressions are the same.
pub open spec fn same_exprs<P: View>(a: Seq<MirExpression<P>>, b: Seq<MirExpression<P>>) -> bool
    decreases a,
{
    &&& a.len() == b.len()
    &&& forall|i: int| 0 <= i < a.len() ==> same_expr(#[trigger] a[i], b[i])
}

/// Two optional expressions are the same.
pub open spec fn same_value<P: View>(
    a: Option<MirExpression<P>>,
    b: Option<MirExpression<P>>,
) -> bool {
    match (a, b) {
        (Some(x), Some(y)) => same_expr(x, y),
        (None, None) => true,
        _ => false,
    }
}

/// Two declarations are the same.
pub open spec fn same_decl<N: View, P: View>(
    a: MirDeclaration<N, P>,
    b: MirDeclaration<N, P>,
) -> bool {
    &&& a.is_static == b.is_static
    &&& a.name@ == b.name@
    &&& same_type(a.ty, b.ty)
    &&& same_value(a.value, b.value)
}

/// Two parameter lists are the same.
pub open spec fn same_args<N: View, P: View>(
    a: Seq<(N, MirType<P>)>,
    b: Seq<(N, MirType<P>)>,
) -> bool {
    &&& a.len() == b.len()
    &&& forall|i: int|
        0 <= i < a.len() ==> (#[trigger] a[i]).0@ == b[i].0@ && same_type(a[i].1, b[i].1)
}

/// Two statements are the same: the same shape, and in every name slot and
/// every variable slot the same identifier or path.
pub open spec fn same_stmt<N: View, P: View>(a: MirStatement<N, P>, b: MirStatement<N, P>) -> bool
    decreases a,
{
    match (a, b) {
        (MirStatement::Block(x), MirStatement::Block(y)) => same_block(x@, y@),
        (MirStatement::Unsafe(x), MirStatement::Unsafe(y)) => same_block(x@, y@),
        (MirStatement::Expression(x), MirStatement::Expression(y)) => same_expr(x, y),
        (MirStatement::Return(x), MirStatement::Return(y)) => same_expr(x, y),
        (MirStatement::Assignment(x), MirStatement::Assignment(y)) => x.variable@ == y.variable@
            && same_expr(x.value, y.value),
        (MirStatement::Declaration(x), MirStatement::Declaration(y)) => same_decl(x, y),
        (MirStatement::Function(x), MirStatement::Function(y)) => {
            &&& x.is_static == y.is_static
            &&& x.name@ == y.name@
            &&& same_args(x.args@, y.args@)
            &&& same_type(x.return_type, y.return_type)
            &&& same_block(x.block@, y.block@)
        },
        (MirStatement::If(x), MirStatement::If(y)) => same_if(x, y),
        (MirStatement::While(x), MirStatement::While(y)) => same_expr(x.condition, y.condition)
            && same_block(x.block@, y.block@),
        (MirStatement::For(x), MirStatement::For(y)) => {
            &&& same_decl(x.init, y.init)
            &&& same_expr(x.condition, y.condition)
            &&& same_stmt(x.update, y.update)
            &&& same_block(x.block@, y.block@)
        },
        (MirStatement::Import(p), MirStatement::Import(q)) => p@ == q@,
        _ => false,
    }
}

/// Two conditionals are the same.
pub open spec fn same_if<N: View, P: View>(a: MirIf<N, P>, b: MirIf<N, P>) -> bool
    decreases a,
{
    &&& same_expr(a.condition, b.condition)
    &&& same_block(a.block@, b.block@)
    &&& match (a.else_block, b.else_block) {
        (None, None) => true,
        (Some(x), Some(y)) => same_else(x, y),
        _ => false,
    }
}

/// What follows two `else` is the same.
pub open spec fn same_else<N: View, P: View>(a: MirElseBlock<N, P>, b: MirElseBlock<N, P>) -> bool
    decreases a,
{
    match (a, b) {
        (MirElseBlock::ElseIf(x), MirElseBlock::ElseIf(y)) => same_if(*x, *y),
        (MirElseBlock::Else(x), MirElseBlock::Else(y)) => same_block(x@, y@),
        _ => false,
    }
}

/// Two statement lists are the same: the same length, and the same statement
/// at each place.
pub open spec fn same_block<N: View, P: View>(
    a: Seq<MirStatement<N, P>>,
    b: Seq<MirStatement<N, P>>,
) -> bool
    decreases a,
{
    &&& a.len() == b.len()
    &&& forall|i: int| 0 <= i < a.len() ==> same_stmt(#[trigger] a[i], b[i])
}


/// Having the same shape carries over: if `a` has the shape of `b` and `b`
/// that of `c`, then `a` has the shape of `c`.
pub proof fn lemma_shape_type_trans<P, Q, R>(a: MirType<P>, b: MirType<Q>, c: MirType<R>)
    requires
        same_shape_type(a, b),
        same_shape_type(b, c),
    ensures
        same_shape_type(a, c),
{
}

/// Having the same shape carries over, for expressions.
pub proof fn lemma_shape_expr_trans<P, Q, R>(
    a: MirExpression<P>,
    b: MirExpression<Q>,
    c: MirExpression<R>,
)
    requires
        same_shape_expr(a, b),
        same_shape_expr(b, c),
    ensures
        same_shape_expr(a, c),
    decreases a,
{
    match (a, b, c) {
        (
            MirExpression::Property(x, _),
            MirExpression::Property(y, _),
            MirExpression::Property(z, _),
        ) => {
            lemma_shape_expr_trans(*x, *y, *z);
        },
        (MirExpression::Call(_, xs), MirExpression::Call(_, ys), MirExpression::Call(_, zs)) => {
            assert forall|i: int| 0 <= i < xs@.len() implies same_shape_expr(
                #[trigger] xs@[i],
                zs@[i],
            ) by {
                lemma_shape_expr_trans(xs@[i], ys@[i], zs@[i]);
            }
        },
        (MirExpression::Index(x, i), MirExpression::Index(y, j), MirExpression::Index(z, k)) => {
            lemma_shape_expr_trans(*x, *y, *z);
            lemma_shape_expr_trans(*i, *j, *k);
        },
        (
            MirExpression::UnaryOp(_, x),
            MirExpression::UnaryOp(_, y),
            MirExpression::UnaryOp(_, z),
        ) => {
            lemma_shape_expr_trans(*x, *y, *z);
        },
        (
            MirExpression::BinaryOp(x1, _, x2),
            MirExpression::BinaryOp(y1, _, y2),
            MirExpression::BinaryOp(z1, _, z2),
        ) => {
            lemma_shape_expr_trans(*x1, *y1, *z1);
            lemma_shape_expr_trans(*x2, *y2, *z2);
        },
        _ => {},
    }
}

/// Having the same shape carries over, for declarations.
pub proof fn lemma_shape_decl_trans<N, P, M, Q, L, R>(
    a: MirDeclaration<N, P>,
    b: MirDeclaration<M, Q>,
    c: MirDeclaration<L, R>,
)
    requires
        same_shape_decl(a, b),
        same_shape_decl(b, c),
    ensures
        same_shape_decl(a, c),
{
    match (a.value, b.value, c.value) {
        (Some(x), Some(y), Some(z)) => {
            lemma_shape_expr_trans(x, y, z);
        },
        _ => {},
    }
}

/// Having the same shape carries over, for statements.
pub proof fn lemma_shape_stmt_trans<N, P, M, Q, L, R>(
    a: MirStatement<N, P>,
    b: MirStatement<M, Q>,
    c: MirStatement<L, R>,
)
    requires
        same_shape_stmt(a, b),
        same_shape_stmt(b, c),
    ensures
        same_shape_stmt(a, c),
    decreases a,
{
    match (a, b, c) {
        (MirStatement::Block(x), MirStatement::Block(y), MirStatement::Block(z)) => {
            lemma_shape_block_trans(x@, y@, z@);
        },
        (MirStatement::Unsafe(x), MirStatement::Unsafe(y), MirStatement::Unsafe(z)) => {
            lemma_shape_block_trans(x@, y@, z@);
        },
        (
            MirStatement::Expression(x),
            MirStatement::Expression(y),
            MirStatement::Expression(z),
        ) => {
            lemma_shape_expr_trans(x, y, z);
        },
        (MirStatement::Return(x), MirStatement::Return(y), MirStatement::Return(z)) => {
            lemma_shape_expr_trans(x, y, z);
        },
        (
            MirStatement::Assignment(x),
            MirStatement::Assignment(y),
            MirStatement::Assignment(z),
        ) => {
            lemma_shape_expr_trans(x.value, y.value, z.value);
        },
        (
            MirStatement::Declaration(x),
            MirStatement::Declaration(y),
            MirStatement::Declaration(z),
        ) => {
            lemma_shape_decl_trans(x, y, z);
        },
        (MirStatement::Function(x), MirStatement::Function(y), MirStatement::Function(z)) => {
            assert forall|i: int| 0 <= i < x.args@.len() implies same_shape_type(
                (#[trigger] x.args@[i]).1,
                z.args@[i].1,
            ) by {
                let middle = y.args@[i];
                lemma_shape_type_trans(x.args@[i].1, middle.1, z.args@[i].1);
            }
            lemma_shape_type_trans(x.return_type, y.return_type, z.return_type);
            lemma_shape_block_trans(x.block@, y.block@, z.block@);
        },
        (MirStatement::If(x), MirStatement::If(y), MirStatement::If(z)) => {
            lemma_shape_if_trans(x, y, z);
        },
        (MirStatement::While(x), MirStatement::While(y), MirStatement::While(z)) => {
            lemma_shape_expr_trans(x.condition, y.condition, z.condition);
            lemma_shape_block_trans(x.block@, y.block@, z.block@);
        },
        (MirStatement::For(x), MirStatement::For(y), MirStatement::For(z)) => {
            lemma_shape_decl_trans(x.init, y.init, z.init);
            lemma_shape_expr_trans(x.condition, y.condition, z.condition);
            lemma_shape_stmt_trans(x.update, y.update, z.update);
            lemma_shape_block_trans(x.block@, y.block@, z.block@);
        },
        _ => {},
    }
}

/// Having the same shape carries over, for conditionals.
pub proof fn lemma_shape_if_trans<N, P, M, Q, L, R>(a: MirIf<N, P>, b: MirIf<M, Q>, c: MirIf<L, R>)
    requires
        same_shape_if(a, b),
        same_shape_if(b, c),
    ensures
        same_shape_if(a, c),
    decreases a,
{
    lemma_shape_expr_trans(a.condition, b.condition, c.condition);
    lemma_shape_block_trans(a.block@, b.block@, c.block@);
    match (a.else_block, b.else_block, c.else_block) {
        (Some(x), Some(y), Some(z)) => {
            lemma_shape_else_trans(x, y, z);
        },
        _ => {},
    }
}

/// Having the same shape carries over, for what follows an `else`.
pub proof fn lemma_shape_else_trans<N, P, M, Q, L, R>(
    a: MirElseBlock<N, P>,
    b: MirElseBlock<M, Q>,
    c: MirElseBlock<L, R>,
)
    requires
        same_shape_else(a, b),
        same_shape_else(b, c),
    ensures
        same_shape_else(a, c),
    decreases a,
{
    match (a, b, c) {
        (MirElseBlock::ElseIf(x), MirElseBlock::ElseIf(y), MirElseBlock::ElseIf(z)) => {
            lemma_shape_if_trans(*x, *y, *z);
        },
        (MirElseBlock::Else(x), MirElseBlock::Else(y), MirElseBlock::Else(z)) => {
            lemma_shape_block_trans(x@, y@, z@);
        },
        _ => {},
    }
}

/// Having the same shape carries over, for statement lists.
pub proof fn lemma_shape_block_trans<N, P, M, Q, L, R>(
    a: Seq<MirStatement<N, P>>,
    b: Seq<MirStatement<M, Q>>,
    c: Seq<MirStatement<L, R>>,
)
    requires
        a.len() == b.len(),
        forall|i: int| 0 <= i < a.len() ==> same_shape_stmt(#[trigger] a[i], b[i]),
        b.len() == c.len(),
        forall|i: int| 0 <= i < b.len() ==> same_shape_stmt(#[trigger] b[i], c[i]),
    ensures
        a.len() == c.len(),
        forall|i: int| 0 <= i < a.len() ==> same_shape_stmt(#[trigger] a[i], c[i]),
    decreases a,
{
    assert forall|i: int| 0 <= i < a.len() implies same_shape_stmt(#[trigger] a[i], c[i]) by {
        lemma_shape_stmt_trans(a[i], b[i], c[i]);
    }
}


} // verus!
