//! What holds of the two passes together: the same program under the same
//! package name always gives the same identifiers.
use crate::mir::absoluteify::{
    empty_frame, resolve_path, resolved_args, resolved_block, resolved_decl, resolved_else,
    resolved_expr, resolved_exprs, resolved_for, resolved_function, resolved_if, resolved_stmt,
    resolved_type, resolved_value, scope_after_stmt, scope_before, scope_before_arg,
    with_declared, AbsolutePath, AbsoluteVar, ResolveFrame,
};
use crate::mir::hash::root_salt;
use crate::mir::mangle::{
    anonymous_child, bumped, frames_after_else, frames_after_if, frames_after_stmt,
    frames_before, frames_before_arg, fresh_frame, lookup, mangled_args, mangled_block,
    mangled_decl, mangled_else, mangled_expr, mangled_exprs, mangled_for, mangled_function,
    mangled_if, mangled_stmt, mangled_type, mangled_value, named_child, reference_id,
    with_binding, MangleFrame, MangledVar,
};
use crate::mir::tree::{
    lemma_shape_block_trans, same_shape_block, same_shape_decl, same_shape_else,
    same_shape_expr, same_shape_if, same_shape_stmt, same_shape_type, same_args, same_block,
    same_decl, same_else, same_expr, same_exprs, same_if, same_stmt,
    same_type, same_value, MirDeclaration, MirElseBlock, MirExpression, MirFor, MirFunction,
    MirIf, MirStatement, MirType, RelativePath,
};
use crate::token::ident::XID;
use vstd::prelude::*;

verus! {

/// Path equivalence. Two paths, written at two places, that resolve to the
/// same fully qualified path get the same identifier, when the two places
/// stand under the same root and, for a plain name, have the same
/// declaration of it in sight.
pub proof fn lemma_path_equivalence(
    scopes_a: Seq<ResolveFrame>,
    written_a: Seq<Seq<char>>,
    frames_a: Seq<MangleFrame>,
    scopes_b: Seq<ResolveFrame>,
    written_b: Seq<Seq<char>>,
    frames_b: Seq<MangleFrame>,
)
    requires
        resolve_path(scopes_a, written_a) == resolve_path(scopes_b, written_b),
        frames_a.len() > 0,
        frames_b.len() > 0,
        frames_a[0].salt == frames_b[0].salt,
        resolve_path(scopes_a, written_a).len() == 1 ==> lookup(
            frames_a,
            resolve_path(scopes_a, written_a)[0],
        ) == lookup(frames_b, resolve_path(scopes_a, written_a)[0]),
    ensures
        reference_id(frames_a, resolve_path(scopes_a, written_a)) == reference_id(
            frames_b,
            resolve_path(scopes_b, written_b),
        ),
{
}

proof fn lemma_resolved_type(
    input: MirType<RelativePath>,
    chain: Seq<ResolveFrame>,
    out1: MirType<AbsolutePath>,
    out2: MirType<AbsolutePath>,
)
    requires
        resolved_type(input, chain, out1),
        resolved_type(input, chain, out2),
    ensures
        same_type(out1, out2),
{
}

proof fn lemma_resolved_expr(
    input: MirExpression<RelativePath>,
    chain: Seq<ResolveFrame>,
    out1: MirExpression<AbsolutePath>,
    out2: MirExpression<AbsolutePath>,
)
    requires
        resolved_expr(input, chain, out1),
        resolved_expr(input, chain, out2),
    ensures
        same_expr(out1, out2),
    decreases input,
{
    match (input, out1, out2) {
        (
            MirExpression::Property(a, _),
            MirExpression::Property(b1, _),
            MirExpression::Property(b2, _),
        ) => {
            lemma_resolved_expr(*a, chain, *b1, *b2);
        },
        (MirExpression::Call(_, xs), MirExpression::Call(_, ys1), MirExpression::Call(_, ys2)) => {
            lemma_resolved_exprs(xs@, chain, ys1@, ys2@);
        },
        (
            MirExpression::Index(a, i),
            MirExpression::Index(b1, j1),
            MirExpression::Index(b2, j2),
        ) => {
            lemma_resolved_expr(*a, chain, *b1, *b2);
            lemma_resolved_expr(*i, chain, *j1, *j2);
        },
        (
            MirExpression::UnaryOp(_, a),
            MirExpression::UnaryOp(_, b1),
            MirExpression::UnaryOp(_, b2),
        ) => {
            lemma_resolved_expr(*a, chain, *b1, *b2);
        },
        (
            MirExpression::BinaryOp(a, _, c),
            MirExpression::BinaryOp(b1, _, d1),
            MirExpression::BinaryOp(b2, _, d2),
        ) => {
            lemma_resolved_expr(*a, chain, *b1, *b2);
            lemma_resolved_expr(*c, chain, *d1, *d2);
        },
        _ => {},
    }
}

proof fn lemma_resolved_exprs(
    input: Seq<MirExpression<RelativePath>>,
    chain: Seq<ResolveFrame>,
    out1: Seq<MirExpression<AbsolutePath>>,
    out2: Seq<MirExpression<AbsolutePath>>,
)
    requires
        resolved_exprs(input, chain, out1),
        resolved_exprs(input, chain, out2),
    ensures
        same_exprs(out1, out2),
    decreases input,
{
    assert forall|i: int| 0 <= i < out1.len() implies same_expr(#[trigger] out1[i], out2[i]) by {
        lemma_resolved_expr(input[i], chain, out1[i], out2[i]);
    }
}

proof fn lemma_resolved_value(
    input: Option<MirExpression<RelativePath>>,
    chain: Seq<ResolveFrame>,
    out1: Option<MirExpression<AbsolutePath>>,
    out2: Option<MirExpression<AbsolutePath>>,
)
    requires
        resolved_value(input, chain, out1),
        resolved_value(input, chain, out2),
    ensures
        same_value(out1, out2),
{
    match (input, out1, out2) {
        (Some(a), Some(b1), Some(b2)) => {
            lemma_resolved_expr(a, chain, b1, b2);
        },
        _ => {},
    }
}

proof fn lemma_resolved_decl(
    input: MirDeclaration<XID, RelativePath>,
    chain: Seq<ResolveFrame>,
    out1: MirDeclaration<AbsoluteVar, AbsolutePath>,
    out2: MirDeclaration<AbsoluteVar, AbsolutePath>,
)
    requires
        resolved_decl(input, chain, out1),
        resolved_decl(input, chain, out2),
    ensures
        same_decl(out1, out2),
{
    lemma_resolved_type(input.ty, chain, out1.ty, out2.ty);
    lemma_resolved_value(input.value, chain, out1.value, out2.value);
}

proof fn lemma_resolved_args(
    input: Seq<(XID, MirType<RelativePath>)>,
    chain: Seq<ResolveFrame>,
    out1: Seq<(AbsoluteVar, MirType<AbsolutePath>)>,
    out2: Seq<(AbsoluteVar, MirType<AbsolutePath>)>,
)
    requires
        resolved_args(input, chain, out1),
        resolved_args(input, chain, out2),
    ensures
        same_args(out1, out2),
{
    assert forall|i: int| 0 <= i < out1.len() implies (#[trigger] out1[i]).0@ == out2[i].0@
        && same_type(out1[i].1, out2[i].1) by {
        let arg = input[i];
        lemma_resolved_type(
            arg.1,
            scope_before_arg(input, i, chain),
            out1[i].1,
            out2[i].1,
        );
    }
}

proof fn lemma_resolved_function(
    input: MirFunction<XID, RelativePath>,
    chain: Seq<ResolveFrame>,
    out1: MirFunction<AbsoluteVar, AbsolutePath>,
    out2: MirFunction<AbsoluteVar, AbsolutePath>,
)
    requires
        resolved_function(input, chain, out1),
        resolved_function(input, chain, out2),
    ensures
        same_stmt(MirStatement::Function(out1), MirStatement::Function(out2)),
    decreases input,
{
    let outer = with_declared(chain, input.name@);
    let inner = outer.push(empty_frame());
    lemma_resolved_args(input.args@, inner, out1.args@, out2.args@);
    lemma_resolved_type(input.return_type, outer, out1.return_type, out2.return_type);
    lemma_resolved_block(
        input.block@,
        scope_before_arg(input.args@, input.args@.len() as int, inner),
        out1.block@,
        out2.block@,
    );
}

proof fn lemma_resolved_for(
    input: MirFor<XID, RelativePath>,
    chain: Seq<ResolveFrame>,
    out1: MirFor<AbsoluteVar, AbsolutePath>,
    out2: MirFor<AbsoluteVar, AbsolutePath>,
)
    requires
        resolved_for(input, chain, out1),
        resolved_for(input, chain, out2),
    ensures
        same_stmt(MirStatement::For(Box::new(out1)), MirStatement::For(Box::new(out2))),
    decreases input,
{
    let start = chain.push(empty_frame());
    let looped = with_declared(start, input.init.name@);
    lemma_resolved_decl(input.init, start, out1.init, out2.init);
    lemma_resolved_expr(input.condition, looped, out1.condition, out2.condition);
    lemma_resolved_stmt(input.update, looped, out1.update, out2.update);
    lemma_resolved_block(
        input.block@,
        scope_after_stmt(input.update, looped),
        out1.block@,
        out2.block@,
    );
}

proof fn lemma_resolved_stmt(
    input: MirStatement<XID, RelativePath>,
    chain: Seq<ResolveFrame>,
    out1: MirStatement<AbsoluteVar, AbsolutePath>,
    out2: MirStatement<AbsoluteVar, AbsolutePath>,
)
    requires
        resolved_stmt(input, chain, out1),
        resolved_stmt(input, chain, out2),
    ensures
        same_stmt(out1, out2),
    decreases input,
{
    match (input, out1, out2) {
        (MirStatement::Block(a), MirStatement::Block(b1), MirStatement::Block(b2)) => {
            lemma_resolved_block(a@, chain.push(empty_frame()), b1@, b2@);
        },
        (MirStatement::Unsafe(a), MirStatement::Unsafe(b1), MirStatement::Unsafe(b2)) => {
            lemma_resolved_block(a@, chain.push(empty_frame()), b1@, b2@);
        },
        (
            MirStatement::Expression(a),
            MirStatement::Expression(b1),
            MirStatement::Expression(b2),
        ) => {
            lemma_resolved_expr(a, chain, b1, b2);
        },
        (MirStatement::Return(a), MirStatement::Return(b1), MirStatement::Return(b2)) => {
            lemma_resolved_expr(a, chain, b1, b2);
        },
        (
            MirStatement::Assignment(a),
            MirStatement::Assignment(b1),
            MirStatement::Assignment(b2),
        ) => {
            lemma_resolved_expr(a.value, chain, b1.value, b2.value);
        },
        (
            MirStatement::Declaration(a),
            MirStatement::Declaration(b1),
            MirStatement::Declaration(b2),
        ) => {
            lemma_resolved_decl(a, chain, b1, b2);
        },
        (MirStatement::Function(a), MirStatement::Function(b1), MirStatement::Function(b2)) => {
            lemma_resolved_function(a, chain, b1, b2);
        },
        (MirStatement::If(a), MirStatement::If(b1), MirStatement::If(b2)) => {
            lemma_resolved_if(a, chain, b1, b2);
        },
        (MirStatement::While(a), MirStatement::While(b1), MirStatement::While(b2)) => {
            lemma_resolved_expr(a.condition, chain, b1.condition, b2.condition);
            lemma_resolved_block(a.block@, chain.push(empty_frame()), b1.block@, b2.block@);
        },
        (MirStatement::For(a), MirStatement::For(b1), MirStatement::For(b2)) => {
            lemma_resolved_for(*a, chain, *b1, *b2);
        },
        _ => {},
    }
}

proof fn lemma_resolved_else(
    input: MirElseBlock<XID, RelativePath>,
    chain: Seq<ResolveFrame>,
    out1: MirElseBlock<AbsoluteVar, AbsolutePath>,
    out2: MirElseBlock<AbsoluteVar, AbsolutePath>,
)
    requires
        resolved_else(input, chain, out1),
        resolved_else(input, chain, out2),
    ensures
        same_else(out1, out2),
    decreases input,
{
    match (input, out1, out2) {
        (MirElseBlock::ElseIf(a), MirElseBlock::ElseIf(b1), MirElseBlock::ElseIf(b2)) => {
            lemma_resolved_if(*a, chain, *b1, *b2);
        },
        (MirElseBlock::Else(a), MirElseBlock::Else(b1), MirElseBlock::Else(b2)) => {
            lemma_resolved_block(a@, chain.push(empty_frame()), b1@, b2@);
        },
        _ => {},
    }
}

proof fn lemma_resolved_if(
    input: MirIf<XID, RelativePath>,
    chain: Seq<ResolveFrame>,
    out1: MirIf<AbsoluteVar, AbsolutePath>,
    out2: MirIf<AbsoluteVar, AbsolutePath>,
)
    requires
        resolved_if(input, chain, out1),
        resolved_if(input, chain, out2),
    ensures
        same_if(out1, out2),
    decreases input,
{
    lemma_resolved_expr(input.condition, chain, out1.condition, out2.condition);
    lemma_resolved_block(input.block@, chain.push(empty_frame()), out1.block@, out2.block@);
    match (input.else_block, out1.else_block, out2.else_block) {
        (Some(a), Some(b1), Some(b2)) => {
            lemma_resolved_else(a, chain, b1, b2);
        },
        _ => {},
    }
}

/// Resolution has one result: two trees that are both the resolution of the
/// same statements in the same scopes are the same tree.
pub proof fn lemma_resolved_block(
    input: Seq<MirStatement<XID, RelativePath>>,
    chain: Seq<ResolveFrame>,
    out1: Seq<MirStatement<AbsoluteVar, AbsolutePath>>,
    out2: Seq<MirStatement<AbsoluteVar, AbsolutePath>>,
)
    requires
        resolved_block(input, chain, out1),
        resolved_block(input, chain, out2),
    ensures
        same_block(out1, out2),
    decreases input,
{
    assert forall|i: int| 0 <= i < out1.len() implies same_stmt(#[trigger] out1[i], out2[i]) by {
        lemma_resolved_stmt(
            input[i],
            scope_before(input, i, chain),
            out1[i],
            out2[i],
        );
    }
}

proof fn lemma_frames_after_if(
    a: MirIf<AbsoluteVar, AbsolutePath>,
    b: MirIf<AbsoluteVar, AbsolutePath>,
    chain: Seq<MangleFrame>,
)
    requires
        same_if(a, b),
    ensures
        frames_after_if(a, chain) == frames_after_if(b, chain),
    decreases a,
{
    match (a.else_block, b.else_block) {
        (Some(x), Some(y)) => {
            lemma_frames_after_else(x, y, bumped(chain));
        },
        _ => {},
    }
}

proof fn lemma_frames_after_else(
    a: MirElseBlock<AbsoluteVar, AbsolutePath>,
    b: MirElseBlock<AbsoluteVar, AbsolutePath>,
    chain: Seq<MangleFrame>,
)
    requires
        same_else(a, b),
    ensures
        frames_after_else(a, chain) == frames_after_else(b, chain),
    decreases a,
{
    match (a, b) {
        (MirElseBlock::ElseIf(x), MirElseBlock::ElseIf(y)) => {
            lemma_frames_after_if(*x, *y, chain);
        },
        _ => {},
    }
}

proof fn lemma_frames_after_stmt(
    a: MirStatement<AbsoluteVar, AbsolutePath>,
    b: MirStatement<AbsoluteVar, AbsolutePath>,
    chain: Seq<MangleFrame>,
)
    requires
        same_stmt(a, b),
    ensures
        frames_after_stmt(a, chain) == frames_after_stmt(b, chain),
{
    match (a, b) {
        (MirStatement::If(x), MirStatement::If(y)) => {
            lemma_frames_after_if(x, y, chain);
        },
        _ => {},
    }
}

proof fn lemma_frames_before(
    a: Seq<MirStatement<AbsoluteVar, AbsolutePath>>,
    b: Seq<MirStatement<AbsoluteVar, AbsolutePath>>,
    n: int,
    chain: Seq<MangleFrame>,
)
    requires
        same_block(a, b),
        n <= a.len(),
    ensures
        frames_before(a, n, chain) == frames_before(b, n, chain),
    decreases n,
{
    if n > 0 {
        lemma_frames_before(a, b, n - 1, chain);
        let here = a[n - 1];
        lemma_frames_after_stmt(here, b[n - 1], frames_before(a, n - 1, chain));
    }
}

proof fn lemma_frames_before_arg(
    a: Seq<(AbsoluteVar, MirType<AbsolutePath>)>,
    b: Seq<(AbsoluteVar, MirType<AbsolutePath>)>,
    n: int,
    chain: Seq<MangleFrame>,
)
    requires
        same_args(a, b),
        n <= a.len(),
    ensures
        frames_before_arg(a, n, chain) == frames_before_arg(b, n, chain),
    decreases n,
{
    if n > 0 {
        lemma_frames_before_arg(a, b, n - 1, chain);
        let here = a[n - 1];
        assert(here.0@ == b[n - 1].0@);
    }
}

proof fn lemma_mangled_type(
    in1: MirType<AbsolutePath>,
    in2: MirType<AbsolutePath>,
    chain: Seq<MangleFrame>,
    out1: MirType<MangledVar>,
    out2: MirType<MangledVar>,
)
    requires
        same_type(in1, in2),
        mangled_type(in1, chain, out1),
        mangled_type(in2, chain, out2),
    ensures
        same_type(out1, out2),
{
}

proof fn lemma_mangled_expr(
    in1: MirExpression<AbsolutePath>,
    in2: MirExpression<AbsolutePath>,
    chain: Seq<MangleFrame>,
    out1: MirExpression<MangledVar>,
    out2: MirExpression<MangledVar>,
)
    requires
        same_expr(in1, in2),
        mangled_expr(in1, chain, out1),
        mangled_expr(in2, chain, out2),
    ensures
        same_expr(out1, out2),
    decreases in1,
{
    match (in1, in2, out1, out2) {
        (
            MirExpression::Property(a1, _),
            MirExpression::Property(a2, _),
            MirExpression::Property(b1, _),
            MirExpression::Property(b2, _),
        ) => {
            lemma_mangled_expr(*a1, *a2, chain, *b1, *b2);
        },
        (
            MirExpression::Call(_, xs1),
            MirExpression::Call(_, xs2),
            MirExpression::Call(_, ys1),
            MirExpression::Call(_, ys2),
        ) => {
            lemma_mangled_exprs(xs1@, xs2@, chain, ys1@, ys2@);
        },
        (
            MirExpression::Index(a1, i1),
            MirExpression::Index(a2, i2),
            MirExpression::Index(b1, j1),
            MirExpression::Index(b2, j2),
        ) => {
            lemma_mangled_expr(*a1, *a2, chain, *b1, *b2);
            lemma_mangled_expr(*i1, *i2, chain, *j1, *j2);
        },
        (
            MirExpression::UnaryOp(_, a1),
            MirExpression::UnaryOp(_, a2),
            MirExpression::UnaryOp(_, b1),
            MirExpression::UnaryOp(_, b2),
        ) => {
            lemma_mangled_expr(*a1, *a2, chain, *b1, *b2);
        },
        (
            MirExpression::BinaryOp(a1, _, c1),
            MirExpression::BinaryOp(a2, _, c2),
            MirExpression::BinaryOp(b1, _, d1),
            MirExpression::BinaryOp(b2, _, d2),
        ) => {
            lemma_mangled_expr(*a1, *a2, chain, *b1, *b2);
            lemma_mangled_expr(*c1, *c2, chain, *d1, *d2);
        },
        _ => {},
    }
}

proof fn lemma_mangled_exprs(
    in1: Seq<MirExpression<AbsolutePath>>,
    in2: Seq<MirExpression<AbsolutePath>>,
    chain: Seq<MangleFrame>,
    out1: Seq<MirExpression<MangledVar>>,
    out2: Seq<MirExpression<MangledVar>>,
)
    requires
        same_exprs(in1, in2),
        mangled_exprs(in1, chain, out1),
        mangled_exprs(in2, chain, out2),
    ensures
        same_exprs(out1, out2),
    decreases in1,
{
    assert forall|i: int| 0 <= i < out1.len() implies same_expr(#[trigger] out1[i], out2[i]) by {
        lemma_mangled_expr(in1[i], in2[i], chain, out1[i], out2[i]);
    }
}

proof fn lemma_mangled_value(
    in1: Option<MirExpression<AbsolutePath>>,
    in2: Option<MirExpression<AbsolutePath>>,
    chain: Seq<MangleFrame>,
    out1: Option<MirExpression<MangledVar>>,
    out2: Option<MirExpression<MangledVar>>,
)
    requires
        same_value(in1, in2),
        mangled_value(in1, chain, out1),
        mangled_value(in2, chain, out2),
    ensures
        same_value(out1, out2),
{
    match (in1, in2, out1, out2) {
        (Some(a1), Some(a2), Some(b1), Some(b2)) => {
            lemma_mangled_expr(a1, a2, chain, b1, b2);
        },
        _ => {},
    }
}

proof fn lemma_mangled_decl(
    in1: MirDeclaration<AbsoluteVar, AbsolutePath>,
    in2: MirDeclaration<AbsoluteVar, AbsolutePath>,
    chain: Seq<MangleFrame>,
    out1: MirDeclaration<MangledVar, MangledVar>,
    out2: MirDeclaration<MangledVar, MangledVar>,
)
    requires
        same_decl(in1, in2),
        mangled_decl(in1, chain, out1),
        mangled_decl(in2, chain, out2),
    ensures
        same_decl(out1, out2),
{
    lemma_mangled_type(in1.ty, in2.ty, chain, out1.ty, out2.ty);
    lemma_mangled_value(in1.value, in2.value, chain, out1.value, out2.value);
}

proof fn lemma_mangled_args(
    in1: Seq<(AbsoluteVar, MirType<AbsolutePath>)>,
    in2: Seq<(AbsoluteVar, MirType<AbsolutePath>)>,
    chain: Seq<MangleFrame>,
    out1: Seq<(MangledVar, MirType<MangledVar>)>,
    out2: Seq<(MangledVar, MirType<MangledVar>)>,
)
    requires
        same_args(in1, in2),
        mangled_args(in1, chain, out1),
        mangled_args(in2, chain, out2),
    ensures
        same_args(out1, out2),
{
    assert forall|i: int| 0 <= i < out1.len() implies (#[trigger] out1[i]).0@ == out2[i].0@
        && same_type(out1[i].1, out2[i].1) by {
        let a1 = in1[i];
        let a2 = in2[i];
        lemma_frames_before_arg(in1, in2, i, chain);
        lemma_mangled_type(a1.1, a2.1, frames_before_arg(in1, i, chain), out1[i].1, out2[i].1);
    }
}

proof fn lemma_mangled_function(
    in1: MirFunction<AbsoluteVar, AbsolutePath>,
    in2: MirFunction<AbsoluteVar, AbsolutePath>,
    chain: Seq<MangleFrame>,
    out1: MirFunction<MangledVar, MangledVar>,
    out2: MirFunction<MangledVar, MangledVar>,
)
    requires
        same_stmt(MirStatement::Function(in1), MirStatement::Function(in2)),
        mangled_function(in1, chain, out1),
        mangled_function(in2, chain, out2),
    ensures
        same_stmt(MirStatement::Function(out1), MirStatement::Function(out2)),
    decreases in1,
{
    let outer = with_binding(chain, in1.name@);
    let inner = named_child(outer, in1.name@);
    lemma_mangled_args(in1.args@, in2.args@, inner, out1.args@, out2.args@);
    lemma_mangled_type(in1.return_type, in2.return_type, outer, out1.return_type, out2.return_type);
    lemma_frames_before_arg(in1.args@, in2.args@, in1.args@.len() as int, inner);
    lemma_mangled_block(
        in1.block@,
        in2.block@,
        frames_before_arg(in1.args@, in1.args@.len() as int, inner),
        out1.block@,
        out2.block@,
    );
}

proof fn lemma_mangled_for(
    in1: MirFor<AbsoluteVar, AbsolutePath>,
    in2: MirFor<AbsoluteVar, AbsolutePath>,
    chain: Seq<MangleFrame>,
    out1: MirFor<MangledVar, MangledVar>,
    out2: MirFor<MangledVar, MangledVar>,
)
    requires
        same_stmt(MirStatement::For(Box::new(in1)), MirStatement::For(Box::new(in2))),
        mangled_for(in1, chain, out1),
        mangled_for(in2, chain, out2),
    ensures
        same_stmt(MirStatement::For(Box::new(out1)), MirStatement::For(Box::new(out2))),
    decreases in1,
{
    let start = anonymous_child(chain);
    let looped = with_binding(start, in1.init.name@);
    lemma_mangled_decl(in1.init, in2.init, start, out1.init, out2.init);
    lemma_mangled_expr(in1.condition, in2.condition, looped, out1.condition, out2.condition);
    lemma_mangled_stmt(in1.update, in2.update, looped, out1.update, out2.update);
    lemma_frames_after_stmt(in1.update, in2.update, looped);
    lemma_mangled_block(
        in1.block@,
        in2.block@,
        frames_after_stmt(in1.update, looped),
        out1.block@,
        out2.block@,
    );
}

proof fn lemma_mangled_stmt(
    in1: MirStatement<AbsoluteVar, AbsolutePath>,
    in2: MirStatement<AbsoluteVar, AbsolutePath>,
    chain: Seq<MangleFrame>,
    out1: MirStatement<MangledVar, MangledVar>,
    out2: MirStatement<MangledVar, MangledVar>,
)
    requires
        same_stmt(in1, in2),
        mangled_stmt(in1, chain, out1),
        mangled_stmt(in2, chain, out2),
    ensures
        same_stmt(out1, out2),
    decreases in1,
{
    match (in1, in2, out1, out2) {
        (
            MirStatement::Block(a1),
            MirStatement::Block(a2),
            MirStatement::Block(b1),
            MirStatement::Block(b2),
        ) => {
            lemma_mangled_block(a1@, a2@, anonymous_child(chain), b1@, b2@);
        },
        (
            MirStatement::Unsafe(a1),
            MirStatement::Unsafe(a2),
            MirStatement::Unsafe(b1),
            MirStatement::Unsafe(b2),
        ) => {
            lemma_mangled_block(a1@, a2@, anonymous_child(chain), b1@, b2@);
        },
        (
            MirStatement::Expression(a1),
            MirStatement::Expression(a2),
            MirStatement::Expression(b1),
            MirStatement::Expression(b2),
        ) => {
            lemma_mangled_expr(a1, a2, chain, b1, b2);
        },
        (
            MirStatement::Return(a1),
            MirStatement::Return(a2),
            MirStatement::Return(b1),
            MirStatement::Return(b2),
        ) => {
            lemma_mangled_expr(a1, a2, chain, b1, b2);
        },
        (
            MirStatement::Assignment(a1),
            MirStatement::Assignment(a2),
            MirStatement::Assignment(b1),
            MirStatement::Assignment(b2),
        ) => {
            lemma_mangled_expr(a1.value, a2.value, chain, b1.value, b2.value);
        },
        (
            MirStatement::Declaration(a1),
            MirStatement::Declaration(a2),
            MirStatement::Declaration(b1),
            MirStatement::Declaration(b2),
        ) => {
            lemma_mangled_decl(a1, a2, chain, b1, b2);
        },
        (
            MirStatement::Function(a1),
            MirStatement::Function(a2),
            MirStatement::Function(b1),
            MirStatement::Function(b2),
        ) => {
            lemma_mangled_function(a1, a2, chain, b1, b2);
        },
        (MirStatement::If(a1), MirStatement::If(a2), MirStatement::If(b1), MirStatement::If(b2)) => {
            lemma_mangled_if(a1, a2, chain, b1, b2);
        },
        (
            MirStatement::While(a1),
            MirStatement::While(a2),
            MirStatement::While(b1),
            MirStatement::While(b2),
        ) => {
            lemma_mangled_expr(a1.condition, a2.condition, chain, b1.condition, b2.condition);
            lemma_mangled_block(a1.block@, a2.block@, anonymous_child(chain), b1.block@, b2.block@);
        },
        (
            MirStatement::For(a1),
            MirStatement::For(a2),
            MirStatement::For(b1),
            MirStatement::For(b2),
        ) => {
            lemma_mangled_for(*a1, *a2, chain, *b1, *b2);
        },
        _ => {},
    }
}

proof fn lemma_mangled_else(
    in1: MirElseBlock<AbsoluteVar, AbsolutePath>,
    in2: MirElseBlock<AbsoluteVar, AbsolutePath>,
    chain: Seq<MangleFrame>,
    out1: MirElseBlock<MangledVar, MangledVar>,
    out2: MirElseBlock<MangledVar, MangledVar>,
)
    requires
        same_else(in1, in2),
        mangled_else(in1, chain, out1),
        mangled_else(in2, chain, out2),
    ensures
        same_else(out1, out2),
    decreases in1,
{
    match (in1, in2, out1, out2) {
        (
            MirElseBlock::ElseIf(a1),
            MirElseBlock::ElseIf(a2),
            MirElseBlock::ElseIf(b1),
            MirElseBlock::ElseIf(b2),
        ) => {
            lemma_mangled_if(*a1, *a2, chain, *b1, *b2);
        },
        (
            MirElseBlock::Else(a1),
            MirElseBlock::Else(a2),
            MirElseBlock::Else(b1),
            MirElseBlock::Else(b2),
        ) => {
            lemma_mangled_block(a1@, a2@, anonymous_child(chain), b1@, b2@);
        },
        _ => {},
    }
}

proof fn lemma_mangled_if(
    in1: MirIf<AbsoluteVar, AbsolutePath>,
    in2: MirIf<AbsoluteVar, AbsolutePath>,
    chain: Seq<MangleFrame>,
    out1: MirIf<MangledVar, MangledVar>,
    out2: MirIf<MangledVar, MangledVar>,
)
    requires
        same_if(in1, in2),
        mangled_if(in1, chain, out1),
        mangled_if(in2, chain, out2),
    ensures
        same_if(out1, out2),
    decreases in1,
{
    lemma_mangled_expr(in1.condition, in2.condition, chain, out1.condition, out2.condition);
    lemma_mangled_block(in1.block@, in2.block@, anonymous_child(chain), out1.block@, out2.block@);
    match (in1.else_block, in2.else_block, out1.else_block, out2.else_block) {
        (Some(a1), Some(a2), Some(b1), Some(b2)) => {
            lemma_mangled_else(a1, a2, bumped(chain), b1, b2);
        },
        _ => {},
    }
}

/// Mangling has one result: two trees that are the mangling, in the same
/// scopes, of two statement lists that are the same are the same tree.
pub proof fn lemma_mangled_block(
    in1: Seq<MirStatement<AbsoluteVar, AbsolutePath>>,
    in2: Seq<MirStatement<AbsoluteVar, AbsolutePath>>,
    chain: Seq<MangleFrame>,
    out1: Seq<MirStatement<MangledVar, MangledVar>>,
    out2: Seq<MirStatement<MangledVar, MangledVar>>,
)
    requires
        same_block(in1, in2),
        mangled_block(in1, chain, out1),
        mangled_block(in2, chain, out2),
    ensures
        same_block(out1, out2),
    decreases in1,
{
    assert forall|i: int| 0 <= i < out1.len() implies same_stmt(#[trigger] out1[i], out2[i]) by {
        lemma_frames_before(in1, in2, i, chain);
        lemma_mangled_stmt(in1[i], in2[i], frames_before(in1, i, chain), out1[i], out2[i]);
    }
}

/// Determinism. Resolving a program and mangling the result under a package
/// name can give one tree only: whenever the same program is compiled under
/// the same package name, every name slot and every variable slot of the
/// result holds the same identifier, and everything else in the tree is the
/// same too.
pub proof fn lemma_determinism(
    package: Seq<char>,
    program: Seq<MirStatement<XID, RelativePath>>,
    resolved1: Seq<MirStatement<AbsoluteVar, AbsolutePath>>,
    resolved2: Seq<MirStatement<AbsoluteVar, AbsolutePath>>,
    mangled1: Seq<MirStatement<MangledVar, MangledVar>>,
    mangled2: Seq<MirStatement<MangledVar, MangledVar>>,
)
    requires
        resolved_block(program, seq![empty_frame()], resolved1),
        resolved_block(program, seq![empty_frame()], resolved2),
        mangled_block(resolved1, seq![fresh_frame(root_salt(package))], mangled1),
        mangled_block(resolved2, seq![fresh_frame(root_salt(package))], mangled2),
    ensures
        same_block(resolved1, resolved2),
        same_block(mangled1, mangled2),
{
    lemma_resolved_block(program, seq![empty_frame()], resolved1, resolved2);
    lemma_mangled_block(
        resolved1,
        resolved2,
        seq![fresh_frame(root_salt(package))],
        mangled1,
        mangled2,
    );
}

proof fn lemma_resolved_expr_shape(
    input: MirExpression<RelativePath>,
    chain: Seq<ResolveFrame>,
    out: MirExpression<AbsolutePath>,
)
    requires
        resolved_expr(input, chain, out),
    ensures
        same_shape_expr(input, out),
    decreases input,
{
    match (input, out) {
        (MirExpression::Property(a, _), MirExpression::Property(b, _)) => {
            lemma_resolved_expr_shape(*a, chain, *b);
        },
        (MirExpression::Call(_, xs), MirExpression::Call(_, ys)) => {
            assert(resolved_exprs(xs@, chain, ys@));
            assert forall|i: int| 0 <= i < xs@.len() implies same_shape_expr(
                #[trigger] xs@[i],
                ys@[i],
            ) by {
                lemma_resolved_expr_shape(xs@[i], chain, ys@[i]);
            }
        },
        (MirExpression::Index(a, i), MirExpression::Index(b, j)) => {
            lemma_resolved_expr_shape(*a, chain, *b);
            lemma_resolved_expr_shape(*i, chain, *j);
        },
        (MirExpression::UnaryOp(_, a), MirExpression::UnaryOp(_, b)) => {
            lemma_resolved_expr_shape(*a, chain, *b);
        },
        (MirExpression::BinaryOp(a, _, c), MirExpression::BinaryOp(b, _, d)) => {
            lemma_resolved_expr_shape(*a, chain, *b);
            lemma_resolved_expr_shape(*c, chain, *d);
        },
        _ => {},
    }
}

proof fn lemma_resolved_decl_shape(
    input: MirDeclaration<XID, RelativePath>,
    chain: Seq<ResolveFrame>,
    out: MirDeclaration<AbsoluteVar, AbsolutePath>,
)
    requires
        resolved_decl(input, chain, out),
    ensures
        same_shape_decl(input, out),
{
    match (input.value, out.value) {
        (Some(a), Some(b)) => {
            lemma_resolved_expr_shape(a, chain, b);
        },
        _ => {},
    }
}

proof fn lemma_resolved_function_shape(
    input: MirFunction<XID, RelativePath>,
    chain: Seq<ResolveFrame>,
    out: MirFunction<AbsoluteVar, AbsolutePath>,
)
    requires
        resolved_function(input, chain, out),
    ensures
        same_shape_stmt(MirStatement::Function(input), MirStatement::Function(out)),
    decreases input,
{
    let outer = with_declared(chain, input.name@);
    let inner = outer.push(empty_frame());
    assert forall|i: int| 0 <= i < input.args@.len() implies same_shape_type(
        (#[trigger] input.args@[i]).1,
        out.args@[i].1,
    ) by {}
    lemma_resolved_block_shape(
        input.block@,
        scope_before_arg(input.args@, input.args@.len() as int, inner),
        out.block@,
    );
}

proof fn lemma_resolved_for_shape(
    input: MirFor<XID, RelativePath>,
    chain: Seq<ResolveFrame>,
    out: MirFor<AbsoluteVar, AbsolutePath>,
)
    requires
        resolved_for(input, chain, out),
    ensures
        same_shape_stmt(MirStatement::For(Box::new(input)), MirStatement::For(Box::new(out))),
    decreases input,
{
    let start = chain.push(empty_frame());
    let looped = with_declared(start, input.init.name@);
    lemma_resolved_decl_shape(input.init, start, out.init);
    lemma_resolved_expr_shape(input.condition, looped, out.condition);
    lemma_resolved_stmt_shape(input.update, looped, out.update);
    lemma_resolved_block_shape(input.block@, scope_after_stmt(input.update, looped), out.block@);
}

proof fn lemma_resolved_stmt_shape(
    input: MirStatement<XID, RelativePath>,
    chain: Seq<ResolveFrame>,
    out: MirStatement<AbsoluteVar, AbsolutePath>,
)
    requires
        resolved_stmt(input, chain, out),
    ensures
        same_shape_stmt(input, out),
    decreases input,
{
    match (input, out) {
        (MirStatement::Block(a), MirStatement::Block(b)) => {
            lemma_resolved_block_shape(a@, chain.push(empty_frame()), b@);
        },
        (MirStatement::Unsafe(a), MirStatement::Unsafe(b)) => {
            lemma_resolved_block_shape(a@, chain.push(empty_frame()), b@);
        },
        (MirStatement::Expression(a), MirStatement::Expression(b)) => {
            lemma_resolved_expr_shape(a, chain, b);
        },
        (MirStatement::Return(a), MirStatement::Return(b)) => {
            lemma_resolved_expr_shape(a, chain, b);
        },
        (MirStatement::Assignment(a), MirStatement::Assignment(b)) => {
            lemma_resolved_expr_shape(a.value, chain, b.value);
        },
        (MirStatement::Declaration(a), MirStatement::Declaration(b)) => {
            lemma_resolved_decl_shape(a, chain, b);
        },
        (MirStatement::Function(a), MirStatement::Function(b)) => {
            lemma_resolved_function_shape(a, chain, b);
        },
        (MirStatement::If(a), MirStatement::If(b)) => {
            lemma_resolved_if_shape(a, chain, b);
        },
        (MirStatement::While(a), MirStatement::While(b)) => {
            lemma_resolved_expr_shape(a.condition, chain, b.condition);
            lemma_resolved_block_shape(a.block@, chain.push(empty_frame()), b.block@);
        },
        (MirStatement::For(a), MirStatement::For(b)) => {
            lemma_resolved_for_shape(*a, chain, *b);
        },
        _ => {},
    }
}

proof fn lemma_resolved_else_shape(
    input: MirElseBlock<XID, RelativePath>,
    chain: Seq<ResolveFrame>,
    out: MirElseBlock<AbsoluteVar, AbsolutePath>,
)
    requires
        resolved_else(input, chain, out),
    ensures
        same_shape_else(input, out),
    decreases input,
{
    match (input, out) {
        (MirElseBlock::ElseIf(a), MirElseBlock::ElseIf(b)) => {
            lemma_resolved_if_shape(*a, chain, *b);
        },
        (MirElseBlock::Else(a), MirElseBlock::Else(b)) => {
            lemma_resolved_block_shape(a@, chain.push(empty_frame()), b@);
        },
        _ => {},
    }
}

proof fn lemma_resolved_if_shape(
    input: MirIf<XID, RelativePath>,
    chain: Seq<ResolveFrame>,
    out: MirIf<AbsoluteVar, AbsolutePath>,
)
    requires
        resolved_if(input, chain, out),
    ensures
        same_shape_if(input, out),
    decreases input,
{
    lemma_resolved_expr_shape(input.condition, chain, out.condition);
    lemma_resolved_block_shape(input.block@, chain.push(empty_frame()), out.block@);
    match (input.else_block, out.else_block) {
        (Some(a), Some(b)) => {
            lemma_resolved_else_shape(a, chain, b);
        },
        _ => {},
    }
}

/// Resolution keeps the shape: a tree that is the resolution of statements has
/// the shape of those statements.
pub proof fn lemma_resolved_block_shape(
    input: Seq<MirStatement<XID, RelativePath>>,
    chain: Seq<ResolveFrame>,
    out: Seq<MirStatement<AbsoluteVar, AbsolutePath>>,
)
    requires
        resolved_block(input, chain, out),
    ensures
        same_shape_block(input, out),
    decreases input,
{
    assert forall|i: int| 0 <= i < input.len() implies same_shape_stmt(#[trigger] input[i], out[i]) by {
        lemma_resolved_stmt_shape(input[i], scope_before(input, i, chain), out[i]);
    }
}

proof fn lemma_mangled_expr_shape(
    input: MirExpression<AbsolutePath>,
    chain: Seq<MangleFrame>,
    out: MirExpression<MangledVar>,
)
    requires
        mangled_expr(input, chain, out),
    ensures
        same_shape_expr(input, out),
    decreases input,
{
    match (input, out) {
        (MirExpression::Property(a, _), MirExpression::Property(b, _)) => {
            lemma_mangled_expr_shape(*a, chain, *b);
        },
        (MirExpression::Call(_, xs), MirExpression::Call(_, ys)) => {
            assert(mangled_exprs(xs@, chain, ys@));
            assert forall|i: int| 0 <= i < xs@.len() implies same_shape_expr(
                #[trigger] xs@[i],
                ys@[i],
            ) by {
                lemma_mangled_expr_shape(xs@[i], chain, ys@[i]);
            }
        },
        (MirExpression::Index(a, i), MirExpression::Index(b, j)) => {
            lemma_mangled_expr_shape(*a, chain, *b);
            lemma_mangled_expr_shape(*i, chain, *j);
        },
        (MirExpression::UnaryOp(_, a), MirExpression::UnaryOp(_, b)) => {
            lemma_mangled_expr_shape(*a, chain, *b);
        },
        (MirExpression::BinaryOp(a, _, c), MirExpression::BinaryOp(b, _, d)) => {
            lemma_mangled_expr_shape(*a, chain, *b);
            lemma_mangled_expr_shape(*c, chain, *d);
        },
        _ => {},
    }
}

proof fn lemma_mangled_decl_shape(
    input: MirDeclaration<AbsoluteVar, AbsolutePath>,
    chain: Seq<MangleFrame>,
    out: MirDeclaration<MangledVar, MangledVar>,
)
    requires
        mangled_decl(input, chain, out),
    ensures
        same_shape_decl(input, out),
{
    match (input.value, out.value) {
        (Some(a), Some(b)) => {
            lemma_mangled_expr_shape(a, chain, b);
        },
        _ => {},
    }
}

proof fn lemma_mangled_function_shape(
    input: MirFunction<AbsoluteVar, AbsolutePath>,
    chain: Seq<MangleFrame>,
    out: MirFunction<MangledVar, MangledVar>,
)
    requires
        mangled_function(input, chain, out),
    ensures
        same_shape_stmt(MirStatement::Function(input), MirStatement::Function(out)),
    decreases input,
{
    let outer = with_binding(chain, input.name@);
    let inner = named_child(outer, input.name@);
    assert forall|i: int| 0 <= i < input.args@.len() implies same_shape_type(
        (#[trigger] input.args@[i]).1,
        out.args@[i].1,
    ) by {}
    lemma_mangled_block_shape(
        input.block@,
        frames_before_arg(input.args@, input.args@.len() as int, inner),
        out.block@,
    );
}

proof fn lemma_mangled_for_shape(
    input: MirFor<AbsoluteVar, AbsolutePath>,
    chain: Seq<MangleFrame>,
    out: MirFor<MangledVar, MangledVar>,
)
    requires
        mangled_for(input, chain, out),
    ensures
        same_shape_stmt(MirStatement::For(Box::new(input)), MirStatement::For(Box::new(out))),
    decreases input,
{
    let start = anonymous_child(chain);
    let looped = with_binding(start, input.init.name@);
    lemma_mangled_decl_shape(input.init, start, out.init);
    lemma_mangled_expr_shape(input.condition, looped, out.condition);
    lemma_mangled_stmt_shape(input.update, looped, out.update);
    lemma_mangled_block_shape(input.block@, frames_after_stmt(input.update, looped), out.block@);
}

proof fn lemma_mangled_stmt_shape(
    input: MirStatement<AbsoluteVar, AbsolutePath>,
    chain: Seq<MangleFrame>,
    out: MirStatement<MangledVar, MangledVar>,
)
    requires
        mangled_stmt(input, chain, out),
    ensures
        same_shape_stmt(input, out),
    decreases input,
{
    match (input, out) {
        (MirStatement::Block(a), MirStatement::Block(b)) => {
            lemma_mangled_block_shape(a@, anonymous_child(chain), b@);
        },
        (MirStatement::Unsafe(a), MirStatement::Unsafe(b)) => {
            lemma_mangled_block_shape(a@, anonymous_child(chain), b@);
        },
        (MirStatement::Expression(a), MirStatement::Expression(b)) => {
            lemma_mangled_expr_shape(a, chain, b);
        },
        (MirStatement::Return(a), MirStatement::Return(b)) => {
            lemma_mangled_expr_shape(a, chain, b);
        },
        (MirStatement::Assignment(a), MirStatement::Assignment(b)) => {
            lemma_mangled_expr_shape(a.value, chain, b.value);
        },
        (MirStatement::Declaration(a), MirStatement::Declaration(b)) => {
            lemma_mangled_decl_shape(a, chain, b);
        },
        (MirStatement::Function(a), MirStatement::Function(b)) => {
            lemma_mangled_function_shape(a, chain, b);
        },
        (MirStatement::If(a), MirStatement::If(b)) => {
            lemma_mangled_if_shape(a, chain, b);
        },
        (MirStatement::While(a), MirStatement::While(b)) => {
            lemma_mangled_expr_shape(a.condition, chain, b.condition);
            lemma_mangled_block_shape(a.block@, anonymous_child(chain), b.block@);
        },
        (MirStatement::For(a), MirStatement::For(b)) => {
            lemma_mangled_for_shape(*a, chain, *b);
        },
        _ => {},
    }
}

proof fn lemma_mangled_else_shape(
    input: MirElseBlock<AbsoluteVar, AbsolutePath>,
    chain: Seq<MangleFrame>,
    out: MirElseBlock<MangledVar, MangledVar>,
)
    requires
        mangled_else(input, chain, out),
    ensures
        same_shape_else(input, out),
    decreases input,
{
    match (input, out) {
        (MirElseBlock::ElseIf(a), MirElseBlock::ElseIf(b)) => {
            lemma_mangled_if_shape(*a, chain, *b);
        },
        (MirElseBlock::Else(a), MirElseBlock::Else(b)) => {
            lemma_mangled_block_shape(a@, anonymous_child(chain), b@);
        },
        _ => {},
    }
}

proof fn lemma_mangled_if_shape(
    input: MirIf<AbsoluteVar, AbsolutePath>,
    chain: Seq<MangleFrame>,
    out: MirIf<MangledVar, MangledVar>,
)
    requires
        mangled_if(input, chain, out),
    ensures
        same_shape_if(input, out),
    decreases input,
{
    lemma_mangled_expr_shape(input.condition, chain, out.condition);
    lemma_mangled_block_shape(input.block@, anonymous_child(chain), out.block@);
    match (input.else_block, out.else_block) {
        (Some(a), Some(b)) => {
            lemma_mangled_else_shape(a, bumped(chain), b);
        },
        _ => {},
    }
}

/// Mangling keeps the shape: a tree that is the mangling of statements has the
/// shape of those statements.
pub proof fn lemma_mangled_block_shape(
    input: Seq<MirStatement<AbsoluteVar, AbsolutePath>>,
    chain: Seq<MangleFrame>,
    out: Seq<MirStatement<MangledVar, MangledVar>>,
)
    requires
        mangled_block(input, chain, out),
    ensures
        same_shape_block(input, out),
    decreases input,
{
    assert forall|i: int| 0 <= i < input.len() implies same_shape_stmt(#[trigger] input[i], out[i]) by {
        lemma_mangled_stmt_shape(input[i], frames_before(input, i, chain), out[i]);
    }
}

/// Shape preservation. The tree that resolving and then mangling a program
/// gives has the shape of the program: the same kind of node at every place,
/// the same number of children in the same order, and the same flags,
/// literals, operators and property names. Only what stands in the name
/// slots and the variable slots differs.
pub proof fn lemma_shape_preservation(
    package: Seq<char>,
    program: Seq<MirStatement<XID, RelativePath>>,
    resolved: Seq<MirStatement<AbsoluteVar, AbsolutePath>>,
    mangled: Seq<MirStatement<MangledVar, MangledVar>>,
)
    requires
        resolved_block(program, seq![empty_frame()], resolved),
        mangled_block(resolved, seq![fresh_frame(root_salt(package))], mangled),
    ensures
        same_shape_block(program, resolved),
        same_shape_block(resolved, mangled),
        same_shape_block(program, mangled),
{
    lemma_resolved_block_shape(program, seq![empty_frame()], resolved);
    lemma_mangled_block_shape(resolved, seq![fresh_frame(root_salt(package))], mangled);
    lemma_shape_block_trans(program, resolved, mangled);
}

} // verus!
