//! Name resolution: every path as written becomes a fully qualified path.
//!
//! The pass walks the tree in the order the program was written and keeps a
//! chain of lexical scopes. Each scope has two tables: the names declared in
//! it and the imports made in it.
use crate::mir::tree::{
    same_shape_args, same_shape_block, same_shape_decl, same_shape_else, same_shape_expr,
    same_shape_if, same_shape_stmt, same_shape_type, MirAssignment, MirDeclaration, MirElseBlock,
    MirExpression, MirFor, MirFunction, MirIf, MirStatement, MirType, MirWhile, RelativePath,
};
use crate::token::ident::XID;
use vstd::prelude::*;

verus! {

/// A resolved identifier: one segment of a fully qualified path.
#[derive(Debug, PartialEq, Eq, Hash)]
pub struct AbsoluteVar(XID);

impl View for AbsoluteVar {
    type V = Seq<char>;

    closed spec fn view(&self) -> Seq<char> {
        self.0@
    }
}

impl AbsoluteVar {
    /// The resolved form of a declared name: the name itself.
    pub fn new(xid: XID) -> (var: AbsoluteVar)
        ensures
            var@ == xid@,
    {
        AbsoluteVar(xid)
    }

    /// The text of the identifier.
    pub fn inner(&self) -> (text: &str)
        ensures
            text@ == self@,
    {
        self.0.inner()
    }

    /// Whether the two names have the same text.
    pub fn same(&self, other: &AbsoluteVar) -> (yes: bool)
        ensures
            yes == (self@ == other@),
    {
        self.0.same(&other.0)
    }
}

impl Clone for AbsoluteVar {
    fn clone(&self) -> (copy: Self)
        ensures
            copy == *self,
    {
        AbsoluteVar(self.0.clone())
    }
}

/// A fully qualified path: one resolved identifier or more, from the
/// compilation root.
#[derive(Debug, PartialEq, Eq)]
pub struct AbsolutePath(Vec<AbsoluteVar>);

impl View for AbsolutePath {
    type V = Seq<Seq<char>>;

    closed spec fn view(&self) -> Seq<Seq<char>> {
        self.0@.map_values(|segment: AbsoluteVar| segment@)
    }
}

impl AbsolutePath {
    #[verifier::type_invariant]
    closed spec fn wf(self) -> bool {
        self.0@.len() > 0
    }

    /// The path made of `segments`; `None` exactly when there are none.
    pub fn new(segments: Vec<AbsoluteVar>) -> (path: Option<AbsolutePath>)
        ensures
            path is Some <==> segments@.len() > 0,
            path is Some ==> path->0@ == segments@.map_values(|segment: AbsoluteVar| segment@),
    {
        if segments.len() == 0 {
            None
        } else {
            Some(AbsolutePath(segments))
        }
    }

    /// The segments of the path.
    pub fn inner(&self) -> (segments: &[AbsoluteVar])
        ensures
            segments@.len() > 0,
            segments@.map_values(|segment: AbsoluteVar| segment@) == self@,
    {
        proof {
            use_type_invariant(self);
        }
        self.0.as_slice()
    }

    /// How many segments the path has.
    pub fn len(&self) -> (n: usize)
        ensures
            n == self@.len(),
            n > 0,
    {
        proof {
            use_type_invariant(self);
        }
        self.0.len()
    }

    /// Segment number `i`, counted from 0.
    pub fn segment(&self, i: usize) -> (name: &AbsoluteVar)
        requires
            i < self@.len(),
        ensures
            name@ == self@[i as int],
    {
        &self.0[i]
    }
}

impl Clone for AbsolutePath {
    fn clone(&self) -> (copy: Self)
        ensures
            copy@ == self@,
    {
        proof {
            use_type_invariant(self);
        }
        let mut segments: Vec<AbsoluteVar> = Vec::new();
        let mut i: usize = 0;
        while i < self.0.len()
            invariant
                i <= self.0.len(),
                segments@.len() == i,
                forall|j: int| 0 <= j < i ==> segments@[j] == self.0@[j],
            decreases self.0.len() - i,
        {
            segments.push(self.0[i].clone());
            i = i + 1;
        }
        let copy = AbsolutePath(segments);
        proof {
            assert(copy@ =~= self@);
        }
        copy
    }
}

/// One lexical scope of the resolver: the names declared in it, and its
/// imports, each from the name it is known by to the path it stands for.
pub struct ResolveFrame {
    pub declared: Set<Seq<char>>,
    pub imports: Map<Seq<char>, Seq<Seq<char>>>,
}

/// A scope in which nothing is declared or imported yet.
pub open spec fn empty_frame() -> ResolveFrame {
    ResolveFrame { declared: Set::empty(), imports: Map::empty() }
}

/// What `path` resolves to in the innermost scope of `chain`, which lists the
/// scopes from the root to the innermost. Only the first segment is looked
/// up, from the innermost scope outwards, in each scope among the declared
/// names first and the imports second. A declared name stands for itself; an
/// import is replaced by its target. The remaining segments are copied. A
/// first segment that no scope knows leaves the path as it is.
pub open spec fn resolve_path(chain: Seq<ResolveFrame>, path: Seq<Seq<char>>) -> Seq<Seq<char>>
    decreases chain.len(),
{
    if chain.len() == 0 || path.len() == 0 {
        path
    } else if chain.last().declared.contains(path.first()) {
        path
    } else if chain.last().imports.contains_key(path.first()) {
        chain.last().imports[path.first()] + path.skip(1)
    } else {
        resolve_path(chain.drop_last(), path)
    }
}

/// `chain` after `name` is declared in its innermost scope.
pub open spec fn with_declared(chain: Seq<ResolveFrame>, name: Seq<char>) -> Seq<ResolveFrame> {
    if chain.len() == 0 {
        chain
    } else {
        chain.drop_last().push(
            ResolveFrame {
                declared: chain.last().declared.insert(name),
                imports: chain.last().imports,
            },
        )
    }
}

/// `chain` after `key` is imported as `target` in its innermost scope.
pub open spec fn with_import(
    chain: Seq<ResolveFrame>,
    key: Seq<char>,
    target: Seq<Seq<char>>,
) -> Seq<ResolveFrame> {
    if chain.len() == 0 {
        chain
    } else {
        chain.drop_last().push(
            ResolveFrame {
                declared: chain.last().declared,
                imports: chain.last().imports.insert(key, target),
            },
        )
    }
}

/// The scopes as they are after `stmt`: an import, a declaration and a
/// function add to the innermost scope; no other statement leaves a trace.
pub open spec fn scope_after_stmt(
    stmt: MirStatement<XID, RelativePath>,
    chain: Seq<ResolveFrame>,
) -> Seq<ResolveFrame> {
    match stmt {
        MirStatement::Import(path) => with_import(chain, path@.last(), resolve_path(chain, path@)),
        MirStatement::Declaration(decl) => with_declared(chain, decl.name@),
        MirStatement::Function(func) => with_declared(chain, func.name@),
        _ => chain,
    }
}

/// The scopes as they are before statement number `n` of `stmts`, when they
/// were `chain` before the first.
pub open spec fn scope_before(
    stmts: Seq<MirStatement<XID, RelativePath>>,
    n: int,
    chain: Seq<ResolveFrame>,
) -> Seq<ResolveFrame>
    decreases n,
{
    if n <= 0 {
        chain
    } else {
        scope_after_stmt(stmts[n - 1], scope_before(stmts, n - 1, chain))
    }
}

/// The scopes as they are before parameter number `n` of `args`: the
/// parameters before it are declared.
pub open spec fn scope_before_arg(
    args: Seq<(XID, MirType<RelativePath>)>,
    n: int,
    chain: Seq<ResolveFrame>,
) -> Seq<ResolveFrame>
    decreases n,
{
    if n <= 0 {
        chain
    } else {
        with_declared(scope_before_arg(args, n - 1, chain), args[n - 1].0@)
    }
}

/// `out` is the type `input` resolved in `chain`.
pub open spec fn resolved_type(
    input: MirType<RelativePath>,
    chain: Seq<ResolveFrame>,
    out: MirType<AbsolutePath>,
) -> bool {
    match (input, out) {
        (MirType::Primitive(a), MirType::Primitive(b)) => a == b,
        (MirType::UserDefined(p), MirType::UserDefined(q)) => q@ == resolve_path(chain, p@),
        _ => false,
    }
}

/// `out` is `input` resolved in `chain`: the same expression, with every
/// path replaced by what it resolves to.
pub open spec fn resolved_expr(
    input: MirExpression<RelativePath>,
    chain: Seq<ResolveFrame>,
    out: MirExpression<AbsolutePath>,
) -> bool
    decreases input,
{
    match (input, out) {
        (MirExpression::Literal(a), MirExpression::Literal(b)) => a == b,
        (MirExpression::Variable(p), MirExpression::Variable(q)) => q@ == resolve_path(chain, p@),
        (MirExpression::Property(a, x), MirExpression::Property(b, y)) => x == y && resolved_expr(
            *a,
            chain,
            *b,
        ),
        (MirExpression::Call(p, xs), MirExpression::Call(q, ys)) => {
            &&& q@ == resolve_path(chain, p@)
            &&& resolved_exprs(xs@, chain, ys@)
        },
        (MirExpression::Index(a, i), MirExpression::Index(b, j)) => resolved_expr(*a, chain, *b)
            && resolved_expr(*i, chain, *j),
        (MirExpression::UnaryOp(o, a), MirExpression::UnaryOp(p, b)) => o == p && resolved_expr(
            *a,
            chain,
            *b,
        ),
        (MirExpression::BinaryOp(a1, o, a2), MirExpression::BinaryOp(b1, p, b2)) => o == p
            && resolved_expr(*a1, chain, *b1) && resolved_expr(*a2, chain, *b2),
        _ => false,
    }
}

/// `out` holds the expressions of `input`, each resolved in `chain`.
pub open spec fn resolved_exprs(
    input: Seq<MirExpression<RelativePath>>,
    chain: Seq<ResolveFrame>,
    out: Seq<MirExpression<AbsolutePath>>,
) -> bool
    decreases input,
{
    &&& input.len() == out.len()
    &&& forall|i: int| 0 <= i < input.len() ==> resolved_expr(#[trigger] input[i], chain, out[i])
}

/// `out` is the optional expression `input` resolved in `chain`.
pub open spec fn resolved_value(
    input: Option<MirExpression<RelativePath>>,
    chain: Seq<ResolveFrame>,
    out: Option<MirExpression<AbsolutePath>>,
) -> bool {
    match (input, out) {
        (Some(a), Some(b)) => resolved_expr(a, chain, b),
        (None, None) => true,
        _ => false,
    }
}

/// `out` is the declaration `input` resolved in `chain`. The declared name
/// stands for itself; its type and its initializer are resolved in the scopes
/// as they are before the name is declared.
pub open spec fn resolved_decl(
    input: MirDeclaration<XID, RelativePath>,
    chain: Seq<ResolveFrame>,
    out: MirDeclaration<AbsoluteVar, AbsolutePath>,
) -> bool {
    &&& out.is_static == input.is_static
    &&& out.name@ == input.name@
    &&& resolved_type(input.ty, chain, out.ty)
    &&& resolved_value(input.value, chain, out.value)
}

/// `out` is the parameter list `input` resolved in `chain`: each name stands
/// for itself, and each type is resolved with the parameters before it
/// declared.
pub open spec fn resolved_args(
    input: Seq<(XID, MirType<RelativePath>)>,
    chain: Seq<ResolveFrame>,
    out: Seq<(AbsoluteVar, MirType<AbsolutePath>)>,
) -> bool {
    &&& input.len() == out.len()
    &&& forall|i: int|
        0 <= i < input.len() ==> out[i].0@ == input[i].0@ && resolved_type((#[trigger] input[i]).1,
            scope_before_arg(input, i, chain),
            out[i].1,
        )
}

/// `out` is the assignment `input` resolved in `chain`.
pub open spec fn resolved_assign(
    input: MirAssignment<RelativePath>,
    chain: Seq<ResolveFrame>,
    out: MirAssignment<AbsolutePath>,
) -> bool {
    &&& out.variable@ == resolve_path(chain, input.variable@)
    &&& resolved_expr(input.value, chain, out.value)
}

/// `out` is the function `input` resolved in `chain`. The function's name
/// stands for itself and is declared in the innermost scope of `chain`
/// before anything else of the function is resolved. The parameters and the
/// body share one new scope; the return type is resolved outside it.
pub open spec fn resolved_function(
    input: MirFunction<XID, RelativePath>,
    chain: Seq<ResolveFrame>,
    out: MirFunction<AbsoluteVar, AbsolutePath>,
) -> bool
    decreases input,
{
    let outer = with_declared(chain, input.name@);
    let inner = outer.push(empty_frame());
    &&& out.is_static == input.is_static
    &&& out.name@ == input.name@
    &&& resolved_args(input.args@, inner, out.args@)
    &&& resolved_type(input.return_type, outer, out.return_type)
    &&& resolved_block(
        input.block@,
        scope_before_arg(input.args@, input.args@.len() as int, inner),
        out.block@,
    )
}

/// `out` is the loop `input` resolved in `chain`: the condition in `chain`
/// itself, the body in a new scope.
pub open spec fn resolved_while(
    input: MirWhile<XID, RelativePath>,
    chain: Seq<ResolveFrame>,
    out: MirWhile<AbsoluteVar, AbsolutePath>,
) -> bool
    decreases input,
{
    &&& resolved_expr(input.condition, chain, out.condition)
    &&& resolved_block(input.block@, chain.push(empty_frame()), out.block@)
}

/// `out` is the loop `input` resolved in `chain`: its declaration, its
/// condition, its update and its body share one new scope, in that order.
pub open spec fn resolved_for(
    input: MirFor<XID, RelativePath>,
    chain: Seq<ResolveFrame>,
    out: MirFor<AbsoluteVar, AbsolutePath>,
) -> bool
    decreases input,
{
    let start = chain.push(empty_frame());
    let looped = with_declared(start, input.init.name@);
    &&& resolved_decl(input.init, start, out.init)
    &&& resolved_expr(input.condition, looped, out.condition)
    &&& resolved_stmt(input.update, looped, out.update)
    &&& resolved_block(input.block@, scope_after_stmt(input.update, looped), out.block@)
}

/// `out` is the statement `input` resolved in `chain`.
///
/// A block, a function, each body of a conditional, a loop and an unsafe
/// block get a scope of their own, which is new for each of them.
/// Statements are resolved in the order they are written, each in the scopes
/// as the statements before it left them.
pub open spec fn resolved_stmt(
    input: MirStatement<XID, RelativePath>,
    chain: Seq<ResolveFrame>,
    out: MirStatement<AbsoluteVar, AbsolutePath>,
) -> bool
    decreases input,
{
    match (input, out) {
        (MirStatement::Block(a), MirStatement::Block(b)) => resolved_block(
            a@,
            chain.push(empty_frame()),
            b@,
        ),
        (MirStatement::Unsafe(a), MirStatement::Unsafe(b)) => resolved_block(
            a@,
            chain.push(empty_frame()),
            b@,
        ),
        (MirStatement::Expression(a), MirStatement::Expression(b)) => resolved_expr(a, chain, b),
        (MirStatement::Return(a), MirStatement::Return(b)) => resolved_expr(a, chain, b),
        (MirStatement::Assignment(a), MirStatement::Assignment(b)) => resolved_assign(a, chain, b),
        (MirStatement::Declaration(a), MirStatement::Declaration(b)) => resolved_decl(a, chain, b),
        (MirStatement::Function(a), MirStatement::Function(b)) => resolved_function(a, chain, b),
        (MirStatement::If(a), MirStatement::If(b)) => resolved_if(a, chain, b),
        (MirStatement::While(a), MirStatement::While(b)) => resolved_while(a, chain, b),
        (MirStatement::For(a), MirStatement::For(b)) => resolved_for(*a, chain, *b),
        (MirStatement::Import(p), MirStatement::Import(q)) => q@ == resolve_path(chain, p@),
        _ => false,
    }
}

/// `out` is what follows an `else`, resolved in `chain`.
pub open spec fn resolved_else(
    input: MirElseBlock<XID, RelativePath>,
    chain: Seq<ResolveFrame>,
    out: MirElseBlock<AbsoluteVar, AbsolutePath>,
) -> bool
    decreases input,
{
    match (input, out) {
        (MirElseBlock::ElseIf(a), MirElseBlock::ElseIf(b)) => resolved_if(*a, chain, *b),
        (MirElseBlock::Else(a), MirElseBlock::Else(b)) => resolved_block(
            a@,
            chain.push(empty_frame()),
            b@,
        ),
        _ => false,
    }
}

/// `out` is the conditional `input` resolved in `chain`: the conditions are
/// resolved in `chain` itself, each body in a new scope under it.
pub open spec fn resolved_if(
    input: MirIf<XID, RelativePath>,
    chain: Seq<ResolveFrame>,
    out: MirIf<AbsoluteVar, AbsolutePath>,
) -> bool
    decreases input,
{
    &&& resolved_expr(input.condition, chain, out.condition)
    &&& resolved_block(input.block@, chain.push(empty_frame()), out.block@)
    &&& match (input.else_block, out.else_block) {
        (None, None) => true,
        (Some(a), Some(b)) => resolved_else(a, chain, b),
        _ => false,
    }
}

/// `out` is the statement list `input` resolved from `chain` on: each
/// statement is resolved in the scopes as the statements before it left them.
pub open spec fn resolved_block(
    input: Seq<MirStatement<XID, RelativePath>>,
    chain: Seq<ResolveFrame>,
    out: Seq<MirStatement<AbsoluteVar, AbsolutePath>>,
) -> bool
    decreases input,
{
    &&& input.len() == out.len()
    &&& forall|i: int|
        0 <= i < input.len() ==> resolved_stmt(#[trigger] input[i],
            scope_before(input, i, chain),
            out[i],
        )
}

/// The names that `declared` lists.
pub open spec fn declared_names(declared: Seq<XID>) -> Set<Seq<char>>
    decreases declared.len(),
{
    if declared.len() == 0 {
        Set::empty()
    } else {
        declared_names(declared.drop_last()).insert(declared.last()@)
    }
}

/// The table that `imports` lists; a later entry for a name replaces an
/// earlier one.
pub open spec fn import_table(imports: Seq<(XID, AbsolutePath)>) -> Map<Seq<char>, Seq<Seq<char>>>
    decreases imports.len(),
{
    if imports.len() == 0 {
        Map::empty()
    } else {
        import_table(imports.drop_last()).insert(imports.last().0@, imports.last().1@)
    }
}

/// A lexical scope of the resolver. It refers to the scope around it, which
/// it only reads, and owns its two tables.
pub struct AbsoluteScope<'a> {
    parent: Option<&'a AbsoluteScope<'a>>,
    declared: Vec<XID>,
    imports: Vec<(XID, AbsolutePath)>,
}

impl<'a> View for AbsoluteScope<'a> {
    type V = Seq<ResolveFrame>;

    /// The scopes from the root to this one.
    closed spec fn view(&self) -> Seq<ResolveFrame> {
        self.chain()
    }
}

/// The path with the same segments as `path`.
fn promote(path: &RelativePath) -> (out: AbsolutePath)
    ensures
        out@ == path@,
{
    let n: usize = path.len();
    let mut segments: Vec<AbsoluteVar> = Vec::new();
    let mut i: usize = 0;
    while i < n
        invariant
            i <= n,
            n == path@.len(),
            segments@.len() == i,
            forall|j: int| 0 <= j < i ==> segments@[j]@ == path@[j],
        decreases n - i,
    {
        segments.push(AbsoluteVar(path.segment(i).clone()));
        i = i + 1;
    }
    let out = AbsolutePath(segments);
    proof {
        assert(out@ =~= path@);
    }
    out
}

/// The segments of `target`, then those of `path` but the first.
fn extend_with_rest(target: &AbsolutePath, path: &RelativePath) -> (out: AbsolutePath)
    ensures
        out@ == target@ + path@.skip(1),
{
    let n: usize = path.len();
    let m: usize = target.len();
    let mut segments: Vec<AbsoluteVar> = Vec::new();
    let mut k: usize = 0;
    while k < m
        invariant
            k <= m,
            m == target@.len(),
            segments@.len() == k,
            forall|j: int| 0 <= j < k ==> segments@[j]@ == target@[j],
        decreases m - k,
    {
        segments.push(target.segment(k).clone());
        k = k + 1;
    }
    let mut i: usize = 1;
    while i < n
        invariant
            1 <= i <= n,
            n == path@.len(),
            m == target@.len(),
            m > 0,
            segments@.len() == m + i - 1,
            forall|j: int| 0 <= j < m ==> segments@[j]@ == target@[j],
            forall|j: int| 1 <= j < i ==> segments@[m + j - 1]@ == path@[j],
        decreases n - i,
    {
        segments.push(AbsoluteVar(path.segment(i).clone()));
        i = i + 1;
    }
    let out = AbsolutePath(segments);
    proof {
        assert(out@ =~= target@ + path@.skip(1));
    }
    out
}

impl<'a> AbsoluteScope<'a> {
    /// This scope's own tables.
    pub closed spec fn frame(&self) -> ResolveFrame {
        ResolveFrame {
            declared: declared_names(self.declared@),
            imports: import_table(self.imports@),
        }
    }

    /// The scopes from the root to this one.
    pub closed spec fn chain(&self) -> Seq<ResolveFrame>
        decreases self,
    {
        match self.parent {
            Some(parent) => parent.chain().push(self.frame()),
            None => seq![self.frame()],
        }
    }

    /// The root scope: no scope around it, nothing declared or imported.
    pub fn root() -> (scope: AbsoluteScope<'a>)
        ensures
            scope@ == seq![empty_frame()],
    {
        let scope = AbsoluteScope { parent: None, declared: Vec::new(), imports: Vec::new() };
        proof {
            assert(scope.frame() == empty_frame());
        }
        scope
    }

    /// A new scope inside this one, with nothing declared or imported.
    pub fn new_child(&'a self) -> (child: AbsoluteScope<'a>)
        ensures
            child@ == self@.push(empty_frame()),
    {
        let child = AbsoluteScope { parent: Some(self), declared: Vec::new(), imports: Vec::new() };
        proof {
            assert(child.frame() == empty_frame());
        }
        child
    }

    fn is_declared(&self, name: &XID) -> (yes: bool)
        ensures
            yes == self.frame().declared.contains(name@),
    {
        let mut i: usize = self.declared.len();
        proof {
            assert(self.declared@.take(i as int) =~= self.declared@);
        }
        while i > 0
            invariant
                i <= self.declared.len(),
                declared_names(self.declared@).contains(name@) == declared_names(
                    self.declared@.take(i as int),
                ).contains(name@),
            decreases i,
        {
            i = i - 1;
            proof {
                assert(self.declared@.take(i + 1).drop_last() =~= self.declared@.take(i as int));
            }
            if self.declared[i].same(name) {
                return true;
            }
        }
        false
    }

    fn find_import(&self, name: &XID) -> (found: Option<&AbsolutePath>)
        ensures
            found is Some <==> self.frame().imports.contains_key(name@),
            found is Some ==> found->0@ == self.frame().imports[name@],
    {
        let mut i: usize = self.imports.len();
        proof {
            assert(self.imports@.take(i as int) =~= self.imports@);
        }
        while i > 0
            invariant
                i <= self.imports.len(),
                import_table(self.imports@).contains_key(name@) == import_table(
                    self.imports@.take(i as int),
                ).contains_key(name@),
                import_table(self.imports@).contains_key(name@) ==> import_table(
                    self.imports@,
                )[name@] == import_table(self.imports@.take(i as int))[name@],
            decreases i,
        {
            i = i - 1;
            proof {
                assert(self.imports@.take(i + 1).drop_last() =~= self.imports@.take(i as int));
            }
            if self.imports[i].0.same(name) {
                return Some(&self.imports[i].1);
            }
        }
        None
    }

    /// Resolves `path` in this scope.
    pub fn resolve(&self, path: &RelativePath) -> (out: AbsolutePath)
        ensures
            out@ == resolve_path(self@, path@),
        decreases self,
    {
        let first = path.first();
        proof {
            assert(self@.len() > 0 && self@.last() == self.frame());
        }
        if self.is_declared(first) {
            promote(path)
        } else {
            match self.find_import(first) {
                Some(target) => extend_with_rest(target, path),
                None => match self.parent {
                    Some(parent) => {
                        proof {
                            assert(self@.drop_last() =~= parent@);
                        }
                        parent.resolve(path)
                    },
                    None => {
                        proof {
                            assert(self@.drop_last() =~= Seq::<ResolveFrame>::empty());
                            assert(resolve_path(self@.drop_last(), path@) == path@);
                        }
                        promote(path)
                    },
                },
            }
        }
    }

    /// Resolves the path of an import in this scope and records the import
    /// here, under the path's last segment.
    pub fn new_import(&mut self, path: RelativePath) -> (out: AbsolutePath)
        ensures
            out@ == resolve_path(old(self)@, path@),
            final(self)@ == with_import(old(self)@, path@.last(), out@),
    {
        self.import(&path)
    }

    fn import(&mut self, path: &RelativePath) -> (out: AbsolutePath)
        ensures
            out@ == resolve_path(old(self)@, path@),
            final(self)@ == with_import(old(self)@, path@.last(), out@),
    {
        let key = path.last().clone();
        let out = self.resolve(path);
        let ghost before = self.imports@;
        self.imports.push((key, out.clone()));
        proof {
            assert(self.imports@.drop_last() =~= before);
            assert(self@ =~= with_import(old(self)@, path@.last(), out@));
        }
        out
    }

    /// Declares `xid` in this scope. The resolved form of a declared name is
    /// the name itself.
    pub fn new_variable(&mut self, xid: XID) -> (var: AbsoluteVar)
        ensures
            var@ == xid@,
            final(self)@ == with_declared(old(self)@, xid@),
    {
        let ghost before = self.declared@;
        self.declared.push(xid.clone());
        proof {
            assert(self.declared@.drop_last() =~= before);
            assert(self@ =~= with_declared(old(self)@, xid@));
        }
        AbsoluteVar(xid)
    }

    /// Resolves a whole program, or a piece of one, from a fresh root scope.
    pub fn root_to_absolute<T: ToAbsolute>(value: T) -> (out: T::Output)
        ensures
            value.resolves_to(seq![empty_frame()], out),
            value.keeps_shape(out),
    {
        let mut scope = AbsoluteScope::root();
        value.to_absolute(&mut scope)
    }
}

/// Resolves a type in `scope`.
pub fn resolve_type(ty: &MirType<RelativePath>, scope: &AbsoluteScope) -> (out: MirType<
    AbsolutePath,
>)
    ensures
        resolved_type(*ty, scope@, out),
        same_shape_type(*ty, out),
{
    match ty {
        MirType::Primitive(primitive) => MirType::Primitive(*primitive),
        MirType::UserDefined(path) => MirType::UserDefined(scope.resolve(path)),
    }
}

/// Resolves an expression in `scope`.
pub fn resolve_expr(expr: &MirExpression<RelativePath>, scope: &AbsoluteScope) -> (out:
    MirExpression<AbsolutePath>)
    ensures
        resolved_expr(*expr, scope@, out),
        same_shape_expr(*expr, out),
    decreases *expr,
{
    match expr {
        MirExpression::Literal(literal) => MirExpression::Literal(literal.clone()),
        MirExpression::Variable(path) => MirExpression::Variable(scope.resolve(path)),
        MirExpression::Property(left, property) => MirExpression::Property(
            Box::new(resolve_expr(&**left, scope)),
            property.clone(),
        ),
        MirExpression::Call(path, args) => {
            let callee = scope.resolve(path);
            MirExpression::Call(callee, resolve_exprs(args, scope))
        },
        MirExpression::Index(left, index) => MirExpression::Index(
            Box::new(resolve_expr(&**left, scope)),
            Box::new(resolve_expr(&**index, scope)),
        ),
        MirExpression::UnaryOp(op, inner) => MirExpression::UnaryOp(
            *op,
            Box::new(resolve_expr(&**inner, scope)),
        ),
        MirExpression::BinaryOp(left, op, right) => MirExpression::BinaryOp(
            Box::new(resolve_expr(&**left, scope)),
            *op,
            Box::new(resolve_expr(&**right, scope)),
        ),
    }
}

/// Resolves each expression of a list in `scope`.
pub fn resolve_exprs(exprs: &Vec<MirExpression<RelativePath>>, scope: &AbsoluteScope) -> (out: Vec<
    MirExpression<AbsolutePath>,
>)
    ensures
        resolved_exprs(exprs@, scope@, out@),
        out@.len() == exprs@.len(),
        forall|i: int| 0 <= i < exprs@.len() ==> same_shape_expr(#[trigger] exprs@[i], out@[i]),
    decreases exprs,
{
    let mut out: Vec<MirExpression<AbsolutePath>> = Vec::new();
    let mut i: usize = 0;
    while i < exprs.len()
        invariant
            i <= exprs.len(),
            out@.len() == i,
            forall|j: int| 0 <= j < i ==> resolved_expr(#[trigger] exprs@[j], scope@, out@[j]),
            forall|j: int| 0 <= j < i ==> same_shape_expr(#[trigger] exprs@[j], out@[j]),
        decreases exprs.len() - i,
    {
        out.push(resolve_expr(&exprs[i], scope));
        i = i + 1;
    }
    out
}

/// Resolves a declaration in `scope` and declares its name there.
pub fn resolve_decl(decl: &MirDeclaration<XID, RelativePath>, scope: &mut AbsoluteScope) -> (out:
    MirDeclaration<AbsoluteVar, AbsolutePath>)
    ensures
        resolved_decl(*decl, old(scope)@, out),
        same_shape_decl(*decl, out),
        final(scope)@ == with_declared(old(scope)@, decl.name@),
{
    let ty = resolve_type(&decl.ty, &*scope);
    let value = match &decl.value {
        Some(expr) => Some(resolve_expr(expr, &*scope)),
        None => None,
    };
    let name = scope.new_variable(decl.name.clone());
    MirDeclaration { is_static: decl.is_static, name, ty, value }
}

/// Resolves a parameter list in `scope`, declaring each name there.
pub fn resolve_args(args: &Vec<(XID, MirType<RelativePath>)>, scope: &mut AbsoluteScope) -> (out:
    Vec<(AbsoluteVar, MirType<AbsolutePath>)>)
    ensures
        resolved_args(args@, old(scope)@, out@),
        same_shape_args(args@, out@),
        final(scope)@ == scope_before_arg(args@, args@.len() as int, old(scope)@),
{
    let mut out: Vec<(AbsoluteVar, MirType<AbsolutePath>)> = Vec::new();
    let mut i: usize = 0;
    while i < args.len()
        invariant
            i <= args.len(),
            out@.len() == i,
            scope@ == scope_before_arg(args@, i as int, old(scope)@),
            forall|j: int|
                0 <= j < i ==> out@[j].0@ == args@[j].0@ && resolved_type((#[trigger] args@[j]).1,
                    scope_before_arg(args@, j, old(scope)@),
                    out@[j].1,
                ),
            forall|j: int| 0 <= j < i ==> same_shape_type((#[trigger] args@[j]).1, out@[j].1),
        decreases args.len() - i,
    {
        let ty = resolve_type(&args[i].1, &*scope);
        let name = scope.new_variable(args[i].0.clone());
        out.push((name, ty));
        i = i + 1;
    }
    out
}

/// Resolves an assignment in `scope`.
pub fn resolve_assign(assign: &MirAssignment<RelativePath>, scope: &AbsoluteScope) -> (out:
    MirAssignment<AbsolutePath>)
    ensures
        resolved_assign(*assign, scope@, out),
        same_shape_expr(assign.value, out.value),
{
    let variable = scope.resolve(&assign.variable);
    let value = resolve_expr(&assign.value, scope);
    MirAssignment { variable, value }
}

/// Resolves a function: declares its name in `scope` and resolves its
/// parameters and its body in one new scope.
pub fn resolve_function(func: &MirFunction<XID, RelativePath>, scope: &mut AbsoluteScope) -> (out:
    MirFunction<AbsoluteVar, AbsolutePath>)
    ensures
        resolved_function(*func, old(scope)@, out),
        same_shape_stmt(MirStatement::Function(*func), MirStatement::Function(out)),
        final(scope)@ == with_declared(old(scope)@, func.name@),
    decreases *func,
{
    let name = scope.new_variable(func.name.clone());
    let return_type = resolve_type(&func.return_type, &*scope);
    let mut child = AbsoluteScope::new_child(&*scope);
    let args = resolve_args(&func.args, &mut child);
    let block = resolve_block(&func.block, &mut child);
    MirFunction { is_static: func.is_static, name, args, return_type, block }
}

/// Resolves a `while`: the condition in `scope`, the body in a new scope.
pub fn resolve_while(while_loop: &MirWhile<XID, RelativePath>, scope: &AbsoluteScope) -> (out:
    MirWhile<AbsoluteVar, AbsolutePath>)
    ensures
        resolved_while(*while_loop, scope@, out),
        same_shape_stmt(MirStatement::While(*while_loop), MirStatement::While(out)),
    decreases *while_loop,
{
    let condition = resolve_expr(&while_loop.condition, scope);
    let mut child = AbsoluteScope::new_child(scope);
    let block = resolve_block(&while_loop.block, &mut child);
    MirWhile { condition, block }
}

/// Resolves a `for`, all of it in one new scope.
pub fn resolve_for(for_loop: &MirFor<XID, RelativePath>, scope: &AbsoluteScope) -> (out: MirFor<
    AbsoluteVar,
    AbsolutePath,
>)
    ensures
        resolved_for(*for_loop, scope@, out),
        same_shape_stmt(
            MirStatement::For(Box::new(*for_loop)),
            MirStatement::For(Box::new(out)),
        ),
    decreases *for_loop,
{
    let mut child = AbsoluteScope::new_child(scope);
    let init = resolve_decl(&for_loop.init, &mut child);
    let condition = resolve_expr(&for_loop.condition, &child);
    let update = resolve_stmt(&for_loop.update, &mut child);
    let block = resolve_block(&for_loop.block, &mut child);
    MirFor { init, condition, update, block }
}

/// Resolves a statement in `scope`.
pub fn resolve_stmt(stmt: &MirStatement<XID, RelativePath>, scope: &mut AbsoluteScope) -> (out:
    MirStatement<AbsoluteVar, AbsolutePath>)
    ensures
        resolved_stmt(*stmt, old(scope)@, out),
        same_shape_stmt(*stmt, out),
        final(scope)@ == scope_after_stmt(*stmt, old(scope)@),
    decreases *stmt,
{
    match stmt {
        MirStatement::Import(path) => MirStatement::Import(scope.import(path)),
        MirStatement::Assignment(assign) => MirStatement::Assignment(
            resolve_assign(assign, &*scope),
        ),
        MirStatement::Block(block) => {
            let mut child = AbsoluteScope::new_child(&*scope);
            MirStatement::Block(resolve_block(block, &mut child))
        },
        MirStatement::Declaration(decl) => MirStatement::Declaration(resolve_decl(decl, scope)),
        MirStatement::Expression(expr) => MirStatement::Expression(resolve_expr(expr, &*scope)),
        MirStatement::For(for_loop) => MirStatement::For(
            Box::new(resolve_for(&**for_loop, &*scope)),
        ),
        MirStatement::Function(func) => MirStatement::Function(resolve_function(func, scope)),
        MirStatement::If(if_block) => MirStatement::If(resolve_if(if_block, &*scope)),
        MirStatement::Return(expr) => MirStatement::Return(resolve_expr(expr, &*scope)),
        MirStatement::Unsafe(block) => {
            let mut child = AbsoluteScope::new_child(&*scope);
            MirStatement::Unsafe(resolve_block(block, &mut child))
        },
        MirStatement::While(while_loop) => MirStatement::While(
            resolve_while(while_loop, &*scope),
        ),
    }
}

/// Resolves what follows an `else`.
pub fn resolve_else(else_block: &MirElseBlock<XID, RelativePath>, scope: &AbsoluteScope) -> (out:
    MirElseBlock<AbsoluteVar, AbsolutePath>)
    ensures
        resolved_else(*else_block, scope@, out),
        same_shape_else(*else_block, out),
    decreases *else_block,
{
    match else_block {
        MirElseBlock::ElseIf(inner) => MirElseBlock::ElseIf(Box::new(resolve_if(&**inner, scope))),
        MirElseBlock::Else(stmts) => {
            let mut child = AbsoluteScope::new_child(scope);
            MirElseBlock::Else(resolve_block(stmts, &mut child))
        },
    }
}

/// Resolves a conditional: the conditions in `scope`, each body in a new
/// scope.
pub fn resolve_if(if_block: &MirIf<XID, RelativePath>, scope: &AbsoluteScope) -> (out: MirIf<
    AbsoluteVar,
    AbsolutePath,
>)
    ensures
        resolved_if(*if_block, scope@, out),
        same_shape_if(*if_block, out),
    decreases *if_block,
{
    let condition = resolve_expr(&if_block.condition, scope);
    let mut child = AbsoluteScope::new_child(scope);
    let block = resolve_block(&if_block.block, &mut child);
    let else_block = match &if_block.else_block {
        None => None,
        Some(other) => Some(resolve_else(other, scope)),
    };
    MirIf { condition, block, else_block }
}

/// Resolves statements in `scope`, in the order they are written.
pub fn resolve_block(
    stmts: &Vec<MirStatement<XID, RelativePath>>,
    scope: &mut AbsoluteScope,
) -> (out:
    Vec<MirStatement<AbsoluteVar, AbsolutePath>>)
    ensures
        resolved_block(stmts@, old(scope)@, out@),
        same_shape_block(stmts@, out@),
        final(scope)@ == scope_before(stmts@, stmts@.len() as int, old(scope)@),
    decreases stmts,
{
    let mut out: Vec<MirStatement<AbsoluteVar, AbsolutePath>> = Vec::new();
    let mut i: usize = 0;
    while i < stmts.len()
        invariant
            i <= stmts.len(),
            out@.len() == i,
            scope@ == scope_before(stmts@, i as int, old(scope)@),
            forall|j: int|
                0 <= j < i ==> resolved_stmt(#[trigger] stmts@[j],
                    scope_before(stmts@, j, old(scope)@),
                    out@[j],
                ),
            forall|j: int| 0 <= j < i ==> same_shape_stmt(#[trigger] stmts@[j], out@[j]),
        decreases stmts.len() - i,
    {
        out.push(resolve_stmt(&stmts[i], scope));
        i = i + 1;
    }
    out
}


/// A path through an import alias resolves to the import's target followed by
/// the rest of the path, when the alias is the nearest thing its first
/// segment can mean.
pub proof fn lemma_alias_resolves_to_target(chain: Seq<ResolveFrame>, path: Seq<Seq<char>>)
    requires
        chain.len() > 0,
        path.len() > 0,
        !chain.last().declared.contains(path.first()),
        chain.last().imports.contains_key(path.first()),
    ensures
        resolve_path(chain, path) == chain.last().imports[path.first()] + path.skip(1),
{
}

/// A path whose first segment no scope knows resolves to itself.
pub proof fn lemma_unknown_resolves_to_itself(chain: Seq<ResolveFrame>, path: Seq<Seq<char>>)
    requires
        path.len() > 0,
        forall|i: int|
            0 <= i < chain.len() ==> !(#[trigger] chain[i]).declared.contains(path.first())
                && !chain[i].imports.contains_key(path.first()),
    ensures
        resolve_path(chain, path) == path,
    decreases chain.len(),
{
    if chain.len() > 0 {
        assert(chain.last() == chain[chain.len() - 1]);
        assert forall|i: int| 0 <= i < chain.drop_last().len() implies !(
        #[trigger] chain.drop_last()[i]).declared.contains(path.first())
            && !chain.drop_last()[i].imports.contains_key(path.first()) by {
            assert(chain.drop_last()[i] == chain[i]);
        }
        lemma_unknown_resolves_to_itself(chain.drop_last(), path);
    }
}

/// A name declared in the innermost scope stands for itself, whatever the
/// scopes around it import under that name.
pub proof fn lemma_declared_resolves_to_itself(chain: Seq<ResolveFrame>, path: Seq<Seq<char>>)
    requires
        chain.len() > 0,
        path.len() > 0,
    ensures
        resolve_path(with_declared(chain, path.first()), path) == path,
{
}


/// What the resolver can rewrite: a piece of the tree with paths as written.
pub trait ToAbsolute: Sized {
    type Output;

    /// Whether `out` is this piece resolved in `chain`.
    spec fn resolves_to(&self, chain: Seq<ResolveFrame>, out: Self::Output) -> bool;

    /// The scopes as resolving this piece leaves them.
    spec fn scope_after(&self, chain: Seq<ResolveFrame>) -> Seq<ResolveFrame>;

    /// Whether `out` has the shape of this piece.
    spec fn keeps_shape(&self, out: Self::Output) -> bool;

    /// Resolves this piece in `scope`.
    fn to_absolute(self, scope: &mut AbsoluteScope) -> (out: Self::Output)
        ensures
            self.resolves_to(old(scope)@, out),
            self.keeps_shape(out),
            final(scope)@ == self.scope_after(old(scope)@),
    ;
}

impl ToAbsolute for RelativePath {
    type Output = AbsolutePath;

    open spec fn keeps_shape(&self, out: AbsolutePath) -> bool {
        true
    }

    open spec fn resolves_to(&self, chain: Seq<ResolveFrame>, out: AbsolutePath) -> bool {
        out@ == resolve_path(chain, self@)
    }

    open spec fn scope_after(&self, chain: Seq<ResolveFrame>) -> Seq<ResolveFrame> {
        chain
    }

    fn to_absolute(self, scope: &mut AbsoluteScope) -> (out: AbsolutePath) {
        scope.resolve(&self)
    }
}

impl ToAbsolute for MirType<RelativePath> {
    type Output = MirType<AbsolutePath>;

    open spec fn keeps_shape(&self, out: MirType<AbsolutePath>) -> bool {
        same_shape_type(*self, out)
    }

    open spec fn resolves_to(&self, chain: Seq<ResolveFrame>, out: MirType<AbsolutePath>) -> bool {
        resolved_type(*self, chain, out)
    }

    open spec fn scope_after(&self, chain: Seq<ResolveFrame>) -> Seq<ResolveFrame> {
        chain
    }

    fn to_absolute(self, scope: &mut AbsoluteScope) -> (out: MirType<AbsolutePath>) {
        resolve_type(&self, &*scope)
    }
}

impl ToAbsolute for MirExpression<RelativePath> {
    type Output = MirExpression<AbsolutePath>;

    open spec fn keeps_shape(&self, out: MirExpression<AbsolutePath>) -> bool {
        same_shape_expr(*self, out)
    }

    open spec fn resolves_to(
        &self,
        chain: Seq<ResolveFrame>,
        out: MirExpression<AbsolutePath>,
    ) -> bool {
        resolved_expr(*self, chain, out)
    }

    open spec fn scope_after(&self, chain: Seq<ResolveFrame>) -> Seq<ResolveFrame> {
        chain
    }

    fn to_absolute(self, scope: &mut AbsoluteScope) -> (out: MirExpression<AbsolutePath>) {
        resolve_expr(&self, &*scope)
    }
}

impl ToAbsolute for Vec<MirExpression<RelativePath>> {
    type Output = Vec<MirExpression<AbsolutePath>>;

    open spec fn keeps_shape(&self, out: Vec<MirExpression<AbsolutePath>>) -> bool {
        self@.len() == out@.len() && forall|i: int|
            0 <= i < self@.len() ==> same_shape_expr(#[trigger] self@[i], out@[i])
    }

    open spec fn resolves_to(
        &self,
        chain: Seq<ResolveFrame>,
        out: Vec<MirExpression<AbsolutePath>>,
    ) -> bool {
        resolved_exprs(self@, chain, out@)
    }

    open spec fn scope_after(&self, chain: Seq<ResolveFrame>) -> Seq<ResolveFrame> {
        chain
    }

    fn to_absolute(self, scope: &mut AbsoluteScope) -> (out: Vec<MirExpression<AbsolutePath>>) {
        resolve_exprs(&self, &*scope)
    }
}

impl ToAbsolute for MirAssignment<RelativePath> {
    type Output = MirAssignment<AbsolutePath>;

    open spec fn keeps_shape(&self, out: MirAssignment<AbsolutePath>) -> bool {
        same_shape_expr(self.value, out.value)
    }

    open spec fn resolves_to(
        &self,
        chain: Seq<ResolveFrame>,
        out: MirAssignment<AbsolutePath>,
    ) -> bool {
        resolved_assign(*self, chain, out)
    }

    open spec fn scope_after(&self, chain: Seq<ResolveFrame>) -> Seq<ResolveFrame> {
        chain
    }

    fn to_absolute(self, scope: &mut AbsoluteScope) -> (out: MirAssignment<AbsolutePath>) {
        resolve_assign(&self, &*scope)
    }
}

impl ToAbsolute for MirDeclaration<XID, RelativePath> {
    type Output = MirDeclaration<AbsoluteVar, AbsolutePath>;

    open spec fn keeps_shape(&self, out: MirDeclaration<AbsoluteVar, AbsolutePath>) -> bool {
        same_shape_decl(*self, out)
    }

    open spec fn resolves_to(
        &self,
        chain: Seq<ResolveFrame>,
        out: MirDeclaration<AbsoluteVar, AbsolutePath>,
    ) -> bool {
        resolved_decl(*self, chain, out)
    }

    open spec fn scope_after(&self, chain: Seq<ResolveFrame>) -> Seq<ResolveFrame> {
        with_declared(chain, self.name@)
    }

    fn to_absolute(
        self,
        scope: &mut AbsoluteScope,
    ) -> (out: MirDeclaration<AbsoluteVar, AbsolutePath>) {
        resolve_decl(&self, scope)
    }
}

impl ToAbsolute for MirFunction<XID, RelativePath> {
    type Output = MirFunction<AbsoluteVar, AbsolutePath>;

    open spec fn keeps_shape(&self, out: MirFunction<AbsoluteVar, AbsolutePath>) -> bool {
        same_shape_stmt(MirStatement::Function(*self), MirStatement::Function(out))
    }

    open spec fn resolves_to(
        &self,
        chain: Seq<ResolveFrame>,
        out: MirFunction<AbsoluteVar, AbsolutePath>,
    ) -> bool {
        resolved_function(*self, chain, out)
    }

    open spec fn scope_after(&self, chain: Seq<ResolveFrame>) -> Seq<ResolveFrame> {
        with_declared(chain, self.name@)
    }

    fn to_absolute(
        self,
        scope: &mut AbsoluteScope,
    ) -> (out: MirFunction<AbsoluteVar, AbsolutePath>) {
        resolve_function(&self, scope)
    }
}

impl ToAbsolute for MirFor<XID, RelativePath> {
    type Output = MirFor<AbsoluteVar, AbsolutePath>;

    open spec fn keeps_shape(&self, out: MirFor<AbsoluteVar, AbsolutePath>) -> bool {
        same_shape_stmt(MirStatement::For(Box::new(*self)), MirStatement::For(Box::new(out)))
    }

    open spec fn resolves_to(
        &self,
        chain: Seq<ResolveFrame>,
        out: MirFor<AbsoluteVar, AbsolutePath>,
    ) -> bool {
        resolved_for(*self, chain, out)
    }

    open spec fn scope_after(&self, chain: Seq<ResolveFrame>) -> Seq<ResolveFrame> {
        chain
    }

    fn to_absolute(self, scope: &mut AbsoluteScope) -> (out: MirFor<AbsoluteVar, AbsolutePath>) {
        resolve_for(&self, &*scope)
    }
}

impl ToAbsolute for MirIf<XID, RelativePath> {
    type Output = MirIf<AbsoluteVar, AbsolutePath>;

    open spec fn keeps_shape(&self, out: MirIf<AbsoluteVar, AbsolutePath>) -> bool {
        same_shape_if(*self, out)
    }

    open spec fn resolves_to(
        &self,
        chain: Seq<ResolveFrame>,
        out: MirIf<AbsoluteVar, AbsolutePath>,
    ) -> bool {
        resolved_if(*self, chain, out)
    }

    open spec fn scope_after(&self, chain: Seq<ResolveFrame>) -> Seq<ResolveFrame> {
        chain
    }

    fn to_absolute(self, scope: &mut AbsoluteScope) -> (out: MirIf<AbsoluteVar, AbsolutePath>) {
        resolve_if(&self, &*scope)
    }
}

impl ToAbsolute for MirElseBlock<XID, RelativePath> {
    type Output = MirElseBlock<AbsoluteVar, AbsolutePath>;

    open spec fn keeps_shape(&self, out: MirElseBlock<AbsoluteVar, AbsolutePath>) -> bool {
        same_shape_else(*self, out)
    }

    open spec fn resolves_to(
        &self,
        chain: Seq<ResolveFrame>,
        out: MirElseBlock<AbsoluteVar, AbsolutePath>,
    ) -> bool {
        resolved_else(*self, chain, out)
    }

    open spec fn scope_after(&self, chain: Seq<ResolveFrame>) -> Seq<ResolveFrame> {
        chain
    }

    fn to_absolute(
        self,
        scope: &mut AbsoluteScope,
    ) -> (out: MirElseBlock<AbsoluteVar, AbsolutePath>) {
        resolve_else(&self, &*scope)
    }
}

impl ToAbsolute for MirWhile<XID, RelativePath> {
    type Output = MirWhile<AbsoluteVar, AbsolutePath>;

    open spec fn keeps_shape(&self, out: MirWhile<AbsoluteVar, AbsolutePath>) -> bool {
        same_shape_stmt(MirStatement::While(*self), MirStatement::While(out))
    }

    open spec fn resolves_to(
        &self,
        chain: Seq<ResolveFrame>,
        out: MirWhile<AbsoluteVar, AbsolutePath>,
    ) -> bool {
        resolved_while(*self, chain, out)
    }

    open spec fn scope_after(&self, chain: Seq<ResolveFrame>) -> Seq<ResolveFrame> {
        chain
    }

    fn to_absolute(self, scope: &mut AbsoluteScope) -> (out: MirWhile<AbsoluteVar, AbsolutePath>) {
        resolve_while(&self, &*scope)
    }
}

impl ToAbsolute for MirStatement<XID, RelativePath> {
    type Output = MirStatement<AbsoluteVar, AbsolutePath>;

    open spec fn keeps_shape(&self, out: MirStatement<AbsoluteVar, AbsolutePath>) -> bool {
        same_shape_stmt(*self, out)
    }

    open spec fn resolves_to(
        &self,
        chain: Seq<ResolveFrame>,
        out: MirStatement<AbsoluteVar, AbsolutePath>,
    ) -> bool {
        resolved_stmt(*self, chain, out)
    }

    open spec fn scope_after(&self, chain: Seq<ResolveFrame>) -> Seq<ResolveFrame> {
        scope_after_stmt(*self, chain)
    }

    fn to_absolute(
        self,
        scope: &mut AbsoluteScope,
    ) -> (out: MirStatement<AbsoluteVar, AbsolutePath>) {
        resolve_stmt(&self, scope)
    }
}

impl ToAbsolute for Vec<MirStatement<XID, RelativePath>> {
    type Output = Vec<MirStatement<AbsoluteVar, AbsolutePath>>;

    open spec fn keeps_shape(&self, out: Vec<MirStatement<AbsoluteVar, AbsolutePath>>) -> bool {
        same_shape_block(self@, out@)
    }

    open spec fn resolves_to(
        &self,
        chain: Seq<ResolveFrame>,
        out: Vec<MirStatement<AbsoluteVar, AbsolutePath>>,
    ) -> bool {
        resolved_block(self@, chain, out@)
    }

    open spec fn scope_after(&self, chain: Seq<ResolveFrame>) -> Seq<ResolveFrame> {
        scope_before(self@, self@.len() as int, chain)
    }

    fn to_absolute(
        self,
        scope: &mut AbsoluteScope,
    ) -> (out: Vec<MirStatement<AbsoluteVar, AbsolutePath>>) {
        resolve_block(&self, scope)
    }
}

} // verus!
