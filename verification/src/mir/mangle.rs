//! Symbol mangling: every fully qualified path becomes a 64-bit identifier.
//!
//! The pass keeps a chain of scopes of its own. Each scope has a salt, made
//! from the salt of the scope around it and either a name or the scope's
//! number among the anonymous scopes there. A declared name gets the digest
//! of its scope's salt and its own text, and is recorded in its scope; a
//! reference to a plain name gets the identifier recorded for it in the
//! nearest scope. Every other reference gets the salt of the chain of named
//! scopes that its segments spell out under the root.
//!
//! Two things are known and left as they are. Anonymous scopes are numbered
//! in the order they are written, so that swapping two sibling blocks changes
//! the identifiers declared in them. And two different names may get the
//! same 64-bit identifier; nothing here notices if they do.
use crate::mir::absoluteify::{AbsolutePath, AbsoluteVar};
use crate::mir::hash::{
    anonymous_salt, fx_seeded_index, fx_seeded_text, fx_text, named_salt, root_salt, SENTINEL,
};
use crate::mir::tree::{
    same_shape_args, same_shape_block, same_shape_decl, same_shape_else, same_shape_expr,
    same_shape_if, same_shape_stmt, same_shape_type, MirAssignment, MirDeclaration, MirElseBlock,
    MirExpression, MirFor, MirFunction, MirIf, MirStatement, MirType, MirWhile,
};
use vstd::prelude::*;

verus! {

/// A mangled identifier: a 64-bit value, written as 16 hexadecimal digits.
#[derive(Debug, Clone, Copy, PartialEq, Eq, Structural, PartialOrd, Ord, Hash)]
pub struct MangledVar(u64);

impl View for MangledVar {
    type V = u64;

    closed spec fn view(&self) -> u64 {
        self.0
    }
}

/// The hexadecimal digit for `n`, in upper case.
pub open spec fn hex_digit(n: u64) -> char {
    if n == 0 {
        '0'
    } else if n == 1 {
        '1'
    } else if n == 2 {
        '2'
    } else if n == 3 {
        '3'
    } else if n == 4 {
        '4'
    } else if n == 5 {
        '5'
    } else if n == 6 {
        '6'
    } else if n == 7 {
        '7'
    } else if n == 8 {
        '8'
    } else if n == 9 {
        '9'
    } else if n == 10 {
        'A'
    } else if n == 11 {
        'B'
    } else if n == 12 {
        'C'
    } else if n == 13 {
        'D'
    } else if n == 14 {
        'E'
    } else {
        'F'
    }
}

/// Four-bit group number `i` of `value`, counted from the most significant.
pub open spec fn nibble(value: u64, i: int) -> u64 {
    (value >> ((60 - 4 * i) as u64)) & 0xf
}

/// `value` as 16 hexadecimal digits in upper case, most significant first.
pub open spec fn hex_text(value: u64) -> Seq<char> {
    Seq::new(16, |i: int| hex_digit(nibble(value, i)))
}

fn hex_digit_of(n: u64) -> (c: char)
    ensures
        c == hex_digit(n),
{
    if n == 0 {
        '0'
    } else if n == 1 {
        '1'
    } else if n == 2 {
        '2'
    } else if n == 3 {
        '3'
    } else if n == 4 {
        '4'
    } else if n == 5 {
        '5'
    } else if n == 6 {
        '6'
    } else if n == 7 {
        '7'
    } else if n == 8 {
        '8'
    } else if n == 9 {
        '9'
    } else if n == 10 {
        'A'
    } else if n == 11 {
        'B'
    } else if n == 12 {
        'C'
    } else if n == 13 {
        'D'
    } else if n == 14 {
        'E'
    } else {
        'F'
    }
}

impl MangledVar {
    /// The identifier with the value `value`.
    pub fn new(value: u64) -> (id: MangledVar)
        ensures
            id@ == value,
    {
        MangledVar(value)
    }

    /// The 64-bit value of the identifier.
    pub fn value(&self) -> (value: u64)
        ensures
            value == self@,
    {
        self.0
    }

    /// The identifier as it is written out: 16 hexadecimal digits in upper
    /// case.
    pub fn to_string(&self) -> (text: String)
        ensures
            text@ == hex_text(self@),
    {
        let mut text = String::new();
        let mut i: u64 = 0;
        while i < 16
            invariant
                i <= 16,
                text@.len() == i,
                forall|j: int| 0 <= j < i ==> text@[j] == hex_digit(nibble(self.0, j)),
            decreases 16 - i,
        {
            let shift: u64 = 60 - 4 * i;
            text.push(hex_digit_of((self.0 >> shift) & 0xf));
            i = i + 1;
        }
        proof {
            assert(text@ =~= hex_text(self@));
        }
        text
    }
}

/// One scope of the mangler: its salt, how many anonymous scopes were made
/// in it so far, and the identifiers of the names declared in it.
pub struct MangleFrame {
    pub salt: u64,
    pub counter: usize,
    pub bindings: Map<Seq<char>, u64>,
}

/// A scope with the given salt in which nothing has happened yet.
pub open spec fn fresh_frame(salt: u64) -> MangleFrame {
    MangleFrame { salt, counter: 0, bindings: Map::empty() }
}

/// The number after `counter`. It starts again at 0 after the largest number
/// the machine has, which no program that fits in memory reaches.
pub open spec fn next_index(counter: usize) -> usize {
    if counter == usize::MAX {
        0
    } else {
        (counter + 1) as usize
    }
}

/// The identifier recorded for `name` in the nearest scope of `chain` that
/// has one. `chain` lists the scopes from the root to the innermost.
pub open spec fn lookup(chain: Seq<MangleFrame>, name: Seq<char>) -> Option<u64>
    decreases chain.len(),
{
    if chain.len() == 0 {
        None
    } else if chain.last().bindings.contains_key(name) {
        Some(chain.last().bindings[name])
    } else {
        lookup(chain.drop_last(), name)
    }
}

/// The salt reached from `root` through one named scope per segment of
/// `path`.
pub open spec fn synthetic_id(root: u64, path: Seq<Seq<char>>) -> u64
    decreases path.len(),
{
    if path.len() == 0 {
        root
    } else {
        named_salt(synthetic_id(root, path.drop_last()), path.last())
    }
}

/// The identifier of a reference to `path` from the innermost scope of
/// `chain`. A plain name that some scope of the chain has recorded gets the
/// identifier recorded nearest. Every other path gets the salt that its
/// segments spell out under the root, wherever the reference stands.
pub open spec fn reference_id(chain: Seq<MangleFrame>, path: Seq<Seq<char>>) -> u64 {
    if path.len() == 1 && lookup(chain, path[0]) is Some {
        lookup(chain, path[0])->0
    } else {
        synthetic_id(chain[0].salt, path)
    }
}

/// The identifier of `name` when it is declared in the innermost scope of
/// `chain`.
pub open spec fn declared_id(chain: Seq<MangleFrame>, name: Seq<char>) -> u64 {
    named_salt(chain.last().salt, name)
}

/// `chain` after the identifier `id` is recorded for `name` in its innermost
/// scope.
pub open spec fn with_recorded(chain: Seq<MangleFrame>, name: Seq<char>, id: u64) -> Seq<
    MangleFrame,
> {
    if chain.len() == 0 {
        chain
    } else {
        chain.drop_last().push(
            MangleFrame {
                salt: chain.last().salt,
                counter: chain.last().counter,
                bindings: chain.last().bindings.insert(name, id),
            },
        )
    }
}

/// `chain` after `name` is declared in its innermost scope.
pub open spec fn with_binding(chain: Seq<MangleFrame>, name: Seq<char>) -> Seq<MangleFrame> {
    with_recorded(chain, name, declared_id(chain, name))
}

/// `chain` after one anonymous scope was made in its innermost scope.
pub open spec fn bumped(chain: Seq<MangleFrame>) -> Seq<MangleFrame> {
    if chain.len() == 0 {
        chain
    } else {
        chain.drop_last().push(
            MangleFrame {
                salt: chain.last().salt,
                counter: next_index(chain.last().counter),
                bindings: chain.last().bindings,
            },
        )
    }
}

/// The scopes inside the next anonymous scope made in the innermost scope of
/// `chain`.
pub open spec fn anonymous_child(chain: Seq<MangleFrame>) -> Seq<MangleFrame> {
    bumped(chain).push(fresh_frame(anonymous_salt(chain.last().salt, chain.last().counter)))
}

/// The scopes inside the scope named `name` under the innermost scope of
/// `chain`.
pub open spec fn named_child(chain: Seq<MangleFrame>, name: Seq<char>) -> Seq<MangleFrame> {
    chain.push(fresh_frame(named_salt(chain.last().salt, name)))
}

/// The scopes as they are after a conditional: one anonymous scope was made
/// for each body of its chain.
pub open spec fn frames_after_if(
    input: MirIf<AbsoluteVar, AbsolutePath>,
    chain: Seq<MangleFrame>,
) -> Seq<MangleFrame>
    decreases input,
{
    match input.else_block {
        None => bumped(chain),
        Some(other) => frames_after_else(other, bumped(chain)),
    }
}

/// The scopes as they are after what follows an `else`.
pub open spec fn frames_after_else(
    input: MirElseBlock<AbsoluteVar, AbsolutePath>,
    chain: Seq<MangleFrame>,
) -> Seq<MangleFrame>
    decreases input,
{
    match input {
        MirElseBlock::ElseIf(inner) => frames_after_if(*inner, chain),
        MirElseBlock::Else(_) => bumped(chain),
    }
}

/// The scopes as they are after `stmt`: a declaration and a function record
/// a name in the innermost scope; a block, a loop and each body of a
/// conditional use up one anonymous scope number there.
pub open spec fn frames_after_stmt(
    stmt: MirStatement<AbsoluteVar, AbsolutePath>,
    chain: Seq<MangleFrame>,
) -> Seq<MangleFrame> {
    match stmt {
        MirStatement::Block(_) => bumped(chain),
        MirStatement::Unsafe(_) => bumped(chain),
        MirStatement::While(_) => bumped(chain),
        MirStatement::For(_) => bumped(chain),
        MirStatement::If(if_block) => frames_after_if(if_block, chain),
        MirStatement::Declaration(decl) => with_binding(chain, decl.name@),
        MirStatement::Function(func) => with_binding(chain, func.name@),
        _ => chain,
    }
}

/// The scopes as they are before statement number `n` of `stmts`, when they
/// were `chain` before the first.
pub open spec fn frames_before(
    stmts: Seq<MirStatement<AbsoluteVar, AbsolutePath>>,
    n: int,
    chain: Seq<MangleFrame>,
) -> Seq<MangleFrame>
    decreases n,
{
    if n <= 0 {
        chain
    } else {
        frames_after_stmt(stmts[n - 1], frames_before(stmts, n - 1, chain))
    }
}

/// The scopes as they are before parameter number `n` of `args`: the
/// parameters before it are declared.
pub open spec fn frames_before_arg(
    args: Seq<(AbsoluteVar, MirType<AbsolutePath>)>,
    n: int,
    chain: Seq<MangleFrame>,
) -> Seq<MangleFrame>
    decreases n,
{
    if n <= 0 {
        chain
    } else {
        with_binding(frames_before_arg(args, n - 1, chain), args[n - 1].0@)
    }
}

/// `out` is the type `input` mangled in `chain`.
pub open spec fn mangled_type(
    input: MirType<AbsolutePath>,
    chain: Seq<MangleFrame>,
    out: MirType<MangledVar>,
) -> bool {
    match (input, out) {
        (MirType::Primitive(a), MirType::Primitive(b)) => a == b,
        (MirType::UserDefined(p), MirType::UserDefined(q)) => q@ == reference_id(chain, p@),
        _ => false,
    }
}

/// `out` is `input` mangled in `chain`: the same expression, with every path
/// replaced by the identifier of a reference to it.
pub open spec fn mangled_expr(
    input: MirExpression<AbsolutePath>,
    chain: Seq<MangleFrame>,
    out: MirExpression<MangledVar>,
) -> bool
    decreases input,
{
    match (input, out) {
        (MirExpression::Literal(a), MirExpression::Literal(b)) => a == b,
        (MirExpression::Variable(p), MirExpression::Variable(q)) => q@ == reference_id(chain, p@),
        (MirExpression::Property(a, x), MirExpression::Property(b, y)) => x == y && mangled_expr(
            *a,
            chain,
            *b,
        ),
        (MirExpression::Call(p, xs), MirExpression::Call(q, ys)) => {
            &&& q@ == reference_id(chain, p@)
            &&& mangled_exprs(xs@, chain, ys@)
        },
        (MirExpression::Index(a, i), MirExpression::Index(b, j)) => mangled_expr(*a, chain, *b)
            && mangled_expr(*i, chain, *j),
        (MirExpression::UnaryOp(o, a), MirExpression::UnaryOp(p, b)) => o == p && mangled_expr(
            *a,
            chain,
            *b,
        ),
        (MirExpression::BinaryOp(a1, o, a2), MirExpression::BinaryOp(b1, p, b2)) => o == p
            && mangled_expr(*a1, chain, *b1) && mangled_expr(*a2, chain, *b2),
        _ => false,
    }
}

/// `out` holds the expressions of `input`, each mangled in `chain`.
pub open spec fn mangled_exprs(
    input: Seq<MirExpression<AbsolutePath>>,
    chain: Seq<MangleFrame>,
    out: Seq<MirExpression<MangledVar>>,
) -> bool
    decreases input,
{
    &&& input.len() == out.len()
    &&& forall|i: int| 0 <= i < input.len() ==> mangled_expr(#[trigger] input[i], chain, out[i])
}

/// `out` is the optional expression `input` mangled in `chain`.
pub open spec fn mangled_value(
    input: Option<MirExpression<AbsolutePath>>,
    chain: Seq<MangleFrame>,
    out: Option<MirExpression<MangledVar>>,
) -> bool {
    match (input, out) {
        (Some(a), Some(b)) => mangled_expr(a, chain, b),
        (None, None) => true,
        _ => false,
    }
}

/// `out` is the declaration `input` mangled in `chain`. The name gets the
/// identifier of a declaration in the innermost scope. The type and the
/// initializer are mangled in the scopes as they are before the name is
/// recorded: an initializer that mentions the name it initializes refers to
/// an outer declaration of that name.
pub open spec fn mangled_decl(
    input: MirDeclaration<AbsoluteVar, AbsolutePath>,
    chain: Seq<MangleFrame>,
    out: MirDeclaration<MangledVar, MangledVar>,
) -> bool {
    &&& out.is_static == input.is_static
    &&& out.name@ == declared_id(chain, input.name@)
    &&& mangled_type(input.ty, chain, out.ty)
    &&& mangled_value(input.value, chain, out.value)
}

/// `out` is the parameter list `input` mangled in `chain`: each name gets the
/// identifier of a declaration in the innermost scope, and each type is
/// mangled with the parameters before it recorded.
pub open spec fn mangled_args(
    input: Seq<(AbsoluteVar, MirType<AbsolutePath>)>,
    chain: Seq<MangleFrame>,
    out: Seq<(MangledVar, MirType<MangledVar>)>,
) -> bool {
    &&& input.len() == out.len()
    &&& forall|i: int|
        0 <= i < input.len() ==> out[i].0@ == declared_id(chain, (#[trigger] input[i]).0@)
            && mangled_type(input[i].1, frames_before_arg(input, i, chain), out[i].1)
}

/// `out` is the assignment `input` mangled in `chain`.
pub open spec fn mangled_assign(
    input: MirAssignment<AbsolutePath>,
    chain: Seq<MangleFrame>,
    out: MirAssignment<MangledVar>,
) -> bool {
    &&& out.variable@ == reference_id(chain, input.variable@)
    &&& mangled_expr(input.value, chain, out.value)
}

/// `out` is the function `input` mangled in `chain`. The function's name
/// gets the identifier of a declaration in the innermost scope of `chain` and
/// is recorded there before anything else of the function is mangled. The
/// parameters and the body share the scope named after the function, whose
/// salt is the function's identifier; the return type is mangled outside it.
pub open spec fn mangled_function(
    input: MirFunction<AbsoluteVar, AbsolutePath>,
    chain: Seq<MangleFrame>,
    out: MirFunction<MangledVar, MangledVar>,
) -> bool
    decreases input,
{
    let outer = with_binding(chain, input.name@);
    let inner = named_child(outer, input.name@);
    &&& out.is_static == input.is_static
    &&& out.name@ == declared_id(chain, input.name@)
    &&& mangled_args(input.args@, inner, out.args@)
    &&& mangled_type(input.return_type, outer, out.return_type)
    &&& mangled_block(
        input.block@,
        frames_before_arg(input.args@, input.args@.len() as int, inner),
        out.block@,
    )
}

/// `out` is the loop `input` mangled in `chain`: the condition in `chain`
/// itself, the body in the next anonymous scope.
pub open spec fn mangled_while(
    input: MirWhile<AbsoluteVar, AbsolutePath>,
    chain: Seq<MangleFrame>,
    out: MirWhile<MangledVar, MangledVar>,
) -> bool
    decreases input,
{
    &&& mangled_expr(input.condition, chain, out.condition)
    &&& mangled_block(input.block@, anonymous_child(chain), out.block@)
}

/// `out` is the loop `input` mangled in `chain`: its declaration, its
/// condition, its update and its body share the next anonymous scope, in that
/// order.
pub open spec fn mangled_for(
    input: MirFor<AbsoluteVar, AbsolutePath>,
    chain: Seq<MangleFrame>,
    out: MirFor<MangledVar, MangledVar>,
) -> bool
    decreases input,
{
    let start = anonymous_child(chain);
    let looped = with_binding(start, input.init.name@);
    &&& mangled_decl(input.init, start, out.init)
    &&& mangled_expr(input.condition, looped, out.condition)
    &&& mangled_stmt(input.update, looped, out.update)
    &&& mangled_block(input.block@, frames_after_stmt(input.update, looped), out.block@)
}

/// `out` is the statement `input` mangled in `chain`.
///
/// A block, an unsafe block, the body of a `while`, a `for` as a whole and
/// each body of a conditional get an anonymous scope; a function gets the
/// scope named after it. Statements are mangled in the order they are
/// written, each in the scopes as the statements before it left them.
pub open spec fn mangled_stmt(
    input: MirStatement<AbsoluteVar, AbsolutePath>,
    chain: Seq<MangleFrame>,
    out: MirStatement<MangledVar, MangledVar>,
) -> bool
    decreases input,
{
    match (input, out) {
        (MirStatement::Block(a), MirStatement::Block(b)) => mangled_block(
            a@,
            anonymous_child(chain),
            b@,
        ),
        (MirStatement::Unsafe(a), MirStatement::Unsafe(b)) => mangled_block(
            a@,
            anonymous_child(chain),
            b@,
        ),
        (MirStatement::Expression(a), MirStatement::Expression(b)) => mangled_expr(a, chain, b),
        (MirStatement::Return(a), MirStatement::Return(b)) => mangled_expr(a, chain, b),
        (MirStatement::Assignment(a), MirStatement::Assignment(b)) => mangled_assign(a, chain, b),
        (MirStatement::Declaration(a), MirStatement::Declaration(b)) => mangled_decl(a, chain, b),
        (MirStatement::Function(a), MirStatement::Function(b)) => mangled_function(a, chain, b),
        (MirStatement::If(a), MirStatement::If(b)) => mangled_if(a, chain, b),
        (MirStatement::While(a), MirStatement::While(b)) => mangled_while(a, chain, b),
        (MirStatement::For(a), MirStatement::For(b)) => mangled_for(*a, chain, *b),
        (MirStatement::Import(p), MirStatement::Import(q)) => q@ == reference_id(chain, p@),
        _ => false,
    }
}

/// `out` is what follows an `else`, mangled in `chain`: a conditional, or a
/// body in the next anonymous scope.
pub open spec fn mangled_else(
    input: MirElseBlock<AbsoluteVar, AbsolutePath>,
    chain: Seq<MangleFrame>,
    out: MirElseBlock<MangledVar, MangledVar>,
) -> bool
    decreases input,
{
    match (input, out) {
        (MirElseBlock::ElseIf(a), MirElseBlock::ElseIf(b)) => mangled_if(*a, chain, *b),
        (MirElseBlock::Else(a), MirElseBlock::Else(b)) => mangled_block(
            a@,
            anonymous_child(chain),
            b@,
        ),
        _ => false,
    }
}

/// `out` is the conditional `input` mangled in `chain`: each condition is
/// mangled in the scopes as they are when its turn comes, and each body in
/// the next anonymous scope.
pub open spec fn mangled_if(
    input: MirIf<AbsoluteVar, AbsolutePath>,
    chain: Seq<MangleFrame>,
    out: MirIf<MangledVar, MangledVar>,
) -> bool
    decreases input,
{
    &&& mangled_expr(input.condition, chain, out.condition)
    &&& mangled_block(input.block@, anonymous_child(chain), out.block@)
    &&& match (input.else_block, out.else_block) {
        (None, None) => true,
        (Some(a), Some(b)) => mangled_else(a, bumped(chain), b),
        _ => false,
    }
}

/// `out` is the statement list `input` mangled from `chain` on: each
/// statement is mangled in the scopes as the statements before it left them.
pub open spec fn mangled_block(
    input: Seq<MirStatement<AbsoluteVar, AbsolutePath>>,
    chain: Seq<MangleFrame>,
    out: Seq<MirStatement<MangledVar, MangledVar>>,
) -> bool
    decreases input,
{
    &&& input.len() == out.len()
    &&& forall|i: int|
        0 <= i < input.len() ==> mangled_stmt(
            #[trigger] input[i],
            frames_before(input, i, chain),
            out[i],
        )
}

/// The table that `variables` lists; a later entry for a name replaces an
/// earlier one.
pub open spec fn binding_table(variables: Seq<(AbsoluteVar, MangledVar)>) -> Map<Seq<char>, u64>
    decreases variables.len(),
{
    if variables.len() == 0 {
        Map::empty()
    } else {
        binding_table(variables.drop_last()).insert(variables.last().0@, variables.last().1@)
    }
}

/// A scope of the mangler. It refers to the scope around it, which it only
/// reads, and owns its table and its counter.
pub struct MangleScope<'a> {
    parent: Option<&'a MangleScope<'a>>,
    variables: Vec<(AbsoluteVar, MangledVar)>,
    unnamed_counter: usize,
    id: MangledVar,
}

impl<'a> View for MangleScope<'a> {
    type V = Seq<MangleFrame>;

    /// The scopes from the root to this one.
    closed spec fn view(&self) -> Seq<MangleFrame> {
        self.chain()
    }
}

impl<'a> MangleScope<'a> {
    /// This scope alone.
    pub closed spec fn frame(&self) -> MangleFrame {
        MangleFrame {
            salt: self.id@,
            counter: self.unnamed_counter,
            bindings: binding_table(self.variables@),
        }
    }

    /// The scopes from the root to this one.
    pub closed spec fn chain(&self) -> Seq<MangleFrame>
        decreases self,
    {
        match self.parent {
            Some(parent) => parent.chain().push(self.frame()),
            None => seq![self.frame()],
        }
    }

    /// The chain of a scope is never empty.
    pub proof fn lemma_chain_not_empty(&self)
        ensures
            self@.len() > 0,
            self@.last() == self.frame(),
    {
    }

    /// The root scope of the package `name`.
    pub fn new(name: &str) -> (scope: MangleScope<'a>)
        ensures
            scope@ == seq![fresh_frame(root_salt(name@))],
    {
        let id = MangledVar(fx_text(name, SENTINEL));
        let scope = MangleScope { parent: None, variables: Vec::new(), unnamed_counter: 0, id };
        proof {
            assert(scope.frame() == fresh_frame(root_salt(name@)));
        }
        scope
    }

    /// A new scope with salt `id` inside this one.
    pub fn new_child(&'a self, id: MangledVar) -> (child: MangleScope<'a>)
        ensures
            child@ == self@.push(fresh_frame(id@)),
    {
        let child = MangleScope {
            parent: Some(self),
            variables: Vec::new(),
            unnamed_counter: 0,
            id,
        };
        proof {
            assert(child.frame() == fresh_frame(id@));
        }
        child
    }

    /// The digest of this scope's salt and `value`: the identifier of the
    /// name `value` declared here, and the salt of the scope named `value`
    /// here.
    pub fn hash_named(&self, value: &str) -> (id: MangledVar)
        ensures
            id@ == declared_id(self@, value@),
    {
        proof {
            self.lemma_chain_not_empty();
        }
        MangledVar(fx_seeded_text(self.id.0, value, SENTINEL))
    }

    /// The salt of the next anonymous scope here; uses up its number.
    pub fn hash_unnamed(&mut self) -> (id: MangledVar)
        ensures
            id@ == anonymous_salt(old(self)@.last().salt, old(self)@.last().counter),
            final(self)@ == bumped(old(self)@),
            anonymous_child(old(self)@) == final(self)@.push(fresh_frame(id@)),
    {
        proof {
            self.lemma_chain_not_empty();
        }
        let id = MangledVar(fx_seeded_index(self.id.0, self.unnamed_counter));
        if self.unnamed_counter == usize::MAX {
            self.unnamed_counter = 0;
        } else {
            self.unnamed_counter = self.unnamed_counter + 1;
        }
        proof {
            assert(self@ =~= bumped(old(self)@));
        }
        id
    }

    fn find_defined_variable_self(&self, variable: &AbsoluteVar) -> (found: Option<MangledVar>)
        ensures
            found is Some <==> self.frame().bindings.contains_key(variable@),
            found is Some ==> found->0@ == self.frame().bindings[variable@],
    {
        let mut i: usize = self.variables.len();
        proof {
            assert(self.variables@.take(i as int) =~= self.variables@);
        }
        while i > 0
            invariant
                i <= self.variables.len(),
                binding_table(self.variables@).contains_key(variable@) == binding_table(
                    self.variables@.take(i as int),
                ).contains_key(variable@),
                binding_table(self.variables@).contains_key(variable@) ==> binding_table(
                    self.variables@,
                )[variable@] == binding_table(self.variables@.take(i as int))[variable@],
            decreases i,
        {
            i = i - 1;
            proof {
                assert(self.variables@.take(i + 1).drop_last() =~= self.variables@.take(i as int));
            }
            if self.variables[i].0.same(variable) {
                return Some(self.variables[i].1);
            }
        }
        None
    }

    /// The identifier recorded for `variable` in the nearest scope, from this
    /// one outwards.
    fn find_defined_variable(&self, variable: &AbsoluteVar) -> (found: Option<MangledVar>)
        ensures
            found is Some <==> lookup(self@, variable@) is Some,
            found is Some ==> found->0@ == lookup(self@, variable@)->0,
        decreases self,
    {
        proof {
            self.lemma_chain_not_empty();
        }
        match self.find_defined_variable_self(variable) {
            Some(id) => Some(id),
            None => match self.parent {
                Some(parent) => {
                    proof {
                        assert(self@.drop_last() =~= parent@);
                    }
                    parent.find_defined_variable(variable)
                },
                None => {
                    proof {
                        assert(self@.drop_last() =~= Seq::<MangleFrame>::empty());
                        assert(lookup(self@.drop_last(), variable@) is None);
                    }
                    None
                },
            },
        }
    }

    /// The salt of the root scope.
    fn root_id(&self) -> (salt: u64)
        ensures
            salt == self@[0].salt,
        decreases self,
    {
        match self.parent {
            Some(parent) => {
                proof {
                    parent.lemma_chain_not_empty();
                }
                parent.root_id()
            },
            None => self.id.0,
        }
    }

    /// The salt that the segments of `path` spell out under the root.
    fn find_absolute_variable(&self, path: &AbsolutePath) -> (id: MangledVar)
        ensures
            id@ == synthetic_id(self@[0].salt, path@),
    {
        let n: usize = path.len();
        let mut salt: u64 = self.root_id();
        let mut i: usize = 0;
        proof {
            assert(path@.take(0) =~= Seq::<Seq<char>>::empty());
        }
        while i < n
            invariant
                i <= n,
                n == path@.len(),
                salt == synthetic_id(self@[0].salt, path@.take(i as int)),
            decreases n - i,
        {
            proof {
                assert(path@.take(i + 1).drop_last() =~= path@.take(i as int));
            }
            salt = fx_seeded_text(salt, path.segment(i).inner(), SENTINEL);
            i = i + 1;
        }
        proof {
            assert(path@.take(n as int) =~= path@);
        }
        MangledVar(salt)
    }

    /// The identifier of a reference to `variable` from this scope.
    pub fn get_variable(&self, variable: &AbsolutePath) -> (id: MangledVar)
        ensures
            id@ == reference_id(self@, variable@),
    {
        if variable.len() == 1 {
            match self.find_defined_variable(variable.segment(0)) {
                Some(id) => id,
                None => self.find_absolute_variable(variable),
            }
        } else {
            self.find_absolute_variable(variable)
        }
    }

    /// Records the identifier `id` for `variable` in this scope. A reference
    /// to `variable` from this scope, or from scopes inside it that record
    /// nothing for the name, gets `id` from now on.
    pub fn record(&mut self, variable: AbsoluteVar, id: MangledVar)
        ensures
            final(self)@ == with_recorded(old(self)@, variable@, id@),
    {
        let ghost before = self.variables@;
        self.variables.push((variable, id));
        proof {
            self.lemma_chain_not_empty();
            assert(self.variables@.drop_last() =~= before);
            assert(self@ =~= with_recorded(old(self)@, variable@, id@));
        }
    }

    /// Declares `variable` in this scope: gives it its identifier and
    /// records it here.
    pub fn new_variable(&mut self, variable: AbsoluteVar) -> (id: MangledVar)
        ensures
            id@ == declared_id(old(self)@, variable@),
            final(self)@ == with_binding(old(self)@, variable@),
    {
        let id = self.hash_named(variable.inner());
        self.record(variable, id);
        id
    }

    /// Mangles a statement list in the next anonymous scope here.
    fn mangle_block_in_child(
        &mut self,
        value: &Vec<MirStatement<AbsoluteVar, AbsolutePath>>,
    ) -> (out: Vec<MirStatement<MangledVar, MangledVar>>)
        ensures
            mangled_block(value@, anonymous_child(old(self)@), out@),
            same_shape_block(value@, out@),
            final(self)@ == bumped(old(self)@),
        decreases value, 1nat,
    {
        let id = self.hash_unnamed();
        let mut child = MangleScope::new_child(&*self, id);
        mangle_block(value, &mut child)
    }

    /// Mangles a piece of the tree in the next anonymous scope here.
    pub fn mangle_unnamed_child<T: Mangle>(&mut self, value: T) -> (out: T::Output)
        ensures
            value.mangles_to(anonymous_child(old(self)@), out),
            value.keeps_shape(out),
            final(self)@ == bumped(old(self)@),
    {
        let id = self.hash_unnamed();
        let mut child = MangleScope::new_child(&*self, id);
        value.mangle(&mut child)
    }

    /// Mangles a whole program, or a piece of one, from the root scope of
    /// the package `name`.
    pub fn mangle_root<T: Mangle>(name: &str, value: T) -> (out: T::Output)
        ensures
            value.mangles_to(seq![fresh_frame(root_salt(name@))], out),
            value.keeps_shape(out),
    {
        let mut scope = MangleScope::new(name);
        value.mangle(&mut scope)
    }
}

/// Mangles a type in `scope`.
pub fn mangle_type(ty: &MirType<AbsolutePath>, scope: &MangleScope) -> (out: MirType<MangledVar>)
    ensures
        mangled_type(*ty, scope@, out),
        same_shape_type(*ty, out),
{
    match ty {
        MirType::Primitive(primitive) => MirType::Primitive(*primitive),
        MirType::UserDefined(path) => MirType::UserDefined(scope.get_variable(path)),
    }
}

/// Mangles an expression in `scope`.
pub fn mangle_expr(expr: &MirExpression<AbsolutePath>, scope: &MangleScope) -> (out: MirExpression<
    MangledVar,
>)
    ensures
        mangled_expr(*expr, scope@, out),
        same_shape_expr(*expr, out),
    decreases *expr,
{
    match expr {
        MirExpression::Literal(literal) => MirExpression::Literal(literal.clone()),
        MirExpression::Variable(path) => MirExpression::Variable(scope.get_variable(path)),
        MirExpression::Property(left, property) => MirExpression::Property(
            Box::new(mangle_expr(&**left, scope)),
            property.clone(),
        ),
        MirExpression::Call(path, args) => {
            let callee = scope.get_variable(path);
            MirExpression::Call(callee, mangle_exprs(args, scope))
        },
        MirExpression::Index(left, index) => MirExpression::Index(
            Box::new(mangle_expr(&**left, scope)),
            Box::new(mangle_expr(&**index, scope)),
        ),
        MirExpression::UnaryOp(op, inner) => MirExpression::UnaryOp(
            *op,
            Box::new(mangle_expr(&**inner, scope)),
        ),
        MirExpression::BinaryOp(left, op, right) => MirExpression::BinaryOp(
            Box::new(mangle_expr(&**left, scope)),
            *op,
            Box::new(mangle_expr(&**right, scope)),
        ),
    }
}

/// Mangles each expression of a list in `scope`.
pub fn mangle_exprs(exprs: &Vec<MirExpression<AbsolutePath>>, scope: &MangleScope) -> (out: Vec<
    MirExpression<MangledVar>,
>)
    ensures
        mangled_exprs(exprs@, scope@, out@),
        out@.len() == exprs@.len(),
        forall|i: int| 0 <= i < exprs@.len() ==> same_shape_expr(#[trigger] exprs@[i], out@[i]),
    decreases exprs,
{
    let mut out: Vec<MirExpression<MangledVar>> = Vec::new();
    let mut i: usize = 0;
    while i < exprs.len()
        invariant
            i <= exprs.len(),
            out@.len() == i,
            forall|j: int| 0 <= j < i ==> mangled_expr(#[trigger] exprs@[j], scope@, out@[j]),
            forall|j: int| 0 <= j < i ==> same_shape_expr(#[trigger] exprs@[j], out@[j]),
        decreases exprs.len() - i,
    {
        out.push(mangle_expr(&exprs[i], scope));
        i = i + 1;
    }
    out
}

/// Mangles a declaration in `scope` and records its name there.
pub fn mangle_decl(
    decl: &MirDeclaration<AbsoluteVar, AbsolutePath>,
    scope: &mut MangleScope,
) -> (out:
    MirDeclaration<MangledVar, MangledVar>)
    ensures
        mangled_decl(*decl, old(scope)@, out),
        same_shape_decl(*decl, out),
        final(scope)@ == with_binding(old(scope)@, decl.name@),
{
    let ty = mangle_type(&decl.ty, &*scope);
    let value = match &decl.value {
        Some(expr) => Some(mangle_expr(expr, &*scope)),
        None => None,
    };
    let name = scope.new_variable(decl.name.clone());
    MirDeclaration { is_static: decl.is_static, name, ty, value }
}

/// Mangles a parameter list in `scope`, recording each name there.
pub fn mangle_args(
    args: &Vec<(AbsoluteVar, MirType<AbsolutePath>)>,
    scope: &mut MangleScope,
) -> (out:
    Vec<(MangledVar, MirType<MangledVar>)>)
    ensures
        mangled_args(args@, old(scope)@, out@),
        same_shape_args(args@, out@),
        final(scope)@ == frames_before_arg(args@, args@.len() as int, old(scope)@),
{
    let mut out: Vec<(MangledVar, MirType<MangledVar>)> = Vec::new();
    let mut i: usize = 0;
    proof {
        scope.lemma_chain_not_empty();
    }
    while i < args.len()
        invariant
            i <= args.len(),
            out@.len() == i,
            scope@.len() > 0,
            old(scope)@.len() > 0,
            scope@.last().salt == old(scope)@.last().salt,
            scope@ == frames_before_arg(args@, i as int, old(scope)@),
            forall|j: int|
                0 <= j < i ==> out@[j].0@ == declared_id(old(scope)@, (#[trigger] args@[j]).0@)
                    && mangled_type(
                    args@[j].1,
                    frames_before_arg(args@, j, old(scope)@),
                    out@[j].1,
                ),
            forall|j: int| 0 <= j < i ==> same_shape_type((#[trigger] args@[j]).1, out@[j].1),
        decreases args.len() - i,
    {
        let ty = mangle_type(&args[i].1, &*scope);
        let name = scope.new_variable(args[i].0.clone());
        out.push((name, ty));
        i = i + 1;
    }
    out
}

/// Mangles an assignment in `scope`.
pub fn mangle_assign(assign: &MirAssignment<AbsolutePath>, scope: &MangleScope) -> (out:
    MirAssignment<MangledVar>)
    ensures
        mangled_assign(*assign, scope@, out),
        same_shape_expr(assign.value, out.value),
{
    let variable = scope.get_variable(&assign.variable);
    let value = mangle_expr(&assign.value, scope);
    MirAssignment { variable, value }
}

/// Mangles a function: records its name in `scope` and mangles its
/// parameters and its body in the scope named after it.
pub fn mangle_function(
    func: &MirFunction<AbsoluteVar, AbsolutePath>,
    scope: &mut MangleScope,
) -> (out:
    MirFunction<MangledVar, MangledVar>)
    ensures
        mangled_function(*func, old(scope)@, out),
        same_shape_stmt(MirStatement::Function(*func), MirStatement::Function(out)),
        final(scope)@ == with_binding(old(scope)@, func.name@),
    decreases *func,
{
    let name = scope.new_variable(func.name.clone());
    let return_type = mangle_type(&func.return_type, &*scope);
    let mut child = MangleScope::new_child(&*scope, name);
    let args = mangle_args(&func.args, &mut child);
    let block = mangle_block(&func.block, &mut child);
    MirFunction { is_static: func.is_static, name, args, return_type, block }
}

/// Mangles a `while`: the condition in `scope`, the body in the next
/// anonymous scope.
pub fn mangle_while(
    while_loop: &MirWhile<AbsoluteVar, AbsolutePath>,
    scope: &mut MangleScope,
) -> (out:
    MirWhile<MangledVar, MangledVar>)
    ensures
        mangled_while(*while_loop, old(scope)@, out),
        same_shape_stmt(MirStatement::While(*while_loop), MirStatement::While(out)),
        final(scope)@ == bumped(old(scope)@),
    decreases *while_loop,
{
    let condition = mangle_expr(&while_loop.condition, &*scope);
    let block = scope.mangle_block_in_child(&while_loop.block);
    MirWhile { condition, block }
}

/// Mangles a `for`, all of it in the next anonymous scope.
pub fn mangle_for(for_loop: &MirFor<AbsoluteVar, AbsolutePath>, scope: &mut MangleScope) -> (out:
    MirFor<MangledVar, MangledVar>)
    ensures
        mangled_for(*for_loop, old(scope)@, out),
        same_shape_stmt(
            MirStatement::For(Box::new(*for_loop)),
            MirStatement::For(Box::new(out)),
        ),
        final(scope)@ == bumped(old(scope)@),
    decreases *for_loop,
{
    let id = scope.hash_unnamed();
    let mut child = MangleScope::new_child(&*scope, id);
    let init = mangle_decl(&for_loop.init, &mut child);
    let condition = mangle_expr(&for_loop.condition, &child);
    let update = mangle_stmt(&for_loop.update, &mut child);
    let block = mangle_block(&for_loop.block, &mut child);
    MirFor { init, condition, update, block }
}

/// Mangles a statement in `scope`.
pub fn mangle_stmt(stmt: &MirStatement<AbsoluteVar, AbsolutePath>, scope: &mut MangleScope) -> (out:
    MirStatement<MangledVar, MangledVar>)
    ensures
        mangled_stmt(*stmt, old(scope)@, out),
        same_shape_stmt(*stmt, out),
        final(scope)@ == frames_after_stmt(*stmt, old(scope)@),
    decreases *stmt,
{
    match stmt {
        MirStatement::Block(block) => MirStatement::Block(scope.mangle_block_in_child(block)),
        MirStatement::Unsafe(block) => MirStatement::Unsafe(scope.mangle_block_in_child(block)),
        MirStatement::Expression(expr) => MirStatement::Expression(mangle_expr(expr, &*scope)),
        MirStatement::Return(value) => MirStatement::Return(mangle_expr(value, &*scope)),
        MirStatement::Assignment(assign) => MirStatement::Assignment(
            mangle_assign(assign, &*scope),
        ),
        MirStatement::Declaration(decl) => MirStatement::Declaration(mangle_decl(decl, scope)),
        MirStatement::Function(func) => MirStatement::Function(mangle_function(func, scope)),
        MirStatement::For(for_loop) => MirStatement::For(Box::new(mangle_for(&**for_loop, scope))),
        MirStatement::While(while_loop) => MirStatement::While(mangle_while(while_loop, scope)),
        MirStatement::If(if_block) => MirStatement::If(mangle_if(if_block, scope)),
        MirStatement::Import(path) => MirStatement::Import(scope.get_variable(path)),
    }
}

/// Mangles what follows an `else`.
pub fn mangle_else(
    else_block: &MirElseBlock<AbsoluteVar, AbsolutePath>,
    scope: &mut MangleScope,
) -> (out:
    MirElseBlock<MangledVar, MangledVar>)
    ensures
        mangled_else(*else_block, old(scope)@, out),
        same_shape_else(*else_block, out),
        final(scope)@ == frames_after_else(*else_block, old(scope)@),
    decreases *else_block,
{
    match else_block {
        MirElseBlock::ElseIf(inner) => MirElseBlock::ElseIf(Box::new(mangle_if(&**inner, scope))),
        MirElseBlock::Else(stmts) => MirElseBlock::Else(scope.mangle_block_in_child(stmts)),
    }
}

/// Mangles a conditional: each condition in `scope`, each body in the next
/// anonymous scope.
pub fn mangle_if(if_block: &MirIf<AbsoluteVar, AbsolutePath>, scope: &mut MangleScope) -> (out:
    MirIf<MangledVar, MangledVar>)
    ensures
        mangled_if(*if_block, old(scope)@, out),
        same_shape_if(*if_block, out),
        final(scope)@ == frames_after_if(*if_block, old(scope)@),
    decreases *if_block,
{
    let condition = mangle_expr(&if_block.condition, &*scope);
    let block = scope.mangle_block_in_child(&if_block.block);
    let else_block = match &if_block.else_block {
        None => None,
        Some(other) => Some(mangle_else(other, scope)),
    };
    MirIf { condition, block, else_block }
}

/// Mangles statements in `scope`, in the order they are written.
pub fn mangle_block(
    stmts: &Vec<MirStatement<AbsoluteVar, AbsolutePath>>,
    scope: &mut MangleScope,
) -> (out:
    Vec<MirStatement<MangledVar, MangledVar>>)
    ensures
        mangled_block(stmts@, old(scope)@, out@),
        same_shape_block(stmts@, out@),
        final(scope)@ == frames_before(stmts@, stmts@.len() as int, old(scope)@),
    decreases stmts, 0nat,
{
    let mut out: Vec<MirStatement<MangledVar, MangledVar>> = Vec::new();
    let mut i: usize = 0;
    while i < stmts.len()
        invariant
            i <= stmts.len(),
            out@.len() == i,
            scope@ == frames_before(stmts@, i as int, old(scope)@),
            forall|j: int|
                0 <= j < i ==> mangled_stmt(
                    #[trigger] stmts@[j],
                    frames_before(stmts@, j, old(scope)@),
                    out@[j],
                ),
            forall|j: int| 0 <= j < i ==> same_shape_stmt(#[trigger] stmts@[j], out@[j]),
        decreases stmts.len() - i,
    {
        out.push(mangle_stmt(&stmts[i], scope));
        i = i + 1;
    }
    out
}

/// Recording a name changes what that name refers to, and nothing else: a
/// reference to the recorded name finds the new identifier, and every other
/// name refers to what it referred to before.
pub proof fn lemma_lookup_with_recorded(
    chain: Seq<MangleFrame>,
    recorded: Seq<char>,
    id: u64,
    name: Seq<char>,
)
    requires
        chain.len() > 0,
    ensures
        lookup(with_recorded(chain, recorded, id), name) == if name == recorded {
            Some(id)
        } else {
            lookup(chain, name)
        },
{
    let after = with_recorded(chain, recorded, id);
    assert(after.drop_last() =~= chain.drop_last());
}

/// Declaring a name changes what that name refers to, and nothing else: a
/// reference to the declared name finds the identifier of the declaration,
/// and every other name refers to what it referred to before.
pub proof fn lemma_lookup_with_binding(
    chain: Seq<MangleFrame>,
    declared: Seq<char>,
    name: Seq<char>,
)
    requires
        chain.len() > 0,
    ensures
        lookup(with_binding(chain, declared), name) == if name == declared {
            Some(declared_id(chain, declared))
        } else {
            lookup(chain, name)
        },
{
    lemma_lookup_with_recorded(chain, declared, declared_id(chain, declared), name);
}

/// Making an anonymous scope does not change what any name refers to.
pub proof fn lemma_lookup_bumped(chain: Seq<MangleFrame>, name: Seq<char>)
    ensures
        lookup(bumped(chain), name) == lookup(chain, name),
{
    if chain.len() > 0 {
        assert(bumped(chain).drop_last() =~= chain.drop_last());
    }
}

/// Scopes in which `name` is not declared do not hide it: a reference from
/// inside them finds what a reference from outside them finds.
pub proof fn lemma_lookup_through(
    chain: Seq<MangleFrame>,
    deeper: Seq<MangleFrame>,
    name: Seq<char>,
)
    requires
        forall|i: int| 0 <= i < deeper.len() ==> !(#[trigger] deeper[i]).bindings.contains_key(name),
    ensures
        lookup(chain + deeper, name) == lookup(chain, name),
    decreases deeper.len(),
{
    if deeper.len() == 0 {
        assert(chain + deeper =~= chain);
    } else {
        assert((chain + deeper).drop_last() =~= chain + deeper.drop_last());
        assert((chain + deeper).last() == deeper.last());
        lemma_lookup_through(chain, deeper.drop_last(), name);
    }
}

/// Shadowing. When `name` is declared in a scope with salt `inner_salt`
/// inside `chain`, a reference to it from that scope, or from scopes nested
/// in it that do not declare the name themselves, gets the identifier of that
/// inner declaration, whatever the scopes of `chain` have recorded for the
/// name. That identifier differs from the identifier of a declaration of the
/// same name in an enclosing scope wherever the two digests differ.
pub proof fn lemma_shadowing(
    chain: Seq<MangleFrame>,
    inner_salt: u64,
    name: Seq<char>,
    deeper: Seq<MangleFrame>,
    outer: int,
)
    requires
        0 <= outer < chain.len(),
        forall|i: int| 0 <= i < deeper.len() ==> !(#[trigger] deeper[i]).bindings.contains_key(name),
    ensures
        ({
            let inner = with_binding(chain.push(fresh_frame(inner_salt)), name);
            &&& declared_id(chain.push(fresh_frame(inner_salt)), name) == named_salt(inner_salt, name)
            &&& reference_id(inner, seq![name]) == named_salt(inner_salt, name)
            &&& reference_id(inner + deeper, seq![name]) == named_salt(inner_salt, name)
            &&& named_salt(inner_salt, name) != named_salt(chain[outer].salt, name)
                ==> reference_id(inner + deeper, seq![name]) != named_salt(chain[outer].salt, name)
        }),
{
    let scope = chain.push(fresh_frame(inner_salt));
    let inner = with_binding(scope, name);
    lemma_lookup_with_binding(scope, name, name);
    lemma_lookup_through(inner, deeper, name);
}

/// A reference that is not a plain recorded name gets the same identifier
/// wherever it stands: the identifier depends on the path and on the salt of
/// the root alone.
pub proof fn lemma_reference_position_independent(
    here: Seq<MangleFrame>,
    there: Seq<MangleFrame>,
    path: Seq<Seq<char>>,
)
    requires
        here.len() > 0,
        there.len() > 0,
        here[0].salt == there[0].salt,
        path.len() == 1 ==> lookup(here, path[0]) is None && lookup(there, path[0]) is None,
    ensures
        reference_id(here, path) == reference_id(there, path),
        reference_id(here, path) == synthetic_id(here[0].salt, path),
{
}

/// A name declared directly in the root scope and a reference to it that no
/// scope has recorded get the same identifier.
pub proof fn lemma_root_declaration_matches_reference(chain: Seq<MangleFrame>, name: Seq<char>)
    requires
        chain.len() > 0,
        lookup(chain, name) is None,
    ensures
        reference_id(chain, seq![name]) == declared_id(seq![chain[0]], name),
{
    let path = seq![name];
    assert(path.drop_last() =~= Seq::<Seq<char>>::empty());
    assert(synthetic_id(chain[0].salt, path.drop_last()) == chain[0].salt);
}


/// What the mangler can rewrite: a piece of the tree with fully qualified
/// paths.
pub trait Mangle: Sized {
    type Output;

    /// Whether `out` is this piece mangled in `chain`.
    spec fn mangles_to(&self, chain: Seq<MangleFrame>, out: Self::Output) -> bool;

    /// The scopes as mangling this piece leaves them.
    spec fn frames_after(&self, chain: Seq<MangleFrame>) -> Seq<MangleFrame>;

    /// Whether `out` has the shape of this piece.
    spec fn keeps_shape(&self, out: Self::Output) -> bool;

    /// Mangles this piece in `scope`.
    fn mangle(self, scope: &mut MangleScope) -> (out: Self::Output)
        ensures
            self.mangles_to(old(scope)@, out),
            self.keeps_shape(out),
            final(scope)@ == self.frames_after(old(scope)@),
    ;
}

impl Mangle for AbsolutePath {
    type Output = MangledVar;

    open spec fn keeps_shape(&self, out: MangledVar) -> bool {
        true
    }

    open spec fn mangles_to(&self, chain: Seq<MangleFrame>, out: MangledVar) -> bool {
        out@ == reference_id(chain, self@)
    }

    open spec fn frames_after(&self, chain: Seq<MangleFrame>) -> Seq<MangleFrame> {
        chain
    }

    fn mangle(self, scope: &mut MangleScope) -> (out: MangledVar) {
        scope.get_variable(&self)
    }
}

impl Mangle for MirType<AbsolutePath> {
    type Output = MirType<MangledVar>;

    open spec fn keeps_shape(&self, out: MirType<MangledVar>) -> bool {
        same_shape_type(*self, out)
    }

    open spec fn mangles_to(&self, chain: Seq<MangleFrame>, out: MirType<MangledVar>) -> bool {
        mangled_type(*self, chain, out)
    }

    open spec fn frames_after(&self, chain: Seq<MangleFrame>) -> Seq<MangleFrame> {
        chain
    }

    fn mangle(self, scope: &mut MangleScope) -> (out: MirType<MangledVar>) {
        mangle_type(&self, &*scope)
    }
}

impl Mangle for MirExpression<AbsolutePath> {
    type Output = MirExpression<MangledVar>;

    open spec fn keeps_shape(&self, out: MirExpression<MangledVar>) -> bool {
        same_shape_expr(*self, out)
    }

    open spec fn mangles_to(
        &self,
        chain: Seq<MangleFrame>,
        out: MirExpression<MangledVar>,
    ) -> bool {
        mangled_expr(*self, chain, out)
    }

    open spec fn frames_after(&self, chain: Seq<MangleFrame>) -> Seq<MangleFrame> {
        chain
    }

    fn mangle(self, scope: &mut MangleScope) -> (out: MirExpression<MangledVar>) {
        mangle_expr(&self, &*scope)
    }
}

impl Mangle for Vec<MirExpression<AbsolutePath>> {
    type Output = Vec<MirExpression<MangledVar>>;

    open spec fn keeps_shape(&self, out: Vec<MirExpression<MangledVar>>) -> bool {
        self@.len() == out@.len() && forall|i: int|
            0 <= i < self@.len() ==> same_shape_expr(#[trigger] self@[i], out@[i])
    }

    open spec fn mangles_to(
        &self,
        chain: Seq<MangleFrame>,
        out: Vec<MirExpression<MangledVar>>,
    ) -> bool {
        mangled_exprs(self@, chain, out@)
    }

    open spec fn frames_after(&self, chain: Seq<MangleFrame>) -> Seq<MangleFrame> {
        chain
    }

    fn mangle(self, scope: &mut MangleScope) -> (out: Vec<MirExpression<MangledVar>>) {
        mangle_exprs(&self, &*scope)
    }
}

impl Mangle for MirAssignment<AbsolutePath> {
    type Output = MirAssignment<MangledVar>;

    open spec fn keeps_shape(&self, out: MirAssignment<MangledVar>) -> bool {
        same_shape_expr(self.value, out.value)
    }

    open spec fn mangles_to(
        &self,
        chain: Seq<MangleFrame>,
        out: MirAssignment<MangledVar>,
    ) -> bool {
        mangled_assign(*self, chain, out)
    }

    open spec fn frames_after(&self, chain: Seq<MangleFrame>) -> Seq<MangleFrame> {
        chain
    }

    fn mangle(self, scope: &mut MangleScope) -> (out: MirAssignment<MangledVar>) {
        mangle_assign(&self, &*scope)
    }
}

impl Mangle for MirDeclaration<AbsoluteVar, AbsolutePath> {
    type Output = MirDeclaration<MangledVar, MangledVar>;

    open spec fn keeps_shape(&self, out: MirDeclaration<MangledVar, MangledVar>) -> bool {
        same_shape_decl(*self, out)
    }

    open spec fn mangles_to(
        &self,
        chain: Seq<MangleFrame>,
        out: MirDeclaration<MangledVar, MangledVar>,
    ) -> bool {
        mangled_decl(*self, chain, out)
    }

    open spec fn frames_after(&self, chain: Seq<MangleFrame>) -> Seq<MangleFrame> {
        with_binding(chain, self.name@)
    }

    fn mangle(self, scope: &mut MangleScope) -> (out: MirDeclaration<MangledVar, MangledVar>) {
        mangle_decl(&self, scope)
    }
}

impl Mangle for MirFunction<AbsoluteVar, AbsolutePath> {
    type Output = MirFunction<MangledVar, MangledVar>;

    open spec fn keeps_shape(&self, out: MirFunction<MangledVar, MangledVar>) -> bool {
        same_shape_stmt(MirStatement::Function(*self), MirStatement::Function(out))
    }

    open spec fn mangles_to(
        &self,
        chain: Seq<MangleFrame>,
        out: MirFunction<MangledVar, MangledVar>,
    ) -> bool {
        mangled_function(*self, chain, out)
    }

    open spec fn frames_after(&self, chain: Seq<MangleFrame>) -> Seq<MangleFrame> {
        with_binding(chain, self.name@)
    }

    fn mangle(self, scope: &mut MangleScope) -> (out: MirFunction<MangledVar, MangledVar>) {
        mangle_function(&self, scope)
    }
}

impl Mangle for MirFor<AbsoluteVar, AbsolutePath> {
    type Output = MirFor<MangledVar, MangledVar>;

    open spec fn keeps_shape(&self, out: MirFor<MangledVar, MangledVar>) -> bool {
        same_shape_stmt(MirStatement::For(Box::new(*self)), MirStatement::For(Box::new(out)))
    }

    open spec fn mangles_to(
        &self,
        chain: Seq<MangleFrame>,
        out: MirFor<MangledVar, MangledVar>,
    ) -> bool {
        mangled_for(*self, chain, out)
    }

    open spec fn frames_after(&self, chain: Seq<MangleFrame>) -> Seq<MangleFrame> {
        bumped(chain)
    }

    fn mangle(self, scope: &mut MangleScope) -> (out: MirFor<MangledVar, MangledVar>) {
        mangle_for(&self, scope)
    }
}

impl Mangle for MirWhile<AbsoluteVar, AbsolutePath> {
    type Output = MirWhile<MangledVar, MangledVar>;

    open spec fn keeps_shape(&self, out: MirWhile<MangledVar, MangledVar>) -> bool {
        same_shape_stmt(MirStatement::While(*self), MirStatement::While(out))
    }

    open spec fn mangles_to(
        &self,
        chain: Seq<MangleFrame>,
        out: MirWhile<MangledVar, MangledVar>,
    ) -> bool {
        mangled_while(*self, chain, out)
    }

    open spec fn frames_after(&self, chain: Seq<MangleFrame>) -> Seq<MangleFrame> {
        bumped(chain)
    }

    fn mangle(self, scope: &mut MangleScope) -> (out: MirWhile<MangledVar, MangledVar>) {
        mangle_while(&self, scope)
    }
}

impl Mangle for MirIf<AbsoluteVar, AbsolutePath> {
    type Output = MirIf<MangledVar, MangledVar>;

    open spec fn keeps_shape(&self, out: MirIf<MangledVar, MangledVar>) -> bool {
        same_shape_if(*self, out)
    }

    open spec fn mangles_to(
        &self,
        chain: Seq<MangleFrame>,
        out: MirIf<MangledVar, MangledVar>,
    ) -> bool {
        mangled_if(*self, chain, out)
    }

    open spec fn frames_after(&self, chain: Seq<MangleFrame>) -> Seq<MangleFrame> {
        frames_after_if(*self, chain)
    }

    fn mangle(self, scope: &mut MangleScope) -> (out: MirIf<MangledVar, MangledVar>) {
        mangle_if(&self, scope)
    }
}

impl Mangle for MirElseBlock<AbsoluteVar, AbsolutePath> {
    type Output = MirElseBlock<MangledVar, MangledVar>;

    open spec fn keeps_shape(&self, out: MirElseBlock<MangledVar, MangledVar>) -> bool {
        same_shape_else(*self, out)
    }

    open spec fn mangles_to(
        &self,
        chain: Seq<MangleFrame>,
        out: MirElseBlock<MangledVar, MangledVar>,
    ) -> bool {
        mangled_else(*self, chain, out)
    }

    open spec fn frames_after(&self, chain: Seq<MangleFrame>) -> Seq<MangleFrame> {
        frames_after_else(*self, chain)
    }

    fn mangle(self, scope: &mut MangleScope) -> (out: MirElseBlock<MangledVar, MangledVar>) {
        mangle_else(&self, scope)
    }
}

impl Mangle for MirStatement<AbsoluteVar, AbsolutePath> {
    type Output = MirStatement<MangledVar, MangledVar>;

    open spec fn keeps_shape(&self, out: MirStatement<MangledVar, MangledVar>) -> bool {
        same_shape_stmt(*self, out)
    }

    open spec fn mangles_to(
        &self,
        chain: Seq<MangleFrame>,
        out: MirStatement<MangledVar, MangledVar>,
    ) -> bool {
        mangled_stmt(*self, chain, out)
    }

    open spec fn frames_after(&self, chain: Seq<MangleFrame>) -> Seq<MangleFrame> {
        frames_after_stmt(*self, chain)
    }

    fn mangle(self, scope: &mut MangleScope) -> (out: MirStatement<MangledVar, MangledVar>) {
        mangle_stmt(&self, scope)
    }
}

impl Mangle for Vec<MirStatement<AbsoluteVar, AbsolutePath>> {
    type Output = Vec<MirStatement<MangledVar, MangledVar>>;

    open spec fn keeps_shape(&self, out: Vec<MirStatement<MangledVar, MangledVar>>) -> bool {
        same_shape_block(self@, out@)
    }

    open spec fn mangles_to(
        &self,
        chain: Seq<MangleFrame>,
        out: Vec<MirStatement<MangledVar, MangledVar>>,
    ) -> bool {
        mangled_block(self@, chain, out@)
    }

    open spec fn frames_after(&self, chain: Seq<MangleFrame>) -> Seq<MangleFrame> {
        frames_before(self@, self@.len() as int, chain)
    }

    fn mangle(self, scope: &mut MangleScope) -> (out: Vec<MirStatement<MangledVar, MangledVar>>) {
        mangle_block(&self, scope)
    }
}

} // verus!
