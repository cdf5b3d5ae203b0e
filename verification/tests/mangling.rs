use rustc_hash::FxHasher;
use std::hash::Hasher;
use stonescript::hir::{Statement, TokenIter};
use stonescript::mir::{
    AbsolutePath, AbsoluteScope, AbsoluteVar, Mangle, MangleScope, MangledVar, MirAssignment,
    MirDeclaration, MirElseBlock, MirExpression, MirFunction, MirIf, MirPrimitive, MirStatement,
    MirType, MirWhile, RelativePath, ToAbsolute, ToMir,
};
use stonescript::token::tree::parse_str;
use stonescript::{LiteralType, XID};

type Raw = MirStatement<XID, RelativePath>;
type Absolute = MirStatement<AbsoluteVar, AbsolutePath>;
type Mangled = MirStatement<MangledVar, MangledVar>;

fn hash_root(name: &str) -> u64 {
    let mut hasher = FxHasher::default();
    hasher.write(name.as_bytes());
    hasher.write_u8(0xFF);
    hasher.finish()
}

fn hash_named(parent: u64, name: &str) -> u64 {
    let mut hasher = FxHasher::default();
    hasher.write_u64(parent);
    hasher.write(name.as_bytes());
    hasher.write_u8(0xFF);
    hasher.finish()
}

fn hash_unnamed(parent: u64, index: usize) -> u64 {
    let mut hasher = FxHasher::default();
    hasher.write_u64(parent);
    hasher.write_usize(index);
    hasher.finish()
}

fn xid(name: &str) -> XID {
    XID::new(name).expect("a valid identifier")
}

fn rel(names: &[&str]) -> RelativePath {
    RelativePath::new(names.iter().map(|name| xid(name)).collect()).expect("a path")
}

fn abs(names: &[&str]) -> AbsolutePath {
    AbsolutePath::new(names.iter().map(|name| AbsoluteVar::new(xid(name))).collect())
        .expect("a path")
}

fn names_of(path: &AbsolutePath) -> Vec<String> {
    path.inner().iter().map(|segment| segment.inner().to_string()).collect()
}

fn int_type() -> MirType<RelativePath> {
    MirType::Primitive(MirPrimitive::Int)
}

fn declare(is_static: bool, name: &str, value: Option<MirExpression<RelativePath>>) -> Raw {
    MirStatement::Declaration(MirDeclaration { is_static, name: xid(name), ty: int_type(), value })
}

fn variable(names: &[&str]) -> MirExpression<RelativePath> {
    MirExpression::Variable(rel(names))
}

fn lower(source: &str) -> Vec<Raw> {
    let tokens = parse_str(source).expect("the text should tokenise");
    let ast: Vec<Statement> = TokenIter::new(&tokens).parse().expect("the tokens should parse");
    ast.into_mir()
}

fn compile(package: &str, source: &str) -> Vec<Mangled> {
    MangleScope::mangle_root(package, AbsoluteScope::root_to_absolute(lower(source)))
}

fn mangle(package: &str, tree: Vec<Raw>) -> Vec<Mangled> {
    MangleScope::mangle_root(package, AbsoluteScope::root_to_absolute(tree))
}

fn declared(statement: &Mangled) -> MangledVar {
    match statement {
        MirStatement::Declaration(declaration) => declaration.name,
        MirStatement::Function(function) => function.name,
        other => panic!("expected a declaration, got {:?}", other),
    }
}

fn referenced(statement: &Mangled) -> MangledVar {
    match statement {
        MirStatement::Expression(MirExpression::Variable(id)) => *id,
        MirStatement::Return(MirExpression::Variable(id)) => *id,
        other => panic!("expected a reference, got {:?}", other),
    }
}

fn block(statement: &Mangled) -> &Vec<Mangled> {
    match statement {
        MirStatement::Block(statements) => statements,
        MirStatement::Unsafe(statements) => statements,
        other => panic!("expected a block, got {:?}", other),
    }
}

#[test]
fn end_to_end_static_function() {
    let lowered = lower("static function test(): void {}");
    assert_eq!(lowered.len(), 1);
    match &lowered[0] {
        MirStatement::Function(function) => {
            assert_eq!(function.name.inner(), "test");
            assert!(function.is_static);
            assert!(function.args.is_empty());
            assert!(function.block.is_empty());
            assert_eq!(function.return_type, MirType::Primitive(MirPrimitive::Void));
        }
        other => panic!("expected a function, got {:?}", other),
    }
    let resolved = AbsoluteScope::root_to_absolute(lowered);
    match &resolved[0] {
        MirStatement::Function(function) => assert_eq!(function.name.inner(), "test"),
        other => panic!("expected a function, got {:?}", other),
    }
    let mangled = MangleScope::mangle_root("demo", resolved);
    assert_eq!(mangled.len(), 1);
    let expected = hash_named(hash_root("demo"), "test");
    match &mangled[0] {
        MirStatement::Function(function) => {
            assert_eq!(function.name.value(), expected);
            assert_eq!(function.name.to_string(), format!("{:016X}", expected));
            assert_eq!(function.name.to_string().len(), 16);
            assert!(function.is_static);
            assert!(function.args.is_empty());
            assert!(function.block.is_empty());
            assert_eq!(function.return_type, MirType::Primitive(MirPrimitive::Void));
        }
        other => panic!("expected a function, got {:?}", other),
    }
    assert_eq!(compile("demo", "static function test(): void {}"), mangled);
}

#[test]
fn identifiers_are_written_as_sixteen_upper_case_digits() {
    assert_eq!(MangledVar::new(0).to_string(), "0000000000000000");
    assert_eq!(MangledVar::new(u64::MAX).to_string(), "FFFFFFFFFFFFFFFF");
    assert_eq!(MangledVar::new(0x0123_4567_89AB_CDEF).to_string(), "0123456789ABCDEF");
    assert_eq!(MangledVar::new(0xfedc_ba98_7654_3210).to_string(), "FEDCBA9876543210");
    assert_eq!(MangledVar::new(255).to_string(), "00000000000000FF");
    assert_eq!(MangledVar::new(0x0123_4567_89AB_CDEF).value(), 0x0123_4567_89AB_CDEF);
}

#[test]
fn determinism() {
    let source = "import lib.io; static total: int = 0 ; function add(a: int, b: int): int { \
                  let sum: int = a + b ; { let sum: int = sum ; io.print(sum ); } return sum; } \
                  if (total) { add(1 , 2 ); } else { total = 3 ; }";
    let first = compile("demo", source);
    let second = compile("demo", source);
    assert_eq!(first, second);
    assert_eq!(format!("{:?}", first), format!("{:?}", second));
    assert_ne!(first, compile("other", source));
}

#[test]
fn salts_are_digests_of_the_parent_salt_and_a_name_or_a_number() {
    let root = MangleScope::new("demo");
    assert_eq!(root.hash_named("x").value(), hash_named(hash_root("demo"), "x"));
    let mut root = MangleScope::new("demo");
    let first = root.hash_unnamed();
    let second = root.hash_unnamed();
    assert_eq!(first.value(), hash_unnamed(hash_root("demo"), 0));
    assert_eq!(second.value(), hash_unnamed(hash_root("demo"), 1));
    assert_ne!(first, second);
    let child = root.new_child(first);
    assert_eq!(child.hash_named("x").value(), hash_named(first.value(), "x"));
    assert_ne!(hash_root("demo"), hash_root("demp"));
    assert_ne!(hash_named(1, "ab"), hash_named(1, "ba"));
}

#[test]
fn sentinel_keeps_segment_boundaries_apart() {
    let root = MangleScope::new("demo");
    let left = root.get_variable(&abs(&["ab", "c"]));
    let right = root.get_variable(&abs(&["a", "bc"]));
    assert_ne!(left, right);
    assert_eq!(
        left.value(),
        hash_named(hash_named(hash_root("demo"), "ab"), "c")
    );
    assert_eq!(
        right.value(),
        hash_named(hash_named(hash_root("demo"), "a"), "bc")
    );
}

#[test]
fn shadowing() {
    let tree = vec![
        declare(true, "x", None),
        MirStatement::Expression(variable(&["x"])),
        MirStatement::Block(vec![
            MirStatement::Expression(variable(&["x"])),
            declare(false, "x", None),
            MirStatement::Expression(variable(&["x"])),
            MirStatement::Block(vec![MirStatement::Expression(variable(&["x"]))]),
        ]),
        MirStatement::Expression(variable(&["x"])),
    ];
    let mangled = mangle("demo", tree);
    let root = hash_root("demo");
    let outer = hash_named(root, "x");
    let inner_scope = hash_unnamed(root, 0);
    let inner = hash_named(inner_scope, "x");
    assert_ne!(outer, inner);
    assert_eq!(declared(&mangled[0]).value(), outer);
    assert_eq!(referenced(&mangled[1]).value(), outer);
    let body = block(&mangled[2]);
    assert_eq!(referenced(&body[0]).value(), outer);
    assert_eq!(declared(&body[1]).value(), inner);
    assert_eq!(referenced(&body[2]).value(), inner);
    assert_eq!(referenced(&block(&body[3])[0]).value(), inner);
    assert_eq!(referenced(&mangled[3]).value(), outer);
}

#[test]
fn declaration_order_sensitivity() {
    let tree = vec![
        declare(true, "x", None),
        MirStatement::Block(vec![declare(false, "x", Some(variable(&["x"])))]),
    ];
    let mangled = mangle("demo", tree);
    let outer = hash_named(hash_root("demo"), "x");
    let inner = hash_named(hash_unnamed(hash_root("demo"), 0), "x");
    assert_eq!(declared(&mangled[0]).value(), outer);
    match &block(&mangled[1])[0] {
        MirStatement::Declaration(declaration) => {
            assert_eq!(declaration.name.value(), inner);
            assert_eq!(declaration.value, Some(MirExpression::Variable(MangledVar::new(outer))));
        }
        other => panic!("expected a declaration, got {:?}", other),
    }
    let parsed = compile("demo", "static x: int; { let x: int = x; }");
    assert_eq!(parsed, mangled);
}

#[test]
fn an_initializer_sees_the_import_that_its_own_name_shadows() {
    let tree = vec![
        MirStatement::Import(rel(&["a", "x"])),
        MirStatement::Block(vec![
            declare(false, "x", Some(variable(&["x", "y"]))),
            MirStatement::Expression(variable(&["x", "y"])),
        ]),
    ];
    let resolved = AbsoluteScope::root_to_absolute(tree);
    match &resolved[1] {
        MirStatement::Block(body) => {
            match &body[0] {
                MirStatement::Declaration(declaration) => match &declaration.value {
                    Some(MirExpression::Variable(path)) => {
                        assert_eq!(names_of(path), vec!["a", "x", "y"])
                    }
                    other => panic!("expected a variable, got {:?}", other),
                },
                other => panic!("expected a declaration, got {:?}", other),
            }
            match &body[1] {
                MirStatement::Expression(MirExpression::Variable(path)) => {
                    assert_eq!(names_of(path), vec!["x", "y"])
                }
                other => panic!("expected a variable, got {:?}", other),
            }
        }
        other => panic!("expected a block, got {:?}", other),
    }
}

#[test]
fn resolution_looks_up_the_first_segment_only() {
    let mut scope = AbsoluteScope::root();
    assert_eq!(names_of(&scope.resolve(&rel(&["io", "print"]))), vec!["io", "print"]);
    let imported = scope.new_import(rel(&["std", "io"]));
    assert_eq!(names_of(&imported), vec!["std", "io"]);
    assert_eq!(names_of(&scope.resolve(&rel(&["io"]))), vec!["std", "io"]);
    assert_eq!(names_of(&scope.resolve(&rel(&["io", "print"]))), vec!["std", "io", "print"]);
    assert_eq!(names_of(&scope.resolve(&rel(&["print", "io"]))), vec!["print", "io"]);
    let again = scope.new_import(rel(&["io", "print"]));
    assert_eq!(names_of(&again), vec!["std", "io", "print"]);
    assert_eq!(names_of(&scope.resolve(&rel(&["print"]))), vec!["std", "io", "print"]);
    {
        let mut child = scope.new_child();
        assert_eq!(names_of(&child.resolve(&rel(&["io", "x"]))), vec!["std", "io", "x"]);
        let declared = child.new_variable(xid("io"));
        assert_eq!(declared.inner(), "io");
        assert_eq!(names_of(&child.resolve(&rel(&["io", "x"]))), vec!["io", "x"]);
        child.new_import(rel(&["other", "print"]));
        assert_eq!(names_of(&child.resolve(&rel(&["print"]))), vec!["other", "print"]);
    }
    assert_eq!(names_of(&scope.resolve(&rel(&["io", "x"]))), vec!["std", "io", "x"]);
    assert_eq!(names_of(&scope.resolve(&rel(&["print"]))), vec!["std", "io", "print"]);
}

#[test]
fn unresolved_names_fall_back_to_themselves() {
    let scope = AbsoluteScope::root();
    assert_eq!(names_of(&scope.resolve(&rel(&["typo"]))), vec!["typo"]);
    assert_eq!(names_of(&scope.resolve(&rel(&["a", "b", "c"]))), vec!["a", "b", "c"]);
    let root = MangleScope::new("demo");
    assert_eq!(
        root.get_variable(&abs(&["typo"])).value(),
        hash_named(hash_root("demo"), "typo")
    );
}

#[test]
fn path_equivalence() {
    let through_alias = vec![
        MirStatement::Import(rel(&["lib", "io"])),
        MirStatement::Block(vec![MirStatement::Expression(variable(&["io", "print"]))]),
    ];
    let direct = vec![MirStatement::Function(MirFunction {
        is_static: false,
        name: xid("f"),
        args: vec![],
        return_type: int_type(),
        block: vec![MirStatement::Expression(variable(&["lib", "io", "print"]))],
    })];
    let through_alias = mangle("demo", through_alias);
    let direct = mangle("demo", direct);
    let expected = hash_named(hash_named(hash_named(hash_root("demo"), "lib"), "io"), "print");
    let first = referenced(&block(&through_alias[1])[0]);
    let second = match &direct[0] {
        MirStatement::Function(function) => referenced(&function.block[0]),
        other => panic!("expected a function, got {:?}", other),
    };
    assert_eq!(first, second);
    assert_eq!(first.value(), expected);
    match &through_alias[0] {
        MirStatement::Import(id) => {
            assert_eq!(id.value(), hash_named(hash_named(hash_root("demo"), "lib"), "io"))
        }
        other => panic!("expected an import, got {:?}", other),
    }
}

#[test]
fn functions_are_named_scopes() {
    let mangled = compile(
        "demo",
        "function f(a: int, b: thing): other { a; b; f; { a; } } f; a;",
    );
    let root = hash_root("demo");
    let f = hash_named(root, "f");
    match &mangled[0] {
        MirStatement::Function(function) => {
            assert_eq!(function.name.value(), f);
            assert_eq!(function.args[0].0.value(), hash_named(f, "a"));
            assert_eq!(function.args[1].0.value(), hash_named(f, "b"));
            assert_eq!(function.args[0].1, MirType::Primitive(MirPrimitive::Int));
            assert_eq!(
                function.args[1].1,
                MirType::UserDefined(MangledVar::new(hash_named(root, "thing")))
            );
            assert_eq!(
                function.return_type,
                MirType::UserDefined(MangledVar::new(hash_named(root, "other")))
            );
            assert_eq!(referenced(&function.block[0]).value(), hash_named(f, "a"));
            assert_eq!(referenced(&function.block[1]).value(), hash_named(f, "b"));
            assert_eq!(referenced(&function.block[2]).value(), f);
            assert_eq!(referenced(&block(&function.block[3])[0]).value(), hash_named(f, "a"));
        }
        other => panic!("expected a function, got {:?}", other),
    }
    assert_eq!(referenced(&mangled[1]).value(), f);
    assert_eq!(referenced(&mangled[2]).value(), hash_named(root, "a"));
}

#[test]
fn sibling_scopes_are_numbered_in_the_order_they_are_written() {
    let body = |name: &str| vec![declare(false, name, None)];
    let tree: Vec<Raw> = vec![
        MirStatement::Block(body("a")),
        MirStatement::If(MirIf {
            condition: variable(&["c"]),
            block: body("b"),
            else_block: Some(MirElseBlock::ElseIf(Box::new(MirIf {
                condition: variable(&["c"]),
                block: body("d"),
                else_block: Some(MirElseBlock::Else(body("e"))),
            }))),
        }),
        MirStatement::Unsafe(body("g")),
    ];
    let mangled = mangle("demo", tree);
    let root = hash_root("demo");
    assert_eq!(
        declared(&block(&mangled[0])[0]).value(),
        hash_named(hash_unnamed(root, 0), "a")
    );
    match &mangled[1] {
        MirStatement::If(first) => {
            assert_eq!(declared(&first.block[0]).value(), hash_named(hash_unnamed(root, 1), "b"));
            match &first.else_block {
                Some(MirElseBlock::ElseIf(second)) => {
                    assert_eq!(
                        declared(&second.block[0]).value(),
                        hash_named(hash_unnamed(root, 2), "d")
                    );
                    match &second.else_block {
                        Some(MirElseBlock::Else(last)) => assert_eq!(
                            declared(&last[0]).value(),
                            hash_named(hash_unnamed(root, 3), "e")
                        ),
                        other => panic!("expected an else, got {:?}", other),
                    }
                }
                other => panic!("expected an else if, got {:?}", other),
            }
        }
        other => panic!("expected a conditional, got {:?}", other),
    }
    assert_eq!(
        declared(&block(&mangled[2])[0]).value(),
        hash_named(hash_unnamed(root, 4), "g")
    );
}

#[test]
fn the_parts_of_a_for_share_one_scope() {
    let mangled = compile("demo", "for (let i: int = 0 ; i; i = i ;) { i; let j: int; } i;");
    let root = hash_root("demo");
    let scope = hash_unnamed(root, 0);
    match &mangled[0] {
        MirStatement::For(for_loop) => {
            assert_eq!(for_loop.init.name.value(), hash_named(scope, "i"));
            assert_eq!(
                for_loop.condition,
                MirExpression::Variable(MangledVar::new(hash_named(scope, "i")))
            );
            match &for_loop.update {
                MirStatement::Assignment(assignment) => {
                    assert_eq!(assignment.variable.value(), hash_named(scope, "i"))
                }
                other => panic!("expected an assignment, got {:?}", other),
            }
            assert_eq!(referenced(&for_loop.block[0]).value(), hash_named(scope, "i"));
            assert_eq!(declared(&for_loop.block[1]).value(), hash_named(scope, "j"));
        }
        other => panic!("expected a for, got {:?}", other),
    }
    assert_eq!(referenced(&mangled[1]).value(), hash_named(root, "i"));
}

fn count_nodes(statements: &[Mangled]) -> usize {
    statements
        .iter()
        .map(|statement| {
            1 + match statement {
                MirStatement::Block(body) | MirStatement::Unsafe(body) => count_nodes(body),
                MirStatement::Function(function) => count_nodes(&function.block),
                MirStatement::While(while_loop) => count_nodes(&while_loop.block),
                MirStatement::For(for_loop) => count_nodes(&for_loop.block) + 1,
                MirStatement::If(if_block) => count_if(if_block),
                _ => 0,
            }
        })
        .sum()
}

fn count_if(if_block: &MirIf<MangledVar, MangledVar>) -> usize {
    count_nodes(&if_block.block)
        + match &if_block.else_block {
            None => 0,
            Some(MirElseBlock::ElseIf(inner)) => 1 + count_if(inner),
            Some(MirElseBlock::Else(body)) => count_nodes(body),
        }
}

#[test]
fn shape_preservation() {
    let source = "import a.b; static s: int = 1 ; function f(p: int): void { while (p) { \
                  unsafe { p = !p ; } } for (let i: int = 0 ; i; i = i ;) { return b.c[i].d; } } \
                  if (s) { f(s ); } else if (!s) { } else { { } }";
    let lowered = lower(source);
    let kinds = |debug: String| -> Vec<String> {
        debug
            .split(|c: char| !c.is_alphanumeric())
            .filter(|word| {
                [
                    "Block", "Unsafe", "Expression", "Return", "Assignment", "Declaration",
                    "Function", "If", "While", "For", "Import", "Literal", "Variable",
                    "Property", "Call", "Index", "UnaryOp", "BinaryOp", "ElseIf", "Else",
                ]
                .contains(word)
            })
            .map(|word| word.to_string())
            .collect()
    };
    let before = kinds(format!("{:?}", lowered));
    let resolved = AbsoluteScope::root_to_absolute(lowered);
    let between = kinds(format!("{:?}", resolved));
    let mangled = MangleScope::mangle_root("demo", resolved);
    let after = kinds(format!("{:?}", mangled));
    assert_eq!(before, between);
    assert_eq!(between, after);
    assert_eq!(mangled.len(), 4);
    assert_eq!(count_nodes(&mangled), 13);
    match &mangled[3] {
        MirStatement::If(if_block) => match &if_block.block[0] {
            MirStatement::Expression(MirExpression::Call(_, args)) => assert_eq!(args.len(), 1),
            other => panic!("expected a call, got {:?}", other),
        },
        other => panic!("expected a conditional, got {:?}", other),
    }
    match &mangled[1] {
        MirStatement::Declaration(declaration) => {
            assert!(declaration.is_static);
            assert_eq!(declaration.value, Some(MirExpression::Literal(LiteralType::Int(1))));
        }
        other => panic!("expected a declaration, got {:?}", other),
    }
}

#[test]
fn collision_resistance() {
    let root = MangleScope::new("demo");
    let mut seen = std::collections::HashMap::new();
    let mut scopes = vec![root.hash_named("scope")];
    let mut parent = MangleScope::new("demo");
    for _ in 0..39 {
        scopes.push(parent.hash_unnamed());
    }
    let mut pairs = 0;
    for scope in &scopes {
        let child = root.new_child(*scope);
        for index in 0..30 {
            let name = format!("name{}", index);
            let id = child.hash_named(&name);
            let key = (scope.value(), name);
            if let Some(other) = seen.insert(id.value(), key.clone()) {
                panic!("{:?} and {:?} collide", other, key);
            }
            pairs += 1;
        }
    }
    assert!(pairs >= 1000);
    assert_eq!(seen.len(), pairs);
}

#[test]
fn pieces_of_a_tree_can_be_rewritten_on_their_own() {
    let mut scope = AbsoluteScope::root();
    scope.new_import(rel(&["lib", "io"]));
    let path = rel(&["io", "print"]).to_absolute(&mut scope);
    assert_eq!(names_of(&path), vec!["lib", "io", "print"]);
    let assignment = MirAssignment { variable: rel(&["io"]), value: variable(&["x"]) }
        .to_absolute(&mut scope);
    assert_eq!(names_of(&assignment.variable), vec!["lib", "io"]);
    let ty = MirType::UserDefined(rel(&["io", "File"])).to_absolute(&mut scope);
    match &ty {
        MirType::UserDefined(path) => assert_eq!(names_of(path), vec!["lib", "io", "File"]),
        other => panic!("expected a user-defined type, got {:?}", other),
    }
    let declaration = MirDeclaration {
        is_static: false,
        name: xid("io"),
        ty: int_type(),
        value: Some(variable(&["io"])),
    }
    .to_absolute(&mut scope);
    assert_eq!(declaration.name.inner(), "io");
    assert_eq!(names_of(&scope.resolve(&rel(&["io", "print"]))), vec!["io", "print"]);

    let mut root = MangleScope::new("demo");
    let salt = hash_root("demo");
    let id = abs(&["lib", "io"]).mangle(&mut root);
    assert_eq!(id.value(), hash_named(hash_named(salt, "lib"), "io"));
    let declared = declaration.mangle(&mut root);
    assert_eq!(declared.name.value(), hash_named(salt, "io"));
    assert_eq!(declared.value, Some(MirExpression::Variable(id)));
    let looped = MirWhile {
        condition: MirExpression::Variable(abs(&["io"])),
        block: vec![MirStatement::Return(MirExpression::Variable(abs(&["io"])))],
    }
    .mangle(&mut root);
    assert_eq!(looped.condition, MirExpression::Variable(declared.name));
    assert_eq!(looped.block, vec![MirStatement::Return(MirExpression::Variable(declared.name))]);
    let inside = root.mangle_unnamed_child(vec![MirStatement::Declaration(MirDeclaration {
        is_static: false,
        name: AbsoluteVar::new(xid("v")),
        ty: MirType::Primitive(MirPrimitive::Int),
        value: None,
    })]);
    assert_eq!(
        declared_of(&inside[0]).value(),
        hash_named(hash_unnamed(salt, 1), "v")
    );
    assert_eq!(root.hash_unnamed().value(), hash_unnamed(salt, 2));
}

fn declared_of(statement: &Mangled) -> MangledVar {
    declared(statement)
}

#[test]
fn a_recorded_identifier_is_found_from_inner_scopes() {
    let mut root = MangleScope::new("demo");
    root.record(AbsoluteVar::new(xid("x")), MangledVar::new(5));
    assert_eq!(root.get_variable(&abs(&["x"])), MangledVar::new(5));
    assert_eq!(
        root.get_variable(&abs(&["x", "y"])).value(),
        hash_named(hash_named(hash_root("demo"), "x"), "y")
    );
    let id = root.hash_unnamed();
    let mut child = root.new_child(id);
    assert_eq!(child.get_variable(&abs(&["x"])), MangledVar::new(5));
    child.record(AbsoluteVar::new(xid("x")), MangledVar::new(7));
    child.record(AbsoluteVar::new(xid("y")), MangledVar::new(8));
    assert_eq!(child.get_variable(&abs(&["x"])), MangledVar::new(7));
    child.record(AbsoluteVar::new(xid("x")), MangledVar::new(9));
    assert_eq!(child.get_variable(&abs(&["x"])), MangledVar::new(9));
    assert_eq!(child.get_variable(&abs(&["y"])), MangledVar::new(8));
    let grandchild = child.new_child(MangledVar::new(1));
    assert_eq!(grandchild.get_variable(&abs(&["x"])), MangledVar::new(9));
    assert_eq!(grandchild.hash_named("z").value(), hash_named(1, "z"));
    assert_eq!(
        grandchild.get_variable(&abs(&["z"])).value(),
        hash_named(hash_root("demo"), "z")
    );
}
