use stonescript::hir::{
    BinaryOp, Expression, FunctionDecl, Path, Primitive, Punctuated, Statement, SyntaxError,
    TokenIter, Type, UnaryOp,
};
use stonescript::token::marks::Dot;
use stonescript::Ident;
use stonescript::token::cursor::Cursor;
use stonescript::token::group::{Delimiter, Group};
use stonescript::token::punct::Punct;
use stonescript::token::literal::{parse_integer, Literal};
use stonescript::token::punct::{InvalidPunct, PunctToken};
use stonescript::token::reader::{parse_from_reader, CharReader, InvalidByte};
use stonescript::token::tree::{parse_iter, parse_str, ParseError, TokenStream, TokenTree};
use stonescript::{InvalidXID, LiteralType, Span, Spanned, XID};

fn tokens_of(input: &str) -> TokenStream {
    parse_str(input).expect("the text should tokenise")
}

fn parse(input: &str) -> Result<Vec<Statement>, SyntaxError> {
    let tokens = tokens_of(input);
    let mut iter = TokenIter::new(&tokens);
    iter.parse()
}

#[test]
fn empty_static_function() {
    let input = "static function test(): void {}";
    let tokens = parse_str(input).expect("the text should tokenise");
    let ast: Vec<Statement> = TokenIter::new(&tokens).parse().expect("the tokens should parse");

    if let [Statement::Function(FunctionDecl {
        staticness,
        function_token: _,
        ident,
        args,
        colon: _,
        return_type,
        block,
    })] = ast.as_slice()
    {
        assert!(staticness.is_some());
        assert_eq!(ident.inner(), "test");
        assert!(args.contents().is_empty());
        if let Type::Primitive(Primitive::Void { span: _ }) = return_type {
        } else {
            panic!("expected type `void` got `{:?}`", return_type);
        }
        assert!(block.contents().is_empty());

        return;
    }

    panic!("incorrect ast: {:?}", ast);
}

#[test]
fn span_from_start_end_covers_both() {
    let span = Span::from_start_end(Span::new(3, 2), Span::new(10, 4));
    assert_eq!(span, Span::new(3, 11));
    assert_eq!(Span::from_start_end(Span::new(7, 1), Span::new(7, 1)), Span::new(7, 1));
}

#[test]
fn identifiers_follow_the_unicode_rules() {
    assert_eq!(XID::new("test").expect("valid").inner(), "test");
    assert_eq!(XID::new("_x1").is_err(), true);
    assert_eq!(XID::new("x_1").expect("valid").inner(), "x_1");
    assert_eq!(XID::new("\u{e9}t\u{e9}").expect("valid").inner(), "\u{e9}t\u{e9}");
    assert_eq!(XID::new(""), Err(InvalidXID));
    assert_eq!(XID::new("1x"), Err(InvalidXID));
    assert_eq!(XID::new("a b"), Err(InvalidXID));
    assert_eq!(XID::new("a-b"), Err(InvalidXID));
    assert_eq!("name".parse::<XID>().expect("valid").inner(), "name");
    assert_eq!("9".parse::<XID>(), Err(InvalidXID));
}

#[test]
fn identifiers_compare_by_text() {
    let a = XID::new("alpha").expect("valid");
    let b = XID::new("alpha").expect("valid");
    let c = XID::new("alphb").expect("valid");
    assert!(a.same(&b));
    assert!(!a.same(&c));
    assert_eq!(a.clone(), b);
}

#[test]
fn punctuation_table() {
    assert_eq!(PunctToken::recognise('+', None), Some(PunctToken::Plus));
    assert_eq!(PunctToken::recognise('<', Some('=')), Some(PunctToken::LessThanEquals));
    assert_eq!(PunctToken::recognise('<', Some('x')), Some(PunctToken::LessThan));
    assert_eq!(PunctToken::recognise('&', Some('&')), Some(PunctToken::And));
    assert_eq!(PunctToken::recognise('&', Some('x')), None);
    assert_eq!(PunctToken::recognise('&', None), None);
    assert_eq!(PunctToken::recognise('?', Some('?')), Some(PunctToken::NullishCoalescing));
    assert_eq!(PunctToken::recognise('-', Some('>')), Some(PunctToken::Lambda));
    assert_eq!(PunctToken::recognise('a', Some('b')), None);
    assert_eq!(PunctToken::from_str("=="), Ok(PunctToken::Equals));
    assert_eq!(PunctToken::from_str("="), Ok(PunctToken::Assign));
    assert_eq!(PunctToken::from_str("==="), Err(InvalidPunct));
    assert_eq!(PunctToken::from_str(""), Err(InvalidPunct));
    assert_eq!(PunctToken::from_str("@"), Err(InvalidPunct));
    assert_eq!(PunctToken::Lambda.as_str(), "->");
    assert_eq!(PunctToken::Semicolon.as_str(), ";");
}

#[test]
fn delimiters_pair_up() {
    assert_eq!(Delimiter::from_open('{'), Some(Delimiter::Brace));
    assert_eq!(Delimiter::from_open('['), Some(Delimiter::Bracket));
    assert_eq!(Delimiter::from_open('('), Some(Delimiter::Parenthesis));
    assert_eq!(Delimiter::from_open(')'), None);
    assert_eq!(Delimiter::Brace.close(), '}');
    assert_eq!(Delimiter::Bracket.open(), '[');
    assert_eq!(Delimiter::Parenthesis.close(), ')');
}

#[test]
fn whole_numbers_parse_within_their_range() {
    let chars = |s: &str| s.chars().collect::<Vec<char>>();
    assert_eq!(parse_integer(&chars("0"), -128, 127), Some(0));
    assert_eq!(parse_integer(&chars("127"), -128, 127), Some(127));
    assert_eq!(parse_integer(&chars("128"), -128, 127), None);
    assert_eq!(parse_integer(&chars("-128"), -128, 127), Some(-128));
    assert_eq!(parse_integer(&chars("-129"), -128, 127), None);
    assert_eq!(parse_integer(&chars("-0"), -128, 127), Some(0));
    assert_eq!(parse_integer(&chars("007"), -128, 127), Some(7));
    assert_eq!(parse_integer(&chars("-"), -128, 127), None);
    assert_eq!(parse_integer(&chars(""), -128, 127), None);
    assert_eq!(parse_integer(&chars("1.5"), -128, 127), None);
    assert_eq!(parse_integer(&chars("12a"), -128, 127), None);
    assert_eq!(
        parse_integer(&chars("9223372036854775807"), i64::MIN, i64::MAX),
        Some(i64::MAX)
    );
    assert_eq!(parse_integer(&chars("9223372036854775808"), i64::MIN, i64::MAX), None);
    assert_eq!(
        parse_integer(&chars("-9223372036854775808"), i64::MIN, i64::MAX),
        Some(i64::MIN)
    );
    assert_eq!(parse_integer(&chars("-9223372036854775809"), i64::MIN, i64::MAX), None);
    assert_eq!(
        parse_integer(&chars("99999999999999999999999999999999"), i64::MIN, i64::MAX),
        None
    );
}

fn only_literal(input: &str) -> Literal {
    let tokens = tokens_of(input);
    match tokens.0.into_iter().next() {
        Some(TokenTree::Literal(literal)) => literal,
        other => panic!("expected a literal, got {:?}", other),
    }
}

#[test]
fn number_literals_take_their_kind_from_the_suffix() {
    assert_eq!(only_literal("5 ").into_inner(), LiteralType::Int(5));
    assert_eq!(only_literal("5i ").into_inner(), LiteralType::Int(5));
    assert_eq!(only_literal("-5b ").into_inner(), LiteralType::Byte(-5));
    assert_eq!(only_literal("300s ").into_inner(), LiteralType::Short(300));
    assert_eq!(
        only_literal("5000000000l ").into_inner(),
        LiteralType::Long(5_000_000_000)
    );
    assert_eq!(only_literal("1.5f ").into_inner(), LiteralType::Float("1.5".to_string()));
    assert_eq!(only_literal("-2.25d ").into_inner(), LiteralType::Double("-2.25".to_string()));
    assert_eq!(only_literal("7.d ").into_inner(), LiteralType::Double("7.".to_string()));
    let literal = only_literal("12i;");
    assert_eq!(literal.span(), Span::new(0, 3));
    assert_eq!(only_literal("12;").span(), Span::new(0, 2));
}

#[test]
fn decimal_text_reads_back_as_the_number_written() {
    match only_literal("1.5f ").into_inner() {
        LiteralType::Float(text) => assert_eq!(text.parse::<f32>().expect("a float"), 1.5f32),
        other => panic!("expected a float, got {:?}", other),
    }
    match only_literal("-0.125d ").into_inner() {
        LiteralType::Double(text) => assert_eq!(text.parse::<f64>().expect("a double"), -0.125f64),
        other => panic!("expected a double, got {:?}", other),
    }
}

#[test]
fn string_literals_take_escaped_characters_as_they_are() {
    assert_eq!(
        only_literal("\"a\\\"b\\\\c\"").into_inner(),
        LiteralType::String("a\"b\\c".to_string())
    );
    assert_eq!(only_literal("\"\"").into_inner(), LiteralType::String(String::new()));
    assert_eq!(only_literal("\"x y\" ").span(), Span::new(0, 5));
}

#[test]
fn malformed_numbers_are_unexpected_tokens() {
    match parse_str("300b ") {
        Err(ParseError::UnexpectedToken(text, kind, span)) => {
            assert_eq!(text, "300");
            assert_eq!(kind, "Byte");
            assert_eq!(span, Span::new(0, 4));
        }
        other => panic!("expected an error, got {:?}", other),
    }
    match parse_str("1.2.3f ") {
        Err(ParseError::UnexpectedToken(text, kind, _)) => {
            assert_eq!(text, "1.2.3");
            assert_eq!(kind, "Float");
        }
        other => panic!("expected an error, got {:?}", other),
    }
    match parse_str("1.5 ") {
        Err(ParseError::UnexpectedToken(text, kind, _)) => {
            assert_eq!(text, "1.5");
            assert_eq!(kind, "Int");
        }
        other => panic!("expected an error, got {:?}", other),
    }
    match parse_str("a - b") {
        Err(ParseError::UnexpectedToken(text, kind, _)) => {
            assert_eq!(text, "-");
            assert_eq!(kind, "Int");
        }
        other => panic!("expected an error, got {:?}", other),
    }
}

#[test]
fn text_that_ends_inside_a_token_is_an_early_end() {
    assert_eq!(parse_str("\"abc"), Err(ParseError::EarlyEof));
    assert_eq!(parse_str("{ a "), Err(ParseError::EarlyEof));
    assert_eq!(parse_str("12"), Err(ParseError::EarlyEof));
    assert_eq!(parse_str("( a"), Err(ParseError::EarlyEof));
    match parse_str("(}") {
        Err(ParseError::UnexpectedToken(text, kind, span)) => {
            assert_eq!(text, "}");
            assert_eq!(kind, "token tree");
            assert_eq!(span, Span::new(2, 1));
        }
        other => panic!("expected an error, got {:?}", other),
    }
}

#[test]
fn characters_that_start_no_token_are_unexpected() {
    match parse_str("a @ b") {
        Err(ParseError::UnexpectedToken(text, kind, span)) => {
            assert_eq!(text, "@");
            assert_eq!(kind, "token tree");
            assert_eq!(span, Span::new(3, 1));
        }
        other => panic!("expected an error, got {:?}", other),
    }
}

#[test]
fn tokens_carry_their_place() {
    let tokens = tokens_of("ab  (c, d) ;");
    assert_eq!(tokens.0.len(), 3);
    match &tokens.0[0] {
        TokenTree::Ident(ident) => {
            assert_eq!(ident.inner(), "ab");
            assert_eq!(ident.span(), Span::new(0, 2));
        }
        other => panic!("expected an identifier, got {:?}", other),
    }
    match &tokens.0[1] {
        TokenTree::Group(group) => {
            assert_eq!(group.delimiter(), Delimiter::Parenthesis);
            assert_eq!(group.span(), Span::new(4, 6));
            assert_eq!(group.tokens().0.len(), 3);
            assert_eq!(group.tokens().0[0].span(), Span::new(5, 1));
            assert_eq!(group.tokens().0[1].span(), Span::new(6, 1));
            assert_eq!(group.tokens().0[2].span(), Span::new(8, 1));
        }
        other => panic!("expected a group, got {:?}", other),
    }
    match &tokens.0[2] {
        TokenTree::Punct(punct) => {
            assert_eq!(punct.inner(), PunctToken::Semicolon);
            assert_eq!(punct.span(), Span::new(11, 1));
        }
        other => panic!("expected a punctuation, got {:?}", other),
    }
}

#[test]
fn white_space_and_comments_are_left_out() {
    let tokens = tokens_of("a // the rest is a comment ; b\n\t\u{a0}c //last");
    let names: Vec<String> = tokens
        .0
        .iter()
        .map(|token| match token {
            TokenTree::Ident(ident) => ident.inner().to_string(),
            other => panic!("expected an identifier, got {:?}", other),
        })
        .collect();
    assert_eq!(names, vec!["a".to_string(), "c".to_string()]);
    assert_eq!(tokens_of("").0.len(), 0);
    assert_eq!(tokens_of(" \n ").0.len(), 0);
    assert_eq!(TokenStream::new().0.len(), 0);
}

#[test]
fn a_two_character_punctuation_leaves_its_second_character_unread() {
    let tokens = tokens_of("a == b");
    let kinds: Vec<Option<PunctToken>> = tokens
        .0
        .iter()
        .map(|token| match token {
            TokenTree::Punct(punct) => Some(punct.inner()),
            _ => None,
        })
        .collect();
    assert_eq!(
        kinds,
        vec![None, Some(PunctToken::Equals), Some(PunctToken::Assign), None]
    );
}

#[test]
fn parse_iter_reads_characters() {
    let tokens = parse_iter("x;".chars().collect()).expect("tokens");
    assert_eq!(tokens.0.len(), 2);
}

#[test]
fn statements_are_told_apart_by_their_first_tokens() {
    let ast = parse(
        "import a.b; let x: int = 1 ; static y: thing; x = 2 ; f(x, 3 ); return x; \
         { } unsafe { } while (x) { } if (x) { } else if (y) { } else { } \
         for (let i: int = 0 ; i; i = i + 1 ;) { } function g(p: int, q: byte): void { }",
    )
    .expect("the tokens should parse");
    assert_eq!(ast.len(), 12);
    assert!(matches!(ast[0], Statement::Import(_)));
    assert!(matches!(ast[1], Statement::Declaration(_)));
    assert!(matches!(ast[2], Statement::Declaration(_)));
    assert!(matches!(ast[3], Statement::Assignment(_)));
    assert!(matches!(ast[4], Statement::Expression(_)));
    assert!(matches!(ast[5], Statement::Return(_)));
    assert!(matches!(ast[6], Statement::Block(_)));
    assert!(matches!(ast[7], Statement::Unsafe(_)));
    assert!(matches!(ast[8], Statement::While(_)));
    assert!(matches!(ast[9], Statement::If(_)));
    assert!(matches!(ast[10], Statement::For(_)));
    match &ast[11] {
        Statement::Function(function) => {
            assert!(function.staticness.is_none());
            assert_eq!(function.ident.inner(), "g");
            assert!(!function.args.contents().is_empty());
            assert_eq!(function.args.contents().inner.len(), 1);
            assert!(function.args.contents().last.is_some());
        }
        other => panic!("expected a function, got {:?}", other),
    }
    match &ast[4] {
        Statement::Expression((Expression::Call(_, args), _)) => {
            assert_eq!(args.contents().inner.len(), 1);
            assert!(args.contents().last.is_some());
        }
        other => panic!("expected a call, got {:?}", other),
    }
}

#[test]
fn syntax_errors_name_what_was_expected() {
    match parse("let x int;") {
        Err(SyntaxError::UnexpectedToken(TokenTree::Ident(ident), expected)) => {
            assert_eq!(ident.inner(), "int");
            assert_eq!(expected, "Colon");
        }
        other => panic!("expected an error, got {:?}", other),
    }
    match parse("while x { }") {
        Err(SyntaxError::UnexpectedToken(TokenTree::Ident(ident), expected)) => {
            assert_eq!(ident.inner(), "x");
            assert_eq!(expected, "Group");
        }
        other => panic!("expected an error, got {:?}", other),
    }
    match parse("while [x] { }") {
        Err(SyntaxError::UnexpectedToken(TokenTree::Group(group), expected)) => {
            assert_eq!(group.delimiter(), Delimiter::Bracket);
            assert_eq!(expected, "Parenthesis");
        }
        other => panic!("expected an error, got {:?}", other),
    }
    assert_eq!(parse("let x: int"), Err(SyntaxError::EarlyEof));
    assert_eq!(parse("x"), Err(SyntaxError::EarlyEof));
    assert_eq!(parse("return"), Err(SyntaxError::EarlyEof));
}

#[test]
fn bytes_are_decoded_by_their_first_byte() {
    let mut reader = CharReader::new(vec![b'a', 0xC3, 0xA9, 0xE2, 0x82, 0xAC, 0xF0, 0x9F, 0x98, 0x80]);
    assert_eq!(reader.next(), Ok(Some('a')));
    assert_eq!(reader.next(), Ok(Some('\u{e9}')));
    assert_eq!(reader.next(), Ok(Some('\u{20ac}')));
    assert_eq!(reader.next(), Ok(Some('\u{1f600}')));
    assert_eq!(reader.next(), Ok(None));
    assert_eq!(reader.next(), Ok(None));
    let mut reader = CharReader::new(vec![0xDF, 0xBF]);
    assert_eq!(reader.next(), Ok(Some('\u{3ff}')));
}

#[test]
fn bytes_that_start_no_character_are_errors() {
    let mut reader = CharReader::new(vec![0x80, b'a', 0xF8, 0xFF]);
    assert_eq!(reader.next(), Err(InvalidByte(0x80)));
    assert_eq!(reader.next(), Ok(Some('a')));
    assert_eq!(reader.next(), Err(InvalidByte(0xF8)));
    assert_eq!(reader.next(), Err(InvalidByte(0xFF)));
    assert_eq!(reader.next(), Ok(None));
}

#[test]
fn cut_off_and_impossible_characters_end_the_text() {
    let mut reader = CharReader::new(vec![b'a', 0xE2, 0x82]);
    assert_eq!(reader.next(), Ok(Some('a')));
    assert_eq!(reader.next(), Ok(None));
    assert_eq!(reader.next(), Ok(None));
    let mut reader = CharReader::new(vec![0xED, 0xA0, 0x80, b'a']);
    assert_eq!(reader.next(), Ok(None));
    assert_eq!(reader.next(), Ok(Some('a')));
    assert_eq!(CharReader::new(vec![b'x', b'y', 0x80, b'z']).into_chars(), vec!['x', 'y']);
    assert_eq!(CharReader::new(vec![]).into_chars(), Vec::<char>::new());
}

#[test]
fn parse_from_reader_tokenises_what_was_decoded() {
    let tokens = parse_from_reader("\u{e9}t\u{e9}; x".as_bytes().to_vec()).expect("tokens");
    assert_eq!(tokens.0.len(), 3);
    match &tokens.0[0] {
        TokenTree::Ident(ident) => {
            assert_eq!(ident.inner(), "\u{e9}t\u{e9}");
            assert_eq!(ident.span(), Span::new(0, 3));
        }
        other => panic!("expected an identifier, got {:?}", other),
    }
    let cut = parse_from_reader(vec![b'a', b';', 0xFF, b'b']).expect("tokens");
    assert_eq!(cut.0.len(), 2);
}

fn names(path: &Path) -> Vec<String> {
    let list = path.list();
    let mut names: Vec<String> =
        list.inner.iter().map(|(ident, _)| ident.inner().to_string()).collect();
    if let Some(last) = &list.last {
        names.push(last.inner().to_string());
    }
    names
}

fn only_expression(input: &str) -> Expression {
    match parse(input).expect("the tokens should parse").into_iter().next() {
        Some(Statement::Expression((expression, _))) => expression,
        other => panic!("expected an expression, got {:?}", other),
    }
}

#[test]
fn a_path_takes_every_dotted_identifier() {
    match only_expression("a.b.c;") {
        Expression::Variable(path) => assert_eq!(names(&path), vec!["a", "b", "c"]),
        other => panic!("expected a variable, got {:?}", other),
    }
    assert!(Path::new(Punctuated::<Ident, Dot>::new()).is_none());
    assert!(Punctuated::<Ident, Dot>::new().is_empty());
    assert_eq!(Punctuated::<Ident, Dot>::new().into_tokens().len(), 0);
}

#[test]
fn what_follows_an_expression_is_read_from_left_to_right() {
    match only_expression("a.b(c, d )[e].f;") {
        Expression::Property(inner, _, name) => {
            assert_eq!(name.inner(), "f");
            match *inner {
                Expression::Index(called, index) => {
                    match index.contents() {
                        Expression::Variable(path) => assert_eq!(names(path), vec!["e"]),
                        other => panic!("expected a variable, got {:?}", other),
                    }
                    match *called {
                        Expression::Call(path, args) => {
                            assert_eq!(names(&path), vec!["a", "b"]);
                            assert_eq!(args.into_contents().into_tokens().len(), 2);
                        }
                        other => panic!("expected a call, got {:?}", other),
                    }
                }
                other => panic!("expected an index, got {:?}", other),
            }
        }
        other => panic!("expected a property, got {:?}", other),
    }
}

#[test]
fn an_operator_takes_the_rest_of_the_expression_as_its_right_operand() {
    match only_expression("a * b + c;") {
        Expression::BinaryOp(left, BinaryOp::Multiply(_), right) => {
            assert!(matches!(*left, Expression::Variable(_)));
            match *right {
                Expression::BinaryOp(inner_left, BinaryOp::Add(_), inner_right) => {
                    assert!(matches!(*inner_left, Expression::Variable(_)));
                    assert!(matches!(*inner_right, Expression::Variable(_)));
                }
                other => panic!("expected a sum, got {:?}", other),
            }
        }
        other => panic!("expected a product, got {:?}", other),
    }
    match only_expression("!a % (b);") {
        Expression::UnaryOp(UnaryOp::Not(_), inner) => match *inner {
            Expression::BinaryOp(_, BinaryOp::Modulo(_), right) => {
                assert!(matches!(*right, Expression::Parenthesized(_)))
            }
            other => panic!("expected a remainder, got {:?}", other),
        },
        other => panic!("expected a negation, got {:?}", other),
    }
}

#[test]
fn tokens_after_the_expression_in_a_group_are_left_alone() {
    match only_expression("(a b c);") {
        Expression::Parenthesized(inner) => {
            assert!(matches!(inner.contents(), Expression::Variable(_)));
            assert_eq!(inner.span(), Span::new(0, 7));
            assert_eq!(inner.open(), '(');
            assert_eq!(inner.close(), ')');
        }
        other => panic!("expected a group, got {:?}", other),
    }
}

#[test]
fn an_expression_cannot_start_with_other_punctuation() {
    match parse("* a;") {
        Err(SyntaxError::UnexpectedToken(TokenTree::Ident(ident), expected)) => {
            assert_eq!(ident.inner(), "a");
            assert_eq!(expected, "expression");
        }
        other => panic!("expected an error, got {:?}", other),
    }
    match parse("[a];") {
        Err(SyntaxError::UnexpectedToken(TokenTree::Group(group), expected)) => {
            assert_eq!(group.delimiter(), Delimiter::Bracket);
            assert_eq!(expected, "expression");
        }
        other => panic!("expected an error, got {:?}", other),
    }
    assert_eq!(parse("*"), Err(SyntaxError::EarlyEof));
}

#[test]
fn rules_that_do_not_fit_say_so_and_read_nothing() {
    let mut cursor = Cursor::new("1x".chars().collect());
    assert_eq!(cursor.consume(), Some('1'));
    assert_eq!(
        Ident::parse('1', &mut cursor, 0),
        Err(ParseError::InvalidStart('1', "ident"))
    );
    assert_eq!(
        Group::parse('1', &mut cursor, 0),
        Err(ParseError::InvalidStart('1', "group"))
    );
    assert_eq!(Punct::parse('1', &cursor, 0), Err(ParseError::InvalidStart('1', "punct")));
    assert_eq!(
        Cursor::skip_comment('1', &mut cursor),
        Err(ParseError::InvalidStart('1', "comment"))
    );
    assert_eq!(cursor.peek(), Some('x'));
    assert_eq!(cursor.peek_ahead(1), None);
    assert_eq!(cursor.expect_peek_ahead(1), Err(ParseError::EarlyEof));
    let mut cursor = Cursor::new("x1".chars().collect());
    assert_eq!(cursor.expect_consume(), Ok('x'));
    assert_eq!(
        Literal::parse('x', &mut cursor, 0),
        Err(ParseError::InvalidStart('x', "literal"))
    );
    assert_eq!(cursor.into_span(0), Span::new(0, 1));
    let ident = Ident::parse('x', &mut cursor, 0).expect("an identifier");
    assert_eq!(ident.inner(), "x1");
    assert_eq!(ident.span(), Span::new(0, 2));
    assert_eq!(cursor.expect_peek(), Err(ParseError::EarlyEof));
    assert_eq!(cursor.consume(), None);
}

#[test]
fn a_comment_is_no_token() {
    let mut cursor = Cursor::new("// a\nb".chars().collect());
    assert_eq!(cursor.consume(), Some('/'));
    assert_eq!(Cursor::skip_comment('/', &mut cursor), Err(ParseError::NotAToken));
    assert_eq!(cursor.peek(), Some('b'));
    let mut cursor = Cursor::new("//".chars().collect());
    assert_eq!(cursor.apply_parsers(), Ok(None));
    assert_eq!(cursor.peek(), None);
    let mut cursor = Cursor::new("/ /".chars().collect());
    match cursor.apply_parsers() {
        Ok(Some(TokenTree::Punct(punct))) => assert_eq!(punct.inner(), PunctToken::Slash),
        other => panic!("expected a slash, got {:?}", other),
    }
}
