//! Keywords: identifiers that the language keeps for itself.
use crate::token::ident::Ident;
use crate::token::tree::{span_of, Token, TokenTree};
use crate::{Span, Spanned};
use vstd::prelude::*;

verus! {

/// The keyword `static`.
#[derive(Debug, Clone, Copy, PartialEq, Eq, Structural)]
pub struct Static {
    pub span: Span,
}

impl Static {
    /// Whether `value` is the keyword `static`.
    pub fn is_ident(value: &Ident) -> (yes: bool)
        ensures
            yes == (value.value@ == "static"@),
    {
        value.inner().eq("static")
    }
}

impl Spanned for Static {
    open spec fn spanned(&self) -> Span {
        self.span
    }

    fn span(&self) -> (span: Span) {
        self.span
    }
}

impl Token for Static {
    open spec fn is_kind(token: TokenTree) -> bool {
        token matches TokenTree::Ident(ident) && ident.value@ == "static"@
    }

    open spec fn is_token(&self, token: TokenTree) -> bool {
        self.span == span_of(token)
    }

    open spec fn kind_name() -> Seq<char> {
        "static"@
    }

    fn name() -> (name: &'static str) {
        "static"
    }

    fn parse_token(token: &TokenTree) -> (r: Option<Self>) {
        match token {
            TokenTree::Ident(ident) => {
                if Static::is_ident(ident) {
                    Some(Static { span: ident.span })
                } else {
                    None
                }
            },
            _ => None,
        }
    }
}

/// The keyword `for`.
#[derive(Debug, Clone, Copy, PartialEq, Eq, Structural)]
pub struct For {
    pub span: Span,
}

impl For {
    /// Whether `value` is the keyword `for`.
    pub fn is_ident(value: &Ident) -> (yes: bool)
        ensures
            yes == (value.value@ == "for"@),
    {
        value.inner().eq("for")
    }
}

impl Spanned for For {
    open spec fn spanned(&self) -> Span {
        self.span
    }

    fn span(&self) -> (span: Span) {
        self.span
    }
}

impl Token for For {
    open spec fn is_kind(token: TokenTree) -> bool {
        token matches TokenTree::Ident(ident) && ident.value@ == "for"@
    }

    open spec fn is_token(&self, token: TokenTree) -> bool {
        self.span == span_of(token)
    }

    open spec fn kind_name() -> Seq<char> {
        "for"@
    }

    fn name() -> (name: &'static str) {
        "for"
    }

    fn parse_token(token: &TokenTree) -> (r: Option<Self>) {
        match token {
            TokenTree::Ident(ident) => {
                if For::is_ident(ident) {
                    Some(For { span: ident.span })
                } else {
                    None
                }
            },
            _ => None,
        }
    }
}

/// The keyword `while`.
#[derive(Debug, Clone, Copy, PartialEq, Eq, Structural)]
pub struct While {
    pub span: Span,
}

impl While {
    /// Whether `value` is the keyword `while`.
    pub fn is_ident(value: &Ident) -> (yes: bool)
        ensures
            yes == (value.value@ == "while"@),
    {
        value.inner().eq("while")
    }
}

impl Spanned for While {
    open spec fn spanned(&self) -> Span {
        self.span
    }

    fn span(&self) -> (span: Span) {
        self.span
    }
}

impl Token for While {
    open spec fn is_kind(token: TokenTree) -> bool {
        token matches TokenTree::Ident(ident) && ident.value@ == "while"@
    }

    open spec fn is_token(&self, token: TokenTree) -> bool {
        self.span == span_of(token)
    }

    open spec fn kind_name() -> Seq<char> {
        "while"@
    }

    fn name() -> (name: &'static str) {
        "while"
    }

    fn parse_token(token: &TokenTree) -> (r: Option<Self>) {
        match token {
            TokenTree::Ident(ident) => {
                if While::is_ident(ident) {
                    Some(While { span: ident.span })
                } else {
                    None
                }
            },
            _ => None,
        }
    }
}

/// The keyword `let`.
#[derive(Debug, Clone, Copy, PartialEq, Eq, Structural)]
pub struct Let {
    pub span: Span,
}

impl Let {
    /// Whether `value` is the keyword `let`.
    pub fn is_ident(value: &Ident) -> (yes: bool)
        ensures
            yes == (value.value@ == "let"@),
    {
        value.inner().eq("let")
    }
}

impl Spanned for Let {
    open spec fn spanned(&self) -> Span {
        self.span
    }

    fn span(&self) -> (span: Span) {
        self.span
    }
}

impl Token for Let {
    open spec fn is_kind(token: TokenTree) -> bool {
        token matches TokenTree::Ident(ident) && ident.value@ == "let"@
    }

    open spec fn is_token(&self, token: TokenTree) -> bool {
        self.span == span_of(token)
    }

    open spec fn kind_name() -> Seq<char> {
        "let"@
    }

    fn name() -> (name: &'static str) {
        "let"
    }

    fn parse_token(token: &TokenTree) -> (r: Option<Self>) {
        match token {
            TokenTree::Ident(ident) => {
                if Let::is_ident(ident) {
                    Some(Let { span: ident.span })
                } else {
                    None
                }
            },
            _ => None,
        }
    }
}

/// The keyword `const`.
#[derive(Debug, Clone, Copy, PartialEq, Eq, Structural)]
pub struct Const {
    pub span: Span,
}

impl Const {
    /// Whether `value` is the keyword `const`.
    pub fn is_ident(value: &Ident) -> (yes: bool)
        ensures
            yes == (value.value@ == "const"@),
    {
        value.inner().eq("const")
    }
}

impl Spanned for Const {
    open spec fn spanned(&self) -> Span {
        self.span
    }

    fn span(&self) -> (span: Span) {
        self.span
    }
}

impl Token for Const {
    open spec fn is_kind(token: TokenTree) -> bool {
        token matches TokenTree::Ident(ident) && ident.value@ == "const"@
    }

    open spec fn is_token(&self, token: TokenTree) -> bool {
        self.span == span_of(token)
    }

    open spec fn kind_name() -> Seq<char> {
        "const"@
    }

    fn name() -> (name: &'static str) {
        "const"
    }

    fn parse_token(token: &TokenTree) -> (r: Option<Self>) {
        match token {
            TokenTree::Ident(ident) => {
                if Const::is_ident(ident) {
                    Some(Const { span: ident.span })
                } else {
                    None
                }
            },
            _ => None,
        }
    }
}

/// The keyword `function`.
#[derive(Debug, Clone, Copy, PartialEq, Eq, Structural)]
pub struct Function {
    pub span: Span,
}

impl Function {
    /// Whether `value` is the keyword `function`.
    pub fn is_ident(value: &Ident) -> (yes: bool)
        ensures
            yes == (value.value@ == "function"@),
    {
        value.inner().eq("function")
    }
}

impl Spanned for Function {
    open spec fn spanned(&self) -> Span {
        self.span
    }

    fn span(&self) -> (span: Span) {
        self.span
    }
}

impl Token for Function {
    open spec fn is_kind(token: TokenTree) -> bool {
        token matches TokenTree::Ident(ident) && ident.value@ == "function"@
    }

    open spec fn is_token(&self, token: TokenTree) -> bool {
        self.span == span_of(token)
    }

    open spec fn kind_name() -> Seq<char> {
        "function"@
    }

    fn name() -> (name: &'static str) {
        "function"
    }

    fn parse_token(token: &TokenTree) -> (r: Option<Self>) {
        match token {
            TokenTree::Ident(ident) => {
                if Function::is_ident(ident) {
                    Some(Function { span: ident.span })
                } else {
                    None
                }
            },
            _ => None,
        }
    }
}

/// The keyword `as`.
#[derive(Debug, Clone, Copy, PartialEq, Eq, Structural)]
pub struct As {
    pub span: Span,
}

impl As {
    /// Whether `value` is the keyword `as`.
    pub fn is_ident(value: &Ident) -> (yes: bool)
        ensures
            yes == (value.value@ == "as"@),
    {
        value.inner().eq("as")
    }
}

impl Spanned for As {
    open spec fn spanned(&self) -> Span {
        self.span
    }

    fn span(&self) -> (span: Span) {
        self.span
    }
}

impl Token for As {
    open spec fn is_kind(token: TokenTree) -> bool {
        token matches TokenTree::Ident(ident) && ident.value@ == "as"@
    }

    open spec fn is_token(&self, token: TokenTree) -> bool {
        self.span == span_of(token)
    }

    open spec fn kind_name() -> Seq<char> {
        "as"@
    }

    fn name() -> (name: &'static str) {
        "as"
    }

    fn parse_token(token: &TokenTree) -> (r: Option<Self>) {
        match token {
            TokenTree::Ident(ident) => {
                if As::is_ident(ident) {
                    Some(As { span: ident.span })
                } else {
                    None
                }
            },
            _ => None,
        }
    }
}

/// The keyword `null`.
#[derive(Debug, Clone, Copy, PartialEq, Eq, Structural)]
pub struct Null {
    pub span: Span,
}

impl Null {
    /// Whether `value` is the keyword `null`.
    pub fn is_ident(value: &Ident) -> (yes: bool)
        ensures
            yes == (value.value@ == "null"@),
    {
        value.inner().eq("null")
    }
}

impl Spanned for Null {
    open spec fn spanned(&self) -> Span {
        self.span
    }

    fn span(&self) -> (span: Span) {
        self.span
    }
}

impl Token for Null {
    open spec fn is_kind(token: TokenTree) -> bool {
        token matches TokenTree::Ident(ident) && ident.value@ == "null"@
    }

    open spec fn is_token(&self, token: TokenTree) -> bool {
        self.span == span_of(token)
    }

    open spec fn kind_name() -> Seq<char> {
        "null"@
    }

    fn name() -> (name: &'static str) {
        "null"
    }

    fn parse_token(token: &TokenTree) -> (r: Option<Self>) {
        match token {
            TokenTree::Ident(ident) => {
                if Null::is_ident(ident) {
                    Some(Null { span: ident.span })
                } else {
                    None
                }
            },
            _ => None,
        }
    }
}

/// The keyword `return`.
#[derive(Debug, Clone, Copy, PartialEq, Eq, Structural)]
pub struct Return {
    pub span: Span,
}

impl Return {
    /// Whether `value` is the keyword `return`.
    pub fn is_ident(value: &Ident) -> (yes: bool)
        ensures
            yes == (value.value@ == "return"@),
    {
        value.inner().eq("return")
    }
}

impl Spanned for Return {
    open spec fn spanned(&self) -> Span {
        self.span
    }

    fn span(&self) -> (span: Span) {
        self.span
    }
}

impl Token for Return {
    open spec fn is_kind(token: TokenTree) -> bool {
        token matches TokenTree::Ident(ident) && ident.value@ == "return"@
    }

    open spec fn is_token(&self, token: TokenTree) -> bool {
        self.span == span_of(token)
    }

    open spec fn kind_name() -> Seq<char> {
        "return"@
    }

    fn name() -> (name: &'static str) {
        "return"
    }

    fn parse_token(token: &TokenTree) -> (r: Option<Self>) {
        match token {
            TokenTree::Ident(ident) => {
                if Return::is_ident(ident) {
                    Some(Return { span: ident.span })
                } else {
                    None
                }
            },
            _ => None,
        }
    }
}

/// The keyword `throw`.
#[derive(Debug, Clone, Copy, PartialEq, Eq, Structural)]
pub struct Throw {
    pub span: Span,
}

impl Throw {
    /// Whether `value` is the keyword `throw`.
    pub fn is_ident(value: &Ident) -> (yes: bool)
        ensures
            yes == (value.value@ == "throw"@),
    {
        value.inner().eq("throw")
    }
}

impl Spanned for Throw {
    open spec fn spanned(&self) -> Span {
        self.span
    }

    fn span(&self) -> (span: Span) {
        self.span
    }
}

impl Token for Throw {
    open spec fn is_kind(token: TokenTree) -> bool {
        token matches TokenTree::Ident(ident) && ident.value@ == "throw"@
    }

    open spec fn is_token(&self, token: TokenTree) -> bool {
        self.span == span_of(token)
    }

    open spec fn kind_name() -> Seq<char> {
        "throw"@
    }

    fn name() -> (name: &'static str) {
        "throw"
    }

    fn parse_token(token: &TokenTree) -> (r: Option<Self>) {
        match token {
            TokenTree::Ident(ident) => {
                if Throw::is_ident(ident) {
                    Some(Throw { span: ident.span })
                } else {
                    None
                }
            },
            _ => None,
        }
    }
}

/// The keyword `if`.
#[derive(Debug, Clone, Copy, PartialEq, Eq, Structural)]
pub struct If {
    pub span: Span,
}

impl If {
    /// Whether `value` is the keyword `if`.
    pub fn is_ident(value: &Ident) -> (yes: bool)
        ensures
            yes == (value.value@ == "if"@),
    {
        value.inner().eq("if")
    }
}

impl Spanned for If {
    open spec fn spanned(&self) -> Span {
        self.span
    }

    fn span(&self) -> (span: Span) {
        self.span
    }
}

impl Token for If {
    open spec fn is_kind(token: TokenTree) -> bool {
        token matches TokenTree::Ident(ident) && ident.value@ == "if"@
    }

    open spec fn is_token(&self, token: TokenTree) -> bool {
        self.span == span_of(token)
    }

    open spec fn kind_name() -> Seq<char> {
        "if"@
    }

    fn name() -> (name: &'static str) {
        "if"
    }

    fn parse_token(token: &TokenTree) -> (r: Option<Self>) {
        match token {
            TokenTree::Ident(ident) => {
                if If::is_ident(ident) {
                    Some(If { span: ident.span })
                } else {
                    None
                }
            },
            _ => None,
        }
    }
}

/// The keyword `else`.
#[derive(Debug, Clone, Copy, PartialEq, Eq, Structural)]
pub struct Else {
    pub span: Span,
}

impl Else {
    /// Whether `value` is the keyword `else`.
    pub fn is_ident(value: &Ident) -> (yes: bool)
        ensures
            yes == (value.value@ == "else"@),
    {
        value.inner().eq("else")
    }
}

impl Spanned for Else {
    open spec fn spanned(&self) -> Span {
        self.span
    }

    fn span(&self) -> (span: Span) {
        self.span
    }
}

impl Token for Else {
    open spec fn is_kind(token: TokenTree) -> bool {
        token matches TokenTree::Ident(ident) && ident.value@ == "else"@
    }

    open spec fn is_token(&self, token: TokenTree) -> bool {
        self.span == span_of(token)
    }

    open spec fn kind_name() -> Seq<char> {
        "else"@
    }

    fn name() -> (name: &'static str) {
        "else"
    }

    fn parse_token(token: &TokenTree) -> (r: Option<Self>) {
        match token {
            TokenTree::Ident(ident) => {
                if Else::is_ident(ident) {
                    Some(Else { span: ident.span })
                } else {
                    None
                }
            },
            _ => None,
        }
    }
}

/// The keyword `unsafe`.
#[derive(Debug, Clone, Copy, PartialEq, Eq, Structural)]
pub struct Unsafe {
    pub span: Span,
}

impl Unsafe {
    /// Whether `value` is the keyword `unsafe`.
    pub fn is_ident(value: &Ident) -> (yes: bool)
        ensures
            yes == (value.value@ == "unsafe"@),
    {
        value.inner().eq("unsafe")
    }
}

impl Spanned for Unsafe {
    open spec fn spanned(&self) -> Span {
        self.span
    }

    fn span(&self) -> (span: Span) {
        self.span
    }
}

impl Token for Unsafe {
    open spec fn is_kind(token: TokenTree) -> bool {
        token matches TokenTree::Ident(ident) && ident.value@ == "unsafe"@
    }

    open spec fn is_token(&self, token: TokenTree) -> bool {
        self.span == span_of(token)
    }

    open spec fn kind_name() -> Seq<char> {
        "unsafe"@
    }

    fn name() -> (name: &'static str) {
        "unsafe"
    }

    fn parse_token(token: &TokenTree) -> (r: Option<Self>) {
        match token {
            TokenTree::Ident(ident) => {
                if Unsafe::is_ident(ident) {
                    Some(Unsafe { span: ident.span })
                } else {
                    None
                }
            },
            _ => None,
        }
    }
}

/// The keyword `import`.
#[derive(Debug, Clone, Copy, PartialEq, Eq, Structural)]
pub struct Import {
    pub span: Span,
}

impl Import {
    /// Whether `value` is the keyword `import`.
    pub fn is_ident(value: &Ident) -> (yes: bool)
        ensures
            yes == (value.value@ == "import"@),
    {
        value.inner().eq("import")
    }
}

impl Spanned for Import {
    open spec fn spanned(&self) -> Span {
        self.span
    }

    fn span(&self) -> (span: Span) {
        self.span
    }
}

impl Token for Import {
    open spec fn is_kind(token: TokenTree) -> bool {
        token matches TokenTree::Ident(ident) && ident.value@ == "import"@
    }

    open spec fn is_token(&self, token: TokenTree) -> bool {
        self.span == span_of(token)
    }

    open spec fn kind_name() -> Seq<char> {
        "import"@
    }

    fn name() -> (name: &'static str) {
        "import"
    }

    fn parse_token(token: &TokenTree) -> (r: Option<Self>) {
        match token {
            TokenTree::Ident(ident) => {
                if Import::is_ident(ident) {
                    Some(Import { span: ident.span })
                } else {
                    None
                }
            },
            _ => None,
        }
    }
}

} // verus!
