//! Punctuation by kind: one type for each punctuation, for the places in
//! the syntax tree where only that punctuation may stand.
use crate::token::punct::{Punct, PunctToken};
use crate::token::tree::{span_of, Token, TokenTree};
use crate::{Span, Spanned};
use vstd::prelude::*;

verus! {

/// The punctuation `+`.
#[derive(Debug, Clone, Copy, PartialEq, Eq, Structural)]
pub struct Plus {
    pub span: Span,
}

impl Plus {
    /// Whether `punct` is the punctuation `+`.
    pub fn is_punct(punct: &Punct) -> (yes: bool)
        ensures
            yes == (punct.value == PunctToken::Plus),
    {
        match punct.value {
            PunctToken::Plus => true,
            _ => false,
        }
    }

    /// The punctuation as this kind, if it is of this kind.
    pub fn from_punct(punct: Punct) -> (mark: Option<Plus>)
        ensures
            mark is Some <==> punct.value == PunctToken::Plus,
            mark is Some ==> mark->0.span == punct.span,
    {
        if Plus::is_punct(&punct) {
            Some(Plus { span: punct.span })
        } else {
            None
        }
    }
}

impl Spanned for Plus {
    open spec fn spanned(&self) -> Span {
        self.span
    }

    fn span(&self) -> (span: Span) {
        self.span
    }
}

impl Token for Plus {
    open spec fn is_kind(token: TokenTree) -> bool {
        token matches TokenTree::Punct(punct) && punct.value == PunctToken::Plus
    }

    open spec fn is_token(&self, token: TokenTree) -> bool {
        self.span == span_of(token)
    }

    open spec fn kind_name() -> Seq<char> {
        "Plus"@
    }

    fn name() -> (name: &'static str) {
        "Plus"
    }

    fn parse_token(token: &TokenTree) -> (r: Option<Self>) {
        match token {
            TokenTree::Punct(punct) => Plus::from_punct(*punct),
            _ => None,
        }
    }
}

/// The punctuation `-`.
#[derive(Debug, Clone, Copy, PartialEq, Eq, Structural)]
pub struct Minus {
    pub span: Span,
}

impl Minus {
    /// Whether `punct` is the punctuation `-`.
    pub fn is_punct(punct: &Punct) -> (yes: bool)
        ensures
            yes == (punct.value == PunctToken::Minus),
    {
        match punct.value {
            PunctToken::Minus => true,
            _ => false,
        }
    }

    /// The punctuation as this kind, if it is of this kind.
    pub fn from_punct(punct: Punct) -> (mark: Option<Minus>)
        ensures
            mark is Some <==> punct.value == PunctToken::Minus,
            mark is Some ==> mark->0.span == punct.span,
    {
        if Minus::is_punct(&punct) {
            Some(Minus { span: punct.span })
        } else {
            None
        }
    }
}

impl Spanned for Minus {
    open spec fn spanned(&self) -> Span {
        self.span
    }

    fn span(&self) -> (span: Span) {
        self.span
    }
}

impl Token for Minus {
    open spec fn is_kind(token: TokenTree) -> bool {
        token matches TokenTree::Punct(punct) && punct.value == PunctToken::Minus
    }

    open spec fn is_token(&self, token: TokenTree) -> bool {
        self.span == span_of(token)
    }

    open spec fn kind_name() -> Seq<char> {
        "Minus"@
    }

    fn name() -> (name: &'static str) {
        "Minus"
    }

    fn parse_token(token: &TokenTree) -> (r: Option<Self>) {
        match token {
            TokenTree::Punct(punct) => Minus::from_punct(*punct),
            _ => None,
        }
    }
}

/// The punctuation `*`.
#[derive(Debug, Clone, Copy, PartialEq, Eq, Structural)]
pub struct Star {
    pub span: Span,
}

impl Star {
    /// Whether `punct` is the punctuation `*`.
    pub fn is_punct(punct: &Punct) -> (yes: bool)
        ensures
            yes == (punct.value == PunctToken::Star),
    {
        match punct.value {
            PunctToken::Star => true,
            _ => false,
        }
    }

    /// The punctuation as this kind, if it is of this kind.
    pub fn from_punct(punct: Punct) -> (mark: Option<Star>)
        ensures
            mark is Some <==> punct.value == PunctToken::Star,
            mark is Some ==> mark->0.span == punct.span,
    {
        if Star::is_punct(&punct) {
            Some(Star { span: punct.span })
        } else {
            None
        }
    }
}

impl Spanned for Star {
    open spec fn spanned(&self) -> Span {
        self.span
    }

    fn span(&self) -> (span: Span) {
        self.span
    }
}

impl Token for Star {
    open spec fn is_kind(token: TokenTree) -> bool {
        token matches TokenTree::Punct(punct) && punct.value == PunctToken::Star
    }

    open spec fn is_token(&self, token: TokenTree) -> bool {
        self.span == span_of(token)
    }

    open spec fn kind_name() -> Seq<char> {
        "Star"@
    }

    fn name() -> (name: &'static str) {
        "Star"
    }

    fn parse_token(token: &TokenTree) -> (r: Option<Self>) {
        match token {
            TokenTree::Punct(punct) => Star::from_punct(*punct),
            _ => None,
        }
    }
}

/// The punctuation `/`.
#[derive(Debug, Clone, Copy, PartialEq, Eq, Structural)]
pub struct Slash {
    pub span: Span,
}

impl Slash {
    /// Whether `punct` is the punctuation `/`.
    pub fn is_punct(punct: &Punct) -> (yes: bool)
        ensures
            yes == (punct.value == PunctToken::Slash),
    {
        match punct.value {
            PunctToken::Slash => true,
            _ => false,
        }
    }

    /// The punctuation as this kind, if it is of this kind.
    pub fn from_punct(punct: Punct) -> (mark: Option<Slash>)
        ensures
            mark is Some <==> punct.value == PunctToken::Slash,
            mark is Some ==> mark->0.span == punct.span,
    {
        if Slash::is_punct(&punct) {
            Some(Slash { span: punct.span })
        } else {
            None
        }
    }
}

impl Spanned for Slash {
    open spec fn spanned(&self) -> Span {
        self.span
    }

    fn span(&self) -> (span: Span) {
        self.span
    }
}

impl Token for Slash {
    open spec fn is_kind(token: TokenTree) -> bool {
        token matches TokenTree::Punct(punct) && punct.value == PunctToken::Slash
    }

    open spec fn is_token(&self, token: TokenTree) -> bool {
        self.span == span_of(token)
    }

    open spec fn kind_name() -> Seq<char> {
        "Slash"@
    }

    fn name() -> (name: &'static str) {
        "Slash"
    }

    fn parse_token(token: &TokenTree) -> (r: Option<Self>) {
        match token {
            TokenTree::Punct(punct) => Slash::from_punct(*punct),
            _ => None,
        }
    }
}

/// The punctuation `%`.
#[derive(Debug, Clone, Copy, PartialEq, Eq, Structural)]
pub struct Percent {
    pub span: Span,
}

impl Percent {
    /// Whether `punct` is the punctuation `%`.
    pub fn is_punct(punct: &Punct) -> (yes: bool)
        ensures
            yes == (punct.value == PunctToken::Percent),
    {
        match punct.value {
            PunctToken::Percent => true,
            _ => false,
        }
    }

    /// The punctuation as this kind, if it is of this kind.
    pub fn from_punct(punct: Punct) -> (mark: Option<Percent>)
        ensures
            mark is Some <==> punct.value == PunctToken::Percent,
            mark is Some ==> mark->0.span == punct.span,
    {
        if Percent::is_punct(&punct) {
            Some(Percent { span: punct.span })
        } else {
            None
        }
    }
}

impl Spanned for Percent {
    open spec fn spanned(&self) -> Span {
        self.span
    }

    fn span(&self) -> (span: Span) {
        self.span
    }
}

impl Token for Percent {
    open spec fn is_kind(token: TokenTree) -> bool {
        token matches TokenTree::Punct(punct) && punct.value == PunctToken::Percent
    }

    open spec fn is_token(&self, token: TokenTree) -> bool {
        self.span == span_of(token)
    }

    open spec fn kind_name() -> Seq<char> {
        "Percent"@
    }

    fn name() -> (name: &'static str) {
        "Percent"
    }

    fn parse_token(token: &TokenTree) -> (r: Option<Self>) {
        match token {
            TokenTree::Punct(punct) => Percent::from_punct(*punct),
            _ => None,
        }
    }
}

/// The punctuation `<`.
#[derive(Debug, Clone, Copy, PartialEq, Eq, Structural)]
pub struct LessThan {
    pub span: Span,
}

impl LessThan {
    /// Whether `punct` is the punctuation `<`.
    pub fn is_punct(punct: &Punct) -> (yes: bool)
        ensures
            yes == (punct.value == PunctToken::LessThan),
    {
        match punct.value {
            PunctToken::LessThan => true,
            _ => false,
        }
    }

    /// The punctuation as this kind, if it is of this kind.
    pub fn from_punct(punct: Punct) -> (mark: Option<LessThan>)
        ensures
            mark is Some <==> punct.value == PunctToken::LessThan,
            mark is Some ==> mark->0.span == punct.span,
    {
        if LessThan::is_punct(&punct) {
            Some(LessThan { span: punct.span })
        } else {
            None
        }
    }
}

impl Spanned for LessThan {
    open spec fn spanned(&self) -> Span {
        self.span
    }

    fn span(&self) -> (span: Span) {
        self.span
    }
}

impl Token for LessThan {
    open spec fn is_kind(token: TokenTree) -> bool {
        token matches TokenTree::Punct(punct) && punct.value == PunctToken::LessThan
    }

    open spec fn is_token(&self, token: TokenTree) -> bool {
        self.span == span_of(token)
    }

    open spec fn kind_name() -> Seq<char> {
        "LessThan"@
    }

    fn name() -> (name: &'static str) {
        "LessThan"
    }

    fn parse_token(token: &TokenTree) -> (r: Option<Self>) {
        match token {
            TokenTree::Punct(punct) => LessThan::from_punct(*punct),
            _ => None,
        }
    }
}

/// The punctuation `<=`.
#[derive(Debug, Clone, Copy, PartialEq, Eq, Structural)]
pub struct LessThanEquals {
    pub span: Span,
}

impl LessThanEquals {
    /// Whether `punct` is the punctuation `<=`.
    pub fn is_punct(punct: &Punct) -> (yes: bool)
        ensures
            yes == (punct.value == PunctToken::LessThanEquals),
    {
        match punct.value {
            PunctToken::LessThanEquals => true,
            _ => false,
        }
    }

    /// The punctuation as this kind, if it is of this kind.
    pub fn from_punct(punct: Punct) -> (mark: Option<LessThanEquals>)
        ensures
            mark is Some <==> punct.value == PunctToken::LessThanEquals,
            mark is Some ==> mark->0.span == punct.span,
    {
        if LessThanEquals::is_punct(&punct) {
            Some(LessThanEquals { span: punct.span })
        } else {
            None
        }
    }
}

impl Spanned for LessThanEquals {
    open spec fn spanned(&self) -> Span {
        self.span
    }

    fn span(&self) -> (span: Span) {
        self.span
    }
}

impl Token for LessThanEquals {
    open spec fn is_kind(token: TokenTree) -> bool {
        token matches TokenTree::Punct(punct) && punct.value == PunctToken::LessThanEquals
    }

    open spec fn is_token(&self, token: TokenTree) -> bool {
        self.span == span_of(token)
    }

    open spec fn kind_name() -> Seq<char> {
        "LessThanEquals"@
    }

    fn name() -> (name: &'static str) {
        "LessThanEquals"
    }

    fn parse_token(token: &TokenTree) -> (r: Option<Self>) {
        match token {
            TokenTree::Punct(punct) => LessThanEquals::from_punct(*punct),
            _ => None,
        }
    }
}

/// The punctuation `>`.
#[derive(Debug, Clone, Copy, PartialEq, Eq, Structural)]
pub struct GreaterThan {
    pub span: Span,
}

impl GreaterThan {
    /// Whether `punct` is the punctuation `>`.
    pub fn is_punct(punct: &Punct) -> (yes: bool)
        ensures
            yes == (punct.value == PunctToken::GreaterThan),
    {
        match punct.value {
            PunctToken::GreaterThan => true,
            _ => false,
        }
    }

    /// The punctuation as this kind, if it is of this kind.
    pub fn from_punct(punct: Punct) -> (mark: Option<GreaterThan>)
        ensures
            mark is Some <==> punct.value == PunctToken::GreaterThan,
            mark is Some ==> mark->0.span == punct.span,
    {
        if GreaterThan::is_punct(&punct) {
            Some(GreaterThan { span: punct.span })
        } else {
            None
        }
    }
}

impl Spanned for GreaterThan {
    open spec fn spanned(&self) -> Span {
        self.span
    }

    fn span(&self) -> (span: Span) {
        self.span
    }
}

impl Token for GreaterThan {
    open spec fn is_kind(token: TokenTree) -> bool {
        token matches TokenTree::Punct(punct) && punct.value == PunctToken::GreaterThan
    }

    open spec fn is_token(&self, token: TokenTree) -> bool {
        self.span == span_of(token)
    }

    open spec fn kind_name() -> Seq<char> {
        "GreaterThan"@
    }

    fn name() -> (name: &'static str) {
        "GreaterThan"
    }

    fn parse_token(token: &TokenTree) -> (r: Option<Self>) {
        match token {
            TokenTree::Punct(punct) => GreaterThan::from_punct(*punct),
            _ => None,
        }
    }
}

/// The punctuation `>=`.
#[derive(Debug, Clone, Copy, PartialEq, Eq, Structural)]
pub struct GreaterThanEquals {
    pub span: Span,
}

impl GreaterThanEquals {
    /// Whether `punct` is the punctuation `>=`.
    pub fn is_punct(punct: &Punct) -> (yes: bool)
        ensures
            yes == (punct.value == PunctToken::GreaterThanEquals),
    {
        match punct.value {
            PunctToken::GreaterThanEquals => true,
            _ => false,
        }
    }

    /// The punctuation as this kind, if it is of this kind.
    pub fn from_punct(punct: Punct) -> (mark: Option<GreaterThanEquals>)
        ensures
            mark is Some <==> punct.value == PunctToken::GreaterThanEquals,
            mark is Some ==> mark->0.span == punct.span,
    {
        if GreaterThanEquals::is_punct(&punct) {
            Some(GreaterThanEquals { span: punct.span })
        } else {
            None
        }
    }
}

impl Spanned for GreaterThanEquals {
    open spec fn spanned(&self) -> Span {
        self.span
    }

    fn span(&self) -> (span: Span) {
        self.span
    }
}

impl Token for GreaterThanEquals {
    open spec fn is_kind(token: TokenTree) -> bool {
        token matches TokenTree::Punct(punct) && punct.value == PunctToken::GreaterThanEquals
    }

    open spec fn is_token(&self, token: TokenTree) -> bool {
        self.span == span_of(token)
    }

    open spec fn kind_name() -> Seq<char> {
        "GreaterThanEquals"@
    }

    fn name() -> (name: &'static str) {
        "GreaterThanEquals"
    }

    fn parse_token(token: &TokenTree) -> (r: Option<Self>) {
        match token {
            TokenTree::Punct(punct) => GreaterThanEquals::from_punct(*punct),
            _ => None,
        }
    }
}

/// The punctuation `=`.
#[derive(Debug, Clone, Copy, PartialEq, Eq, Structural)]
pub struct Assign {
    pub span: Span,
}

impl Assign {
    /// Whether `punct` is the punctuation `=`.
    pub fn is_punct(punct: &Punct) -> (yes: bool)
        ensures
            yes == (punct.value == PunctToken::Assign),
    {
        match punct.value {
            PunctToken::Assign => true,
            _ => false,
        }
    }

    /// The punctuation as this kind, if it is of this kind.
    pub fn from_punct(punct: Punct) -> (mark: Option<Assign>)
        ensures
            mark is Some <==> punct.value == PunctToken::Assign,
            mark is Some ==> mark->0.span == punct.span,
    {
        if Assign::is_punct(&punct) {
            Some(Assign { span: punct.span })
        } else {
            None
        }
    }
}

impl Spanned for Assign {
    open spec fn spanned(&self) -> Span {
        self.span
    }

    fn span(&self) -> (span: Span) {
        self.span
    }
}

impl Token for Assign {
    open spec fn is_kind(token: TokenTree) -> bool {
        token matches TokenTree::Punct(punct) && punct.value == PunctToken::Assign
    }

    open spec fn is_token(&self, token: TokenTree) -> bool {
        self.span == span_of(token)
    }

    open spec fn kind_name() -> Seq<char> {
        "Assign"@
    }

    fn name() -> (name: &'static str) {
        "Assign"
    }

    fn parse_token(token: &TokenTree) -> (r: Option<Self>) {
        match token {
            TokenTree::Punct(punct) => Assign::from_punct(*punct),
            _ => None,
        }
    }
}

/// The punctuation `!`.
#[derive(Debug, Clone, Copy, PartialEq, Eq, Structural)]
pub struct Not {
    pub span: Span,
}

impl Not {
    /// Whether `punct` is the punctuation `!`.
    pub fn is_punct(punct: &Punct) -> (yes: bool)
        ensures
            yes == (punct.value == PunctToken::Not),
    {
        match punct.value {
            PunctToken::Not => true,
            _ => false,
        }
    }

    /// The punctuation as this kind, if it is of this kind.
    pub fn from_punct(punct: Punct) -> (mark: Option<Not>)
        ensures
            mark is Some <==> punct.value == PunctToken::Not,
            mark is Some ==> mark->0.span == punct.span,
    {
        if Not::is_punct(&punct) {
            Some(Not { span: punct.span })
        } else {
            None
        }
    }
}

impl Spanned for Not {
    open spec fn spanned(&self) -> Span {
        self.span
    }

    fn span(&self) -> (span: Span) {
        self.span
    }
}

impl Token for Not {
    open spec fn is_kind(token: TokenTree) -> bool {
        token matches TokenTree::Punct(punct) && punct.value == PunctToken::Not
    }

    open spec fn is_token(&self, token: TokenTree) -> bool {
        self.span == span_of(token)
    }

    open spec fn kind_name() -> Seq<char> {
        "Not"@
    }

    fn name() -> (name: &'static str) {
        "Not"
    }

    fn parse_token(token: &TokenTree) -> (r: Option<Self>) {
        match token {
            TokenTree::Punct(punct) => Not::from_punct(*punct),
            _ => None,
        }
    }
}

/// The punctuation `!=`.
#[derive(Debug, Clone, Copy, PartialEq, Eq, Structural)]
pub struct NotEquals {
    pub span: Span,
}

impl NotEquals {
    /// Whether `punct` is the punctuation `!=`.
    pub fn is_punct(punct: &Punct) -> (yes: bool)
        ensures
            yes == (punct.value == PunctToken::NotEquals),
    {
        match punct.value {
            PunctToken::NotEquals => true,
            _ => false,
        }
    }

    /// The punctuation as this kind, if it is of this kind.
    pub fn from_punct(punct: Punct) -> (mark: Option<NotEquals>)
        ensures
            mark is Some <==> punct.value == PunctToken::NotEquals,
            mark is Some ==> mark->0.span == punct.span,
    {
        if NotEquals::is_punct(&punct) {
            Some(NotEquals { span: punct.span })
        } else {
            None
        }
    }
}

impl Spanned for NotEquals {
    open spec fn spanned(&self) -> Span {
        self.span
    }

    fn span(&self) -> (span: Span) {
        self.span
    }
}

impl Token for NotEquals {
    open spec fn is_kind(token: TokenTree) -> bool {
        token matches TokenTree::Punct(punct) && punct.value == PunctToken::NotEquals
    }

    open spec fn is_token(&self, token: TokenTree) -> bool {
        self.span == span_of(token)
    }

    open spec fn kind_name() -> Seq<char> {
        "NotEquals"@
    }

    fn name() -> (name: &'static str) {
        "NotEquals"
    }

    fn parse_token(token: &TokenTree) -> (r: Option<Self>) {
        match token {
            TokenTree::Punct(punct) => NotEquals::from_punct(*punct),
            _ => None,
        }
    }
}

/// The punctuation `.`.
#[derive(Debug, Clone, Copy, PartialEq, Eq, Structural)]
pub struct Dot {
    pub span: Span,
}

impl Dot {
    /// Whether `punct` is the punctuation `.`.
    pub fn is_punct(punct: &Punct) -> (yes: bool)
        ensures
            yes == (punct.value == PunctToken::Dot),
    {
        match punct.value {
            PunctToken::Dot => true,
            _ => false,
        }
    }

    /// The punctuation as this kind, if it is of this kind.
    pub fn from_punct(punct: Punct) -> (mark: Option<Dot>)
        ensures
            mark is Some <==> punct.value == PunctToken::Dot,
            mark is Some ==> mark->0.span == punct.span,
    {
        if Dot::is_punct(&punct) {
            Some(Dot { span: punct.span })
        } else {
            None
        }
    }
}

impl Spanned for Dot {
    open spec fn spanned(&self) -> Span {
        self.span
    }

    fn span(&self) -> (span: Span) {
        self.span
    }
}

impl Token for Dot {
    open spec fn is_kind(token: TokenTree) -> bool {
        token matches TokenTree::Punct(punct) && punct.value == PunctToken::Dot
    }

    open spec fn is_token(&self, token: TokenTree) -> bool {
        self.span == span_of(token)
    }

    open spec fn kind_name() -> Seq<char> {
        "Dot"@
    }

    fn name() -> (name: &'static str) {
        "Dot"
    }

    fn parse_token(token: &TokenTree) -> (r: Option<Self>) {
        match token {
            TokenTree::Punct(punct) => Dot::from_punct(*punct),
            _ => None,
        }
    }
}

/// The punctuation `?`.
#[derive(Debug, Clone, Copy, PartialEq, Eq, Structural)]
pub struct Ternary {
    pub span: Span,
}

impl Ternary {
    /// Whether `punct` is the punctuation `?`.
    pub fn is_punct(punct: &Punct) -> (yes: bool)
        ensures
            yes == (punct.value == PunctToken::Ternary),
    {
        match punct.value {
            PunctToken::Ternary => true,
            _ => false,
        }
    }

    /// The punctuation as this kind, if it is of this kind.
    pub fn from_punct(punct: Punct) -> (mark: Option<Ternary>)
        ensures
            mark is Some <==> punct.value == PunctToken::Ternary,
            mark is Some ==> mark->0.span == punct.span,
    {
        if Ternary::is_punct(&punct) {
            Some(Ternary { span: punct.span })
        } else {
            None
        }
    }
}

impl Spanned for Ternary {
    open spec fn spanned(&self) -> Span {
        self.span
    }

    fn span(&self) -> (span: Span) {
        self.span
    }
}

impl Token for Ternary {
    open spec fn is_kind(token: TokenTree) -> bool {
        token matches TokenTree::Punct(punct) && punct.value == PunctToken::Ternary
    }

    open spec fn is_token(&self, token: TokenTree) -> bool {
        self.span == span_of(token)
    }

    open spec fn kind_name() -> Seq<char> {
        "Ternary"@
    }

    fn name() -> (name: &'static str) {
        "Ternary"
    }

    fn parse_token(token: &TokenTree) -> (r: Option<Self>) {
        match token {
            TokenTree::Punct(punct) => Ternary::from_punct(*punct),
            _ => None,
        }
    }
}

/// The punctuation `:`.
#[derive(Debug, Clone, Copy, PartialEq, Eq, Structural)]
pub struct Colon {
    pub span: Span,
}

impl Colon {
    /// Whether `punct` is the punctuation `:`.
    pub fn is_punct(punct: &Punct) -> (yes: bool)
        ensures
            yes == (punct.value == PunctToken::Colon),
    {
        match punct.value {
            PunctToken::Colon => true,
            _ => false,
        }
    }

    /// The punctuation as this kind, if it is of this kind.
    pub fn from_punct(punct: Punct) -> (mark: Option<Colon>)
        ensures
            mark is Some <==> punct.value == PunctToken::Colon,
            mark is Some ==> mark->0.span == punct.span,
    {
        if Colon::is_punct(&punct) {
            Some(Colon { span: punct.span })
        } else {
            None
        }
    }
}

impl Spanned for Colon {
    open spec fn spanned(&self) -> Span {
        self.span
    }

    fn span(&self) -> (span: Span) {
        self.span
    }
}

impl Token for Colon {
    open spec fn is_kind(token: TokenTree) -> bool {
        token matches TokenTree::Punct(punct) && punct.value == PunctToken::Colon
    }

    open spec fn is_token(&self, token: TokenTree) -> bool {
        self.span == span_of(token)
    }

    open spec fn kind_name() -> Seq<char> {
        "Colon"@
    }

    fn name() -> (name: &'static str) {
        "Colon"
    }

    fn parse_token(token: &TokenTree) -> (r: Option<Self>) {
        match token {
            TokenTree::Punct(punct) => Colon::from_punct(*punct),
            _ => None,
        }
    }
}

/// The punctuation `==`.
#[derive(Debug, Clone, Copy, PartialEq, Eq, Structural)]
pub struct Equals {
    pub span: Span,
}

impl Equals {
    /// Whether `punct` is the punctuation `==`.
    pub fn is_punct(punct: &Punct) -> (yes: bool)
        ensures
            yes == (punct.value == PunctToken::Equals),
    {
        match punct.value {
            PunctToken::Equals => true,
            _ => false,
        }
    }

    /// The punctuation as this kind, if it is of this kind.
    pub fn from_punct(punct: Punct) -> (mark: Option<Equals>)
        ensures
            mark is Some <==> punct.value == PunctToken::Equals,
            mark is Some ==> mark->0.span == punct.span,
    {
        if Equals::is_punct(&punct) {
            Some(Equals { span: punct.span })
        } else {
            None
        }
    }
}

impl Spanned for Equals {
    open spec fn spanned(&self) -> Span {
        self.span
    }

    fn span(&self) -> (span: Span) {
        self.span
    }
}

impl Token for Equals {
    open spec fn is_kind(token: TokenTree) -> bool {
        token matches TokenTree::Punct(punct) && punct.value == PunctToken::Equals
    }

    open spec fn is_token(&self, token: TokenTree) -> bool {
        self.span == span_of(token)
    }

    open spec fn kind_name() -> Seq<char> {
        "Equals"@
    }

    fn name() -> (name: &'static str) {
        "Equals"
    }

    fn parse_token(token: &TokenTree) -> (r: Option<Self>) {
        match token {
            TokenTree::Punct(punct) => Equals::from_punct(*punct),
            _ => None,
        }
    }
}

/// The punctuation `&&`.
#[derive(Debug, Clone, Copy, PartialEq, Eq, Structural)]
pub struct And {
    pub span: Span,
}

impl And {
    /// Whether `punct` is the punctuation `&&`.
    pub fn is_punct(punct: &Punct) -> (yes: bool)
        ensures
            yes == (punct.value == PunctToken::And),
    {
        match punct.value {
            PunctToken::And => true,
            _ => false,
        }
    }

    /// The punctuation as this kind, if it is of this kind.
    pub fn from_punct(punct: Punct) -> (mark: Option<And>)
        ensures
            mark is Some <==> punct.value == PunctToken::And,
            mark is Some ==> mark->0.span == punct.span,
    {
        if And::is_punct(&punct) {
            Some(And { span: punct.span })
        } else {
            None
        }
    }
}

impl Spanned for And {
    open spec fn spanned(&self) -> Span {
        self.span
    }

    fn span(&self) -> (span: Span) {
        self.span
    }
}

impl Token for And {
    open spec fn is_kind(token: TokenTree) -> bool {
        token matches TokenTree::Punct(punct) && punct.value == PunctToken::And
    }

    open spec fn is_token(&self, token: TokenTree) -> bool {
        self.span == span_of(token)
    }

    open spec fn kind_name() -> Seq<char> {
        "And"@
    }

    fn name() -> (name: &'static str) {
        "And"
    }

    fn parse_token(token: &TokenTree) -> (r: Option<Self>) {
        match token {
            TokenTree::Punct(punct) => And::from_punct(*punct),
            _ => None,
        }
    }
}

/// The punctuation `||`.
#[derive(Debug, Clone, Copy, PartialEq, Eq, Structural)]
pub struct Or {
    pub span: Span,
}

impl Or {
    /// Whether `punct` is the punctuation `||`.
    pub fn is_punct(punct: &Punct) -> (yes: bool)
        ensures
            yes == (punct.value == PunctToken::Or),
    {
        match punct.value {
            PunctToken::Or => true,
            _ => false,
        }
    }

    /// The punctuation as this kind, if it is of this kind.
    pub fn from_punct(punct: Punct) -> (mark: Option<Or>)
        ensures
            mark is Some <==> punct.value == PunctToken::Or,
            mark is Some ==> mark->0.span == punct.span,
    {
        if Or::is_punct(&punct) {
            Some(Or { span: punct.span })
        } else {
            None
        }
    }
}

impl Spanned for Or {
    open spec fn spanned(&self) -> Span {
        self.span
    }

    fn span(&self) -> (span: Span) {
        self.span
    }
}

impl Token for Or {
    open spec fn is_kind(token: TokenTree) -> bool {
        token matches TokenTree::Punct(punct) && punct.value == PunctToken::Or
    }

    open spec fn is_token(&self, token: TokenTree) -> bool {
        self.span == span_of(token)
    }

    open spec fn kind_name() -> Seq<char> {
        "Or"@
    }

    fn name() -> (name: &'static str) {
        "Or"
    }

    fn parse_token(token: &TokenTree) -> (r: Option<Self>) {
        match token {
            TokenTree::Punct(punct) => Or::from_punct(*punct),
            _ => None,
        }
    }
}

/// The punctuation `??`.
#[derive(Debug, Clone, Copy, PartialEq, Eq, Structural)]
pub struct NullishCoalescing {
    pub span: Span,
}

impl NullishCoalescing {
    /// Whether `punct` is the punctuation `??`.
    pub fn is_punct(punct: &Punct) -> (yes: bool)
        ensures
            yes == (punct.value == PunctToken::NullishCoalescing),
    {
        match punct.value {
            PunctToken::NullishCoalescing => true,
            _ => false,
        }
    }

    /// The punctuation as this kind, if it is of this kind.
    pub fn from_punct(punct: Punct) -> (mark: Option<NullishCoalescing>)
        ensures
            mark is Some <==> punct.value == PunctToken::NullishCoalescing,
            mark is Some ==> mark->0.span == punct.span,
    {
        if NullishCoalescing::is_punct(&punct) {
            Some(NullishCoalescing { span: punct.span })
        } else {
            None
        }
    }
}

impl Spanned for NullishCoalescing {
    open spec fn spanned(&self) -> Span {
        self.span
    }

    fn span(&self) -> (span: Span) {
        self.span
    }
}

impl Token for NullishCoalescing {
    open spec fn is_kind(token: TokenTree) -> bool {
        token matches TokenTree::Punct(punct) && punct.value == PunctToken::NullishCoalescing
    }

    open spec fn is_token(&self, token: TokenTree) -> bool {
        self.span == span_of(token)
    }

    open spec fn kind_name() -> Seq<char> {
        "NullishCoalescing"@
    }

    fn name() -> (name: &'static str) {
        "NullishCoalescing"
    }

    fn parse_token(token: &TokenTree) -> (r: Option<Self>) {
        match token {
            TokenTree::Punct(punct) => NullishCoalescing::from_punct(*punct),
            _ => None,
        }
    }
}

/// The punctuation `;`.
#[derive(Debug, Clone, Copy, PartialEq, Eq, Structural)]
pub struct Semicolon {
    pub span: Span,
}

impl Semicolon {
    /// Whether `punct` is the punctuation `;`.
    pub fn is_punct(punct: &Punct) -> (yes: bool)
        ensures
            yes == (punct.value == PunctToken::Semicolon),
    {
        match punct.value {
            PunctToken::Semicolon => true,
            _ => false,
        }
    }

    /// The punctuation as this kind, if it is of this kind.
    pub fn from_punct(punct: Punct) -> (mark: Option<Semicolon>)
        ensures
            mark is Some <==> punct.value == PunctToken::Semicolon,
            mark is Some ==> mark->0.span == punct.span,
    {
        if Semicolon::is_punct(&punct) {
            Some(Semicolon { span: punct.span })
        } else {
            None
        }
    }
}

impl Spanned for Semicolon {
    open spec fn spanned(&self) -> Span {
        self.span
    }

    fn span(&self) -> (span: Span) {
        self.span
    }
}

impl Token for Semicolon {
    open spec fn is_kind(token: TokenTree) -> bool {
        token matches TokenTree::Punct(punct) && punct.value == PunctToken::Semicolon
    }

    open spec fn is_token(&self, token: TokenTree) -> bool {
        self.span == span_of(token)
    }

    open spec fn kind_name() -> Seq<char> {
        "Semicolon"@
    }

    fn name() -> (name: &'static str) {
        "Semicolon"
    }

    fn parse_token(token: &TokenTree) -> (r: Option<Self>) {
        match token {
            TokenTree::Punct(punct) => Semicolon::from_punct(*punct),
            _ => None,
        }
    }
}

/// The punctuation `,`.
#[derive(Debug, Clone, Copy, PartialEq, Eq, Structural)]
pub struct Comma {
    pub span: Span,
}

impl Comma {
    /// Whether `punct` is the punctuation `,`.
    pub fn is_punct(punct: &Punct) -> (yes: bool)
        ensures
            yes == (punct.value == PunctToken::Comma),
    {
        match punct.value {
            PunctToken::Comma => true,
            _ => false,
        }
    }

    /// The punctuation as this kind, if it is of this kind.
    pub fn from_punct(punct: Punct) -> (mark: Option<Comma>)
        ensures
            mark is Some <==> punct.value == PunctToken::Comma,
            mark is Some ==> mark->0.span == punct.span,
    {
        if Comma::is_punct(&punct) {
            Some(Comma { span: punct.span })
        } else {
            None
        }
    }
}

impl Spanned for Comma {
    open spec fn spanned(&self) -> Span {
        self.span
    }

    fn span(&self) -> (span: Span) {
        self.span
    }
}

impl Token for Comma {
    open spec fn is_kind(token: TokenTree) -> bool {
        token matches TokenTree::Punct(punct) && punct.value == PunctToken::Comma
    }

    open spec fn is_token(&self, token: TokenTree) -> bool {
        self.span == span_of(token)
    }

    open spec fn kind_name() -> Seq<char> {
        "Comma"@
    }

    fn name() -> (name: &'static str) {
        "Comma"
    }

    fn parse_token(token: &TokenTree) -> (r: Option<Self>) {
        match token {
            TokenTree::Punct(punct) => Comma::from_punct(*punct),
            _ => None,
        }
    }
}

/// The punctuation `->`.
#[derive(Debug, Clone, Copy, PartialEq, Eq, Structural)]
pub struct Lambda {
    pub span: Span,
}

impl Lambda {
    /// Whether `punct` is the punctuation `->`.
    pub fn is_punct(punct: &Punct) -> (yes: bool)
        ensures
            yes == (punct.value == PunctToken::Lambda),
    {
        match punct.value {
            PunctToken::Lambda => true,
            _ => false,
        }
    }

    /// The punctuation as this kind, if it is of this kind.
    pub fn from_punct(punct: Punct) -> (mark: Option<Lambda>)
        ensures
            mark is Some <==> punct.value == PunctToken::Lambda,
            mark is Some ==> mark->0.span == punct.span,
    {
        if Lambda::is_punct(&punct) {
            Some(Lambda { span: punct.span })
        } else {
            None
        }
    }
}

impl Spanned for Lambda {
    open spec fn spanned(&self) -> Span {
        self.span
    }

    fn span(&self) -> (span: Span) {
        self.span
    }
}

impl Token for Lambda {
    open spec fn is_kind(token: TokenTree) -> bool {
        token matches TokenTree::Punct(punct) && punct.value == PunctToken::Lambda
    }

    open spec fn is_token(&self, token: TokenTree) -> bool {
        self.span == span_of(token)
    }

    open spec fn kind_name() -> Seq<char> {
        "Lambda"@
    }

    fn name() -> (name: &'static str) {
        "Lambda"
    }

    fn parse_token(token: &TokenTree) -> (r: Option<Self>) {
        match token {
            TokenTree::Punct(punct) => Lambda::from_punct(*punct),
            _ => None,
        }
    }
}

} // verus!
