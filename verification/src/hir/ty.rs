//! Types as they are written.
use crate::hir::parse::{SyntaxError, SyntaxResult, TokenIter};
use crate::token::tree::same_token;
use crate::token::ident::Ident;
use crate::{Span, Spanned};
use vstd::prelude::*;

verus! {

/// A type that the language has by itself.
#[derive(Debug, Clone, Copy, PartialEq, Eq, Structural)]
pub enum Primitive {
    Void { span: Span },
    Byte { span: Span },
    Short { span: Span },
    Int { span: Span },
    Long { span: Span },
    Float { span: Span },
    Double { span: Span },
    String { span: Span },
}

impl Primitive {
    /// The primitive type that `ident` names, if it names one.
    pub fn from_ident(ident: &Ident) -> (primitive: Option<Primitive>)
        ensures
            match primitive {
                Some(Primitive::Void { span }) => ident.value@ == "void"@ && span == ident.span,
                Some(Primitive::Byte { span }) => ident.value@ == "byte"@ && span == ident.span,
                Some(Primitive::Short { span }) => ident.value@ == "short"@ && span == ident.span,
                Some(Primitive::Int { span }) => ident.value@ == "int"@ && span == ident.span,
                Some(Primitive::Long { span }) => ident.value@ == "long"@ && span == ident.span,
                Some(Primitive::Float { span }) => ident.value@ == "float"@ && span == ident.span,
                Some(Primitive::Double { span }) => ident.value@ == "double"@ && span == ident.span,
                Some(Primitive::String { span }) => ident.value@ == "string"@ && span == ident.span,
                None => {
                    &&& ident.value@ != "void"@
                    &&& ident.value@ != "byte"@
                    &&& ident.value@ != "short"@
                    &&& ident.value@ != "int"@
                    &&& ident.value@ != "long"@
                    &&& ident.value@ != "float"@
                    &&& ident.value@ != "double"@
                    &&& ident.value@ != "string"@
                },
            },
    {
        let text = ident.inner();
        let span = ident.span;
        if text.eq("void") {
            Some(Primitive::Void { span })
        } else if text.eq("byte") {
            Some(Primitive::Byte { span })
        } else if text.eq("short") {
            Some(Primitive::Short { span })
        } else if text.eq("int") {
            Some(Primitive::Int { span })
        } else if text.eq("long") {
            Some(Primitive::Long { span })
        } else if text.eq("float") {
            Some(Primitive::Float { span })
        } else if text.eq("double") {
            Some(Primitive::Double { span })
        } else if text.eq("string") {
            Some(Primitive::String { span })
        } else {
            None
        }
    }
}

/// The place of a primitive type in the source.
pub open spec fn primitive_span(primitive: Primitive) -> Span {
    match primitive {
        Primitive::Void { span } => span,
        Primitive::Byte { span } => span,
        Primitive::Short { span } => span,
        Primitive::Int { span } => span,
        Primitive::Long { span } => span,
        Primitive::Float { span } => span,
        Primitive::Double { span } => span,
        Primitive::String { span } => span,
    }
}

impl Spanned for Primitive {
    open spec fn spanned(&self) -> Span {
        primitive_span(*self)
    }

    fn span(&self) -> (span: Span) {
        match self {
            Primitive::Void { span } => *span,
            Primitive::Byte { span } => *span,
            Primitive::Short { span } => *span,
            Primitive::Int { span } => *span,
            Primitive::Long { span } => *span,
            Primitive::Float { span } => *span,
            Primitive::Double { span } => *span,
            Primitive::String { span } => *span,
        }
    }
}

impl Spanned for Type {
    open spec fn spanned(&self) -> Span {
        match *self {
            Type::Primitive(primitive) => primitive_span(primitive),
            Type::UserDefined(ident) => ident.span,
        }
    }

    fn span(&self) -> (span: Span) {
        match self {
            Type::Primitive(primitive) => primitive.span(),
            Type::UserDefined(ident) => ident.span,
        }
    }
}

/// The primitive type named `text`, if it names one.
pub open spec fn primitive_named(text: Seq<char>) -> bool {
    text == "void"@ || text == "byte"@ || text == "short"@ || text == "int"@ || text == "long"@
        || text == "float"@ || text == "double"@ || text == "string"@
}

/// `ty` is the type that the identifier `ident` names: the primitive type of
/// that name if there is one, else the type that the program defines under
/// that name.
pub open spec fn reads_type(ty: Type, ident: Ident) -> bool {
    match ty {
        Type::Primitive(primitive) => primitive_span(primitive) == ident.span && match primitive {
            Primitive::Void { .. } => ident.value@ == "void"@,
            Primitive::Byte { .. } => ident.value@ == "byte"@,
            Primitive::Short { .. } => ident.value@ == "short"@,
            Primitive::Int { .. } => ident.value@ == "int"@,
            Primitive::Long { .. } => ident.value@ == "long"@,
            Primitive::Float { .. } => ident.value@ == "float"@,
            Primitive::Double { .. } => ident.value@ == "double"@,
            Primitive::String { .. } => ident.value@ == "string"@,
        },
        Type::UserDefined(name) => name == ident && !primitive_named(ident.value@),
    }
}

/// A type: a primitive one, or one that the program names.
#[derive(Debug, PartialEq)]
pub enum Type {
    Primitive(Primitive),
    UserDefined(Ident),
}

impl Type {
    /// Reads a type: one identifier.
    pub fn parse(iter: &mut TokenIter) -> (r: SyntaxResult<Type>)
        requires
            old(iter).wf(),
        ensures
            final(iter).follows(old(iter)),
            final(iter).weight() <= old(iter).weight(),
            r is Ok ==> final(iter).weight() < old(iter).weight(),
            r is Ok <==> old(iter).next() is Some && old(iter).next()->0 is Ident,
            r is Ok ==> final(iter).offset() == old(iter).offset() + 1 && reads_type(
                r->Ok_0,
                old(iter).next()->0->Ident_0,
            ),
            r is Err ==> match old(iter).next() {
                Some(token) => r->Err_0 matches SyntaxError::UnexpectedToken(found, expected)
                    && same_token(token, found) && expected@ == "Ident"@,
                None => r->Err_0 is EarlyEof,
            },
    {
        let ident: Ident = iter.parse_token::<Ident>()?;
        match Primitive::from_ident(&ident) {
            Some(primitive) => Ok(Type::Primitive(primitive)),
            None => Ok(Type::UserDefined(ident)),
        }
    }
}

} // verus!
