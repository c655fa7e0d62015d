//! Tokens produced by the lexer.

use vstd::prelude::*;

use crate::literals::LiteralValue;
use crate::literals::LiteralValueV;
use crate::literals::LiteralType;
use crate::literals::spec_type_of;
use crate::syntax_kind::SyntaxKind;

verus! {

/// One token: its source text, payload value, source position, kind and
/// length.
#[derive(Debug)]
pub struct SyntaxToken {
    name: String,
    value: LiteralValue,
    position: usize,
    kind: SyntaxKind,
    length: usize,
}

/// The mathematical value of a token.
pub struct TokenV {
    pub name: Seq<char>,
    pub value: LiteralValueV,
    pub position: int,
    pub kind: SyntaxKind,
    pub length: int,
}

impl View for SyntaxToken {
    type V = TokenV;

    closed spec fn view(&self) -> TokenV {
        TokenV {
            name: self.name@,
            value: self.value@,
            position: self.position as int,
            kind: self.kind,
            length: self.length as int,
        }
    }
}

impl SyntaxToken {
    /// A token from its parts.
    pub fn new(
        name: String,
        value: LiteralValue,
        position: usize,
        kind: SyntaxKind,
        length: usize,
    ) -> (t: SyntaxToken)
        ensures
            t@ == (TokenV {
                name: name@,
                value: value@,
                position: position as int,
                kind,
                length: length as int,
            }),
    {
        SyntaxToken { name, value, position, kind, length }
    }

    /// The source text of the token.
    pub fn name(&self) -> (r: String)
        ensures
            r@ == self@.name,
    {
        self.name.clone()
    }

    /// The payload value.
    pub fn value(&self) -> (r: &LiteralValue)
        ensures
            r@ == self@.value,
    {
        &self.value
    }

    /// The source offset of the first character.
    pub fn position(&self) -> (r: usize)
        ensures
            r == self@.position,
    {
        self.position
    }

    /// The number of characters the token covers.
    pub fn length(&self) -> (r: usize)
        ensures
            r == self@.length,
    {
        self.length
    }

    /// The token's kind.
    pub fn kind(&self) -> (r: &SyntaxKind)
        ensures
            *r == self@.kind,
    {
        &self.kind
    }

    /// The static type of the payload value.
    pub fn get_type(&self) -> (r: LiteralType)
        ensures
            r == spec_type_of(self@.value),
    {
        self.value.get_type()
    }

    /// An owned copy with the same mathematical value.
    pub fn duplicate(&self) -> (t: SyntaxToken)
        ensures
            t@ == self@,
    {
        SyntaxToken {
            name: self.name.clone(),
            value: self.value.duplicate(),
            position: self.position,
            kind: self.kind,
            length: self.length,
        }
    }
}

} // verus!
