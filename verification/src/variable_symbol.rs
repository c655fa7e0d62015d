//! Named, typed declaration sites used for lookup in scopes and in the
//! variable store.

use vstd::prelude::*;

use crate::literals::LiteralType;

verus! {

/// A declared variable: its name, static type, constness and whether it
/// was declared at the outermost block.
#[derive(Debug)]
pub struct VariableSymbol {
    id: String,
    kind: LiteralType,
    read_only: bool,
    is_global: bool,
}

/// The mathematical value of a variable symbol.
pub struct SymV {
    pub id: Seq<char>,
    pub kind: LiteralType,
    pub read_only: bool,
    pub is_global: bool,
}

impl View for VariableSymbol {
    type V = SymV;

    closed spec fn view(&self) -> SymV {
        SymV {
            id: self.id@,
            kind: self.kind,
            read_only: self.read_only,
            is_global: self.is_global,
        }
    }
}

impl VariableSymbol {
    /// A symbol from its parts.
    pub fn new(id: String, kind: LiteralType, read_only: bool, is_global: bool) -> (s:
        VariableSymbol)
        ensures
            s@ == (SymV { id: id@, kind, read_only, is_global }),
    {
        VariableSymbol { id, kind, read_only, is_global }
    }

    /// The symbol's name.
    pub fn id(&self) -> (r: String)
        ensures
            r@ == self@.id,
    {
        self.id.clone()
    }

    /// The symbol's static type.
    pub fn get_type(&self) -> (r: LiteralType)
        ensures
            r == self@.kind,
    {
        self.kind
    }

    /// Whether the symbol was declared as a constant.
    pub fn is_read_only(&self) -> (r: bool)
        ensures
            r == self@.read_only,
    {
        self.read_only
    }

    /// Whether the symbol was declared at the outermost block.
    pub fn is_global(&self) -> (r: bool)
        ensures
            r == self@.is_global,
    {
        self.is_global
    }

    /// An owned copy with the same mathematical value.
    pub fn duplicate(&self) -> (s: VariableSymbol)
        ensures
            s@ == self@,
    {
        VariableSymbol {
            id: self.id.clone(),
            kind: self.kind,
            read_only: self.read_only,
            is_global: self.is_global,
        }
    }
}

} // verus!
