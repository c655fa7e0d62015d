//! Literal values and their static types.

use vstd::prelude::*;

use crate::text::int_rep;
use crate::text::i32_to_string;

verus! {

/// The static type of a literal value.
#[derive(Clone, Copy, PartialEq, Eq, Structural, Debug)]
pub enum LiteralType {
    Integer,
    String,
    Boolean,
}

/// A literal value: an integer, a boolean, or a raw text payload
/// (identifier names and operator spellings carried by tokens).
#[derive(Debug, PartialEq, Eq)]
pub enum LiteralValue {
    Integer(i32),
    String(String),
    Boolean(bool),
}

/// The mathematical value of a `LiteralValue`: text is a sequence of
/// characters, integers are unbounded.
pub enum LiteralValueV {
    Integer(int),
    Str(Seq<char>),
    Boolean(bool),
}

impl View for LiteralValue {
    type V = LiteralValueV;

    open spec fn view(&self) -> LiteralValueV {
        match self {
            LiteralValue::Integer(i) => LiteralValueV::Integer(*i as int),
            LiteralValue::String(s) => LiteralValueV::Str(s@),
            LiteralValue::Boolean(b) => LiteralValueV::Boolean(*b),
        }
    }
}

/// The static type of a literal value, at the specification level.
pub open spec fn spec_type_of(v: LiteralValueV) -> LiteralType {
    match v {
        LiteralValueV::Integer(_) => LiteralType::Integer,
        LiteralValueV::Str(_) => LiteralType::String,
        LiteralValueV::Boolean(_) => LiteralType::Boolean,
    }
}

impl LiteralValue {
    /// The static type of this value.
    pub fn get_type(&self) -> (t: LiteralType)
        ensures
            t == spec_type_of(self@),
    {
        match self {
            LiteralValue::Boolean(_) => LiteralType::Boolean,
            LiteralValue::Integer(_) => LiteralType::Integer,
            LiteralValue::String(_) => LiteralType::String,
        }
    }

    /// The integer payload, if this value is an integer.
    pub fn as_integer(&self) -> (r: Option<i32>)
        ensures
            match r {
                Some(i) => self@ == LiteralValueV::Integer(i as int),
                None => !(self@ is Integer),
            },
    {
        if let LiteralValue::Integer(value) = self {
            Some(*value)
        } else {
            None
        }
    }

    /// The boolean payload, if this value is a boolean.
    pub fn as_boolean(&self) -> (r: Option<bool>)
        ensures
            match r {
                Some(b) => self@ == LiteralValueV::Boolean(b),
                None => !(self@ is Boolean),
            },
    {
        if let LiteralValue::Boolean(value) = self {
            Some(*value)
        } else {
            None
        }
    }

    /// The text payload, if this value is raw text.
    pub fn as_string(&self) -> (r: Option<String>)
        ensures
            match r {
                Some(s) => self@ == LiteralValueV::Str(s@),
                None => !(self@ is Str),
            },
    {
        if let LiteralValue::String(value) = self {
            Some(value.clone())
        } else {
            None
        }
    }

    /// An owned copy with the same mathematical value.
    pub fn duplicate(&self) -> (r: LiteralValue)
        ensures
            r@ == self@,
    {
        match self {
            LiteralValue::Integer(i) => LiteralValue::Integer(*i),
            LiteralValue::String(s) => LiteralValue::String(s.clone()),
            LiteralValue::Boolean(b) => LiteralValue::Boolean(*b),
        }
    }
}


/// The display name of a literal type, as diagnostic messages spell it.
pub open spec fn spec_literal_type_name(t: LiteralType) -> Seq<char> {
    match t {
        LiteralType::Integer => "Integer"@,
        LiteralType::String => "String"@,
        LiteralType::Boolean => "Boolean"@,
    }
}

/// The display rendering of a literal value inside the token trace
/// message: the variant name with its payload in parentheses.
pub open spec fn spec_value_debug(v: LiteralValueV) -> Seq<char> {
    match v {
        LiteralValueV::Integer(i) => "Integer("@ + int_rep(i) + ")"@,
        LiteralValueV::Str(s) => "String(\""@ + s + "\")"@,
        LiteralValueV::Boolean(b) => if b {
            "Boolean(true)"@
        } else {
            "Boolean(false)"@
        },
    }
}

/// The display name of a literal type.
pub fn literal_type_name(t: LiteralType) -> (s: &'static str)
    ensures
        s@ == spec_literal_type_name(t),
{
    proof {
        reveal_strlit("Integer");
        reveal_strlit("String");
        reveal_strlit("Boolean");
    }
    match t {
        LiteralType::Integer => "Integer",
        LiteralType::String => "String",
        LiteralType::Boolean => "Boolean",
    }
}

/// Renders a literal value as the token trace message shows it.
pub fn value_debug(v: &LiteralValue) -> (s: String)
    ensures
        s@ == spec_value_debug(v@),
{
    proof {
        reveal_strlit("Integer(");
        reveal_strlit("String(\"");
        reveal_strlit("\")");
        reveal_strlit(")");
        reveal_strlit("Boolean(true)");
        reveal_strlit("Boolean(false)");
    }
    match v {
        LiteralValue::Integer(i) => {
            let num = i32_to_string(*i);
            String::from_str("Integer(").concat(num.as_str()).concat(")")
        },
        LiteralValue::String(t) => {
            String::from_str("String(\"").concat(t.as_str()).concat("\")")
        },
        LiteralValue::Boolean(b) => {
            if *b {
                String::from_str("Boolean(true)")
            } else {
                String::from_str("Boolean(false)")
            }
        },
    }
}

} // verus!
