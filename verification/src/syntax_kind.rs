//! The closed set of token, expression and statement kinds.

use vstd::prelude::*;

use crate::text::str_eq;

verus! {

/// Every kind of token, syntax node and special marker that the pipeline
/// distinguishes.
#[derive(Clone, Copy, PartialEq, Eq, Structural, Debug)]
pub enum SyntaxKind {
    // tokens
    Eof,
    BadToken,
    Number,
    WhiteSpace,
    Plus,
    Minus,
    Mul,
    Div,
    OpenParenthesis,
    CloseParenthesis,
    Bang,
    AmpersandAmpersand,
    PipePipe,
    EqualsEquals,
    BangEquals,
    OpenBrace,
    CloseBrace,
    Semicolon,
    Equals,
    Less,
    LessOrEquals,
    Greater,
    GreaterOrEquals,
    // keywords
    True,
    False,
    IdentifierToken,
    If,
    Else,
    Let,
    Const,
    While,
    For,
    To,
    // expressions
    LiteralExpression,
    BinaryExpression,
    ParenthesizedExpression,
    UnaryExpression,
    NameExpression,
    // statements
    StatementList,
    Assignment,
    IfStatement,
    ElseStatement,
    VariableDeclaration,
    ConstantDeclaration,
    WhileStatement,
    ForStatement,
    // special
    Variable,
    NoneMarker,
    Error,
}

/// The precedence tier of a binary operator kind; 0 for non-operators.
pub open spec fn spec_binary_precedence(k: SyntaxKind) -> int {
    match k {
        SyntaxKind::Div | SyntaxKind::Mul => 5,
        SyntaxKind::Plus | SyntaxKind::Minus => 4,
        SyntaxKind::EqualsEquals | SyntaxKind::BangEquals => 3,
        SyntaxKind::AmpersandAmpersand => 2,
        SyntaxKind::PipePipe => 1,
        _ => 0,
    }
}

/// The precedence of a unary operator kind; 0 for non-operators.
pub open spec fn spec_unary_precedence(k: SyntaxKind) -> int {
    match k {
        SyntaxKind::Plus | SyntaxKind::Minus | SyntaxKind::Bang => 6,
        _ => 0,
    }
}

/// The kind a fully alphabetic word lexes to: a keyword kind, or an
/// identifier for any other word.
pub open spec fn spec_keyword_kind(text: Seq<char>) -> SyntaxKind {
    if text == "true"@ {
        SyntaxKind::True
    } else if text == "false"@ {
        SyntaxKind::False
    } else if text == "if"@ {
        SyntaxKind::If
    } else if text == "else"@ {
        SyntaxKind::Else
    } else if text == "let"@ {
        SyntaxKind::Let
    } else if text == "const"@ {
        SyntaxKind::Const
    } else if text == "while"@ {
        SyntaxKind::While
    } else if text == "for"@ {
        SyntaxKind::For
    } else if text == "to"@ {
        SyntaxKind::To
    } else {
        SyntaxKind::IdentifierToken
    }
}


/// The display name of a kind, as a diagnostic message spells it.
pub open spec fn spec_kind_name(k: SyntaxKind) -> Seq<char> {
    match k {
        SyntaxKind::Eof => "Eof"@,
        SyntaxKind::BadToken => "BadToken"@,
        SyntaxKind::Number => "Number"@,
        SyntaxKind::WhiteSpace => "WhiteSpace"@,
        SyntaxKind::Plus => "Plus"@,
        SyntaxKind::Minus => "Minus"@,
        SyntaxKind::Mul => "Mul"@,
        SyntaxKind::Div => "Div"@,
        SyntaxKind::OpenParenthesis => "OpenParenthesis"@,
        SyntaxKind::CloseParenthesis => "CloseParenthesis"@,
        SyntaxKind::Bang => "Bang"@,
        SyntaxKind::AmpersandAmpersand => "AmpersandAmpersand"@,
        SyntaxKind::PipePipe => "PipePipe"@,
        SyntaxKind::EqualsEquals => "EqualsEquals"@,
        SyntaxKind::BangEquals => "BangEquals"@,
        SyntaxKind::OpenBrace => "OpenBrace"@,
        SyntaxKind::CloseBrace => "CloseBrace"@,
        SyntaxKind::Semicolon => "Semicolon"@,
        SyntaxKind::Equals => "Equals"@,
        SyntaxKind::Less => "Less"@,
        SyntaxKind::LessOrEquals => "LessOrEquals"@,
        SyntaxKind::Greater => "Greater"@,
        SyntaxKind::GreaterOrEquals => "GreaterOrEquals"@,
        SyntaxKind::True => "True"@,
        SyntaxKind::False => "False"@,
        SyntaxKind::IdentifierToken => "IdentifierToken"@,
        SyntaxKind::If => "If"@,
        SyntaxKind::Else => "Else"@,
        SyntaxKind::Let => "Let"@,
        SyntaxKind::Const => "Const"@,
        SyntaxKind::While => "While"@,
        SyntaxKind::For => "For"@,
        SyntaxKind::To => "To"@,
        SyntaxKind::LiteralExpression => "LiteralExpression"@,
        SyntaxKind::BinaryExpression => "BinaryExpression"@,
        SyntaxKind::ParenthesizedExpression => "ParenthesizedExpression"@,
        SyntaxKind::UnaryExpression => "UnaryExpression"@,
        SyntaxKind::NameExpression => "NameExpression"@,
        SyntaxKind::StatementList => "StatementList"@,
        SyntaxKind::Assignment => "Assignment"@,
        SyntaxKind::IfStatement => "IfStatement"@,
        SyntaxKind::ElseStatement => "ElseStatement"@,
        SyntaxKind::VariableDeclaration => "VariableDeclaration"@,
        SyntaxKind::ConstantDeclaration => "ConstantDeclaration"@,
        SyntaxKind::WhileStatement => "WhileStatement"@,
        SyntaxKind::ForStatement => "ForStatement"@,
        SyntaxKind::Variable => "Variable"@,
        SyntaxKind::NoneMarker => "NoneMarker"@,
        SyntaxKind::Error => "Error"@,
    }
}

/// The display name of a kind, used when building diagnostic messages.
pub fn kind_name(k: SyntaxKind) -> (s: &'static str)
    ensures
        s@ == spec_kind_name(k),
{
    proof {
        reveal_strlit("Eof");
        reveal_strlit("BadToken");
        reveal_strlit("Number");
        reveal_strlit("WhiteSpace");
        reveal_strlit("Plus");
        reveal_strlit("Minus");
        reveal_strlit("Mul");
        reveal_strlit("Div");
        reveal_strlit("OpenParenthesis");
        reveal_strlit("CloseParenthesis");
        reveal_strlit("Bang");
        reveal_strlit("AmpersandAmpersand");
        reveal_strlit("PipePipe");
        reveal_strlit("EqualsEquals");
        reveal_strlit("BangEquals");
        reveal_strlit("OpenBrace");
        reveal_strlit("CloseBrace");
        reveal_strlit("Semicolon");
        reveal_strlit("Equals");
        reveal_strlit("Less");
        reveal_strlit("LessOrEquals");
        reveal_strlit("Greater");
        reveal_strlit("GreaterOrEquals");
        reveal_strlit("True");
        reveal_strlit("False");
        reveal_strlit("IdentifierToken");
        reveal_strlit("If");
        reveal_strlit("Else");
        reveal_strlit("Let");
        reveal_strlit("Const");
        reveal_strlit("While");
        reveal_strlit("For");
        reveal_strlit("To");
        reveal_strlit("LiteralExpression");
        reveal_strlit("BinaryExpression");
        reveal_strlit("ParenthesizedExpression");
        reveal_strlit("UnaryExpression");
        reveal_strlit("NameExpression");
        reveal_strlit("StatementList");
        reveal_strlit("Assignment");
        reveal_strlit("IfStatement");
        reveal_strlit("ElseStatement");
        reveal_strlit("VariableDeclaration");
        reveal_strlit("ConstantDeclaration");
        reveal_strlit("WhileStatement");
        reveal_strlit("ForStatement");
        reveal_strlit("Variable");
        reveal_strlit("NoneMarker");
        reveal_strlit("Error");
    }
    match k {
        SyntaxKind::Eof => "Eof",
        SyntaxKind::BadToken => "BadToken",
        SyntaxKind::Number => "Number",
        SyntaxKind::WhiteSpace => "WhiteSpace",
        SyntaxKind::Plus => "Plus",
        SyntaxKind::Minus => "Minus",
        SyntaxKind::Mul => "Mul",
        SyntaxKind::Div => "Div",
        SyntaxKind::OpenParenthesis => "OpenParenthesis",
        SyntaxKind::CloseParenthesis => "CloseParenthesis",
        SyntaxKind::Bang => "Bang",
        SyntaxKind::AmpersandAmpersand => "AmpersandAmpersand",
        SyntaxKind::PipePipe => "PipePipe",
        SyntaxKind::EqualsEquals => "EqualsEquals",
        SyntaxKind::BangEquals => "BangEquals",
        SyntaxKind::OpenBrace => "OpenBrace",
        SyntaxKind::CloseBrace => "CloseBrace",
        SyntaxKind::Semicolon => "Semicolon",
        SyntaxKind::Equals => "Equals",
        SyntaxKind::Less => "Less",
        SyntaxKind::LessOrEquals => "LessOrEquals",
        SyntaxKind::Greater => "Greater",
        SyntaxKind::GreaterOrEquals => "GreaterOrEquals",
        SyntaxKind::True => "True",
        SyntaxKind::False => "False",
        SyntaxKind::IdentifierToken => "IdentifierToken",
        SyntaxKind::If => "If",
        SyntaxKind::Else => "Else",
        SyntaxKind::Let => "Let",
        SyntaxKind::Const => "Const",
        SyntaxKind::While => "While",
        SyntaxKind::For => "For",
        SyntaxKind::To => "To",
        SyntaxKind::LiteralExpression => "LiteralExpression",
        SyntaxKind::BinaryExpression => "BinaryExpression",
        SyntaxKind::ParenthesizedExpression => "ParenthesizedExpression",
        SyntaxKind::UnaryExpression => "UnaryExpression",
        SyntaxKind::NameExpression => "NameExpression",
        SyntaxKind::StatementList => "StatementList",
        SyntaxKind::Assignment => "Assignment",
        SyntaxKind::IfStatement => "IfStatement",
        SyntaxKind::ElseStatement => "ElseStatement",
        SyntaxKind::VariableDeclaration => "VariableDeclaration",
        SyntaxKind::ConstantDeclaration => "ConstantDeclaration",
        SyntaxKind::WhileStatement => "WhileStatement",
        SyntaxKind::ForStatement => "ForStatement",
        SyntaxKind::Variable => "Variable",
        SyntaxKind::NoneMarker => "NoneMarker",
        SyntaxKind::Error => "Error",
    }
}

impl SyntaxKind {
    /// The binding strength of this kind as a binary operator.
    pub fn get_binary_operator_precendence(&self) -> (p: usize)
        ensures
            p == spec_binary_precedence(*self),
    {
        match *self {
            SyntaxKind::Div | SyntaxKind::Mul => 5,
            SyntaxKind::Plus | SyntaxKind::Minus => 4,
            SyntaxKind::EqualsEquals | SyntaxKind::BangEquals => 3,
            SyntaxKind::AmpersandAmpersand => 2,
            SyntaxKind::PipePipe => 1,
            _ => 0,
        }
    }

    /// The binding strength of this kind as a unary operator.
    pub fn get_unary_operator_precendence(&self) -> (p: usize)
        ensures
            p == spec_unary_precedence(*self),
    {
        match *self {
            SyntaxKind::Plus | SyntaxKind::Minus | SyntaxKind::Bang => 6,
            _ => 0,
        }
    }

    /// Classifies an alphabetic word against the fixed keyword table.
    pub fn get_keyword_kind(text: &str) -> (k: SyntaxKind)
        ensures
            k == spec_keyword_kind(text@),
    {
        if str_eq(text, "true") {
            SyntaxKind::True
        } else if str_eq(text, "false") {
            SyntaxKind::False
        } else if str_eq(text, "if") {
            SyntaxKind::If
        } else if str_eq(text, "else") {
            SyntaxKind::Else
        } else if str_eq(text, "let") {
            SyntaxKind::Let
        } else if str_eq(text, "const") {
            SyntaxKind::Const
        } else if str_eq(text, "while") {
            SyntaxKind::While
        } else if str_eq(text, "for") {
            SyntaxKind::For
        } else if str_eq(text, "to") {
            SyntaxKind::To
        } else {
            SyntaxKind::IdentifierToken
        }
    }
}

} // verus!
