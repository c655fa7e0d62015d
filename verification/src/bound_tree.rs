//! The typed tree the binder produces, and the fixed operator tables
//! that map syntax operators and operand types to typed operations.

use vstd::prelude::*;

use crate::literals::LiteralType;
use crate::literals::LiteralValue;
use crate::literals::LiteralValueV;
use crate::syntax_kind::SyntaxKind;
use crate::variable_symbol::SymV;
use crate::variable_symbol::VariableSymbol;

verus! {

/// The operation a unary operator performs.
#[derive(Clone, Copy, PartialEq, Eq, Structural, Debug)]
pub enum BoundUnaryOperatorKind {
    Identity,
    Negation,
    LogicalNegation,
}

/// The operation a binary operator performs.
#[derive(Clone, Copy, PartialEq, Eq, Structural, Debug)]
pub enum BoundBinaryOperatorKind {
    Addition,
    Subtraction,
    Multiplication,
    Division,
    LogicalAnd,
    LogicalOr,
    Equals,
    NotEquals,
    Less,
    LessOrEquals,
    Greater,
    GreaterOrEquals,
}

/// The tag distinguishing the bound node variants.
#[derive(Clone, Copy, PartialEq, Eq, Structural, Debug)]
pub enum BoundKind {
    BoundStatementList,
    BoundAssignment,
    BoundVariableDeclaration,
    BoundConstantDeclaration,
    BoundIfStatement,
    BoundWhileStatement,
    BoundForStatement,
    BoundLiteralExpression,
    BoundUnaryExpression,
    BoundBinaryExpression,
}

/// A resolved unary operator: its syntax kind, operation, operand type
/// and result type.
#[derive(Clone, Copy, PartialEq, Eq, Structural, Debug)]
pub struct BoundUnaryOperator {
    pub syntax_kind: SyntaxKind,
    pub kind: BoundUnaryOperatorKind,
    pub operand_type: LiteralType,
    pub result_type: LiteralType,
}

/// A resolved binary operator: its syntax kind, operation, operand
/// types and result type.
#[derive(Clone, Copy, PartialEq, Eq, Structural, Debug)]
pub struct BoundBinaryOperator {
    pub syntax_kind: SyntaxKind,
    pub kind: BoundBinaryOperatorKind,
    pub left_type: LiteralType,
    pub right_type: LiteralType,
    pub result_type: LiteralType,
}

/// The unary operator resolved for a syntax kind and operand type:
/// `!` on booleans, `+` and `-` on integers.
pub open spec fn spec_bind_unary_operator(syntax_kind: SyntaxKind, operand_type:
    LiteralType) -> Option<BoundUnaryOperator> {
    if syntax_kind == SyntaxKind::Bang && operand_type == LiteralType::Boolean {
        Option::Some(
            BoundUnaryOperator {
                syntax_kind: SyntaxKind::Bang,
                kind: BoundUnaryOperatorKind::LogicalNegation,
                operand_type: LiteralType::Boolean,
                result_type: LiteralType::Boolean,
            },
        )
    } else if syntax_kind == SyntaxKind::Plus && operand_type == LiteralType::Integer {
        Option::Some(
            BoundUnaryOperator {
                syntax_kind: SyntaxKind::Plus,
                kind: BoundUnaryOperatorKind::Identity,
                operand_type: LiteralType::Integer,
                result_type: LiteralType::Integer,
            },
        )
    } else if syntax_kind == SyntaxKind::Minus && operand_type == LiteralType::Integer {
        Option::Some(
            BoundUnaryOperator {
                syntax_kind: SyntaxKind::Minus,
                kind: BoundUnaryOperatorKind::Negation,
                operand_type: LiteralType::Integer,
                result_type: LiteralType::Integer,
            },
        )
    } else {
        Option::None
    }
}

/// A binary table entry applying an operator to two operands of
/// `operand_type` yielding `result_type`.
pub open spec fn binary_entry(
    syntax_kind: SyntaxKind,
    kind: BoundBinaryOperatorKind,
    operand_type: LiteralType,
    result_type: LiteralType,
) -> BoundBinaryOperator {
    BoundBinaryOperator {
        syntax_kind,
        kind,
        left_type: operand_type,
        right_type: operand_type,
        result_type,
    }
}

/// The binary operator resolved for a syntax kind and operand types:
/// arithmetic on integers, comparisons on integers, equality on
/// integers or booleans, conjunction and disjunction on booleans.
pub open spec fn spec_bind_binary_operator(
    syntax_kind: SyntaxKind,
    left_type: LiteralType,
    right_type: LiteralType,
) -> Option<BoundBinaryOperator> {
    let int_int = left_type == LiteralType::Integer && right_type == LiteralType::Integer;
    let bool_bool = left_type == LiteralType::Boolean && right_type == LiteralType::Boolean;
    if syntax_kind == SyntaxKind::Plus && int_int {
        Option::Some(binary_entry(syntax_kind, BoundBinaryOperatorKind::Addition,
            LiteralType::Integer, LiteralType::Integer))
    } else if syntax_kind == SyntaxKind::Minus && int_int {
        Option::Some(binary_entry(syntax_kind, BoundBinaryOperatorKind::Subtraction,
            LiteralType::Integer, LiteralType::Integer))
    } else if syntax_kind == SyntaxKind::Mul && int_int {
        Option::Some(binary_entry(syntax_kind, BoundBinaryOperatorKind::Multiplication,
            LiteralType::Integer, LiteralType::Integer))
    } else if syntax_kind == SyntaxKind::Div && int_int {
        Option::Some(binary_entry(syntax_kind, BoundBinaryOperatorKind::Division,
            LiteralType::Integer, LiteralType::Integer))
    } else if syntax_kind == SyntaxKind::EqualsEquals && int_int {
        Option::Some(binary_entry(syntax_kind, BoundBinaryOperatorKind::Equals,
            LiteralType::Integer, LiteralType::Boolean))
    } else if syntax_kind == SyntaxKind::BangEquals && int_int {
        Option::Some(binary_entry(syntax_kind, BoundBinaryOperatorKind::NotEquals,
            LiteralType::Integer, LiteralType::Boolean))
    } else if syntax_kind == SyntaxKind::AmpersandAmpersand && bool_bool {
        Option::Some(binary_entry(syntax_kind, BoundBinaryOperatorKind::LogicalAnd,
            LiteralType::Boolean, LiteralType::Boolean))
    } else if syntax_kind == SyntaxKind::PipePipe && bool_bool {
        Option::Some(binary_entry(syntax_kind, BoundBinaryOperatorKind::LogicalOr,
            LiteralType::Boolean, LiteralType::Boolean))
    } else if syntax_kind == SyntaxKind::EqualsEquals && bool_bool {
        Option::Some(binary_entry(syntax_kind, BoundBinaryOperatorKind::Equals,
            LiteralType::Boolean, LiteralType::Boolean))
    } else if syntax_kind == SyntaxKind::BangEquals && bool_bool {
        Option::Some(binary_entry(syntax_kind, BoundBinaryOperatorKind::NotEquals,
            LiteralType::Boolean, LiteralType::Boolean))
    } else if syntax_kind == SyntaxKind::Less && int_int {
        Option::Some(binary_entry(syntax_kind, BoundBinaryOperatorKind::Less,
            LiteralType::Integer, LiteralType::Boolean))
    } else if syntax_kind == SyntaxKind::LessOrEquals && int_int {
        Option::Some(binary_entry(syntax_kind, BoundBinaryOperatorKind::LessOrEquals,
            LiteralType::Integer, LiteralType::Boolean))
    } else if syntax_kind == SyntaxKind::Greater && int_int {
        Option::Some(binary_entry(syntax_kind, BoundBinaryOperatorKind::Greater,
            LiteralType::Integer, LiteralType::Boolean))
    } else if syntax_kind == SyntaxKind::GreaterOrEquals && int_int {
        Option::Some(binary_entry(syntax_kind, BoundBinaryOperatorKind::GreaterOrEquals,
            LiteralType::Integer, LiteralType::Boolean))
    } else {
        Option::None
    }
}

impl BoundUnaryOperator {
    /// The result type of the operation.
    pub fn get_type(&self) -> (t: LiteralType)
        ensures
            t == self.result_type,
    {
        self.result_type
    }

    /// The operation performed.
    pub fn get_kind(&self) -> (k: BoundUnaryOperatorKind)
        ensures
            k == self.kind,
    {
        self.kind
    }

    /// The result type, at the specification level.
    pub open spec fn spec_result_type(self) -> LiteralType {
        self.result_type
    }

    /// The operation, at the specification level.
    pub open spec fn spec_kind(self) -> BoundUnaryOperatorKind {
        self.kind
    }

    /// Resolves a unary operator against the fixed table.
    pub fn bind(syntax_kind: SyntaxKind, operand_type: LiteralType) -> (r: Option<
        BoundUnaryOperator,
    >)
        ensures
            r == spec_bind_unary_operator(syntax_kind, operand_type),
    {
        if syntax_kind == SyntaxKind::Bang && operand_type == LiteralType::Boolean {
            Option::Some(
                BoundUnaryOperator {
                    syntax_kind: SyntaxKind::Bang,
                    kind: BoundUnaryOperatorKind::LogicalNegation,
                    operand_type: LiteralType::Boolean,
                    result_type: LiteralType::Boolean,
                },
            )
        } else if syntax_kind == SyntaxKind::Plus && operand_type == LiteralType::Integer {
            Option::Some(
                BoundUnaryOperator {
                    syntax_kind: SyntaxKind::Plus,
                    kind: BoundUnaryOperatorKind::Identity,
                    operand_type: LiteralType::Integer,
                    result_type: LiteralType::Integer,
                },
            )
        } else if syntax_kind == SyntaxKind::Minus && operand_type == LiteralType::Integer {
            Option::Some(
                BoundUnaryOperator {
                    syntax_kind: SyntaxKind::Minus,
                    kind: BoundUnaryOperatorKind::Negation,
                    operand_type: LiteralType::Integer,
                    result_type: LiteralType::Integer,
                },
            )
        } else {
            Option::None
        }
    }
}

impl BoundBinaryOperator {
    /// The result type of the operation.
    pub fn get_type(&self) -> (t: LiteralType)
        ensures
            t == self.result_type,
    {
        self.result_type
    }

    /// The operation performed.
    pub fn get_kind(&self) -> (k: BoundBinaryOperatorKind)
        ensures
            k == self.kind,
    {
        self.kind
    }

    /// The result type, at the specification level.
    pub open spec fn spec_result_type(self) -> LiteralType {
        self.result_type
    }

    /// The operation, at the specification level.
    pub open spec fn spec_kind(self) -> BoundBinaryOperatorKind {
        self.kind
    }

    /// Resolves a binary operator against the fixed table.
    pub fn bind(syntax_kind: SyntaxKind, left_type: LiteralType, right_type: LiteralType) -> (r:
        Option<BoundBinaryOperator>)
        ensures
            r == spec_bind_binary_operator(syntax_kind, left_type, right_type),
    {
        let int_int = left_type == LiteralType::Integer && right_type == LiteralType::Integer;
        let bool_bool = left_type == LiteralType::Boolean && right_type == LiteralType::Boolean;
        if int_int && syntax_kind == SyntaxKind::Plus {
            Option::Some(BoundBinaryOperator {
                syntax_kind,
                kind: BoundBinaryOperatorKind::Addition,
                left_type: LiteralType::Integer,
                right_type: LiteralType::Integer,
                result_type: LiteralType::Integer,
            })
        } else if int_int && syntax_kind == SyntaxKind::Minus {
            Option::Some(BoundBinaryOperator {
                syntax_kind,
                kind: BoundBinaryOperatorKind::Subtraction,
                left_type: LiteralType::Integer,
                right_type: LiteralType::Integer,
                result_type: LiteralType::Integer,
            })
        } else if int_int && syntax_kind == SyntaxKind::Mul {
            Option::Some(BoundBinaryOperator {
                syntax_kind,
                kind: BoundBinaryOperatorKind::Multiplication,
                left_type: LiteralType::Integer,
                right_type: LiteralType::Integer,
                result_type: LiteralType::Integer,
            })
        } else if int_int && syntax_kind == SyntaxKind::Div {
            Option::Some(BoundBinaryOperator {
                syntax_kind,
                kind: BoundBinaryOperatorKind::Division,
                left_type: LiteralType::Integer,
                right_type: LiteralType::Integer,
                result_type: LiteralType::Integer,
            })
        } else if int_int && syntax_kind == SyntaxKind::EqualsEquals {
            Option::Some(BoundBinaryOperator {
                syntax_kind,
                kind: BoundBinaryOperatorKind::Equals,
                left_type: LiteralType::Integer,
                right_type: LiteralType::Integer,
                result_type: LiteralType::Boolean,
            })
        } else if int_int && syntax_kind == SyntaxKind::BangEquals {
            Option::Some(BoundBinaryOperator {
                syntax_kind,
                kind: BoundBinaryOperatorKind::NotEquals,
                left_type: LiteralType::Integer,
                right_type: LiteralType::Integer,
                result_type: LiteralType::Boolean,
            })
        } else if bool_bool && syntax_kind == SyntaxKind::AmpersandAmpersand {
            Option::Some(BoundBinaryOperator {
                syntax_kind,
                kind: BoundBinaryOperatorKind::LogicalAnd,
                left_type: LiteralType::Boolean,
                right_type: LiteralType::Boolean,
                result_type: LiteralType::Boolean,
            })
        } else if bool_bool && syntax_kind == SyntaxKind::PipePipe {
            Option::Some(BoundBinaryOperator {
                syntax_kind,
                kind: BoundBinaryOperatorKind::LogicalOr,
                left_type: LiteralType::Boolean,
                right_type: LiteralType::Boolean,
                result_type: LiteralType::Boolean,
            })
        } else if bool_bool && syntax_kind == SyntaxKind::EqualsEquals {
            Option::Some(BoundBinaryOperator {
                syntax_kind,
                kind: BoundBinaryOperatorKind::Equals,
                left_type: LiteralType::Boolean,
                right_type: LiteralType::Boolean,
                result_type: LiteralType::Boolean,
            })
        } else if bool_bool && syntax_kind == SyntaxKind::BangEquals {
            Option::Some(BoundBinaryOperator {
                syntax_kind,
                kind: BoundBinaryOperatorKind::NotEquals,
                left_type: LiteralType::Boolean,
                right_type: LiteralType::Boolean,
                result_type: LiteralType::Boolean,
            })
        } else if int_int && syntax_kind == SyntaxKind::Less {
            Option::Some(BoundBinaryOperator {
                syntax_kind,
                kind: BoundBinaryOperatorKind::Less,
                left_type: LiteralType::Integer,
                right_type: LiteralType::Integer,
                result_type: LiteralType::Boolean,
            })
        } else if int_int && syntax_kind == SyntaxKind::LessOrEquals {
            Option::Some(BoundBinaryOperator {
                syntax_kind,
                kind: BoundBinaryOperatorKind::LessOrEquals,
                left_type: LiteralType::Integer,
                right_type: LiteralType::Integer,
                result_type: LiteralType::Boolean,
            })
        } else if int_int && syntax_kind == SyntaxKind::Greater {
            Option::Some(BoundBinaryOperator {
                syntax_kind,
                kind: BoundBinaryOperatorKind::Greater,
                left_type: LiteralType::Integer,
                right_type: LiteralType::Integer,
                result_type: LiteralType::Boolean,
            })
        } else if int_int && syntax_kind == SyntaxKind::GreaterOrEquals {
            Option::Some(BoundBinaryOperator {
                syntax_kind,
                kind: BoundBinaryOperatorKind::GreaterOrEquals,
                left_type: LiteralType::Integer,
                right_type: LiteralType::Integer,
                result_type: LiteralType::Boolean,
            })
        } else {
            Option::None
        }
    }
}

/// A typed expression node.
pub enum BoundExpression {
    Literal(BoundLiteralExpression),
    Unary(BoundUnaryExpression),
    Binary(BoundBinaryExpression),
}

/// A typed statement node.
pub enum BoundStatement {
    List(BoundStatementList),
    Assign(BoundAssignment),
    VarDecl(BoundVariableDeclaration),
    ConstDecl(BoundConstantDeclaration),
    If(BoundIfStatement),
    While(BoundWhileStatement),
    For(BoundForStatement),
}

/// A typed literal: a plain value, or a deferred variable lookup marked
/// with kind `Variable`, or an error placeholder.
pub struct BoundLiteralExpression {
    pub(crate) value: LiteralValue,
    pub(crate) type_of_value: LiteralType,
    pub(crate) kind: SyntaxKind,
}

/// A typed unary operation.
pub struct BoundUnaryExpression {
    pub(crate) operator: BoundUnaryOperator,
    pub(crate) operand: Box<BoundExpression>,
}

/// A typed binary operation.
pub struct BoundBinaryExpression {
    pub(crate) left: Box<BoundExpression>,
    pub(crate) operator: BoundBinaryOperator,
    pub(crate) right: Box<BoundExpression>,
}

/// A typed statement list.
pub struct BoundStatementList {
    pub(crate) statements: Vec<BoundStatement>,
}

/// A typed assignment to a resolved symbol.
pub struct BoundAssignment {
    pub(crate) variable: VariableSymbol,
    pub(crate) expression: BoundExpression,
}

/// A typed `let` declaration.
pub struct BoundVariableDeclaration {
    pub(crate) variable: VariableSymbol,
    pub(crate) expression: BoundExpression,
}

/// A typed `const` declaration.
pub struct BoundConstantDeclaration {
    pub(crate) variable: VariableSymbol,
    pub(crate) expression: BoundExpression,
}

/// A typed `if` statement.
pub struct BoundIfStatement {
    pub(crate) condition: BoundExpression,
    pub(crate) then_statement: Box<BoundStatement>,
    pub(crate) else_statement: Option<Box<BoundStatement>>,
}

/// A typed `while` statement.
pub struct BoundWhileStatement {
    pub(crate) condition: BoundExpression,
    pub(crate) body: Box<BoundStatement>,
}

/// A typed `for` statement.
pub struct BoundForStatement {
    pub(crate) variable: VariableSymbol,
    pub(crate) lower_bound: BoundExpression,
    pub(crate) upper_bound: BoundExpression,
    pub(crate) body: Box<BoundStatement>,
}

/// The mathematical value of a typed expression.
pub enum BExprV {
    Literal(BoundLiteralExpressionV),
    Unary(BoundUnaryExpressionV),
    Binary(BoundBinaryExpressionV),
}

/// The mathematical value of a typed statement.
pub enum BStmtV {
    List(BoundStatementListV),
    Assign(BoundAssignmentV),
    VarDecl(BoundVariableDeclarationV),
    ConstDecl(BoundConstantDeclarationV),
    If(BoundIfStatementV),
    While(BoundWhileStatementV),
    For(BoundForStatementV),
}

pub struct BoundLiteralExpressionV {
    pub value: LiteralValueV,
    pub type_of_value: LiteralType,
    pub kind: SyntaxKind,
}

pub struct BoundUnaryExpressionV {
    pub operator: BoundUnaryOperator,
    pub operand: Box<BExprV>,
}

pub struct BoundBinaryExpressionV {
    pub left: Box<BExprV>,
    pub operator: BoundBinaryOperator,
    pub right: Box<BExprV>,
}

pub struct BoundStatementListV {
    pub statements: Seq<BStmtV>,
}

pub struct BoundAssignmentV {
    pub variable: SymV,
    pub expression: BExprV,
}

pub struct BoundVariableDeclarationV {
    pub variable: SymV,
    pub expression: BExprV,
}

pub struct BoundConstantDeclarationV {
    pub variable: SymV,
    pub expression: BExprV,
}

pub struct BoundIfStatementV {
    pub condition: BExprV,
    pub then_statement: Box<BStmtV>,
    pub else_statement: Option<Box<BStmtV>>,
}

pub struct BoundWhileStatementV {
    pub condition: BExprV,
    pub body: Box<BStmtV>,
}

pub struct BoundForStatementV {
    pub variable: SymV,
    pub lower_bound: BExprV,
    pub upper_bound: BExprV,
    pub body: Box<BStmtV>,
}

/// The views of a sequence of typed statements, in order.
pub open spec fn bstmt_seq_view(v: Seq<BoundStatement>) -> Seq<BStmtV>
    decreases v,
{
    if v.len() == 0 {
        Seq::empty()
    } else {
        seq![v[0]@].add(bstmt_seq_view(v.drop_first()))
    }
}

impl View for BoundExpression {
    type V = BExprV;

    open spec fn view(&self) -> BExprV
        decreases self,
    {
        match self {
            BoundExpression::Literal(e) => BExprV::Literal(e@),
            BoundExpression::Unary(e) => BExprV::Unary(e@),
            BoundExpression::Binary(e) => BExprV::Binary(e@),
        }
    }
}

impl View for BoundStatement {
    type V = BStmtV;

    open spec fn view(&self) -> BStmtV
        decreases self,
    {
        match self {
            BoundStatement::List(s) => BStmtV::List(s@),
            BoundStatement::Assign(s) => BStmtV::Assign(s@),
            BoundStatement::VarDecl(s) => BStmtV::VarDecl(s@),
            BoundStatement::ConstDecl(s) => BStmtV::ConstDecl(s@),
            BoundStatement::If(s) => BStmtV::If(s@),
            BoundStatement::While(s) => BStmtV::While(s@),
            BoundStatement::For(s) => BStmtV::For(s@),
        }
    }
}

impl View for BoundLiteralExpression {
    type V = BoundLiteralExpressionV;

    closed spec fn view(&self) -> BoundLiteralExpressionV {
        BoundLiteralExpressionV {
            value: self.value@,
            type_of_value: self.type_of_value,
            kind: self.kind,
        }
    }
}

impl View for BoundUnaryExpression {
    type V = BoundUnaryExpressionV;

    closed spec fn view(&self) -> BoundUnaryExpressionV
        decreases self,
    {
        BoundUnaryExpressionV {
            operator: self.operator,
            operand: Box::new((*self.operand)@),
        }
    }
}

impl View for BoundBinaryExpression {
    type V = BoundBinaryExpressionV;

    closed spec fn view(&self) -> BoundBinaryExpressionV
        decreases self,
    {
        BoundBinaryExpressionV {
            left: Box::new((*self.left)@),
            operator: self.operator,
            right: Box::new((*self.right)@),
        }
    }
}

impl View for BoundStatementList {
    type V = BoundStatementListV;

    closed spec fn view(&self) -> BoundStatementListV
        decreases self,
    {
        BoundStatementListV { statements: bstmt_seq_view(self.statements@) }
    }
}

impl View for BoundAssignment {
    type V = BoundAssignmentV;

    closed spec fn view(&self) -> BoundAssignmentV
        decreases self,
    {
        BoundAssignmentV { variable: self.variable@, expression: self.expression@ }
    }
}

impl View for BoundVariableDeclaration {
    type V = BoundVariableDeclarationV;

    closed spec fn view(&self) -> BoundVariableDeclarationV
        decreases self,
    {
        BoundVariableDeclarationV { variable: self.variable@, expression: self.expression@ }
    }
}

impl View for BoundConstantDeclaration {
    type V = BoundConstantDeclarationV;

    closed spec fn view(&self) -> BoundConstantDeclarationV
        decreases self,
    {
        BoundConstantDeclarationV { variable: self.variable@, expression: self.expression@ }
    }
}

impl View for BoundIfStatement {
    type V = BoundIfStatementV;

    closed spec fn view(&self) -> BoundIfStatementV
        decreases self,
    {
        BoundIfStatementV {
            condition: self.condition@,
            then_statement: Box::new((*self.then_statement)@),
            else_statement: match &self.else_statement {
                Option::Some(e) => Option::Some(Box::new((**e)@)),
                Option::None => Option::None,
            },
        }
    }
}

impl View for BoundWhileStatement {
    type V = BoundWhileStatementV;

    closed spec fn view(&self) -> BoundWhileStatementV
        decreases self,
    {
        BoundWhileStatementV { condition: self.condition@, body: Box::new((*self.body)@) }
    }
}

impl View for BoundForStatement {
    type V = BoundForStatementV;

    closed spec fn view(&self) -> BoundForStatementV
        decreases self,
    {
        BoundForStatementV {
            variable: self.variable@,
            lower_bound: self.lower_bound@,
            upper_bound: self.upper_bound@,
            body: Box::new((*self.body)@),
        }
    }
}

/// The static type of a typed expression value.
pub open spec fn spec_bound_expr_type(e: BExprV) -> LiteralType {
    match e {
        BExprV::Literal(l) => l.type_of_value,
        BExprV::Unary(u) => u.operator.spec_result_type(),
        BExprV::Binary(b) => b.operator.spec_result_type(),
    }
}

/// The bound-kind tag of a typed statement value.
pub open spec fn spec_bound_stmt_kind(s: BStmtV) -> BoundKind {
    match s {
        BStmtV::List(_) => BoundKind::BoundStatementList,
        BStmtV::Assign(_) => BoundKind::BoundAssignment,
        BStmtV::VarDecl(_) => BoundKind::BoundVariableDeclaration,
        BStmtV::ConstDecl(_) => BoundKind::BoundConstantDeclaration,
        BStmtV::If(_) => BoundKind::BoundIfStatement,
        BStmtV::While(_) => BoundKind::BoundWhileStatement,
        BStmtV::For(_) => BoundKind::BoundForStatement,
    }
}

impl BoundExpression {
    /// The static type this expression evaluates to.
    pub fn get_type(&self) -> (t: LiteralType)
        ensures
            t == spec_bound_expr_type(self@),
    {
        match self {
            BoundExpression::Literal(e) => e.get_type(),
            BoundExpression::Unary(e) => e.get_operator().get_type(),
            BoundExpression::Binary(e) => e.get_operator().get_type(),
        }
    }

    /// The bound-kind tag of this expression.
    pub fn get_type_of_bound(&self) -> (k: BoundKind)
        ensures
            k == match self@ {
                BExprV::Literal(_) => BoundKind::BoundLiteralExpression,
                BExprV::Unary(_) => BoundKind::BoundUnaryExpression,
                BExprV::Binary(_) => BoundKind::BoundBinaryExpression,
            },
    {
        match self {
            BoundExpression::Literal(_) => BoundKind::BoundLiteralExpression,
            BoundExpression::Unary(_) => BoundKind::BoundUnaryExpression,
            BoundExpression::Binary(_) => BoundKind::BoundBinaryExpression,
        }
    }
}

impl BoundStatement {
    /// The bound-kind tag of this statement.
    pub fn get_type_of_bound(&self) -> (k: BoundKind)
        ensures
            k == spec_bound_stmt_kind(self@),
    {
        match self {
            BoundStatement::List(_) => BoundKind::BoundStatementList,
            BoundStatement::Assign(_) => BoundKind::BoundAssignment,
            BoundStatement::VarDecl(_) => BoundKind::BoundVariableDeclaration,
            BoundStatement::ConstDecl(_) => BoundKind::BoundConstantDeclaration,
            BoundStatement::If(_) => BoundKind::BoundIfStatement,
            BoundStatement::While(_) => BoundKind::BoundWhileStatement,
            BoundStatement::For(_) => BoundKind::BoundForStatement,
        }
    }
}

impl BoundLiteralExpression {
    /// A typed literal from its value, type and marker kind.
    pub fn new(value: LiteralValue, type_of_value: LiteralType, kind: SyntaxKind) -> (e:
        BoundLiteralExpression)
        ensures
            e@ == (BoundLiteralExpressionV { value: value@, type_of_value, kind }),
    {
        BoundLiteralExpression { value, type_of_value, kind }
    }

    /// The literal's value.
    pub fn get_value(&self) -> (v: &LiteralValue)
        ensures
            v@ == self@.value,
    {
        &self.value
    }

    /// The marker kind: a plain value, a variable reference, or an
    /// error placeholder.
    pub fn get_kind(&self) -> (k: SyntaxKind)
        ensures
            k == self@.kind,
    {
        self.kind
    }

    /// The literal's static type.
    pub fn get_type(&self) -> (t: LiteralType)
        ensures
            t == self@.type_of_value,
    {
        self.type_of_value
    }
}

impl BoundUnaryExpression {
    /// A typed unary operation from its operator and operand.
    pub fn new(operator: BoundUnaryOperator, operand: Box<BoundExpression>) -> (e:
        BoundUnaryExpression)
        ensures
            e@ == (BoundUnaryExpressionV { operator, operand: Box::new((*operand)@) }),
    {
        BoundUnaryExpression { operator, operand }
    }

    /// The operand.
    pub fn get_operand(&self) -> (r: &BoundExpression)
        ensures
            r@ == *self@.operand,
    {
        &self.operand
    }

    /// The resolved operator.
    pub fn get_operator(&self) -> (r: &BoundUnaryOperator)
        ensures
            *r == self@.operator,
    {
        &self.operator
    }
}

impl BoundBinaryExpression {
    /// A typed binary operation from its operands and operator.
    pub fn new(left: Box<BoundExpression>, operator: BoundBinaryOperator, right: Box<
        BoundExpression,
    >) -> (e: BoundBinaryExpression)
        ensures
            e@ == (BoundBinaryExpressionV {
                left: Box::new((*left)@),
                operator,
                right: Box::new((*right)@),
            }),
    {
        BoundBinaryExpression { left, operator, right }
    }

    /// The left operand.
    pub fn get_left(&self) -> (r: &BoundExpression)
        ensures
            r@ == *self@.left,
    {
        &self.left
    }

    /// The right operand.
    pub fn get_right(&self) -> (r: &BoundExpression)
        ensures
            r@ == *self@.right,
    {
        &self.right
    }

    /// The resolved operator.
    pub fn get_operator(&self) -> (r: &BoundBinaryOperator)
        ensures
            *r == self@.operator,
    {
        &self.operator
    }
}

impl BoundStatementList {
    /// A typed statement list from its statements.
    pub fn new(statements: Vec<BoundStatement>) -> (s: BoundStatementList)
        ensures
            s@ == (BoundStatementListV { statements: bstmt_seq_view(statements@) }),
    {
        BoundStatementList { statements }
    }

    /// The statements, in order.
    pub fn get_statements(&self) -> (r: &Vec<BoundStatement>)
        ensures
            bstmt_seq_view(r@) == self@.statements,
    {
        &self.statements
    }
}

impl BoundAssignment {
    /// A typed assignment from its symbol and right-hand side.
    pub fn new(variable: VariableSymbol, expression: BoundExpression) -> (s: BoundAssignment)
        ensures
            s@ == (BoundAssignmentV { variable: variable@, expression: expression@ }),
    {
        BoundAssignment { variable, expression }
    }

    /// The assigned symbol.
    pub fn get_variable(&self) -> (r: &VariableSymbol)
        ensures
            r@ == self@.variable,
    {
        &self.variable
    }

    /// The right-hand side.
    pub fn get_bound_expression(&self) -> (r: &BoundExpression)
        ensures
            r@ == self@.expression,
    {
        &self.expression
    }
}

impl BoundVariableDeclaration {
    /// A typed `let` declaration from its symbol and initializer.
    pub fn new(variable: VariableSymbol, expression: BoundExpression) -> (s:
        BoundVariableDeclaration)
        ensures
            s@ == (BoundVariableDeclarationV { variable: variable@, expression: expression@ }),
    {
        BoundVariableDeclaration { variable, expression }
    }

    /// The declared symbol.
    pub fn get_variable(&self) -> (r: &VariableSymbol)
        ensures
            r@ == self@.variable,
    {
        &self.variable
    }

    /// The initializer.
    pub fn get_bound_expression(&self) -> (r: &BoundExpression)
        ensures
            r@ == self@.expression,
    {
        &self.expression
    }
}

impl BoundConstantDeclaration {
    /// A typed `const` declaration from its symbol and initializer.
    pub fn new(variable: VariableSymbol, expression: BoundExpression) -> (s:
        BoundConstantDeclaration)
        ensures
            s@ == (BoundConstantDeclarationV { variable: variable@, expression: expression@ }),
    {
        BoundConstantDeclaration { variable, expression }
    }

    /// The declared symbol.
    pub fn get_variable(&self) -> (r: &VariableSymbol)
        ensures
            r@ == self@.variable,
    {
        &self.variable
    }

    /// The initializer.
    pub fn get_bound_expression(&self) -> (r: &BoundExpression)
        ensures
            r@ == self@.expression,
    {
        &self.expression
    }
}

impl BoundIfStatement {
    /// A typed `if` statement from its parts.
    pub fn new(
        condition: BoundExpression,
        then_statement: Box<BoundStatement>,
        else_statement: Option<Box<BoundStatement>>,
    ) -> (s: BoundIfStatement)
        ensures
            s@ == (BoundIfStatementV {
                condition: condition@,
                then_statement: Box::new((*then_statement)@),
                else_statement: match else_statement {
                    Option::Some(e) => Option::Some(Box::new((*e)@)),
                    Option::None => Option::None,
                },
            }),
    {
        BoundIfStatement { condition, then_statement, else_statement }
    }

    /// The branch condition.
    pub fn get_condition(&self) -> (r: &BoundExpression)
        ensures
            r@ == self@.condition,
    {
        &self.condition
    }

    /// The then branch.
    pub fn get_then_statement(&self) -> (r: &BoundStatement)
        ensures
            r@ == *self@.then_statement,
    {
        &self.then_statement
    }

    /// The else branch, when present.
    pub fn get_else_statement(&self) -> (r: Option<&BoundStatement>)
        ensures
            match r {
                Option::Some(e) => self@.else_statement == Option::Some(Box::new(e@)),
                Option::None => self@.else_statement is None,
            },
    {
        match &self.else_statement {
            Option::Some(e) => Option::Some(&**e),
            Option::None => Option::None,
        }
    }
}

impl BoundWhileStatement {
    /// A typed `while` statement from its parts.
    pub fn new(condition: BoundExpression, body: Box<BoundStatement>) -> (s:
        BoundWhileStatement)
        ensures
            s@ == (BoundWhileStatementV { condition: condition@, body: Box::new((*body)@) }),
    {
        BoundWhileStatement { condition, body }
    }

    /// The loop condition.
    pub fn get_condition(&self) -> (r: &BoundExpression)
        ensures
            r@ == self@.condition,
    {
        &self.condition
    }

    /// The loop body.
    pub fn get_body(&self) -> (r: &BoundStatement)
        ensures
            r@ == *self@.body,
    {
        &self.body
    }
}

impl BoundForStatement {
    /// A typed `for` statement from its parts.
    pub fn new(
        variable: VariableSymbol,
        lower_bound: BoundExpression,
        upper_bound: BoundExpression,
        body: Box<BoundStatement>,
    ) -> (s: BoundForStatement)
        ensures
            s@ == (BoundForStatementV {
                variable: variable@,
                lower_bound: lower_bound@,
                upper_bound: upper_bound@,
                body: Box::new((*body)@),
            }),
    {
        BoundForStatement { variable, lower_bound, upper_bound, body }
    }

    /// The loop variable's symbol.
    pub fn get_variable(&self) -> (r: &VariableSymbol)
        ensures
            r@ == self@.variable,
    {
        &self.variable
    }

    /// The inclusive lower bound.
    pub fn get_lower_bound(&self) -> (r: &BoundExpression)
        ensures
            r@ == self@.lower_bound,
    {
        &self.lower_bound
    }

    /// The exclusive upper bound.
    pub fn get_upper_bound(&self) -> (r: &BoundExpression)
        ensures
            r@ == self@.upper_bound,
    {
        &self.upper_bound
    }

    /// The loop body.
    pub fn get_body(&self) -> (r: &BoundStatement)
        ensures
            r@ == *self@.body,
    {
        &self.body
    }
}

/// The view of a typed statement sequence keeps its length and maps
/// each element.
pub proof fn lemma_bstmt_seq_view_index(v: Seq<BoundStatement>)
    ensures
        bstmt_seq_view(v).len() == v.len(),
        forall|i: int| 0 <= i < v.len() ==> bstmt_seq_view(v)[i] == v[i]@,
    decreases v.len(),
{
    reveal_with_fuel(bstmt_seq_view, 2);
    if v.len() > 0 {
        lemma_bstmt_seq_view_index(v.drop_first());
        let head = seq![v[0]@];
        assert(bstmt_seq_view(v) == head.add(bstmt_seq_view(v.drop_first())));
        assert forall|i: int| 0 <= i < v.len() implies bstmt_seq_view(v)[i] == v[i]@ by {
            if i == 0 {
                assert(bstmt_seq_view(v)[0] == head[0]);
            } else {
                assert(v.drop_first()[i - 1] == v[i]);
                assert(bstmt_seq_view(v)[i] == bstmt_seq_view(v.drop_first())[i - 1]);
            }
        }
    }
}

/// Appending a typed statement to a sequence appends its view.
pub proof fn lemma_bstmt_seq_view_push(v: Seq<BoundStatement>, s: BoundStatement)
    ensures
        bstmt_seq_view(v.push(s)) == bstmt_seq_view(v).push(s@),
    decreases v.len(),
{
    lemma_bstmt_seq_view_index(v);
    lemma_bstmt_seq_view_index(v.push(s));
    assert forall|i: int|
        0 <= i < v.len() + 1 implies bstmt_seq_view(v.push(s))[i] == bstmt_seq_view(v).push(
        s@,
    )[i] by {
        if i < v.len() {
            assert(v.push(s)[i] == v[i]);
        } else {
            assert(v.push(s)[i] == s);
        }
    }
    assert(bstmt_seq_view(v.push(s)) =~= bstmt_seq_view(v).push(s@));
}


/// How each typed node's view decomposes over its fields; these support
/// recursion over the tree from other modules.
pub(crate) proof fn lemma_bound_list_fields(l: &BoundStatementList)
    ensures
        l@.statements == bstmt_seq_view(l.statements@),
{
}

pub(crate) proof fn lemma_bound_if_fields(i: &BoundIfStatement)
    ensures
        *i@.then_statement == (*i.then_statement)@,
        i@.condition == i.condition@,
        match &i.else_statement {
            Option::Some(e) => i@.else_statement == Option::Some(Box::new((**e)@)),
            Option::None => i@.else_statement is None,
        },
{
}

pub(crate) proof fn lemma_bound_while_fields(w: &BoundWhileStatement)
    ensures
        *w@.body == (*w.body)@,
        w@.condition == w.condition@,
{
}

pub(crate) proof fn lemma_bound_for_fields(f: &BoundForStatement)
    ensures
        *f@.body == (*f.body)@,
        f@.lower_bound == f.lower_bound@,
        f@.upper_bound == f.upper_bound@,
        f@.variable == f.variable@,
{
}

pub(crate) proof fn lemma_bound_unary_fields(u: &BoundUnaryExpression)
    ensures
        *u@.operand == (*u.operand)@,
        u@.operator == u.operator,
{
}

pub(crate) proof fn lemma_bound_binary_fields(b: &BoundBinaryExpression)
    ensures
        *b@.left == (*b.left)@,
        *b@.right == (*b.right)@,
        b@.operator == b.operator,
{
}

} // verus!
