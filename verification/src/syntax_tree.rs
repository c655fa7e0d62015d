//! The untyped syntax tree the parser produces: statements and
//! expressions as a closed set of node variants.

use vstd::prelude::*;

use crate::syntax_kind::SyntaxKind;
use crate::syntax_token::SyntaxToken;
use crate::syntax_token::TokenV;

verus! {

/// An expression node.
pub enum Expression {
    Literal(LiteralExpressionSyntax),
    Name(NameExpressionSyntax),
    Unary(UnaryExpressionSyntax),
    Binary(BinaryExpressionSyntax),
    Parenthesized(ParenthesizedExpressionSyntax),
}

/// A statement node.
pub enum Statement {
    List(StatementList),
    Assign(Assignment),
    VarDecl(VariableDeclaration),
    ConstDecl(ConstantDeclaration),
    If(IfStatement),
    Else(ElseStatement),
    While(WhileStatement),
    For(ForStatement),
}

/// A literal operand: a number or a boolean keyword.
pub struct LiteralExpressionSyntax {
    pub(crate) literal_token: SyntaxToken,
}

/// A reference to a declared name.
pub struct NameExpressionSyntax {
    pub(crate) token: SyntaxToken,
}

/// A prefix operator applied to an operand.
pub struct UnaryExpressionSyntax {
    pub(crate) operator: SyntaxToken,
    pub(crate) operand: Box<Expression>,
}

/// A binary operator applied to two operands.
pub struct BinaryExpressionSyntax {
    pub(crate) left: Box<Expression>,
    pub(crate) operator: SyntaxToken,
    pub(crate) right: Box<Expression>,
}

/// An expression wrapped in parentheses.
pub struct ParenthesizedExpressionSyntax {
    pub(crate) open_parenthesis_token: SyntaxToken,
    pub(crate) expression: Box<Expression>,
    pub(crate) close_parenthesis_token: SyntaxToken,
}

/// A braced list of statements.
pub struct StatementList {
    pub(crate) open_brace: SyntaxToken,
    pub(crate) statements: Vec<Statement>,
    pub(crate) close_brace: SyntaxToken,
}

/// An assignment to an already declared name.
pub struct Assignment {
    pub(crate) variable: SyntaxToken,
    pub(crate) equals: SyntaxToken,
    pub(crate) expression: Box<Expression>,
    pub(crate) semi_colon: SyntaxToken,
}

/// A `let` declaration.
pub struct VariableDeclaration {
    pub(crate) let_token: SyntaxToken,
    pub(crate) variable: SyntaxToken,
    pub(crate) equals: SyntaxToken,
    pub(crate) expression: Box<Expression>,
    pub(crate) semi_colon: SyntaxToken,
}

/// A `const` declaration.
pub struct ConstantDeclaration {
    pub(crate) const_token: SyntaxToken,
    pub(crate) variable: SyntaxToken,
    pub(crate) equals: SyntaxToken,
    pub(crate) expression: Box<Expression>,
    pub(crate) semi_colon: SyntaxToken,
}

/// An `if` statement with an optional else clause.
pub struct IfStatement {
    pub(crate) if_token: SyntaxToken,
    pub(crate) open_parenthesis: SyntaxToken,
    pub(crate) condition: Box<Expression>,
    pub(crate) close_parenthesis: SyntaxToken,
    pub(crate) then_statement: Box<Statement>,
    pub(crate) else_clause: Option<Box<Statement>>,
}

/// An `else` clause wrapping its block.
pub struct ElseStatement {
    pub(crate) else_token: SyntaxToken,
    pub(crate) statement_list: Box<Statement>,
}

/// A `while` statement.
pub struct WhileStatement {
    pub(crate) while_token: SyntaxToken,
    pub(crate) open_parenthesis: SyntaxToken,
    pub(crate) condition: Box<Expression>,
    pub(crate) close_parenthesis: SyntaxToken,
    pub(crate) body: Box<Statement>,
}

/// A `for` statement over an integer range.
pub struct ForStatement {
    pub(crate) for_token: SyntaxToken,
    pub(crate) open_parenthesis: SyntaxToken,
    pub(crate) identifier: SyntaxToken,
    pub(crate) equals: SyntaxToken,
    pub(crate) lower_bound: Box<Expression>,
    pub(crate) to_token: SyntaxToken,
    pub(crate) upper_bound: Box<Expression>,
    pub(crate) close_parenthesis: SyntaxToken,
    pub(crate) body: Box<Statement>,
}

/// The mathematical value of an expression node.
pub enum ExprV {
    Literal(LiteralExpressionV),
    Name(NameExpressionV),
    Unary(UnaryExpressionV),
    Binary(BinaryExpressionV),
    Parenthesized(ParenthesizedExpressionV),
}

/// The mathematical value of a statement node.
pub enum StmtV {
    List(StatementListV),
    Assign(AssignmentV),
    VarDecl(VariableDeclarationV),
    ConstDecl(ConstantDeclarationV),
    If(IfStatementV),
    Else(ElseStatementV),
    While(WhileStatementV),
    For(ForStatementV),
}

pub struct LiteralExpressionV {
    pub literal_token: TokenV,
}

pub struct NameExpressionV {
    pub token: TokenV,
}

pub struct UnaryExpressionV {
    pub operator: TokenV,
    pub operand: Box<ExprV>,
}

pub struct BinaryExpressionV {
    pub left: Box<ExprV>,
    pub operator: TokenV,
    pub right: Box<ExprV>,
}

pub struct ParenthesizedExpressionV {
    pub open_parenthesis_token: TokenV,
    pub expression: Box<ExprV>,
    pub close_parenthesis_token: TokenV,
}

pub struct StatementListV {
    pub open_brace: TokenV,
    pub statements: Seq<StmtV>,
    pub close_brace: TokenV,
}

pub struct AssignmentV {
    pub variable: TokenV,
    pub equals: TokenV,
    pub expression: Box<ExprV>,
    pub semi_colon: TokenV,
}

pub struct VariableDeclarationV {
    pub let_token: TokenV,
    pub variable: TokenV,
    pub equals: TokenV,
    pub expression: Box<ExprV>,
    pub semi_colon: TokenV,
}

pub struct ConstantDeclarationV {
    pub const_token: TokenV,
    pub variable: TokenV,
    pub equals: TokenV,
    pub expression: Box<ExprV>,
    pub semi_colon: TokenV,
}

pub struct IfStatementV {
    pub if_token: TokenV,
    pub open_parenthesis: TokenV,
    pub condition: Box<ExprV>,
    pub close_parenthesis: TokenV,
    pub then_statement: Box<StmtV>,
    pub else_clause: Option<Box<StmtV>>,
}

pub struct ElseStatementV {
    pub else_token: TokenV,
    pub statement_list: Box<StmtV>,
}

pub struct WhileStatementV {
    pub while_token: TokenV,
    pub open_parenthesis: TokenV,
    pub condition: Box<ExprV>,
    pub close_parenthesis: TokenV,
    pub body: Box<StmtV>,
}

pub struct ForStatementV {
    pub for_token: TokenV,
    pub open_parenthesis: TokenV,
    pub identifier: TokenV,
    pub equals: TokenV,
    pub lower_bound: Box<ExprV>,
    pub to_token: TokenV,
    pub upper_bound: Box<ExprV>,
    pub close_parenthesis: TokenV,
    pub body: Box<StmtV>,
}

/// The views of a sequence of statements, in order.
pub open spec fn stmt_seq_view(v: Seq<Statement>) -> Seq<StmtV>
    decreases v,
{
    if v.len() == 0 {
        Seq::empty()
    } else {
        seq![v[0]@].add(stmt_seq_view(v.drop_first()))
    }
}

impl View for Expression {
    type V = ExprV;

    open spec fn view(&self) -> ExprV
        decreases self,
    {
        match self {
            Expression::Literal(e) => ExprV::Literal(e@),
            Expression::Name(e) => ExprV::Name(e@),
            Expression::Unary(e) => ExprV::Unary(e@),
            Expression::Binary(e) => ExprV::Binary(e@),
            Expression::Parenthesized(e) => ExprV::Parenthesized(e@),
        }
    }
}

impl View for Statement {
    type V = StmtV;

    open spec fn view(&self) -> StmtV
        decreases self,
    {
        match self {
            Statement::List(s) => StmtV::List(s@),
            Statement::Assign(s) => StmtV::Assign(s@),
            Statement::VarDecl(s) => StmtV::VarDecl(s@),
            Statement::ConstDecl(s) => StmtV::ConstDecl(s@),
            Statement::If(s) => StmtV::If(s@),
            Statement::Else(s) => StmtV::Else(s@),
            Statement::While(s) => StmtV::While(s@),
            Statement::For(s) => StmtV::For(s@),
        }
    }
}

impl View for LiteralExpressionSyntax {
    type V = LiteralExpressionV;

    closed spec fn view(&self) -> LiteralExpressionV {
        LiteralExpressionV { literal_token: self.literal_token@ }
    }
}

impl View for NameExpressionSyntax {
    type V = NameExpressionV;

    closed spec fn view(&self) -> NameExpressionV {
        NameExpressionV { token: self.token@ }
    }
}

impl View for UnaryExpressionSyntax {
    type V = UnaryExpressionV;

    closed spec fn view(&self) -> UnaryExpressionV
        decreases self,
    {
        UnaryExpressionV {
            operator: self.operator@,
            operand: Box::new((*self.operand)@),
        }
    }
}

impl View for BinaryExpressionSyntax {
    type V = BinaryExpressionV;

    closed spec fn view(&self) -> BinaryExpressionV
        decreases self,
    {
        BinaryExpressionV {
            left: Box::new((*self.left)@),
            operator: self.operator@,
            right: Box::new((*self.right)@),
        }
    }
}

impl View for ParenthesizedExpressionSyntax {
    type V = ParenthesizedExpressionV;

    closed spec fn view(&self) -> ParenthesizedExpressionV
        decreases self,
    {
        ParenthesizedExpressionV {
            open_parenthesis_token: self.open_parenthesis_token@,
            expression: Box::new((*self.expression)@),
            close_parenthesis_token: self.close_parenthesis_token@,
        }
    }
}

impl View for StatementList {
    type V = StatementListV;

    closed spec fn view(&self) -> StatementListV
        decreases self,
    {
        StatementListV {
            open_brace: self.open_brace@,
            statements: stmt_seq_view(self.statements@),
            close_brace: self.close_brace@,
        }
    }
}

impl View for Assignment {
    type V = AssignmentV;

    closed spec fn view(&self) -> AssignmentV
        decreases self,
    {
        AssignmentV {
            variable: self.variable@,
            equals: self.equals@,
            expression: Box::new((*self.expression)@),
            semi_colon: self.semi_colon@,
        }
    }
}

impl View for VariableDeclaration {
    type V = VariableDeclarationV;

    closed spec fn view(&self) -> VariableDeclarationV
        decreases self,
    {
        VariableDeclarationV {
            let_token: self.let_token@,
            variable: self.variable@,
            equals: self.equals@,
            expression: Box::new((*self.expression)@),
            semi_colon: self.semi_colon@,
        }
    }
}

impl View for ConstantDeclaration {
    type V = ConstantDeclarationV;

    closed spec fn view(&self) -> ConstantDeclarationV
        decreases self,
    {
        ConstantDeclarationV {
            const_token: self.const_token@,
            variable: self.variable@,
            equals: self.equals@,
            expression: Box::new((*self.expression)@),
            semi_colon: self.semi_colon@,
        }
    }
}

impl View for IfStatement {
    type V = IfStatementV;

    closed spec fn view(&self) -> IfStatementV
        decreases self,
    {
        IfStatementV {
            if_token: self.if_token@,
            open_parenthesis: self.open_parenthesis@,
            condition: Box::new((*self.condition)@),
            close_parenthesis: self.close_parenthesis@,
            then_statement: Box::new((*self.then_statement)@),
            else_clause: match &self.else_clause {
                Option::Some(e) => Option::Some(Box::new((**e)@)),
                Option::None => Option::None,
            },
        }
    }
}

impl View for ElseStatement {
    type V = ElseStatementV;

    closed spec fn view(&self) -> ElseStatementV
        decreases self,
    {
        ElseStatementV {
            else_token: self.else_token@,
            statement_list: Box::new((*self.statement_list)@),
        }
    }
}

impl View for WhileStatement {
    type V = WhileStatementV;

    closed spec fn view(&self) -> WhileStatementV
        decreases self,
    {
        WhileStatementV {
            while_token: self.while_token@,
            open_parenthesis: self.open_parenthesis@,
            condition: Box::new((*self.condition)@),
            close_parenthesis: self.close_parenthesis@,
            body: Box::new((*self.body)@),
        }
    }
}

impl View for ForStatement {
    type V = ForStatementV;

    closed spec fn view(&self) -> ForStatementV
        decreases self,
    {
        ForStatementV {
            for_token: self.for_token@,
            open_parenthesis: self.open_parenthesis@,
            identifier: self.identifier@,
            equals: self.equals@,
            lower_bound: Box::new((*self.lower_bound)@),
            to_token: self.to_token@,
            upper_bound: Box::new((*self.upper_bound)@),
            close_parenthesis: self.close_parenthesis@,
            body: Box::new((*self.body)@),
        }
    }
}

impl Expression {
    /// The node kind of this expression.
    pub fn get_kind(&self) -> (k: SyntaxKind)
        ensures
            k == spec_expr_kind(self@),
    {
        match self {
            Expression::Literal(_) => SyntaxKind::LiteralExpression,
            Expression::Name(_) => SyntaxKind::NameExpression,
            Expression::Unary(_) => SyntaxKind::UnaryExpression,
            Expression::Binary(_) => SyntaxKind::BinaryExpression,
            Expression::Parenthesized(_) => SyntaxKind::ParenthesizedExpression,
        }
    }
}

impl Statement {
    /// The node kind of this statement.
    pub fn get_kind(&self) -> (k: SyntaxKind)
        ensures
            k == spec_stmt_kind(self@),
    {
        match self {
            Statement::List(_) => SyntaxKind::StatementList,
            Statement::Assign(_) => SyntaxKind::Assignment,
            Statement::VarDecl(_) => SyntaxKind::VariableDeclaration,
            Statement::ConstDecl(_) => SyntaxKind::ConstantDeclaration,
            Statement::If(_) => SyntaxKind::IfStatement,
            Statement::Else(_) => SyntaxKind::ElseStatement,
            Statement::While(_) => SyntaxKind::WhileStatement,
            Statement::For(_) => SyntaxKind::ForStatement,
        }
    }
}

/// The node kind tag of an expression value.
pub open spec fn spec_expr_kind(e: ExprV) -> SyntaxKind {
    match e {
        ExprV::Literal(_) => SyntaxKind::LiteralExpression,
        ExprV::Name(_) => SyntaxKind::NameExpression,
        ExprV::Unary(_) => SyntaxKind::UnaryExpression,
        ExprV::Binary(_) => SyntaxKind::BinaryExpression,
        ExprV::Parenthesized(_) => SyntaxKind::ParenthesizedExpression,
    }
}

/// The node kind tag of a statement value.
pub open spec fn spec_stmt_kind(s: StmtV) -> SyntaxKind {
    match s {
        StmtV::List(_) => SyntaxKind::StatementList,
        StmtV::Assign(_) => SyntaxKind::Assignment,
        StmtV::VarDecl(_) => SyntaxKind::VariableDeclaration,
        StmtV::ConstDecl(_) => SyntaxKind::ConstantDeclaration,
        StmtV::If(_) => SyntaxKind::IfStatement,
        StmtV::Else(_) => SyntaxKind::ElseStatement,
        StmtV::While(_) => SyntaxKind::WhileStatement,
        StmtV::For(_) => SyntaxKind::ForStatement,
    }
}

impl LiteralExpressionSyntax {
    /// A literal expression from its token.
    pub fn new(token: SyntaxToken) -> (e: LiteralExpressionSyntax)
        ensures
            e@ == (LiteralExpressionV { literal_token: token@ }),
    {
        LiteralExpressionSyntax { literal_token: token }
    }

    /// The literal token.
    pub fn get_token(&self) -> (t: &SyntaxToken)
        ensures
            t@ == self@.literal_token,
    {
        &self.literal_token
    }
}

impl NameExpressionSyntax {
    /// A name expression from its identifier token.
    pub fn new(token: SyntaxToken) -> (e: NameExpressionSyntax)
        ensures
            e@ == (NameExpressionV { token: token@ }),
    {
        NameExpressionSyntax { token }
    }

    /// The identifier token.
    pub fn get_token(&self) -> (t: &SyntaxToken)
        ensures
            t@ == self@.token,
    {
        &self.token
    }
}

impl UnaryExpressionSyntax {
    /// A unary expression from its operator and operand.
    pub fn new(operator: SyntaxToken, operand: Box<Expression>) -> (e: UnaryExpressionSyntax)
        ensures
            e@ == (UnaryExpressionV { operator: operator@, operand: Box::new((*operand)@) }),
    {
        UnaryExpressionSyntax { operator, operand }
    }

    /// The operand.
    pub fn operand(&self) -> (r: &Expression)
        ensures
            r@ == *self@.operand,
    {
        &self.operand
    }

    /// The operator token.
    pub fn operator(&self) -> (r: &SyntaxToken)
        ensures
            r@ == self@.operator,
    {
        &self.operator
    }
}

impl BinaryExpressionSyntax {
    /// A binary expression from its operands and operator.
    pub fn new(token_left: Box<Expression>, operator: SyntaxToken, token_right: Box<
        Expression,
    >) -> (e: BinaryExpressionSyntax)
        ensures
            e@ == (BinaryExpressionV {
                left: Box::new((*token_left)@),
                operator: operator@,
                right: Box::new((*token_right)@),
            }),
    {
        BinaryExpressionSyntax { left: token_left, operator, right: token_right }
    }

    /// The operator token.
    pub fn get_operator(&self) -> (r: &SyntaxToken)
        ensures
            r@ == self@.operator,
    {
        &self.operator
    }

    /// The left operand.
    pub fn get_left(&self) -> (r: &Expression)
        ensures
            r@ == *self@.left,
    {
        &self.left
    }

    /// The right operand.
    pub fn get_right(&self) -> (r: &Expression)
        ensures
            r@ == *self@.right,
    {
        &self.right
    }
}

impl ParenthesizedExpressionSyntax {
    /// A parenthesized expression from its tokens and inner expression.
    pub fn new(
        open_parenthesis_token: SyntaxToken,
        expression: Box<Expression>,
        close_parenthesis_token: SyntaxToken,
    ) -> (e: ParenthesizedExpressionSyntax)
        ensures
            e@ == (ParenthesizedExpressionV {
                open_parenthesis_token: open_parenthesis_token@,
                expression: Box::new((*expression)@),
                close_parenthesis_token: close_parenthesis_token@,
            }),
    {
        ParenthesizedExpressionSyntax {
            open_parenthesis_token,
            expression,
            close_parenthesis_token,
        }
    }

    /// The inner expression.
    pub fn get_expression(&self) -> (r: &Expression)
        ensures
            r@ == *self@.expression,
    {
        &self.expression
    }
}

impl StatementList {
    /// A statement list from its braces and statements.
    pub fn new(open_brace: SyntaxToken, statements: Vec<Statement>, close_brace:
        SyntaxToken) -> (s: StatementList)
        ensures
            s@ == (StatementListV {
                open_brace: open_brace@,
                statements: stmt_seq_view(statements@),
                close_brace: close_brace@,
            }),
    {
        StatementList { open_brace, statements, close_brace }
    }

    /// The statements, in order.
    pub fn get_statements(&self) -> (r: &Vec<Statement>)
        ensures
            stmt_seq_view(r@) == self@.statements,
    {
        &self.statements
    }
}

impl Assignment {
    /// An assignment from its tokens and right-hand side.
    pub fn new(
        variable: SyntaxToken,
        equals: SyntaxToken,
        expression: Box<Expression>,
        semi_colon: SyntaxToken,
    ) -> (s: Assignment)
        ensures
            s@ == (AssignmentV {
                variable: variable@,
                equals: equals@,
                expression: Box::new((*expression)@),
                semi_colon: semi_colon@,
            }),
    {
        Assignment { variable, equals, expression, semi_colon }
    }

    /// The assigned identifier token.
    pub fn get_variable(&self) -> (r: &SyntaxToken)
        ensures
            r@ == self@.variable,
    {
        &self.variable
    }

    /// The right-hand side.
    pub fn get_expression(&self) -> (r: &Expression)
        ensures
            r@ == *self@.expression,
    {
        &self.expression
    }
}

impl VariableDeclaration {
    /// A `let` declaration from its tokens and initializer.
    pub fn new(
        let_token: SyntaxToken,
        variable: SyntaxToken,
        equals: SyntaxToken,
        expression: Box<Expression>,
        semi_colon: SyntaxToken,
    ) -> (s: VariableDeclaration)
        ensures
            s@ == (VariableDeclarationV {
                let_token: let_token@,
                variable: variable@,
                equals: equals@,
                expression: Box::new((*expression)@),
                semi_colon: semi_colon@,
            }),
    {
        VariableDeclaration { let_token, variable, equals, expression, semi_colon }
    }

    /// The declared identifier token.
    pub fn get_variable(&self) -> (r: &SyntaxToken)
        ensures
            r@ == self@.variable,
    {
        &self.variable
    }

    /// The initializer.
    pub fn get_expression(&self) -> (r: &Expression)
        ensures
            r@ == *self@.expression,
    {
        &self.expression
    }
}

impl ConstantDeclaration {
    /// A `const` declaration from its tokens and initializer.
    pub fn new(
        const_token: SyntaxToken,
        variable: SyntaxToken,
        equals: SyntaxToken,
        expression: Box<Expression>,
        semi_colon: SyntaxToken,
    ) -> (s: ConstantDeclaration)
        ensures
            s@ == (ConstantDeclarationV {
                const_token: const_token@,
                variable: variable@,
                equals: equals@,
                expression: Box::new((*expression)@),
                semi_colon: semi_colon@,
            }),
    {
        ConstantDeclaration { const_token, variable, equals, expression, semi_colon }
    }

    /// The declared identifier token.
    pub fn get_variable(&self) -> (r: &SyntaxToken)
        ensures
            r@ == self@.variable,
    {
        &self.variable
    }

    /// The initializer.
    pub fn get_expression(&self) -> (r: &Expression)
        ensures
            r@ == *self@.expression,
    {
        &self.expression
    }
}

impl IfStatement {
    /// An `if` statement from its parts.
    pub fn new(
        if_token: SyntaxToken,
        open_parenthesis: SyntaxToken,
        condition: Box<Expression>,
        close_parenthesis: SyntaxToken,
        then_statement: Box<Statement>,
        else_clause: Option<Box<Statement>>,
    ) -> (s: IfStatement)
        ensures
            s@ == (IfStatementV {
                if_token: if_token@,
                open_parenthesis: open_parenthesis@,
                condition: Box::new((*condition)@),
                close_parenthesis: close_parenthesis@,
                then_statement: Box::new((*then_statement)@),
                else_clause: match else_clause {
                    Option::Some(e) => Option::Some(Box::new((*e)@)),
                    Option::None => Option::None,
                },
            }),
    {
        IfStatement {
            if_token,
            open_parenthesis,
            condition,
            close_parenthesis,
            then_statement,
            else_clause,
        }
    }

    /// The branch condition.
    pub fn get_condition(&self) -> (r: &Expression)
        ensures
            r@ == *self@.condition,
    {
        &self.condition
    }

    /// The then branch.
    pub fn get_then_statement(&self) -> (r: &Statement)
        ensures
            r@ == *self@.then_statement,
    {
        &self.then_statement
    }

    /// The else clause, when present.
    pub fn get_else_clause(&self) -> (r: Option<&Statement>)
        ensures
            match r {
                Option::Some(e) => self@.else_clause == Option::Some(Box::new(e@)),
                Option::None => self@.else_clause is None,
            },
    {
        match &self.else_clause {
            Option::Some(e) => Option::Some(&**e),
            Option::None => Option::None,
        }
    }
}

impl ElseStatement {
    /// An `else` clause from its token and block.
    pub fn new(else_token: SyntaxToken, statement_list: Box<Statement>) -> (s: ElseStatement)
        ensures
            s@ == (ElseStatementV {
                else_token: else_token@,
                statement_list: Box::new((*statement_list)@),
            }),
    {
        ElseStatement { else_token, statement_list }
    }

    /// The block of the clause.
    pub fn get_statement_list(&self) -> (r: &Statement)
        ensures
            r@ == *self@.statement_list,
    {
        &self.statement_list
    }
}

impl WhileStatement {
    /// A `while` statement from its parts.
    pub fn new(
        while_token: SyntaxToken,
        open_parenthesis: SyntaxToken,
        condition: Box<Expression>,
        close_parenthesis: SyntaxToken,
        body: Box<Statement>,
    ) -> (s: WhileStatement)
        ensures
            s@ == (WhileStatementV {
                while_token: while_token@,
                open_parenthesis: open_parenthesis@,
                condition: Box::new((*condition)@),
                close_parenthesis: close_parenthesis@,
                body: Box::new((*body)@),
            }),
    {
        WhileStatement { while_token, open_parenthesis, condition, close_parenthesis, body }
    }

    /// The loop condition.
    pub fn get_condition(&self) -> (r: &Expression)
        ensures
            r@ == *self@.condition,
    {
        &self.condition
    }

    /// The loop body.
    pub fn get_body(&self) -> (r: &Statement)
        ensures
            r@ == *self@.body,
    {
        &self.body
    }
}

impl ForStatement {
    /// A `for` statement from its parts.
    pub fn new(
        for_token: SyntaxToken,
        open_parenthesis: SyntaxToken,
        identifier: SyntaxToken,
        equals: SyntaxToken,
        lower_bound: Box<Expression>,
        to_token: SyntaxToken,
        upper_bound: Box<Expression>,
        close_parenthesis: SyntaxToken,
        body: Box<Statement>,
    ) -> (s: ForStatement)
        ensures
            s@ == (ForStatementV {
                for_token: for_token@,
                open_parenthesis: open_parenthesis@,
                identifier: identifier@,
                equals: equals@,
                lower_bound: Box::new((*lower_bound)@),
                to_token: to_token@,
                upper_bound: Box::new((*upper_bound)@),
                close_parenthesis: close_parenthesis@,
                body: Box::new((*body)@),
            }),
    {
        ForStatement {
            for_token,
            open_parenthesis,
            identifier,
            equals,
            lower_bound,
            to_token,
            upper_bound,
            close_parenthesis,
            body,
        }
    }

    /// The loop variable's identifier token.
    pub fn get_identifier(&self) -> (r: &SyntaxToken)
        ensures
            r@ == self@.identifier,
    {
        &self.identifier
    }

    /// The inclusive lower bound expression.
    pub fn get_lower_bound(&self) -> (r: &Expression)
        ensures
            r@ == *self@.lower_bound,
    {
        &self.lower_bound
    }

    /// The exclusive upper bound expression.
    pub fn get_upper_bound(&self) -> (r: &Expression)
        ensures
            r@ == *self@.upper_bound,
    {
        &self.upper_bound
    }

    /// The loop body.
    pub fn get_body(&self) -> (r: &Statement)
        ensures
            r@ == *self@.body,
    {
        &self.body
    }
}

/// A parsed tree together with its root.
pub struct SyntaxTree {
    pub(crate) root: Box<Expression>,
}

impl View for SyntaxTree {
    type V = ExprV;

    closed spec fn view(&self) -> ExprV {
        (*self.root)@
    }
}

impl SyntaxTree {
    /// A tree from its root expression.
    pub fn new(root: Box<Expression>) -> (t: SyntaxTree)
        ensures
            t@ == (*root)@,
    {
        SyntaxTree { root }
    }

    /// The root expression.
    pub fn get_root(&self) -> (r: &Expression)
        ensures
            r@ == self@,
    {
        &self.root
    }
}

/// The view of a statement sequence keeps its length and maps each
/// element.
pub proof fn lemma_stmt_seq_view_index(v: Seq<Statement>)
    ensures
        stmt_seq_view(v).len() == v.len(),
        forall|i: int| 0 <= i < v.len() ==> stmt_seq_view(v)[i] == v[i]@,
    decreases v.len(),
{
    reveal_with_fuel(stmt_seq_view, 2);
    if v.len() > 0 {
        lemma_stmt_seq_view_index(v.drop_first());
        let head = seq![v[0]@];
        assert(stmt_seq_view(v) == head.add(stmt_seq_view(v.drop_first())));
        assert(stmt_seq_view(v).len() == v.len());
        assert forall|i: int| 0 <= i < v.len() implies stmt_seq_view(v)[i] == v[i]@ by {
            if i == 0 {
                assert(stmt_seq_view(v)[0] == head[0]);
            } else {
                assert(v.drop_first()[i - 1] == v[i]);
                assert(stmt_seq_view(v)[i] == stmt_seq_view(v.drop_first())[i - 1]);
            }
        }
    }
}

/// Appending a statement to a sequence appends its view.
pub proof fn lemma_stmt_seq_view_push(v: Seq<Statement>, s: Statement)
    ensures
        stmt_seq_view(v.push(s)) == stmt_seq_view(v).push(s@),
    decreases v.len(),
{
    lemma_stmt_seq_view_index(v);
    lemma_stmt_seq_view_index(v.push(s));
    assert forall|i: int| 0 <= i < v.len() + 1 implies stmt_seq_view(v.push(s))[i]
        == stmt_seq_view(v).push(s@)[i] by {
        if i < v.len() {
            assert(v.push(s)[i] == v[i]);
        } else {
            assert(v.push(s)[i] == s);
        }
    }
    assert(stmt_seq_view(v.push(s)) =~= stmt_seq_view(v).push(s@));
}


/// How each statement node's view decomposes over its fields; these
/// support recursion over the tree from other modules.
pub(crate) proof fn lemma_statement_list_fields(l: &StatementList)
    ensures
        l@.statements == stmt_seq_view(l.statements@),
{
}

pub(crate) proof fn lemma_if_fields(i: &IfStatement)
    ensures
        *i@.then_statement == (*i.then_statement)@,
        match &i.else_clause {
            Option::Some(e) => i@.else_clause == Option::Some(Box::new((**e)@)),
            Option::None => i@.else_clause is None,
        },
{
}

pub(crate) proof fn lemma_while_fields(w: &WhileStatement)
    ensures
        *w@.body == (*w.body)@,
{
}

pub(crate) proof fn lemma_for_fields(f: &ForStatement)
    ensures
        *f@.body == (*f.body)@,
{
}

pub(crate) proof fn lemma_else_fields(e: &ElseStatement)
    ensures
        *e@.statement_list == (*e.statement_list)@,
{
}

pub(crate) proof fn lemma_unary_fields(u: &UnaryExpressionSyntax)
    ensures
        *u@.operand == (*u.operand)@,
{
}

pub(crate) proof fn lemma_binary_fields(b: &BinaryExpressionSyntax)
    ensures
        *b@.left == (*b.left)@,
        *b@.right == (*b.right)@,
{
}

pub(crate) proof fn lemma_paren_fields(p: &ParenthesizedExpressionSyntax)
    ensures
        *p@.expression == (*p.expression)@,
{
}

} // verus!
