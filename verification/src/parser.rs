//! The recursive-descent parser: pulls tokens from the lexer, then
//! builds the untyped syntax tree, recovering from unexpected tokens
//! so that one pass can report as many syntax errors as possible.

use vstd::prelude::*;

use crate::lexer::Lexer;
use crate::lexer::spec_next_token;
use crate::lexer::lemma_next_token_advances;
use crate::literals::LiteralValue;
use crate::literals::LiteralValueV;
use crate::literals::spec_type_of;
use crate::reports::DiagV;
use crate::reports::Diagnostics;
use crate::reports::SpanV;
use crate::reports::TextPlace;
use crate::reports::TextSpan;
use crate::reports::TextType;
use crate::reports::diag;
use crate::reports::msg_token_trace;
use crate::reports::msg_unexpected_token;
use crate::reports::token_trace_message;
use crate::syntax_kind::SyntaxKind;
use crate::syntax_token::SyntaxToken;
use crate::syntax_token::TokenV;
use crate::syntax_tree::AssignmentV;
use crate::syntax_tree::BinaryExpressionV;
use crate::syntax_tree::ConstantDeclarationV;
use crate::syntax_tree::ElseStatementV;
use crate::syntax_tree::ExprV;
use crate::syntax_tree::Expression;
use crate::syntax_tree::ForStatementV;
use crate::syntax_tree::IfStatementV;
use crate::syntax_tree::LiteralExpressionV;
use crate::syntax_tree::NameExpressionV;
use crate::syntax_tree::ParenthesizedExpressionV;
use crate::syntax_tree::Statement;
use crate::syntax_tree::StatementListV;
use crate::syntax_tree::StmtV;
use crate::syntax_tree::UnaryExpressionV;
use crate::syntax_tree::VariableDeclarationV;
use crate::syntax_tree::WhileStatementV;
use crate::syntax_tree::Assignment;
use crate::syntax_tree::BinaryExpressionSyntax;
use crate::syntax_tree::ConstantDeclaration;
use crate::syntax_tree::ElseStatement;
use crate::syntax_tree::ForStatement;
use crate::syntax_tree::IfStatement;
use crate::syntax_tree::LiteralExpressionSyntax;
use crate::syntax_tree::NameExpressionSyntax;
use crate::syntax_tree::ParenthesizedExpressionSyntax;
use crate::syntax_tree::StatementList;
use crate::syntax_tree::UnaryExpressionSyntax;
use crate::syntax_tree::VariableDeclaration;
use crate::syntax_tree::WhileStatement;
use crate::syntax_tree::lemma_stmt_seq_view_push;
use crate::syntax_tree::stmt_seq_view;

verus! {

/// The views of a sequence of tokens, in order.
pub open spec fn token_views(ts: Seq<SyntaxToken>) -> Seq<TokenV> {
    ts.map_values(|t: SyntaxToken| t@)
}

/// The synthetic end-of-input token the parser sees past the end of its
/// buffer.
pub open spec fn buffer_eof() -> TokenV {
    TokenV {
        name: "EOF"@,
        value: LiteralValueV::Str("EOF"@),
        position: 0,
        kind: SyntaxKind::Eof,
        length: 1,
    }
}

/// The synthetic bad token produced on an unexpected token.
pub open spec fn bad_token(p: int) -> TokenV {
    TokenV {
        name: "Error"@,
        value: LiteralValueV::Str("Error"@),
        position: p,
        kind: SyntaxKind::BadToken,
        length: 1,
    }
}

/// The token at a buffer position, or the synthetic end-of-input token.
pub open spec fn token_at(toks: Seq<TokenV>, pos: int) -> TokenV {
    if 0 <= pos < toks.len() {
        toks[pos]
    } else {
        buffer_eof()
    }
}

/// The number of tokens left at a position.
pub open spec fn rem(toks: Seq<TokenV>, pos: int) -> int {
    if pos <= toks.len() {
        toks.len() - pos
    } else {
        0
    }
}

/// `p`, but never less than `lo`.
pub open spec fn at_least(p: int, lo: int) -> int {
    if p < lo {
        lo
    } else {
        p
    }
}

/// The position after consuming one token; past the end the cursor
/// stays where it is.
pub open spec fn advanced(toks: Seq<TokenV>, pos: int) -> int {
    if 0 <= pos < toks.len() {
        pos + 1
    } else {
        pos
    }
}

/// A consumed token with the cursor after it and the diagnostics the
/// step reported.
pub struct PTok {
    pub token: TokenV,
    pub pos: int,
    pub diags: Seq<DiagV>,
}

/// A parsed expression with the cursor after it and the diagnostics
/// reported while parsing it.
pub struct PExpr {
    pub expr: ExprV,
    pub pos: int,
    pub diags: Seq<DiagV>,
}

/// A parsed statement with the cursor after it and the diagnostics
/// reported while parsing it.
pub struct PStmt {
    pub stmt: StmtV,
    pub pos: int,
    pub diags: Seq<DiagV>,
}

/// A parsed statement sequence with the cursor after it and the
/// diagnostics reported while parsing it.
pub struct PStmts {
    pub stmts: Seq<StmtV>,
    pub pos: int,
    pub diags: Seq<DiagV>,
}

/// A parsed optional else clause.
pub struct POptStmt {
    pub stmt: Option<StmtV>,
    pub pos: int,
    pub diags: Seq<DiagV>,
}

/// Consuming a token of one of the expected kinds: on a match the
/// current token, otherwise an unexpected-token error and a synthetic
/// bad token, consuming nothing.
pub open spec fn spec_equals(toks: Seq<TokenV>, pos: int, kinds: Seq<SyntaxKind>) -> PTok {
    let cur = token_at(toks, pos);
    if kinds.contains(cur.kind) {
        PTok { token: cur, pos: advanced(toks, pos), diags: Seq::empty() }
    } else {
        PTok {
            token: bad_token(cur.position),
            pos,
            diags: seq![
                diag(
                    msg_unexpected_token(cur.kind, cur.name),
                    SpanV { start: cur.position, length: cur.length },
                    TextPlace::Syntax,
                    TextType::Error,
                ),
            ],
        }
    }
}

/// The kinds a literal operand may start with.
pub open spec fn literal_kinds() -> Seq<SyntaxKind> {
    seq![SyntaxKind::True, SyntaxKind::False, SyntaxKind::Number, SyntaxKind::IdentifierToken]
}

/// Parsing a literal operand: an identifier becomes a name expression,
/// anything else (a number, a boolean, or the synthetic bad token of an
/// unexpected input) a literal expression.
#[verifier::opaque]
pub open spec fn spec_parse_literal(toks: Seq<TokenV>, pos: int) -> PExpr
    decreases rem(toks, pos), 39int,
{
    let t = spec_equals(toks, pos, literal_kinds());
    if t.token.kind == SyntaxKind::IdentifierToken {
        PExpr {
            expr: ExprV::Name(NameExpressionV { token: t.token }),
            pos: t.pos,
            diags: t.diags,
        }
    } else {
        PExpr {
            expr: ExprV::Literal(LiteralExpressionV { literal_token: t.token }),
            pos: t.pos,
            diags: t.diags,
        }
    }
}

/// Parsing a factor: a prefix `!` or `-`, a parenthesized expression,
/// or a literal operand.
#[verifier::opaque]
pub open spec fn spec_parse_factor(toks: Seq<TokenV>, pos: int) -> PExpr
    decreases rem(toks, pos), 40int,
{
    let cur = token_at(toks, pos);
    if cur.kind == SyntaxKind::Bang || cur.kind == SyntaxKind::Minus {
        let operand = spec_parse_factor(toks, pos + 1);
        PExpr {
            expr: ExprV::Unary(
                UnaryExpressionV { operator: cur, operand: Box::new(operand.expr) },
            ),
            pos: at_least(operand.pos, pos + 1),
            diags: operand.diags,
        }
    } else if cur.kind == SyntaxKind::OpenParenthesis {
        let inner = spec_parse_expression(toks, pos + 1);
        let ip = at_least(inner.pos, pos + 1);
        let close = spec_equals(toks, ip, seq![SyntaxKind::CloseParenthesis]);
        PExpr {
            expr: ExprV::Parenthesized(
                ParenthesizedExpressionV {
                    open_parenthesis_token: cur,
                    expression: Box::new(inner.expr),
                    close_parenthesis_token: close.token,
                },
            ),
            pos: close.pos,
            diags: inner.diags + close.diags,
        }
    } else {
        spec_parse_literal(toks, pos)
    }
}

/// Folding further `*` and `/` operators onto a parsed left operand.
#[verifier::opaque]
pub open spec fn spec_parse_term_rest(toks: Seq<TokenV>, pos: int, left: ExprV) -> PExpr
    decreases rem(toks, pos), 41int,
{
    let cur = token_at(toks, pos);
    if cur.kind == SyntaxKind::Mul || cur.kind == SyntaxKind::Div {
        let right = spec_parse_factor(toks, pos + 1);
        let rp = at_least(right.pos, pos + 1);
        let folded = ExprV::Binary(
            BinaryExpressionV {
                left: Box::new(left),
                operator: cur,
                right: Box::new(right.expr),
            },
        );
        let rest = spec_parse_term_rest(toks, rp, folded);
        PExpr { expr: rest.expr, pos: rest.pos, diags: right.diags + rest.diags }
    } else {
        PExpr { expr: left, pos, diags: Seq::empty() }
    }
}

/// Parsing a term: a factor followed by `*` and `/` folds.
#[verifier::opaque]
pub open spec fn spec_parse_term(toks: Seq<TokenV>, pos: int) -> PExpr
    decreases rem(toks, pos), 42int,
{
    let first = spec_parse_factor(toks, pos);
    let fp = at_least(first.pos, pos);
    let rest = spec_parse_term_rest(toks, fp, first.expr);
    PExpr { expr: rest.expr, pos: rest.pos, diags: first.diags + rest.diags }
}

/// Folding further `+` and `-` operators onto a parsed left operand.
#[verifier::opaque]
pub open spec fn spec_parse_arithmetic_rest(toks: Seq<TokenV>, pos: int, left: ExprV) -> PExpr
    decreases rem(toks, pos), 43int,
{
    let cur = token_at(toks, pos);
    if cur.kind == SyntaxKind::Plus || cur.kind == SyntaxKind::Minus {
        let right = spec_parse_term(toks, pos + 1);
        let rp = at_least(right.pos, pos + 1);
        let folded = ExprV::Binary(
            BinaryExpressionV {
                left: Box::new(left),
                operator: cur,
                right: Box::new(right.expr),
            },
        );
        let rest = spec_parse_arithmetic_rest(toks, rp, folded);
        PExpr { expr: rest.expr, pos: rest.pos, diags: right.diags + rest.diags }
    } else {
        PExpr { expr: left, pos, diags: Seq::empty() }
    }
}

/// Parsing an arithmetic expression: a term followed by `+`/`-` folds.
#[verifier::opaque]
pub open spec fn spec_parse_arithmetic(toks: Seq<TokenV>, pos: int) -> PExpr
    decreases rem(toks, pos), 44int,
{
    let first = spec_parse_term(toks, pos);
    let fp = at_least(first.pos, pos);
    let rest = spec_parse_arithmetic_rest(toks, fp, first.expr);
    PExpr { expr: rest.expr, pos: rest.pos, diags: first.diags + rest.diags }
}

/// Whether a kind is one of the relational-tier operators: `&&`, the
/// equality operators and the comparisons share one tier.
pub open spec fn is_relational_op(k: SyntaxKind) -> bool {
    k == SyntaxKind::AmpersandAmpersand || k == SyntaxKind::EqualsEquals || k
        == SyntaxKind::BangEquals || k == SyntaxKind::Less || k == SyntaxKind::LessOrEquals || k
        == SyntaxKind::Greater || k == SyntaxKind::GreaterOrEquals
}

/// Folding further relational-tier operators onto a parsed left
/// operand.
#[verifier::opaque]
pub open spec fn spec_parse_relational_rest(toks: Seq<TokenV>, pos: int, left: ExprV) -> PExpr
    decreases rem(toks, pos), 45int,
{
    let cur = token_at(toks, pos);
    if is_relational_op(cur.kind) {
        let right = spec_parse_arithmetic(toks, pos + 1);
        let rp = at_least(right.pos, pos + 1);
        let folded = ExprV::Binary(
            BinaryExpressionV {
                left: Box::new(left),
                operator: cur,
                right: Box::new(right.expr),
            },
        );
        let rest = spec_parse_relational_rest(toks, rp, folded);
        PExpr { expr: rest.expr, pos: rest.pos, diags: right.diags + rest.diags }
    } else {
        PExpr { expr: left, pos, diags: Seq::empty() }
    }
}

/// Parsing a relational-tier expression.
#[verifier::opaque]
pub open spec fn spec_parse_relational(toks: Seq<TokenV>, pos: int) -> PExpr
    decreases rem(toks, pos), 46int,
{
    let first = spec_parse_arithmetic(toks, pos);
    let fp = at_least(first.pos, pos);
    let rest = spec_parse_relational_rest(toks, fp, first.expr);
    PExpr { expr: rest.expr, pos: rest.pos, diags: first.diags + rest.diags }
}

/// Folding further `||` operators onto a parsed left operand.
#[verifier::opaque]
pub open spec fn spec_parse_logical_rest(toks: Seq<TokenV>, pos: int, left: ExprV) -> PExpr
    decreases rem(toks, pos), 47int,
{
    let cur = token_at(toks, pos);
    if cur.kind == SyntaxKind::PipePipe {
        let right = spec_parse_relational(toks, pos + 1);
        let rp = at_least(right.pos, pos + 1);
        let folded = ExprV::Binary(
            BinaryExpressionV {
                left: Box::new(left),
                operator: cur,
                right: Box::new(right.expr),
            },
        );
        let rest = spec_parse_logical_rest(toks, rp, folded);
        PExpr { expr: rest.expr, pos: rest.pos, diags: right.diags + rest.diags }
    } else {
        PExpr { expr: left, pos, diags: Seq::empty() }
    }
}

/// Parsing a logical expression: the lowest-precedence tier.
#[verifier::opaque]
pub open spec fn spec_parse_logical(toks: Seq<TokenV>, pos: int) -> PExpr
    decreases rem(toks, pos), 48int,
{
    let first = spec_parse_relational(toks, pos);
    let fp = at_least(first.pos, pos);
    let rest = spec_parse_logical_rest(toks, fp, first.expr);
    PExpr { expr: rest.expr, pos: rest.pos, diags: first.diags + rest.diags }
}

/// Parsing a full expression.
#[verifier::opaque]
pub open spec fn spec_parse_expression(toks: Seq<TokenV>, pos: int) -> PExpr
    decreases rem(toks, pos), 50int,
{
    spec_parse_logical(toks, pos)
}

/// Parsing the optional else clause after an if statement's then
/// branch.
#[verifier::opaque]
pub open spec fn spec_parse_else(toks: Seq<TokenV>, pos: int) -> POptStmt
    decreases rem(toks, pos), 51int,
{
    let cur = token_at(toks, pos);
    if cur.kind == SyntaxKind::Else {
        let et = spec_equals(toks, pos, seq![SyntaxKind::Else]);
        let list = spec_parse_statement_list(toks, pos + 1);
        POptStmt {
            stmt: Option::Some(
                StmtV::Else(
                    ElseStatementV {
                        else_token: et.token,
                        statement_list: Box::new(list.stmt),
                    },
                ),
            ),
            pos: list.pos,
            diags: et.diags + list.diags,
        }
    } else {
        POptStmt { stmt: Option::None, pos, diags: Seq::empty() }
    }
}

/// Parsing an assignment statement: `identifier = expression ;`.
#[verifier::opaque]
pub open spec fn spec_parse_assignment(toks: Seq<TokenV>, pos: int) -> PStmt
    decreases rem(toks, pos), 52int,
{
    let id = spec_equals(toks, pos, seq![SyntaxKind::IdentifierToken]);
    let idp = at_least(id.pos, pos);
    let eq = spec_equals(toks, idp, seq![SyntaxKind::Equals]);
    let eqp = at_least(eq.pos, idp);
    let e = spec_parse_expression(toks, eqp);
    let ep = at_least(e.pos, eqp);
    let semi = spec_equals(toks, ep, seq![SyntaxKind::Semicolon]);
    PStmt {
        stmt: StmtV::Assign(
            AssignmentV {
                variable: id.token,
                equals: eq.token,
                expression: Box::new(e.expr),
                semi_colon: semi.token,
            },
        ),
        pos: semi.pos,
        diags: id.diags + eq.diags + e.diags + semi.diags,
    }
}

/// Parsing a `let` declaration: `let identifier = expression ;`.
#[verifier::opaque]
pub open spec fn spec_parse_variable_declaration(toks: Seq<TokenV>, pos: int) -> PStmt
    decreases rem(toks, pos), 52int,
{
    let lt = spec_equals(toks, pos, seq![SyntaxKind::Let]);
    let ltp = at_least(lt.pos, pos);
    let id = spec_equals(toks, ltp, seq![SyntaxKind::IdentifierToken]);
    let idp = at_least(id.pos, ltp);
    let eq = spec_equals(toks, idp, seq![SyntaxKind::Equals]);
    let eqp = at_least(eq.pos, idp);
    let e = spec_parse_expression(toks, eqp);
    let ep = at_least(e.pos, eqp);
    let semi = spec_equals(toks, ep, seq![SyntaxKind::Semicolon]);
    PStmt {
        stmt: StmtV::VarDecl(
            VariableDeclarationV {
                let_token: lt.token,
                variable: id.token,
                equals: eq.token,
                expression: Box::new(e.expr),
                semi_colon: semi.token,
            },
        ),
        pos: semi.pos,
        diags: lt.diags + id.diags + eq.diags + e.diags + semi.diags,
    }
}

/// Parsing a `const` declaration: `const identifier = expression ;`.
#[verifier::opaque]
pub open spec fn spec_parse_constant_declaration(toks: Seq<TokenV>, pos: int) -> PStmt
    decreases rem(toks, pos), 52int,
{
    let ct = spec_equals(toks, pos, seq![SyntaxKind::Const]);
    let ctp = at_least(ct.pos, pos);
    let id = spec_equals(toks, ctp, seq![SyntaxKind::IdentifierToken]);
    let idp = at_least(id.pos, ctp);
    let eq = spec_equals(toks, idp, seq![SyntaxKind::Equals]);
    let eqp = at_least(eq.pos, idp);
    let e = spec_parse_expression(toks, eqp);
    let ep = at_least(e.pos, eqp);
    let semi = spec_equals(toks, ep, seq![SyntaxKind::Semicolon]);
    PStmt {
        stmt: StmtV::ConstDecl(
            ConstantDeclarationV {
                const_token: ct.token,
                variable: id.token,
                equals: eq.token,
                expression: Box::new(e.expr),
                semi_colon: semi.token,
            },
        ),
        pos: semi.pos,
        diags: ct.diags + id.diags + eq.diags + e.diags + semi.diags,
    }
}

/// Parsing an `if` statement: `if ( expr ) stmtlist [else stmtlist]`.
/// Only applied where the current token is the `if` keyword.
#[verifier::opaque]
pub open spec fn spec_parse_if(toks: Seq<TokenV>, pos: int) -> PStmt
    decreases rem(toks, pos), 52int,
{
    if token_at(toks, pos).kind != SyntaxKind::If {
        PStmt { stmt: vstd::pervasive::arbitrary(), pos, diags: Seq::empty() }
    } else {
        let it = spec_equals(toks, pos, seq![SyntaxKind::If]);
        let op = spec_equals(toks, pos + 1, seq![SyntaxKind::OpenParenthesis]);
        let opp = at_least(op.pos, pos + 1);
        let cond = spec_parse_expression(toks, opp);
        let cp = at_least(cond.pos, opp);
        let clp = spec_equals(toks, cp, seq![SyntaxKind::CloseParenthesis]);
        let clpp = at_least(clp.pos, cp);
        let body = spec_parse_statement_list(toks, clpp);
        let bp = at_least(body.pos, clpp);
        let els = spec_parse_else(toks, bp);
        PStmt {
            stmt: StmtV::If(
                IfStatementV {
                    if_token: it.token,
                    open_parenthesis: op.token,
                    condition: Box::new(cond.expr),
                    close_parenthesis: clp.token,
                    then_statement: Box::new(body.stmt),
                    else_clause: match els.stmt {
                        Option::Some(e) => Option::Some(Box::new(e)),
                        Option::None => Option::None,
                    },
                },
            ),
            pos: els.pos,
            diags: it.diags + op.diags + cond.diags + clp.diags + body.diags + els.diags,
        }
    }
}

/// Parsing a `while` statement: `while ( expr ) stmtlist`. Only applied
/// where the current token is the `while` keyword.
#[verifier::opaque]
pub open spec fn spec_parse_while(toks: Seq<TokenV>, pos: int) -> PStmt
    decreases rem(toks, pos), 52int,
{
    if token_at(toks, pos).kind != SyntaxKind::While {
        PStmt { stmt: vstd::pervasive::arbitrary(), pos, diags: Seq::empty() }
    } else {
        let wt = spec_equals(toks, pos, seq![SyntaxKind::While]);
        let op = spec_equals(toks, pos + 1, seq![SyntaxKind::OpenParenthesis]);
        let opp = at_least(op.pos, pos + 1);
        let cond = spec_parse_expression(toks, opp);
        let cp = at_least(cond.pos, opp);
        let clp = spec_equals(toks, cp, seq![SyntaxKind::CloseParenthesis]);
        let clpp = at_least(clp.pos, cp);
        let body = spec_parse_statement_list(toks, clpp);
        PStmt {
            stmt: StmtV::While(
                WhileStatementV {
                    while_token: wt.token,
                    open_parenthesis: op.token,
                    condition: Box::new(cond.expr),
                    close_parenthesis: clp.token,
                    body: Box::new(body.stmt),
                },
            ),
            pos: body.pos,
            diags: wt.diags + op.diags + cond.diags + clp.diags + body.diags,
        }
    }
}

/// Parsing a `for` statement:
/// `for ( identifier = expr to expr ) stmtlist`. Only applied where the
/// current token is the `for` keyword.
#[verifier::opaque]
pub open spec fn spec_parse_for(toks: Seq<TokenV>, pos: int) -> PStmt
    decreases rem(toks, pos), 52int,
{
    if token_at(toks, pos).kind != SyntaxKind::For {
        PStmt { stmt: vstd::pervasive::arbitrary(), pos, diags: Seq::empty() }
    } else {
        let ft = spec_equals(toks, pos, seq![SyntaxKind::For]);
        let op = spec_equals(toks, pos + 1, seq![SyntaxKind::OpenParenthesis]);
        let opp = at_least(op.pos, pos + 1);
        let id = spec_equals(toks, opp, seq![SyntaxKind::IdentifierToken]);
        let idp = at_least(id.pos, opp);
        let eq = spec_equals(toks, idp, seq![SyntaxKind::Equals]);
        let eqp = at_least(eq.pos, idp);
        let lo = spec_parse_expression(toks, eqp);
        let lop = at_least(lo.pos, eqp);
        let tt = spec_equals(toks, lop, seq![SyntaxKind::To]);
        let ttp = at_least(tt.pos, lop);
        let hi = spec_parse_expression(toks, ttp);
        let hip = at_least(hi.pos, ttp);
        let clp = spec_equals(toks, hip, seq![SyntaxKind::CloseParenthesis]);
        let clpp = at_least(clp.pos, hip);
        let body = spec_parse_statement_list(toks, clpp);
        PStmt {
            stmt: StmtV::For(
                ForStatementV {
                    for_token: ft.token,
                    open_parenthesis: op.token,
                    identifier: id.token,
                    equals: eq.token,
                    lower_bound: Box::new(lo.expr),
                    to_token: tt.token,
                    upper_bound: Box::new(hi.expr),
                    close_parenthesis: clp.token,
                    body: Box::new(body.stmt),
                },
            ),
            pos: body.pos,
            diags: ft.diags + op.diags + id.diags + eq.diags + lo.diags + tt.diags + hi.diags
                + clp.diags + body.diags,
        }
    }
}

/// Parsing one statement, dispatched on the current token's kind; a
/// token no statement starts with falls to the assignment rule, whose
/// error recovery reports it.
#[verifier::opaque]
pub open spec fn spec_parse_statement(toks: Seq<TokenV>, pos: int) -> PStmt
    decreases rem(toks, pos), 58int,
{
    let k = token_at(toks, pos).kind;
    if k == SyntaxKind::OpenBrace {
        spec_parse_statement_list(toks, pos)
    } else if k == SyntaxKind::If {
        spec_parse_if(toks, pos)
    } else if k == SyntaxKind::Let {
        spec_parse_variable_declaration(toks, pos)
    } else if k == SyntaxKind::Const {
        spec_parse_constant_declaration(toks, pos)
    } else if k == SyntaxKind::While {
        spec_parse_while(toks, pos)
    } else if k == SyntaxKind::For {
        spec_parse_for(toks, pos)
    } else {
        spec_parse_assignment(toks, pos)
    }
}

/// Parsing statements until a closing brace or the end of the input; a
/// statement that consumed nothing has the offending token skipped so
/// that the pass always makes progress.
#[verifier::opaque]
pub open spec fn spec_parse_statement_items(toks: Seq<TokenV>, pos: int) -> PStmts
    decreases rem(toks, pos), 59int,
{
    let k = token_at(toks, pos).kind;
    if k == SyntaxKind::CloseBrace || k == SyntaxKind::Eof {
        PStmts { stmts: Seq::empty(), pos, diags: Seq::empty() }
    } else {
        let st = spec_parse_statement(toks, pos);
        let np = if st.pos > pos {
            st.pos
        } else {
            pos + 1
        };
        let rest = spec_parse_statement_items(toks, np);
        PStmts {
            stmts: seq![st.stmt] + rest.stmts,
            pos: rest.pos,
            diags: st.diags + rest.diags,
        }
    }
}

/// Parsing a statement list: `{ stmt* }`.
#[verifier::opaque]
pub open spec fn spec_parse_statement_list(toks: Seq<TokenV>, pos: int) -> PStmt
    decreases rem(toks, pos),
        (if token_at(toks, pos).kind == SyntaxKind::OpenBrace {
            56int
        } else {
            70int
        }),
    via spec_parse_statement_list_dec
{
    let ob = spec_equals(toks, pos, seq![SyntaxKind::OpenBrace]);
    let obp = at_least(ob.pos, pos);
    let items = spec_parse_statement_items(toks, obp);
    let ip = at_least(items.pos, obp);
    let cb = spec_equals(toks, ip, seq![SyntaxKind::CloseBrace]);
    PStmt {
        stmt: StmtV::List(
            StatementListV {
                open_brace: ob.token,
                statements: items.stmts,
                close_brace: cb.token,
            },
        ),
        pos: cb.pos,
        diags: ob.diags + items.diags + cb.diags,
    }
}

#[via_fn]
proof fn spec_parse_statement_list_dec(toks: Seq<TokenV>, pos: int) {
    if token_at(toks, pos).kind == SyntaxKind::OpenBrace {
        assert(seq![SyntaxKind::OpenBrace][0] == SyntaxKind::OpenBrace);
        assert(seq![SyntaxKind::OpenBrace].contains(token_at(toks, pos).kind));
        assert(spec_equals(toks, pos, seq![SyntaxKind::OpenBrace]).pos == pos + 1);
    }
}

/// Parsing a whole program: the root statement list, then the end of
/// the input.
#[verifier::opaque]
pub open spec fn spec_parse_program(toks: Seq<TokenV>, pos: int) -> PStmt {
    let prog = spec_parse_statement_list(toks, pos);
    let pp = at_least(prog.pos, pos);
    let eof = spec_equals(toks, pp, seq![SyntaxKind::Eof]);
    PStmt { stmt: prog.stmt, pos: eof.pos, diags: prog.diags + eof.diags }
}


/// The informational trace diagnostic recorded for a pulled token.
pub open spec fn trace_diag(t: TokenV) -> DiagV {
    diag(
        msg_token_trace(t.kind, t.position, t.value, spec_type_of(t.value)),
        SpanV { start: t.position, length: t.length },
        TextPlace::Syntax,
        TextType::Info,
    )
}

/// The number of characters left at a position of the source text.
pub open spec fn text_rem(text: Seq<char>, pos: int) -> int {
    if pos <= text.len() {
        text.len() - pos
    } else {
        0
    }
}

/// What pulling every token from position `pos` on yields: the token
/// buffer (whitespace dropped, stopping at the end of input or at a bad
/// token) and the diagnostics, one trace message per token pulled.
pub struct CreateRes {
    pub tokens: Seq<TokenV>,
    pub diags: Seq<DiagV>,
}

/// Pulling tokens from the lexer until the end of input or a bad
/// token: whitespace and bad tokens stay out of the buffer.
#[verifier::opaque]
pub open spec fn spec_create(text: Seq<char>, pos: int) -> CreateRes
    decreases text_rem(text, pos),
    via spec_create_dec
{
    let st = spec_next_token(text, pos);
    let base = st.diags + seq![trace_diag(st.token)];
    if st.token.kind == SyntaxKind::Eof {
        CreateRes { tokens: seq![st.token], diags: base }
    } else if st.token.kind == SyntaxKind::BadToken {
        CreateRes { tokens: Seq::empty(), diags: base }
    } else {
        let r = spec_create(text, st.new_pos);
        let toks = if st.token.kind == SyntaxKind::WhiteSpace {
            r.tokens
        } else {
            seq![st.token] + r.tokens
        };
        CreateRes { tokens: toks, diags: base + r.diags }
    }
}

#[via_fn]
proof fn spec_create_dec(text: Seq<char>, pos: int) {
    if crate::lexer::char_at(text, pos) != '\0' {
        assert(0 <= pos < text.len());
        lemma_next_token_advances(text, pos);
    }
}

/// The parser: a cursor over the pre-lexed token buffer.
pub struct Parser {
    tokens: Vec<SyntaxToken>,
    position: usize,
}

/// The mathematical state of the parser.
pub struct ParserV {
    pub tokens: Seq<TokenV>,
    pub position: int,
}

impl View for Parser {
    type V = ParserV;

    closed spec fn view(&self) -> ParserV {
        ParserV { tokens: token_views(self.tokens@), position: self.position as int }
    }
}

impl Parser {
    /// A parser with an empty token buffer.
    pub fn new() -> (p: Parser)
        ensures
            p@.tokens == Seq::<TokenV>::empty(),
            p@.position == 0,
    {
        let p = Parser { tokens: Vec::new(), position: 0 };
        proof {
            assert(p@.tokens =~= Seq::<TokenV>::empty());
        }
        p
    }

    /// Pulls every remaining token out of the lexer into the buffer,
    /// recording one trace message per token; whitespace is dropped and
    /// lexing stops at the end of input or at a bad token.
    pub fn create(&mut self, lexer: &mut Lexer, diagnostics: &mut Diagnostics)
        ensures
            final(self)@.position == old(self)@.position,
            final(lexer)@.text == old(lexer)@.text,
            ({
                let r = spec_create(old(lexer)@.text, old(lexer)@.position);
                final(self)@.tokens == old(self)@.tokens + r.tokens && final(diagnostics)@
                    == old(diagnostics)@ + r.diags
            }),
        decreases text_rem(old(lexer)@.text, old(lexer)@.position),
    {
        reveal(spec_create);
        let ghost text = lexer@.text;
        let ghost startpos = lexer@.position;
        let token = lexer.next_token(diagnostics);
        let msg = token_trace_message(*token.kind(), token.position(), token.value(),
            token.get_type());
        diagnostics.info_message(
            msg,
            TextSpan::new(token.position(), token.length()),
            TextPlace::Syntax,
            TextType::Info,
        );
        let kind = *token.kind();
        if matches!(kind, SyntaxKind::Eof) {
            self.tokens.push(token);
            proof {
                let r = spec_create(text, startpos);
                assert(final(self)@.tokens =~= old(self)@.tokens + r.tokens);
                assert(final(diagnostics)@ =~= old(diagnostics)@ + r.diags);
            }
            return ;
        }
        if matches!(kind, SyntaxKind::BadToken) {
            proof {
                let r = spec_create(text, startpos);
                assert(final(self)@.tokens =~= old(self)@.tokens + r.tokens);
                assert(final(diagnostics)@ =~= old(diagnostics)@ + r.diags);
            }
            return ;
        }
        if !matches!(kind, SyntaxKind::WhiteSpace) {
            self.tokens.push(token);
        }
        proof {
            if crate::lexer::char_at(text, startpos) != '\0' {
                lemma_next_token_advances(text, startpos);
            }
        }
        self.create(lexer, diagnostics);
        proof {
            let r = spec_create(text, startpos);
            assert(final(self)@.tokens =~= old(self)@.tokens + r.tokens);
            assert(final(diagnostics)@ =~= old(diagnostics)@ + r.diags);
        }
    }

    /// The token under the cursor, or the synthetic end-of-input token
    /// past the end of the buffer.
    fn current(&self) -> (t: SyntaxToken)
        ensures
            t@ == token_at(self@.tokens, self@.position),
    {
        if self.position < self.tokens.len() {
            self.tokens[self.position].duplicate()
        } else {
            proof {
                reveal_strlit("EOF");
            }
            SyntaxToken::new(
                String::from_str("EOF"),
                LiteralValue::String(String::from_str("EOF")),
                0,
                SyntaxKind::Eof,
                1,
            )
        }
    }

    /// Consumes and returns the token under the cursor; past the end
    /// the cursor stays and the synthetic end-of-input token comes
    /// back.
    fn next_token(&mut self) -> (t: SyntaxToken)
        ensures
            final(self)@.tokens == old(self)@.tokens,
            final(self)@.position == advanced(old(self)@.tokens, old(self)@.position),
            t@ == token_at(old(self)@.tokens, old(self)@.position),
    {
        let current = self.current();
        if self.position < self.tokens.len() {
            self.position = self.position + 1;
        }
        current
    }

    /// Consumes a token of one of the expected kinds, or reports an
    /// unexpected token and hands back a synthetic bad token without
    /// consuming anything.
    fn equals(&mut self, kinds: &[SyntaxKind], diagnostics: &mut Diagnostics) -> (t:
        SyntaxToken)
        ensures
            final(self)@.tokens == old(self)@.tokens,
            old(self)@.position <= final(self)@.position,
            ({
                let r = spec_equals(old(self)@.tokens, old(self)@.position, kinds@);
                t@ == r.token && final(self)@.position == r.pos && final(diagnostics)@ == old(
                    diagnostics,
                )@ + r.diags
            }),
    {
        let cur = self.current();
        let mut i: usize = 0;
        let mut found = false;
        while i < kinds.len()
            invariant
                0 <= i <= kinds@.len(),
                found ==> kinds@.contains(cur@.kind),
                !found ==> forall|j: int| 0 <= j < i ==> kinds@[j] != cur@.kind,
            decreases kinds@.len() - i,
        {
            if kinds[i] == *cur.kind() {
                found = true;
                proof {
                    assert(kinds@[i as int] == cur@.kind);
                }
            }
            i = i + 1;
        }
        if found {
            let t = self.next_token();
            proof {
                assert(final(diagnostics)@ =~= old(diagnostics)@ + spec_equals(
                    old(self)@.tokens,
                    old(self)@.position,
                    kinds@,
                ).diags);
            }
            return t;
        }
        proof {
            assert(!kinds@.contains(cur@.kind));
        }
        diagnostics.report_unexpected_token(
            cur.name(),
            TextSpan::new(cur.position(), cur.length()),
            *cur.kind(),
            TextPlace::Syntax,
            TextType::Error,
        );
        proof {
            reveal_strlit("Error");
        }
        SyntaxToken::new(
            String::from_str("Error"),
            LiteralValue::String(String::from_str("Error")),
            cur.position(),
            SyntaxKind::BadToken,
            1,
        )
    }

    /// Parses a literal operand.
    fn parse_literal(&mut self, diagnostics: &mut Diagnostics) -> (e: Expression)
        ensures
            final(self)@.tokens == old(self)@.tokens,
            old(self)@.position <= final(self)@.position,
            ({
                let r = spec_parse_literal(old(self)@.tokens, old(self)@.position);
                e@ == r.expr && final(self)@.position == r.pos && final(diagnostics)@ == old(
                    diagnostics,
                )@ + r.diags
            }),
        decreases rem(self@.tokens, self@.position), 39int,
    {
        reveal(spec_parse_literal);
        let literal_token = self.equals(
            &[SyntaxKind::True, SyntaxKind::False, SyntaxKind::Number,
                SyntaxKind::IdentifierToken],
            diagnostics,
        );
        proof {
            assert(literal_kinds() =~= (&[SyntaxKind::True, SyntaxKind::False,
                SyntaxKind::Number, SyntaxKind::IdentifierToken])@);
        }
        if matches!(*literal_token.kind(), SyntaxKind::IdentifierToken) {
            Expression::Name(NameExpressionSyntax::new(literal_token))
        } else {
            Expression::Literal(LiteralExpressionSyntax::new(literal_token))
        }
    }

    /// Parses a factor: a prefix operator, a parenthesized expression,
    /// or a literal operand.
    fn parse_factor(&mut self, diagnostics: &mut Diagnostics) -> (e: Expression)
        ensures
            final(self)@.tokens == old(self)@.tokens,
            old(self)@.position <= final(self)@.position,
            ({
                let r = spec_parse_factor(old(self)@.tokens, old(self)@.position);
                e@ == r.expr && final(self)@.position == r.pos && final(diagnostics)@ == old(
                    diagnostics,
                )@ + r.diags
            }),
        decreases rem(self@.tokens, self@.position), 40int,
    {
        reveal(spec_parse_factor);
        reveal(spec_parse_expression);
        reveal(spec_parse_literal);
        let cur = self.current();
        if matches!(*cur.kind(), SyntaxKind::Bang | SyntaxKind::Minus) {
            let operator = self.next_token();
            let operand = self.parse_factor(diagnostics);
            Expression::Unary(UnaryExpressionSyntax::new(operator, Box::new(operand)))
        } else if matches!(*cur.kind(), SyntaxKind::OpenParenthesis) {
            let open_parenthesis_token = self.next_token();
            let expr = self.parse_expression(diagnostics);
            let close_parenthesis_token = self.equals(
                &[SyntaxKind::CloseParenthesis],
                diagnostics,
            );
            proof {
                assert((&[SyntaxKind::CloseParenthesis])@ =~= seq![SyntaxKind::CloseParenthesis]);
                let r = spec_parse_factor(old(self)@.tokens, old(self)@.position);
                assert(final(diagnostics)@ =~= old(diagnostics)@ + r.diags);
            }
            Expression::Parenthesized(
                ParenthesizedExpressionSyntax::new(
                    open_parenthesis_token,
                    Box::new(expr),
                    close_parenthesis_token,
                ),
            )
        } else {
            self.parse_literal(diagnostics)
        }
    }

    /// Folds further `*` and `/` operators onto a parsed left operand.
    fn parse_term_rest(&mut self, left: Expression, diagnostics: &mut Diagnostics) -> (e:
        Expression)
        ensures
            final(self)@.tokens == old(self)@.tokens,
            old(self)@.position <= final(self)@.position,
            ({
                let r = spec_parse_term_rest(old(self)@.tokens, old(self)@.position, left@);
                e@ == r.expr && final(self)@.position == r.pos && final(diagnostics)@ == old(
                    diagnostics,
                )@ + r.diags
            }),
        decreases rem(self@.tokens, self@.position), 41int,
    {
        reveal(spec_parse_term_rest);
        reveal(spec_parse_factor);
        let cur = self.current();
        if matches!(*cur.kind(), SyntaxKind::Mul | SyntaxKind::Div) {
            let operator = self.next_token();
            let right = self.parse_factor(diagnostics);
            let folded = Expression::Binary(
                BinaryExpressionSyntax::new(Box::new(left), operator, Box::new(right)),
            );
            let e = self.parse_term_rest(folded, diagnostics);
            proof {
                let r = spec_parse_term_rest(old(self)@.tokens, old(self)@.position, left@);
                assert(final(diagnostics)@ =~= old(diagnostics)@ + r.diags);
            }
            e
        } else {
            proof {
                assert(final(diagnostics)@ =~= old(diagnostics)@ + Seq::<DiagV>::empty());
            }
            left
        }
    }

    /// Parses a term: a factor with `*`/`/` folds.
    fn parse_term(&mut self, diagnostics: &mut Diagnostics) -> (e: Expression)
        ensures
            final(self)@.tokens == old(self)@.tokens,
            old(self)@.position <= final(self)@.position,
            ({
                let r = spec_parse_term(old(self)@.tokens, old(self)@.position);
                e@ == r.expr && final(self)@.position == r.pos && final(diagnostics)@ == old(
                    diagnostics,
                )@ + r.diags
            }),
        decreases rem(self@.tokens, self@.position), 42int,
    {
        reveal(spec_parse_term);
        reveal(spec_parse_factor);
        reveal(spec_parse_term_rest);
        let first = self.parse_factor(diagnostics);
        let e = self.parse_term_rest(first, diagnostics);
        proof {
            let r = spec_parse_term(old(self)@.tokens, old(self)@.position);
            assert(final(diagnostics)@ =~= old(diagnostics)@ + r.diags);
        }
        e
    }

    /// Folds further `+` and `-` operators onto a parsed left operand.
    fn parse_arithmetic_rest(&mut self, left: Expression, diagnostics: &mut Diagnostics) -> (e:
        Expression)
        ensures
            final(self)@.tokens == old(self)@.tokens,
            old(self)@.position <= final(self)@.position,
            ({
                let r = spec_parse_arithmetic_rest(
                    old(self)@.tokens,
                    old(self)@.position,
                    left@,
                );
                e@ == r.expr && final(self)@.position == r.pos && final(diagnostics)@ == old(
                    diagnostics,
                )@ + r.diags
            }),
        decreases rem(self@.tokens, self@.position), 43int,
    {
        reveal(spec_parse_arithmetic_rest);
        reveal(spec_parse_term);
        let cur = self.current();
        if matches!(*cur.kind(), SyntaxKind::Plus | SyntaxKind::Minus) {
            let operator = self.next_token();
            let right = self.parse_term(diagnostics);
            let folded = Expression::Binary(
                BinaryExpressionSyntax::new(Box::new(left), operator, Box::new(right)),
            );
            let e = self.parse_arithmetic_rest(folded, diagnostics);
            proof {
                let r = spec_parse_arithmetic_rest(
                    old(self)@.tokens,
                    old(self)@.position,
                    left@,
                );
                assert(final(diagnostics)@ =~= old(diagnostics)@ + r.diags);
            }
            e
        } else {
            proof {
                assert(final(diagnostics)@ =~= old(diagnostics)@ + Seq::<DiagV>::empty());
            }
            left
        }
    }

    /// Parses an arithmetic expression: a term with `+`/`-` folds.
    #[verifier::rlimit(100)]
    fn parse_arhithmetic_expression(&mut self, diagnostics: &mut Diagnostics) -> (e: Expression)
        ensures
            final(self)@.tokens == old(self)@.tokens,
            old(self)@.position <= final(self)@.position,
            ({
                let r = spec_parse_arithmetic(old(self)@.tokens, old(self)@.position);
                e@ == r.expr && final(self)@.position == r.pos && final(diagnostics)@ == old(
                    diagnostics,
                )@ + r.diags
            }),
        decreases rem(self@.tokens, self@.position), 44int,
    {
        reveal(spec_parse_arithmetic);
        reveal(spec_parse_term);
        reveal(spec_parse_arithmetic_rest);
        let first = self.parse_term(diagnostics);
        let e = self.parse_arithmetic_rest(first, diagnostics);
        proof {
            let r = spec_parse_arithmetic(old(self)@.tokens, old(self)@.position);
            assert(final(diagnostics)@ =~= old(diagnostics)@ + r.diags);
        }
        e
    }

    /// Folds further relational-tier operators onto a parsed left
    /// operand.
    fn parse_relational_rest(&mut self, left: Expression, diagnostics: &mut Diagnostics) -> (e:
        Expression)
        ensures
            final(self)@.tokens == old(self)@.tokens,
            old(self)@.position <= final(self)@.position,
            ({
                let r = spec_parse_relational_rest(
                    old(self)@.tokens,
                    old(self)@.position,
                    left@,
                );
                e@ == r.expr && final(self)@.position == r.pos && final(diagnostics)@ == old(
                    diagnostics,
                )@ + r.diags
            }),
        decreases rem(self@.tokens, self@.position), 45int,
    {
        reveal(spec_parse_relational_rest);
        reveal(spec_parse_arithmetic);
        let cur = self.current();
        if matches!(
            *cur.kind(),
            SyntaxKind::AmpersandAmpersand | SyntaxKind::EqualsEquals | SyntaxKind::BangEquals
                | SyntaxKind::Less | SyntaxKind::LessOrEquals | SyntaxKind::Greater
                | SyntaxKind::GreaterOrEquals
        ) {
            let operator = self.next_token();
            let right = self.parse_arhithmetic_expression(diagnostics);
            let folded = Expression::Binary(
                BinaryExpressionSyntax::new(Box::new(left), operator, Box::new(right)),
            );
            let e = self.parse_relational_rest(folded, diagnostics);
            proof {
                let r = spec_parse_relational_rest(
                    old(self)@.tokens,
                    old(self)@.position,
                    left@,
                );
                assert(final(diagnostics)@ =~= old(diagnostics)@ + r.diags);
            }
            e
        } else {
            proof {
                assert(final(diagnostics)@ =~= old(diagnostics)@ + Seq::<DiagV>::empty());
            }
            left
        }
    }

    /// Parses a relational-tier expression.
    #[verifier::rlimit(100)]
    fn parse_relational_expression(&mut self, diagnostics: &mut Diagnostics) -> (e: Expression)
        ensures
            final(self)@.tokens == old(self)@.tokens,
            old(self)@.position <= final(self)@.position,
            ({
                let r = spec_parse_relational(old(self)@.tokens, old(self)@.position);
                e@ == r.expr && final(self)@.position == r.pos && final(diagnostics)@ == old(
                    diagnostics,
                )@ + r.diags
            }),
        decreases rem(self@.tokens, self@.position), 46int,
    {
        reveal(spec_parse_relational);
        reveal(spec_parse_arithmetic);
        reveal(spec_parse_relational_rest);
        let first = self.parse_arhithmetic_expression(diagnostics);
        let e = self.parse_relational_rest(first, diagnostics);
        proof {
            let r = spec_parse_relational(old(self)@.tokens, old(self)@.position);
            assert(final(diagnostics)@ =~= old(diagnostics)@ + r.diags);
        }
        e
    }

    /// Folds further `||` operators onto a parsed left operand.
    fn parse_logical_rest(&mut self, left: Expression, diagnostics: &mut Diagnostics) -> (e:
        Expression)
        ensures
            final(self)@.tokens == old(self)@.tokens,
            old(self)@.position <= final(self)@.position,
            ({
                let r = spec_parse_logical_rest(old(self)@.tokens, old(self)@.position, left@);
                e@ == r.expr && final(self)@.position == r.pos && final(diagnostics)@ == old(
                    diagnostics,
                )@ + r.diags
            }),
        decreases rem(self@.tokens, self@.position), 47int,
    {
        reveal(spec_parse_logical_rest);
        reveal(spec_parse_relational);
        let cur = self.current();
        if matches!(*cur.kind(), SyntaxKind::PipePipe) {
            let operator = self.next_token();
            let right = self.parse_relational_expression(diagnostics);
            let folded = Expression::Binary(
                BinaryExpressionSyntax::new(Box::new(left), operator, Box::new(right)),
            );
            let e = self.parse_logical_rest(folded, diagnostics);
            proof {
                let r = spec_parse_logical_rest(old(self)@.tokens, old(self)@.position, left@);
                assert(final(diagnostics)@ =~= old(diagnostics)@ + r.diags);
            }
            e
        } else {
            proof {
                assert(final(diagnostics)@ =~= old(diagnostics)@ + Seq::<DiagV>::empty());
            }
            left
        }
    }

    /// Parses a logical expression: the lowest-precedence tier.
    #[verifier::rlimit(100)]
    fn parse_logical_expression(&mut self, diagnostics: &mut Diagnostics) -> (e: Expression)
        ensures
            final(self)@.tokens == old(self)@.tokens,
            old(self)@.position <= final(self)@.position,
            ({
                let r = spec_parse_logical(old(self)@.tokens, old(self)@.position);
                e@ == r.expr && final(self)@.position == r.pos && final(diagnostics)@ == old(
                    diagnostics,
                )@ + r.diags
            }),
        decreases rem(self@.tokens, self@.position), 48int,
    {
        reveal(spec_parse_logical);
        reveal(spec_parse_relational);
        reveal(spec_parse_logical_rest);
        let first = self.parse_relational_expression(diagnostics);
        let e = self.parse_logical_rest(first, diagnostics);
        proof {
            let r = spec_parse_logical(old(self)@.tokens, old(self)@.position);
            assert(final(diagnostics)@ =~= old(diagnostics)@ + r.diags);
        }
        e
    }

    /// Parses a full expression.
    fn parse_expression(&mut self, diagnostics: &mut Diagnostics) -> (e: Expression)
        ensures
            final(self)@.tokens == old(self)@.tokens,
            old(self)@.position <= final(self)@.position,
            ({
                let r = spec_parse_expression(old(self)@.tokens, old(self)@.position);
                e@ == r.expr && final(self)@.position == r.pos && final(diagnostics)@ == old(
                    diagnostics,
                )@ + r.diags
            }),
        decreases rem(self@.tokens, self@.position), 50int,
    {
        reveal(spec_parse_expression);
        reveal(spec_parse_logical);
        self.parse_logical_expression(diagnostics)
    }
}


/// Flattening five diagnostics logs appended one at a time.
proof fn lemma_fold_diags5(
    d0: Seq<DiagV>,
    a: Seq<DiagV>,
    b: Seq<DiagV>,
    c: Seq<DiagV>,
    d: Seq<DiagV>,
    e: Seq<DiagV>,
    dfin: Seq<DiagV>,
)
    requires
        dfin == d0 + a + b + c + d + e,
    ensures
        dfin == d0 + (a + b + c + d + e),
{
    assert(dfin =~= d0 + (a + b + c + d + e));
}

/// Regrouping an accumulated diagnostics log in two stages.
proof fn lemma_fold_diags6(
    d0: Seq<DiagV>,
    a: Seq<DiagV>,
    b: Seq<DiagV>,
    c: Seq<DiagV>,
    d: Seq<DiagV>,
    e: Seq<DiagV>,
    f: Seq<DiagV>,
    dmid1: Seq<DiagV>,
    dfin: Seq<DiagV>,
)
    requires
        dmid1 == d0 + (a + b + c),
        dfin == dmid1 + (d + e + f),
    ensures
        dfin == d0 + (a + b + c + d + e + f),
{
    assert(dfin =~= d0 + (a + b + c + d + e + f));
}

/// Regrouping an accumulated diagnostics log: appending in stages is
/// the same as appending the flat concatenation.
proof fn lemma_fold_diags(
    d0: Seq<DiagV>,
    a: Seq<DiagV>,
    b: Seq<DiagV>,
    c: Seq<DiagV>,
    d: Seq<DiagV>,
    e: Seq<DiagV>,
    f: Seq<DiagV>,
    g: Seq<DiagV>,
    h: Seq<DiagV>,
    i: Seq<DiagV>,
    dmid1: Seq<DiagV>,
    dmid2: Seq<DiagV>,
    dfin: Seq<DiagV>,
)
    requires
        dmid1 == d0 + (a + b + c + d + e),
        dmid2 == dmid1 + (f + g),
        dfin == dmid2 + (h + i),
    ensures
        dfin == d0 + (a + b + c + d + e + f + g + h + i),
{
    assert(dfin =~= d0 + (a + b + c + d + e + f + g + h + i));
}

impl Parser {
    /// Parses the optional else clause after an if statement's then
    /// branch.
    fn parse_else_statement(&mut self, diagnostics: &mut Diagnostics) -> (s: Option<
        Box<Statement>,
    >)
        ensures
            final(self)@.tokens == old(self)@.tokens,
            old(self)@.position <= final(self)@.position,
            ({
                let r = spec_parse_else(old(self)@.tokens, old(self)@.position);
                final(self)@.position == r.pos && final(diagnostics)@ == old(diagnostics)@
                    + r.diags && (match s {
                    Option::Some(e) => r.stmt == Option::Some((*e)@),
                    Option::None => r.stmt is None,
                })
            }),
        decreases rem(self@.tokens, self@.position), 51int,
    {
        reveal(spec_parse_else);
        reveal(spec_parse_statement_list);
        let cur = self.current();
        if matches!(*cur.kind(), SyntaxKind::Else) {
            let else_token = self.equals(&[SyntaxKind::Else], diagnostics);
            proof {
                assert((&[SyntaxKind::Else])@ =~= seq![SyntaxKind::Else]);
            }
            let statement_list = self.parse_statement_list(diagnostics);
            let s = Statement::Else(
                ElseStatement::new(else_token, Box::new(statement_list)),
            );
            proof {
                let r = spec_parse_else(old(self)@.tokens, old(self)@.position);
                assert(final(diagnostics)@ =~= old(diagnostics)@ + r.diags);
            }
            Option::Some(Box::new(s))
        } else {
            proof {
                assert(final(diagnostics)@ =~= old(diagnostics)@ + Seq::<DiagV>::empty());
            }
            Option::None
        }
    }

    /// Parses an assignment statement: `identifier = expression ;`.
    fn parse_assignment(&mut self, diagnostics: &mut Diagnostics) -> (s: Statement)
        ensures
            final(self)@.tokens == old(self)@.tokens,
            old(self)@.position <= final(self)@.position,
            ({
                let r = spec_parse_assignment(old(self)@.tokens, old(self)@.position);
                s@ == r.stmt && final(self)@.position == r.pos && final(diagnostics)@ == old(
                    diagnostics,
                )@ + r.diags
            }),
        decreases rem(self@.tokens, self@.position), 52int,
    {
        reveal(spec_parse_assignment);
        reveal(spec_parse_expression);
        let variable = self.equals(&[SyntaxKind::IdentifierToken], diagnostics);
        let equals = self.equals(&[SyntaxKind::Equals], diagnostics);
        let expression = self.parse_expression(diagnostics);
        let semi_colon = self.equals(&[SyntaxKind::Semicolon], diagnostics);
        proof {
            assert((&[SyntaxKind::IdentifierToken])@ =~= seq![SyntaxKind::IdentifierToken]);
            assert((&[SyntaxKind::Equals])@ =~= seq![SyntaxKind::Equals]);
            assert((&[SyntaxKind::Semicolon])@ =~= seq![SyntaxKind::Semicolon]);
            let r = spec_parse_assignment(old(self)@.tokens, old(self)@.position);
            assert(final(diagnostics)@ =~= old(diagnostics)@ + r.diags);
        }
        Statement::Assign(Assignment::new(variable, equals, Box::new(expression), semi_colon))
    }

    /// Parses a `let` declaration: `let identifier = expression ;`.
    #[verifier::rlimit(100)]
    fn parse_variable_declaration(&mut self, diagnostics: &mut Diagnostics) -> (s: Statement)
        ensures
            final(self)@.tokens == old(self)@.tokens,
            old(self)@.position <= final(self)@.position,
            ({
                let r = spec_parse_variable_declaration(old(self)@.tokens, old(self)@.position);
                s@ == r.stmt && final(self)@.position == r.pos && final(diagnostics)@ == old(
                    diagnostics,
                )@ + r.diags
            }),
        decreases rem(self@.tokens, self@.position), 52int,
    {
        reveal(spec_parse_variable_declaration);
        reveal(spec_parse_expression);
        let let_token = self.equals(&[SyntaxKind::Let], diagnostics);
        let variable = self.equals(&[SyntaxKind::IdentifierToken], diagnostics);
        let equals = self.equals(&[SyntaxKind::Equals], diagnostics);
        let expression = self.parse_expression(diagnostics);
        let semi_colon = self.equals(&[SyntaxKind::Semicolon], diagnostics);
        proof {
            assert((&[SyntaxKind::Let])@ =~= seq![SyntaxKind::Let]);
            assert((&[SyntaxKind::IdentifierToken])@ =~= seq![SyntaxKind::IdentifierToken]);
            assert((&[SyntaxKind::Equals])@ =~= seq![SyntaxKind::Equals]);
            assert((&[SyntaxKind::Semicolon])@ =~= seq![SyntaxKind::Semicolon]);
            let r = spec_parse_variable_declaration(old(self)@.tokens, old(self)@.position);
            assert(final(diagnostics)@ =~= old(diagnostics)@ + r.diags);
        }
        Statement::VarDecl(
            VariableDeclaration::new(let_token, variable, equals, Box::new(expression),
                semi_colon),
        )
    }

    /// Parses a `const` declaration: `const identifier = expression ;`.
    #[verifier::rlimit(100)]
    fn parse_constant_declaration(&mut self, diagnostics: &mut Diagnostics) -> (s: Statement)
        ensures
            final(self)@.tokens == old(self)@.tokens,
            old(self)@.position <= final(self)@.position,
            ({
                let r = spec_parse_constant_declaration(old(self)@.tokens, old(self)@.position);
                s@ == r.stmt && final(self)@.position == r.pos && final(diagnostics)@ == old(
                    diagnostics,
                )@ + r.diags
            }),
        decreases rem(self@.tokens, self@.position), 52int,
    {
        reveal(spec_parse_constant_declaration);
        reveal(spec_parse_expression);
        let const_token = self.equals(&[SyntaxKind::Const], diagnostics);
        let variable = self.equals(&[SyntaxKind::IdentifierToken], diagnostics);
        let equals = self.equals(&[SyntaxKind::Equals], diagnostics);
        let expression = self.parse_expression(diagnostics);
        let semi_colon = self.equals(&[SyntaxKind::Semicolon], diagnostics);
        proof {
            assert((&[SyntaxKind::Const])@ =~= seq![SyntaxKind::Const]);
            assert((&[SyntaxKind::IdentifierToken])@ =~= seq![SyntaxKind::IdentifierToken]);
            assert((&[SyntaxKind::Equals])@ =~= seq![SyntaxKind::Equals]);
            assert((&[SyntaxKind::Semicolon])@ =~= seq![SyntaxKind::Semicolon]);
            let r = spec_parse_constant_declaration(old(self)@.tokens, old(self)@.position);
            assert(final(diagnostics)@ =~= old(diagnostics)@ + r.diags);
        }
        Statement::ConstDecl(
            ConstantDeclaration::new(const_token, variable, equals, Box::new(expression),
                semi_colon),
        )
    }

    /// Parses an `if` statement: `if ( expr ) stmtlist [else stmtlist]`.
    #[verifier::rlimit(100)]
    fn parse_if_statement(&mut self, diagnostics: &mut Diagnostics) -> (s: Statement)
        requires
            token_at(old(self)@.tokens, old(self)@.position).kind == SyntaxKind::If,
        ensures
            final(self)@.tokens == old(self)@.tokens,
            old(self)@.position <= final(self)@.position,
            ({
                let r = spec_parse_if(old(self)@.tokens, old(self)@.position);
                s@ == r.stmt && final(self)@.position == r.pos && final(diagnostics)@ == old(
                    diagnostics,
                )@ + r.diags
            }),
        decreases rem(self@.tokens, self@.position), 52int,
    {
        reveal(spec_parse_if);
        reveal(spec_parse_expression);
        reveal(spec_parse_statement_list);
        reveal(spec_parse_else);
        let ghost toks = self@.tokens;
        let ghost p0 = self@.position;
        let ghost d0 = diagnostics@;
        let if_token = self.equals(&[SyntaxKind::If], diagnostics);
        proof {
            assert((&[SyntaxKind::If])@ =~= seq![SyntaxKind::If]);
        }
        let open_parenthesis = self.equals(&[SyntaxKind::OpenParenthesis], diagnostics);
        proof {
            assert((&[SyntaxKind::OpenParenthesis])@ =~= seq![SyntaxKind::OpenParenthesis]);
        }
        let expression = self.parse_expression(diagnostics);
        let ghost it = spec_equals(toks, p0, seq![SyntaxKind::If]);
        let ghost op = spec_equals(toks, p0 + 1, seq![SyntaxKind::OpenParenthesis]);
        let ghost opp = at_least(op.pos, p0 + 1);
        let ghost cond = spec_parse_expression(toks, opp);
        proof {
            assert(diagnostics@ =~= d0 + (it.diags + op.diags + cond.diags));
        }
        let ghost d3 = diagnostics@;
        let close_parenthesis = self.equals(&[SyntaxKind::CloseParenthesis], diagnostics);
        proof {
            assert((&[SyntaxKind::CloseParenthesis])@ =~= seq![SyntaxKind::CloseParenthesis]);
        }
        let statement_list = self.parse_statement_list(diagnostics);
        let else_statement = self.parse_else_statement(diagnostics);
        proof {
            let cp = at_least(cond.pos, opp);
            let clp = spec_equals(toks, cp, seq![SyntaxKind::CloseParenthesis]);
            let clpp = at_least(clp.pos, cp);
            let body = spec_parse_statement_list(toks, clpp);
            let bp = at_least(body.pos, clpp);
            let els = spec_parse_else(toks, bp);
            assert(diagnostics@ =~= d3 + (clp.diags + body.diags + els.diags));
            let r = spec_parse_if(old(self)@.tokens, old(self)@.position);
            assert(r.diags == it.diags + op.diags + cond.diags + clp.diags + body.diags
                + els.diags);
            lemma_fold_diags6(
                d0,
                it.diags,
                op.diags,
                cond.diags,
                clp.diags,
                body.diags,
                els.diags,
                d3,
                final(diagnostics)@,
            );
        }
        Statement::If(
            IfStatement::new(
                if_token,
                open_parenthesis,
                Box::new(expression),
                close_parenthesis,
                Box::new(statement_list),
                else_statement,
            ),
        )
    }

    /// Parses a `while` statement: `while ( expr ) stmtlist`.
    #[verifier::rlimit(100)]
    fn parse_while_statement(&mut self, diagnostics: &mut Diagnostics) -> (s: Statement)
        requires
            token_at(old(self)@.tokens, old(self)@.position).kind == SyntaxKind::While,
        ensures
            final(self)@.tokens == old(self)@.tokens,
            old(self)@.position <= final(self)@.position,
            ({
                let r = spec_parse_while(old(self)@.tokens, old(self)@.position);
                s@ == r.stmt && final(self)@.position == r.pos && final(diagnostics)@ == old(
                    diagnostics,
                )@ + r.diags
            }),
        decreases rem(self@.tokens, self@.position), 52int,
    {
        reveal(spec_parse_while);
        reveal(spec_parse_expression);
        reveal(spec_parse_statement_list);
        let while_token = self.equals(&[SyntaxKind::While], diagnostics);
        let open_parenthesis = self.equals(&[SyntaxKind::OpenParenthesis], diagnostics);
        let expression = self.parse_expression(diagnostics);
        let close_parenthesis = self.equals(&[SyntaxKind::CloseParenthesis], diagnostics);
        let statement_list = self.parse_statement_list(diagnostics);
        proof {
            assert((&[SyntaxKind::While])@ =~= seq![SyntaxKind::While]);
            assert((&[SyntaxKind::OpenParenthesis])@ =~= seq![SyntaxKind::OpenParenthesis]);
            assert((&[SyntaxKind::CloseParenthesis])@ =~= seq![SyntaxKind::CloseParenthesis]);
            let r = spec_parse_while(old(self)@.tokens, old(self)@.position);
            assert(final(diagnostics)@ =~= old(diagnostics)@ + r.diags);
        }
        Statement::While(
            WhileStatement::new(
                while_token,
                open_parenthesis,
                Box::new(expression),
                close_parenthesis,
                Box::new(statement_list),
            ),
        )
    }

    /// Parses a `for` statement:
    /// `for ( identifier = expr to expr ) stmtlist`.
    #[verifier::rlimit(100)]
    fn parse_for_statement(&mut self, diagnostics: &mut Diagnostics) -> (s: Statement)
        requires
            token_at(old(self)@.tokens, old(self)@.position).kind == SyntaxKind::For,
        ensures
            final(self)@.tokens == old(self)@.tokens,
            old(self)@.position <= final(self)@.position,
            ({
                let r = spec_parse_for(old(self)@.tokens, old(self)@.position);
                s@ == r.stmt && final(self)@.position == r.pos && final(diagnostics)@ == old(
                    diagnostics,
                )@ + r.diags
            }),
        decreases rem(self@.tokens, self@.position), 52int,
    {
        reveal(spec_parse_for);
        reveal(spec_parse_expression);
        reveal(spec_parse_statement_list);
        let ghost toks = self@.tokens;
        let ghost p0 = self@.position;
        let ghost d0 = diagnostics@;
        let for_token = self.equals(&[SyntaxKind::For], diagnostics);
        proof {
            assert((&[SyntaxKind::For])@ =~= seq![SyntaxKind::For]);
        }
        let open_parenthesis = self.equals(&[SyntaxKind::OpenParenthesis], diagnostics);
        proof {
            assert((&[SyntaxKind::OpenParenthesis])@ =~= seq![SyntaxKind::OpenParenthesis]);
        }
        let identifier = self.equals(&[SyntaxKind::IdentifierToken], diagnostics);
        proof {
            assert((&[SyntaxKind::IdentifierToken])@ =~= seq![SyntaxKind::IdentifierToken]);
        }
        let equals = self.equals(&[SyntaxKind::Equals], diagnostics);
        proof {
            assert((&[SyntaxKind::Equals])@ =~= seq![SyntaxKind::Equals]);
        }
        let lower_bound = self.parse_expression(diagnostics);
        let ghost ft = spec_equals(toks, p0, seq![SyntaxKind::For]);
        let ghost op = spec_equals(toks, p0 + 1, seq![SyntaxKind::OpenParenthesis]);
        let ghost opp = at_least(op.pos, p0 + 1);
        let ghost id = spec_equals(toks, opp, seq![SyntaxKind::IdentifierToken]);
        let ghost idp = at_least(id.pos, opp);
        let ghost eq = spec_equals(toks, idp, seq![SyntaxKind::Equals]);
        let ghost eqp = at_least(eq.pos, idp);
        let ghost lo = spec_parse_expression(toks, eqp);
        proof {
            lemma_fold_diags5(
                d0,
                ft.diags,
                op.diags,
                id.diags,
                eq.diags,
                lo.diags,
                diagnostics@,
            );
        }
        let ghost d5 = diagnostics@;
        let to_token = self.equals(&[SyntaxKind::To], diagnostics);
        proof {
            assert((&[SyntaxKind::To])@ =~= seq![SyntaxKind::To]);
        }
        let upper_bound = self.parse_expression(diagnostics);
        let ghost lop = at_least(lo.pos, eqp);
        let ghost tt = spec_equals(toks, lop, seq![SyntaxKind::To]);
        let ghost ttp = at_least(tt.pos, lop);
        let ghost hi = spec_parse_expression(toks, ttp);
        proof {
            assert(diagnostics@ =~= d5 + (tt.diags + hi.diags));
        }
        let ghost d7 = diagnostics@;
        let close_parenthesis = self.equals(&[SyntaxKind::CloseParenthesis], diagnostics);
        proof {
            assert((&[SyntaxKind::CloseParenthesis])@ =~= seq![SyntaxKind::CloseParenthesis]);
        }
        let body = self.parse_statement_list(diagnostics);
        let ghost hip = at_least(hi.pos, ttp);
        let ghost clp = spec_equals(toks, hip, seq![SyntaxKind::CloseParenthesis]);
        let ghost clpp = at_least(clp.pos, hip);
        let ghost bd = spec_parse_statement_list(toks, clpp);
        proof {
            assert(diagnostics@ =~= d7 + (clp.diags + bd.diags));
            let r = spec_parse_for(old(self)@.tokens, old(self)@.position);
            assert(r.diags == ft.diags + op.diags + id.diags + eq.diags + lo.diags + tt.diags
                + hi.diags + clp.diags + bd.diags);
            lemma_fold_diags(
                d0,
                ft.diags,
                op.diags,
                id.diags,
                eq.diags,
                lo.diags,
                tt.diags,
                hi.diags,
                clp.diags,
                bd.diags,
                d5,
                d7,
                final(diagnostics)@,
            );
        }
        Statement::For(
            ForStatement::new(
                for_token,
                open_parenthesis,
                identifier,
                equals,
                Box::new(lower_bound),
                to_token,
                Box::new(upper_bound),
                close_parenthesis,
                Box::new(body),
            ),
        )
    }

    /// Parses one statement, dispatching on the current token's kind.
    fn parse_statement(&mut self, diagnostics: &mut Diagnostics) -> (s: Statement)
        ensures
            final(self)@.tokens == old(self)@.tokens,
            old(self)@.position <= final(self)@.position,
            ({
                let r = spec_parse_statement(old(self)@.tokens, old(self)@.position);
                s@ == r.stmt && final(self)@.position == r.pos && final(diagnostics)@ == old(
                    diagnostics,
                )@ + r.diags
            }),
        decreases rem(self@.tokens, self@.position), 58int,
    {
        reveal(spec_parse_statement);
        reveal(spec_parse_statement_list);
        reveal(spec_parse_if);
        reveal(spec_parse_variable_declaration);
        reveal(spec_parse_constant_declaration);
        reveal(spec_parse_while);
        reveal(spec_parse_for);
        reveal(spec_parse_assignment);
        let cur = self.current();
        if matches!(*cur.kind(), SyntaxKind::OpenBrace) {
            self.parse_statement_list(diagnostics)
        } else if matches!(*cur.kind(), SyntaxKind::If) {
            self.parse_if_statement(diagnostics)
        } else if matches!(*cur.kind(), SyntaxKind::Let) {
            self.parse_variable_declaration(diagnostics)
        } else if matches!(*cur.kind(), SyntaxKind::Const) {
            self.parse_constant_declaration(diagnostics)
        } else if matches!(*cur.kind(), SyntaxKind::While) {
            self.parse_while_statement(diagnostics)
        } else if matches!(*cur.kind(), SyntaxKind::For) {
            self.parse_for_statement(diagnostics)
        } else {
            self.parse_assignment(diagnostics)
        }
    }

    /// Parses statements into `statements` until a closing brace or the
    /// end of the input, skipping a token whenever a statement consumed
    /// nothing so that the pass always makes progress.
    fn parse_statement_items(&mut self, statements: &mut Vec<Statement>, diagnostics: &mut
        Diagnostics)
        ensures
            final(self)@.tokens == old(self)@.tokens,
            old(self)@.position <= final(self)@.position,
            ({
                let r = spec_parse_statement_items(old(self)@.tokens, old(self)@.position);
                stmt_seq_view(final(statements)@) == stmt_seq_view(old(statements)@) + r.stmts
                    && final(self)@.position == r.pos && final(diagnostics)@ == old(
                    diagnostics,
                )@ + r.diags
            }),
        decreases rem(self@.tokens, self@.position), 59int,
    {
        reveal(spec_parse_statement_items);
        reveal(spec_parse_statement);
        let cur = self.current();
        if matches!(*cur.kind(), SyntaxKind::CloseBrace | SyntaxKind::Eof) {
            proof {
                assert(stmt_seq_view(final(statements)@) =~= stmt_seq_view(old(statements)@)
                    + Seq::<StmtV>::empty());
                assert(final(diagnostics)@ =~= old(diagnostics)@ + Seq::<DiagV>::empty());
            }
            return ;
        }
        let before = self.position;
        let st = self.parse_statement(diagnostics);
        statements.push(st);
        proof {
            lemma_stmt_seq_view_push(old(statements)@, st);
        }
        if self.position == before {
            let _skipped_token = self.next_token();
        }
        self.parse_statement_items(statements, diagnostics);
        proof {
            let r = spec_parse_statement_items(old(self)@.tokens, old(self)@.position);
            assert(stmt_seq_view(final(statements)@) =~= stmt_seq_view(old(statements)@)
                + r.stmts);
            assert(final(diagnostics)@ =~= old(diagnostics)@ + r.diags);
        }
    }

    /// Parses a statement list: `{ stmt* }`.
    fn parse_statement_list(&mut self, diagnostics: &mut Diagnostics) -> (s: Statement)
        ensures
            final(self)@.tokens == old(self)@.tokens,
            old(self)@.position <= final(self)@.position,
            ({
                let r = spec_parse_statement_list(old(self)@.tokens, old(self)@.position);
                s@ == r.stmt && final(self)@.position == r.pos && final(diagnostics)@ == old(
                    diagnostics,
                )@ + r.diags
            }),
        decreases rem(self@.tokens, self@.position),
            (if token_at(self@.tokens, self@.position).kind == SyntaxKind::OpenBrace {
                56int
            } else {
                70int
            }),
    {
        reveal(spec_parse_statement_list);
        reveal(spec_parse_statement_items);
        let open_brace = self.equals(&[SyntaxKind::OpenBrace], diagnostics);
        let mut statements: Vec<Statement> = Vec::new();
        proof {
            assert((&[SyntaxKind::OpenBrace])@ =~= seq![SyntaxKind::OpenBrace]);
            assert(stmt_seq_view(statements@) =~= Seq::<StmtV>::empty());
        }
        self.parse_statement_items(&mut statements, diagnostics);
        let close_brace = self.equals(&[SyntaxKind::CloseBrace], diagnostics);
        proof {
            assert((&[SyntaxKind::CloseBrace])@ =~= seq![SyntaxKind::CloseBrace]);
            let r = spec_parse_statement_list(old(self)@.tokens, old(self)@.position);
            assert(final(diagnostics)@ =~= old(diagnostics)@ + r.diags);
        }
        Statement::List(StatementList::new(open_brace, statements, close_brace))
    }

    /// Parses a whole program: the root statement list, then the end of
    /// the input.
    pub fn parse(&mut self, diagnostics: &mut Diagnostics) -> (s: Statement)
        ensures
            final(self)@.tokens == old(self)@.tokens,
            old(self)@.position <= final(self)@.position,
            ({
                let r = spec_parse_program(old(self)@.tokens, old(self)@.position);
                s@ == r.stmt && final(self)@.position == r.pos && final(diagnostics)@ == old(
                    diagnostics,
                )@ + r.diags
            }),
    {
        reveal(spec_parse_program);
        reveal(spec_parse_statement_list);
        let program = self.parse_statement_list(diagnostics);
        let eof = self.equals(&[SyntaxKind::Eof], diagnostics);
        proof {
            assert((&[SyntaxKind::Eof])@ =~= seq![SyntaxKind::Eof]);
            let r = spec_parse_program(old(self)@.tokens, old(self)@.position);
            assert(final(diagnostics)@ =~= old(diagnostics)@ + r.diags);
        }
        program
    }
}

} // verus!
