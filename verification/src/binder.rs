//! The binder: resolves names against a chain of lexical scopes,
//! assigns static types, checks declaration rules and operator
//! applicability, and produces the typed tree.

use vstd::prelude::*;

use crate::bound_tree::BExprV;
use crate::bound_tree::BStmtV;
use crate::bound_tree::BoundAssignment;
use crate::bound_tree::BoundAssignmentV;
use crate::bound_tree::BoundBinaryExpression;
use crate::bound_tree::BoundBinaryExpressionV;
use crate::bound_tree::BoundConstantDeclaration;
use crate::bound_tree::BoundConstantDeclarationV;
use crate::bound_tree::BoundExpression;
use crate::bound_tree::BoundForStatement;
use crate::bound_tree::BoundForStatementV;
use crate::bound_tree::BoundIfStatement;
use crate::bound_tree::BoundIfStatementV;
use crate::bound_tree::BoundLiteralExpression;
use crate::bound_tree::BoundLiteralExpressionV;
use crate::bound_tree::BoundStatement;
use crate::bound_tree::BoundStatementList;
use crate::bound_tree::BoundStatementListV;
use crate::bound_tree::BoundUnaryExpression;
use crate::bound_tree::BoundUnaryExpressionV;
use crate::bound_tree::BoundVariableDeclaration;
use crate::bound_tree::BoundVariableDeclarationV;
use crate::bound_tree::BoundWhileStatement;
use crate::bound_tree::BoundWhileStatementV;
use crate::bound_tree::bstmt_seq_view;
use crate::bound_tree::lemma_bstmt_seq_view_push;
use crate::bound_tree::spec_bind_binary_operator;
use crate::bound_tree::spec_bind_unary_operator;
use crate::bound_tree::spec_bound_expr_type;
use crate::bound_tree::BoundBinaryOperator;
use crate::bound_tree::BoundUnaryOperator;
use crate::literals::LiteralType;
use crate::literals::spec_type_of;
use crate::reports::DiagV;
use crate::reports::Diagnostics;
use crate::reports::SpanV;
use crate::reports::TextPlace;
use crate::reports::TextSpan;
use crate::reports::TextType;
use crate::reports::diag;
use crate::reports::msg_already_declared;
use crate::reports::msg_constant_redefined;
use crate::reports::msg_invalid_literal_type;
use crate::reports::msg_not_declared;
use crate::reports::msg_undefined_binary_operator;
use crate::reports::msg_undefined_name;
use crate::reports::msg_undefined_unary_operator;
use crate::symbol_table::StoreV;
use crate::symbol_table::SymbolTable;
use crate::symbol_table::spec_insert;
use crate::symbol_table::spec_symbol_of;
use crate::syntax_kind::SyntaxKind;
use crate::syntax_tree::Assignment;
use crate::syntax_tree::AssignmentV;
use crate::syntax_tree::ConstantDeclaration;
use crate::syntax_tree::VariableDeclaration;
use crate::syntax_tree::BinaryExpressionSyntax;
use crate::syntax_tree::BinaryExpressionV;
use crate::syntax_tree::ElseStatement;
use crate::syntax_tree::IfStatement;
use crate::syntax_tree::LiteralExpressionSyntax;
use crate::syntax_tree::NameExpressionSyntax;
use crate::syntax_tree::ParenthesizedExpressionSyntax;
use crate::syntax_tree::UnaryExpressionSyntax;
use crate::syntax_tree::UnaryExpressionV;
use crate::syntax_tree::ForStatement;
use crate::syntax_tree::WhileStatement;
use crate::syntax_tree::lemma_binary_fields;
use crate::syntax_tree::lemma_else_fields;
use crate::syntax_tree::lemma_for_fields;
use crate::syntax_tree::lemma_if_fields;
use crate::syntax_tree::lemma_paren_fields;
use crate::syntax_tree::lemma_statement_list_fields;
use crate::syntax_tree::lemma_unary_fields;
use crate::syntax_tree::lemma_while_fields;
use crate::syntax_tree::ConstantDeclarationV;
use crate::syntax_tree::ExprV;
use crate::syntax_tree::Expression;
use crate::syntax_tree::ForStatementV;
use crate::syntax_tree::IfStatementV;
use crate::syntax_tree::LiteralExpressionV;
use crate::syntax_tree::NameExpressionV;
use crate::syntax_tree::Statement;
use crate::syntax_tree::StatementList;
use crate::syntax_tree::StatementListV;
use crate::syntax_tree::StmtV;
use crate::syntax_tree::VariableDeclarationV;
use crate::syntax_tree::WhileStatementV;
use crate::syntax_tree::lemma_stmt_seq_view_index;
use crate::syntax_tree::stmt_seq_view;
use crate::text::str_eq;
use crate::variable_symbol::SymV;
use crate::variable_symbol::VariableSymbol;

verus! {

/// The views of a frame's symbols, in declaration order.
pub open spec fn sym_seq_view(v: Seq<VariableSymbol>) -> Seq<SymV> {
    v.map_values(|s: VariableSymbol| s@)
}

/// One node of the lexical scope chain: the symbols declared directly
/// in this scope, and the enclosing scope.
pub struct BoundScope {
    pub variables: Vec<VariableSymbol>,
    parent: Option<Box<BoundScope>>,
}

/// The chain of scope frames, innermost first; each frame is the list
/// of symbols declared directly in it.
pub closed spec fn scope_view(s: &BoundScope) -> Seq<Seq<SymV>>
    decreases s,
{
    match &s.parent {
        Option::Some(p) => seq![sym_seq_view(s.variables@)] + scope_view(&**p),
        Option::None => seq![sym_seq_view(s.variables@)],
    }
}

impl View for BoundScope {
    type V = Seq<Seq<SymV>>;

    closed spec fn view(&self) -> Seq<Seq<SymV>> {
        scope_view(self)
    }
}

/// A scope chain always holds at least its own frame.
proof fn lemma_scope_view_len(s: &BoundScope)
    ensures
        s@.len() >= 1,
        s@[0] == sym_seq_view(s.variables@),
    decreases s,
{
}

impl BoundScope {
    /// A scope with no symbols over the given parent.
    pub fn new(parent: Option<Box<BoundScope>>) -> (s: BoundScope)
        ensures
            s@ == seq![Seq::<SymV>::empty()] + (match parent {
                Option::Some(p) => (*p)@,
                Option::None => Seq::<Seq<SymV>>::empty(),
            }),
    {
        let s = BoundScope { variables: Vec::new(), parent };
        proof {
            assert(sym_seq_view(s.variables@) =~= Seq::<SymV>::empty());
            match &s.parent {
                Option::Some(p) => {
                    assert(s@ =~= seq![Seq::<SymV>::empty()] + (**p)@);
                },
                Option::None => {
                    assert(s@ =~= seq![Seq::<SymV>::empty()]
                        + Seq::<Seq<SymV>>::empty());
                },
            }
        }
        s
    }

    /// The enclosing scope, if this is not the outermost one.
    pub fn get_parent(&self) -> (p: &Option<Box<BoundScope>>)
        ensures
            match p {
                Option::Some(q) => self@ == seq![self@[0]] + (**q)@,
                Option::None => self@.len() == 1,
            },
    {
        proof {
            lemma_scope_view_len(self);
        }
        &self.parent
    }

    /// Whether a name is declared in this scope or one of its
    /// ancestors.
    fn has_visible(&self, id: &str) -> (r: bool)
        ensures
            r == visible_in(self@, id@),
        decreases self,
    {
        let mut i: usize = 0;
        let ghost frame = sym_seq_view(self.variables@);
        while i < self.variables.len()
            invariant
                0 <= i <= self.variables@.len(),
                frame == sym_seq_view(self.variables@),
                frame.len() == self.variables@.len(),
                forall|j: int| 0 <= j < i ==> frame[j].id != id@,
            decreases self.variables.len() - i,
        {
            let sid = self.variables[i].id();
            if str_eq(sid.as_str(), id) {
                proof {
                    assert(frame[i as int] == self.variables@[i as int]@);
                    assert(frame_has(frame, id@));
                    lemma_scope_view_len(self);
                }
                return true;
            }
            proof {
                assert(frame[i as int] == self.variables@[i as int]@);
            }
            i = i + 1;
        }
        proof {
            assert(!frame_has(frame, id@));
            lemma_scope_view_len(self);
        }
        match &self.parent {
            Option::Some(p) => {
                let r = p.has_visible(id);
                proof {
                    assert(self@ == seq![frame] + (**p)@);
                    assert(self@.drop_first() =~= (**p)@);
                    assert(self@[0] == frame);
                    assert(!frame_has(self@[0], id@));
                    assert(visible_in(self@, id@) == visible_in(self@.drop_first(), id@));
                }
                r
            },
            Option::None => {
                proof {
                    assert(self@ == seq![frame]);
                    assert(self@[0] == frame);
                    assert(self@.drop_first() =~= Seq::<Seq<SymV>>::empty());
                    assert(!visible_in(self@.drop_first(), id@));
                }
                false
            },
        }
    }
}

/// Whether a frame declares a name.
pub open spec fn frame_has(frame: Seq<SymV>, id: Seq<char>) -> bool {
    exists|j: int| 0 <= j < frame.len() && frame[j].id == id
}

/// Whether a name is visible somewhere along a scope chain.
pub open spec fn visible_in(scopes: Seq<Seq<SymV>>, id: Seq<char>) -> bool
    decreases scopes.len(),
{
    if scopes.len() == 0 {
        false
    } else {
        frame_has(scopes[0], id) || visible_in(scopes.drop_first(), id)
    }
}

/// The symbol a declaration or assignment registers: typed from its
/// right-hand side, and global exactly when the declaration sits
/// directly in the outermost block.
pub open spec fn declared_symbol(
    id: Seq<char>,
    t: LiteralType,
    read_only: bool,
    scopes: Seq<Seq<SymV>>,
) -> SymV {
    SymV { id, kind: t, read_only, is_global: scopes.len() == 2 }
}

/// A bound expression with the diagnostics its binding reported.
pub struct BindExprRes {
    pub expr: BExprV,
    pub diags: Seq<DiagV>,
}

/// A bound statement with the updated scope chain and store, and the
/// diagnostics its binding reported.
pub struct BindStmtRes {
    pub stmt: BStmtV,
    pub scopes: Seq<Seq<SymV>>,
    pub table: StoreV,
    pub diags: Seq<DiagV>,
}

/// A bound statement sequence with the updated scope chain and store,
/// and the diagnostics reported.
pub struct BindStmtsRes {
    pub stmts: Seq<BStmtV>,
    pub scopes: Seq<Seq<SymV>>,
    pub table: StoreV,
    pub diags: Seq<DiagV>,
}

/// Binding a literal: its value and type pass straight through, marked
/// as a plain value.
pub open spec fn spec_bind_literal(l: LiteralExpressionV) -> BExprV {
    BExprV::Literal(
        BoundLiteralExpressionV {
            value: l.literal_token.value,
            type_of_value: spec_type_of(l.literal_token.value),
            kind: SyntaxKind::NoneMarker,
        },
    )
}

/// Binding a name: a visible registered name becomes a deferred
/// variable lookup typed from the registered symbol; anything else is
/// reported undefined and becomes an error-marked literal.
pub open spec fn spec_bind_name(n: NameExpressionV, scopes: Seq<Seq<SymV>>, table: StoreV) ->
    BindExprRes {
    let id = n.token.name;
    let key = spec_symbol_of(table, id);
    if key is Some && visible_in(scopes, id) {
        BindExprRes {
            expr: BExprV::Literal(
                BoundLiteralExpressionV {
                    value: n.token.value,
                    type_of_value: key->Some_0.kind,
                    kind: SyntaxKind::Variable,
                },
            ),
            diags: Seq::empty(),
        }
    } else {
        BindExprRes {
            expr: BExprV::Literal(
                BoundLiteralExpressionV {
                    value: n.token.value,
                    type_of_value: spec_type_of(n.token.value),
                    kind: SyntaxKind::Error,
                },
            ),
            diags: seq![
                diag(
                    msg_undefined_name(id),
                    SpanV { start: n.token.position, length: n.token.length },
                    TextPlace::Semantic,
                    TextType::Error,
                ),
            ],
        }
    }
}

/// Binding an expression: literals and names directly, operators
/// through the fixed tables, with the left or only operand standing in
/// for an operation whose operator is not defined for its types.
#[verifier::opaque]
pub open spec fn spec_bind_expr(e: ExprV, scopes: Seq<Seq<SymV>>, table: StoreV) -> BindExprRes
    decreases e, 1int,
{
    match e {
        ExprV::Literal(l) => BindExprRes { expr: spec_bind_literal(l), diags: Seq::empty() },
        ExprV::Name(n) => spec_bind_name(n, scopes, table),
        ExprV::Unary(u) => spec_bind_unary(u, scopes, table),
        ExprV::Binary(b) => spec_bind_binary(b, scopes, table),
        ExprV::Parenthesized(p) => spec_bind_expr(*p.expression, scopes, table),
    }
}

/// Binding a unary operation: the operand is bound, then the operator
/// is resolved; when none fits, the operand stands in and the failure
/// is reported.
#[verifier::opaque]
pub open spec fn spec_bind_unary(u: UnaryExpressionV, scopes: Seq<Seq<SymV>>, table: StoreV) ->
    BindExprRes
    decreases u, 0int,
{
    let operand = spec_bind_expr(*u.operand, scopes, table);
    let op = spec_bind_unary_operator(u.operator.kind, spec_bound_expr_type(operand.expr));
    match op {
        Option::Some(operator) => BindExprRes {
            expr: BExprV::Unary(
                BoundUnaryExpressionV { operator, operand: Box::new(operand.expr) },
            ),
            diags: operand.diags,
        },
        Option::None => BindExprRes {
            expr: operand.expr,
            diags: operand.diags + seq![
                diag(
                    msg_undefined_unary_operator(
                        u.operator.kind,
                        spec_bound_expr_type(operand.expr),
                    ),
                    SpanV { start: u.operator.position, length: u.operator.length },
                    TextPlace::Semantic,
                    TextType::Error,
                ),
            ],
        },
    }
}

/// Binding a binary operation: both operands are bound, then the
/// operator is resolved; when none fits, the left operand stands in and
/// the failure is reported.
#[verifier::opaque]
pub open spec fn spec_bind_binary(b: BinaryExpressionV, scopes: Seq<Seq<SymV>>, table:
    StoreV) -> BindExprRes
    decreases b, 0int,
{
    let left = spec_bind_expr(*b.left, scopes, table);
    let right = spec_bind_expr(*b.right, scopes, table);
    let op = spec_bind_binary_operator(
        b.operator.kind,
        spec_bound_expr_type(left.expr),
        spec_bound_expr_type(right.expr),
    );
    match op {
        Option::Some(operator) => BindExprRes {
            expr: BExprV::Binary(
                BoundBinaryExpressionV {
                    left: Box::new(left.expr),
                    operator,
                    right: Box::new(right.expr),
                },
            ),
            diags: left.diags + right.diags,
        },
        Option::None => BindExprRes {
            expr: left.expr,
            diags: left.diags + right.diags + seq![
                diag(
                    msg_undefined_binary_operator(
                        b.operator.kind,
                        spec_bound_expr_type(left.expr),
                        spec_bound_expr_type(right.expr),
                    ),
                    SpanV { start: b.operator.position, length: b.operator.length },
                    TextPlace::Semantic,
                    TextType::Error,
                ),
            ],
        },
    }
}

/// Binding an expression that the surrounding construct requires to
/// have a particular type; a mismatch is reported but the bound result
/// is used regardless.
pub open spec fn spec_bind_expr_checked(
    e: ExprV,
    scopes: Seq<Seq<SymV>>,
    table: StoreV,
    target: LiteralType,
) -> BindExprRes {
    let r = spec_bind_expr(e, scopes, table);
    if spec_bound_expr_type(r.expr) != target {
        BindExprRes {
            expr: r.expr,
            diags: r.diags + seq![
                diag(
                    msg_invalid_literal_type(spec_bound_expr_type(r.expr), target),
                    SpanV { start: 0, length: 2 },
                    TextPlace::Semantic,
                    TextType::Error,
                ),
            ],
        }
    } else {
        r
    }
}

/// Binding one statement against the current scope chain and store.
#[verifier::opaque]
pub open spec fn spec_bind_stmt(s: StmtV, scopes: Seq<Seq<SymV>>, table: StoreV) -> BindStmtRes
    decreases s, 0int, 1int,
{
    match s {
        StmtV::List(l) => spec_bind_list(l, scopes, table),
        StmtV::Assign(a) => spec_bind_assignment(a, scopes, table),
        StmtV::VarDecl(d) => spec_bind_variable_declaration(d, scopes, table),
        StmtV::ConstDecl(d) => spec_bind_constant_declaration(d, scopes, table),
        StmtV::If(i) => spec_bind_if(i, scopes, table),
        StmtV::Else(e) => spec_bind_stmt(*e.statement_list, scopes, table),
        StmtV::While(w) => spec_bind_while(w, scopes, table),
        StmtV::For(f) => spec_bind_for(f, scopes, table),
    }
}

/// Binding the statements of a block from index `i` on, threading the
/// scope chain and store left to right.
#[verifier::opaque]
pub open spec fn spec_bind_stmts(
    ss: Seq<StmtV>,
    i: int,
    scopes: Seq<Seq<SymV>>,
    table: StoreV,
) -> BindStmtsRes
    decreases ss, ss.len() - i, 2int,
{
    if 0 <= i < ss.len() {
        let first = spec_bind_stmt(ss[i], scopes, table);
        let rest = spec_bind_stmts(ss, i + 1, first.scopes, first.table);
        BindStmtsRes {
            stmts: seq![first.stmt] + rest.stmts,
            scopes: rest.scopes,
            table: rest.table,
            diags: first.diags + rest.diags,
        }
    } else {
        BindStmtsRes { stmts: Seq::empty(), scopes, table, diags: Seq::empty() }
    }
}

/// Binding a block: a fresh scope frame is pushed, the statements are
/// bound in it, and the frame is discarded when the block closes.
#[verifier::opaque]
pub open spec fn spec_bind_list(l: StatementListV, scopes: Seq<Seq<SymV>>, table: StoreV) ->
    BindStmtRes
    decreases l, 0int, 0int,
{
    let pushed = seq![Seq::<SymV>::empty()] + scopes;
    let inner = spec_bind_stmts(l.statements, 0, pushed, table);
    BindStmtRes {
        stmt: BStmtV::List(BoundStatementListV { statements: inner.stmts }),
        scopes: inner.scopes.drop_first(),
        table: inner.table,
        diags: inner.diags,
    }
}

/// Binding an assignment: the name must be registered and visible, and
/// not constant; the symbol is re-registered typed from the right-hand
/// side.
pub open spec fn spec_bind_assignment(a: AssignmentV, scopes: Seq<Seq<SymV>>, table: StoreV) ->
    BindStmtRes {
    let id = a.variable.name;
    let key = spec_symbol_of(table, id);
    let span = SpanV { start: a.variable.position, length: a.variable.length };
    let d1: Seq<DiagV> = if key is None || !visible_in(scopes, id) {
        seq![diag(msg_not_declared(id), span, TextPlace::Semantic, TextType::Error)]
    } else {
        Seq::empty()
    };
    let d2: Seq<DiagV> = if key is Some && key->Some_0.read_only && visible_in(scopes, id) {
        seq![diag(msg_constant_redefined(id), span, TextPlace::Semantic, TextType::Error)]
    } else {
        Seq::empty()
    };
    let e = spec_bind_expr(*a.expression, scopes, table);
    let sym = declared_symbol(id, spec_bound_expr_type(e.expr), false, scopes);
    BindStmtRes {
        stmt: BStmtV::Assign(BoundAssignmentV { variable: sym, expression: e.expr }),
        scopes: scopes.update(0, scopes[0].push(sym)),
        table: spec_insert(table, sym, Option::None),
        diags: d1 + d2 + e.diags,
    }
}

/// Binding a `let` declaration: a name already visible is reported,
/// then the symbol is registered typed from its initializer.
pub open spec fn spec_bind_variable_declaration(
    d: VariableDeclarationV,
    scopes: Seq<Seq<SymV>>,
    table: StoreV,
) -> BindStmtRes {
    let id = d.variable.name;
    let key = spec_symbol_of(table, id);
    let span = SpanV { start: d.variable.position, length: d.variable.length };
    let d1: Seq<DiagV> = if key is Some && visible_in(scopes, id) {
        seq![diag(msg_already_declared(id), span, TextPlace::Semantic, TextType::Error)]
    } else {
        Seq::empty()
    };
    let e = spec_bind_expr(*d.expression, scopes, table);
    let sym = declared_symbol(id, spec_bound_expr_type(e.expr), false, scopes);
    BindStmtRes {
        stmt: BStmtV::VarDecl(BoundVariableDeclarationV { variable: sym, expression: e.expr }),
        scopes: scopes.update(0, scopes[0].push(sym)),
        table: spec_insert(table, sym, Option::None),
        diags: d1 + e.diags,
    }
}

/// Binding a `const` declaration: as a `let`, but the symbol is marked
/// read-only.
pub open spec fn spec_bind_constant_declaration(
    d: ConstantDeclarationV,
    scopes: Seq<Seq<SymV>>,
    table: StoreV,
) -> BindStmtRes {
    let id = d.variable.name;
    let key = spec_symbol_of(table, id);
    let span = SpanV { start: d.variable.position, length: d.variable.length };
    let d1: Seq<DiagV> = if key is Some && visible_in(scopes, id) {
        seq![diag(msg_already_declared(id), span, TextPlace::Semantic, TextType::Error)]
    } else {
        Seq::empty()
    };
    let e = spec_bind_expr(*d.expression, scopes, table);
    let sym = declared_symbol(id, spec_bound_expr_type(e.expr), true, scopes);
    BindStmtRes {
        stmt: BStmtV::ConstDecl(
            BoundConstantDeclarationV { variable: sym, expression: e.expr },
        ),
        scopes: scopes.update(0, scopes[0].push(sym)),
        table: spec_insert(table, sym, Option::None),
        diags: d1 + e.diags,
    }
}

/// Binding an `if` statement: the condition must be boolean, and the
/// branches are bound in turn.
#[verifier::opaque]
pub open spec fn spec_bind_if(i: IfStatementV, scopes: Seq<Seq<SymV>>, table: StoreV) ->
    BindStmtRes
    decreases i, 0int, 0int,
{
    let cond = spec_bind_expr_checked(*i.condition, scopes, table, LiteralType::Boolean);
    let then = spec_bind_stmt(*i.then_statement, scopes, table);
    match i.else_clause {
        Option::Some(e) => {
            let els = spec_bind_stmt(*e, then.scopes, then.table);
            BindStmtRes {
                stmt: BStmtV::If(
                    BoundIfStatementV {
                        condition: cond.expr,
                        then_statement: Box::new(then.stmt),
                        else_statement: Option::Some(Box::new(els.stmt)),
                    },
                ),
                scopes: els.scopes,
                table: els.table,
                diags: cond.diags + then.diags + els.diags,
            }
        },
        Option::None => BindStmtRes {
            stmt: BStmtV::If(
                BoundIfStatementV {
                    condition: cond.expr,
                    then_statement: Box::new(then.stmt),
                    else_statement: Option::None,
                },
            ),
            scopes: then.scopes,
            table: then.table,
            diags: cond.diags + then.diags,
        },
    }
}

/// Binding a `while` statement: the condition must be boolean, then
/// the body is bound.
#[verifier::opaque]
pub open spec fn spec_bind_while(w: WhileStatementV, scopes: Seq<Seq<SymV>>, table: StoreV) ->
    BindStmtRes
    decreases w, 0int, 0int,
{
    let cond = spec_bind_expr_checked(*w.condition, scopes, table, LiteralType::Boolean);
    let body = spec_bind_stmt(*w.body, scopes, table);
    BindStmtRes {
        stmt: BStmtV::While(
            BoundWhileStatementV { condition: cond.expr, body: Box::new(body.stmt) },
        ),
        scopes: body.scopes,
        table: body.table,
        diags: cond.diags + body.diags,
    }
}

/// Binding a `for` statement: both bounds must be integers; the loop
/// variable is registered in the current scope (not a fresh one), then
/// the body is bound.
#[verifier::opaque]
pub open spec fn spec_bind_for(f: ForStatementV, scopes: Seq<Seq<SymV>>, table: StoreV) ->
    BindStmtRes
    decreases f, 0int, 0int,
{
    let lo = spec_bind_expr_checked(*f.lower_bound, scopes, table, LiteralType::Integer);
    let hi = spec_bind_expr_checked(*f.upper_bound, scopes, table, LiteralType::Integer);
    let sym = SymV {
        id: f.identifier.name,
        kind: LiteralType::Integer,
        read_only: false,
        is_global: false,
    };
    let table1 = spec_insert(table, sym, Option::None);
    let scopes1 = scopes.update(0, scopes[0].push(sym));
    let body = spec_bind_stmt(*f.body, scopes1, table1);
    BindStmtRes {
        stmt: BStmtV::For(
            BoundForStatementV {
                variable: sym,
                lower_bound: lo.expr,
                upper_bound: hi.expr,
                body: Box::new(body.stmt),
            },
        ),
        scopes: body.scopes,
        table: body.table,
        diags: lo.diags + hi.diags + body.diags,
    }
}

/// The binder: walks the syntax tree with a mutable current scope.
pub struct Binder {
    scope: BoundScope,
}

impl View for Binder {
    type V = Seq<Seq<SymV>>;

    closed spec fn view(&self) -> Seq<Seq<SymV>> {
        self.scope@
    }
}

impl Binder {
    /// A binder starting from a fresh root scope.
    pub fn new() -> (b: Binder)
        ensures
            b@ == seq![Seq::<SymV>::empty()],
    {
        let b = Binder { scope: BoundScope::new(Option::None) };
        proof {
            assert(b@ =~= seq![Seq::<SymV>::empty()]);
        }
        b
    }

    /// Whether a symbol's name is visible along the current scope
    /// chain.
    fn check_scope_of_variable(&self, v: &VariableSymbol) -> (r: bool)
        ensures
            r == visible_in(self@, v@.id),
    {
        let vid = v.id();
        self.scope.has_visible(vid.as_str())
    }

    /// Whether a declaration bound now would sit directly in the
    /// outermost block.
    fn at_global_depth(&self) -> (r: bool)
        ensures
            r == (self@.len() == 2),
    {
        proof {
            lemma_scope_view_len(&self.scope);
        }
        match &self.scope.parent {
            Option::Some(p) => {
                proof {
                    lemma_scope_view_len(&**p);
                    assert(self@.len() == 1 + (**p)@.len());
                }
                match &p.parent {
                    Option::Some(q) => {
                        proof {
                            lemma_scope_view_len(&**q);
                            assert((**p)@.len() == 1 + (**q)@.len());
                        }
                        false
                    },
                    Option::None => true,
                }
            },
            Option::None => false,
        }
    }

    /// Pushes a symbol into the innermost scope frame.
    fn push_symbol(&mut self, v: VariableSymbol)
        ensures
            final(self)@ == old(self)@.update(0, old(self)@[0].push(v@)),
    {
        proof {
            lemma_scope_view_len(&self.scope);
        }
        let ghost oldv = self.scope.variables@;
        self.scope.variables.push(v);
        proof {
            assert(sym_seq_view(self.scope.variables@) =~= sym_seq_view(oldv).push(v@));
            match &self.scope.parent {
                Option::Some(p) => {
                    assert(final(self)@ =~= old(self)@.update(0, old(self)@[0].push(v@)));
                },
                Option::None => {
                    assert(final(self)@ =~= old(self)@.update(0, old(self)@[0].push(v@)));
                },
            }
        }
    }

    /// Opens a fresh scope frame for a block.
    fn enter_scope(&mut self)
        ensures
            final(self)@ == seq![Seq::<SymV>::empty()] + old(self)@,
    {
        let mut taken = BoundScope::new(Option::None);
        core::mem::swap(&mut self.scope, &mut taken);
        self.scope = BoundScope::new(Option::Some(Box::new(taken)));
    }

    /// Closes the innermost scope frame, restoring the enclosing one.
    fn exit_scope(&mut self)
        requires
            old(self)@.len() >= 2,
        ensures
            final(self)@ == old(self)@.drop_first(),
    {
        proof {
            lemma_scope_view_len(&self.scope);
        }
        let mut parent_opt: Option<Box<BoundScope>> = Option::None;
        core::mem::swap(&mut self.scope.parent, &mut parent_opt);
        match parent_opt {
            Option::Some(p) => {
                proof {
                    assert(old(self)@.drop_first() =~= (*p)@);
                }
                self.scope = *p;
            },
            Option::None => {
                proof {
                    assert(false);
                }
            },
        }
    }
}


impl Binder {
    /// Binds a literal expression: its value and type pass through.
    fn bind_literal_expression(&self, literal_expression: &LiteralExpressionSyntax) -> (b:
        BoundExpression)
        ensures
            b@ == spec_bind_literal(literal_expression@),
    {
        let token = literal_expression.get_token();
        let value = token.value().duplicate();
        let t = value.get_type();
        BoundExpression::Literal(
            BoundLiteralExpression::new(value, t, SyntaxKind::NoneMarker),
        )
    }

    /// Binds a name expression: a visible registered name becomes a
    /// deferred variable lookup; anything else is reported undefined.
    fn bind_name_expression(
        &self,
        name_expression: &NameExpressionSyntax,
        table: &SymbolTable,
        diagnostics: &mut Diagnostics,
    ) -> (b: BoundExpression)
        ensures
            ({
                let r = spec_bind_name(name_expression@, self@, table@);
                b@ == r.expr && final(diagnostics)@ == old(diagnostics)@ + r.diags
            }),
    {
        let token = name_expression.get_token();
        let name = token.name();
        let value = token.value().duplicate();
        let key = table.get_key_from_symbol_table(name.as_str());
        match key {
            Option::Some(k) => {
                proof {
                    crate::symbol_table::lemma_find_index(table@, name@);
                }
                if self.check_scope_of_variable(&k) {
                    let t = k.get_type();
                    proof {
                        assert(final(diagnostics)@ =~= old(diagnostics)@
                            + Seq::<DiagV>::empty());
                    }
                    return BoundExpression::Literal(
                        BoundLiteralExpression::new(value, t, SyntaxKind::Variable),
                    );
                }
                diagnostics.report_undefined_name(
                    name,
                    TextSpan::new(token.position(), token.length()),
                    TextPlace::Semantic,
                    TextType::Error,
                );
                let t = value.get_type();
                BoundExpression::Literal(BoundLiteralExpression::new(value, t, SyntaxKind::Error))
            },
            Option::None => {
                diagnostics.report_undefined_name(
                    name,
                    TextSpan::new(token.position(), token.length()),
                    TextPlace::Semantic,
                    TextType::Error,
                );
                let t = value.get_type();
                BoundExpression::Literal(BoundLiteralExpression::new(value, t, SyntaxKind::Error))
            },
        }
    }

    /// Binds a unary operation, falling back to the bound operand when
    /// no operator fits its type.
    fn bind_unary_expression(
        &self,
        unary_expression: &UnaryExpressionSyntax,
        table: &SymbolTable,
        diagnostics: &mut Diagnostics,
    ) -> (b: BoundExpression)
        ensures
            ({
                let r = spec_bind_unary(unary_expression@, self@, table@);
                b@ == r.expr && final(diagnostics)@ == old(diagnostics)@ + r.diags
            }),
        decreases unary_expression, 0int,
    {
        reveal(spec_bind_unary);
        reveal(spec_bind_expr);
        proof {
            lemma_unary_fields(unary_expression);
        }
        let bound_operand = self.bind_expression(&unary_expression.operand, table, diagnostics);
        let operand_type = bound_operand.get_type();
        let operator_token = unary_expression.operator();
        let bound_operator = BoundUnaryOperator::bind(*operator_token.kind(), operand_type);
        match bound_operator {
            Option::Some(operator) => {
                BoundExpression::Unary(
                    BoundUnaryExpression::new(operator, Box::new(bound_operand)),
                )
            },
            Option::None => {
                diagnostics.report_undefined_unary_operator(
                    *operator_token.kind(),
                    operand_type,
                    TextSpan::new(operator_token.position(), operator_token.length()),
                    TextPlace::Semantic,
                    TextType::Error,
                );
                bound_operand
            },
        }
    }

    /// Binds a binary operation, falling back to the bound left operand
    /// when no operator fits the operand types.
    fn bind_binary_expression(
        &self,
        binary_expression: &BinaryExpressionSyntax,
        table: &SymbolTable,
        diagnostics: &mut Diagnostics,
    ) -> (b: BoundExpression)
        ensures
            ({
                let r = spec_bind_binary(binary_expression@, self@, table@);
                b@ == r.expr && final(diagnostics)@ == old(diagnostics)@ + r.diags
            }),
        decreases binary_expression, 0int,
    {
        reveal(spec_bind_binary);
        reveal(spec_bind_expr);
        proof {
            lemma_binary_fields(binary_expression);
        }
        let bound_left = self.bind_expression(&binary_expression.left, table, diagnostics);
        let bound_right = self.bind_expression(&binary_expression.right, table, diagnostics);
        let left_type = bound_left.get_type();
        let right_type = bound_right.get_type();
        let operator_token = binary_expression.get_operator();
        let bound_operator = BoundBinaryOperator::bind(
            *operator_token.kind(),
            left_type,
            right_type,
        );
        match bound_operator {
            Option::Some(operator) => {
                proof {
                    let r = spec_bind_binary(binary_expression@, self@, table@);
                    assert(final(diagnostics)@ =~= old(diagnostics)@ + r.diags);
                }
                BoundExpression::Binary(
                    BoundBinaryExpression::new(
                        Box::new(bound_left),
                        operator,
                        Box::new(bound_right),
                    ),
                )
            },
            Option::None => {
                diagnostics.report_undefined_binary_operator(
                    *operator_token.kind(),
                    left_type,
                    right_type,
                    TextSpan::new(operator_token.position(), operator_token.length()),
                    TextPlace::Semantic,
                    TextType::Error,
                );
                proof {
                    let r = spec_bind_binary(binary_expression@, self@, table@);
                    assert(final(diagnostics)@ =~= old(diagnostics)@ + r.diags);
                }
                bound_left
            },
        }
    }

    /// Binds an expression, dispatching on its node kind.
    fn bind_expression(&self, expression: &Expression, table: &SymbolTable, diagnostics: &mut
        Diagnostics) -> (b: BoundExpression)
        ensures
            ({
                let r = spec_bind_expr(expression@, self@, table@);
                b@ == r.expr && final(diagnostics)@ == old(diagnostics)@ + r.diags
            }),
        decreases expression, 1int,
    {
        reveal(spec_bind_expr);
        reveal(spec_bind_unary);
        reveal(spec_bind_binary);
        match expression {
            Expression::Name(n) => self.bind_name_expression(n, table, diagnostics),
            Expression::Literal(l) => {
                let b = self.bind_literal_expression(l);
                proof {
                    assert(final(diagnostics)@ =~= old(diagnostics)@ + Seq::<DiagV>::empty());
                }
                b
            },
            Expression::Unary(u) => self.bind_unary_expression(u, table, diagnostics),
            Expression::Binary(bx) => self.bind_binary_expression(bx, table, diagnostics),
            Expression::Parenthesized(p) => {
                proof {
                    lemma_paren_fields(p);
                }
                self.bind_parenthesized_expression(p, table, diagnostics)
            },
        }
    }

    /// Binds a parenthesized expression: the parentheses are purely
    /// structural and binding unwraps them.
    fn bind_parenthesized_expression(
        &self,
        parenthesized_expression: &ParenthesizedExpressionSyntax,
        table: &SymbolTable,
        diagnostics: &mut Diagnostics,
    ) -> (b: BoundExpression)
        ensures
            ({
                let r = spec_bind_expr(
                    *parenthesized_expression@.expression,
                    self@,
                    table@,
                );
                b@ == r.expr && final(diagnostics)@ == old(diagnostics)@ + r.diags
            }),
        decreases parenthesized_expression, 0int,
    {
        proof {
            lemma_paren_fields(parenthesized_expression);
        }
        self.bind_expression(&parenthesized_expression.expression, table, diagnostics)
    }

    /// Binds an expression the surrounding construct requires to have a
    /// particular type, reporting a mismatch.
    fn bind_expression_and_check_type(
        &self,
        expression: &Expression,
        table: &SymbolTable,
        diagnostics: &mut Diagnostics,
        target_type: LiteralType,
    ) -> (b: BoundExpression)
        ensures
            ({
                let r = spec_bind_expr_checked(expression@, self@, table@, target_type);
                b@ == r.expr && final(diagnostics)@ == old(diagnostics)@ + r.diags
            }),
    {
        let result = self.bind_expression(expression, table, diagnostics);
        let t = result.get_type();
        if t != target_type {
            diagnostics.report_invalid_literal_type(
                t,
                target_type,
                TextSpan::new(0, 2),
                TextPlace::Semantic,
                TextType::Error,
            );
        }
        result
    }
}


impl Binder {
    /// Binds one statement, dispatching on its node kind.
    pub fn bind_statement(&mut self, statement: &Statement, table: &mut SymbolTable,
        diagnostics: &mut Diagnostics) -> (b: BoundStatement)
        ensures
            ({
                let r = spec_bind_stmt(statement@, old(self)@, old(table)@);
                b@ == r.stmt && final(self)@ == r.scopes && final(table)@ == r.table && final(diagnostics)@ == old(diagnostics)@ + r.diags
            }),
        decreases statement, 0int, 1int,
    {
        reveal(spec_bind_stmt);
        reveal(spec_bind_list);
        reveal(spec_bind_if);
        reveal(spec_bind_while);
        reveal(spec_bind_for);
        match statement {
            Statement::List(l) => self.bind_statement_list(l, table, diagnostics),
            Statement::Assign(a) => self.bind_assignment(a, table, diagnostics),
            Statement::VarDecl(d) => self.bind_variable_declaration(d, table, diagnostics),
            Statement::ConstDecl(d) => self.bind_constant_declaration(d, table, diagnostics),
            Statement::If(i) => self.bind_if_statement(i, table, diagnostics),
            Statement::Else(e) => self.bind_else_statement(e, table, diagnostics),
            Statement::While(w) => self.bind_while_statement(w, table, diagnostics),
            Statement::For(f) => self.bind_for_statement(f, table, diagnostics),
        }
    }

    /// Binds the statements of a block from `idx` on into `out`.
    fn bind_statements(
        &mut self,
        statements: &Vec<Statement>,
        idx: usize,
        out: &mut Vec<BoundStatement>,
        table: &mut SymbolTable,
        diagnostics: &mut Diagnostics,
    )
        ensures
            ({
                let r = spec_bind_stmts(
                    stmt_seq_view(statements@),
                    idx as int,
                    old(self)@,
                    old(table)@,
                );
                bstmt_seq_view(final(out)@) == bstmt_seq_view(old(out)@) + r.stmts && final(self)@ == r.scopes && final(table)@ == r.table && final(diagnostics)@ == old(
                    diagnostics,
                )@ + r.diags
            }),
        decreases statements, statements@.len() - idx, 2int,
    {
        reveal(spec_bind_stmts);
        reveal(spec_bind_stmt);
        proof {
            lemma_stmt_seq_view_index(statements@);
        }
        if idx >= statements.len() {
            proof {
                assert(bstmt_seq_view(final(out)@) =~= bstmt_seq_view(old(out)@)
                    + Seq::<BStmtV>::empty());
                assert(final(diagnostics)@ =~= old(diagnostics)@ + Seq::<DiagV>::empty());
            }
            return ;
        }
        proof {
            broadcast use vstd::seq::axiom_seq_index_decreases;

            assert(decreases_to!(statements => statements@[idx as int]));
        }
        let first = self.bind_statement(&statements[idx], table, diagnostics);
        out.push(first);
        proof {
            lemma_bstmt_seq_view_push(old(out)@, first);
        }
        self.bind_statements(statements, idx + 1, out, table, diagnostics);
        proof {
            let r = spec_bind_stmts(
                stmt_seq_view(statements@),
                idx as int,
                old(self)@,
                old(table)@,
            );
            assert(bstmt_seq_view(final(out)@) =~= bstmt_seq_view(old(out)@) + r.stmts);
            assert(final(diagnostics)@ =~= old(diagnostics)@ + r.diags);
        }
    }

    /// Binds a block: a fresh scope frame is opened, the statements are
    /// bound, and the frame is discarded when the block closes.
    fn bind_statement_list(&mut self, statement_list: &StatementList, table: &mut SymbolTable,
        diagnostics: &mut Diagnostics) -> (b: BoundStatement)
        ensures
            ({
                let r = spec_bind_list(statement_list@, old(self)@, old(table)@);
                b@ == r.stmt && final(self)@ == r.scopes && final(table)@ == r.table && final(diagnostics)@ == old(diagnostics)@ + r.diags
            }),
        decreases statement_list, 0int, 0int,
    {
        reveal(spec_bind_list);
        reveal(spec_bind_stmts);
        reveal(spec_bind_stmt);
        proof {
            lemma_statement_list_fields(statement_list);
        }
        self.enter_scope();
        let mut statements: Vec<BoundStatement> = Vec::new();
        proof {
            assert(bstmt_seq_view(statements@) =~= Seq::<BStmtV>::empty());
        }
        self.bind_statements(&statement_list.statements, 0, &mut statements, table, diagnostics);
        proof {
            let pushed = seq![Seq::<SymV>::empty()] + old(self)@;
            lemma_bind_stmts_frames(
                stmt_seq_view(statement_list.statements@),
                0,
                pushed,
                old(table)@,
            );
            assert(self@.len() >= 2);
        }
        self.exit_scope();
        BoundStatement::List(BoundStatementList::new(statements))
    }

    /// Binds an assignment: the name must be registered and visible and
    /// not constant; the symbol is re-registered typed from the
    /// right-hand side.
    fn bind_assignment(&mut self, assignment: &Assignment, table: &mut SymbolTable,
        diagnostics: &mut Diagnostics) -> (b: BoundStatement)
        ensures
            ({
                let r = spec_bind_assignment(assignment@, old(self)@, old(table)@);
                b@ == r.stmt && final(self)@ == r.scopes && final(table)@ == r.table && final(diagnostics)@ == old(diagnostics)@ + r.diags
            }),
        decreases assignment, 0int, 0int,
    {
        let token = assignment.get_variable();
        let name = token.name();
        let key = table.get_key_from_symbol_table(name.as_str());
        proof {
            crate::symbol_table::lemma_find_index(table@, name@);
        }
        let declared_visible = match &key {
            Option::Some(k) => self.check_scope_of_variable(k),
            Option::None => false,
        };
        if !declared_visible {
            diagnostics.report_variable_not_declared(
                token.name(),
                TextSpan::new(token.position(), token.length()),
                TextPlace::Semantic,
                TextType::Error,
            );
        }
        let redefines_constant = match &key {
            Option::Some(k) => k.is_read_only() && declared_visible,
            Option::None => false,
        };
        if redefines_constant {
            diagnostics.report_constant_redefined(
                token.name(),
                TextSpan::new(token.position(), token.length()),
                TextPlace::Semantic,
                TextType::Error,
            );
        }
        let expr = self.bind_expression(assignment.get_expression(), table, diagnostics);
        let t = expr.get_type();
        let is_global = self.at_global_depth();
        let variable = VariableSymbol::new(token.name(), t, false, is_global);
        table.insert_into_symbol_table(&variable, Option::None);
        self.push_symbol(variable.duplicate());
        proof {
            let r = spec_bind_assignment(assignment@, old(self)@, old(table)@);
            assert(final(diagnostics)@ =~= old(diagnostics)@ + r.diags);
        }
        BoundStatement::Assign(BoundAssignment::new(variable, expr))
    }

    /// Binds a `let` declaration: an already visible name is reported,
    /// then the symbol is registered typed from its initializer.
    fn bind_variable_declaration(
        &mut self,
        variable_declaration: &VariableDeclaration,
        table: &mut SymbolTable,
        diagnostics: &mut Diagnostics,
    ) -> (b: BoundStatement)
        ensures
            ({
                let r = spec_bind_variable_declaration(
                    variable_declaration@,
                    old(self)@,
                    old(table)@,
                );
                b@ == r.stmt && final(self)@ == r.scopes && final(table)@ == r.table && final(diagnostics)@ == old(diagnostics)@ + r.diags
            }),
        decreases variable_declaration, 0int, 0int,
    {
        let token = variable_declaration.get_variable();
        let name = token.name();
        let key = table.get_key_from_symbol_table(name.as_str());
        proof {
            crate::symbol_table::lemma_find_index(table@, name@);
        }
        let already = match &key {
            Option::Some(k) => self.check_scope_of_variable(k),
            Option::None => false,
        };
        if already {
            diagnostics.report_variable_already_declared(
                token.name(),
                TextSpan::new(token.position(), token.length()),
                TextPlace::Semantic,
                TextType::Error,
            );
        }
        let expr = self.bind_expression(
            variable_declaration.get_expression(),
            table,
            diagnostics,
        );
        let t = expr.get_type();
        let is_global = self.at_global_depth();
        let variable = VariableSymbol::new(token.name(), t, false, is_global);
        table.insert_into_symbol_table(&variable, Option::None);
        self.push_symbol(variable.duplicate());
        proof {
            let r = spec_bind_variable_declaration(
                variable_declaration@,
                old(self)@,
                old(table)@,
            );
            assert(final(diagnostics)@ =~= old(diagnostics)@ + r.diags);
        }
        BoundStatement::VarDecl(BoundVariableDeclaration::new(variable, expr))
    }

    /// Binds a `const` declaration: as a `let`, but the symbol is
    /// marked read-only.
    fn bind_constant_declaration(
        &mut self,
        constant_declaration: &ConstantDeclaration,
        table: &mut SymbolTable,
        diagnostics: &mut Diagnostics,
    ) -> (b: BoundStatement)
        ensures
            ({
                let r = spec_bind_constant_declaration(
                    constant_declaration@,
                    old(self)@,
                    old(table)@,
                );
                b@ == r.stmt && final(self)@ == r.scopes && final(table)@ == r.table && final(diagnostics)@ == old(diagnostics)@ + r.diags
            }),
        decreases constant_declaration, 0int, 0int,
    {
        let token = constant_declaration.get_variable();
        let name = token.name();
        let key = table.get_key_from_symbol_table(name.as_str());
        proof {
            crate::symbol_table::lemma_find_index(table@, name@);
        }
        let already = match &key {
            Option::Some(k) => self.check_scope_of_variable(k),
            Option::None => false,
        };
        if already {
            diagnostics.report_variable_already_declared(
                token.name(),
                TextSpan::new(token.position(), token.length()),
                TextPlace::Semantic,
                TextType::Error,
            );
        }
        let expr = self.bind_expression(
            constant_declaration.get_expression(),
            table,
            diagnostics,
        );
        let t = expr.get_type();
        let is_global = self.at_global_depth();
        let variable = VariableSymbol::new(token.name(), t, true, is_global);
        table.insert_into_symbol_table(&variable, Option::None);
        self.push_symbol(variable.duplicate());
        proof {
            let r = spec_bind_constant_declaration(
                constant_declaration@,
                old(self)@,
                old(table)@,
            );
            assert(final(diagnostics)@ =~= old(diagnostics)@ + r.diags);
        }
        BoundStatement::ConstDecl(BoundConstantDeclaration::new(variable, expr))
    }

    /// Binds an `if` statement: the condition must be boolean, then the
    /// branches are bound.
    fn bind_if_statement(&mut self, if_statement: &IfStatement, table: &mut SymbolTable,
        diagnostics: &mut Diagnostics) -> (b: BoundStatement)
        ensures
            ({
                let r = spec_bind_if(if_statement@, old(self)@, old(table)@);
                b@ == r.stmt && final(self)@ == r.scopes && final(table)@ == r.table && final(diagnostics)@ == old(diagnostics)@ + r.diags
            }),
        decreases if_statement, 0int, 0int,
    {
        reveal(spec_bind_if);
        reveal(spec_bind_stmt);
        proof {
            lemma_if_fields(if_statement);
        }
        let condition = self.bind_expression_and_check_type(
            if_statement.get_condition(),
            table,
            diagnostics,
            LiteralType::Boolean,
        );
        let then_statement = self.bind_statement(
            &if_statement.then_statement,
            table,
            diagnostics,
        );
        match &if_statement.else_clause {
            Option::Some(e) => {
                let else_statement = self.bind_statement(&**e, table, diagnostics);
                proof {
                    let r = spec_bind_if(if_statement@, old(self)@, old(table)@);
                    assert(final(diagnostics)@ =~= old(diagnostics)@ + r.diags);
                }
                BoundStatement::If(
                    BoundIfStatement::new(
                        condition,
                        Box::new(then_statement),
                        Option::Some(Box::new(else_statement)),
                    ),
                )
            },
            Option::None => {
                proof {
                    let r = spec_bind_if(if_statement@, old(self)@, old(table)@);
                    assert(final(diagnostics)@ =~= old(diagnostics)@ + r.diags);
                }
                BoundStatement::If(
                    BoundIfStatement::new(condition, Box::new(then_statement), Option::None),
                )
            },
        }
    }

    /// Binds an `else` clause by binding its block.
    fn bind_else_statement(&mut self, else_statement: &ElseStatement, table: &mut SymbolTable,
        diagnostics: &mut Diagnostics) -> (b: BoundStatement)
        ensures
            ({
                let r = spec_bind_stmt(
                    *else_statement@.statement_list,
                    old(self)@,
                    old(table)@,
                );
                b@ == r.stmt && final(self)@ == r.scopes && final(table)@ == r.table && final(diagnostics)@ == old(diagnostics)@ + r.diags
            }),
        decreases else_statement, 0int, 0int,
    {
        proof {
            lemma_else_fields(else_statement);
        }
        self.bind_statement(&else_statement.statement_list, table, diagnostics)
    }

    /// Binds a `while` statement: the condition must be boolean, then
    /// the body is bound.
    fn bind_while_statement(&mut self, while_statement: &WhileStatement, table: &mut
        SymbolTable, diagnostics: &mut Diagnostics) -> (b: BoundStatement)
        ensures
            ({
                let r = spec_bind_while(while_statement@, old(self)@, old(table)@);
                b@ == r.stmt && final(self)@ == r.scopes && final(table)@ == r.table && final(diagnostics)@ == old(diagnostics)@ + r.diags
            }),
        decreases while_statement, 0int, 0int,
    {
        reveal(spec_bind_while);
        reveal(spec_bind_stmt);
        proof {
            lemma_while_fields(while_statement);
        }
        let condition = self.bind_expression_and_check_type(
            while_statement.get_condition(),
            table,
            diagnostics,
            LiteralType::Boolean,
        );
        let body = self.bind_statement(&while_statement.body, table, diagnostics);
        proof {
            let r = spec_bind_while(while_statement@, old(self)@, old(table)@);
            assert(final(diagnostics)@ =~= old(diagnostics)@ + r.diags);
        }
        BoundStatement::While(BoundWhileStatement::new(condition, Box::new(body)))
    }

    /// Binds a `for` statement: both bounds must be integers; the loop
    /// variable is registered in the current scope, then the body is
    /// bound.
    fn bind_for_statement(&mut self, for_statement: &ForStatement, table: &mut SymbolTable,
        diagnostics: &mut Diagnostics) -> (b: BoundStatement)
        ensures
            ({
                let r = spec_bind_for(for_statement@, old(self)@, old(table)@);
                b@ == r.stmt && final(self)@ == r.scopes && final(table)@ == r.table && final(diagnostics)@ == old(diagnostics)@ + r.diags
            }),
        decreases for_statement, 0int, 0int,
    {
        reveal(spec_bind_for);
        reveal(spec_bind_stmt);
        proof {
            lemma_for_fields(for_statement);
        }
        let lower_bound = self.bind_expression_and_check_type(
            for_statement.get_lower_bound(),
            table,
            diagnostics,
            LiteralType::Integer,
        );
        let upper_bound = self.bind_expression_and_check_type(
            for_statement.get_upper_bound(),
            table,
            diagnostics,
            LiteralType::Integer,
        );
        let name = for_statement.get_identifier().name();
        let variable = VariableSymbol::new(name, LiteralType::Integer, false, false);
        table.insert_into_symbol_table(&variable, Option::None);
        self.push_symbol(variable.duplicate());
        let body = self.bind_statement(&for_statement.body, table, diagnostics);
        proof {
            let r = spec_bind_for(for_statement@, old(self)@, old(table)@);
            assert(final(diagnostics)@ =~= old(diagnostics)@ + r.diags);
        }
        BoundStatement::For(
            BoundForStatement::new(variable, lower_bound, upper_bound, Box::new(body)),
        )
    }
}

/// Binding a statement preserves the number of scope frames and leaves
/// every frame but the innermost unchanged; in particular a name
/// declared inside a block is gone once the block closes.
pub proof fn lemma_bind_stmt_frames(s: StmtV, scopes: Seq<Seq<SymV>>, table: StoreV)
    requires
        scopes.len() >= 1,
    ensures
        spec_bind_stmt(s, scopes, table).scopes.len() == scopes.len(),
        spec_bind_stmt(s, scopes, table).scopes.drop_first() == scopes.drop_first(),
    decreases s, 0int, 1int,
{
    reveal(spec_bind_stmt);
    reveal(spec_bind_list);
    reveal(spec_bind_if);
    reveal(spec_bind_while);
    reveal(spec_bind_for);
    match s {
        StmtV::List(l) => {
            lemma_frames_list(l, scopes, table);
        },
        StmtV::Assign(a) => {
            let r = spec_bind_assignment(a, scopes, table);
            assert(r.scopes.drop_first() =~= scopes.drop_first());
        },
        StmtV::VarDecl(d) => {
            let r = spec_bind_variable_declaration(d, scopes, table);
            assert(r.scopes.drop_first() =~= scopes.drop_first());
        },
        StmtV::ConstDecl(d) => {
            let r = spec_bind_constant_declaration(d, scopes, table);
            assert(r.scopes.drop_first() =~= scopes.drop_first());
        },
        StmtV::If(i) => {
            lemma_frames_if(i, scopes, table);
        },
        StmtV::Else(e) => {
            lemma_bind_stmt_frames(*e.statement_list, scopes, table);
        },
        StmtV::While(w) => {
            lemma_frames_while(w, scopes, table);
        },
        StmtV::For(f) => {
            lemma_frames_for(f, scopes, table);
        },
    }
}

/// Binding a block leaves the whole scope chain exactly as it was.
pub proof fn lemma_frames_list(l: StatementListV, scopes: Seq<Seq<SymV>>, table: StoreV)
    requires
        scopes.len() >= 1,
    ensures
        spec_bind_list(l, scopes, table).scopes == scopes,
    decreases l, 0int, 0int,
{
    reveal(spec_bind_list);
    reveal(spec_bind_stmts);
    let pushed = seq![Seq::<SymV>::empty()] + scopes;
    lemma_bind_stmts_frames(l.statements, 0, pushed, table);
    let inner = spec_bind_stmts(l.statements, 0, pushed, table);
    assert(pushed.drop_first() =~= scopes);
    assert(spec_bind_list(l, scopes, table).scopes =~= scopes);
}

/// Binding an `if` statement preserves the frames.
proof fn lemma_frames_if(i: IfStatementV, scopes: Seq<Seq<SymV>>, table: StoreV)
    requires
        scopes.len() >= 1,
    ensures
        spec_bind_if(i, scopes, table).scopes.len() == scopes.len(),
        spec_bind_if(i, scopes, table).scopes.drop_first() == scopes.drop_first(),
    decreases i, 0int, 0int,
{
    reveal(spec_bind_if);
    reveal(spec_bind_stmt);
    lemma_bind_stmt_frames(*i.then_statement, scopes, table);
    let then = spec_bind_stmt(*i.then_statement, scopes, table);
    match i.else_clause {
        Option::Some(e) => {
            lemma_bind_stmt_frames(*e, then.scopes, then.table);
        },
        Option::None => {},
    }
}

/// Binding a `while` statement preserves the frames.
proof fn lemma_frames_while(w: WhileStatementV, scopes: Seq<Seq<SymV>>, table: StoreV)
    requires
        scopes.len() >= 1,
    ensures
        spec_bind_while(w, scopes, table).scopes.len() == scopes.len(),
        spec_bind_while(w, scopes, table).scopes.drop_first() == scopes.drop_first(),
    decreases w, 0int, 0int,
{
    reveal(spec_bind_while);
    reveal(spec_bind_stmt);
    lemma_bind_stmt_frames(*w.body, scopes, table);
}

/// Binding a `for` statement preserves the frames.
proof fn lemma_frames_for(f: ForStatementV, scopes: Seq<Seq<SymV>>, table: StoreV)
    requires
        scopes.len() >= 1,
    ensures
        spec_bind_for(f, scopes, table).scopes.len() == scopes.len(),
        spec_bind_for(f, scopes, table).scopes.drop_first() == scopes.drop_first(),
    decreases f, 0int, 0int,
{
    reveal(spec_bind_for);
    reveal(spec_bind_stmt);
    let sym = SymV {
        id: f.identifier.name,
        kind: LiteralType::Integer,
        read_only: false,
        is_global: false,
    };
    let table1 = spec_insert(table, sym, Option::None);
    let scopes1 = scopes.update(0, scopes[0].push(sym));
    assert(scopes1.len() == scopes.len());
    assert(scopes1.drop_first() =~= scopes.drop_first());
    lemma_bind_stmt_frames(*f.body, scopes1, table1);
}

/// Binding a run of statements preserves the number of scope frames and
/// leaves every frame but the innermost unchanged.
pub proof fn lemma_bind_stmts_frames(ss: Seq<StmtV>, i: int, scopes: Seq<Seq<SymV>>, table:
    StoreV)
    requires
        scopes.len() >= 1,
    ensures
        spec_bind_stmts(ss, i, scopes, table).scopes.len() == scopes.len(),
        spec_bind_stmts(ss, i, scopes, table).scopes.drop_first() == scopes.drop_first(),
    decreases ss, ss.len() - i, 2int,
{
    reveal(spec_bind_stmts);
    reveal(spec_bind_stmt);
    if 0 <= i < ss.len() {
        lemma_bind_stmt_frames(ss[i], scopes, table);
        let first = spec_bind_stmt(ss[i], scopes, table);
        lemma_bind_stmts_frames(ss, i + 1, first.scopes, first.table);
    }
}

} // verus!
