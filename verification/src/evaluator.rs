//! The evaluator: walks the typed tree and mutates the variable store.
//!
//! Evaluation is hardened against the runtime failures that binding
//! cannot rule out: division by zero, arithmetic overflow, a variable
//! read before any value was stored for it, and a stored value of the
//! wrong runtime type all stop evaluation with a fault instead of
//! crashing. Loops run against a fuel bound so that every run
//! terminates; the bound is astronomically large in ordinary use.

use vstd::prelude::*;

use crate::bound_tree::BExprV;
use crate::bound_tree::BStmtV;
use crate::bound_tree::BoundBinaryExpression;
use crate::bound_tree::BoundBinaryOperatorKind;
use crate::bound_tree::BoundExpression;
use crate::bound_tree::BoundForStatement;
use crate::bound_tree::BoundForStatementV;
use crate::bound_tree::BoundIfStatement;
use crate::bound_tree::BoundIfStatementV;
use crate::bound_tree::BoundLiteralExpression;
use crate::bound_tree::BoundStatement;
use crate::bound_tree::BoundStatementList;
use crate::bound_tree::BoundStatementListV;
use crate::bound_tree::BoundUnaryExpression;
use crate::bound_tree::BoundUnaryOperatorKind;
use crate::bound_tree::BoundWhileStatement;
use crate::bound_tree::BoundWhileStatementV;
use crate::bound_tree::bstmt_seq_view;
use crate::bound_tree::lemma_bound_binary_fields;
use crate::bound_tree::lemma_bound_for_fields;
use crate::bound_tree::lemma_bound_if_fields;
use crate::bound_tree::lemma_bound_list_fields;
use crate::bound_tree::lemma_bound_unary_fields;
use crate::bound_tree::lemma_bound_while_fields;
use crate::literals::LiteralValue;
use crate::literals::LiteralValueV;
use crate::symbol_table::StoreV;
use crate::symbol_table::SymbolTable;
use crate::symbol_table::spec_insert;
use crate::symbol_table::spec_value_of;
use crate::syntax_kind::SyntaxKind;
use crate::variable_symbol::VariableSymbol;

verus! {

/// A runtime failure that stops evaluation.
#[derive(Clone, Copy, PartialEq, Eq, Structural, Debug)]
pub enum EvalFault {
    /// A division's right operand was zero.
    DivideByZero,
    /// An arithmetic result fell outside the 32-bit integer range.
    Overflow,
    /// A variable was read before any value was stored for it.
    MissingValue,
    /// A stored or computed value had the wrong runtime type.
    TypeMismatch,
    /// The step bound was exhausted by a long-running loop.
    OutOfFuel,
}

/// Truncating integer division, as machine division behaves.
pub open spec fn spec_trunc_div(x: int, d: int) -> int {
    if x == 0 {
        0
    } else if x > 0 && d > 0 {
        x / d
    } else if x < 0 && d < 0 {
        (x * -1) / (d * -1)
    } else if x < 0 {
        ((x * -1) / d) * -1
    } else {
        (x / (d * -1)) * -1
    }
}

/// Evaluating an expression against a store: a value, or the first
/// fault met.
#[verifier::opaque]
pub open spec fn spec_eval_expr(e: BExprV, store: StoreV) -> Result<LiteralValueV, EvalFault>
    decreases e,
{
    match e {
        BExprV::Literal(l) => {
            if l.kind == SyntaxKind::Variable {
                match l.value {
                    LiteralValueV::Str(name) => match spec_value_of(store, name) {
                        Option::Some(Option::Some(v)) => Result::Ok(v),
                        Option::Some(Option::None) => Result::Err(EvalFault::MissingValue),
                        Option::None => Result::Err(EvalFault::MissingValue),
                    },
                    _ => Result::Err(EvalFault::TypeMismatch),
                }
            } else {
                Result::Ok(l.value)
            }
        },
        BExprV::Unary(u) => {
            match spec_eval_expr(*u.operand, store) {
                Result::Err(f) => Result::Err(f),
                Result::Ok(v) => match u.operator.kind {
                    BoundUnaryOperatorKind::Identity => match v {
                        LiteralValueV::Integer(i) => Result::Ok(LiteralValueV::Integer(i)),
                        _ => Result::Err(EvalFault::TypeMismatch),
                    },
                    BoundUnaryOperatorKind::Negation => match v {
                        LiteralValueV::Integer(i) => {
                            if -i > i32::MAX {
                                Result::Err(EvalFault::Overflow)
                            } else {
                                Result::Ok(LiteralValueV::Integer(-i))
                            }
                        },
                        _ => Result::Err(EvalFault::TypeMismatch),
                    },
                    BoundUnaryOperatorKind::LogicalNegation => match v {
                        LiteralValueV::Boolean(b) => Result::Ok(LiteralValueV::Boolean(b)),
                        _ => Result::Err(EvalFault::TypeMismatch),
                    },
                },
            }
        },
        BExprV::Binary(b) => {
            match spec_eval_expr(*b.left, store) {
                Result::Err(f) => Result::Err(f),
                Result::Ok(lv) => match spec_eval_expr(*b.right, store) {
                    Result::Err(f) => Result::Err(f),
                    Result::Ok(rv) => spec_apply_binary(b.operator.kind, lv, rv),
                },
            }
        },
    }
}

/// Applying a resolved binary operation to two runtime values.
pub open spec fn spec_apply_binary(
    kind: BoundBinaryOperatorKind,
    lv: LiteralValueV,
    rv: LiteralValueV,
) -> Result<LiteralValueV, EvalFault> {
    match kind {
        BoundBinaryOperatorKind::Addition => spec_int_arith(lv, rv, true, false),
        BoundBinaryOperatorKind::Subtraction => spec_int_arith(lv, rv, false, false),
        BoundBinaryOperatorKind::Multiplication => spec_int_arith(lv, rv, false, true),
        BoundBinaryOperatorKind::Division => {
            match (lv, rv) {
                (LiteralValueV::Integer(i), LiteralValueV::Integer(j)) => {
                    if j == 0 {
                        Result::Err(EvalFault::DivideByZero)
                    } else {
                        let q = spec_trunc_div(i, j);
                        if q > i32::MAX || q < i32::MIN {
                            Result::Err(EvalFault::Overflow)
                        } else {
                            Result::Ok(LiteralValueV::Integer(q))
                        }
                    }
                },
                _ => Result::Err(EvalFault::TypeMismatch),
            }
        },
        BoundBinaryOperatorKind::LogicalAnd => {
            match (lv, rv) {
                (LiteralValueV::Boolean(a), LiteralValueV::Boolean(b)) => Result::Ok(
                    LiteralValueV::Boolean(a && b),
                ),
                _ => Result::Err(EvalFault::TypeMismatch),
            }
        },
        BoundBinaryOperatorKind::LogicalOr => {
            match (lv, rv) {
                (LiteralValueV::Boolean(a), LiteralValueV::Boolean(b)) => Result::Ok(
                    LiteralValueV::Boolean(a || b),
                ),
                _ => Result::Err(EvalFault::TypeMismatch),
            }
        },
        BoundBinaryOperatorKind::Equals => spec_equality(lv, rv, true),
        BoundBinaryOperatorKind::NotEquals => spec_equality(lv, rv, false),
        BoundBinaryOperatorKind::Less => spec_int_compare(lv, rv, 0),
        BoundBinaryOperatorKind::LessOrEquals => spec_int_compare(lv, rv, 1),
        BoundBinaryOperatorKind::Greater => spec_int_compare(lv, rv, 2),
        BoundBinaryOperatorKind::GreaterOrEquals => spec_int_compare(lv, rv, 3),
    }
}

/// Integer addition, subtraction or multiplication, faulting outside
/// the 32-bit range.
pub open spec fn spec_int_arith(lv: LiteralValueV, rv: LiteralValueV, plus: bool, times:
    bool) -> Result<LiteralValueV, EvalFault> {
    match (lv, rv) {
        (LiteralValueV::Integer(i), LiteralValueV::Integer(j)) => {
            let n = if times {
                i * j
            } else if plus {
                i + j
            } else {
                i - j
            };
            if n > i32::MAX || n < i32::MIN {
                Result::Err(EvalFault::Overflow)
            } else {
                Result::Ok(LiteralValueV::Integer(n))
            }
        },
        _ => Result::Err(EvalFault::TypeMismatch),
    }
}

/// Equality comparison, dispatched on the left operand's runtime type
/// as the evaluator does.
pub open spec fn spec_equality(lv: LiteralValueV, rv: LiteralValueV, eq: bool) -> Result<
    LiteralValueV,
    EvalFault,
> {
    match lv {
        LiteralValueV::Boolean(a) => match rv {
            LiteralValueV::Boolean(b) => Result::Ok(
                LiteralValueV::Boolean(if eq {
                    a == b
                } else {
                    a != b
                }),
            ),
            _ => Result::Err(EvalFault::TypeMismatch),
        },
        LiteralValueV::Integer(a) => match rv {
            LiteralValueV::Integer(b) => Result::Ok(
                LiteralValueV::Boolean(if eq {
                    a == b
                } else {
                    a != b
                }),
            ),
            _ => Result::Err(EvalFault::TypeMismatch),
        },
        LiteralValueV::Str(_) => Result::Err(EvalFault::TypeMismatch),
    }
}

/// An integer ordering comparison; `mode` picks among the four
/// relations in source order.
pub open spec fn spec_int_compare(lv: LiteralValueV, rv: LiteralValueV, mode: int) -> Result<
    LiteralValueV,
    EvalFault,
> {
    match (lv, rv) {
        (LiteralValueV::Integer(i), LiteralValueV::Integer(j)) => Result::Ok(
            LiteralValueV::Boolean(
                if mode == 0 {
                    i < j
                } else if mode == 1 {
                    i <= j
                } else if mode == 2 {
                    i > j
                } else {
                    i >= j
                },
            ),
        ),
        _ => Result::Err(EvalFault::TypeMismatch),
    }
}

/// The number of iterations a `for` statement will run against a
/// store, as far as its bounds evaluate to integers.
pub open spec fn spec_for_range(f: BoundForStatementV, store: StoreV) -> int {
    match (spec_eval_expr(f.lower_bound, store), spec_eval_expr(f.upper_bound, store)) {
        (Result::Ok(LiteralValueV::Integer(lo)), Result::Ok(LiteralValueV::Integer(hi))) => {
            if lo <= hi {
                hi - lo
            } else {
                0
            }
        },
        _ => 0,
    }
}

/// Evaluating one statement: the store afterwards, or the first fault.
#[verifier::opaque]
pub open spec fn spec_eval_stmt(s: BStmtV, store: StoreV, fuel: nat) -> Result<
    StoreV,
    EvalFault,
>
    decreases fuel, s, 0int, 1int,
{
    match s {
        BStmtV::List(l) => spec_eval_list(l, store, fuel),
        BStmtV::Assign(a) => {
            match spec_eval_expr(a.expression, store) {
                Result::Ok(v) => Result::Ok(
                    spec_insert(store, a.variable, Option::Some(v)),
                ),
                Result::Err(f) => Result::Err(f),
            }
        },
        BStmtV::VarDecl(d) => {
            match spec_eval_expr(d.expression, store) {
                Result::Ok(v) => Result::Ok(
                    spec_insert(store, d.variable, Option::Some(v)),
                ),
                Result::Err(f) => Result::Err(f),
            }
        },
        BStmtV::ConstDecl(d) => {
            match spec_eval_expr(d.expression, store) {
                Result::Ok(v) => Result::Ok(
                    spec_insert(store, d.variable, Option::Some(v)),
                ),
                Result::Err(f) => Result::Err(f),
            }
        },
        BStmtV::If(i) => spec_eval_if(i, store, fuel),
        BStmtV::While(w) => spec_eval_while(w, store, fuel),
        BStmtV::For(f) => spec_eval_for(f, store, fuel),
    }
}

/// Evaluating the statements of a list from index `i` on.
#[verifier::opaque]
pub open spec fn spec_eval_stmts(ss: Seq<BStmtV>, i: int, store: StoreV, fuel: nat) -> Result<
    StoreV,
    EvalFault,
>
    decreases fuel, ss, ss.len() - i, 2int,
{
    if 0 <= i < ss.len() {
        match spec_eval_stmt(ss[i], store, fuel) {
            Result::Ok(store1) => spec_eval_stmts(ss, i + 1, store1, fuel),
            Result::Err(f) => Result::Err(f),
        }
    } else {
        Result::Ok(store)
    }
}

/// Evaluating a statement list in sequence.
#[verifier::opaque]
pub open spec fn spec_eval_list(l: BoundStatementListV, store: StoreV, fuel: nat) -> Result<
    StoreV,
    EvalFault,
>
    decreases fuel, l, 0int, 0int,
{
    spec_eval_stmts(l.statements, 0, store, fuel)
}

/// Evaluating an `if` statement: the branch picked by the boolean
/// condition runs, or nothing when it is false and no else branch
/// exists.
#[verifier::opaque]
pub open spec fn spec_eval_if(i: BoundIfStatementV, store: StoreV, fuel: nat) -> Result<
    StoreV,
    EvalFault,
>
    decreases fuel, i, 0int, 0int,
{
    match spec_eval_expr(i.condition, store) {
        Result::Err(f) => Result::Err(f),
        Result::Ok(LiteralValueV::Boolean(c)) => {
            if c {
                spec_eval_stmt(*i.then_statement, store, fuel)
            } else {
                match i.else_statement {
                    Option::Some(e) => spec_eval_stmt(*e, store, fuel),
                    Option::None => Result::Ok(store),
                }
            }
        },
        Result::Ok(_) => Result::Err(EvalFault::TypeMismatch),
    }
}

/// Evaluating a `while` statement: the condition is re-evaluated before
/// each pass; each pass costs one unit of fuel.
#[verifier::opaque]
pub open spec fn spec_eval_while(w: BoundWhileStatementV, store: StoreV, fuel: nat) -> Result<
    StoreV,
    EvalFault,
>
    decreases fuel, w, 0int, 0int,
{
    match spec_eval_expr(w.condition, store) {
        Result::Err(f) => Result::Err(f),
        Result::Ok(LiteralValueV::Boolean(c)) => {
            if !c {
                Result::Ok(store)
            } else if fuel == 0 {
                Result::Err(EvalFault::OutOfFuel)
            } else {
                match spec_eval_stmt(*w.body, store, (fuel - 1) as nat) {
                    Result::Ok(store1) => spec_eval_while(w, store1, (fuel - 1) as nat),
                    Result::Err(f) => Result::Err(f),
                }
            }
        },
        Result::Ok(_) => Result::Err(EvalFault::TypeMismatch),
    }
}

/// Running the iterations of a `for` statement from `i` (inclusive) to
/// `hi` (exclusive): the loop variable is stored before each pass.
#[verifier::opaque]
pub open spec fn spec_eval_for_iter(
    f: BoundForStatementV,
    i: int,
    hi: int,
    store: StoreV,
    fuel: nat,
) -> Result<StoreV, EvalFault>
    decreases fuel, f, (if i <= hi { hi - i } else { 0 }), 3int,
{
    if i < hi {
        let store1 = spec_insert(store, f.variable, Option::Some(LiteralValueV::Integer(i)));
        match spec_eval_stmt(*f.body, store1, fuel) {
            Result::Ok(store2) => spec_eval_for_iter(f, i + 1, hi, store2, fuel),
            Result::Err(fault) => Result::Err(fault),
        }
    } else {
        Result::Ok(store)
    }
}

/// Evaluating a `for` statement: both bounds are evaluated once, then
/// the iterations run.
#[verifier::opaque]
pub open spec fn spec_eval_for(f: BoundForStatementV, store: StoreV, fuel: nat) -> Result<
    StoreV,
    EvalFault,
>
    decreases fuel, f, spec_for_range(f, store) + 1, 4int,
{
    match spec_eval_expr(f.lower_bound, store) {
        Result::Err(fault) => Result::Err(fault),
        Result::Ok(LiteralValueV::Integer(lo)) => {
            match spec_eval_expr(f.upper_bound, store) {
                Result::Err(fault) => Result::Err(fault),
                Result::Ok(LiteralValueV::Integer(hi)) => spec_eval_for_iter(
                    f,
                    lo,
                    hi,
                    store,
                    fuel,
                ),
                Result::Ok(_) => Result::Err(EvalFault::TypeMismatch),
            }
        },
        Result::Ok(_) => Result::Err(EvalFault::TypeMismatch),
    }
}


/// The evaluator: holds the typed root and walks it against a store.
pub struct Evaluator {
    statements: BoundStatement,
}

impl View for Evaluator {
    type V = BStmtV;

    closed spec fn view(&self) -> BStmtV {
        self.statements@
    }
}

impl Evaluator {
    /// An evaluator over a typed root statement.
    pub fn new(statements: BoundStatement) -> (e: Evaluator)
        ensures
            e@ == statements@,
    {
        Evaluator { statements }
    }

    /// Runs the tree against the store with an effectively unbounded
    /// step budget.
    pub fn evaluate(&self, table: &mut SymbolTable) -> (r: Result<(), EvalFault>)
        ensures
            match r {
                Result::Ok(()) => spec_eval_stmt(self@, old(table)@, u64::MAX as nat)
                    == Result::<StoreV, EvalFault>::Ok(final(table)@),
                Result::Err(f) => spec_eval_stmt(self@, old(table)@, u64::MAX as nat)
                    == Result::<StoreV, EvalFault>::Err(f),
            },
    {
        self.evaluate_with_fuel(table, u64::MAX)
    }

    /// Runs the tree against the store, spending at most `fuel` loop
    /// passes per `while` statement nesting.
    pub fn evaluate_with_fuel(&self, table: &mut SymbolTable, fuel: u64) -> (r: Result<
        (),
        EvalFault,
    >)
        ensures
            match r {
                Result::Ok(()) => spec_eval_stmt(self@, old(table)@, fuel as nat)
                    == Result::<StoreV, EvalFault>::Ok(final(table)@),
                Result::Err(f) => spec_eval_stmt(self@, old(table)@, fuel as nat)
                    == Result::<StoreV, EvalFault>::Err(f),
            },
    {
        self.evaluate_statements(&self.statements, table, fuel)
    }

    /// Evaluates one statement, dispatching on its node kind.
    fn evaluate_statements(&self, statement: &BoundStatement, table: &mut SymbolTable, fuel:
        u64) -> (r: Result<(), EvalFault>)
        ensures
            match r {
                Result::Ok(()) => spec_eval_stmt(statement@, old(table)@, fuel as nat)
                    == Result::<StoreV, EvalFault>::Ok(final(table)@),
                Result::Err(f) => spec_eval_stmt(statement@, old(table)@, fuel as nat)
                    == Result::<StoreV, EvalFault>::Err(f),
            },
        decreases fuel, statement, 0int, 1int,
    {
        reveal(spec_eval_stmt);
        reveal(spec_eval_list);
        reveal(spec_eval_if);
        reveal(spec_eval_while);
        reveal(spec_eval_for);
        match statement {
            BoundStatement::List(l) => self.evaluate_statement_list(l, table, fuel),
            BoundStatement::Assign(a) => {
                let v = self.evaluate_expression(a.get_bound_expression(), table);
                match v {
                    Result::Ok(value) => {
                        self.insert_into_symbol_table(a.get_variable(), value, table);
                        Result::Ok(())
                    },
                    Result::Err(f) => Result::Err(f),
                }
            },
            BoundStatement::VarDecl(d) => {
                let v = self.evaluate_expression(d.get_bound_expression(), table);
                match v {
                    Result::Ok(value) => {
                        self.insert_into_symbol_table(d.get_variable(), value, table);
                        Result::Ok(())
                    },
                    Result::Err(f) => Result::Err(f),
                }
            },
            BoundStatement::ConstDecl(d) => {
                let v = self.evaluate_expression(d.get_bound_expression(), table);
                match v {
                    Result::Ok(value) => {
                        self.insert_into_symbol_table(d.get_variable(), value, table);
                        Result::Ok(())
                    },
                    Result::Err(f) => Result::Err(f),
                }
            },
            BoundStatement::If(i) => self.evaluate_if_statement(i, table, fuel),
            BoundStatement::While(w) => self.evaluate_while_statement(w, table, fuel),
            BoundStatement::For(f) => self.evaluate_for_statement(f, table, fuel),
        }
    }

    /// Stores a value for a symbol.
    fn insert_into_symbol_table(&self, variable: &VariableSymbol, value: LiteralValue, table:
        &mut SymbolTable)
        ensures
            final(table)@ == spec_insert(old(table)@, variable@, Option::Some(value@)),
    {
        table.insert_into_symbol_table(variable, Option::Some(value));
    }

    /// Evaluates each statement of a list in order.
    fn evaluate_statement_list(&self, statement_list: &BoundStatementList, table: &mut
        SymbolTable, fuel: u64) -> (r: Result<(), EvalFault>)
        ensures
            match r {
                Result::Ok(()) => spec_eval_list(statement_list@, old(table)@, fuel as nat)
                    == Result::<StoreV, EvalFault>::Ok(final(table)@),
                Result::Err(f) => spec_eval_list(statement_list@, old(table)@, fuel as nat)
                    == Result::<StoreV, EvalFault>::Err(f),
            },
        decreases fuel, statement_list, 0int, 0int,
    {
        reveal(spec_eval_list);
        reveal(spec_eval_stmts);
        proof {
            lemma_bound_list_fields(statement_list);
        }
        self.evaluate_statements_from(&statement_list.statements, 0, table, fuel)
    }

    /// Evaluates the statements of a list from index `idx` on.
    fn evaluate_statements_from(&self, statements: &Vec<BoundStatement>, idx: usize, table:
        &mut SymbolTable, fuel: u64) -> (r: Result<(), EvalFault>)
        ensures
            match r {
                Result::Ok(()) => spec_eval_stmts(
                    bstmt_seq_view(statements@),
                    idx as int,
                    old(table)@,
                    fuel as nat,
                ) == Result::<StoreV, EvalFault>::Ok(final(table)@),
                Result::Err(f) => spec_eval_stmts(
                    bstmt_seq_view(statements@),
                    idx as int,
                    old(table)@,
                    fuel as nat,
                ) == Result::<StoreV, EvalFault>::Err(f),
            },
        decreases fuel, statements, statements@.len() - idx, 2int,
    {
        reveal(spec_eval_stmts);
        reveal(spec_eval_stmt);
        proof {
            crate::bound_tree::lemma_bstmt_seq_view_index(statements@);
        }
        if idx >= statements.len() {
            return Result::Ok(());
        }
        proof {
            broadcast use vstd::seq::axiom_seq_index_decreases;

            assert(decreases_to!(statements => statements@[idx as int]));
        }
        let r = self.evaluate_statements(&statements[idx], table, fuel);
        match r {
            Result::Ok(()) => self.evaluate_statements_from(statements, idx + 1, table, fuel),
            Result::Err(f) => Result::Err(f),
        }
    }

    /// Evaluates an `if` statement: the branch picked by the condition.
    fn evaluate_if_statement(&self, if_statement: &BoundIfStatement, table: &mut SymbolTable,
        fuel: u64) -> (r: Result<(), EvalFault>)
        ensures
            match r {
                Result::Ok(()) => spec_eval_if(if_statement@, old(table)@, fuel as nat)
                    == Result::<StoreV, EvalFault>::Ok(final(table)@),
                Result::Err(f) => spec_eval_if(if_statement@, old(table)@, fuel as nat)
                    == Result::<StoreV, EvalFault>::Err(f),
            },
        decreases fuel, if_statement, 0int, 0int,
    {
        reveal(spec_eval_if);
        reveal(spec_eval_stmt);
        proof {
            lemma_bound_if_fields(if_statement);
        }
        let condition = self.evaluate_expression(if_statement.get_condition(), table);
        match condition {
            Result::Err(f) => Result::Err(f),
            Result::Ok(v) => {
                match v.as_boolean() {
                    Option::None => Result::Err(EvalFault::TypeMismatch),
                    Option::Some(c) => {
                        if c {
                            self.evaluate_statements(&if_statement.then_statement, table, fuel)
                        } else {
                            match &if_statement.else_statement {
                                Option::Some(e) => self.evaluate_statements(&**e, table, fuel),
                                Option::None => Result::Ok(()),
                            }
                        }
                    },
                }
            },
        }
    }

    /// Evaluates a `while` statement, re-evaluating the condition
    /// before each pass and spending one unit of fuel per pass.
    #[verifier::loop_isolation(false)]
    fn evaluate_while_statement(&self, while_statement: &BoundWhileStatement, table: &mut
        SymbolTable, fuel: u64) -> (r: Result<(), EvalFault>)
        ensures
            match r {
                Result::Ok(()) => spec_eval_while(while_statement@, old(table)@, fuel as nat)
                    == Result::<StoreV, EvalFault>::Ok(final(table)@),
                Result::Err(f) => spec_eval_while(while_statement@, old(table)@, fuel as nat)
                    == Result::<StoreV, EvalFault>::Err(f),
            },
        decreases fuel, while_statement, 0int, 0int,
    {
        reveal(spec_eval_while);
        reveal(spec_eval_stmt);
        proof {
            lemma_bound_while_fields(while_statement);
        }
        let ghost store0 = table@;
        let ghost fuel0 = fuel as nat;
        let ghost wv = while_statement@;
        let mut remaining = fuel;
        loop
            invariant
                remaining <= fuel,
                spec_eval_while(wv, store0, fuel0) == spec_eval_while(
                    wv,
                    table@,
                    remaining as nat,
                ),
                wv == while_statement@,
            decreases remaining,
        {
            proof {
                lemma_bound_while_fields(while_statement);
            }
            let condition = self.evaluate_expression(while_statement.get_condition(), table);
            match condition {
                Result::Err(f) => {
                    return Result::Err(f);
                },
                Result::Ok(v) => {
                    match v.as_boolean() {
                        Option::None => {
                            return Result::Err(EvalFault::TypeMismatch);
                        },
                        Option::Some(c) => {
                            if !c {
                                return Result::Ok(());
                            }
                            if remaining == 0 {
                                return Result::Err(EvalFault::OutOfFuel);
                            }
                            let r = self.evaluate_statements(
                                &while_statement.body,
                                table,
                                remaining - 1,
                            );
                            match r {
                                Result::Ok(()) => {
                                    remaining = remaining - 1;
                                },
                                Result::Err(f) => {
                                    return Result::Err(f);
                                },
                            }
                        },
                    }
                },
            }
        }
    }

    /// Evaluates a `for` statement: both bounds once, then the
    /// iterations with the loop variable stored before each pass.
    #[verifier::loop_isolation(false)]
    fn evaluate_for_statement(&self, for_statement: &BoundForStatement, table: &mut
        SymbolTable, fuel: u64) -> (r: Result<(), EvalFault>)
        ensures
            match r {
                Result::Ok(()) => spec_eval_for(for_statement@, old(table)@, fuel as nat)
                    == Result::<StoreV, EvalFault>::Ok(final(table)@),
                Result::Err(f) => spec_eval_for(for_statement@, old(table)@, fuel as nat)
                    == Result::<StoreV, EvalFault>::Err(f),
            },
        decreases fuel, for_statement, 0int, 0int,
    {
        reveal(spec_eval_for);
        reveal(spec_eval_for_iter);
        reveal(spec_eval_stmt);
        proof {
            lemma_bound_for_fields(for_statement);
        }
        let ghost fv = for_statement@;
        let lower = self.evaluate_expression(for_statement.get_lower_bound(), table);
        let lower_bound: i32 = match lower {
            Result::Err(f) => {
                return Result::Err(f);
            },
            Result::Ok(v) => match v.as_integer() {
                Option::Some(i) => i,
                Option::None => {
                    return Result::Err(EvalFault::TypeMismatch);
                },
            },
        };
        let upper = self.evaluate_expression(for_statement.get_upper_bound(), table);
        let upper_bound: i32 = match upper {
            Result::Err(f) => {
                return Result::Err(f);
            },
            Result::Ok(v) => match v.as_integer() {
                Option::Some(i) => i,
                Option::None => {
                    return Result::Err(EvalFault::TypeMismatch);
                },
            },
        };
        let ghost store_entry = table@;
        let mut i = lower_bound;
        if i >= upper_bound {
            proof {
                assert(spec_eval_for_iter(fv, i as int, upper_bound as int, table@,
                    fuel as nat) == Result::<StoreV, EvalFault>::Ok(table@));
            }
            return Result::Ok(());
        }
        loop
            invariant
                lower_bound <= i <= upper_bound,
                i < upper_bound ==> i < upper_bound,
                fv == for_statement@,
                spec_eval_for_iter(fv, lower_bound as int, upper_bound as int, store_entry,
                    fuel as nat) == spec_eval_for_iter(
                    fv,
                    i as int,
                    upper_bound as int,
                    table@,
                    fuel as nat,
                ),
            decreases upper_bound - i,
        {
            proof {
                lemma_bound_for_fields(for_statement);
            }
            if i >= upper_bound {
                return Result::Ok(());
            }
            self.insert_into_symbol_table(
                for_statement.get_variable(),
                LiteralValue::Integer(i),
                table,
            );
            let r = self.evaluate_statements(&for_statement.body, table, fuel);
            match r {
                Result::Ok(()) => {
                    i = i + 1;
                },
                Result::Err(f) => {
                    return Result::Err(f);
                },
            }
        }
    }

    /// Evaluates an expression against the store.
    fn evaluate_expression(&self, expression: &BoundExpression, table: &SymbolTable) -> (r:
        Result<LiteralValue, EvalFault>)
        ensures
            match r {
                Result::Ok(v) => spec_eval_expr(expression@, table@) == Result::<
                    LiteralValueV,
                    EvalFault,
                >::Ok(v@),
                Result::Err(f) => spec_eval_expr(expression@, table@) == Result::<
                    LiteralValueV,
                    EvalFault,
                >::Err(f),
            },
        decreases expression, 1int,
    {
        reveal(spec_eval_expr);
        match expression {
            BoundExpression::Literal(l) => self.evaluate_literal_expression(l, table),
            BoundExpression::Unary(u) => self.evaluate_unary_expression(u, table),
            BoundExpression::Binary(b) => self.evaluate_binary_expression(b, table),
        }
    }

    /// Evaluates a typed literal: a variable reference reads the store,
    /// anything else is its own value.
    fn evaluate_literal_expression(&self, literal_expression: &BoundLiteralExpression, table:
        &SymbolTable) -> (r: Result<LiteralValue, EvalFault>)
        ensures
            match r {
                Result::Ok(v) => spec_eval_expr(
                    BExprV::Literal(literal_expression@),
                    table@,
                ) == Result::<LiteralValueV, EvalFault>::Ok(v@),
                Result::Err(f) => spec_eval_expr(
                    BExprV::Literal(literal_expression@),
                    table@,
                ) == Result::<LiteralValueV, EvalFault>::Err(f),
            },
    {
        reveal(spec_eval_expr);
        let kind = literal_expression.get_kind();
        if kind == SyntaxKind::Variable {
            let name = literal_expression.get_value().as_string();
            match name {
                Option::Some(n) => {
                    match table.get_value_from_symbol_table(n.as_str()) {
                        Option::Some(Option::Some(v)) => Result::Ok(v),
                        Option::Some(Option::None) => Result::Err(EvalFault::MissingValue),
                        Option::None => Result::Err(EvalFault::MissingValue),
                    }
                },
                Option::None => Result::Err(EvalFault::TypeMismatch),
            }
        } else {
            Result::Ok(literal_expression.get_value().duplicate())
        }
    }

    /// Evaluates a unary operation.
    fn evaluate_unary_expression(&self, unary_expression: &BoundUnaryExpression, table:
        &SymbolTable) -> (r: Result<LiteralValue, EvalFault>)
        ensures
            match r {
                Result::Ok(v) => spec_eval_expr(BExprV::Unary(unary_expression@), table@)
                    == Result::<LiteralValueV, EvalFault>::Ok(v@),
                Result::Err(f) => spec_eval_expr(BExprV::Unary(unary_expression@), table@)
                    == Result::<LiteralValueV, EvalFault>::Err(f),
            },
        decreases unary_expression, 0int,
    {
        reveal(spec_eval_expr);
        proof {
            lemma_bound_unary_fields(unary_expression);
        }
        let operand = self.evaluate_expression(&unary_expression.operand, table);
        match operand {
            Result::Err(f) => Result::Err(f),
            Result::Ok(v) => {
                match unary_expression.get_operator().get_kind() {
                    BoundUnaryOperatorKind::Identity => match v.as_integer() {
                        Option::Some(i) => Result::Ok(LiteralValue::Integer(i)),
                        Option::None => Result::Err(EvalFault::TypeMismatch),
                    },
                    BoundUnaryOperatorKind::Negation => match v.as_integer() {
                        Option::Some(i) => {
                            if i == i32::MIN {
                                Result::Err(EvalFault::Overflow)
                            } else {
                                Result::Ok(LiteralValue::Integer(-i))
                            }
                        },
                        Option::None => Result::Err(EvalFault::TypeMismatch),
                    },
                    BoundUnaryOperatorKind::LogicalNegation => match v.as_boolean() {
                        Option::Some(b) => Result::Ok(LiteralValue::Boolean(b)),
                        Option::None => Result::Err(EvalFault::TypeMismatch),
                    },
                }
            },
        }
    }

    /// Evaluates a binary operation: both operands always run, then the
    /// operation applies with checked integer arithmetic.
    fn evaluate_binary_expression(&self, binary_expression: &BoundBinaryExpression, table:
        &SymbolTable) -> (r: Result<LiteralValue, EvalFault>)
        ensures
            match r {
                Result::Ok(v) => spec_eval_expr(BExprV::Binary(binary_expression@), table@)
                    == Result::<LiteralValueV, EvalFault>::Ok(v@),
                Result::Err(f) => spec_eval_expr(BExprV::Binary(binary_expression@), table@)
                    == Result::<LiteralValueV, EvalFault>::Err(f),
            },
        decreases binary_expression, 0int,
    {
        reveal(spec_eval_expr);
        proof {
            lemma_bound_binary_fields(binary_expression);
        }
        let left = self.evaluate_expression(&binary_expression.left, table);
        let lv = match left {
            Result::Err(f) => {
                return Result::Err(f);
            },
            Result::Ok(v) => v,
        };
        let right = self.evaluate_expression(&binary_expression.right, table);
        let rv = match right {
            Result::Err(f) => {
                return Result::Err(f);
            },
            Result::Ok(v) => v,
        };
        apply_binary_operator(binary_expression.get_operator().get_kind(), lv, rv)
    }
}

/// Applies a resolved binary operation to two runtime values, with
/// checked integer arithmetic.
fn apply_binary_operator(kind: BoundBinaryOperatorKind, lv: LiteralValue, rv:
    LiteralValue) -> (r: Result<LiteralValue, EvalFault>)
    ensures
        match r {
            Result::Ok(v) => spec_apply_binary(kind, lv@, rv@) == Result::<
                LiteralValueV,
                EvalFault,
            >::Ok(v@),
            Result::Err(f) => spec_apply_binary(kind, lv@, rv@) == Result::<
                LiteralValueV,
                EvalFault,
            >::Err(f),
        },
{
    match kind {
        BoundBinaryOperatorKind::Addition => {
            match (lv.as_integer(), rv.as_integer()) {
                (Option::Some(i), Option::Some(j)) => match i.checked_add(j) {
                    Option::Some(n) => Result::Ok(LiteralValue::Integer(n)),
                    Option::None => Result::Err(EvalFault::Overflow),
                },
                _ => Result::Err(EvalFault::TypeMismatch),
            }
        },
        BoundBinaryOperatorKind::Subtraction => {
            match (lv.as_integer(), rv.as_integer()) {
                (Option::Some(i), Option::Some(j)) => match i.checked_sub(j) {
                    Option::Some(n) => Result::Ok(LiteralValue::Integer(n)),
                    Option::None => Result::Err(EvalFault::Overflow),
                },
                _ => Result::Err(EvalFault::TypeMismatch),
            }
        },
        BoundBinaryOperatorKind::Multiplication => {
            match (lv.as_integer(), rv.as_integer()) {
                (Option::Some(i), Option::Some(j)) => match i.checked_mul(j) {
                    Option::Some(n) => Result::Ok(LiteralValue::Integer(n)),
                    Option::None => Result::Err(EvalFault::Overflow),
                },
                _ => Result::Err(EvalFault::TypeMismatch),
            }
        },
        BoundBinaryOperatorKind::Division => {
            match (lv.as_integer(), rv.as_integer()) {
                (Option::Some(i), Option::Some(j)) => {
                    if j == 0 {
                        Result::Err(EvalFault::DivideByZero)
                    } else {
                        match i.checked_div(j) {
                            Option::Some(n) => Result::Ok(LiteralValue::Integer(n)),
                            Option::None => Result::Err(EvalFault::Overflow),
                        }
                    }
                },
                _ => Result::Err(EvalFault::TypeMismatch),
            }
        },
        BoundBinaryOperatorKind::LogicalAnd => {
            match (lv.as_boolean(), rv.as_boolean()) {
                (Option::Some(a), Option::Some(b)) => Result::Ok(
                    LiteralValue::Boolean(a && b),
                ),
                _ => Result::Err(EvalFault::TypeMismatch),
            }
        },
        BoundBinaryOperatorKind::LogicalOr => {
            match (lv.as_boolean(), rv.as_boolean()) {
                (Option::Some(a), Option::Some(b)) => Result::Ok(
                    LiteralValue::Boolean(a || b),
                ),
                _ => Result::Err(EvalFault::TypeMismatch),
            }
        },
        BoundBinaryOperatorKind::Equals => {
            match lv.as_boolean() {
                Option::Some(a) => match rv.as_boolean() {
                    Option::Some(b) => Result::Ok(LiteralValue::Boolean(a == b)),
                    Option::None => Result::Err(EvalFault::TypeMismatch),
                },
                Option::None => match (lv.as_integer(), rv.as_integer()) {
                    (Option::Some(i), Option::Some(j)) => Result::Ok(
                        LiteralValue::Boolean(i == j),
                    ),
                    _ => Result::Err(EvalFault::TypeMismatch),
                },
            }
        },
        BoundBinaryOperatorKind::NotEquals => {
            match lv.as_boolean() {
                Option::Some(a) => match rv.as_boolean() {
                    Option::Some(b) => Result::Ok(LiteralValue::Boolean(a != b)),
                    Option::None => Result::Err(EvalFault::TypeMismatch),
                },
                Option::None => match (lv.as_integer(), rv.as_integer()) {
                    (Option::Some(i), Option::Some(j)) => Result::Ok(
                        LiteralValue::Boolean(i != j),
                    ),
                    _ => Result::Err(EvalFault::TypeMismatch),
                },
            }
        },
        BoundBinaryOperatorKind::Less => {
            match (lv.as_integer(), rv.as_integer()) {
                (Option::Some(i), Option::Some(j)) => Result::Ok(
                    LiteralValue::Boolean(i < j),
                ),
                _ => Result::Err(EvalFault::TypeMismatch),
            }
        },
        BoundBinaryOperatorKind::LessOrEquals => {
            match (lv.as_integer(), rv.as_integer()) {
                (Option::Some(i), Option::Some(j)) => Result::Ok(
                    LiteralValue::Boolean(i <= j),
                ),
                _ => Result::Err(EvalFault::TypeMismatch),
            }
        },
        BoundBinaryOperatorKind::Greater => {
            match (lv.as_integer(), rv.as_integer()) {
                (Option::Some(i), Option::Some(j)) => Result::Ok(
                    LiteralValue::Boolean(i > j),
                ),
                _ => Result::Err(EvalFault::TypeMismatch),
            }
        },
        BoundBinaryOperatorKind::GreaterOrEquals => {
            match (lv.as_integer(), rv.as_integer()) {
                (Option::Some(i), Option::Some(j)) => Result::Ok(
                    LiteralValue::Boolean(i >= j),
                ),
                _ => Result::Err(EvalFault::TypeMismatch),
            }
        },
    }
}

} // verus!
