//! Tests of the individual passes: lexing, reporting, faults, and the
//! rendering of the final store.

use compiler::compile::ParserType;
use compiler::compile::compile_program;
use compiler::compile::report_symbol_table;
use compiler::binder::Binder;
use compiler::evaluator::EvalFault;
use compiler::evaluator::Evaluator;
use compiler::lexer::Lexer;
use compiler::literals::LiteralValue;
use compiler::parser::Parser;
use compiler::reports::Diagnostics;
use compiler::symbol_table::SymbolTable;
use compiler::syntax_kind::SyntaxKind;

fn run(code: &str) -> (SymbolTable, Diagnostics, Result<(), EvalFault>) {
    let mut diagnostics = Diagnostics::new();
    let mut table = SymbolTable::new();
    let r = compile_program(&mut diagnostics, &mut table, code, &ParserType::Recursive);
    (table, diagnostics, r)
}

fn value_of(table: &SymbolTable, name: &str) -> Option<LiteralValue> {
    table.get_value_from_symbol_table(name).unwrap()
}

fn has_message(diagnostics: &Diagnostics, message: &str) -> bool {
    diagnostics
        .get_diagnostics()
        .iter()
        .any(|d| d.get_message() == message)
}

#[test]
fn lexes_largest_integer_literal() {
    let mut diagnostics = Diagnostics::new();
    let mut lexer = Lexer::in_memory_reader("2147483647");
    let token = lexer.next_token(&mut diagnostics);
    assert_eq!(*token.kind(), SyntaxKind::Number);
    assert_eq!(*token.value(), LiteralValue::Integer(2147483647));
    assert!(!diagnostics.has_errors());
}

#[test]
fn rejects_integer_literal_past_the_range() {
    let mut diagnostics = Diagnostics::new();
    let mut lexer = Lexer::in_memory_reader("2147483648");
    let token = lexer.next_token(&mut diagnostics);
    assert_eq!(*token.kind(), SyntaxKind::BadToken);
    assert!(diagnostics.has_errors());
    assert!(has_message(&diagnostics, "The number 2147483648 isn't valid."));
}

#[test]
fn integer_literal_round_trips_through_rendering() {
    let (table, diagnostics, _) = run("{ let a = 1234567; }");
    assert!(!diagnostics.has_errors());
    let pairs = report_symbol_table(&table);
    assert_eq!(pairs.len(), 1);
    assert_eq!(pairs[0].id, "a");
    assert_eq!(pairs[0].value, "1234567");
}

#[test]
fn reports_invalid_character() {
    let (_, diagnostics, _) = run("{ let a = @; }");
    assert!(diagnostics.has_errors());
    assert!(has_message(&diagnostics, "The character @ isn't valid."));
}

#[test]
fn reports_unexpected_token() {
    let (_, diagnostics, _) = run("{ let a = ; }");
    assert!(diagnostics.has_errors());
    assert!(has_message(&diagnostics, "Unexpected token Semicolon \";\"."));
}

#[test]
fn reports_non_boolean_condition() {
    let (_, diagnostics, _) = run("{ let a = 1; if (a) { a = 2; } }");
    assert!(diagnostics.has_errors());
    assert!(has_message(
        &diagnostics,
        "Invalid literal type, actual Integer and expected Boolean."
    ));
}

#[test]
fn reports_undefined_unary_operator() {
    let (_, diagnostics, _) = run("{ let a = !3; }");
    assert!(diagnostics.has_errors());
    assert!(has_message(
        &diagnostics,
        "Unary operator Bang is not defined for type Integer."
    ));
}

#[test]
fn negation_and_parentheses_evaluate() {
    let (table, diagnostics, _) = run("{ let a = -3; let b = (3 + 4) * 2; let c = 7 / 2; }");
    assert!(!diagnostics.has_errors());
    assert_eq!(value_of(&table, "a"), Some(LiteralValue::Integer(-3)));
    assert_eq!(value_of(&table, "b"), Some(LiteralValue::Integer(14)));
    assert_eq!(value_of(&table, "c"), Some(LiteralValue::Integer(3)));
}

#[test]
fn negative_value_renders_with_sign() {
    let (table, _, _) = run("{ let a = 0 - 5; let b = true; }");
    let pairs = report_symbol_table(&table);
    assert_eq!(pairs[0].id, "a");
    assert_eq!(pairs[0].value, "-5");
    assert_eq!(pairs[1].id, "b");
    assert_eq!(pairs[1].value, "true");
}

#[test]
fn unassigned_binding_renders_as_none() {
    let (table, _, _) = run("{ let a = 0; let a = 1; }");
    let pairs = report_symbol_table(&table);
    assert_eq!(pairs.len(), 1);
    assert_eq!(pairs[0].id, "a");
    assert_eq!(pairs[0].value, "None");
}

#[test]
fn logical_negation_keeps_its_operand() {
    // The unary `!` operation resolves but hands the boolean through
    // unchanged, matching the evaluator's fixed operation table.
    let (table, diagnostics, _) = run("{ let a = true; let b = !a; }");
    assert!(!diagnostics.has_errors());
    assert_eq!(value_of(&table, "b"), Some(LiteralValue::Boolean(true)));
}

#[test]
fn boolean_operators_evaluate_without_short_circuit() {
    let (table, diagnostics, _) = run(
        "{ let a = true && false; let b = true || false; let c = 2 < 3; let d = 3 <= 3; \
         let e = 4 > 5; let f = 4 >= 4; let g = true == true; let h = 2 != 2; }",
    );
    assert!(!diagnostics.has_errors());
    assert_eq!(value_of(&table, "a"), Some(LiteralValue::Boolean(false)));
    assert_eq!(value_of(&table, "b"), Some(LiteralValue::Boolean(true)));
    assert_eq!(value_of(&table, "c"), Some(LiteralValue::Boolean(true)));
    assert_eq!(value_of(&table, "d"), Some(LiteralValue::Boolean(true)));
    assert_eq!(value_of(&table, "e"), Some(LiteralValue::Boolean(false)));
    assert_eq!(value_of(&table, "f"), Some(LiteralValue::Boolean(true)));
    assert_eq!(value_of(&table, "g"), Some(LiteralValue::Boolean(true)));
    assert_eq!(value_of(&table, "h"), Some(LiteralValue::Boolean(false)));
}

#[test]
fn division_by_zero_faults() {
    let (table, diagnostics, r) = run("{ let a = 1 / 0; }");
    assert!(!diagnostics.has_errors());
    assert!(matches!(r, Err(EvalFault::DivideByZero)));
    assert_eq!(table.len(), 0);
}

#[test]
fn arithmetic_overflow_faults() {
    let (_, _, r) = run("{ let a = 2000000000 + 2000000000; }");
    assert!(matches!(r, Err(EvalFault::Overflow)));
    let (_, _, r) = run("{ let a = 0 - 2000000000 - 2000000000; }");
    assert!(matches!(r, Err(EvalFault::Overflow)));
    let (_, _, r) = run("{ let a = 100000 * 100000; }");
    assert!(matches!(r, Err(EvalFault::Overflow)));
}

#[test]
fn reading_a_loop_variable_that_never_ran_faults() {
    let (_, diagnostics, r) = run("{ let a = 0; for (j = 0 to 0) { a = 1; } a = j; }");
    assert!(!diagnostics.has_errors());
    assert!(matches!(r, Err(EvalFault::MissingValue)));
}

#[test]
fn shadow_collision_can_confuse_a_stored_type() {
    // Symbols collide by name in the process-wide store, so an inner
    // assignment can leave an integer under a name registered boolean;
    // reading it back as a condition faults instead of crashing.
    let (_, diagnostics, r) = run("{ let a = true; { let b = 3; a = b; } if (a) { a = false; } }");
    assert!(!diagnostics.has_errors());
    assert!(matches!(r, Err(EvalFault::TypeMismatch)));
}

#[test]
fn a_long_loop_exhausts_a_small_fuel_budget() {
    let mut diagnostics = Diagnostics::new();
    let mut lexer = Lexer::in_memory_reader("{ let r = 0; while (r < 5) { r = r + 1; } }");
    let mut parser = Parser::new();
    parser.create(&mut lexer, &mut diagnostics);
    let root = parser.parse(&mut diagnostics);
    assert!(!diagnostics.has_errors());
    let mut table = SymbolTable::new();
    let mut binder = Binder::new();
    let bound = binder.bind_statement(&root, &mut table, &mut diagnostics);
    assert!(!diagnostics.has_errors());
    let evaluator = Evaluator::new(bound);
    let r = evaluator.evaluate_with_fuel(&mut table, 2);
    assert!(matches!(r, Err(EvalFault::OutOfFuel)));
}

#[test]
fn operator_precedence_table() {
    assert_eq!(SyntaxKind::Mul.get_binary_operator_precendence(), 5);
    assert_eq!(SyntaxKind::Plus.get_binary_operator_precendence(), 4);
    assert_eq!(SyntaxKind::EqualsEquals.get_binary_operator_precendence(), 3);
    assert_eq!(SyntaxKind::AmpersandAmpersand.get_binary_operator_precendence(), 2);
    assert_eq!(SyntaxKind::PipePipe.get_binary_operator_precendence(), 1);
    assert_eq!(SyntaxKind::Number.get_binary_operator_precendence(), 0);
    assert_eq!(SyntaxKind::Bang.get_unary_operator_precendence(), 6);
    assert_eq!(SyntaxKind::Minus.get_unary_operator_precendence(), 6);
    assert_eq!(SyntaxKind::Div.get_unary_operator_precendence(), 0);
    assert_eq!(SyntaxKind::get_keyword_kind("while"), SyntaxKind::While);
    assert_eq!(SyntaxKind::get_keyword_kind("total"), SyntaxKind::IdentifierToken);
}

#[test]
fn running_twice_from_fresh_state_is_identical() {
    let code = "{ let a = 3; const b = 4; let res = 3 + a * b; }";
    let (table1, diagnostics1, _) = run(code);
    let (table2, diagnostics2, _) = run(code);
    let pairs1 = report_symbol_table(&table1);
    let pairs2 = report_symbol_table(&table2);
    assert_eq!(pairs1.len(), pairs2.len());
    for (p, q) in pairs1.iter().zip(pairs2.iter()) {
        assert_eq!(p.id, q.id);
        assert_eq!(p.value, q.value);
    }
    let d1 = diagnostics1.get_diagnostics();
    let d2 = diagnostics2.get_diagnostics();
    assert_eq!(d1.len(), d2.len());
    for (a, b) in d1.iter().zip(d2.iter()) {
        assert_eq!(a.get_message(), b.get_message());
        assert_eq!(a.get_type(), b.get_type());
        assert_eq!(a.get_place(), b.get_place());
    }
}

#[test]
fn outer_names_stay_visible_and_inner_names_do_not_leak() {
    // An outer declaration is visible and mutable from an inner block;
    // a name declared inside a block is not visible after it closes.
    let (table, diagnostics, _) = run("{ let a = 1; { a = 2; } b = a; }");
    assert!(diagnostics.has_errors());
    let (table2, diagnostics2, _) = run("{ let a = 1; { let c = 5; a = c; } }");
    assert!(!diagnostics2.has_errors());
    assert_eq!(value_of(&table2, "a"), Some(LiteralValue::Integer(5)));
    let _ = table;
}
