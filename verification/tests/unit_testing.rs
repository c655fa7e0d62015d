//! The end-to-end suite: each scenario runs through both parser
//! selectors and checks the final global bindings and diagnostics.

use compiler::compile::ParserType;
use compiler::compile::compile_program;
use compiler::literals::LiteralValue;
use compiler::reports::Diagnostics;
use compiler::reports::TextPlace;
use compiler::reports::TextType;
use compiler::symbol_table::SymbolTable;

struct Program {
    code: String,
    parser: ParserType,
}

fn run(data: &Program) -> (SymbolTable, Diagnostics) {
    let mut diagnostics = Diagnostics::new();
    let mut table = SymbolTable::new();
    let _ = compile_program(&mut diagnostics, &mut table, &data.code, &data.parser);
    (table, diagnostics)
}

fn get_value_from_key(table: &SymbolTable, name: &str) -> Option<LiteralValue> {
    table.get_value_from_symbol_table(name).unwrap()
}

fn check_for_errors_in_diagnostics(diagnostics: &Diagnostics) -> bool {
    diagnostics.has_errors()
}

fn check_specific_message_in_diagnostics(
    diagnostics: &Diagnostics,
    message: &str,
    place: &TextPlace,
    text_type: &TextType,
) -> bool {
    for diagnostic in &diagnostics.get_diagnostics() {
        if *diagnostic.get_type() == *text_type
            && *diagnostic.get_place() == *place
            && diagnostic.get_message() == message
        {
            return true;
        }
    }
    false
}

fn test_variables_assignments(data: &Program) {
    let (table, diagnostics) = run(data);
    assert_eq!(get_value_from_key(&table, "a"), Some(LiteralValue::Integer(3)));
    assert_eq!(get_value_from_key(&table, "b"), Some(LiteralValue::Integer(4)));
    assert_eq!(get_value_from_key(&table, "res"), Some(LiteralValue::Integer(15)));
    assert_eq!(check_for_errors_in_diagnostics(&diagnostics), false);
}

fn test_if_statement(data: &Program) {
    let (table, diagnostics) = run(data);
    assert_eq!(get_value_from_key(&table, "a"), Some(LiteralValue::Integer(4)));
    assert_eq!(check_for_errors_in_diagnostics(&diagnostics), false);
}

fn test_else_statement(data: &Program) {
    let (table, diagnostics) = run(data);
    assert_eq!(get_value_from_key(&table, "a"), Some(LiteralValue::Integer(5)));
    assert_eq!(check_for_errors_in_diagnostics(&diagnostics), false);
}

fn test_for_loop(data: &Program) {
    let (table, diagnostics) = run(data);
    assert_eq!(get_value_from_key(&table, "res"), Some(LiteralValue::Integer(45)));
    assert_eq!(check_for_errors_in_diagnostics(&diagnostics), false);
}

fn test_while_loop(data: &Program) {
    let (table, diagnostics) = run(data);
    assert_eq!(get_value_from_key(&table, "res"), Some(LiteralValue::Integer(5)));
    assert_eq!(check_for_errors_in_diagnostics(&diagnostics), false);
}

fn test_reassignment_variable_already_declared(data: &Program) {
    let (table, diagnostics) = run(data);
    assert_eq!(get_value_from_key(&table, "a"), None);
    assert_eq!(check_for_errors_in_diagnostics(&diagnostics), true);
    assert_eq!(
        check_specific_message_in_diagnostics(
            &diagnostics,
            "Name a is already declared.",
            &TextPlace::Semantic,
            &TextType::Error
        ),
        true
    );
}

fn test_const_reassignment(data: &Program) {
    let (table, diagnostics) = run(data);
    assert_eq!(get_value_from_key(&table, "a"), None);
    assert_eq!(check_for_errors_in_diagnostics(&diagnostics), true);
    assert_eq!(
        check_specific_message_in_diagnostics(
            &diagnostics,
            "Const a cannot be redefined.",
            &TextPlace::Semantic,
            &TextType::Error
        ),
        true
    );
}

fn test_assignment_without_declaration(data: &Program) {
    let (table, diagnostics) = run(data);
    assert_eq!(get_value_from_key(&table, "a"), None);
    assert_eq!(check_for_errors_in_diagnostics(&diagnostics), true);
    assert_eq!(
        check_specific_message_in_diagnostics(
            &diagnostics,
            "Name a is not declared yet.",
            &TextPlace::Semantic,
            &TextType::Error
        ),
        true
    );
}

fn test_using_non_existing_variable(data: &Program) {
    let (table, diagnostics) = run(data);
    assert_eq!(get_value_from_key(&table, "res"), None);
    assert_eq!(check_for_errors_in_diagnostics(&diagnostics), true);
    assert_eq!(
        check_specific_message_in_diagnostics(
            &diagnostics,
            "Name a is undefined.",
            &TextPlace::Semantic,
            &TextType::Error
        ),
        true
    );
}

fn test_mixing_operators(data: &Program) {
    let (table, diagnostics) = run(data);
    assert_eq!(get_value_from_key(&table, "res"), None);
    assert_eq!(get_value_from_key(&table, "a"), None);
    assert_eq!(get_value_from_key(&table, "b"), None);
    assert_eq!(check_for_errors_in_diagnostics(&diagnostics), true);
    assert_eq!(
        check_specific_message_in_diagnostics(
            &diagnostics,
            "Binary operator Plus is not defined for types Boolean and Integer.",
            &TextPlace::Semantic,
            &TextType::Error
        ),
        true
    );
}

fn test_bad_scoping(data: &Program) {
    let (table, diagnostics) = run(data);
    assert_eq!(get_value_from_key(&table, "a"), None);
    assert_eq!(check_for_errors_in_diagnostics(&diagnostics), true);
    assert_eq!(
        check_specific_message_in_diagnostics(
            &diagnostics,
            "Name a is already declared.",
            &TextPlace::Semantic,
            &TextType::Error
        ),
        true
    );
}

fn test_good_scoping(data: &Program) {
    let (table, diagnostics) = run(data);
    assert_eq!(get_value_from_key(&table, "a"), Some(LiteralValue::Integer(4)));
    assert_eq!(check_for_errors_in_diagnostics(&diagnostics), false);
}

#[test]
fn test_suit() {
    test_variables_assignments(&Program {
        code: "{ let a = 3; const b = 4; let res = 3 + a * b;  }".to_string(),
        parser: ParserType::Recursive,
    });
    test_variables_assignments(&Program {
        code: "{ let a = 3; const b = 4; let res = 3 + a * b;  }".to_string(),
        parser: ParserType::Lr,
    });

    test_for_loop(&Program {
        code: "{ let res = 0; for (j = 0 to 10) { res = res + j; } }".to_string(),
        parser: ParserType::Recursive,
    });
    test_for_loop(&Program {
        code: "{ let res = 0; for (j = 0 to 10) { res = res + j; } }".to_string(),
        parser: ParserType::Lr,
    });

    test_while_loop(&Program {
        code: "{ let res = 0; while (res < 5) { res = res + 1; } }".to_string(),
        parser: ParserType::Recursive,
    });
    test_while_loop(&Program {
        code: "{ let res = 0; while (res < 5) { res = res + 1; } }".to_string(),
        parser: ParserType::Lr,
    });

    test_if_statement(&Program {
        code: "{ let a = 3; if (a == 3) { a = 4; } }".to_string(),
        parser: ParserType::Recursive,
    });
    test_if_statement(&Program {
        code: "{ let a = 3; if (a == 3) { a = 4; } }".to_string(),
        parser: ParserType::Lr,
    });

    test_else_statement(&Program {
        code: "{ let a = 3; if (a != 3) { a = 4; } else { a = 5; } }".to_string(),
        parser: ParserType::Recursive,
    });
    test_else_statement(&Program {
        code: "{ let a = 3; if (a != 3) { a = 4; } else { a = 5; } }".to_string(),
        parser: ParserType::Lr,
    });

    test_reassignment_variable_already_declared(&Program {
        code: "{ let a = 0; let a = 1; }".to_string(),
        parser: ParserType::Recursive,
    });
    test_reassignment_variable_already_declared(&Program {
        code: "{ let a = 0; let a = 1; }".to_string(),
        parser: ParserType::Lr,
    });

    test_const_reassignment(&Program {
        code: "{ const a = 3; a = 4; }".to_string(),
        parser: ParserType::Recursive,
    });
    test_const_reassignment(&Program {
        code: "{ const a = 3; a = 4; }".to_string(),
        parser: ParserType::Lr,
    });

    test_assignment_without_declaration(&Program {
        code: "{ a = 4; }".to_string(),
        parser: ParserType::Recursive,
    });
    test_assignment_without_declaration(&Program {
        code: "{ a = 4; }".to_string(),
        parser: ParserType::Lr,
    });

    test_using_non_existing_variable(&Program {
        code: "{ let res = 3 + a; }".to_string(),
        parser: ParserType::Recursive,
    });
    test_using_non_existing_variable(&Program {
        code: "{ let res = 3 + a; }".to_string(),
        parser: ParserType::Lr,
    });

    test_mixing_operators(&Program {
        code: "{ let a = true; let b = 3; let res = a + b; }".to_string(),
        parser: ParserType::Recursive,
    });
    test_mixing_operators(&Program {
        code: "{ let a = true; let b = 3; let res = a + b; }".to_string(),
        parser: ParserType::Lr,
    });

    test_bad_scoping(&Program {
        code: "{ let a = true; { let b = 3; { let a = 3; } } }".to_string(),
        parser: ParserType::Recursive,
    });
    test_bad_scoping(&Program {
        code: "{ let a = true; { let b = 3; { let a = 3; } } }".to_string(),
        parser: ParserType::Lr,
    });

    test_good_scoping(&Program {
        code: "{ let a = 0; { let b = 3; a = b; } { let b = 4; a = b; } }".to_string(),
        parser: ParserType::Recursive,
    });
    test_good_scoping(&Program {
        code: "{ let a = 0; { let b = 3; a = b; } { let b = 4; a = b; } }".to_string(),
        parser: ParserType::Lr,
    });
}
