//! Statements of the library's cross-cutting guarantees, proved against
//! the pipeline's specifications.

use vstd::prelude::*;

use crate::binder::BindExprRes;
use crate::binder::spec_bind_assignment;
use crate::binder::spec_bind_constant_declaration;
use crate::binder::spec_bind_expr;
use crate::binder::spec_bind_name;
use crate::binder::spec_bind_stmt;
use crate::binder::spec_bind_variable_declaration;
use crate::binder::visible_in;
use crate::bound_tree::BoundLiteralExpressionV;
use crate::bound_tree::BExprV;
use crate::compile::spec_compile;
use crate::lexer::scan_digits_end;
use crate::lexer::spec_next_token;
use crate::literals::LiteralValueV;
use crate::literals::spec_type_of;
use crate::reports::DiagV;
use crate::reports::SpanV;
use crate::reports::TextPlace;
use crate::reports::TextType;
use crate::reports::diag;
use crate::reports::msg_already_declared;
use crate::reports::msg_constant_redefined;
use crate::reports::msg_invalid_number;
use crate::reports::msg_not_declared;
use crate::reports::msg_undefined_name;
use crate::reports::spec_has_error;
use crate::symbol_table::StoreV;
use crate::symbol_table::spec_symbol_of;
use crate::syntax_kind::SyntaxKind;
use crate::syntax_token::TokenV;
use crate::syntax_tree::AssignmentV;
use crate::syntax_tree::ConstantDeclarationV;
use crate::syntax_tree::NameExpressionV;
use crate::syntax_tree::VariableDeclarationV;
use crate::text::all_digits;
use crate::text::dec_digits;
use crate::text::digits_value;
use crate::text::is_digit_char;
use crate::text::lemma_dec_digits_all_digits;
use crate::text::lemma_decimal_value_round_trip;
use crate::variable_symbol::SymV;

verus! {

/// A run of digits scans to the end of the text.
proof fn lemma_scan_digits_full(text: Seq<char>, pos: int)
    requires
        0 <= pos <= text.len(),
        forall|i: int| pos <= i < text.len() ==> is_digit_char(#[trigger] text[i]),
    ensures
        scan_digits_end(text, pos) == text.len(),
    decreases text.len() - pos,
{
    if pos < text.len() {
        lemma_scan_digits_full(text, pos + 1);
    }
}

/// Lexing a digit string: a value within the 32-bit signed range
/// becomes a number token carrying exactly that value with no
/// diagnostic; anything larger becomes a bad token with exactly one
/// invalid-number error.
pub proof fn lemma_number_token_lexing(text: Seq<char>)
    requires
        text.len() >= 1,
        all_digits(text),
    ensures
        digits_value(text) <= i32::MAX ==> spec_next_token(text, 0).token == (TokenV {
            name: text,
            value: LiteralValueV::Integer(digits_value(text)),
            position: 0,
            kind: SyntaxKind::Number,
            length: text.len() as int,
        }) && spec_next_token(text, 0).diags == Seq::<DiagV>::empty(),
        digits_value(text) > i32::MAX ==> spec_next_token(text, 0).token.kind
            == SyntaxKind::BadToken && spec_next_token(text, 0).diags == seq![
            diag(
                msg_invalid_number(text),
                SpanV { start: 0, length: text.len() as int },
                TextPlace::Lexical,
                TextType::Error,
            ),
        ],
{
    assert(is_digit_char(text[0]));
    assert(text[0] != '\0');
    lemma_scan_digits_full(text, 0);
    assert(text.subrange(0, text.len() as int) =~= text);
}

/// Writing any value in the 32-bit signed range as decimal text and
/// lexing that text yields a number token carrying the value back: the
/// integer literal round trip.
pub proof fn lemma_integer_literal_round_trip(n: int)
    requires
        0 <= n <= i32::MAX,
    ensures
        spec_next_token(dec_digits(n), 0).token.kind == SyntaxKind::Number,
        spec_next_token(dec_digits(n), 0).token.value == LiteralValueV::Integer(n),
        spec_next_token(dec_digits(n), 0).diags == Seq::<DiagV>::empty(),
{
    lemma_dec_digits_all_digits(n);
    lemma_decimal_value_round_trip(n);
    lemma_number_token_lexing(dec_digits(n));
}

/// Declaring a name that is already visible reports the already-declared
/// error exactly once, ahead of whatever the initializer reports; for a
/// `let` declaration.
pub proof fn lemma_let_already_declared(d: VariableDeclarationV, scopes: Seq<Seq<SymV>>, table:
    StoreV)
    requires
        spec_symbol_of(table, d.variable.name) is Some,
        visible_in(scopes, d.variable.name),
    ensures
        spec_bind_variable_declaration(d, scopes, table).diags == seq![
            diag(
                msg_already_declared(d.variable.name),
                SpanV { start: d.variable.position, length: d.variable.length },
                TextPlace::Semantic,
                TextType::Error,
            ),
        ] + spec_bind_expr(*d.expression, scopes, table).diags,
{
}

/// The same guarantee for a `const` declaration.
pub proof fn lemma_const_already_declared(
    d: ConstantDeclarationV,
    scopes: Seq<Seq<SymV>>,
    table: StoreV,
)
    requires
        spec_symbol_of(table, d.variable.name) is Some,
        visible_in(scopes, d.variable.name),
    ensures
        spec_bind_constant_declaration(d, scopes, table).diags == seq![
            diag(
                msg_already_declared(d.variable.name),
                SpanV { start: d.variable.position, length: d.variable.length },
                TextPlace::Semantic,
                TextType::Error,
            ),
        ] + spec_bind_expr(*d.expression, scopes, table).diags,
{
}

/// Assigning to a name that was never declared reports the not-declared
/// error exactly once, ahead of whatever the right-hand side reports.
pub proof fn lemma_assignment_not_declared(a: AssignmentV, scopes: Seq<Seq<SymV>>, table:
    StoreV)
    requires
        spec_symbol_of(table, a.variable.name) is None,
        !visible_in(scopes, a.variable.name),
    ensures
        spec_bind_assignment(a, scopes, table).diags == seq![
            diag(
                msg_not_declared(a.variable.name),
                SpanV { start: a.variable.position, length: a.variable.length },
                TextPlace::Semantic,
                TextType::Error,
            ),
        ] + spec_bind_expr(*a.expression, scopes, table).diags,
{
    let d1 = seq![
        diag(
            msg_not_declared(a.variable.name),
            SpanV { start: a.variable.position, length: a.variable.length },
            TextPlace::Semantic,
            TextType::Error,
        ),
    ];
    assert(spec_bind_assignment(a, scopes, table).diags =~= d1 + spec_bind_expr(
        *a.expression,
        scopes,
        table,
    ).diags);
}

/// Assigning to a visible constant reports the cannot-be-redefined
/// error exactly once, ahead of whatever the right-hand side reports.
pub proof fn lemma_assignment_constant_redefined(a: AssignmentV, scopes: Seq<Seq<SymV>>, table:
    StoreV)
    requires
        spec_symbol_of(table, a.variable.name) is Some,
        spec_symbol_of(table, a.variable.name)->Some_0.read_only,
        visible_in(scopes, a.variable.name),
    ensures
        spec_bind_assignment(a, scopes, table).diags == seq![
            diag(
                msg_constant_redefined(a.variable.name),
                SpanV { start: a.variable.position, length: a.variable.length },
                TextPlace::Semantic,
                TextType::Error,
            ),
        ] + spec_bind_expr(*a.expression, scopes, table).diags,
{
    let d2 = seq![
        diag(
            msg_constant_redefined(a.variable.name),
            SpanV { start: a.variable.position, length: a.variable.length },
            TextPlace::Semantic,
            TextType::Error,
        ),
    ];
    assert(spec_bind_assignment(a, scopes, table).diags =~= d2 + spec_bind_expr(
        *a.expression,
        scopes,
        table,
    ).diags);
}

/// Referencing a name with no visible registration reports the
/// undefined-name error and binds an error-marked literal carrying the
/// raw text's own type.
pub proof fn lemma_name_undefined(n: NameExpressionV, scopes: Seq<Seq<SymV>>, table: StoreV)
    requires
        spec_symbol_of(table, n.token.name) is None || !visible_in(scopes, n.token.name),
    ensures
        spec_bind_name(n, scopes, table) == (BindExprRes {
            expr: BExprV::Literal(
                BoundLiteralExpressionV {
                    value: n.token.value,
                    type_of_value: spec_type_of(n.token.value),
                    kind: SyntaxKind::Error,
                },
            ),
            diags: seq![
                diag(
                    msg_undefined_name(n.token.name),
                    SpanV { start: n.token.position, length: n.token.length },
                    TextPlace::Semantic,
                    TextType::Error,
                ),
            ],
        }),
{
}

/// An error somewhere in a concatenated log is an error in one of its
/// parts.
proof fn lemma_has_error_split(a: Seq<DiagV>, b: Seq<DiagV>)
    ensures
        spec_has_error(a + b) == (spec_has_error(a) || spec_has_error(b)),
{
    if spec_has_error(a) {
        let i = choose|i: int| 0 <= i < a.len() && a[i].kind == TextType::Error;
        assert((a + b)[i].kind == TextType::Error);
    }
    if spec_has_error(b) {
        let i = choose|i: int| 0 <= i < b.len() && b[i].kind == TextType::Error;
        assert((a + b)[a.len() + i].kind == TextType::Error);
    }
    if spec_has_error(a + b) {
        let i = choose|i: int| 0 <= i < (a + b).len() && (a + b)[i].kind == TextType::Error;
        if i < a.len() {
            assert(a[i].kind == TextType::Error);
        } else {
            assert(b[i - a.len()].kind == TextType::Error);
        }
    }
}

/// One compile-and-evaluate cycle is a function of the source text
/// alone: the store is reset at the start and an error-free incoming
/// log only prefixes the output, so two runs of the same program leave
/// identical global bindings, identical new diagnostics and the same
/// fault, whatever either store held before. Running a program twice
/// against freshly reset state is therefore indistinguishable from
/// running it once.
pub proof fn lemma_compile_repeatable(code: Seq<char>, diags: Seq<DiagV>)
    requires
        !spec_has_error(diags),
    ensures
        spec_compile(code, diags).store == spec_compile(code, Seq::<DiagV>::empty()).store,
        spec_compile(code, diags).diags == diags + spec_compile(
            code,
            Seq::<DiagV>::empty(),
        ).diags,
        spec_compile(code, diags).fault == spec_compile(code, Seq::<DiagV>::empty()).fault,
{
    let e = Seq::<DiagV>::empty();
    assert(!spec_has_error(e));
    let lexed = crate::parser::spec_create(code, 0);
    lemma_has_error_split(diags, lexed.diags);
    lemma_has_error_split(e, lexed.diags);
    assert(e + lexed.diags =~= lexed.diags);
    if !spec_has_error(diags + lexed.diags) {
        let parsed = crate::parser::spec_parse_program(lexed.tokens, 0);
        lemma_has_error_split(diags + lexed.diags, parsed.diags);
        lemma_has_error_split(e + lexed.diags, parsed.diags);
        assert((diags + lexed.diags) + parsed.diags =~= diags + (lexed.diags + parsed.diags));
        assert((e + lexed.diags) + parsed.diags =~= lexed.diags + parsed.diags);
        if !spec_has_error((diags + lexed.diags) + parsed.diags) {
            let bound = spec_bind_stmt(
                parsed.stmt,
                crate::compile::root_scopes(),
                Seq::empty(),
            );
            lemma_has_error_split((diags + lexed.diags) + parsed.diags, bound.diags);
            lemma_has_error_split((e + lexed.diags) + parsed.diags, bound.diags);
            assert(((diags + lexed.diags) + parsed.diags) + bound.diags =~= diags + (((e
                + lexed.diags) + parsed.diags) + bound.diags));
        }
    }
}

} // verus!
