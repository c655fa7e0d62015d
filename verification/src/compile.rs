//! The compile-and-evaluate cycle: lex, parse, bind and evaluate one
//! program against a freshly reset store, gating each stage on the
//! absence of errors from the stages before it.

use vstd::prelude::*;

use crate::binder::Binder;
use crate::binder::spec_bind_stmt;
use crate::evaluator::EvalFault;
use crate::evaluator::Evaluator;
use crate::evaluator::spec_eval_stmt;
use crate::lexer::Lexer;
use crate::literals::LiteralValue;
use crate::literals::LiteralValueV;
use crate::parser::Parser;
use crate::parser::spec_create;
use crate::parser::spec_parse_program;
use crate::reports::DiagV;
use crate::reports::Diagnostics;
use crate::reports::spec_has_error;
use crate::symbol_table::EntryV;
use crate::symbol_table::StoreV;
use crate::symbol_table::SymbolTable;
use crate::symbol_table::opt_value_view;
use crate::symbol_table::spec_retain_globals;
use crate::text::i32_to_string;
use crate::text::int_rep;
use crate::variable_symbol::SymV;

verus! {

/// Which parser front-end a caller asks for. The grammar has one
/// meaning; this library serves both selectors with its verified
/// recursive-descent pipeline.
#[derive(Clone, Copy, PartialEq, Eq, Structural, Debug)]
pub enum ParserType {
    Recursive,
    Lr,
}

/// One reported binding: a variable's name and its rendered value.
pub struct Pair {
    pub id: String,
    pub value: String,
}

/// The mathematical value of a reported binding.
pub struct PairV {
    pub id: Seq<char>,
    pub value: Seq<char>,
}

impl View for Pair {
    type V = PairV;

    open spec fn view(&self) -> PairV {
        PairV { id: self.id@, value: self.value@ }
    }
}

/// What one compile-and-evaluate cycle leaves behind: the final store
/// (globals only), the full diagnostics log, and the runtime fault if
/// evaluation stopped on one.
pub struct CompileRes {
    pub store: StoreV,
    pub diags: Seq<DiagV>,
    pub fault: Option<EvalFault>,
}

/// The root scope chain binding starts from.
pub open spec fn root_scopes() -> Seq<Seq<SymV>> {
    seq![Seq::<SymV>::empty()]
}

/// One whole compile-and-evaluate cycle over `code`, starting from the
/// caller's diagnostics log and a freshly cleared store: each stage
/// runs only while no error has been reported, and the store is
/// filtered to global bindings at the end.
pub open spec fn spec_compile(code: Seq<char>, diags0: Seq<DiagV>) -> CompileRes {
    if spec_has_error(diags0) {
        CompileRes {
            store: spec_retain_globals(Seq::<EntryV>::empty()),
            diags: diags0,
            fault: Option::None,
        }
    } else {
        let lexed = spec_create(code, 0);
        let diags1 = diags0 + lexed.diags;
        if spec_has_error(diags1) {
            CompileRes {
                store: spec_retain_globals(Seq::<EntryV>::empty()),
                diags: diags1,
                fault: Option::None,
            }
        } else {
            let parsed = spec_parse_program(lexed.tokens, 0);
            let diags2 = diags1 + parsed.diags;
            if spec_has_error(diags2) {
                CompileRes {
                    store: spec_retain_globals(Seq::<EntryV>::empty()),
                    diags: diags2,
                    fault: Option::None,
                }
            } else {
                let bound = spec_bind_stmt(parsed.stmt, root_scopes(), Seq::<EntryV>::empty());
                let diags3 = diags2 + bound.diags;
                if spec_has_error(diags3) {
                    CompileRes {
                        store: spec_retain_globals(bound.table),
                        diags: diags3,
                        fault: Option::None,
                    }
                } else {
                    match spec_eval_stmt(bound.stmt, bound.table, u64::MAX as nat) {
                        Result::Ok(store1) => CompileRes {
                            store: spec_retain_globals(store1),
                            diags: diags3,
                            fault: Option::None,
                        },
                        Result::Err(f) => CompileRes {
                            store: spec_retain_globals(Seq::<EntryV>::empty()),
                            diags: diags3,
                            fault: Option::Some(f),
                        },
                    }
                }
            }
        }
    }
}

/// Compiles and evaluates one program: the store is reset, the pipeline
/// runs stage by stage while no error has been reported, and the store
/// is filtered to global bindings at the end. Both parser selectors run
/// the verified recursive-descent pipeline. A runtime fault clears the
/// store and is handed back.
pub fn compile_program(
    diagnostics: &mut Diagnostics,
    table: &mut SymbolTable,
    code: &str,
    parser_type: &ParserType,
) -> (r: Result<(), EvalFault>)
    ensures
        ({
            let c = spec_compile(code@, old(diagnostics)@);
            final(table)@ == c.store && final(diagnostics)@ == c.diags && (match r {
                Result::Ok(()) => c.fault is None,
                Result::Err(f) => c.fault == Option::Some(f),
            })
        }),
{
    table.clear();
    if diagnostics.has_errors() {
        table.retain_globals();
        proof {
            assert(final(table)@ =~= spec_compile(code@, old(diagnostics)@).store);
        }
        return Result::Ok(());
    }
    let mut lexer = Lexer::in_memory_reader(code);
    let mut parser = Parser::new();
    parser.create(&mut lexer, diagnostics);
    proof {
        assert(parser@.tokens =~= spec_create(code@, 0).tokens);
    }
    if diagnostics.has_errors() {
        table.retain_globals();
        proof {
            assert(final(table)@ =~= spec_compile(code@, old(diagnostics)@).store);
        }
        return Result::Ok(());
    }
    let root = parser.parse(diagnostics);
    if diagnostics.has_errors() {
        table.retain_globals();
        proof {
            assert(final(table)@ =~= spec_compile(code@, old(diagnostics)@).store);
        }
        return Result::Ok(());
    }
    let mut binder = Binder::new();
    let bound = binder.bind_statement(&root, table, diagnostics);
    if diagnostics.has_errors() {
        table.retain_globals();
        return Result::Ok(());
    }
    let evaluator = Evaluator::new(bound);
    let r = evaluator.evaluate(table);
    match r {
        Result::Ok(()) => {
            table.retain_globals();
            Result::Ok(())
        },
        Result::Err(f) => {
            table.clear();
            table.retain_globals();
            proof {
                assert(final(table)@ =~= spec_compile(code@, old(diagnostics)@).store);
            }
            Result::Err(f)
        },
    }
}

/// The rendering of a stored value: its decimal digits for an integer,
/// the boolean keyword for a boolean, the text itself for raw text,
/// and the `None` sentinel for a binding never assigned.
pub open spec fn spec_render_value(v: Option<LiteralValueV>) -> Seq<char> {
    match v {
        Option::Some(LiteralValueV::Integer(i)) => int_rep(i),
        Option::Some(LiteralValueV::Boolean(b)) => if b {
            "true"@
        } else {
            "false"@
        },
        Option::Some(LiteralValueV::Str(s)) => s,
        Option::None => "None"@,
    }
}

/// The report rows for a store, in store order.
pub open spec fn spec_report(store: StoreV) -> Seq<PairV> {
    Seq::new(
        store.len(),
        |i: int| PairV { id: store[i].sym.id, value: spec_render_value(store[i].value) },
    )
}

/// Renders one stored value.
fn render_value(v: &Option<LiteralValue>) -> (s: String)
    ensures
        s@ == spec_render_value(opt_value_view(*v)),
{
    proof {
        reveal_strlit("true");
        reveal_strlit("false");
        reveal_strlit("None");
    }
    match v {
        Option::Some(LiteralValue::Integer(i)) => i32_to_string(*i),
        Option::Some(LiteralValue::Boolean(b)) => {
            if *b {
                String::from_str("true")
            } else {
                String::from_str("false")
            }
        },
        Option::Some(LiteralValue::String(s)) => s.clone(),
        Option::None => String::from_str("None"),
    }
}

/// The report of the store's bindings: each variable's name with its
/// rendered value, in store order.
pub fn report_symbol_table(table: &SymbolTable) -> (pairs: Vec<Pair>)
    ensures
        pairs@.map_values(|p: Pair| p@) == spec_report(table@),
{
    let mut pairs: Vec<Pair> = Vec::new();
    let n = table.len();
    let mut i: usize = 0;
    while i < n
        invariant
            0 <= i <= n,
            n == table@.len(),
            pairs@.len() == i,
            forall|j: int| 0 <= j < i ==> #[trigger] pairs@[j]@ == spec_report(table@)[j],
        decreases n - i,
    {
        let (sym, value) = table.entry_at(i);
        let id = sym.id();
        let rendered = render_value(value);
        pairs.push(Pair { id, value: rendered });
        i = i + 1;
    }
    proof {
        assert(pairs@.map_values(|p: Pair| p@) =~= spec_report(table@));
    }
    pairs
}

} // verus!
