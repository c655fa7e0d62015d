//! The diagnostics model: source spans, stages, severities, and the
//! append-only log of compiler messages.

use vstd::prelude::*;

use crate::literals::LiteralType;
use crate::literals::spec_literal_type_name;
use crate::literals::literal_type_name;
use crate::syntax_kind::SyntaxKind;
use crate::syntax_kind::spec_kind_name;
use crate::syntax_kind::kind_name;
use crate::text::dec_digits;
use crate::text::usize_to_string;

verus! {

/// A half-open region of the source text: start offset and length.
#[derive(Clone, Copy, PartialEq, Eq, Structural, Debug)]
pub struct TextSpan {
    start: usize,
    length: usize,
}

/// The mathematical value of a span.
pub struct SpanV {
    pub start: int,
    pub length: int,
}

impl View for TextSpan {
    type V = SpanV;

    closed spec fn view(&self) -> SpanV {
        SpanV { start: self.start as int, length: self.length as int }
    }
}

impl TextSpan {
    /// A span starting at `start` and covering `length` characters.
    pub fn new(start: usize, length: usize) -> (s: TextSpan)
        ensures
            s@.start == start,
            s@.length == length,
    {
        TextSpan { start, length }
    }

    /// The start offset.
    pub fn start(&self) -> (r: usize)
        ensures
            r == self@.start,
    {
        self.start
    }

    /// The number of characters covered.
    pub fn length(&self) -> (r: usize)
        ensures
            r == self@.length,
    {
        self.length
    }
}

/// The stage of the pipeline a diagnostic originates from.
#[derive(Clone, Copy, PartialEq, Eq, Structural, Debug)]
pub enum TextPlace {
    Syntax,
    Lexical,
    Semantic,
}

/// The severity of a diagnostic.
#[derive(Clone, Copy, PartialEq, Eq, Structural, Debug)]
pub enum TextType {
    Info,
    Error,
}

/// One compiler message with its span, stage and severity.
#[derive(Debug)]
pub struct Diagnostic {
    message: String,
    span: TextSpan,
    place: TextPlace,
    kind: TextType,
}

/// The mathematical value of a diagnostic.
pub struct DiagV {
    pub message: Seq<char>,
    pub span: SpanV,
    pub place: TextPlace,
    pub kind: TextType,
}

impl View for Diagnostic {
    type V = DiagV;

    closed spec fn view(&self) -> DiagV {
        DiagV { message: self.message@, span: self.span@, place: self.place, kind: self.kind }
    }
}

impl Diagnostic {
    /// A diagnostic from its parts.
    pub fn new(message: String, span: TextSpan, place: TextPlace, kind: TextType) -> (d:
        Diagnostic)
        ensures
            d@ == (DiagV { message: message@, span: span@, place, kind }),
    {
        Diagnostic { message, span, place, kind }
    }

    /// The severity.
    pub fn get_type(&self) -> (t: &TextType)
        ensures
            *t == self@.kind,
    {
        &self.kind
    }

    /// The originating stage.
    pub fn get_place(&self) -> (p: &TextPlace)
        ensures
            *p == self@.place,
    {
        &self.place
    }

    /// The message text.
    pub fn get_message(&self) -> (m: &str)
        ensures
            m@ == self@.message,
    {
        self.message.as_str()
    }

    /// The source span.
    pub fn get_span(&self) -> (s: &TextSpan)
        ensures
            s@ == self@.span,
    {
        &self.span
    }

    /// An owned copy with the same mathematical value.
    pub fn duplicate(&self) -> (d: Diagnostic)
        ensures
            d@ == self@,
    {
        Diagnostic {
            message: self.message.clone(),
            span: self.span,
            place: self.place,
            kind: self.kind,
        }
    }
}

/// The message reported for a numeric literal that does not fit.
pub open spec fn msg_invalid_number(text: Seq<char>) -> Seq<char> {
    "The number "@ + text + " isn't valid."@
}

/// The message reported for a name no visible declaration defines.
pub open spec fn msg_undefined_name(text: Seq<char>) -> Seq<char> {
    "Name "@ + text + " is undefined."@
}

/// The message reported for a declaration of an already visible name.
pub open spec fn msg_already_declared(text: Seq<char>) -> Seq<char> {
    "Name "@ + text + " is already declared."@
}

/// The message reported for an assignment to an undeclared name.
pub open spec fn msg_not_declared(text: Seq<char>) -> Seq<char> {
    "Name "@ + text + " is not declared yet."@
}

/// The message reported for an assignment to a constant.
pub open spec fn msg_constant_redefined(text: Seq<char>) -> Seq<char> {
    "Const "@ + text + " cannot be redefined."@
}

/// The message reported for a character outside the language's alphabet.
pub open spec fn msg_invalid_character(c: char) -> Seq<char> {
    "The character "@ + seq![c] + " isn't valid."@
}

/// The message reported when the parser meets a token it did not expect.
pub open spec fn msg_unexpected_token(kind: SyntaxKind, value: Seq<char>) -> Seq<char> {
    "Unexpected token "@ + spec_kind_name(kind) + " \""@ + value + "\"."@
}

/// The message reported when no binary operator fits the operand types.
pub open spec fn msg_undefined_binary_operator(
    op: SyntaxKind,
    left: LiteralType,
    right: LiteralType,
) -> Seq<char> {
    "Binary operator "@ + spec_kind_name(op) + " is not defined for types "@
        + spec_literal_type_name(left) + " and "@ + spec_literal_type_name(right) + "."@
}

/// The message reported when no unary operator fits the operand type.
pub open spec fn msg_undefined_unary_operator(op: SyntaxKind, operand: LiteralType) -> Seq<
    char,
> {
    "Unary operator "@ + spec_kind_name(op) + " is not defined for type "@
        + spec_literal_type_name(operand) + "."@
}

/// The message reported when an expression has the wrong static type.
pub open spec fn msg_invalid_literal_type(
    actual: LiteralType,
    expected: LiteralType,
) -> Seq<char> {
    "Invalid literal type, actual "@ + spec_literal_type_name(actual) + " and expected "@
        + spec_literal_type_name(expected) + "."@
}

/// A diagnostic value with the given message over the given span.
pub open spec fn diag(message: Seq<char>, span: SpanV, place: TextPlace, kind: TextType) -> DiagV {
    DiagV { message, span, place, kind }
}

/// Whether some diagnostic in the log is an error.
pub open spec fn spec_has_error(ds: Seq<DiagV>) -> bool {
    exists|i: int| 0 <= i < ds.len() && ds[i].kind == TextType::Error
}

/// Relies on String::push: appends one character at the end.
#[verifier::external_body]
pub fn push_char(s: &mut String, c: char)
    ensures
        final(s)@ == old(s)@.push(c),
{
    s.push(c)
}

/// The views of a sequence of diagnostics, in order.
pub open spec fn views_of(ds: Seq<Diagnostic>) -> Seq<DiagV> {
    ds.map_values(|d: Diagnostic| d@)
}

/// The ordered log of compiler messages for one run.
pub struct Diagnostics {
    diagnostics: Vec<Diagnostic>,
}

impl View for Diagnostics {
    type V = Seq<DiagV>;

    closed spec fn view(&self) -> Seq<DiagV> {
        views_of(self.diagnostics@)
    }
}

impl Diagnostics {
    /// An empty log.
    pub fn new() -> (d: Diagnostics)
        ensures
            d@ == Seq::<DiagV>::empty(),
    {
        let d = Diagnostics { diagnostics: Vec::new() };
        proof {
            assert(d@ =~= Seq::<DiagV>::empty());
        }
        d
    }

    /// A copy of the whole log, in order.
    pub fn get_diagnostics(&self) -> (r: Vec<Diagnostic>)
        ensures
            views_of(r@) == self@,
    {
        let mut r: Vec<Diagnostic> = Vec::new();
        let mut i: usize = 0;
        while i < self.diagnostics.len()
            invariant
                0 <= i <= self.diagnostics.len(),
                r@.len() == i,
                views_of(r@) =~= self@.take(i as int),
            decreases self.diagnostics.len() - i,
        {
            r.push(self.diagnostics[i].duplicate());
            i = i + 1;
            proof {
                assert(views_of(r@).len() == r@.len());
                assert forall|j: int| 0 <= j < i implies views_of(r@)[j] == self@.take(
                    i as int,
                )[j] by {
                    assert(views_of(r@)[j] == r@[j]@);
                    assert(self@[j] == self.diagnostics@[j]@);
                }
                assert(views_of(r@) =~= self@.take(i as int));
            }
        }
        proof {
            assert(self@.take(self.diagnostics.len() as int) =~= self@);
        }
        r
    }

    /// The number of messages in the log.
    pub fn len(&self) -> (n: usize)
        ensures
            n == self@.len(),
    {
        self.diagnostics.len()
    }

    /// The message at a position of the log.
    pub fn get(&self, i: usize) -> (d: &Diagnostic)
        requires
            i < self@.len(),
        ensures
            d@ == self@[i as int],
    {
        &self.diagnostics[i]
    }

    /// Appends one message at the end of the log.
    fn report(&mut self, message: String, span: TextSpan, place: TextPlace, kind: TextType)
        ensures
            final(self)@ == old(self)@.push(diag(message@, span@, place, kind)),
    {
        self.diagnostics.push(Diagnostic::new(message, span, place, kind));
        proof {
            assert(final(self)@ =~= old(self)@.push(diag(message@, span@, place, kind)));
        }
    }

    /// The messages of one severity, in log order.
    pub fn filter_type(&self, text_type: TextType) -> (r: Vec<Diagnostic>)
        ensures
            views_of(r@) == self@.filter(|d: DiagV| d.kind == text_type),
    {
        let mut r: Vec<Diagnostic> = Vec::new();
        let mut i: usize = 0;
        while i < self.diagnostics.len()
            invariant
                0 <= i <= self.diagnostics.len(),
                views_of(r@) =~= self@.take(i as int).filter(|d: DiagV| d.kind == text_type),
            decreases self.diagnostics.len() - i,
        {
            proof {
                assert(self@.take(i + 1).drop_last() =~= self@.take(i as int));
                assert(self@.take(i + 1).last() == self@[i as int]);
                reveal_with_fuel(Seq::filter, 2);
            }
            if *self.diagnostics[i].get_type() == text_type {
                r.push(self.diagnostics[i].duplicate());
            }
            i = i + 1;
            proof {
                assert(views_of(r@) =~= self@.take(i as int).filter(
                    |d: DiagV| d.kind == text_type,
                ));
            }
        }
        proof {
            assert(self@.take(self.diagnostics.len() as int) =~= self@);
        }
        r
    }

    /// Whether the log holds any error-severity message.
    pub fn has_errors(&self) -> (r: bool)
        ensures
            r == spec_has_error(self@),
    {
        let mut i: usize = 0;
        while i < self.diagnostics.len()
            invariant
                0 <= i <= self.diagnostics.len(),
                forall|j: int| 0 <= j < i ==> self@[j].kind != TextType::Error,
            decreases self.diagnostics.len() - i,
        {
            if *self.diagnostics[i].get_type() == TextType::Error {
                proof {
                    assert(self@[i as int].kind == TextType::Error);
                }
                return true;
            }
            i = i + 1;
        }
        false
    }

    /// Appends an already formatted informational message.
    pub fn info_message(&mut self, message: String, span: TextSpan, place: TextPlace, kind:
        TextType)
        ensures
            final(self)@ == old(self)@.push(diag(message@, span@, place, kind)),
    {
        self.report(message, span, place, kind);
    }

    /// Reports a numeric literal that does not fit a 32-bit integer.
    pub fn report_invalid_number(&mut self, text: String, span: TextSpan, place: TextPlace, kind:
        TextType)
        ensures
            final(self)@ == old(self)@.push(diag(msg_invalid_number(text@), span@, place, kind)),
    {
        proof {
            reveal_strlit("The number ");
            reveal_strlit(" isn't valid.");
        }
        let m = String::from_str("The number ").concat(text.as_str()).concat(" isn't valid.");
        self.report(m, span, place, kind);
    }

    /// Reports a name no visible declaration defines.
    pub fn report_undefined_name(&mut self, text: String, span: TextSpan, place: TextPlace, kind:
        TextType)
        ensures
            final(self)@ == old(self)@.push(diag(msg_undefined_name(text@), span@, place, kind)),
    {
        proof {
            reveal_strlit("Name ");
            reveal_strlit(" is undefined.");
        }
        let m = String::from_str("Name ").concat(text.as_str()).concat(" is undefined.");
        self.report(m, span, place, kind);
    }

    /// Reports a declaration of a name that is already visible.
    pub fn report_variable_already_declared(
        &mut self,
        text: String,
        span: TextSpan,
        place: TextPlace,
        kind: TextType,
    )
        ensures
            final(self)@ == old(self)@.push(
                diag(msg_already_declared(text@), span@, place, kind),
            ),
    {
        proof {
            reveal_strlit("Name ");
            reveal_strlit(" is already declared.");
        }
        let m = String::from_str("Name ").concat(text.as_str()).concat(" is already declared.");
        self.report(m, span, place, kind);
    }

    /// Reports an assignment to a name that was never declared.
    pub fn report_variable_not_declared(
        &mut self,
        text: String,
        span: TextSpan,
        place: TextPlace,
        kind: TextType,
    )
        ensures
            final(self)@ == old(self)@.push(diag(msg_not_declared(text@), span@, place, kind)),
    {
        proof {
            reveal_strlit("Name ");
            reveal_strlit(" is not declared yet.");
        }
        let m = String::from_str("Name ").concat(text.as_str()).concat(" is not declared yet.");
        self.report(m, span, place, kind);
    }

    /// Reports an assignment to a constant.
    pub fn report_constant_redefined(
        &mut self,
        text: String,
        span: TextSpan,
        place: TextPlace,
        kind: TextType,
    )
        ensures
            final(self)@ == old(self)@.push(
                diag(msg_constant_redefined(text@), span@, place, kind),
            ),
    {
        proof {
            reveal_strlit("Const ");
            reveal_strlit(" cannot be redefined.");
        }
        let m = String::from_str("Const ").concat(text.as_str()).concat(" cannot be redefined.");
        self.report(m, span, place, kind);
    }

    /// Reports a character outside the language's alphabet.
    pub fn report_invalid_character(
        &mut self,
        ch: char,
        position: usize,
        place: TextPlace,
        kind: TextType,
    )
        ensures
            final(self)@ == old(self)@.push(
                diag(
                    msg_invalid_character(ch),
                    SpanV { start: position as int, length: 1 },
                    place,
                    kind,
                ),
            ),
    {
        proof {
            reveal_strlit("The character ");
            reveal_strlit(" isn't valid.");
        }
        let mut m = String::from_str("The character ");
        push_char(&mut m, ch);
        let m = m.concat(" isn't valid.");
        proof {
            assert(m@ =~= msg_invalid_character(ch));
        }
        self.report(m, TextSpan::new(position, 1), place, kind);
    }

    /// Reports a token the grammar did not expect at this position.
    pub fn report_unexpected_token(
        &mut self,
        value: String,
        span: TextSpan,
        token_kind: SyntaxKind,
        place: TextPlace,
        kind: TextType,
    )
        ensures
            final(self)@ == old(self)@.push(
                diag(msg_unexpected_token(token_kind, value@), span@, place, kind),
            ),
    {
        proof {
            reveal_strlit("Unexpected token ");
            reveal_strlit(" \"");
            reveal_strlit("\".");
        }
        let m = String::from_str("Unexpected token ").concat(kind_name(token_kind)).concat(
            " \"",
        ).concat(value.as_str()).concat("\".");
        self.report(m, span, place, kind);
    }

    /// Reports a binary operator applied to operand types it is not
    /// defined for.
    pub fn report_undefined_binary_operator(
        &mut self,
        operator: SyntaxKind,
        left: LiteralType,
        right: LiteralType,
        span: TextSpan,
        place: TextPlace,
        kind: TextType,
    )
        ensures
            final(self)@ == old(self)@.push(
                diag(msg_undefined_binary_operator(operator, left, right), span@, place, kind),
            ),
    {
        proof {
            reveal_strlit("Binary operator ");
            reveal_strlit(" is not defined for types ");
            reveal_strlit(" and ");
            reveal_strlit(".");
        }
        let m = String::from_str("Binary operator ").concat(kind_name(operator)).concat(
            " is not defined for types ",
        ).concat(literal_type_name(left)).concat(" and ").concat(literal_type_name(right)).concat(
            ".",
        );
        self.report(m, span, place, kind);
    }

    /// Reports a unary operator applied to an operand type it is not
    /// defined for.
    pub fn report_undefined_unary_operator(
        &mut self,
        operator: SyntaxKind,
        operand_type: LiteralType,
        span: TextSpan,
        place: TextPlace,
        kind: TextType,
    )
        ensures
            final(self)@ == old(self)@.push(
                diag(msg_undefined_unary_operator(operator, operand_type), span@, place, kind),
            ),
    {
        proof {
            reveal_strlit("Unary operator ");
            reveal_strlit(" is not defined for type ");
            reveal_strlit(".");
        }
        let m = String::from_str("Unary operator ").concat(kind_name(operator)).concat(
            " is not defined for type ",
        ).concat(literal_type_name(operand_type)).concat(".");
        self.report(m, span, place, kind);
    }

    /// Reports an expression whose static type differs from the one the
    /// surrounding construct expects.
    pub fn report_invalid_literal_type(
        &mut self,
        actual_type: LiteralType,
        expected_type: LiteralType,
        span: TextSpan,
        place: TextPlace,
        kind: TextType,
    )
        ensures
            final(self)@ == old(self)@.push(
                diag(msg_invalid_literal_type(actual_type, expected_type), span@, place, kind),
            ),
    {
        proof {
            reveal_strlit("Invalid literal type, actual ");
            reveal_strlit(" and expected ");
            reveal_strlit(".");
        }
        let m = String::from_str("Invalid literal type, actual ").concat(
            literal_type_name(actual_type),
        ).concat(" and expected ").concat(literal_type_name(expected_type)).concat(".");
        self.report(m, span, place, kind);
    }
}

/// The trace message recorded for each token the parser pulls from the
/// lexer.
pub open spec fn msg_token_trace(
    kind: SyntaxKind,
    position: int,
    value: crate::literals::LiteralValueV,
    vtype: LiteralType,
) -> Seq<char> {
    "Creating token (kind: "@ + spec_kind_name(kind) + ", position: "@ + dec_digits(position)
        + ", value: '"@ + crate::literals::spec_value_debug(value) + "', type of value: '"@
        + spec_literal_type_name(vtype) + "')"@
}

/// Builds the per-token trace message.
pub fn token_trace_message(
    kind: SyntaxKind,
    position: usize,
    value: &crate::literals::LiteralValue,
    vtype: LiteralType,
) -> (m: String)
    ensures
        m@ == msg_token_trace(kind, position as int, value@, vtype),
{
    proof {
        reveal_strlit("Creating token (kind: ");
        reveal_strlit(", position: ");
        reveal_strlit(", value: '");
        reveal_strlit("', type of value: '");
        reveal_strlit("')");
    }
    let pos = usize_to_string(position);
    let vdbg = crate::literals::value_debug(value);
    String::from_str("Creating token (kind: ").concat(kind_name(kind)).concat(
        ", position: ",
    ).concat(pos.as_str()).concat(", value: '").concat(vdbg.as_str()).concat(
        "', type of value: '",
    ).concat(literal_type_name(vtype)).concat("')")
}

} // verus!
