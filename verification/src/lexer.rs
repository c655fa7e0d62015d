//! The lexer: turns source text into a stream of tokens, reporting
//! invalid characters and out-of-range numeric literals.

use vstd::prelude::*;

use crate::literals::LiteralValue;
use crate::literals::LiteralValueV;
use crate::reports::DiagV;
use crate::reports::Diagnostics;
use crate::reports::SpanV;
use crate::reports::TextPlace;
use crate::reports::TextSpan;
use crate::reports::TextType;
use crate::reports::diag;
use crate::reports::msg_invalid_character;
use crate::reports::msg_invalid_number;
use crate::syntax_kind::SyntaxKind;
use crate::syntax_kind::spec_keyword_kind;
use crate::syntax_token::SyntaxToken;
use crate::syntax_token::TokenV;
use crate::text::alphabetic_class;
use crate::text::digit_char;
use crate::text::digit_val;
use crate::text::digits_value;
use crate::text::is_alphabetic_char;
use crate::text::is_digit_char;
use crate::text::is_whitespace_char;
use crate::text::whitespace_class;

verus! {

/// The character of `text` at `i`, or the NUL sentinel past either end.
pub open spec fn char_at(text: Seq<char>, i: int) -> char {
    if 0 <= i < text.len() {
        text[i]
    } else {
        '\0'
    }
}

/// The end of the run of decimal digits starting at `pos`.
pub open spec fn scan_digits_end(text: Seq<char>, pos: int) -> int
    decreases text.len() - pos,
{
    if 0 <= pos < text.len() && is_digit_char(text[pos]) {
        scan_digits_end(text, pos + 1)
    } else {
        pos
    }
}

/// The end of the run of whitespace characters starting at `pos`.
pub open spec fn scan_ws_end(text: Seq<char>, pos: int) -> int
    decreases text.len() - pos,
{
    if 0 <= pos < text.len() && whitespace_class(text[pos]) {
        scan_ws_end(text, pos + 1)
    } else {
        pos
    }
}

/// The end of the run of alphabetic characters starting at `pos`.
pub open spec fn scan_alpha_end(text: Seq<char>, pos: int) -> int
    decreases text.len() - pos,
{
    if 0 <= pos < text.len() && alphabetic_class(text[pos]) {
        scan_alpha_end(text, pos + 1)
    } else {
        pos
    }
}

/// What one lexing step yields: the token, the cursor after it, and the
/// diagnostics it reported.
pub struct LexStep {
    pub token: TokenV,
    pub new_pos: int,
    pub diags: Seq<DiagV>,
}

/// A token value without a diagnostic.
pub open spec fn plain_step(token: TokenV, new_pos: int) -> LexStep {
    LexStep { token, new_pos, diags: Seq::empty() }
}

/// The token for the end of the input.
pub open spec fn eof_token(pos: int) -> TokenV {
    TokenV {
        name: "EOF"@,
        value: LiteralValueV::Str("EOF"@),
        position: pos,
        kind: SyntaxKind::Eof,
        length: 1,
    }
}

/// One lexing step on a numeric literal.
pub open spec fn spec_number_step(text: Seq<char>, pos: int) -> LexStep {
    let end = scan_digits_end(text, pos);
    let run = text.subrange(pos, end);
    let v = digits_value(run);
    if v <= i32::MAX {
        plain_step(
            TokenV {
                name: run,
                value: LiteralValueV::Integer(v),
                position: pos,
                kind: SyntaxKind::Number,
                length: end - pos,
            },
            end,
        )
    } else {
        LexStep {
            token: TokenV {
                name: run,
                value: LiteralValueV::Str(run),
                position: pos,
                kind: SyntaxKind::BadToken,
                length: end - pos,
            },
            new_pos: end,
            diags: seq![
                diag(
                    msg_invalid_number(run),
                    SpanV { start: pos, length: end - pos },
                    TextPlace::Lexical,
                    TextType::Error,
                ),
            ],
        }
    }
}

/// One lexing step on a whitespace run: a single marker token that the
/// parser later drops.
pub open spec fn spec_ws_step(text: Seq<char>, pos: int) -> LexStep {
    plain_step(
        TokenV {
            name: "WhiteSpace"@,
            value: LiteralValueV::Str("WhiteSpace"@),
            position: pos,
            kind: SyntaxKind::WhiteSpace,
            length: 1,
        },
        scan_ws_end(text, pos),
    )
}

/// One lexing step on an alphabetic run: a keyword, a boolean literal
/// or an identifier.
pub open spec fn spec_word_step(text: Seq<char>, pos: int) -> LexStep {
    let end = scan_alpha_end(text, pos);
    let word = text.subrange(pos, end);
    let kind = spec_keyword_kind(word);
    let value = if kind == SyntaxKind::True {
        LiteralValueV::Boolean(true)
    } else if kind == SyntaxKind::False {
        LiteralValueV::Boolean(false)
    } else {
        LiteralValueV::Str(word)
    };
    plain_step(TokenV { name: word, value, position: pos, kind, length: end - pos }, end)
}

/// A single-character token.
pub open spec fn one_char_step(text: Seq<char>, pos: int, kind: SyntaxKind) -> LexStep {
    let run = seq![char_at(text, pos)];
    plain_step(
        TokenV { name: run, value: LiteralValueV::Str(run), position: pos, kind, length: 1 },
        pos + 1,
    )
}

/// A two-character operator token.
pub open spec fn two_char_step(text: Seq<char>, pos: int, kind: SyntaxKind) -> LexStep {
    let run = seq![char_at(text, pos), char_at(text, pos + 1)];
    plain_step(
        TokenV { name: run, value: LiteralValueV::Str(run), position: pos, kind, length: 2 },
        pos + 2,
    )
}

/// One lexing step on an operator or punctuation character; anything
/// unrecognized is reported and becomes a bad token.
pub open spec fn spec_operator_step(text: Seq<char>, pos: int) -> LexStep {
    let c = char_at(text, pos);
    let l = char_at(text, pos + 1);
    if c == '+' {
        one_char_step(text, pos, SyntaxKind::Plus)
    } else if c == '-' {
        one_char_step(text, pos, SyntaxKind::Minus)
    } else if c == '*' {
        one_char_step(text, pos, SyntaxKind::Mul)
    } else if c == '/' {
        one_char_step(text, pos, SyntaxKind::Div)
    } else if c == '&' && l == '&' {
        two_char_step(text, pos, SyntaxKind::AmpersandAmpersand)
    } else if c == '|' && l == '|' {
        two_char_step(text, pos, SyntaxKind::PipePipe)
    } else if c == '=' && l == '=' {
        two_char_step(text, pos, SyntaxKind::EqualsEquals)
    } else if c == '!' && l == '=' {
        two_char_step(text, pos, SyntaxKind::BangEquals)
    } else if c == '!' {
        one_char_step(text, pos, SyntaxKind::Bang)
    } else if c == '<' && l == '=' {
        two_char_step(text, pos, SyntaxKind::LessOrEquals)
    } else if c == '<' {
        one_char_step(text, pos, SyntaxKind::Less)
    } else if c == '>' && l == '=' {
        two_char_step(text, pos, SyntaxKind::GreaterOrEquals)
    } else if c == '>' {
        one_char_step(text, pos, SyntaxKind::Greater)
    } else if c == '=' {
        one_char_step(text, pos, SyntaxKind::Equals)
    } else if c == '{' {
        one_char_step(text, pos, SyntaxKind::OpenBrace)
    } else if c == '}' {
        one_char_step(text, pos, SyntaxKind::CloseBrace)
    } else if c == ';' {
        one_char_step(text, pos, SyntaxKind::Semicolon)
    } else {
        let base = one_char_step(text, pos, SyntaxKind::BadToken);
        LexStep {
            token: base.token,
            new_pos: base.new_pos,
            diags: seq![
                diag(
                    msg_invalid_character(c),
                    SpanV { start: pos, length: 1 },
                    TextPlace::Lexical,
                    TextType::Error,
                ),
            ],
        }
    }
}

/// One full lexing step at `pos`: which class of token starts here and
/// what it lexes to.
pub open spec fn spec_next_token(text: Seq<char>, pos: int) -> LexStep {
    let c = char_at(text, pos);
    if c == '\0' {
        plain_step(eof_token(pos), pos)
    } else if is_digit_char(c) {
        spec_number_step(text, pos)
    } else if whitespace_class(c) {
        spec_ws_step(text, pos)
    } else if c == '(' {
        one_char_step(text, pos, SyntaxKind::OpenParenthesis)
    } else if c == ')' {
        one_char_step(text, pos, SyntaxKind::CloseParenthesis)
    } else if alphabetic_class(c) {
        spec_word_step(text, pos)
    } else {
        spec_operator_step(text, pos)
    }
}

/// A lexing step never moves the cursor backwards, and moves it
/// forwards unless it produced the end-of-input token.
pub proof fn lemma_next_token_advances(text: Seq<char>, pos: int)
    requires
        0 <= pos,
    ensures
        spec_next_token(text, pos).new_pos >= pos,
        spec_next_token(text, pos).token.kind != SyntaxKind::Eof ==> spec_next_token(
            text,
            pos,
        ).new_pos > pos,
{
    lemma_scan_bounds(text, pos);
    lemma_scan_bounds(text, pos + 1);
}

/// Each scan ends at or after its start, and strictly after it when the
/// first character belongs to the scanned class.
pub proof fn lemma_scan_bounds(text: Seq<char>, pos: int)
    requires
        0 <= pos,
    ensures
        scan_digits_end(text, pos) >= pos,
        scan_ws_end(text, pos) >= pos,
        scan_alpha_end(text, pos) >= pos,
        scan_digits_end(text, pos) <= text.len() || scan_digits_end(text, pos) == pos,
        scan_ws_end(text, pos) <= text.len() || scan_ws_end(text, pos) == pos,
        scan_alpha_end(text, pos) <= text.len() || scan_alpha_end(text, pos) == pos,
    decreases text.len() - pos,
{
    if pos < text.len() {
        lemma_scan_bounds(text, pos + 1);
    }
}

/// The lexer: a cursor over the source text.
pub struct Lexer {
    text: String,
    position: usize,
}

/// The mathematical state of the lexer.
pub struct LexerV {
    pub text: Seq<char>,
    pub position: int,
}

impl View for Lexer {
    type V = LexerV;

    closed spec fn view(&self) -> LexerV {
        LexerV { text: self.text@, position: self.position as int }
    }
}

impl Lexer {
    /// A lexer over in-memory source text, with the cursor at the start.
    pub fn in_memory_reader(text: &str) -> (l: Lexer)
        ensures
            l@.text == text@,
            l@.position == 0,
    {
        Lexer { text: String::from_str(text), position: 0 }
    }

    /// The character at `offset` past the cursor, or NUL past the end.
    fn peek(&self, offset: usize) -> (c: char)
        ensures
            c == char_at(self@.text, self@.position + offset),
    {
        let n = self.text.as_str().unicode_len();
        if self.position >= n {
            return '\0';
        }
        if offset >= n - self.position {
            return '\0';
        }
        self.text.as_str().get_char(self.position + offset)
    }

    /// The character under the cursor.
    fn current(&self) -> (c: char)
        ensures
            c == char_at(self@.text, self@.position),
    {
        self.peek(0)
    }

    /// The character just past the cursor.
    fn lookahead(&self) -> (c: char)
        ensures
            c == char_at(self@.text, self@.position + 1),
    {
        self.peek(1)
    }

    /// Moves the cursor one character forward.
    fn next(&mut self)
        requires
            old(self)@.position < old(self)@.text.len(),
        ensures
            final(self)@.text == old(self)@.text,
            final(self)@.position == old(self)@.position + 1,
    {
        let n = self.text.as_str().unicode_len();
        proof {
            assert(self.position < n);
        }
        self.position = self.position + 1;
    }

    /// Lexes one operator or punctuation token at the cursor, reporting
    /// an unrecognized character.
    fn create_operator(&mut self, diagnostics: &mut Diagnostics) -> (t: SyntaxToken)
        requires
            old(self)@.position < old(self)@.text.len(),
        ensures
            final(self)@.text == old(self)@.text,
            ({
                let st = spec_operator_step(old(self)@.text, old(self)@.position);
                t@ == st.token && final(self)@.position == st.new_pos && final(diagnostics)@
                    == old(diagnostics)@ + st.diags
            }),
    {
        let c = self.current();
        let l = self.lookahead();
        let mut double_jump = false;
        let kind: SyntaxKind = if c == '+' {
            SyntaxKind::Plus
        } else if c == '-' {
            SyntaxKind::Minus
        } else if c == '*' {
            SyntaxKind::Mul
        } else if c == '/' {
            SyntaxKind::Div
        } else if c == '&' && l == '&' {
            double_jump = true;
            SyntaxKind::AmpersandAmpersand
        } else if c == '|' && l == '|' {
            double_jump = true;
            SyntaxKind::PipePipe
        } else if c == '=' && l == '=' {
            double_jump = true;
            SyntaxKind::EqualsEquals
        } else if c == '!' && l == '=' {
            double_jump = true;
            SyntaxKind::BangEquals
        } else if c == '!' {
            SyntaxKind::Bang
        } else if c == '<' && l == '=' {
            double_jump = true;
            SyntaxKind::LessOrEquals
        } else if c == '<' {
            SyntaxKind::Less
        } else if c == '>' && l == '=' {
            double_jump = true;
            SyntaxKind::GreaterOrEquals
        } else if c == '>' {
            SyntaxKind::Greater
        } else if c == '=' {
            SyntaxKind::Equals
        } else if c == '{' {
            SyntaxKind::OpenBrace
        } else if c == '}' {
            SyntaxKind::CloseBrace
        } else if c == ';' {
            SyntaxKind::Semicolon
        } else {
            diagnostics.report_invalid_character(
                c,
                self.position,
                TextPlace::Lexical,
                TextType::Error,
            );
            SyntaxKind::BadToken
        };
        let start = self.position;
        let mut value = String::new();
        crate::reports::push_char(&mut value, c);
        self.next();
        if double_jump {
            assert(self@.position < self@.text.len());
            crate::reports::push_char(&mut value, l);
            self.next();
        }
        let len: usize = if double_jump {
            2
        } else {
            1
        };
        let name = value.clone();
        let t = SyntaxToken::new(name, LiteralValue::String(value), start, kind, len);
        proof {
            let st = spec_operator_step(old(self)@.text, old(self)@.position);
            assert(t@.name =~= st.token.name);
            assert(t@ == st.token);
        }
        t
    }

    /// Lexes the run of digits at the cursor into an integer token, or
    /// reports an out-of-range literal and yields a bad token.
    fn create_number_token(&mut self, diagnostics: &mut Diagnostics) -> (t: SyntaxToken)
        requires
            old(self)@.position < old(self)@.text.len(),
            is_digit_char(old(self)@.text[old(self)@.position]),
        ensures
            final(self)@.text == old(self)@.text,
            ({
                let st = spec_number_step(old(self)@.text, old(self)@.position);
                t@ == st.token && final(self)@.position == st.new_pos && final(diagnostics)@
                    == old(diagnostics)@ + st.diags
            }),
    {
        let ghost text = self@.text;
        let ghost end = scan_digits_end(text, self@.position);
        let start = self.position;
        let mut acc: u64 = 0;
        let mut too_big = false;
        proof {
            assert(text.subrange(start as int, start as int) =~= Seq::<char>::empty());
        }
        loop
            invariant
                self@.text == text,
                start <= self@.position,
                self@.position <= text.len(),
                end == scan_digits_end(text, self@.position),
                end == scan_digits_end(text, start as int),
                !too_big ==> acc == digits_value(text.subrange(start as int, self@.position))
                    && acc <= i32::MAX,
                too_big ==> digits_value(text.subrange(start as int, self@.position))
                    > i32::MAX,
            ensures
                self@.text == text,
                start <= self@.position <= text.len(),
                self@.position == end,
                !too_big ==> acc == digits_value(text.subrange(start as int, end)) && acc
                    <= i32::MAX,
                too_big ==> digits_value(text.subrange(start as int, end)) > i32::MAX,
            decreases text.len() - self@.position,
        {
            let c = self.current();
            if !digit_char(c) {
                break ;
            }
            proof {
                assert(self@.position < text.len());
                assert(text.subrange(start as int, self@.position + 1).drop_last()
                    =~= text.subrange(start as int, self@.position as int));
                assert(text.subrange(start as int, self@.position + 1).last() == c);
            }
            let d: u64 = (c as u32 as u64) - 48;
            if !too_big {
                let next_acc: u64 = acc * 10 + d;
                if next_acc > 0x7fffffff {
                    too_big = true;
                } else {
                    acc = next_acc;
                }
                proof {
                    let run1 = text.subrange(start as int, self@.position + 1);
                    assert(digits_value(run1) == digits_value(run1.drop_last()) * 10
                        + digit_val(c));
                }
            } else {
                proof {
                    let run0 = text.subrange(start as int, self@.position as int);
                    let run1 = text.subrange(start as int, self@.position + 1);
                    assert(digits_value(run1) == digits_value(run0) * 10 + digit_val(c));
                    assert(digits_value(run0) > i32::MAX);
                }
            }
            self.next();
        }
        let run = self.text.as_str().substring_char(start, self.position);
        let value = String::from_str(run);
        let len = self.position - start;
        proof {
            assert(value@ == text.subrange(start as int, end));
        }
        if !too_big {
            let number: i32 = acc as i32;
            SyntaxToken::new(
                value,
                LiteralValue::Integer(number),
                start,
                SyntaxKind::Number,
                len,
            )
        } else {
            diagnostics.report_invalid_number(
                value.clone(),
                TextSpan::new(start, len),
                TextPlace::Lexical,
                TextType::Error,
            );
            let name = value.clone();
            SyntaxToken::new(
                name,
                LiteralValue::String(value),
                start,
                SyntaxKind::BadToken,
                len,
            )
        }
    }

    /// Consumes the run of whitespace at the cursor into one marker
    /// token.
    fn create_white_space_token(&mut self) -> (t: SyntaxToken)
        requires
            old(self)@.position < old(self)@.text.len(),
            whitespace_class(old(self)@.text[old(self)@.position]),
        ensures
            final(self)@.text == old(self)@.text,
            ({
                let st = spec_ws_step(old(self)@.text, old(self)@.position);
                t@ == st.token && final(self)@.position == st.new_pos
            }),
    {
        let ghost text = self@.text;
        let ghost end = scan_ws_end(text, self@.position);
        let start = self.position;
        loop
            invariant
                self@.text == text,
                start <= self@.position,
                self@.position <= text.len(),
                end == scan_ws_end(text, self@.position),
            ensures
                self@.text == text,
                self@.position == end,
            decreases text.len() - self@.position,
        {
            let c = self.current();
            if !is_whitespace_char(c) {
                break ;
            }
            proof {
                assert(self@.position < text.len());
            }
            self.next();
        }
        proof {
            reveal_strlit("WhiteSpace");
        }
        SyntaxToken::new(
            String::from_str("WhiteSpace"),
            LiteralValue::String(String::from_str("WhiteSpace")),
            start,
            SyntaxKind::WhiteSpace,
            1,
        )
    }

    /// Lexes the alphabetic run at the cursor into a keyword, boolean
    /// literal or identifier token.
    fn create_keyword_identifier(&mut self) -> (t: SyntaxToken)
        requires
            old(self)@.position < old(self)@.text.len(),
            alphabetic_class(old(self)@.text[old(self)@.position]),
        ensures
            final(self)@.text == old(self)@.text,
            ({
                let st = spec_word_step(old(self)@.text, old(self)@.position);
                t@ == st.token && final(self)@.position == st.new_pos
            }),
    {
        let ghost text = self@.text;
        let ghost end = scan_alpha_end(text, self@.position);
        let start = self.position;
        loop
            invariant
                self@.text == text,
                start <= self@.position,
                self@.position <= text.len(),
                end == scan_alpha_end(text, self@.position),
            ensures
                self@.text == text,
                start <= self@.position <= text.len(),
                self@.position == end,
            decreases text.len() - self@.position,
        {
            let c = self.current();
            if !is_alphabetic_char(c) {
                break ;
            }
            proof {
                assert(self@.position < text.len());
            }
            self.next();
        }
        let word = self.text.as_str().substring_char(start, self.position);
        let value = String::from_str(word);
        let len = self.position - start;
        let kind = SyntaxKind::get_keyword_kind(value.as_str());
        if matches!(kind, SyntaxKind::True) {
            SyntaxToken::new(value, LiteralValue::Boolean(true), start, kind, len)
        } else if matches!(kind, SyntaxKind::False) {
            SyntaxToken::new(value, LiteralValue::Boolean(false), start, kind, len)
        } else {
            let name = value.clone();
            SyntaxToken::new(name, LiteralValue::String(value), start, kind, len)
        }
    }

    /// Lexes one parenthesis token.
    fn create_parenthesis_token(&mut self, kind: SyntaxKind) -> (t: SyntaxToken)
        requires
            old(self)@.position < old(self)@.text.len(),
        ensures
            final(self)@.text == old(self)@.text,
            ({
                let st = one_char_step(old(self)@.text, old(self)@.position, kind);
                t@ == st.token && final(self)@.position == st.new_pos
            }),
    {
        let start = self.position;
        let c = self.current();
        let mut value = String::new();
        crate::reports::push_char(&mut value, c);
        self.next();
        let name = value.clone();
        proof {
            assert(value@ =~= seq![char_at(self@.text, start as int)]);
        }
        SyntaxToken::new(name, LiteralValue::String(value), start, kind, 1)
    }

    /// Produces the next token at the cursor: end of input, a number,
    /// whitespace, a parenthesis, a word, or an operator, in that
    /// priority order.
    pub fn next_token(&mut self, diagnostics: &mut Diagnostics) -> (t: SyntaxToken)
        ensures
            final(self)@.text == old(self)@.text,
            ({
                let st = spec_next_token(old(self)@.text, old(self)@.position);
                t@ == st.token && final(self)@.position == st.new_pos && final(diagnostics)@
                    == old(diagnostics)@ + st.diags
            }),
    {
        let ghost st = spec_next_token(old(self)@.text, old(self)@.position);
        let c = self.current();
        if c == '\0' {
            proof {
                reveal_strlit("EOF");
                assert(final(diagnostics)@ =~= old(diagnostics)@ + st.diags);
            }
            return SyntaxToken::new(
                String::from_str("EOF"),
                LiteralValue::String(String::from_str("EOF")),
                self.position,
                SyntaxKind::Eof,
                1,
            );
        }
        proof {
            assert(self@.position < self@.text.len());
        }
        if digit_char(c) {
            let t = self.create_number_token(diagnostics);
            return t;
        }
        if is_whitespace_char(c) {
            let t = self.create_white_space_token();
            proof {
                assert(final(diagnostics)@ =~= old(diagnostics)@ + st.diags);
            }
            return t;
        }
        if c == '(' || c == ')' {
            let kind = if c == '(' {
                SyntaxKind::OpenParenthesis
            } else {
                SyntaxKind::CloseParenthesis
            };
            let t = self.create_parenthesis_token(kind);
            proof {
                assert(final(diagnostics)@ =~= old(diagnostics)@ + st.diags);
            }
            return t;
        }
        if is_alphabetic_char(c) {
            let t = self.create_keyword_identifier();
            proof {
                assert(final(diagnostics)@ =~= old(diagnostics)@ + st.diags);
            }
            return t;
        }
        self.create_operator(diagnostics)
    }
}

} // verus!
