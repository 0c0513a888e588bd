//! Source text: comparison, numerals, string literals, and the questions
//! about Rust syntax that are put to `syn` and `heck`.

use heck::CamelCase;
use vstd::prelude::*;
use vstd::string::{StrSliceExecFns, StringExecFns};

verus! {

/// `String::push` of the standard library: the character is appended to the
/// string, as the library's documentation says.
pub assume_specification[ String::push ](s: &mut String, c: char)
    ensures
        final(s)@ == old(s)@.push(c),
;

/// Whether two pieces of text hold the same characters.
pub fn text_eq(a: &str, b: &str) -> (same: bool)
    ensures
        same == (a@ == b@),
{
    let x = a.to_string();
    let y = b.to_string();
    x == y
}

/// The character that writes a digit below ten.
pub open spec fn digit_char(d: nat) -> char
    recommends
        d < 10,
{
    (48 + d) as char
}

/// The decimal numeral of a number, without leading zeros.
pub open spec fn decimal(n: nat) -> Seq<char>
    decreases n,
{
    if n < 10 {
        seq![digit_char(n)]
    } else {
        decimal(n / 10).push(digit_char(n % 10))
    }
}

/// Writes a number as its decimal numeral.
pub fn decimal_text(n: usize) -> (text: String)
    ensures
        text@ == decimal(n as nat),
    decreases n,
{
    if n < 10 {
        let mut text = String::new();
        text.push((48u8 + n as u8) as char);
        assert(text@ =~= seq![digit_char(n as nat)]);
        text
    } else {
        let mut text = decimal_text(n / 10);
        text.push((48u8 + (n % 10) as u8) as char);
        text
    }
}

/// How one character is written inside a string literal.
pub open spec fn escaped_char(c: char) -> Seq<char> {
    if c == '"' {
        seq!['\\', '"']
    } else if c == '\\' {
        seq!['\\', '\\']
    } else if c == '\n' {
        seq!['\\', 'n']
    } else if c == '\r' {
        seq!['\\', 'r']
    } else if c == '\t' {
        seq!['\\', 't']
    } else if c == '\0' {
        seq!['\\', 'x', '0', '0']
    } else {
        seq![c]
    }
}

/// The characters of a text as they are written inside a string literal.
pub open spec fn escaped(s: Seq<char>) -> Seq<char>
    decreases s.len(),
{
    if s.len() == 0 {
        Seq::empty()
    } else {
        escaped(s.drop_last()) + escaped_char(s.last())
    }
}

/// The string literal that denotes a text: its escaped characters between
/// double quotes.
pub open spec fn quoted(s: Seq<char>) -> Seq<char> {
    seq!['"'] + escaped(s) + seq!['"']
}

/// Appends to `out` the way `c` is written inside a string literal.
fn push_escaped(out: &mut String, c: char)
    ensures
        final(out)@ == old(out)@ + escaped_char(c),
{
    if c == '"' {
        out.push('\\');
        out.push('"');
    } else if c == '\\' {
        out.push('\\');
        out.push('\\');
    } else if c == '\n' {
        out.push('\\');
        out.push('n');
    } else if c == '\r' {
        out.push('\\');
        out.push('r');
    } else if c == '\t' {
        out.push('\\');
        out.push('t');
    } else if c == '\0' {
        out.push('\\');
        out.push('x');
        out.push('0');
        out.push('0');
    } else {
        out.push(c);
    }
    assert(out@ =~= old(out)@ + escaped_char(c));
}

/// Writes the string literal that denotes `s`.
pub fn quote_text(s: &str) -> (literal: String)
    ensures
        literal@ == quoted(s@),
{
    let mut out = String::new();
    out.push('"');
    let n = s.unicode_len();
    let mut i: usize = 0;
    while i < n
        invariant
            n == s@.len(),
            i <= n,
            out@ == seq!['"'] + escaped(s@.take(i as int)),
        decreases n - i,
    {
        let c = s.get_char(i);
        proof {
            assert(s@.take(i + 1).drop_last() =~= s@.take(i as int));
        }
        push_escaped(&mut out, c);
        assert(out@ =~= seq!['"'] + escaped(s@.take(i + 1)));
        i = i + 1;
    }
    proof {
        assert(s@.take(n as int) =~= s@);
    }
    out.push('"');
    assert(out@ =~= quoted(s@));
    out
}

/// The character that an escape with the letter `c` after the backslash
/// denotes.
pub open spec fn escape_value(c: char) -> char {
    if c == 'n' {
        '\n'
    } else if c == 'r' {
        '\r'
    } else if c == 't' {
        '\t'
    } else if c == '0' {
        '\0'
    } else {
        c
    }
}

/// The text that the inside of a string literal denotes, as far as the
/// escapes of [`escaped_char`] go: a backslash and `x00` is the character
/// zero, a backslash and a letter is what [`escape_value`] says, and every
/// other character is itself.
pub open spec fn unescaped(s: Seq<char>) -> Seq<char>
    decreases s.len(),
{
    if s.len() == 0 {
        Seq::empty()
    } else if s[0] == '\\' && s.len() >= 4 && s[1] == 'x' && s[2] == '0' && s[3] == '0' {
        seq!['\0'] + unescaped(s.skip(4))
    } else if s[0] == '\\' && s.len() >= 2 {
        seq![escape_value(s[1])] + unescaped(s.skip(2))
    } else {
        seq![s[0]] + unescaped(s.skip(1))
    }
}

/// Reading escaped text that is followed by more text gives the text that
/// was escaped, followed by the reading of the rest.
proof fn unescaped_after(t: Seq<char>, rest: Seq<char>)
    ensures
        unescaped(escaped(t) + rest) == t + unescaped(rest),
    decreases t.len(),
{
    if t.len() == 0 {
        assert(escaped(t) + rest =~= rest);
        assert(t + unescaped(rest) =~= unescaped(rest));
    } else {
        let c = t.last();
        let front = t.drop_last();
        let tail = escaped_char(c) + rest;
        assert(escaped(t) + rest =~= escaped(front) + tail);
        unescaped_after(front, tail);
        assert(tail.skip(escaped_char(c).len() as int) =~= rest);
        assert(unescaped(tail) == seq![c] + unescaped(rest));
        assert(front + (seq![c] + unescaped(rest)) =~= t + unescaped(rest));
    }
}

/// The inside of the string literal that is written for a text denotes
/// that text.
pub proof fn escaped_reads_back(s: Seq<char>)
    ensures
        unescaped(escaped(s)) == s,
{
    unescaped_after(s, Seq::empty());
    assert(escaped(s) + Seq::<char>::empty() =~= escaped(s));
    assert(s + unescaped(Seq::<char>::empty()) =~= s);
}

/// The text with each of its words capitalised and joined without
/// separators, as `heck` writes camel case.
pub uninterp spec fn camel_case(text: Seq<char>) -> Seq<char>;

/// `heck::CamelCase::to_camel_case` on a string slice. The result is a
/// function of the text alone; nothing more is claimed of it.
#[verifier::external_body]
pub(crate) fn to_camel_case(text: &str) -> (camel: String)
    ensures
        camel@ == camel_case(text@),
{
    text.to_camel_case()
}

/// Whether a character is a letter or a digit of ASCII, or an underscore:
/// a character that continues a word and never begins a token behind one.
pub open spec fn is_word_char(c: char) -> bool {
    ('a' <= c && c <= 'z') || ('A' <= c && c <= 'Z') || ('0' <= c && c <= '9') || c == '_'
}

/// Whether a C string literal may begin at position `p` of a text: the
/// letter `c` stands there, not behind a word character, and is followed by
/// a quotation mark, or by `r` and a quotation mark or a hash sign.
pub open spec fn c_string_at(text: Seq<char>, p: int) -> bool {
    &&& 0 <= p < text.len()
    &&& text[p] == 'c'
    &&& p == 0 || !is_word_char(text[p - 1])
    &&& {
        ||| p + 1 < text.len() && text[p + 1] == '"'
        ||| p + 2 < text.len() && text[p + 1] == 'r' && (text[p + 2] == '"' || text[p + 2] == '#')
    }
}

/// Whether the mark that stands for a failed macro expansion,
/// `(/*ERROR*/)`, is written at position `p` of a text.
pub open spec fn error_mark_at(text: Seq<char>, p: int) -> bool {
    &&& 0 <= p
    &&& p + 11 <= text.len()
    &&& text[p] == '('
    &&& text[p + 1] == '/'
    &&& text[p + 2] == '*'
    &&& text[p + 3] == 'E'
    &&& text[p + 4] == 'R'
    &&& text[p + 5] == 'R'
    &&& text[p + 6] == 'O'
    &&& text[p + 7] == 'R'
    &&& text[p + 8] == '*'
    &&& text[p + 9] == '/'
    &&& text[p + 10] == ')'
}

/// Where a reader of source text stands that knows string literals only.
#[derive(Debug, Clone, Copy, PartialEq, Eq, Structural)]
pub enum Mode {
    /// Outside of string literals.
    Code,
    /// Inside a string literal.
    Text,
    /// Inside a string literal, behind a backslash.
    Escape,
}

impl Mode {
    /// Where the reader stands after one more character: a quotation mark
    /// opens a string literal, and closes it unless a backslash stands
    /// before it.
    pub open spec fn after(self, c: char) -> Mode {
        match self {
            Mode::Code => if c == '"' {
                Mode::Text
            } else {
                Mode::Code
            },
            Mode::Text => if c == '\\' {
                Mode::Escape
            } else if c == '"' {
                Mode::Code
            } else {
                Mode::Text
            },
            Mode::Escape => Mode::Text,
        }
    }

    fn step(self, c: char) -> (next: Mode)
        ensures
            next == self.after(c),
    {
        match self {
            Mode::Code => if c == '"' {
                Mode::Text
            } else {
                Mode::Code
            },
            Mode::Text => if c == '\\' {
                Mode::Escape
            } else if c == '"' {
                Mode::Code
            } else {
                Mode::Text
            },
            Mode::Escape => Mode::Text,
        }
    }
}

/// Where the reader stands before position `p` of a text.
pub open spec fn mode_at(text: Seq<char>, p: int) -> Mode
    decreases p,
{
    if p <= 0 {
        Mode::Code
    } else {
        mode_at(text, p - 1).after(text[p - 1])
    }
}

/// Whether something other than a plain string literal may begin at
/// position `p` of a text that can hold a quotation mark: an apostrophe (a
/// character or byte literal), a comment (`//` or `/*`), or a raw literal
/// (`r` before a quotation mark or a hash sign).
pub open spec fn other_quoting_at(text: Seq<char>, p: int) -> bool {
    &&& 0 <= p < text.len()
    &&& {
        ||| text[p] == '\''
        ||| text[p] == '/' && p + 1 < text.len() && (text[p + 1] == '/' || text[p + 1] == '*')
        ||| text[p] == 'r' && p + 1 < text.len() && (text[p + 1] == '"' || text[p + 1] == '#')
    }
}

/// Whether no literal that `syn` does not know can begin anywhere in a
/// text, wherever its string literals begin and end.
pub open spec fn is_free_of_unknown(text: Seq<char>) -> bool {
    forall|p: int| 0 <= p < text.len() ==> !c_string_at(text, p) && !error_mark_at(text, p)
}

/// Whether quotation marks alone quote in a text: it holds no apostrophe,
/// no comment and no raw literal.
pub open spec fn is_plainly_quoted(text: Seq<char>) -> bool {
    forall|p: int| 0 <= p < text.len() ==> !other_quoting_at(text, p)
}

/// Whether no C string literal can begin outside of the string literals of a
/// text, read as a text in which quotation marks alone quote.
pub open spec fn is_free_in_code(text: Seq<char>) -> bool {
    forall|p: int| 0 <= p < text.len() ==> !(mode_at(text, p) is Code && c_string_at(text, p))
}

/// Whether every literal that is lexed from a text is of a kind that `syn`
/// reads. `syn` reads strings, byte strings, bytes, characters and numbers;
/// it stops the program on a C string literal and on the mark of a failed
/// macro expansion. A text is taken as readable where neither can begin
/// anywhere in it, or where quotation marks alone quote in it and no C
/// string can begin outside of its string literals. This leaves out a few
/// texts that hold no such token: those that hold an apostrophe, a comment
/// or a raw literal, and a string literal in which ` c"` is written.
pub open spec fn is_readable(text: Seq<char>) -> bool {
    is_free_of_unknown(text) || (is_plainly_quoted(text) && is_free_in_code(text))
}

/// The characters of a text, one by one.
fn chars_of(text: &str) -> (chars: Vec<char>)
    ensures
        chars@ == text@,
{
    let mut chars: Vec<char> = Vec::new();
    for c in iter: text.chars()
        invariant
            chars@ == iter.seq().take(iter.index() as int),
            iter.seq() == text@,
    {
        chars.push(c);
        assert(iter.seq().take(iter.index() + 1) =~= iter.seq().take(iter.index() as int).push(
            c,
        ));
    }
    chars
}

fn word_char(c: char) -> (yes: bool)
    ensures
        yes == is_word_char(c),
{
    ('a' <= c && c <= 'z') || ('A' <= c && c <= 'Z') || ('0' <= c && c <= '9') || c == '_'
}

fn c_string_begins(chars: &Vec<char>, p: usize) -> (yes: bool)
    requires
        p < chars.len(),
    ensures
        yes == c_string_at(chars@, p as int),
{
    let n = chars.len();
    if chars[p] != 'c' {
        return false;
    }
    if p > 0 && word_char(chars[p - 1]) {
        return false;
    }
    if n - p > 1 && chars[p + 1] == '"' {
        return true;
    }
    n - p > 2 && chars[p + 1] == 'r' && (chars[p + 2] == '"' || chars[p + 2] == '#')
}

fn error_mark_begins(chars: &Vec<char>, p: usize) -> (yes: bool)
    requires
        p < chars.len(),
    ensures
        yes == error_mark_at(chars@, p as int),
{
    chars.len() - p >= 11 && chars[p] == '(' && chars[p + 1] == '/' && chars[p + 2] == '*'
        && chars[p + 3] == 'E' && chars[p + 4] == 'R' && chars[p + 5] == 'R' && chars[p + 6]
        == 'O' && chars[p + 7] == 'R' && chars[p + 8] == '*' && chars[p + 9] == '/' && chars[p
        + 10] == ')'
}

fn other_quoting_begins(chars: &Vec<char>, p: usize) -> (yes: bool)
    requires
        p < chars.len(),
    ensures
        yes == other_quoting_at(chars@, p as int),
{
    let n = chars.len();
    let c = chars[p];
    if c == '\'' {
        return true;
    }
    if n - p < 2 {
        return false;
    }
    let d = chars[p + 1];
    (c == '/' && (d == '/' || d == '*')) || (c == 'r' && (d == '"' || d == '#'))
}

/// Tells whether every literal that is lexed from a text is of a kind that
/// `syn` reads.
pub fn readable(text: &str) -> (yes: bool)
    ensures
        yes == is_readable(text@),
{
    let chars = chars_of(text);
    let mut mode = Mode::Code;
    let mut free_of_unknown = true;
    let mut plainly_quoted = true;
    let mut free_in_code = true;
    let mut p: usize = 0;
    while p < chars.len()
        invariant
            p <= chars.len(),
            chars@ == text@,
            mode == mode_at(text@, p as int),
            free_of_unknown == (forall|q: int|
                0 <= q < p ==> !c_string_at(text@, q) && !error_mark_at(text@, q)),
            plainly_quoted == (forall|q: int| 0 <= q < p ==> !other_quoting_at(text@, q)),
            free_in_code == (forall|q: int|
                0 <= q < p ==> !(mode_at(text@, q) is Code && c_string_at(text@, q))),
        decreases chars.len() - p,
    {
        let opens = c_string_begins(&chars, p);
        if opens || error_mark_begins(&chars, p) {
            free_of_unknown = false;
        }
        if other_quoting_begins(&chars, p) {
            plainly_quoted = false;
        }
        let in_code = match mode {
            Mode::Code => true,
            _ => false,
        };
        if opens && in_code {
            free_in_code = false;
        }
        mode = mode.step(chars[p]);
        p = p + 1;
    }
    free_of_unknown || (plainly_quoted && free_in_code)
}

/// Whether a text begins as a string literal does: with a quotation mark,
/// or with the `r` of a raw string.
pub open spec fn begins_as_string(text: Seq<char>) -> bool {
    text.len() > 0 && (text[0] == '"' || text[0] == 'r')
}

/// Whether a text is, token for token, one Rust type as `syn` parses types
/// from the tokens that `proc-macro2`'s own lexer reads.
pub uninterp spec fn is_type_syntax(text: Seq<char>) -> bool;

/// `syn::parse_str::<syn::Type>`, asked only whether it accepts the text.
/// `proc_macro2::fallback::force` and `unforce` stand around the call, so
/// that the text is lexed by `proc-macro2`'s own lexer in every process, and
/// the answer is a function of the text alone. The text has to be readable:
/// on a literal that it does not know, `syn` stops the program.
#[verifier::external_body]
pub(crate) fn parses_as_type(text: &str) -> (ok: bool)
    requires
        is_readable(text@),
    ensures
        ok == is_type_syntax(text@),
{
    proc_macro2::fallback::force();
    let ok = syn::parse_str::<syn::Type>(text).is_ok();
    proc_macro2::fallback::unforce();
    ok
}

/// Whether a text is, token for token, one Rust expression as `syn` parses
/// expressions from the tokens that `proc-macro2`'s own lexer reads.
pub uninterp spec fn is_expr_syntax(text: Seq<char>) -> bool;

/// `syn::parse_str::<syn::Expr>`, asked only whether it accepts the text,
/// between `proc_macro2::fallback::force` and `unforce` as in
/// [`parses_as_type`]. The text has to be readable.
#[verifier::external_body]
pub(crate) fn parses_as_expr(text: &str) -> (ok: bool)
    requires
        is_readable(text@),
    ensures
        ok == is_expr_syntax(text@),
{
    proc_macro2::fallback::force();
    let ok = syn::parse_str::<syn::Expr>(text).is_ok();
    proc_macro2::fallback::unforce();
    ok
}

/// The text that a string literal denotes, where the given source text is
/// exactly one string literal as `syn` reads it from the tokens that
/// `proc-macro2`'s own lexer reads, and nothing otherwise.
pub uninterp spec fn string_literal_value(text: Seq<char>) -> Option<Seq<char>>;

/// `syn::parse_str::<syn::LitStr>`, with the literal that was parsed handed
/// out as the text that `syn::LitStr::value` gives for it, between
/// `proc_macro2::fallback::force` and `unforce` as in [`parses_as_type`].
/// The text has to begin as a string literal does: `syn` looks at the first
/// token only, and stops the program where that is a literal it does not
/// know.
#[verifier::external_body]
pub(crate) fn parse_string_literal(text: &str) -> (value: Option<String>)
    requires
        begins_as_string(text@),
    ensures
        value.deep_view() == string_literal_value(text@),
{
    proc_macro2::fallback::force();
    let value = match syn::parse_str::<syn::LitStr>(text) {
        Ok(literal) => Some(literal.value()),
        Err(_) => None,
    };
    proc_macro2::fallback::unforce();
    value
}

/// Whether a text is one type: it is readable, and `syn` parses it as a
/// type.
pub open spec fn is_type(text: Seq<char>) -> bool {
    is_readable(text) && is_type_syntax(text)
}

/// Whether a text is one expression: it is readable, and `syn` parses it as
/// an expression.
pub open spec fn is_expr(text: Seq<char>) -> bool {
    is_readable(text) && is_expr_syntax(text)
}

/// The text that a text denotes as a string literal: what `syn` reads of
/// it where it begins as a string literal does, and nothing otherwise.
pub open spec fn string_value(text: Seq<char>) -> Option<Seq<char>> {
    if begins_as_string(text) {
        string_literal_value(text)
    } else {
        None
    }
}

/// Asks whether a text is one type. `syn` is asked only about a readable
/// text.
pub fn ask_type(text: &str) -> (yes: bool)
    ensures
        yes == is_type(text@),
{
    readable(text) && parses_as_type(text)
}

/// Asks whether a text is one expression. `syn` is asked only about a
/// readable text.
pub fn ask_expr(text: &str) -> (yes: bool)
    ensures
        yes == is_expr(text@),
{
    readable(text) && parses_as_expr(text)
}

/// Asks for the text that a text denotes as a string literal. `syn` is
/// asked only about a text that begins as a string literal does.
pub fn ask_string(text: &str) -> (value: Option<String>)
    ensures
        value.deep_view() == string_value(text@),
{
    let n = text.unicode_len();
    if n == 0 {
        return None;
    }
    let first = text.get_char(0);
    if first == '"' || first == 'r' {
        parse_string_literal(text)
    } else {
        None
    }
}

} // verus!
