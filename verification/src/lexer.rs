use vstd::prelude::*;
use vstd::string::StrSliceExecFns;

verus! {

/// One lexical unit of the minimal C subset: punctuation, a keyword carrying
/// its reserved word, an identifier carrying its text, or an unsigned
/// decimal constant carrying its numeric value.
#[derive(Debug, Clone, PartialEq)]
pub enum Token {
    Lparen,
    Rparen,
    Lbrace,
    Rbrace,
    Semicolon,
    Keyword(String),
    Identifier(String),
    Constant(u32),
}

/// The mathematical value of a [`Token`].
pub ghost enum TokenModel {
    Lparen,
    Rparen,
    Lbrace,
    Rbrace,
    Semicolon,
    Keyword(Seq<char>),
    Identifier(Seq<char>),
    Constant(u32),
}

impl View for Token {
    type V = TokenModel;

    open spec fn view(&self) -> TokenModel {
        match self {
            Token::Lparen => TokenModel::Lparen,
            Token::Rparen => TokenModel::Rparen,
            Token::Lbrace => TokenModel::Lbrace,
            Token::Rbrace => TokenModel::Rbrace,
            Token::Semicolon => TokenModel::Semicolon,
            Token::Keyword(s) => TokenModel::Keyword(s@),
            Token::Identifier(s) => TokenModel::Identifier(s@),
            Token::Constant(v) => TokenModel::Constant(*v),
        }
    }
}

impl DeepView for Token {
    type V = TokenModel;

    open spec fn deep_view(&self) -> TokenModel {
        self.view()
    }
}

/// What was wrong with one stretch of input.
#[derive(Copy, Clone, Debug, PartialEq, Eq, Structural)]
pub enum LexErrorKind {
    /// A character that begins no token shape (signs, hexadecimal, octal and
    /// floating forms are unsupported and fail here rather than being
    /// silently accepted).
    UnrecognizedCharacter,
    /// A decimal constant too large for the constant value range.
    ConstantTooLarge,
}

/// One lexical error. Errors are accumulated, not fail-fast: the analyzer
/// records the error and continues scanning past it, so every independent
/// error of a single pass is surfaced.
#[derive(Copy, Clone, Debug, PartialEq, Eq)]
pub struct LexError {
    /// Character position (0-based) at which the error was found.
    pub position: usize,
    pub kind: LexErrorKind,
}

/// The mathematical value of a [`LexError`].
pub ghost struct LexErrorModel {
    pub position: int,
    pub kind: LexErrorKind,
}

impl View for LexError {
    type V = LexErrorModel;

    open spec fn view(&self) -> LexErrorModel {
        LexErrorModel { position: self.position as int, kind: self.kind }
    }
}

impl DeepView for LexError {
    type V = LexErrorModel;

    open spec fn deep_view(&self) -> LexErrorModel {
        self.view()
    }
}

/// Whitespace, insignificant between tokens and accepted around every token.
pub open spec fn spec_is_whitespace(c: char) -> bool {
    c == ' ' || c == '\t' || c == '\n' || c == '\r' || c == '\u{b}' || c == '\u{c}'
}

/// A decimal digit.
pub open spec fn spec_is_digit(c: char) -> bool {
    '0' <= c && c <= '9'
}

/// A character that may begin an identifier: alphabetic or underscore.
pub open spec fn spec_is_ident_start(c: char) -> bool {
    ('a' <= c && c <= 'z') || ('A' <= c && c <= 'Z') || c == '_'
}

/// A character that may continue an identifier: alphanumeric or underscore.
pub open spec fn spec_is_ident_continue(c: char) -> bool {
    spec_is_ident_start(c) || spec_is_digit(c)
}

/// The fixed, closed set of reserved words of the minimal grammar. Keyword
/// recognition takes priority over identifier recognition, so these never
/// lex as identifiers.
pub open spec fn spec_is_keyword(s: Seq<char>) -> bool {
    s == "int"@ || s == "void"@ || s == "return"@
}

/// End of the run of identifier characters beginning at `i`.
pub open spec fn spec_scan_ident_end(s: Seq<char>, i: int) -> int
    decreases s.len() - i,
{
    if i < s.len() && spec_is_ident_continue(s[i]) {
        spec_scan_ident_end(s, i + 1)
    } else {
        i
    }
}

pub proof fn lemma_scan_ident_end_bounds(s: Seq<char>, i: int)
    requires
        0 <= i <= s.len(),
    ensures
        i <= spec_scan_ident_end(s, i) <= s.len(),
    decreases s.len() - i,
{
    if i < s.len() && spec_is_ident_continue(s[i]) {
        lemma_scan_ident_end_bounds(s, i + 1);
    }
}

/// End of the run of decimal digits beginning at `i`.
pub open spec fn spec_scan_digit_end(s: Seq<char>, i: int) -> int
    decreases s.len() - i,
{
    if i < s.len() && spec_is_digit(s[i]) {
        spec_scan_digit_end(s, i + 1)
    } else {
        i
    }
}

pub proof fn lemma_scan_digit_end_bounds(s: Seq<char>, i: int)
    requires
        0 <= i <= s.len(),
    ensures
        i <= spec_scan_digit_end(s, i) <= s.len(),
        forall|k: int| i <= k < spec_scan_digit_end(s, i) ==> spec_is_digit(#[trigger] s[k]),
    decreases s.len() - i,
{
    if i < s.len() && spec_is_digit(s[i]) {
        lemma_scan_digit_end_bounds(s, i + 1);
    }
}

/// The numeric value of the digit run `s[i..j)` read as an unsigned decimal.
pub open spec fn spec_digits_value(s: Seq<char>, i: int, j: int) -> int
    decreases j - i,
{
    if j <= i {
        0
    } else {
        spec_digits_value(s, i, j - 1) * 10 + (s[j - 1] as int - '0' as int)
    }
}

proof fn lemma_digits_value_nonneg(s: Seq<char>, i: int, j: int)
    requires
        forall|k: int| i <= k < j ==> spec_is_digit(#[trigger] s[k]),
    ensures
        spec_digits_value(s, i, j) >= 0,
    decreases j - i,
{
    if j > i {
        lemma_digits_value_nonneg(s, i, j - 1);
    }
}

/// Appending digits to a run never shrinks its value.
proof fn lemma_digits_value_monotone(s: Seq<char>, i: int, j1: int, j2: int)
    requires
        i <= j1 <= j2,
        forall|k: int| i <= k < j2 ==> spec_is_digit(#[trigger] s[k]),
    ensures
        spec_digits_value(s, i, j1) <= spec_digits_value(s, i, j2),
    decreases j2 - j1,
{
    if j1 < j2 {
        lemma_digits_value_monotone(s, i, j1, j2 - 1);
        lemma_digits_value_nonneg(s, i, j2 - 1);
    }
}

/// What lexing yields: the tokens recognized and every error accumulated.
pub ghost struct LexOutput {
    pub tokens: Seq<TokenModel>,
    pub errors: Seq<LexErrorModel>,
}

/// The outcome of lexing `s` from position `i` on: whitespace is skipped;
/// punctuation, keyword and identifier runs and decimal constants become
/// tokens; a digit run whose value does not fit the constant range, or a
/// character matching no token shape, is recorded as an error at its
/// position and scanning continues past it.
pub open spec fn spec_lex_from(s: Seq<char>, i: int) -> LexOutput
    decreases s.len() - i,
    when 0 <= i <= s.len()
    via spec_lex_from_decreases
{
    if i >= s.len() {
        LexOutput { tokens: Seq::empty(), errors: Seq::empty() }
    } else if spec_is_whitespace(s[i]) {
        spec_lex_from(s, i + 1)
    } else if s[i] == '(' {
        let rest = spec_lex_from(s, i + 1);
        LexOutput { tokens: seq![TokenModel::Lparen] + rest.tokens, errors: rest.errors }
    } else if s[i] == ')' {
        let rest = spec_lex_from(s, i + 1);
        LexOutput { tokens: seq![TokenModel::Rparen] + rest.tokens, errors: rest.errors }
    } else if s[i] == '{' {
        let rest = spec_lex_from(s, i + 1);
        LexOutput { tokens: seq![TokenModel::Lbrace] + rest.tokens, errors: rest.errors }
    } else if s[i] == '}' {
        let rest = spec_lex_from(s, i + 1);
        LexOutput { tokens: seq![TokenModel::Rbrace] + rest.tokens, errors: rest.errors }
    } else if s[i] == ';' {
        let rest = spec_lex_from(s, i + 1);
        LexOutput { tokens: seq![TokenModel::Semicolon] + rest.tokens, errors: rest.errors }
    } else if spec_is_ident_start(s[i]) {
        let j = spec_scan_ident_end(s, i + 1);
        let text = s.subrange(i, j);
        let tok = if spec_is_keyword(text) {
            TokenModel::Keyword(text)
        } else {
            TokenModel::Identifier(text)
        };
        let rest = spec_lex_from(s, j);
        LexOutput { tokens: seq![tok] + rest.tokens, errors: rest.errors }
    } else if spec_is_digit(s[i]) {
        let j = spec_scan_digit_end(s, i + 1);
        let v = spec_digits_value(s, i, j);
        let rest = spec_lex_from(s, j);
        if v <= u32::MAX {
            LexOutput { tokens: seq![TokenModel::Constant(v as u32)] + rest.tokens, errors: rest.errors }
        } else {
            LexOutput {
                tokens: rest.tokens,
                errors: seq![LexErrorModel { position: i, kind: LexErrorKind::ConstantTooLarge }]
                    + rest.errors,
            }
        }
    } else {
        let rest = spec_lex_from(s, i + 1);
        LexOutput {
            tokens: rest.tokens,
            errors: seq![LexErrorModel { position: i, kind: LexErrorKind::UnrecognizedCharacter }]
                + rest.errors,
        }
    }
}

#[via_fn]
proof fn spec_lex_from_decreases(s: Seq<char>, i: int) {
    if 0 <= i && i < s.len() {
        if spec_is_ident_start(s[i]) {
            lemma_scan_ident_end_bounds(s, i + 1);
        }
        if spec_is_digit(s[i]) {
            lemma_scan_digit_end_bounds(s, i + 1);
        }
    }
}

/// The outcome of lexing the whole of `s`.
pub open spec fn spec_lex(s: Seq<char>) -> LexOutput {
    spec_lex_from(s, 0)
}

/// Lexing the empty text is valid and yields an empty token sequence with no
/// errors.
pub proof fn lemma_lex_empty()
    ensures
        spec_lex(Seq::<char>::empty()) == (LexOutput {
            tokens: Seq::<TokenModel>::empty(),
            errors: Seq::<LexErrorModel>::empty(),
        }),
{
}

/// Error accumulation: a character matching none of the token shapes adds
/// one error at its position, and scanning continues past it — everything
/// after it is still tokenized, rather than the pass stopping at the first
/// failure.
pub proof fn lemma_error_accumulation(s: Seq<char>, i: int)
    requires
        0 <= i < s.len(),
        !spec_is_whitespace(s[i]),
        s[i] != '(' && s[i] != ')' && s[i] != '{' && s[i] != '}' && s[i] != ';',
        !spec_is_ident_start(s[i]),
        !spec_is_digit(s[i]),
    ensures
        spec_lex_from(s, i).tokens == spec_lex_from(s, i + 1).tokens,
        spec_lex_from(s, i).errors == seq![
            LexErrorModel { position: i, kind: LexErrorKind::UnrecognizedCharacter },
        ] + spec_lex_from(s, i + 1).errors,
{
}

fn is_whitespace(c: char) -> (r: bool)
    ensures
        r == spec_is_whitespace(c),
{
    c == ' ' || c == '\t' || c == '\n' || c == '\r' || c == '\u{b}' || c == '\u{c}'
}

fn is_digit(c: char) -> (r: bool)
    ensures
        r == spec_is_digit(c),
{
    '0' <= c && c <= '9'
}

fn is_ident_start(c: char) -> (r: bool)
    ensures
        r == spec_is_ident_start(c),
{
    ('a' <= c && c <= 'z') || ('A' <= c && c <= 'Z') || c == '_'
}

fn is_ident_continue(c: char) -> (r: bool)
    ensures
        r == spec_is_ident_continue(c),
{
    is_ident_start(c) || is_digit(c)
}

fn is_keyword(text: &String) -> (r: bool)
    ensures
        r == spec_is_keyword(text@),
{
    let kw_int: String = "int".to_owned();
    let kw_void: String = "void".to_owned();
    let kw_return: String = "return".to_owned();
    *text == kw_int || *text == kw_void || *text == kw_return
}

/// Finds the end of the identifier-character run beginning at `i`.
fn scan_ident_end(s: &str, i: usize, n: usize) -> (r: usize)
    requires
        i <= n,
        n == s@.len(),
    ensures
        r as int == spec_scan_ident_end(s@, i as int),
        i <= r <= n,
{
    let mut j: usize = i;
    while j < n && is_ident_continue(s.get_char(j))
        invariant
            i <= j <= n,
            n == s@.len(),
            spec_scan_ident_end(s@, i as int) == spec_scan_ident_end(s@, j as int),
        decreases n - j,
    {
        j = j + 1;
    }
    proof {
        lemma_scan_ident_end_bounds(s@, i as int);
    }
    j
}

/// Finds the end of the digit run beginning at `i`.
fn scan_digit_end(s: &str, i: usize, n: usize) -> (r: usize)
    requires
        i <= n,
        n == s@.len(),
    ensures
        r as int == spec_scan_digit_end(s@, i as int),
        i <= r <= n,
{
    let mut j: usize = i;
    while j < n && is_digit(s.get_char(j))
        invariant
            i <= j <= n,
            n == s@.len(),
            spec_scan_digit_end(s@, i as int) == spec_scan_digit_end(s@, j as int),
        decreases n - j,
    {
        j = j + 1;
    }
    proof {
        lemma_scan_digit_end_bounds(s@, i as int);
    }
    j
}

/// Reads the digit run `s[i..j)` as an unsigned decimal constant; `None`
/// when its value does not fit the constant range.
fn parse_digits(s: &str, i: usize, j: usize) -> (r: Option<u32>)
    requires
        i <= j,
        j as int <= s@.len(),
        forall|k: int| i <= k < j ==> spec_is_digit(#[trigger] s@[k]),
    ensures
        match r {
            Some(v) => v as int == spec_digits_value(s@, i as int, j as int),
            None => spec_digits_value(s@, i as int, j as int) > u32::MAX,
        },
{
    let mut v: u32 = 0;
    let mut k: usize = i;
    while k < j
        invariant
            i <= k <= j,
            j as int <= s@.len(),
            forall|m: int| i <= m < j ==> spec_is_digit(#[trigger] s@[m]),
            v as int == spec_digits_value(s@, i as int, k as int),
        decreases j - k,
    {
        let c = s.get_char(k);
        let d: u32 = (c as u32) - ('0' as u32);
        if v > (u32::MAX - d) / 10 {
            proof {
                assert(v as int * 10 + d as int > u32::MAX as int);
                lemma_digits_value_monotone(s@, i as int, k as int + 1, j as int);
            }
            return None;
        }
        v = v * 10 + d;
        k = k + 1;
    }
    Some(v)
}

/// Converts raw source text into a sequence of tokens.
///
/// Whitespace between tokens is insignificant and accepted around every
/// token, including at the start and end of input. Keyword recognition takes
/// priority over identifier recognition. When the whole text lexes cleanly
/// the tokens are returned; otherwise every accumulated lexical error is,
/// with its position. Empty input is valid and yields an empty sequence.
pub fn lexer(input: &str) -> (r: Result<Vec<Token>, Vec<LexError>>)
    ensures
        match r {
            Ok(tokens) => spec_lex(input@).errors.len() == 0 && tokens.deep_view() == spec_lex(
                input@,
            ).tokens,
            Err(errors) => spec_lex(input@).errors.len() > 0 && errors.deep_view() == spec_lex(
                input@,
            ).errors,
        },
{
    let n = input.unicode_len();
    let mut tokens: Vec<Token> = Vec::new();
    let mut errors: Vec<LexError> = Vec::new();
    let mut i: usize = 0;
    while i < n
        invariant
            i <= n,
            n == input@.len(),
            spec_lex(input@).tokens == tokens.deep_view() + spec_lex_from(input@, i as int).tokens,
            spec_lex(input@).errors == errors.deep_view() + spec_lex_from(input@, i as int).errors,
        decreases n - i,
    {
        let ghost tokens0 = tokens.deep_view();
        let ghost errors0 = errors.deep_view();
        let ghost i0 = i as int;
        let c = input.get_char(i);
        if is_whitespace(c) {
            i = i + 1;
        } else if c == '(' {
            tokens.push(Token::Lparen);
            i = i + 1;
        } else if c == ')' {
            tokens.push(Token::Rparen);
            i = i + 1;
        } else if c == '{' {
            tokens.push(Token::Lbrace);
            i = i + 1;
        } else if c == '}' {
            tokens.push(Token::Rbrace);
            i = i + 1;
        } else if c == ';' {
            tokens.push(Token::Semicolon);
            i = i + 1;
        } else if is_ident_start(c) {
            let j = scan_ident_end(input, i + 1, n);
            let text = input.substring_char(i, j).to_owned();
            if is_keyword(&text) {
                tokens.push(Token::Keyword(text));
            } else {
                tokens.push(Token::Identifier(text));
            }
            i = j;
        } else if is_digit(c) {
            let j = scan_digit_end(input, i + 1, n);
            proof {
                lemma_scan_digit_end_bounds(input@, i0 + 1);
            }
            match parse_digits(input, i, j) {
                Some(v) => tokens.push(Token::Constant(v)),
                None => errors.push(
                    LexError { position: i, kind: LexErrorKind::ConstantTooLarge },
                ),
            }
            i = j;
        } else {
            errors.push(LexError { position: i, kind: LexErrorKind::UnrecognizedCharacter });
            i = i + 1;
        }
        proof {
            assert(tokens.deep_view() + spec_lex_from(input@, i as int).tokens =~= tokens0
                + spec_lex_from(input@, i0).tokens);
            assert(errors.deep_view() + spec_lex_from(input@, i as int).errors =~= errors0
                + spec_lex_from(input@, i0).errors);
        }
    }
    proof {
        assert(tokens.deep_view() + spec_lex_from(input@, n as int).tokens =~= tokens.deep_view());
        assert(errors.deep_view() + spec_lex_from(input@, n as int).errors =~= errors.deep_view());
    }
    if errors.len() == 0 {
        proof {
            assert(errors.deep_view() =~= Seq::<LexErrorModel>::empty());
        }
        Ok(tokens)
    } else {
        Err(errors)
    }
}

} // verus!
