use vstd::prelude::*;

use crate::value::push_char;

verus! {

/// A lexical token.
#[derive(Clone, Debug, PartialEq)]
pub enum Token {
    // keywords
    And,
    Break,
    Do,
    Else,
    Elseif,
    End,
    False,
    For,
    Function,
    Goto,
    If,
    In,
    Local,
    Nil,
    Not,
    Or,
    Repeat,
    Return,
    Then,
    True,
    Until,
    While,
    // symbols
    Add,  // +
    Sub,  // -
    Mul,  // *
    Div,  // /
    Mod,  // %
    Pow,  // ^
    Len,  // #
    BitAnd,  // &
    BitXor,  // ~
    BitOr,  // |
    ShiftL,  // <<
    ShiftR,  // >>
    Idiv,  // //
    Equal,  // ==
    NotEq,  // ~=
    LesEq,  // <=
    GreEq,  // >=
    Less,  // <
    Greater,  // >
    Assign,  // =
    ParL,  // (
    ParR,  // )
    CurlyL,  // {
    CurlyR,  // }
    SqurL,  // [
    SqurR,  // ]
    DoubColon,  // ::
    SemiColon,  // ;
    Colon,  // :
    Comma,  // ,
    Dot,  // .
    Concat,  // ..
    Dots,  // ...
    // constant values
    Integer(i64),
    /// A float literal, as its canonical decimal text (see [`float_text`]).
    Float(String),
    String(String),
    // name of variables or table keys
    Name(String),
    // end of the input
    Eos,
}

/// The mathematical model of a [`Token`]: tokens without a payload stand for
/// themselves, the others carry the view of their payload.
pub enum TokenView {
    Fixed(Token),
    Integer(i64),
    Float(Seq<char>),
    String(Seq<char>),
    Name(Seq<char>),
}

impl View for Token {
    type V = TokenView;

    open spec fn view(&self) -> TokenView {
        match self {
            Token::Integer(i) => TokenView::Integer(*i),
            Token::Float(s) => TokenView::Float(s@),
            Token::String(s) => TokenView::String(s@),
            Token::Name(s) => TokenView::Name(s@),
            _ => TokenView::Fixed(*self),
        }
    }
}

/// Why the tokenizer stopped.
#[derive(Clone, Copy, Debug, PartialEq, Eq, Structural)]
pub enum LexError {
    /// A byte that starts no token.
    UnexpectedChar(u8),
    /// A `"` with no closing `"` after it.
    UnterminatedString,
    /// A numeric literal that is not an `i64` or a decimal float.
    MalformedNumber,
}

/// The outcome of scanning one token: the token and the position just after
/// it, or the error.
pub enum Scan {
    Token(TokenView, int),
    Error(LexError),
}

pub open spec fn is_space(b: u8) -> bool {
    b == 32 || b == 10 || b == 9 || b == 13
}

pub open spec fn is_word_start(b: u8) -> bool {
    (65 <= b <= 90) || (97 <= b <= 122) || b == 95
}

pub open spec fn is_digit(b: u8) -> bool {
    48 <= b <= 57
}

pub open spec fn is_word_byte(b: u8) -> bool {
    is_word_start(b) || is_digit(b)
}

pub open spec fn is_number_byte(b: u8) -> bool {
    is_digit(b) || b == 46
}

/// Each byte read as the character of the same code (Latin-1).
pub open spec fn latin1(s: Seq<u8>) -> Seq<char> {
    s.map_values(|b: u8| (b as u32) as char)
}

/// The end of the run of identifier bytes that starts at `i`.
pub open spec fn word_end(inp: Seq<u8>, i: int) -> int
    decreases inp.len() - i,
{
    if 0 <= i < inp.len() && is_word_byte(inp[i]) {
        word_end(inp, i + 1)
    } else {
        i
    }
}

/// The end of the run of digits and dots that starts at `i`.
pub open spec fn number_end(inp: Seq<u8>, i: int) -> int
    decreases inp.len() - i,
{
    if 0 <= i < inp.len() && is_number_byte(inp[i]) {
        number_end(inp, i + 1)
    } else {
        i
    }
}

/// The first index in `[i, end)` that holds `b`, or `end` when there is none.
pub open spec fn find_in(inp: Seq<u8>, b: u8, i: int, end: int) -> int
    decreases end - i,
{
    if i < end && inp[i] == b {
        i
    } else if i < end {
        find_in(inp, b, i + 1, end)
    } else {
        end
    }
}

/// The value of a run of decimal digits.
pub open spec fn digits_value(s: Seq<u8>) -> int
    decreases s.len(),
{
    if s.len() == 0 {
        0
    } else {
        digits_value(s.drop_last()) * 10 + (s.last() - 48)
    }
}

pub open spec fn trim_leading_zeros(s: Seq<u8>) -> Seq<u8>
    decreases s.len(),
{
    if s.len() > 0 && s[0] == 48 {
        trim_leading_zeros(s.drop_first())
    } else {
        s
    }
}

pub open spec fn trim_trailing_zeros(s: Seq<u8>) -> Seq<u8>
    decreases s.len(),
{
    if s.len() > 0 && s.last() == 48 {
        trim_trailing_zeros(s.drop_last())
    } else {
        s
    }
}

pub open spec fn or_zero(s: Seq<u8>) -> Seq<u8> {
    if s.len() == 0 {
        seq![48u8]
    } else {
        s
    }
}

/// The canonical text of the decimal with integer digits `ip` and fraction
/// digits `fp`: no leading zeros before the point, no trailing zeros after
/// it, and at least one digit on each side (`007.50` gives `7.5`).
pub open spec fn float_text(ip: Seq<u8>, fp: Seq<u8>) -> Seq<char> {
    latin1(or_zero(trim_leading_zeros(ip))) + seq!['.'] + latin1(or_zero(trim_trailing_zeros(fp)))
}

pub open spec fn i64_max() -> int {
    0x7fff_ffff_ffff_ffff
}

/// The token of the run of digits and dots `inp[start..end]`: an integer
/// when there is no dot, a float when there is one, an error otherwise.
pub open spec fn number_token(inp: Seq<u8>, start: int, end: int) -> Result<TokenView, LexError> {
    let d = find_in(inp, 46, start, end);
    if d == end {
        let v = digits_value(inp.subrange(start, end));
        if v <= i64_max() {
            Ok(TokenView::Integer(v as i64))
        } else {
            Err(LexError::MalformedNumber)
        }
    } else if find_in(inp, 46, d + 1, end) < end {
        Err(LexError::MalformedNumber)
    } else {
        Ok(TokenView::Float(float_text(inp.subrange(start, d), inp.subrange(d + 1, end))))
    }
}

pub open spec fn keyword_token(w: Seq<char>) -> Option<Token> {
    if w == "and"@ {
        Some(Token::And)
    } else if w == "break"@ {
        Some(Token::Break)
    } else if w == "do"@ {
        Some(Token::Do)
    } else if w == "else"@ {
        Some(Token::Else)
    } else if w == "elseif"@ {
        Some(Token::Elseif)
    } else if w == "end"@ {
        Some(Token::End)
    } else if w == "false"@ {
        Some(Token::False)
    } else if w == "for"@ {
        Some(Token::For)
    } else if w == "function"@ {
        Some(Token::Function)
    } else if w == "goto"@ {
        Some(Token::Goto)
    } else if w == "if"@ {
        Some(Token::If)
    } else if w == "in"@ {
        Some(Token::In)
    } else if w == "local"@ {
        Some(Token::Local)
    } else if w == "nil"@ {
        Some(Token::Nil)
    } else if w == "not"@ {
        Some(Token::Not)
    } else if w == "or"@ {
        Some(Token::Or)
    } else if w == "repeat"@ {
        Some(Token::Repeat)
    } else if w == "return"@ {
        Some(Token::Return)
    } else if w == "then"@ {
        Some(Token::Then)
    } else if w == "true"@ {
        Some(Token::True)
    } else if w == "until"@ {
        Some(Token::Until)
    } else if w == "while"@ {
        Some(Token::While)
    } else {
        None
    }
}

/// A keyword when the word is one, a name otherwise.
pub open spec fn word_token(w: Seq<char>) -> TokenView {
    match keyword_token(w) {
        Some(t) => TokenView::Fixed(t),
        None => TokenView::Name(w),
    }
}

/// Whether `inp` holds `pat` at `pos`.
pub open spec fn lit_at(inp: Seq<u8>, pos: int, pat: Seq<u8>) -> bool {
    0 <= pos && pos + pat.len() <= inp.len() && inp.subrange(pos, pos + pat.len()) == pat
}

/// The operator or punctuation token at `pos` and its end, the longest one
/// that matches; `None` when the byte starts no token.
pub open spec fn symbol(inp: Seq<u8>, pos: int) -> Option<(Token, int)> {
    let c = inp[pos];
    if c == 43 {
        Some((Token::Add, pos + 1))
    } else if c == 45 {
        Some((Token::Sub, pos + 1))
    } else if c == 42 {
        Some((Token::Mul, pos + 1))
    } else if c == 37 {
        Some((Token::Mod, pos + 1))
    } else if c == 94 {
        Some((Token::Pow, pos + 1))
    } else if c == 35 {
        Some((Token::Len, pos + 1))
    } else if c == 38 {
        Some((Token::BitAnd, pos + 1))
    } else if c == 124 {
        Some((Token::BitOr, pos + 1))
    } else if c == 40 {
        Some((Token::ParL, pos + 1))
    } else if c == 41 {
        Some((Token::ParR, pos + 1))
    } else if c == 123 {
        Some((Token::CurlyL, pos + 1))
    } else if c == 125 {
        Some((Token::CurlyR, pos + 1))
    } else if c == 91 {
        Some((Token::SqurL, pos + 1))
    } else if c == 93 {
        Some((Token::SqurR, pos + 1))
    } else if c == 59 {
        Some((Token::SemiColon, pos + 1))
    } else if c == 44 {
        Some((Token::Comma, pos + 1))
    } else if c == 61 {
        if lit_at(inp, pos, seq![61u8, 61u8]) {
            Some((Token::Equal, pos + 2))
        } else {
            Some((Token::Assign, pos + 1))
        }
    } else if c == 126 {
        if lit_at(inp, pos, seq![126u8, 61u8]) {
            Some((Token::NotEq, pos + 2))
        } else {
            Some((Token::BitXor, pos + 1))
        }
    } else if c == 58 {
        if lit_at(inp, pos, seq![58u8, 58u8]) {
            Some((Token::DoubColon, pos + 2))
        } else {
            Some((Token::Colon, pos + 1))
        }
    } else if c == 46 {
        if lit_at(inp, pos, seq![46u8, 46u8, 46u8]) {
            Some((Token::Dots, pos + 3))
        } else if lit_at(inp, pos, seq![46u8, 46u8]) {
            Some((Token::Concat, pos + 2))
        } else {
            Some((Token::Dot, pos + 1))
        }
    } else if c == 60 {
        if lit_at(inp, pos, seq![60u8, 60u8]) {
            Some((Token::ShiftL, pos + 2))
        } else if lit_at(inp, pos, seq![60u8, 61u8]) {
            Some((Token::LesEq, pos + 2))
        } else {
            Some((Token::Less, pos + 1))
        }
    } else if c == 62 {
        if lit_at(inp, pos, seq![62u8, 62u8]) {
            Some((Token::ShiftR, pos + 2))
        } else if lit_at(inp, pos, seq![62u8, 61u8]) {
            Some((Token::GreEq, pos + 2))
        } else {
            Some((Token::Greater, pos + 1))
        }
    } else if c == 47 {
        if lit_at(inp, pos, seq![47u8, 47u8]) {
            Some((Token::Idiv, pos + 2))
        } else {
            Some((Token::Div, pos + 1))
        }
    } else {
        None
    }
}

/// The token that starts at `pos`, which holds a byte other than whitespace.
pub open spec fn scan_token(inp: Seq<u8>, pos: int) -> Scan {
    let c = inp[pos];
    if c == 34 {
        let e = find_in(inp, 34, pos + 1, inp.len() as int);
        if e < inp.len() {
            Scan::Token(TokenView::String(latin1(inp.subrange(pos + 1, e))), e + 1)
        } else {
            Scan::Error(LexError::UnterminatedString)
        }
    } else if is_word_start(c) {
        let e = word_end(inp, pos);
        Scan::Token(word_token(latin1(inp.subrange(pos, e))), e)
    } else if is_digit(c) {
        let e = number_end(inp, pos);
        match number_token(inp, pos, e) {
            Ok(t) => Scan::Token(t, e),
            Err(err) => Scan::Error(err),
        }
    } else {
        match symbol(inp, pos) {
            Some((t, e)) => Scan::Token(TokenView::Fixed(t), e),
            None => Scan::Error(LexError::UnexpectedChar(c)),
        }
    }
}

/// The next token at or after `pos`: whitespace is skipped, and the end of
/// the input gives `Eos` without moving.
pub open spec fn scan(inp: Seq<u8>, pos: int) -> Scan
    decreases inp.len() - pos,
{
    if pos < 0 || pos >= inp.len() {
        Scan::Token(TokenView::Fixed(Token::Eos), pos)
    } else if is_space(inp[pos]) {
        scan(inp, pos + 1)
    } else {
        scan_token(inp, pos)
    }
}

/// The tokens that remain from a position, up to the end of the input or to
/// the first error.
pub struct TokenStream {
    pub tokens: Seq<TokenView>,
    pub error: Option<LexError>,
}

/// All the tokens from `pos` on, `Eos` excluded, and the error that ended
/// them, if one did.
pub open spec fn lex_from(inp: Seq<u8>, pos: int) -> TokenStream
    decreases inp.len() - pos,
{
    if pos < 0 || pos > inp.len() {
        TokenStream { tokens: seq![], error: None }
    } else {
        match scan(inp, pos) {
            Scan::Error(e) => TokenStream { tokens: seq![], error: Some(e) },
            Scan::Token(t, e) => {
                if t == TokenView::Fixed(Token::Eos) || e <= pos || e > inp.len() {
                    TokenStream { tokens: seq![], error: None }
                } else {
                    let more = lex_from(inp, e);
                    TokenStream { tokens: seq![t] + more.tokens, error: more.error }
                }
            },
        }
    }
}

/// The first token of a stream: `Eos` once the tokens are used up, or the
/// error that ended them.
pub open spec fn head(s: TokenStream) -> Result<TokenView, LexError> {
    if s.tokens.len() > 0 {
        Ok(s.tokens[0])
    } else {
        match s.error {
            Some(e) => Err(e),
            None => Ok(TokenView::Fixed(Token::Eos)),
        }
    }
}

/// The stream after its first token.
pub open spec fn rest(s: TokenStream) -> TokenStream {
    if s.tokens.len() > 0 {
        TokenStream { tokens: s.tokens.drop_first(), error: s.error }
    } else {
        s
    }
}

pub proof fn lemma_word_end(inp: Seq<u8>, i: int)
    requires
        0 <= i <= inp.len(),
    ensures
        i <= word_end(inp, i) <= inp.len(),
    decreases inp.len() - i,
{
    if i < inp.len() && is_word_byte(inp[i]) {
        lemma_word_end(inp, i + 1);
    }
}

pub proof fn lemma_number_end(inp: Seq<u8>, i: int)
    requires
        0 <= i <= inp.len(),
    ensures
        i <= number_end(inp, i) <= inp.len(),
    decreases inp.len() - i,
{
    if i < inp.len() && is_number_byte(inp[i]) {
        lemma_number_end(inp, i + 1);
    }
}

/// A token ends after it starts and within the input; `Eos` comes only at
/// the end of the input.
pub proof fn lemma_scan_bounds(inp: Seq<u8>, pos: int)
    requires
        0 <= pos <= inp.len(),
    ensures
        scan(inp, pos) matches Scan::Token(t, e) ==> pos <= e <= inp.len(),
        scan(inp, pos) matches Scan::Token(t, e) ==> (t == TokenView::Fixed(Token::Eos) ==> e
            == inp.len()),
        scan(inp, pos) matches Scan::Token(t, e) ==> (t != TokenView::Fixed(Token::Eos) ==> pos
            < e),
    decreases inp.len() - pos,
{
    if pos < inp.len() {
        if is_space(inp[pos]) {
            lemma_scan_bounds(inp, pos + 1);
        } else {
            let c = inp[pos];
            if c == 34 {
                lemma_find_in(inp, 34, pos + 1, inp.len() as int);
            } else if is_word_start(c) {
                lemma_word_end(inp, pos);
                lemma_word_end(inp, pos + 1);
            } else if is_digit(c) {
                lemma_number_end(inp, pos);
                lemma_number_end(inp, pos + 1);
            }
        }
    }
}

/// Once `Eos` has been scanned the position is at the end of the input,
/// and scanning from there gives `Eos` again, without moving.
pub proof fn lemma_eos_repeats(inp: Seq<u8>, pos: int)
    requires
        0 <= pos <= inp.len(),
        scan(inp, pos) matches Scan::Token(t, _) && t == TokenView::Fixed(Token::Eos),
    ensures
        scan(inp, pos) matches Scan::Token(_, e) && scan(inp, e) == Scan::Token(
            TokenView::Fixed(Token::Eos),
            e,
        ),
{
    lemma_scan_bounds(inp, pos);
}

/// Scanning one token is taking the head of the stream; what is left is the
/// stream from where the token ends.
pub proof fn lemma_lex_step(inp: Seq<u8>, pos: int)
    requires
        0 <= pos <= inp.len(),
    ensures
        match scan(inp, pos) {
            Scan::Token(t, e) => head(lex_from(inp, pos)) == Ok::<TokenView, LexError>(t) && rest(
                lex_from(inp, pos),
            ) == lex_from(inp, e) && lex_from(inp, e).tokens.len() <= lex_from(inp, pos).tokens.len()
                && (t != TokenView::Fixed(Token::Eos) ==> lex_from(inp, e).tokens.len() < lex_from(
                inp,
                pos,
            ).tokens.len()),
            Scan::Error(err) => head(lex_from(inp, pos)) == Err::<TokenView, LexError>(err),
        },
{
    lemma_scan_bounds(inp, pos);
    if let Scan::Token(t, e) = scan(inp, pos) {
        if t == TokenView::Fixed(Token::Eos) {
            lemma_scan_bounds(inp, e);
        } else {
            let s = lex_from(inp, pos);
            assert(s.tokens.drop_first() =~= lex_from(inp, e).tokens);
        }
    }
}

/// Relies on `str`'s `==`: true exactly when both hold the same characters.
#[verifier::external_body]
fn str_eq(a: &str, b: &str) -> (r: bool)
    ensures
        r == (a@ == b@),
{
    a == b
}

/// The keyword spelled by `w`, if any.
fn keyword(w: &str) -> (r: Option<Token>)
    ensures
        r == keyword_token(w@),
{
    if str_eq(w, "and") {
        Some(Token::And)
    } else if str_eq(w, "break") {
        Some(Token::Break)
    } else if str_eq(w, "do") {
        Some(Token::Do)
    } else if str_eq(w, "else") {
        Some(Token::Else)
    } else if str_eq(w, "elseif") {
        Some(Token::Elseif)
    } else if str_eq(w, "end") {
        Some(Token::End)
    } else if str_eq(w, "false") {
        Some(Token::False)
    } else if str_eq(w, "for") {
        Some(Token::For)
    } else if str_eq(w, "function") {
        Some(Token::Function)
    } else if str_eq(w, "goto") {
        Some(Token::Goto)
    } else if str_eq(w, "if") {
        Some(Token::If)
    } else if str_eq(w, "in") {
        Some(Token::In)
    } else if str_eq(w, "local") {
        Some(Token::Local)
    } else if str_eq(w, "nil") {
        Some(Token::Nil)
    } else if str_eq(w, "not") {
        Some(Token::Not)
    } else if str_eq(w, "or") {
        Some(Token::Or)
    } else if str_eq(w, "repeat") {
        Some(Token::Repeat)
    } else if str_eq(w, "return") {
        Some(Token::Return)
    } else if str_eq(w, "then") {
        Some(Token::Then)
    } else if str_eq(w, "true") {
        Some(Token::True)
    } else if str_eq(w, "until") {
        Some(Token::Until)
    } else if str_eq(w, "while") {
        Some(Token::While)
    } else {
        None
    }
}

/// Appends `inp[from..to]` to `out`, each byte as one character.
fn push_latin1(out: &mut String, inp: &[u8], from: usize, to: usize)
    requires
        from <= to <= inp@.len(),
    ensures
        final(out)@ == old(out)@ + latin1(inp@.subrange(from as int, to as int)),
{
    let mut i = from;
    while i < to
        invariant
            from <= i <= to <= inp@.len(),
            out@ == old(out)@ + latin1(inp@.subrange(from as int, i as int)),
        decreases to - i,
    {
        push_char(out, inp[i] as char);
        proof {
            assert(inp@.subrange(from as int, i + 1) =~= inp@.subrange(from as int, i as int).push(
                inp@[i as int],
            ));
        }
        i = i + 1;
        proof {
            assert(out@ =~= old(out)@ + latin1(inp@.subrange(from as int, i as int)));
        }
    }
}

/// The first index in `[from, to)` that holds `b`, or `to`.
fn find_byte(inp: &[u8], b: u8, from: usize, to: usize) -> (r: usize)
    requires
        from <= to <= inp@.len(),
    ensures
        r == find_in(inp@, b, from as int, to as int),
{
    let mut i = from;
    while i < to
        invariant
            from <= i <= to <= inp@.len(),
            find_in(inp@, b, from as int, to as int) == find_in(inp@, b, i as int, to as int),
        decreases to - i,
    {
        if inp[i] == b {
            return i;
        }
        i = i + 1;
    }
    i
}

/// `find_in` lands in `[i, end]` on the first `b`, with no `b` before it.
pub proof fn lemma_find_in(inp: Seq<u8>, b: u8, i: int, end: int)
    requires
        0 <= i <= end <= inp.len(),
    ensures
        i <= find_in(inp, b, i, end) <= end,
        forall|k: int| i <= k < find_in(inp, b, i, end) ==> inp[k] != b,
        find_in(inp, b, i, end) < end ==> inp[find_in(inp, b, i, end)] == b,
    decreases end - i,
{
    if i < end && inp[i] != b {
        lemma_find_in(inp, b, i + 1, end);
    }
}

fn space_byte(b: u8) -> (r: bool)
    ensures
        r == is_space(b),
{
    b == 32 || b == 10 || b == 9 || b == 13
}

fn word_start_byte(b: u8) -> (r: bool)
    ensures
        r == is_word_start(b),
{
    (65 <= b && b <= 90) || (97 <= b && b <= 122) || b == 95
}

fn digit_byte(b: u8) -> (r: bool)
    ensures
        r == is_digit(b),
{
    48 <= b && b <= 57
}

fn word_byte(b: u8) -> (r: bool)
    ensures
        r == is_word_byte(b),
{
    word_start_byte(b) || digit_byte(b)
}

fn number_byte(b: u8) -> (r: bool)
    ensures
        r == is_number_byte(b),
{
    digit_byte(b) || b == 46
}

/// The canonical text of the float literal `inp[start..d] . inp[d+1..end]`.
fn float_literal_text(inp: &[u8], start: usize, d: usize, end: usize) -> (r: String)
    requires
        start <= d < end <= inp@.len(),
    ensures
        r@ == float_text(inp@.subrange(start as int, d as int), inp@.subrange(d + 1, end as int)),
{
    let ghost s = inp@;
    let mut a = start;
    while a < d && inp[a] == 48
        invariant
            start <= a <= d < end <= s.len(),
            s == inp@,
            trim_leading_zeros(s.subrange(start as int, d as int)) == trim_leading_zeros(
                s.subrange(a as int, d as int),
            ),
        decreases d - a,
    {
        proof {
            assert(s.subrange(a as int, d as int).drop_first() =~= s.subrange(a + 1, d as int));
        }
        a = a + 1;
    }
    let mut b = end;
    while b > d + 1 && inp[b - 1] == 48
        invariant
            d + 1 <= b <= end <= s.len(),
            s == inp@,
            trim_trailing_zeros(s.subrange(d + 1, end as int)) == trim_trailing_zeros(
                s.subrange(d + 1, b as int),
            ),
        decreases b,
    {
        proof {
            assert(s.subrange(d + 1, b as int).drop_last() =~= s.subrange(d + 1, b - 1));
        }
        b = b - 1;
    }
    let ghost ip = trim_leading_zeros(s.subrange(start as int, d as int));
    let ghost fp = trim_trailing_zeros(s.subrange(d + 1, end as int));
    proof {
        assert(ip =~= s.subrange(a as int, d as int));
        assert(fp =~= s.subrange(d + 1, b as int));
    }
    let mut text = String::new();
    if a == d {
        push_char(&mut text, 48u8 as char);
    } else {
        push_latin1(&mut text, inp, a, d);
    }
    proof {
        assert(text@ =~= latin1(or_zero(ip)));
    }
    push_char(&mut text, '.');
    let ghost mid = text@;
    if b == d + 1 {
        push_char(&mut text, 48u8 as char);
    } else {
        push_latin1(&mut text, inp, d + 1, b);
    }
    proof {
        assert(text@ =~= mid + latin1(or_zero(fp)));
        assert(text@ =~= float_text(s.subrange(start as int, d as int), s.subrange(d + 1, end as int)));
    }
    text
}

/// The value of the digits `inp[start..end]`, or `None` when it exceeds
/// `i64::MAX`.
fn digits_to_i64(inp: &[u8], start: usize, end: usize) -> (r: Option<i64>)
    requires
        start <= end <= inp@.len(),
        forall|k: int| start <= k < end ==> is_digit(#[trigger] inp@[k]),
    ensures
        r is Some <==> digits_value(inp@.subrange(start as int, end as int)) <= i64_max(),
        r is Some ==> r->0 == digits_value(inp@.subrange(start as int, end as int)),
{
    let ghost s = inp@;
    let mut v: u64 = 0;
    let mut overflow = false;
    let mut i = start;
    while i < end
        invariant
            start <= i <= end <= s.len(),
            s == inp@,
            forall|k: int| start <= k < end ==> is_digit(#[trigger] s[k]),
            !overflow ==> v == digits_value(s.subrange(start as int, i as int)) && v <= i64_max(),
            overflow ==> digits_value(s.subrange(start as int, i as int)) > i64_max(),
            digits_value(s.subrange(start as int, i as int)) >= 0,
        decreases end - i,
    {
        let dg: u64 = (inp[i] - 48) as u64;
        proof {
            let sub = s.subrange(start as int, i + 1);
            assert(sub.drop_last() =~= s.subrange(start as int, i as int));
            assert(sub.last() == s[i as int]);
            assert(digits_value(sub) == digits_value(s.subrange(start as int, i as int)) * 10 + dg);
        }
        if !overflow {
            match v.checked_mul(10) {
                Some(m) => match m.checked_add(dg) {
                    Some(n) => {
                        if n <= 0x7fff_ffff_ffff_ffff {
                            v = n;
                        } else {
                            overflow = true;
                        }
                    },
                    None => {
                        overflow = true;
                    },
                },
                None => {
                    overflow = true;
                },
            }
        }
        i = i + 1;
    }
    if overflow {
        None
    } else {
        Some(v as i64)
    }
}

/// A tokenizer over a byte buffer. It reads one byte at a time and can step
/// back over bytes it has read, which is how the longest operator is found.
#[derive(Debug)]
pub struct Lexer<'a> {
    input: &'a [u8],
    pos: usize,
}

impl<'a> Lexer<'a> {
    /// The bytes being tokenized.
    pub closed spec fn source(&self) -> Seq<u8> {
        self.input@
    }

    /// The index of the next byte to read.
    pub closed spec fn position(&self) -> int {
        self.pos as int
    }

    pub open spec fn wf(&self) -> bool {
        0 <= self.position() <= self.source().len()
    }

    /// A tokenizer at the start of `input`.
    pub fn new(input: &'a [u8]) -> (r: Self)
        ensures
            r.wf(),
            r.source() == input@,
            r.position() == 0,
    {
        Self { input, pos: 0 }
    }

    /// Steps back over the last `n` bytes read.
    fn seek(&mut self, n: usize)
        requires
            old(self).wf(),
            n <= old(self).position(),
        ensures
            final(self).wf(),
            final(self).source() == old(self).source(),
            final(self).position() == old(self).position() - n,
    {
        self.pos = self.pos - n;
    }

    /// The next byte, or `None` at the end of the input.
    pub fn read_char(&mut self) -> (r: Option<u8>)
        requires
            old(self).wf(),
        ensures
            final(self).wf(),
            final(self).source() == old(self).source(),
            old(self).position() < old(self).source().len() ==> r == Some(
                old(self).source()[old(self).position()],
            ),
            old(self).position() < old(self).source().len() ==> final(self).position()
                == old(self).position() + 1,
            old(self).position() >= old(self).source().len() ==> r is None,
            old(self).position() >= old(self).source().len() ==> final(self).position()
                == old(self).position(),
    {
        if self.pos < self.input.len() {
            let c = self.input[self.pos];
            self.pos = self.pos + 1;
            Some(c)
        } else {
            None
        }
    }

    /// Having just read `start`, tells whether `pattern` stands at `start`'s
    /// position; if so it is consumed, else the position is left as it was.
    pub fn match_pattern(&mut self, start: u8, pattern: &[u8]) -> (r: bool)
        requires
            old(self).wf(),
            pattern@.len() >= 1,
            old(self).position() >= 1,
            old(self).source()[old(self).position() - 1] == start,
        ensures
            final(self).wf(),
            final(self).source() == old(self).source(),
            r == lit_at(old(self).source(), old(self).position() - 1, pattern@),
            final(self).position() == if r {
                old(self).position() - 1 + pattern@.len()
            } else {
                old(self).position()
            },
    {
        let ghost src = self.input@;
        let ghost begin = self.pos - 1;
        let resume = self.pos;
        if pattern[0] != start {
            proof {
                if lit_at(src, begin, pattern@) {
                    assert(src.subrange(begin, begin + pattern@.len())[0] == src[begin]);
                }
            }
            return false;
        }
        let mut i: usize = 1;
        while i < pattern.len()
            invariant
                self.wf(),
                self.input@ == src,
                src == old(self).input@,
                begin == old(self).pos - 1,
                0 <= begin,
                1 <= i <= pattern@.len(),
                self.pos == begin + i,
                resume == begin + 1,
                begin + i <= src.len(),
                src.subrange(begin, begin + i) =~= pattern@.take(i as int),
            decreases pattern@.len() - i,
        {
            let c = self.read_char();
            match c {
                Some(c) => {
                    if c != pattern[i] {
                        proof {
                            if lit_at(src, begin, pattern@) {
                                assert(src.subrange(begin, begin + pattern@.len())[i as int]
                                    == src[begin + i]);
                            }
                        }
                        let back = self.pos - resume;
                        self.seek(back);
                        return false;
                    }
                    proof {
                        assert(src.subrange(begin, begin + i + 1) =~= src.subrange(
                            begin,
                            begin + i,
                        ).push(src[begin + i]));
                        assert(pattern@.take(i + 1) =~= pattern@.take(i as int).push(
                            pattern@[i as int],
                        ));
                    }
                    i = i + 1;
                },
                None => {
                    let back = self.pos - resume;
                    self.seek(back);
                    return false;
                },
            }
        }
        proof {
            assert(pattern@.take(i as int) =~= pattern@);
        }
        true
    }

    /// The next token. Whitespace is skipped; at the end of the input the
    /// token is `Eos`, again and again.
    pub fn next(&mut self) -> (r: Result<Token, LexError>)
        requires
            old(self).wf(),
        ensures
            final(self).wf(),
            final(self).source() == old(self).source(),
            match scan(old(self).source(), old(self).position()) {
                Scan::Token(t, e) => r matches Ok(tok) && tok@ == t && final(self).position() == e,
                Scan::Error(err) => r == Err::<Token, LexError>(err),
            },
    {
        let ghost src = self.input@;
        let n = self.input.len();
        while self.pos < n && space_byte(self.input[self.pos])
            invariant
                self.wf(),
                self.input@ == src,
                src == old(self).input@,
                n == src.len(),
                scan(src, old(self).pos as int) == scan(src, self.pos as int),
            decreases src.len() - self.pos,
        {
            self.pos = self.pos + 1;
        }
        if self.pos >= n {
            return Ok(Token::Eos);
        }
        let c = self.input[self.pos];
        if c == 34 {
            self.read_string()
        } else if word_start_byte(c) {
            Ok(self.read_word())
        } else if digit_byte(c) {
            self.read_number()
        } else {
            self.read_symbol()
        }
    }

    /// Reads a string literal; the opening `"` is at the position.
    fn read_string(&mut self) -> (r: Result<Token, LexError>)
        requires
            old(self).wf(),
            old(self).position() < old(self).source().len(),
            old(self).source()[old(self).position()] == 34,
        ensures
            final(self).wf(),
            final(self).source() == old(self).source(),
            match scan_token(old(self).source(), old(self).position()) {
                Scan::Token(t, e) => r matches Ok(tok) && tok@ == t && final(self).position() == e,
                Scan::Error(err) => r == Err::<Token, LexError>(err),
            },
    {
        let n = self.input.len();
        let start = self.pos + 1;
        let e = find_byte(self.input, 34, start, n);
        proof {
            lemma_find_in(self.input@, 34, start as int, self.input@.len() as int);
        }
        if e < self.input.len() {
            let mut text = String::new();
            push_latin1(&mut text, self.input, start, e);
            self.pos = e + 1;
            Ok(Token::String(text))
        } else {
            Err(LexError::UnterminatedString)
        }
    }

    /// Reads a keyword or a name; its first byte is at the position.
    fn read_word(&mut self) -> (r: Token)
        requires
            old(self).wf(),
            old(self).position() < old(self).source().len(),
            is_word_start(old(self).source()[old(self).position()]),
        ensures
            final(self).wf(),
            final(self).source() == old(self).source(),
            scan_token(old(self).source(), old(self).position()) == Scan::Token(
                r@,
                final(self).position(),
            ),
    {
        let start = self.pos;
        let mut end = start;
        while end < self.input.len() && word_byte(self.input[end])
            invariant
                start <= end <= self.input@.len(),
                self.input@ == old(self).input@,
                start == old(self).pos,
                word_end(self.input@, start as int) == word_end(self.input@, end as int),
            decreases self.input@.len() - end,
        {
            end = end + 1;
        }
        let mut word = String::new();
        push_latin1(&mut word, self.input, start, end);
        self.pos = end;
        match keyword(word.as_str()) {
            Some(t) => t,
            None => Token::Name(word),
        }
    }

    /// Reads a numeric literal; its first digit is at the position.
    fn read_number(&mut self) -> (r: Result<Token, LexError>)
        requires
            old(self).wf(),
            old(self).position() < old(self).source().len(),
            is_digit(old(self).source()[old(self).position()]),
        ensures
            final(self).wf(),
            final(self).source() == old(self).source(),
            match scan_token(old(self).source(), old(self).position()) {
                Scan::Token(t, e) => r matches Ok(tok) && tok@ == t && final(self).position() == e,
                Scan::Error(err) => r == Err::<Token, LexError>(err),
            },
    {
        let ghost src = self.input@;
        let start = self.pos;
        let mut end = start;
        while end < self.input.len() && number_byte(self.input[end])
            invariant
                start <= end <= src.len(),
                self.input@ == src,
                start == old(self).pos,
                number_end(src, start as int) == number_end(src, end as int),
                forall|k: int| start <= k < end ==> is_number_byte(#[trigger] src[k]),
            decreases src.len() - end,
        {
            end = end + 1;
        }
        let d = find_byte(self.input, 46, start, end);
        proof {
            lemma_find_in(src, 46, start as int, end as int);
        }
        if d == end {
            proof {
                assert forall|k: int| start <= k < end implies is_digit(#[trigger] src[k]) by {
                    assert(is_number_byte(src[k]));
                }
            }
            match digits_to_i64(self.input, start, end) {
                Some(v) => {
                    self.pos = end;
                    Ok(Token::Integer(v))
                },
                None => Err(LexError::MalformedNumber),
            }
        } else {
            let d2 = find_byte(self.input, 46, d + 1, end);
            if d2 < end {
                Err(LexError::MalformedNumber)
            } else {
                let text = float_literal_text(self.input, start, d, end);
                self.pos = end;
                Ok(Token::Float(text))
            }
        }
    }

    /// Reads an operator or a punctuation mark, the longest that matches.
    fn read_symbol(&mut self) -> (r: Result<Token, LexError>)
        requires
            old(self).wf(),
            old(self).position() < old(self).source().len(),
        ensures
            final(self).wf(),
            final(self).source() == old(self).source(),
            match symbol(old(self).source(), old(self).position()) {
                Some((t, e)) => r == Ok::<Token, LexError>(t) && final(self).position() == e,
                None => r == Err::<Token, LexError>(
                    LexError::UnexpectedChar(old(self).source()[old(self).position()]),
                ),
            },
    {
        let c = match self.read_char() {
            Some(c) => c,
            // not reached: the position is inside the input
            None => {
                return Err(LexError::UnexpectedChar(0));
            },
        };
        if c == 43 {
            Ok(Token::Add)
        } else if c == 45 {
            Ok(Token::Sub)
        } else if c == 42 {
            Ok(Token::Mul)
        } else if c == 37 {
            Ok(Token::Mod)
        } else if c == 94 {
            Ok(Token::Pow)
        } else if c == 35 {
            Ok(Token::Len)
        } else if c == 38 {
            Ok(Token::BitAnd)
        } else if c == 124 {
            Ok(Token::BitOr)
        } else if c == 40 {
            Ok(Token::ParL)
        } else if c == 41 {
            Ok(Token::ParR)
        } else if c == 123 {
            Ok(Token::CurlyL)
        } else if c == 125 {
            Ok(Token::CurlyR)
        } else if c == 91 {
            Ok(Token::SqurL)
        } else if c == 93 {
            Ok(Token::SqurR)
        } else if c == 59 {
            Ok(Token::SemiColon)
        } else if c == 44 {
            Ok(Token::Comma)
        } else if c == 61 {
            if self.match_pattern(c, &[61, 61]) {
                Ok(Token::Equal)
            } else {
                Ok(Token::Assign)
            }
        } else if c == 126 {
            if self.match_pattern(c, &[126, 61]) {
                Ok(Token::NotEq)
            } else {
                Ok(Token::BitXor)
            }
        } else if c == 58 {
            if self.match_pattern(c, &[58, 58]) {
                Ok(Token::DoubColon)
            } else {
                Ok(Token::Colon)
            }
        } else if c == 46 {
            if self.match_pattern(c, &[46, 46, 46]) {
                Ok(Token::Dots)
            } else if self.match_pattern(c, &[46, 46]) {
                Ok(Token::Concat)
            } else {
                Ok(Token::Dot)
            }
        } else if c == 60 {
            if self.match_pattern(c, &[60, 60]) {
                Ok(Token::ShiftL)
            } else if self.match_pattern(c, &[60, 61]) {
                Ok(Token::LesEq)
            } else {
                Ok(Token::Less)
            }
        } else if c == 62 {
            if self.match_pattern(c, &[62, 62]) {
                Ok(Token::ShiftR)
            } else if self.match_pattern(c, &[62, 61]) {
                Ok(Token::GreEq)
            } else {
                Ok(Token::Greater)
            }
        } else if c == 47 {
            if self.match_pattern(c, &[47, 47]) {
                Ok(Token::Idiv)
            } else {
                Ok(Token::Div)
            }
        } else {
            Err(LexError::UnexpectedChar(c))
        }
    }
}

} // verus!
