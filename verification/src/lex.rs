//! The lexer of the engine's source grammar.
//!
//! The grammar's alphabet is a small set of printable characters; any other
//! character makes the whole scan fail, which the engine reports as a syntax
//! error.  [`lex_from`] is the mathematical scanner; [`lex_at`] mirrors it.

use vstd::prelude::*;

use crate::ast::{toks_view, Token, TokenV};

verus! {

pub open spec fn is_space(c: char) -> bool {
    c == ' ' || c == '\t' || c == '\n' || c == '\r'
}

pub open spec fn is_digit(c: char) -> bool {
    '0' <= c && c <= '9'
}

pub open spec fn is_ident_start(c: char) -> bool {
    ('a' <= c && c <= 'z') || ('A' <= c && c <= 'Z') || c == '_' || c == '$'
}

pub open spec fn is_ident_char(c: char) -> bool {
    is_ident_start(c) || is_digit(c)
}

/// Characters allowed inside a single-quoted string literal: the printable
/// band, minus the quote itself.
pub open spec fn is_str_char(c: char) -> bool {
    ' ' <= c && c <= '~' && c != '\''
}

/// The numeric value of a digit character.
pub open spec fn digit_val(c: char) -> int {
    c as u32 - '0' as u32
}

/// End of the identifier run starting at `i`.
pub open spec fn ident_end(s: Seq<char>, i: int) -> int
    decreases s.len() - i,
{
    if 0 <= i && i < s.len() && is_ident_char(s[i]) {
        ident_end(s, i + 1)
    } else {
        i
    }
}

/// End of the digit run starting at `i`.
pub open spec fn digits_end(s: Seq<char>, i: int) -> int
    decreases s.len() - i,
{
    if 0 <= i && i < s.len() && is_digit(s[i]) {
        digits_end(s, i + 1)
    } else {
        i
    }
}

/// End of the run of string-literal characters starting at `i`.
pub open spec fn str_end(s: Seq<char>, i: int) -> int
    decreases s.len() - i,
{
    if 0 <= i && i < s.len() && is_str_char(s[i]) {
        str_end(s, i + 1)
    } else {
        i
    }
}

pub proof fn lemma_ident_end(s: Seq<char>, i: int)
    requires
        0 <= i <= s.len(),
    ensures
        i <= ident_end(s, i) <= s.len(),
        forall|k: int| i <= k < ident_end(s, i) ==> is_ident_char(#[trigger] s[k]),
    decreases s.len() - i,
{
    if i < s.len() && is_ident_char(s[i]) {
        lemma_ident_end(s, i + 1);
    }
}

pub proof fn lemma_digits_end(s: Seq<char>, i: int)
    requires
        0 <= i <= s.len(),
    ensures
        i <= digits_end(s, i) <= s.len(),
        forall|k: int| i <= k < digits_end(s, i) ==> is_digit(#[trigger] s[k]),
    decreases s.len() - i,
{
    if i < s.len() && is_digit(s[i]) {
        lemma_digits_end(s, i + 1);
    }
}

pub proof fn lemma_str_end(s: Seq<char>, i: int)
    requires
        0 <= i <= s.len(),
    ensures
        i <= str_end(s, i) <= s.len(),
    decreases s.len() - i,
{
    if i < s.len() && is_str_char(s[i]) {
        lemma_str_end(s, i + 1);
    }
}

/// The value of the digit run `s[i..j]`, most significant digit first.
pub open spec fn digits_val(s: Seq<char>, i: int, j: int) -> int
    decreases j - i,
{
    if i < j {
        digits_val(s, i, j - 1) * 10 + digit_val(s[j - 1])
    } else {
        0
    }
}

/// Ten to the `n`.
pub open spec fn pow10(n: nat) -> int
    decreases n,
{
    if n == 0 {
        1
    } else {
        10 * pow10((n - 1) as nat)
    }
}

pub proof fn lemma_pow10_mono(a: nat, b: nat)
    requires
        a <= b,
    ensures
        0 < pow10(a) <= pow10(b),
    decreases b,
{
    if b > 0 {
        if a == b {
            lemma_pow10_mono((a - 1) as nat, (b - 1) as nat);
        } else {
            lemma_pow10_mono(a, (b - 1) as nat);
        }
    }
}

pub proof fn lemma_digits_bound(s: Seq<char>, i: int, j: int)
    requires
        i <= j,
        forall|k: int| i <= k < j ==> is_digit(#[trigger] s[k]),
    ensures
        0 <= digits_val(s, i, j) < pow10((j - i) as nat),
    decreases j - i,
{
    if i < j {
        lemma_digits_bound(s, i, j - 1);
    }
}

/// Conses a token onto the rest of a scan, failing when the rest failed.
pub open spec fn cons_tok(t: TokenV, rest: Option<Seq<TokenV>>) -> Option<Seq<TokenV>> {
    match rest {
        Some(r) => Some(seq![t] + r),
        None => None,
    }
}

/// Classifies an identifier run as a keyword or a plain identifier.
pub open spec fn kw_classify(w: Seq<char>) -> TokenV {
    if w == "export"@ {
        TokenV::KwExport
    } else if w == "default"@ {
        TokenV::KwDefault
    } else if w == "async"@ {
        TokenV::KwAsync
    } else if w == "throw"@ {
        TokenV::KwThrow
    } else if w == "new"@ {
        TokenV::KwNew
    } else if w == "Error"@ {
        TokenV::KwError
    } else {
        TokenV::Ident(w)
    }
}

/// The mathematical scanner: the tokens of `s` from position `i` on, or
/// `None` when the text does not lex.  Integer literals are limited to nine
/// digits, so every literal value fits the engine's integer range.
pub open spec fn lex_from(s: Seq<char>, i: int) -> Option<Seq<TokenV>>
    decreases s.len() - i,
{
    if i < 0 || i > s.len() {
        None
    } else if i == s.len() {
        Some(Seq::empty())
    } else {
        let c = s[i];
        if is_space(c) {
            lex_from(s, i + 1)
        } else if is_digit(c) {
            let j = digits_end(s, i);
            if j <= i || j > s.len() || j - i > 9 {
                None
            } else {
                cons_tok(TokenV::Int(digits_val(s, i, j) as i64), lex_from(s, j))
            }
        } else if c == '\'' {
            let j = str_end(s, i + 1);
            if j < i + 1 || j >= s.len() {
                None
            } else if s[j] == '\'' {
                cons_tok(TokenV::StrT(s.subrange(i + 1, j)), lex_from(s, j + 1))
            } else {
                None
            }
        } else if is_ident_start(c) {
            let j = ident_end(s, i);
            if j <= i || j > s.len() {
                None
            } else {
                cons_tok(kw_classify(s.subrange(i, j)), lex_from(s, j))
            }
        } else if c == '+' {
            cons_tok(TokenV::Plus, lex_from(s, i + 1))
        } else if c == '(' {
            cons_tok(TokenV::LParen, lex_from(s, i + 1))
        } else if c == ')' {
            cons_tok(TokenV::RParen, lex_from(s, i + 1))
        } else if c == ';' {
            cons_tok(TokenV::Semi, lex_from(s, i + 1))
        } else if c == '=' {
            if i + 1 < s.len() && s[i + 1] == '>' {
                cons_tok(TokenV::Arrow, lex_from(s, i + 2))
            } else {
                None
            }
        } else {
            None
        }
    }
}

proof fn lemma_toks_cons(t: Token, s: Seq<Token>)
    ensures
        toks_view(s.insert(0, t)) =~= seq![t@] + toks_view(s),
{
    assert forall|k: int| 0 <= k < s.len() + 1 implies toks_view(s.insert(0, t))[k] == (seq![t@]
        + toks_view(s))[k] by {
        if k == 0 {
        } else {
        }
    }
}

fn ident_end_at(s: &str, i: usize) -> (j: usize)
    requires
        i <= s@.len(),
    ensures
        j == ident_end(s@, i as int),
        i <= j <= s@.len(),
    decreases s@.len() - i,
{
    proof {
        lemma_ident_end(s@, i as int);
    }
    if i < s.unicode_len() {
        let c = s.get_char(i);
        if ('a' <= c && c <= 'z') || ('A' <= c && c <= 'Z') || c == '_' || c == '$' || ('0' <= c
            && c <= '9') {
            return ident_end_at(s, i + 1);
        }
    }
    i
}

fn digits_end_at(s: &str, i: usize) -> (j: usize)
    requires
        i <= s@.len(),
    ensures
        j == digits_end(s@, i as int),
        i <= j <= s@.len(),
    decreases s@.len() - i,
{
    proof {
        lemma_digits_end(s@, i as int);
    }
    if i < s.unicode_len() {
        let c = s.get_char(i);
        if '0' <= c && c <= '9' {
            return digits_end_at(s, i + 1);
        }
    }
    i
}

fn str_end_at(s: &str, i: usize) -> (j: usize)
    requires
        i <= s@.len(),
    ensures
        j == str_end(s@, i as int),
        i <= j <= s@.len(),
    decreases s@.len() - i,
{
    proof {
        lemma_str_end(s@, i as int);
    }
    if i < s.unicode_len() {
        let c = s.get_char(i);
        if ' ' <= c && c <= '~' && c != '\'' {
            return str_end_at(s, i + 1);
        }
    }
    i
}

/// Classifies an executable identifier run.
fn kw_token(w: String) -> (t: Token)
    ensures
        t@ == kw_classify(w@),
{
    if w == "export".to_owned() {
        Token::KwExport
    } else if w == "default".to_owned() {
        Token::KwDefault
    } else if w == "async".to_owned() {
        Token::KwAsync
    } else if w == "throw".to_owned() {
        Token::KwThrow
    } else if w == "new".to_owned() {
        Token::KwNew
    } else if w == "Error".to_owned() {
        Token::KwError
    } else {
        Token::Ident(w)
    }
}

/// Scans `s` into tokens, mirroring [`lex_from`].
pub fn lex_at(s: &str, i: usize) -> (r: Option<Vec<Token>>)
    requires
        i <= s@.len(),
    ensures
        match r {
            Some(v) => lex_from(s@, i as int) == Some(toks_view(v@)),
            None => lex_from(s@, i as int) is None,
        },
    decreases s@.len() - i,
{
    if i == s.unicode_len() {
        let v: Vec<Token> = Vec::new();
        proof {
            assert(toks_view(v@) =~= Seq::empty());
        }
        return Some(v);
    }
    let c = s.get_char(i);
    if c == ' ' || c == '\t' || c == '\n' || c == '\r' {
        return lex_at(s, i + 1);
    }
    if '0' <= c && c <= '9' {
        let j = digits_end_at(s, i);
        proof {
            lemma_digits_end(s@, i as int);
            lemma_digits_end(s@, i as int + 1);
            assert(digits_end(s@, i as int) == digits_end(s@, i as int + 1));
            assert(j > i);
        }
        if j - i > 9 {
            return None;
        }
        let mut acc: i64 = 0;
        let mut k = i;
        while k < j
            invariant
                i <= k <= j,
                j <= s@.len(),
                j == digits_end(s@, i as int),
                j - i <= 9,
                forall|m: int| i <= m < j ==> is_digit(#[trigger] s@[m]),
                acc == digits_val(s@, i as int, k as int),
                0 <= acc < pow10((k - i) as nat),
            decreases j - k,
        {
            let d = s.get_char(k);
            proof {
                lemma_pow10_mono((k - i) as nat, 8);
                assert(pow10(8) == 100000000) by {
                    reveal_with_fuel(pow10, 10);
                }
            }
            acc = acc * 10 + ((d as u32) as i64 - 48);
            k += 1;
        }
        proof {
            lemma_digits_bound(s@, i as int, j as int);
        }
        match lex_at(s, j) {
            None => return None,
            Some(mut rest) => {
                proof {
                    lemma_toks_cons(Token::Int(acc), rest@);
                }
                rest.insert(0, Token::Int(acc));
                return Some(rest);
            },
        }
    }
    if c == '\'' {
        let j = str_end_at(s, i + 1);
        if j >= s.unicode_len() {
            return None;
        }
        let q = s.get_char(j);
        if q != '\'' {
            return None;
        }
        let lit = s.substring_char(i + 1, j).to_owned();
        match lex_at(s, j + 1) {
            None => return None,
            Some(mut rest) => {
                proof {
                    lemma_toks_cons(Token::StrT(lit), rest@);
                }
                rest.insert(0, Token::StrT(lit));
                return Some(rest);
            },
        }
    }
    if ('a' <= c && c <= 'z') || ('A' <= c && c <= 'Z') || c == '_' || c == '$' {
        let j = ident_end_at(s, i);
        proof {
            lemma_ident_end(s@, i as int + 1);
            assert(ident_end(s@, i as int) == ident_end(s@, i as int + 1));
            assert(j > i);
        }
        let w = s.substring_char(i, j).to_owned();
        let tok = kw_token(w);
        match lex_at(s, j) {
            None => return None,
            Some(mut rest) => {
                proof {
                    lemma_toks_cons(tok, rest@);
                }
                rest.insert(0, tok);
                return Some(rest);
            },
        }
    }
    let simple: Option<Token> = if c == '+' {
        Some(Token::Plus)
    } else if c == '(' {
        Some(Token::LParen)
    } else if c == ')' {
        Some(Token::RParen)
    } else if c == ';' {
        Some(Token::Semi)
    } else {
        None
    };
    match simple {
        Some(tok) => {
            match lex_at(s, i + 1) {
                None => None,
                Some(mut rest) => {
                    proof {
                        lemma_toks_cons(tok, rest@);
                    }
                    rest.insert(0, tok);
                    Some(rest)
                },
            }
        },
        None => {
            if c == '=' {
                if i + 1 < s.unicode_len() && s.get_char(i + 1) == '>' {
                    match lex_at(s, i + 2) {
                        None => None,
                        Some(mut rest) => {
                            proof {
                                lemma_toks_cons(Token::Arrow, rest@);
                            }
                            rest.insert(0, Token::Arrow);
                            Some(rest)
                        },
                    }
                } else {
                    None
                }
            } else {
                None
            }
        },
    }
}

} // verus!
