//! The parser of the engine's source grammar.
//!
//! Expressions are sums of terms; a term is an integer literal, a string
//! literal, a variable, or an arrow function of zero or one parameter,
//! optionally marked `async`.  A whole program is a bare expression, a
//! `throw new Error('...')` statement, or `export default` followed by an
//! expression; a single trailing semicolon is allowed.

use vstd::prelude::*;

use crate::ast::{toks_view, Expr, ExprV, Program, ProgramV, Token, TokenV};

verus! {

/// Parses an arrow function whose tokens start at `i`.
pub open spec fn parse_arrow(t: Seq<TokenV>, i: int, is_async: bool) -> Option<(ExprV, int)>
    decreases t.len() - i, 0int,
{
    if i < 0 || i >= t.len() {
        None
    } else {
        match t[i] {
            TokenV::Ident(x) => {
                if i + 1 < t.len() && t[i + 1] is Arrow {
                    match parse_expr(t, i + 2) {
                        Some((body, j)) => Some(
                            (
                                ExprV::ArrowFn {
                                    is_async,
                                    param: Some(x),
                                    body: Box::new(body),
                                },
                                j,
                            ),
                        ),
                        None => None,
                    }
                } else {
                    None
                }
            },
            TokenV::LParen => {
                if i + 2 < t.len() && t[i + 1] is RParen && t[i + 2] is Arrow {
                    match parse_expr(t, i + 3) {
                        Some((body, j)) => Some(
                            (ExprV::ArrowFn { is_async, param: None, body: Box::new(body) }, j),
                        ),
                        None => None,
                    }
                } else {
                    None
                }
            },
            _ => None,
        }
    }
}

/// Parses one term starting at `i`.
pub open spec fn parse_term(t: Seq<TokenV>, i: int) -> Option<(ExprV, int)>
    decreases t.len() - i, 1int,
{
    if i < 0 || i >= t.len() {
        None
    } else {
        match t[i] {
            TokenV::Int(v) => Some((ExprV::IntLit(v), i + 1)),
            TokenV::StrT(s) => Some((ExprV::StrLit(s), i + 1)),
            TokenV::KwAsync => {
                if i + 1 > i {
                    parse_arrow(t, i + 1, true)
                } else {
                    None
                }
            },
            TokenV::Ident(x) => {
                if i + 1 < t.len() && t[i + 1] is Arrow {
                    parse_arrow(t, i, false)
                } else {
                    Some((ExprV::Var(x), i + 1))
                }
            },
            TokenV::LParen => parse_arrow(t, i, false),
            _ => None,
        }
    }
}

/// Parses the `+ term` continuations of a sum, left associatively.
pub open spec fn parse_rest(acc: ExprV, t: Seq<TokenV>, i: int) -> Option<(ExprV, int)>
    decreases t.len() - i, 3int,
{
    if 0 <= i && i < t.len() && t[i] is Plus {
        match parse_term(t, i + 1) {
            Some((e, j)) => {
                if i + 1 < j && j <= t.len() {
                    parse_rest(ExprV::Add(Box::new(acc), Box::new(e)), t, j)
                } else {
                    None
                }
            },
            None => None,
        }
    } else {
        Some((acc, i))
    }
}

/// Parses one expression starting at `i`.
pub open spec fn parse_expr(t: Seq<TokenV>, i: int) -> Option<(ExprV, int)>
    decreases t.len() - i, 2int,
{
    match parse_term(t, i) {
        Some((e, j)) => {
            if i < j && j <= t.len() {
                parse_rest(e, t, j)
            } else {
                None
            }
        },
        None => None,
    }
}

/// Whether a program may end at token position `j`: either the tokens are
/// exhausted, or one final semicolon remains.
pub open spec fn ends_program(t: Seq<TokenV>, j: int) -> bool {
    j == t.len() || (j == t.len() - 1 && t[j] is Semi)
}

/// Parses a whole program.
pub open spec fn parse_program(t: Seq<TokenV>) -> Option<ProgramV> {
    if t.len() == 0 {
        None
    } else if t[0] is KwExport {
        if t.len() >= 2 && t[1] is KwDefault {
            match parse_expr(t, 2) {
                Some((e, j)) => {
                    if ends_program(t, j) {
                        Some(ProgramV::ExportDefault(e))
                    } else {
                        None
                    }
                },
                None => None,
            }
        } else {
            None
        }
    } else if t[0] is KwThrow {
        if t.len() >= 6 && t[1] is KwNew && t[2] is KwError && t[3] is LParen && t[5] is RParen
            && ends_program(t, 6) {
            match t[4] {
                TokenV::StrT(m) => Some(ProgramV::ThrowP(m)),
                _ => None,
            }
        } else {
            None
        }
    } else {
        match parse_expr(t, 0) {
            Some((e, j)) => {
                if ends_program(t, j) {
                    Some(ProgramV::ExprP(e))
                } else {
                    None
                }
            },
            None => None,
        }
    }
}

/// Mirrors [`parse_arrow`].
pub fn parse_arrow_at(toks: &Vec<Token>, i: usize, is_async: bool) -> (r: Option<(Expr, usize)>)
    ensures
        match r {
            Some((e, j)) => parse_arrow(toks_view(toks@), i as int, is_async) == Some(
                (e@, j as int),
            ) && i < j <= toks@.len(),
            None => parse_arrow(toks_view(toks@), i as int, is_async) is None,
        },
    decreases toks@.len() - i, 0int,
{
    if i >= toks.len() {
        return None;
    }
    let n = toks.len();
    match &toks[i] {
        Token::Ident(x) => {
            if i + 1 < n && matches!(&toks[i + 1], Token::Arrow) {
                match parse_expr_at(toks, i + 2) {
                    Some((body, j)) => Some(
                        (
                            Expr::ArrowFn {
                                is_async,
                                param: Some(x.clone()),
                                body: Box::new(body),
                            },
                            j,
                        ),
                    ),
                    None => None,
                }
            } else {
                None
            }
        },
        Token::LParen => {
            if n - i > 2 && matches!(&toks[i + 1], Token::RParen) && matches!(
                &toks[i + 2],
                Token::Arrow,
            ) {
                match parse_expr_at(toks, i + 3) {
                    Some((body, j)) => Some(
                        (Expr::ArrowFn { is_async, param: None, body: Box::new(body) }, j),
                    ),
                    None => None,
                }
            } else {
                None
            }
        },
        _ => None,
    }
}

/// Mirrors [`parse_term`].
pub fn parse_term_at(toks: &Vec<Token>, i: usize) -> (r: Option<(Expr, usize)>)
    ensures
        match r {
            Some((e, j)) => parse_term(toks_view(toks@), i as int) == Some((e@, j as int)) && i < j
                <= toks@.len(),
            None => parse_term(toks_view(toks@), i as int) is None,
        },
    decreases toks@.len() - i, 1int,
{
    if i >= toks.len() {
        return None;
    }
    let n = toks.len();
    match &toks[i] {
        Token::Int(v) => Some((Expr::IntLit(*v), i + 1)),
        Token::StrT(s) => Some((Expr::StrLit(s.clone()), i + 1)),
        Token::KwAsync => parse_arrow_at(toks, i + 1, true),
        Token::Ident(x) => {
            if i + 1 < n && matches!(&toks[i + 1], Token::Arrow) {
                parse_arrow_at(toks, i, false)
            } else {
                Some((Expr::Var(x.clone()), i + 1))
            }
        },
        Token::LParen => parse_arrow_at(toks, i, false),
        _ => None,
    }
}

/// Mirrors [`parse_rest`].
pub fn parse_rest_at(acc: Expr, toks: &Vec<Token>, i: usize) -> (r: Option<(Expr, usize)>)
    requires
        i <= toks@.len(),
    ensures
        match r {
            Some((e, j)) => parse_rest(acc@, toks_view(toks@), i as int) == Some((e@, j as int))
                && i <= j <= toks@.len(),
            None => parse_rest(acc@, toks_view(toks@), i as int) is None,
        },
    decreases toks@.len() - i, 3int,
{
    if i < toks.len() && matches!(&toks[i], Token::Plus) {
        proof {
            assert(toks_view(toks@)[i as int] == toks@[i as int]@);
        }
        match parse_term_at(toks, i + 1) {
            Some((e, j)) => parse_rest_at(Expr::Add(Box::new(acc), Box::new(e)), toks, j),
            None => None,
        }
    } else {
        proof {
            if i < toks@.len() {
                assert(toks_view(toks@)[i as int] == toks@[i as int]@);
            }
        }
        Some((acc, i))
    }
}

/// Mirrors [`parse_expr`].
pub fn parse_expr_at(toks: &Vec<Token>, i: usize) -> (r: Option<(Expr, usize)>)
    ensures
        match r {
            Some((e, j)) => parse_expr(toks_view(toks@), i as int) == Some((e@, j as int)) && i < j
                <= toks@.len(),
            None => parse_expr(toks_view(toks@), i as int) is None,
        },
    decreases toks@.len() - i, 2int,
{
    match parse_term_at(toks, i) {
        Some((e, j)) => parse_rest_at(e, toks, j),
        None => None,
    }
}

/// Mirrors [`parse_program`].
pub fn parse_program_at(toks: &Vec<Token>) -> (r: Option<Program>)
    ensures
        match r {
            Some(p) => parse_program(toks_view(toks@)) == Some(p@),
            None => parse_program(toks_view(toks@)) is None,
        },
{
    let n = toks.len();
    if n == 0 {
        return None;
    }
    if matches!(&toks[0], Token::KwExport) {
        if n >= 2 && matches!(&toks[1], Token::KwDefault) {
            match parse_expr_at(toks, 2) {
                Some((e, j)) => {
                    if ends_program_at(toks, j) {
                        Some(Program::ExportDefault(e))
                    } else {
                        None
                    }
                },
                None => None,
            }
        } else {
            None
        }
    } else if matches!(&toks[0], Token::KwThrow) {
        if n >= 6 && matches!(&toks[1], Token::KwNew) && matches!(&toks[2], Token::KwError)
            && matches!(&toks[3], Token::LParen) && matches!(&toks[5], Token::RParen)
            && ends_program_at(toks, 6) {
            match &toks[4] {
                Token::StrT(m) => Some(Program::ThrowP(m.clone())),
                _ => None,
            }
        } else {
            None
        }
    } else {
        match parse_expr_at(toks, 0) {
            Some((e, j)) => {
                if ends_program_at(toks, j) {
                    Some(Program::ExprP(e))
                } else {
                    None
                }
            },
            None => None,
        }
    }
}

/// Mirrors [`ends_program`].
fn ends_program_at(toks: &Vec<Token>, j: usize) -> (r: bool)
    requires
        j <= toks@.len(),
    ensures
        r == ends_program(toks_view(toks@), j as int),
{
    j == toks.len() || (j == toks.len() - 1 && matches!(&toks[j], Token::Semi))
}

} // verus!
