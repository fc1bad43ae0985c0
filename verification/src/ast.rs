//! Tokens, expressions and programs of the engine's source grammar.
//!
//! Each executable type has a mathematical counterpart whose string contents
//! are `Seq<char>`; the executable type's view maps into it, so that the
//! lexer, parser and evaluator can be specified over the mathematical forms.

use vstd::prelude::*;

verus! {

/// Mathematical form of a lexical token.
pub enum TokenV {
    Int(i64),
    StrT(Seq<char>),
    Ident(Seq<char>),
    KwExport,
    KwDefault,
    KwAsync,
    KwThrow,
    KwNew,
    KwError,
    Plus,
    LParen,
    RParen,
    Arrow,
    Semi,
}

/// A lexical token of the source grammar.
pub enum Token {
    /// An integer literal, within the engine's integer range.
    Int(i64),
    /// A single-quoted string literal, without its quotes.
    StrT(String),
    /// An identifier that is not a keyword.
    Ident(String),
    KwExport,
    KwDefault,
    KwAsync,
    KwThrow,
    KwNew,
    KwError,
    Plus,
    LParen,
    RParen,
    Arrow,
    Semi,
}

impl View for Token {
    type V = TokenV;

    open spec fn view(&self) -> TokenV {
        match self {
            Token::Int(i) => TokenV::Int(*i),
            Token::StrT(s) => TokenV::StrT(s@),
            Token::Ident(s) => TokenV::Ident(s@),
            Token::KwExport => TokenV::KwExport,
            Token::KwDefault => TokenV::KwDefault,
            Token::KwAsync => TokenV::KwAsync,
            Token::KwThrow => TokenV::KwThrow,
            Token::KwNew => TokenV::KwNew,
            Token::KwError => TokenV::KwError,
            Token::Plus => TokenV::Plus,
            Token::LParen => TokenV::LParen,
            Token::RParen => TokenV::RParen,
            Token::Arrow => TokenV::Arrow,
            Token::Semi => TokenV::Semi,
        }
    }
}

/// The views of a token sequence.
pub open spec fn toks_view(ts: Seq<Token>) -> Seq<TokenV> {
    ts.map_values(|t: Token| t@)
}

/// Mathematical form of an expression.
pub enum ExprV {
    IntLit(i64),
    StrLit(Seq<char>),
    Var(Seq<char>),
    Add(Box<ExprV>, Box<ExprV>),
    ArrowFn { is_async: bool, param: Option<Seq<char>>, body: Box<ExprV> },
}

/// An expression of the source grammar.
pub enum Expr {
    /// An integer literal.
    IntLit(i64),
    /// A string literal.
    StrLit(String),
    /// A variable reference.
    Var(String),
    /// Addition, or string concatenation when both sides are strings.
    Add(Box<Expr>, Box<Expr>),
    /// An arrow function with zero or one parameter.
    ArrowFn { is_async: bool, param: Option<String>, body: Box<Expr> },
}

/// The view of an expression.
pub open spec fn expr_view(e: Expr) -> ExprV
    decreases e,
{
    match e {
        Expr::IntLit(i) => ExprV::IntLit(i),
        Expr::StrLit(s) => ExprV::StrLit(s@),
        Expr::Var(s) => ExprV::Var(s@),
        Expr::Add(a, b) => ExprV::Add(Box::new(expr_view(*a)), Box::new(expr_view(*b))),
        Expr::ArrowFn { is_async, param, body } => ExprV::ArrowFn {
            is_async,
            param: match param {
                Some(p) => Some(p@),
                None => None,
            },
            body: Box::new(expr_view(*body)),
        },
    }
}

impl View for Expr {
    type V = ExprV;

    open spec fn view(&self) -> ExprV {
        expr_view(*self)
    }
}

impl Expr {
    /// A deep copy of the expression.
    pub fn duplicate(&self) -> (r: Expr)
        ensures
            r == *self,
        decreases self,
    {
        match self {
            Expr::IntLit(i) => Expr::IntLit(*i),
            Expr::StrLit(s) => Expr::StrLit(s.clone()),
            Expr::Var(s) => Expr::Var(s.clone()),
            Expr::Add(a, b) => Expr::Add(Box::new(a.duplicate()), Box::new(b.duplicate())),
            Expr::ArrowFn { is_async, param, body } => Expr::ArrowFn {
                is_async: *is_async,
                param: match param {
                    Some(p) => Some(p.clone()),
                    None => None,
                },
                body: Box::new(body.duplicate()),
            },
        }
    }
}

/// Mathematical form of a whole program.
pub enum ProgramV {
    ExprP(ExprV),
    ThrowP(Seq<char>),
    ExportDefault(ExprV),
}

/// A whole program: a bare expression, a `throw new Error('...')` statement,
/// or a module body exporting a default value.
pub enum Program {
    ExprP(Expr),
    ThrowP(String),
    ExportDefault(Expr),
}

impl View for Program {
    type V = ProgramV;

    open spec fn view(&self) -> ProgramV {
        match self {
            Program::ExprP(e) => ProgramV::ExprP(e@),
            Program::ThrowP(s) => ProgramV::ThrowP(s@),
            Program::ExportDefault(e) => ProgramV::ExportDefault(e@),
        }
    }
}

} // verus!
