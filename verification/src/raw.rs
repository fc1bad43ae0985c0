//! Raw engine values: what crosses the host/engine boundary before being
//! wrapped into a [`crate::value::Value`].
//!
//! One variant, [`RawValue::Exception`], is the reserved sentinel: it carries
//! no payload and means "an exception is pending; ask the environment".

use vstd::prelude::*;

use crate::ast::{expr_view, Expr, ExprV};

verus! {

/// Mathematical form of a raw engine value.
pub enum RawValueV {
    Undefined,
    Int(i64),
    Bool(bool),
    StrV(Seq<char>),
    Fun { is_async: bool, param: Option<Seq<char>>, body: ExprV },
    Resolver { promise: int, reject: bool },
    Obj(int),
    ErrV(Seq<char>),
    Exception,
}

/// A raw engine value.
pub enum RawValue {
    /// The absent value.
    Undefined,
    /// An integer.
    Int(i64),
    /// A boolean.
    Bool(bool),
    /// A string.
    StrV(String),
    /// A function value: an arrow function of zero or one parameter.
    Fun { is_async: bool, param: Option<String>, body: Box<Expr> },
    /// A built-in function settling the promise at a heap index, either
    /// resolving or rejecting it.
    Resolver { promise: usize, reject: bool },
    /// A reference to the object at a heap index.
    Obj(usize),
    /// An error object, carrying its message.
    ErrV(String),
    /// The reserved sentinel signalling a pending exception.
    Exception,
}

impl View for RawValue {
    type V = RawValueV;

    open spec fn view(&self) -> RawValueV {
        match self {
            RawValue::Undefined => RawValueV::Undefined,
            RawValue::Int(i) => RawValueV::Int(*i),
            RawValue::Bool(b) => RawValueV::Bool(*b),
            RawValue::StrV(s) => RawValueV::StrV(s@),
            RawValue::Fun { is_async, param, body } => RawValueV::Fun {
                is_async: *is_async,
                param: match param {
                    Some(p) => Some(p@),
                    None => None,
                },
                body: expr_view(**body),
            },
            RawValue::Resolver { promise, reject } => RawValueV::Resolver {
                promise: *promise as int,
                reject: *reject,
            },
            RawValue::Obj(i) => RawValueV::Obj(*i as int),
            RawValue::ErrV(s) => RawValueV::ErrV(s@),
            RawValue::Exception => RawValueV::Exception,
        }
    }
}

impl RawValue {
    /// A deep copy of the value.
    pub fn duplicate(&self) -> (r: RawValue)
        ensures
            r == *self,
    {
        match self {
            RawValue::Undefined => RawValue::Undefined,
            RawValue::Int(i) => RawValue::Int(*i),
            RawValue::Bool(b) => RawValue::Bool(*b),
            RawValue::StrV(s) => RawValue::StrV(s.clone()),
            RawValue::Fun { is_async, param, body } => RawValue::Fun {
                is_async: *is_async,
                param: match param {
                    Some(p) => Some(p.clone()),
                    None => None,
                },
                body: Box::new(body.duplicate()),
            },
            RawValue::Resolver { promise, reject } => RawValue::Resolver {
                promise: *promise,
                reject: *reject,
            },
            RawValue::Obj(i) => RawValue::Obj(*i),
            RawValue::ErrV(s) => RawValue::ErrV(s.clone()),
            RawValue::Exception => RawValue::Exception,
        }
    }
}

/// The message under which a thrown value is reported to the host.
pub open spec fn err_msg(v: RawValueV) -> Seq<char> {
    match v {
        RawValueV::ErrV(m) => m,
        RawValueV::StrV(m) => m,
        _ => "uncaught exception"@,
    }
}

/// Mirrors [`err_msg`].
pub fn err_msg_of(v: &RawValue) -> (r: String)
    ensures
        r@ == err_msg(v@),
{
    match v {
        RawValue::ErrV(m) => m.clone(),
        RawValue::StrV(m) => m.clone(),
        _ => "uncaught exception".to_owned(),
    }
}

} // verus!
