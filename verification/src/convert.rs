//! Decoding engine values into host values and encoding host values back.
//!
//! Both directions check the scope epoch first: a value minted under one
//! execution environment is rejected under another with
//! [`Error::ScopeMismatch`], before any shape is examined.

use vstd::prelude::*;

use crate::ctx::Ctx;
use crate::error::Error;
use crate::raw::{RawValue, RawValueV};
use crate::value::{Value, ValueV};

verus! {

/// Whether a value belongs to the environment it is being used under.
pub open spec fn scope_ok(ctx: Ctx, v: ValueV) -> bool {
    v.epoch == ctx.epoch
}

/// A host type decodable from an engine value.
pub trait FromJs: Sized {
    /// Whether decoding `v` under `ctx` succeeds.
    spec fn accepts(ctx: Ctx, v: ValueV) -> bool;

    /// The error returned when it does not.
    spec fn decode_err(ctx: Ctx, v: ValueV) -> Error;

    /// Whether `r` is the successful decode of `v`.
    spec fn is_decode(ctx: Ctx, v: ValueV, r: Self) -> bool;

    /// Decodes an engine value into a host value.
    fn from_js(ctx: Ctx, v: Value) -> (r: Result<Self, Error>)
        ensures
            Self::accepts(ctx, v@) ==> (match r {
                Ok(x) => Self::is_decode(ctx, v@, x),
                Err(_) => false,
            }),
            !Self::accepts(ctx, v@) ==> r == Err::<Self, Error>(Self::decode_err(ctx, v@)),
    ;
}

/// What decoding the raw value `raw`, freshly wrapped under `ctx`, must
/// yield: the clause every evaluation result's decode obeys.
pub open spec fn decode_clause<V: FromJs>(ctx: Ctx, raw: RawValueV, r: Result<V, Error>) -> bool {
    let w = ValueV { raw, epoch: ctx.epoch, owned: true };
    &&& (V::accepts(ctx, w) ==> (match r {
        Ok(x) => V::is_decode(ctx, w, x),
        Err(_) => false,
    }))
    &&& (!V::accepts(ctx, w) ==> r == Err::<V, Error>(V::decode_err(ctx, w)))
}

/// A host type encodable as an engine value.
pub trait IntoJs: Sized {
    /// The encoding's outcome, over views.
    spec fn into_js_view(self, ctx: Ctx) -> Result<ValueV, Error>;

    /// Encodes the host value as an engine value of `ctx`'s environment.
    fn into_js(self, ctx: Ctx) -> (r: Result<Value, Error>)
        ensures
            res_value_view(r) == self.into_js_view(ctx),
    ;
}

/// The view of an encoding result.
pub open spec fn res_value_view(r: Result<Value, Error>) -> Result<ValueV, Error> {
    match r {
        Ok(v) => Ok(v@),
        Err(e) => Err(e),
    }
}

impl FromJs for i64 {
    open spec fn accepts(ctx: Ctx, v: ValueV) -> bool {
        scope_ok(ctx, v) && v.raw is Int
    }

    open spec fn decode_err(ctx: Ctx, v: ValueV) -> Error {
        if !scope_ok(ctx, v) {
            Error::ScopeMismatch
        } else {
            Error::ShapeMismatch
        }
    }

    open spec fn is_decode(ctx: Ctx, v: ValueV, r: i64) -> bool {
        v.raw == RawValueV::Int(r)
    }

    fn from_js(ctx: Ctx, v: Value) -> (r: Result<i64, Error>) {
        if v.epoch != ctx.epoch {
            return Err(Error::ScopeMismatch);
        }
        match v.raw {
            RawValue::Int(i) => Ok(i),
            _ => Err(Error::ShapeMismatch),
        }
    }
}

impl FromJs for i32 {
    open spec fn accepts(ctx: Ctx, v: ValueV) -> bool {
        scope_ok(ctx, v) && (match v.raw {
            RawValueV::Int(i) => i32::MIN <= i <= i32::MAX,
            _ => false,
        })
    }

    open spec fn decode_err(ctx: Ctx, v: ValueV) -> Error {
        if !scope_ok(ctx, v) {
            Error::ScopeMismatch
        } else if v.raw is Int {
            Error::OutOfRange
        } else {
            Error::ShapeMismatch
        }
    }

    open spec fn is_decode(ctx: Ctx, v: ValueV, r: i32) -> bool {
        v.raw == RawValueV::Int(r as i64)
    }

    fn from_js(ctx: Ctx, v: Value) -> (r: Result<i32, Error>) {
        if v.epoch != ctx.epoch {
            return Err(Error::ScopeMismatch);
        }
        match v.raw {
            RawValue::Int(i) => {
                if i32::MIN as i64 <= i && i <= i32::MAX as i64 {
                    Ok(i as i32)
                } else {
                    Err(Error::OutOfRange)
                }
            },
            _ => Err(Error::ShapeMismatch),
        }
    }
}

impl FromJs for bool {
    open spec fn accepts(ctx: Ctx, v: ValueV) -> bool {
        scope_ok(ctx, v) && v.raw is Bool
    }

    open spec fn decode_err(ctx: Ctx, v: ValueV) -> Error {
        if !scope_ok(ctx, v) {
            Error::ScopeMismatch
        } else {
            Error::ShapeMismatch
        }
    }

    open spec fn is_decode(ctx: Ctx, v: ValueV, r: bool) -> bool {
        v.raw == RawValueV::Bool(r)
    }

    fn from_js(ctx: Ctx, v: Value) -> (r: Result<bool, Error>) {
        if v.epoch != ctx.epoch {
            return Err(Error::ScopeMismatch);
        }
        match v.raw {
            RawValue::Bool(b) => Ok(b),
            _ => Err(Error::ShapeMismatch),
        }
    }
}

impl FromJs for String {
    open spec fn accepts(ctx: Ctx, v: ValueV) -> bool {
        scope_ok(ctx, v) && v.raw is StrV
    }

    open spec fn decode_err(ctx: Ctx, v: ValueV) -> Error {
        if !scope_ok(ctx, v) {
            Error::ScopeMismatch
        } else {
            Error::ShapeMismatch
        }
    }

    open spec fn is_decode(ctx: Ctx, v: ValueV, r: String) -> bool {
        match v.raw {
            RawValueV::StrV(s) => r@ == s,
            _ => false,
        }
    }

    fn from_js(ctx: Ctx, v: Value) -> (r: Result<String, Error>) {
        if v.epoch != ctx.epoch {
            return Err(Error::ScopeMismatch);
        }
        match v.raw {
            RawValue::StrV(s) => Ok(s),
            _ => Err(Error::ShapeMismatch),
        }
    }
}

impl FromJs for () {
    open spec fn accepts(ctx: Ctx, v: ValueV) -> bool {
        scope_ok(ctx, v)
    }

    open spec fn decode_err(ctx: Ctx, v: ValueV) -> Error {
        Error::ScopeMismatch
    }

    open spec fn is_decode(ctx: Ctx, v: ValueV, r: ()) -> bool {
        true
    }

    fn from_js(ctx: Ctx, v: Value) -> (r: Result<(), Error>) {
        if v.epoch != ctx.epoch {
            return Err(Error::ScopeMismatch);
        }
        Ok(())
    }
}

impl FromJs for Value {
    open spec fn accepts(ctx: Ctx, v: ValueV) -> bool {
        scope_ok(ctx, v)
    }

    open spec fn decode_err(ctx: Ctx, v: ValueV) -> Error {
        Error::ScopeMismatch
    }

    open spec fn is_decode(ctx: Ctx, v: ValueV, r: Value) -> bool {
        r@ == v
    }

    fn from_js(ctx: Ctx, v: Value) -> (r: Result<Value, Error>) {
        if v.epoch != ctx.epoch {
            return Err(Error::ScopeMismatch);
        }
        Ok(v)
    }
}

impl FromJs for crate::value::Object {
    open spec fn accepts(ctx: Ctx, v: ValueV) -> bool {
        scope_ok(ctx, v) && v.raw is Obj
    }

    open spec fn decode_err(ctx: Ctx, v: ValueV) -> Error {
        if !scope_ok(ctx, v) {
            Error::ScopeMismatch
        } else {
            Error::ShapeMismatch
        }
    }

    open spec fn is_decode(ctx: Ctx, v: ValueV, r: crate::value::Object) -> bool {
        r.0@ == v
    }

    fn from_js(ctx: Ctx, v: Value) -> (r: Result<crate::value::Object, Error>) {
        if v.epoch != ctx.epoch {
            return Err(Error::ScopeMismatch);
        }
        match &v.raw {
            RawValue::Obj(_) => Ok(crate::value::Object(v)),
            _ => Err(Error::ShapeMismatch),
        }
    }
}

impl FromJs for crate::value::Function {
    open spec fn accepts(ctx: Ctx, v: ValueV) -> bool {
        scope_ok(ctx, v) && (v.raw is Fun || v.raw is Resolver)
    }

    open spec fn decode_err(ctx: Ctx, v: ValueV) -> Error {
        if !scope_ok(ctx, v) {
            Error::ScopeMismatch
        } else {
            Error::ShapeMismatch
        }
    }

    open spec fn is_decode(ctx: Ctx, v: ValueV, r: crate::value::Function) -> bool {
        r.0@ == v
    }

    fn from_js(ctx: Ctx, v: Value) -> (r: Result<crate::value::Function, Error>) {
        if v.epoch != ctx.epoch {
            return Err(Error::ScopeMismatch);
        }
        match &v.raw {
            RawValue::Fun { .. } => Ok(crate::value::Function(v)),
            RawValue::Resolver { .. } => Ok(crate::value::Function(v)),
            _ => Err(Error::ShapeMismatch),
        }
    }
}

impl IntoJs for i64 {
    open spec fn into_js_view(self, ctx: Ctx) -> Result<ValueV, Error> {
        Ok(ValueV { raw: RawValueV::Int(self), epoch: ctx.epoch, owned: true })
    }

    fn into_js(self, ctx: Ctx) -> (r: Result<Value, Error>) {
        Ok(Value { raw: RawValue::Int(self), epoch: ctx.epoch, owned: true })
    }
}

impl IntoJs for i32 {
    open spec fn into_js_view(self, ctx: Ctx) -> Result<ValueV, Error> {
        Ok(ValueV { raw: RawValueV::Int(self as i64), epoch: ctx.epoch, owned: true })
    }

    fn into_js(self, ctx: Ctx) -> (r: Result<Value, Error>) {
        Ok(Value { raw: RawValue::Int(self as i64), epoch: ctx.epoch, owned: true })
    }
}

impl IntoJs for bool {
    open spec fn into_js_view(self, ctx: Ctx) -> Result<ValueV, Error> {
        Ok(ValueV { raw: RawValueV::Bool(self), epoch: ctx.epoch, owned: true })
    }

    fn into_js(self, ctx: Ctx) -> (r: Result<Value, Error>) {
        Ok(Value { raw: RawValue::Bool(self), epoch: ctx.epoch, owned: true })
    }
}

impl IntoJs for String {
    open spec fn into_js_view(self, ctx: Ctx) -> Result<ValueV, Error> {
        Ok(ValueV { raw: RawValueV::StrV(self@), epoch: ctx.epoch, owned: true })
    }

    fn into_js(self, ctx: Ctx) -> (r: Result<Value, Error>) {
        Ok(Value { raw: RawValue::StrV(self), epoch: ctx.epoch, owned: true })
    }
}

impl IntoJs for () {
    open spec fn into_js_view(self, ctx: Ctx) -> Result<ValueV, Error> {
        Ok(ValueV { raw: RawValueV::Undefined, epoch: ctx.epoch, owned: true })
    }

    fn into_js(self, ctx: Ctx) -> (r: Result<Value, Error>) {
        Ok(Value { raw: RawValue::Undefined, epoch: ctx.epoch, owned: true })
    }
}

impl IntoJs for Value {
    open spec fn into_js_view(self, ctx: Ctx) -> Result<ValueV, Error> {
        if self@.epoch == ctx.epoch {
            Ok(self@)
        } else {
            Err(Error::ScopeMismatch)
        }
    }

    fn into_js(self, ctx: Ctx) -> (r: Result<Value, Error>) {
        if self.epoch == ctx.epoch {
            Ok(self)
        } else {
            Err(Error::ScopeMismatch)
        }
    }
}

} // verus!
