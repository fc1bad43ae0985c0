//! The sum-type decoder: ordered one-of-N decoding with well-defined
//! short-circuit rules.
//!
//! Candidates are tried left to right.  A candidate that fails with a
//! shape mismatch passes the value on to the next one; any other failure —
//! a scope mismatch, a range check — aborts the whole decode at once and is
//! never masked by later candidates.  When every candidate mismatches, the
//! first candidate's error is kept as the most specific one.  The empty
//! candidate list fails with "no matching shape".

use vstd::prelude::*;

use crate::convert::{FromJs, IntoJs};
use crate::ctx::Ctx;
use crate::error::Error;
use crate::value::{Value, ValueV};

verus! {

/// One of several candidate shapes: the head shape, or one of the tail's.
pub enum Coproduct<H, T> {
    Inl(H),
    Inr(T),
}

/// The empty candidate list.  No decode ever produces it, and encoding it
/// reports the protocol violation instead of panicking.
pub struct CNil {}

impl<H: FromJs, T: FromJs> FromJs for Coproduct<H, T> {
    open spec fn accepts(ctx: Ctx, v: ValueV) -> bool {
        H::accepts(ctx, v) || (H::decode_err(ctx, v) is ShapeMismatch && T::accepts(ctx, v))
    }

    open spec fn decode_err(ctx: Ctx, v: ValueV) -> Error {
        if !(H::decode_err(ctx, v) is ShapeMismatch) {
            H::decode_err(ctx, v)
        } else if T::decode_err(ctx, v) is ShapeMismatch {
            H::decode_err(ctx, v)
        } else {
            T::decode_err(ctx, v)
        }
    }

    open spec fn is_decode(ctx: Ctx, v: ValueV, r: Coproduct<H, T>) -> bool {
        match r {
            Coproduct::Inl(h) => H::accepts(ctx, v) && H::is_decode(ctx, v, h),
            Coproduct::Inr(t) => !H::accepts(ctx, v) && H::decode_err(ctx, v) is ShapeMismatch
                && T::is_decode(ctx, v, t),
        }
    }

    fn from_js(ctx: Ctx, v: Value) -> (r: Result<Coproduct<H, T>, Error>) {
        match H::from_js(ctx, v.duplicate()) {
            Ok(h) => Ok(Coproduct::Inl(h)),
            Err(e) => {
                if !e.is_shape_mismatch() {
                    Err(e)
                } else {
                    match T::from_js(ctx, v) {
                        Ok(t) => Ok(Coproduct::Inr(t)),
                        Err(te) => {
                            if te.is_shape_mismatch() {
                                Err(e)
                            } else {
                                Err(te)
                            }
                        },
                    }
                }
            },
        }
    }
}

impl FromJs for CNil {
    open spec fn accepts(ctx: Ctx, v: ValueV) -> bool {
        false
    }

    open spec fn decode_err(ctx: Ctx, v: ValueV) -> Error {
        Error::ShapeMismatch
    }

    open spec fn is_decode(ctx: Ctx, v: ValueV, r: CNil) -> bool {
        false
    }

    fn from_js(ctx: Ctx, v: Value) -> (r: Result<CNil, Error>) {
        Err(Error::ShapeMismatch)
    }
}

impl<H: IntoJs, T: IntoJs> IntoJs for Coproduct<H, T> {
    open spec fn into_js_view(self, ctx: Ctx) -> Result<ValueV, Error> {
        match self {
            Coproduct::Inl(h) => h.into_js_view(ctx),
            Coproduct::Inr(t) => t.into_js_view(ctx),
        }
    }

    fn into_js(self, ctx: Ctx) -> (r: Result<Value, Error>) {
        match self {
            Coproduct::Inl(h) => h.into_js(ctx),
            Coproduct::Inr(t) => t.into_js(ctx),
        }
    }
}

impl IntoJs for CNil {
    open spec fn into_js_view(self, ctx: Ctx) -> Result<ValueV, Error> {
        Err(Error::Unknown)
    }

    fn into_js(self, ctx: Ctx) -> (r: Result<Value, Error>) {
        Err(Error::Unknown)
    }
}

} // verus!
