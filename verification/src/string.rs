//! The engine-string wrapper: a [`Value`] interpreted as a string.

use vstd::prelude::*;
use vstd::string::StrSliceExecFns;
use vstd::string::StringExecFnsIsAscii;

use crate::convert::{scope_ok, FromJs, IntoJs};
use crate::ctx::{contains_nul, has_nul, Ctx};
use crate::error::Error;
use crate::raw::{RawValue, RawValueV};
use crate::value::{Value, ValueV};

verus! {

/// A host-side handle to an engine string value.
pub struct String(pub Value);

impl String {
    /// Builds an engine string of `ctx`'s environment from a host string.
    pub fn from_str(ctx: Ctx, s: &str) -> (r: Result<String, Error>)
        ensures
            match r {
                Ok(js) => js.0@ == (ValueV {
                    raw: RawValueV::StrV(s@),
                    epoch: ctx.epoch,
                    owned: true,
                }),
                Err(_) => false,
            },
    {
        Ok(
            String(
                Value { raw: RawValue::StrV(s.to_owned()), epoch: ctx.epoch, owned: true },
            ),
        )
    }

    /// The wrapped string as a host string.
    pub fn to_string(&self) -> (r: Result<std::string::String, Error>)
        ensures
            match self.0@.raw {
                RawValueV::StrV(s) => match r {
                    Ok(out) => out@ == s,
                    Err(_) => false,
                },
                _ => r == Err::<std::string::String, Error>(Error::Unknown),
            },
    {
        match &self.0.raw {
            RawValue::StrV(s) => Ok(s.clone()),
            _ => Err(Error::Unknown),
        }
    }

    /// The wrapped string as a NUL-terminated byte buffer.  Only ASCII
    /// contents can be represented; an embedded NUL cannot be terminated
    /// and is rejected before any byte is produced.
    pub fn to_cstring(&self) -> (r: Result<Vec<u8>, Error>)
        ensures
            match self.0@.raw {
                RawValueV::StrV(s) => match r {
                    Ok(b) => {
                        &&& vstd::utf8::is_ascii_chars(s)
                        &&& !has_nul(s)
                        &&& b@.len() == s.len() + 1
                        &&& forall|i: int| 0 <= i < s.len() ==> b@[i] == s[i] as u8
                        &&& b@[s.len() as int] == 0
                    },
                    Err(Error::Unknown) => !vstd::utf8::is_ascii_chars(s),
                    Err(Error::InvalidInput) => vstd::utf8::is_ascii_chars(s) && has_nul(s),
                    Err(_) => false,
                },
                _ => r == Err::<Vec<u8>, Error>(Error::Unknown),
            },
    {
        match &self.0.raw {
            RawValue::StrV(s) => {
                if !s.is_ascii() {
                    return Err(Error::Unknown);
                }
                let sref = s.as_str();
                if contains_nul(sref) {
                    return Err(Error::InvalidInput);
                }
                let mut b = sref.as_bytes_vec();
                proof {
                    vstd::string::is_ascii_spec_bytes(sref);
                }
                b.push(0);
                Ok(b)
            },
            _ => Err(Error::Unknown),
        }
    }
}

impl FromJs for String {
    open spec fn accepts(ctx: Ctx, v: ValueV) -> bool {
        scope_ok(ctx, v) && v.raw is StrV
    }

    open spec fn decode_err(ctx: Ctx, v: ValueV) -> Error {
        if !scope_ok(ctx, v) {
            Error::ScopeMismatch
        } else {
            Error::ShapeMismatch
        }
    }

    open spec fn is_decode(ctx: Ctx, v: ValueV, r: String) -> bool {
        r.0@ == v
    }

    fn from_js(ctx: Ctx, v: Value) -> (r: Result<String, Error>) {
        if v.epoch != ctx.epoch {
            return Err(Error::ScopeMismatch);
        }
        match &v.raw {
            RawValue::StrV(_) => Ok(String(v)),
            _ => Err(Error::ShapeMismatch),
        }
    }
}

impl IntoJs for String {
    open spec fn into_js_view(self, ctx: Ctx) -> Result<ValueV, Error> {
        if self.0@.epoch == ctx.epoch {
            Ok(self.0@)
        } else {
            Err(Error::ScopeMismatch)
        }
    }

    fn into_js(self, ctx: Ctx) -> (r: Result<Value, Error>) {
        if self.0.epoch == ctx.epoch {
            Ok(self.0)
        } else {
            Err(Error::ScopeMismatch)
        }
    }
}

} // verus!
