//! Host-side handles to engine values.
//!
//! A [`Value`] wraps one raw engine value together with the epoch of the
//! execution environment that produced it.  Epochs are the runtime form of
//! scope tokens: every API that hands a value back to the engine first
//! checks that the value's epoch matches the environment's, and rejects a
//! mismatch with [`Error::ScopeMismatch`].

use vstd::prelude::*;

use crate::assoc::assoc_lookup;
use crate::bridge::handle_exception;
use crate::convert::{decode_clause, FromJs};
use crate::ctx::Ctx;
use crate::engine::{
    call_heap_spec, call_result_spec, engine_call, HeapObj, HeapObjV, Runtime,
};
use crate::error::{err_is_exception, Error};
use crate::raw::{err_msg, RawValue, RawValueV};

verus! {

/// Mathematical form of a host-side value handle.
pub struct ValueV {
    pub raw: RawValueV,
    pub epoch: u64,
    pub owned: bool,
}

/// A host-side handle to one engine value.  `owned` records whether the
/// handle owns its engine reference or is a non-owning observation.
pub struct Value {
    pub raw: RawValue,
    pub epoch: u64,
    pub owned: bool,
}

impl View for Value {
    type V = ValueV;

    open spec fn view(&self) -> ValueV {
        ValueV { raw: self.raw@, epoch: self.epoch, owned: self.owned }
    }
}

impl Value {
    /// Wraps a raw engine result as an owned value of `ctx`'s environment.
    pub fn from_js_value(ctx: Ctx, raw: RawValue) -> (v: Value)
        ensures
            v@ == (ValueV { raw: raw@, epoch: ctx.epoch, owned: true }),
    {
        Value { raw, epoch: ctx.epoch, owned: true }
    }

    /// A deep copy of the handle.
    pub fn duplicate(&self) -> (r: Value)
        ensures
            r == *self,
    {
        Value { raw: self.raw.duplicate(), epoch: self.epoch, owned: self.owned }
    }
}

/// A host-side handle to an engine object.
pub struct Object(pub Value);

/// A host-side handle to an engine function.
pub struct Function(pub Value);

/// A host-side handle to an evaluated module's namespace object.
pub struct Module(pub Value);

/// The property a module read yields: the named export if present, the
/// absent value if not, and a failure when the handle is no object.
pub open spec fn module_prop(heap: Seq<HeapObjV>, raw: RawValueV, name: Seq<char>) -> Result<
    RawValueV,
    Error,
> {
    match raw {
        RawValueV::Obj(i) => if 0 <= i < heap.len() {
            match assoc_lookup(heap[i].props, name) {
                Some(v) => Ok(v),
                None => Ok(RawValueV::Undefined),
            }
        } else {
            Err(Error::Unknown)
        },
        _ => Err(Error::Unknown),
    }
}

/// Looks a property up in one heap object, yielding a deep copy.
fn prop_lookup(obj: &HeapObj, name: &str) -> (r: Option<RawValue>)
    ensures
        match r {
            Some(v) => assoc_lookup(obj@.props, name@) == Some(v@),
            None => assoc_lookup(obj@.props, name@) is None,
        },
{
    let wanted = name.to_owned();
    let mut idx = obj.props.len();
    proof {
        assert(obj@.props.take(idx as int) =~= obj@.props);
        assert(obj@.props.len() == obj.props@.len());
    }
    while idx > 0
        invariant
            idx <= obj.props@.len(),
            obj@.props.len() == obj.props@.len(),
            wanted@ == name@,
            assoc_lookup(obj@.props, name@) == assoc_lookup(obj@.props.take(idx as int), name@),
        decreases idx,
    {
        idx -= 1;
        proof {
            assert(obj@.props[idx as int] == (obj.props@[idx as int].0@, obj.props@[
                idx as int].1@));
            assert(obj@.props.take(idx as int + 1).last() == obj@.props[idx as int]);
            assert(obj@.props.take(idx as int + 1).drop_last() =~= obj@.props.take(idx as int));
        }
        let e = &obj.props[idx];
        if e.0 == wanted {
            return Some(e.1.duplicate());
        }
    }
    None
}

impl Module {
    /// Reads a named export of the module's namespace object and decodes it;
    /// a missing export decodes from the absent value, as a read of an
    /// absent object property does.
    pub fn get<V: FromJs>(&self, ctx: Ctx, rt: &Runtime, name: &str) -> (r: Result<V, Error>)
        ensures
            self.0@.epoch != ctx.epoch ==> r == Err::<V, Error>(Error::ScopeMismatch),
            self.0@.epoch == ctx.epoch ==> match module_prop(rt.heap_view(), self.0@.raw, name@) {
                Ok(v) => decode_clause::<V>(ctx, v, r),
                Err(e) => r == Err::<V, Error>(e),
            },
    {
        if self.0.epoch != ctx.epoch {
            return Err(Error::ScopeMismatch);
        }
        match &self.0.raw {
            RawValue::Obj(i) => {
                if *i < rt.heap.len() {
                    proof {
                        assert(rt.heap_view()[*i as int] == rt.heap@[*i as int]@);
                    }
                    let raw = match prop_lookup(&rt.heap[*i], name) {
                        Some(v) => v,
                        None => RawValue::Undefined,
                    };
                    V::from_js(ctx, Value::from_js_value(ctx, raw))
                } else {
                    Err(Error::Unknown)
                }
            },
            _ => Err(Error::Unknown),
        }
    }

    /// The module handle as a plain value.
    pub fn into_value(self) -> (r: Value)
        ensures
            r == self.0,
    {
        self.0
    }
}

/// Whether a call must be rejected for crossing environments: the function
/// and the argument must both carry the calling environment's epoch.
pub open spec fn call_rejects(ctx: Ctx, f: ValueV, a: ValueV) -> bool {
    f.epoch != ctx.epoch || a.epoch != ctx.epoch
}

impl Function {
    /// Calls the function on one argument through the engine and the
    /// exception bridge, then decodes the result.
    pub fn call1<V: FromJs>(&self, ctx: Ctx, rt: &mut Runtime, arg: Value) -> (r: Result<
        V,
        Error,
    >)
        requires
            !(arg@.raw is Exception),
        ensures
            call_rejects(ctx, self.0@, arg@) ==> r == Err::<V, Error>(Error::ScopeMismatch)
                && *final(rt) == *old(rt),
            !call_rejects(ctx, self.0@, arg@) ==> {
                &&& final(rt).side == old(rt).side
                &&& final(rt).next_epoch == old(rt).next_epoch
                &&& final(rt).heap_view() == call_heap_spec(
                    old(rt).heap_view(),
                    self.0@.raw,
                    arg@.raw,
                )
                &&& match call_result_spec(self.0@.raw, arg@.raw) {
                    Ok(v) => final(rt).pending == old(rt).pending && decode_clause::<V>(
                        ctx,
                        v,
                        r,
                    ),
                    Err(t) => final(rt).pending is None && err_is_exception(r, err_msg(t)),
                }
            },
    {
        if self.0.epoch != ctx.epoch || arg.epoch != ctx.epoch {
            return Err(Error::ScopeMismatch);
        }
        proof {
            crate::engine::lemma_call_no_sentinel(self.0@.raw, arg@.raw);
        }
        let raw = engine_call(rt, &self.0.raw, arg.raw);
        match handle_exception(ctx, rt, raw) {
            Ok(v) => V::from_js(ctx, Value::from_js_value(ctx, v)),
            Err(e) => Err(e),
        }
    }

    /// Calls the function on no argument: the parameter, if any, is bound
    /// to the absent value.
    pub fn call0<V: FromJs>(&self, ctx: Ctx, rt: &mut Runtime) -> (r: Result<V, Error>)
        ensures
            self.0@.epoch != ctx.epoch ==> r == Err::<V, Error>(Error::ScopeMismatch)
                && *final(rt) == *old(rt),
            self.0@.epoch == ctx.epoch ==> {
                &&& final(rt).side == old(rt).side
                &&& final(rt).next_epoch == old(rt).next_epoch
                &&& final(rt).heap_view() == call_heap_spec(
                    old(rt).heap_view(),
                    self.0@.raw,
                    RawValueV::Undefined,
                )
                &&& match call_result_spec(self.0@.raw, RawValueV::Undefined) {
                    Ok(v) => final(rt).pending == old(rt).pending && decode_clause::<V>(
                        ctx,
                        v,
                        r,
                    ),
                    Err(t) => final(rt).pending is None && err_is_exception(r, err_msg(t)),
                }
            },
    {
        let arg = Value { raw: RawValue::Undefined, epoch: ctx.epoch, owned: true };
        self.call1::<V>(ctx, rt, arg)
    }

    /// The function handle as a plain value.
    pub fn into_value(self) -> (r: Value)
        ensures
            r == self.0,
    {
        self.0
    }
}

impl Object {
    /// The object handle as a plain value.
    pub fn into_value(self) -> (r: Value)
        ensures
            r == self.0,
    {
        self.0
    }
}

} // verus!
