//! Execution environments and their operational surface.
//!
//! A [`Context`] records one execution environment of a runtime: the epoch
//! minted for it and the heap index of its global object.  A [`Ctx`] is the
//! lightweight, copyable handle derived from it, through which source is
//! evaluated and the side table is reached.

use vstd::prelude::*;

use crate::bridge::handle_exception;
use crate::convert::{decode_clause, FromJs};
use crate::engine::{
    engine_eval, EvalMode, HeapObj, HeapObjV, ObjKind, ObjKindV, PState, PStateV, ProgOutV,
    Runtime, run_program_spec,
};
use crate::engine::lemma_run_no_sentinel;
use crate::error::{err_is_exception, Error};
use crate::opaque::TypedKey;
use crate::raw::{err_msg, RawValue, RawValueV};
use crate::value::{Function, Module, Object, Value, ValueV};
use crate::assoc::assoc_lookup;

verus! {

/// Whether the text holds an embedded NUL character, which the engine's
/// input contract forbids.
pub open spec fn has_nul(s: Seq<char>) -> bool {
    exists|i: int| 0 <= i < s.len() && s[i] == '\0'
}

/// Mirrors [`has_nul`].
pub(crate) fn contains_nul(s: &str) -> (r: bool)
    ensures
        r == has_nul(s@),
{
    let n = s.unicode_len();
    let mut i: usize = 0;
    while i < n
        invariant
            i <= n,
            n == s@.len(),
            forall|k: int| 0 <= k < i ==> s@[k] != '\0',
        decreases n - i,
    {
        if s.get_char(i) == '\0' {
            return true;
        }
        i += 1;
    }
    false
}

/// One execution environment of a runtime: its scope epoch and the heap
/// index of its global object.
pub struct Context {
    pub epoch: u64,
    pub global: usize,
}

impl Context {
    /// Creates a fresh execution environment on the runtime: mints the next
    /// epoch and allocates the environment's own global object.
    pub fn new(rt: &mut Runtime) -> (c: Context)
        requires
            old(rt).wf(),
            old(rt).next_epoch < u64::MAX,
        ensures
            final(rt).wf(),
            c.epoch == old(rt).next_epoch,
            c.global == old(rt).heap@.len(),
            final(rt).next_epoch == old(rt).next_epoch + 1,
            final(rt).heap_view() == old(rt).heap_view().push(
                HeapObjV { kind: ObjKindV::Plain, props: Seq::empty() },
            ),
            final(rt).pending == old(rt).pending,
            final(rt).side == old(rt).side,
    {
        let c = Context { epoch: rt.next_epoch, global: rt.heap.len() };
        let obj = HeapObj { kind: ObjKind::Plain, props: Vec::new() };
        proof {
            assert(obj@.props =~= Seq::<(Seq<char>, RawValueV)>::empty());
        }
        rt.heap.push(obj);
        rt.next_epoch = rt.next_epoch + 1;
        proof {
            assert(rt.heap_view() =~= old(rt).heap_view().push(
                HeapObjV { kind: ObjKindV::Plain, props: Seq::empty() },
            ));
        }
        c
    }
}

/// An opaque key handed out by the retention registry.
#[derive(Clone, Copy, Debug, PartialEq, Eq, Structural)]
pub struct RegisteryKey(pub u64);

/// Context in use: the copyable per-environment handle.
#[derive(Clone, Copy, Debug)]
pub struct Ctx {
    pub epoch: u64,
    pub global: usize,
}

impl Ctx {
    /// Rebuilds a handle from the raw parts of an environment record.
    pub fn from_ptr(epoch: u64, global: usize) -> (r: Ctx)
        ensures
            r.epoch == epoch,
            r.global == global,
    {
        Ctx { epoch, global }
    }

    /// The handle of an execution environment.
    pub fn new(ctx: &Context) -> (r: Ctx)
        ensures
            r.epoch == ctx.epoch,
            r.global == ctx.global,
    {
        Ctx { epoch: ctx.epoch, global: ctx.global }
    }

    /// Evaluates source as a module body and decodes the result.
    ///
    /// Source with an embedded NUL is rejected before reaching the engine.
    /// A thrown value comes back as [`Error::Exception`] through the
    /// exception bridge, which also clears the pending slot; a module's
    /// default export comes back as a handle to a fresh namespace object.
    pub fn eval<V: FromJs>(self, rt: &mut Runtime, source: &str) -> (r: Result<V, Error>)
        ensures
            final(rt).side == old(rt).side,
            final(rt).next_epoch == old(rt).next_epoch,
            has_nul(source@) ==> r == Err::<V, Error>(Error::InvalidInput) && *final(rt) == *old(rt),
            !has_nul(source@) ==> match run_program_spec(source@, EvalMode::Module) {
                Err(t) => err_is_exception(r, err_msg(t)) && final(rt).pending is None && final(rt).heap_view() == old(rt).heap_view(),
                Ok(ProgOutV::Plain(v)) => final(rt).pending == old(rt).pending && final(rt).heap_view() == old(rt).heap_view() && decode_clause::<V>(self, v, r),
                Ok(ProgOutV::Exported(v)) => final(rt).pending == old(rt).pending && final(rt).heap_view() == old(rt).heap_view().push(
                    HeapObjV { kind: ObjKindV::Plain, props: seq![("default"@, v)] },
                ) && decode_clause::<V>(
                    self,
                    RawValueV::Obj(old(rt).heap_view().len() as int),
                    r,
                ),
            },
    {
        if contains_nul(source) {
            return Err(Error::InvalidInput);
        }
        proof {
            lemma_run_no_sentinel(source@, EvalMode::Module);
        }
        let raw = engine_eval(rt, source, EvalMode::Module);
        match handle_exception(self, rt, raw) {
            Ok(v) => V::from_js(self, Value::from_js_value(self, v)),
            Err(e) => Err(e),
        }
    }

    /// Evaluates source in the environment's shared global scope and
    /// decodes the result.  `export default` is a syntax error here.
    pub fn eval_global<V: FromJs>(self, rt: &mut Runtime, source: &str) -> (r: Result<V, Error>)
        ensures
            final(rt).side == old(rt).side,
            final(rt).next_epoch == old(rt).next_epoch,
            has_nul(source@) ==> r == Err::<V, Error>(Error::InvalidInput) && *final(rt) == *old(rt),
            !has_nul(source@) ==> match run_program_spec(source@, EvalMode::Global) {
                Err(t) => err_is_exception(r, err_msg(t)) && final(rt).pending is None && final(rt).heap_view() == old(rt).heap_view(),
                Ok(ProgOutV::Plain(v)) => final(rt).pending == old(rt).pending && final(rt).heap_view() == old(rt).heap_view() && decode_clause::<V>(self, v, r),
                Ok(ProgOutV::Exported(v)) => false,
            },
    {
        if contains_nul(source) {
            return Err(Error::InvalidInput);
        }
        proof {
            lemma_run_no_sentinel(source@, EvalMode::Global);
        }
        let raw = engine_eval(rt, source, EvalMode::Global);
        match handle_exception(self, rt, raw) {
            Ok(v) => V::from_js(self, Value::from_js_value(self, v)),
            Err(e) => Err(e),
        }
    }

    /// Compiles and evaluates a named module, returning a handle to its
    /// namespace.  The name is only a diagnostic; both name and source must
    /// be free of embedded NUL characters.
    pub fn compile(self, rt: &mut Runtime, name: &str, source: &str) -> (r: Result<
        Module,
        Error,
    >)
        ensures
            final(rt).side == old(rt).side,
            final(rt).next_epoch == old(rt).next_epoch,
            (has_nul(name@) || has_nul(source@)) ==> r == Err::<Module, Error>(
                Error::InvalidInput,
            ) && *final(rt) == *old(rt),
            !(has_nul(name@) || has_nul(source@)) ==> match run_program_spec(
                source@,
                EvalMode::Module,
            ) {
                Err(t) => err_is_exception(r, err_msg(t)) && final(rt).pending is None && final(rt).heap_view() == old(rt).heap_view(),
                Ok(ProgOutV::Plain(v)) => final(rt).pending == old(rt).pending && final(rt).heap_view() == old(rt).heap_view() && (match r {
                    Ok(m) => m.0@ == (ValueV { raw: v, epoch: self.epoch, owned: true }),
                    Err(_) => false,
                }),
                Ok(ProgOutV::Exported(v)) => final(rt).pending == old(rt).pending && final(rt).heap_view() == old(rt).heap_view().push(
                    HeapObjV { kind: ObjKindV::Plain, props: seq![("default"@, v)] },
                ) && (match r {
                    Ok(m) => m.0@ == (ValueV {
                        raw: RawValueV::Obj(old(rt).heap_view().len() as int),
                        epoch: self.epoch,
                        owned: true,
                    }),
                    Err(_) => false,
                }),
            },
    {
        if contains_nul(name) || contains_nul(source) {
            return Err(Error::InvalidInput);
        }
        proof {
            lemma_run_no_sentinel(source@, EvalMode::Module);
        }
        let raw = engine_eval(rt, source, EvalMode::Module);
        match handle_exception(self, rt, raw) {
            Ok(v) => Ok(Module(Value::from_js_value(self, v))),
            Err(e) => Err(e),
        }
    }

    /// A handle to the environment's shared global object.  Every call
    /// returns a handle to the same underlying object.
    pub fn globals(self) -> (o: Object)
        ensures
            o.0@ == (ValueV {
                raw: RawValueV::Obj(self.global as int),
                epoch: self.epoch,
                owned: true,
            }),
    {
        Object(Value { raw: RawValue::Obj(self.global), epoch: self.epoch, owned: true })
    }

    /// Creates a pending promise plus its resolving and rejecting callables.
    pub fn promise(self, rt: &mut Runtime) -> (r: Result<(Object, Function, Function), Error>)
        ensures
            final(rt).side == old(rt).side,
            final(rt).next_epoch == old(rt).next_epoch,
            final(rt).pending == old(rt).pending,
            final(rt).heap_view() == old(rt).heap_view().push(
                HeapObjV { kind: ObjKindV::Promise(PStateV::Pending), props: Seq::empty() },
            ),
            match r {
                Ok((p, res, rej)) => {
                    let idx = old(rt).heap_view().len() as int;
                    &&& p.0@ == (ValueV {
                        raw: RawValueV::Obj(idx),
                        epoch: self.epoch,
                        owned: true,
                    })
                    &&& res.0@ == (ValueV {
                        raw: RawValueV::Resolver { promise: idx, reject: false },
                        epoch: self.epoch,
                        owned: true,
                    })
                    &&& rej.0@ == (ValueV {
                        raw: RawValueV::Resolver { promise: idx, reject: true },
                        epoch: self.epoch,
                        owned: true,
                    })
                },
                Err(_) => false,
            },
    {
        let idx = rt.heap.len();
        let obj = HeapObj { kind: ObjKind::Promise(PState::Pending), props: Vec::new() };
        proof {
            assert(obj@.props =~= Seq::<(Seq<char>, RawValueV)>::empty());
        }
        rt.heap.push(obj);
        proof {
            assert(rt.heap_view() =~= old(rt).heap_view().push(
                HeapObjV { kind: ObjKindV::Promise(PStateV::Pending), props: Seq::empty() },
            ));
        }
        Ok(
            (
                Object(Value { raw: RawValue::Obj(idx), epoch: self.epoch, owned: true }),
                Function(
                    Value {
                        raw: RawValue::Resolver { promise: idx, reject: false },
                        epoch: self.epoch,
                        owned: true,
                    },
                ),
                Function(
                    Value {
                        raw: RawValue::Resolver { promise: idx, reject: true },
                        epoch: self.epoch,
                        owned: true,
                    },
                ),
            ),
        )
    }

    /// Hands one task to the side table's spawner queue; submission is
    /// synchronous and non-blocking, and appends exactly one entry.
    pub fn spawn(&self, rt: &mut Runtime, task: u64)
        requires
            old(rt).wf(),
        ensures
            final(rt).wf(),
            final(rt).side.spawner@ == old(rt).side.spawner@.push(task),
            final(rt).side.map@ == old(rt).side.map@,
            final(rt).side.registery@ == old(rt).side.registery@,
            final(rt).side.next_reg_key == old(rt).side.next_reg_key,
            final(rt).heap == old(rt).heap,
            final(rt).pending == old(rt).pending,
            final(rt).next_epoch == old(rt).next_epoch,
    {
        rt.side.spawn_task(task);
    }

    /// Binds a typed-store key to a value, returning the value it replaced.
    pub fn insert_typed(&self, rt: &mut Runtime, key: TypedKey, value: u64) -> (r: Option<u64>)
        requires
            old(rt).wf(),
        ensures
            final(rt).wf(),
            r == assoc_lookup(old(rt).side.map@, key),
            assoc_lookup(final(rt).side.map@, key) == Some(value),
            forall|k2: TypedKey|
                k2 != key ==> assoc_lookup(final(rt).side.map@, k2) == assoc_lookup(
                    old(rt).side.map@,
                    k2,
                ),
            final(rt).side.registery@ == old(rt).side.registery@,
            final(rt).side.next_reg_key == old(rt).side.next_reg_key,
            final(rt).side.spawner@ == old(rt).side.spawner@,
            final(rt).heap == old(rt).heap,
            final(rt).pending == old(rt).pending,
            final(rt).next_epoch == old(rt).next_epoch,
    {
        rt.side.insert(key, value)
    }

    /// The typed-store value bound to a key, if any.
    pub fn get_typed(&self, rt: &Runtime, key: &TypedKey) -> (r: Option<u64>)
        ensures
            r == assoc_lookup(rt.side.map@, *key),
    {
        rt.side.get(key)
    }

    /// A mutable borrow of the typed-store value bound to a key: what the
    /// caller writes through it becomes the key's binding.
    pub fn get_typed_mut<'a>(&self, rt: &'a mut Runtime, key: &TypedKey) -> (r: Option<
        &'a mut u64,
    >)
        requires
            old(rt).wf(),
        ensures
            match r {
                Some(p) => {
                    &&& final(rt).wf()
                    &&& assoc_lookup(old(rt).side.map@, *key) == Some(*p)
                    &&& assoc_lookup(final(rt).side.map@, *key) == Some(*final(p))
                    &&& forall|k2: TypedKey|
                        k2 != *key ==> assoc_lookup(final(rt).side.map@, k2) == assoc_lookup(
                            old(rt).side.map@,
                            k2,
                        )
                    &&& final(rt).side.registery@ == old(rt).side.registery@
                    &&& final(rt).side.next_reg_key == old(rt).side.next_reg_key
                    &&& final(rt).side.spawner@ == old(rt).side.spawner@
                    &&& final(rt).heap == old(rt).heap
                    &&& final(rt).pending == old(rt).pending
                    &&& final(rt).next_epoch == old(rt).next_epoch
                },
                None => assoc_lookup(old(rt).side.map@, *key) is None && *final(rt) == *old(rt),
            },
    {
        rt.side.get_mut(key)
    }

    /// Unbinds a typed-store key, returning the value it was bound to.
    pub fn remove_typed(&self, rt: &mut Runtime, key: &TypedKey) -> (r: Option<u64>)
        requires
            old(rt).wf(),
        ensures
            final(rt).wf(),
            r == assoc_lookup(old(rt).side.map@, *key),
            assoc_lookup(final(rt).side.map@, *key) is None,
            forall|k2: TypedKey|
                k2 != *key ==> assoc_lookup(final(rt).side.map@, k2) == assoc_lookup(
                    old(rt).side.map@,
                    k2,
                ),
            final(rt).side.registery@ == old(rt).side.registery@,
            final(rt).side.next_reg_key == old(rt).side.next_reg_key,
            final(rt).side.spawner@ == old(rt).side.spawner@,
            final(rt).heap == old(rt).heap,
            final(rt).pending == old(rt).pending,
            final(rt).next_epoch == old(rt).next_epoch,
    {
        rt.side.remove(key)
    }

    /// Whether a typed-store key is bound.
    pub fn contains_typed_key(&self, rt: &Runtime, key: &TypedKey) -> (r: bool)
        ensures
            r == (assoc_lookup(rt.side.map@, *key) is Some),
    {
        rt.side.contains(key)
    }

    /// Moves a value's engine reference into the retention registry, so it
    /// outlives the handle that produced it, and returns its opaque key.
    /// A value of a foreign environment is rejected.
    pub fn register(self, rt: &mut Runtime, v: Value) -> (r: Result<RegisteryKey, Error>)
        requires
            old(rt).wf(),
            old(rt).side.next_reg_key < u64::MAX,
        ensures
            final(rt).wf(),
            v@.epoch != self.epoch ==> r == Err::<RegisteryKey, Error>(Error::ScopeMismatch)
                && *final(rt) == *old(rt),
            v@.epoch == self.epoch ==> match r {
                Ok(k) => {
                    &&& k.0 == old(rt).side.next_reg_key
                    &&& final(rt).side.registery@ == old(rt).side.registery@.push((k.0, v.raw))
                    &&& assoc_lookup(final(rt).side.registery@, k.0) == Some(v.raw)
                    &&& forall|k2: u64|
                        k2 != k.0 ==> assoc_lookup(final(rt).side.registery@, k2)
                            == assoc_lookup(old(rt).side.registery@, k2)
                    &&& final(rt).side.next_reg_key == old(rt).side.next_reg_key + 1
                    &&& final(rt).side.map@ == old(rt).side.map@
                    &&& final(rt).side.spawner@ == old(rt).side.spawner@
                    &&& final(rt).heap == old(rt).heap
                    &&& final(rt).pending == old(rt).pending
                    &&& final(rt).next_epoch == old(rt).next_epoch
                },
                Err(_) => false,
            },
    {
        if v.epoch != self.epoch {
            return Err(Error::ScopeMismatch);
        }
        let k = rt.side.retain_raw(v.raw);
        Ok(RegisteryKey(k))
    }

    /// Removes a retained value from the registry and hands ownership back,
    /// tagged with this environment's epoch; an absent or already-redeemed
    /// key yields `None`, never a dangling value.
    pub fn deregister(self, rt: &mut Runtime, k: RegisteryKey) -> (r: Option<Value>)
        requires
            old(rt).wf(),
        ensures
            final(rt).wf(),
            match assoc_lookup(old(rt).side.registery@, k.0) {
                Some(raw) => match r {
                    Some(val) => val@ == (ValueV { raw: raw@, epoch: self.epoch, owned: true }),
                    None => false,
                },
                None => r is None,
            },
            assoc_lookup(final(rt).side.registery@, k.0) is None,
            forall|k2: u64|
                k2 != k.0 ==> assoc_lookup(final(rt).side.registery@, k2) == assoc_lookup(
                    old(rt).side.registery@,
                    k2,
                ),
            final(rt).side.map@ == old(rt).side.map@,
            final(rt).side.next_reg_key == old(rt).side.next_reg_key,
            final(rt).side.spawner@ == old(rt).side.spawner@,
            final(rt).heap == old(rt).heap,
            final(rt).pending == old(rt).pending,
            final(rt).next_epoch == old(rt).next_epoch,
    {
        match rt.side.release_raw(k.0) {
            Some(raw) => Some(Value { raw, epoch: self.epoch, owned: true }),
            None => None,
        }
    }

    /// A non-owning observation of a retained value: the registry keeps its
    /// entry, and the returned handle is marked as an alias.
    pub fn get_register(self, rt: &Runtime, k: RegisteryKey) -> (r: Option<Value>)
        ensures
            match assoc_lookup(rt.side.registery@, k.0) {
                Some(raw) => match r {
                    Some(val) => val@ == (ValueV {
                        raw: raw@,
                        epoch: self.epoch,
                        owned: false,
                    }),
                    None => false,
                },
                None => r is None,
            },
    {
        match rt.side.peek_raw(k.0) {
            Some(raw) => Some(Value { raw, epoch: self.epoch, owned: false }),
            None => None,
        }
    }
}

} // verus!
