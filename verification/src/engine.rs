//! The modeled script engine: a garbage-free stand-in for the foreign
//! collaborator, with the same observable protocol.
//!
//! The engine owns a heap of objects, a pending-exception slot and the
//! per-runtime side table.  Every fallible engine operation follows the
//! sentinel protocol: it either returns a real raw value, or stores the
//! thrown value in the pending slot and returns [`RawValue::Exception`].

use vstd::prelude::*;

use crate::ast::{Expr, ExprV, Program, ProgramV};
use crate::lex::lex_at;
use crate::lex::lex_from;
use crate::opaque::Opaque;
use crate::parse::{parse_program, parse_program_at};
use crate::raw::{RawValue, RawValueV};

verus! {

/// Mathematical form of a promise's state.
pub enum PStateV {
    Pending,
    Settled { rejected: bool, value: RawValueV },
}

/// A promise's state.
pub enum PState {
    Pending,
    Settled { rejected: bool, value: RawValue },
}

/// Mathematical form of an object's kind.
pub enum ObjKindV {
    Plain,
    Promise(PStateV),
}

/// An object's kind.
pub enum ObjKind {
    Plain,
    Promise(PState),
}

/// Mathematical form of one heap object.
pub struct HeapObjV {
    pub kind: ObjKindV,
    pub props: Seq<(Seq<char>, RawValueV)>,
}

/// One object of the engine heap.
pub struct HeapObj {
    pub kind: ObjKind,
    pub props: Vec<(String, RawValue)>,
}

impl View for HeapObj {
    type V = HeapObjV;

    open spec fn view(&self) -> HeapObjV {
        HeapObjV {
            kind: match &self.kind {
                ObjKind::Plain => ObjKindV::Plain,
                ObjKind::Promise(PState::Pending) => ObjKindV::Promise(PStateV::Pending),
                ObjKind::Promise(PState::Settled { rejected, value }) => ObjKindV::Promise(
                    PStateV::Settled { rejected: *rejected, value: value@ },
                ),
            },
            props: self.props@.map_values(|p: (String, RawValue)| (p.0@, p.1@)),
        }
    }
}

/// One foreign runtime: heap, pending exception, side table, and the next
/// scope epoch to mint for a new execution environment.
pub struct Runtime {
    pub heap: Vec<HeapObj>,
    pub pending: Option<RawValue>,
    pub side: Opaque,
    pub next_epoch: u64,
}

impl Runtime {
    /// The heap as a sequence of mathematical objects.
    pub open spec fn heap_view(&self) -> Seq<HeapObjV> {
        self.heap@.map_values(|o: HeapObj| o@)
    }

    /// The pending exception as a mathematical value.
    pub open spec fn pending_view(&self) -> Option<RawValueV> {
        match self.pending {
            Some(p) => Some(p@),
            None => None,
        }
    }

    /// Well-formedness: the side table is a map and epochs start at one.
    pub open spec fn wf(&self) -> bool {
        self.side.wf() && self.next_epoch >= 1
    }

    /// A fresh runtime with an empty heap and side table.
    pub fn new() -> (r: Runtime)
        ensures
            r.wf(),
            r.heap@.len() == 0,
            r.pending is None,
            r.side.map@.len() == 0,
            r.side.registery@.len() == 0,
            r.side.spawner@.len() == 0,
            r.next_epoch == 1,
    {
        Runtime { heap: Vec::new(), pending: None, side: Opaque::empty(), next_epoch: 1 }
    }
}

/// The view of a one-binding evaluation environment.
pub open spec fn env_view(env: Option<(String, RawValue)>) -> Option<(Seq<char>, RawValueV)> {
    match env {
        Some((n, v)) => Some((n@, v@)),
        None => None,
    }
}

/// The view of an evaluation result, thrown values included.
pub open spec fn res_raw_view(r: Result<RawValue, RawValue>) -> Result<RawValueV, RawValueV> {
    match r {
        Ok(v) => Ok(v@),
        Err(t) => Err(t@),
    }
}

/// The sum of two values: integer addition within the engine's integer
/// range, string concatenation on two strings, and a thrown error otherwise.
pub open spec fn add_values(a: RawValueV, b: RawValueV) -> Result<RawValueV, RawValueV> {
    match (a, b) {
        (RawValueV::Int(x), RawValueV::Int(y)) => if i64::MIN <= x + y <= i64::MAX {
            Ok(RawValueV::Int((x + y) as i64))
        } else {
            Err(RawValueV::ErrV("integer overflow"@))
        },
        (RawValueV::StrV(x), RawValueV::StrV(y)) => Ok(RawValueV::StrV(x + y)),
        _ => Err(RawValueV::ErrV("unsupported operands"@)),
    }
}

/// The value of an expression under a one-binding environment, or the value
/// it throws.
pub open spec fn eval_expr_spec(e: ExprV, env: Option<(Seq<char>, RawValueV)>) -> Result<
    RawValueV,
    RawValueV,
>
    decreases e,
{
    match e {
        ExprV::IntLit(i) => Ok(RawValueV::Int(i)),
        ExprV::StrLit(s) => Ok(RawValueV::StrV(s)),
        ExprV::Var(x) => match env {
            Some((n, v)) => if n == x {
                Ok(v)
            } else {
                Err(RawValueV::ErrV(x + " is not defined"@))
            },
            None => Err(RawValueV::ErrV(x + " is not defined"@)),
        },
        ExprV::Add(a, b) => match eval_expr_spec(*a, env) {
            Ok(va) => match eval_expr_spec(*b, env) {
                Ok(vb) => add_values(va, vb),
                Err(t) => Err(t),
            },
            Err(t) => Err(t),
        },
        ExprV::ArrowFn { is_async, param, body } => Ok(
            RawValueV::Fun { is_async, param, body: *body },
        ),
    }
}

/// Expression evaluation never yields the reserved sentinel, neither as a
/// value nor as a thrown value, as long as the environment binds none.
pub proof fn lemma_eval_no_sentinel(e: ExprV, env: Option<(Seq<char>, RawValueV)>)
    requires
        match env {
            Some((n, v)) => !(v is Exception),
            None => true,
        },
    ensures
        match eval_expr_spec(e, env) {
            Ok(v) => !(v is Exception),
            Err(t) => !(t is Exception),
        },
    decreases e,
{
    match e {
        ExprV::Add(a, b) => {
            lemma_eval_no_sentinel(*a, env);
            lemma_eval_no_sentinel(*b, env);
        },
        _ => {},
    }
}

/// A call's outcome never yields the sentinel when the argument is none.
pub proof fn lemma_call_no_sentinel(f: RawValueV, a: RawValueV)
    requires
        !(a is Exception),
    ensures
        match call_result_spec(f, a) {
            Ok(v) => !(v is Exception),
            Err(t) => !(t is Exception),
        },
{
    match f {
        RawValueV::Fun { is_async, param, body } => {
            let env = match param {
                Some(p) => Some((p, a)),
                None => None,
            };
            lemma_eval_no_sentinel(body, env);
        },
        _ => {},
    }
}

/// The thrown reference error for an unbound variable.
fn not_defined(x: &String) -> (r: RawValue)
    ensures
        r@ == RawValueV::ErrV(x@ + " is not defined"@),
{
    RawValue::ErrV(x.clone().concat(" is not defined"))
}

/// Mirrors [`add_values`].
fn add_values_exec(a: RawValue, b: RawValue) -> (r: Result<RawValue, RawValue>)
    ensures
        res_raw_view(r) == add_values(a@, b@),
{
    match (a, b) {
        (RawValue::Int(x), RawValue::Int(y)) => {
            if (y > 0 && x > i64::MAX - y) || (y < 0 && x < i64::MIN - y) {
                Err(RawValue::ErrV("integer overflow".to_owned()))
            } else {
                Ok(RawValue::Int(x + y))
            }
        },
        (RawValue::StrV(x), RawValue::StrV(y)) => Ok(RawValue::StrV(x.concat(y.as_str()))),
        (_, _) => Err(RawValue::ErrV("unsupported operands".to_owned())),
    }
}

/// Mirrors [`eval_expr_spec`].
pub fn eval_expr(e: &Expr, env: &Option<(String, RawValue)>) -> (r: Result<RawValue, RawValue>)
    ensures
        res_raw_view(r) == eval_expr_spec(e@, env_view(*env)),
    decreases e,
{
    match e {
        Expr::IntLit(i) => Ok(RawValue::Int(*i)),
        Expr::StrLit(s) => Ok(RawValue::StrV(s.clone())),
        Expr::Var(x) => match env {
            Some((n, v)) => if *n == *x {
                Ok(v.duplicate())
            } else {
                Err(not_defined(x))
            },
            None => Err(not_defined(x)),
        },
        Expr::Add(a, b) => match eval_expr(a, env) {
            Ok(va) => match eval_expr(b, env) {
                Ok(vb) => add_values_exec(va, vb),
                Err(t) => Err(t),
            },
            Err(t) => Err(t),
        },
        Expr::ArrowFn { is_async, param, body } => Ok(
            RawValue::Fun {
                is_async: *is_async,
                param: match param {
                    Some(p) => Some(p.clone()),
                    None => None,
                },
                body: Box::new(body.duplicate()),
            },
        ),
    }
}

/// How source may be evaluated: as an isolated module body, or in the
/// shared global scope.
#[derive(Clone, Copy, Debug)]
pub enum EvalMode {
    Module,
    Global,
}

/// What running a program produces before any heap allocation: a plain
/// value, or a value to be wrapped as a module's default export.
pub enum ProgOutV {
    Plain(RawValueV),
    Exported(RawValueV),
}

/// The outcome of running one source text: its value, or the value it
/// throws.  `export default` is a syntax error outside module mode.
pub open spec fn run_program_spec(src: Seq<char>, mode: EvalMode) -> Result<
    ProgOutV,
    RawValueV,
> {
    match lex_from(src, 0) {
        None => Err(RawValueV::ErrV("SyntaxError"@)),
        Some(toks) => match parse_program(toks) {
            None => Err(RawValueV::ErrV("SyntaxError"@)),
            Some(p) => match p {
                ProgramV::ThrowP(m) => Err(RawValueV::ErrV(m)),
                ProgramV::ExprP(e) => match eval_expr_spec(e, None) {
                    Ok(v) => Ok(ProgOutV::Plain(v)),
                    Err(t) => Err(t),
                },
                ProgramV::ExportDefault(e) => match mode {
                    EvalMode::Global => Err(RawValueV::ErrV("SyntaxError"@)),
                    EvalMode::Module => match eval_expr_spec(e, None) {
                        Ok(v) => Ok(ProgOutV::Exported(v)),
                        Err(t) => Err(t),
                    },
                },
            },
        },
    }
}

/// A program's outcome never carries the reserved sentinel.
pub proof fn lemma_run_no_sentinel(src: Seq<char>, mode: EvalMode)
    ensures
        match run_program_spec(src, mode) {
            Ok(ProgOutV::Plain(v)) => !(v is Exception),
            Ok(ProgOutV::Exported(v)) => true,
            Err(t) => !(t is Exception),
        },
{
    match lex_from(src, 0) {
        None => {},
        Some(toks) => match parse_program(toks) {
            None => {},
            Some(p) => match p {
                ProgramV::ThrowP(m) => {},
                ProgramV::ExprP(e) => lemma_eval_no_sentinel(e, None),
                ProgramV::ExportDefault(e) => match mode {
                    EvalMode::Module => lemma_eval_no_sentinel(e, None),
                    EvalMode::Global => {},
                },
            },
        },
    }
}

/// Runs one source text through the engine, following the sentinel
/// protocol: a thrown value is stored as the pending exception and the
/// sentinel is returned; a module's default export is wrapped in a fresh
/// namespace object.
pub fn engine_eval(rt: &mut Runtime, source: &str, mode: EvalMode) -> (r: RawValue)
    ensures
        final(rt).side == old(rt).side,
        final(rt).next_epoch == old(rt).next_epoch,
        match run_program_spec(source@, mode) {
            Err(t) => r@ == RawValueV::Exception && final(rt).pending_view() == Some(t)
                && final(rt).heap_view() == old(rt).heap_view(),
            Ok(ProgOutV::Plain(v)) => r@ == v && *final(rt) == *old(rt),
            Ok(ProgOutV::Exported(v)) => r@ == RawValueV::Obj(old(rt).heap_view().len() as int)
                && final(rt).heap_view() == old(rt).heap_view().push(
                HeapObjV { kind: ObjKindV::Plain, props: seq![("default"@, v)] },
            ) && final(rt).pending == old(rt).pending,
        },
{
    let toks = match lex_at(source, 0) {
        Some(t) => t,
        None => {
            rt.pending = Some(RawValue::ErrV("SyntaxError".to_owned()));
            return RawValue::Exception;
        },
    };
    let prog = match parse_program_at(&toks) {
        Some(p) => p,
        None => {
            rt.pending = Some(RawValue::ErrV("SyntaxError".to_owned()));
            return RawValue::Exception;
        },
    };
    let env: Option<(String, RawValue)> = None;
    match prog {
        Program::ThrowP(m) => {
            rt.pending = Some(RawValue::ErrV(m));
            RawValue::Exception
        },
        Program::ExprP(e) => match eval_expr(&e, &env) {
            Ok(v) => v,
            Err(t) => {
                rt.pending = Some(t);
                RawValue::Exception
            },
        },
        Program::ExportDefault(e) => {
            if matches!(mode, EvalMode::Global) {
                rt.pending = Some(RawValue::ErrV("SyntaxError".to_owned()));
                return RawValue::Exception;
            }
            match eval_expr(&e, &env) {
                Err(t) => {
                    rt.pending = Some(t);
                    RawValue::Exception
                },
                Ok(v) => {
                    let ghost vg = v@;
                    let mut props: Vec<(String, RawValue)> = Vec::new();
                    props.push(("default".to_owned(), v));
                    let obj = HeapObj { kind: ObjKind::Plain, props };
                    proof {
                        assert(obj@.props =~= seq![("default"@, vg)]);
                    }
                    let idx = rt.heap.len();
                    rt.heap.push(obj);
                    proof {
                        assert(rt.heap_view() =~= old(rt).heap_view().push(
                            HeapObjV { kind: ObjKindV::Plain, props: seq![("default"@, vg)] },
                        ));
                    }
                    RawValue::Obj(idx)
                },
            }
        },
    }
}

/// The heap after settling the promise at `idx`: a pending promise becomes
/// settled; anything else is left alone.
pub open spec fn settle_heap(heap: Seq<HeapObjV>, idx: int, rejected: bool, v: RawValueV) -> Seq<
    HeapObjV,
> {
    if 0 <= idx < heap.len() {
        match heap[idx].kind {
            ObjKindV::Promise(PStateV::Pending) => heap.update(
                idx,
                HeapObjV {
                    kind: ObjKindV::Promise(PStateV::Settled { rejected, value: v }),
                    props: heap[idx].props,
                },
            ),
            _ => heap,
        }
    } else {
        heap
    }
}

/// What calling `f` on `a` returns: an arrow function evaluates its body
/// with the argument bound; a resolver returns the absent value; anything
/// else throws.
pub open spec fn call_result_spec(f: RawValueV, a: RawValueV) -> Result<RawValueV, RawValueV> {
    match f {
        RawValueV::Fun { is_async, param, body } => {
            let env = match param {
                Some(p) => Some((p, a)),
                None => None,
            };
            eval_expr_spec(body, env)
        },
        RawValueV::Resolver { promise, reject } => Ok(RawValueV::Undefined),
        _ => Err(RawValueV::ErrV("not a function"@)),
    }
}

/// How calling `f` on `a` changes the heap: only a resolver settles its
/// promise.
pub open spec fn call_heap_spec(heap: Seq<HeapObjV>, f: RawValueV, a: RawValueV) -> Seq<
    HeapObjV,
> {
    match f {
        RawValueV::Resolver { promise, reject } => settle_heap(heap, promise, reject, a),
        _ => heap,
    }
}

/// A deep copy of an object's property list.
fn dup_props(v: &Vec<(String, RawValue)>) -> (r: Vec<(String, RawValue)>)
    ensures
        r@ == v@,
{
    let mut r: Vec<(String, RawValue)> = Vec::new();
    let n = v.len();
    let mut i: usize = 0;
    while i < n
        invariant
            n == v@.len(),
            i <= n,
            r@ == v@.take(i as int),
        decreases n - i,
    {
        let p = &v[i];
        r.push((p.0.clone(), p.1.duplicate()));
        proof {
            assert(v@.take(i as int + 1).drop_last() =~= v@.take(i as int));
            assert(v@.take(i as int + 1).last() == v@[i as int]);
            assert(r@ =~= v@.take(i as int + 1));
        }
        i += 1;
    }
    proof {
        assert(v@.take(n as int) =~= v@);
    }
    r
}

/// Calls a raw function value through the engine, following the sentinel
/// protocol.
pub fn engine_call(rt: &mut Runtime, f: &RawValue, a: RawValue) -> (r: RawValue)
    ensures
        final(rt).side == old(rt).side,
        final(rt).next_epoch == old(rt).next_epoch,
        final(rt).heap_view() == call_heap_spec(old(rt).heap_view(), f@, a@),
        match call_result_spec(f@, a@) {
            Ok(v) => r@ == v && final(rt).pending == old(rt).pending,
            Err(t) => r@ == RawValueV::Exception && final(rt).pending_view() == Some(t),
        },
{
    match f {
        RawValue::Fun { is_async: _, param, body } => {
            let env: Option<(String, RawValue)> = match param {
                Some(p) => Some((p.clone(), a)),
                None => None,
            };
            match eval_expr(body, &env) {
                Ok(v) => v,
                Err(t) => {
                    rt.pending = Some(t);
                    RawValue::Exception
                },
            }
        },
        RawValue::Resolver { promise, reject } => {
            let idx = *promise;
            if idx < rt.heap.len() {
                proof {
                    assert(rt.heap_view()[idx as int] == rt.heap@[idx as int]@);
                }
                let settled = matches!(&rt.heap[idx].kind, ObjKind::Promise(PState::Pending));
                if settled {
                    let props = dup_props(&rt.heap[idx].props);
                    let obj = HeapObj {
                        kind: ObjKind::Promise(
                            PState::Settled { rejected: *reject, value: a },
                        ),
                        props,
                    };
                    rt.heap.set(idx, obj);
                    proof {
                        assert(rt.heap_view() =~= settle_heap(
                            old(rt).heap_view(),
                            idx as int,
                            *reject,
                            a@,
                        ));
                    }
                }
            }
            RawValue::Undefined
        },
        _ => {
            rt.pending = Some(RawValue::ErrV("not a function".to_owned()));
            RawValue::Exception
        },
    }
}

} // verus!
