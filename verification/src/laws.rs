//! The library's stated laws, proved once and for all inputs.

use vstd::prelude::*;

use crate::assoc::assoc_lookup;
use crate::convert::{FromJs, IntoJs};
use crate::coproduct::{CNil, Coproduct};
use crate::ctx::Ctx;
use crate::opaque::TypedKey;
use crate::raw::RawValue;
use crate::value::{call_rejects, ValueV};

verus! {

/// Scope isolation: two values minted under different execution
/// environments can never both pass one environment's same-scope check, so
/// a call that takes the pair is rejected — [`crate::value::Function::call1`]
/// then returns [`crate::error::Error::ScopeMismatch`] and leaves the
/// runtime untouched.
pub proof fn lemma_cross_scope_rejected(ctx: Ctx, f: ValueV, a: ValueV)
    requires
        f.epoch != a.epoch,
    ensures
        call_rejects(ctx, f, a),
{
}

/// Round trip for integers: encoding a host integer and decoding it back
/// yields the same integer.
pub proof fn lemma_round_trip_i64(ctx: Ctx, x: i64)
    ensures
        match x.into_js_view(ctx) {
            Ok(w) => <i64 as FromJs>::accepts(ctx, w) && forall|r: i64|
                #[trigger] <i64 as FromJs>::is_decode(ctx, w, r) ==> r == x,
            Err(_) => false,
        },
{
}

/// Round trip for booleans.
pub proof fn lemma_round_trip_bool(ctx: Ctx, x: bool)
    ensures
        match x.into_js_view(ctx) {
            Ok(w) => <bool as FromJs>::accepts(ctx, w) && forall|r: bool|
                #[trigger] <bool as FromJs>::is_decode(ctx, w, r) ==> r == x,
            Err(_) => false,
        },
{
}

/// Round trip for strings: the decoded host string holds exactly the
/// characters that were encoded.
pub proof fn lemma_round_trip_string(ctx: Ctx, x: String)
    ensures
        match x.into_js_view(ctx) {
            Ok(w) => <String as FromJs>::accepts(ctx, w) && forall|r: String|
                #[trigger] <String as FromJs>::is_decode(ctx, w, r) ==> r@ == x@,
            Err(_) => false,
        },
{
}

/// Ordered fallback: with candidates `[A, B]`, when `A` rejects with a
/// shape mismatch and `B` accepts, the decode succeeds and every successful
/// decode is `B`'s.
pub proof fn lemma_decoder_second_candidate<A: FromJs, B: FromJs>(ctx: Ctx, v: ValueV)
    requires
        !A::accepts(ctx, v),
        A::decode_err(ctx, v) is ShapeMismatch,
        B::accepts(ctx, v),
    ensures
        <Coproduct<A, Coproduct<B, CNil>> as FromJs>::accepts(ctx, v),
        forall|r: Coproduct<A, Coproduct<B, CNil>>|
            #[trigger] <Coproduct<A, Coproduct<B, CNil>> as FromJs>::is_decode(ctx, v, r)
                ==> match r {
                Coproduct::Inr(Coproduct::Inl(b)) => B::is_decode(ctx, v, b),
                _ => false,
            },
{
}

/// Short circuit: when `A` matches the shape but fails a finer validation
/// (any error that is no shape mismatch), the whole decode fails with `A`'s
/// error, whatever `B` would have said — `B` is never attempted.
pub proof fn lemma_decoder_abort<A: FromJs, B: FromJs>(ctx: Ctx, v: ValueV)
    requires
        !A::accepts(ctx, v),
        !(A::decode_err(ctx, v) is ShapeMismatch),
    ensures
        !<Coproduct<A, Coproduct<B, CNil>> as FromJs>::accepts(ctx, v),
        <Coproduct<A, Coproduct<B, CNil>> as FromJs>::decode_err(ctx, v) == A::decode_err(
            ctx,
            v,
        ),
{
}

/// Retention: retaining a raw value under a fresh key makes exactly that
/// value the key's binding, so the first release returns it.  Release
/// empties the binding by its own contract, so a second release of the same
/// key finds nothing; a peek reads the binding without changing the
/// registry.
pub proof fn lemma_retain_release(reg: Seq<(u64, RawValue)>, k: u64, raw: RawValue)
    ensures
        assoc_lookup(reg.push((k, raw)), k) == Some(raw),
{
    assert(reg.push((k, raw)).last() == (k, raw));
}

/// Typed-store isolation: keys of distinct concrete key types are distinct
/// keys, so binding one leaves the other's reading untouched even when
/// their identities coincide.
pub proof fn lemma_typed_store_isolation(
    m0: Seq<(TypedKey, u64)>,
    m1: Seq<(TypedKey, u64)>,
    k1: TypedKey,
    k2: TypedKey,
    x: u64,
)
    requires
        k1.tag != k2.tag,
        assoc_lookup(m1, k1) == Some(x),
        forall|k: TypedKey| k != k1 ==> assoc_lookup(m1, k) == assoc_lookup(m0, k),
    ensures
        k1 != k2,
        assoc_lookup(m1, k1) == Some(x),
        assoc_lookup(m1, k2) == assoc_lookup(m0, k2),
{
}

} // verus!
