//! The exception bridge: the single choke point converting the engine's
//! sentinel/pending-exception protocol into host-native fallible results.

use vstd::prelude::*;

use crate::ctx::Ctx;
use crate::engine::Runtime;
use crate::error::{err_is_exception, Error};
use crate::raw::{err_msg, err_msg_of, RawValue};

verus! {

/// Applies the sentinel protocol to one raw engine result, made through the
/// environment `ctx`.
///
/// A non-sentinel result passes through untouched.  The sentinel makes the
/// bridge take the pending exception — always clearing the slot — and
/// convert it into a host error; a sentinel without a pending exception is a
/// protocol violation reported as [`Error::Unknown`], never a panic.
pub fn handle_exception(ctx: Ctx, rt: &mut Runtime, raw: RawValue) -> (r: Result<
    RawValue,
    Error,
>)
    ensures
        final(rt).heap_view() == old(rt).heap_view(),
        final(rt).side == old(rt).side,
        final(rt).next_epoch == old(rt).next_epoch,
        !(raw@ is Exception) ==> r == Ok::<RawValue, Error>(raw) && final(rt).pending == old(
            rt,
        ).pending,
        raw@ is Exception ==> final(rt).pending is None && match old(rt).pending_view() {
            Some(p) => err_is_exception(r, err_msg(p)),
            None => r == Err::<RawValue, Error>(Error::Unknown),
        },
{
    if !matches!(&raw, RawValue::Exception) {
        return Ok(raw);
    }
    let msg = match &rt.pending {
        Some(p) => Some(err_msg_of(p)),
        None => None,
    };
    rt.pending = None;
    match msg {
        Some(m) => Err(Error::Exception { message: m }),
        None => Err(Error::Unknown),
    }
}

} // verus!
