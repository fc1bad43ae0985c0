use jsbridge::bridge::handle_exception;
use jsbridge::convert::{FromJs, IntoJs};
use jsbridge::coproduct::{CNil, Coproduct};
use jsbridge::ctx::{Context, Ctx};
use jsbridge::engine::Runtime;
use jsbridge::error::Error;
use jsbridge::raw::RawValue;
use jsbridge::value::Value;

fn fresh() -> (Runtime, Ctx) {
    let mut rt = Runtime::new();
    let c = Context::new(&mut rt);
    let ctx = Ctx::new(&c);
    (rt, ctx)
}

#[test]
fn bridge_passes_success_through() {
    let (mut rt, ctx) = fresh();
    let r = handle_exception(ctx, &mut rt, RawValue::Int(7));
    assert!(matches!(r, Ok(RawValue::Int(7))));
    assert!(rt.pending.is_none());
}

#[test]
fn bridge_converts_pending_exception() {
    let (mut rt, ctx) = fresh();
    rt.pending = Some(RawValue::ErrV("boom".to_string()));
    let r = handle_exception(ctx, &mut rt, RawValue::Exception);
    match r {
        Err(Error::Exception { message }) => assert!(message.contains("boom")),
        _ => panic!("expected the pending exception"),
    }
    assert!(rt.pending.is_none());
}

#[test]
fn bridge_without_pending_is_unknown() {
    let (mut rt, ctx) = fresh();
    let r = handle_exception(ctx, &mut rt, RawValue::Exception);
    assert!(matches!(r, Err(Error::Unknown)));
}

#[test]
fn round_trip_integer() {
    let (_rt, ctx) = fresh();
    let v = 7i64.into_js(ctx).unwrap();
    let back: i64 = FromJs::from_js(ctx, v).unwrap();
    assert_eq!(back, 7);
}

#[test]
fn round_trip_boolean() {
    let (_rt, ctx) = fresh();
    let v = true.into_js(ctx).unwrap();
    let back: bool = FromJs::from_js(ctx, v).unwrap();
    assert!(back);
}

#[test]
fn round_trip_string() {
    let (_rt, ctx) = fresh();
    let v = "hello".to_string().into_js(ctx).unwrap();
    let back: String = FromJs::from_js(ctx, v).unwrap();
    assert_eq!(back, "hello");
}

#[test]
fn decoder_takes_second_candidate() {
    let (_rt, ctx) = fresh();
    let v = 5i64.into_js(ctx).unwrap();
    let r: Coproduct<bool, Coproduct<i64, CNil>> = FromJs::from_js(ctx, v).unwrap();
    match r {
        Coproduct::Inr(Coproduct::Inl(n)) => assert_eq!(n, 5),
        _ => panic!("expected the second candidate"),
    }
}

#[test]
fn decoder_aborts_on_deeper_error() {
    let (_rt, ctx) = fresh();
    let v = 5_000_000_000i64.into_js(ctx).unwrap();
    let r: Result<Coproduct<i32, Coproduct<String, CNil>>, Error> = FromJs::from_js(ctx, v);
    assert!(matches!(r, Err(Error::OutOfRange)));
}

#[test]
fn decoder_reports_no_matching_shape() {
    let (_rt, ctx) = fresh();
    let v = 5i64.into_js(ctx).unwrap();
    let r: Result<Coproduct<bool, CNil>, Error> = FromJs::from_js(ctx, v);
    assert!(matches!(r, Err(Error::ShapeMismatch)));
}

#[test]
fn out_of_range_integer_narrows() {
    let (mut rt, ctx) = fresh();
    let func: jsbridge::value::Function = ctx.eval(&mut rt, "x => x").unwrap();
    let arg = Value { raw: RawValue::Int(3_000_000_000), epoch: ctx.epoch, owned: true };
    let r: Result<i32, Error> = func.call1(ctx, &mut rt, arg);
    assert!(matches!(r, Err(Error::OutOfRange)));
}

#[test]
fn cross_scope_decode_is_rejected() {
    let mut rt = Runtime::new();
    let c1 = Context::new(&mut rt);
    let ctx1 = Ctx::new(&c1);
    let c2 = Context::new(&mut rt);
    let ctx2 = Ctx::new(&c2);
    let v1 = 7i64.into_js(ctx1).unwrap();
    let r: Result<i64, Error> = FromJs::from_js(ctx2, v1);
    assert!(matches!(r, Err(Error::ScopeMismatch)));
}

#[test]
fn cross_scope_call_is_rejected() {
    let mut rt = Runtime::new();
    let c1 = Context::new(&mut rt);
    let ctx1 = Ctx::new(&c1);
    let c2 = Context::new(&mut rt);
    let ctx2 = Ctx::new(&c2);
    let func: jsbridge::value::Function = ctx1.eval(&mut rt, "x => x").unwrap();
    let arg = 7i64.into_js(ctx2).unwrap();
    let r: Result<i64, Error> = func.call1(ctx1, &mut rt, arg);
    assert!(matches!(r, Err(Error::ScopeMismatch)));
}

#[test]
fn error_messages_render() {
    assert_eq!(Error::ShapeMismatch.message(), "no matching shape");
    assert_eq!(Error::InvalidInput.message(), "invalid source");
    assert_eq!(Error::Unknown.message(), "unknown failure");
    assert_eq!(Error::OutOfRange.message(), "value out of range");
    assert_eq!(Error::ScopeMismatch.message(), "value used under a foreign environment");
    let io = Error::Io { message: "file vanished".to_string() };
    assert_eq!(io.message(), "file vanished");
}
