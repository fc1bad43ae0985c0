use jsbridge::convert::IntoJs;
use jsbridge::ctx::{Context, Ctx};
use jsbridge::engine::Runtime;
use jsbridge::opaque::TypedKey;
use jsbridge::raw::RawValue;
use jsbridge::value::Function;

fn fresh() -> (Runtime, Ctx) {
    let mut rt = Runtime::new();
    let c = Context::new(&mut rt);
    let ctx = Ctx::new(&c);
    (rt, ctx)
}

#[test]
fn typed_store_round_trip() {
    let (mut rt, ctx) = fresh();
    let k1 = TypedKey { tag: 1, id: 5 };
    assert_eq!(ctx.insert_typed(&mut rt, k1, 77), None);
    assert_eq!(ctx.get_typed(&rt, &k1), Some(77));
    assert!(ctx.contains_typed_key(&rt, &k1));
    assert_eq!(ctx.insert_typed(&mut rt, k1, 88), Some(77));
    assert_eq!(ctx.remove_typed(&mut rt, &k1), Some(88));
    assert_eq!(ctx.get_typed(&rt, &k1), None);
    assert!(!ctx.contains_typed_key(&rt, &k1));
}

#[test]
fn typed_store_mutable_access() {
    let (mut rt, ctx) = fresh();
    let k = TypedKey { tag: 3, id: 9 };
    ctx.insert_typed(&mut rt, k, 10);
    assert!(ctx.get_typed_mut(&mut rt, &TypedKey { tag: 3, id: 8 }).is_none());
    if let Some(p) = ctx.get_typed_mut(&mut rt, &k) {
        *p = 11;
    } else {
        panic!("the key must be bound");
    }
    assert_eq!(ctx.get_typed(&rt, &k), Some(11));
}

#[test]
fn colliding_identities_do_not_cross_types() {
    let (mut rt, ctx) = fresh();
    let k1 = TypedKey { tag: 1, id: 5 };
    let k2 = TypedKey { tag: 2, id: 5 };
    ctx.insert_typed(&mut rt, k1, 77);
    assert_eq!(ctx.get_typed(&rt, &k2), None);
    assert_eq!(ctx.get_typed(&rt, &k1), Some(77));
}

#[test]
fn retain_release_returns_the_value() {
    let (mut rt, ctx) = fresh();
    let v = 7i64.into_js(ctx).unwrap();
    let k = ctx.register(&mut rt, v).unwrap();

    let peeked = ctx.get_register(&rt, k).unwrap();
    assert!(matches!(peeked.raw, RawValue::Int(7)));
    assert!(!peeked.owned);

    let got = ctx.deregister(&mut rt, k).unwrap();
    assert!(matches!(got.raw, RawValue::Int(7)));
    assert!(got.owned);
    assert_eq!(got.epoch, ctx.epoch);

    assert!(ctx.deregister(&mut rt, k).is_none());
    assert!(ctx.get_register(&rt, k).is_none());
}

#[test]
fn cross_scope_retention_is_rejected() {
    let mut rt = Runtime::new();
    let c1 = Context::new(&mut rt);
    let ctx1 = Ctx::new(&c1);
    let c2 = Context::new(&mut rt);
    let ctx2 = Ctx::new(&c2);
    let v1 = 7i64.into_js(ctx1).unwrap();
    assert!(ctx2.register(&mut rt, v1).is_err());
}

#[test]
fn spawner_queues_in_order() {
    let (mut rt, ctx) = fresh();
    ctx.spawn(&mut rt, 42);
    ctx.spawn(&mut rt, 43);
    assert_eq!(rt.side.spawner, vec![42u64, 43u64]);
}

#[test]
fn promise_capability_settles() {
    let (mut rt, ctx) = fresh();
    let (promise, resolve, _reject) = ctx.promise(&mut rt).unwrap();
    let idx = match promise.into_value().raw {
        RawValue::Obj(i) => i,
        _ => panic!("promise must be an object"),
    };
    let arg = 9i64.into_js(ctx).unwrap();
    let _: () = resolve.call1(ctx, &mut rt, arg).unwrap();
    match &rt.heap[idx].kind {
        jsbridge::engine::ObjKind::Promise(jsbridge::engine::PState::Settled {
            rejected,
            value,
        }) => {
            assert!(!rejected);
            assert!(matches!(value, RawValue::Int(9)));
        },
        _ => panic!("promise must be settled"),
    }
}

#[test]
fn resolver_decodes_as_function() {
    let (mut rt, ctx) = fresh();
    let (_promise, resolve, _reject) = ctx.promise(&mut rt).unwrap();
    let v = resolve.into_value();
    let f: Result<Function, jsbridge::error::Error> =
        jsbridge::convert::FromJs::from_js(ctx, v);
    assert!(f.is_ok());
}

#[test]
fn environments_get_distinct_epochs() {
    let mut rt = Runtime::new();
    let c1 = Context::new(&mut rt);
    let c2 = Context::new(&mut rt);
    assert_ne!(c1.epoch, c2.epoch);
    assert_ne!(c1.global, c2.global);
}
