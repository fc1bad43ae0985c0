use jsbridge::ctx::{Context, Ctx};
use jsbridge::engine::Runtime;
use jsbridge::error::Error;
use jsbridge::raw::RawValue;
use jsbridge::convert::IntoJs;
use jsbridge::value::Function;

fn fresh() -> (Runtime, Ctx) {
    let mut rt = Runtime::new();
    let c = Context::new(&mut rt);
    let ctx = Ctx::new(&c);
    (rt, ctx)
}

#[test]
fn exports() {
    let (mut rt, ctx) = fresh();
    let module = ctx.compile(&mut rt, "test", "export default async () => 1;").unwrap();
    let func: Function = module.get(ctx, &rt, "default").unwrap();
    func.call0::<()>(ctx, &mut rt).unwrap();
}

#[test]
fn from_javascript() {
    let (mut rt, ctx) = fresh();
    let s: jsbridge::string::String = ctx.eval(&mut rt, " 'foo bar baz' ").unwrap();
    assert_eq!(s.to_string().unwrap(), "foo bar baz");
}

#[test]
fn to_javascript() {
    let (mut rt, ctx) = fresh();
    let string = jsbridge::string::String::from_str(ctx, "foo").unwrap();
    let func: Function = ctx.eval(&mut rt, "x =>  x + 'bar'").unwrap();
    let text: String = func.call1(ctx, &mut rt, string.into_js(ctx).unwrap()).unwrap();
    assert_eq!(text, "foobar".to_string());
}

#[test]
fn global_eval_adds() {
    let (mut rt, ctx) = fresh();
    let n: i64 = ctx.eval_global(&mut rt, "1+2").unwrap();
    assert_eq!(n, 3);
}

#[test]
fn module_default_export() {
    let (mut rt, ctx) = fresh();
    let module = ctx.compile(&mut rt, "m", "export default 41+1;").unwrap();
    let n: i64 = module.get(ctx, &rt, "default").unwrap();
    assert_eq!(n, 42);
}

#[test]
fn thrown_error_reaches_host() {
    let (mut rt, ctx) = fresh();
    let r: Result<i64, Error> = ctx.eval(&mut rt, "throw new Error('x')");
    match r {
        Err(Error::Exception { message }) => assert!(message.contains("x")),
        _ => panic!("expected a foreign exception"),
    }
}

#[test]
fn nul_in_source_is_invalid_input() {
    let (mut rt, ctx) = fresh();
    let r: Result<i64, Error> = ctx.eval(&mut rt, "1+\0 2");
    assert!(matches!(r, Err(Error::InvalidInput)));
}

#[test]
fn syntax_error_is_an_exception() {
    let (mut rt, ctx) = fresh();
    let r: Result<i64, Error> = ctx.eval(&mut rt, "@@@");
    match r {
        Err(Error::Exception { message }) => assert!(message.contains("SyntaxError")),
        _ => panic!("expected a syntax error"),
    }
}

#[test]
fn string_concatenation() {
    let (mut rt, ctx) = fresh();
    let s: String = ctx.eval(&mut rt, "'foo' + 'bar'").unwrap();
    assert_eq!(s, "foobar");
}

#[test]
fn mixed_operands_throw() {
    let (mut rt, ctx) = fresh();
    let r: Result<i64, Error> = ctx.eval(&mut rt, "1 + 'x'");
    match r {
        Err(Error::Exception { message }) => assert!(message.contains("unsupported operands")),
        _ => panic!("expected a type failure"),
    }
}

#[test]
fn unbound_variable_throws() {
    let (mut rt, ctx) = fresh();
    let r: Result<i64, Error> = ctx.eval(&mut rt, "missing");
    match r {
        Err(Error::Exception { message }) => assert!(message.contains("is not defined")),
        _ => panic!("expected a reference failure"),
    }
}

#[test]
fn overflow_in_a_call_throws() {
    let (mut rt, ctx) = fresh();
    let func: Function = ctx.eval(&mut rt, "x => x + x").unwrap();
    let arg = jsbridge::value::Value { raw: RawValue::Int(i64::MAX), epoch: ctx.epoch, owned: true };
    let r: Result<i64, Error> = func.call1(ctx, &mut rt, arg);
    match r {
        Err(Error::Exception { message }) => assert!(message.contains("integer overflow")),
        _ => panic!("expected an overflow failure"),
    }
}

#[test]
fn export_default_is_global_syntax_error() {
    let (mut rt, ctx) = fresh();
    let r: Result<i64, Error> = ctx.eval_global(&mut rt, "export default 1;");
    match r {
        Err(Error::Exception { message }) => assert!(message.contains("SyntaxError")),
        _ => panic!("expected a syntax error"),
    }
}

#[test]
fn globals_return_the_same_object() {
    let (mut rt, ctx) = fresh();
    let a = ctx.globals();
    let b = ctx.globals();
    let ia = match a.into_value().raw {
        RawValue::Obj(i) => i,
        _ => panic!("globals must be an object"),
    };
    let ib = match b.into_value().raw {
        RawValue::Obj(i) => i,
        _ => panic!("globals must be an object"),
    };
    assert_eq!(ia, ib);
    let _ = rt;
}

#[test]
fn module_without_namespace_rejects_get() {
    let (mut rt, ctx) = fresh();
    let module = ctx.compile(&mut rt, "m", "1+2").unwrap();
    let r: Result<i64, Error> = module.get(ctx, &rt, "default");
    assert!(matches!(r, Err(Error::Unknown)));
}

#[test]
fn missing_export_reads_as_absent() {
    let (mut rt, ctx) = fresh();
    let module = ctx.compile(&mut rt, "m", "export default 1;").unwrap();
    let r: Result<i64, Error> = module.get(ctx, &rt, "other");
    assert!(matches!(r, Err(Error::ShapeMismatch)));
    let unit: Result<(), Error> = module.get(ctx, &rt, "other");
    assert!(unit.is_ok());
}

#[test]
fn integer_literals_are_capped_at_nine_digits() {
    let (mut rt, ctx) = fresh();
    let n: i64 = ctx.eval(&mut rt, "999999999").unwrap();
    assert_eq!(n, 999_999_999);
    let r: Result<i64, Error> = ctx.eval(&mut rt, "1000000000");
    match r {
        Err(Error::Exception { message }) => assert!(message.contains("SyntaxError")),
        _ => panic!("expected a syntax error"),
    }
}

#[test]
fn empty_source_is_a_syntax_error() {
    let (mut rt, ctx) = fresh();
    let r: Result<(), Error> = ctx.eval(&mut rt, "");
    match r {
        Err(Error::Exception { message }) => assert!(message.contains("SyntaxError")),
        _ => panic!("expected a syntax error"),
    }
}

#[test]
fn zero_parameter_arrow_evaluates() {
    let (mut rt, ctx) = fresh();
    let func: Function = ctx.eval(&mut rt, "( ) => 2").unwrap();
    let n: i64 = func.call0(ctx, &mut rt).unwrap();
    assert_eq!(n, 2);
}

#[test]
fn to_cstring_appends_nul() {
    let (mut rt, ctx) = fresh();
    let s: jsbridge::string::String = ctx.eval(&mut rt, "'foo'").unwrap();
    let b = s.to_cstring().unwrap();
    assert_eq!(b, vec![b'f', b'o', b'o', 0u8]);
}
