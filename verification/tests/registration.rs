use std::sync::Arc;

use script_module::hash_native_args;
use script_module::Array;
use script_module::Dynamic;
use script_module::EvalAltResult;
use script_module::FnAccess;
use script_module::FnNamespace;
use script_module::Module;
use script_module::NativeCallContext;
use script_module::Position;
use script_module::ScriptFnDef;
use script_module::TypeId;
use script_module::Variant;

type Fallible<T> = Result<T, Box<EvalAltResult>>;

fn context() -> NativeCallContext {
    NativeCallContext { max_call_levels: 8, max_array_size: 0, max_string_size: 0 }
}

fn call(module: &Module, hash: u64, args: &mut Vec<Dynamic>) -> Fallible<Dynamic> {
    module.get_fn(hash, true).unwrap().get_native_fn().call(context(), args)
}

fn text(s: &str) -> Dynamic {
    Dynamic::Str(Arc::new(s.to_string()))
}

#[test]
fn overloads_get_three_hashes_and_three_entries() {
    let mut module = Module::new();
    let one = module.set_fn_1("f", |x: i64| -> Fallible<i64> { Ok(x) });
    let two = module.set_fn_2("f", |x: i64, y: i64| -> Fallible<i64> { Ok(x + y) });
    let by_text = module.set_fn_1("f", |s: String| -> Fallible<i64> { Ok(s.len() as i64) });
    assert_ne!(one, two);
    assert_ne!(one, by_text);
    assert_ne!(two, by_text);
    assert_eq!(module.count(), (0, 3, 0));
    assert!(module.contains_fn(one, true));
    assert!(module.contains_fn(two, true));
    assert!(module.contains_fn(by_text, true));
    assert_eq!(call(&module, one, &mut vec![Dynamic::Int(7)]), Ok(Dynamic::Int(7)));
    assert_eq!(
        call(&module, two, &mut vec![Dynamic::Int(7), Dynamic::Int(1)]),
        Ok(Dynamic::Int(8))
    );
    assert_eq!(call(&module, by_text, &mut vec![text("abc")]), Ok(Dynamic::Int(3)));

    module.retain_script_functions(|_, _, _: &str, _| true);
    assert_eq!(module.count(), (0, 0, 0));
    let again = module.set_fn_2("f", |x: i64, y: i64| -> Fallible<i64> { Ok(x * y) });
    assert_eq!(again, two);
    assert!(module.contains_fn(two, true));
    assert!(!module.contains_fn(one, true));
    assert!(!module.contains_fn(by_text, false));
}

#[test]
fn replacing_one_overload_leaves_the_others() {
    let mut module = Module::new();
    let one = module.set_fn_1("f", |x: i64| -> Fallible<i64> { Ok(x) });
    let two = module.set_fn_2("f", |x: i64, y: i64| -> Fallible<i64> { Ok(x + y) });
    let by_text = module.set_fn_1("f", |s: String| -> Fallible<i64> { Ok(s.len() as i64) });
    let replaced = module.set_fn_1("f", |x: i64| -> Fallible<i64> { Ok(-x) });
    assert_eq!(replaced, one);
    assert_eq!(module.count(), (0, 3, 0));
    assert!(module.contains_fn(two, true));
    assert!(module.contains_fn(by_text, true));
    assert_eq!(call(&module, one, &mut vec![Dynamic::Int(7)]), Ok(Dynamic::Int(-7)));
    assert_eq!(
        call(&module, two, &mut vec![Dynamic::Int(7), Dynamic::Int(1)]),
        Ok(Dynamic::Int(8))
    );
}

#[test]
fn plain_functions_are_internal_public_and_pure() {
    let mut module = Module::new();
    let hash = module.set_fn_0("calc", || -> Fallible<i64> { Ok(42) });
    assert_eq!(hash, hash_native_args("calc", &[]));
    let info = module.iter_fn()[0];
    assert_eq!(info.namespace, FnNamespace::Internal);
    assert_eq!(info.access, FnAccess::Public);
    assert_eq!(info.params, 0);
    assert!(info.param_names.is_empty());
    assert!(info.func.is_pure());
    assert!(info.func.is_native());
    assert!(!info.func.is_method());
    assert_eq!(info.func.access(), FnAccess::Public);
    assert_eq!(call(&module, hash, &mut vec![]), Ok(Dynamic::Int(42)));
}

#[test]
fn plain_functions_use_their_arguments_up() {
    let mut module = Module::new();
    let h1 = module.set_fn_1("neg", |x: i64| -> Fallible<i64> { Ok(-x) });
    let h3 = module.set_fn_3("pick", |c: bool, a: i64, b: i64| -> Fallible<i64> {
        Ok(if c { a } else { b })
    });
    let h4 = module.set_fn_4("sum", |a: i64, b: i64, c: i64, _d: ()| -> Fallible<i64> {
        Ok(a + b + c)
    });
    assert_eq!(h1, hash_native_args("neg", &[TypeId::integer()]));
    assert_eq!(
        h3,
        hash_native_args("pick", &[TypeId::boolean(), TypeId::integer(), TypeId::integer()])
    );
    assert_eq!(
        h4,
        hash_native_args(
            "sum",
            &[TypeId::integer(), TypeId::integer(), TypeId::integer(), TypeId::unit()]
        )
    );
    let mut args = vec![Dynamic::Int(5)];
    assert_eq!(call(&module, h1, &mut args), Ok(Dynamic::Int(-5)));
    assert_eq!(args, vec![Dynamic::Unit]);
    let mut args = vec![Dynamic::Bool(false), Dynamic::Int(1), Dynamic::Int(2)];
    assert_eq!(call(&module, h3, &mut args), Ok(Dynamic::Int(2)));
    assert_eq!(args, vec![Dynamic::Unit, Dynamic::Unit, Dynamic::Unit]);
    let mut args = vec![Dynamic::Int(1), Dynamic::Int(2), Dynamic::Int(3), Dynamic::Unit];
    assert_eq!(call(&module, h4, &mut args), Ok(Dynamic::Int(6)));
    assert_eq!(module.iter_fn()[2].params, 4);
}

#[test]
fn methods_change_their_first_argument_in_place() {
    let mut module = Module::new();
    let h1 = module.set_fn_1_mut("inc", FnNamespace::Internal, |x: &mut i64| -> Fallible<i64> {
        *x += 1;
        Ok(*x)
    });
    let h2 = module.set_fn_2_mut(
        "add",
        FnNamespace::Global,
        |x: &mut i64, y: i64| -> Fallible<()> {
            *x += y;
            Ok(())
        },
    );
    let h3 = module.set_fn_3_mut(
        "mix",
        FnNamespace::Internal,
        |x: &mut i64, y: i64, z: bool| -> Fallible<bool> {
            *x = if z { *x + y } else { *x - y };
            Ok(z)
        },
    );
    let h4 = module.set_fn_4_mut(
        "all",
        FnNamespace::Internal,
        |x: &mut i64, a: i64, b: i64, c: i64| -> Fallible<i64> {
            *x = a * 100 + b * 10 + c;
            Ok(0)
        },
    );
    assert!(module.get_fn(h1, true).unwrap().is_method());
    assert_eq!(module.iter_fn()[1].namespace, FnNamespace::Global);
    assert_eq!(module.iter_fn()[0].namespace, FnNamespace::Internal);

    let mut args = vec![Dynamic::Int(1)];
    assert_eq!(call(&module, h1, &mut args), Ok(Dynamic::Int(2)));
    assert_eq!(args, vec![Dynamic::Int(2)]);

    let mut args = vec![Dynamic::Int(1), Dynamic::Int(10)];
    assert_eq!(call(&module, h2, &mut args), Ok(Dynamic::Unit));
    assert_eq!(args, vec![Dynamic::Int(11), Dynamic::Unit]);

    let mut args = vec![Dynamic::Int(5), Dynamic::Int(3), Dynamic::Bool(false)];
    assert_eq!(call(&module, h3, &mut args), Ok(Dynamic::Bool(false)));
    assert_eq!(args, vec![Dynamic::Int(2), Dynamic::Unit, Dynamic::Unit]);

    let mut args = vec![Dynamic::Int(0), Dynamic::Int(1), Dynamic::Int(2), Dynamic::Int(3)];
    assert_eq!(call(&module, h4, &mut args), Ok(Dynamic::Int(0)));
    assert_eq!(args[0], Dynamic::Int(123));
}

#[test]
fn errors_of_a_function_are_passed_on_unchanged() {
    let mut module = Module::new();
    let hash = module.set_fn_1("fail", |x: i64| -> Fallible<i64> {
        let place = Position { line: 3, pos: 4 };
        Err(Box::new(EvalAltResult::ErrorRuntime(format!("no {}", x), place)))
    });
    assert_eq!(
        call(&module, hash, &mut vec![Dynamic::Int(9)]),
        Err(Box::new(EvalAltResult::ErrorRuntime(
            String::from("no 9"),
            Position { line: 3, pos: 4 }
        )))
    );
}

#[test]
fn raw_functions_get_the_whole_argument_list() {
    let mut module = Module::new();
    let hash = module.set_raw_fn(
        "double_or_not",
        FnNamespace::Internal,
        FnAccess::Public,
        &[TypeId::integer(), TypeId::boolean()],
        |context: NativeCallContext, args: &mut Vec<Dynamic>| -> Fallible<i64> {
            let double = args[1] == Dynamic::Bool(true);
            let held = match args[0] {
                Dynamic::Int(x) => x,
                _ => 0,
            };
            if double {
                args[0] = Dynamic::Int(held * 2);
            }
            Ok(held + context.max_call_levels as i64)
        },
    );
    assert_eq!(hash, hash_native_args("double_or_not", &[TypeId::integer(), TypeId::boolean()]));
    assert!(module.get_fn(hash, true).unwrap().is_method());
    assert_eq!(module.iter_fn()[0].params, 2);
    let mut args = vec![Dynamic::Int(21), Dynamic::Bool(true)];
    assert_eq!(call(&module, hash, &mut args), Ok(Dynamic::Int(21 + 8)));
    assert_eq!(args, vec![Dynamic::Int(42), Dynamic::Bool(true)]);
}

#[test]
fn getters_and_setters_are_global_under_their_own_names() {
    let mut module = Module::new();
    let getter = module.set_getter_fn("value", |x: &mut i64| -> Fallible<i64> { Ok(*x) });
    let setter = module.set_setter_fn("value", |x: &mut i64, y: i64| -> Fallible<()> {
        *x = y;
        Ok(())
    });
    assert_eq!(getter, hash_native_args("get$value", &[TypeId::integer()]));
    assert_eq!(setter, hash_native_args("set$value", &[TypeId::integer(), TypeId::integer()]));
    let infos = module.iter_fn();
    assert_eq!(infos[0].name, "get$value");
    assert_eq!(infos[0].namespace, FnNamespace::Global);
    assert_eq!(infos[1].name, "set$value");
    assert_eq!(infos[1].namespace, FnNamespace::Global);
    assert_eq!(script_module::module::register::make_getter("value"), "get$value");
    assert_eq!(script_module::module::register::make_setter("value"), "set$value");
    let mut args = vec![Dynamic::Int(1), Dynamic::Int(5)];
    assert_eq!(call(&module, setter, &mut args), Ok(Dynamic::Unit));
    assert_eq!(args[0], Dynamic::Int(5));
    module.build_index();
    assert!(module.contains_qualified_fn(getter));
    assert!(module.contains_qualified_fn(setter));
}

#[test]
fn indexers_are_global_under_reserved_names() {
    let mut module = Module::new();
    assert!(!TypeId::integer().has_intrinsic_indexing());
    let getter = module.set_indexer_get_fn(|x: &mut i64, i: i64| -> Fallible<i64> { Ok(*x + i) });
    let setter = module.set_indexer_set_fn(|x: &mut i64, i: i64, v: i64| -> Fallible<()> {
        *x = i + v;
        Ok(())
    });
    assert_eq!(getter, hash_native_args("index-get", &[TypeId::integer(), TypeId::integer()]));
    assert_eq!(
        setter,
        hash_native_args("index-set", &[TypeId::integer(), TypeId::integer(), TypeId::integer()])
    );
    let infos = module.iter_fn();
    assert_eq!(infos[0].name, "index-get");
    assert_eq!(infos[0].namespace, FnNamespace::Global);
    assert_eq!(infos[1].name, "index-set");
    assert_eq!(infos[1].namespace, FnNamespace::Global);
    let mut args = vec![Dynamic::Int(1), Dynamic::Int(2), Dynamic::Int(3)];
    assert_eq!(call(&module, setter, &mut args), Ok(Dynamic::Unit));
    assert_eq!(args[0], Dynamic::Int(5));

    let mut pair = Module::new();
    let (get, set) = pair.set_indexer_get_set_fn(
        |x: &mut bool, i: i64| -> Fallible<i64> { Ok(if *x { i } else { 0 }) },
        |x: &mut bool, i: i64, v: i64| -> Fallible<()> {
            *x = i == v;
            Ok(())
        },
    );
    assert!(pair.contains_fn(get, true));
    assert!(pair.contains_fn(set, true));
    assert_eq!(pair.count(), (0, 2, 0));
    assert_eq!(get, hash_native_args("index-get", &[TypeId::boolean(), TypeId::integer()]));
}

#[test]
fn the_built_in_sequence_type_is_barred_from_indexers() {
    assert!(<Array as Variant>::type_id().has_intrinsic_indexing());
    assert!(<script_module::ObjectMap as Variant>::type_id().has_intrinsic_indexing());
    assert!(<String as Variant>::type_id().has_intrinsic_indexing());
    assert!(<Arc<String> as Variant>::type_id().has_intrinsic_indexing());
    assert!(!<i64 as Variant>::type_id().has_intrinsic_indexing());
    assert!(!<bool as Variant>::type_id().has_intrinsic_indexing());
    assert!(!<char as Variant>::type_id().has_intrinsic_indexing());
    assert!(!<() as Variant>::type_id().has_intrinsic_indexing());
}

#[test]
fn signature_with_parameter_names() {
    let mut module = Module::new();
    let hash = module.set_fn_1("name", |x: i64| -> Fallible<i64> { Ok(x) });
    module.update_fn_metadata(hash, &["x: Int", "Int"]);
    assert_eq!(module.iter_fn()[0].gen_signature(), "name(x: Int) -> Int");
}

#[test]
fn signature_without_parameter_names() {
    let mut module = Module::new();
    module.set_fn_2("name", |x: i64, y: i64| -> Fallible<i64> { Ok(x + y) });
    assert_eq!(module.iter_fn()[0].gen_signature(), "name(_, _) -> ?");
}

#[test]
fn signature_of_other_shapes() {
    let mut module = Module::new();
    let none = module.set_fn_0("none", || -> Fallible<()> { Ok(()) });
    module.set_fn_3("three", |_: i64, _: i64, _: i64| -> Fallible<()> { Ok(()) });
    let unit = module.set_fn_2("unit", |_: i64, _: bool| -> Fallible<()> { Ok(()) });
    let only = module.set_fn_0("only", || -> Fallible<i64> { Ok(1) });
    module.update_fn_metadata(unit, &["a: Int", "b: bool", "()"]);
    module.update_fn_metadata(only, &["Int"]);
    module.set_script_fn(Arc::new(ScriptFnDef {
        name: String::from("scripted"),
        access: FnAccess::Public,
        params: vec![String::from("p"), String::from("q")],
        body: String::new(),
    }));
    let signatures: Vec<String> = module.iter_fn().iter().map(|f| f.gen_signature()).collect();
    assert_eq!(
        signatures,
        vec![
            "none() -> ?",
            "three(_, _, _) -> ?",
            "unit(a: Int, b: bool)",
            "only() -> Int",
            "scripted(p, q) -> Dynamic",
        ]
    );
    module.update_fn_metadata(none, &["()"]);
    assert_eq!(module.iter_fn()[0].gen_signature(), "none()");
    let mut script_only = Module::new();
    let hash = script_only.set_script_fn(Arc::new(ScriptFnDef {
        name: String::from("bare"),
        access: FnAccess::Public,
        params: vec![String::from("p"), String::from("q")],
        body: String::new(),
    }));
    script_only.update_fn_metadata(hash, &[]);
    assert_eq!(script_only.iter_fn()[0].gen_signature(), "bare(_, _)");
}

#[test]
fn values_cast_to_the_type_they_hold_only() {
    assert_eq!(<i64 as Variant>::try_cast(Dynamic::Int(3)), Some(3));
    assert_eq!(<i64 as Variant>::try_cast(Dynamic::Bool(true)), None);
    assert_eq!(<bool as Variant>::try_cast(Dynamic::Bool(true)), Some(true));
    assert_eq!(<char as Variant>::try_cast(Dynamic::Char('c')), Some('c'));
    assert_eq!(<() as Variant>::try_cast(Dynamic::Unit), Some(()));
    assert_eq!(<() as Variant>::try_cast(Dynamic::Int(0)), None);
    assert_eq!(<String as Variant>::try_cast(text("s")), Some(String::from("s")));
    assert_eq!(<String as Variant>::try_cast(Dynamic::Char('s')), None);
    assert_eq!(7_i64.into_dynamic(), Dynamic::Int(7));
    assert_eq!(String::from("s").into_dynamic(), text("s"));
    assert_eq!(Dynamic::Int(1).type_id(), TypeId::integer());
    assert_eq!(text("s").type_id(), TypeId::immutable_string());
    assert_eq!(Dynamic::Array(Arc::new(vec![])).type_id(), TypeId::array());
    assert_eq!(Dynamic::ObjectMap(Arc::new(vec![])).type_id(), TypeId::object_map());
    assert_eq!(Dynamic::Unit.type_id(), TypeId::unit());
    assert_eq!(Dynamic::Bool(true).type_id(), TypeId::boolean());
    assert_eq!(Dynamic::Char('c').type_id(), TypeId::character());
    let array: Array = Arc::new(vec![Dynamic::Int(1)]);
    assert_eq!(<Array as Variant>::try_cast(Dynamic::Array(array.clone())), Some(array));
}

#[test]
fn an_argument_of_another_type_is_an_error() {
    let mut module = Module::new();
    let hash = module.set_fn_1("neg", |x: i64| -> Fallible<i64> { Ok(-x) });
    assert_eq!(
        call(&module, hash, &mut vec![Dynamic::Bool(true)]),
        Err(Box::new(EvalAltResult::ErrorMismatchArgument(0, Position::none())))
    );
}

#[test]
fn the_error_names_the_argument_that_does_not_fit() {
    let mut module = Module::new();
    let pure = module.set_fn_3("p", |a: i64, b: bool, c: char| -> Fallible<i64> {
        Ok(if b && c == 'x' { a } else { 0 })
    });
    let method = module.set_fn_2_mut(
        "m",
        FnNamespace::Internal,
        |a: &mut i64, b: bool| -> Fallible<bool> {
            *a += 1;
            Ok(b)
        },
    );
    let wrong = |index| Err(Box::new(EvalAltResult::ErrorMismatchArgument(index, Position::none())));
    let mut args = vec![Dynamic::Int(1), Dynamic::Int(2), Dynamic::Char('x')];
    assert_eq!(call(&module, pure, &mut args), wrong(1));
    let mut args = vec![Dynamic::Int(1), Dynamic::Bool(true), Dynamic::Unit];
    assert_eq!(call(&module, pure, &mut args), wrong(2));
    let mut args = vec![Dynamic::Bool(true), Dynamic::Bool(true)];
    assert_eq!(call(&module, method, &mut args), wrong(0));
    let mut args = vec![Dynamic::Int(1), Dynamic::Int(1)];
    assert_eq!(call(&module, method, &mut args), wrong(1));
    assert_eq!(args[0], Dynamic::Int(1));
}

#[test]
fn script_definitions_are_handed_out_as_they_were_set() {
    let definition = Arc::new(ScriptFnDef {
        name: String::from("run"),
        access: FnAccess::Private,
        params: vec![String::from("a")],
        body: String::from("a"),
    });
    let callable = script_module::CallableFunction::from_script(definition.clone());
    assert!(callable.is_script());
    assert!(!callable.is_native());
    assert!(!callable.is_pure());
    assert_eq!(callable.access(), FnAccess::Private);
    assert_eq!(callable.get_fn_def(), &*definition);
    assert!(FnAccess::Private.is_private());
    assert!(!FnAccess::Private.is_public());
    assert!(FnNamespace::Global.is_global());
    assert!(!FnNamespace::Global.is_internal());
    assert!(FnNamespace::Internal.is_internal());
    assert!(!FnNamespace::Internal.is_global());
    assert_eq!(FnNamespace::default(), FnNamespace::Internal);
}
