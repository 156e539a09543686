use std::sync::Arc;

use script_module::combine_hashes;
use script_module::hash_native_args;
use script_module::hash_script;
use script_module::Array;
use script_module::Dynamic;
use script_module::EvalAltResult;
use script_module::FnAccess;
use script_module::FnNamespace;
use script_module::Module;
use script_module::NativeCallContext;
use script_module::ScriptFnDef;
use script_module::TypeId;

type Fallible<T> = Result<T, Box<EvalAltResult>>;

fn context() -> NativeCallContext {
    NativeCallContext { max_call_levels: 8, max_array_size: 0, max_string_size: 0 }
}

fn script(name: &str, params: &[&str], access: FnAccess) -> Arc<ScriptFnDef> {
    Arc::new(ScriptFnDef {
        name: name.to_string(),
        access,
        params: params.iter().map(|p| p.to_string()).collect(),
        body: String::from("{}"),
    })
}

fn qualified_native(path: &[&str], name: &str, types: &[TypeId]) -> u64 {
    combine_hashes(hash_script(path, name, types.len()), hash_native_args(name, types))
}

fn call_int(module: &Module, hash: u64, args: Vec<Dynamic>) -> Fallible<Dynamic> {
    let mut args = args;
    module.get_qualified_fn(hash).unwrap().get_native_fn().call(context(), &mut args)
}

#[test]
fn building_the_index_marks_the_module_as_indexed() {
    let mut module = Module::new();
    assert!(!module.is_indexed());
    module.build_index();
    assert!(module.is_indexed());
}

#[test]
fn building_the_index_twice_changes_nothing() {
    let mut sub = Module::new();
    sub.set_var("x", 1_i64);
    let global =
        sub.set_fn_1_mut("g", FnNamespace::Global, |x: &mut i64| -> Fallible<i64> { Ok(*x) });
    let mut module = Module::new();
    module.set_var("answer", 42_i64);
    module.set_sub_module("m", Arc::new(sub));
    module.set_iterable::<Array>();
    module.build_index();
    let keys = [
        hash_script(&["root"], "answer", 0),
        hash_script(&["root", "m"], "x", 0),
        global,
        qualified_native(&["root", "m"], "g", &[TypeId::integer()]),
        12345,
    ];
    let before: Vec<(bool, bool)> = keys
        .iter()
        .map(|k| (module.contains_qualified_fn(*k), module.get_qualified_var(*k).is_ok()))
        .collect();
    let values: Vec<Option<Dynamic>> =
        keys.iter().map(|k| module.get_qualified_var(*k).ok().cloned()).collect();
    module.build_index();
    assert!(module.is_indexed());
    let after: Vec<(bool, bool)> = keys
        .iter()
        .map(|k| (module.contains_qualified_fn(*k), module.get_qualified_var(*k).is_ok()))
        .collect();
    let values_after: Vec<Option<Dynamic>> =
        keys.iter().map(|k| module.get_qualified_var(*k).ok().cloned()).collect();
    assert_eq!(before, after);
    assert_eq!(values, values_after);
    assert_eq!(
        before,
        vec![(false, true), (false, true), (true, false), (true, false), (false, false)]
    );
    assert!(module.contains_qualified_iter(TypeId::array()));
    assert_eq!(module.count(), (1, 0, 1));
}

#[test]
fn set_var_invalidates_the_index() {
    let mut module = Module::new();
    module.set_var("a", 1_i64);
    module.build_index();
    let hash = hash_script(&["root"], "a", 0);
    assert!(module.get_qualified_var(hash).is_ok());
    module.set_var("b", 2_i64);
    assert!(!module.is_indexed());
    assert!(module.get_qualified_var(hash).is_err());
    module.build_index();
    assert!(module.is_indexed());
    assert!(module.get_qualified_var(hash).is_ok());
    assert!(module.get_qualified_var(hash_script(&["root"], "b", 0)).is_ok());
}

#[test]
fn set_fn_invalidates_the_index() {
    let mut module = Module::new();
    module.build_index();
    let hash = module.set_fn_0("calc", || -> Fallible<i64> { Ok(42) });
    assert!(!module.is_indexed());
    assert!(!module.contains_qualified_fn(qualified_native(&["root"], "calc", &[])));
    module.build_index();
    assert!(module.is_indexed());
    assert!(module.contains_qualified_fn(qualified_native(&["root"], "calc", &[])));
    assert!(!module.contains_qualified_fn(hash));
}

#[test]
fn set_script_fn_invalidates_the_index() {
    let mut module = Module::new();
    module.build_index();
    module.set_script_fn(script("f", &["x"], FnAccess::Public));
    assert!(!module.is_indexed());
}

#[test]
fn set_sub_module_invalidates_the_index() {
    let mut module = Module::new();
    module.build_index();
    module.set_sub_module("m", Arc::new(Module::new()));
    assert!(!module.is_indexed());
    module.build_index();
    assert!(module.is_indexed());
}

#[test]
fn update_fn_namespace_invalidates_the_index() {
    let mut module = Module::new();
    let hash = module.set_fn_0("calc", || -> Fallible<i64> { Ok(42) });
    module.build_index();
    assert!(!module.contains_qualified_fn(hash));
    module.update_fn_namespace(hash, FnNamespace::Global);
    assert!(!module.is_indexed());
    module.build_index();
    assert!(module.is_indexed());
    assert!(module.contains_qualified_fn(hash));
    assert_eq!(module.iter_fn()[0].namespace, FnNamespace::Global);
    module.update_fn_namespace(hash + 1, FnNamespace::Internal);
    assert!(!module.is_indexed());
    assert_eq!(module.iter_fn()[0].namespace, FnNamespace::Global);
}

#[test]
fn set_iter_invalidates_the_index() {
    let mut module = Module::new();
    module.build_index();
    module.set_iterable::<Array>();
    assert!(!module.is_indexed());
    assert!(module.contains_iter(TypeId::array()));
    assert!(!module.contains_qualified_iter(TypeId::array()));
}

#[test]
fn taking_the_table_of_sub_modules_invalidates_the_index() {
    let mut module = Module::new();
    module.set_var("a", 1_i64);
    module.build_index();
    let table = module.sub_modules_mut();
    assert!(table.is_empty());
    assert!(!module.is_indexed());
    assert!(module.get_qualified_var(hash_script(&["root"], "a", 0)).is_err());
}

#[test]
fn global_function_of_a_sub_module_is_reachable_with_and_without_qualifier() {
    let mut sub = Module::new();
    let global = sub.set_fn_1_mut("g", FnNamespace::Global, |x: &mut i64| -> Fallible<i64> {
        Ok(*x + 1)
    });
    let internal = sub.set_fn_1("f", |x: i64| -> Fallible<i64> { Ok(x + 2) });
    let mut root = Module::new();
    root.set_sub_module("m", Arc::new(sub));
    root.build_index();

    let qualified_g = qualified_native(&["root", "m"], "g", &[TypeId::integer()]);
    let qualified_f = qualified_native(&["root", "m"], "f", &[TypeId::integer()]);
    assert!(root.contains_qualified_fn(qualified_g));
    assert!(root.contains_qualified_fn(global));
    assert!(root.contains_qualified_fn(qualified_f));
    assert!(!root.contains_qualified_fn(internal));

    assert_eq!(call_int(&root, qualified_g, vec![Dynamic::Int(1)]), Ok(Dynamic::Int(2)));
    assert_eq!(call_int(&root, global, vec![Dynamic::Int(1)]), Ok(Dynamic::Int(2)));
    assert_eq!(call_int(&root, qualified_f, vec![Dynamic::Int(1)]), Ok(Dynamic::Int(3)));
    assert!(root.get_qualified_fn(internal).is_none());
}

#[test]
fn own_functions_are_indexed_under_the_root() {
    let mut module = Module::new();
    let hash = module.set_fn_2("add", |a: i64, b: i64| -> Fallible<i64> { Ok(a + b) });
    module.build_index();
    let types = [TypeId::integer(), TypeId::integer()];
    let qualified = qualified_native(&["root"], "add", &types);
    assert!(module.contains_qualified_fn(qualified));
    assert!(!module.contains_qualified_fn(hash));
    assert!(!module.contains_qualified_fn(hash_script(&["root"], "add", 2)));
    assert_eq!(
        call_int(&module, qualified, vec![Dynamic::Int(2), Dynamic::Int(3)]),
        Ok(Dynamic::Int(5))
    );
}

#[test]
fn script_functions_are_indexed_under_the_script_hash() {
    let mut sub = Module::new();
    let direct = sub.set_script_fn(script("run", &["a"], FnAccess::Public));
    sub.set_script_fn(script("hidden", &[], FnAccess::Private));
    let mut root = Module::new();
    root.set_sub_module("m", Arc::new(sub));
    root.build_index();
    let qualified = hash_script(&["root", "m"], "run", 1);
    assert!(root.contains_qualified_fn(qualified));
    assert!(root.get_qualified_fn(qualified).unwrap().is_script());
    assert_eq!(root.get_qualified_fn(qualified).unwrap().get_fn_def().name, "run");
    assert!(!root.contains_qualified_fn(direct));
    assert!(!root.contains_qualified_fn(hash_script(&["root", "m"], "hidden", 0)));
    assert!(!root.contains_qualified_fn(hash_script(&[], "hidden", 0)));
}

#[test]
fn private_functions_are_never_indexed() {
    let mut module = Module::new();
    let hash = {
        let func = {
            let mut scratch = Module::new();
            let h = scratch.set_fn_0("p", || -> Fallible<i64> { Ok(1) });
            scratch.get_fn(h, false).unwrap().clone()
        };
        module.set_fn("p", FnNamespace::Global, FnAccess::Private, None, &[], func)
    };
    module.build_index();
    assert!(!module.contains_qualified_fn(hash));
    assert!(!module.contains_qualified_fn(qualified_native(&["root"], "p", &[])));
}

#[test]
fn variables_of_nested_modules_are_indexed_under_their_path() {
    let mut inner = Module::new();
    inner.set_var("deep", 3_i64);
    let mut outer = Module::new();
    outer.set_var("mid", 2_i64);
    outer.set_sub_module("inner", Arc::new(inner));
    let mut root = Module::new();
    root.set_var("top", 1_i64);
    root.set_sub_module("outer", Arc::new(outer));
    root.build_index();
    assert_eq!(root.get_qualified_var(hash_script(&["root"], "top", 0)), Ok(&Dynamic::Int(1)));
    assert_eq!(
        root.get_qualified_var(hash_script(&["root", "outer"], "mid", 0)),
        Ok(&Dynamic::Int(2))
    );
    assert_eq!(
        root.get_qualified_var(hash_script(&["root", "outer", "inner"], "deep", 0)),
        Ok(&Dynamic::Int(3))
    );
    assert_eq!(
        root.get_qualified_var(hash_script(&["other", "outer", "inner"], "deep", 0)),
        Ok(&Dynamic::Int(3))
    );
    assert!(root.get_qualified_var(hash_script(&["root", "inner"], "deep", 0)).is_err());
    assert!(root.get_qualified_var(hash_script(&["root"], "deep", 0)).is_err());
}

#[test]
fn the_index_of_a_sub_module_is_its_own() {
    let mut sub = Module::new();
    sub.set_var("x", 1_i64);
    let sub = Arc::new(sub);
    let mut root = Module::new();
    root.set_sub_module("m", sub.clone());
    root.build_index();
    assert!(root.is_indexed());
    assert!(!sub.is_indexed());
    assert!(!root.get_sub_module("m").unwrap().is_indexed());
}

#[test]
fn type_iterators_of_sub_modules_are_indexed_and_the_shallower_one_stands() {
    let mut sub = Module::new();
    sub.set_iterable::<Array>();
    let mut root = Module::new();
    root.set_sub_module("m", Arc::new(sub));
    assert!(!root.contains_iter(TypeId::array()));
    root.build_index();
    assert!(root.contains_qualified_iter(TypeId::array()));
    assert!(!root.contains_qualified_iter(TypeId::integer()));
    assert!(root.get_qualified_iter(TypeId::integer()).is_none());
    let found = root.get_qualified_iter(TypeId::array()).unwrap();
    let items = found.iterate(Dynamic::Array(Arc::new(vec![Dynamic::Int(1), Dynamic::Bool(true)])));
    assert_eq!(items, vec![Dynamic::Int(1), Dynamic::Bool(true)]);

    let mut top = Module::new();
    top.set_sub_module("m", {
        let mut inner = Module::new();
        inner.set_iterable::<Array>();
        Arc::new(inner)
    });
    top.set_iterator::<Array>();
    let own = top.get_iter(TypeId::array()).unwrap();
    top.build_index();
    assert!(Arc::ptr_eq(&top.get_qualified_iter(TypeId::array()).unwrap(), &own));
}

#[test]
fn later_sub_modules_stand_where_global_hashes_meet() {
    let mut first = Module::new();
    let hash_first = first.set_fn_1_mut("g", FnNamespace::Global, |x: &mut i64| -> Fallible<i64> {
        Ok(*x + 1)
    });
    let mut second = Module::new();
    let hash_second = second.set_fn_1_mut("g", FnNamespace::Global, |x: &mut i64| -> Fallible<i64> {
        Ok(*x + 100)
    });
    assert_eq!(hash_first, hash_second);
    let mut root = Module::new();
    root.set_sub_module("a", Arc::new(first));
    root.set_sub_module("b", Arc::new(second));
    root.build_index();
    assert_eq!(call_int(&root, hash_first, vec![Dynamic::Int(1)]), Ok(Dynamic::Int(101)));
    assert_eq!(
        call_int(
            &root,
            qualified_native(&["root", "a"], "g", &[TypeId::integer()]),
            vec![Dynamic::Int(1)]
        ),
        Ok(Dynamic::Int(2))
    );
}
