use std::sync::Arc;

use script_module::hash_script;
use script_module::Array;
use script_module::Dynamic;
use script_module::EvalAltResult;
use script_module::FnAccess;
use script_module::FnNamespace;
use script_module::Module;
use script_module::ScriptFnDef;
use script_module::TypeId;

type Fallible<T> = Result<T, Box<EvalAltResult>>;

fn script(name: &str, params: &[&str], access: FnAccess) -> Arc<ScriptFnDef> {
    Arc::new(ScriptFnDef {
        name: name.to_string(),
        access,
        params: params.iter().map(|p| p.to_string()).collect(),
        body: String::from("{}"),
    })
}

fn with_var(name: &str, value: i64) -> Module {
    let mut module = Module::new();
    module.set_var(name, value);
    module
}

fn root_and_other() -> (Module, Module) {
    let mut root = Module::new();
    root.set_sub_module("S", Arc::new(with_var("x", 1)));
    let mut other = Module::new();
    other.set_sub_module("S", Arc::new(with_var("y", 2)));
    (root, other)
}

fn names(module: &Module) -> Vec<String> {
    module.iter_fn().iter().map(|f| f.name.clone()).collect()
}

#[test]
fn combine_replaces_a_sub_module_of_the_same_name() {
    let (mut root, other) = root_and_other();
    let theirs = other.iter_sub_modules()[0].1.clone();
    root.combine(other);
    let sub = root.get_sub_module("S").unwrap();
    assert!(!sub.contains_var("x"));
    assert_eq!(sub.get_var_value::<i64>("y"), Some(2));
    assert!(Arc::ptr_eq(&root.iter_sub_modules()[0].1, &theirs));
    assert_eq!(root.iter_sub_modules().len(), 1);
}

#[test]
fn merge_keeps_both_sides_of_a_sub_module() {
    let (mut root, other) = root_and_other();
    let ours = root.iter_sub_modules()[0].1.clone();
    root.merge(&other);
    let sub = root.get_sub_module("S").unwrap();
    assert_eq!(sub.get_var_value::<i64>("x"), Some(1));
    assert_eq!(sub.get_var_value::<i64>("y"), Some(2));
    assert_eq!(root.iter_sub_modules().len(), 1);
    assert!(!ours.contains_var("y"));
    assert!(!other.get_sub_module("S").unwrap().contains_var("x"));
}

#[test]
fn fill_with_leaves_an_existing_sub_module_alone() {
    let (mut root, mut other) = root_and_other();
    other.set_sub_module("T", Arc::new(with_var("z", 3)));
    let ours = root.iter_sub_modules()[0].1.clone();
    root.fill_with(&other);
    let sub = root.get_sub_module("S").unwrap();
    assert_eq!(sub.get_var_value::<i64>("x"), Some(1));
    assert!(!sub.contains_var("y"));
    assert!(Arc::ptr_eq(&root.iter_sub_modules()[0].1, &ours));
    assert_eq!(root.get_sub_module("T").unwrap().get_var_value::<i64>("z"), Some(3));
    assert_eq!(root.iter_sub_modules().len(), 2);
}

#[test]
fn combine_overwrites_variables_functions_and_iterators() {
    let mut target = Module::new();
    target.set_var("a", 1_i64).set_var("b", 2_i64);
    let kept = target.set_fn_0("kept", || -> Fallible<i64> { Ok(1) });
    let shared = target.set_fn_0("shared", || -> Fallible<i64> { Ok(1) });
    let mut other = Module::new();
    other.set_var("b", 20_i64).set_var("c", 30_i64);
    let theirs = other.set_fn_1_mut("shared", FnNamespace::Global, |x: &mut i64| -> Fallible<i64> {
        Ok(*x)
    });
    let same = other.set_fn_0("shared", || -> Fallible<bool> { Ok(true) });
    other.set_iterable::<Array>();
    assert_eq!(same, shared);
    target.build_index();
    target.combine(other);
    assert!(!target.is_indexed());
    assert_eq!(target.count(), (3, 3, 1));
    let listed: Vec<(&str, Dynamic)> =
        target.iter_var().into_iter().map(|(k, v)| (k, v.clone())).collect();
    assert_eq!(
        listed,
        vec![("a", Dynamic::Int(1)), ("b", Dynamic::Int(20)), ("c", Dynamic::Int(30))]
    );
    assert!(target.contains_fn(kept, true));
    assert!(target.contains_fn(theirs, true));
    assert_eq!(names(&target), vec!["kept", "shared", "shared"]);
    assert!(target.contains_iter(TypeId::array()));
}

#[test]
fn combine_flatten_brings_nested_contents_to_the_top() {
    let mut inner = Module::new();
    inner.set_var("deep", 3_i64).set_var("both", 30_i64);
    inner.set_script_fn(script("inner_fn", &[], FnAccess::Public));
    let mut other = Module::new();
    other.set_var("top", 1_i64).set_var("both", 10_i64);
    other.set_sub_module("inner", Arc::new(inner));
    let mut target = Module::new();
    target.set_var("own", 0_i64).set_var("top", 100_i64);
    target.set_sub_module("mine", Arc::new(Module::new()));
    target.build_index();
    target.combine_flatten(other);
    assert!(!target.is_indexed());
    assert_eq!(target.get_var_value::<i64>("own"), Some(0));
    assert_eq!(target.get_var_value::<i64>("top"), Some(1));
    assert_eq!(target.get_var_value::<i64>("deep"), Some(3));
    assert_eq!(target.get_var_value::<i64>("both"), Some(30));
    assert!(target.contains_fn(hash_script(&[], "inner_fn", 0), true));
    assert!(!target.contains_sub_module("inner"));
    assert!(target.contains_sub_module("mine"));
    assert_eq!(target.iter_sub_modules().len(), 1);
    let order: Vec<&str> = target.iter_var().into_iter().map(|(k, _)| k).collect();
    assert_eq!(order, vec!["own", "top", "both", "deep"]);
}

#[test]
fn fill_with_never_overwrites() {
    let mut target = Module::new();
    target.set_var("a", 1_i64);
    let mine = target.set_fn_0("f", || -> Fallible<i64> { Ok(1) });
    let mut other = Module::new();
    other.set_var("a", 10_i64).set_var("b", 20_i64);
    let theirs = other.set_fn_0("f", || -> Fallible<i64> { Ok(2) });
    let extra = other.set_fn_0("g", || -> Fallible<i64> { Ok(3) });
    other.update_fn_metadata(theirs, &["Other"]);
    other.set_iterable::<Array>();
    assert_eq!(mine, theirs);
    target.build_index();
    target.fill_with(&other);
    assert!(!target.is_indexed());
    assert_eq!(target.get_var_value::<i64>("a"), Some(1));
    assert_eq!(target.get_var_value::<i64>("b"), Some(20));
    assert_eq!(target.count(), (2, 2, 1));
    assert!(target.contains_fn(extra, true));
    assert_eq!(target.iter_fn()[0].gen_signature(), "f() -> ?");
    assert!(target.contains_iter(TypeId::array()));
}

#[test]
fn merge_filtered_copies_the_functions_that_pass() {
    let mut inner = Module::new();
    inner.set_script_fn(script("deep_public", &["a"], FnAccess::Public));
    inner.set_script_fn(script("deep_private", &[], FnAccess::Private));
    inner.set_var("v", 5_i64);
    let mut other = Module::new();
    other.set_script_fn(script("public", &[], FnAccess::Public));
    other.set_script_fn(script("private", &[], FnAccess::Private));
    other.set_fn_0("native", || -> Fallible<i64> { Ok(1) });
    other.set_var("w", 6_i64);
    other.set_iterable::<Array>();
    other.set_sub_module("inner", Arc::new(inner));

    let mut target = Module::new();
    target.set_fn_0("mine", || -> Fallible<i64> { Ok(0) });
    target.build_index();
    target.merge_filtered(&other, &|_namespace, access, is_script, _name: &str, _params| {
        is_script && access == FnAccess::Public
    });
    assert!(!target.is_indexed());
    assert_eq!(names(&target), vec!["mine", "public"]);
    assert_eq!(target.get_var_value::<i64>("w"), Some(6));
    assert!(target.contains_iter(TypeId::array()));
    let sub = target.get_sub_module("inner").unwrap();
    assert_eq!(names(sub), vec!["deep_public"]);
    assert_eq!(sub.get_var_value::<i64>("v"), Some(5));
    assert_eq!(other.get_sub_module("inner").unwrap().count(), (1, 2, 0));
}

#[test]
fn merge_filtered_asks_the_filter_of_name_and_arity() {
    let mut other = Module::new();
    other.set_script_fn(script("keep", &["a", "b"], FnAccess::Public));
    other.set_script_fn(script("keep", &["a"], FnAccess::Public));
    other.set_script_fn(script("drop", &["a", "b"], FnAccess::Public));
    let mut target = Module::new();
    target.merge_filtered(&other, &|namespace, _access, _is_script, name: &str, params| {
        namespace == FnNamespace::Internal && name == "keep" && params == 2
    });
    assert_eq!(target.count(), (0, 1, 0));
    assert!(target.contains_fn(hash_script(&[], "keep", 2), true));
    assert!(!target.contains_fn(hash_script(&[], "keep", 1), true));
}

#[test]
fn merge_brings_everything_and_keeps_nesting() {
    let mut deepest = Module::new();
    deepest.set_var("d", 4_i64);
    let mut inner = Module::new();
    inner.set_var("i", 3_i64);
    inner.set_sub_module("deepest", Arc::new(deepest));
    let mut other = Module::new();
    other.set_sub_module("inner", Arc::new(inner));
    other.set_fn_0("native", || -> Fallible<i64> { Ok(1) });
    other.set_script_fn(script("hidden", &[], FnAccess::Private));

    let mut mine = Module::new();
    mine.set_var("own", 1_i64);
    let mut target = Module::new();
    target.set_sub_module("inner", Arc::new(mine));
    target.set_sub_module("untouched", Arc::new(with_var("u", 9)));
    let untouched = target.iter_sub_modules()[1].1.clone();
    target.merge(&other);

    assert_eq!(names(&target), vec!["native", "hidden"]);
    let inner = target.get_sub_module("inner").unwrap();
    assert_eq!(inner.get_var_value::<i64>("own"), Some(1));
    assert_eq!(inner.get_var_value::<i64>("i"), Some(3));
    let deepest = inner.get_sub_module("deepest").unwrap();
    assert_eq!(deepest.get_var_value::<i64>("d"), Some(4));
    assert!(Arc::ptr_eq(&target.iter_sub_modules()[1].1, &untouched));
    let order: Vec<&str> = target.iter_sub_modules().iter().map(|(k, _)| *k).collect();
    assert_eq!(order, vec!["inner", "untouched"]);
}

#[test]
fn retain_script_functions_drops_native_code_and_what_the_filter_rejects() {
    let mut module = Module::new();
    module.set_script_fn(script("keep", &["a"], FnAccess::Public));
    module.set_script_fn(script("drop", &["a"], FnAccess::Public));
    module.set_script_fn(script("secret", &[], FnAccess::Private));
    let native = module.set_fn_0("native", || -> Fallible<i64> { Ok(1) });
    module.set_var("v", 1_i64);
    module.build_index();
    module.retain_script_functions(|_namespace, access, name: &str, params| {
        access == FnAccess::Public && name != "drop" && params == 1
    });
    assert!(!module.is_indexed());
    assert_eq!(names(&module), vec!["keep"]);
    assert!(!module.contains_fn(native, false));
    assert!(module.contains_fn(hash_script(&[], "keep", 1), true));
    assert_eq!(module.count(), (1, 1, 0));
}

#[test]
fn a_copy_of_a_module_shares_its_sub_modules() {
    let (mut root, _) = root_and_other();
    root.set_var("a", 1_i64);
    root.set_id(Some("first"));
    root.build_index();
    let mut copy = root.clone();
    assert_eq!(copy.id(), Some("first"));
    assert!(copy.is_indexed());
    assert_eq!(copy.get_var_value::<i64>("a"), Some(1));
    assert!(Arc::ptr_eq(&copy.iter_sub_modules()[0].1, &root.iter_sub_modules()[0].1));
    copy.set_var("a", 2_i64);
    assert_eq!(root.get_var_value::<i64>("a"), Some(1));
    assert!(root.is_indexed());
    assert!(!copy.is_indexed());
    let fresh = Module::default();
    assert!(fresh.is_empty());
}
