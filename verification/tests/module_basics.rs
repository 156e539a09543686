use std::marker::PhantomData;
use std::sync::Arc;

use script_module::fn_register::Pure0;
use script_module::hash_native_args;
use script_module::hash_script;
use script_module::CallableFunction;
use script_module::Dynamic;
use script_module::EvalAltResult;
use script_module::FnAccess;
use script_module::FnNamespace;
use script_module::Module;
use script_module::NativeCallContext;
use script_module::Position;
use script_module::ScriptFnDef;
use script_module::TypeId;

type Fallible<T> = Result<T, Box<EvalAltResult>>;

fn context() -> NativeCallContext {
    NativeCallContext { max_call_levels: 8, max_array_size: 0, max_string_size: 0 }
}

fn script(name: &str, params: &[&str], access: FnAccess) -> Arc<ScriptFnDef> {
    Arc::new(ScriptFnDef {
        name: name.to_string(),
        access,
        params: params.iter().map(|p| p.to_string()).collect(),
        body: String::from("{}"),
    })
}

#[test]
fn new_module_is_empty_and_not_indexed() {
    let module = Module::new();
    assert!(module.is_empty());
    assert!(!module.is_indexed());
    assert_eq!(module.id(), None);
    assert_eq!(module.count(), (0, 0, 0));
    let sized = Module::new_with_capacity(3);
    assert!(sized.is_empty());
    assert!(!sized.is_indexed());
}

#[test]
fn id_can_be_set_and_cleared() {
    let mut module = Module::new();
    module.set_id(Some("hello"));
    assert_eq!(module.id(), Some("hello"));
    assert_eq!(module.id_raw().map(|s| s.as_str()), Some("hello"));
    module.set_id(None);
    assert_eq!(module.id(), None);
    assert!(module.id_raw().is_none());
}

#[test]
fn setting_the_id_keeps_the_index() {
    let mut module = Module::new();
    module.set_var("answer", 42_i64);
    module.build_index();
    module.set_id(Some("named"));
    assert!(module.is_indexed());
    assert!(module.get_qualified_var(hash_script(&["root"], "answer", 0)).is_ok());
}

#[test]
fn variables_are_set_and_found() {
    let mut module = Module::new();
    module.set_var("answer", 42_i64);
    assert!(module.contains_var("answer"));
    assert!(!module.contains_var("question"));
    assert_eq!(module.get_var("answer"), Some(Dynamic::Int(42)));
    assert_eq!(module.get_var("question"), None);
    assert_eq!(module.get_var_value::<i64>("answer"), Some(42));
    assert_eq!(module.get_var_value::<bool>("answer"), None);
    assert_eq!(module.get_var_value::<i64>("question"), None);
    assert!(!module.is_empty());
}

#[test]
fn setting_a_variable_again_replaces_it_in_place() {
    let mut module = Module::new();
    module.set_var("a", 1_i64).set_var("b", true).set_var("a", 'x');
    assert_eq!(module.count(), (2, 0, 0));
    assert_eq!(module.get_var("a"), Some(Dynamic::Char('x')));
    let listed = module.iter_var();
    assert_eq!(listed.len(), 2);
    assert_eq!(listed[0], ("a", &Dynamic::Char('x')));
    assert_eq!(listed[1], ("b", &Dynamic::Bool(true)));
}

#[test]
fn variables_hold_text() {
    let mut module = Module::new();
    module.set_var("name", String::from("module"));
    assert_eq!(module.get_var_value::<String>("name"), Some(String::from("module")));
    assert_eq!(
        module.get_var_value::<Arc<String>>("name"),
        Some(Arc::new(String::from("module")))
    );
    assert_eq!(module.get_var("name"), Some(Dynamic::Str(Arc::new(String::from("module")))));
}

#[test]
fn sub_modules_are_set_and_found() {
    let mut module = Module::new();
    let mut sub = Module::new();
    sub.set_var("x", 1_i64);
    module.set_sub_module("question", Arc::new(sub));
    assert!(module.contains_sub_module("question"));
    assert!(!module.contains_sub_module("answer"));
    assert!(module.get_sub_module("answer").is_none());
    let found = module.get_sub_module("question").unwrap();
    assert_eq!(found.get_var_value::<i64>("x"), Some(1));
    let listed = module.iter_sub_modules();
    assert_eq!(listed.len(), 1);
    assert_eq!(listed[0].0, "question");
    assert!(listed[0].1.contains_var("x"));
}

#[test]
fn a_sub_module_can_be_shared_by_two_parents() {
    let mut shared = Module::new();
    shared.set_var("x", 7_i64);
    let shared = Arc::new(shared);
    let mut first = Module::new();
    let mut second = Module::new();
    first.set_sub_module("s", shared.clone());
    second.set_sub_module("t", shared.clone());
    assert!(Arc::ptr_eq(&first.iter_sub_modules()[0].1, &second.iter_sub_modules()[0].1));
    assert_eq!(first.get_sub_module("s").unwrap().get_var_value::<i64>("x"), Some(7));
    assert_eq!(second.get_sub_module("t").unwrap().get_var_value::<i64>("x"), Some(7));
}

#[test]
fn set_fn_registers_under_the_native_hash() {
    let mut module = Module::new();
    let func = CallableFunction::from_pure(Box::new(Constant(5)));
    let hash = module.set_fn(
        "five",
        FnNamespace::Internal,
        FnAccess::Public,
        Some(&["x: Int", "Int"]),
        &[TypeId::integer()],
        func,
    );
    assert_eq!(hash, hash_native_args("five", &[TypeId::integer()]));
    assert_ne!(hash, 0);
    assert!(module.contains_fn(hash, true));
    assert!(module.contains_fn(hash, false));
    assert!(!module.contains_fn(hash + 1, false));
    assert_eq!(module.count(), (0, 1, 0));
    let info = module.iter_fn()[0];
    assert_eq!(info.name, "five");
    assert_eq!(info.params, 1);
    assert_eq!(info.param_types, vec![TypeId::integer()]);
    assert_eq!(info.namespace, FnNamespace::Internal);
    assert_eq!(info.access, FnAccess::Public);
    assert!(info.func.is_pure());
    assert_eq!(info.gen_signature(), "five(x: Int) -> Int");
}

#[allow(non_snake_case)]
fn Constant(value: i64) -> Pure0<i64, impl Fn() -> Fallible<i64>> {
    Pure0 { func: move || -> Fallible<i64> { Ok(value) }, marker: PhantomData }
}

#[test]
fn string_parameters_are_registered_as_immutable_strings() {
    let mut module = Module::new();
    let by_slice = module.set_fn(
        "len",
        FnNamespace::Internal,
        FnAccess::Public,
        None,
        &[TypeId::string_slice()],
        CallableFunction::from_pure(Box::new(Constant(1))),
    );
    let by_string = module.set_fn(
        "len",
        FnNamespace::Internal,
        FnAccess::Public,
        None,
        &[TypeId::string()],
        CallableFunction::from_pure(Box::new(Constant(2))),
    );
    assert_eq!(by_slice, by_string);
    assert_eq!(by_slice, hash_native_args("len", &[TypeId::immutable_string()]));
    assert_eq!(module.count(), (0, 1, 0));
    let info = module.iter_fn()[0];
    assert_eq!(info.param_types, vec![TypeId::immutable_string()]);
    let code = module.get_fn(by_slice, true).unwrap().get_native_fn();
    assert_eq!(code.call(context(), &mut vec![]), Ok(Dynamic::Int(2)));
}

#[test]
fn private_functions_are_hidden_from_public_lookups() {
    let mut module = Module::new();
    let hash = module.set_fn(
        "hidden",
        FnNamespace::Internal,
        FnAccess::Private,
        None,
        &[],
        CallableFunction::from_pure(Box::new(Constant(1))),
    );
    assert!(module.contains_fn(hash, false));
    assert!(!module.contains_fn(hash, true));
    assert!(module.get_fn(hash, false).is_some());
    assert!(module.get_fn(hash, true).is_none());
    assert!(module.gen_fn_signatures().is_empty());
}

#[test]
fn script_functions_are_registered_under_the_script_hash() {
    let mut module = Module::new();
    let hash = module.set_script_fn(script("add", &["a", "b"], FnAccess::Public));
    assert_eq!(hash, hash_script(&[], "add", 2));
    assert!(module.contains_fn(hash, true));
    let info = module.iter_fn()[0];
    assert_eq!(info.name, "add");
    assert_eq!(info.params, 2);
    assert!(info.param_types.is_empty());
    assert_eq!(info.namespace, FnNamespace::Internal);
    assert_eq!(info.access, FnAccess::Public);
    assert!(info.func.is_script());
    assert_eq!(info.gen_signature(), "add(a, b) -> Dynamic");
    let names: Vec<&str> = info.param_names.iter().map(|s| s.as_str()).collect();
    assert_eq!(names, vec!["a", "b", "Dynamic"]);
}

#[test]
fn script_functions_are_found_by_name() {
    let mut module = Module::new();
    module.set_script_fn(script("add", &["a", "b"], FnAccess::Public));
    module.set_script_fn(script("secret", &[], FnAccess::Private));
    module.set_fn(
        "native",
        FnNamespace::Internal,
        FnAccess::Public,
        None,
        &[],
        CallableFunction::from_pure(Box::new(Constant(1))),
    );
    assert_eq!(module.get_script_fn("add", 2, true).unwrap().name, "add");
    assert!(module.get_script_fn("add", 1, true).is_none());
    assert!(module.get_script_fn("sub", 2, true).is_none());
    assert!(module.get_script_fn("secret", 0, true).is_none());
    assert_eq!(module.get_script_fn("secret", 0, false).unwrap().name, "secret");
    assert!(module.get_script_fn("native", 0, false).is_none());
    let rows = module.iter_script_fn_info();
    assert_eq!(
        rows,
        vec![
            (FnNamespace::Internal, FnAccess::Public, String::from("add"), 2),
            (FnNamespace::Internal, FnAccess::Private, String::from("secret"), 0),
        ]
    );
    assert_eq!(module.iter_script_fn().len(), 2);
    assert_eq!(module.iter_fn().len(), 3);
}

#[test]
fn metadata_can_be_updated_without_touching_the_index() {
    let mut module = Module::new();
    let hash = module.set_fn(
        "calc",
        FnNamespace::Global,
        FnAccess::Public,
        None,
        &[TypeId::integer()],
        CallableFunction::from_pure(Box::new(Constant(1))),
    );
    module.build_index();
    module.update_fn_metadata(hash, &["x: Int", "Int"]);
    assert!(module.is_indexed());
    assert!(module.contains_qualified_fn(hash));
    assert_eq!(module.gen_fn_signatures(), vec![String::from("calc(x: Int) -> Int")]);
    module.update_fn_metadata(hash + 1, &["y", "()"]);
    assert_eq!(module.gen_fn_signatures(), vec![String::from("calc(x: Int) -> Int")]);
}

#[test]
fn qualified_variable_that_is_missing_is_an_error() {
    let mut module = Module::new();
    module.set_var("answer", 42_i64);
    module.build_index();
    let hash = hash_script(&["root"], "answer", 0);
    assert_eq!(module.get_qualified_var(hash), Ok(&Dynamic::Int(42)));
    let missing = hash_script(&["root"], "question", 0);
    assert_eq!(
        module.get_qualified_var(missing),
        Err(Box::new(EvalAltResult::ErrorVariableNotFound(String::new(), Position::none())))
    );
    assert!(Position::none().is_none());
    assert!(!Position { line: 1, pos: 2 }.is_none());
}

#[test]
fn signatures_are_generated_for_public_functions_in_order() {
    let mut module = Module::new();
    module.set_script_fn(script("first", &["x"], FnAccess::Public));
    module.set_script_fn(script("second", &[], FnAccess::Private));
    let hash = module.set_fn(
        "third",
        FnNamespace::Internal,
        FnAccess::Public,
        None,
        &[TypeId::integer(), TypeId::boolean()],
        CallableFunction::from_method(Box::new(Constant(1))),
    );
    assert_eq!(
        module.gen_fn_signatures(),
        vec![String::from("first(x) -> Dynamic"), String::from("third(_, _) -> ?")]
    );
    assert!(module.get_fn(hash, true).unwrap().is_method());
}

fn shareable<T: Send + Sync>() -> bool {
    true
}

#[test]
fn modules_and_callables_can_be_shared_between_threads() {
    assert!(shareable::<Module>());
    assert!(shareable::<CallableFunction>());
    assert!(shareable::<Dynamic>());
    assert!(shareable::<script_module::IteratorFn>());
    assert!(shareable::<script_module::FuncInfo>());
}
