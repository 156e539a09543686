use std::sync::Arc;

use script_module::hash_script;
use script_module::Dynamic;
use script_module::EvalAltResult;
use script_module::FnAccess;
use script_module::Ident;
use script_module::Import;
use script_module::Module;
use script_module::NamespaceRef;
use script_module::Position;
use script_module::ScopeEntry;
use script_module::ScriptFnDef;

type Fallible<T> = Result<T, Box<EvalAltResult>>;

fn ident(name: &str) -> Ident {
    Ident { name: name.to_string(), pos: Position { line: 1, pos: 1 } }
}

#[test]
fn namespace_is_rendered_with_the_separator() {
    let namespace = NamespaceRef::new(vec![ident("a"), ident("b"), ident("c")]);
    assert_eq!(namespace.to_text(), "a::b::c");
    assert_eq!(namespace.len(), 3);
    assert_eq!(namespace.qualifiers(), vec!["a", "b", "c"]);
    assert_eq!(namespace.idents()[1].name, "b");
    let single = NamespaceRef::new(vec![ident("only")]);
    assert_eq!(single.to_text(), "only");
    let empty = NamespaceRef::new(vec![]);
    assert_eq!(empty.to_text(), "");
}

#[test]
fn namespace_caches_a_scope_offset() {
    let mut namespace = NamespaceRef::new(vec![ident("a"), ident("b")]);
    assert_eq!(namespace.index(), None);
    namespace.set_index(Some(3));
    assert_eq!(namespace.index(), Some(3));
    assert_eq!(namespace.to_text(), "a::b");
    namespace.set_index(None);
    assert_eq!(namespace.index(), None);
    assert_eq!(namespace.len(), 2);
}

#[test]
fn namespace_addresses_the_index() {
    let mut inner = Module::new();
    inner.set_var("v", 9_i64);
    let mut root = Module::new();
    root.set_sub_module("b", Arc::new(inner));
    root.build_index();
    let namespace = NamespaceRef::new(vec![ident("a"), ident("b")]);
    let hash = hash_script(&namespace.qualifiers(), "v", 0);
    assert_eq!(root.get_qualified_var(hash), Ok(&Dynamic::Int(9)));
}

#[test]
fn module_from_evaluation_exports_aliased_variables() {
    let scope = vec![
        ScopeEntry { name: String::from("hidden"), value: Dynamic::Int(1), aliases: vec![] },
        ScopeEntry {
            name: String::from("answer"),
            value: Dynamic::Int(42),
            aliases: vec![String::from("answer")],
        },
        ScopeEntry {
            name: String::from("twice"),
            value: Dynamic::Bool(true),
            aliases: vec![String::from("one"), String::from("two")],
        },
        ScopeEntry {
            name: String::from("late"),
            value: Dynamic::Char('z'),
            aliases: vec![String::from("one")],
        },
    ];
    let mut imported = Module::new();
    imported.set_var("x", 5_i64);
    let imports = vec![Import { alias: String::from("dep"), module: Arc::new(imported) }];
    let mut lib = Module::new();
    lib.set_script_fn(Arc::new(ScriptFnDef {
        name: String::from("run"),
        access: FnAccess::Public,
        params: vec![String::from("a")],
        body: String::from("a + 1"),
    }));
    lib.set_script_fn(Arc::new(ScriptFnDef {
        name: String::from("helper"),
        access: FnAccess::Private,
        params: vec![],
        body: String::new(),
    }));
    lib.set_fn_0("native", || -> Fallible<i64> { Ok(1) });

    let module = Module::eval_ast_as_new(scope, imports, 0, &lib, Some("script.txt"));
    assert_eq!(module.id(), Some("script.txt"));
    assert!(module.is_indexed());
    assert!(!module.contains_var("hidden"));
    assert_eq!(module.get_var_value::<i64>("answer"), Some(42));
    assert_eq!(module.get_var("one"), Some(Dynamic::Char('z')));
    assert_eq!(module.get_var("two"), Some(Dynamic::Bool(true)));
    let order: Vec<&str> = module.iter_var().into_iter().map(|(k, _)| k).collect();
    assert_eq!(order, vec!["answer", "one", "two"]);
    assert_eq!(module.get_sub_module("dep").unwrap().get_var_value::<i64>("x"), Some(5));
    assert_eq!(module.count(), (3, 1, 0));
    assert!(module.contains_fn(hash_script(&[], "run", 1), true));
    assert_eq!(module.get_script_fn("run", 1, true).unwrap().body, "a + 1");
    assert!(module.get_script_fn("helper", 0, false).is_none());

    assert_eq!(
        module.get_qualified_var(hash_script(&["root"], "answer", 0)),
        Ok(&Dynamic::Int(42))
    );
    assert_eq!(
        module.get_qualified_var(hash_script(&["root", "dep"], "x", 0)),
        Ok(&Dynamic::Int(5))
    );
    assert!(module.contains_qualified_fn(hash_script(&["root"], "run", 1)));
}

#[test]
fn module_from_evaluation_of_nothing_is_indexed_and_holds_nothing() {
    let lib = Module::new();
    let module = Module::eval_ast_as_new(vec![], vec![], 0, &lib, None);
    assert!(module.is_indexed());
    assert_eq!(module.id(), None);
    assert_eq!(module.count(), (0, 0, 0));
    assert!(module.is_empty());
}

#[test]
fn module_from_evaluation_passes_over_earlier_imports() {
    let mut early = Module::new();
    early.set_var("e", 1_i64);
    let mut late = Module::new();
    late.set_var("l", 2_i64);
    let imports = || {
        vec![
            Import { alias: String::from("early"), module: Arc::new(Module::new()) },
            Import { alias: String::from("late"), module: Arc::new(Module::new()) },
        ]
    };
    let lib = Module::new();
    let module = Module::eval_ast_as_new(vec![], imports(), 1, &lib, None);
    assert!(!module.contains_sub_module("early"));
    assert!(module.contains_sub_module("late"));
    assert_eq!(module.iter_sub_modules().len(), 1);
    let none = Module::eval_ast_as_new(vec![], imports(), 2, &lib, None);
    assert_eq!(none.iter_sub_modules().len(), 0);
    let beyond = Module::eval_ast_as_new(vec![], imports(), 7, &lib, None);
    assert_eq!(beyond.iter_sub_modules().len(), 0);
    let all = Module::eval_ast_as_new(vec![], imports(), 0, &lib, None);
    assert_eq!(all.iter_sub_modules().len(), 2);
}
