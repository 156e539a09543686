//! Modules made from what the evaluation of a script has left.

use vstd::prelude::*;
use std::sync::Arc;
use crate::fn_native::CallableFunction;
use crate::hash::script_hash;
use crate::module::Module;
use crate::module::function_pairs;
use crate::module::functions::put_function;
use crate::module::functions::script_info;
use crate::module::info::FuncInfoView;
use crate::table::all_values;
use crate::table::distinct_keys;
use crate::table::lemma_overwrite_all_values;
use crate::table::lemma_overwrite_distinct;
use crate::table::lemma_upsert;
use crate::table::overwrite;
use crate::table::pairs;
use crate::table::put;
use crate::table::upsert;
use crate::value::Dynamic;
use crate::value::ImmutableString;
use crate::value::Shared;

verus! {

/// One variable that the evaluation of a script has left in its scope.
pub struct ScopeEntry {
    /// The name of the variable in the script.
    pub name: String,
    /// Its value.
    pub value: Dynamic,
    /// The names under which the script exports it; none if it does not.
    pub aliases: Vec<String>,
}

/// One module that the script has imported, under the name it gave it.
pub struct Import {
    pub alias: String,
    pub module: Shared<Module>,
}

/// The variables that one scope entry exports: its value under each of
/// its aliases.
pub open spec fn exported_by(entry: ScopeEntry) -> Seq<(Seq<char>, Dynamic)> {
    entry.aliases@.map_values(|alias: String| (alias@, entry.value))
}

/// The variables that a scope exports, in order.
pub open spec fn exported_variables(scope: Seq<ScopeEntry>) -> Seq<(Seq<char>, Dynamic)>
    decreases scope.len(),
{
    if scope.len() == 0 {
        Seq::empty()
    } else {
        exported_variables(scope.drop_last()) + exported_by(scope.last())
    }
}

/// The imports as named sub-modules.
pub open spec fn imported_modules(imports: Seq<Import>) -> Seq<(Seq<char>, Shared<Module>)> {
    imports.map_values(|import: Import| (import.alias@, import.module))
}

/// The imports that a script made itself: all but the first
/// `imported_before`, as named sub-modules.
pub open spec fn own_imports(imports: Seq<Import>, imported_before: usize) -> Seq<
    (Seq<char>, Shared<Module>),
> {
    if imported_before <= imports.len() {
        imported_modules(imports).skip(imported_before as int)
    } else {
        Seq::empty()
    }
}

/// `table` after the functions that a script exports are set into it:
/// of `functions`, those that are script-defined and not private.
pub open spec fn exported_functions(
    functions: Seq<(u64, FuncInfoView)>,
    table: Seq<(u64, FuncInfoView)>,
) -> Seq<(u64, FuncInfoView)>
    decreases functions.len(),
{
    if functions.len() == 0 {
        table
    } else {
        let before = exported_functions(functions.drop_last(), table);
        match functions.last().1.func {
            CallableFunction::Script(definition) => if functions.last().1.access.is_private() {
                before
            } else {
                upsert(
                    before,
                    script_hash(
                        Seq::empty(),
                        definition.name@,
                        definition.params@.len() as usize,
                    ),
                    script_info(definition),
                )
            },
            _ => before,
        }
    }
}

impl Module {
    /// Create a new module from what the evaluation of a script has left.
    ///
    /// Every variable of the scope becomes a variable of the module under
    /// each of its aliases; a variable without an alias is not exported.
    /// Of the imports, the first `imported_before` were there before the
    /// script ran and are passed over; every module that the script
    /// itself imported becomes a sub-module under its alias.  Every
    /// function of `lib` that is script-defined and not private becomes a
    /// function of the module.  The module gets `source` as its ID, and
    /// is indexed.
    pub fn eval_ast_as_new(
        scope: Vec<ScopeEntry>,
        imports: Vec<Import>,
        imported_before: usize,
        lib: &Module,
        source: Option<&str>,
    ) -> (module: Module)
        requires
            forall|i: int| 0 <= i < imports@.len() ==> (#[trigger] imports@[i]).module.wf(),
        ensures
            module.wf(),
            module.is_indexed(),
            module.cache() == module.flat_index(),
            match source {
                Some(text) => module.id_view() == Some(text@),
                None => module.id_view() is None,
            },
            module.variables() == overwrite(Seq::empty(), exported_variables(scope@)),
            module.sub_modules() == overwrite(Seq::empty(), own_imports(imports@, imported_before)),
            module.functions() == exported_functions(lib.functions(), Seq::empty()),
            module.iterators().len() == 0,
    {
        let mut module = Module::new();

        // Variables with an alias left in the scope become module variables.
        let mut i: usize = 0;
        let ghost mut done: Seq<(Seq<char>, Dynamic)> = Seq::empty();
        assert(scope@.take(0) =~= Seq::empty());
        assert(module.variables() =~= overwrite(Seq::empty(), done));
        while i < scope.len()
            invariant
                i <= scope@.len(),
                done == exported_variables(scope@.take(i as int)),
                pairs(module.variables@) == overwrite(Seq::empty(), done),
                module.modules@.len() == 0,
                module.functions@.len() == 0,
                module.type_iterators@.len() == 0,
                module.id is None,
                module.cache() == super::index::empty_index(),
                !module.indexed,
            decreases scope@.len() - i,
        {
            let entry = &scope[i];
            let ghost exports = exported_by(*entry);
            let ghost before = done;
            let mut j: usize = 0;
            assert(exports.take(0) =~= Seq::empty());
            assert(before + exports.take(0) =~= before);
            while j < entry.aliases.len()
                invariant
                    j <= entry.aliases@.len(),
                    exports == exported_by(*entry),
                    exports.len() == entry.aliases@.len(),
                    done == before + exports.take(j as int),
                    pairs(module.variables@) == overwrite(Seq::empty(), done),
                    module.modules@.len() == 0,
                    module.functions@.len() == 0,
                    module.type_iterators@.len() == 0,
                    module.id is None,
                    module.cache() == super::index::empty_index(),
                    !module.indexed,
                decreases entry.aliases@.len() - j,
            {
                let alias: ImmutableString = Arc::new(entry.aliases[j].clone());
                let value = entry.value.clone();
                proof {
                    let pair = (alias@, value);
                    assert(exports[j as int] == pair);
                    assert(done.push(pair).drop_last() =~= done);
                    assert(done.push(pair) =~= before + exports.take(j + 1));
                    done = done.push(pair);
                }
                put(&mut module.variables, alias, value);
                j += 1;
            }
            proof {
                assert(exports.take(j as int) == exports);
                assert(scope@.take(i + 1).drop_last() == scope@.take(i as int));
            }
            i += 1;
        }
        assert(scope@.take(i as int) == scope@);

        // Extra modules left in the scope become sub-modules.
        let first = if imported_before < imports.len() {
            imported_before
        } else {
            imports.len()
        };
        let ghost subs = own_imports(imports@, imported_before);
        let mut k: usize = first;
        assert(subs.take(0) =~= Seq::empty());
        assert(module.sub_modules() =~= overwrite(Seq::empty(), subs.take(0)));
        while k < imports.len()
            invariant
                first <= k <= imports@.len(),
                first <= imported_before,
                first == imported_before || first == imports@.len(),
                subs == own_imports(imports@, imported_before),
                pairs(module.modules@) == overwrite(Seq::empty(), subs.take(k - first)),
                pairs(module.variables@) == overwrite(Seq::empty(), exported_variables(scope@)),
                module.functions@.len() == 0,
                module.type_iterators@.len() == 0,
                module.id is None,
                module.cache() == super::index::empty_index(),
                !module.indexed,
            decreases imports@.len() - k,
        {
            assert(subs.take(k - first + 1).drop_last() == subs.take(k - first));
            let import = &imports[k];
            assert(subs[k - first] == (import.alias@, import.module));
            put(&mut module.modules, Arc::new(import.alias.clone()), import.module.clone());
            k += 1;
        }
        assert(subs.take(k - first) == subs);

        // Non-private functions defined become module functions.
        let ghost source_functions = lib.functions();
        let mut n: usize = 0;
        assert(source_functions.take(0) =~= Seq::empty());
        assert(function_pairs(module.functions@) =~= Seq::empty());
        while n < lib.functions.len()
            invariant
                n <= lib.functions@.len(),
                source_functions == lib.functions(),
                function_pairs(module.functions@) == exported_functions(
                    source_functions.take(n as int),
                    Seq::empty(),
                ),
                distinct_keys(function_pairs(module.functions@)),
                pairs(module.modules@) == overwrite(Seq::empty(), subs),
                pairs(module.variables@) == overwrite(Seq::empty(), exported_variables(scope@)),
                module.type_iterators@.len() == 0,
                module.id is None,
                module.cache() == super::index::empty_index(),
                !module.indexed,
            decreases lib.functions@.len() - n,
        {
            assert(source_functions.take(n + 1).drop_last() == source_functions.take(n as int));
            let info = &lib.functions[n].value;
            assert(source_functions[n as int].1 == info@);
            if !info.access.is_private() {
                match &info.func {
                    CallableFunction::Script(definition) => {
                        let ghost before = function_pairs(module.functions@);
                        let ghost key = script_hash(
                            Seq::empty(),
                            definition.name@,
                            definition.params@.len() as usize,
                        );
                        proof {
                            lemma_upsert(before, key, script_info(*definition));
                        }
                        module.set_script_fn_entry(definition.clone());
                    },
                    _ => {},
                }
            }
            n += 1;
        }
        assert(source_functions.take(n as int) == source_functions);

        proof {
            lemma_overwrite_distinct(Seq::empty(), exported_variables(scope@));
            lemma_overwrite_distinct(Seq::empty(), subs);
            let holds = |m: Shared<Module>| m.wf();
            assert(all_values(Seq::<(Seq<char>, Shared<Module>)>::empty(), holds));
            assert(all_values(subs, holds)) by {
                assert forall|i: int| 0 <= i < subs.len() implies holds((#[trigger] subs[i]).1) by {
                    assert(subs[i].1 == imports@[i + imported_before].module);
                }
            }
            lemma_overwrite_all_values(Seq::empty(), subs, holds);
            assert forall|i: int| 0 <= i < module.sub_modules().len() implies (
            #[trigger] module.sub_modules()[i]).1.wf() by {
                assert(holds(module.sub_modules()[i].1));
            }
            assert(module.iterators() =~= Seq::empty());
        }
        module.set_id(source);
        module.build_index();
        module
    }

    /// Puts a script function into the table of functions, and nothing
    /// else: the cache is left as it is.
    fn set_script_fn_entry(&mut self, definition: Shared<crate::fn_native::ScriptFnDef>)
        ensures
            function_pairs(final(self).functions@) == upsert(
                function_pairs(old(self).functions@),
                script_hash(Seq::empty(), definition.name@, definition.params@.len() as usize),
                script_info(definition),
            ),
            final(self).modules == old(self).modules,
            final(self).variables == old(self).variables,
            final(self).type_iterators == old(self).type_iterators,
            final(self).id == old(self).id,
            final(self).all_variables == old(self).all_variables,
            final(self).all_functions == old(self).all_functions,
            final(self).all_type_iterators == old(self).all_type_iterators,
            final(self).indexed == old(self).indexed,
    {
        let (hash, info) = Module::script_entry(definition);
        put_function(&mut self.functions, hash, info);
    }
}

} // verus!
