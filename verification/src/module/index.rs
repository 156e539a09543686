//! The flattened index of a module tree.
//!
//! Indexing walks the tree depth first.  At each module the sub-modules
//! come first, each under the qualifier path of its parent with its own
//! name added; then the module's own variables, type iterators and public
//! functions are entered.  What is entered later stands where two entries
//! meet under one key.

use vstd::prelude::*;
use std::collections::HashMap;
use crate::fn_native::CallableFunction;
use crate::fn_native::IteratorFn;
use crate::hash::combine_hashes;
use crate::hash::combined_hash;
use crate::hash::hash_native_args;
use crate::hash::hash_script;
use crate::hash::native_hash;
use crate::hash::script_hash;
use crate::hash::str_views;
use crate::module::Module;
use crate::module::by_type;
use crate::module::info::FuncInfoView;
use crate::value::Dynamic;
use crate::value::TypeId;

verus! {

/// The three flattened tables of a module tree.
pub struct FlatIndex {
    /// Variables, by the script-style hash of their qualified name.
    pub variables: Map<u64, Dynamic>,
    /// Public functions, by their hash.
    pub functions: Map<u64, CallableFunction>,
    /// Type iterators, by the type they iterate over.
    pub iterators: Map<TypeId, IteratorFn>,
}

/// The index that holds nothing.
pub open spec fn empty_index() -> FlatIndex {
    FlatIndex { variables: Map::empty(), functions: Map::empty(), iterators: Map::empty() }
}

/// The name of the root of every qualifier path.
pub open spec fn root_qualifiers() -> Seq<Seq<char>> {
    seq!["root"@]
}

/// `index` after the variables of one module are entered, each under the
/// script-style hash of the qualifiers, its name and arity zero.
pub open spec fn index_variables(
    variables: Seq<(Seq<char>, Dynamic)>,
    qualifiers: Seq<Seq<char>>,
    index: Map<u64, Dynamic>,
) -> Map<u64, Dynamic>
    decreases variables.len(),
{
    if variables.len() == 0 {
        index
    } else {
        index_variables(variables.drop_last(), qualifiers, index).insert(
            script_hash(qualifiers, variables.last().0, 0),
            variables.last().1,
        )
    }
}

/// `index` after the type iterators of one module are entered.
pub open spec fn index_iterators(
    iterators: Seq<(TypeId, IteratorFn)>,
    index: Map<TypeId, IteratorFn>,
) -> Map<TypeId, IteratorFn>
    decreases iterators.len(),
{
    if iterators.len() == 0 {
        index
    } else {
        index_iterators(iterators.drop_last(), index).insert(
            iterators.last().0,
            iterators.last().1,
        )
    }
}

/// The key of a function under a qualifier path.
///
/// A script function has the script-style hash of the qualifiers, its name
/// and its arity.  Native code has that hash with the native-style hash of
/// its name and parameter types folded in, which tells overloads apart.
pub open spec fn qualified_key(info: FuncInfoView, qualifiers: Seq<Seq<char>>) -> u64 {
    let by_arity = script_hash(qualifiers, info.name, info.params);
    if info.func.is_script() {
        by_arity
    } else {
        combined_hash(by_arity, native_hash(info.name, info.param_types))
    }
}

/// `index` after one function is entered.  A private function is left
/// out.  A public one stands under its qualified key; one of the global
/// namespace stands under the hash it is registered under as well.
pub open spec fn index_function(
    key: u64,
    info: FuncInfoView,
    qualifiers: Seq<Seq<char>>,
    index: Map<u64, CallableFunction>,
) -> Map<u64, CallableFunction> {
    if info.access.is_public() {
        let with_global = if info.namespace.is_global() {
            index.insert(key, info.func)
        } else {
            index
        };
        with_global.insert(qualified_key(info, qualifiers), info.func)
    } else {
        index
    }
}

/// `index` after the functions of one module are entered, in order.
pub open spec fn index_functions(
    functions: Seq<(u64, FuncInfoView)>,
    qualifiers: Seq<Seq<char>>,
    index: Map<u64, CallableFunction>,
) -> Map<u64, CallableFunction>
    decreases functions.len(),
{
    if functions.len() == 0 {
        index
    } else {
        index_function(
            functions.last().0,
            functions.last().1,
            qualifiers,
            index_functions(functions.drop_last(), qualifiers, index),
        )
    }
}

impl Module {
    /// `index` after the first `count` sub-modules are entered, each with
    /// its whole tree, under `qualifiers` with its name added.
    pub open spec fn index_sub_modules(
        &self,
        count: nat,
        qualifiers: Seq<Seq<char>>,
        index: FlatIndex,
    ) -> FlatIndex
        decreases self, 0nat, count,
    {
        if count == 0 || count > self.sub_modules().len() {
            index
        } else {
            let before = self.index_sub_modules((count - 1) as nat, qualifiers, index);
            let sub = self.sub_modules()[count - 1];
            sub.1.index_into(qualifiers.push(sub.0), before)
        }
    }

    /// `index` after the tree of this module is entered under
    /// `qualifiers`: the sub-modules first, then what the module itself
    /// holds.
    pub open spec fn index_into(&self, qualifiers: Seq<Seq<char>>, index: FlatIndex) -> FlatIndex
        decreases self, 1nat, 0nat,
    {
        let subs = self.index_sub_modules(self.sub_modules().len(), qualifiers, index);
        FlatIndex {
            variables: index_variables(self.variables(), qualifiers, subs.variables),
            functions: index_functions(self.functions(), qualifiers, subs.functions),
            iterators: index_iterators(self.iterators(), subs.iterators),
        }
    }

    /// The flattened index of the tree that this module is the root of.
    pub open spec fn flat_index(&self) -> FlatIndex {
        self.index_into(root_qualifiers(), empty_index())
    }
}

} // verus!

verus! {

/// The index of a tree is a function of the direct tables of its root.
pub proof fn lemma_index_depends_on_tables(a: &Module, b: &Module)
    requires
        a.sub_modules() == b.sub_modules(),
        a.variables() == b.variables(),
        a.functions() == b.functions(),
        a.iterators() == b.iterators(),
    ensures
        forall|qualifiers: Seq<Seq<char>>, index: FlatIndex|
            a.index_into(qualifiers, index) == b.index_into(qualifiers, index),
        a.flat_index() == b.flat_index(),
{
    assert forall|qualifiers: Seq<Seq<char>>, index: FlatIndex|
        a.index_into(qualifiers, index) == b.index_into(qualifiers, index) by {
        lemma_index_sub_modules_depends_on_table(
            a,
            b,
            a.sub_modules().len(),
            qualifiers,
            index,
        );
    }
}

/// Entering the sub-modules is a function of the table of sub-modules.
pub proof fn lemma_index_sub_modules_depends_on_table(
    a: &Module,
    b: &Module,
    count: nat,
    qualifiers: Seq<Seq<char>>,
    index: FlatIndex,
)
    requires
        a.sub_modules() == b.sub_modules(),
    ensures
        a.index_sub_modules(count, qualifiers, index) == b.index_sub_modules(
            count,
            qualifiers,
            index,
        ),
    decreases count,
{
    if count > 0 && count <= a.sub_modules().len() {
        lemma_index_sub_modules_depends_on_table(a, b, (count - 1) as nat, qualifiers, index);
    }
}

} // verus!

verus! {

broadcast use vstd::std_specs::hash::group_hash_axioms;

/// Entering a type iterator under the number of its type is entering it
/// under the type.
proof fn lemma_by_type_insert(table: Map<u64, IteratorFn>, type_id: TypeId, func: IteratorFn)
    ensures
        by_type(table.insert(type_id.id, func)) == by_type(table).insert(type_id, func),
{
    assert forall|t: TypeId| #[trigger]
        by_type(table.insert(type_id.id, func)).contains_key(t) == by_type(table).insert(
            type_id,
            func,
        ).contains_key(t) by {
        assert(t.id == type_id.id <==> t == type_id);
    }
    assert(by_type(table.insert(type_id.id, func)) =~= by_type(table).insert(type_id, func));
}

/// Enters the variables of one module.
fn enter_variables(
    module: &Module,
    qualifiers: &Vec<&str>,
    variables: &mut HashMap<u64, Dynamic>,
)
    ensures
        final(variables)@ == index_variables(
            module.variables(),
            str_views(qualifiers@),
            old(variables)@,
        ),
{
    let mut i: usize = 0;
    assert(module.variables().take(0) =~= Seq::empty());
    while i < module.variables.len()
        invariant
            i <= module.variables@.len(),
            variables@ == index_variables(
                module.variables().take(i as int),
                str_views(qualifiers@),
                old(variables)@,
            ),
        decreases module.variables@.len() - i,
    {
        assert(module.variables().take(i + 1).drop_last() == module.variables().take(i as int));
        let entry = &module.variables[i];
        let hash_var = hash_script(qualifiers.as_slice(), entry.key.as_str(), 0);
        variables.insert(hash_var, entry.value.clone());
        i += 1;
    }
    assert(module.variables().take(i as int) == module.variables());
}

/// Enters the type iterators of one module.
fn enter_iterators(module: &Module, type_iterators: &mut HashMap<u64, IteratorFn>)
    ensures
        by_type(final(type_iterators)@) == index_iterators(
            module.iterators(),
            by_type(old(type_iterators)@),
        ),
{
    let mut i: usize = 0;
    assert(module.iterators().take(0) =~= Seq::empty());
    while i < module.type_iterators.len()
        invariant
            i <= module.type_iterators@.len(),
            by_type(type_iterators@) == index_iterators(
                module.iterators().take(i as int),
                by_type(old(type_iterators)@),
            ),
        decreases module.type_iterators@.len() - i,
    {
        assert(module.iterators().take(i + 1).drop_last() == module.iterators().take(i as int));
        let entry = &module.type_iterators[i];
        proof {
            lemma_by_type_insert(type_iterators@, entry.key, entry.value);
        }
        type_iterators.insert(entry.key.id, entry.value.clone());
        i += 1;
    }
    assert(module.iterators().take(i as int) == module.iterators());
}

/// Enters the public functions of one module.
fn enter_functions(
    module: &Module,
    qualifiers: &Vec<&str>,
    functions: &mut HashMap<u64, CallableFunction>,
)
    ensures
        final(functions)@ == index_functions(
            module.functions(),
            str_views(qualifiers@),
            old(functions)@,
        ),
{
    let mut i: usize = 0;
    assert(module.functions().take(0) =~= Seq::empty());
    while i < module.functions.len()
        invariant
            i <= module.functions@.len(),
            functions@ == index_functions(
                module.functions().take(i as int),
                str_views(qualifiers@),
                old(functions)@,
            ),
        decreases module.functions@.len() - i,
    {
        assert(module.functions().take(i + 1).drop_last() == module.functions().take(i as int));
        let entry = &module.functions[i];
        let info = &entry.value;
        assert(module.functions()[i as int] == (entry.key, info@));
        if info.access.is_public() {
            // Functions of the global namespace are reachable without
            // qualification.
            if info.namespace.is_global() {
                functions.insert(entry.key, info.func.clone());
            }
            // Qualifiers + function name + number of arguments.
            let hash_qualified_script = hash_script(
                qualifiers.as_slice(),
                info.name.as_str(),
                info.params,
            );
            if !info.func.is_script() {
                // Native code is told apart by its parameter types: the
                // hash of name and types is folded into the first.
                let hash_fn_args = hash_native_args(
                    info.name.as_str(),
                    info.param_types.as_slice(),
                );
                let hash_qualified_fn = combine_hashes(hash_qualified_script, hash_fn_args);
                functions.insert(hash_qualified_fn, info.func.clone());
            } else {
                functions.insert(hash_qualified_script, info.func.clone());
            }
        }
        i += 1;
    }
    assert(module.functions().take(i as int) == module.functions());
}

/// Enters the tree of `module` under `qualifiers`.
fn index_module<'a>(
    module: &'a Module,
    qualifiers: &mut Vec<&'a str>,
    variables: &mut HashMap<u64, Dynamic>,
    functions: &mut HashMap<u64, CallableFunction>,
    type_iterators: &mut HashMap<u64, IteratorFn>,
)
    ensures
        final(qualifiers)@ == old(qualifiers)@,
        (FlatIndex {
            variables: final(variables)@,
            functions: final(functions)@,
            iterators: by_type(final(type_iterators)@),
        }) == module.index_into(
            str_views(old(qualifiers)@),
            FlatIndex {
                variables: old(variables)@,
                functions: old(functions)@,
                iterators: by_type(old(type_iterators)@),
            },
        ),
    decreases module,
{
    let ghost path = str_views(qualifiers@);
    let ghost start = FlatIndex {
        variables: variables@,
        functions: functions@,
        iterators: by_type(type_iterators@),
    };
    // Index all the sub-modules first.
    let mut i: usize = 0;
    while i < module.modules.len()
        invariant
            i <= module.modules@.len(),
            module.modules@.len() == module.sub_modules().len(),
            qualifiers@ == old(qualifiers)@,
            path == str_views(qualifiers@),
            (FlatIndex {
                variables: variables@,
                functions: functions@,
                iterators: by_type(type_iterators@),
            }) == module.index_sub_modules(i as nat, path, start),
        decreases module.modules@.len() - i,
    {
        let sub = &module.modules[i];
        assert(module.sub_modules()[i as int] == (sub.key@, sub.value));
        qualifiers.push(sub.key.as_str());
        assert(str_views(qualifiers@) =~= path.push(sub.key@));
        index_module(&sub.value, qualifiers, variables, functions, type_iterators);
        qualifiers.pop();
        assert(qualifiers@ =~= old(qualifiers)@);
        i += 1;
    }
    enter_variables(module, qualifiers, variables);
    enter_iterators(module, type_iterators);
    enter_functions(module, qualifiers, functions);
}

impl Module {
    /// Scan through all the sub-modules in the module and build a hash
    /// index of all variables, functions and type iterators as one
    /// flattened namespace.
    ///
    /// If the module is already indexed, this method has no effect.
    /// Otherwise the cache is rebuilt from nothing.
    pub fn build_index(&mut self) -> (ret: &mut Self)
        requires
            old(self).wf(),
        ensures
            *final(self) == *final(ret),
            ret.wf(),
            ret.is_indexed(),
            ret.same_contents(old(self)),
            ret.cache() == old(self).flat_index(),
            old(self).is_indexed() ==> *ret == *old(self),
    {
        if !self.indexed {
            let mut qualifiers: Vec<&str> = Vec::new();
            let mut variables: HashMap<u64, Dynamic> = HashMap::new();
            let mut functions: HashMap<u64, CallableFunction> = HashMap::new();
            let mut type_iterators: HashMap<u64, IteratorFn> = HashMap::new();

            qualifiers.push("root");
            assert(str_views(qualifiers@) =~= root_qualifiers());
            assert(by_type(type_iterators@) =~= Map::empty());

            index_module(
                self,
                &mut qualifiers,
                &mut variables,
                &mut functions,
                &mut type_iterators,
            );

            self.all_variables = variables;
            self.all_functions = functions;
            self.all_type_iterators = type_iterators;
            self.indexed = true;
            proof {
                lemma_index_depends_on_tables(old(self), self);
            }
        }
        self
    }
}

} // verus!

verus! {

/// Do the two say the same of a function as far as the index goes: all
/// but the parameter names?
pub open spec fn same_for_index(a: FuncInfoView, b: FuncInfoView) -> bool {
    &&& a.func == b.func
    &&& a.namespace == b.namespace
    &&& a.access == b.access
    &&& a.name == b.name
    &&& a.params == b.params
    &&& a.param_types == b.param_types
}

/// Parameter names are no part of the index.
pub proof fn lemma_index_functions_ignores_names(
    a: Seq<(u64, FuncInfoView)>,
    b: Seq<(u64, FuncInfoView)>,
    qualifiers: Seq<Seq<char>>,
    index: Map<u64, CallableFunction>,
)
    requires
        a.len() == b.len(),
        forall|i: int|
            0 <= i < a.len() ==> (#[trigger] a[i]).0 == b[i].0 && same_for_index(a[i].1, b[i].1),
    ensures
        index_functions(a, qualifiers, index) == index_functions(b, qualifiers, index),
    decreases a.len(),
{
    if a.len() > 0 {
        assert forall|i: int| 0 <= i < a.drop_last().len() implies (#[trigger] a.drop_last()[i]).0
            == b.drop_last()[i].0 && same_for_index(a.drop_last()[i].1, b.drop_last()[i].1) by {
            assert(a.drop_last()[i] == a[i]);
        }
        lemma_index_functions_ignores_names(a.drop_last(), b.drop_last(), qualifiers, index);
        assert(a[a.len() - 1].0 == b[a.len() - 1].0);
    }
}

/// Two modules that differ in the parameter names of their functions
/// only have the same index.
pub proof fn lemma_index_ignores_names(a: &Module, b: &Module)
    requires
        a.sub_modules() == b.sub_modules(),
        a.variables() == b.variables(),
        a.iterators() == b.iterators(),
        a.functions().len() == b.functions().len(),
        forall|i: int|
            0 <= i < a.functions().len() ==> (#[trigger] a.functions()[i]).0 == b.functions()[i].0
                && same_for_index(a.functions()[i].1, b.functions()[i].1),
    ensures
        a.flat_index() == b.flat_index(),
{
    let q = root_qualifiers();
    lemma_index_sub_modules_depends_on_table(a, b, a.sub_modules().len(), q, empty_index());
    let subs = a.index_sub_modules(a.sub_modules().len(), q, empty_index());
    lemma_index_functions_ignores_names(a.functions(), b.functions(), q, subs.functions);
}

} // verus!
