//! What the index of a module tree holds.

use vstd::prelude::*;
use crate::fn_native::CallableFunction;
use crate::hash::script_hash;
use crate::module::Module;
use crate::module::index::FlatIndex;
use crate::module::index::empty_index;
use crate::module::index::index_function;
use crate::module::index::index_functions;
use crate::module::index::index_variables;
use crate::module::index::qualified_key;
use crate::module::index::root_qualifiers;
use crate::module::info::FuncInfoView;
use crate::value::Dynamic;

verus! {

/// Entering functions takes no key out of the index.
pub proof fn lemma_index_functions_keeps(
    functions: Seq<(u64, FuncInfoView)>,
    qualifiers: Seq<Seq<char>>,
    index: Map<u64, CallableFunction>,
    key: u64,
)
    requires
        index.contains_key(key),
    ensures
        index_functions(functions, qualifiers, index).contains_key(key),
    decreases functions.len(),
{
    if functions.len() > 0 {
        lemma_index_functions_keeps(functions.drop_last(), qualifiers, index, key);
    }
}

/// Every public function that is entered stands under its qualified key
/// afterwards, and one of the global namespace under the hash it is
/// registered under as well.
pub proof fn lemma_index_functions_enters(
    functions: Seq<(u64, FuncInfoView)>,
    qualifiers: Seq<Seq<char>>,
    index: Map<u64, CallableFunction>,
    at: int,
)
    requires
        0 <= at < functions.len(),
        functions[at].1.access.is_public(),
    ensures
        index_functions(functions, qualifiers, index).contains_key(
            qualified_key(functions[at].1, qualifiers),
        ),
        functions[at].1.namespace.is_global() ==> index_functions(
            functions,
            qualifiers,
            index,
        ).contains_key(functions[at].0),
    decreases functions.len(),
{
    let before = index_functions(functions.drop_last(), qualifiers, index);
    if at < functions.len() - 1 {
        lemma_index_functions_enters(functions.drop_last(), qualifiers, index, at);
        let last = functions.last();
        assert(functions.drop_last()[at] == functions[at]);
        let entered = index_function(last.0, last.1, qualifiers, before);
        assert(forall|key: u64| before.contains_key(key) ==> entered.contains_key(key));
    }
}

/// Entering variables takes no key out of the index.
pub proof fn lemma_index_variables_keeps(
    variables: Seq<(Seq<char>, Dynamic)>,
    qualifiers: Seq<Seq<char>>,
    index: Map<u64, Dynamic>,
    key: u64,
)
    requires
        index.contains_key(key),
    ensures
        index_variables(variables, qualifiers, index).contains_key(key),
    decreases variables.len(),
{
    if variables.len() > 0 {
        lemma_index_variables_keeps(variables.drop_last(), qualifiers, index, key);
    }
}

/// Every variable that is entered stands under the script-style hash of
/// its qualified name afterwards.
pub proof fn lemma_index_variables_enters(
    variables: Seq<(Seq<char>, Dynamic)>,
    qualifiers: Seq<Seq<char>>,
    index: Map<u64, Dynamic>,
    at: int,
)
    requires
        0 <= at < variables.len(),
    ensures
        index_variables(variables, qualifiers, index).contains_key(
            script_hash(qualifiers, variables[at].0, 0),
        ),
    decreases variables.len(),
{
    if at < variables.len() - 1 {
        lemma_index_variables_enters(variables.drop_last(), qualifiers, index, at);
        assert(variables.drop_last()[at] == variables[at]);
    }
}

impl Module {
    /// Entering sub-modules takes no function out of the index.
    pub proof fn lemma_index_sub_modules_keeps(
        &self,
        count: nat,
        qualifiers: Seq<Seq<char>>,
        index: FlatIndex,
        key: u64,
    )
        requires
            index.functions.contains_key(key),
        ensures
            self.index_sub_modules(count, qualifiers, index).functions.contains_key(key),
        decreases self, 0nat, count,
    {
        if count > 0 && count <= self.sub_modules().len() {
            self.lemma_index_sub_modules_keeps((count - 1) as nat, qualifiers, index, key);
            let before = self.index_sub_modules((count - 1) as nat, qualifiers, index);
            let sub = self.sub_modules()[count - 1];
            sub.1.lemma_index_into_keeps(qualifiers.push(sub.0), before, key);
        }
    }

    /// Entering a module tree takes no function out of the index.
    pub proof fn lemma_index_into_keeps(
        &self,
        qualifiers: Seq<Seq<char>>,
        index: FlatIndex,
        key: u64,
    )
        requires
            index.functions.contains_key(key),
        ensures
            self.index_into(qualifiers, index).functions.contains_key(key),
        decreases self, 1nat, 0nat,
    {
        self.lemma_index_sub_modules_keeps(self.sub_modules().len(), qualifiers, index, key);
        let subs = self.index_sub_modules(self.sub_modules().len(), qualifiers, index);
        lemma_index_functions_keeps(self.functions(), qualifiers, subs.functions, key);
    }

    /// A key that is in the index after `from` sub-modules are entered is
    /// in it after any greater number of them is.
    pub proof fn lemma_index_sub_modules_keeps_from(
        &self,
        from: nat,
        count: nat,
        qualifiers: Seq<Seq<char>>,
        index: FlatIndex,
        key: u64,
    )
        requires
            from <= count <= self.sub_modules().len(),
            self.index_sub_modules(from, qualifiers, index).functions.contains_key(key),
        ensures
            self.index_sub_modules(count, qualifiers, index).functions.contains_key(key),
        decreases count,
    {
        if from < count {
            self.lemma_index_sub_modules_keeps_from(
                from,
                (count - 1) as nat,
                qualifiers,
                index,
                key,
            );
            let before = self.index_sub_modules((count - 1) as nat, qualifiers, index);
            let sub = self.sub_modules()[count - 1];
            sub.1.lemma_index_into_keeps(qualifiers.push(sub.0), before, key);
        }
    }

    /// A public function of the module itself is in the index of the
    /// module under its qualified key, and one of the global namespace
    /// under the hash it is registered under as well.
    pub proof fn lemma_own_function_indexed(&self, at: int)
        requires
            0 <= at < self.functions().len(),
            self.functions()[at].1.access.is_public(),
        ensures
            self.flat_index().functions.contains_key(
                qualified_key(self.functions()[at].1, root_qualifiers()),
            ),
            self.functions()[at].1.namespace.is_global()
                ==> self.flat_index().functions.contains_key(self.functions()[at].0),
    {
        let subs = self.index_sub_modules(
            self.sub_modules().len(),
            root_qualifiers(),
            empty_index(),
        );
        lemma_index_functions_enters(self.functions(), root_qualifiers(), subs.functions, at);
    }

    /// A public function of a sub-module is in the index of the module
    /// that holds the sub-module: under its qualified key, with the name
    /// of the sub-module as qualifier, and if it is of the global
    /// namespace also under the hash it is registered under, without any
    /// qualifier.
    pub proof fn lemma_sub_module_function_indexed(&self, sub: int, at: int)
        requires
            0 <= sub < self.sub_modules().len(),
            0 <= at < self.sub_modules()[sub].1.functions().len(),
            self.sub_modules()[sub].1.functions()[at].1.access.is_public(),
        ensures
            ({
                let name = self.sub_modules()[sub].0;
                let function = self.sub_modules()[sub].1.functions()[at];
                &&& self.flat_index().functions.contains_key(
                    qualified_key(function.1, root_qualifiers().push(name)),
                )
                &&& function.1.namespace.is_global() ==> self.flat_index().functions.contains_key(
                    function.0,
                )
            }),
    {
        let name = self.sub_modules()[sub].0;
        let module = self.sub_modules()[sub].1;
        let function = module.functions()[at];
        let path = root_qualifiers().push(name);
        let before = self.index_sub_modules(sub as nat, root_qualifiers(), empty_index());
        let inner = module.index_sub_modules(module.sub_modules().len(), path, before);
        lemma_index_functions_enters(module.functions(), path, inner.functions, at);
        let qualified = qualified_key(function.1, path);
        let count = self.sub_modules().len();
        assert(self.index_sub_modules((sub + 1) as nat, root_qualifiers(), empty_index())
            == module.index_into(path, before));
        self.lemma_index_sub_modules_keeps_from(
            (sub + 1) as nat,
            count,
            root_qualifiers(),
            empty_index(),
            qualified,
        );
        let subs = self.index_sub_modules(count, root_qualifiers(), empty_index());
        lemma_index_functions_keeps(self.functions(), root_qualifiers(), subs.functions, qualified);
        if function.1.namespace.is_global() {
            self.lemma_index_sub_modules_keeps_from(
                (sub + 1) as nat,
                count,
                root_qualifiers(),
                empty_index(),
                function.0,
            );
            lemma_index_functions_keeps(
                self.functions(),
                root_qualifiers(),
                subs.functions,
                function.0,
            );
        }
    }

    /// A variable of the module itself is in the index of the module
    /// under the script-style hash of its name.
    pub proof fn lemma_own_variable_indexed(&self, at: int)
        requires
            0 <= at < self.variables().len(),
        ensures
            self.flat_index().variables.contains_key(
                script_hash(root_qualifiers(), self.variables()[at].0, 0),
            ),
    {
        let subs = self.index_sub_modules(
            self.sub_modules().len(),
            root_qualifiers(),
            empty_index(),
        );
        lemma_index_variables_enters(self.variables(), root_qualifiers(), subs.variables, at);
    }
}

} // verus!
