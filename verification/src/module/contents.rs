//! Sub-modules and type iterators of a module, and what it holds as a
//! whole.

use vstd::prelude::*;
use vstd::string::StringExecFns;
use std::sync::Arc;
use crate::fn_native::IteratorFn;
use crate::module::Module;
use crate::module::function_pairs;
use crate::module::index;
use crate::module::info::FuncInfo;
use crate::table::Entry;
use crate::table::contains_key;
use crate::table::copy_entries;
use crate::table::find;
use crate::table::lemma_position;
use crate::table::lemma_upsert;
use crate::table::lookup;
use crate::table::pairs;
use crate::table::put;
use crate::table::upsert;
use crate::value::Dynamic;
use crate::value::ImmutableString;
use crate::value::Shared;
use crate::value::TypeId;

verus! {

broadcast use vstd::std_specs::hash::group_hash_axioms;

impl Module {
    /// Does a sub-module exist in the module?
    pub fn contains_sub_module(&self, name: &str) -> (found: bool)
        ensures
            found == contains_key(self.sub_modules(), name@),
    {
        let key: ImmutableString = Arc::new(String::from_str(name));
        find(&self.modules, &key) < self.modules.len()
    }

    /// Get a sub-module in the module.
    pub fn get_sub_module(&self, name: &str) -> (module: Option<&Module>)
        ensures
            match module {
                Some(found) => lookup(self.sub_modules(), name@) == Some(Arc::new(*found)),
                None => lookup(self.sub_modules(), name@) is None,
            },
            self.wf() ==> (module matches Some(found) ==> found.wf()),
    {
        let key: ImmutableString = Arc::new(String::from_str(name));
        let at = find(&self.modules, &key);
        if at < self.modules.len() {
            let found: &Module = &self.modules[at].value;
            assert(self.sub_modules()[at as int].1 == self.modules@[at as int].value);
            Some(found)
        } else {
            None
        }
    }

    /// Set a sub-module into the module.  The sub-module stays shared with
    /// whoever else holds it.
    ///
    /// If there is an existing sub-module of the same name, it is
    /// replaced.
    pub fn set_sub_module(&mut self, name: &str, sub_module: Shared<Module>) -> (ret: &mut Self)
        requires
            old(self).wf(),
            sub_module.wf(),
        ensures
            *final(self) == *final(ret),
            ret.wf(),
            ret.sub_modules() == upsert(old(self).sub_modules(), name@, sub_module),
            ret.id_view() == old(self).id_view(),
            ret.variables() == old(self).variables(),
            ret.functions() == old(self).functions(),
            ret.iterators() == old(self).iterators(),
            ret.cache() == index::empty_index(),
            !ret.is_indexed(),
    {
        self.invalidate();
        put(&mut self.modules, Arc::new(String::from_str(name)), sub_module);
        proof {
            lemma_upsert(old(self).sub_modules(), name@, sub_module);
            lemma_position(old(self).sub_modules(), name@);
            assert forall|i: int| 0 <= i < self.sub_modules().len() implies (
            #[trigger] self.sub_modules()[i]).1.wf() by {
                if i < old(self).sub_modules().len() && i != crate::table::position(
                    old(self).sub_modules(),
                    name@,
                ) {
                    assert(self.sub_modules()[i] == old(self).sub_modules()[i]);
                }
            }
        }
        self
    }

    /// Get the number of variables, functions and type iterators in the
    /// module.
    pub fn count(&self) -> (count: (usize, usize, usize))
        ensures
            count.0 == self.variables().len(),
            count.1 == self.functions().len(),
            count.2 == self.iterators().len(),
    {
        (self.variables.len(), self.functions.len(), self.type_iterators.len())
    }

    /// Get the sub-modules in the module, each with its name, in table
    /// order.
    pub fn iter_sub_modules(&self) -> (modules: Vec<(&str, Shared<Module>)>)
        ensures
            modules@.len() == self.sub_modules().len(),
            forall|i: int|
                0 <= i < modules@.len() ==> ((#[trigger] modules@[i]).0@, modules@[i].1)
                    == self.sub_modules()[i],
    {
        let mut modules: Vec<(&str, Shared<Module>)> = Vec::new();
        let mut i: usize = 0;
        while i < self.modules.len()
            invariant
                i <= self.modules@.len(),
                modules@.len() == i,
                forall|j: int|
                    0 <= j < i ==> ((#[trigger] modules@[j]).0@, modules@[j].1)
                        == self.sub_modules()[j],
            decreases self.modules@.len() - i,
        {
            let entry = &self.modules[i];
            modules.push((entry.key.as_str(), entry.value.clone()));
            i += 1;
        }
        modules
    }

    /// Get the variables in the module, each with its name, in table
    /// order.
    pub fn iter_var(&self) -> (variables: Vec<(&str, &Dynamic)>)
        ensures
            variables@.len() == self.variables().len(),
            forall|i: int|
                0 <= i < variables@.len() ==> ((#[trigger] variables@[i]).0@, *variables@[i].1)
                    == self.variables()[i],
    {
        let mut variables: Vec<(&str, &Dynamic)> = Vec::new();
        let mut i: usize = 0;
        while i < self.variables.len()
            invariant
                i <= self.variables@.len(),
                variables@.len() == i,
                forall|j: int|
                    0 <= j < i ==> ((#[trigger] variables@[j]).0@, *variables@[j].1)
                        == self.variables()[j],
            decreases self.variables@.len() - i,
        {
            let entry = &self.variables[i];
            variables.push((entry.key.as_str(), &entry.value));
            i += 1;
        }
        variables
    }

    /// Does a type iterator exist in the cache, that is anywhere in the
    /// indexed module tree?
    pub fn contains_qualified_iter(&self, id: TypeId) -> (found: bool)
        ensures
            found == self.cache().iterators.contains_key(id),
    {
        self.all_type_iterators.contains_key(&id.id)
    }

    /// Does a type iterator exist in the module itself?
    pub fn contains_iter(&self, id: TypeId) -> (found: bool)
        ensures
            found == contains_key(self.iterators(), id),
    {
        find(&self.type_iterators, &id) < self.type_iterators.len()
    }

    /// Set a type iterator into the module.
    ///
    /// If there is an existing iterator for the same type, it is replaced.
    pub fn set_iter(&mut self, typ: TypeId, func: IteratorFn) -> (ret: &mut Self)
        requires
            old(self).wf(),
        ensures
            *final(self) == *final(ret),
            ret.wf(),
            ret.iterators() == upsert(old(self).iterators(), typ, func),
            ret.id_view() == old(self).id_view(),
            ret.sub_modules() == old(self).sub_modules(),
            ret.variables() == old(self).variables(),
            ret.functions() == old(self).functions(),
            ret.cache() == index::empty_index(),
            !ret.is_indexed(),
    {
        self.invalidate();
        put(&mut self.type_iterators, typ, func);
        proof {
            lemma_upsert(old(self).iterators(), typ, func);
        }
        self
    }

    /// Get the specified type iterator from the cache.
    pub fn get_qualified_iter(&self, id: TypeId) -> (func: Option<IteratorFn>)
        ensures
            match func {
                Some(found) => self.cache().iterators.contains_key(id) && found
                    == self.cache().iterators[id],
                None => !self.cache().iterators.contains_key(id),
            },
    {
        match self.all_type_iterators.get(&id.id) {
            Some(found) => Some(found.clone()),
            None => None,
        }
    }

    /// Get the specified type iterator of the module itself.
    pub fn get_iter(&self, id: TypeId) -> (func: Option<IteratorFn>)
        ensures
            func == lookup(self.iterators(), id),
    {
        let at = find(&self.type_iterators, &id);
        if at < self.type_iterators.len() {
            Some(self.type_iterators[at].value.clone())
        } else {
            None
        }
    }
}

/// A copy of a table of functions.
pub(crate) fn copy_functions(entries: &Vec<Entry<u64, FuncInfo>>) -> (copy: Vec<
    Entry<u64, FuncInfo>,
>)
    ensures
        function_pairs(copy@) == function_pairs(entries@),
{
    let mut copy: Vec<Entry<u64, FuncInfo>> = Vec::new();
    let mut i: usize = 0;
    while i < entries.len()
        invariant
            i <= entries@.len(),
            function_pairs(copy@) == function_pairs(entries@).take(i as int),
        decreases entries@.len() - i,
    {
        let ghost before = function_pairs(copy@);
        copy.push(Entry { key: entries[i].key, value: entries[i].value.clone() });
        assert(function_pairs(copy@) =~= before.push(function_pairs(entries@)[i as int]));
        assert(before.push(function_pairs(entries@)[i as int]) =~= function_pairs(entries@).take(
            i + 1,
        ));
        i += 1;
    }
    assert(function_pairs(entries@).take(i as int) == function_pairs(entries@));
    copy
}

impl Clone for Module {
    /// A module with copies of the tables and of the cache.  The
    /// sub-modules are not copied: both modules share them.
    fn clone(&self) -> (copy: Self)
        ensures
            copy.same_contents(self),
            copy.cache() == self.cache(),
            copy.is_indexed() == self.is_indexed(),
            self.wf() ==> copy.wf(),
    {
        let copy = Module {
            id: match &self.id {
                Some(id) => Some(id.clone()),
                None => None,
            },
            modules: copy_entries(&self.modules),
            variables: copy_entries(&self.variables),
            all_variables: self.all_variables.clone(),
            functions: copy_functions(&self.functions),
            all_functions: self.all_functions.clone(),
            type_iterators: copy_entries(&self.type_iterators),
            all_type_iterators: self.all_type_iterators.clone(),
            indexed: self.indexed,
        };
        proof {
            index::lemma_index_depends_on_tables(self, &copy);
        }
        copy
    }
}

} // verus!

verus! {

impl Module {
    /// Get a mutable reference to the table of sub-modules.
    ///
    /// Whoever asks for it is taken to change the sub-modules: the cache
    /// is emptied at once.  The module is well-formed again when the
    /// reference is given up if no name occurs twice in the table then
    /// and every sub-module in it is well-formed.
    pub fn sub_modules_mut(&mut self) -> (table: &mut Vec<Entry<ImmutableString, Shared<Module>>>)
        requires
            old(self).wf(),
        ensures
            pairs(table@) == old(self).sub_modules(),
            final(self).sub_modules() == pairs(final(table)@),
            final(self).id_view() == old(self).id_view(),
            final(self).variables() == old(self).variables(),
            final(self).functions() == old(self).functions(),
            final(self).iterators() == old(self).iterators(),
            final(self).cache() == index::empty_index(),
            !final(self).is_indexed(),
            crate::table::distinct_keys(pairs(final(table)@)) && crate::module::merge::all_wf(
                pairs(final(table)@),
            ) ==> final(self).wf(),
    {
        self.invalidate();
        &mut self.modules
    }
}

impl Default for Module {
    /// A new module that holds nothing.
    fn default() -> (module: Self)
        ensures
            module.wf(),
            module.holds_nothing(),
            module.id_view() is None,
            !module.is_indexed(),
    {
        Module::new()
    }
}

} // verus!
