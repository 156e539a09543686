//! Modules: namespaces of variables, functions, sub-modules and type
//! iterators.
//!
//! A [`Module`] owns four direct tables and caches a flattened index of
//! the whole tree below it.  Every change of a direct table empties the
//! cache; only [`Module::build_index`] fills it again.

use vstd::prelude::*;
use vstd::string::StringExecFns;
use std::collections::HashMap;
use std::sync::Arc;
use crate::error::EvalAltResult;
use crate::error::Position;
use crate::fn_native::CallableFunction;
use crate::fn_native::IteratorFn;
use crate::table::Entry;
use crate::table::Share;
use crate::table::contains_key;
use crate::table::distinct_keys;
use crate::table::find;
use crate::table::lemma_upsert;
use crate::table::lookup;
use crate::table::pairs;
use crate::table::put;
use crate::table::upsert;
use crate::value::Dynamic;
use crate::value::ImmutableString;
use crate::value::Shared;
use crate::value::TypeId;
use crate::value::Variant;

pub mod contents;
pub mod eval;
pub mod functions;
pub mod index;
pub mod info;
pub mod iterable;
pub mod laws;
pub mod merge;
pub mod register;

pub use index::FlatIndex;
pub use info::FnNamespace;
pub use info::FuncInfo;
pub use info::FuncInfoView;

verus! {

broadcast use vstd::std_specs::hash::group_hash_axioms;

/// A module which may contain variables, sub-modules, native functions,
/// script-defined functions and type iterators.
pub struct Module {
    /// ID identifying the module.
    id: Option<ImmutableString>,
    /// Sub-modules.
    modules: Vec<Entry<ImmutableString, Shared<Module>>>,
    /// Module variables.
    variables: Vec<Entry<ImmutableString, Dynamic>>,
    /// Flattened collection of all variables, including those in
    /// sub-modules.
    all_variables: HashMap<u64, Dynamic>,
    /// Functions, native or scripted.
    functions: Vec<Entry<u64, FuncInfo>>,
    /// Flattened collection of all public functions, including those in
    /// sub-modules.
    all_functions: HashMap<u64, CallableFunction>,
    /// Iterator functions, keyed by the type producing the iterator.
    type_iterators: Vec<Entry<TypeId, IteratorFn>>,
    /// Flattened collection of iterator functions, including those in
    /// sub-modules, keyed by the number of the type.
    all_type_iterators: HashMap<u64, IteratorFn>,
    /// Is the module indexed?
    indexed: bool,
}

impl Share for Dynamic {
    fn share(&self) -> (r: Self) {
        self.clone()
    }
}

impl<T> Share for Arc<T> {
    fn share(&self) -> (r: Self) {
        self.clone()
    }
}

/// The pairs of a function table, each function by its view.
pub open spec fn function_pairs(entries: Seq<Entry<u64, FuncInfo>>) -> Seq<(u64, FuncInfoView)> {
    entries.map_values(|e: Entry<u64, FuncInfo>| (e.key, e.value@))
}

/// A table of type iterators as a map from types.
pub open spec fn by_type(table: Map<u64, IteratorFn>) -> Map<TypeId, IteratorFn> {
    Map::new(|t: TypeId| table.contains_key(t.id), |t: TypeId| table[t.id])
}

impl Module {
    /// The ID, if any.
    pub closed spec fn id_view(&self) -> Option<Seq<char>> {
        match self.id {
            Some(id) => Some(id@),
            None => None,
        }
    }

    /// The sub-modules, in the order in which their names were first set.
    pub closed spec fn sub_modules(&self) -> Seq<(Seq<char>, Shared<Module>)> {
        pairs(self.modules@)
    }

    /// The variables, in the order in which their names were first set.
    pub closed spec fn variables(&self) -> Seq<(Seq<char>, Dynamic)> {
        pairs(self.variables@)
    }

    /// The functions with their hashes, in the order in which the hashes
    /// were first set.
    pub closed spec fn functions(&self) -> Seq<(u64, FuncInfoView)> {
        function_pairs(self.functions@)
    }

    /// The type iterators, in the order in which their types were first
    /// set.
    pub closed spec fn iterators(&self) -> Seq<(TypeId, IteratorFn)> {
        pairs(self.type_iterators@)
    }

    /// The cached flattened index.
    pub closed spec fn cache(&self) -> FlatIndex {
        FlatIndex {
            variables: self.all_variables@,
            functions: self.all_functions@,
            iterators: by_type(self.all_type_iterators@),
        }
    }

    /// Is the cached index that of the tree as it stands?
    pub closed spec fn spec_is_indexed(&self) -> bool {
        self.indexed
    }

    /// The cache is the index of the tree if the module is indexed, and
    /// empty if it is not: nothing stale is ever in it.
    pub open spec fn cache_wf(&self) -> bool {
        if self.is_indexed() {
            self.cache() == self.flat_index()
        } else {
            self.cache() == index::empty_index()
        }
    }

    /// Well-formedness of a module tree: no table holds a key twice, the
    /// cache is as [`Module::cache_wf`] says, and every sub-module is
    /// well-formed.
    pub open spec fn wf(&self) -> bool
        decreases self,
    {
        &&& distinct_keys(self.sub_modules())
        &&& distinct_keys(self.variables())
        &&& distinct_keys(self.functions())
        &&& distinct_keys(self.iterators())
        &&& self.cache_wf()
        &&& forall|i: int|
            0 <= i < self.sub_modules().len() ==> (#[trigger] self.sub_modules()[i]).1.wf()
    }

    /// Do the two modules hold the same ID and the same direct tables?
    pub open spec fn same_contents(&self, other: &Module) -> bool {
        &&& self.id_view() == other.id_view()
        &&& self.sub_modules() == other.sub_modules()
        &&& self.variables() == other.variables()
        &&& self.functions() == other.functions()
        &&& self.iterators() == other.iterators()
    }

    /// Does the module hold nothing in its direct tables?
    pub open spec fn holds_nothing(&self) -> bool {
        &&& self.sub_modules().len() == 0
        &&& self.variables().len() == 0
        &&& self.functions().len() == 0
        &&& self.iterators().len() == 0
    }

    /// Create a new module.
    pub fn new() -> (module: Module)
        ensures
            module.wf(),
            module.holds_nothing(),
            module.id_view() is None,
            !module.is_indexed(),
    {
        Module::new_with_capacity(64)
    }

    /// Create a new module with a specified capacity for functions.
    pub fn new_with_capacity(capacity: usize) -> (module: Module)
        ensures
            module.wf(),
            module.holds_nothing(),
            module.id_view() is None,
            !module.is_indexed(),
    {
        let module = Module {
            id: None,
            modules: Vec::new(),
            variables: Vec::new(),
            all_variables: HashMap::new(),
            functions: Vec::with_capacity(capacity),
            all_functions: HashMap::new(),
            type_iterators: Vec::new(),
            all_type_iterators: HashMap::new(),
            indexed: false,
        };
        assert(module.cache().iterators =~= Map::empty());
        module
    }

    /// Get the ID of the module, if any.
    pub fn id(&self) -> (id: Option<&str>)
        ensures
            match id {
                Some(text) => self.id_view() == Some(text@),
                None => self.id_view() is None,
            },
    {
        match &self.id {
            Some(id) => Some(id.as_str()),
            None => None,
        }
    }

    /// Get the ID of the module as an immutable string, if any.
    pub fn id_raw(&self) -> (id: Option<&ImmutableString>)
        ensures
            match id {
                Some(text) => self.id_view() == Some(text@),
                None => self.id_view() is None,
            },
    {
        self.id.as_ref()
    }

    /// Set the ID of the module.  The ID is no part of the index, which
    /// stays as it is.
    pub fn set_id(&mut self, id: Option<&str>)
        requires
            old(self).wf(),
        ensures
            final(self).wf(),
            match id {
                Some(text) => final(self).id_view() == Some(text@),
                None => final(self).id_view() is None,
            },
            final(self).sub_modules() == old(self).sub_modules(),
            final(self).variables() == old(self).variables(),
            final(self).functions() == old(self).functions(),
            final(self).iterators() == old(self).iterators(),
            final(self).cache() == old(self).cache(),
            final(self).is_indexed() == old(self).is_indexed(),
    {
        self.id = match id {
            Some(text) => Some(Arc::new(String::from_str(text))),
            None => None,
        };
        proof {
            index::lemma_index_depends_on_tables(old(self), self);
        }
    }

    /// Is the module empty: does it hold nothing, in its direct tables and
    /// in its cache?
    pub fn is_empty(&self) -> (empty: bool)
        ensures
            empty == (self.holds_nothing() && self.cache() == index::empty_index()),
    {
        let empty = self.functions.len() == 0 && self.all_functions.is_empty()
            && self.variables.len() == 0 && self.all_variables.is_empty() && self.modules.len()
            == 0 && self.type_iterators.len() == 0 && self.all_type_iterators.is_empty();
        proof {
            if self.all_type_iterators@.is_empty() {
                assert(self.cache().iterators =~= Map::empty());
            } else {
                let k = choose|k: u64| self.all_type_iterators@.contains_key(k);
                assert(self.cache().iterators.contains_key(TypeId { id: k }));
            }
            if self.all_functions@.is_empty() {
                assert(self.all_functions@ =~= Map::empty());
            }
            if self.all_variables@.is_empty() {
                assert(self.all_variables@ =~= Map::empty());
            }
        }
        empty
    }

    /// Is the module indexed?
    #[verifier::when_used_as_spec(spec_is_indexed)]
    pub fn is_indexed(&self) -> (indexed: bool)
        ensures
            indexed == self.spec_is_indexed(),
    {
        self.indexed
    }

    /// Empties the cache and marks the module as not indexed.
    fn invalidate(&mut self)
        ensures
            final(self).same_contents(old(self)),
            final(self).cache() == index::empty_index(),
            !final(self).is_indexed(),
            final(self).modules == old(self).modules,
            final(self).variables == old(self).variables,
            final(self).functions == old(self).functions,
            final(self).type_iterators == old(self).type_iterators,
            final(self).id == old(self).id,
    {
        self.all_functions.clear();
        self.all_variables.clear();
        self.all_type_iterators.clear();
        self.indexed = false;
        assert(self.cache().iterators =~= Map::empty());
    }

    /// Does a variable exist in the module?
    pub fn contains_var(&self, name: &str) -> (found: bool)
        ensures
            found == contains_key(self.variables(), name@),
    {
        let key: ImmutableString = Arc::new(String::from_str(name));
        find(&self.variables, &key) < self.variables.len()
    }

    /// Get the value of a module variable, cast to a type.  `None` where
    /// there is no such variable, and where its value is of another type.
    pub fn get_var_value<T: Variant>(&self, name: &str) -> (value: Option<T>)
        ensures
            value == match lookup(self.variables(), name@) {
                Some(held) => T::cast(held),
                None => None,
            },
    {
        match self.get_var(name) {
            Some(held) => T::try_cast(held),
            None => None,
        }
    }

    /// Get a module variable as a [`Dynamic`].
    pub fn get_var(&self, name: &str) -> (value: Option<Dynamic>)
        ensures
            value == lookup(self.variables(), name@),
    {
        let key: ImmutableString = Arc::new(String::from_str(name));
        let at = find(&self.variables, &key);
        if at < self.variables.len() {
            Some(self.variables[at].value.clone())
        } else {
            None
        }
    }

    /// Set a variable into the module.
    ///
    /// If there is an existing variable of the same name, it is replaced.
    pub fn set_var<T: Variant>(&mut self, name: &str, value: T) -> (ret: &mut Self)
        requires
            old(self).wf(),
        ensures
            *final(self) == *final(ret),
            ret.wf(),
            ret.variables() == upsert(old(self).variables(), name@, value.as_dynamic()),
            ret.id_view() == old(self).id_view(),
            ret.sub_modules() == old(self).sub_modules(),
            ret.functions() == old(self).functions(),
            ret.iterators() == old(self).iterators(),
            ret.cache() == index::empty_index(),
            !ret.is_indexed(),
    {
        self.invalidate();
        let held = value.into_dynamic();
        put(&mut self.variables, Arc::new(String::from_str(name)), held);
        proof {
            lemma_upsert(old(self).variables(), name@, held);
        }
        self
    }

    /// Get a namespace-qualified variable from the cache.  The error
    /// carries no name and no position: the caller fills them in.
    pub fn get_qualified_var(&self, hash_var: u64) -> (value: Result<&Dynamic, Box<EvalAltResult>>)
        ensures
            match value {
                Ok(held) => self.cache().variables.contains_key(hash_var) && *held
                    == self.cache().variables[hash_var],
                Err(error) => !self.cache().variables.contains_key(hash_var) && (*error
                    matches EvalAltResult::ErrorVariableNotFound(name, position) && name@.len()
                    == 0 && position == Position::none()),
            },
    {
        match self.all_variables.get(&hash_var) {
            Some(held) => Ok(held),
            None => Err(
                Box::new(EvalAltResult::ErrorVariableNotFound(String::new(), Position::none())),
            ),
        }
    }
}

} // verus!
