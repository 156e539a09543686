//! The table of functions of a module.

use vstd::prelude::*;
use vstd::string::StringExecFns;
use std::sync::Arc;
use crate::fn_native::CallableFunction;
use crate::fn_native::FnAccess;
use crate::fn_native::ScriptFnDef;
use crate::hash::hash_native_args;
use crate::hash::hash_script;
use crate::hash::native_hash;
use crate::hash::script_hash;
use crate::hash::str_views;
use crate::module::Module;
use crate::module::function_pairs;
use crate::module::index;
use crate::module::info::FnNamespace;
use crate::module::info::FuncInfo;
use crate::module::info::FuncInfoView;
use crate::module::info::signature_of;
use crate::module::info::string_views;
use crate::table::Entry;
use crate::table::contains_key;
use crate::table::find;
use crate::table::first_index;
use crate::table::lemma_first_index_is;
use crate::table::lemma_map_pairs_position;
use crate::table::lemma_map_pairs_upsert;
use crate::table::lemma_retain;
use crate::table::retain;
use crate::table::lemma_upsert;
use crate::table::lookup;
use crate::table::map_pairs;
use crate::table::pairs;
use crate::table::position;
use crate::table::put;
use crate::table::upsert;
use crate::value::ImmutableString;
use crate::value::Shared;
use crate::value::TypeId;
use crate::value::normalized_types;

verus! {

/// The views of a list of strings.
pub open spec fn owned_views(strings: Seq<String>) -> Seq<Seq<char>> {
    strings.map_values(|s: String| s@)
}

/// The name under which the return type of a script function is listed:
/// a script function can return a value of any type.
pub open spec fn script_return_type() -> Seq<char> {
    "Dynamic"@
}

/// What is registered for a native function.
pub open spec fn native_info(
    name: Seq<char>,
    namespace: FnNamespace,
    access: FnAccess,
    arg_names: Option<Seq<Seq<char>>>,
    arg_types: Seq<TypeId>,
    func: CallableFunction,
) -> FuncInfoView {
    FuncInfoView {
        func,
        namespace,
        access,
        name,
        params: arg_types.len() as usize,
        param_types: normalized_types(arg_types),
        param_names: match arg_names {
            Some(names) => names,
            None => Seq::empty(),
        },
    }
}

/// What is registered for a script function: it is internal to the
/// module, has the access mode of its definition and no parameter types,
/// and lists its parameter names with the return type behind them.
pub open spec fn script_info(definition: Shared<ScriptFnDef>) -> FuncInfoView {
    FuncInfoView {
        func: CallableFunction::Script(definition),
        namespace: FnNamespace::Internal,
        access: definition.access,
        name: definition.name@,
        params: definition.params@.len() as usize,
        param_types: Seq::empty(),
        param_names: owned_views(definition.params@).push(script_return_type()),
    }
}

/// Is this the script function that a search by name finds?
pub open spec fn is_script_fn_named(
    info: FuncInfoView,
    name: Seq<char>,
    num_params: usize,
    public_only: bool,
) -> bool {
    &&& info.func.is_script()
    &&& !public_only || info.access.is_public()
    &&& info.params == num_params
    &&& info.name == name
}

/// For each function, whether a search by name finds it.
pub open spec fn script_fn_matches(
    functions: Seq<(u64, FuncInfoView)>,
    name: Seq<char>,
    num_params: usize,
    public_only: bool,
) -> Seq<bool> {
    functions.map_values(
        |e: (u64, FuncInfoView)| is_script_fn_named(e.1, name, num_params, public_only),
    )
}

/// The signatures of the functions that are not private, in table order.
pub open spec fn public_signatures(functions: Seq<(u64, FuncInfoView)>) -> Seq<Seq<char>>
    decreases functions.len(),
{
    if functions.len() == 0 {
        Seq::empty()
    } else if functions.last().1.access.is_private() {
        public_signatures(functions.drop_last())
    } else {
        public_signatures(functions.drop_last()).push(signature_of(functions.last().1))
    }
}

/// The script functions among `functions`, in table order.
pub open spec fn script_functions(functions: Seq<(u64, FuncInfoView)>) -> Seq<FuncInfoView>
    decreases functions.len(),
{
    if functions.len() == 0 {
        Seq::empty()
    } else if functions.last().1.func.is_script() {
        script_functions(functions.drop_last()).push(functions.last().1)
    } else {
        script_functions(functions.drop_last())
    }
}

/// Does the row say what the function's metadata says?
pub open spec fn describes(
    row: (FnNamespace, FnAccess, String, usize),
    info: FuncInfoView,
) -> bool {
    &&& row.0 == info.namespace
    &&& row.1 == info.access
    &&& row.2@ == info.name
    &&& row.3 == info.params
}

/// Finds a function by its hash: the index of its entry, or the length of
/// the table.
pub(crate) fn find_function(entries: &Vec<Entry<u64, FuncInfo>>, key: u64) -> (i: usize)
    ensures
        i == position(function_pairs(entries@), key),
        i <= entries@.len(),
        i < entries@.len() ==> entries@[i as int].key == key,
{
    proof {
        lemma_map_pairs_position(pairs(entries@), |v: FuncInfo| v@, key);
        assert(function_pairs(entries@) =~= map_pairs(pairs(entries@), |v: FuncInfo| v@));
    }
    find(entries, &key)
}

/// Puts a function under its hash.
pub(crate) fn put_function(entries: &mut Vec<Entry<u64, FuncInfo>>, key: u64, info: FuncInfo)
    ensures
        function_pairs(final(entries)@) == upsert(function_pairs(old(entries)@), key, info@),
{
    put(entries, key, info);
    proof {
        let f = |v: FuncInfo| v@;
        lemma_map_pairs_upsert(pairs(old(entries)@), f, key, info);
        assert(function_pairs(entries@) =~= map_pairs(pairs(entries@), f));
        assert(function_pairs(old(entries)@) =~= map_pairs(pairs(old(entries)@), f));
    }
}

/// The names as immutable strings.
fn name_list(names: &[&str]) -> (list: Vec<ImmutableString>)
    ensures
        string_views(list@) == str_views(names@),
{
    let mut list: Vec<ImmutableString> = Vec::new();
    let mut i: usize = 0;
    while i < names.len()
        invariant
            i <= names@.len(),
            string_views(list@) == str_views(names@).take(i as int),
        decreases names@.len() - i,
    {
        let item: ImmutableString = Arc::new(String::from_str(names[i]));
        let ghost before = string_views(list@);
        list.push(item);
        assert(string_views(list@) =~= before.push(item@));
        assert(before.push(item@) =~= str_views(names@).take(i + 1));
        i += 1;
    }
    assert(str_views(names@).take(i as int) == str_views(names@));
    list
}

impl Module {
    /// Does the particular function exist in the module?  With
    /// `public_only`, a private function counts as absent.
    pub fn contains_fn(&self, hash_fn: u64, public_only: bool) -> (found: bool)
        ensures
            found == match lookup(self.functions(), hash_fn) {
                Some(info) => !public_only || info.access.is_public(),
                None => false,
            },
    {
        let at = find_function(&self.functions, hash_fn);
        if at < self.functions.len() {
            !public_only || self.functions[at].value.access.is_public()
        } else {
            false
        }
    }

    /// Get a function.  With `public_only`, a private function counts as
    /// absent.
    pub fn get_fn(&self, hash_fn: u64, public_only: bool) -> (func: Option<&CallableFunction>)
        ensures
            match lookup(self.functions(), hash_fn) {
                Some(info) => if !public_only || info.access.is_public() {
                    func == Some(&info.func)
                } else {
                    func is None
                },
                None => func is None,
            },
    {
        let at = find_function(&self.functions, hash_fn);
        if at < self.functions.len() {
            let info = &self.functions[at].value;
            if !public_only || info.access.is_public() {
                Some(&info.func)
            } else {
                None
            }
        } else {
            None
        }
    }

    /// Set a native function into the module, returning a hash key.
    ///
    /// The key is the native-style hash of the name and the parameter
    /// types as they are registered, with every string type taken as the
    /// immutable string: overloads that differ only in the kind of string
    /// they take share one key.  If there is an existing function of the
    /// same hash, it is replaced.
    pub fn set_fn(
        &mut self,
        name: &str,
        namespace: FnNamespace,
        access: FnAccess,
        arg_names: Option<&[&str]>,
        arg_types: &[TypeId],
        func: CallableFunction,
    ) -> (hash_fn: u64)
        requires
            old(self).wf(),
        ensures
            final(self).wf(),
            hash_fn == native_hash(name@, normalized_types(arg_types@)),
            hash_fn != 0,
            final(self).functions() == upsert(
                old(self).functions(),
                hash_fn,
                native_info(
                    name@,
                    namespace,
                    access,
                    match arg_names {
                        Some(names) => Some(str_views(names@)),
                        None => None,
                    },
                    arg_types@,
                    func,
                ),
            ),
            final(self).id_view() == old(self).id_view(),
            final(self).sub_modules() == old(self).sub_modules(),
            final(self).variables() == old(self).variables(),
            final(self).iterators() == old(self).iterators(),
            final(self).cache() == index::empty_index(),
            !final(self).is_indexed(),
    {
        let mut param_types: Vec<TypeId> = Vec::new();
        let mut i: usize = 0;
        while i < arg_types.len()
            invariant
                i <= arg_types@.len(),
                param_types@ == normalized_types(arg_types@).take(i as int),
            decreases arg_types@.len() - i,
        {
            param_types.push(arg_types[i].normalized());
            assert(param_types@ =~= normalized_types(arg_types@).take(i + 1));
            i += 1;
        }
        assert(normalized_types(arg_types@).take(i as int) == normalized_types(arg_types@));
        let hash_fn = hash_native_args(name, param_types.as_slice());
        let param_names = match arg_names {
            Some(names) => name_list(names),
            None => Vec::new(),
        };
        let info = FuncInfo {
            func,
            namespace,
            access,
            name: String::from_str(name),
            params: param_types.len(),
            param_types,
            param_names,
        };
        assert(info@ =~= native_info(
            name@,
            namespace,
            access,
            match arg_names {
                Some(names) => Some(str_views(names@)),
                None => None,
            },
            arg_types@,
            func,
        )) by {
            assert(info@.param_names =~= match arg_names {
                Some(names) => str_views(names@),
                None => Seq::empty(),
            });
        }
        self.invalidate();
        put_function(&mut self.functions, hash_fn, info);
        proof {
            lemma_upsert(old(self).functions(), hash_fn, info@);
        }
        hash_fn
    }

    /// The hash and the metadata under which a script function is
    /// registered.
    pub(crate) fn script_entry(fn_def: Shared<ScriptFnDef>) -> (entry: (u64, FuncInfo))
        ensures
            entry.0 == script_hash(Seq::empty(), fn_def.name@, fn_def.params@.len() as usize),
            entry.0 != 0,
            entry.1@ == script_info(fn_def),
    {
        let num_params = fn_def.params.len();
        let no_qualifiers: Vec<&str> = Vec::new();
        assert(str_views(no_qualifiers@) =~= Seq::empty());
        let hash = hash_script(no_qualifiers.as_slice(), fn_def.name.as_str(), num_params);
        let mut param_names: Vec<ImmutableString> = Vec::new();
        let mut i: usize = 0;
        while i < num_params
            invariant
                num_params == fn_def.params@.len(),
                i <= num_params,
                string_views(param_names@) == owned_views(fn_def.params@).take(i as int),
            decreases num_params - i,
        {
            let item: ImmutableString = Arc::new(fn_def.params[i].clone());
            let ghost before = string_views(param_names@);
            param_names.push(item);
            assert(string_views(param_names@) =~= before.push(item@));
            assert(before.push(item@) =~= owned_views(fn_def.params@).take(i + 1));
            i += 1;
        }
        assert(owned_views(fn_def.params@).take(i as int) == owned_views(fn_def.params@));
        let ghost names = string_views(param_names@);
        param_names.push(Arc::new(String::from_str("Dynamic")));
        assert(string_views(param_names@) =~= names.push("Dynamic"@));
        let info = FuncInfo {
            name: fn_def.name.clone(),
            namespace: FnNamespace::Internal,
            access: fn_def.access,
            params: num_params,
            param_types: Vec::new(),
            param_names,
            func: CallableFunction::from_script(fn_def),
        };
        assert(info@ =~= script_info(fn_def));
        (hash, info)
    }

    /// Set a script-defined function into the module, returning a hash
    /// key: the script-style hash of its name and its number of
    /// parameters, without qualifiers.
    ///
    /// If there is an existing function of the same name and number of
    /// parameters, it is replaced.
    pub fn set_script_fn(&mut self, fn_def: Shared<ScriptFnDef>) -> (hash_script: u64)
        requires
            old(self).wf(),
        ensures
            final(self).wf(),
            hash_script == script_hash(Seq::empty(), fn_def.name@, fn_def.params@.len() as usize),
            hash_script != 0,
            final(self).functions() == upsert(
                old(self).functions(),
                hash_script,
                script_info(fn_def),
            ),
            final(self).id_view() == old(self).id_view(),
            final(self).sub_modules() == old(self).sub_modules(),
            final(self).variables() == old(self).variables(),
            final(self).iterators() == old(self).iterators(),
            final(self).cache() == index::empty_index(),
            !final(self).is_indexed(),
    {
        let (hash, info) = Module::script_entry(fn_def);
        self.invalidate();
        put_function(&mut self.functions, hash, info);
        proof {
            lemma_upsert(old(self).functions(), hash, info@);
        }
        hash
    }

    /// Get a script-defined function in the module based on name and
    /// number of parameters: the first in table order, `None` where there
    /// is none.  With `public_only`, private functions are passed over.
    pub fn get_script_fn(&self, name: &str, num_params: usize, public_only: bool) -> (definition:
        Option<&ScriptFnDef>)
        ensures
            ({
                let matches = script_fn_matches(self.functions(), name@, num_params, public_only);
                let at = first_index(matches, true);
                match definition {
                    Some(found) => at < matches.len() && self.functions()[at].1.func
                        == CallableFunction::Script(Arc::new(*found)),
                    None => at == matches.len(),
                }
            }),
    {
        let ghost matches = script_fn_matches(self.functions(), name@, num_params, public_only);
        let probe = String::from_str(name);
        let mut i: usize = 0;
        while i < self.functions.len()
            invariant
                i <= self.functions@.len(),
                probe@ == name@,
                matches == script_fn_matches(self.functions(), name@, num_params, public_only),
                forall|j: int| 0 <= j < i ==> !matches[j],
            decreases self.functions@.len() - i,
        {
            let info = &self.functions[i].value;
            assert(self.functions()[i as int].1 == info@);
            if info.func.is_script() && (!public_only || info.access.is_public()) && info.params
                == num_params && info.name == probe {
                proof {
                    lemma_first_index_is(matches, true, i as int);
                }
                return Some(info.func.get_fn_def());
            }
            i += 1;
        }
        proof {
            lemma_first_index_is(matches, true, i as int);
        }
        None
    }

    /// Does the particular namespace-qualified function exist in the
    /// cache?  The cache is never stale; it is empty until
    /// [`Module::build_index`] has filled it.
    pub fn contains_qualified_fn(&self, hash_fn: u64) -> (found: bool)
        ensures
            found == self.cache().functions.contains_key(hash_fn),
    {
        self.all_functions.contains_key(&hash_fn)
    }

    /// Get a namespace-qualified function from the cache.
    pub fn get_qualified_fn(&self, hash_qualified_fn: u64) -> (func: Option<&CallableFunction>)
        ensures
            match func {
                Some(found) => self.cache().functions.contains_key(hash_qualified_fn) && *found
                    == self.cache().functions[hash_qualified_fn],
                None => !self.cache().functions.contains_key(hash_qualified_fn),
            },
    {
        self.all_functions.get(&hash_qualified_fn)
    }

    /// Generate signatures for all the functions in the module that are
    /// not private, in table order.
    pub fn gen_fn_signatures(&self) -> (signatures: Vec<String>)
        ensures
            owned_views(signatures@) == public_signatures(self.functions()),
    {
        let mut signatures: Vec<String> = Vec::new();
        let mut i: usize = 0;
        assert(self.functions().take(0) =~= Seq::empty());
        while i < self.functions.len()
            invariant
                i <= self.functions@.len(),
                owned_views(signatures@) == public_signatures(self.functions().take(i as int)),
            decreases self.functions@.len() - i,
        {
            assert(self.functions().take(i + 1).drop_last() == self.functions().take(i as int));
            let info = &self.functions[i].value;
            if !info.access.is_private() {
                let ghost before = owned_views(signatures@);
                let signature = info.gen_signature();
                signatures.push(signature);
                assert(owned_views(signatures@) =~= before.push(signature@));
            }
            i += 1;
        }
        assert(self.functions().take(i as int) == self.functions());
        signatures
    }

    /// Get the functions in the module, in table order.
    pub fn iter_fn(&self) -> (functions: Vec<&FuncInfo>)
        ensures
            functions@.len() == self.functions().len(),
            forall|i: int|
                0 <= i < functions@.len() ==> (#[trigger] functions@[i])@ == self.functions()[i].1,
    {
        let mut functions: Vec<&FuncInfo> = Vec::new();
        let mut i: usize = 0;
        while i < self.functions.len()
            invariant
                i <= self.functions@.len(),
                functions@.len() == i,
                forall|j: int|
                    0 <= j < i ==> (#[trigger] functions@[j])@ == self.functions()[j].1,
            decreases self.functions@.len() - i,
        {
            functions.push(&self.functions[i].value);
            i += 1;
        }
        functions
    }

    /// Get all script-defined functions in the module, in table order.
    pub fn iter_script_fn(&self) -> (functions: Vec<&FuncInfo>)
        ensures
            functions@.len() == script_functions(self.functions()).len(),
            forall|i: int|
                0 <= i < functions@.len() ==> (#[trigger] functions@[i])@ == script_functions(
                    self.functions(),
                )[i],
    {
        let mut functions: Vec<&FuncInfo> = Vec::new();
        let mut i: usize = 0;
        assert(self.functions().take(0) =~= Seq::empty());
        while i < self.functions.len()
            invariant
                i <= self.functions@.len(),
                functions@.len() == script_functions(self.functions().take(i as int)).len(),
                forall|j: int|
                    0 <= j < functions@.len() ==> (#[trigger] functions@[j])@ == script_functions(
                        self.functions().take(i as int),
                    )[j],
            decreases self.functions@.len() - i,
        {
            assert(self.functions().take(i + 1).drop_last() == self.functions().take(i as int));
            let info = &self.functions[i].value;
            if info.func.is_script() {
                functions.push(info);
            }
            i += 1;
        }
        assert(self.functions().take(i as int) == self.functions());
        functions
    }

    /// Get the metadata of all script-defined functions in the module, in
    /// table order: namespace, access mode, name and number of
    /// parameters of each.
    pub fn iter_script_fn_info(&self) -> (rows: Vec<(FnNamespace, FnAccess, String, usize)>)
        ensures
            rows@.len() == script_functions(self.functions()).len(),
            forall|i: int|
                0 <= i < rows@.len() ==> describes(
                    #[trigger] rows@[i],
                    script_functions(self.functions())[i],
                ),
    {
        let functions = self.iter_script_fn();
        let mut rows: Vec<(FnNamespace, FnAccess, String, usize)> = Vec::new();
        let mut i: usize = 0;
        while i < functions.len()
            invariant
                i <= functions@.len(),
                rows@.len() == i,
                functions@.len() == script_functions(self.functions()).len(),
                forall|j: int|
                    0 <= j < functions@.len() ==> (#[trigger] functions@[j])@ == script_functions(
                        self.functions(),
                    )[j],
                forall|j: int|
                    0 <= j < i ==> describes(
                        #[trigger] rows@[j],
                        script_functions(self.functions())[j],
                    ),
            decreases functions@.len() - i,
        {
            let info = functions[i];
            rows.push((info.namespace, info.access, info.name.clone(), info.params));
            i += 1;
        }
        rows
    }
}

} // verus!

verus! {

/// Does the filter of script functions say yes to this function: is no
/// the answer that it cannot give?
pub open spec fn script_filter_accepts<F: Fn(FnNamespace, FnAccess, &str, usize) -> bool>(
    filter: F,
    info: FuncInfoView,
) -> bool {
    forall|name: &str|
        name@ == info.name ==> !#[trigger] call_ensures(
            filter,
            (info.namespace, info.access, name, info.params),
            false,
        )
}

/// Is the filter a predicate: can it be asked of every function, and does
/// its answer depend on nothing but what it is asked of?
pub open spec fn is_script_filter<F: Fn(FnNamespace, FnAccess, &str, usize) -> bool>(
    filter: F,
) -> bool {
    &&& forall|namespace: FnNamespace, access: FnAccess, name: &str, params: usize| #[trigger]
        call_requires(filter, (namespace, access, name, params))
    &&& forall|
        namespace: FnNamespace,
        access: FnAccess,
        name: &str,
        same_name: &str,
        params: usize,
        answer: bool,
        other_answer: bool,
    |
        #![trigger
            call_ensures(filter, (namespace, access, name, params), answer),
            call_ensures(filter, (namespace, access, same_name, params), other_answer),
        ]
        name@ == same_name@ && call_ensures(filter, (namespace, access, name, params), answer)
            && call_ensures(filter, (namespace, access, same_name, params), other_answer)
            ==> answer == other_answer
}

/// The metadata of a function with other parameter names.
pub open spec fn with_param_names(info: FuncInfoView, names: Seq<Seq<char>>) -> FuncInfoView {
    FuncInfoView { param_names: names, ..info }
}

/// The metadata of a function in another namespace.
pub open spec fn with_namespace(info: FuncInfoView, namespace: FnNamespace) -> FuncInfoView {
    FuncInfoView { namespace, ..info }
}

impl Module {
    /// Update the metadata (parameter names and return type) of a
    /// registered function.  Nothing happens where there is no function
    /// of that hash.
    ///
    /// Each entry of `arg_names` names one parameter; the last entry is
    /// the return type.  The names are no part of the index, which stays
    /// as it is.
    pub fn update_fn_metadata(&mut self, hash_fn: u64, arg_names: &[&str]) -> (ret: &mut Self)
        requires
            old(self).wf(),
        ensures
            *final(self) == *final(ret),
            ret.wf(),
            ret.functions() == match lookup(old(self).functions(), hash_fn) {
                Some(info) => upsert(
                    old(self).functions(),
                    hash_fn,
                    with_param_names(info, str_views(arg_names@)),
                ),
                None => old(self).functions(),
            },
            ret.id_view() == old(self).id_view(),
            ret.sub_modules() == old(self).sub_modules(),
            ret.variables() == old(self).variables(),
            ret.iterators() == old(self).iterators(),
            ret.cache() == old(self).cache(),
            ret.is_indexed() == old(self).is_indexed(),
    {
        let at = find_function(&self.functions, hash_fn);
        if at < self.functions.len() {
            let mut info = self.functions[at].value.clone();
            info.param_names = name_list(arg_names);
            let ghost changed = with_param_names(
                old(self).functions()[at as int].1,
                str_views(arg_names@),
            );
            assert(info@ =~= changed);
            self.functions.set(at, Entry { key: hash_fn, value: info });
            proof {
                assert(self.functions() =~= upsert(old(self).functions(), hash_fn, changed));
                lemma_upsert(old(self).functions(), hash_fn, changed);
                index::lemma_index_ignores_names(old(self), self);
            }
        }
        self
    }

    /// Update the namespace of a registered function.  Nothing but the
    /// cache changes where there is no function of that hash.
    pub fn update_fn_namespace(&mut self, hash_fn: u64, namespace: FnNamespace) -> (ret: &mut Self)
        requires
            old(self).wf(),
        ensures
            *final(self) == *final(ret),
            ret.wf(),
            ret.functions() == match lookup(old(self).functions(), hash_fn) {
                Some(info) => upsert(
                    old(self).functions(),
                    hash_fn,
                    with_namespace(info, namespace),
                ),
                None => old(self).functions(),
            },
            ret.id_view() == old(self).id_view(),
            ret.sub_modules() == old(self).sub_modules(),
            ret.variables() == old(self).variables(),
            ret.iterators() == old(self).iterators(),
            ret.cache() == index::empty_index(),
            !ret.is_indexed(),
    {
        self.invalidate();
        let at = find_function(&self.functions, hash_fn);
        if at < self.functions.len() {
            let mut info = self.functions[at].value.clone();
            info.namespace = namespace;
            let ghost changed = with_namespace(old(self).functions()[at as int].1, namespace);
            assert(info@ =~= changed);
            self.functions.set(at, Entry { key: hash_fn, value: info });
            proof {
                assert(self.functions() =~= upsert(old(self).functions(), hash_fn, changed));
                lemma_upsert(old(self).functions(), hash_fn, changed);
            }
        }
        self
    }

    /// Filter out the functions, retaining only the script-defined
    /// functions to which the filter says yes.  The filter is asked of
    /// the namespace, the access mode, the name and the number of
    /// parameters of each script function.
    pub fn retain_script_functions<F: Fn(FnNamespace, FnAccess, &str, usize) -> bool>(
        &mut self,
        filter: F,
    ) -> (ret: &mut Self)
        requires
            old(self).wf(),
            is_script_filter(filter),
        ensures
            *final(self) == *final(ret),
            ret.wf(),
            ret.functions() == retain(
                old(self).functions(),
                |info: FuncInfoView| info.func.is_script() && script_filter_accepts(filter, info),
            ),
            ret.id_view() == old(self).id_view(),
            ret.sub_modules() == old(self).sub_modules(),
            ret.variables() == old(self).variables(),
            ret.iterators() == old(self).iterators(),
            ret.cache() == index::empty_index(),
            !ret.is_indexed(),
    {
        let ghost keep = |info: FuncInfoView|
            info.func.is_script() && script_filter_accepts(filter, info);
        let mut kept: Vec<Entry<u64, FuncInfo>> = Vec::new();
        let mut i: usize = 0;
        assert(self.functions().take(0) =~= Seq::empty());
        while i < self.functions.len()
            invariant
                i <= self.functions@.len(),
                is_script_filter(filter),
                keep == |info: FuncInfoView|
                    info.func.is_script() && script_filter_accepts(filter, info),
                function_pairs(kept@) == retain(self.functions().take(i as int), keep),
            decreases self.functions@.len() - i,
        {
            assert(self.functions().take(i + 1).drop_last() == self.functions().take(i as int));
            let info = &self.functions[i].value;
            assert(self.functions()[i as int] == (self.functions@[i as int].key, info@));
            let retained = if info.func.is_script() {
                filter(info.namespace, info.access, info.name.as_str(), info.params)
            } else {
                false
            };
            assert(retained == keep(info@));
            if retained {
                let ghost before = function_pairs(kept@);
                kept.push(Entry { key: self.functions[i].key, value: info.clone() });
                assert(function_pairs(kept@) =~= before.push(self.functions()[i as int]));
            }
            i += 1;
        }
        assert(self.functions().take(i as int) == self.functions());
        self.invalidate();
        self.functions = kept;
        proof {
            lemma_retain(old(self).functions(), keep);
        }
        self
    }
}

} // verus!
