//! Combining modules.
//!
//! Four operations bring the contents of another module into a module:
//! [`Module::combine`] writes its direct tables over those of the target,
//! [`Module::combine_flatten`] does so with its whole tree,
//! [`Module::fill_with`] adds only what the target lacks, and
//! [`Module::merge_filtered`] merges tree into tree, function by function
//! as a filter decides.  Each of them empties the cache of the target.

use vstd::prelude::*;
use std::sync::Arc;
use crate::fn_native::FnAccess;
use crate::fn_native::IteratorFn;
use crate::module::Module;
use crate::module::function_pairs;
use crate::module::functions::find_function;
use crate::module::functions::put_function;
use crate::module::index;
use crate::module::info::FnNamespace;
use crate::module::info::FuncInfo;
use crate::module::info::FuncInfoView;
use crate::table::Entry;
use crate::table::all_values;
use crate::table::contains_key;
use crate::table::distinct_keys;
use crate::table::fill;
use crate::table::fill_all;
use crate::table::find;
use crate::table::keys_of;
use crate::table::lemma_contains_key;
use crate::table::lemma_contains_key_take;
use crate::table::lemma_fill;
use crate::table::lemma_fill_all_values;
use crate::table::lemma_overwrite_all_values;
use crate::table::lemma_overwrite_distinct;
use crate::table::lemma_position;
use crate::table::lemma_position_of_entry;
use crate::table::lemma_retain;
use crate::table::lemma_upsert;
use crate::table::lemma_upsert_keys;
use crate::table::lookup;
use crate::table::overwrite;
use crate::table::position;
use crate::table::put;
use crate::table::put_all;
use crate::table::retain;
use crate::table::upsert;
use crate::value::Dynamic;
use crate::value::Shared;
use crate::value::TypeId;

verus! {

/// The three direct tables of a module that hold no modules.
pub struct DirectTables {
    pub variables: Seq<(Seq<char>, Dynamic)>,
    pub functions: Seq<(u64, FuncInfoView)>,
    pub iterators: Seq<(TypeId, IteratorFn)>,
}

/// Does no table hold a key twice?
pub open spec fn distinct_tables(tables: DirectTables) -> bool {
    &&& distinct_keys(tables.variables)
    &&& distinct_keys(tables.functions)
    &&& distinct_keys(tables.iterators)
}

/// Is every sub-module of the table well-formed?
pub open spec fn all_wf(modules: Seq<(Seq<char>, Shared<Module>)>) -> bool {
    forall|i: int| 0 <= i < modules.len() ==> (#[trigger] modules[i]).1.wf()
}

/// Does the filter of functions say yes to this function: is no the
/// answer that it cannot give?
pub open spec fn filter_accepts<F: Fn(FnNamespace, FnAccess, bool, &str, usize) -> bool>(
    filter: F,
    info: FuncInfoView,
) -> bool {
    forall|name: &str|
        name@ == info.name ==> !#[trigger] call_ensures(
            filter,
            (info.namespace, info.access, info.func.is_script(), name, info.params),
            false,
        )
}

/// Is the filter a predicate: can it be asked of every function, and does
/// its answer depend on nothing but what it is asked of?
pub open spec fn is_filter<F: Fn(FnNamespace, FnAccess, bool, &str, usize) -> bool>(
    filter: F,
) -> bool {
    &&& forall|
        namespace: FnNamespace,
        access: FnAccess,
        is_script: bool,
        name: &str,
        params: usize,
    | #[trigger] call_requires(filter, (namespace, access, is_script, name, params))
    &&& forall|
        namespace: FnNamespace,
        access: FnAccess,
        is_script: bool,
        name: &str,
        same_name: &str,
        params: usize,
        answer: bool,
        other_answer: bool,
    |
        #![trigger
            call_ensures(filter, (namespace, access, is_script, name, params), answer),
            call_ensures(filter, (namespace, access, is_script, same_name, params), other_answer),
        ]
        name@ == same_name@ && call_ensures(
            filter,
            (namespace, access, is_script, name, params),
            answer,
        ) && call_ensures(filter, (namespace, access, is_script, same_name, params), other_answer)
            ==> answer == other_answer
}

/// The sub-modules of the module that a merge starts from; none where it
/// starts from nothing.
pub open spec fn base_sub_modules(base: Option<Shared<Module>>) -> Seq<
    (Seq<char>, Shared<Module>),
> {
    match base {
        Some(module) => module.sub_modules(),
        None => Seq::empty(),
    }
}

impl Module {
    /// The three direct tables that hold no modules.
    pub open spec fn tables(&self) -> DirectTables {
        DirectTables {
            variables: self.variables(),
            functions: self.functions(),
            iterators: self.iterators(),
        }
    }

    /// `tables` after the trees of the first `count` sub-modules are
    /// written over them, one after the other.
    pub open spec fn flattened_sub_modules(&self, count: nat, tables: DirectTables) -> DirectTables
        decreases self, 0nat, count,
    {
        if count == 0 || count > self.sub_modules().len() {
            tables
        } else {
            self.sub_modules()[count - 1].1.flattened_into(
                self.flattened_sub_modules((count - 1) as nat, tables),
            )
        }
    }

    /// `tables` after the whole tree of this module is written over them:
    /// what the module holds itself first, then the tree of each
    /// sub-module.  What is written later stands, so that an entry of a
    /// sub-module replaces an entry of the module that holds it.
    pub open spec fn flattened_into(&self, tables: DirectTables) -> DirectTables
        decreases self, 1nat, 0nat,
    {
        self.flattened_sub_modules(
            self.sub_modules().len(),
            DirectTables {
                variables: overwrite(tables.variables, self.variables()),
                functions: overwrite(tables.functions, self.functions()),
                iterators: overwrite(tables.iterators, self.iterators()),
            },
        )
    }

    /// Is this module what merging `other` into `base` gives, with the
    /// functions of `other` to which `keep` says yes?
    ///
    /// The variables and type iterators of `other` are written over
    /// those of `base`, and so are the functions that are kept.  The
    /// sub-modules keep their names and their nesting: a sub-module of
    /// `other` is merged in the same way into the sub-module of that name
    /// in `base`, or into nothing where `base` has none.  A sub-module of
    /// `base` whose name `other` lacks stays as it is.
    pub open spec fn is_merge_of(
        &self,
        base: Option<Shared<Module>>,
        other: &Module,
        keep: spec_fn(FuncInfoView) -> bool,
    ) -> bool
        decreases other,
    {
        let base_subs = base_sub_modules(base);
        &&& match base {
            Some(module) => {
                &&& self.id_view() == module.id_view()
                &&& self.variables() == overwrite(module.variables(), other.variables())
                &&& self.functions() == overwrite(
                    module.functions(),
                    retain(other.functions(), keep),
                )
                &&& self.iterators() == overwrite(module.iterators(), other.iterators())
            },
            None => {
                &&& self.id_view() is None
                &&& self.variables() == overwrite(Seq::empty(), other.variables())
                &&& self.functions() == overwrite(Seq::empty(), retain(other.functions(), keep))
                &&& self.iterators() == overwrite(Seq::empty(), other.iterators())
            },
        }
        &&& keys_of(self.sub_modules()) == keys_of(overwrite(base_subs, other.sub_modules()))
        &&& forall|i: int, j: int|
            #![trigger self.sub_modules()[i], other.sub_modules()[j]]
            0 <= i < self.sub_modules().len() && 0 <= j < other.sub_modules().len()
                && other.sub_modules()[j].0 == self.sub_modules()[i].0
                ==> self.sub_modules()[i].1.is_merge_of(
                lookup(base_subs, self.sub_modules()[i].0),
                &*other.sub_modules()[j].1,
                keep,
            )
        &&& forall|i: int|
            0 <= i < self.sub_modules().len() && !contains_key(
                other.sub_modules(),
                (#[trigger] self.sub_modules()[i]).0,
            ) ==> i < base_subs.len() && self.sub_modules()[i] == base_subs[i]
    }

    /// Writes the functions of `other` to which the filter says yes over
    /// the functions of this module.
    fn put_functions<F: Fn(FnNamespace, FnAccess, bool, &str, usize) -> bool>(
        functions: &mut Vec<Entry<u64, FuncInfo>>,
        other: &Vec<Entry<u64, FuncInfo>>,
        filter: &F,
    )
        requires
            is_filter(*filter),
        ensures
            function_pairs(final(functions)@) == overwrite(
                function_pairs(old(functions)@),
                retain(function_pairs(other@), |info: FuncInfoView| filter_accepts(*filter, info)),
            ),
    {
        let ghost keep = |info: FuncInfoView| filter_accepts(*filter, info);
        let ghost source = function_pairs(other@);
        let mut i: usize = 0;
        assert(source.take(0) =~= Seq::empty());
        while i < other.len()
            invariant
                i <= other@.len(),
                is_filter(*filter),
                source == function_pairs(other@),
                keep == |info: FuncInfoView| filter_accepts(*filter, info),
                function_pairs(functions@) == overwrite(
                    function_pairs(old(functions)@),
                    retain(source.take(i as int), keep),
                ),
            decreases other@.len() - i,
        {
            assert(source.take(i + 1).drop_last() == source.take(i as int));
            let info = &other[i].value;
            assert(source[i as int] == (other@[i as int].key, info@));
            let kept = filter(
                info.namespace,
                info.access,
                info.func.is_script(),
                info.name.as_str(),
                info.params,
            );
            assert(kept == keep(info@));
            if kept {
                assert(retain(source.take(i + 1), keep).drop_last() == retain(
                    source.take(i as int),
                    keep,
                ));
                put_function(functions, other[i].key, info.clone());
            }
            i += 1;
        }
        assert(source.take(i as int) == source);
    }

    /// Writes every function of `other` over the functions of this
    /// module.
    fn put_all_functions(
        functions: &mut Vec<Entry<u64, FuncInfo>>,
        other: &Vec<Entry<u64, FuncInfo>>,
    )
        ensures
            function_pairs(final(functions)@) == overwrite(
                function_pairs(old(functions)@),
                function_pairs(other@),
            ),
    {
        let ghost source = function_pairs(other@);
        let mut i: usize = 0;
        assert(source.take(0) =~= Seq::empty());
        while i < other.len()
            invariant
                i <= other@.len(),
                source == function_pairs(other@),
                function_pairs(functions@) == overwrite(
                    function_pairs(old(functions)@),
                    source.take(i as int),
                ),
            decreases other@.len() - i,
        {
            assert(source.take(i + 1).drop_last() == source.take(i as int));
            put_function(functions, other[i].key, other[i].value.clone());
            i += 1;
        }
        assert(source.take(i as int) == source);
    }

    /// Adds every function of `other` whose hash this module lacks.
    fn fill_functions(functions: &mut Vec<Entry<u64, FuncInfo>>, other: &Vec<Entry<u64, FuncInfo>>)
        ensures
            function_pairs(final(functions)@) == fill(
                function_pairs(old(functions)@),
                function_pairs(other@),
            ),
    {
        let ghost source = function_pairs(other@);
        let mut i: usize = 0;
        assert(source.take(0) =~= Seq::empty());
        while i < other.len()
            invariant
                i <= other@.len(),
                source == function_pairs(other@),
                function_pairs(functions@) == fill(
                    function_pairs(old(functions)@),
                    source.take(i as int),
                ),
            decreases other@.len() - i,
        {
            assert(source.take(i + 1).drop_last() == source.take(i as int));
            let at = find_function(functions, other[i].key);
            if at >= functions.len() {
                let ghost before = function_pairs(functions@);
                functions.push(Entry { key: other[i].key, value: other[i].value.clone() });
                assert(function_pairs(functions@) =~= before.push(source[i as int]));
            }
            i += 1;
        }
        assert(source.take(i as int) == source);
    }

    /// Combine another module into this module.  The other module is
    /// consumed.
    ///
    /// Each direct table of the other module is written over the table of
    /// this one.  Sub-modules are not merged: a sub-module of the other
    /// module takes the place of the sub-module of the same name.
    pub fn combine(&mut self, other: Module) -> (ret: &mut Self)
        requires
            old(self).wf(),
            other.wf(),
        ensures
            *final(self) == *final(ret),
            ret.wf(),
            ret.sub_modules() == overwrite(old(self).sub_modules(), other.sub_modules()),
            ret.variables() == overwrite(old(self).variables(), other.variables()),
            ret.functions() == overwrite(old(self).functions(), other.functions()),
            ret.iterators() == overwrite(old(self).iterators(), other.iterators()),
            ret.id_view() == old(self).id_view(),
            ret.cache() == index::empty_index(),
            !ret.is_indexed(),
    {
        self.invalidate();
        put_all(&mut self.modules, &other.modules);
        put_all(&mut self.variables, &other.variables);
        Self::put_all_functions(&mut self.functions, &other.functions);
        put_all(&mut self.type_iterators, &other.type_iterators);
        proof {
            lemma_overwrite_distinct(old(self).sub_modules(), other.sub_modules());
            lemma_overwrite_distinct(old(self).variables(), other.variables());
            lemma_overwrite_distinct(old(self).functions(), other.functions());
            lemma_overwrite_distinct(old(self).iterators(), other.iterators());
            let holds = |m: Shared<Module>| m.wf();
            assert(all_values(old(self).sub_modules(), holds));
            assert(all_values(other.sub_modules(), holds));
            lemma_overwrite_all_values(old(self).sub_modules(), other.sub_modules(), holds);
            assert(all_values(self.sub_modules(), holds));
            assert(all_wf(self.sub_modules())) by {
                assert forall|i: int| 0 <= i < self.sub_modules().len() implies (
                #[trigger] self.sub_modules()[i]).1.wf() by {
                    assert(holds(self.sub_modules()[i].1));
                }
            }
        }
        self
    }

    /// Writes the tree of `other` over the tables of this module.
    fn flatten_from(&mut self, other: &Module)
        requires
            distinct_tables(old(self).tables()),
        ensures
            final(self).tables() == other.flattened_into(old(self).tables()),
            distinct_tables(final(self).tables()),
            final(self).modules == old(self).modules,
            final(self).id == old(self).id,
            final(self).all_variables == old(self).all_variables,
            final(self).all_functions == old(self).all_functions,
            final(self).all_type_iterators == old(self).all_type_iterators,
            final(self).indexed == old(self).indexed,
        decreases other,
    {
        put_all(&mut self.variables, &other.variables);
        Self::put_all_functions(&mut self.functions, &other.functions);
        put_all(&mut self.type_iterators, &other.type_iterators);
        proof {
            lemma_overwrite_distinct(old(self).variables(), other.variables());
            lemma_overwrite_distinct(old(self).functions(), other.functions());
            lemma_overwrite_distinct(old(self).iterators(), other.iterators());
        }
        let ghost own = self.tables();
        let mut i: usize = 0;
        while i < other.modules.len()
            invariant
                i <= other.modules@.len(),
                other.modules@.len() == other.sub_modules().len(),
                self.tables() == other.flattened_sub_modules(i as nat, own),
                distinct_tables(self.tables()),
                self.modules == old(self).modules,
                self.id == old(self).id,
                self.all_variables == old(self).all_variables,
                self.all_functions == old(self).all_functions,
                self.all_type_iterators == old(self).all_type_iterators,
                self.indexed == old(self).indexed,
            decreases other.modules@.len() - i,
        {
            let sub: &Module = &other.modules[i].value;
            assert(other.sub_modules()[i as int].1 == other.modules@[i as int].value);
            self.flatten_from(sub);
            i += 1;
        }
    }

    /// Combine another module into this module.  The other module is
    /// consumed.
    ///
    /// The whole tree of the other module is flattened onto the direct
    /// tables of this one: nothing of it stays in a sub-module.  Where
    /// one key is held at several depths of the other module, the deeper
    /// entry stands.  The sub-modules of this module stay as they are.
    pub fn combine_flatten(&mut self, other: Module) -> (ret: &mut Self)
        requires
            old(self).wf(),
        ensures
            *final(self) == *final(ret),
            ret.wf(),
            ret.tables() == other.flattened_into(old(self).tables()),
            ret.sub_modules() == old(self).sub_modules(),
            ret.id_view() == old(self).id_view(),
            ret.cache() == index::empty_index(),
            !ret.is_indexed(),
    {
        self.invalidate();
        self.flatten_from(&other);
        self
    }

    /// Polyfill this module with another module.  Only items not existing
    /// in this module are added: no sub-module, variable, function or
    /// type iterator that this module holds is replaced or changed.
    pub fn fill_with(&mut self, other: &Module) -> (ret: &mut Self)
        requires
            old(self).wf(),
            other.wf(),
        ensures
            *final(self) == *final(ret),
            ret.wf(),
            ret.sub_modules() == fill(old(self).sub_modules(), other.sub_modules()),
            ret.variables() == fill(old(self).variables(), other.variables()),
            ret.functions() == fill(old(self).functions(), other.functions()),
            ret.iterators() == fill(old(self).iterators(), other.iterators()),
            ret.id_view() == old(self).id_view(),
            ret.cache() == index::empty_index(),
            !ret.is_indexed(),
    {
        self.invalidate();
        fill_all(&mut self.modules, &other.modules);
        fill_all(&mut self.variables, &other.variables);
        Self::fill_functions(&mut self.functions, &other.functions);
        fill_all(&mut self.type_iterators, &other.type_iterators);
        proof {
            lemma_fill(old(self).sub_modules(), other.sub_modules());
            lemma_fill(old(self).variables(), other.variables());
            lemma_fill(old(self).functions(), other.functions());
            lemma_fill(old(self).iterators(), other.iterators());
            let holds = |m: Shared<Module>| m.wf();
            assert(all_values(old(self).sub_modules(), holds));
            assert(all_values(other.sub_modules(), holds));
            lemma_fill_all_values(old(self).sub_modules(), other.sub_modules(), holds);
            assert forall|i: int| 0 <= i < self.sub_modules().len() implies (
            #[trigger] self.sub_modules()[i]).1.wf() by {
                assert(holds(self.sub_modules()[i].1));
            }
        }
        self
    }
}

} // verus!

verus! {

/// Do the two stand for the same module to merge into: the same ID and
/// direct tables, where nothing counts as a module that holds nothing?
pub open spec fn same_base(a: Option<Shared<Module>>, b: Option<Shared<Module>>) -> bool {
    match (a, b) {
        (Some(x), Some(y)) => x.same_contents(&*y),
        (Some(x), None) => x.holds_nothing() && x.id_view() is None,
        (None, Some(y)) => y.holds_nothing() && y.id_view() is None,
        (None, None) => true,
    }
}

/// What a merge gives depends on the contents of the module it starts
/// from, and on nothing else of it.
pub proof fn lemma_merge_base(
    merged: &Module,
    a: Option<Shared<Module>>,
    b: Option<Shared<Module>>,
    other: &Module,
    keep: spec_fn(FuncInfoView) -> bool,
)
    requires
        same_base(a, b),
        merged.is_merge_of(a, other, keep),
    ensures
        merged.is_merge_of(b, other, keep),
{
    assert(base_sub_modules(a) =~= base_sub_modules(b));
    match a {
        Some(x) => {
            assert(x.variables() =~= match b {
                Some(y) => y.variables(),
                None => Seq::empty(),
            });
            assert(x.functions() =~= match b {
                Some(y) => y.functions(),
                None => Seq::empty(),
            });
            assert(x.iterators() =~= match b {
                Some(y) => y.iterators(),
                None => Seq::empty(),
            });
        },
        None => {
            match b {
                Some(y) => {
                    assert(y.variables() =~= Seq::empty());
                    assert(y.functions() =~= Seq::empty());
                    assert(y.iterators() =~= Seq::empty());
                },
                None => {},
            }
        },
    }
}

/// How far the merge of the sub-modules has come when the first `count`
/// sub-modules of `other` are merged into `current`, which was `base`.
pub open spec fn merge_progress(
    current: Seq<(Seq<char>, Shared<Module>)>,
    base: Seq<(Seq<char>, Shared<Module>)>,
    other: &Module,
    count: int,
    keep: spec_fn(FuncInfoView) -> bool,
) -> bool {
    let done = other.sub_modules().take(count);
    &&& distinct_keys(current)
    &&& all_wf(current)
    &&& current.len() >= base.len()
    &&& forall|p: int| 0 <= p < base.len() ==> (#[trigger] current[p]).0 == base[p].0
    &&& keys_of(current) == keys_of(overwrite(base, done))
    &&& forall|p: int, j: int|
        #![trigger current[p], other.sub_modules()[j]]
        0 <= p < current.len() && 0 <= j < count && other.sub_modules()[j].0 == current[p].0
            ==> current[p].1.is_merge_of(
            lookup(base, current[p].0),
            &*other.sub_modules()[j].1,
            keep,
        )
    &&& forall|p: int|
        0 <= p < current.len() && !contains_key(done, (#[trigger] current[p]).0) ==> p
            < base.len() && current[p] == base[p]
}

/// While the sub-modules are merged, a name that is yet to come is
/// looked up in the current table as in the table that the merge started
/// from.
pub proof fn lemma_merge_lookup(
    current: Seq<(Seq<char>, Shared<Module>)>,
    base: Seq<(Seq<char>, Shared<Module>)>,
    other: &Module,
    count: int,
    keep: spec_fn(FuncInfoView) -> bool,
)
    requires
        merge_progress(current, base, other, count, keep),
        0 <= count < other.sub_modules().len(),
        distinct_keys(other.sub_modules()),
        distinct_keys(base),
    ensures
        lookup(current, other.sub_modules()[count].0) == lookup(
            base,
            other.sub_modules()[count].0,
        ),
{
    let subs = other.sub_modules();
    let key = subs[count].0;
    let done = subs.take(count);
    lemma_position(current, key);
    lemma_contains_key(done, key);
    assert(!contains_key(done, key)) by {
        if contains_key(done, key) {
            let j = choose|j: int| 0 <= j < done.len() && (#[trigger] done[j]).0 == key;
            assert(keys_of(subs)[j] == done[j].0);
            assert(keys_of(subs)[count] == key);
        }
    }
    if contains_key(current, key) {
        let p = position(current, key);
        assert(current[p] == base[p]);
        lemma_position_of_entry(base, p);
    } else {
        lemma_contains_key(base, key);
        if contains_key(base, key) {
            let p = choose|p: int| 0 <= p < base.len() && (#[trigger] base[p]).0 == key;
            assert(current[p].0 == key);
        }
    }
}

/// Putting the merge of one more sub-module takes the merge of the
/// sub-modules one step further.
pub proof fn lemma_merge_step(
    current: Seq<(Seq<char>, Shared<Module>)>,
    base: Seq<(Seq<char>, Shared<Module>)>,
    other: &Module,
    count: int,
    keep: spec_fn(FuncInfoView) -> bool,
    child: Shared<Module>,
)
    requires
        merge_progress(current, base, other, count, keep),
        0 <= count < other.sub_modules().len(),
        distinct_keys(other.sub_modules()),
        distinct_keys(base),
        child.wf(),
        child.is_merge_of(
            lookup(base, other.sub_modules()[count].0),
            &*other.sub_modules()[count].1,
            keep,
        ),
    ensures
        merge_progress(
            upsert(current, other.sub_modules()[count].0, child),
            base,
            other,
            count + 1,
            keep,
        ),
{
    let subs = other.sub_modules();
    let key = subs[count].0;
    let done = subs.take(count);
    let more = subs.take(count + 1);
    let after = upsert(current, key, child);
    let at = position(current, key);
    lemma_position(current, key);
    lemma_upsert(current, key, child);
    assert(after[at] == (key, child));
    assert forall|p: int| 0 <= p < after.len() && p != at implies after[p] == current[p] by {}
    assert(all_wf(after)) by {
        assert forall|p: int| 0 <= p < after.len() implies (#[trigger] after[p]).1.wf() by {
            if p != at {
                assert(after[p] == current[p]);
            }
        }
    }
    assert forall|p: int| 0 <= p < base.len() implies (#[trigger] after[p]).0 == base[p].0 by {
        if p != at {
            assert(after[p] == current[p]);
        } else {
            assert(current[p].0 == base[p].0);
        }
    }
    assert(keys_of(after) == keys_of(overwrite(base, more))) by {
        assert(more.drop_last() == done);
        assert(more.last() == subs[count]);
        lemma_upsert_keys(current, overwrite(base, done), key, child, subs[count].1);
    }
    assert forall|p: int, j: int|
        #![trigger after[p], subs[j]]
        0 <= p < after.len() && 0 <= j < count + 1 && subs[j].0 == after[p].0
        implies after[p].1.is_merge_of(lookup(base, after[p].0), &*subs[j].1, keep) by {
        if j == count {
            if p != at {
                assert(keys_of(after)[p] == after[p].0);
                assert(keys_of(after)[at] == key);
            }
        } else {
            assert(keys_of(subs)[j] == subs[j].0);
            assert(keys_of(subs)[count] == key);
            assert(p != at);
            assert(after[p] == current[p]);
        }
    }
    assert forall|p: int|
        0 <= p < after.len() && !contains_key(more, (#[trigger] after[p]).0) implies p < base.len()
        && after[p] == base[p] by {
        lemma_contains_key_take(subs, count, after[p].0);
        assert(p != at);
        assert(after[p] == current[p]);
    }
}

impl Module {
    /// Merges `other` into this module, function by function as the
    /// filter decides.
    fn merge_from<F: Fn(FnNamespace, FnAccess, bool, &str, usize) -> bool>(
        &mut self,
        other: &Module,
        filter: &F,
    )
        requires
            old(self).wf(),
            other.wf(),
            is_filter(*filter),
        ensures
            final(self).wf(),
            final(self).is_merge_of(
                Some(Arc::new(*old(self))),
                other,
                |info: FuncInfoView| filter_accepts(*filter, info),
            ),
            final(self).cache() == index::empty_index(),
            !final(self).is_indexed(),
        decreases other,
    {
        let ghost keep = |info: FuncInfoView| filter_accepts(*filter, info);
        let ghost base = old(self).sub_modules();
        self.invalidate();
        let ghost start = *self;
        let mut i: usize = 0;
        assert(other.sub_modules().take(0) =~= Seq::empty());
        while i < other.modules.len()
            invariant
                i <= other.modules@.len(),
                other.modules@.len() == other.sub_modules().len(),
                other.wf(),
                is_filter(*filter),
                keep == |info: FuncInfoView| filter_accepts(*filter, info),
                distinct_keys(base),
                merge_progress(self.sub_modules(), base, other, i as int, keep),
                self.variables == start.variables,
                self.functions == start.functions,
                self.type_iterators == start.type_iterators,
                self.id == start.id,
                self.cache() == index::empty_index(),
                !self.is_indexed(),
            decreases other.modules@.len() - i,
        {
            let entry = &other.modules[i];
            let ghost key = other.sub_modules()[i as int].0;
            assert(other.sub_modules()[i as int] == (entry.key@, entry.value));
            let at = find(&self.modules, &entry.key);
            let mut merged = if at < self.modules.len() {
                let existing: &Module = &self.modules[at].value;
                assert(self.sub_modules()[at as int].1 == self.modules@[at as int].value);
                existing.clone()
            } else {
                Module::new()
            };
            let ghost before = merged;
            proof {
                lemma_position(self.sub_modules(), key);
                assert(same_base(Some(Arc::new(before)), lookup(self.sub_modules(), key)));
                lemma_merge_lookup(self.sub_modules(), base, other, i as int, keep);
            }
            merged.merge_from(&entry.value, filter);
            proof {
                lemma_merge_base(
                    &merged,
                    Some(Arc::new(before)),
                    lookup(base, key),
                    &*entry.value,
                    keep,
                );
                lemma_merge_step(self.sub_modules(), base, other, i as int, keep, Arc::new(merged));
            }
            put(&mut self.modules, entry.key.clone(), Arc::new(merged));
            i += 1;
        }
        assert(other.sub_modules().take(i as int) == other.sub_modules());
        put_all(&mut self.variables, &other.variables);
        Self::put_functions(&mut self.functions, &other.functions, filter);
        put_all(&mut self.type_iterators, &other.type_iterators);
        proof {
            lemma_overwrite_distinct(old(self).variables(), other.variables());
            lemma_retain(other.functions(), keep);
            lemma_overwrite_distinct(old(self).functions(), retain(other.functions(), keep));
            lemma_overwrite_distinct(old(self).iterators(), other.iterators());
            let from = Some(Arc::new(*old(self)));
            assert(base_sub_modules(from) == base);
        }
    }

    /// Merge another module into this module, with those of its functions
    /// to which the filter says yes.  The filter is asked of the
    /// namespace and the access mode of each function, of whether it is
    /// script-defined, and of its name and its number of parameters.
    ///
    /// Variables and type iterators are all brought over.  Sub-modules
    /// keep their names: each is merged, by the same filter, into the
    /// sub-module of that name, of which this module then holds a copy of
    /// its own.
    pub fn merge_filtered<F: Fn(FnNamespace, FnAccess, bool, &str, usize) -> bool>(
        &mut self,
        other: &Module,
        filter: &F,
    ) -> (ret: &mut Self)
        requires
            old(self).wf(),
            other.wf(),
            is_filter(*filter),
        ensures
            *final(self) == *final(ret),
            ret.wf(),
            ret.is_merge_of(
                Some(Arc::new(*old(self))),
                other,
                |info: FuncInfoView| filter_accepts(*filter, info),
            ),
            ret.cache() == index::empty_index(),
            !ret.is_indexed(),
    {
        self.merge_from(other, filter);
        self
    }

    /// Merge another module into this module, with all its functions.
    pub fn merge(&mut self, other: &Module) -> (ret: &mut Self)
        requires
            old(self).wf(),
            other.wf(),
        ensures
            *final(self) == *final(ret),
            ret.wf(),
            ret.is_merge_of(Some(Arc::new(*old(self))), other, |info: FuncInfoView| true),
            ret.cache() == index::empty_index(),
            !ret.is_indexed(),
    {
        let every = |_namespace: FnNamespace,
                     _access: FnAccess,
                     _is_script: bool,
                     _name: &str,
                     _params: usize|
         -> (kept: bool)
            ensures
                kept,
            { true };
        let ghost by_filter = |info: FuncInfoView| filter_accepts(every, info);
        let ghost all = |info: FuncInfoView| true;
        assert(by_filter =~= all);
        self.merge_from(other, &every);
        self
    }
}

} // verus!
