//! Type iterators made from the types that can be iterated over.

use vstd::prelude::*;
use std::marker::PhantomData;
use std::sync::Arc;
use crate::fn_native::IteratorFn;
use crate::fn_native::TypeIterator;
use crate::module::Module;
use crate::module::index;
use crate::table::lemma_upsert;
use crate::table::lookup;
use crate::table::upsert;
use crate::value::Dynamic;
use crate::value::Iterable;

verus! {

/// The type iterator of an iterable type: it casts the value to the type
/// and yields its elements.
pub struct ElementsOf<T> {
    pub marker: PhantomData<(T,)>,
}

impl<T: Iterable> TypeIterator for ElementsOf<T> {
    open spec fn accepts(&self, obj: Dynamic) -> bool {
        T::cast(obj) is Some
    }

    open spec fn items(&self, obj: Dynamic) -> Seq<Dynamic> {
        T::cast(obj)->0.elements()
    }

    fn iterate(&self, obj: Dynamic) -> (values: Vec<Dynamic>) {
        match T::try_cast(obj) {
            Some(value) => value.into_elements(),
            None => Vec::new(),
        }
    }
}

impl<T: Iterable> ElementsOf<T> {
    /// Is `func` the type iterator of the type: does it take the values of
    /// the type, and yield their elements?
    pub open spec fn is_code_of(func: IteratorFn) -> bool {
        &&& forall|obj: Dynamic| #[trigger] func.accepts(obj) == (T::cast(obj) is Some)
        &&& forall|obj: Dynamic| #[trigger] func.items(obj) == T::cast(obj)->0.elements()
    }
}

impl Module {
    /// Set the type iterator of an iterable type into the module.
    ///
    /// If there is an existing iterator for the type, it is replaced.
    pub fn set_iterable<T>(&mut self) -> (ret: &mut Self)
        where
            T: Iterable,
        requires
            old(self).wf(),
        ensures
            *final(self) == *final(ret),
            ret.wf(),
            lookup(ret.iterators(), T::spec_type_id()) matches Some(func) && ElementsOf::<
                T,
            >::is_code_of(func) && ret.iterators() == upsert(
                old(self).iterators(),
                T::spec_type_id(),
                func,
            ),
            ret.id_view() == old(self).id_view(),
            ret.sub_modules() == old(self).sub_modules(),
            ret.variables() == old(self).variables(),
            ret.functions() == old(self).functions(),
            ret.cache() == index::empty_index(),
            !ret.is_indexed(),
    {
        let adapter = ElementsOf::<T> { marker: PhantomData };
        let ghost model = adapter;
        let code: Box<dyn TypeIterator> = Box::new(adapter);
        let func = Arc::new(code);
        proof {
            assert forall|obj: Dynamic| (#[trigger] func.accepts(obj)) == model.accepts(obj) by {}
            assert forall|obj: Dynamic| (#[trigger] func.items(obj)) == model.items(obj) by {}
            lemma_upsert(old(self).iterators(), T::spec_type_id(), func);
        }
        self.set_iter(T::type_id(), func)
    }

    /// Set the type iterator of a type whose values are used up by
    /// iteration into the module.  Such a value yields its elements as
    /// any iterable value does.
    ///
    /// If there is an existing iterator for the type, it is replaced.
    pub fn set_iterator<T>(&mut self) -> (ret: &mut Self)
        where
            T: Iterable,
        requires
            old(self).wf(),
        ensures
            *final(self) == *final(ret),
            ret.wf(),
            lookup(ret.iterators(), T::spec_type_id()) matches Some(func) && ElementsOf::<
                T,
            >::is_code_of(func) && ret.iterators() == upsert(
                old(self).iterators(),
                T::spec_type_id(),
                func,
            ),
            ret.id_view() == old(self).id_view(),
            ret.sub_modules() == old(self).sub_modules(),
            ret.variables() == old(self).variables(),
            ret.functions() == old(self).functions(),
            ret.cache() == index::empty_index(),
            !ret.is_indexed(),
    {
        self.set_iterable::<T>()
    }
}

} // verus!
