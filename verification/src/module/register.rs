//! Registration of typed functions.
//!
//! Each function here puts a typed Rust function into a module behind
//! the adapter of its shape, with the types of its parameters as its
//! parameter types.  The functions of the plain family take their
//! arguments by value and are registered as public functions of the
//! internal namespace.  Those of the method family take their first
//! argument by exclusive reference.  Getters, setters and indexers are
//! methods under reserved names in the global namespace.

use vstd::prelude::*;
use vstd::string::StringExecFns;
use std::marker::PhantomData;
use std::sync::Arc;
use crate::error::EvalAltResult;
use crate::fn_native::CallableFunction;
use crate::fn_native::FnAccess;
use crate::fn_native::FnCallArgs;
use crate::fn_native::NativeCallContext;
use crate::fn_native::NativeFn;
use crate::fn_native::FnCallResult;
use crate::fn_register::Method1;
use crate::fn_register::Method2;
use crate::fn_register::Method3;
use crate::fn_register::Method4;
use crate::fn_register::Pure0;
use crate::fn_register::Pure1;
use crate::fn_register::Pure2;
use crate::fn_register::Pure3;
use crate::fn_register::Pure4;
use crate::fn_register::Raw;
use crate::hash::native_hash;
use crate::module::Module;
use crate::module::functions::native_info;
use crate::module::index;
use crate::module::info::FnNamespace;
use crate::table::lemma_upsert;
use crate::table::lookup;
use crate::table::upsert;
use crate::value::Dynamic;
use crate::value::TypeId;
use crate::value::Variant;
use crate::value::normalized_types;

verus! {

/// The name under which the getter of a property is registered.
pub open spec fn getter_name(property: Seq<char>) -> Seq<char> {
    "get$"@ + property
}

/// The name under which the setter of a property is registered.
pub open spec fn setter_name(property: Seq<char>) -> Seq<char> {
    "set$"@ + property
}

/// The name under which an index getter is registered.
pub open spec fn index_getter_name() -> Seq<char> {
    "index-get"@
}

/// The name under which an index setter is registered.
pub open spec fn index_setter_name() -> Seq<char> {
    "index-set"@
}

/// The name under which the getter of a property is registered.
pub fn make_getter(property: &str) -> (name: String)
    ensures
        name@ == getter_name(property@),
{
    let mut name = String::from_str("get$");
    name.append(property);
    name
}

/// The name under which the setter of a property is registered.
pub fn make_setter(property: &str) -> (name: String)
    ensures
        name@ == setter_name(property@),
{
    let mut name = String::from_str("set$");
    name.append(property);
    name
}

impl Module {
    /// The callable that the module holds under `hash`.
    pub open spec fn registered(&self, hash: u64) -> CallableFunction {
        lookup(self.functions(), hash)->0.func
    }

    /// Is `self` the module `before` with one native function more: put
    /// under `hash`, with no parameter names, and nothing else changed but
    /// the cache, which is empty?
    pub open spec fn registers(
        &self,
        before: &Module,
        hash: u64,
        name: Seq<char>,
        namespace: FnNamespace,
        access: FnAccess,
        arg_types: Seq<TypeId>,
    ) -> bool {
        &&& self.functions() == upsert(
            before.functions(),
            hash,
            native_info(name, namespace, access, None, arg_types, self.registered(hash)),
        )
        &&& hash == native_hash(name, normalized_types(arg_types))
        &&& hash != 0
        &&& self.id_view() == before.id_view()
        &&& self.sub_modules() == before.sub_modules()
        &&& self.variables() == before.variables()
        &&& self.iterators() == before.iterators()
        &&& self.cache() == index::empty_index()
        &&& !self.is_indexed()
    }

    /// Set a Rust function taking no parameters into the module, returning
    /// a hash key.
    ///
    /// If there is a similar existing Rust function, it is replaced.  No
    /// parameter names are registered: use
    /// [`Module::update_fn_metadata`] to add them.
    pub fn set_fn_0<T, F>(&mut self, name: &str, func: F) -> (hash_fn: u64)
        where
            T: Variant,
            F: Fn() -> Result<T, Box<EvalAltResult>> + Send + Sync + 'static,
        requires
            old(self).wf(),
        ensures
            final(self).wf(),
            final(self).registers(
                old(self),
                hash_fn,
                name@,
                FnNamespace::Internal,
                FnAccess::Public,
                Seq::empty(),
            ),
            (Pure0::<T, F> { func, marker: PhantomData }).is_code_of(
                final(self).registered(hash_fn),
            ),
    {
        let adapter = Pure0::<T, F> { func, marker: PhantomData };
        let ghost model = adapter;
        let code: Box<dyn NativeFn> = Box::new(adapter);
        let shared = Arc::new(code);
        let callable = CallableFunction::Pure(shared);
        proof {
            assert(callable->Pure_0 == shared);
            assert forall|args: Seq<Dynamic>| (#[trigger] shared.accepts(args)) == model.accepts(
                args,
            ) by {}
            assert forall|args: Seq<Dynamic>, after: Seq<Dynamic>, result: FnCallResult| (
            #[trigger] shared.outcome(args, after, result)) == model.outcome(
                args,
                after,
                result,
            ) by {}
        }
        let arg_types: Vec<TypeId> = Vec::new();
        assert(arg_types@ =~= Seq::empty());
        let hash_fn = self.set_fn(
            name,
            FnNamespace::Internal,
            FnAccess::Public,
            None,
            arg_types.as_slice(),
            callable,
        );
        proof {
            lemma_upsert(
                old(self).functions(),
                hash_fn,
                native_info(
                    name@,
                    FnNamespace::Internal,
                    FnAccess::Public,
                    None,
                    arg_types@,
                    callable,
                ),
            );
        }
        hash_fn
    }

    /// Set a Rust function taking one parameter into the module, returning
    /// a hash key.
    ///
    /// If there is a similar existing Rust function, it is replaced.  No
    /// parameter names are registered: use
    /// [`Module::update_fn_metadata`] to add them.
    pub fn set_fn_1<A, T, F>(&mut self, name: &str, func: F) -> (hash_fn: u64)
        where
            A: Variant,
            T: Variant,
            F: Fn(A) -> Result<T, Box<EvalAltResult>> + Send + Sync + 'static,
        requires
            old(self).wf(),
        ensures
            final(self).wf(),
            final(self).registers(
                old(self),
                hash_fn,
                name@,
                FnNamespace::Internal,
                FnAccess::Public,
                seq![A::spec_type_id()],
            ),
            (Pure1::<A, T, F> { func, marker: PhantomData }).is_code_of(
                final(self).registered(hash_fn),
            ),
    {
        let adapter = Pure1::<A, T, F> { func, marker: PhantomData };
        let ghost model = adapter;
        let code: Box<dyn NativeFn> = Box::new(adapter);
        let shared = Arc::new(code);
        let callable = CallableFunction::Pure(shared);
        proof {
            assert(callable->Pure_0 == shared);
            assert forall|args: Seq<Dynamic>| (#[trigger] shared.accepts(args)) == model.accepts(
                args,
            ) by {}
            assert forall|args: Seq<Dynamic>, after: Seq<Dynamic>, result: FnCallResult| (
            #[trigger] shared.outcome(args, after, result)) == model.outcome(
                args,
                after,
                result,
            ) by {}
        }
        let mut arg_types: Vec<TypeId> = Vec::new();
        arg_types.push(A::type_id());
        assert(arg_types@ =~= seq![A::spec_type_id()]);
        let hash_fn = self.set_fn(
            name,
            FnNamespace::Internal,
            FnAccess::Public,
            None,
            arg_types.as_slice(),
            callable,
        );
        proof {
            lemma_upsert(
                old(self).functions(),
                hash_fn,
                native_info(
                    name@,
                    FnNamespace::Internal,
                    FnAccess::Public,
                    None,
                    arg_types@,
                    callable,
                ),
            );
        }
        hash_fn
    }

    /// Set a Rust function taking one mutable parameter into the
    /// module, returning a hash key.
    ///
    /// If there is a similar existing Rust function, it is replaced.  No
    /// parameter names are registered: use
    /// [`Module::update_fn_metadata`] to add them.
    pub fn set_fn_1_mut<A, T, F>(
        &mut self,
        name: &str,
        namespace: FnNamespace,
        func: F,
    ) -> (hash_fn: u64)
        where
            A: Variant,
            T: Variant,
            F: Fn(&mut A) -> Result<T, Box<EvalAltResult>> + Send + Sync + 'static,
        requires
            old(self).wf(),
        ensures
            final(self).wf(),
            final(self).registers(
                old(self),
                hash_fn,
                name@,
                namespace,
                FnAccess::Public,
                seq![A::spec_type_id()],
            ),
            (Method1::<A, T, F> { func, marker: PhantomData }).is_code_of(
                final(self).registered(hash_fn),
            ),
    {
        let adapter = Method1::<A, T, F> { func, marker: PhantomData };
        let ghost model = adapter;
        let code: Box<dyn NativeFn> = Box::new(adapter);
        let shared = Arc::new(code);
        let callable = CallableFunction::Method(shared);
        proof {
            assert(callable->Method_0 == shared);
            assert forall|args: Seq<Dynamic>| (#[trigger] shared.accepts(args)) == model.accepts(
                args,
            ) by {}
            assert forall|args: Seq<Dynamic>, after: Seq<Dynamic>, result: FnCallResult| (
            #[trigger] shared.outcome(args, after, result)) == model.outcome(
                args,
                after,
                result,
            ) by {}
        }
        let mut arg_types: Vec<TypeId> = Vec::new();
        arg_types.push(A::type_id());
        assert(arg_types@ =~= seq![A::spec_type_id()]);
        let hash_fn = self.set_fn(
            name,
            namespace,
            FnAccess::Public,
            None,
            arg_types.as_slice(),
            callable,
        );
        proof {
            lemma_upsert(
                old(self).functions(),
                hash_fn,
                native_info(
                    name@,
                    namespace,
                    FnAccess::Public,
                    None,
                    arg_types@,
                    callable,
                ),
            );
        }
        hash_fn
    }

    /// Set a Rust function taking two parameters into the module, returning
    /// a hash key.
    ///
    /// If there is a similar existing Rust function, it is replaced.  No
    /// parameter names are registered: use
    /// [`Module::update_fn_metadata`] to add them.
    pub fn set_fn_2<A, B, T, F>(&mut self, name: &str, func: F) -> (hash_fn: u64)
        where
            A: Variant,
            B: Variant,
            T: Variant,
            F: Fn(A, B) -> Result<T, Box<EvalAltResult>> + Send + Sync + 'static,
        requires
            old(self).wf(),
        ensures
            final(self).wf(),
            final(self).registers(
                old(self),
                hash_fn,
                name@,
                FnNamespace::Internal,
                FnAccess::Public,
                seq![A::spec_type_id(), B::spec_type_id()],
            ),
            (Pure2::<A, B, T, F> { func, marker: PhantomData }).is_code_of(
                final(self).registered(hash_fn),
            ),
    {
        let adapter = Pure2::<A, B, T, F> { func, marker: PhantomData };
        let ghost model = adapter;
        let code: Box<dyn NativeFn> = Box::new(adapter);
        let shared = Arc::new(code);
        let callable = CallableFunction::Pure(shared);
        proof {
            assert(callable->Pure_0 == shared);
            assert forall|args: Seq<Dynamic>| (#[trigger] shared.accepts(args)) == model.accepts(
                args,
            ) by {}
            assert forall|args: Seq<Dynamic>, after: Seq<Dynamic>, result: FnCallResult| (
            #[trigger] shared.outcome(args, after, result)) == model.outcome(
                args,
                after,
                result,
            ) by {}
        }
        let mut arg_types: Vec<TypeId> = Vec::new();
        arg_types.push(A::type_id());
        arg_types.push(B::type_id());
        assert(arg_types@ =~= seq![A::spec_type_id(), B::spec_type_id()]);
        let hash_fn = self.set_fn(
            name,
            FnNamespace::Internal,
            FnAccess::Public,
            None,
            arg_types.as_slice(),
            callable,
        );
        proof {
            lemma_upsert(
                old(self).functions(),
                hash_fn,
                native_info(
                    name@,
                    FnNamespace::Internal,
                    FnAccess::Public,
                    None,
                    arg_types@,
                    callable,
                ),
            );
        }
        hash_fn
    }

    /// Set a Rust function taking two parameters (the first one mutable) into the
    /// module, returning a hash key.
    ///
    /// If there is a similar existing Rust function, it is replaced.  No
    /// parameter names are registered: use
    /// [`Module::update_fn_metadata`] to add them.
    pub fn set_fn_2_mut<A, B, T, F>(
        &mut self,
        name: &str,
        namespace: FnNamespace,
        func: F,
    ) -> (hash_fn: u64)
        where
            A: Variant,
            B: Variant,
            T: Variant,
            F: Fn(&mut A, B) -> Result<T, Box<EvalAltResult>> + Send + Sync + 'static,
        requires
            old(self).wf(),
        ensures
            final(self).wf(),
            final(self).registers(
                old(self),
                hash_fn,
                name@,
                namespace,
                FnAccess::Public,
                seq![A::spec_type_id(), B::spec_type_id()],
            ),
            (Method2::<A, B, T, F> { func, marker: PhantomData }).is_code_of(
                final(self).registered(hash_fn),
            ),
    {
        let adapter = Method2::<A, B, T, F> { func, marker: PhantomData };
        let ghost model = adapter;
        let code: Box<dyn NativeFn> = Box::new(adapter);
        let shared = Arc::new(code);
        let callable = CallableFunction::Method(shared);
        proof {
            assert(callable->Method_0 == shared);
            assert forall|args: Seq<Dynamic>| (#[trigger] shared.accepts(args)) == model.accepts(
                args,
            ) by {}
            assert forall|args: Seq<Dynamic>, after: Seq<Dynamic>, result: FnCallResult| (
            #[trigger] shared.outcome(args, after, result)) == model.outcome(
                args,
                after,
                result,
            ) by {}
        }
        let mut arg_types: Vec<TypeId> = Vec::new();
        arg_types.push(A::type_id());
        arg_types.push(B::type_id());
        assert(arg_types@ =~= seq![A::spec_type_id(), B::spec_type_id()]);
        let hash_fn = self.set_fn(
            name,
            namespace,
            FnAccess::Public,
            None,
            arg_types.as_slice(),
            callable,
        );
        proof {
            lemma_upsert(
                old(self).functions(),
                hash_fn,
                native_info(
                    name@,
                    namespace,
                    FnAccess::Public,
                    None,
                    arg_types@,
                    callable,
                ),
            );
        }
        hash_fn
    }

    /// Set a Rust function taking three parameters into the module, returning
    /// a hash key.
    ///
    /// If there is a similar existing Rust function, it is replaced.  No
    /// parameter names are registered: use
    /// [`Module::update_fn_metadata`] to add them.
    pub fn set_fn_3<A, B, C, T, F>(&mut self, name: &str, func: F) -> (hash_fn: u64)
        where
            A: Variant,
            B: Variant,
            C: Variant,
            T: Variant,
            F: Fn(A, B, C) -> Result<T, Box<EvalAltResult>> + Send + Sync + 'static,
        requires
            old(self).wf(),
        ensures
            final(self).wf(),
            final(self).registers(
                old(self),
                hash_fn,
                name@,
                FnNamespace::Internal,
                FnAccess::Public,
                seq![A::spec_type_id(), B::spec_type_id(), C::spec_type_id()],
            ),
            (Pure3::<A, B, C, T, F> { func, marker: PhantomData }).is_code_of(
                final(self).registered(hash_fn),
            ),
    {
        let adapter = Pure3::<A, B, C, T, F> { func, marker: PhantomData };
        let ghost model = adapter;
        let code: Box<dyn NativeFn> = Box::new(adapter);
        let shared = Arc::new(code);
        let callable = CallableFunction::Pure(shared);
        proof {
            assert(callable->Pure_0 == shared);
            assert forall|args: Seq<Dynamic>| (#[trigger] shared.accepts(args)) == model.accepts(
                args,
            ) by {}
            assert forall|args: Seq<Dynamic>, after: Seq<Dynamic>, result: FnCallResult| (
            #[trigger] shared.outcome(args, after, result)) == model.outcome(
                args,
                after,
                result,
            ) by {}
        }
        let mut arg_types: Vec<TypeId> = Vec::new();
        arg_types.push(A::type_id());
        arg_types.push(B::type_id());
        arg_types.push(C::type_id());
        assert(arg_types@ =~= seq![A::spec_type_id(), B::spec_type_id(), C::spec_type_id()]);
        let hash_fn = self.set_fn(
            name,
            FnNamespace::Internal,
            FnAccess::Public,
            None,
            arg_types.as_slice(),
            callable,
        );
        proof {
            lemma_upsert(
                old(self).functions(),
                hash_fn,
                native_info(
                    name@,
                    FnNamespace::Internal,
                    FnAccess::Public,
                    None,
                    arg_types@,
                    callable,
                ),
            );
        }
        hash_fn
    }

    /// Set a Rust function taking three parameters (the first one mutable) into the
    /// module, returning a hash key.
    ///
    /// If there is a similar existing Rust function, it is replaced.  No
    /// parameter names are registered: use
    /// [`Module::update_fn_metadata`] to add them.
    pub fn set_fn_3_mut<A, B, C, T, F>(
        &mut self,
        name: &str,
        namespace: FnNamespace,
        func: F,
    ) -> (hash_fn: u64)
        where
            A: Variant,
            B: Variant,
            C: Variant,
            T: Variant,
            F: Fn(&mut A, B, C) -> Result<T, Box<EvalAltResult>> + Send + Sync + 'static,
        requires
            old(self).wf(),
        ensures
            final(self).wf(),
            final(self).registers(
                old(self),
                hash_fn,
                name@,
                namespace,
                FnAccess::Public,
                seq![A::spec_type_id(), B::spec_type_id(), C::spec_type_id()],
            ),
            (Method3::<A, B, C, T, F> { func, marker: PhantomData }).is_code_of(
                final(self).registered(hash_fn),
            ),
    {
        let adapter = Method3::<A, B, C, T, F> { func, marker: PhantomData };
        let ghost model = adapter;
        let code: Box<dyn NativeFn> = Box::new(adapter);
        let shared = Arc::new(code);
        let callable = CallableFunction::Method(shared);
        proof {
            assert(callable->Method_0 == shared);
            assert forall|args: Seq<Dynamic>| (#[trigger] shared.accepts(args)) == model.accepts(
                args,
            ) by {}
            assert forall|args: Seq<Dynamic>, after: Seq<Dynamic>, result: FnCallResult| (
            #[trigger] shared.outcome(args, after, result)) == model.outcome(
                args,
                after,
                result,
            ) by {}
        }
        let mut arg_types: Vec<TypeId> = Vec::new();
        arg_types.push(A::type_id());
        arg_types.push(B::type_id());
        arg_types.push(C::type_id());
        assert(arg_types@ =~= seq![A::spec_type_id(), B::spec_type_id(), C::spec_type_id()]);
        let hash_fn = self.set_fn(
            name,
            namespace,
            FnAccess::Public,
            None,
            arg_types.as_slice(),
            callable,
        );
        proof {
            lemma_upsert(
                old(self).functions(),
                hash_fn,
                native_info(
                    name@,
                    namespace,
                    FnAccess::Public,
                    None,
                    arg_types@,
                    callable,
                ),
            );
        }
        hash_fn
    }

    /// Set a Rust function taking four parameters into the module, returning
    /// a hash key.
    ///
    /// If there is a similar existing Rust function, it is replaced.  No
    /// parameter names are registered: use
    /// [`Module::update_fn_metadata`] to add them.
    pub fn set_fn_4<A, B, C, D, T, F>(&mut self, name: &str, func: F) -> (hash_fn: u64)
        where
            A: Variant,
            B: Variant,
            C: Variant,
            D: Variant,
            T: Variant,
            F: Fn(A, B, C, D) -> Result<T, Box<EvalAltResult>> + Send + Sync + 'static,
        requires
            old(self).wf(),
        ensures
            final(self).wf(),
            final(self).registers(
                old(self),
                hash_fn,
                name@,
                FnNamespace::Internal,
                FnAccess::Public,
                seq![A::spec_type_id(), B::spec_type_id(), C::spec_type_id(), D::spec_type_id()],
            ),
            (Pure4::<A, B, C, D, T, F> { func, marker: PhantomData }).is_code_of(
                final(self).registered(hash_fn),
            ),
    {
        let adapter = Pure4::<A, B, C, D, T, F> { func, marker: PhantomData };
        let ghost model = adapter;
        let code: Box<dyn NativeFn> = Box::new(adapter);
        let shared = Arc::new(code);
        let callable = CallableFunction::Pure(shared);
        proof {
            assert(callable->Pure_0 == shared);
            assert forall|args: Seq<Dynamic>| (#[trigger] shared.accepts(args)) == model.accepts(
                args,
            ) by {}
            assert forall|args: Seq<Dynamic>, after: Seq<Dynamic>, result: FnCallResult| (
            #[trigger] shared.outcome(args, after, result)) == model.outcome(
                args,
                after,
                result,
            ) by {}
        }
        let mut arg_types: Vec<TypeId> = Vec::new();
        arg_types.push(A::type_id());
        arg_types.push(B::type_id());
        arg_types.push(C::type_id());
        arg_types.push(D::type_id());
        assert(arg_types@ =~= seq![
            A::spec_type_id(),
            B::spec_type_id(),
            C::spec_type_id(),
            D::spec_type_id(),
        ]);
        let hash_fn = self.set_fn(
            name,
            FnNamespace::Internal,
            FnAccess::Public,
            None,
            arg_types.as_slice(),
            callable,
        );
        proof {
            lemma_upsert(
                old(self).functions(),
                hash_fn,
                native_info(
                    name@,
                    FnNamespace::Internal,
                    FnAccess::Public,
                    None,
                    arg_types@,
                    callable,
                ),
            );
        }
        hash_fn
    }

    /// Set a Rust function taking four parameters (the first one mutable) into the
    /// module, returning a hash key.
    ///
    /// If there is a similar existing Rust function, it is replaced.  No
    /// parameter names are registered: use
    /// [`Module::update_fn_metadata`] to add them.
    pub fn set_fn_4_mut<A, B, C, D, T, F>(
        &mut self,
        name: &str,
        namespace: FnNamespace,
        func: F,
    ) -> (hash_fn: u64)
        where
            A: Variant,
            B: Variant,
            C: Variant,
            D: Variant,
            T: Variant,
            F: Fn(&mut A, B, C, D) -> Result<T, Box<EvalAltResult>> + Send + Sync + 'static,
        requires
            old(self).wf(),
        ensures
            final(self).wf(),
            final(self).registers(
                old(self),
                hash_fn,
                name@,
                namespace,
                FnAccess::Public,
                seq![A::spec_type_id(), B::spec_type_id(), C::spec_type_id(), D::spec_type_id()],
            ),
            (Method4::<A, B, C, D, T, F> { func, marker: PhantomData }).is_code_of(
                final(self).registered(hash_fn),
            ),
    {
        let adapter = Method4::<A, B, C, D, T, F> { func, marker: PhantomData };
        let ghost model = adapter;
        let code: Box<dyn NativeFn> = Box::new(adapter);
        let shared = Arc::new(code);
        let callable = CallableFunction::Method(shared);
        proof {
            assert(callable->Method_0 == shared);
            assert forall|args: Seq<Dynamic>| (#[trigger] shared.accepts(args)) == model.accepts(
                args,
            ) by {}
            assert forall|args: Seq<Dynamic>, after: Seq<Dynamic>, result: FnCallResult| (
            #[trigger] shared.outcome(args, after, result)) == model.outcome(
                args,
                after,
                result,
            ) by {}
        }
        let mut arg_types: Vec<TypeId> = Vec::new();
        arg_types.push(A::type_id());
        arg_types.push(B::type_id());
        arg_types.push(C::type_id());
        arg_types.push(D::type_id());
        assert(arg_types@ =~= seq![
            A::spec_type_id(),
            B::spec_type_id(),
            C::spec_type_id(),
            D::spec_type_id(),
        ]);
        let hash_fn = self.set_fn(
            name,
            namespace,
            FnAccess::Public,
            None,
            arg_types.as_slice(),
            callable,
        );
        proof {
            lemma_upsert(
                old(self).functions(),
                hash_fn,
                native_info(
                    name@,
                    namespace,
                    FnAccess::Public,
                    None,
                    arg_types@,
                    callable,
                ),
            );
        }
        hash_fn
    }

    /// Set a Rust function taking the call context and the whole
    /// argument list into the module, returning a hash key.
    ///
    /// The function is registered as a method under the parameter types
    /// given: it should not use up its first argument.  If there is a
    /// similar existing Rust function, it is replaced.
    pub fn set_raw_fn<T, F>(
        &mut self,
        name: &str,
        namespace: FnNamespace,
        access: FnAccess,
        arg_types: &[TypeId],
        func: F,
    ) -> (hash_fn: u64)
        where
            T: Variant,
            F: Fn(NativeCallContext, &mut FnCallArgs) -> Result<T, Box<EvalAltResult>> + Send + Sync + 'static,
        requires
            old(self).wf(),
        ensures
            final(self).wf(),
            final(self).registers(old(self), hash_fn, name@, namespace, access, arg_types@),
            (Raw::<T, F> { func, marker: PhantomData }).is_code_of(final(self).registered(hash_fn)),
    {
        let adapter = Raw::<T, F> { func, marker: PhantomData };
        let ghost model = adapter;
        let code: Box<dyn NativeFn> = Box::new(adapter);
        let shared = Arc::new(code);
        let callable = CallableFunction::Method(shared);
        proof {
            assert(callable->Method_0 == shared);
            assert forall|args: Seq<Dynamic>| (#[trigger] shared.accepts(args)) == model.accepts(
                args,
            ) by {}
            assert forall|args: Seq<Dynamic>, after: Seq<Dynamic>, result: FnCallResult| (
            #[trigger] shared.outcome(args, after, result)) == model.outcome(
                args,
                after,
                result,
            ) by {}
        }
        let hash_fn = self.set_fn(name, namespace, access, None, arg_types, callable);
        proof {
            lemma_upsert(
                old(self).functions(),
                hash_fn,
                native_info(name@, namespace, access, None, arg_types@, callable),
            );
        }
        hash_fn
    }

    /// Set a Rust getter function taking one mutable parameter, returning
    /// a hash key.  The function is registered under the getter name of
    /// the property and exposed to the global namespace.
    ///
    /// If there is a similar existing Rust getter function, it is
    /// replaced.
    pub fn set_getter_fn<A, T, F>(&mut self, name: &str, func: F) -> (hash_fn: u64)
        where
            A: Variant,
            T: Variant,
            F: Fn(&mut A) -> Result<T, Box<EvalAltResult>> + Send + Sync + 'static,
        requires
            old(self).wf(),
        ensures
            final(self).wf(),
            final(self).registers(
                old(self),
                hash_fn,
                getter_name(name@),
                FnNamespace::Global,
                FnAccess::Public,
                seq![A::spec_type_id()],
            ),
            (Method1::<A, T, F> { func, marker: PhantomData }).is_code_of(
                final(self).registered(hash_fn),
            ),
    {
        let getter = make_getter(name);
        self.set_fn_1_mut(getter.as_str(), FnNamespace::Global, func)
    }

    /// Set a Rust setter function taking two parameters (the first one
    /// mutable), returning a hash key.  The function is registered under
    /// the setter name of the property and exposed to the global
    /// namespace.
    ///
    /// If there is a similar existing Rust setter function, it is
    /// replaced.
    pub fn set_setter_fn<A, B, F>(&mut self, name: &str, func: F) -> (hash_fn: u64)
        where
            A: Variant,
            B: Variant,
            F: Fn(&mut A, B) -> Result<(), Box<EvalAltResult>> + Send + Sync + 'static,
        requires
            old(self).wf(),
        ensures
            final(self).wf(),
            final(self).registers(
                old(self),
                hash_fn,
                setter_name(name@),
                FnNamespace::Global,
                FnAccess::Public,
                seq![A::spec_type_id(), B::spec_type_id()],
            ),
            (Method2::<A, B, (), F> { func, marker: PhantomData }).is_code_of(
                final(self).registered(hash_fn),
            ),
    {
        let setter = make_setter(name);
        self.set_fn_2_mut(setter.as_str(), FnNamespace::Global, func)
    }

    /// Set a Rust index getter taking two parameters (the first one
    /// mutable), returning a hash key.  The function is registered under
    /// the name of index getters and exposed to the global namespace.
    ///
    /// The type indexed must not be one that the runtime indexes itself:
    /// no indexer can be registered for sequences, maps or strings.
    ///
    /// If there is a similar existing index getter, it is replaced.
    pub fn set_indexer_get_fn<A, B, T, F>(&mut self, func: F) -> (hash_fn: u64)
        where
            A: Variant,
            B: Variant,
            T: Variant,
            F: Fn(&mut A, B) -> Result<T, Box<EvalAltResult>> + Send + Sync + 'static,
        requires
            old(self).wf(),
            !A::spec_type_id().has_intrinsic_indexing(),
        ensures
            final(self).wf(),
            final(self).registers(
                old(self),
                hash_fn,
                index_getter_name(),
                FnNamespace::Global,
                FnAccess::Public,
                seq![A::spec_type_id(), B::spec_type_id()],
            ),
            (Method2::<A, B, T, F> { func, marker: PhantomData }).is_code_of(
                final(self).registered(hash_fn),
            ),
    {
        self.set_fn_2_mut("index-get", FnNamespace::Global, func)
    }

    /// Set a Rust index setter taking three parameters (the first one
    /// mutable), returning a hash key.  The function is registered under
    /// the name of index setters and exposed to the global namespace.
    ///
    /// The type indexed must not be one that the runtime indexes itself:
    /// no indexer can be registered for sequences, maps or strings.
    ///
    /// If there is a similar existing index setter, it is replaced.
    pub fn set_indexer_set_fn<A, B, C, F>(&mut self, func: F) -> (hash_fn: u64)
        where
            A: Variant,
            B: Variant,
            C: Variant,
            F: Fn(&mut A, B, C) -> Result<(), Box<EvalAltResult>> + Send + Sync + 'static,
        requires
            old(self).wf(),
            !A::spec_type_id().has_intrinsic_indexing(),
        ensures
            final(self).wf(),
            final(self).registers(
                old(self),
                hash_fn,
                index_setter_name(),
                FnNamespace::Global,
                FnAccess::Public,
                seq![A::spec_type_id(), B::spec_type_id(), C::spec_type_id()],
            ),
            (Method3::<A, B, C, (), F> { func, marker: PhantomData }).is_code_of(
                final(self).registered(hash_fn),
            ),
    {
        self.set_fn_3_mut("index-set", FnNamespace::Global, func)
    }

    /// Set a pair of Rust index getter and setter functions, returning
    /// both hash keys: the getter is registered first, then the setter.
    ///
    /// The type indexed must not be one that the runtime indexes itself.
    /// If there are similar existing Rust functions, they are replaced.
    pub fn set_indexer_get_set_fn<A, B, T, G, F>(&mut self, getter: G, setter: F) -> (hashes: (
        u64,
        u64,
    ))
        where
            A: Variant,
            B: Variant,
            T: Variant,
            G: Fn(&mut A, B) -> Result<T, Box<EvalAltResult>> + Send + Sync + 'static,
            F: Fn(&mut A, B, T) -> Result<(), Box<EvalAltResult>> + Send + Sync + 'static,
        requires
            old(self).wf(),
            !A::spec_type_id().has_intrinsic_indexing(),
        ensures
            final(self).wf(),
            hashes.0 == native_hash(
                index_getter_name(),
                normalized_types(seq![A::spec_type_id(), B::spec_type_id()]),
            ),
            hashes.1 == native_hash(
                index_setter_name(),
                normalized_types(seq![A::spec_type_id(), B::spec_type_id(), T::spec_type_id()]),
            ),
            exists|getter_code: CallableFunction|
                {
                    &&& #[trigger] (Method2::<A, B, T, G> {
                        func: getter,
                        marker: PhantomData,
                    }).is_code_of(getter_code)
                    &&& final(self).functions() == upsert(
                        upsert(
                            old(self).functions(),
                            hashes.0,
                            native_info(
                                index_getter_name(),
                                FnNamespace::Global,
                                FnAccess::Public,
                                None,
                                seq![A::spec_type_id(), B::spec_type_id()],
                                getter_code,
                            ),
                        ),
                        hashes.1,
                        native_info(
                            index_setter_name(),
                            FnNamespace::Global,
                            FnAccess::Public,
                            None,
                            seq![A::spec_type_id(), B::spec_type_id(), T::spec_type_id()],
                            final(self).registered(hashes.1),
                        ),
                    )
                },
            final(self).id_view() == old(self).id_view(),
            final(self).sub_modules() == old(self).sub_modules(),
            final(self).variables() == old(self).variables(),
            final(self).iterators() == old(self).iterators(),
            final(self).cache() == index::empty_index(),
            !final(self).is_indexed(),
            (Method3::<A, B, T, (), F> { func: setter, marker: PhantomData }).is_code_of(
                final(self).registered(hashes.1),
            ),
    {
        let hash_get = self.set_indexer_get_fn(getter);
        let ghost with_getter = *self;
        let hash_set = self.set_indexer_set_fn(setter);
        proof {
            let held = with_getter.registered(hash_get);
            assert((Method2::<A, B, T, G> { func: getter, marker: PhantomData }).is_code_of(held));
        }
        (hash_get, hash_set)
    }
}

} // verus!
