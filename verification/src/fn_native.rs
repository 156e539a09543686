//! Callable functions.
//!
//! A callable is either native code behind the uniform call signature of
//! [`NativeFn`], or a function defined in a script.  The registry stores
//! callables and hands them out; it never calls one.

use vstd::prelude::*;
use std::sync::Arc;
use crate::error::EvalAltResult;
use crate::value::Dynamic;
use crate::value::Shared;

verus! {

/// Who may call a function.
#[derive(Clone, Copy, Debug, PartialEq, Eq, Structural, Hash)]
pub enum FnAccess {
    /// Callable from outside the module that defines it.
    Public,
    /// Callable only from inside the module that defines it.
    Private,
}

impl FnAccess {
    /// Is this access mode [public][FnAccess::Public]?
    #[verifier::allow_in_spec]
    pub fn is_public(self) -> bool
        returns
            (self is Public),
    {
        match self {
            FnAccess::Public => true,
            FnAccess::Private => false,
        }
    }

    /// Is this access mode [private][FnAccess::Private]?
    #[verifier::allow_in_spec]
    pub fn is_private(self) -> bool
        returns
            (self is Private),
    {
        match self {
            FnAccess::Public => false,
            FnAccess::Private => true,
        }
    }
}

/// The ambient settings of the evaluation in which a native function is
/// called.
#[derive(Clone, Copy, Debug, PartialEq, Eq, Structural)]
pub struct NativeCallContext {
    /// How deep calls may nest.
    pub max_call_levels: usize,
    /// How many items a sequence may hold; zero for no limit.
    pub max_array_size: usize,
    /// How many bytes a string may hold; zero for no limit.
    pub max_string_size: usize,
}

/// The arguments of a call, in order.
pub type FnCallArgs = Vec<Dynamic>;

/// What a native call gives back.
pub type FnCallResult = Result<Dynamic, Box<EvalAltResult>>;

/// Native code behind the uniform call signature.
pub trait NativeFn: Send + Sync {
    /// Is `args` an argument list that the function takes: the right
    /// number of values, each of the type of its parameter?
    spec fn accepts(&self, args: Seq<Dynamic>) -> bool;

    /// Can a call with the arguments `args` leave them as `after` and give
    /// back `result`?
    spec fn outcome(&self, args: Seq<Dynamic>, after: Seq<Dynamic>, result: FnCallResult) -> bool;

    /// Calls the function.  A method may change its first argument in
    /// place; every other argument may be used up by the call.
    fn call(&self, context: NativeCallContext, args: &mut FnCallArgs) -> (result: FnCallResult)
        requires
            self.accepts(old(args)@),
        ensures
            self.outcome(old(args)@, final(args)@, result),
    ;
}

/// A function defined in a script.
#[derive(Clone, Debug, PartialEq, Eq)]
pub struct ScriptFnDef {
    /// Function name.
    pub name: String,
    /// Function access mode.
    pub access: FnAccess,
    /// Names of the parameters, in order.
    pub params: Vec<String>,
    /// The body, as source text.
    pub body: String,
}

/// A callable function.
pub enum CallableFunction {
    /// Native code that takes all its arguments by value.
    Pure(Shared<Box<dyn NativeFn>>),
    /// Native code that takes its first argument by exclusive reference
    /// and never uses it up.
    Method(Shared<Box<dyn NativeFn>>),
    /// A function defined in a script.
    Script(Shared<ScriptFnDef>),
}

impl CallableFunction {
    /// Is this a pure native function?
    #[verifier::allow_in_spec]
    pub fn is_pure(&self) -> bool
        returns
            (self is Pure),
    {
        match self {
            CallableFunction::Pure(_) => true,
            _ => false,
        }
    }

    /// Is this a native method?
    #[verifier::allow_in_spec]
    pub fn is_method(&self) -> bool
        returns
            (self is Method),
    {
        match self {
            CallableFunction::Method(_) => true,
            _ => false,
        }
    }

    /// Is this a function defined in a script?
    #[verifier::allow_in_spec]
    pub fn is_script(&self) -> bool
        returns
            (self is Script),
    {
        match self {
            CallableFunction::Script(_) => true,
            _ => false,
        }
    }

    /// Is this native code?
    #[verifier::allow_in_spec]
    pub fn is_native(&self) -> bool
        returns
            (!(self is Script)),
    {
        match self {
            CallableFunction::Script(_) => false,
            _ => true,
        }
    }

    /// The access mode: that of the definition for a script function,
    /// public for native code.
    #[verifier::allow_in_spec]
    pub fn access(&self) -> FnAccess
        returns
            (match self {
                CallableFunction::Script(def) => def.access,
                _ => FnAccess::Public,
            }),
    {
        match self {
            CallableFunction::Script(def) => def.access,
            _ => FnAccess::Public,
        }
    }

    /// The definition of a script function.
    pub fn get_fn_def(&self) -> (def: &ScriptFnDef)
        requires
            self.is_script(),
        ensures
            match *self {
                CallableFunction::Script(held) => *held == *def,
                _ => false,
            },
    {
        match self {
            CallableFunction::Script(def) => def,
            _ => vstd::pervasive::unreached(),
        }
    }

    /// The code of a native function.
    pub fn get_native_fn(&self) -> (code: &Box<dyn NativeFn>)
        requires
            self.is_native(),
        ensures
            match *self {
                CallableFunction::Pure(held) => *held == *code,
                CallableFunction::Method(held) => *held == *code,
                CallableFunction::Script(_) => false,
            },
    {
        match self {
            CallableFunction::Pure(code) => code,
            CallableFunction::Method(code) => code,
            _ => vstd::pervasive::unreached(),
        }
    }

    /// Makes native code a pure function.
    pub fn from_pure(code: Box<dyn NativeFn>) -> (func: CallableFunction)
        ensures
            func == CallableFunction::Pure(Arc::new(code)),
    {
        CallableFunction::Pure(Arc::new(code))
    }

    /// Makes native code a method.
    pub fn from_method(code: Box<dyn NativeFn>) -> (func: CallableFunction)
        ensures
            func == CallableFunction::Method(Arc::new(code)),
    {
        CallableFunction::Method(Arc::new(code))
    }

    /// Makes a script definition a callable.
    pub fn from_script(def: Shared<ScriptFnDef>) -> (func: CallableFunction)
        ensures
            func == CallableFunction::Script(def),
    {
        CallableFunction::Script(def)
    }
}

impl Clone for CallableFunction {
    /// Another handle to the same code or definition.
    fn clone(&self) -> (r: Self)
        ensures
            r == *self,
    {
        match self {
            CallableFunction::Pure(code) => CallableFunction::Pure(code.clone()),
            CallableFunction::Method(code) => CallableFunction::Method(code.clone()),
            CallableFunction::Script(def) => CallableFunction::Script(def.clone()),
        }
    }
}

/// Turns a value of one type into the sequence of values that iteration
/// over it yields.
pub trait TypeIterator: Send + Sync {
    /// Is `obj` a value of the type that the adapter iterates over?
    spec fn accepts(&self, obj: Dynamic) -> bool;

    /// The values that iteration over `obj` yields, in order.
    spec fn items(&self, obj: Dynamic) -> Seq<Dynamic>;

    fn iterate(&self, obj: Dynamic) -> (values: Vec<Dynamic>)
        requires
            self.accepts(obj),
        ensures
            values@ == self.items(obj),
    ;
}

/// A shared iteration adapter.
pub type IteratorFn = Shared<Box<dyn TypeIterator>>;

} // verus!
