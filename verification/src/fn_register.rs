//! Adapters from typed functions to the uniform native call signature.
//!
//! A function of up to four typed parameters is registered behind an
//! adapter.  The adapter takes the arguments out of the type-erased list
//! one by one, each cast to the type of its parameter, calls the
//! function, and wraps what it returns.  There are two families.  A
//! *pure* adapter takes every argument by value and uses it up: its place
//! in the list holds the unit value afterwards.  A *method* adapter hands
//! the first argument to the function by exclusive reference and puts it
//! back as the function left it; the other arguments it uses up.

use vstd::prelude::*;
use std::marker::PhantomData;
use crate::error::EvalAltResult;
use crate::error::Position;
use crate::fn_native::CallableFunction;
use crate::fn_native::FnCallArgs;
use crate::fn_native::FnCallResult;
use crate::fn_native::NativeCallContext;
use crate::fn_native::NativeFn;
use crate::value::Dynamic;
use crate::value::Variant;

verus! {

/// The argument list after every argument from place `from` on is used
/// up.
pub open spec fn used_up(args: Seq<Dynamic>, from: int) -> Seq<Dynamic> {
    Seq::new(
        args.len(),
        |i: int|
            if i >= from {
                Dynamic::Unit
            } else {
                args[i]
            },
    )
}

/// Is `result` what the adapter makes of `returned`: the value wrapped,
/// or the error as it is?
pub open spec fn wraps<T: Variant>(
    result: FnCallResult,
    returned: Result<T, Box<EvalAltResult>>,
) -> bool {
    match (result, returned) {
        (Ok(value), Ok(inner)) => value == inner.as_dynamic(),
        (Err(error), Err(inner)) => error == inner,
        _ => false,
    }
}

/// Wraps what a typed function returned.
fn wrap<T: Variant>(returned: Result<T, Box<EvalAltResult>>) -> (result: FnCallResult)
    ensures
        wraps(result, returned),
{
    match returned {
        Ok(inner) => Ok(inner.into_dynamic()),
        Err(inner) => Err(inner),
    }
}

/// Takes the argument at place `index` out of the list and leaves the
/// unit value there.
fn take_arg(args: &mut FnCallArgs, index: usize) -> (value: Dynamic)
    requires
        index < old(args)@.len(),
    ensures
        value == old(args)@[index as int],
        final(args)@ == old(args)@.update(index as int, Dynamic::Unit),
{
    let value = args[index].clone();
    args.set(index, Dynamic::Unit);
    value
}

/// The error of an argument list that the adapter does not take: it
/// names the place of the first argument that is of another type than
/// its parameter, and no position in a script.
pub open spec fn mismatch_at(index: usize) -> FnCallResult {
    Err(Box::new(EvalAltResult::ErrorMismatchArgument(index, Position::none())))
}

/// The error of an argument list that the adapter does not take.
fn mismatch(index: usize) -> (result: FnCallResult)
    ensures
        result == mismatch_at(index),
{
    Err(Box::new(EvalAltResult::ErrorMismatchArgument(index, Position::none())))
}

/// A function of no parameters as a pure native function.
pub struct Pure0<T, F> {
    pub func: F,
    pub marker: PhantomData<(T,)>,
}

impl<T, F> NativeFn for Pure0<T, F> where
    T: Variant,
    F: Fn() -> Result<T, Box<EvalAltResult>> + Send + Sync,
{
    open spec fn accepts(&self, args: Seq<Dynamic>) -> bool {
        &&& args.len() == 0
        &&& call_requires(self.func, ())
    }

    open spec fn outcome(
        &self,
        args: Seq<Dynamic>,
        after: Seq<Dynamic>,
        result: FnCallResult,
    ) -> bool {
        &&& after == used_up(args, 0)
        &&& exists|returned: Result<T, Box<EvalAltResult>>|
            {
                &&& #[trigger] call_ensures(
                    self.func,
                    (),
                    returned,
                )
                &&& wraps(result, returned)
            }
    }

    fn call(&self, context: NativeCallContext, args: &mut FnCallArgs) -> (result: FnCallResult) {
        let returned = (self.func)();
        assert(args@ =~= used_up(old(args)@, 0));
        wrap(returned)
    }
}

impl<T, F> Pure0<T, F> where
    T: Variant,
    F: Fn() -> Result<T, Box<EvalAltResult>> + Send + Sync,
{
    /// Is `callable` this adapter as a pure function: does it take the same
    /// argument lists, with the same outcomes?
    pub open spec fn is_code_of(&self, callable: CallableFunction) -> bool {
        &&& callable matches CallableFunction::Pure(code)
        &&& forall|args: Seq<Dynamic>| #[trigger] code.accepts(args) == self.accepts(args)
        &&& forall|args: Seq<Dynamic>, after: Seq<Dynamic>, result: FnCallResult| #[trigger]
            code.outcome(args, after, result) == self.outcome(args, after, result)
    }
}

/// A function of one parameter as a pure native function.
pub struct Pure1<A, T, F> {
    pub func: F,
    pub marker: PhantomData<(A, T)>,
}

impl<A, T, F> NativeFn for Pure1<A, T, F> where
    A: Variant,
    T: Variant,
    F: Fn(A) -> Result<T, Box<EvalAltResult>> + Send + Sync,
{
    open spec fn accepts(&self, args: Seq<Dynamic>) -> bool {
        &&& args.len() == 1
        &&& A::cast(args[0]) is Some
        &&& call_requires(self.func, (A::cast(args[0])->0,))
    }

    open spec fn outcome(
        &self,
        args: Seq<Dynamic>,
        after: Seq<Dynamic>,
        result: FnCallResult,
    ) -> bool {
        &&& after == used_up(args, 0)
        &&& exists|returned: Result<T, Box<EvalAltResult>>|
            {
                &&& #[trigger] call_ensures(
                    self.func,
                    (A::cast(args[0])->0,),
                    returned,
                )
                &&& wraps(result, returned)
            }
    }

    fn call(&self, context: NativeCallContext, args: &mut FnCallArgs) -> (result: FnCallResult) {
        let a = A::try_cast(take_arg(args, 0));
        assert(args@ =~= used_up(old(args)@, 0));
        match a {
            Some(a) => wrap((self.func)(a)),
            None => mismatch(0),
        }
    }
}

impl<A, T, F> Pure1<A, T, F> where
    A: Variant,
    T: Variant,
    F: Fn(A) -> Result<T, Box<EvalAltResult>> + Send + Sync,
{
    /// Is `callable` this adapter as a pure function: does it take the same
    /// argument lists, with the same outcomes?
    pub open spec fn is_code_of(&self, callable: CallableFunction) -> bool {
        &&& callable matches CallableFunction::Pure(code)
        &&& forall|args: Seq<Dynamic>| #[trigger] code.accepts(args) == self.accepts(args)
        &&& forall|args: Seq<Dynamic>, after: Seq<Dynamic>, result: FnCallResult| #[trigger]
            code.outcome(args, after, result) == self.outcome(args, after, result)
    }
}

/// A function of two parameters as a pure native function.
pub struct Pure2<A, B, T, F> {
    pub func: F,
    pub marker: PhantomData<(A, B, T)>,
}

impl<A, B, T, F> NativeFn for Pure2<A, B, T, F> where
    A: Variant,
    B: Variant,
    T: Variant,
    F: Fn(A, B) -> Result<T, Box<EvalAltResult>> + Send + Sync,
{
    open spec fn accepts(&self, args: Seq<Dynamic>) -> bool {
        &&& args.len() == 2
        &&& A::cast(args[0]) is Some
        &&& B::cast(args[1]) is Some
        &&& call_requires(self.func, (A::cast(args[0])->0, B::cast(args[1])->0))
    }

    open spec fn outcome(
        &self,
        args: Seq<Dynamic>,
        after: Seq<Dynamic>,
        result: FnCallResult,
    ) -> bool {
        &&& after == used_up(args, 0)
        &&& exists|returned: Result<T, Box<EvalAltResult>>|
            {
                &&& #[trigger] call_ensures(
                    self.func,
                    (A::cast(args[0])->0, B::cast(args[1])->0),
                    returned,
                )
                &&& wraps(result, returned)
            }
    }

    fn call(&self, context: NativeCallContext, args: &mut FnCallArgs) -> (result: FnCallResult) {
        let a = A::try_cast(take_arg(args, 0));
        let b = B::try_cast(take_arg(args, 1));
        assert(args@ =~= used_up(old(args)@, 0));
        match (a, b) {
            (Some(a), Some(b)) => wrap((self.func)(a, b)),
            (None, _) => mismatch(0),
            (_, None) => mismatch(1),
        }
    }
}

impl<A, B, T, F> Pure2<A, B, T, F> where
    A: Variant,
    B: Variant,
    T: Variant,
    F: Fn(A, B) -> Result<T, Box<EvalAltResult>> + Send + Sync,
{
    /// Is `callable` this adapter as a pure function: does it take the same
    /// argument lists, with the same outcomes?
    pub open spec fn is_code_of(&self, callable: CallableFunction) -> bool {
        &&& callable matches CallableFunction::Pure(code)
        &&& forall|args: Seq<Dynamic>| #[trigger] code.accepts(args) == self.accepts(args)
        &&& forall|args: Seq<Dynamic>, after: Seq<Dynamic>, result: FnCallResult| #[trigger]
            code.outcome(args, after, result) == self.outcome(args, after, result)
    }
}

/// A function of three parameters as a pure native function.
pub struct Pure3<A, B, C, T, F> {
    pub func: F,
    pub marker: PhantomData<(A, B, C, T)>,
}

impl<A, B, C, T, F> NativeFn for Pure3<A, B, C, T, F> where
    A: Variant,
    B: Variant,
    C: Variant,
    T: Variant,
    F: Fn(A, B, C) -> Result<T, Box<EvalAltResult>> + Send + Sync,
{
    open spec fn accepts(&self, args: Seq<Dynamic>) -> bool {
        &&& args.len() == 3
        &&& A::cast(args[0]) is Some
        &&& B::cast(args[1]) is Some
        &&& C::cast(args[2]) is Some
        &&& call_requires(
            self.func,
            (A::cast(args[0])->0, B::cast(args[1])->0, C::cast(args[2])->0),
        )
    }

    open spec fn outcome(
        &self,
        args: Seq<Dynamic>,
        after: Seq<Dynamic>,
        result: FnCallResult,
    ) -> bool {
        &&& after == used_up(args, 0)
        &&& exists|returned: Result<T, Box<EvalAltResult>>|
            {
                &&& #[trigger] call_ensures(
                    self.func,
                    (A::cast(args[0])->0, B::cast(args[1])->0, C::cast(args[2])->0),
                    returned,
                )
                &&& wraps(result, returned)
            }
    }

    fn call(&self, context: NativeCallContext, args: &mut FnCallArgs) -> (result: FnCallResult) {
        let a = A::try_cast(take_arg(args, 0));
        let b = B::try_cast(take_arg(args, 1));
        let c = C::try_cast(take_arg(args, 2));
        assert(args@ =~= used_up(old(args)@, 0));
        match (a, b, c) {
            (Some(a), Some(b), Some(c)) => wrap((self.func)(a, b, c)),
            (None, _, _) => mismatch(0),
            (_, None, _) => mismatch(1),
            (_, _, None) => mismatch(2),
        }
    }
}

impl<A, B, C, T, F> Pure3<A, B, C, T, F> where
    A: Variant,
    B: Variant,
    C: Variant,
    T: Variant,
    F: Fn(A, B, C) -> Result<T, Box<EvalAltResult>> + Send + Sync,
{
    /// Is `callable` this adapter as a pure function: does it take the same
    /// argument lists, with the same outcomes?
    pub open spec fn is_code_of(&self, callable: CallableFunction) -> bool {
        &&& callable matches CallableFunction::Pure(code)
        &&& forall|args: Seq<Dynamic>| #[trigger] code.accepts(args) == self.accepts(args)
        &&& forall|args: Seq<Dynamic>, after: Seq<Dynamic>, result: FnCallResult| #[trigger]
            code.outcome(args, after, result) == self.outcome(args, after, result)
    }
}

/// A function of four parameters as a pure native function.
pub struct Pure4<A, B, C, D, T, F> {
    pub func: F,
    pub marker: PhantomData<(A, B, C, D, T)>,
}

impl<A, B, C, D, T, F> NativeFn for Pure4<A, B, C, D, T, F> where
    A: Variant,
    B: Variant,
    C: Variant,
    D: Variant,
    T: Variant,
    F: Fn(A, B, C, D) -> Result<T, Box<EvalAltResult>> + Send + Sync,
{
    open spec fn accepts(&self, args: Seq<Dynamic>) -> bool {
        &&& args.len() == 4
        &&& A::cast(args[0]) is Some
        &&& B::cast(args[1]) is Some
        &&& C::cast(args[2]) is Some
        &&& D::cast(args[3]) is Some
        &&& call_requires(
            self.func,
            (
                A::cast(args[0])->0,
                B::cast(args[1])->0,
                C::cast(args[2])->0,
                D::cast(args[3])->0,
            ),
        )
    }

    open spec fn outcome(
        &self,
        args: Seq<Dynamic>,
        after: Seq<Dynamic>,
        result: FnCallResult,
    ) -> bool {
        &&& after == used_up(args, 0)
        &&& exists|returned: Result<T, Box<EvalAltResult>>|
            {
                &&& #[trigger] call_ensures(
                    self.func,
                    (
                        A::cast(args[0])->0,
                        B::cast(args[1])->0,
                        C::cast(args[2])->0,
                        D::cast(args[3])->0,
                    ),
                    returned,
                )
                &&& wraps(result, returned)
            }
    }

    fn call(&self, context: NativeCallContext, args: &mut FnCallArgs) -> (result: FnCallResult) {
        let a = A::try_cast(take_arg(args, 0));
        let b = B::try_cast(take_arg(args, 1));
        let c = C::try_cast(take_arg(args, 2));
        let d = D::try_cast(take_arg(args, 3));
        assert(args@ =~= used_up(old(args)@, 0));
        match (a, b, c, d) {
            (Some(a), Some(b), Some(c), Some(d)) => wrap((self.func)(a, b, c, d)),
            (None, _, _, _) => mismatch(0),
            (_, None, _, _) => mismatch(1),
            (_, _, None, _) => mismatch(2),
            (_, _, _, None) => mismatch(3),
        }
    }
}

impl<A, B, C, D, T, F> Pure4<A, B, C, D, T, F> where
    A: Variant,
    B: Variant,
    C: Variant,
    D: Variant,
    T: Variant,
    F: Fn(A, B, C, D) -> Result<T, Box<EvalAltResult>> + Send + Sync,
{
    /// Is `callable` this adapter as a pure function: does it take the same
    /// argument lists, with the same outcomes?
    pub open spec fn is_code_of(&self, callable: CallableFunction) -> bool {
        &&& callable matches CallableFunction::Pure(code)
        &&& forall|args: Seq<Dynamic>| #[trigger] code.accepts(args) == self.accepts(args)
        &&& forall|args: Seq<Dynamic>, after: Seq<Dynamic>, result: FnCallResult| #[trigger]
            code.outcome(args, after, result) == self.outcome(args, after, result)
    }
}

/// A function of one parameter, taken by exclusive reference, as a
/// native method.
pub struct Method1<A, T, F> {
    pub func: F,
    pub marker: PhantomData<(A, T)>,
}

impl<A, T, F> NativeFn for Method1<A, T, F> where
    A: Variant,
    T: Variant,
    F: Fn(&mut A) -> Result<T, Box<EvalAltResult>> + Send + Sync,
{
    open spec fn accepts(&self, args: Seq<Dynamic>) -> bool {
        &&& args.len() == 1
        &&& A::cast(args[0]) is Some
        &&& forall|receiver: &mut A|
            *receiver == A::cast(args[0])->0 ==> #[trigger] call_requires(
                self.func,
                (receiver,),
            )
    }

    open spec fn outcome(
        &self,
        args: Seq<Dynamic>,
        after: Seq<Dynamic>,
        result: FnCallResult,
    ) -> bool {
        exists|receiver: A, returned: Result<T, Box<EvalAltResult>>|
            #![trigger wraps(result, returned), receiver.as_dynamic()]
            {
                &&& wraps(result, returned)
                &&& after == used_up(args, 1).update(0, receiver.as_dynamic())
            }
    }

    fn call(&self, context: NativeCallContext, args: &mut FnCallArgs) -> (result: FnCallResult)
        ensures
            exists|receiver: &mut A, returned: Result<T, Box<EvalAltResult>>|
                {
                    &&& *receiver == A::cast(old(args)@[0])->0
                    &&& #[trigger] call_ensures(
                        self.func,
                        (receiver,),
                        returned,
                    )
                    &&& wraps(result, returned)
                    &&& final(args)@ == used_up(old(args)@, 1).update(
                        0,
                        (*final(receiver)).as_dynamic(),
                    )
                },
    {
        let receiver = A::try_cast(args[0].clone());
        assert(args@ =~= used_up(old(args)@, 1));
        match receiver {
            Some(mut receiver) => {
                let returned = (self.func)(&mut receiver);
                args.set(0, receiver.into_dynamic());
                wrap(returned)
            },
            None => mismatch(0),
        }
    }
}

impl<A, T, F> Method1<A, T, F> where
    A: Variant,
    T: Variant,
    F: Fn(&mut A) -> Result<T, Box<EvalAltResult>> + Send + Sync,
{
    /// Is `callable` this adapter as a method: does it take the same
    /// argument lists, with the same outcomes?
    pub open spec fn is_code_of(&self, callable: CallableFunction) -> bool {
        &&& callable matches CallableFunction::Method(code)
        &&& forall|args: Seq<Dynamic>| #[trigger] code.accepts(args) == self.accepts(args)
        &&& forall|args: Seq<Dynamic>, after: Seq<Dynamic>, result: FnCallResult| #[trigger]
            code.outcome(args, after, result) == self.outcome(args, after, result)
    }
}

/// A function of two parameters, the first taken by exclusive
/// reference, as a native method.
pub struct Method2<A, B, T, F> {
    pub func: F,
    pub marker: PhantomData<(A, B, T)>,
}

impl<A, B, T, F> NativeFn for Method2<A, B, T, F> where
    A: Variant,
    B: Variant,
    T: Variant,
    F: Fn(&mut A, B) -> Result<T, Box<EvalAltResult>> + Send + Sync,
{
    open spec fn accepts(&self, args: Seq<Dynamic>) -> bool {
        &&& args.len() == 2
        &&& A::cast(args[0]) is Some
        &&& B::cast(args[1]) is Some
        &&& forall|receiver: &mut A|
            *receiver == A::cast(args[0])->0 ==> #[trigger] call_requires(
                self.func,
                (receiver, B::cast(args[1])->0),
            )
    }

    open spec fn outcome(
        &self,
        args: Seq<Dynamic>,
        after: Seq<Dynamic>,
        result: FnCallResult,
    ) -> bool {
        exists|receiver: A, returned: Result<T, Box<EvalAltResult>>|
            #![trigger wraps(result, returned), receiver.as_dynamic()]
            {
                &&& wraps(result, returned)
                &&& after == used_up(args, 1).update(0, receiver.as_dynamic())
            }
    }

    fn call(&self, context: NativeCallContext, args: &mut FnCallArgs) -> (result: FnCallResult)
        ensures
            exists|receiver: &mut A, returned: Result<T, Box<EvalAltResult>>|
                {
                    &&& *receiver == A::cast(old(args)@[0])->0
                    &&& #[trigger] call_ensures(
                        self.func,
                        (receiver, B::cast(old(args)@[1])->0),
                        returned,
                    )
                    &&& wraps(result, returned)
                    &&& final(args)@ == used_up(old(args)@, 1).update(
                        0,
                        (*final(receiver)).as_dynamic(),
                    )
                },
    {
        let receiver = A::try_cast(args[0].clone());
        let b = B::try_cast(take_arg(args, 1));
        assert(args@ =~= used_up(old(args)@, 1));
        match (receiver, b) {
            (Some(mut receiver), Some(b)) => {
                let returned = (self.func)(&mut receiver, b);
                args.set(0, receiver.into_dynamic());
                wrap(returned)
            },
            (None, _) => mismatch(0),
            (_, None) => mismatch(1),
        }
    }
}

impl<A, B, T, F> Method2<A, B, T, F> where
    A: Variant,
    B: Variant,
    T: Variant,
    F: Fn(&mut A, B) -> Result<T, Box<EvalAltResult>> + Send + Sync,
{
    /// Is `callable` this adapter as a method: does it take the same
    /// argument lists, with the same outcomes?
    pub open spec fn is_code_of(&self, callable: CallableFunction) -> bool {
        &&& callable matches CallableFunction::Method(code)
        &&& forall|args: Seq<Dynamic>| #[trigger] code.accepts(args) == self.accepts(args)
        &&& forall|args: Seq<Dynamic>, after: Seq<Dynamic>, result: FnCallResult| #[trigger]
            code.outcome(args, after, result) == self.outcome(args, after, result)
    }
}

/// A function of three parameters, the first taken by exclusive
/// reference, as a native method.
pub struct Method3<A, B, C, T, F> {
    pub func: F,
    pub marker: PhantomData<(A, B, C, T)>,
}

impl<A, B, C, T, F> NativeFn for Method3<A, B, C, T, F> where
    A: Variant,
    B: Variant,
    C: Variant,
    T: Variant,
    F: Fn(&mut A, B, C) -> Result<T, Box<EvalAltResult>> + Send + Sync,
{
    open spec fn accepts(&self, args: Seq<Dynamic>) -> bool {
        &&& args.len() == 3
        &&& A::cast(args[0]) is Some
        &&& B::cast(args[1]) is Some
        &&& C::cast(args[2]) is Some
        &&& forall|receiver: &mut A|
            *receiver == A::cast(args[0])->0 ==> #[trigger] call_requires(
                self.func,
                (receiver, B::cast(args[1])->0, C::cast(args[2])->0),
            )
    }

    open spec fn outcome(
        &self,
        args: Seq<Dynamic>,
        after: Seq<Dynamic>,
        result: FnCallResult,
    ) -> bool {
        exists|receiver: A, returned: Result<T, Box<EvalAltResult>>|
            #![trigger wraps(result, returned), receiver.as_dynamic()]
            {
                &&& wraps(result, returned)
                &&& after == used_up(args, 1).update(0, receiver.as_dynamic())
            }
    }

    fn call(&self, context: NativeCallContext, args: &mut FnCallArgs) -> (result: FnCallResult)
        ensures
            exists|receiver: &mut A, returned: Result<T, Box<EvalAltResult>>|
                {
                    &&& *receiver == A::cast(old(args)@[0])->0
                    &&& #[trigger] call_ensures(
                        self.func,
                        (receiver, B::cast(old(args)@[1])->0, C::cast(old(args)@[2])->0),
                        returned,
                    )
                    &&& wraps(result, returned)
                    &&& final(args)@ == used_up(old(args)@, 1).update(
                        0,
                        (*final(receiver)).as_dynamic(),
                    )
                },
    {
        let receiver = A::try_cast(args[0].clone());
        let b = B::try_cast(take_arg(args, 1));
        let c = C::try_cast(take_arg(args, 2));
        assert(args@ =~= used_up(old(args)@, 1));
        match (receiver, b, c) {
            (Some(mut receiver), Some(b), Some(c)) => {
                let returned = (self.func)(&mut receiver, b, c);
                args.set(0, receiver.into_dynamic());
                wrap(returned)
            },
            (None, _, _) => mismatch(0),
            (_, None, _) => mismatch(1),
            (_, _, None) => mismatch(2),
        }
    }
}

impl<A, B, C, T, F> Method3<A, B, C, T, F> where
    A: Variant,
    B: Variant,
    C: Variant,
    T: Variant,
    F: Fn(&mut A, B, C) -> Result<T, Box<EvalAltResult>> + Send + Sync,
{
    /// Is `callable` this adapter as a method: does it take the same
    /// argument lists, with the same outcomes?
    pub open spec fn is_code_of(&self, callable: CallableFunction) -> bool {
        &&& callable matches CallableFunction::Method(code)
        &&& forall|args: Seq<Dynamic>| #[trigger] code.accepts(args) == self.accepts(args)
        &&& forall|args: Seq<Dynamic>, after: Seq<Dynamic>, result: FnCallResult| #[trigger]
            code.outcome(args, after, result) == self.outcome(args, after, result)
    }
}

/// A function of four parameters, the first taken by exclusive
/// reference, as a native method.
pub struct Method4<A, B, C, D, T, F> {
    pub func: F,
    pub marker: PhantomData<(A, B, C, D, T)>,
}

impl<A, B, C, D, T, F> NativeFn for Method4<A, B, C, D, T, F> where
    A: Variant,
    B: Variant,
    C: Variant,
    D: Variant,
    T: Variant,
    F: Fn(&mut A, B, C, D) -> Result<T, Box<EvalAltResult>> + Send + Sync,
{
    open spec fn accepts(&self, args: Seq<Dynamic>) -> bool {
        &&& args.len() == 4
        &&& A::cast(args[0]) is Some
        &&& B::cast(args[1]) is Some
        &&& C::cast(args[2]) is Some
        &&& D::cast(args[3]) is Some
        &&& forall|receiver: &mut A|
            *receiver == A::cast(args[0])->0 ==> #[trigger] call_requires(
                self.func,
                (
                    receiver,
                    B::cast(args[1])->0,
                    C::cast(args[2])->0,
                    D::cast(args[3])->0,
                ),
            )
    }

    open spec fn outcome(
        &self,
        args: Seq<Dynamic>,
        after: Seq<Dynamic>,
        result: FnCallResult,
    ) -> bool {
        exists|receiver: A, returned: Result<T, Box<EvalAltResult>>|
            #![trigger wraps(result, returned), receiver.as_dynamic()]
            {
                &&& wraps(result, returned)
                &&& after == used_up(args, 1).update(0, receiver.as_dynamic())
            }
    }

    fn call(&self, context: NativeCallContext, args: &mut FnCallArgs) -> (result: FnCallResult)
        ensures
            exists|receiver: &mut A, returned: Result<T, Box<EvalAltResult>>|
                {
                    &&& *receiver == A::cast(old(args)@[0])->0
                    &&& #[trigger] call_ensures(
                        self.func,
                        (
                            receiver,
                            B::cast(old(args)@[1])->0,
                            C::cast(old(args)@[2])->0,
                            D::cast(old(args)@[3])->0,
                        ),
                        returned,
                    )
                    &&& wraps(result, returned)
                    &&& final(args)@ == used_up(old(args)@, 1).update(
                        0,
                        (*final(receiver)).as_dynamic(),
                    )
                },
    {
        let receiver = A::try_cast(args[0].clone());
        let b = B::try_cast(take_arg(args, 1));
        let c = C::try_cast(take_arg(args, 2));
        let d = D::try_cast(take_arg(args, 3));
        assert(args@ =~= used_up(old(args)@, 1));
        match (receiver, b, c, d) {
            (Some(mut receiver), Some(b), Some(c), Some(d)) => {
                let returned = (self.func)(&mut receiver, b, c, d);
                args.set(0, receiver.into_dynamic());
                wrap(returned)
            },
            (None, _, _, _) => mismatch(0),
            (_, None, _, _) => mismatch(1),
            (_, _, None, _) => mismatch(2),
            (_, _, _, None) => mismatch(3),
        }
    }
}

impl<A, B, C, D, T, F> Method4<A, B, C, D, T, F> where
    A: Variant,
    B: Variant,
    C: Variant,
    D: Variant,
    T: Variant,
    F: Fn(&mut A, B, C, D) -> Result<T, Box<EvalAltResult>> + Send + Sync,
{
    /// Is `callable` this adapter as a method: does it take the same
    /// argument lists, with the same outcomes?
    pub open spec fn is_code_of(&self, callable: CallableFunction) -> bool {
        &&& callable matches CallableFunction::Method(code)
        &&& forall|args: Seq<Dynamic>| #[trigger] code.accepts(args) == self.accepts(args)
        &&& forall|args: Seq<Dynamic>, after: Seq<Dynamic>, result: FnCallResult| #[trigger]
            code.outcome(args, after, result) == self.outcome(args, after, result)
    }
}

/// A function of the uniform signature that returns a typed value, as a
/// native method.  It is handed the context and the whole argument list.
pub struct Raw<T, F> {
    pub func: F,
    pub marker: PhantomData<(T,)>,
}

impl<T, F> NativeFn for Raw<T, F> where
    T: Variant,
    F: Fn(NativeCallContext, &mut FnCallArgs) -> Result<T, Box<EvalAltResult>> + Send + Sync,
{
    open spec fn accepts(&self, args: Seq<Dynamic>) -> bool {
        forall|context: NativeCallContext, list: &mut FnCallArgs|
            list@ == args ==> #[trigger] call_requires(self.func, (context, list))
    }

    open spec fn outcome(
        &self,
        args: Seq<Dynamic>,
        after: Seq<Dynamic>,
        result: FnCallResult,
    ) -> bool {
        exists|returned: Result<T, Box<EvalAltResult>>| #[trigger] wraps(result, returned)
    }

    fn call(&self, context: NativeCallContext, args: &mut FnCallArgs) -> (result: FnCallResult)
        ensures
            exists|list: &mut FnCallArgs, returned: Result<T, Box<EvalAltResult>>|
                {
                    &&& list@ == old(args)@
                    &&& #[trigger] call_ensures(self.func, (context, list), returned)
                    &&& wraps(result, returned)
                    &&& final(args)@ == final(list)@
                },
    {
        let returned = (self.func)(context, args);
        wrap(returned)
    }
}

impl<T, F> Raw<T, F> where
    T: Variant,
    F: Fn(NativeCallContext, &mut FnCallArgs) -> Result<T, Box<EvalAltResult>> + Send + Sync,
{
    /// Is `callable` this adapter as a method: does it take the same
    /// argument lists, with the same outcomes?
    pub open spec fn is_code_of(&self, callable: CallableFunction) -> bool {
        &&& callable matches CallableFunction::Method(code)
        &&& forall|args: Seq<Dynamic>| #[trigger] code.accepts(args) == self.accepts(args)
        &&& forall|args: Seq<Dynamic>, after: Seq<Dynamic>, result: FnCallResult| #[trigger]
            code.outcome(args, after, result) == self.outcome(args, after, result)
    }
}

} // verus!
