//! Metadata of one registered function.

use vstd::prelude::*;
use vstd::string::StringExecFns;
use crate::fn_native::CallableFunction;
use crate::fn_native::FnAccess;
use crate::value::ImmutableString;
use crate::value::TypeId;

verus! {

/// A type representing the namespace of a function.
#[derive(Clone, Copy, Debug, PartialEq, Eq, Structural, Hash)]
pub enum FnNamespace {
    /// Expose to global namespace.
    Global,
    /// Module namespace only.
    Internal,
}

impl Default for FnNamespace {
    fn default() -> (r: Self)
        ensures
            r == FnNamespace::Internal,
    {
        FnNamespace::Internal
    }
}

impl FnNamespace {
    /// Is this namespace [global][FnNamespace::Global]?
    #[verifier::allow_in_spec]
    pub fn is_global(self) -> bool
        returns
            (self is Global),
    {
        match self {
            FnNamespace::Global => true,
            FnNamespace::Internal => false,
        }
    }

    /// Is this namespace [internal][FnNamespace::Internal]?
    #[verifier::allow_in_spec]
    pub fn is_internal(self) -> bool
        returns
            (self is Internal),
    {
        match self {
            FnNamespace::Global => false,
            FnNamespace::Internal => true,
        }
    }
}

/// Data structure containing a single registered function.
pub struct FuncInfo {
    /// Function instance.
    pub func: CallableFunction,
    /// Function namespace.
    pub namespace: FnNamespace,
    /// Function access mode.
    pub access: FnAccess,
    /// Function name.
    pub name: String,
    /// Number of parameters.
    pub params: usize,
    /// Parameter types (if applicable).
    pub param_types: Vec<TypeId>,
    /// Parameter names (if available); the last entry is the name of the
    /// return type.
    pub param_names: Vec<ImmutableString>,
}

/// What a [`FuncInfo`] says, with its texts and lists as sequences.
pub struct FuncInfoView {
    pub func: CallableFunction,
    pub namespace: FnNamespace,
    pub access: FnAccess,
    pub name: Seq<char>,
    pub params: usize,
    pub param_types: Seq<TypeId>,
    pub param_names: Seq<Seq<char>>,
}

/// The views of a list of immutable strings.
pub open spec fn string_views(strings: Seq<ImmutableString>) -> Seq<Seq<char>> {
    strings.map_values(|s: ImmutableString| s@)
}

impl View for FuncInfo {
    type V = FuncInfoView;

    open spec fn view(&self) -> FuncInfoView {
        FuncInfoView {
            func: self.func,
            namespace: self.namespace,
            access: self.access,
            name: self.name@,
            params: self.params,
            param_types: self.param_types@,
            param_names: string_views(self.param_names@),
        }
    }
}

/// `parts` in one text, with `separator` between each two.
pub open spec fn join(parts: Seq<Seq<char>>, separator: Seq<char>) -> Seq<char>
    decreases parts.len(),
{
    if parts.len() == 0 {
        Seq::empty()
    } else if parts.len() == 1 {
        parts[0]
    } else {
        join(parts.drop_last(), separator) + separator + parts.last()
    }
}

/// The text that stands for a parameter of which nothing is known.
pub open spec fn placeholders(count: nat) -> Seq<Seq<char>> {
    Seq::new(count, |i: int| "_"@)
}

/// The end of a signature whose return type is called `return_type`: the
/// closing bracket, and the return type unless it is the unit marker.
pub open spec fn signature_end(return_type: Seq<char>) -> Seq<char> {
    if return_type == "()"@ {
        ")"@
    } else {
        ") -> "@ + return_type
    }
}

/// The signature of a function.
///
/// Where parameter names were given, they stand between the brackets, and
/// the last of them is the return type.  Where none were, each parameter
/// is a placeholder, and the return type is `?` for native code and left
/// out for a script function.
pub open spec fn signature_of(info: FuncInfoView) -> Seq<char> {
    if info.param_names.len() > 0 {
        info.name + "("@ + join(info.param_names.drop_last(), ", "@) + signature_end(
            info.param_names.last(),
        )
    } else {
        info.name + "("@ + join(placeholders(info.params as nat), ", "@) + (if info.func.is_script(
        ) {
            ")"@
        } else {
            ") -> ?"@
        })
    }
}

/// Appends the part at place `index` of a joined list: the separator
/// first, unless it is the first part.
fn append_part(
    text: &mut String,
    index: usize,
    part: &str,
    Ghost(parts): Ghost<Seq<Seq<char>>>,
    Ghost(head): Ghost<Seq<char>>,
)
    requires
        index < parts.len(),
        parts[index as int] == part@,
        old(text)@ == head + join(parts.take(index as int), ", "@),
    ensures
        final(text)@ == head + join(parts.take(index + 1), ", "@),
{
    assert(parts.take(index + 1).drop_last() == parts.take(index as int));
    if index > 0 {
        text.append(", ");
    } else {
        assert(parts.take(1)[0] == part@);
    }
    text.append(part);
    assert(text@ =~= head + join(parts.take(index + 1), ", "@));
}

impl FuncInfo {
    /// Generate a signature of the function.
    pub fn gen_signature(&self) -> (sig: String)
        ensures
            sig@ == signature_of(self@),
    {
        let mut sig = self.name.clone();
        sig.append("(");
        let ghost head = self.name@ + "("@;
        let count = self.param_names.len();
        if count > 0 {
            let ghost parts = string_views(self.param_names@).drop_last();
            let mut i: usize = 0;
            assert(parts.take(0) =~= Seq::empty());
            assert(sig@ =~= head + join(parts.take(0), ", "@));
            while i < count - 1
                invariant
                    count == self.param_names@.len(),
                    count > 0,
                    i <= count - 1,
                    parts == string_views(self.param_names@).drop_last(),
                    sig@ == head + join(parts.take(i as int), ", "@),
                decreases count - i,
            {
                append_part(&mut sig, i, self.param_names[i].as_str(), Ghost(parts), Ghost(head));
                i += 1;
            }
            assert(parts.take(i as int) == parts);
            let return_type: &String = &self.param_names[count - 1];
            let unit = String::from_str("()");
            assert(return_type@ == string_views(self.param_names@).last());
            if *return_type == unit {
                sig.append(")");
            } else {
                sig.append(") -> ");
                sig.append(return_type.as_str());
            }
            assert(sig@ =~= signature_of(self@));
        } else {
            let ghost parts = placeholders(self.params as nat);
            let mut i: usize = 0;
            assert(parts.take(0) =~= Seq::empty());
            assert(sig@ =~= head + join(parts.take(0), ", "@));
            while i < self.params
                invariant
                    i <= self.params,
                    parts == placeholders(self.params as nat),
                    sig@ == head + join(parts.take(i as int), ", "@),
                decreases self.params - i,
            {
                append_part(&mut sig, i, "_", Ghost(parts), Ghost(head));
                i += 1;
            }
            assert(parts.take(i as int) == parts);
            if self.func.is_script() {
                sig.append(")");
            } else {
                sig.append(") -> ?");
            }
            assert(sig@ =~= signature_of(self@));
        }
        sig
    }
}

impl Clone for FuncInfo {
    /// A copy that says the same, with a handle to the same callable.
    fn clone(&self) -> (r: Self)
        ensures
            r@ == self@,
    {
        let mut param_names: Vec<ImmutableString> = Vec::new();
        let mut i: usize = 0;
        while i < self.param_names.len()
            invariant
                i <= self.param_names@.len(),
                param_names@ == self.param_names@.take(i as int),
            decreases self.param_names@.len() - i,
        {
            param_names.push(self.param_names[i].clone());
            assert(param_names@ =~= self.param_names@.take(i + 1));
            i += 1;
        }
        assert(self.param_names@.take(i as int) == self.param_names@);
        FuncInfo {
            func: self.func.clone(),
            namespace: self.namespace,
            access: self.access,
            name: self.name.clone(),
            params: self.params,
            param_types: self.param_types.clone(),
            param_names,
        }
    }
}

} // verus!

