//! Chains of module names that qualify a variable or a function call.

use vstd::prelude::*;
use vstd::string::StringExecFns;
use crate::error::Position;
use crate::module::info::join;

verus! {

/// An identifier with the place at which it stands in a script.
#[derive(Clone, Debug, PartialEq, Eq, Hash)]
pub struct Ident {
    pub name: String,
    pub pos: Position,
}

/// A chain of module names to namespace-qualify a variable or function
/// call, such as `a::b::c`.
///
/// An offset into the current scope is cached with the chain for quick
/// search.  The offset is a cache and nothing more: the chain means the
/// same with it and without it.
#[derive(Clone, Debug, PartialEq, Eq, Hash)]
pub struct NamespaceRef {
    index: Option<usize>,
    path: Vec<Ident>,
}

/// The names of a chain of identifiers.
pub open spec fn ident_names(path: Seq<Ident>) -> Seq<Seq<char>> {
    path.map_values(|ident: Ident| ident.name@)
}

/// The text that separates the names of a chain.
pub open spec fn separator() -> Seq<char> {
    "::"@
}

impl NamespaceRef {
    /// The identifiers of the chain, in order.
    pub closed spec fn path(&self) -> Seq<Ident> {
        self.path@
    }

    /// The cached scope offset.
    pub closed spec fn spec_index(&self) -> Option<usize> {
        self.index
    }

    /// Makes a chain of the identifiers, with no offset cached.
    pub fn new(modules: Vec<Ident>) -> (namespace: NamespaceRef)
        ensures
            namespace.path() == modules@,
            namespace.spec_index() is None,
    {
        NamespaceRef { index: None, path: modules }
    }

    /// Get the scope index offset.
    #[verifier::when_used_as_spec(spec_index)]
    pub fn index(&self) -> (index: Option<usize>)
        ensures
            index == self.spec_index(),
    {
        self.index
    }

    /// Set the scope index offset.  The chain stays as it is.
    pub fn set_index(&mut self, index: Option<usize>)
        ensures
            final(self).spec_index() == index,
            final(self).path() == old(self).path(),
    {
        self.index = index
    }

    /// The identifiers of the chain, in order.
    pub fn idents(&self) -> (path: &Vec<Ident>)
        ensures
            path@ == self.path(),
    {
        &self.path
    }

    /// The number of identifiers in the chain.
    pub fn len(&self) -> (length: usize)
        ensures
            length == self.path().len(),
    {
        self.path.len()
    }

    /// The names of the chain, in order, as they qualify a hash.
    pub fn qualifiers(&self) -> (names: Vec<&str>)
        ensures
            crate::hash::str_views(names@) == ident_names(self.path()),
    {
        let mut names: Vec<&str> = Vec::new();
        let mut i: usize = 0;
        while i < self.path.len()
            invariant
                i <= self.path@.len(),
                crate::hash::str_views(names@) == ident_names(self.path@).take(i as int),
            decreases self.path@.len() - i,
        {
            let ghost before = crate::hash::str_views(names@);
            let name = self.path[i].name.as_str();
            names.push(name);
            assert(crate::hash::str_views(names@) =~= before.push(name@));
            assert(before.push(name@) =~= ident_names(self.path@).take(i + 1));
            i += 1;
        }
        assert(ident_names(self.path@).take(i as int) == ident_names(self.path@));
        names
    }

    /// The chain as text: its names in order, with the separator between
    /// each two.
    pub fn to_text(&self) -> (text: String)
        ensures
            text@ == join(ident_names(self.path()), separator()),
    {
        let ghost parts = ident_names(self.path@);
        let mut text = String::new();
        let mut i: usize = 0;
        assert(parts.take(0) =~= Seq::empty());
        while i < self.path.len()
            invariant
                i <= self.path@.len(),
                parts == ident_names(self.path@),
                text@ == join(parts.take(i as int), separator()),
            decreases self.path@.len() - i,
        {
            assert(parts.take(i + 1).drop_last() == parts.take(i as int));
            if i > 0 {
                text.append("::");
            } else {
                assert(parts.take(1)[0] == self.path@[0].name@);
            }
            text.append(self.path[i].name.as_str());
            assert(text@ =~= join(parts.take(i + 1), separator()));
            i += 1;
        }
        assert(parts.take(i as int) == parts);
        text
    }
}

} // verus!
