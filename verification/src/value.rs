//! Values and their type identifiers.
//!
//! [`Dynamic`] is the runtime's type-erased value.  [`Variant`] relates the
//! Rust types that a value can hold to it: which [`TypeId`] stands for the
//! type, how a value of the type becomes a [`Dynamic`], and which
//! [`Dynamic`]s cast back to it.

use vstd::prelude::*;
use std::sync::Arc;

verus! {

/// Shared, reference-counted ownership.
pub type Shared<T> = Arc<T>;

/// The runtime's immutable string: a shared string that is never changed
/// in place.
pub type ImmutableString = Arc<String>;

/// The built-in sequence type.
pub type Array = Arc<Vec<Dynamic>>;

/// The built-in key/value-map type.
pub type ObjectMap = Arc<Vec<(ImmutableString, Dynamic)>>;

/// Identifies the type of a value or of a function parameter.
#[derive(Clone, Copy, Debug, PartialEq, Eq, Structural, Hash)]
pub struct TypeId {
    pub id: u64,
}

impl TypeId {
    /// The unit type, the value of a function that returns nothing.
    #[verifier::allow_in_spec]
    pub fn unit() -> TypeId
        returns
            (TypeId { id: 1 }),
    {
        TypeId { id: 1 }
    }

    /// The boolean type.
    #[verifier::allow_in_spec]
    pub fn boolean() -> TypeId
        returns
            (TypeId { id: 2 }),
    {
        TypeId { id: 2 }
    }

    /// The integer type.
    #[verifier::allow_in_spec]
    pub fn integer() -> TypeId
        returns
            (TypeId { id: 3 }),
    {
        TypeId { id: 3 }
    }

    /// The character type.
    #[verifier::allow_in_spec]
    pub fn character() -> TypeId
        returns
            (TypeId { id: 4 }),
    {
        TypeId { id: 4 }
    }

    /// A raw string reference.
    #[verifier::allow_in_spec]
    pub fn string_slice() -> TypeId
        returns
            (TypeId { id: 5 }),
    {
        TypeId { id: 5 }
    }

    /// An owned string.
    #[verifier::allow_in_spec]
    pub fn string() -> TypeId
        returns
            (TypeId { id: 6 }),
    {
        TypeId { id: 6 }
    }

    /// The runtime's immutable string, the form in which values hold text.
    #[verifier::allow_in_spec]
    pub fn immutable_string() -> TypeId
        returns
            (TypeId { id: 7 }),
    {
        TypeId { id: 7 }
    }

    /// The built-in sequence type.
    #[verifier::allow_in_spec]
    pub fn array() -> TypeId
        returns
            (TypeId { id: 8 }),
    {
        TypeId { id: 8 }
    }

    /// The built-in key/value-map type.
    #[verifier::allow_in_spec]
    pub fn object_map() -> TypeId
        returns
            (TypeId { id: 9 }),
    {
        TypeId { id: 9 }
    }

    /// Is this one of the three string types?
    #[verifier::allow_in_spec]
    pub fn is_string(self) -> bool
        returns
            (self == TypeId::string_slice() || self == TypeId::string() || self
                == TypeId::immutable_string()),
    {
        self.id == 5 || self.id == 6 || self.id == 7
    }

    /// The type under which a parameter of this type is registered: every
    /// string type stands for the immutable string, every other type for
    /// itself.
    #[verifier::allow_in_spec]
    pub fn normalized(self) -> TypeId
        returns
            (if self.is_string() {
                TypeId::immutable_string()
            } else {
                self
            }),
    {
        if self.is_string() {
            TypeId::immutable_string()
        } else {
            self
        }
    }

    /// Does the runtime index values of this type itself?  Sequences, maps
    /// and strings are indexed by the engine, and no indexer can be
    /// registered for them.
    #[verifier::allow_in_spec]
    pub fn has_intrinsic_indexing(self) -> bool
        returns
            (self == TypeId::array() || self == TypeId::object_map() || self.is_string()),
    {
        self.id == 8 || self.id == 9 || self.is_string()
    }
}

/// The parameter types of a function as they are registered: each one
/// normalized.
pub open spec fn normalized_types(types: Seq<TypeId>) -> Seq<TypeId> {
    types.map_values(|t: TypeId| t.normalized())
}

/// A value of any of the runtime's types.
#[derive(Debug, PartialEq, Eq)]
pub enum Dynamic {
    Unit,
    Bool(bool),
    Int(i64),
    Char(char),
    Str(ImmutableString),
    Array(Array),
    ObjectMap(ObjectMap),
}

impl Dynamic {
    /// The type of the value held.
    #[verifier::allow_in_spec]
    pub fn type_id(&self) -> TypeId
        returns
            (match self {
                Dynamic::Unit => TypeId::unit(),
                Dynamic::Bool(_) => TypeId::boolean(),
                Dynamic::Int(_) => TypeId::integer(),
                Dynamic::Char(_) => TypeId::character(),
                Dynamic::Str(_) => TypeId::immutable_string(),
                Dynamic::Array(_) => TypeId::array(),
                Dynamic::ObjectMap(_) => TypeId::object_map(),
            }),
    {
        match self {
            Dynamic::Unit => TypeId::unit(),
            Dynamic::Bool(_) => TypeId::boolean(),
            Dynamic::Int(_) => TypeId::integer(),
            Dynamic::Char(_) => TypeId::character(),
            Dynamic::Str(_) => TypeId::immutable_string(),
            Dynamic::Array(_) => TypeId::array(),
            Dynamic::ObjectMap(_) => TypeId::object_map(),
        }
    }
}

impl Clone for Dynamic {
    /// Copies the value; text, sequences and maps stay shared.
    fn clone(&self) -> (r: Self)
        ensures
            r == *self,
    {
        match self {
            Dynamic::Unit => Dynamic::Unit,
            Dynamic::Bool(b) => Dynamic::Bool(*b),
            Dynamic::Int(i) => Dynamic::Int(*i),
            Dynamic::Char(c) => Dynamic::Char(*c),
            Dynamic::Str(s) => Dynamic::Str(s.clone()),
            Dynamic::Array(a) => Dynamic::Array(a.clone()),
            Dynamic::ObjectMap(m) => Dynamic::ObjectMap(m.clone()),
        }
    }
}

/// A Rust type whose values a [`Dynamic`] can hold.
pub trait Variant: Sized + Send + Sync + 'static {
    /// The identifier of the type.
    spec fn spec_type_id() -> TypeId;

    /// The value as a [`Dynamic`].
    spec fn as_dynamic(self) -> Dynamic;

    /// The value of this type that `d` holds, if it holds one.
    spec fn cast(d: Dynamic) -> Option<Self>;

    /// Wrapping a value and casting it back gives the value again.
    proof fn lemma_cast_round_trip(self)
        ensures
            Self::cast(self.as_dynamic()) == Some(self),
    ;

    fn type_id() -> (id: TypeId)
        ensures
            id == Self::spec_type_id(),
    ;

    fn into_dynamic(self) -> (d: Dynamic)
        ensures
            d == self.as_dynamic(),
    ;

    fn try_cast(d: Dynamic) -> (r: Option<Self>)
        ensures
            r == Self::cast(d),
    ;
}

impl Variant for () {
    open spec fn spec_type_id() -> TypeId {
        TypeId::unit()
    }

    open spec fn as_dynamic(self) -> Dynamic {
        Dynamic::Unit
    }

    open spec fn cast(d: Dynamic) -> Option<Self> {
        match d {
            Dynamic::Unit => Some(()),
            _ => None,
        }
    }

    proof fn lemma_cast_round_trip(self) {
    }

    fn type_id() -> (id: TypeId) {
        TypeId::unit()
    }

    fn into_dynamic(self) -> (d: Dynamic) {
        Dynamic::Unit
    }

    fn try_cast(d: Dynamic) -> (r: Option<Self>) {
        match d {
            Dynamic::Unit => Some(()),
            _ => None,
        }
    }
}

impl Variant for bool {
    open spec fn spec_type_id() -> TypeId {
        TypeId::boolean()
    }

    open spec fn as_dynamic(self) -> Dynamic {
        Dynamic::Bool(self)
    }

    open spec fn cast(d: Dynamic) -> Option<Self> {
        match d {
            Dynamic::Bool(b) => Some(b),
            _ => None,
        }
    }

    proof fn lemma_cast_round_trip(self) {
    }

    fn type_id() -> (id: TypeId) {
        TypeId::boolean()
    }

    fn into_dynamic(self) -> (d: Dynamic) {
        Dynamic::Bool(self)
    }

    fn try_cast(d: Dynamic) -> (r: Option<Self>) {
        match d {
            Dynamic::Bool(b) => Some(b),
            _ => None,
        }
    }
}

impl Variant for i64 {
    open spec fn spec_type_id() -> TypeId {
        TypeId::integer()
    }

    open spec fn as_dynamic(self) -> Dynamic {
        Dynamic::Int(self)
    }

    open spec fn cast(d: Dynamic) -> Option<Self> {
        match d {
            Dynamic::Int(i) => Some(i),
            _ => None,
        }
    }

    proof fn lemma_cast_round_trip(self) {
    }

    fn type_id() -> (id: TypeId) {
        TypeId::integer()
    }

    fn into_dynamic(self) -> (d: Dynamic) {
        Dynamic::Int(self)
    }

    fn try_cast(d: Dynamic) -> (r: Option<Self>) {
        match d {
            Dynamic::Int(i) => Some(i),
            _ => None,
        }
    }
}

impl Variant for char {
    open spec fn spec_type_id() -> TypeId {
        TypeId::character()
    }

    open spec fn as_dynamic(self) -> Dynamic {
        Dynamic::Char(self)
    }

    open spec fn cast(d: Dynamic) -> Option<Self> {
        match d {
            Dynamic::Char(c) => Some(c),
            _ => None,
        }
    }

    proof fn lemma_cast_round_trip(self) {
    }

    fn type_id() -> (id: TypeId) {
        TypeId::character()
    }

    fn into_dynamic(self) -> (d: Dynamic) {
        Dynamic::Char(self)
    }

    fn try_cast(d: Dynamic) -> (r: Option<Self>) {
        match d {
            Dynamic::Char(c) => Some(c),
            _ => None,
        }
    }
}

impl Variant for ImmutableString {
    open spec fn spec_type_id() -> TypeId {
        TypeId::immutable_string()
    }

    open spec fn as_dynamic(self) -> Dynamic {
        Dynamic::Str(self)
    }

    open spec fn cast(d: Dynamic) -> Option<Self> {
        match d {
            Dynamic::Str(s) => Some(s),
            _ => None,
        }
    }

    proof fn lemma_cast_round_trip(self) {
    }

    fn type_id() -> (id: TypeId) {
        TypeId::immutable_string()
    }

    fn into_dynamic(self) -> (d: Dynamic) {
        Dynamic::Str(self)
    }

    fn try_cast(d: Dynamic) -> (r: Option<Self>) {
        match d {
            Dynamic::Str(s) => Some(s),
            _ => None,
        }
    }
}

impl Variant for String {
    open spec fn spec_type_id() -> TypeId {
        TypeId::string()
    }

    open spec fn as_dynamic(self) -> Dynamic {
        Dynamic::Str(Arc::new(self))
    }

    open spec fn cast(d: Dynamic) -> Option<Self> {
        match d {
            Dynamic::Str(s) => Some(*s),
            _ => None,
        }
    }

    proof fn lemma_cast_round_trip(self) {
    }

    fn type_id() -> (id: TypeId) {
        TypeId::string()
    }

    fn into_dynamic(self) -> (d: Dynamic) {
        Dynamic::Str(Arc::new(self))
    }

    fn try_cast(d: Dynamic) -> (r: Option<Self>) {
        match d {
            Dynamic::Str(s) => {
                let text: &String = &s;
                Some(text.clone())
            },
            _ => None,
        }
    }
}

impl Variant for Array {
    open spec fn spec_type_id() -> TypeId {
        TypeId::array()
    }

    open spec fn as_dynamic(self) -> Dynamic {
        Dynamic::Array(self)
    }

    open spec fn cast(d: Dynamic) -> Option<Self> {
        match d {
            Dynamic::Array(a) => Some(a),
            _ => None,
        }
    }

    proof fn lemma_cast_round_trip(self) {
    }

    fn type_id() -> (id: TypeId) {
        TypeId::array()
    }

    fn into_dynamic(self) -> (d: Dynamic) {
        Dynamic::Array(self)
    }

    fn try_cast(d: Dynamic) -> (r: Option<Self>) {
        match d {
            Dynamic::Array(a) => Some(a),
            _ => None,
        }
    }
}

impl Variant for ObjectMap {
    open spec fn spec_type_id() -> TypeId {
        TypeId::object_map()
    }

    open spec fn as_dynamic(self) -> Dynamic {
        Dynamic::ObjectMap(self)
    }

    open spec fn cast(d: Dynamic) -> Option<Self> {
        match d {
            Dynamic::ObjectMap(m) => Some(m),
            _ => None,
        }
    }

    proof fn lemma_cast_round_trip(self) {
    }

    fn type_id() -> (id: TypeId) {
        TypeId::object_map()
    }

    fn into_dynamic(self) -> (d: Dynamic) {
        Dynamic::ObjectMap(self)
    }

    fn try_cast(d: Dynamic) -> (r: Option<Self>) {
        match d {
            Dynamic::ObjectMap(m) => Some(m),
            _ => None,
        }
    }
}

} // verus!

verus! {

/// A type whose values can be iterated over.
pub trait Iterable: Variant {
    /// The values that iteration over `self` yields, in order.
    spec fn elements(self) -> Seq<Dynamic>;

    fn into_elements(self) -> (items: Vec<Dynamic>)
        ensures
            items@ == self.elements(),
    ;
}

impl Iterable for Array {
    open spec fn elements(self) -> Seq<Dynamic> {
        self@
    }

    fn into_elements(self) -> (items: Vec<Dynamic>) {
        let held: &Vec<Dynamic> = &self;
        let items = held.clone();
        assert(items@ =~= held@);
        items
    }
}

} // verus!
