//! Namespace and function registry of an embeddable scripting runtime.
//!
//! A [`Module`] stores variables, callable functions, nested sub-modules
//! and per-type iteration adapters, and can flatten a whole module tree
//! into hash-keyed lookup tables.  Functions are identified by the
//! non-zero hashes of [`hash`]; typed Rust functions are registered
//! behind the adapters of [`fn_register`].

pub mod error;
pub mod fn_native;
pub mod fn_register;
pub mod hash;
pub mod module;
pub mod namespace;
pub mod table;
pub mod value;

pub use error::EvalAltResult;
pub use error::Position;
pub use fn_native::CallableFunction;
pub use fn_native::FnAccess;
pub use fn_native::FnCallArgs;
pub use fn_native::FnCallResult;
pub use fn_native::IteratorFn;
pub use fn_native::NativeCallContext;
pub use fn_native::NativeFn;
pub use fn_native::ScriptFnDef;
pub use fn_native::TypeIterator;
pub use hash::combine_hashes;
pub use hash::hash_native_args;
pub use hash::hash_script;
pub use module::eval::Import;
pub use module::eval::ScopeEntry;
pub use module::FnNamespace;
pub use module::FuncInfo;
pub use module::Module;
pub use namespace::Ident;
pub use namespace::NamespaceRef;
pub use value::Array;
pub use value::Dynamic;
pub use value::ImmutableString;
pub use value::Iterable;
pub use value::ObjectMap;
pub use value::Shared;
pub use value::TypeId;
pub use value::Variant;
