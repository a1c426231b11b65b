//! A module-loading core for an embedded script engine: it resolves raw
//! import specifiers to canonical locators, gates loads on an allow-list,
//! consults a pluggable cache provider and import provider, translates
//! legacy module text into standard module form, and keeps source maps
//! for diagnostics.
//!
//! The loader supports re-entrant use: an asynchronous load suspends as a
//! pending fetch holding no loader state, so the engine may issue further
//! `resolve` and `load` calls, or read source maps while unwinding an
//! error, before the suspended load is completed through `finish_load`.

use vstd::prelude::*;

pub mod cache_provider;
pub mod import_provider;
pub mod kv;
pub mod module_loader;
pub mod module_source;
pub mod source_map;
pub mod specifier;
pub mod text;
pub mod traits;
pub mod translator;

pub use cache_provider::{ModuleCacheProvider, NullModuleCacheProvider};
pub use import_provider::{ImportProvider, NullImportProvider, RequestedModuleType, ResolutionKind};
pub use module_loader::{
    LoaderOptions, ModuleLoadOptions, ModuleLoadResponse, PendingLoad, RustyLoader,
};
pub use module_source::{ClonableSource, ModuleSource, ModuleSourceCode, ModuleType};
pub use specifier::ModuleSpecifier;
pub use traits::ToModuleSpecifier;

verus! {

/// Errors surfaced by the loader to the engine boundary. All of them are
/// returned as typed results, never as an abort, and a failure for one
/// specifier leaves the loader valid for unrelated ones.
#[derive(Debug)]
pub enum LoaderError {
    /// The specifier could not be canonicalized into an absolute locator.
    InvalidUrl,
    /// The specifier is not on the allow-list while enforcement is enabled.
    PermissionDenied,
    /// No provider and no default backing store produced source.
    NotFound,
    /// The legacy-syntax rewrite could not classify or rewrite the text.
    TranslationFailed,
    /// An opaque error surfaced from a cache or import provider, handed
    /// through to the engine boundary unmodified so hosts can match on it.
    ProviderError(String),
    /// Loader state was unavailable to a re-entrant call; the loader's
    /// access discipline makes this unreachable, and nothing constructs it.
    EngineReentrancy,
}

impl Clone for LoaderError {
    fn clone(&self) -> (r: Self)
        ensures
            r == *self,
    {
        match self {
            LoaderError::InvalidUrl => LoaderError::InvalidUrl,
            LoaderError::PermissionDenied => LoaderError::PermissionDenied,
            LoaderError::NotFound => LoaderError::NotFound,
            LoaderError::TranslationFailed => LoaderError::TranslationFailed,
            LoaderError::ProviderError(msg) => LoaderError::ProviderError(msg.clone()),
            LoaderError::EngineReentrancy => LoaderError::EngineReentrancy,
        }
    }
}

impl PartialEq for LoaderError {
    fn eq(&self, other: &Self) -> (r: bool) {
        match (self, other) {
            (LoaderError::InvalidUrl, LoaderError::InvalidUrl) => true,
            (LoaderError::PermissionDenied, LoaderError::PermissionDenied) => true,
            (LoaderError::NotFound, LoaderError::NotFound) => true,
            (LoaderError::TranslationFailed, LoaderError::TranslationFailed) => true,
            (LoaderError::ProviderError(a), LoaderError::ProviderError(b)) => *a == *b,
            (LoaderError::EngineReentrancy, LoaderError::EngineReentrancy) => true,
            _ => false,
        }
    }
}

impl vstd::std_specs::cmp::PartialEqSpecImpl for LoaderError {
    open spec fn obeys_eq_spec() -> bool {
        true
    }

    open spec fn eq_spec(&self, other: &Self) -> bool {
        match (self, other) {
            (LoaderError::InvalidUrl, LoaderError::InvalidUrl) => true,
            (LoaderError::PermissionDenied, LoaderError::PermissionDenied) => true,
            (LoaderError::NotFound, LoaderError::NotFound) => true,
            (LoaderError::TranslationFailed, LoaderError::TranslationFailed) => true,
            (LoaderError::ProviderError(a), LoaderError::ProviderError(b)) => a@ == b@,
            (LoaderError::EngineReentrancy, LoaderError::EngineReentrancy) => true,
            _ => false,
        }
    }
}

impl Eq for LoaderError {
}

impl LoaderError {
    /// The description `as_str` returns for each error.
    pub open spec fn spec_description(&self) -> Seq<char> {
        match self {
            LoaderError::InvalidUrl => "specifier cannot be canonicalized"@,
            LoaderError::PermissionDenied => "specifier is not allow-listed"@,
            LoaderError::NotFound => "no source found for specifier"@,
            LoaderError::TranslationFailed => "legacy module text could not be rewritten"@,
            LoaderError::ProviderError(_) => "error surfaced from a provider"@,
            LoaderError::EngineReentrancy => "loader state unavailable to a re-entrant call"@,
        }
    }

    /// A short description of the error, for hosts that render one.
    pub fn as_str(&self) -> (r: &'static str)
        ensures
            r@ == self.spec_description(),
    {
        match self {
            LoaderError::InvalidUrl => "specifier cannot be canonicalized",
            LoaderError::PermissionDenied => "specifier is not allow-listed",
            LoaderError::NotFound => "no source found for specifier",
            LoaderError::TranslationFailed => "legacy module text could not be rewritten",
            LoaderError::ProviderError(_) => "error surfaced from a provider",
            LoaderError::EngineReentrancy => "loader state unavailable to a re-entrant call",
        }
    }
}

} // verus!
