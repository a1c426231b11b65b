//! The cache provider boundary: a pluggable key-to-source mapping the
//! host may implement. The loader consults it before a fetch and writes
//! the final source back after one; it is best-effort memoization with no
//! transactional guarantee, so nothing here carries a contract the host
//! would have to prove.

use vstd::prelude::*;

use crate::module_source::ModuleSource;
use crate::specifier::ModuleSpecifier;

verus! {

/// A host-implemented module cache. `get` must return a source
/// independent of the stored one (a deep-enough copy), so that later
/// mutation of one never affects the other; `ClonableSource::clone` is
/// the intended way to produce such copies.
pub trait ModuleCacheProvider {
    /// The cached source for `specifier`, if any.
    fn get(&self, specifier: &ModuleSpecifier) -> Option<ModuleSource>;

    /// Stores `source` under `specifier`, replacing any prior entry.
    fn set(&mut self, specifier: &ModuleSpecifier, source: ModuleSource);
}

/// The cache used when the host installs none: it stores nothing and
/// never reports a hit.
pub struct NullModuleCacheProvider;

impl ModuleCacheProvider for NullModuleCacheProvider {
    fn get(&self, specifier: &ModuleSpecifier) -> (r: Option<ModuleSource>)
        ensures
            r is None,
    {
        None
    }

    fn set(&mut self, specifier: &ModuleSpecifier, source: ModuleSource) {
    }
}

} // verus!
