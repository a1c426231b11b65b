//! Conversion traits offered to hosts embedding the loader.

use vstd::prelude::*;

use crate::specifier::{resolve_path, spec_path_url, ModuleSpecifier};
use crate::LoaderError;

verus! {

/// Conversion of a relative or absolute path into a module specifier. A
/// relative path is taken relative to the given base directory.
pub trait ToModuleSpecifier: View<V = Seq<char>> {
    /// This path, joined below `base` unless already absolute,
    /// normalized and converted to a canonical `file:` locator; fails
    /// with `InvalidUrl` when no valid locator exists for it.
    fn to_module_specifier(&self, base: &str) -> (r: Result<ModuleSpecifier, LoaderError>)
        ensures
            r is Ok <==> spec_path_url(base@, self@) is Some,
            r matches Ok(m) ==> spec_path_url(base@, self@) == Some(m@),
            r matches Err(e) ==> e == LoaderError::InvalidUrl,
    ;
}

impl ToModuleSpecifier for str {
    fn to_module_specifier(&self, base: &str) -> (r: Result<ModuleSpecifier, LoaderError>) {
        resolve_path(self, base)
    }
}

} // verus!
