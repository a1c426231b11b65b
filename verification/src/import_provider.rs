//! The import provider boundary: a host-implemented hook that intercepts
//! resolution and fetching to add custom schemes, access control, or
//! post-processing. Every hook may answer "no opinion", in which case the
//! loader falls through to its default behaviour; an answered decision is
//! authoritative and short-circuits the default.

use vstd::prelude::*;

use crate::module_source::ModuleSource;
use crate::specifier::ModuleSpecifier;
use crate::LoaderError;

verus! {

/// What kind of resolution the engine asked for. It affects permission
/// checks an import provider may apply, never default resolution itself.
#[derive(Debug, Clone, Copy, PartialEq, Eq, Structural)]
pub enum ResolutionKind {
    /// Resolving the main module before execution starts.
    MainModule,
    /// Resolving a static import.
    Import,
    /// Resolving a dynamic import issued at run time.
    DynamicImport,
}

/// The module form a load request asked for.
#[derive(Debug, Clone, Copy, PartialEq, Eq, Structural)]
pub enum RequestedModuleType {
    /// No particular form requested.
    Unspecified,
    /// The request asked for a JSON module.
    Json,
}

/// A trait that can be implemented to modify the behaviour of the module
/// loader: custom schemes, caching, and more granular permissions. Every
/// method has a defaulted "no opinion" behaviour, so hosts override only
/// what they need.
pub trait ImportProvider {
    /// Intercepts resolution of an already-canonical specifier.
    ///
    /// `Some(Ok(_))` or `Some(Err(_))` is authoritative and replaces the
    /// default resolution outcome; `None` defers to it.
    fn resolve(
        &mut self,
        specifier: &ModuleSpecifier,
        referrer: &str,
        kind: ResolutionKind,
    ) -> (r: Option<Result<ModuleSpecifier, LoaderError>>) {
        None
    }

    /// Retrieves module text for a specifier ahead of the default fetch.
    ///
    /// `Some(Ok(_))` hands the loader text that then goes through the
    /// same post-processing as fetched text; `Some(Err(_))` fails the
    /// load with that error; `None` defers to the default fetch.
    ///
    /// For hosts that still override the older entry point below, the
    /// default forwards there with a placeholder module-type value, so
    /// such implementations keep working unchanged.
    fn import(
        &mut self,
        specifier: &ModuleSpecifier,
        referrer: Option<&ModuleSpecifier>,
        is_dyn_import: bool,
    ) -> (r: Option<Result<String, LoaderError>>) {
        self.import_with_type(specifier, referrer, is_dyn_import, RequestedModuleType::Unspecified)
    }

    /// The older fetch entry point, kept so existing host implementations
    /// stay callable; its extra module-type argument is no longer
    /// consulted by the loader. New implementations should override
    /// `import` instead. The default has no opinion.
    fn import_with_type(
        &mut self,
        specifier: &ModuleSpecifier,
        referrer: Option<&ModuleSpecifier>,
        is_dyn_import: bool,
        requested_module_type: RequestedModuleType,
    ) -> (r: Option<Result<String, LoaderError>>) {
        None
    }

    /// Applies a transform to a source after it has been fetched and
    /// translated, before it is cached and returned. The default is the
    /// identity.
    fn post_process(&mut self, specifier: &ModuleSpecifier, source: ModuleSource) -> (r: Result<
        ModuleSource,
        LoaderError,
    >) {
        Ok(source)
    }
}

/// The import provider used when the host installs none: every hook
/// keeps its defaulted "no opinion" behaviour.
pub struct NullImportProvider;

impl ImportProvider for NullImportProvider {
}

} // verus!
