//! The module source data model: what a completed load hands to the
//! engine. A module source is immutable once created, and cache hits hand
//! out copies that share no mutable state with what was stored.

use vstd::prelude::*;

use crate::specifier::ModuleSpecifier;
use crate::text::copy_bytes;

verus! {

/// The form of a loaded module.
#[derive(Debug, Clone, Copy, PartialEq, Eq, Structural)]
pub enum ModuleType {
    /// Standard executable module text.
    JavaScript,
    /// A JSON document loaded as a module.
    Json,
    /// Declaration-only text with no runtime behaviour.
    Declaration,
    /// Anything else the engine may accept.
    Other,
}

/// A module's payload: text or raw bytes.
#[derive(Debug)]
pub enum ModuleSourceCode {
    Text(String),
    Bytes(Vec<u8>),
}

/// The view of a module payload.
pub enum CodeView {
    Text(Seq<char>),
    Bytes(Seq<u8>),
}

impl View for ModuleSourceCode {
    type V = CodeView;

    open spec fn view(&self) -> CodeView {
        match self {
            ModuleSourceCode::Text(s) => CodeView::Text(s@),
            ModuleSourceCode::Bytes(b) => CodeView::Bytes(b@),
        }
    }
}

impl Clone for ModuleSourceCode {
    fn clone(&self) -> (r: Self)
        ensures
            r@ == self@,
    {
        match self {
            ModuleSourceCode::Text(s) => ModuleSourceCode::Text(s.clone()),
            ModuleSourceCode::Bytes(b) => ModuleSourceCode::Bytes(copy_bytes(b)),
        }
    }
}

/// A unit of loadable module code: the canonical specifier it was loaded
/// under, its form, and its payload.
#[derive(Debug)]
pub struct ModuleSource {
    pub module_type: ModuleType,
    pub code: ModuleSourceCode,
    pub specifier: ModuleSpecifier,
}

impl ModuleSource {
    /// Assembles a module source for `specifier`.
    pub fn new(module_type: ModuleType, code: ModuleSourceCode, specifier: &ModuleSpecifier) -> (r:
        ModuleSource)
        ensures
            r.module_type == module_type,
            r.code@ == code@,
            r.specifier@ == specifier@,
    {
        ModuleSource { module_type, code, specifier: specifier.clone() }
    }
}

/// Copying a module source under a (possibly different) specifier; cache
/// providers use this to hand out sources independent of what they store.
pub trait ClonableSource {
    /// A copy of this source, keyed under `specifier`, whose payload and
    /// form are identical to this one's.
    fn clone(&self, specifier: &ModuleSpecifier) -> (r: ModuleSource)
        ensures
            r.module_type == self.source_type(),
            r.code@ == self.source_code_view(),
            r.specifier@ == specifier@,
    ;

    /// The form of this source.
    spec fn source_type(&self) -> ModuleType;

    /// The view of this source's payload.
    spec fn source_code_view(&self) -> CodeView;
}

impl ClonableSource for ModuleSource {
    open spec fn source_type(&self) -> ModuleType {
        self.module_type
    }

    open spec fn source_code_view(&self) -> CodeView {
        self.code@
    }

    fn clone(&self, specifier: &ModuleSpecifier) -> (r: ModuleSource) {
        ModuleSource {
            module_type: self.module_type,
            code: self.code.clone(),
            specifier: specifier.clone(),
        }
    }
}

} // verus!
