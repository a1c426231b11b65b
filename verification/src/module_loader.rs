//! The loader core: it owns the allow-list of permitted locators, the
//! current working directory used to resolve relative paths, the
//! source-map registry, and the per-specifier translation cache, and it
//! orchestrates the cache and import providers around a load.
//!
//! A load either completes at once (permission failure, cache hit, or
//! text handed over by the import provider) or suspends as a pending
//! fetch that the driver completes through `finish_load`. No loader state
//! is borrowed across that suspension point, and none is borrowed across
//! a call into a provider, so a nested `resolve` or `load` issued while
//! an earlier load is suspended finds the loader fully available: the
//! discipline the engine's re-entrant calls require is enforced by
//! construction here rather than checked at run time.

use vstd::prelude::*;

use crate::cache_provider::ModuleCacheProvider;
use crate::import_provider::{ImportProvider, RequestedModuleType, ResolutionKind};
use crate::kv::KvStore;
use crate::module_source::{ClonableSource, ModuleSource, ModuleSourceCode, ModuleType};
use crate::source_map::{opt_bytes_view, SourceMapRegistry};
use crate::specifier::{resolve_specifier, spec_resolve, ModuleSpecifier};
use crate::text::spec_split;
use crate::translator::{spec_translate, translate_cjs_text};
use crate::LoaderError;

verus! {

/// Configuration consumed when a loader is constructed. The providers
/// are fixed for the loader's lifetime; the working directory and the
/// allow-list may be updated later through dedicated setters.
pub struct LoaderOptions<C: ModuleCacheProvider, P: ImportProvider> {
    /// Initial current working directory for resolving relative paths.
    pub cwd: String,
    /// Optional host cache consulted before and written after a fetch.
    pub cache_provider: Option<C>,
    /// Optional host hook intercepting resolution and fetching.
    pub import_provider: Option<P>,
    /// Whether loads are gated on the allow-list.
    pub enforce_allowlist: bool,
}

/// How a load request is being issued.
#[derive(Debug, Clone, Copy)]
pub struct ModuleLoadOptions {
    /// Whether the load comes from a dynamic import.
    pub is_dynamic_import: bool,
    /// Whether the caller must be answered without deferring.
    pub is_synchronous: bool,
    /// The module form the request asked for.
    pub requested_module_type: RequestedModuleType,
}

/// A load that has not produced a source yet: either a result that is
/// already decided, or a fetch the driver must perform and hand back
/// through `finish_load`.
#[derive(Debug)]
pub enum PendingLoad {
    /// The outcome is decided; no fetch is needed.
    Ready(Result<ModuleSource, LoaderError>),
    /// The driver must fetch the text behind the specifier and complete
    /// the load with it.
    NeedsFetch(ModuleSpecifier, RequestedModuleType),
}

/// The loader's answer to a load request. A synchronous caller is never
/// handed a deferred response: a `Sync` pending fetch must be completed
/// through a blocking path before control returns to the engine, while an
/// `Async` one may be completed lazily.
#[derive(Debug)]
pub enum ModuleLoadResponse {
    /// Complete this before returning to the engine.
    Sync(PendingLoad),
    /// This may be completed lazily.
    Async(PendingLoad),
}

/// The pending work a response carries, whichever way it is labelled.
pub open spec fn response_payload(r: ModuleLoadResponse) -> PendingLoad {
    match r {
        ModuleLoadResponse::Sync(p) => p,
        ModuleLoadResponse::Async(p) => p,
    }
}

/// Labels pending work for the caller: everything already decided is
/// answered synchronously, and a pending fetch is deferred exactly when
/// the caller can accept a deferred response.
fn respond(p: PendingLoad, is_synchronous: bool) -> (r: ModuleLoadResponse)
    ensures
        response_payload(r) == p,
        r is Async <==> (!is_synchronous && p is NeedsFetch),
{
    if is_synchronous {
        ModuleLoadResponse::Sync(p)
    } else {
        match p {
            PendingLoad::Ready(res) => ModuleLoadResponse::Sync(PendingLoad::Ready(res)),
            pending => ModuleLoadResponse::Async(pending),
        }
    }
}

/// An import provider's resolve decision is authoritative: a decision,
/// allowing or denying, replaces the default resolution outcome
/// entirely; only "no opinion" lets the default canonical locator stand.
pub fn apply_resolve_decision(
    canonical: ModuleSpecifier,
    decision: Option<Result<ModuleSpecifier, LoaderError>>,
) -> (r: Result<ModuleSpecifier, LoaderError>)
    ensures
        decision matches Some(d) ==> r == d,
        decision is None ==> (r matches Ok(m) && m@ == canonical@),
{
    match decision {
        Some(d) => d,
        None => Ok(canonical),
    }
}

/// The text a fetched module translates to, reusing a translation already
/// recorded for the same specifier instead of recomputing it.
pub open spec fn translate_plan(
    translations: Map<Seq<char>, Seq<char>>,
    specifier: Seq<char>,
    text: Seq<char>,
) -> Option<Seq<char>> {
    if translations.contains_key(specifier) {
        Some(translations[specifier])
    } else {
        spec_translate(text)
    }
}

/// The module loader: resolution, allow-list gating, provider dispatch,
/// translation and source-map bookkeeping for one engine instance.
pub struct RustyLoader<C: ModuleCacheProvider, P: ImportProvider> {
    cwd: String,
    whitelist: Vec<String>,
    enforce_allowlist: bool,
    source_maps: SourceMapRegistry,
    translations: KvStore<String>,
    cache_provider: Option<C>,
    import_provider: Option<P>,
}

impl<C: ModuleCacheProvider, P: ImportProvider> RustyLoader<C, P> {
    /// The current working directory.
    pub closed spec fn spec_cwd(&self) -> Seq<char> {
        self.cwd@
    }

    /// The allow-listed locators, in insertion order.
    pub closed spec fn spec_whitelist(&self) -> Seq<Seq<char>> {
        self.whitelist@.map_values(|s: String| s@)
    }

    /// Whether loads are gated on the allow-list.
    pub closed spec fn spec_enforce(&self) -> bool {
        self.enforce_allowlist
    }

    /// The source-map registry's contents.
    pub closed spec fn spec_source_maps(&self) -> Map<Seq<char>, (Seq<char>, Option<Seq<u8>>)> {
        self.source_maps@
    }

    /// The recorded translations, per specifier.
    pub closed spec fn spec_translations(&self) -> Map<Seq<char>, Seq<char>> {
        self.translations@
    }

    /// The installed cache provider, if any.
    pub closed spec fn spec_cache_provider(&self) -> Option<C> {
        self.cache_provider
    }

    /// The installed import provider, if any.
    pub closed spec fn spec_import_provider(&self) -> Option<P> {
        self.import_provider
    }

    /// Whether a locator may load: always when enforcement is off,
    /// otherwise only when the allow-list holds it.
    pub open spec fn allowed_spec(&self, specifier: Seq<char>) -> bool {
        !self.spec_enforce() || self.spec_whitelist().contains(specifier)
    }

    /// A fresh loader for the given configuration: empty allow-list,
    /// empty source-map registry, empty translation cache.
    pub fn new(options: LoaderOptions<C, P>) -> (r: Self)
        ensures
            r.spec_cwd() == options.cwd@,
            r.spec_enforce() == options.enforce_allowlist,
            r.spec_whitelist() == Seq::<Seq<char>>::empty(),
            r.spec_source_maps() == Map::<Seq<char>, (Seq<char>, Option<Seq<u8>>)>::empty(),
            r.spec_translations() == Map::<Seq<char>, Seq<char>>::empty(),
            r.spec_cache_provider() == options.cache_provider,
            r.spec_import_provider() == options.import_provider,
    {
        let r = RustyLoader {
            cwd: options.cwd,
            whitelist: Vec::new(),
            enforce_allowlist: options.enforce_allowlist,
            source_maps: SourceMapRegistry::new(),
            translations: KvStore::new(),
            cache_provider: options.cache_provider,
            import_provider: options.import_provider,
        };
        proof {
            assert(r.spec_whitelist() =~= Seq::<Seq<char>>::empty());
        }
        r
    }

    /// Replaces the current working directory used for resolving
    /// relative specifiers; everything else is untouched.
    pub fn set_current_dir(&mut self, current_dir: String)
        ensures
            final(self).spec_cwd() == current_dir@,
            final(self).spec_whitelist() == old(self).spec_whitelist(),
            final(self).spec_enforce() == old(self).spec_enforce(),
            final(self).spec_source_maps() == old(self).spec_source_maps(),
            final(self).spec_translations() == old(self).spec_translations(),
            final(self).spec_cache_provider() == old(self).spec_cache_provider(),
            final(self).spec_import_provider() == old(self).spec_import_provider(),
    {
        self.cwd = current_dir;
    }

    /// Adds a locator to the allow-list; everything else is untouched.
    pub fn whitelist_add(&mut self, specifier: &ModuleSpecifier)
        ensures
            final(self).spec_whitelist() == old(self).spec_whitelist().push(specifier@),
            final(self).spec_cwd() == old(self).spec_cwd(),
            final(self).spec_enforce() == old(self).spec_enforce(),
            final(self).spec_source_maps() == old(self).spec_source_maps(),
            final(self).spec_translations() == old(self).spec_translations(),
            final(self).spec_cache_provider() == old(self).spec_cache_provider(),
            final(self).spec_import_provider() == old(self).spec_import_provider(),
    {
        let entry = String::from_str(specifier.as_str());
        let ghost pre = self.whitelist@;
        self.whitelist.push(entry);
        proof {
            let f = |s: String| s@;
            assert(self.whitelist@.map_values(f) =~= pre.map_values(f).push(specifier@));
        }
    }

    /// Whether the allow-list holds this locator.
    fn whitelist_contains(&self, specifier: &ModuleSpecifier) -> (r: bool)
        ensures
            r == self.spec_whitelist().contains(specifier@),
    {
        let needle = String::from_str(specifier.as_str());
        let n = self.whitelist.len();
        let mut i: usize = 0;
        while i < n
            invariant
                needle@ == specifier@,
                n == self.whitelist@.len(),
                i <= n,
                forall|j: int| 0 <= j < i ==> self.whitelist@[j]@ != specifier@,
            decreases n - i,
        {
            if self.whitelist[i] == needle {
                proof {
                    let f = |s: String| s@;
                    assert(self.spec_whitelist()[i as int] == specifier@);
                }
                return true;
            }
            i += 1;
        }
        proof {
            let f = |s: String| s@;
            assert forall|j: int| 0 <= j < self.spec_whitelist().len() implies self.spec_whitelist()[j]
                != specifier@ by {
                assert(self.spec_whitelist()[j] == self.whitelist@[j]@);
            }
        }
        false
    }

    /// Whether this locator may load under the current configuration.
    fn allowed(&self, specifier: &ModuleSpecifier) -> (r: bool)
        ensures
            r == self.allowed_spec(specifier@),
    {
        if !self.enforce_allowlist {
            true
        } else {
            self.whitelist_contains(specifier)
        }
    }

    /// Records a source map for a logical file name, overwriting any
    /// prior entry for it; used so diagnostics can later show the
    /// original line of rewritten text.
    pub fn insert_source_map(&mut self, file_name: &str, code: String, source_map: Option<Vec<u8>>)
        ensures
            final(self).spec_source_maps() == old(self).spec_source_maps().insert(
                file_name@,
                (code@, opt_bytes_view(source_map)),
            ),
            final(self).spec_cwd() == old(self).spec_cwd(),
            final(self).spec_whitelist() == old(self).spec_whitelist(),
            final(self).spec_enforce() == old(self).spec_enforce(),
            final(self).spec_translations() == old(self).spec_translations(),
            final(self).spec_cache_provider() == old(self).spec_cache_provider(),
            final(self).spec_import_provider() == old(self).spec_import_provider(),
    {
        self.source_maps.add(file_name, code, source_map);
    }

    /// The source map recorded for a logical file name, if one was.
    pub fn get_source_map(&self, file_name: &str) -> (r: Option<Vec<u8>>)
        ensures
            match r {
                Some(m) => self.spec_source_maps().contains_key(file_name@) && Some(m@)
                    == self.spec_source_maps()[file_name@].1,
                None => !self.spec_source_maps().contains_key(file_name@)
                    || self.spec_source_maps()[file_name@].1 is None,
            },
    {
        self.source_maps.get_map(file_name)
    }

    /// The `line_number`th line (zero-based) of the original text
    /// recorded for a logical file name: nothing when no text is
    /// recorded or the line number is at or past the number of lines,
    /// the exact line otherwise.
    pub fn get_source_mapped_source_line(&self, file_name: &str, line_number: usize) -> (r: Option<
        String,
    >)
        ensures
            match r {
                Some(line) => {
                    &&& self.spec_source_maps().contains_key(file_name@)
                    &&& line_number < spec_split(
                        self.spec_source_maps()[file_name@].0,
                        '\n',
                    ).len()
                    &&& line@ == spec_split(self.spec_source_maps()[file_name@].0, '\n')[
                        line_number as int
                    ]
                },
                None => !self.spec_source_maps().contains_key(file_name@) || line_number
                    >= spec_split(self.spec_source_maps()[file_name@].0, '\n').len(),
            },
    {
        self.source_maps.get_line(file_name, line_number)
    }

    /// Resolves a raw specifier to a canonical locator: the raw text is
    /// canonicalized first, so the import provider's resolve hook sees a
    /// canonical locator, and an answer from that hook is authoritative;
    /// with no provider, or no opinion, the canonical locator stands.
    pub fn resolve(&mut self, specifier: &str, referrer: &str, kind: ResolutionKind) -> (r: Result<
        ModuleSpecifier,
        LoaderError,
    >)
        ensures
            final(self).spec_cwd() == old(self).spec_cwd(),
            final(self).spec_whitelist() == old(self).spec_whitelist(),
            final(self).spec_enforce() == old(self).spec_enforce(),
            final(self).spec_source_maps() == old(self).spec_source_maps(),
            final(self).spec_translations() == old(self).spec_translations(),
            final(self).spec_cache_provider() == old(self).spec_cache_provider(),
            spec_resolve(specifier@, old(self).spec_cwd()) is None ==> r == Err::<
                ModuleSpecifier,
                LoaderError,
            >(LoaderError::InvalidUrl) && final(self).spec_import_provider() == old(
                self,
            ).spec_import_provider(),
            old(self).spec_import_provider() is None ==> final(self).spec_import_provider() is None
                && (match spec_resolve(specifier@, old(self).spec_cwd()) {
                Some(c) => r matches Ok(m) && m@ == c,
                None => r == Err::<ModuleSpecifier, LoaderError>(LoaderError::InvalidUrl),
            }),
    {
        let canonical = match resolve_specifier(specifier, self.cwd.as_str()) {
            Ok(c) => c,
            Err(e) => {
                return Err(e);
            },
        };
        let decision = match &mut self.import_provider {
            Some(p) => p.resolve(&canonical, referrer, kind),
            None => None,
        };
        apply_resolve_decision(canonical, decision)
    }

    /// Translates fetched text for a specifier, reusing and recording
    /// per-specifier results: a translation already recorded for the
    /// specifier is reused; otherwise the text is translated, and when
    /// that rewrote it, the translation is recorded for reuse and the
    /// original text goes to the source-map registry for diagnostics.
    pub fn translate_cjs(&mut self, specifier: &ModuleSpecifier, source: &str) -> (r: Result<
        String,
        LoaderError,
    >)
        ensures
            final(self).spec_cwd() == old(self).spec_cwd(),
            final(self).spec_whitelist() == old(self).spec_whitelist(),
            final(self).spec_enforce() == old(self).spec_enforce(),
            final(self).spec_cache_provider() == old(self).spec_cache_provider(),
            final(self).spec_import_provider() == old(self).spec_import_provider(),
            r is Ok <==> translate_plan(old(self).spec_translations(), specifier@, source@)
                is Some,
            r matches Ok(out) ==> translate_plan(old(self).spec_translations(), specifier@, source@)
                == Some(out@),
            r matches Err(e) ==> e == LoaderError::TranslationFailed && *final(self) == *old(self),
            old(self).spec_translations().contains_key(specifier@) ==> *final(self) == *old(self),
            r matches Ok(out) ==> (!old(self).spec_translations().contains_key(specifier@)
                ==> if out@ == source@ {
                *final(self) == *old(self)
            } else {
                final(self).spec_translations() == old(self).spec_translations().insert(
                    specifier@,
                    out@,
                ) && final(self).spec_source_maps() == old(self).spec_source_maps().insert(
                    specifier@,
                    (source@, None),
                )
            }),
    {
        let cached: Option<String> = match self.translations.get(specifier.as_str()) {
            Some(t) => Some(t.clone()),
            None => None,
        };
        match cached {
            Some(t) => Ok(t),
            None => {
                match translate_cjs_text(source) {
                    Err(e) => Err(e),
                    Ok(out) => {
                        let original = String::from_str(source);
                        if out == original {
                            Ok(out)
                        } else {
                            self.translations.insert(specifier.as_str(), out.clone());
                            self.source_maps.add(specifier.as_str(), original, None);
                            Ok(out)
                        }
                    },
                }
            },
        }
    }

    /// Rewrites engine-extension text the way fetched modules are
    /// rewritten, recording a source map whenever the text changed so
    /// diagnostics can show the original line. Extension text is handed
    /// over once, outside any load, so nothing is recorded for reuse.
    pub fn transpile_extension(&mut self, specifier: &ModuleSpecifier, code: &str) -> (r: Result<
        (String, Option<Vec<u8>>),
        LoaderError,
    >)
        ensures
            final(self).spec_cwd() == old(self).spec_cwd(),
            final(self).spec_whitelist() == old(self).spec_whitelist(),
            final(self).spec_enforce() == old(self).spec_enforce(),
            final(self).spec_translations() == old(self).spec_translations(),
            final(self).spec_cache_provider() == old(self).spec_cache_provider(),
            final(self).spec_import_provider() == old(self).spec_import_provider(),
            r is Ok <==> spec_translate(code@) is Some,
            r matches Ok(p) ==> spec_translate(code@) == Some(p.0@) && p.1 is None,
            r matches Err(e) ==> e == LoaderError::TranslationFailed && *final(self) == *old(self),
            r matches Ok(p) ==> if p.0@ == code@ {
                *final(self) == *old(self)
            } else {
                final(self).spec_source_maps() == old(self).spec_source_maps().insert(
                    specifier@,
                    (code@, None),
                )
            },
    {
        match translate_cjs_text(code) {
            Err(e) => Err(e),
            Ok(out) => {
                let original = String::from_str(code);
                if out == original {
                    Ok((out, None))
                } else {
                    self.source_maps.add(specifier.as_str(), original, None);
                    Ok((out, None))
                }
            },
        }
    }

    /// Runs the import provider's post-process hook, if one is
    /// installed, and writes the final source back into the cache
    /// provider, keyed by the canonical specifier. With no import
    /// provider the source passes through unchanged; a post-process
    /// error is handed back exactly as the provider produced it.
    fn post_and_cache(&mut self, specifier: &ModuleSpecifier, source: ModuleSource) -> (r: Result<
        ModuleSource,
        LoaderError,
    >)
        ensures
            final(self).spec_cwd() == old(self).spec_cwd(),
            final(self).spec_whitelist() == old(self).spec_whitelist(),
            final(self).spec_enforce() == old(self).spec_enforce(),
            final(self).spec_source_maps() == old(self).spec_source_maps(),
            final(self).spec_translations() == old(self).spec_translations(),
            old(self).spec_import_provider() is None ==> final(self).spec_import_provider() is None
                && r == Ok::<ModuleSource, LoaderError>(source),
    {
        let processed = match &mut self.import_provider {
            Some(p) => p.post_process(specifier, source),
            None => Ok(source),
        };
        match processed {
            Ok(final_source) => {
                match &mut self.cache_provider {
                    Some(c) => {
                        let copy = ClonableSource::clone(&final_source, specifier);
                        c.set(specifier, copy);
                    },
                    None => {},
                }
                Ok(final_source)
            },
            Err(e) => Err(e),
        }
    }

    /// Post-processing of fetched or provider-supplied text: a JSON
    /// request takes the text as a JSON module untranslated; anything
    /// else is translated out of legacy form if needed, then
    /// post-processed and cached.
    fn process_fetched(
        &mut self,
        specifier: &ModuleSpecifier,
        text: String,
        requested: RequestedModuleType,
    ) -> (r: Result<ModuleSource, LoaderError>)
        ensures
            final(self).spec_cwd() == old(self).spec_cwd(),
            final(self).spec_whitelist() == old(self).spec_whitelist(),
            final(self).spec_enforce() == old(self).spec_enforce(),
            requested == RequestedModuleType::Json ==> final(self).spec_translations() == old(
                self,
            ).spec_translations() && final(self).spec_source_maps() == old(self).spec_source_maps(),
            requested == RequestedModuleType::Json && old(self).spec_import_provider() is None
                ==> (r matches Ok(ms) && ms.module_type == ModuleType::Json && ms.code@
                == crate::module_source::CodeView::Text(text@) && ms.specifier@ == specifier@),
            requested == RequestedModuleType::Unspecified ==> {
                let plan = translate_plan(old(self).spec_translations(), specifier@, text@);
                &&& (plan is None ==> r == Err::<ModuleSource, LoaderError>(
                    LoaderError::TranslationFailed,
                ) && *final(self) == *old(self))
                &&& (plan matches Some(out) ==> (old(self).spec_import_provider() is None
                    ==> (r matches Ok(ms) && ms.module_type == ModuleType::JavaScript && ms.code@
                    == crate::module_source::CodeView::Text(out) && ms.specifier@ == specifier@)))
                &&& (old(self).spec_translations().contains_key(specifier@)
                    ==> final(self).spec_translations() == old(self).spec_translations()
                        && final(self).spec_source_maps() == old(self).spec_source_maps())
                &&& (plan matches Some(out) ==> (!old(self).spec_translations().contains_key(
                    specifier@,
                ) ==> if out == text@ {
                    final(self).spec_translations() == old(self).spec_translations()
                        && final(self).spec_source_maps() == old(self).spec_source_maps()
                } else {
                    final(self).spec_translations() == old(self).spec_translations().insert(
                        specifier@,
                        out,
                    ) && final(self).spec_source_maps() == old(self).spec_source_maps().insert(
                        specifier@,
                        (text@, None),
                    )
                }))
            },
    {
        match requested {
            RequestedModuleType::Json => {
                let source = ModuleSource::new(
                    ModuleType::Json,
                    ModuleSourceCode::Text(text),
                    specifier,
                );
                self.post_and_cache(specifier, source)
            },
            RequestedModuleType::Unspecified => {
                match self.translate_cjs(specifier, text.as_str()) {
                    Err(e) => Err(e),
                    Ok(out) => {
                        let source = ModuleSource::new(
                            ModuleType::JavaScript,
                            ModuleSourceCode::Text(out),
                            specifier,
                        );
                        self.post_and_cache(specifier, source)
                    },
                }
            },
        }
    }

    /// Loads a module. In order: the allow-list gates the specifier
    /// ahead of every provider; a cache hit answers at once with no
    /// write-back; text from the import provider's fetch hook goes
    /// through translation, post-processing and cache write-back; and
    /// otherwise the load suspends as a pending fetch for the driver,
    /// to be completed through `finish_load`. A synchronous caller is
    /// never handed a deferred response.
    pub fn load(
        &mut self,
        module_specifier: &ModuleSpecifier,
        maybe_referrer: Option<&ModuleSpecifier>,
        options: ModuleLoadOptions,
    ) -> (r: ModuleLoadResponse)
        ensures
            final(self).spec_cwd() == old(self).spec_cwd(),
            final(self).spec_whitelist() == old(self).spec_whitelist(),
            final(self).spec_enforce() == old(self).spec_enforce(),
            r is Async <==> (!options.is_synchronous && response_payload(r) is NeedsFetch),
            !old(self).allowed_spec(module_specifier@) ==> response_payload(r)
                == PendingLoad::Ready(Err(LoaderError::PermissionDenied)) && *final(self) == *old(
                self,
            ),
            old(self).allowed_spec(module_specifier@) && old(self).spec_cache_provider() is None
                && old(self).spec_import_provider() is None ==> (response_payload(r) matches
                PendingLoad::NeedsFetch(m, t) && m@ == module_specifier@ && t
                == options.requested_module_type) && *final(self) == *old(self),
            old(self).allowed_spec(module_specifier@) && old(self).spec_import_provider() is None
                ==> final(self).spec_import_provider() is None && (response_payload(r) matches
                PendingLoad::Ready(res) ==> res is Ok),
            old(self).spec_import_provider() is None ==> *final(self) == *old(self),
    {
        if !self.allowed(module_specifier) {
            return respond(
                PendingLoad::Ready(Err(LoaderError::PermissionDenied)),
                options.is_synchronous,
            );
        }
        let hit = match &self.cache_provider {
            Some(c) => c.get(module_specifier),
            None => None,
        };
        if let Some(source) = hit {
            return respond(PendingLoad::Ready(Ok(source)), options.is_synchronous);
        }
        let provided: Option<Result<String, LoaderError>> = match &mut self.import_provider {
            Some(p) => p.import(module_specifier, maybe_referrer, options.is_dynamic_import),
            None => None,
        };
        match provided {
            Some(Ok(text)) => {
                let res = self.process_fetched(
                    module_specifier,
                    text,
                    options.requested_module_type,
                );
                respond(PendingLoad::Ready(res), options.is_synchronous)
            },
            Some(Err(e)) => respond(PendingLoad::Ready(Err(e)), options.is_synchronous),
            None => respond(
                PendingLoad::NeedsFetch(module_specifier.clone(), options.requested_module_type),
                options.is_synchronous,
            ),
        }
    }

    /// Completes a suspended load with what the driver's fetch produced:
    /// a fetch failure is handed back exactly as given and leaves the
    /// loader untouched, and fetched text goes through the same
    /// translation, post-processing and cache write-back as text from
    /// the import provider.
    pub fn finish_load(
        &mut self,
        module_specifier: &ModuleSpecifier,
        fetched: Result<String, LoaderError>,
        requested: RequestedModuleType,
    ) -> (r: Result<ModuleSource, LoaderError>)
        ensures
            final(self).spec_cwd() == old(self).spec_cwd(),
            final(self).spec_whitelist() == old(self).spec_whitelist(),
            final(self).spec_enforce() == old(self).spec_enforce(),
            fetched matches Err(e) ==> r == Err::<ModuleSource, LoaderError>(e) && *final(self)
                == *old(self),
            fetched matches Ok(text) ==> (requested == RequestedModuleType::Unspecified ==> {
                let plan = translate_plan(old(self).spec_translations(), module_specifier@, text@);
                &&& (plan is None ==> r == Err::<ModuleSource, LoaderError>(
                    LoaderError::TranslationFailed,
                ) && *final(self) == *old(self))
                &&& (plan matches Some(out) ==> (old(self).spec_import_provider() is None
                    ==> (r matches Ok(ms) && ms.module_type == ModuleType::JavaScript && ms.code@
                    == crate::module_source::CodeView::Text(out) && ms.specifier@
                    == module_specifier@)))
                &&& (plan matches Some(out) ==> (!old(self).spec_translations().contains_key(
                    module_specifier@,
                ) ==> if out == text@ {
                    final(self).spec_translations() == old(self).spec_translations()
                        && final(self).spec_source_maps() == old(self).spec_source_maps()
                } else {
                    final(self).spec_translations() == old(self).spec_translations().insert(
                        module_specifier@,
                        out,
                    ) && final(self).spec_source_maps() == old(self).spec_source_maps().insert(
                        module_specifier@,
                        (text@, None),
                    )
                }))
            }),
            fetched matches Ok(text) ==> ((requested == RequestedModuleType::Json && old(
                self,
            ).spec_import_provider() is None) ==> (r matches Ok(ms) && ms.module_type
                == ModuleType::Json && ms.code@ == crate::module_source::CodeView::Text(text@)
                && ms.specifier@ == module_specifier@)),
    {
        match fetched {
            Err(e) => Err(e),
            Ok(text) => self.process_fetched(module_specifier, text, requested),
        }
    }
}

} // verus!
