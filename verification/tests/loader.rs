use std::cell::Cell;
use std::collections::HashMap;
use std::rc::Rc;

use rustyscript::{
    ClonableSource, ImportProvider, LoaderError, LoaderOptions, ModuleCacheProvider,
    ModuleLoadOptions, ModuleLoadResponse, ModuleSource, ModuleSourceCode, ModuleSpecifier,
    ModuleType, NullImportProvider, NullModuleCacheProvider, PendingLoad, RequestedModuleType,
    ResolutionKind, RustyLoader,
};

/// Test in-memory module cache provider.
#[derive(Default)]
struct MemoryModuleCacheProvider(HashMap<String, ModuleSource>);

impl ModuleCacheProvider for MemoryModuleCacheProvider {
    fn set(&mut self, specifier: &ModuleSpecifier, source: ModuleSource) {
        self.0.insert(specifier.as_str().to_string(), source);
    }

    fn get(&self, specifier: &ModuleSpecifier) -> Option<ModuleSource> {
        self.0
            .get(specifier.as_str())
            .map(|s| s.clone(specifier))
    }
}

/// Cache and import providers that count their invocations through
/// shared handles, so a test can observe whether the loader consulted
/// them.
struct CountingCacheProvider {
    gets: Rc<Cell<usize>>,
}

impl ModuleCacheProvider for CountingCacheProvider {
    fn get(&self, _specifier: &ModuleSpecifier) -> Option<ModuleSource> {
        self.gets.set(self.gets.get() + 1);
        None
    }

    fn set(&mut self, _specifier: &ModuleSpecifier, _source: ModuleSource) {}
}

struct CountingImportProvider {
    imports: Rc<Cell<usize>>,
}

impl ImportProvider for CountingImportProvider {
    fn import(
        &mut self,
        _specifier: &ModuleSpecifier,
        _referrer: Option<&ModuleSpecifier>,
        _is_dyn_import: bool,
    ) -> Option<Result<String, LoaderError>> {
        self.imports.set(self.imports.get() + 1);
        None
    }
}

fn default_load_options() -> ModuleLoadOptions {
    ModuleLoadOptions {
        is_dynamic_import: false,
        is_synchronous: false,
        requested_module_type: RequestedModuleType::Unspecified,
    }
}

fn no_providers_loader(
    enforce: bool,
) -> RustyLoader<NullModuleCacheProvider, NullImportProvider> {
    RustyLoader::new(LoaderOptions {
        cwd: "/tmp".to_string(),
        cache_provider: None,
        import_provider: None,
        enforce_allowlist: enforce,
    })
}

#[test]
fn test_loader() {
    let mut cache_provider = MemoryModuleCacheProvider::default();
    let specifier = ModuleSpecifier::parse("file:///test.ts").unwrap();
    let source = ModuleSource::new(
        ModuleType::JavaScript,
        ModuleSourceCode::Text("console.log('Hello, World!')".to_string()),
        &specifier,
    );

    cache_provider.set(&specifier, source.clone(&specifier));
    let cached_source = cache_provider
        .get(&specifier)
        .expect("Expected to get cached source");

    let mut loader: RustyLoader<MemoryModuleCacheProvider, NullImportProvider> =
        RustyLoader::new(LoaderOptions {
            cwd: "/tmp".to_string(),
            cache_provider: Some(cache_provider),
            import_provider: None,
            enforce_allowlist: false,
        });
    let response = loader.load(&specifier, None, default_load_options());
    match response {
        ModuleLoadResponse::Async(_) => panic!("Unexpected response"),
        ModuleLoadResponse::Sync(pending) => {
            let PendingLoad::Ready(result) = pending else {
                panic!("Unexpected response");
            };
            let source = result.expect("Expected to get source");

            let ModuleSourceCode::Text(source) = source.code else {
                panic!("Unexpected source code type");
            };

            let ModuleSourceCode::Text(cached_source) = cached_source.code else {
                panic!("Unexpected source code type");
            };

            assert_eq!(source, cached_source);
        }
    }
}

struct TestImportProvider {
    i: usize,
}

impl TestImportProvider {
    fn new() -> Self {
        Self { i: 0 }
    }
}

impl ImportProvider for TestImportProvider {
    fn resolve(
        &mut self,
        specifier: &ModuleSpecifier,
        _referrer: &str,
        _kind: ResolutionKind,
    ) -> Option<Result<ModuleSpecifier, LoaderError>> {
        if specifier.as_str().starts_with("test://") {
            self.i += 1;
            Some(Ok(
                ModuleSpecifier::parse(&format!("test://{}", self.i)).unwrap()
            ))
        } else {
            None
        }
    }

    fn import(
        &mut self,
        specifier: &ModuleSpecifier,
        _referrer: Option<&ModuleSpecifier>,
        _is_dyn_import: bool,
    ) -> Option<Result<String, LoaderError>> {
        match specifier.as_str() {
            "test://1" => Some(Ok("console.log('Rock')".to_string())),
            "test://2" => Some(Ok("console.log('Paper')".to_string())),
            "test://3" => Some(Ok("console.log('Scissors')".to_string())),
            _ => None,
        }
    }
}

#[test]
fn test_import_provider() {
    let mut loader: RustyLoader<NullModuleCacheProvider, TestImportProvider> =
        RustyLoader::new(LoaderOptions {
            cwd: "/tmp".to_string(),
            cache_provider: None,
            import_provider: Some(TestImportProvider::new()),
            enforce_allowlist: false,
        });
    let expected_responses = [
        "console.log('Rock')".to_string(),
        "console.log('Paper')".to_string(),
        "console.log('Scissors')".to_string(),
    ];

    for expected in expected_responses {
        let specifier = loader
            .resolve("test://anything", "", ResolutionKind::Import)
            .unwrap();
        let response = loader.load(&specifier, None, default_load_options());
        match response {
            ModuleLoadResponse::Sync(PendingLoad::Ready(result)) => {
                let source = result.expect("Expected to get source");
                let ModuleSourceCode::Text(source) = source.code else {
                    panic!("Unexpected source code type");
                };

                assert_eq!(source, expected);
            }
            _ => panic!("Unexpected response"),
        }
    }
}

/// Test backward compatibility for ImportProvider trait
#[test]
fn test_import_provider_backward_compat() {
    // Test provider that uses the old API
    struct OldStyleProvider;
    impl ImportProvider for OldStyleProvider {
        // Override the old method
        fn import_with_type(
            &mut self,
            specifier: &ModuleSpecifier,
            _referrer: Option<&ModuleSpecifier>,
            _is_dyn_import: bool,
            _requested_module_type: RequestedModuleType,
        ) -> Option<Result<String, LoaderError>> {
            match specifier.as_str() {
                "test://old" => Some(Ok("console.log('old style')".to_string())),
                _ => None,
            }
        }
    }

    // Test provider that uses the new API
    struct NewStyleProvider;
    impl ImportProvider for NewStyleProvider {
        fn import(
            &mut self,
            specifier: &ModuleSpecifier,
            _referrer: Option<&ModuleSpecifier>,
            _is_dyn_import: bool,
        ) -> Option<Result<String, LoaderError>> {
            match specifier.as_str() {
                "test://new" => Some(Ok("console.log('new style')".to_string())),
                _ => None,
            }
        }
    }

    // Both should work
    let mut old_provider = OldStyleProvider;
    let mut new_provider = NewStyleProvider;

    let spec_old = ModuleSpecifier::parse("test://old").unwrap();
    let spec_new = ModuleSpecifier::parse("test://new").unwrap();

    // Old style provider should work via the new interface
    let result = old_provider.import(&spec_old, None, false);
    assert!(result.is_some());
    assert_eq!(result.unwrap().unwrap(), "console.log('old style')");

    // New style provider should work
    let result = new_provider.import(&spec_new, None, false);
    assert!(result.is_some());
    assert_eq!(result.unwrap().unwrap(), "console.log('new style')");
}

#[test]
fn test_allowlist_blocks_load_without_consulting_providers() {
    let gets = Rc::new(Cell::new(0usize));
    let imports = Rc::new(Cell::new(0usize));
    let mut loader: RustyLoader<CountingCacheProvider, CountingImportProvider> =
        RustyLoader::new(LoaderOptions {
            cwd: "/tmp".to_string(),
            cache_provider: Some(CountingCacheProvider { gets: gets.clone() }),
            import_provider: Some(CountingImportProvider {
                imports: imports.clone(),
            }),
            enforce_allowlist: true,
        });

    let specifier = ModuleSpecifier::parse("file:///blocked.js").unwrap();
    let response = loader.load(&specifier, None, default_load_options());
    match response {
        ModuleLoadResponse::Sync(PendingLoad::Ready(Err(e))) => {
            assert_eq!(e, LoaderError::PermissionDenied);
        }
        _ => panic!("Expected an immediate permission failure"),
    }
    assert_eq!(gets.get(), 0, "cache provider must not be consulted");
    assert_eq!(imports.get(), 0, "import provider must not be consulted");
}

#[test]
fn test_allowlist_admits_added_specifier() {
    let mut loader = no_providers_loader(true);
    let specifier = ModuleSpecifier::parse("file:///allowed.js").unwrap();
    loader.whitelist_add(&specifier);
    let response = loader.load(&specifier, None, default_load_options());
    match response {
        ModuleLoadResponse::Async(PendingLoad::NeedsFetch(m, _)) => {
            assert_eq!(m.as_str(), "file:///allowed.js");
        }
        _ => panic!("Expected a pending fetch"),
    }
}

#[test]
fn test_import_provider_resolve_is_authoritative() {
    let mut loader: RustyLoader<NullModuleCacheProvider, TestImportProvider> =
        RustyLoader::new(LoaderOptions {
            cwd: "/tmp".to_string(),
            cache_provider: None,
            import_provider: Some(TestImportProvider::new()),
            enforce_allowlist: false,
        });

    // The provider answers for test:// locators; its decision replaces the
    // default outcome (which would have been test://anything itself).
    let resolved = loader
        .resolve("test://anything", "", ResolutionKind::Import)
        .unwrap();
    assert_eq!(resolved.as_str(), "test://1");

    // For other schemes the provider defers and the canonical locator
    // stands.
    let resolved = loader
        .resolve("file:///plain.js", "", ResolutionKind::Import)
        .unwrap();
    assert_eq!(resolved.as_str(), "file:///plain.js");
}

#[test]
fn test_reentrant_interleaved_loads() {
    // A load suspends as a pending fetch that holds no loader state, so
    // further loader calls may be issued before it is completed.
    let mut loader = no_providers_loader(false);
    let spec_a = ModuleSpecifier::parse("file:///a.js").unwrap();
    let spec_b = ModuleSpecifier::parse("file:///b.js").unwrap();

    let pending_a = match loader.load(&spec_a, None, default_load_options()) {
        ModuleLoadResponse::Async(p @ PendingLoad::NeedsFetch(..)) => p,
        _ => panic!("Expected a pending fetch"),
    };
    let pending_b = match loader.load(&spec_b, Some(&spec_a), default_load_options()) {
        ModuleLoadResponse::Async(p @ PendingLoad::NeedsFetch(..)) => p,
        _ => panic!("Expected a pending fetch"),
    };

    // While both loads are suspended the loader stays fully available,
    // as it must while the engine unwinds an error.
    loader.insert_source_map("a.js", "original text".to_string(), None);
    assert_eq!(
        loader.get_source_mapped_source_line("a.js", 0),
        Some("original text".to_string())
    );

    // Complete the two loads in the opposite order.
    let PendingLoad::NeedsFetch(m_b, t_b) = pending_b else {
        panic!("Expected a pending fetch");
    };
    let source_b = loader
        .finish_load(&m_b, Ok("export const b = 2;".to_string()), t_b)
        .expect("load of b must complete");
    let ModuleSourceCode::Text(code_b) = source_b.code else {
        panic!("Unexpected source code type");
    };
    assert_eq!(code_b, "export const b = 2;");

    let PendingLoad::NeedsFetch(m_a, t_a) = pending_a else {
        panic!("Expected a pending fetch");
    };
    let source_a = loader
        .finish_load(&m_a, Ok("export const a = 1;".to_string()), t_a)
        .expect("load of a must complete");
    let ModuleSourceCode::Text(code_a) = source_a.code else {
        panic!("Unexpected source code type");
    };
    assert_eq!(code_a, "export const a = 1;");
}

#[test]
fn test_fetch_roundtrip_populates_cache() {
    let mut loader: RustyLoader<MemoryModuleCacheProvider, NullImportProvider> =
        RustyLoader::new(LoaderOptions {
            cwd: "/tmp".to_string(),
            cache_provider: Some(MemoryModuleCacheProvider::default()),
            import_provider: None,
            enforce_allowlist: false,
        });
    let specifier = ModuleSpecifier::parse("file:///cached.js").unwrap();

    // First load misses the cache and suspends.
    let (m, t) = match loader.load(&specifier, None, default_load_options()) {
        ModuleLoadResponse::Async(PendingLoad::NeedsFetch(m, t)) => (m, t),
        _ => panic!("Expected a pending fetch"),
    };
    let fetched = loader
        .finish_load(&m, Ok("export const v = 42;".to_string()), t)
        .expect("load must complete");
    let ModuleSourceCode::Text(fetched_code) = fetched.code else {
        panic!("Unexpected source code type");
    };

    // The second load hits the cache and returns byte-identical code.
    match loader.load(&specifier, None, default_load_options()) {
        ModuleLoadResponse::Sync(PendingLoad::Ready(Ok(source))) => {
            let ModuleSourceCode::Text(code) = source.code else {
                panic!("Unexpected source code type");
            };
            assert_eq!(code, fetched_code);
            assert_eq!(code, "export const v = 42;");
        }
        _ => panic!("Expected a cache hit"),
    }
}

#[test]
fn test_synchronous_caller_never_deferred() {
    let mut loader = no_providers_loader(false);
    let specifier = ModuleSpecifier::parse("file:///sync.js").unwrap();
    let options = ModuleLoadOptions {
        is_dynamic_import: false,
        is_synchronous: true,
        requested_module_type: RequestedModuleType::Unspecified,
    };
    match loader.load(&specifier, None, options) {
        ModuleLoadResponse::Sync(PendingLoad::NeedsFetch(m, _)) => {
            assert_eq!(m.as_str(), "file:///sync.js");
        }
        ModuleLoadResponse::Async(_) => panic!("Synchronous caller was deferred"),
        _ => panic!("Expected a pending fetch"),
    }
}

#[test]
fn test_finish_load_passes_fetch_error_through() {
    let mut loader = no_providers_loader(false);
    let specifier = ModuleSpecifier::parse("file:///missing.js").unwrap();
    let result = loader.finish_load(
        &specifier,
        Err(LoaderError::NotFound),
        RequestedModuleType::Unspecified,
    );
    assert_eq!(result.unwrap_err(), LoaderError::NotFound);
}

#[test]
fn test_finish_load_json_request() {
    let mut loader = no_providers_loader(false);
    let specifier = ModuleSpecifier::parse("file:///data.json").unwrap();
    let source = loader
        .finish_load(
            &specifier,
            Ok("{\"a\": 1}".to_string()),
            RequestedModuleType::Json,
        )
        .expect("json load must complete");
    assert_eq!(source.module_type, ModuleType::Json);
    let ModuleSourceCode::Text(code) = source.code else {
        panic!("Unexpected source code type");
    };
    assert_eq!(code, "{\"a\": 1}");
}

#[test]
fn test_finish_load_translates_legacy_text_and_records_source_map() {
    let mut loader = no_providers_loader(false);
    let specifier = ModuleSpecifier::parse("file:///legacy.js").unwrap();
    let source = loader
        .finish_load(
            &specifier,
            Ok("module.exports = 5;".to_string()),
            RequestedModuleType::Unspecified,
        )
        .expect("legacy load must complete");
    assert_eq!(source.module_type, ModuleType::JavaScript);
    let ModuleSourceCode::Text(code) = source.code else {
        panic!("Unexpected source code type");
    };
    assert_eq!(
        code,
        "const module = { exports: {} };\nconst exports = module.exports;\nmodule.exports = 5;\nexport default module.exports;\n"
    );
    // The original text went to the source-map registry for diagnostics.
    assert_eq!(
        loader.get_source_mapped_source_line("file:///legacy.js", 0),
        Some("module.exports = 5;".to_string())
    );
}

#[test]
fn test_failed_load_leaves_loader_reusable() {
    let mut loader = no_providers_loader(false);
    let bad = ModuleSpecifier::parse("file:///bad.js").unwrap();
    let mixed = "import x from 'y';\nconst z = require('z');";
    let result = loader.finish_load(
        &bad,
        Ok(mixed.to_string()),
        RequestedModuleType::Unspecified,
    );
    assert_eq!(result.unwrap_err(), LoaderError::TranslationFailed);

    // The failure is local to that call: an unrelated load still works.
    let good = ModuleSpecifier::parse("file:///good.js").unwrap();
    let source = loader
        .finish_load(
            &good,
            Ok("export const ok = true;".to_string()),
            RequestedModuleType::Unspecified,
        )
        .expect("unrelated load must complete");
    let ModuleSourceCode::Text(code) = source.code else {
        panic!("Unexpected source code type");
    };
    assert_eq!(code, "export const ok = true;");
}

#[test]
fn test_translation_reused_per_specifier() {
    let mut loader = no_providers_loader(false);
    let specifier = ModuleSpecifier::parse("file:///reuse.js").unwrap();
    let first = loader
        .translate_cjs(&specifier, "exports.a = 1;")
        .expect("translation must succeed");
    // A later request for the same specifier reuses the recorded
    // translation rather than recomputing it, whatever text it carries.
    let second = loader
        .translate_cjs(&specifier, "exports.b = 2;")
        .expect("translation must succeed");
    assert_eq!(first, second);
    assert!(first.contains("exports.a = 1;"));
}

#[test]
fn test_transpile_extension_rewrites_and_records_map() {
    let mut loader = no_providers_loader(false);
    let specifier = ModuleSpecifier::parse("ext:init/init.js").unwrap();
    let (code, map) = loader
        .transpile_extension(&specifier, "module.exports = 1;")
        .expect("extension transpile must succeed");
    assert!(map.is_none());
    assert!(code.starts_with("const module = { exports: {} };"));
    assert_eq!(
        loader.get_source_mapped_source_line("ext:init/init.js", 0),
        Some("module.exports = 1;".to_string())
    );

    // Text already in standard module form passes through unchanged and
    // records nothing.
    let other = ModuleSpecifier::parse("ext:init/other.js").unwrap();
    let (code, map) = loader
        .transpile_extension(&other, "export const x = 1;")
        .expect("extension transpile must succeed");
    assert!(map.is_none());
    assert_eq!(code, "export const x = 1;");
    assert_eq!(loader.get_source_mapped_source_line("ext:init/other.js", 0), None);
}

#[test]
fn test_import_error_passes_through_unmodified() {
    struct FailingImportProvider;
    impl ImportProvider for FailingImportProvider {
        fn import(
            &mut self,
            _specifier: &ModuleSpecifier,
            _referrer: Option<&ModuleSpecifier>,
            _is_dyn_import: bool,
        ) -> Option<Result<String, LoaderError>> {
            Some(Err(LoaderError::ProviderError("import refused".to_string())))
        }
    }

    let mut loader: RustyLoader<NullModuleCacheProvider, FailingImportProvider> =
        RustyLoader::new(LoaderOptions {
            cwd: "/tmp".to_string(),
            cache_provider: None,
            import_provider: Some(FailingImportProvider),
            enforce_allowlist: false,
        });
    let specifier = ModuleSpecifier::parse("file:///refused.js").unwrap();
    match loader.load(&specifier, None, default_load_options()) {
        ModuleLoadResponse::Sync(PendingLoad::Ready(Err(e))) => {
            assert_eq!(e, LoaderError::ProviderError("import refused".to_string()));
        }
        _ => panic!("Expected the provider's error, unmodified"),
    }
}

#[test]
fn test_post_process_error_passes_through_unmodified() {
    struct FailingPostProcessProvider;
    impl ImportProvider for FailingPostProcessProvider {
        fn post_process(
            &mut self,
            _specifier: &ModuleSpecifier,
            _source: ModuleSource,
        ) -> Result<ModuleSource, LoaderError> {
            Err(LoaderError::ProviderError("post-process failed".to_string()))
        }
    }

    let mut loader: RustyLoader<NullModuleCacheProvider, FailingPostProcessProvider> =
        RustyLoader::new(LoaderOptions {
            cwd: "/tmp".to_string(),
            cache_provider: None,
            import_provider: Some(FailingPostProcessProvider),
            enforce_allowlist: false,
        });
    let specifier = ModuleSpecifier::parse("file:///post.js").unwrap();
    let (m, t) = match loader.load(&specifier, None, default_load_options()) {
        ModuleLoadResponse::Async(PendingLoad::NeedsFetch(m, t)) => (m, t),
        _ => panic!("Expected a pending fetch"),
    };
    let result = loader.finish_load(&m, Ok("export const x = 1;".to_string()), t);
    assert_eq!(
        result.unwrap_err(),
        LoaderError::ProviderError("post-process failed".to_string())
    );
}

#[test]
fn test_set_current_dir_changes_relative_resolution() {
    let mut loader = no_providers_loader(false);
    let first = loader
        .resolve("util.js", "", ResolutionKind::Import)
        .unwrap();
    assert_eq!(first.as_str(), "file:///tmp/util.js");

    loader.set_current_dir("/srv/app".to_string());
    let second = loader
        .resolve("util.js", "", ResolutionKind::Import)
        .unwrap();
    assert_eq!(second.as_str(), "file:///srv/app/util.js");
}
