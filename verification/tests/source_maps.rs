use rustyscript::source_map::SourceMapRegistry;
use rustyscript::{
    LoaderOptions, NullImportProvider, NullModuleCacheProvider, RustyLoader,
};

fn loader() -> RustyLoader<NullModuleCacheProvider, NullImportProvider> {
    RustyLoader::new(LoaderOptions {
        cwd: "/tmp".to_string(),
        cache_provider: None,
        import_provider: None,
        enforce_allowlist: false,
    })
}

#[test]
fn test_source_map_roundtrip() {
    let mut loader = loader();
    loader.insert_source_map("test.js", "let a = 1;".to_string(), Some(vec![1, 2, 3]));
    assert_eq!(loader.get_source_map("test.js"), Some(vec![1, 2, 3]));
    assert_eq!(loader.get_source_map("other.js"), None);
}

#[test]
fn test_source_map_entry_without_map_bytes() {
    let mut loader = loader();
    loader.insert_source_map("plain.js", "let a = 1;".to_string(), None);
    assert_eq!(loader.get_source_map("plain.js"), None);
}

#[test]
fn test_source_map_insert_is_last_write_wins() {
    let mut loader = loader();
    loader.insert_source_map("test.js", "first".to_string(), Some(vec![1]));
    loader.insert_source_map("test.js", "second".to_string(), Some(vec![2]));
    assert_eq!(loader.get_source_map("test.js"), Some(vec![2]));
    assert_eq!(
        loader.get_source_mapped_source_line("test.js", 0),
        Some("second".to_string())
    );
}

#[test]
fn test_source_mapped_line_lookup() {
    let mut loader = loader();
    loader.insert_source_map(
        "test.js",
        "line zero\nline one\nline two".to_string(),
        None,
    );
    assert_eq!(
        loader.get_source_mapped_source_line("test.js", 0),
        Some("line zero".to_string())
    );
    assert_eq!(
        loader.get_source_mapped_source_line("test.js", 1),
        Some("line one".to_string())
    );
    assert_eq!(
        loader.get_source_mapped_source_line("test.js", 2),
        Some("line two".to_string())
    );
}

#[test]
fn test_source_mapped_line_out_of_range_returns_nothing() {
    let mut loader = loader();
    loader.insert_source_map("test.js", "only\ntwo lines".to_string(), None);
    assert_eq!(loader.get_source_mapped_source_line("test.js", 2), None);
    assert_eq!(loader.get_source_mapped_source_line("test.js", 100), None);
    assert_eq!(loader.get_source_mapped_source_line("absent.js", 0), None);
}

#[test]
fn test_trailing_newline_counts_as_empty_last_line() {
    let mut loader = loader();
    loader.insert_source_map("test.js", "a\nb\n".to_string(), None);
    assert_eq!(
        loader.get_source_mapped_source_line("test.js", 1),
        Some("b".to_string())
    );
    assert_eq!(
        loader.get_source_mapped_source_line("test.js", 2),
        Some("".to_string())
    );
    assert_eq!(loader.get_source_mapped_source_line("test.js", 3), None);
}

#[test]
fn test_registry_stores_code_and_map() {
    let mut registry = SourceMapRegistry::new();
    assert_eq!(registry.get_code("f.js"), None);
    registry.add("f.js", "alpha\nbeta".to_string(), Some(vec![9]));
    assert_eq!(registry.get_code("f.js"), Some(&"alpha\nbeta".to_string()));
    assert_eq!(registry.get_map("f.js"), Some(vec![9]));
    assert_eq!(registry.get_line("f.js", 1), Some("beta".to_string()));
    assert_eq!(registry.get_line("f.js", 2), None);
}
