use filesync::dircache::{dir_exists, DirCache};
use filesync::manifest::{missing_local_dir_message, missing_sync_dir_message};

#[test]
fn fresh_cache_holds_nothing() {
    let cache = DirCache::new();
    assert!(!cache.contains("/tmp"));
    assert!(!cache.contains(""));
}

#[test]
fn confirmed_directory_is_cached() {
    let mut cache = DirCache::new();
    assert!(dir_exists("/data", &mut cache, Some(true)));
    assert!(cache.contains("/data"));
    // A later check of the same path is answered from the cache: no probe
    // is supplied and the answer is still yes.
    assert!(dir_exists("/data", &mut cache, None));
    // Even a probe that would now say no cannot shake a confirmed path.
    assert!(dir_exists("/data", &mut cache, Some(false)));
}

#[test]
fn missing_directory_is_not_cached() {
    let mut cache = DirCache::new();
    assert!(!dir_exists("/gone", &mut cache, Some(false)));
    assert!(!cache.contains("/gone"));
    // The path stays uncached, so a later check consults the probe again.
    assert!(!dir_exists("/gone", &mut cache, None));
    assert!(dir_exists("/gone", &mut cache, Some(true)));
    assert!(cache.contains("/gone"));
}

#[test]
fn distinct_paths_are_cached_separately() {
    let mut cache = DirCache::new();
    assert!(dir_exists("/a", &mut cache, Some(true)));
    assert!(!cache.contains("/b"));
    assert!(!dir_exists("/b", &mut cache, Some(false)));
    assert!(cache.contains("/a"));
}

#[test]
fn missing_directory_report_lines() {
    assert_eq!(
        missing_local_dir_message("/gone"),
        "Error: Local directory does not exist: /gone"
    );
    assert_eq!(
        missing_sync_dir_message("/gone"),
        "Error: Sync directory does not exist: /gone"
    );
}
