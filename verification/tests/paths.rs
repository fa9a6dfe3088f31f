use tpcli::paths::{resolve_path, BaseDir, Platform, StoreLocation, StorePath};

fn path(base: BaseDir, components: &[&str]) -> Option<StorePath> {
    Some(StorePath { base, components: components.iter().map(|c| c.to_string()).collect() })
}

#[test]
fn cookie_database_on_macos() {
    assert_eq!(
        resolve_path(Platform::MacOs, StoreLocation::TeamsCookies { partition: false }),
        path(BaseDir::Home, &["Library", "Application Support", "Microsoft", "Teams", "Cookies"])
    );
    assert_eq!(
        resolve_path(Platform::MacOs, StoreLocation::TeamsCookies { partition: true }),
        path(
            BaseDir::Home,
            &[
                "Library",
                "Application Support",
                "Microsoft",
                "Teams",
                "Partitions",
                "msa",
                "Cookies"
            ]
        )
    );
}

#[test]
fn cookie_database_on_windows() {
    assert_eq!(
        resolve_path(Platform::Windows, StoreLocation::TeamsCookies { partition: false }),
        path(BaseDir::AppData, &["Microsoft", "Teams", "Cookies"])
    );
    assert_eq!(
        resolve_path(Platform::Windows, StoreLocation::TeamsCookies { partition: true }),
        path(BaseDir::AppData, &["Microsoft", "Teams", "Partitions", "msa", "Cookies"])
    );
}

#[test]
fn browser_store_on_macos() {
    assert_eq!(
        resolve_path(Platform::MacOs, StoreLocation::ChromeLevelDb),
        path(
            BaseDir::Home,
            &[
                "Library",
                "Application Support",
                "Google",
                "Chrome",
                "Default",
                "Local Storage",
                "leveldb"
            ]
        )
    );
}

#[test]
fn unknown_layouts_have_no_path() {
    assert_eq!(resolve_path(Platform::Windows, StoreLocation::ChromeLevelDb), None);
    assert_eq!(resolve_path(Platform::Other, StoreLocation::ChromeLevelDb), None);
    assert_eq!(resolve_path(Platform::Other, StoreLocation::TeamsCookies { partition: false }), None);
    assert_eq!(resolve_path(Platform::Other, StoreLocation::TeamsCookies { partition: true }), None);
}
