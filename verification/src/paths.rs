//! Where the applications keep their stores, by platform. The base
//! directory comes from the environment; this module says which one, and
//! what is appended to it.

use vstd::prelude::*;

verus! {

/// The platforms whose layouts are told apart.
#[derive(Clone, Copy, Debug, PartialEq, Eq, Structural)]
pub enum Platform {
    MacOs,
    Windows,
    Other,
}

/// The directory that a layout starts from.
#[derive(Clone, Copy, Debug, PartialEq, Eq, Structural)]
pub enum BaseDir {
    /// The user's home directory.
    Home,
    /// The directory for application data.
    AppData,
}

/// The stores that can be asked for.
#[derive(Clone, Copy, Debug, PartialEq, Eq, Structural)]
pub enum StoreLocation {
    /// The cookie database of the desktop client: that of the partition
    /// for personal accounts, or the main one.
    TeamsCookies { partition: bool },
    /// The key-value store that the browser keeps for sites.
    ChromeLevelDb,
}

/// A path: a base directory and the names to append to it, in order.
#[derive(Clone, Debug, PartialEq, Eq)]
pub struct StorePath {
    pub base: BaseDir,
    pub components: Vec<String>,
}

/// A path as plain text.
pub ghost struct PathModel {
    pub base: BaseDir,
    pub components: Seq<Seq<char>>,
}

impl View for StorePath {
    type V = PathModel;

    open spec fn view(&self) -> PathModel {
        PathModel { base: self.base, components: self.components@.map_values(|c: String| c@) }
    }
}

/// The directory of the desktop client below its base directory.
pub open spec fn teams_dir(platform: Platform) -> Option<PathModel> {
    match platform {
        Platform::MacOs => Some(
            PathModel {
                base: BaseDir::Home,
                components: seq!["Library"@, "Application Support"@, "Microsoft"@, "Teams"@],
            },
        ),
        Platform::Windows => Some(
            PathModel { base: BaseDir::AppData, components: seq!["Microsoft"@, "Teams"@] },
        ),
        Platform::Other => None,
    }
}

/// What leads from the client's directory to a cookie database.
pub open spec fn cookies_below(partition: bool) -> Seq<Seq<char>> {
    if partition {
        seq!["Partitions"@, "msa"@, "Cookies"@]
    } else {
        seq!["Cookies"@]
    }
}

/// The path of a store on a platform; `None` where no layout is known.
pub open spec fn store_path(platform: Platform, location: StoreLocation) -> Option<PathModel> {
    match location {
        StoreLocation::TeamsCookies { partition } => match teams_dir(platform) {
            Some(dir) => Some(
                PathModel { base: dir.base, components: dir.components + cookies_below(partition) },
            ),
            None => None,
        },
        StoreLocation::ChromeLevelDb => match platform {
            Platform::MacOs => Some(
                PathModel {
                    base: BaseDir::Home,
                    components: seq![
                        "Library"@,
                        "Application Support"@,
                        "Google"@,
                        "Chrome"@,
                        "Default"@,
                        "Local Storage"@,
                        "leveldb"@,
                    ],
                },
            ),
            _ => None,
        },
    }
}

/// Appends each of `names` to `components`.
fn push_names(components: &mut Vec<String>, names: &[&'static str])
    ensures
        final(components)@.map_values(|c: String| c@) == old(components)@.map_values(
            |c: String| c@,
        ) + names@.map_values(|n: &'static str| n@),
{
    let ghost before = components@.map_values(|c: String| c@);
    let mut i: usize = 0;
    while i < names.len()
        invariant
            i <= names.len(),
            components@.map_values(|c: String| c@) == before + names@.take(i as int).map_values(
                |n: &'static str| n@,
            ),
        decreases names.len() - i,
    {
        let ghost so_far = components@.map_values(|c: String| c@);
        components.push(names[i].to_owned());
        proof {
            assert(components@.map_values(|c: String| c@) =~= so_far.push(names@[i as int]@));
            assert(names@.take(i + 1).map_values(|n: &'static str| n@) =~= names@.take(
                i as int,
            ).map_values(|n: &'static str| n@).push(names@[i as int]@));
        }
        i = i + 1;
    }
}

/// Says where a store lies on a platform: the base directory to start
/// from and the names to append. `None` where no layout is known for the
/// platform.
pub fn resolve_path(platform: Platform, location: StoreLocation) -> (r: Option<StorePath>)
    ensures
        match store_path(platform, location) {
            Some(model) => r matches Some(path) && path@ == model,
            None => r is None,
        },
{
    let mut components: Vec<String> = Vec::new();
    match location {
        StoreLocation::TeamsCookies { partition } => {
            let base = match platform {
                Platform::MacOs => {
                    push_names(
                        &mut components,
                        &["Library", "Application Support", "Microsoft", "Teams"],
                    );
                    BaseDir::Home
                },
                Platform::Windows => {
                    push_names(&mut components, &["Microsoft", "Teams"]);
                    BaseDir::AppData
                },
                Platform::Other => {
                    return None;
                },
            };
            if partition {
                push_names(&mut components, &["Partitions", "msa"]);
            }
            push_names(&mut components, &["Cookies"]);
            let path = StorePath { base, components };
            proof {
                assert(path@.components =~= store_path(platform, location)->0.components);
            }
            Some(path)
        },
        StoreLocation::ChromeLevelDb => match platform {
            Platform::MacOs => {
                push_names(
                    &mut components,
                    &[
                        "Library",
                        "Application Support",
                        "Google",
                        "Chrome",
                        "Default",
                        "Local Storage",
                        "leveldb",
                    ],
                );
                let path = StorePath { base: BaseDir::Home, components };
                proof {
                    assert(path@.components =~= store_path(platform, location)->0.components);
                }
                Some(path)
            },
            _ => None,
        },
    }
}

} // verus!
