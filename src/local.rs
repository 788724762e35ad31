//! Where installed apps are recorded on this machine.
use vstd::prelude::*;
use crate::text::{chars_eq, chars_of, contains, lower_of, lowercase, occurs_at, push_str, string_of};
use crate::types::{AppInfo, Timestamp};

verus! {

/// Paths of the installed-app registry.
#[derive(Debug)]
pub struct LocalRegistry {
    registry_path: String,
    apps_dir: String,
}

impl LocalRegistry {
    /// The registry file's path.
    pub closed spec fn registry_file(&self) -> Seq<char> {
        self.registry_path@
    }

    /// The apps directory's path.
    pub closed spec fn apps_directory(&self) -> Seq<char> {
        self.apps_dir@
    }

    /// The registry under the given configuration and data directories:
    /// `<config_dir>/roselite/installed_apps.json` and
    /// `<data_dir>/roselite/apps`.
    pub fn with_dirs(config_dir: &str, data_dir: &str) -> (r: LocalRegistry)
        ensures
            r.registry_file() == config_dir@ + "/roselite/installed_apps.json"@,
            r.apps_directory() == data_dir@ + "/roselite/apps"@,
    {
        let mut reg: Vec<char> = Vec::new();
        push_str(&mut reg, config_dir);
        push_str(&mut reg, "/roselite/installed_apps.json");
        let mut apps: Vec<char> = Vec::new();
        push_str(&mut apps, data_dir);
        push_str(&mut apps, "/roselite/apps");
        LocalRegistry { registry_path: string_of(reg.as_slice()), apps_dir: string_of(apps.as_slice()) }
    }

    /// The registry file's path.
    pub fn registry_path(&self) -> (r: &str)
        ensures
            r@ == self.registry_file(),
    {
        self.registry_path.as_str()
    }

    /// The directory that installed apps are unpacked under.
    pub fn apps_dir(&self) -> (r: &str)
        ensures
            r@ == self.apps_directory(),
    {
        self.apps_dir.as_str()
    }
}


/// An installed app.
#[derive(Debug)]
pub struct LocalAppInfo {
    pub app_info: AppInfo,
    pub install_path: String,
    pub installed_at: Timestamp,
    pub executable_path: String,
}

impl LocalAppInfo {
    /// The record of `app_info` installed under `install_path` at
    /// `installed_at`; its executable is the entry point in that directory.
    pub fn new(app_info: AppInfo, install_path: String, installed_at: Timestamp) -> (r: LocalAppInfo)
        ensures
            r.app_info == app_info,
            r.install_path == install_path,
            r.installed_at == installed_at,
            r.executable_path@ == install_path@ + "/"@ + app_info.entry_point@,
    {
        let mut exe: Vec<char> = Vec::new();
        push_str(&mut exe, install_path.as_str());
        push_str(&mut exe, "/");
        push_str(&mut exe, app_info.entry_point.as_str());
        let executable_path = string_of(exe.as_slice());
        LocalAppInfo { app_info, install_path, installed_at, executable_path }
    }
}

/// The app's name is `name`.
pub open spec fn exact_match(a: LocalAppInfo, name: Seq<char>) -> bool {
    a.app_info.name@ == name
}

/// The app's name is `name` but for case.
pub open spec fn folded_match(a: LocalAppInfo, name: Seq<char>) -> bool {
    lower_of(a.app_info.name@) == lower_of(name)
}

/// `name`, lowercased, occurs in the app's lowercased name or id.
pub open spec fn partial_match(a: LocalAppInfo, name: Seq<char>) -> bool {
    (exists|i: int| occurs_at(lower_of(a.app_info.name@), lower_of(name), i)) || (exists|i: int|
        occurs_at(lower_of(a.app_info.id.0@), lower_of(name), i))
}

/// The tier of match that a search for `name` among `apps` settles on:
/// 0 exact, 1 case-insensitive, 2 partial, 3 none.
pub open spec fn match_tier(apps: Seq<LocalAppInfo>, name: Seq<char>) -> int {
    if exists|k: int| 0 <= k < apps.len() && exact_match(#[trigger] apps[k], name) {
        0
    } else if exists|k: int| 0 <= k < apps.len() && folded_match(#[trigger] apps[k], name) {
        1
    } else if exists|k: int| 0 <= k < apps.len() && partial_match(#[trigger] apps[k], name) {
        2
    } else {
        3
    }
}

/// Whether `a` matches `name` at tier `tier`.
pub open spec fn matches_at(a: LocalAppInfo, name: Seq<char>, tier: int) -> bool {
    if tier == 0 {
        exact_match(a, name)
    } else if tier == 1 {
        folded_match(a, name)
    } else {
        partial_match(a, name)
    }
}

fn first_at(apps: &Vec<LocalAppInfo>, name: &str, tier: u8) -> (r: Option<usize>)
    requires
        tier <= 2,
    ensures
        r matches Some(i) ==> i < apps@.len() && matches_at(apps@[i as int], name@, tier as int) && forall|k: int|
            0 <= k < i ==> !matches_at(#[trigger] apps@[k], name@, tier as int),
        r is None ==> forall|k: int| 0 <= k < apps@.len() ==> !matches_at(#[trigger] apps@[k], name@, tier as int),
{
    let want = chars_of(name);
    let lname = lowercase(name);
    let want_lower = chars_of(lname.as_str());
    let mut i: usize = 0;
    while i < apps.len()
        invariant
            i <= apps@.len(),
            tier <= 2,
            want@ == name@,
            want_lower@ == lower_of(name@),
            forall|k: int| 0 <= k < i ==> !matches_at(#[trigger] apps@[k], name@, tier as int),
        decreases apps@.len() - i,
    {
        let a = &apps[i];
        let hit = if tier == 0 {
            let n = chars_of(a.app_info.name.as_str());
            chars_eq(n.as_slice(), want.as_slice())
        } else {
            let ln = lowercase(a.app_info.name.as_str());
            let n = chars_of(ln.as_str());
            if tier == 1 {
                chars_eq(n.as_slice(), want_lower.as_slice())
            } else {
                let li = lowercase(a.app_info.id.0.as_str());
                let id = chars_of(li.as_str());
                contains(n.as_slice(), want_lower.as_slice()) || contains(id.as_slice(), want_lower.as_slice())
            }
        };
        if hit {
            return Some(i);
        }
        i = i + 1;
    }
    None
}

impl LocalRegistry {
    /// The installed app that `name` designates among `apps`: the first
    /// with exactly that name, else the first with that name but for case,
    /// else the first whose name or id holds it, case aside.
    pub fn find_app_by_name(apps: &Vec<LocalAppInfo>, name: &str) -> (r: Option<usize>)
        ensures
            r is None <==> match_tier(apps@, name@) == 3,
            r matches Some(i) ==> i < apps@.len() && matches_at(apps@[i as int], name@, match_tier(apps@, name@))
                && forall|k: int| 0 <= k < i ==> !matches_at(#[trigger] apps@[k], name@, match_tier(apps@, name@)),
    {
        let mut tier: u8 = 0;
        while tier <= 2
            invariant
                tier <= 3,
                tier > 0 ==> forall|k: int| 0 <= k < apps@.len() ==> !matches_at(#[trigger] apps@[k], name@, 0),
                tier > 1 ==> forall|k: int| 0 <= k < apps@.len() ==> !matches_at(#[trigger] apps@[k], name@, 1),
                tier > 2 ==> forall|k: int| 0 <= k < apps@.len() ==> !matches_at(#[trigger] apps@[k], name@, 2),
            decreases 3 - tier,
        {
            match first_at(apps, name, tier) {
                Some(i) => {
                    proof {
                        assert(matches_at(apps@[i as int], name@, tier as int));
                        if tier >= 1 {
                            assert(forall|k: int| 0 <= k < apps@.len() ==> !exact_match(#[trigger] apps@[k], name@)) by {
                                assert forall|k: int| 0 <= k < apps@.len() implies !exact_match(#[trigger] apps@[k], name@) by {
                                    assert(!matches_at(apps@[k], name@, 0));
                                }
                            }
                        }
                        if tier >= 2 {
                            assert forall|k: int| 0 <= k < apps@.len() implies !folded_match(#[trigger] apps@[k], name@) by {
                                assert(!matches_at(apps@[k], name@, 1));
                            }
                        }
                    }
                    return Some(i);
                },
                None => {},
            }
            tier = tier + 1;
        }
        proof {
            assert forall|k: int| 0 <= k < apps@.len() implies !exact_match(#[trigger] apps@[k], name@) by {
                assert(!matches_at(apps@[k], name@, 0));
            }
            assert forall|k: int| 0 <= k < apps@.len() implies !folded_match(#[trigger] apps@[k], name@) by {
                assert(!matches_at(apps@[k], name@, 1));
            }
            assert forall|k: int| 0 <= k < apps@.len() implies !partial_match(#[trigger] apps@[k], name@) by {
                assert(!matches_at(apps@[k], name@, 2));
            }
        }
        None
    }
}

} // verus!
