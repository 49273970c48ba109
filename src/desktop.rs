//! Desktop entries: the `.desktop` files that name an application and its
//! icon, where they are looked for, and a cache of what was found.

use vstd::prelude::*;
use crate::cache::{memo_lookup, memo_recorded, MemoCache};
use crate::text::{lower_of, lowercase, owned};

verus! {

#[verifier::external_type_specification]
#[verifier::external_body]
pub struct ExIni(ini::Ini);

#[verifier::external_type_specification]
#[verifier::external_body]
pub struct ExIniParseError(ini::ParseError);

/// What an INI text holds, keyed by (section, key): the first value of each
/// key in the first section of each name; `None` when the text does not
/// parse.
pub uninterp spec fn ini_loaded(text: Seq<char>) -> Option<Map<(Seq<char>, Seq<char>), Seq<char>>>;

/// What a parsed INI document holds, keyed as for `ini_loaded`.
pub uninterp spec fn ini_contents(ini: ini::Ini) -> Map<(Seq<char>, Seq<char>), Seq<char>>;

/// Relies on `ini::Ini::load_from_str`: it fails or succeeds, and what the
/// document holds, by the text alone.
#[verifier::external_body]
fn load_ini(text: &str) -> (r: Result<ini::Ini, ini::ParseError>)
    ensures
        r is Err ==> ini_loaded(text@) is None,
        r matches Ok(i) ==> ini_loaded(text@) == Some(ini_contents(i)),
{
    ini::Ini::load_from_str(text)
}

/// Relies on `ini::Ini::get_from`: the first value of `key` in the first
/// section named `section`.
#[verifier::external_body]
fn ini_get(ini: &ini::Ini, section: &str, key: &str) -> (r: Option<String>)
    ensures
        r matches Some(v) ==> ini_contents(*ini).contains_key((section@, key@)) && ini_contents(
            *ini,
        )[(section@, key@)] == v@,
        r is None ==> !ini_contents(*ini).contains_key((section@, key@)),
{
    ini.get_from(Some(section), key).map(String::from)
}

/// The section of a desktop file that describes the application.
pub const DESKTOP_SECTION: &'static str = "Desktop Entry";

/// Directories searched for desktop files, in this order.
pub const SYSTEM_APPLICATIONS: &'static str = "/usr/share/applications";
pub const LOCAL_APPLICATIONS: &'static str = "/usr/local/share/applications";
pub const USER_APPLICATIONS: &'static str = "~/.local/share/applications";

/// The fields of a desktop entry that the bar uses: `Name`, `Exec` (as
/// `command`) and `Icon`.
pub struct DesktopFile {
    pub name: String,
    pub command: String,
    pub icon: Option<String>,
}

pub open spec fn opt_text(s: Option<String>) -> Option<Seq<char>> {
    match s {
        Some(t) => Some(t@),
        None => None,
    }
}

pub open spec fn field_of(m: Map<(Seq<char>, Seq<char>), Seq<char>>, key: Seq<char>) -> Option<Seq<char>> {
    if m.contains_key((DESKTOP_SECTION@, key)) {
        Some(m[(DESKTOP_SECTION@, key)])
    } else {
        None
    }
}

pub open spec fn field_or_empty(m: Map<(Seq<char>, Seq<char>), Seq<char>>, key: Seq<char>) -> Seq<char> {
    match field_of(m, key) {
        Some(v) => v,
        None => Seq::empty(),
    }
}

/// The entry a desktop file's text describes: `None` when it does not
/// parse; missing `Name` and `Exec` read as empty.
pub open spec fn entry_matches(text: Seq<char>, r: Option<DesktopFile>) -> bool {
    match ini_loaded(text) {
        None => r is None,
        Some(m) => r matches Some(d) && d.name@ == field_or_empty(m, "Name"@) && d.command@
            == field_or_empty(m, "Exec"@) && opt_text(d.icon) == field_of(m, "Icon"@),
    }
}

/// The paths tried for an application class, in order: in each directory
/// the class as given first, then the lowercased class.
pub open spec fn candidate_paths_of(class: Seq<char>) -> Seq<Seq<char>> {
    let lower = lower_of(class);
    let ext = ".desktop"@;
    seq![
        SYSTEM_APPLICATIONS@ + "/"@ + class + ext,
        SYSTEM_APPLICATIONS@ + "/"@ + lower + ext,
        LOCAL_APPLICATIONS@ + "/"@ + class + ext,
        LOCAL_APPLICATIONS@ + "/"@ + lower + ext,
        USER_APPLICATIONS@ + "/"@ + class + ext,
        USER_APPLICATIONS@ + "/"@ + lower + ext,
    ]
}

fn join_path(dir: &str, stem: &str) -> (r: String)
    ensures
        r@ == dir@ + "/"@ + stem@ + ".desktop"@,
{
    let mut p = owned(dir);
    p.append("/");
    p.append(stem);
    p.append(".desktop");
    p
}

/// Desktop-entry lookup results by application class, absent ones too.
pub type DesktopCache = MemoCache<Option<DesktopFile>>;

impl DesktopFile {
    pub fn copy(&self) -> (r: Self)
        ensures
            r.name@ == self.name@,
            r.command@ == self.command@,
            opt_text(r.icon) == opt_text(self.icon),
    {
        DesktopFile {
            name: owned(self.name.as_str()),
            command: owned(self.command.as_str()),
            icon: match &self.icon {
                Some(i) => Some(owned(i.as_str())),
                None => None,
            },
        }
    }

    /// Reads the `Desktop Entry` section of a desktop file's text.
    pub fn parse(text: &str) -> (r: Option<Self>)
        ensures
            entry_matches(text@, r),
    {
        match load_ini(text) {
            Ok(ini) => {
                let name = match ini_get(&ini, DESKTOP_SECTION, "Name") {
                    Some(v) => v,
                    None => String::new(),
                };
                let command = match ini_get(&ini, DESKTOP_SECTION, "Exec") {
                    Some(v) => v,
                    None => String::new(),
                };
                let icon = ini_get(&ini, DESKTOP_SECTION, "Icon");
                Some(DesktopFile { name, command, icon })
            },
            Err(_) => None,
        }
    }

    /// The paths where a desktop file for `app_class_name` is looked for;
    /// the first that exists is read.
    pub fn candidate_paths(app_class_name: &str) -> (r: Vec<String>)
        ensures
            r@.map_values(|s: String| s@) == candidate_paths_of(app_class_name@),
    {
        let lower = lowercase(app_class_name);
        let mut out: Vec<String> = Vec::new();
        out.push(join_path(SYSTEM_APPLICATIONS, app_class_name));
        out.push(join_path(SYSTEM_APPLICATIONS, lower.as_str()));
        out.push(join_path(LOCAL_APPLICATIONS, app_class_name));
        out.push(join_path(LOCAL_APPLICATIONS, lower.as_str()));
        out.push(join_path(USER_APPLICATIONS, app_class_name));
        out.push(join_path(USER_APPLICATIONS, lower.as_str()));
        assert(out@.map_values(|s: String| s@) =~= candidate_paths_of(app_class_name@));
        out
    }

    /// The cached entry for `app_class_name`: `Some(found)` when it was
    /// resolved before (`found` may be absent), `None` when its files have
    /// not been read yet.
    pub fn load(cache: &DesktopCache, app_class_name: &str) -> (r: Option<Option<Self>>)
        ensures
            match memo_lookup(cache.entries@, app_class_name@) {
                Some(v) => r matches Some(x) && opt_entry_same(x, v),
                None => r is None,
            },
    {
        match cache.lookup(app_class_name) {
            Some(Some(d)) => Some(Some(d.copy())),
            Some(None) => Some(None),
            None => None,
        }
    }

    /// Resolves `app_class_name` from the text of the first of its candidate
    /// files that exists (`None` when none does), and records the outcome,
    /// an absent entry too.
    pub fn finish_load(cache: &mut DesktopCache, app_class_name: &str, text: Option<String>) -> (r:
        Option<Self>)
        ensures
            match text {
                Some(t) => entry_matches(t@, r),
                None => r is None,
            },
            exists|key: String, v: Option<DesktopFile>|
                key@ == app_class_name@ && opt_entry_same(v, r) && final(cache).entries@
                    == memo_recorded(old(cache).entries@, key, v),
    {
        let found = match text {
            Some(t) => Self::parse(t.as_str()),
            None => None,
        };
        let kept = match &found {
            Some(d) => Some(d.copy()),
            None => None,
        };
        cache.record(owned(app_class_name), kept);
        found
    }
}

/// Two optional entries with the same fields.
pub open spec fn opt_entry_same(a: Option<DesktopFile>, b: Option<DesktopFile>) -> bool {
    match (a, b) {
        (Some(x), Some(y)) => x.name@ == y.name@ && x.command@ == y.command@ && opt_text(x.icon) == opt_text(
            y.icon,
        ),
        (None, None) => true,
        _ => false,
    }
}

} // verus!
