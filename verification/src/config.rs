//! Settings: limits on the history, where the database lives, and the
//! application's data directory.

use vstd::prelude::*;
use crate::text::push_char;

verus! {

pub const MIN_ENTRIES: u32 = 10;
pub const MAX_ENTRIES: u32 = 10_000;
pub const MIN_DB_MB: u32 = 8;
pub const MAX_DB_MB: u32 = 512;

/// User settings. `db_path` is the path of the SQLite database; an empty path
/// means "not set".
#[derive(Debug, Clone)]
pub struct Settings {
    pub max_entries: u32,
    pub max_db_mb: u32,
    pub db_path: String,
}

/// `v` clamped into `[lo, hi]`.
pub open spec fn clamp_spec(v: int, lo: int, hi: int) -> int {
    if v < lo {
        lo
    } else if v > hi {
        hi
    } else {
        v
    }
}

/// Both limits lie in their documented ranges.
pub open spec fn limits_in_range(max_entries: u32, max_db_mb: u32) -> bool {
    &&& MIN_ENTRIES <= max_entries <= MAX_ENTRIES
    &&& MIN_DB_MB <= max_db_mb <= MAX_DB_MB
}

impl Settings {
    /// The settings after `sanitize`: both limits clamped, the path kept.
    pub open spec fn sanitized_spec(self) -> Settings {
        Settings {
            max_entries: clamp_spec(self.max_entries as int, MIN_ENTRIES as int, MAX_ENTRIES as int) as u32,
            max_db_mb: clamp_spec(self.max_db_mb as int, MIN_DB_MB as int, MAX_DB_MB as int) as u32,
            db_path: self.db_path,
        }
    }

    /// Clamps the history limits into their ranges (10..=10000 entries,
    /// 8..=512 MB).
    pub fn sanitize(&mut self)
        ensures
            *final(self) == old(self).sanitized_spec(),
            limits_in_range(final(self).max_entries, final(self).max_db_mb),
    {
        self.max_entries = clamp_u32(self.max_entries, MIN_ENTRIES, MAX_ENTRIES);
        self.max_db_mb = clamp_u32(self.max_db_mb, MIN_DB_MB, MAX_DB_MB);
    }

    /// A sanitized copy, as it is written to the configuration file.
    pub fn sanitized(&self) -> (s: Settings)
        ensures
            s == self.sanitized_spec(),
    {
        let mut copy = Settings {
            max_entries: self.max_entries,
            max_db_mb: self.max_db_mb,
            db_path: self.db_path.clone(),
        };
        copy.sanitize();
        copy
    }

    /// Whether a database path is set.
    pub fn has_db_path(&self) -> (b: bool)
        ensures
            b == (self.db_path@.len() > 0),
    {
        !self.db_path.as_str().is_empty()
    }

    /// Settings with the default limits and the given database path.
    pub fn with_db_path(db_path: String) -> (s: Settings)
        ensures
            s.max_entries == default_max_entries_spec(),
            s.max_db_mb == default_max_db_mb_spec(),
            s.db_path == db_path,
    {
        Settings { max_entries: default_max_entries(), max_db_mb: default_max_db_mb(), db_path }
    }
}

/// `v` clamped into `[lo, hi]`, as `u32::clamp` does.
pub fn clamp_u32(v: u32, lo: u32, hi: u32) -> (r: u32)
    requires
        lo <= hi,
    ensures
        r == clamp_spec(v as int, lo as int, hi as int),
{
    if v < lo {
        lo
    } else if v > hi {
        hi
    } else {
        v
    }
}

pub open spec fn default_max_entries_spec() -> u32 {
    500
}

pub open spec fn default_max_db_mb_spec() -> u32 {
    80
}

/// Default history length.
pub fn default_max_entries() -> (n: u32)
    ensures
        n == default_max_entries_spec(),
{
    500
}

/// Default database size limit in MB.
pub fn default_max_db_mb() -> (n: u32)
    ensures
        n == default_max_db_mb_spec(),
{
    80
}

impl Default for Settings {
    /// Default limits, and the database in the application's data directory.
    fn default() -> (s: Settings)
        ensures
            s.max_entries == default_max_entries_spec(),
            s.max_db_mb == default_max_db_mb_spec(),
            in_app_dir(s.db_path@, "clipi.db"@),
    {
        Settings::with_db_path(default_db_path())
    }
}

/// Sanitizing twice is sanitizing once.
pub proof fn lemma_sanitize_idempotent(s: Settings)
    ensures
        s.sanitized_spec().sanitized_spec() == s.sanitized_spec(),
{
}

/// Limits already in range are left as they are.
pub proof fn lemma_sanitize_keeps_valid(s: Settings)
    requires
        limits_in_range(s.max_entries, s.max_db_mb),
    ensures
        s.sanitized_spec() == s,
{
}

/// The default limits are in range.
pub proof fn lemma_defaults_in_range()
    ensures
        limits_in_range(default_max_entries_spec(), default_max_db_mb_spec()),
{
}

// ---------------------------------------------------------------------------
// Paths
// ---------------------------------------------------------------------------

/// Whether a character separates path components (`/` everywhere, and the
/// platform's main separator).
pub open spec fn is_sep(c: char, main_sep: char) -> bool {
    c == '/' || c == main_sep
}

/// `base` joined with a relative component `name`, as `Path::join` does:
/// a separator is put between them unless `base` is empty or already ends in one.
pub open spec fn join_spec(base: Seq<char>, name: Seq<char>, main_sep: char) -> Seq<char> {
    if base.len() == 0 || is_sep(base.last(), main_sep) {
        base + name
    } else {
        base.push(main_sep) + name
    }
}

/// The separators `std::path::MAIN_SEPARATOR` can be: `/` on Unix, `\` on
/// Windows.
pub open spec fn is_main_sep(c: char) -> bool {
    c == '/' || c == '\\'
}

/// `std::path::MAIN_SEPARATOR`: `/` on Unix, `\` on Windows.
#[verifier::external_body]
pub(crate) fn main_separator() -> (c: char)
    ensures
        is_main_sep(c),
{
    std::path::MAIN_SEPARATOR
}

/// Appends a relative path component to a base path.
pub fn join_path(base: &str, name: &str) -> (p: String)
    ensures
        exists|sep: char| is_main_sep(sep) && p@ == #[trigger] join_spec(base@, name@, sep),
{
    let sep = main_separator();
    let mut out = base.to_owned();
    let n = base.unicode_len();
    if n > 0 {
        let last = base.get_char(n - 1);
        if !(last == '/' || last == sep) {
            push_char(&mut out, sep);
        }
    }
    out.append(name);
    assert(out@ == join_spec(base@, name@, sep));
    out
}

/// The platform's standard directories (directories crate).
#[verifier::external_type_specification]
#[verifier::external_body]
pub struct ExBaseDirs(directories::BaseDirs);

/// `BaseDirs::new`: the platform's standard directories, or `None` when no
/// home directory is known. What it finds depends on the environment, so
/// nothing is stated.
#[verifier::external_body]
fn base_dirs() -> (d: Option<directories::BaseDirs>)
{
    directories::BaseDirs::new()
}

/// `BaseDirs::config_dir`, as text (`to_string_lossy`). It depends on the
/// environment the directories were read from, so nothing is stated.
#[verifier::external_body]
fn config_dir_text(b: &directories::BaseDirs) -> (p: String)
{
    b.config_dir().to_string_lossy().into_owned()
}

/// Whether `d` has the shape of the application's data directory: `clipi`
/// joined to some platform configuration directory, or `clipi-data` when the
/// platform knows none.
pub open spec fn is_app_dir(d: Seq<char>) -> bool {
    ||| d == "clipi-data"@
    ||| exists|base: Seq<char>, sep: char| is_main_sep(sep) && d == #[trigger] join_spec(base, "clipi"@, sep)
}

/// Whether `p` is the file `name` in the application's data directory.
pub open spec fn in_app_dir(p: Seq<char>, name: Seq<char>) -> bool {
    exists|d: Seq<char>, sep: char| is_app_dir(d) && is_main_sep(sep) && p == #[trigger] join_spec(d, name, sep)
}

/// The application's data directory for a given platform configuration
/// directory: `clipi` under it, or `clipi-data` (relative) when there is none.
pub fn app_dir_from(base: Option<&str>) -> (p: String)
    ensures
        match base {
            Some(b) => exists|sep: char| is_main_sep(sep) && p@ == #[trigger] join_spec(b@, "clipi"@, sep),
            None => p@ == "clipi-data"@,
        },
        is_app_dir(p@),
{
    match base {
        Some(b) => join_path(b, "clipi"),
        None => String::from_str("clipi-data"),
    }
}

/// The application's data directory: `clipi` under the platform configuration
/// directory (which depends on the environment), or `clipi-data` when the
/// platform knows no home directory.
pub fn app_dir() -> (p: String)
    ensures
        is_app_dir(p@),
{
    match base_dirs() {
        Some(b) => {
            let dir = config_dir_text(&b);
            app_dir_from(Some(dir.as_str()))
        },
        None => app_dir_from(None),
    }
}

/// The file `name` in the application's data directory.
fn app_file(name: &str) -> (p: String)
    ensures
        in_app_dir(p@, name@),
{
    let dir = app_dir();
    let p = join_path(dir.as_str(), name);
    let ghost sep = choose|sep: char| is_main_sep(sep) && p@ == #[trigger] join_spec(dir@, name@, sep);
    assert(is_app_dir(dir@) && is_main_sep(sep) && p@ == join_spec(dir@, name@, sep));
    p
}

/// `config.toml` in the application's data directory.
pub fn config_file_path() -> (p: String)
    ensures
        in_app_dir(p@, "config.toml"@),
{
    app_file("config.toml")
}

/// `clipi.db` in the application's data directory.
pub fn default_db_path() -> (p: String)
    ensures
        in_app_dir(p@, "clipi.db"@),
{
    app_file("clipi.db")
}

/// A directory with a separator: the part that every file path joined to it
/// starts with.
pub open spec fn dir_prefix(d: Seq<char>, sep: char) -> Seq<char> {
    if d.len() == 0 || is_sep(d.last(), sep) {
        d
    } else {
        d.push(sep)
    }
}

/// Files joined to one directory share everything but their names: the
/// configuration file and the database made from the same data directory
/// lie in the same folder.
pub proof fn lemma_data_files_share_directory(d: Seq<char>, sep: char)
    ensures
        join_spec(d, "config.toml"@, sep) == dir_prefix(d, sep) + "config.toml"@,
        join_spec(d, "clipi.db"@, sep) == dir_prefix(d, sep) + "clipi.db"@,
{
}

/// What saving the settings window's draft comes to.
#[derive(Debug)]
pub enum SavePlan {
    /// The database path is empty: nothing is saved ("Database path is
    /// empty.").
    EmptyPath,
    /// Save these settings; `reopen` when the database moved, so that the
    /// store and the watcher open the new file.
    Apply { settings: Settings, reopen: bool },
}

/// Decides what saving a draft does, given the database path in use: the
/// draft is sanitized; an empty path is refused; otherwise the sanitized
/// settings are applied, and the database is reopened when its path changed.
pub fn save_plan(draft: &Settings, current_db_path: &str) -> (p: SavePlan)
    ensures
        p is EmptyPath <==> draft.sanitized_spec().db_path@.len() == 0,
        p matches SavePlan::Apply { settings, reopen } ==> (settings == draft.sanitized_spec()
            && reopen == (settings.db_path@ != current_db_path@)),
{
    let settings = draft.sanitized();
    if !settings.has_db_path() {
        return SavePlan::EmptyPath;
    }
    let same = crate::text::str_equal(settings.db_path.as_str(), current_db_path);
    SavePlan::Apply { settings, reopen: !same }
}

/// The settings in effect after reading the configuration file: what was read
/// (or the defaults when nothing could be read), with an empty database path
/// replaced by `default_db` and the limits sanitized.
pub fn settings_after_load(loaded: Option<Settings>, default_db: String) -> (s: Settings)
    ensures
        s.max_entries == (match loaded {
            Some(l) => l.sanitized_spec().max_entries,
            None => default_max_entries_spec(),
        }),
        s.max_db_mb == (match loaded {
            Some(l) => l.sanitized_spec().max_db_mb,
            None => default_max_db_mb_spec(),
        }),
        s.db_path@ == (match loaded {
            Some(l) => if l.db_path@.len() == 0 { default_db@ } else { l.db_path@ },
            None => default_db@,
        }),
        limits_in_range(s.max_entries, s.max_db_mb),
{
    let mut s = match loaded {
        Some(l) => l,
        None => Settings::with_db_path(String::new()),
    };
    if s.db_path.as_str().is_empty() {
        s.db_path = default_db;
    }
    s.sanitize();
    s
}

} // verus!
