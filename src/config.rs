use vstd::prelude::*;
use vstd::string::StrSliceExecFns;

verus! {

/// The optional configuration file of the application: four optional
/// string fields, each absent unless the file sets it.
#[derive(Clone, Debug)]
pub struct EnvFile {
    pub twitch_client_id: Option<String>,
    pub twitch_client_secret: Option<String>,
    pub twitch_use_pkce: Option<String>,
    pub witch_db_path: Option<String>,
}

/// An `EnvFile` as mathematical values.
pub struct EnvFileView {
    pub client_id: Option<Seq<char>>,
    pub client_secret: Option<Seq<char>>,
    pub use_pkce: Option<Seq<char>>,
    pub db_path: Option<Seq<char>>,
}

/// The characters of an optional string.
pub open spec fn opt_view(o: Option<String>) -> Option<Seq<char>> {
    match o {
        Some(s) => Some(s@),
        None => None,
    }
}

impl View for EnvFile {
    type V = EnvFileView;

    open spec fn view(&self) -> EnvFileView {
        EnvFileView {
            client_id: opt_view(self.twitch_client_id),
            client_secret: opt_view(self.twitch_client_secret),
            use_pkce: opt_view(self.twitch_use_pkce),
            db_path: opt_view(self.witch_db_path),
        }
    }
}

impl EnvFile {
    /// A configuration with every field absent.
    pub fn empty() -> (r: EnvFile)
        ensures
            r@ == (EnvFileView { client_id: None, client_secret: None, use_pkce: None, db_path: None }),
    {
        EnvFile {
            twitch_client_id: None,
            twitch_client_secret: None,
            twitch_use_pkce: None,
            witch_db_path: None,
        }
    }
}

/// The view of an optional configuration.
pub open spec fn env_view(env: Option<&EnvFile>) -> Option<EnvFileView> {
    match env {
        Some(e) => Some(e@),
        None => None,
    }
}

/// ASCII case folding of one character, as a code point: `A`..`Z` map to
/// `a`..`z`, every other character to itself.
pub open spec fn ascii_fold(c: char) -> int {
    let v = c as u32 as int;
    if 65 <= v && v <= 90 {
        v + 32
    } else {
        v
    }
}

/// Two strings that are equal once ASCII letters are folded to lower case.
pub open spec fn ascii_case_insensitive_eq(a: Seq<char>, b: Seq<char>) -> bool {
    &&& a.len() == b.len()
    &&& forall|i: int| 0 <= i < a.len() ==> ascii_fold(a[i]) == ascii_fold(b[i])
}

/// The ASCII case folding of one character, as a code point.
fn fold_char(c: char) -> (r: u32)
    ensures
        r as int == ascii_fold(c),
{
    let v = c as u32;
    if 65 <= v && v <= 90 {
        v + 32
    } else {
        v
    }
}

/// Whether two strings match once ASCII letters are folded to lower case,
/// every other character compared as it is.
pub fn eq_ignore_ascii_case(a: &str, b: &str) -> (r: bool)
    ensures
        r == ascii_case_insensitive_eq(a@, b@),
{
    let n = a.unicode_len();
    if n != b.unicode_len() {
        return false;
    }
    let mut i: usize = 0;
    while i < n
        invariant
            n == a@.len(),
            n == b@.len(),
            i <= n,
            forall|k: int| 0 <= k < i ==> ascii_fold(a@[k]) == ascii_fold(b@[k]),
        decreases n - i,
    {
        if fold_char(a.get_char(i)) != fold_char(b.get_char(i)) {
            return false;
        }
        i = i + 1;
    }
    true
}

/// What `str::trim` returns for `s`.
pub uninterp spec fn trimmed(s: Seq<char>) -> Seq<char>;

/// Relies on `str::trim`: leading and trailing white space removed, so
/// that trimming the result again changes nothing.
#[verifier::external_body]
pub(crate) fn trim(s: &str) -> (r: String)
    ensures
        r@ == trimmed(s@),
        trimmed(r@) == r@,
{
    s.trim().to_owned()
}

/// Whether a path is relative, as `std::path::Path::is_relative` says.
pub uninterp spec fn is_relative_path(p: Seq<char>) -> bool;

/// The path that `std::path::Path::join` makes of `base` and `p`.
pub uninterp spec fn joined_path(base: Seq<char>, p: Seq<char>) -> Seq<char>;

/// Relies on `std::path::Path::is_relative`.
#[verifier::external_body]
fn path_is_relative(p: &str) -> (r: bool)
    ensures
        r == is_relative_path(p@),
{
    std::path::Path::new(p).is_relative()
}

/// Relies on `std::path::Path::join`, on UTF-8 paths.
#[verifier::external_body]
fn join_path(base: &str, p: &str) -> (r: String)
    ensures
        r@ == joined_path(base@, p@),
{
    std::path::Path::new(base).join(p).to_string_lossy().into_owned()
}

/// Whether the PKCE flag value enables PKCE: it must read `true` in any
/// ASCII letter case.
pub open spec fn pkce_enabled(flag: Option<Seq<char>>) -> bool {
    match flag {
        Some(v) => ascii_case_insensitive_eq(v, "true"@),
        None => false,
    }
}

/// Whether the configuration asks for PKCE.
pub fn env_uses_pkce(env: &EnvFile) -> (r: bool)
    ensures
        r == pkce_enabled(env@.use_pkce),
{
    match &env.twitch_use_pkce {
        Some(value) => eq_ignore_ascii_case(value.as_str(), "true"),
        None => false,
    }
}

/// The server's data file: an explicit relative path is taken inside the
/// application-data directory, an explicit absolute path as it is, and with
/// none the default file name inside that directory.
pub open spec fn db_path_for(app_data_dir: Seq<char>, env: Option<EnvFileView>) -> Seq<char> {
    match env {
        Some(e) => match e.db_path {
            Some(p) => if is_relative_path(p) {
                joined_path(app_data_dir, p)
            } else {
                p
            },
            None => joined_path(app_data_dir, "witch.db"@),
        },
        None => joined_path(app_data_dir, "witch.db"@),
    }
}

/// Resolves the server's data-file path.
pub fn resolve_db_path(app_data_dir: &str, env: Option<&EnvFile>) -> (r: String)
    ensures
        r@ == db_path_for(app_data_dir@, env_view(env)),
{
    if let Some(e) = env {
        if let Some(path) = &e.witch_db_path {
            if path_is_relative(path.as_str()) {
                return join_path(app_data_dir, path.as_str());
            }
            return path.clone();
        }
    }
    join_path(app_data_dir, "witch.db")
}

} // verus!
