//! Configuration files, the stored API key and answers of the API.
use vstd::prelude::*;
use vstd::utf8::encode_utf8;
use crate::chars::{
    chars_of, contains_seq, has_prefix, join_path, join_path_str, str_contains, str_starts_with,
};

verus! {

/// Relies on `dirs::home_dir`: the user's home directory where the platform
/// reports one. What it returns depends on the environment.
#[verifier::external_body]
fn home_dir() -> (r: Option<String>) {
    dirs::home_dir().map(|p| p.to_string_lossy().into_owned())
}

pub open spec fn no_home_message() -> Seq<char> {
    "Could not determine home directory"@
}

/// The configuration directory under a home directory.
pub open spec fn config_dir_spec(home: Seq<char>) -> Seq<char> {
    join_path(join_path(home, ".config"@), "bpesc-balance"@)
}

pub open spec fn in_config_dir(home: Option<String>, file: Seq<char>) -> Result<Seq<char>, Seq<char>> {
    match home {
        Some(h) => Ok(join_path(config_dir_spec(h@), file)),
        None => Err(no_home_message()),
    }
}

pub open spec fn result_view(r: Result<String, String>) -> Result<Seq<char>, Seq<char>> {
    match r {
        Ok(s) => Ok(s@),
        Err(e) => Err(e@),
    }
}

/// The configuration directory, or an error without a home directory.
pub fn config_dir_in(home: Option<String>) -> (r: Result<String, String>)
    ensures
        home matches Some(h) ==> (r matches Ok(p) && p@ == config_dir_spec(h@)),
        home is None ==> (r matches Err(e) && e@ == no_home_message()),
{
    match home {
        Some(h) => {
            proof {
                reveal_strlit(".config");
                reveal_strlit("bpesc-balance");
            }
            let c = join_path_str(h.as_str(), ".config");
            Ok(join_path_str(c.as_str(), "bpesc-balance"))
        },
        None => {
            proof {
                reveal_strlit("Could not determine home directory");
            }
            Err(String::from_str("Could not determine home directory"))
        },
    }
}

fn file_in_config_dir(home: Option<String>, file: &str) -> (r: Result<String, String>)
    ensures
        result_view(r) == in_config_dir(home, file@),
{
    match config_dir_in(home) {
        Ok(dir) => Ok(join_path_str(dir.as_str(), file)),
        Err(e) => Err(e),
    }
}

/// The settings file of the user whose home directory is `home`.
pub fn settings_file_path_in(home: Option<String>) -> (r: Result<String, String>)
    ensures
        result_view(r) == in_config_dir(home, "settings.json"@),
{
    file_in_config_dir(home, "settings.json")
}

/// The file of the stored API key of the user whose home directory is `home`.
pub fn env_file_path_in(home: Option<String>) -> (r: Result<String, String>)
    ensures
        result_view(r) == in_config_dir(home, ".env"@),
{
    file_in_config_dir(home, ".env")
}

pub fn get_config_dir() -> (r: Result<String, String>)
    ensures
        r matches Err(e) ==> e@ == no_home_message(),
        r matches Ok(p) ==> exists|h: Seq<char>| p@ == config_dir_spec(h),
{
    config_dir_in(home_dir())
}

pub fn get_settings_file_path() -> (r: Result<String, String>)
    ensures
        r matches Err(e) ==> e@ == no_home_message(),
        r matches Ok(p) ==> exists|h: Seq<char>| p@ == join_path(config_dir_spec(h), "settings.json"@),
{
    settings_file_path_in(home_dir())
}

pub fn get_env_file_path() -> (r: Result<String, String>)
    ensures
        r matches Err(e) ==> e@ == no_home_message(),
        r matches Ok(p) ==> exists|h: Seq<char>| p@ == join_path(config_dir_spec(h), ".env"@),
{
    env_file_path_in(home_dir())
}

/// What `str::trim` leaves of a string.
pub uninterp spec fn trim_of(s: Seq<char>) -> Seq<char>;

/// Relies on `str::trim`: the string without its leading and trailing
/// whitespace, which depends on the characters alone.
#[verifier::external_body]
pub(crate) fn trim(s: &str) -> (r: &str)
    ensures
        r@ == trim_of(s@),
{
    s.trim()
}

/// The length in bytes of a string, as `str::len` gives it.
pub open spec fn byte_len(t: Seq<char>) -> usize {
    encode_utf8(t).len() as usize
}

/// Why an API key (already trimmed) is refused, if it is.
pub open spec fn api_key_problem(t: Seq<char>) -> Option<Seq<char>> {
    if t.len() == 0 {
        Some("API key cannot be empty"@)
    } else if !has_prefix(t, "sk-"@) {
        Some("API key must start with 'sk-'"@)
    } else if byte_len(t) < 20 {
        Some("API key is too short"@)
    } else {
        None
    }
}

/// Checks the form of an API key: without its surrounding whitespace it is
/// not empty, starts with `sk-` and is at least 20 bytes long.
pub fn validate_api_key(key: &str) -> (r: Result<(), String>)
    ensures
        api_key_problem(trim_of(key@)) is None <==> r is Ok,
        api_key_problem(trim_of(key@)) matches Some(m) ==> (r matches Err(e) && e@ == m),
{
    let t = trim(key);
    if t.unicode_len() == 0 {
        proof {
            reveal_strlit("API key cannot be empty");
        }
        return Err(String::from_str("API key cannot be empty"));
    }
    if !str_starts_with(t, "sk-") {
        proof {
            reveal_strlit("API key must start with 'sk-'");
        }
        return Err(String::from_str("API key must start with 'sk-'"));
    }
    if t.len() < 20 {
        proof {
            reveal_strlit("API key is too short");
        }
        return Err(String::from_str("API key is too short"));
    }
    Ok(())
}

pub open spec fn env_file_contents_spec(key: Seq<char>) -> Seq<char> {
    "OPENROUTER_API_KEY="@ + trim_of(key) + "\n"@
}

/// The contents of the file that stores an API key.
pub fn env_file_contents(key: &str) -> (r: String)
    ensures
        r@ == env_file_contents_spec(key@),
{
    String::from_str("OPENROUTER_API_KEY=").concat(trim(key)).concat("\n")
}

/// Whether the menubar has a dark appearance, from the name of its
/// appearance where the system gives one.
pub fn is_macos_dark_mode(appearance_name: Option<&str>) -> (r: bool)
    ensures
        r == (appearance_name matches Some(n) && contains_seq(n@, "Dark"@)),
{
    match appearance_name {
        Some(n) => str_contains(n, "Dark"),
        None => false,
    }
}

pub open spec fn env_key_prefix() -> Seq<char> {
    "OPENROUTER_API_KEY="@
}

/// The key that a line of the key file gives: the line, trimmed, starts with
/// `OPENROUTER_API_KEY=` and what follows is not blank once trimmed.
/// Blank lines and comments give none.
pub open spec fn env_line_key(line: Seq<char>) -> Option<Seq<char>> {
    let t = trim_of(line);
    if t.len() == 0 || has_prefix(t, "#"@) {
        None
    } else if has_prefix(t, env_key_prefix()) {
        let k = trim_of(t.subrange(env_key_prefix().len() as int, t.len() as int));
        if k.len() > 0 {
            Some(k)
        } else {
            None
        }
    } else {
        None
    }
}

/// The key of the first line that gives one, reading `s` from index `i` in
/// the line that starts at `start`.
pub open spec fn env_key_scan(s: Seq<char>, start: int, i: int) -> Option<Seq<char>>
    decreases s.len() - i,
{
    if i >= s.len() {
        env_line_key(s.subrange(start, s.len() as int))
    } else if s[i] == '\n' {
        let here = env_line_key(s.subrange(start, i));
        if here is Some {
            here
        } else {
            env_key_scan(s, i + 1, i + 1)
        }
    } else {
        env_key_scan(s, start, i + 1)
    }
}

/// The key of the first line of a key file that gives one.
pub open spec fn env_file_key(s: Seq<char>) -> Option<Seq<char>> {
    env_key_scan(s, 0, 0)
}

fn line_key(line: &str) -> (r: Option<String>)
    ensures
        r matches Some(k) ==> env_line_key(line@) == Some(k@),
        r is None ==> env_line_key(line@) is None,
{
    proof {
        reveal_strlit("#");
        reveal_strlit("OPENROUTER_API_KEY=");
    }
    let t = trim(line);
    if t.unicode_len() == 0 || str_starts_with(t, "#") {
        return None;
    }
    if str_starts_with(t, "OPENROUTER_API_KEY=") {
        let n = t.unicode_len();
        let rest = t.substring_char(19, n);
        let k = trim(rest);
        if k.unicode_len() > 0 {
            return Some(String::from_str(k));
        }
    }
    None
}

/// The stored API key in the contents of a key file.
pub fn parse_env_api_key(contents: &str) -> (r: Option<String>)
    ensures
        r matches Some(k) ==> env_file_key(contents@) == Some(k@),
        r is None ==> env_file_key(contents@) is None,
{
    let cs = chars_of(contents);
    let n = cs.len();
    let mut start: usize = 0;
    let mut i: usize = 0;
    while i < n
        invariant
            cs@ == contents@,
            n == cs@.len(),
            start <= i <= n,
            env_file_key(contents@) == env_key_scan(contents@, start as int, i as int),
        decreases n - i,
    {
        if cs[i] == '\n' {
            if let Some(k) = line_key(contents.substring_char(start, i)) {
                return Some(k);
            }
            start = i + 1;
        }
        i = i + 1;
    }
    line_key(contents.substring_char(start, n))
}

/// Why an answer of the API with this HTTP status is refused, if it is.
#[derive(Debug, Clone, Copy, PartialEq, Eq, Structural)]
pub enum HttpFailure {
    /// The API refused the key.
    InvalidApiKey,
    /// Any other status outside 200 to 299.
    Status(u16),
}

pub fn check_http_status(status: u16) -> (r: Result<(), HttpFailure>)
    ensures
        status == 401 ==> r == Err::<(), HttpFailure>(HttpFailure::InvalidApiKey),
        status != 401 && !(200 <= status <= 299) ==> r == Err::<(), HttpFailure>(HttpFailure::Status(status)),
        200 <= status <= 299 ==> r is Ok,
{
    if status == 401 {
        Err(HttpFailure::InvalidApiKey)
    } else if status < 200 || status > 299 {
        Err(HttpFailure::Status(status))
    } else {
        Ok(())
    }
}

pub fn invalid_api_key_message() -> (r: String)
    ensures
        r@ == "Invalid API key. Please check your key and try again."@,
{
    proof {
        reveal_strlit("Invalid API key. Please check your key and try again.");
    }
    String::from_str("Invalid API key. Please check your key and try again.")
}

} // verus!
