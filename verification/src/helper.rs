//! Well-known file locations under the user's home directory.
//!
//! Paths are handled as plain strings with `/` as the separator; only the
//! home directory itself comes from the system.

use vstd::prelude::*;
use vstd::string::StringExecFns;

verus! {

/// The application's configuration directory under a home directory.
pub open spec fn app_config_dir_spec(home: Seq<char>) -> Seq<char> {
    home + "/.tweet2md"@
}

/// The headless browser's user-data directory under a home directory.
pub open spec fn browser_data_dir_spec(home: Seq<char>) -> Seq<char> {
    app_config_dir_spec(home) + "/chrome_data_dir"@
}

/// The cookie file under a home directory.
pub open spec fn twitter_cookie_file_spec(home: Seq<char>) -> Seq<char> {
    app_config_dir_spec(home) + "/twitter_cookies.json"@
}

/// Relies on `dirs::home_dir`: the user's home directory, where the system
/// reports one.  The result depends on the environment, so nothing is
/// assumed of it.
#[verifier::external_body]
fn home_dir_text() -> (r: Option<String>) {
    dirs::home_dir().map(|p| p.to_string_lossy().into_owned())
}

/// Relies on `std::path::Path::is_file`: whether a regular file exists at
/// the path at this moment.  The result depends on the file system, so
/// nothing is assumed of it.
#[verifier::external_body]
fn path_is_file(p: &str) -> bool {
    std::path::Path::new(p).is_file()
}

/// The configuration directory under the given home directory.
pub fn app_config_dir_in(home: &str) -> (r: String)
    ensures
        r@ == app_config_dir_spec(home@),
{
    String::from_str(home).concat("/.tweet2md")
}

/// The browser data directory under the given home directory.
pub fn browser_data_dir_in(home: &str) -> (r: String)
    ensures
        r@ == browser_data_dir_spec(home@),
{
    let r = app_config_dir_in(home).concat("/chrome_data_dir");
    proof {
        assert(r@ =~= browser_data_dir_spec(home@));
    }
    r
}

/// The cookie file under the given home directory.
pub fn twitter_cookie_file_in(home: &str) -> (r: String)
    ensures
        r@ == twitter_cookie_file_spec(home@),
{
    let r = app_config_dir_in(home).concat("/twitter_cookies.json");
    proof {
        assert(r@ =~= twitter_cookie_file_spec(home@));
    }
    r
}

/// The application's configuration directory, where a home directory is
/// known.
pub fn app_config_dir() -> (r: Option<String>)
    ensures
        r matches Some(p) ==> exists|h: Seq<char>| p@ == app_config_dir_spec(h),
{
    match home_dir_text() {
        Some(h) => {
            let p = app_config_dir_in(h.as_str());
            proof {
                assert(p@ == app_config_dir_spec(h@));
            }
            Some(p)
        },
        None => None,
    }
}

/// The headless browser's user-data directory, where a home directory is
/// known.
pub fn browser_data_dir() -> (r: Option<String>)
    ensures
        r matches Some(p) ==> exists|h: Seq<char>| p@ == browser_data_dir_spec(h),
{
    match home_dir_text() {
        Some(h) => {
            let p = browser_data_dir_in(h.as_str());
            proof {
                assert(p@ == browser_data_dir_spec(h@));
            }
            Some(p)
        },
        None => None,
    }
}

/// The cookie file's path, where a home directory is known.
pub fn twitter_cookie_file() -> (r: Option<String>)
    ensures
        r matches Some(p) ==> exists|h: Seq<char>| p@ == twitter_cookie_file_spec(h),
{
    match home_dir_text() {
        Some(h) => {
            let p = twitter_cookie_file_in(h.as_str());
            proof {
                assert(p@ == twitter_cookie_file_spec(h@));
            }
            Some(p)
        },
        None => None,
    }
}

/// Whether the cookie file exists: `false` where no home directory is
/// known.  The answer depends on the file system, so no more is stated.
pub fn twitter_cookie_file_exists() -> bool {
    match twitter_cookie_file() {
        Some(p) => path_is_file(p.as_str()),
        None => false,
    }
}

} // verus!
