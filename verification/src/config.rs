//! Where the client keeps its files: the temporary folder and the cookie
//! file, both inside the configuration folder.
use vstd::prelude::*;

verus! {

/// The application's name, the folder its configuration lives in.
pub const APP_NAME: &'static str = "RupmPrinter";

/// The name of the temporary folder.
pub const TEMP_FOLDER: &'static str = "temp";

/// The name of the cookie file.
pub const COOKIE_FILE: &'static str = "cookie.txt";

/// Whether `c` separates path components on a platform whose main
/// separator is `sep`: `/` everywhere, and `sep` itself (`\` on Windows).
pub open spec fn is_separator(c: char, sep: char) -> bool {
    c == '/' || c == sep
}

/// A bare drive name such as `C:`: a letter and a colon.
pub open spec fn is_drive(base: Seq<char>) -> bool {
    &&& base.len() == 2
    &&& base[1] == ':'
    &&& ('a' <= base[0] <= 'z' || 'A' <= base[0] <= 'Z')
}

/// `base` joined with the relative name `name` on a platform whose main
/// separator is `sep`, as a path is extended by a relative one: `sep`
/// goes between them unless `base` is empty, already ends with a
/// separator, or (on Windows) is a bare drive name.
pub open spec fn join_path(base: Seq<char>, name: Seq<char>, sep: char) -> Seq<char> {
    if base.len() == 0 || is_separator(base.last(), sep) || (sep == '\\' && is_drive(base)) {
        base + name
    } else {
        base + seq![sep] + name
    }
}

/// `std::path::MAIN_SEPARATOR`: the separator of path components on the
/// platform the program is built for; std's documentation names `/` for
/// Unix and `\` for Windows, and these are the two it uses. Which of the
/// two depends on the platform and is not stated.
#[verifier::external_body]
fn main_separator() -> (r: char)
    ensures
        r == '/' || r == '\\',
{
    std::path::MAIN_SEPARATOR
}

/// Whether `c` is an ASCII letter.
fn is_ascii_letter(c: char) -> (r: bool)
    ensures
        r == ('a' <= c <= 'z' || 'A' <= c <= 'Z'),
{
    ('a' <= c && c <= 'z') || ('A' <= c && c <= 'Z')
}

/// `base` joined with the relative name `name`, with `sep` as the main
/// separator of path components. A Windows base with a verbatim prefix
/// (`\\?\`) is joined like any other, where std's `PathBuf::join` would
/// also rewrite its components in normal form.
pub fn join_with_separator(base: &str, name: &str, sep: char) -> (r: String)
    ensures
        r@ == join_path(base@, name@, sep),
{
    let n = base.unicode_len();
    let mut s = String::new();
    s.append(base);
    let mut need_sep = n > 0;
    if n > 0 {
        let last = base.get_char(n - 1);
        if last == '/' || last == sep {
            need_sep = false;
        }
    }
    if sep == '\\' && n == 2 && base.get_char(1) == ':' && is_ascii_letter(base.get_char(0)) {
        need_sep = false;
    }
    if need_sep {
        crate::text::push_char(&mut s, sep);
    }
    s.append(name);
    s
}

/// The temporary folder inside the configuration folder `config_dir`,
/// joined with the platform's separator (`/` or `\`).
pub fn temp_dir(config_dir: &str) -> (r: String)
    ensures
        r@ == join_path(config_dir@, TEMP_FOLDER@, '/') || r@ == join_path(
            config_dir@,
            TEMP_FOLDER@,
            '\\',
        ),
{
    join_with_separator(config_dir, TEMP_FOLDER, main_separator())
}

/// The cookie file inside the configuration folder `config_dir`, joined
/// with the platform's separator (`/` or `\`).
pub fn cookie_path(config_dir: &str) -> (r: String)
    ensures
        r@ == join_path(config_dir@, COOKIE_FILE@, '/') || r@ == join_path(
            config_dir@,
            COOKIE_FILE@,
            '\\',
        ),
{
    join_with_separator(config_dir, COOKIE_FILE, main_separator())
}

} // verus!
