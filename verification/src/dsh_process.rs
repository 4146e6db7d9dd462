//! Decisions around the dsh web process: where its entry script lives, how it
//! is launched, and what is reported when it exits too early.
//!
//! Paths are Windows paths held as text (the launcher runs on Windows);
//! `join_spec` states how `Path::join` joins a plain name there.

use vstd::prelude::*;

use crate::text::{chars_of, push_chars, string_of, trim, trim_chars};

verus! {

/// `s` is a bare drive prefix such as `C:`; joining onto it adds no
/// separator.
pub open spec fn is_bare_drive(s: Seq<char>) -> bool {
    &&& s.len() == 2
    &&& (('a' <= s[0] && s[0] <= 'z') || ('A' <= s[0] && s[0] <= 'Z'))
    &&& s[1] == ':'
}

/// `Path::join` on Windows with a single plain name (no separator, not `.`
/// or `..`, not a drive): a `\` goes between the two unless the base is
/// empty, already ends in a separator, or is a bare drive prefix.
pub open spec fn join_spec(base: Seq<char>, part: Seq<char>) -> Seq<char> {
    if base.len() > 0 && base.last() != '\\' && base.last() != '/' && !is_bare_drive(base) {
        base + seq!['\\'] + part
    } else {
        base + part
    }
}

fn is_alpha(c: char) -> (b: bool)
    ensures
        b == (('a' <= c && c <= 'z') || ('A' <= c && c <= 'Z')),
{
    ('a' <= c && c <= 'z') || ('A' <= c && c <= 'Z')
}

fn is_bare_drive_chars(s: &[char]) -> (b: bool)
    ensures
        b == is_bare_drive(s@),
{
    s.len() == 2 && is_alpha(s[0]) && s[1] == ':'
}

/// Joins the plain name `part` onto `base` (`Path::join` on Windows, see
/// `join_spec`).
pub fn join_path(base: &str, part: &str) -> (r: String)
    ensures
        r@ == join_spec(base@, part@),
{
    let b = chars_of(base);
    let mut r = string_of(b.as_slice());
    let n = b.len();
    if n > 0 && b[n - 1] != '\\' && b[n - 1] != '/' && !is_bare_drive_chars(b.as_slice()) {
        r.push('\\');
    }
    push_chars(&mut r, chars_of(part).as_slice());
    r
}

/// The directory of the `@deepseek-ai/dsh` package under a global
/// `node_modules` directory.
pub open spec fn dsh_package_dir_spec(root: Seq<char>) -> Seq<char> {
    join_spec(join_spec(root, "@deepseek-ai"@), "dsh"@)
}

/// The entry script `lib\bin.js` of the dsh package under `root`.
pub open spec fn dsh_bin_spec(root: Seq<char>) -> Seq<char> {
    join_spec(join_spec(dsh_package_dir_spec(root), "lib"@), "bin.js"@)
}

/// The default global `node_modules` of the current user, `%APPDATA%\npm\node_modules`.
pub open spec fn appdata_modules_spec(appdata: Seq<char>) -> Seq<char> {
    join_spec(join_spec(appdata, "npm"@), "node_modules"@)
}

pub fn dsh_package_dir(root: &str) -> (r: String)
    ensures
        r@ == dsh_package_dir_spec(root@),
{
    let a = join_path(root, "@deepseek-ai");
    join_path(a.as_str(), "dsh")
}

/// `package.json` of the dsh package under `root`.
pub fn dsh_package_json_path(root: &str) -> (r: String)
    ensures
        r@ == join_spec(dsh_package_dir_spec(root@), "package.json"@),
{
    let d = dsh_package_dir(root);
    join_path(d.as_str(), "package.json")
}

/// The dsh entry script under the global `node_modules` directory `root`.
pub fn dsh_bin_path(root: &str) -> (r: String)
    ensures
        r@ == dsh_bin_spec(root@),
{
    let d = dsh_package_dir(root);
    let l = join_path(d.as_str(), "lib");
    join_path(l.as_str(), "bin.js")
}

/// Where the dsh entry script is taken from: the package under the global
/// root that `npm root -g` reported, when that file exists; otherwise the
/// default under `%APPDATA%\npm\node_modules` (whether or not it exists, so
/// that Node.js reports the missing file).
pub fn resolve_dsh_bin(appdata: &str, npm_root: Option<&str>, npm_bin_exists: bool) -> (r: String)
    ensures
        r@ == match npm_root {
            Some(root) => if npm_bin_exists {
                dsh_bin_spec(root@)
            } else {
                dsh_bin_spec(appdata_modules_spec(appdata@))
            },
            None => dsh_bin_spec(appdata_modules_spec(appdata@)),
        },
{
    match npm_root {
        Some(root) => {
            if npm_bin_exists {
                return dsh_bin_path(root);
            }
        },
        None => {},
    }
    let n = join_path(appdata, "npm");
    let m = join_path(n.as_str(), "node_modules");
    dsh_bin_path(m.as_str())
}

pub const NODE_PROGRAM: &'static str = "node";

/// The program and arguments that start the dsh web service: `node` runs
/// the entry script chosen by `resolve_dsh_bin` with the argument `web`
/// (directly, not through `cmd`).
pub fn dsh_web_command(appdata: &str, npm_root: Option<&str>, npm_bin_exists: bool) -> (r: (
    String,
    Vec<String>,
))
    ensures
        r.0@ == NODE_PROGRAM@,
        r.1@.len() == 2,
        r.1@[0]@ == match npm_root {
            Some(root) => if npm_bin_exists {
                dsh_bin_spec(root@)
            } else {
                dsh_bin_spec(appdata_modules_spec(appdata@))
            },
            None => dsh_bin_spec(appdata_modules_spec(appdata@)),
        },
        r.1@[1]@ == "web"@,
{
    let mut args: Vec<String> = Vec::new();
    args.push(resolve_dsh_bin(appdata, npm_root, npm_bin_exists));
    args.push(String::from_str("web"));
    (String::from_str(NODE_PROGRAM), args)
}

pub const CREATE_NO_WINDOW: u32 = 0x0800_0000;

pub const DETACHED_PROCESS: u32 = 0x0000_0008;

/// Process creation flags for `node`: no console window, detached from the
/// launcher's console.
pub fn node_launch_flags() -> (r: u32)
    ensures
        r == CREATE_NO_WINDOW | DETACHED_PROCESS,
        r & DETACHED_PROCESS == DETACHED_PROCESS,
        r & CREATE_NO_WINDOW == CREATE_NO_WINDOW,
{
    let r = CREATE_NO_WINDOW | DETACHED_PROCESS;
    assert(r & DETACHED_PROCESS == DETACHED_PROCESS) by (bit_vector)
        requires
            r == 0x0800_0000u32 | 0x0000_0008u32,
            DETACHED_PROCESS == 0x0000_0008u32,
    ;
    assert(r & CREATE_NO_WINDOW == CREATE_NO_WINDOW) by (bit_vector)
        requires
            r == 0x0800_0000u32 | 0x0000_0008u32,
            CREATE_NO_WINDOW == 0x0800_0000u32,
    ;
    r
}

pub const EXITED_BEFORE_READY: &'static str = "dsh web 在服务就绪前退出";

/// The failure shown when the dsh process exits before its web service
/// answers: the fixed sentence, followed by `: ` and the trimmed standard
/// error when that is not empty.
pub fn child_exited_before_ready(stderr: &str) -> (r: String)
    ensures
        r@ == if trim(stderr@).len() == 0 {
            EXITED_BEFORE_READY@
        } else {
            EXITED_BEFORE_READY@ + ": "@ + trim(stderr@)
        },
{
    let t = trim_chars(chars_of(stderr).as_slice());
    let mut r = String::from_str(EXITED_BEFORE_READY);
    if t.len() > 0 {
        r.append(": ");
        push_chars(&mut r, t.as_slice());
    }
    r
}

} // verus!
