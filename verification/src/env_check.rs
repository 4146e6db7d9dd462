//! Checks of the runtime environment (Node.js, npm, dsh) and the decisions
//! made from what the commands printed.

use vstd::prelude::*;

use crate::text::{
    chars_of, contains_chars, contains_run, split_all, split_chars, split_once, split_once_chars,
    string_of, trim, trim_by, trim_chars, trim_chars_by, views, Strip,
};

verus! {

/// The outcome of one environment check.
#[derive(Clone, Debug)]
pub struct EnvCheckResult {
    pub name: &'static str,
    pub version: Option<String>,
    pub ok: bool,
    pub error: String,
    pub install_hint: &'static str,
    /// The automatic-install command sent over IPC ("install-node" / "install-dsh").
    pub install_cmd: &'static str,
}

pub const NODE_HINT: &'static str =
    "从 https://nodejs.org 下载 LTS 版安装，或 PowerShell 运行: winget install OpenJS.NodeJS.LTS";

pub const NPM_HINT: &'static str = "npm 随 Node.js 一起安装，重新安装 Node.js 即可";

pub const DSH_HINT: &'static str = "PowerShell 运行: npm install -g @deepseek-ai/dsh";

pub const NODE_NAME: &'static str = "Node.js";

pub const NPM_NAME: &'static str = "npm";

pub const DSH_NAME: &'static str = "dsh (@deepseek-ai/dsh)";

pub const INSTALL_NODE: &'static str = "install-node";

pub const INSTALL_DSH: &'static str = "install-dsh";

pub const MISSING_ERROR: &'static str = "未安装或不在 PATH 中";

pub const INSTALLED_WITHOUT_VERSION: &'static str = "已安装";

/// The version text of a result, as characters.
pub open spec fn version_view(r: EnvCheckResult) -> Option<Seq<char>> {
    match r.version {
        Some(v) => Some(v@),
        None => None,
    }
}

/// A failed check: not installed or not on `PATH`.
pub fn miss(name: &'static str, hint: &'static str, cmd: &'static str) -> (r: EnvCheckResult)
    ensures
        r.name == name,
        r.version is None,
        !r.ok,
        r.error@ == MISSING_ERROR@,
        r.install_hint == hint,
        r.install_cmd == cmd,
{
    EnvCheckResult {
        name,
        version: None,
        ok: false,
        error: String::from_str(MISSING_ERROR),
        install_hint: hint,
        install_cmd: cmd,
    }
}

/// A passed check that found `version`.
fn found(name: &'static str, version: String, hint: &'static str, cmd: &'static str) -> (r:
    EnvCheckResult)
    ensures
        r.name == name,
        version_view(r) == Some(version@),
        r.ok,
        r.error@ == Seq::<char>::empty(),
        r.install_hint == hint,
        r.install_cmd == cmd,
{
    EnvCheckResult {
        name,
        version: Some(version),
        ok: true,
        error: String::new(),
        install_hint: hint,
        install_cmd: cmd,
    }
}

/// What a command printed, as the checks use it: nothing when the command
/// failed, else its standard output trimmed, and nothing when that is empty.
pub open spec fn output_text_spec(success: bool, stdout: Seq<char>) -> Option<Seq<char>> {
    if !success || trim(stdout).len() == 0 {
        None
    } else {
        Some(trim(stdout))
    }
}

/// The text a command printed, given whether it exited successfully and its
/// standard output.
pub fn output_text(success: bool, stdout: &str) -> (r: Option<String>)
    ensures
        match r {
            Some(t) => output_text_spec(success, stdout@) == Some(t@),
            None => output_text_spec(success, stdout@) is None,
        },
{
    if !success {
        return None;
    }
    let t = trim_chars(chars_of(stdout).as_slice());
    if t.len() == 0 {
        None
    } else {
        Some(string_of(t.as_slice()))
    }
}

/// The Node.js check, from what `node --version` printed (see `output_text`).
pub fn check_node(output: Option<String>) -> (r: EnvCheckResult)
    ensures
        r.name == NODE_NAME,
        r.install_hint == NODE_HINT,
        r.install_cmd == INSTALL_NODE,
        r.ok == output is Some,
        match output {
            Some(v) => version_view(r) == Some(v@) && r.error@ == Seq::<char>::empty(),
            None => r.version is None && r.error@ == MISSING_ERROR@,
        },
{
    match output {
        Some(version) => found(NODE_NAME, version, NODE_HINT, INSTALL_NODE),
        None => miss(NODE_NAME, NODE_HINT, INSTALL_NODE),
    }
}

/// The npm check, from what `npm --version` printed (see `output_text`).
pub fn check_npm(output: Option<String>) -> (r: EnvCheckResult)
    ensures
        r.name == NPM_NAME,
        r.install_hint == NPM_HINT,
        r.install_cmd == INSTALL_NODE,
        r.ok == output is Some,
        match output {
            Some(v) => version_view(r) == Some(v@) && r.error@ == Seq::<char>::empty(),
            None => r.version is None && r.error@ == MISSING_ERROR@,
        },
{
    match output {
        Some(version) => found(NPM_NAME, version, NPM_HINT, INSTALL_NODE),
        None => miss(NPM_NAME, NPM_HINT, INSTALL_NODE),
    }
}


/// The first line that contains `pat`.
pub open spec fn first_line_with(lines: Seq<Seq<char>>, pat: Seq<char>) -> Option<Seq<char>>
    decreases lines.len(),
{
    if lines.len() == 0 {
        None
    } else if contains_run(lines[0], pat) {
        Some(lines[0])
    } else {
        first_line_with(lines.drop_first(), pat)
    }
}

/// A JSON value as the package check reads it: trimmed, then commas and
/// double quotes stripped from both ends, then trimmed again.
pub open spec fn version_value(value: Seq<char>) -> Seq<char> {
    trim(trim_by(trim_by(trim(value), Strip::Char(',')), Strip::Char('"')))
}

/// The `version` of a `package.json` text, read line by line: the first line
/// that mentions `"version"`, the text after its first `:`, cleaned by
/// `version_value`; nothing when that line has no `:` or the value is empty.
///
/// Lines are the pieces between `\n`; a `\r` before it ends up in the value
/// and is trimmed with it, so this agrees with `str::lines`.
pub open spec fn package_json_version(text: Seq<char>) -> Option<Seq<char>> {
    match first_line_with(split_all(text, '\n'), "\"version\""@) {
        None => None,
        Some(line) => match split_once(line, ':') {
            None => None,
            Some((_key, value)) => if version_value(value).len() == 0 {
                None
            } else {
                Some(version_value(value))
            },
        },
    }
}

/// Extracts the `version` field from a `package.json` text.
pub fn read_version_from_package_json(text: &str) -> (r: Option<String>)
    ensures
        match r {
            Some(v) => package_json_version(text@) == Some(v@),
            None => package_json_version(text@) is None,
        },
{
    let lines = split_chars(chars_of(text).as_slice(), '\n');
    let pat = chars_of("\"version\"");
    let ghost ls = views(lines@);
    assert(ls.subrange(0, ls.len() as int) =~= ls);
    let mut i: usize = 0;
    while i < lines.len()
        invariant
            i <= lines.len(),
            ls == views(lines@),
            ls == split_all(text@, '\n'),
            pat@ == "\"version\""@,
            first_line_with(ls.subrange(i as int, ls.len() as int), pat@) == first_line_with(
                ls,
                pat@,
            ),
        decreases lines.len() - i,
    {
        let ghost rest = ls.subrange(i as int, ls.len() as int);
        assert(rest[0] == lines@[i as int]@);
        if contains_chars(lines[i].as_slice(), pat.as_slice()) {
            return match split_once_chars(lines[i].as_slice(), ':') {
                None => None,
                Some((_key, value)) => {
                    let a = trim_chars(value.as_slice());
                    let b = trim_chars_by(a.as_slice(), Strip::Char(','));
                    let c = trim_chars_by(b.as_slice(), Strip::Char('"'));
                    let d = trim_chars(c.as_slice());
                    if d.len() == 0 {
                        None
                    } else {
                        Some(string_of(d.as_slice()))
                    }
                },
            };
        }
        assert(rest.drop_first() =~= ls.subrange(i + 1 as int, ls.len() as int));
        i = i + 1;
    }
    None
}

/// Every check passed.
pub fn all_ok(results: &[EnvCheckResult]) -> (r: bool)
    ensures
        r == forall|i: int| 0 <= i < results@.len() ==> #[trigger] results@[i].ok,
{
    let mut i: usize = 0;
    while i < results.len()
        invariant
            i <= results.len(),
            forall|j: int| 0 <= j < i ==> #[trigger] results@[j].ok,
        decreases results.len() - i,
    {
        if !results[i].ok {
            return false;
        }
        i = i + 1;
    }
    true
}

/// The latest published dsh version, from what `npm view @deepseek-ai/dsh
/// version` printed (see `output_text`): trimmed, and nothing when empty.
pub fn latest_dsh_version(output: Option<String>) -> (r: Option<String>)
    ensures
        match output {
            None => r is None,
            Some(v) => if trim(v@).len() == 0 {
                r is None
            } else {
                r matches Some(t) && t@ == trim(v@)
            },
        },
{
    match output {
        None => None,
        Some(v) => {
            let t = trim_chars(chars_of(v.as_str()).as_slice());
            if t.len() == 0 {
                None
            } else {
                Some(string_of(t.as_slice()))
            }
        },
    }
}


/// The dsh check, from what `npm root -g` printed (see `output_text`),
/// whether both `package.json` and `lib\bin.js` exist in the dsh package
/// under that root (`dsh_process::dsh_package_json_path`,
/// `dsh_process::dsh_bin_path`), and the text of that `package.json` when it
/// could be read. The version is the one `package.json` names, or "已安装"
/// when none can be read from it.
pub fn check_dsh(npm_root: Option<String>, installed: bool, package_json: Option<String>) -> (r:
    EnvCheckResult)
    ensures
        r.name == DSH_NAME,
        r.install_hint == DSH_HINT,
        r.install_cmd == INSTALL_DSH,
        r.ok == (npm_root is Some && installed),
        r.ok ==> r.error@ == Seq::<char>::empty() && version_view(r) == Some(
            match package_json {
                Some(text) => match package_json_version(text@) {
                    Some(v) => v,
                    None => INSTALLED_WITHOUT_VERSION@,
                },
                None => INSTALLED_WITHOUT_VERSION@,
            },
        ),
        !r.ok ==> r.version is None && r.error@ == MISSING_ERROR@,
{
    if npm_root.is_none() || !installed {
        return miss(DSH_NAME, DSH_HINT, INSTALL_DSH);
    }
    let version = match package_json {
        Some(text) => match read_version_from_package_json(text.as_str()) {
            Some(v) => v,
            None => String::from_str(INSTALLED_WITHOUT_VERSION),
        },
        None => String::from_str(INSTALLED_WITHOUT_VERSION),
    };
    found(DSH_NAME, version, DSH_HINT, INSTALL_DSH)
}

} // verus!
