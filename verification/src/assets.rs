//! Embedding assets: how a file of the front end is prepared before it is
//! compressed, and under which name its compressed content is kept.

use crate::text::{
    matches_at, replace, replaced, starts_with_at, str_eq, trim_start_matches, trimmed_start,
};
use vstd::prelude::*;
use vstd::string::*;

verus! {

/// Options used to embed assets.
#[derive(Clone, Debug, PartialEq, Eq)]
pub struct AssetOptions {
    /// The content security policy to add to HTML files.
    pub csp: Option<String>,
}

impl AssetOptions {
    /// Creates the default asset options.
    pub fn new() -> (options: Self)
        ensures
            options.csp is None,
    {
        AssetOptions { csp: None }
    }

    /// Sets the content security policy to add to HTML files.
    pub fn csp(self, csp: String) -> (options: Self)
        ensures
            options.csp == Some(csp),
    {
        AssetOptions { csp: Some(csp) }
    }
}

/// All possible errors while reading and compressing an embedded assets
/// directory
#[derive(Clone, Debug, PartialEq, Eq)]
pub enum EmbeddedAssetsError {
    /// failed to read asset at `path` because `error`
    AssetRead { path: String, error: String },
    /// failed to write asset from `path` because `error`
    AssetWrite { path: String, error: String },
    /// invalid prefix `prefix` used while including path `path`
    PrefixInvalid { prefix: String, path: String },
    /// failed to walk directory `path` because `error`
    Walkdir { path: String, error: String },
    /// OUT_DIR env var is not set, do you have a build script?
    OutDir,
}

/// How a file is prepared, by its extension.
#[derive(Clone, Copy, Debug, PartialEq, Eq, Structural)]
pub enum AssetKind {
    /// A page: it is given the security policy and the invoke key.
    Html,
    /// A script: it is given the invoke key.
    Javascript,
    /// Anything else is embedded as it is.
    Other,
}

/// The kind of a file with the given extension.
pub open spec fn kind_of(extension: Option<Seq<char>>) -> AssetKind {
    match extension {
        Some(e) => if e == "html"@ {
            AssetKind::Html
        } else if e == "js"@ || e == "cjs"@ || e == "mjs"@ {
            AssetKind::Javascript
        } else {
            AssetKind::Other
        },
        None => AssetKind::Other,
    }
}

/// The characters of an optional text that is borrowed.
pub open spec fn option_str_view(text: Option<&str>) -> Option<Seq<char>> {
    match text {
        Some(t) => Some(t@),
        None => None,
    }
}

/// The kind of a file with the given extension: `html` is a page, `js`,
/// `cjs` and `mjs` are scripts.
pub fn asset_kind(extension: Option<&str>) -> (kind: AssetKind)
    ensures
        kind == kind_of(option_str_view(extension)),
{
    proof {
        reveal_strlit("html");
        reveal_strlit("js");
        reveal_strlit("cjs");
        reveal_strlit("mjs");
    }
    match extension {
        Some(e) => {
            if str_eq(e, "html") {
                AssetKind::Html
            } else if str_eq(e, "js") || str_eq(e, "cjs") || str_eq(e, "mjs") {
                AssetKind::Javascript
            } else {
                AssetKind::Other
            }
        },
        None => AssetKind::Other,
    }
}

/// What goes before a script that is a module.
pub open spec fn module_head() -> Seq<char> {
    "\n              const __TAURI_INVOKE_KEY__ = __TAURI__INVOKE_KEY_TOKEN__;\n              "@
}

/// What goes behind a script that is a module.
pub open spec fn module_tail() -> Seq<char> {
    "\n            "@
}

/// What goes before a script that is no module.
pub open spec fn script_head() -> Seq<char> {
    "(function () {\n              const __TAURI_INVOKE_KEY__ = __TAURI__INVOKE_KEY_TOKEN__;\n              "@
}

/// What goes behind a script that is no module.
pub open spec fn script_tail() -> Seq<char> {
    "\n            })()"@
}

/// A script with the invoke key in its scope: a module gets the constant
/// at its top, and any other script is wrapped in a function that holds
/// the constant and is called at once.
pub open spec fn wrapped(js: Seq<char>, is_module: bool) -> Seq<char> {
    if is_module {
        module_head() + js + module_tail()
    } else {
        script_head() + js + script_tail()
    }
}

/// Puts the invoke key in the scope of a script.
pub fn wrap_javascript(js: &str, is_module: bool) -> (r: String)
    ensures
        r@ == wrapped(js@, is_module),
{
    if is_module {
        let mut r = String::from_str(
            "\n              const __TAURI_INVOKE_KEY__ = __TAURI__INVOKE_KEY_TOKEN__;\n              ",
        );
        r.append(js);
        r.append("\n            ");
        r
    } else {
        let mut r = String::from_str(
            "(function () {\n              const __TAURI_INVOKE_KEY__ = __TAURI__INVOKE_KEY_TOKEN__;\n              ",
        );
        r.append(js);
        r.append("\n            })()");
        r
    }
}

/// Whether one of some regular expressions matches somewhere in a text, as
/// `regex` matches; `None` where the expressions are refused.
pub uninterp spec fn regex_set_matches(patterns: Seq<Seq<char>>, text: Seq<char>) -> Option<bool>;

/// The characters of each of some texts.
pub open spec fn texts(items: Seq<String>) -> Seq<Seq<char>> {
    Seq::new(items.len(), |i: int| items[i]@)
}

/// Tests a text against a set of regular expressions:
/// `regex::RegexSet::new`, and of the set `regex::RegexSet::is_match`.
///
/// Trusted: the outcome is a function of the expressions and the text
/// alone, named [`regex_set_matches`]: whether any of the expressions
/// matches anywhere in the text, and `None` where the set cannot be built
/// of the expressions.
#[verifier::external_body]
pub(crate) fn matches_any(patterns: &Vec<String>, text: &str) -> (r: Option<bool>)
    ensures
        r == regex_set_matches(texts(patterns@), text@),
{
    match regex::RegexSet::new(patterns) {
        Ok(set) => Some(set.is_match(text)),
        Err(_) => None,
    }
}

/// The hash of some bytes in lower-case hexadecimal digits, as `blake3`
/// computes it.
pub uninterp spec fn blake3_hex(input: Seq<u8>) -> Seq<char>;

/// Hashes content: `blake3::hash`, and of the hash `blake3::Hash::to_hex`.
///
/// Trusted: the outcome is a function of the bytes alone, named
/// [`blake3_hex`].
#[verifier::external_body]
pub(crate) fn content_hash(input: &[u8]) -> (hex: String)
    ensures
        hex@ == blake3_hex(input@),
{
    blake3::hash(input).to_hex().to_string()
}

/// The expressions by which a script is taken for a module: the forms of
/// `import` and `export`.
pub open spec fn module_forms() -> Seq<Seq<char>> {
    seq![
        "import\\{"@,
        "import \\{"@,
        "import\\*"@,
        "import \\*"@,
        "import (\"|');?$"@,
        "import\\("@,
        "import (.|\n)+ from (\"|')([A-Za-z\\-]+)(\"|')"@,
        "export\\{"@,
        "export \\{"@,
        "export\\*"@,
        "export \\*"@,
        "export (default|class|let|const|function)"@,
    ]
}

/// The expressions by which a script is taken for a module.
pub fn module_patterns() -> (patterns: Vec<String>)
    ensures
        texts(patterns@) == module_forms(),
{
    let mut patterns: Vec<String> = Vec::new();
    // import keywords
    patterns.push(String::from_str("import\\{"));
    patterns.push(String::from_str("import \\{"));
    patterns.push(String::from_str("import\\*"));
    patterns.push(String::from_str("import \\*"));
    patterns.push(String::from_str("import (\"|');?$"));
    patterns.push(String::from_str("import\\("));
    patterns.push(String::from_str("import (.|\n)+ from (\"|')([A-Za-z\\-]+)(\"|')"));
    // export keywords
    patterns.push(String::from_str("export\\{"));
    patterns.push(String::from_str("export \\{"));
    patterns.push(String::from_str("export\\*"));
    patterns.push(String::from_str("export \\*"));
    patterns.push(String::from_str("export (default|class|let|const|function)"));
    assert(texts(patterns@) =~= module_forms());
    patterns
}

/// Puts the invoke key in the scope of a script, as a module if the script
/// holds one of the forms of `import` and `export`, and as a plain script
/// otherwise. `None` where the forms cannot be told.
pub fn prepare_javascript(js: &str) -> (r: Option<String>)
    ensures
        match regex_set_matches(module_forms(), js@) {
            Some(is_module) => r matches Some(prepared) && prepared@ == wrapped(js@, is_module),
            None => r is None,
        },
{
    let patterns = module_patterns();
    match matches_any(&patterns, js) {
        Some(is_module) => Some(wrap_javascript(js, is_module)),
        None => None,
    }
}

/// The name under which compressed content is kept: its hash, with the
/// extension of the file it comes from.
pub open spec fn file_name_of(hash: Seq<char>, extension: Option<Seq<char>>) -> Seq<char> {
    match extension {
        Some(e) => hash + "."@ + e,
        None => hash,
    }
}

/// The name under which the compressed content of a file is kept, from
/// the hash of the content.
pub fn out_file_name(hash: &str, extension: Option<&str>) -> (name: String)
    ensures
        name@ == file_name_of(hash@, option_str_view(extension)),
{
    let mut name = String::from_str(hash);
    match extension {
        Some(ext) => {
            name.append(".");
            name.append(ext);
        },
        None => {},
    }
    name
}

/// The name under which the compressed content of a file is kept.
pub fn out_file_name_of(input: &[u8], extension: Option<&str>) -> (name: String)
    ensures
        name@ == file_name_of(blake3_hex(input@), option_str_view(extension)),
{
    let hash = content_hash(input);
    out_file_name(hash.as_str(), extension)
}

/// Use highest compression level for release, the fastest one for
/// everything else: of the range of levels that the compressor offers.
pub fn compression_level(debug_assertions: bool, start: i32, end: i32) -> (level: i32)
    ensures
        level == if debug_assertions {
            start
        } else {
            end
        },
{
    if debug_assertions {
        start
    } else {
        end
    }
}

/// The directory that the keys of the assets under `path` are relative to:
/// the directory of a file, and a directory itself.
pub fn asset_prefix(is_file: bool, path: String, parent: Option<String>) -> (prefix: String)
    requires
        is_file ==> parent is Some,
    ensures
        prefix == if is_file {
            parent->0
        } else {
            path
        },
{
    if is_file {
        match parent {
            Some(parent) => parent,
            None => path,
        }
    } else {
        path
    }
}

/// A path with forward slashes for backward ones.
pub open spec fn slashed(path: Seq<char>) -> Seq<char> {
    replaced(path, "\\"@, "/"@)
}

/// Whether a path lies under a prefix, both with forward slashes: the path
/// begins with the prefix, and the prefix ends where a part of the path
/// ends.
pub open spec fn lies_under(path: Seq<char>, prefix: Seq<char>) -> bool {
    &&& matches_at(path, prefix, 0)
    &&& (prefix.len() == 0 || prefix.len() == path.len() || prefix.last() == '/'
        || path[prefix.len() as int] == '/')
}

/// The key of an asset: its path below the prefix, from the root and with
/// forward slashes; `None` for a path that does not lie under the prefix.
pub open spec fn key_of(path: Seq<char>, prefix: Seq<char>) -> Option<Seq<char>> {
    let path = slashed(path);
    let prefix = slashed(prefix);
    if lies_under(path, prefix) {
        Some(seq!['/'] + trimmed_start(path.subrange(prefix.len() as int, path.len() as int), '/'))
    } else {
        None
    }
}

/// The key under which an asset is kept: its path below the directory of
/// the assets, from the root and with forward slashes. A path that does
/// not lie under that directory has no key.
pub fn asset_key(path: &str, prefix: &str) -> (r: Option<String>)
    ensures
        match key_of(path@, prefix@) {
            Some(key) => r matches Some(text) && text@ == key,
            None => r is None,
        },
{
    let path = replace(path, "\\", "/");
    let prefix = replace(prefix, "\\", "/");
    let n: usize = path.as_str().unicode_len();
    let m: usize = prefix.as_str().unicode_len();
    if !starts_with_at(path.as_str(), n, prefix.as_str(), m, 0) {
        return None;
    }
    let whole = m == 0 || m == n || prefix.as_str().get_char(m - 1) == '/' || path.as_str().get_char(
        m,
    ) == '/';
    if !whole {
        return None;
    }
    let rest = trim_start_matches(path.as_str().substring_char(m, n), '/');
    let mut key = String::from_str("/");
    key.append(rest);
    proof {
        reveal_strlit("/");
        assert("/"@ =~= seq!['/']);
    }
    Some(key)
}

} // verus!
