//! Which syntax definitions a language hint or a file name points to.
use vstd::prelude::*;
use crate::text::{ascii_lower, chars_of, slice_chars, str_eq, string_from, to_ascii_lowercase, trim, trim_ws, views};

verus! {

pub open spec fn trim_start_char(s: Seq<char>, c: char) -> Seq<char>
    decreases s.len(),
{
    if s.len() > 0 && s[0] == c {
        trim_start_char(s.drop_first(), c)
    } else {
        s
    }
}

pub open spec fn trim_end_char(s: Seq<char>, c: char) -> Seq<char>
    decreases s.len(),
{
    if s.len() > 0 && s.last() == c {
        trim_end_char(s.drop_last(), c)
    } else {
        s
    }
}

/// `s` without leading and trailing `c` (`str::trim_matches`).
pub open spec fn trim_char(s: Seq<char>, c: char) -> Seq<char> {
    trim_end_char(trim_start_char(s, c), c)
}

pub(crate) fn trim_char_exec(v: &Vec<char>, c: char) -> (r: Vec<char>)
    ensures
        r@ == trim_char(v@, c),
{
    let mut lo: usize = 0;
    assert(v@.skip(0) =~= v@);
    while lo < v.len() && v[lo] == c
        invariant
            lo <= v.len(),
            trim_start_char(v@, c) == trim_start_char(v@.skip(lo as int), c),
        decreases v.len() - lo,
    {
        assert(v@.skip(lo as int).drop_first() =~= v@.skip(lo + 1));
        lo = lo + 1;
    }
    let mut w = slice_chars(v, lo, v.len());
    assert(w@ =~= v@.skip(lo as int));
    while w.len() > 0 && w[w.len() - 1] == c
        invariant
            trim_end_char(w@, c) == trim_char(v@, c),
        decreases w.len(),
    {
        let ghost before = w@;
        w.pop();
        assert(w@ =~= before.drop_last());
    }
    w
}

/// A hint as it is looked up: trimmed, without surrounding braces, in ASCII lower case.
pub open spec fn normalized_hint(hint: Seq<char>) -> Seq<char> {
    ascii_lower(trim_char(trim_char(trim_ws(hint), '{'), '}'))
}

pub fn normalize_hint(hint: &str) -> (r: String)
    ensures
        r@ == normalized_hint(hint@),
{
    let t = trim(hint);
    let v = chars_of(t.as_str());
    let a = trim_char_exec(&v, '{');
    let b = trim_char_exec(&a, '}');
    let s = string_from(&b);
    to_ascii_lowercase(s.as_str())
}

/// The extensions, then the syntax names, tried for a normalized hint: known languages and
/// their aliases map to their definitions; any other hint is tried as it is.
pub open spec fn candidates_spec(h: Seq<char>) -> (Seq<Seq<char>>, Seq<Seq<char>>) {
    if h == "shell"@ || h == "sh"@ || h == "bash"@ || h == "zsh"@ || h == "fish"@ {
        (seq!["sh"@, "bash"@, "zsh"@, "fish"@], seq!["Shell-Unix-Generic"@])
    } else if h == "py"@ || h == "python"@ {
        (seq!["py"@], seq!["Python"@])
    } else if h == "javascript"@ || h == "js"@ || h == "mjs"@ || h == "cjs"@ || h == "node"@ {
        (seq!["js"@, "mjs"@, "cjs"@], seq!["JavaScript"@])
    } else if h == "typescript"@ || h == "ts"@ {
        (seq!["ts"@], seq!["TypeScript"@])
    } else if h == "tsx"@ {
        (seq!["tsx"@], seq!["TypeScriptReact"@])
    } else if h == "jsx"@ {
        (seq!["jsx"@], seq!["JavaScript (Babel)"@])
    } else if h == "yaml"@ || h == "yml"@ {
        (seq!["yaml"@, "yml"@], seq!["YAML"@])
    } else if h == "dockerfile"@ {
        (seq!["dockerfile"@], seq!["Dockerfile"@])
    } else if h == "makefile"@ {
        (seq!["makefile"@], seq!["Makefile"@])
    } else if h == "justfile"@ {
        (seq!["just"@], seq!["Makefile"@])
    } else if h == "toml"@ {
        (seq!["toml"@], seq!["TOML"@])
    } else if h == "json"@ {
        (seq!["json"@], seq!["JSON"@])
    } else if h == "conf"@ || h == "config"@ {
        (seq!["conf"@, "cfg"@, "ini"@], seq!["INI"@])
    } else if h == "php"@ || h == "phtml"@ {
        (seq!["php"@, "phtml"@], seq!["PHP"@])
    } else if h == "ruby"@ || h == "rb"@ || h == "gemspec"@ || h == "rake"@ {
        (seq!["rb"@], seq!["Ruby"@])
    } else if h == "rust"@ || h == "rs"@ {
        (seq!["rs"@], seq!["Rust"@])
    } else if h == "c"@ {
        (seq!["c"@, "h"@], seq!["C"@])
    } else if h == "c++"@ || h == "cpp"@ || h == "cc"@ || h == "cxx"@ || h == "hpp"@ || h == "hxx"@ || h == "hh"@ {
        (seq!["cpp"@, "cxx"@, "cc"@, "hpp"@, "hxx"@, "hh"@], seq!["C++"@])
    } else if h == "powershell"@ || h == "pwsh"@ || h == "ps1"@ || h == "psm1"@ || h == "psd1"@ {
        (seq!["ps1"@, "psm1"@, "psd1"@, "sh"@], seq!["PowerShell"@, "Shell-Unix-Generic"@])
    } else if h == "cmake"@ {
        (seq!["cmake"@], seq!["CMake"@])
    } else if h == "html"@ {
        (seq!["html"@], seq!["HTML"@])
    } else if h == "css"@ {
        (seq!["css"@], seq!["CSS"@])
    } else if h == "sql"@ {
        (seq!["sql"@], seq!["SQL"@])
    } else {
        (seq![h], seq![h])
    }
}

fn strings(v: Vec<&str>) -> (r: Vec<String>)
    ensures
        views(r@) == views(v@),
{
    let mut r: Vec<String> = Vec::new();
    let mut i: usize = 0;
    while i < v.len()
        invariant
            i <= v.len(),
            views(r@) == views(v@.take(i as int)),
        decreases v.len() - i,
    {
        r.push(String::from_str(v[i]));
        assert(views(v@.take(i + 1)) =~= views(v@.take(i as int)).push(v@[i as int]@));
        assert(views(r@) =~= views(v@.take(i + 1)));
        i = i + 1;
    }
    assert(v@.take(v.len() as int) =~= v@);
    r
}

/// The extensions and syntax names tried for a language hint, and the hint as normalized.
pub fn syntax_candidates(hint: &str) -> (r: (Vec<String>, Vec<String>, String))
    ensures
        r.2@ == normalized_hint(hint@),
        (views(r.0@), views(r.1@)) == candidates_spec(normalized_hint(hint@)),
{
    let n = normalize_hint(hint);
    let h = n.as_str();
    let (exts, names) = if str_eq(h, "shell") || str_eq(h, "sh") || str_eq(h, "bash") || str_eq(h, "zsh") || str_eq(h, "fish") {
        let e = strings(vec!["sh", "bash", "zsh", "fish"]);
        let m = strings(vec!["Shell-Unix-Generic"]);
        assert(views(e@) =~= seq!["sh"@, "bash"@, "zsh"@, "fish"@]);
        assert(views(m@) =~= seq!["Shell-Unix-Generic"@]);
        (e, m)
    } else if str_eq(h, "py") || str_eq(h, "python") {
        let e = strings(vec!["py"]);
        let m = strings(vec!["Python"]);
        assert(views(e@) =~= seq!["py"@]);
        assert(views(m@) =~= seq!["Python"@]);
        (e, m)
    } else if str_eq(h, "javascript") || str_eq(h, "js") || str_eq(h, "mjs") || str_eq(h, "cjs") || str_eq(h, "node") {
        let e = strings(vec!["js", "mjs", "cjs"]);
        let m = strings(vec!["JavaScript"]);
        assert(views(e@) =~= seq!["js"@, "mjs"@, "cjs"@]);
        assert(views(m@) =~= seq!["JavaScript"@]);
        (e, m)
    } else if str_eq(h, "typescript") || str_eq(h, "ts") {
        let e = strings(vec!["ts"]);
        let m = strings(vec!["TypeScript"]);
        assert(views(e@) =~= seq!["ts"@]);
        assert(views(m@) =~= seq!["TypeScript"@]);
        (e, m)
    } else if str_eq(h, "tsx") {
        let e = strings(vec!["tsx"]);
        let m = strings(vec!["TypeScriptReact"]);
        assert(views(e@) =~= seq!["tsx"@]);
        assert(views(m@) =~= seq!["TypeScriptReact"@]);
        (e, m)
    } else if str_eq(h, "jsx") {
        let e = strings(vec!["jsx"]);
        let m = strings(vec!["JavaScript (Babel)"]);
        assert(views(e@) =~= seq!["jsx"@]);
        assert(views(m@) =~= seq!["JavaScript (Babel)"@]);
        (e, m)
    } else if str_eq(h, "yaml") || str_eq(h, "yml") {
        let e = strings(vec!["yaml", "yml"]);
        let m = strings(vec!["YAML"]);
        assert(views(e@) =~= seq!["yaml"@, "yml"@]);
        assert(views(m@) =~= seq!["YAML"@]);
        (e, m)
    } else if str_eq(h, "dockerfile") {
        let e = strings(vec!["dockerfile"]);
        let m = strings(vec!["Dockerfile"]);
        assert(views(e@) =~= seq!["dockerfile"@]);
        assert(views(m@) =~= seq!["Dockerfile"@]);
        (e, m)
    } else if str_eq(h, "makefile") {
        let e = strings(vec!["makefile"]);
        let m = strings(vec!["Makefile"]);
        assert(views(e@) =~= seq!["makefile"@]);
        assert(views(m@) =~= seq!["Makefile"@]);
        (e, m)
    } else if str_eq(h, "justfile") {
        let e = strings(vec!["just"]);
        let m = strings(vec!["Makefile"]);
        assert(views(e@) =~= seq!["just"@]);
        assert(views(m@) =~= seq!["Makefile"@]);
        (e, m)
    } else if str_eq(h, "toml") {
        let e = strings(vec!["toml"]);
        let m = strings(vec!["TOML"]);
        assert(views(e@) =~= seq!["toml"@]);
        assert(views(m@) =~= seq!["TOML"@]);
        (e, m)
    } else if str_eq(h, "json") {
        let e = strings(vec!["json"]);
        let m = strings(vec!["JSON"]);
        assert(views(e@) =~= seq!["json"@]);
        assert(views(m@) =~= seq!["JSON"@]);
        (e, m)
    } else if str_eq(h, "conf") || str_eq(h, "config") {
        let e = strings(vec!["conf", "cfg", "ini"]);
        let m = strings(vec!["INI"]);
        assert(views(e@) =~= seq!["conf"@, "cfg"@, "ini"@]);
        assert(views(m@) =~= seq!["INI"@]);
        (e, m)
    } else if str_eq(h, "php") || str_eq(h, "phtml") {
        let e = strings(vec!["php", "phtml"]);
        let m = strings(vec!["PHP"]);
        assert(views(e@) =~= seq!["php"@, "phtml"@]);
        assert(views(m@) =~= seq!["PHP"@]);
        (e, m)
    } else if str_eq(h, "ruby") || str_eq(h, "rb") || str_eq(h, "gemspec") || str_eq(h, "rake") {
        let e = strings(vec!["rb"]);
        let m = strings(vec!["Ruby"]);
        assert(views(e@) =~= seq!["rb"@]);
        assert(views(m@) =~= seq!["Ruby"@]);
        (e, m)
    } else if str_eq(h, "rust") || str_eq(h, "rs") {
        let e = strings(vec!["rs"]);
        let m = strings(vec!["Rust"]);
        assert(views(e@) =~= seq!["rs"@]);
        assert(views(m@) =~= seq!["Rust"@]);
        (e, m)
    } else if str_eq(h, "c") {
        let e = strings(vec!["c", "h"]);
        let m = strings(vec!["C"]);
        assert(views(e@) =~= seq!["c"@, "h"@]);
        assert(views(m@) =~= seq!["C"@]);
        (e, m)
    } else if str_eq(h, "c++") || str_eq(h, "cpp") || str_eq(h, "cc") || str_eq(h, "cxx") || str_eq(h, "hpp") || str_eq(h, "hxx") || str_eq(h, "hh") {
        let e = strings(vec!["cpp", "cxx", "cc", "hpp", "hxx", "hh"]);
        let m = strings(vec!["C++"]);
        assert(views(e@) =~= seq!["cpp"@, "cxx"@, "cc"@, "hpp"@, "hxx"@, "hh"@]);
        assert(views(m@) =~= seq!["C++"@]);
        (e, m)
    } else if str_eq(h, "powershell") || str_eq(h, "pwsh") || str_eq(h, "ps1") || str_eq(h, "psm1") || str_eq(h, "psd1") {
        let e = strings(vec!["ps1", "psm1", "psd1", "sh"]);
        let m = strings(vec!["PowerShell", "Shell-Unix-Generic"]);
        assert(views(e@) =~= seq!["ps1"@, "psm1"@, "psd1"@, "sh"@]);
        assert(views(m@) =~= seq!["PowerShell"@, "Shell-Unix-Generic"@]);
        (e, m)
    } else if str_eq(h, "cmake") {
        let e = strings(vec!["cmake"]);
        let m = strings(vec!["CMake"]);
        assert(views(e@) =~= seq!["cmake"@]);
        assert(views(m@) =~= seq!["CMake"@]);
        (e, m)
    } else if str_eq(h, "html") {
        let e = strings(vec!["html"]);
        let m = strings(vec!["HTML"]);
        assert(views(e@) =~= seq!["html"@]);
        assert(views(m@) =~= seq!["HTML"@]);
        (e, m)
    } else if str_eq(h, "css") {
        let e = strings(vec!["css"]);
        let m = strings(vec!["CSS"]);
        assert(views(e@) =~= seq!["css"@]);
        assert(views(m@) =~= seq!["CSS"@]);
        (e, m)
    } else if str_eq(h, "sql") {
        let e = strings(vec!["sql"]);
        let m = strings(vec!["SQL"]);
        assert(views(e@) =~= seq!["sql"@]);
        assert(views(m@) =~= seq!["SQL"@]);
        (e, m)
    } else {
        let e = strings(vec![h]);
        let m = strings(vec![h]);
        assert(views(e@) =~= seq![h@]);
        assert(views(m@) =~= seq![h@]);
        (e, m)
    };
    (exts, names, n)
}

/// The hint a well-known file name gives (in ASCII lower case), if any.
pub open spec fn file_name_hint_spec(lower: Seq<char>) -> Option<Seq<char>> {
    if lower == "dockerfile"@ {
        Some("dockerfile"@)
    } else if lower == "makefile"@ {
        Some("makefile"@)
    } else if lower == "justfile"@ {
        Some("justfile"@)
    } else if lower == ".env"@ || lower == ".bashrc"@ || lower == ".zshrc"@ || lower == ".profile"@
        || lower == ".bash_profile"@ || lower == ".bash_aliases"@ {
        Some("sh"@)
    } else if lower == "gemfile"@ || lower == "rakefile"@ {
        Some("ruby"@)
    } else if lower == "cmakelists.txt"@ {
        Some("cmake"@)
    } else if lower == "powershell_profile.ps1"@ {
        Some("powershell"@)
    } else {
        None
    }
}

pub fn file_name_hint(file_name: &str) -> (r: Option<&'static str>)
    ensures
        match r {
            Some(h) => file_name_hint_spec(ascii_lower(file_name@)) == Some(h@),
            None => file_name_hint_spec(ascii_lower(file_name@)) is None,
        },
{
    let l = to_ascii_lowercase(file_name);
    let n = l.as_str();
    if str_eq(n, "dockerfile") {
        Some("dockerfile")
    } else if str_eq(n, "makefile") {
        Some("makefile")
    } else if str_eq(n, "justfile") {
        Some("justfile")
    } else if str_eq(n, ".env") || str_eq(n, ".bashrc") || str_eq(n, ".zshrc") || str_eq(n, ".profile") || str_eq(n, ".bash_profile") || str_eq(n, ".bash_aliases") {
        Some("sh")
    } else if str_eq(n, "gemfile") || str_eq(n, "rakefile") {
        Some("ruby")
    } else if str_eq(n, "cmakelists.txt") {
        Some("cmake")
    } else if str_eq(n, "powershell_profile.ps1") {
        Some("powershell")
    } else {
        None
    }
}

} // verus!
