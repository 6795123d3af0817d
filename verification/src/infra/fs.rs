//! What the file system listing decides: kinds by name and content, summaries, labels.
use vstd::prelude::*;
use crate::domain::entry::{EntryItem, EntryKind};
use crate::paths::{path_extension, path_extension_spec, path_file_name, path_file_name_spec};
use crate::surfaces::tui::app::state::{sort_items, sorted_for, SortMode};
use crate::text::{
    ascii_lower, chars_of, contains_seq, push_char, slice_chars, starts_with, str_contains, str_eq,
    str_starts_with, string_from, to_ascii_lowercase, trim, trim_ws, views,
};
use crate::units::{byte_size_text, push_byte_size};

verus! {

/// `s` cut to `max` characters: longer text keeps `max - 3` characters and ends in `...`.
pub open spec fn truncate_spec(s: Seq<char>, max: nat) -> Seq<char> {
    if s.len() <= max {
        s
    } else {
        s.take(if max >= 3 { max - 3 } else { 0 }) + seq!['.', '.', '.']
    }
}

pub fn truncate_chars(input: &str, max: usize) -> (r: String)
    ensures
        r@ == truncate_spec(input@, max as nat),
{
    let chars = chars_of(input);
    if chars.len() <= max {
        return String::from_str(input);
    }
    let keep = if max >= 3 { max - 3 } else { 0 };
    let mut kept = slice_chars(&chars, 0, keep);
    kept.push('.');
    kept.push('.');
    kept.push('.');
    assert(kept@ =~= truncate_spec(input@, max as nat));
    string_from(&kept)
}

/// A file size as `N B`, `x.y KB`, `x.y MB` or `x.y GB`; an unknown size counts as zero.
pub open spec fn size_label_spec(size: Option<u64>) -> Seq<char> {
    byte_size_text(
        match size {
            Some(v) => v as nat,
            None => 0,
        },
        seq![' '],
    )
}

pub fn size_label(size: Option<u64>) -> (r: String)
    ensures
        r@ == size_label_spec(size),
{
    let v = match size {
        Some(v) => v,
        None => 0,
    };
    let mut s = String::new();
    push_byte_size(&mut s, v, " ");
    proof {
        reveal_strlit(" ");
        assert(s@ =~= size_label_spec(size));
    }
    s
}

/// The files a directory summary is looked for in, in order.
pub open spec fn doc_candidates() -> Seq<Seq<char>> {
    seq![
        "README.md"@, "readme.md"@, "README.txt"@, "AGENTS.md"@, "agents.md"@, "AGENT.md"@,
        "agent.md"@, "GUIDE.md"@, "guide.md"@, "INTRO.md"@, "intro.md"@, "OVERVIEW.md"@,
        "overview.md"@, "CONTRIBUTING.md"@, "contributing.md"@, "docs/README.md"@, "docs/readme.md"@,
    ]
}

pub fn project_doc_candidates() -> (r: Vec<&'static str>)
    ensures
        views(r@) == doc_candidates(),
{
    let r = vec![
        "README.md", "readme.md", "README.txt", "AGENTS.md", "agents.md", "AGENT.md",
        "agent.md", "GUIDE.md", "guide.md", "INTRO.md", "intro.md", "OVERVIEW.md",
        "overview.md", "CONTRIBUTING.md", "contributing.md", "docs/README.md", "docs/readme.md",
    ];
    assert(views(r@) =~= doc_candidates());
    r
}

/// Whether a directory entry is listed: names starting with `.` only when hidden entries are
/// shown.
pub fn entry_is_listed(name: &str, include_hidden: bool) -> (r: bool)
    ensures
        r == (include_hidden || !(name@.len() > 0 && name@[0] == '.')),
{
    let v = crate::text::chars_of(name);
    let hidden = v.len() > 0 && v[0] == '.';
    include_hidden || !hidden
}

/// The first position whose candidate is present.
pub open spec fn first_present(present: Seq<bool>, i: int) -> Option<int>
    decreases present.len() - i,
{
    if i < 0 || i >= present.len() {
        None
    } else if present[i] {
        Some(i)
    } else {
        first_present(present, i + 1)
    }
}

/// Which project document is shown, given whether each of `project_doc_candidates` is a file
/// in the directory: the first that is, in the candidates' order.
pub fn pick_project_doc(present: &Vec<bool>) -> (r: Option<usize>)
    ensures
        match r {
            Some(i) => first_present(present@, 0) == Some(i as int) && i < present.len() && present@[i as int]
                && forall|j: int| 0 <= j < i ==> !#[trigger] present@[j],
            None => first_present(present@, 0) is None && forall|j: int| 0 <= j < present.len() ==> !#[trigger] present@[j],
        },
{
    let mut i: usize = 0;
    while i < present.len()
        invariant
            i <= present.len(),
            first_present(present@, 0) == first_present(present@, i as int),
            forall|j: int| 0 <= j < i ==> !#[trigger] present@[j],
        decreases present.len() - i,
    {
        if present[i] {
            return Some(i);
        }
        i = i + 1;
    }
    None
}

/// Whether `x` is one of `list`.
pub(crate) fn in_list(x: &str, list: &Vec<&str>) -> (r: bool)
    ensures
        r == views(list@).contains(x@),
{
    let mut i: usize = 0;
    while i < list.len()
        invariant
            i <= list.len(),
            forall|j: int| 0 <= j < i ==> views(list@)[j] != x@,
        decreases list.len() - i,
    {
        if str_eq(list[i], x) {
            assert(views(list@)[i as int] == x@);
            return true;
        }
        i = i + 1;
    }
    false
}

/// File names (in lower case) that are code whatever their extension.
pub open spec fn code_file_names() -> Seq<Seq<char>> {
    seq![
        "dockerfile"@, "makefile"@, "justfile"@, ".env"@, ".gitignore"@, ".dockerignore"@,
        "nginx.conf"@, "requirements.txt"@, "gemfile"@, "rakefile"@, "brewfile"@, "cmakelists.txt"@,
        ".bashrc"@, ".zshrc"@, ".profile"@, ".bash_profile"@, ".bash_aliases"@, "powershell_profile.ps1"@,
    ]
}

pub open spec fn code_extensions() -> Seq<Seq<char>> {
    seq![
        "rs"@, "py"@, "js"@, "ts"@, "tsx"@, "jsx"@, "toml"@, "json"@, "yaml"@, "yml"@, "sh"@,
        "zsh"@, "bash"@, "fish"@, "go"@, "c"@, "cpp"@, "cc"@, "cxx"@, "h"@, "hh"@, "hpp"@,
        "hxx"@, "java"@, "css"@, "html"@, "sql"@, "lua"@, "vim"@, "xml"@, "nix"@, "proto"@,
        "properties"@, "cfg"@, "ini"@, "conf"@, "env"@, "php"@, "phtml"@, "rb"@, "ru"@,
        "gemspec"@, "ps1"@, "psm1"@, "psd1"@, "bat"@, "cmd"@, "swift"@, "kt"@, "kts"@, "cs"@,
        "m"@, "mm"@,
    ]
}

pub open spec fn image_extensions() -> Seq<Seq<char>> {
    seq!["png"@, "jpg"@, "jpeg"@, "gif"@, "bmp"@, "webp"@, "svg"@, "ico"@, "tif"@, "tiff"@]
}

pub open spec fn archive_extensions() -> Seq<Seq<char>> {
    seq!["zip"@, "tar"@, "gz"@, "tgz"@, "7z"@]
}

pub open spec fn lower_part(p: Option<Seq<char>>) -> Seq<char> {
    match p {
        Some(v) => ascii_lower(v),
        None => Seq::empty(),
    }
}

/// The kind of an entry as far as its type and name tell: directories, non-files, known
/// file names, then known extensions; `None` where the content must decide.
pub open spec fn kind_by_path_spec(is_dir: bool, is_file: bool, path: Seq<char>) -> Option<EntryKind> {
    let name = lower_part(path_file_name_spec(path));
    let ext = lower_part(path_extension_spec(path));
    if is_dir {
        Some(EntryKind::Directory)
    } else if !is_file {
        Some(EntryKind::Unknown)
    } else if code_file_names().contains(name) {
        Some(EntryKind::Code)
    } else if name == "readme.md"@ {
        Some(EntryKind::Markdown)
    } else if name == "readme.txt"@ {
        Some(EntryKind::Text)
    } else if ext == "md"@ || ext == "markdown"@ {
        Some(EntryKind::Markdown)
    } else if code_extensions().contains(ext) {
        Some(EntryKind::Code)
    } else if ext == "txt"@ || ext == "log"@ {
        Some(EntryKind::Text)
    } else if archive_extensions().contains(ext) {
        Some(EntryKind::Archive)
    } else if ext == "pdf"@ {
        Some(EntryKind::Pdf)
    } else if image_extensions().contains(ext) {
        Some(EntryKind::Image)
    } else {
        None
    }
}

fn lower_of(p: Option<String>) -> (r: String)
    ensures
        r@ == lower_part(crate::domain::preview::opt_view(p)),
{
    match p {
        Some(v) => to_ascii_lowercase(v.as_str()),
        None => String::new(),
    }
}

pub fn kind_by_path(is_dir: bool, is_file: bool, path: &str) -> (r: Option<EntryKind>)
    ensures
        r == kind_by_path_spec(is_dir, is_file, path@),
{
    if is_dir {
        return Some(EntryKind::Directory);
    }
    if !is_file {
        return Some(EntryKind::Unknown);
    }
    let name = lower_of(path_file_name(path));
    let ext = lower_of(path_extension(path));
    let names = vec![
        "dockerfile", "makefile", "justfile", ".env", ".gitignore", ".dockerignore",
        "nginx.conf", "requirements.txt", "gemfile", "rakefile", "brewfile", "cmakelists.txt",
        ".bashrc", ".zshrc", ".profile", ".bash_profile", ".bash_aliases", "powershell_profile.ps1",
    ];
    assert(views(names@) =~= code_file_names());
    if in_list(name.as_str(), &names) {
        return Some(EntryKind::Code);
    }
    if str_eq(name.as_str(), "readme.md") {
        return Some(EntryKind::Markdown);
    }
    if str_eq(name.as_str(), "readme.txt") {
        return Some(EntryKind::Text);
    }
    let e = ext.as_str();
    if str_eq(e, "md") || str_eq(e, "markdown") {
        return Some(EntryKind::Markdown);
    }
    let code = vec![
        "rs", "py", "js", "ts", "tsx", "jsx", "toml", "json", "yaml", "yml", "sh",
        "zsh", "bash", "fish", "go", "c", "cpp", "cc", "cxx", "h", "hh", "hpp",
        "hxx", "java", "css", "html", "sql", "lua", "vim", "xml", "nix", "proto",
        "properties", "cfg", "ini", "conf", "env", "php", "phtml", "rb", "ru",
        "gemspec", "ps1", "psm1", "psd1", "bat", "cmd", "swift", "kt", "kts", "cs",
        "m", "mm",
    ];
    assert(views(code@) =~= code_extensions());
    if in_list(e, &code) {
        return Some(EntryKind::Code);
    }
    if str_eq(e, "txt") || str_eq(e, "log") {
        return Some(EntryKind::Text);
    }
    let archives = vec!["zip", "tar", "gz", "tgz", "7z"];
    assert(views(archives@) =~= archive_extensions());
    if in_list(e, &archives) {
        return Some(EntryKind::Archive);
    }
    if str_eq(e, "pdf") {
        return Some(EntryKind::Pdf);
    }
    let images = vec!["png", "jpg", "jpeg", "gif", "bmp", "webp", "svg", "ico", "tif", "tiff"];
    assert(views(images@) =~= image_extensions());
    if in_list(e, &images) {
        return Some(EntryKind::Image);
    }
    None
}

/// Interpreters a shebang line may name for the file to count as code.
pub open spec fn shebang_interpreters() -> Seq<Seq<char>> {
    seq!["sh"@, "bash"@, "zsh"@, "fish"@, "python"@, "ruby"@, "php"@, "pwsh"@, "powershell"@]
}

/// Whether a first line, trimmed, is a `#!` line that mentions a known interpreter.
pub open spec fn is_script_shebang(first_line: Seq<char>) -> bool {
    let t = trim_ws(first_line);
    starts_with(t, "#!"@) && exists|i: int| 0 <= i < shebang_interpreters().len() && contains_seq(t, #[trigger] shebang_interpreters()[i])
}

/// Whether a file's first line marks it as a script.
pub fn has_script_shebang(first_line: &str) -> (r: bool)
    ensures
        r == is_script_shebang(first_line@),
{
    let t = trim(first_line);
    if !str_starts_with(t.as_str(), "#!") {
        return false;
    }
    let needles = vec!["sh", "bash", "zsh", "fish", "python", "ruby", "php", "pwsh", "powershell"];
    assert(views(needles@) =~= shebang_interpreters());
    let mut i: usize = 0;
    while i < needles.len()
        invariant
            i <= needles.len(),
            views(needles@) == shebang_interpreters(),
            t@ == trim_ws(first_line@),
            starts_with(t@, "#!"@),
            forall|j: int| 0 <= j < i ==> !contains_seq(t@, #[trigger] shebang_interpreters()[j]),
        decreases needles.len() - i,
    {
        if str_contains(t.as_str(), needles[i]) {
            assert(contains_seq(t@, shebang_interpreters()[i as int]));
            return true;
        }
        i = i + 1;
    }
    false
}

/// Printable ASCII or ASCII whitespace.
pub open spec fn is_text_byte(b: u8) -> bool {
    (0x21 <= b <= 0x7e) || b == 0x20 || b == 0x09 || b == 0x0a || b == 0x0c || b == 0x0d
}

/// Whether the first 2048 bytes of a file look like plain ASCII text.
pub open spec fn is_text_sample_spec(bytes: Seq<u8>) -> bool {
    forall|i: int| 0 <= i < bytes.len() && i < 2048 ==> is_text_byte(#[trigger] bytes[i])
}

pub fn is_text_sample(bytes: &Vec<u8>) -> (r: bool)
    ensures
        r == is_text_sample_spec(bytes@),
{
    let n = if bytes.len() < 2048 { bytes.len() } else { 2048 };
    let mut i: usize = 0;
    while i < n
        invariant
            i <= n <= bytes.len(),
            n <= 2048,
            n == bytes.len() || n == 2048,
            forall|j: int| 0 <= j < i ==> is_text_byte(#[trigger] bytes@[j]),
        decreases n - i,
    {
        let b = bytes[i];
        if !((0x21 <= b && b <= 0x7e) || b == 0x20 || b == 0x09 || b == 0x0a || b == 0x0c || b == 0x0d) {
            return false;
        }
        i = i + 1;
    }
    true
}

/// The kind a file without a telling name gets from its content: a script shebang makes it
/// code, a text sample text, anything else (or an unreadable file) binary.
pub open spec fn kind_by_content_spec(first_line: Seq<char>, sample: Option<Seq<u8>>) -> EntryKind {
    if is_script_shebang(first_line) {
        EntryKind::Code
    } else {
        match sample {
            Some(b) => if is_text_sample_spec(b) { EntryKind::Text } else { EntryKind::Binary },
            None => EntryKind::Binary,
        }
    }
}

pub fn kind_by_content(first_line: &str, sample: Option<&Vec<u8>>) -> (r: EntryKind)
    ensures
        r == kind_by_content_spec(first_line@, match sample { Some(b) => Some(b@), None => None }),
{
    if has_script_shebang(first_line) {
        EntryKind::Code
    } else {
        match sample {
            Some(b) => if is_text_sample(b) { EntryKind::Text } else { EntryKind::Binary },
            None => EntryKind::Binary,
        }
    }
}

/// The entries of a listing in display order: directories first, then by lower-cased name,
/// equal keys keeping their order.
pub fn sort_listing(entries: Vec<EntryItem>) -> (r: Vec<EntryItem>)
    ensures
        sorted_for(entries@, r@, SortMode::Name),
{
    sort_items(&entries, SortMode::Name)
}


/// `s` without leading `#` and space characters.
pub open spec fn skip_heading_marks(s: Seq<char>) -> Seq<char>
    decreases s.len(),
{
    if s.len() > 0 && (s[0] == '#' || s[0] == ' ') {
        skip_heading_marks(s.drop_first())
    } else {
        s
    }
}

pub open spec fn is_quote(c: char) -> bool {
    c == '"' || c == '\''
}

pub open spec fn trim_start_quotes(s: Seq<char>) -> Seq<char>
    decreases s.len(),
{
    if s.len() > 0 && is_quote(s[0]) {
        trim_start_quotes(s.drop_first())
    } else {
        s
    }
}

pub open spec fn trim_end_quotes(s: Seq<char>) -> Seq<char>
    decreases s.len(),
{
    if s.len() > 0 && is_quote(s.last()) {
        trim_end_quotes(s.drop_last())
    } else {
        s
    }
}

/// The summary a project document's first line gives: the line without surrounding
/// whitespace and leading `#` and spaces, cut to 48 characters; none when nothing is left.
pub open spec fn doc_summary_spec(line: Seq<char>) -> Option<Seq<char>> {
    let l = skip_heading_marks(trim_ws(line));
    if l.len() > 0 {
        Some(truncate_spec(l, 48))
    } else {
        None
    }
}

pub fn doc_summary(line: &str) -> (r: Option<String>)
    ensures
        crate::domain::preview::opt_view(r) == doc_summary_spec(line@),
{
    let t = trim(line);
    let mut v = chars_of(t.as_str());
    while v.len() > 0 && (v[0] == '#' || v[0] == ' ')
        invariant
            skip_heading_marks(v@) == skip_heading_marks(trim_ws(line@)),
        decreases v.len(),
    {
        let ghost before = v@;
        v = slice_chars(&v, 1, v.len());
        assert(v@ =~= before.drop_first());
    }
    if v.len() == 0 {
        return None;
    }
    let l = string_from(&v);
    Some(truncate_chars(l.as_str(), 48))
}

/// What follows the first `c` in `s`, if `s` has one.
pub open spec fn after_first(s: Seq<char>, c: char) -> Option<Seq<char>>
    decreases s.len(),
{
    if s.len() == 0 {
        None
    } else if s[0] == c {
        Some(s.drop_first())
    } else {
        after_first(s.drop_first(), c)
    }
}

/// What comes before the first `c` in `s` (all of `s` when it has none).
pub open spec fn before_first(s: Seq<char>, c: char) -> Seq<char>
    decreases s.len(),
{
    if s.len() == 0 {
        s
    } else if s[0] == c {
        Seq::empty()
    } else {
        seq![s[0]] + before_first(s.drop_first(), c)
    }
}

/// The second `c`-separated field of `s` (`s.split(c).nth(1)`).
pub open spec fn second_field(s: Seq<char>, c: char) -> Option<Seq<char>> {
    match after_first(s, c) {
        Some(rest) => Some(before_first(rest, c)),
        None => None,
    }
}

pub(crate) proof fn lemma_first_at(s: Seq<char>, c: char, k: int)
    requires
        0 <= k <= s.len(),
        forall|j: int| 0 <= j < k ==> s[j] != c,
    ensures
        k < s.len() && s[k] == c ==> after_first(s, c) == Some(s.skip(k + 1)) && before_first(s, c) == s.take(k),
        k == s.len() ==> after_first(s, c) is None && before_first(s, c) == s,
    decreases k,
{
    if k > 0 {
        lemma_first_at(s.drop_first(), c, k - 1);
        if k < s.len() {
            assert(s.drop_first().skip(k) =~= s.skip(k + 1));
        }
        assert(seq![s[0]] + s.drop_first().take(k - 1) =~= s.take(k));
        assert(seq![s[0]] + s.drop_first() =~= s);
    } else {
        assert(s.take(0) =~= Seq::<char>::empty());
        if s.len() > 0 {
            assert(s.skip(1) =~= s.drop_first());
        }
    }
}

/// The position of the first `c` in `s`, or its length.
pub(crate) fn find_char(s: &Vec<char>, c: char) -> (k: usize)
    ensures
        k <= s.len(),
        forall|j: int| 0 <= j < k ==> s@[j] != c,
        k < s.len() ==> s@[k as int] == c,
{
    let mut k: usize = 0;
    while k < s.len() && s[k] != c
        invariant
            k <= s.len(),
            forall|j: int| 0 <= j < k ==> s@[j] != c,
        decreases s.len() - k,
    {
        k = k + 1;
    }
    k
}

fn second_field_of(s: &Vec<char>, c: char) -> (r: Option<Vec<char>>)
    ensures
        match r {
            Some(v) => second_field(s@, c) == Some(v@),
            None => second_field(s@, c) is None,
        },
{
    let k = find_char(s, c);
    proof {
        lemma_first_at(s@, c, k as int);
    }
    if k == s.len() {
        return None;
    }
    let rest = slice_chars(s, k + 1, s.len());
    assert(rest@ =~= s@.skip(k + 1));
    let k2 = find_char(&rest, c);
    proof {
        lemma_first_at(rest@, c, k2 as int);
    }
    let field = slice_chars(&rest, 0, k2);
    assert(field@ =~= rest@.take(k2 as int));
    Some(field)
}

/// The summary in the first 20 lines of a `Cargo.toml`: the first `description` line with an
/// `=`, its value trimmed of whitespace and quotes, cut to 48 characters.
pub open spec fn cargo_description_from(ls: Seq<Seq<char>>, i: int) -> Option<Seq<char>>
    decreases ls.len() - i,
{
    if i < 0 || i >= ls.len() || i >= 20 {
        None
    } else if starts_with(ls[i], "description"@) && second_field(ls[i], '=') is Some {
        Some(truncate_spec(trim_end_quotes(trim_start_quotes(trim_ws(second_field(ls[i], '=')->0))), 48))
    } else {
        cargo_description_from(ls, i + 1)
    }
}

fn strip_quotes(v: &Vec<char>) -> (r: Vec<char>)
    ensures
        r@ == trim_end_quotes(trim_start_quotes(v@)),
{
    let mut lo: usize = 0;
    assert(v@.skip(0) =~= v@);
    while lo < v.len() && (v[lo] == '"' || v[lo] == '\'')
        invariant
            lo <= v.len(),
            trim_start_quotes(v@) == trim_start_quotes(v@.skip(lo as int)),
        decreases v.len() - lo,
    {
        assert(v@.skip(lo as int).drop_first() =~= v@.skip(lo + 1));
        lo = lo + 1;
    }
    assert(v@.skip(0) =~= v@);
    let mut w = slice_chars(v, lo, v.len());
    assert(w@ =~= v@.skip(lo as int));
    while w.len() > 0 && (w[w.len() - 1] == '"' || w[w.len() - 1] == '\'')
        invariant
            trim_end_quotes(w@) == trim_end_quotes(trim_start_quotes(v@)),
        decreases w.len(),
    {
        let ghost before = w@;
        w.pop();
        assert(w@ =~= before.drop_last());
    }
    w
}

pub fn cargo_description(lines: &Vec<String>) -> (r: Option<String>)
    ensures
        crate::domain::preview::opt_view(r) == cargo_description_from(views(lines@), 0),
{
    let mut i: usize = 0;
    while i < lines.len() && i < 20
        invariant
            i <= lines.len(),
            cargo_description_from(views(lines@), 0) == cargo_description_from(views(lines@), i as int),
        decreases lines.len() - i,
    {
        let line = chars_of(lines[i].as_str());
        if str_starts_with(lines[i].as_str(), "description") {
            match second_field_of(&line, '=') {
                Some(value) => {
                    let vs = string_from(&value);
                    let t = trim(vs.as_str());
                    let tc = chars_of(t.as_str());
                    let q = strip_quotes(&tc);
                    let qs = string_from(&q);
                    return Some(truncate_chars(qs.as_str(), 48));
                },
                None => {},
            }
        }
        i = i + 1;
    }
    None
}

} // verus!
