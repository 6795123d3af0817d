use lsz::infra::lscolors::LsColors;

#[test]
fn ls_colors_defaults_and_patterns() {
    let c = LsColors::parse("di=01;35:*.rs=00;33:*LOG=31:Makefile=32:garbage:di=01;34");
    assert_eq!(c.default_dir, "\x1b[01;34m");
    assert_eq!(c.default_file, "\x1b[0m");
    assert_eq!(c.for_path("x", true, false, false), "\x1b[01;34m");
    assert_eq!(c.for_path("x", false, true, false), "\x1b[01;36m");
    assert_eq!(c.for_path("x", false, false, true), "\x1b[01;32m");
    assert_eq!(c.for_path("main.RS", false, false, false), "\x1b[00;33m");
    assert_eq!(c.for_path("build.log", false, false, false), "\x1b[31m");
    assert_eq!(c.for_path("makefile", false, false, false), "\x1b[32m");
    assert_eq!(c.for_path("notes.txt", false, false, false), "\x1b[0m");
    assert_eq!(c.codes.len(), 3);
}

#[test]
fn repeated_pattern_keeps_one_entry() {
    let c = LsColors::parse("*.rs=1:*.rs=2");
    assert_eq!(c.codes, vec![("*.rs".to_string(), "\x1b[2m".to_string())]);
}
