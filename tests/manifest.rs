use cedar::error::BuildError;
use cedar::manifest::Manifest;

const DEMO: &str = "[meta]\nname = \"demo\"\nversion = \"0.1.0\"\n\n[build]\ncompiler = \"gcc\"\ncflags = [\"-Wall\", \"-O2\"]\n";

#[test]
fn parses_complete_manifest() {
    let m = Manifest::parse(DEMO).unwrap();
    assert_eq!(m.meta.name, "demo");
    assert_eq!(m.meta.version, "0.1.0");
    assert_eq!(m.build.compiler, "gcc");
    assert_eq!(m.build.cflags, vec!["-Wall".to_string(), "-O2".to_string()]);
}

#[test]
fn empty_cflags_array() {
    let m = Manifest::parse("[meta]\nname = \"demo\"\n[build]\ncompiler = \"gcc\"\ncflags = []\n").unwrap();
    assert!(m.build.cflags.is_empty());
    assert_eq!(m.meta.version, "");
}

#[test]
fn blanks_comments_and_crlf() {
    let text = "# project\r\n  [meta]  \r\n\tname   =   \"x\"  \r\n[build]\r\ncompiler=\"GCC\"\r\ncflags = [ \"-g\" , \"-Wl,-rpath\", ]\r\n";
    let m = Manifest::parse(text).unwrap();
    assert_eq!(m.meta.name, "x");
    assert_eq!(m.build.compiler, "GCC");
    assert_eq!(m.build.cflags, vec!["-g".to_string(), "-Wl,-rpath".to_string()]);
}

#[test]
fn later_assignment_wins_and_other_tables_ignored() {
    let text = "[meta]\nname = \"a\"\nname = \"b\"\n[extra]\nname = \"c\"\ncompiler = 5\n[build]\ncompiler = \"gcc\"\n";
    let m = Manifest::parse(text).unwrap();
    assert_eq!(m.meta.name, "b");
    assert_eq!(m.build.compiler, "gcc");
}

#[test]
fn missing_name_is_invalid() {
    let r = Manifest::parse("[meta]\nversion = \"1\"\n[build]\ncompiler = \"gcc\"\n");
    assert!(matches!(r, Err(BuildError::InvalidManifest)));
}

#[test]
fn empty_name_is_invalid() {
    let r = Manifest::parse("[meta]\nname = \"\"\n[build]\ncompiler = \"gcc\"\n");
    assert!(matches!(r, Err(BuildError::InvalidManifest)));
}

#[test]
fn missing_compiler_is_invalid() {
    let r = Manifest::parse("[meta]\nname = \"demo\"\n[build]\ncflags = []\n");
    assert!(matches!(r, Err(BuildError::InvalidManifest)));
}

#[test]
fn compiler_outside_build_table_is_missing() {
    let r = Manifest::parse("[meta]\nname = \"demo\"\ncompiler = \"gcc\"\n");
    assert!(matches!(r, Err(BuildError::InvalidManifest)));
}

#[test]
fn non_string_cflags_entry_is_invalid() {
    let r = Manifest::parse("[meta]\nname = \"demo\"\n[build]\ncompiler = \"gcc\"\ncflags = [\"-Wall\", 3]\n");
    assert!(matches!(r, Err(BuildError::InvalidManifest)));
}

#[test]
fn cflags_as_string_is_invalid() {
    let r = Manifest::parse("[meta]\nname = \"demo\"\n[build]\ncompiler = \"gcc\"\ncflags = \"-Wall\"\n");
    assert!(matches!(r, Err(BuildError::InvalidManifest)));
}

#[test]
fn non_string_name_is_invalid() {
    let r = Manifest::parse("[meta]\nname = 7\n[build]\ncompiler = \"gcc\"\n");
    assert!(matches!(r, Err(BuildError::InvalidManifest)));
}

#[test]
fn malformed_lines_are_invalid() {
    let base = "[meta]\nname = \"demo\"\n[build]\ncompiler = \"gcc\"\n";
    for bad in ["just words", "[meta", "= \"x\"", "name = \"a\nb\""] {
        let text = format!("{}{}\n", base, bad);
        assert!(matches!(Manifest::parse(&text), Err(BuildError::InvalidManifest)), "{}", bad);
    }
}

#[test]
fn empty_text_is_invalid() {
    assert!(matches!(Manifest::parse(""), Err(BuildError::InvalidManifest)));
}

#[test]
fn blanks_inside_table_headers() {
    let m = Manifest::parse("[ meta ]\nname = \"demo\"\n[\tbuild ]\ncompiler = \"gcc\"\n").unwrap();
    assert_eq!(m.meta.name, "demo");
    assert_eq!(m.build.compiler, "gcc");
}

#[test]
fn unquoted_array_item_is_invalid() {
    let r = Manifest::parse("[meta]\nname = \"demo\"\n[build]\ncompiler = \"gcc\"\ncflags = [-Wall]\n");
    assert!(matches!(r, Err(BuildError::InvalidManifest)));
    let r = Manifest::parse("[meta]\nname = \"demo\"\n[build]\ncompiler = \"gcc\"\ncflags = [\"-g\" \"-O2\"]\n");
    assert!(matches!(r, Err(BuildError::InvalidManifest)));
}
