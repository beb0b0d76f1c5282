use cedar::command::assemble;
use cedar::error::BuildError;
use cedar::toolchain::{equal_text, Toolchain};

fn strings(v: &[&str]) -> Vec<String> {
    v.iter().map(|s| s.to_string()).collect()
}

#[test]
fn gcc_in_any_case() {
    assert_eq!(Toolchain::resolve("gcc"), Toolchain::Gcc);
    assert_eq!(Toolchain::resolve("GCC"), Toolchain::Gcc);
    assert_eq!(Toolchain::resolve("gCc"), Toolchain::Gcc);
}

#[test]
fn clang_is_reserved_and_others_unknown() {
    assert_eq!(Toolchain::resolve("Clang"), Toolchain::Clang);
    assert_eq!(Toolchain::resolve("msvc"), Toolchain::Unknown);
    assert_eq!(Toolchain::resolve("gcc "), Toolchain::Unknown);
    assert_eq!(Toolchain::resolve(""), Toolchain::Unknown);
}

#[test]
fn equal_text_compares_exactly() {
    assert!(equal_text("run", "run"));
    assert!(!equal_text("run", "Run"));
    assert!(!equal_text("run", "runs"));
}

#[test]
fn command_order() {
    let inv = assemble(
        "gcc",
        &strings(&["src/main.c"]),
        &strings(&["include/a.h"]),
        &strings(&["-Wall", "-O2"]),
        "p/build/demo",
    )
    .unwrap();
    assert_eq!(inv.program, "gcc");
    assert_eq!(
        inv.args,
        strings(&["src/main.c", "include/a.h", "-Wall", "-O2", "-o", "p/build/demo"])
    );
}

#[test]
fn mixed_case_gcc_assembles() {
    let inv = assemble("GcC", &strings(&["a.c", "b.c"]), &vec![], &vec![], "out").unwrap();
    assert_eq!(inv.program, "gcc");
    assert_eq!(inv.args, strings(&["a.c", "b.c", "-o", "out"]));
}

#[test]
fn msvc_is_unsupported() {
    let r = assemble("msvc", &strings(&["a.c"]), &vec![], &vec![], "out");
    assert!(matches!(r, Err(BuildError::UnsupportedCompiler(Toolchain::Unknown))));
}

#[test]
fn clang_fails_distinctly() {
    let r = assemble("CLANG", &strings(&["a.c"]), &vec![], &vec![], "out");
    assert!(matches!(r, Err(BuildError::UnsupportedCompiler(Toolchain::Clang))));
}
