use vstd::prelude::*;

verus! {

/// Lower-cases an ASCII letter and leaves every other character alone.
pub open spec fn ascii_lower(c: char) -> char {
    if 'A' <= c && c <= 'Z' {
        ((c as u8) + 32) as char
    } else {
        c
    }
}

/// Whether two character sequences are equal up to ASCII case.
pub open spec fn same_ignoring_case(a: Seq<char>, b: Seq<char>) -> bool {
    &&& a.len() == b.len()
    &&& forall|i: int| 0 <= i < a.len() ==> ascii_lower(#[trigger] a[i]) == ascii_lower(b[i])
}

/// The compilers a manifest can name.
#[derive(Clone, Copy, Debug, PartialEq, Eq, Structural)]
pub enum Toolchain {
    /// GNU's compiler, the one that builds are run with.
    Gcc,
    /// Recognised, but reserved: no build is run with it yet.
    Clang,
    /// Any identifier that names no known compiler.
    Unknown,
}

pub open spec fn gcc_id() -> Seq<char> {
    seq!['g', 'c', 'c']
}

pub open spec fn clang_id() -> Seq<char> {
    seq!['c', 'l', 'a', 'n', 'g']
}

/// The toolchain that an identifier names, regardless of ASCII case.
pub open spec fn toolchain_of(id: Seq<char>) -> Toolchain {
    if same_ignoring_case(id, gcc_id()) {
        Toolchain::Gcc
    } else if same_ignoring_case(id, clang_id()) {
        Toolchain::Clang
    } else {
        Toolchain::Unknown
    }
}

fn lower_char(c: char) -> (r: char)
    ensures
        r == ascii_lower(c),
{
    if 'A' <= c && c <= 'Z' {
        ((c as u8) + 32) as char
    } else {
        c
    }
}

fn equal_ignoring_case(a: &str, b: &str) -> (r: bool)
    ensures
        r == same_ignoring_case(a@, b@),
{
    let n = a.unicode_len();
    if n != b.unicode_len() {
        return false;
    }
    let mut i: usize = 0;
    while i < n
        invariant
            n == a@.len(),
            n == b@.len(),
            i <= n,
            forall|j: int| 0 <= j < i ==> ascii_lower(#[trigger] a@[j]) == ascii_lower(b@[j]),
        decreases n - i,
    {
        if lower_char(a.get_char(i)) != lower_char(b.get_char(i)) {
            return false;
        }
        i = i + 1;
    }
    true
}

/// Whether two strings hold the same characters.
pub fn equal_text(a: &str, b: &str) -> (r: bool)
    ensures
        r == (a@ == b@),
{
    let n = a.unicode_len();
    if n != b.unicode_len() {
        return false;
    }
    let mut i: usize = 0;
    while i < n
        invariant
            n == a@.len(),
            n == b@.len(),
            i <= n,
            forall|j: int| 0 <= j < i ==> a@[j] == #[trigger] b@[j],
        decreases n - i,
    {
        if a.get_char(i) != b.get_char(i) {
            return false;
        }
        i = i + 1;
    }
    assert(a@ =~= b@);
    true
}

impl Toolchain {
    /// Resolves a manifest's compiler identifier, ignoring ASCII case.
    pub fn resolve(id: &str) -> (r: Toolchain)
        ensures
            r == toolchain_of(id@),
    {
        proof {
            reveal_strlit("gcc");
            reveal_strlit("clang");
        }
        if equal_ignoring_case(id, "gcc") {
            Toolchain::Gcc
        } else if equal_ignoring_case(id, "clang") {
            Toolchain::Clang
        } else {
            Toolchain::Unknown
        }
    }
}


proof fn same_ignoring_case_chain(a: Seq<char>, b: Seq<char>, c: Seq<char>)
    requires
        same_ignoring_case(a, b),
    ensures
        same_ignoring_case(a, c) == same_ignoring_case(b, c),
{
    if same_ignoring_case(a, c) {
        assert forall|i: int| 0 <= i < b.len() implies ascii_lower(#[trigger] b[i]) == ascii_lower(
            c[i],
        ) by {
            assert(ascii_lower(a[i]) == ascii_lower(b[i]));
            assert(ascii_lower(a[i]) == ascii_lower(c[i]));
        }
    }
    if same_ignoring_case(b, c) {
        assert forall|i: int| 0 <= i < a.len() implies ascii_lower(#[trigger] a[i]) == ascii_lower(
            c[i],
        ) by {
            assert(ascii_lower(a[i]) == ascii_lower(b[i]));
            assert(ascii_lower(b[i]) == ascii_lower(c[i]));
        }
    }
}

/// Identifiers that differ only in ASCII case name the same toolchain.
pub proof fn resolution_ignores_case(a: Seq<char>, b: Seq<char>)
    requires
        same_ignoring_case(a, b),
    ensures
        toolchain_of(a) == toolchain_of(b),
{
    same_ignoring_case_chain(a, b, gcc_id());
    same_ignoring_case_chain(a, b, clang_id());
}

} // verus!
