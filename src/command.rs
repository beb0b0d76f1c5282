use vstd::prelude::*;
use crate::error::BuildError;
use crate::manifest::views;
use crate::toolchain::{Toolchain, toolchain_of};

verus! {

/// A resolved compiler call: the program to run and its arguments in order.
pub struct Invocation {
    pub program: String,
    pub args: Vec<String>,
}

pub open spec fn gcc_program() -> Seq<char> {
    seq!['g', 'c', 'c']
}

pub open spec fn output_flag() -> Seq<char> {
    seq!['-', 'o']
}

/// The compiler's arguments: the source files, then the header files, then
/// the flags, then `-o` and the output path.
pub open spec fn compiler_args(
    src: Seq<Seq<char>>,
    headers: Seq<Seq<char>>,
    cflags: Seq<Seq<char>>,
    output: Seq<char>,
) -> Seq<Seq<char>> {
    src + headers + cflags + seq![output_flag(), output]
}

/// Appends copies of `src`'s strings to `dst`.
fn append_copies(dst: &mut Vec<String>, src: &Vec<String>)
    ensures
        views(final(dst)@) == views(old(dst)@) + views(src@),
{
    let ghost start = views(dst@);
    let mut i: usize = 0;
    while i < src.len()
        invariant
            i <= src@.len(),
            views(dst@) == start + views(src@.subrange(0, i as int)),
        decreases src@.len() - i,
    {
        let ghost before = dst@;
        dst.push(src[i].clone());
        proof {
            assert(views(dst@) =~= views(before).push(src@[i as int]@));
            assert(views(src@.subrange(0, i + 1)) =~= views(src@.subrange(0, i as int)).push(
                src@[i as int]@,
            ));
        }
        i = i + 1;
    }
    assert(src@.subrange(0, src@.len() as int) =~= src@);
}

/// Assembles the compiler call for the toolchain that `compiler` names.
/// Only GCC runs builds: a reserved or unknown toolchain fails with
/// `UnsupportedCompiler`, which carries the toolchain that was named.
pub fn assemble(
    compiler: &str,
    src: &Vec<String>,
    headers: &Vec<String>,
    cflags: &Vec<String>,
    output: &str,
) -> (r: Result<Invocation, BuildError>)
    ensures
        match toolchain_of(compiler@) {
            Toolchain::Gcc => r matches Ok(inv) && inv.program@ == gcc_program() && views(inv.args@)
                == compiler_args(views(src@), views(headers@), views(cflags@), output@),
            t => r matches Err(BuildError::UnsupportedCompiler(u)) && u == t,
        },
{
    let t = Toolchain::resolve(compiler);
    match t {
        Toolchain::Gcc => {},
        _ => {
            return Err(BuildError::UnsupportedCompiler(t));
        },
    }
    let mut args: Vec<String> = Vec::new();
    append_copies(&mut args, src);
    append_copies(&mut args, headers);
    append_copies(&mut args, cflags);
    let ghost before = args@;
    proof {
        reveal_strlit("-o");
        reveal_strlit("gcc");
        assert("-o"@ =~= output_flag());
        assert("gcc"@ =~= gcc_program());
    }
    args.push("-o".to_owned());
    args.push(output.to_owned());
    assert(views(args@) =~= views(before) + seq![output_flag(), output@]);
    Ok(Invocation { program: "gcc".to_owned(), args })
}

/// The compiler's arguments start with the source files, then the header
/// files, each group in its order; then come the flags, in their order; they
/// end with `-o` and the output path.
pub proof fn argument_layout(
    src: Seq<Seq<char>>,
    headers: Seq<Seq<char>>,
    cflags: Seq<Seq<char>>,
    output: Seq<char>,
)
    ensures
        ({
            let a = compiler_args(src, headers, cflags, output);
            let (s, h, c) = (src.len() as int, headers.len() as int, cflags.len() as int);
            &&& a.len() == s + h + c + 2
            &&& a.subrange(0, s) == src
            &&& a.subrange(s, s + h) == headers
            &&& a.subrange(s + h, s + h + c) == cflags
            &&& a[s + h + c] == output_flag()
            &&& a[s + h + c + 1] == output
        }),
{
    let a = compiler_args(src, headers, cflags, output);
    let (s, h, c) = (src.len() as int, headers.len() as int, cflags.len() as int);
    assert(a.subrange(0, s) =~= src);
    assert(a.subrange(s, s + h) =~= headers);
    assert(a.subrange(s + h, s + h + c) =~= cflags);
}

} // verus!
