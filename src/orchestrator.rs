use vstd::prelude::*;
use crate::command::{assemble, compiler_args, gcc_program, Invocation};
use crate::error::BuildError;
use crate::layout::{
    all_present, build_dir_id, include_id, join, joined, layout_paths, manifest_file_id,
    manifest_path, required_paths, src_id, validate_layout,
};
use crate::manifest::{manifest_of, views, Manifest};
use crate::toolchain::{Toolchain, toolchain_of};

verus! {

/// One entry of a directory listing.
pub struct DirEntry {
    pub path: String,
    pub is_dir: bool,
}

/// The paths of the entries of a listing that are files, in listing order.
pub open spec fn file_paths(entries: Seq<DirEntry>) -> Seq<Seq<char>>
    decreases entries.len(),
{
    if entries.len() == 0 {
        Seq::empty()
    } else {
        let rest = file_paths(entries.drop_last());
        if entries.last().is_dir {
            rest
        } else {
            rest.push(entries.last().path@)
        }
    }
}

/// The paths of the entries of a listing that are directories, in listing order.
pub open spec fn dir_paths(entries: Seq<DirEntry>) -> Seq<Seq<char>>
    decreases entries.len(),
{
    if entries.len() == 0 {
        Seq::empty()
    } else {
        let rest = dir_paths(entries.drop_last());
        if entries.last().is_dir {
            rest.push(entries.last().path@)
        } else {
            rest
        }
    }
}

/// Splits a listing into the paths of its files and of its subdirectories.
pub fn split_listing(entries: &Vec<DirEntry>) -> (r: (Vec<String>, Vec<String>))
    ensures
        views(r.0@) == file_paths(entries@),
        views(r.1@) == dir_paths(entries@),
{
    let mut files: Vec<String> = Vec::new();
    let mut dirs: Vec<String> = Vec::new();
    let mut i: usize = 0;
    proof {
        assert(views(files@) =~= Seq::<Seq<char>>::empty());
        assert(entries@.subrange(0, 0) =~= Seq::<DirEntry>::empty());
    }
    while i < entries.len()
        invariant
            i <= entries@.len(),
            views(files@) == file_paths(entries@.subrange(0, i as int)),
            views(dirs@) == dir_paths(entries@.subrange(0, i as int)),
        decreases entries@.len() - i,
    {
        let ghost (f0, d0) = (files@, dirs@);
        let e = &entries[i];
        if e.is_dir {
            dirs.push(e.path.clone());
        } else {
            files.push(e.path.clone());
        }
        proof {
            assert(entries@.subrange(0, i + 1).drop_last() =~= entries@.subrange(0, i as int));
            if e.is_dir {
                assert(views(dirs@) =~= views(d0).push(e.path@));
            } else {
                assert(views(files@) =~= views(f0).push(e.path@));
            }
        }
        i = i + 1;
    }
    assert(entries@.subrange(0, entries@.len() as int) =~= entries@);
    (files, dirs)
}

/// What the caller reports back after carrying out an action.
pub enum Event {
    /// Whether each path of a `CheckPaths` action exists, in order.
    Checked(Vec<bool>),
    /// The manifest's text, or the message of the read failure.
    ManifestRead(Result<String, String>),
    /// The listing of the directory of a `ListDir` action, or the message
    /// of the failure.
    Listed(Result<Vec<DirEntry>, String>),
    /// The compiler ran to completion, or could not be started (with the
    /// message).
    Compiled(Result<(), String>),
}

/// What the caller is asked to do next.
pub enum Action {
    /// Check whether each of these paths exists.
    CheckPaths(Vec<String>),
    /// Read the text of this file.
    ReadFile(String),
    /// List the entries of this directory.
    ListDir(String),
    /// Run this compiler call and wait for it to end.
    Spawn(Invocation),
    /// The build is over, with this result.
    Finish(Result<(), BuildError>),
}

/// The stages a build goes through, in order; any failure jumps to `Done`.
#[derive(Clone, Copy, Debug, PartialEq, Eq, Structural)]
pub enum Stage {
    LayoutCheck,
    ManifestLoad,
    Discovery,
    Compile,
    Done,
}

/// Whether an event answers the action that a build in the given stage
/// asked for.
pub open spec fn answers(stage: Stage, ev: Event) -> bool {
    match stage {
        Stage::LayoutCheck => ev is Checked,
        Stage::ManifestLoad => ev is ManifestRead,
        Stage::Discovery => ev is Listed,
        Stage::Compile => ev is Compiled,
        Stage::Done => false,
    }
}

/// The path the binary is written to: `<root>/build/<name>`.
pub open spec fn output_path(root: Seq<char>, name: Seq<char>) -> Seq<char> {
    joined(joined(root, build_dir_id()), name)
}

/// One build of one project root.
pub struct BuildRun {
    pub root: String,
    pub stage: Stage,
    /// The manifest, once read.
    pub manifest: Option<Manifest>,
    /// Directories found but not listed yet.
    pub pending: Vec<String>,
    /// Whether discovery has moved on from `src` to `include`.
    pub in_headers: bool,
    /// Files found under `src`.
    pub src_files: Vec<String>,
    /// Files found under `include`.
    pub header_files: Vec<String>,
}

/// A build's answer to the layout check: on to the manifest where all four
/// paths exist, else it ends with `InvalidDirectory`.
pub open spec fn after_check(pre: BuildRun, post: BuildRun, found: Seq<bool>, r: Action) -> bool {
    &&& post.root == pre.root
    &&& if all_present(found) {
        &&& post.stage == Stage::ManifestLoad
        &&& r matches Action::ReadFile(p) && p@ == joined(pre.root@, manifest_file_id())
    } else {
        &&& post.stage == Stage::Done
        &&& r matches Action::Finish(Err(BuildError::InvalidDirectory))
    }
}

/// A build's answer to the manifest read: a read failure ends it with
/// `IoError`, an invalid text with `InvalidManifest`; else the manifest is
/// kept and discovery starts at `src`.
pub open spec fn after_manifest(
    pre: BuildRun,
    post: BuildRun,
    res: Result<String, String>,
    r: Action,
) -> bool {
    &&& post.root == pre.root
    &&& match res {
        Err(m) => {
            &&& post.stage == Stage::Done
            &&& r matches Action::Finish(Err(BuildError::IoError(x))) && x@ == m@
        },
        Ok(t) => match manifest_of(t@) {
            None => {
                &&& post.stage == Stage::Done
                &&& r matches Action::Finish(Err(BuildError::InvalidManifest))
            },
            Some(mv) => {
                &&& post.stage == Stage::Discovery
                &&& post.manifest matches Some(m) && m@ == mv
                &&& post.pending@.len() == 0
                &&& !post.in_headers
                &&& post.src_files@.len() == 0
                &&& post.header_files@.len() == 0
                &&& r matches Action::ListDir(d) && d@ == joined(pre.root@, src_id())
            },
        },
    }
}

/// A build's answer to a directory listing: a failure ends it with
/// `IoError`. Else the listing's files join the group being discovered
/// (`src`, then `include`) and its subdirectories join the pending ones.
/// The next pending directory is listed; once none is left under `src`,
/// `include` is; once none is left under `include`, the compiler call is
/// assembled, or the build ends with `UnsupportedCompiler`.
pub open spec fn after_listing(
    pre: BuildRun,
    post: BuildRun,
    res: Result<Vec<DirEntry>, String>,
    r: Action,
) -> bool {
    &&& post.root == pre.root
    &&& post.manifest == pre.manifest
    &&& match res {
        Err(m) => {
            &&& post.stage == Stage::Done
            &&& r matches Action::Finish(Err(BuildError::IoError(x))) && x@ == m@
        },
        Ok(entries) => {
            let dirs = views(pre.pending@) + dir_paths(entries@);
            let src = if pre.in_headers {
                views(pre.src_files@)
            } else {
                views(pre.src_files@) + file_paths(entries@)
            };
            let headers = if pre.in_headers {
                views(pre.header_files@) + file_paths(entries@)
            } else {
                views(pre.header_files@)
            };
            &&& views(post.src_files@) == src
            &&& views(post.header_files@) == headers
            &&& if dirs.len() > 0 {
                &&& post.stage == Stage::Discovery
                &&& post.in_headers == pre.in_headers
                &&& views(post.pending@) == dirs.drop_last()
                &&& r matches Action::ListDir(d) && d@ == dirs.last()
            } else if !pre.in_headers {
                &&& post.stage == Stage::Discovery
                &&& post.in_headers
                &&& post.pending@.len() == 0
                &&& r matches Action::ListDir(d) && d@ == joined(pre.root@, include_id())
            } else {
                let m = pre.manifest->0;
                match toolchain_of(m.build.compiler@) {
                    Toolchain::Gcc => {
                        &&& post.stage == Stage::Compile
                        &&& r matches Action::Spawn(inv) && inv.program@ == gcc_program()
                            && views(inv.args@) == compiler_args(
                            src,
                            headers,
                            views(m.build.cflags@),
                            output_path(pre.root@, m.meta.name@),
                        )
                    },
                    t => {
                        &&& post.stage == Stage::Done
                        &&& r matches Action::Finish(Err(BuildError::UnsupportedCompiler(u)))
                            && u == t
                    },
                }
            }
        },
    }
}

/// A build's answer to the compiler's run: it ends, with
/// `ProcessSpawnFailure` where the compiler could not be started. The
/// compiler's own exit status is the caller's to show.
pub open spec fn after_compile(pre: BuildRun, post: BuildRun, res: Result<(), String>, r: Action) -> bool {
    &&& post.root == pre.root
    &&& post.stage == Stage::Done
    &&& match res {
        Err(m) => r matches Action::Finish(Err(BuildError::ProcessSpawnFailure(x))) && x@ == m@,
        Ok(_) => r matches Action::Finish(Ok(())),
    }
}

impl BuildRun {
    /// A manifest is held from discovery on.
    pub open spec fn wf(&self) -> bool {
        self.stage == Stage::Discovery ==> self.manifest is Some
    }

    /// Starts a build of the project at `root`: its layout is checked first.
    pub fn start(root: &str) -> (r: (BuildRun, Action))
        ensures
            r.0.wf(),
            r.0.root@ == root@,
            r.0.stage == Stage::LayoutCheck,
            r.1 matches Action::CheckPaths(p) && views(p@) == required_paths(root@),
    {
        let paths = layout_paths(root);
        let run = BuildRun {
            root: root.to_owned(),
            stage: Stage::LayoutCheck,
            manifest: None,
            pending: Vec::new(),
            in_headers: false,
            src_files: Vec::new(),
            header_files: Vec::new(),
        };
        (run, Action::CheckPaths(paths))
    }

    /// Where the binary goes, once the manifest has been read.
    pub fn binary_path(&self) -> (r: Option<String>)
        ensures
            match self.manifest {
                Some(m) => r matches Some(p) && p@ == output_path(self.root@, m.meta.name@),
                None => r is None,
            },
    {
        match &self.manifest {
            Some(m) => {
                proof {
                    reveal_strlit("build");
                    assert("build"@ =~= build_dir_id());
                }
                Some(join(join(self.root.as_str(), "build").as_str(), m.meta.name.as_str()))
            },
            None => None,
        }
    }

    /// Whether this build can take `ev`: it is well formed and `ev` answers
    /// the action it asked for last.
    pub fn accepts(&self, ev: &Event) -> (r: bool)
        ensures
            r == (self.wf() && answers(self.stage, *ev)),
    {
        if self.stage == Stage::Discovery && self.manifest.is_none() {
            return false;
        }
        match self.stage {
            Stage::LayoutCheck => matches!(ev, Event::Checked(_)),
            Stage::ManifestLoad => matches!(ev, Event::ManifestRead(_)),
            Stage::Discovery => matches!(ev, Event::Listed(_)),
            Stage::Compile => matches!(ev, Event::Compiled(_)),
            Stage::Done => false,
        }
    }

    /// Ends the build with an error.
    fn fail(&mut self, e: BuildError) -> (r: Action)
        ensures
            *final(self) == (BuildRun { stage: Stage::Done, ..*old(self) }),
            r matches Action::Finish(Err(x)) && x == e,
    {
        self.stage = Stage::Done;
        Action::Finish(Err(e))
    }

    fn on_check(&mut self, found: Vec<bool>) -> (r: Action)
        ensures
            after_check(*old(self), *final(self), found@, r),
    {
        match validate_layout(&found) {
            Ok(()) => {
                self.stage = Stage::ManifestLoad;
                Action::ReadFile(manifest_path(self.root.as_str()))
            },
            Err(e) => self.fail(e),
        }
    }

    fn on_manifest(&mut self, res: Result<String, String>) -> (r: Action)
        ensures
            after_manifest(*old(self), *final(self), res, r),
    {
        match res {
            Err(m) => self.fail(BuildError::IoError(m)),
            Ok(t) => match Manifest::parse(t.as_str()) {
                Err(e) => self.fail(e),
                Ok(m) => {
                    proof {
                        reveal_strlit("src");
                        assert("src"@ =~= src_id());
                    }
                    self.manifest = Some(m);
                    self.stage = Stage::Discovery;
                    self.pending = Vec::new();
                    self.in_headers = false;
                    self.src_files = Vec::new();
                    self.header_files = Vec::new();
                    Action::ListDir(join(self.root.as_str(), "src"))
                },
            },
        }
    }

    fn on_listing(&mut self, res: Result<Vec<DirEntry>, String>) -> (r: Action)
        requires
            old(self).stage == Stage::Discovery,
            old(self).manifest is Some,
        ensures
            after_listing(*old(self), *final(self), res, r),
    {
        let entries = match res {
            Err(m) => {
                return self.fail(BuildError::IoError(m));
            },
            Ok(entries) => entries,
        };
        let (files, dirs) = split_listing(&entries);
        if self.in_headers {
            append_all(&mut self.header_files, files);
        } else {
            append_all(&mut self.src_files, files);
        }
        append_all(&mut self.pending, dirs);
        let ghost p = self.pending@;
        match self.pending.pop() {
            Some(d) => {
                proof {
                    assert(views(self.pending@) =~= views(p).drop_last());
                }
                return Action::ListDir(d);
            },
            None => {},
        }
        assert(views(self.pending@).len() == 0);
        if !self.in_headers {
            proof {
                reveal_strlit("include");
                assert("include"@ =~= include_id());
            }
            self.in_headers = true;
            return Action::ListDir(join(self.root.as_str(), "include"));
        }
        let m = match &self.manifest {
            Some(m) => m,
            None => {
                return self.fail(BuildError::InvalidManifest);
            },
        };
        proof {
            reveal_strlit("build");
            assert("build"@ =~= build_dir_id());
        }
        let output = join(join(self.root.as_str(), "build").as_str(), m.meta.name.as_str());
        match assemble(
            m.build.compiler.as_str(),
            &self.src_files,
            &self.header_files,
            &m.build.cflags,
            output.as_str(),
        ) {
            Ok(inv) => {
                self.stage = Stage::Compile;
                Action::Spawn(inv)
            },
            Err(e) => self.fail(e),
        }
    }

    fn on_compile(&mut self, res: Result<(), String>) -> (r: Action)
        ensures
            after_compile(*old(self), *final(self), res, r),
    {
        self.stage = Stage::Done;
        match res {
            Err(m) => Action::Finish(Err(BuildError::ProcessSpawnFailure(m))),
            Ok(()) => Action::Finish(Ok(())),
        }
    }

    /// Takes the answer to the last action and returns the next action.
    pub fn advance(&mut self, ev: Event) -> (r: Action)
        requires
            old(self).wf(),
            answers(old(self).stage, ev),
        ensures
            final(self).wf(),
            match ev {
                Event::Checked(found) => after_check(*old(self), *final(self), found@, r),
                Event::ManifestRead(res) => after_manifest(*old(self), *final(self), res, r),
                Event::Listed(res) => after_listing(*old(self), *final(self), res, r),
                Event::Compiled(res) => after_compile(*old(self), *final(self), res, r),
            },
    {
        match ev {
            Event::Checked(found) => self.on_check(found),
            Event::ManifestRead(res) => self.on_manifest(res),
            Event::Listed(res) => self.on_listing(res),
            Event::Compiled(res) => self.on_compile(res),
        }
    }
}

/// Moves the strings of `src` to the end of `dst`.
fn append_all(dst: &mut Vec<String>, src: Vec<String>)
    ensures
        views(final(dst)@) == views(old(dst)@) + views(src@),
{
    let mut src = src;
    let ghost both = views(dst@) + views(src@);
    dst.append(&mut src);
    assert(views(dst@) =~= both);
}


/// A project root that lacks any one of the manifest, `src`, `include` or
/// `build` ends its build with `InvalidDirectory` at the layout check,
/// before the manifest is read, whatever the manifest would hold.
pub proof fn missing_path_fails(pre: BuildRun, post: BuildRun, found: Seq<bool>, i: int, r: Action)
    requires
        0 <= i < found.len(),
        !found[i],
        after_check(pre, post, found, r),
    ensures
        post.stage == Stage::Done,
        r matches Action::Finish(Err(BuildError::InvalidDirectory)),
{
}

/// The paths of the entries of a listing that are files.
pub open spec fn files_among(entries: Seq<DirEntry>) -> Seq<Seq<char>> {
    entries.filter(|e: DirEntry| !e.is_dir).map_values(|e: DirEntry| e.path@)
}

/// The paths of the entries of a listing that are directories.
pub open spec fn dirs_among(entries: Seq<DirEntry>) -> Seq<Seq<char>> {
    entries.filter(|e: DirEntry| e.is_dir).map_values(|e: DirEntry| e.path@)
}

/// A listing's file paths are exactly the paths of its entries that are no
/// directories, each once and in listing order; its directory paths are
/// those of the others.
pub proof fn listing_partition(entries: Seq<DirEntry>)
    ensures
        file_paths(entries) == files_among(entries),
        dir_paths(entries) == dirs_among(entries),
    decreases entries.len(),
{
    if entries.len() > 0 {
        let rest = entries.drop_last();
        listing_partition(rest);
        let fs = rest.filter(|e: DirEntry| !e.is_dir);
        let ds = rest.filter(|e: DirEntry| e.is_dir);
        let last = entries.last();
        assert(entries =~= rest.push(last));
        rest.lemma_filter_push(last, |e: DirEntry| !e.is_dir);
        rest.lemma_filter_push(last, |e: DirEntry| e.is_dir);
        if last.is_dir {
            assert(entries.filter(|e: DirEntry| !e.is_dir) == fs);
            assert(entries.filter(|e: DirEntry| e.is_dir) == ds.push(last));
        } else {
            assert(entries.filter(|e: DirEntry| !e.is_dir) == fs.push(last));
            assert(entries.filter(|e: DirEntry| e.is_dir) == ds);
        }
        assert(fs.push(entries.last()).map_values(|e: DirEntry| e.path@) =~= fs.map_values(
            |e: DirEntry| e.path@,
        ).push(entries.last().path@));
        assert(ds.push(entries.last()).map_values(|e: DirEntry| e.path@) =~= ds.map_values(
            |e: DirEntry| e.path@,
        ).push(entries.last().path@));
    } else {
        reveal(Seq::filter);
        assert(file_paths(entries) =~= files_among(entries));
        assert(dir_paths(entries) =~= dirs_among(entries));
    }
}

/// The file paths of a run of listings, one listing after another.
pub open spec fn files_of_listings(ls: Seq<Vec<DirEntry>>) -> Seq<Seq<char>>
    decreases ls.len(),
{
    if ls.len() == 0 {
        Seq::empty()
    } else {
        files_of_listings(ls.drop_last()) + file_paths(ls.last()@)
    }
}

/// The directory paths of a run of listings, one listing after another.
pub open spec fn dirs_of_listings(ls: Seq<Vec<DirEntry>>) -> Seq<Seq<char>>
    decreases ls.len(),
{
    if ls.len() == 0 {
        Seq::empty()
    } else {
        dirs_of_listings(ls.drop_last()) + dir_paths(ls.last()@)
    }
}

/// The directories that a run of actions asks to list, in order.
pub open spec fn dirs_asked(acts: Seq<Action>) -> Seq<Seq<char>>
    decreases acts.len(),
{
    if acts.len() == 0 {
        Seq::empty()
    } else {
        let rest = dirs_asked(acts.drop_last());
        match acts.last() {
            Action::ListDir(d) => rest.push(d@),
            _ => rest,
        }
    }
}

/// The files found so far in the group being discovered.
pub open spec fn group_files(r: BuildRun) -> Seq<Seq<char>> {
    if r.in_headers {
        views(r.header_files@)
    } else {
        views(r.src_files@)
    }
}

/// A listing answered during discovery, after which the same group is
/// still being discovered.
#[verifier::opaque]
pub open spec fn listing_step(pre: BuildRun, post: BuildRun, l: Vec<DirEntry>, a: Action) -> bool {
    &&& post.in_headers == pre.in_headers
    &&& post.stage == Stage::Discovery
    &&& after_listing(pre, post, Ok(l), a)
}

proof fn listing_effect(pre: BuildRun, post: BuildRun, l: Vec<DirEntry>, a: Action)
    requires
        listing_step(pre, post, l, a),
    ensures
        post.in_headers == pre.in_headers,
        group_files(post) == group_files(pre) + file_paths(l@),
        a matches Action::ListDir(d) && views(post.pending@).to_multiset().insert(d@)
            == views(pre.pending@).to_multiset().add(dir_paths(l@).to_multiset()),
{
    reveal(listing_step);
    let dirs = views(pre.pending@) + dir_paths(l@);
    assert(dirs =~= dirs.drop_last().push(dirs.last()));
    dirs.drop_last().to_multiset_ensures();
    vstd::seq_lib::lemma_multiset_commutative(views(pre.pending@), dir_paths(l@));
}

/// Discovery loses and repeats nothing. Across a run of listings answered
/// while one group (`src` or `include`) is being discovered, the files kept are
/// those held before followed by exactly the files of the listings; and
/// each subdirectory that a listing shows, like each directory pending
/// before, is either asked for once or still pending, with multiplicity.
/// Once nothing is pending, the directories asked for are exactly those
/// found, each once.
pub proof fn discovery_conserves(runs: Seq<BuildRun>, ls: Seq<Vec<DirEntry>>, acts: Seq<Action>)
    requires
        runs.len() == ls.len() + 1,
        acts.len() == ls.len(),
        forall|k: int|
            0 <= k < ls.len() ==> #[trigger] listing_step(runs[k], runs[k + 1], ls[k], acts[k]),
    ensures
        runs.last().in_headers == runs[0].in_headers,
        group_files(runs.last()) == group_files(runs[0]) + files_of_listings(ls),
        dirs_asked(acts).to_multiset().add(views(runs.last().pending@).to_multiset())
            == views(runs[0].pending@).to_multiset().add(dirs_of_listings(ls).to_multiset()),
    decreases ls.len(),
{
    if ls.len() == 0 {
        assert(group_files(runs[0]) + files_of_listings(ls) =~= group_files(runs[0]));
        dirs_asked(acts).to_multiset_ensures();
        dirs_of_listings(ls).to_multiset_ensures();
        assert(dirs_asked(acts).to_multiset() =~= vstd::multiset::Multiset::empty());
        assert(dirs_of_listings(ls).to_multiset() =~= vstd::multiset::Multiset::empty());
    } else {
        let n = ls.len() - 1;
        let runs0 = runs.drop_last();
        let ls0 = ls.drop_last();
        let acts0 = acts.drop_last();
        assert forall|k: int| 0 <= k < ls0.len() implies #[trigger] listing_step(
            runs0[k],
            runs0[k + 1],
            ls0[k],
            acts0[k],
        ) by {
            assert(listing_step(runs[k], runs[k + 1], ls[k], acts[k]));
        }
        discovery_conserves(runs0, ls0, acts0);
        assert(listing_step(runs[n], runs[n + 1], ls[n], acts[n]));
        listing_effect(runs[n], runs[n + 1], ls[n], acts[n]);
        let pre = runs[n];
        let post = runs[n + 1];
        let d = acts[n]->ListDir_0@;
        assert(group_files(runs.last()) =~= group_files(runs[0]) + files_of_listings(ls));
        assert(dirs_asked(acts) == dirs_asked(acts0).push(d));
        dirs_asked(acts0).to_multiset_ensures();
        vstd::seq_lib::lemma_multiset_commutative(dirs_of_listings(ls0), dir_paths(ls[n]@));
        let a0 = dirs_asked(acts0).to_multiset();
        let p0 = views(runs[0].pending@).to_multiset();
        let d0 = dirs_of_listings(ls0).to_multiset();
        let dl = dir_paths(ls[n]@).to_multiset();
        let pp = views(pre.pending@).to_multiset();
        let qp = views(post.pending@).to_multiset();
        assert(a0.add(pp) == p0.add(d0));
        assert(qp.insert(d) == pp.add(dl));
        assert(dirs_asked(acts).to_multiset() == a0.insert(d));
        assert(dirs_of_listings(ls).to_multiset() == d0.add(dl));
        assert forall|x: Seq<char>| #[trigger] a0.insert(d).add(qp).count(x) == p0.add(
            d0.add(dl),
        ).count(x) by {
            broadcast use vstd::multiset::group_multiset_axioms;

            assert(a0.add(pp).count(x) == p0.add(d0).count(x));
            assert(qp.insert(d).count(x) == pp.add(dl).count(x));
        }
        assert(a0.insert(d).add(qp) =~= p0.add(d0.add(dl)));
    }
}

} // verus!
