//! Directory trees: listing one breadth-first, and carrying its paths over
//! from the source root to the destination root.
//!
//! A tree is listed one directory at a time. [`DirWalk`] says which directory
//! is next and takes its entries; the caller does the reading.
//! [`plan_dir_transfer`] turns the finished listing into operations: all the
//! directories first, then for each directory its files and its links.

use vstd::prelude::*;
use vstd::string::*;
use crate::text::{
    concat, ends_with_char, from_chars, owned, replace_char, replaced, starts_with, to_chars, views,
};
use crate::transfer::{Direction, PathKind};

verus! {

/// One directory of a tree: its path, and the paths of the regular files and
/// of the symbolic links directly in it.
#[derive(Debug)]
pub struct DirFile {
    pub path: String,
    pub files: Vec<String>,
    pub symlinks: Vec<String>,
}

/// A `DirFile` as plain values.
pub ghost struct DirFileView {
    pub path: Seq<char>,
    pub files: Seq<Seq<char>>,
    pub symlinks: Seq<Seq<char>>,
}

impl View for DirFile {
    type V = DirFileView;

    open spec fn view(&self) -> DirFileView {
        DirFileView {
            path: self.path@,
            files: views(self.files@),
            symlinks: views(self.symlinks@),
        }
    }
}

/// A directory at `path` with nothing in it.
pub open spec fn empty_dir(path: Seq<char>) -> DirFileView {
    DirFileView { path, files: Seq::empty(), symlinks: Seq::empty() }
}

impl DirFile {
    /// A directory with no entries yet.
    pub fn new(path: String) -> (d: DirFile)
        ensures
            d@ == empty_dir(path@),
    {
        let d = DirFile { path, files: Vec::new(), symlinks: Vec::new() };
        assert(views(d.files@) =~= Seq::<Seq<char>>::empty());
        assert(views(d.symlinks@) =~= Seq::<Seq<char>>::empty());
        d
    }

    /// Adds a regular file, behind those already there.
    pub fn add_file(&mut self, file: String)
        ensures
            final(self)@ == (DirFileView { files: old(self)@.files.push(file@), ..old(self)@ }),
    {
        self.files.push(file);
        assert(views(self.files@) =~= views(old(self).files@).push(file@));
    }

    /// Adds a symbolic link, behind those already there.
    pub fn add_symlink(&mut self, symlink: String)
        ensures
            final(self)@ == (DirFileView {
                symlinks: old(self)@.symlinks.push(symlink@),
                ..old(self)@
            }),
    {
        self.symlinks.push(symlink);
        assert(views(self.symlinks@) =~= views(old(self).symlinks@).push(symlink@));
    }
}

/// One entry of a directory: its full path and what it is.
#[derive(Debug)]
pub struct DirEntry {
    pub path: String,
    pub kind: PathKind,
}

/// The views of a list of directories.
pub open spec fn dir_views(dirs: Seq<DirFile>) -> Seq<DirFileView> {
    Seq::new(dirs.len(), |i: int| dirs[i]@)
}

/// The paths of those entries that are of kind `kind`, in order.
pub open spec fn entry_paths(entries: Seq<DirEntry>, kind: PathKind) -> Seq<Seq<char>>
    decreases entries.len(),
{
    if entries.len() == 0 {
        Seq::empty()
    } else if entries.last().kind == kind {
        entry_paths(entries.drop_last(), kind).push(entries.last().path@)
    } else {
        entry_paths(entries.drop_last(), kind)
    }
}

/// An empty directory for each path.
pub open spec fn empty_dirs(paths: Seq<Seq<char>>) -> Seq<DirFileView> {
    Seq::new(paths.len(), |i: int| empty_dir(paths[i]))
}

/// The listing of a tree in progress: the directories still to be read, the
/// next one first, and those read already.
#[derive(Debug)]
pub struct DirWalk {
    queue: Vec<DirFile>,
    listed: Vec<DirFile>,
}

/// A `DirWalk` as plain values.
pub ghost struct DirWalkView {
    pub queue: Seq<DirFileView>,
    pub listed: Seq<DirFileView>,
}

impl View for DirWalk {
    type V = DirWalkView;

    closed spec fn view(&self) -> DirWalkView {
        DirWalkView { queue: dir_views(self.queue@), listed: dir_views(self.listed@) }
    }
}

impl DirWalk {
    /// A walk that has the root still to read.
    pub fn new(root: String) -> (w: DirWalk)
        ensures
            w@.queue == seq![empty_dir(root@)],
            w@.listed == Seq::<DirFileView>::empty(),
    {
        let mut queue: Vec<DirFile> = Vec::new();
        queue.push(DirFile::new(root));
        let w = DirWalk { queue, listed: Vec::new() };
        assert(dir_views(w.queue@) =~= seq![empty_dir(root@)]);
        assert(dir_views(w.listed@) =~= Seq::<DirFileView>::empty());
        w
    }

    /// The path of the directory to read next, or `None` when the whole tree
    /// has been read.
    pub fn current(&self) -> (r: Option<&str>)
        ensures
            match r {
                Some(path) => self@.queue.len() > 0 && path@ == self@.queue[0].path,
                None => self@.queue.len() == 0,
            },
    {
        if self.queue.len() == 0 {
            None
        } else {
            Some(self.queue[0].path.as_str())
        }
    }

    /// Takes the entries of the directory that was next. Its files and links
    /// are recorded with it, in the order given, and it joins the
    /// directories read. Each subdirectory joins the end of those still to be
    /// read, so that the tree is walked level by level. Entries that are
    /// neither are left out.
    pub fn on_entries(&mut self, entries: &Vec<DirEntry>)
        requires
            old(self)@.queue.len() > 0,
        ensures
            final(self)@.queue == old(self)@.queue.skip(1) + empty_dirs(
                entry_paths(entries@, PathKind::Directory),
            ),
            final(self)@.listed == old(self)@.listed.push(
                DirFileView {
                    path: old(self)@.queue[0].path,
                    files: old(self)@.queue[0].files + entry_paths(entries@, PathKind::File),
                    symlinks: old(self)@.queue[0].symlinks + entry_paths(
                        entries@,
                        PathKind::Symlink,
                    ),
                },
            ),
    {
        let ghost before = self@;
        let mut cur = self.queue.remove(0);
        assert(dir_views(self.queue@) =~= before.queue.skip(1));
        let ghost start = cur@;
        let mut i: usize = 0;
        while i < entries.len()
            invariant
                i <= entries.len(),
                start == before.queue[0],
                dir_views(self.listed@) == before.listed,
                dir_views(self.queue@) == before.queue.skip(1) + empty_dirs(
                    entry_paths(entries@.take(i as int), PathKind::Directory),
                ),
                cur@ == (DirFileView {
                    path: start.path,
                    files: start.files + entry_paths(entries@.take(i as int), PathKind::File),
                    symlinks: start.symlinks + entry_paths(
                        entries@.take(i as int),
                        PathKind::Symlink,
                    ),
                }),
            decreases entries.len() - i,
        {
            let entry = &entries[i];
            proof {
                let now = entries@.take(i + 1);
                assert(now.drop_last() =~= entries@.take(i as int));
                assert(now.last() == entries@[i as int]);
            }
            let ghost queue_before = dir_views(self.queue@);
            let ghost dirs_before = entry_paths(entries@.take(i as int), PathKind::Directory);
            let ghost files_before = entry_paths(entries@.take(i as int), PathKind::File);
            let ghost links_before = entry_paths(entries@.take(i as int), PathKind::Symlink);
            match entry.kind {
                PathKind::Directory => {
                    self.queue.push(DirFile::new(entry.path.clone()));
                    assert(dir_views(self.queue@) =~= queue_before.push(empty_dir(entry.path@)));
                    assert(empty_dirs(dirs_before.push(entry.path@)) =~= empty_dirs(
                        dirs_before,
                    ).push(empty_dir(entry.path@)));
                    assert(dir_views(self.queue@) =~= before.queue.skip(1) + empty_dirs(
                        dirs_before.push(entry.path@),
                    ));
                },
                PathKind::File => {
                    cur.add_file(entry.path.clone());
                    assert(start.files + files_before.push(entry.path@) =~= (start.files
                        + files_before).push(entry.path@));
                },
                PathKind::Symlink => {
                    cur.add_symlink(entry.path.clone());
                    assert(start.symlinks + links_before.push(entry.path@) =~= (start.symlinks
                        + links_before).push(entry.path@));
                },
                PathKind::Other => {},
            }
            i += 1;
        }
        proof {
            assert(entries@.take(entries.len() as int) =~= entries@);
        }
        let ghost listed_before = dir_views(self.listed@);
        self.listed.push(cur);
        assert(dir_views(self.listed@) =~= listed_before.push(cur@));
    }

    /// The directories read, in the order in which they were read.
    pub fn finish(self) -> (dirs: Vec<DirFile>)
        ensures
            dir_views(dirs@) == self@.listed,
    {
        self.listed
    }
}

/// `path` with the root `from_dir` replaced by `to_dir`, where it begins with
/// `from_dir`; else `path` itself.
pub open spec fn rebased(path: Seq<char>, from_dir: Seq<char>, to_dir: Seq<char>) -> Seq<char> {
    if from_dir.is_prefix_of(path) {
        to_dir + path.skip(from_dir.len() as int)
    } else {
        path
    }
}

/// `path` as a remote host writes it: with `/` for each `\` where the local
/// side is Windows.
pub open spec fn remote_form(path: Seq<char>, windows: bool) -> Seq<char> {
    if windows {
        replaced(path, '\\', '/')
    } else {
        path
    }
}

/// `path` as the local side writes it: with `\` for each `/` on Windows.
pub open spec fn local_form(path: Seq<char>, windows: bool) -> Seq<char> {
    if windows {
        replaced(path, '/', '\\')
    } else {
        path
    }
}

/// Where `path` under the source root lands under the destination root.
pub open spec fn moved(
    path: Seq<char>,
    from_dir: Seq<char>,
    to_dir: Seq<char>,
    direction: Direction,
    windows: bool,
) -> Seq<char> {
    match direction {
        Direction::Upload => remote_form(rebased(path, from_dir, to_dir), windows),
        Direction::Download => local_form(rebased(path, from_dir, to_dir), windows),
    }
}

/// `dir` without one final `/`.
pub open spec fn without_slash(dir: Seq<char>) -> Seq<char> {
    if dir.len() > 0 && dir.last() == '/' {
        dir.drop_last()
    } else {
        dir
    }
}

/// `path` with the separators of a remote host.
pub fn to_remote_path(path: String, windows: bool) -> (r: String)
    ensures
        r@ == remote_form(path@, windows),
{
    if windows {
        replace_char(path.as_str(), '\\', '/')
    } else {
        path
    }
}

/// `path` with the separators of the local side.
pub fn to_local_path(path: String, windows: bool) -> (r: String)
    ensures
        r@ == local_form(path@, windows),
{
    if windows {
        replace_char(path.as_str(), '/', '\\')
    } else {
        path
    }
}

/// `path` with the root `from_dir` replaced by `to_dir`.
pub fn rebase(path: &str, from_dir: &str, to_dir: &str) -> (r: String)
    ensures
        r@ == rebased(path@, from_dir@, to_dir@),
{
    let p = to_chars(path);
    let f = to_chars(from_dir);
    if starts_with(&p, &f) {
        let rest = from_chars(&p, f.len(), p.len());
        assert(p@.subrange(f.len() as int, p.len() as int) =~= p@.skip(f.len() as int));
        concat(to_dir, rest.as_str())
    } else {
        owned(path)
    }
}

/// The remote path for the local `path`: under `remote_dir` where `path` is
/// under `local_dir`, and with the remote separators.
pub fn replace_to_remote_path(path: &str, local_dir: &str, remote_dir: &str, windows: bool) -> (r:
    String)
    ensures
        r@ == moved(path@, local_dir@, remote_dir@, Direction::Upload, windows),
{
    to_remote_path(rebase(path, local_dir, remote_dir), windows)
}

/// The local path for the remote `path`: under `local_dir` where `path` is
/// under `remote_dir`, and with the local separators.
pub fn replace_to_local_path(path: &str, local_dir: &str, remote_dir: &str, windows: bool) -> (r:
    String)
    ensures
        r@ == moved(path@, remote_dir@, local_dir@, Direction::Download, windows),
{
    to_local_path(rebase(path, remote_dir, local_dir), windows)
}

/// The destination path for `path`, in either direction.
pub fn moved_path(path: &str, from_dir: &str, to_dir: &str, direction: Direction, windows: bool) -> (r:
    String)
    ensures
        r@ == moved(path@, from_dir@, to_dir@, direction, windows),
{
    match direction {
        Direction::Upload => replace_to_remote_path(path, from_dir, to_dir, windows),
        Direction::Download => replace_to_local_path(path, to_dir, from_dir, windows),
    }
}

/// The destination root as given, without one final `/`.
pub fn strip_trailing_slash(dir: &str) -> (r: String)
    ensures
        r@ == without_slash(dir@),
{
    let d = to_chars(dir);
    if ends_with_char(&d, '/') {
        let r = from_chars(&d, 0, d.len() - 1);
        assert(d@.subrange(0, d.len() - 1) =~= d@.drop_last());
        r
    } else {
        owned(dir)
    }
}

/// `\\?\`, which Windows puts before an absolute path that it hands back.
pub open spec fn verbatim_prefix() -> Seq<char> {
    seq!['\\', '\\', '?', '\\']
}

/// `path` without the prefix `\\?\` on Windows, and as it is elsewhere.
pub open spec fn without_verbatim(path: Seq<char>, windows: bool) -> Seq<char> {
    if windows && verbatim_prefix().is_prefix_of(path) {
        path.skip(4)
    } else {
        path
    }
}

/// The local source directory as the paths under it are rewritten from: on
/// Windows without the prefix `\\?\` that an absolute path may carry.
pub fn strip_verbatim_prefix(path: &str, windows: bool) -> (r: String)
    ensures
        r@ == without_verbatim(path@, windows),
{
    if !windows {
        return owned(path);
    }
    let p = to_chars(path);
    let mut prefix: Vec<char> = Vec::new();
    prefix.push('\\');
    prefix.push('\\');
    prefix.push('?');
    prefix.push('\\');
    assert(prefix@ =~= verbatim_prefix());
    if starts_with(&p, &prefix) {
        let r = from_chars(&p, 4, p.len());
        assert(p@.subrange(4, p.len() as int) =~= p@.skip(4));
        r
    } else {
        owned(path)
    }
}

/// The path of the entry `name` in the remote directory `dir`.
pub fn join_remote(dir: &str, name: &str) -> (r: String)
    ensures
        r@ == dir@ + "/"@ + name@,
{
    let mut r = concat(dir, "/");
    r.append(name);
    r
}

/// One step of a directory transfer.
#[derive(Debug)]
pub enum DirOp {
    /// Create the destination directory `path`.
    MakeDir { path: String },
    /// Transfer the file `source` to `dest`.
    CopyFile { source: String, dest: String },
    /// Recreate the link `source` at `dest`, its target carried over as a
    /// path is.
    CopyLink { source: String, dest: String },
}

/// A `DirOp` as plain values.
pub ghost enum DirOpView {
    MakeDir { path: Seq<char> },
    CopyFile { source: Seq<char>, dest: Seq<char> },
    CopyLink { source: Seq<char>, dest: Seq<char> },
}

impl View for DirOp {
    type V = DirOpView;

    open spec fn view(&self) -> DirOpView {
        match *self {
            DirOp::MakeDir { path } => DirOpView::MakeDir { path: path@ },
            DirOp::CopyFile { source, dest } => DirOpView::CopyFile {
                source: source@,
                dest: dest@,
            },
            DirOp::CopyLink { source, dest } => DirOpView::CopyLink {
                source: source@,
                dest: dest@,
            },
        }
    }
}

/// The views of a list of operations.
pub open spec fn op_views(ops: Seq<DirOp>) -> Seq<DirOpView> {
    Seq::new(ops.len(), |i: int| ops[i]@)
}

/// Where a transfer of a tree goes from and to.
pub ghost struct Route {
    pub from_dir: Seq<char>,
    pub to_dir: Seq<char>,
    pub direction: Direction,
    pub windows: bool,
}

impl Route {
    /// The destination path for `path`.
    pub open spec fn dest(&self, path: Seq<char>) -> Seq<char> {
        moved(path, self.from_dir, self.to_dir, self.direction, self.windows)
    }
}

/// The creation of the destination directory for each directory of `dirs`.
pub open spec fn make_dir_ops(dirs: Seq<DirFileView>, route: Route) -> Seq<DirOpView> {
    Seq::new(dirs.len(), |i: int| DirOpView::MakeDir { path: route.dest(dirs[i].path) })
}

/// The transfer of each file of `files`.
pub open spec fn file_ops(files: Seq<Seq<char>>, route: Route) -> Seq<DirOpView> {
    Seq::new(
        files.len(),
        |i: int| DirOpView::CopyFile { source: files[i], dest: route.dest(files[i]) },
    )
}

/// The recreation of each link of `links`.
pub open spec fn link_ops(links: Seq<Seq<char>>, route: Route) -> Seq<DirOpView> {
    Seq::new(
        links.len(),
        |i: int| DirOpView::CopyLink { source: links[i], dest: route.dest(links[i]) },
    )
}

/// For each directory in turn, the transfer of its files and then of its
/// links.
pub open spec fn content_ops(dirs: Seq<DirFileView>, route: Route) -> Seq<DirOpView>
    decreases dirs.len(),
{
    if dirs.len() == 0 {
        Seq::empty()
    } else {
        content_ops(dirs.drop_last(), route) + file_ops(dirs.last().files, route) + link_ops(
            dirs.last().symlinks,
            route,
        )
    }
}

/// The operations that transfer the listed tree from under `from_dir` to
/// under `to_dir`: first the creation of every directory, in the order
/// listed, then for each directory the transfer of its files and the
/// recreation of its links.
pub fn plan_dir_transfer(
    dirs: &Vec<DirFile>,
    from_dir: &str,
    to_dir: &str,
    direction: Direction,
    windows: bool,
) -> (ops: Vec<DirOp>)
    ensures
        op_views(ops@) == make_dir_ops(
            dir_views(dirs@),
            Route { from_dir: from_dir@, to_dir: to_dir@, direction, windows },
        ) + content_ops(
            dir_views(dirs@),
            Route { from_dir: from_dir@, to_dir: to_dir@, direction, windows },
        ),
{
    let ghost route = Route { from_dir: from_dir@, to_dir: to_dir@, direction, windows };
    let ghost all = dir_views(dirs@);
    let mut ops: Vec<DirOp> = Vec::new();
    let mut i: usize = 0;
    while i < dirs.len()
        invariant
            i <= dirs.len(),
            all == dir_views(dirs@),
            route == (Route { from_dir: from_dir@, to_dir: to_dir@, direction, windows }),
            op_views(ops@) == make_dir_ops(all.take(i as int), route),
        decreases dirs.len() - i,
    {
        let ghost before = op_views(ops@);
        let path = moved_path(dirs[i].path.as_str(), from_dir, to_dir, direction, windows);
        ops.push(DirOp::MakeDir { path });
        proof {
            assert(op_views(ops@) =~= before.push(DirOpView::MakeDir { path: path@ }));
            assert(make_dir_ops(all.take(i + 1), route) =~= make_dir_ops(
                all.take(i as int),
                route,
            ).push(DirOpView::MakeDir { path: route.dest(all[i as int].path) }));
        }
        i += 1;
    }
    proof {
        assert(all.take(dirs.len() as int) =~= all);
    }
    let ghost made = make_dir_ops(all, route);
    let mut i: usize = 0;
    while i < dirs.len()
        invariant
            i <= dirs.len(),
            all == dir_views(dirs@),
            route == (Route { from_dir: from_dir@, to_dir: to_dir@, direction, windows }),
            op_views(ops@) == made + content_ops(all.take(i as int), route),
        decreases dirs.len() - i,
    {
        let dir = &dirs[i];
        let ghost done = content_ops(all.take(i as int), route);
        let mut k: usize = 0;
        while k < dir.files.len()
            invariant
                k <= dir.files.len(),
                dir == dirs@[i as int],
                route == (Route { from_dir: from_dir@, to_dir: to_dir@, direction, windows }),
                op_views(ops@) == made + done + file_ops(dir@.files.take(k as int), route),
            decreases dir.files.len() - k,
        {
            let ghost before = op_views(ops@);
            let source = dir.files[k].clone();
            let dest = moved_path(source.as_str(), from_dir, to_dir, direction, windows);
            ops.push(DirOp::CopyFile { source, dest });
            proof {
                let op = DirOpView::CopyFile { source: source@, dest: dest@ };
                assert(op_views(ops@) =~= before.push(op));
                assert(dir@.files[k as int] == source@);
                assert(file_ops(dir@.files.take(k + 1), route) =~= file_ops(
                    dir@.files.take(k as int),
                    route,
                ).push(op));
            }
            k += 1;
        }
        proof {
            assert(dir@.files.take(dir.files.len() as int) =~= dir@.files);
        }
        let ghost with_files = done + file_ops(dir@.files, route);
        let mut k: usize = 0;
        while k < dir.symlinks.len()
            invariant
                k <= dir.symlinks.len(),
                dir == dirs@[i as int],
                route == (Route { from_dir: from_dir@, to_dir: to_dir@, direction, windows }),
                op_views(ops@) == made + with_files + link_ops(
                    dir@.symlinks.take(k as int),
                    route,
                ),
            decreases dir.symlinks.len() - k,
        {
            let ghost before = op_views(ops@);
            let source = dir.symlinks[k].clone();
            let dest = moved_path(source.as_str(), from_dir, to_dir, direction, windows);
            ops.push(DirOp::CopyLink { source, dest });
            proof {
                let op = DirOpView::CopyLink { source: source@, dest: dest@ };
                assert(op_views(ops@) =~= before.push(op));
                assert(dir@.symlinks[k as int] == source@);
                assert(link_ops(dir@.symlinks.take(k + 1), route) =~= link_ops(
                    dir@.symlinks.take(k as int),
                    route,
                ).push(op));
            }
            k += 1;
        }
        proof {
            assert(dir@.symlinks.take(dir.symlinks.len() as int) =~= dir@.symlinks);
            let now = all.take(i + 1);
            assert(now.drop_last() =~= all.take(i as int));
            assert(now.last() == dir@);
            assert(made + with_files + link_ops(dir@.symlinks, route) =~= made + content_ops(
                now,
                route,
            ));
        }
        i += 1;
    }
    proof {
        assert(all.take(dirs.len() as int) =~= all);
    }
    ops
}

} // verus!
