use crate::path::{FsPath, PathView, opt_text, is_child_of, valid_components, valid_name, file_name_of};
use vstd::prelude::*;
use vstd::string::*;

verus! {

/// A node of a chat's file tree: a file that is a message the bot keeps, or a directory.
pub enum FileSystemNode {
    File { message_id: i32, size: u64, mime_type: Option<String> },
    Directory,
}

/// What a node is to the proofs.
pub enum NodeView {
    File { message_id: i32, size: u64, mime_type: Option<Seq<char>> },
    Directory,
}

impl View for FileSystemNode {
    type V = NodeView;

    open spec fn view(&self) -> NodeView {
        match self {
            FileSystemNode::File { message_id, size, mime_type } => NodeView::File {
                message_id: *message_id,
                size: *size,
                mime_type: opt_text(*mime_type),
            },
            FileSystemNode::Directory => NodeView::Directory,
        }
    }
}

/// A copy of an optional text.
pub fn copy_opt_string(o: &Option<String>) -> (r: Option<String>)
    ensures
        opt_text(r) == opt_text(*o),
{
    match o {
        Some(s) => Some(s.clone()),
        None => None,
    }
}

/// A path at which a tree finds a node, other than the root, has valid
/// components, so its last component is its file name.
pub proof fn lemma_found_path_valid(v: FsEntries, p: PathView)
    requires
        fs_wf(v),
        p.len() > 0,
        lookup(v, p) is Some,
    ensures
        valid_components(p),
        valid_name(p.last()),
        file_name_of(p) == Some(p.last()),
{
    let i = path_index(v, p);
    assert(v[i].0 == p);
    assert(valid_name(p[p.len() - 1]));
}

/// A node made at a free path is found there, and every other path finds what it found before.
#[verifier::spinoff_prover]
#[verifier::rlimit(40)]
pub proof fn lemma_lookup_after_insert(v: FsEntries, p: PathView, n: NodeView, q: PathView)
    requires
        fs_wf(v),
        insert_error(v, p) is None,
    ensures
        fs_wf(v.push((p, n))),
        lookup(v.push((p, n)), q) == if q == p {
            Some(n)
        } else {
            lookup(v, q)
        },
{
    lemma_wf_push(v, p, n);
    let w = v.push((p, n));
    if q == p {
        lemma_lookup_at(w, v.len() as int);
    } else if q.len() > 0 {
        if stores(v, q) {
            let i = path_index(v, q);
            lemma_lookup_at(v, i);
            assert(w[i] == v[i]);
            lemma_lookup_at(w, i);
        } else {
            assert(!stores(w, q)) by {
                if stores(w, q) {
                    let i = path_index(w, q);
                    assert(i < v.len());
                    assert(w[i] == v[i]);
                }
            }
        }
    }
}

/// A moved file is found at its new path and no longer at its old one; every
/// other path finds what it found before.
#[verifier::spinoff_prover]
#[verifier::rlimit(40)]
pub proof fn lemma_lookup_after_move(v: FsEntries, from: PathView, to: PathView, q: PathView)
    requires
        fs_wf(v),
        move_error(v, from, to) is None,
    ensures
        fs_wf(moved_entries(v, from, to)),
        lookup(moved_entries(v, from, to), q) == if q == to {
            lookup(v, from)
        } else if q == from {
            None
        } else {
            lookup(v, q)
        },
{
    let k = path_index(v, from);
    lemma_lookup_at(v, k);
    lemma_wf_update(v, k, to);
    let w = moved_entries(v, from, to);
    assert(from.len() > 0);
    if q == to {
        lemma_lookup_at(w, k);
    } else if q == from {
        assert(!stores(w, q)) by {
            if stores(w, q) {
                let i = path_index(w, q);
                assert(i != k);
                assert(w[i] == v[i]);
            }
        }
    } else if q.len() > 0 {
        if stores(v, q) {
            let i = path_index(v, q);
            lemma_lookup_at(v, i);
            assert(i != k);
            assert(w[i] == v[i]);
            lemma_lookup_at(w, i);
        } else {
            assert(!stores(w, q)) by {
                if stores(w, q) {
                    let i = path_index(w, q);
                    assert(i != k);
                    assert(w[i] == v[i]);
                }
            }
        }
    }
}

/// A removed node is no longer found; every other path finds what it found before.
#[verifier::spinoff_prover]
#[verifier::rlimit(40)]
pub proof fn lemma_lookup_after_remove(v: FsEntries, p: PathView, q: PathView)
    requires
        fs_wf(v),
        remove_error(v, p) is None,
    ensures
        fs_wf(removed_entries(v, p)),
        lookup(removed_entries(v, p), q) == if q == p {
            None
        } else {
            lookup(v, q)
        },
{
    let k = path_index(v, p);
    lemma_lookup_at(v, k);
    lemma_wf_remove(v, k);
    let w = removed_entries(v, p);
    assert(p.len() > 0);
    if q == p {
        assert(!stores(w, q)) by {
            if stores(w, q) {
                let i = path_index(w, q);
                let i2 = if i < k { i } else { i + 1 };
                assert(w[i] == v[i2]);
            }
        }
    } else if q.len() > 0 {
        if stores(v, q) {
            let i = path_index(v, q);
            lemma_lookup_at(v, i);
            assert(i != k);
            let i2 = if i < k { i } else { i - 1 };
            assert(w[i2] == v[i]);
            lemma_lookup_at(w, i2);
        } else {
            assert(!stores(w, q)) by {
                if stores(w, q) {
                    let i = path_index(w, q);
                    let i2 = if i < k { i } else { i + 1 };
                    assert(w[i] == v[i2]);
                }
            }
        }
    }
}

impl Clone for FileSystemNode {
    fn clone(&self) -> (r: Self)
        ensures
            r@ == self@,
    {
        match self {
            FileSystemNode::File { message_id, size, mime_type } => FileSystemNode::File {
                message_id: *message_id,
                size: *size,
                mime_type: copy_opt_string(mime_type),
            },
            FileSystemNode::Directory => FileSystemNode::Directory,
        }
    }
}

impl FileSystemNode {
    /// A file node for the message `message_id`.
    pub fn new_file(message_id: i32, size: u64, mime_type: Option<String>) -> (r: FileSystemNode)
        ensures
            r@ == (NodeView::File { message_id, size, mime_type: opt_text(mime_type) }),
    {
        FileSystemNode::File { message_id, size, mime_type }
    }

    pub fn is_directory(&self) -> (b: bool)
        ensures
            b == (self@ == NodeView::Directory),
    {
        match self {
            FileSystemNode::Directory => true,
            _ => false,
        }
    }

    /// The message that a file node stands for; none for a directory.
    pub fn file_message_id(&self) -> (r: Option<i32>)
        ensures
            r == node_message_id(self@),
    {
        match self {
            FileSystemNode::File { message_id, .. } => Some(*message_id),
            FileSystemNode::Directory => None,
        }
    }
}

pub open spec fn node_message_id(n: NodeView) -> Option<i32> {
    match n {
        NodeView::File { message_id, .. } => Some(message_id),
        NodeView::Directory => None,
    }
}

/// The stored entries of a file tree, in the order in which they were made.
pub type FsEntries = Seq<(PathView, NodeView)>;

pub open spec fn stores(v: FsEntries, p: PathView) -> bool {
    exists|i: int| 0 <= i < v.len() && (#[trigger] v[i]).0 == p
}

pub open spec fn path_index(v: FsEntries, p: PathView) -> int {
    choose|i: int| 0 <= i < v.len() && (#[trigger] v[i]).0 == p
}

/// The node at `p`: the root is always a directory.
pub open spec fn lookup(v: FsEntries, p: PathView) -> Option<NodeView> {
    if p.len() == 0 {
        Some(NodeView::Directory)
    } else if stores(v, p) {
        Some(v[path_index(v, p)].1)
    } else {
        None
    }
}

pub open spec fn is_dir(v: FsEntries, p: PathView) -> bool {
    lookup(v, p) == Some(NodeView::Directory)
}

pub open spec fn unique_paths(v: FsEntries) -> bool {
    forall|i: int, j: int| 0 <= i < v.len() && 0 <= j < v.len() && i != j ==> (#[trigger] v[i]).0 != (#[trigger] v[j]).0
}

/// A file tree: no path twice, every stored path below the root with valid
/// components, and every stored path inside a directory.
pub open spec fn fs_wf(v: FsEntries) -> bool {
    &&& unique_paths(v)
    &&& forall|i: int|
        0 <= i < v.len() ==> {
            &&& (#[trigger] v[i]).0.len() > 0
            &&& valid_components(v[i].0)
            &&& is_dir(v, v[i].0.drop_last())
        }
}

/// The entries of the directory `dir`, by name, in the order in which they were made.
pub open spec fn child_entries(v: FsEntries, dir: PathView) -> Seq<(Seq<char>, NodeView)>
    decreases v.len(),
{
    if v.len() == 0 {
        Seq::empty()
    } else {
        let rest = child_entries(v.drop_last(), dir);
        if is_child_of(v.last().0, dir) {
            rest.push((v.last().0.last(), v.last().1))
        } else {
            rest
        }
    }
}

pub open spec fn has_children(v: FsEntries, dir: PathView) -> bool {
    exists|i: int| 0 <= i < v.len() && is_child_of((#[trigger] v[i]).0, dir)
}

pub open spec fn err_exists() -> Seq<char> {
    "Path already exists"@
}

pub open spec fn err_invalid_name() -> Seq<char> {
    "Invalid name"@
}

pub open spec fn err_no_parent() -> Seq<char> {
    "Parent directory not found"@
}

pub open spec fn err_not_found() -> Seq<char> {
    "Path not found"@
}

pub open spec fn err_not_a_file() -> Seq<char> {
    "Only files can be moved"@
}

pub open spec fn err_not_empty() -> Seq<char> {
    "Directory is not empty"@
}

/// Why a node cannot be made at `p`, if it cannot.
pub open spec fn insert_error(v: FsEntries, p: PathView) -> Option<Seq<char>> {
    if p.len() == 0 || stores(v, p) {
        Some(err_exists())
    } else if !valid_components(p) {
        Some(err_invalid_name())
    } else if !is_dir(v, p.drop_last()) {
        Some(err_no_parent())
    } else {
        None
    }
}

/// Why the node at `from` cannot be moved to `to`, if it cannot.
pub open spec fn move_error(v: FsEntries, from: PathView, to: PathView) -> Option<Seq<char>> {
    if !stores(v, from) {
        Some(err_not_found())
    } else if v[path_index(v, from)].1 == NodeView::Directory {
        Some(err_not_a_file())
    } else {
        insert_error(v, to)
    }
}

/// Why the node at `p` cannot be removed, if it cannot.
pub open spec fn remove_error(v: FsEntries, p: PathView) -> Option<Seq<char>> {
    if !stores(v, p) {
        Some(err_not_found())
    } else if v[path_index(v, p)].1 == NodeView::Directory && has_children(v, p) {
        Some(err_not_empty())
    } else {
        None
    }
}

/// The tree after the node at `from` moved to `to`.
pub open spec fn moved_entries(v: FsEntries, from: PathView, to: PathView) -> FsEntries {
    v.update(path_index(v, from), (to, v[path_index(v, from)].1))
}

/// The tree after the node at `p` was removed.
pub open spec fn removed_entries(v: FsEntries, p: PathView) -> FsEntries {
    v.remove(path_index(v, p))
}

pub open spec fn entries_view(e: Seq<(FsPath, FileSystemNode)>) -> FsEntries {
    e.map_values(|x: (FsPath, FileSystemNode)| (x.0@, x.1@))
}

pub open spec fn named_nodes_view(e: Seq<(String, FileSystemNode)>) -> Seq<(Seq<char>, NodeView)> {
    e.map_values(|x: (String, FileSystemNode)| (x.0@, x.1@))
}

/// The file tree of one chat.
pub struct FileSystem {
    entries: Vec<(FsPath, FileSystemNode)>,
}

impl View for FileSystem {
    type V = FsEntries;

    closed spec fn view(&self) -> FsEntries {
        entries_view(self.entries@)
    }
}

/// In a tree without repeated paths, the node at a stored path is the one stored with it.
pub proof fn lemma_lookup_at(v: FsEntries, i: int)
    requires
        unique_paths(v),
        0 <= i < v.len(),
        v[i].0.len() > 0,
    ensures
        lookup(v, v[i].0) == Some(v[i].1),
        path_index(v, v[i].0) == i,
{
    assert(stores(v, v[i].0));
    let k = path_index(v, v[i].0);
    assert(v[k].0 == v[i].0);
}

proof fn lemma_dir_witness(v: FsEntries, d: PathView) -> (j: int)
    requires
        unique_paths(v),
        is_dir(v, d),
        d.len() > 0,
    ensures
        0 <= j < v.len(),
        v[j].0 == d,
        v[j].1 == NodeView::Directory,
{
    path_index(v, d)
}

proof fn lemma_dir_at(w: FsEntries, j: int, d: PathView)
    requires
        unique_paths(w),
        0 <= j < w.len(),
        w[j].0 == d,
        w[j].1 == NodeView::Directory,
    ensures
        is_dir(w, d),
{
    if d.len() > 0 {
        lemma_lookup_at(w, j);
    }
}

#[verifier::spinoff_prover]
proof fn lemma_wf_push(v: FsEntries, p: PathView, n: NodeView)
    requires
        fs_wf(v),
        insert_error(v, p) is None,
    ensures
        fs_wf(v.push((p, n))),
{
    let w = v.push((p, n));
    assert(unique_paths(w)) by {
        assert forall|i: int, j: int|
            0 <= i < w.len() && 0 <= j < w.len() && i != j implies (#[trigger] w[i]).0 != (
        #[trigger] w[j]).0 by {
            if i < v.len() && j < v.len() {
                assert(w[i] == v[i] && w[j] == v[j]);
            } else if i < v.len() {
                assert(w[i] == v[i]);
                assert(!stores(v, p));
            } else {
                assert(w[j] == v[j]);
                assert(!stores(v, p));
            }
        }
    }
    assert forall|i: int| 0 <= i < w.len() implies {
        &&& (#[trigger] w[i]).0.len() > 0
        &&& valid_components(w[i].0)
        &&& is_dir(w, w[i].0.drop_last())
    } by {
        let d = w[i].0.drop_last();
        if i < v.len() {
            assert(w[i] == v[i]);
        }
        assert(is_dir(v, d));
        if d.len() > 0 {
            let j = lemma_dir_witness(v, d);
            assert(w[j] == v[j]);
            lemma_dir_at(w, j, d);
        }
    }
}

proof fn lemma_entry_kept_on_remove(v: FsEntries, k: int, i2: int)
    requires
        fs_wf(v),
        0 <= k < v.len(),
        0 <= i2 < v.len(),
        i2 != k,
        v[k].1 == NodeView::Directory ==> !has_children(v, v[k].0),
    ensures
        v[i2].0.len() > 0,
        valid_components(v[i2].0),
        is_dir(v.remove(k), v[i2].0.drop_last()),
{
    lemma_unique_after_remove(v, k);
    let w = v.remove(k);
    let d = v[i2].0.drop_last();
    assert(v[i2].0.len() > 0 && valid_components(v[i2].0) && is_dir(v, d));
    if d.len() > 0 {
        let j = lemma_dir_witness(v, d);
        if j == k {
            assert(is_child_of(v[i2].0, v[k].0)) by {
                assert(v[i2].0.subrange(0, d.len() as int) =~= d);
            }
            assert(has_children(v, v[k].0));
        }
        let j2 = if j < k {
            j
        } else {
            j - 1
        };
        assert(w[j2] == v[j]);
        lemma_dir_at(w, j2, d);
    }
}

proof fn lemma_unique_after_remove(v: FsEntries, k: int)
    requires
        unique_paths(v),
        0 <= k < v.len(),
    ensures
        unique_paths(v.remove(k)),
{
    let w = v.remove(k);
    assert forall|i: int, j: int|
        0 <= i < w.len() && 0 <= j < w.len() && i != j implies (#[trigger] w[i]).0 != (
    #[trigger] w[j]).0 by {
        let i2 = if i < k {
            i
        } else {
            i + 1
        };
        let j2 = if j < k {
            j
        } else {
            j + 1
        };
        assert(w[i] == v[i2] && w[j] == v[j2]);
    }
}

proof fn lemma_wf_remove(v: FsEntries, k: int)
    requires
        fs_wf(v),
        0 <= k < v.len(),
        v[k].1 == NodeView::Directory ==> !has_children(v, v[k].0),
    ensures
        fs_wf(v.remove(k)),
{
    let w = v.remove(k);
    lemma_unique_after_remove(v, k);
    assert forall|i: int| 0 <= i < w.len() implies {
        &&& (#[trigger] w[i]).0.len() > 0
        &&& valid_components(w[i].0)
        &&& is_dir(w, w[i].0.drop_last())
    } by {
        let i2 = if i < k {
            i
        } else {
            i + 1
        };
        lemma_entry_kept_on_remove(v, k, i2);
        assert(w[i] == v[i2]);
    }
}

#[verifier::spinoff_prover]
proof fn lemma_wf_update(v: FsEntries, k: int, to: PathView)
    requires
        fs_wf(v),
        0 <= k < v.len(),
        v[k].1 != NodeView::Directory,
        insert_error(v, to) is None,
    ensures
        fs_wf(v.update(k, (to, v[k].1))),
{
    let w = v.update(k, (to, v[k].1));
    assert(unique_paths(w)) by {
        assert forall|i: int, j: int|
            0 <= i < w.len() && 0 <= j < w.len() && i != j implies (#[trigger] w[i]).0 != (
        #[trigger] w[j]).0 by {
            if i != k && j != k {
                assert(w[i] == v[i] && w[j] == v[j]);
            } else if i == k {
                assert(w[j] == v[j]);
                assert(!stores(v, to));
            } else {
                assert(w[i] == v[i]);
                assert(!stores(v, to));
            }
        }
    }
    assert forall|i: int| 0 <= i < w.len() implies {
        &&& (#[trigger] w[i]).0.len() > 0
        &&& valid_components(w[i].0)
        &&& is_dir(w, w[i].0.drop_last())
    } by {
        if i != k {
            assert(w[i] == v[i]);
        }
        let d = w[i].0.drop_last();
        assert(is_dir(v, d));
        if d.len() > 0 {
            let j = lemma_dir_witness(v, d);
            assert(j != k);
            assert(w[j] == v[j]);
            lemma_dir_at(w, j, d);
        }
    }
}

impl Clone for FileSystem {
    fn clone(&self) -> (r: Self)
        ensures
            r@ == self@,
    {
        let mut entries: Vec<(FsPath, FileSystemNode)> = Vec::new();
        let n = self.entries.len();
        for i in 0..n
            invariant
                n == self.entries.len(),
                entries_view(entries@) =~= entries_view(self.entries@).take(i as int),
        {
            let ghost before = entries_view(entries@);
            let e = (self.entries[i].0.clone(), self.entries[i].1.clone());
            entries.push(e);
            assert(entries_view(entries@) =~= before.push(entries_view(self.entries@)[i as int]));
            assert(entries_view(self.entries@).take(i + 1) =~= entries_view(self.entries@).take(
                i as int,
            ).push(entries_view(self.entries@)[i as int]));
        }
        assert(entries_view(self.entries@).take(n as int) =~= entries_view(self.entries@));
        FileSystem { entries }
    }
}

impl FileSystem {
    pub open spec fn wf(&self) -> bool {
        fs_wf(self@)
    }

    /// A tree that holds only the root directory.
    pub fn new() -> (r: FileSystem)
        ensures
            r.wf(),
            r@ == Seq::<(PathView, NodeView)>::empty(),
    {
        let r = FileSystem { entries: Vec::new() };
        assert(r@ =~= Seq::<(PathView, NodeView)>::empty());
        r
    }

    fn find(&self, p: &FsPath) -> (r: Option<usize>)
        ensures
            match r {
                Some(i) => i < self@.len() && self@[i as int].0 == p@,
                None => !stores(self@, p@),
            },
    {
        let n = self.entries.len();
        for i in 0..n
            invariant
                n == self.entries.len(),
                forall|j: int| 0 <= j < i ==> (#[trigger] self@[j]).0 != p@,
        {
            if self.entries[i].0.same_as(p) {
                return Some(i);
            }
        }
        None
    }

    /// The node at `p`.
    pub fn get_node(&self, p: &FsPath) -> (r: Result<FileSystemNode, String>)
        requires
            self.wf(),
        ensures
            match r {
                Ok(n) => lookup(self@, p@) == Some(n@),
                Err(e) => lookup(self@, p@) is None && e@ == err_not_found(),
            },
    {
        if p.is_root() {
            return Ok(FileSystemNode::Directory);
        }
        match self.find(p) {
            Some(i) => {
                proof {
                    lemma_lookup_at(self@, i as int);
                }
                Ok(self.entries[i].1.clone())
            },
            None => Err(String::from_str("Path not found")),
        }
    }

    /// Whether the directory `dir` holds any node.
    pub fn has_children(&self, dir: &FsPath) -> (b: bool)
        ensures
            b == has_children(self@, dir@),
    {
        let n = self.entries.len();
        let d = dir.components.len();
        for i in 0..n
            invariant
                n == self.entries.len(),
                d == dir@.len(),
                forall|j: int| 0 <= j < i ==> !is_child_of((#[trigger] self@[j]).0, dir@),
        {
            if self.entries[i].0.components.len() > 0 && self.entries[i].0.components.len() - 1 == d {
                match self.entries[i].0.parent() {
                    Some(q) => {
                        if q.same_as(dir) {
                            proof {
                                let e = self@[i as int].0;
                                assert(e.subrange(0, d as int) =~= e.drop_last());
                            }
                            return true;
                        }
                        proof {
                            let e = self@[i as int].0;
                            assert(e.subrange(0, d as int) =~= e.drop_last());
                        }
                    },
                    None => {},
                }
            }
        }
        false
    }

    /// The entries of the directory `dir`, by name, in the order in which they were made.
    pub fn children(&self, dir: &FsPath) -> (r: Vec<(String, FileSystemNode)>)
        requires
            self.wf(),
        ensures
            named_nodes_view(r@) == child_entries(self@, dir@),
    {
        let n = self.entries.len();
        let d = dir.components.len();
        let mut r: Vec<(String, FileSystemNode)> = Vec::new();
        assert(self@.take(0) =~= Seq::<(PathView, NodeView)>::empty());
        for i in 0..n
            invariant
                n == self.entries.len(),
                n == self@.len(),
                d == dir@.len(),
                fs_wf(self@),
                named_nodes_view(r@) == child_entries(self@.take(i as int), dir@),
        {
            let ghost prefix = self@.take(i + 1);
            assert(prefix.drop_last() =~= self@.take(i as int));
            assert(prefix.last() == self@[i as int]);
            let ghost e = self@[i as int].0;
            let mut child = false;
            if self.entries[i].0.components.len() > 0 && self.entries[i].0.components.len() - 1 == d {
                match self.entries[i].0.parent() {
                    Some(q) => {
                        child = q.same_as(dir);
                    },
                    None => {},
                }
            }
            proof {
                if e.len() == d + 1 {
                    assert(e.subrange(0, d as int) =~= e.drop_last());
                }
            }
            if child {
                proof {
                    assert(valid_name(e[e.len() - 1]));
                }
                let name = self.entries[i].0.file_name();
                match name {
                    Some(nm) => {
                        let ghost before = named_nodes_view(r@);
                        r.push((nm, self.entries[i].1.clone()));
                        assert(named_nodes_view(r@) =~= before.push((e.last(), self@[i as int].1)));
                    },
                    None => {},
                }
            }
        }
        assert(self@.take(n as int) =~= self@);
        r
    }

    fn insert_check(&self, p: &FsPath) -> (r: Option<String>)
        requires
            self.wf(),
        ensures
            opt_text(r) == insert_error(self@, p@),
    {
        if p.is_root() {
            return Some(String::from_str("Path already exists"));
        }
        if self.find(p).is_some() {
            return Some(String::from_str("Path already exists"));
        }
        if !p.has_valid_components() {
            return Some(String::from_str("Invalid name"));
        }
        let parent = match p.parent() {
            Some(q) => q,
            None => FsPath::root(),
        };
        match self.get_node(&parent) {
            Ok(node) => {
                if !node.is_directory() {
                    return Some(String::from_str("Parent directory not found"));
                }
            },
            Err(_) => {
                return Some(String::from_str("Parent directory not found"));
            },
        }
        None
    }

    /// Makes the directory `p` inside an existing directory.
    pub fn mkdir(&mut self, p: &FsPath) -> (r: Result<(), String>)
        requires
            old(self).wf(),
        ensures
            final(self).wf(),
            match r {
                Ok(()) => insert_error(old(self)@, p@) is None && final(self)@ == old(self)@.push(
                    (p@, NodeView::Directory),
                ),
                Err(e) => insert_error(old(self)@, p@) == Some(e@) && final(self)@ == old(self)@,
            },
    {
        match self.insert_check(p) {
            Some(e) => Err(e),
            None => {
                proof {
                    lemma_wf_push(self@, p@, NodeView::Directory);
                }
                let ghost before = self@;
                self.entries.push((p.clone(), FileSystemNode::Directory));
                assert(self@ =~= before.push((p@, NodeView::Directory)));
                Ok(())
            },
        }
    }

    /// Stores `node` at `p`, inside an existing directory, and returns the path it took.
    pub fn create_file_from_node(&mut self, p: &FsPath, node: FileSystemNode) -> (r: Result<
        FsPath,
        String,
    >)
        requires
            old(self).wf(),
        ensures
            final(self).wf(),
            match r {
                Ok(q) => q@ == p@ && insert_error(old(self)@, p@) is None && final(self)@ == old(
                    self,
                )@.push((p@, node@)),
                Err(e) => insert_error(old(self)@, p@) == Some(e@) && final(self)@ == old(self)@,
            },
    {
        match self.insert_check(p) {
            Some(e) => Err(e),
            None => {
                proof {
                    lemma_wf_push(self@, p@, node@);
                }
                let ghost before = self@;
                let ghost nv = node@;
                self.entries.push((p.clone(), node));
                assert(self@ =~= before.push((p@, nv)));
                Ok(p.clone())
            },
        }
    }

    /// Moves the file at `from` to `to`, a free path inside an existing directory.
    pub fn mv(&mut self, from: &FsPath, to: &FsPath) -> (r: Result<(), String>)
        requires
            old(self).wf(),
        ensures
            final(self).wf(),
            match r {
                Ok(()) => move_error(old(self)@, from@, to@) is None && final(self)@ == moved_entries(
                    old(self)@,
                    from@,
                    to@,
                ),
                Err(e) => move_error(old(self)@, from@, to@) == Some(e@) && final(self)@ == old(
                    self,
                )@,
            },
    {
        let k = match self.find(from) {
            Some(k) => k,
            None => {
                return Err(String::from_str("Path not found"));
            },
        };
        proof {
            lemma_lookup_at(self@, k as int);
        }
        if self.entries[k].1.is_directory() {
            return Err(String::from_str("Only files can be moved"));
        }
        match self.insert_check(to) {
            Some(e) => Err(e),
            None => {
                proof {
                    lemma_wf_update(self@, k as int, to@);
                }
                let ghost before = self@;
                let node = self.entries[k].1.clone();
                self.entries.set(k, (to.clone(), node));
                assert(self@ =~= before.update(k as int, (to@, before[k as int].1)));
                Ok(())
            },
        }
    }

    /// Removes the node at `p`: a file, or a directory that holds nothing.
    pub fn remove_node(&mut self, p: &FsPath) -> (r: Result<(), String>)
        requires
            old(self).wf(),
        ensures
            final(self).wf(),
            match r {
                Ok(()) => remove_error(old(self)@, p@) is None && final(self)@ == removed_entries(
                    old(self)@,
                    p@,
                ),
                Err(e) => remove_error(old(self)@, p@) == Some(e@) && final(self)@ == old(self)@,
            },
    {
        let k = match self.find(p) {
            Some(k) => k,
            None => {
                return Err(String::from_str("Path not found"));
            },
        };
        proof {
            lemma_lookup_at(self@, k as int);
        }
        if self.entries[k].1.is_directory() && self.has_children(p) {
            return Err(String::from_str("Directory is not empty"));
        }
        proof {
            lemma_wf_remove(self@, k as int);
        }
        let ghost before = self@;
        self.entries.remove(k);
        assert(self@ =~= before.remove(k as int));
        Ok(())
    }
}

} // verus!
