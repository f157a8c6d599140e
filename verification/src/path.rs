use vstd::prelude::*;
use vstd::string::*;

verus! {

/// A path as the proofs see it: its components below the root.
pub type PathView = Seq<Seq<char>>;

/// Closes the component being read, unless it is empty or `.`.
pub open spec fn flush_segment(done: PathView, cur: Seq<char>) -> PathView {
    if cur.len() > 0 && cur != seq!['.'] {
        done.push(cur)
    } else {
        done
    }
}

/// The components completed after reading `s`, and the one still being read.
pub open spec fn split_state(s: Seq<char>) -> (PathView, Seq<char>)
    decreases s.len(),
{
    if s.len() == 0 {
        (Seq::empty(), Seq::empty())
    } else {
        let prev = split_state(s.drop_last());
        if s.last() == '/' {
            (flush_segment(prev.0, prev.1), Seq::empty())
        } else {
            (prev.0, prev.1.push(s.last()))
        }
    }
}

/// The components that a written path names: the parts between `/`,
/// with empty parts and `.` left out.
pub open spec fn path_segments(s: Seq<char>) -> PathView {
    let st = split_state(s);
    flush_segment(st.0, st.1)
}

/// Each component after a `/`.
pub open spec fn joined_components(p: PathView) -> Seq<char>
    decreases p.len(),
{
    if p.len() == 0 {
        Seq::empty()
    } else {
        joined_components(p.drop_last()) + seq!['/'] + p.last()
    }
}

/// How a path is written: `/` for the root, else each component after a `/`.
pub open spec fn path_text(p: PathView) -> Seq<char> {
    if p.len() == 0 {
        seq!['/']
    } else {
        joined_components(p)
    }
}

pub open spec fn is_absolute_text(s: Seq<char>) -> bool {
    s.len() > 0 && s[0] == '/'
}

/// `p` extended by the written path `name`; an absolute `name` replaces `p`.
pub open spec fn join_spec(p: PathView, name: Seq<char>) -> PathView {
    if is_absolute_text(name) {
        path_segments(name)
    } else {
        p + path_segments(name)
    }
}

/// The last component of `p`; none at the root or after `..`.
pub open spec fn file_name_of(p: PathView) -> Option<Seq<char>> {
    if p.len() > 0 && p.last() != seq!['.', '.'] {
        Some(p.last())
    } else {
        None
    }
}

/// `p` with its file name replaced by `name`; where `p` has no file name,
/// `name` is pushed.
pub open spec fn with_file_name_spec(p: PathView, name: Seq<char>) -> PathView {
    join_spec(
        if file_name_of(p) is Some {
            p.drop_last()
        } else {
            p
        },
        name,
    )
}

/// A component that a file tree accepts.
pub open spec fn valid_name(n: Seq<char>) -> bool {
    &&& n.len() > 0
    &&& !n.contains('/')
    &&& n != seq!['.']
    &&& n != seq!['.', '.']
}

pub open spec fn valid_components(p: PathView) -> bool {
    forall|i: int| 0 <= i < p.len() ==> valid_name(#[trigger] p[i])
}

/// `p` is an entry of the directory `dir`.
pub open spec fn is_child_of(p: PathView, dir: PathView) -> bool {
    p.len() == dir.len() + 1 && p.subrange(0, dir.len() as int) == dir
}

pub open spec fn opt_text(o: Option<String>) -> Option<Seq<char>> {
    match o {
        Some(s) => Some(s@),
        None => None,
    }
}

/// A path of a chat's file tree, held as its components below the root.
pub struct FsPath {
    pub components: Vec<String>,
}

impl View for FsPath {
    type V = PathView;

    open spec fn view(&self) -> PathView {
        self.components@.map_values(|c: String| c@)
    }
}

pub open spec fn opt_path(o: Option<FsPath>) -> Option<PathView> {
    match o {
        Some(p) => Some(p@),
        None => None,
    }
}

proof fn lemma_split_state_text(s: Seq<char>, w: Seq<char>)
    requires
        !w.contains('/'),
    ensures
        split_state(s + w) == (split_state(s).0, split_state(s).1 + w),
    decreases w.len(),
{
    if w.len() == 0 {
        assert(s + w =~= s);
        assert(split_state(s).1 + w =~= split_state(s).1);
    } else {
        let w0 = w.drop_last();
        assert(!w0.contains('/')) by {
            if w0.contains('/') {
                let k = choose|k: int| 0 <= k < w0.len() && w0[k] == '/';
                assert(w[k] == '/');
            }
        }
        lemma_split_state_text(s, w0);
        assert((s + w).drop_last() =~= s + w0);
        assert(w.last() != '/') by {
            assert(w[w.len() - 1] == w.last());
        }
        assert(split_state(s).1 + w0 + seq![w.last()] =~= split_state(s).1 + w);
        assert((split_state(s).1 + w0).push(w.last()) =~= split_state(s).1 + w);
    }
}

proof fn lemma_split_state_slash(s: Seq<char>)
    ensures
        split_state(s + seq!['/']) == (flush_segment(split_state(s).0, split_state(s).1), Seq::<
            char,
        >::empty()),
{
    assert((s + seq!['/']).drop_last() =~= s);
}

/// Reading a written path gives back its components.
proof fn lemma_split_joined(p: PathView)
    requires
        valid_components(p),
        p.len() > 0,
    ensures
        split_state(joined_components(p)) == (p.drop_last(), p.last()),
    decreases p.len(),
{
    let q = p.drop_last();
    let last = p.last();
    assert(valid_name(p[p.len() - 1]));
    if q.len() == 0 {
        assert(joined_components(q) =~= Seq::<char>::empty());
        assert(joined_components(p) =~= seq!['/'] + last);
        lemma_split_state_slash(Seq::<char>::empty());
        assert(Seq::<char>::empty() + seq!['/'] =~= seq!['/']);
        assert(split_state(Seq::<char>::empty()) == (Seq::<Seq<char>>::empty(), Seq::<char>::empty()));
        lemma_split_state_text(seq!['/'], last);
        assert(Seq::<char>::empty() + last =~= last);
        assert(q =~= Seq::<Seq<char>>::empty());
    } else {
        assert(valid_components(q)) by {
            assert forall|i: int| 0 <= i < q.len() implies valid_name(#[trigger] q[i]) by {
                assert(q[i] == p[i]);
            }
        }
        lemma_split_joined(q);
        let jq = joined_components(q);
        lemma_split_state_slash(jq);
        assert(valid_name(q[q.len() - 1]));
        assert(flush_segment(q.drop_last(), q.last()) =~= q);
        lemma_split_state_text(jq + seq!['/'], last);
        assert(Seq::<char>::empty() + last =~= last);
    }
}

/// A path read back from its written form is the path itself.
pub proof fn lemma_segments_of_path_text(p: PathView)
    requires
        valid_components(p),
    ensures
        path_segments(path_text(p)) == p,
{
    if p.len() == 0 {
        reveal_with_fuel(split_state, 2);
        assert(seq!['/'].drop_last() =~= Seq::<char>::empty());
        assert(split_state(seq!['/']).0 =~= Seq::<Seq<char>>::empty());
        assert(path_segments(path_text(p)) =~= p);
    } else {
        lemma_split_joined(p);
        assert(valid_name(p[p.len() - 1]));
        assert(p.drop_last().push(p.last()) =~= p);
    }
}

/// A valid name joined to a path is one more component of it.
pub proof fn lemma_join_valid_name(p: PathView, name: Seq<char>)
    requires
        valid_name(name),
    ensures
        join_spec(p, name) == p.push(name),
{
    assert(!is_absolute_text(name)) by {
        if name[0] == '/' {
            assert(name.contains('/'));
        }
    }
    lemma_split_state_text(Seq::<char>::empty(), name);
    assert(Seq::<char>::empty() + name =~= name);
    assert(split_state(Seq::<char>::empty()) == (Seq::<Seq<char>>::empty(), Seq::<char>::empty()));
    assert(path_segments(name) =~= seq![name]);
    assert(p + seq![name] =~= p.push(name));
}

/// A written path starts with `/`.
pub proof fn lemma_path_text_absolute(p: PathView)
    ensures
        is_absolute_text(path_text(p)),
    decreases p.len(),
{
    if p.len() > 0 {
        let q = p.drop_last();
        if q.len() == 0 {
            assert(joined_components(q) =~= Seq::<char>::empty());
            assert(joined_components(p) =~= seq!['/'] + p.last());
        } else {
            lemma_path_text_absolute(q);
            assert(joined_components(p)[0] == joined_components(q)[0]);
        }
    }
}

impl Clone for FsPath {
    fn clone(&self) -> (r: Self)
        ensures
            r@ == self@,
    {
        let mut components: Vec<String> = Vec::new();
        let n = self.components.len();
        for i in 0..n
            invariant
                n == self.components.len(),
                components@.map_values(|c: String| c@) =~= self@.take(i as int),
        {
            components.push(self.components[i].clone());
            assert(self@.take(i + 1) =~= self@.take(i as int).push(self@[i as int]));
        }
        assert(self@.take(n as int) =~= self@);
        FsPath { components }
    }
}

impl FsPath {
    /// The root directory.
    pub fn root() -> (r: FsPath)
        ensures
            r@ == Seq::<Seq<char>>::empty(),
    {
        let r = FsPath { components: Vec::new() };
        assert(r@ =~= Seq::<Seq<char>>::empty());
        r
    }

    pub fn is_root(&self) -> (b: bool)
        ensures
            b == (self@.len() == 0),
    {
        self.components.len() == 0
    }

    /// The path that a written path names.
    pub fn parse(s: &str) -> (r: FsPath)
        ensures
            r@ == path_segments(s@),
    {
        let n = s.unicode_len();
        let mut components: Vec<String> = Vec::new();
        let mut start: usize = 0;
        let mut i: usize = 0;
        assert(s@.take(0) =~= Seq::<char>::empty());
        assert(s@.subrange(0, 0) =~= Seq::<char>::empty());
        while i < n
            invariant
                n == s@.len(),
                start <= i <= n,
                split_state(s@.take(i as int)) == (
                    components@.map_values(|c: String| c@),
                    s@.subrange(start as int, i as int),
                ),
            decreases n - i,
        {
            let c = s.get_char(i);
            assert(s@.take(i + 1).drop_last() =~= s@.take(i as int));
            assert(s@.take(i + 1).last() == c);
            if c == '/' {
                let keep = start < i && !(i == start + 1 && s.get_char(start) == '.');
                let ghost cur = s@.subrange(start as int, i as int);
                if keep {
                    let piece = s.substring_char(start, i);
                    let owned = String::from_str(piece);
                    components.push(owned);
                    proof {
                        assert(cur != seq!['.']) by {
                            if cur == seq!['.'] {
                                assert(cur.len() == 1);
                                assert(cur[0] == s@[start as int]);
                            }
                        }
                    }
                } else {
                    proof {
                        if cur.len() > 0 {
                            assert(cur =~= seq!['.']);
                        }
                    }
                }
                start = i + 1;
            } else {
                assert(s@.subrange(start as int, i + 1) =~= s@.subrange(start as int, i as int).push(c));
            }
            i = i + 1;
            assert(s@.subrange(start as int, i as int).len() == i - start);
        }
        assert(s@.take(n as int) =~= s@);
        let ghost cur = s@.subrange(start as int, n as int);
        assert(cur.len() == n - start);
        let keep = start < n && !(n == start + 1 && s.get_char(start) == '.');
        if keep {
            let piece = s.substring_char(start, n);
            let owned = String::from_str(piece);
            components.push(owned);
            proof {
                assert(cur != seq!['.']) by {
                    if cur == seq!['.'] {
                        assert(cur[0] == s@[start as int]);
                    }
                }
            }
        } else {
            proof {
                if cur.len() > 0 {
                    assert(cur =~= seq!['.']);
                }
            }
        }
        let r = FsPath { components };
        assert(r@ =~= path_segments(s@));
        r
    }

    /// This path extended by the written path `name`.
    pub fn join(&self, name: &str) -> (r: FsPath)
        ensures
            r@ == join_spec(self@, name@),
    {
        let tail = FsPath::parse(name);
        let absolute = name.unicode_len() > 0 && name.get_char(0) == '/';
        if absolute {
            return tail;
        }
        let mut r = self.clone();
        let n = tail.components.len();
        let ghost base = r@;
        for i in 0..n
            invariant
                n == tail.components.len(),
                r@ =~= base + tail@.take(i as int),
        {
            let ghost before = r@;
            let c = tail.components[i].clone();
            r.components.push(c);
            assert(r@ =~= before.push(tail@[i as int]));
            assert(tail@.take(i + 1) =~= tail@.take(i as int).push(tail@[i as int]));
        }
        assert(tail@.take(n as int) =~= tail@);
        r
    }

    /// The directory holding this path; none at the root.
    pub fn parent(&self) -> (r: Option<FsPath>)
        ensures
            opt_path(r) == (if self@.len() > 0 {
                Some(self@.drop_last())
            } else {
                None::<PathView>
            }),
    {
        if self.components.len() == 0 {
            None
        } else {
            let mut r = self.clone();
            r.components.pop();
            assert(r@ =~= self@.drop_last());
            Some(r)
        }
    }

    /// The last component; none at the root or after `..`.
    pub fn file_name(&self) -> (r: Option<String>)
        ensures
            opt_text(r) == file_name_of(self@),
    {
        let n = self.components.len();
        if n == 0 {
            return None;
        }
        let last = self.components[n - 1].as_str();
        if last.unicode_len() == 2 && last.get_char(0) == '.' && last.get_char(1) == '.' {
            proof {
                assert(self@.last() =~= seq!['.', '.']);
            }
            return None;
        }
        proof {
            assert(self@.last() != seq!['.', '.']) by {
                if self@.last() == seq!['.', '.'] {
                    assert(last@[0] == '.' && last@[1] == '.');
                }
            }
        }
        Some(self.components[n - 1].clone())
    }

    /// This path with its file name replaced by `name`; where it has no file
    /// name, `name` is pushed.
    pub fn with_file_name(&self, name: &str) -> (r: FsPath)
        ensures
            r@ == with_file_name_spec(self@, name@),
    {
        let base = match self.file_name() {
            Some(_) => {
                let mut q = self.clone();
                q.components.pop();
                assert(q@ =~= self@.drop_last());
                q
            },
            None => self.clone(),
        };
        base.join(name)
    }

    /// The written form of this path.
    pub fn to_text(&self) -> (r: String)
        ensures
            r@ == path_text(self@),
    {
        let n = self.components.len();
        if n == 0 {
            let r = String::from_str("/");
            proof {
                reveal_strlit("/");
            }
            return r;
        }
        let mut r = String::new();
        proof {
            reveal_strlit("/");
            assert(self@.take(0) =~= Seq::<Seq<char>>::empty());
        }
        for i in 0..n
            invariant
                n == self.components.len(),
                n > 0,
                "/"@ == seq!['/'],
                r@ == joined_components(self@.take(i as int)),
        {
            r.append("/");
            r.append(self.components[i].as_str());
            assert(self@.take(i + 1).drop_last() =~= self@.take(i as int));
            assert(self@.take(i + 1).last() == self@[i as int]);
        }
        assert(self@.take(n as int) =~= self@);
        r
    }

    /// Whether both name the same path.
    pub fn same_as(&self, other: &FsPath) -> (b: bool)
        ensures
            b == (self@ == other@),
    {
        let n = self.components.len();
        if n != other.components.len() {
            proof {
                if self@ == other@ {
                    assert(self@.len() == other@.len());
                }
            }
            return false;
        }
        for i in 0..n
            invariant
                n == self.components.len(),
                n == other.components.len(),
                forall|j: int| 0 <= j < i ==> self@[j] == other@[j],
        {
            if self.components[i] != other.components[i] {
                proof {
                    assert(self@[i as int] != other@[i as int]);
                }
                return false;
            }
        }
        assert(self@ =~= other@);
        true
    }

    /// This path extended by the component `name`.
    pub fn child(&self, name: &String) -> (r: FsPath)
        ensures
            r@ == self@.push(name@),
    {
        let mut r = self.clone();
        let ghost before = r@;
        r.components.push(name.clone());
        assert(r@ =~= before.push(name@));
        r
    }

    /// Whether every component is one that a file tree accepts.
    pub fn has_valid_components(&self) -> (b: bool)
        ensures
            b == valid_components(self@),
    {
        let n = self.components.len();
        for i in 0..n
            invariant
                n == self.components.len(),
                forall|j: int| 0 <= j < i ==> valid_name(#[trigger] self@[j]),
        {
            if !is_valid_name(self.components[i].as_str()) {
                proof {
                    assert(!valid_name(self@[i as int]));
                }
                return false;
            }
        }
        true
    }
}

/// Whether `n` is a component that a file tree accepts.
pub fn is_valid_name(n: &str) -> (b: bool)
    ensures
        b == valid_name(n@),
{
    let len = n.unicode_len();
    if len == 0 {
        return false;
    }
    for i in 0..len
        invariant
            len == n@.len(),
            forall|j: int| 0 <= j < i ==> n@[j] != '/',
    {
        if n.get_char(i) == '/' {
            return false;
        }
    }
    if len == 1 && n.get_char(0) == '.' {
        proof {
            assert(n@ =~= seq!['.']);
        }
        return false;
    }
    if len == 2 && n.get_char(0) == '.' && n.get_char(1) == '.' {
        proof {
            assert(n@ =~= seq!['.', '.']);
        }
        return false;
    }
    proof {
        assert(!n@.contains('/'));
        assert(n@ != seq!['.']) by {
            if n@ == seq!['.'] {
                assert(n@[0] == '.');
            }
        }
        assert(n@ != seq!['.', '.']) by {
            if n@ == seq!['.', '.'] {
                assert(n@[0] == '.' && n@[1] == '.');
            }
        }
    }
    true
}

} // verus!
