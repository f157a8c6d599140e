use crate::chat_session::{decode_action, lemma_entry_data_round_trip, ActionView};
use crate::filesystem::{
    child_entries, fs_wf, is_dir, lemma_lookup_at, lookup, named_nodes_view, FileSystem, FsEntries,
    NodeView,
};
use crate::messages::{buttons_view, ButtonView, KeyboardButton};
use crate::path::{is_child_of, path_text, FsPath, PathView};
use vstd::prelude::*;
use vstd::string::*;

verus! {

pub open spec fn current_dir_button() -> ButtonView {
    ButtonView { label: "Select this directory"@, data: "."@ }
}

pub open spec fn parent_dir_button() -> ButtonView {
    ButtonView { label: ".."@, data: ".."@ }
}

pub open spec fn back_button() -> ButtonView {
    ButtonView { label: "Back"@, data: "back"@ }
}

/// The button that opens the entry `name` of `dir`.
pub open spec fn entry_button(dir: PathView, name: Seq<char>, node: NodeView) -> ButtonView {
    ButtonView {
        label: if node == NodeView::Directory {
            name + "/"@
        } else {
            name
        },
        data: path_text(dir.push(name)),
    }
}

/// A button for each subdirectory, and for each file when `with_files`, in the order of `entries`.
pub open spec fn entry_buttons(
    entries: Seq<(Seq<char>, NodeView)>,
    dir: PathView,
    with_files: bool,
) -> Seq<ButtonView>
    decreases entries.len(),
{
    if entries.len() == 0 {
        Seq::empty()
    } else {
        let rest = entry_buttons(entries.drop_last(), dir, with_files);
        let (name, node) = entries.last();
        if node == NodeView::Directory || with_files {
            rest.push(entry_button(dir, name, node))
        } else {
            rest
        }
    }
}

/// The keyboard that shows the directory `dir`: a button that picks `dir` when
/// `with_current_dir`, a button to its parent below the root, then its entries.
pub open spec fn directory_buttons(
    v: Seq<(PathView, NodeView)>,
    dir: PathView,
    with_files: bool,
    with_current_dir: bool,
) -> Seq<ButtonView> {
    (if with_current_dir {
        seq![current_dir_button()]
    } else {
        Seq::empty()
    }) + (if dir.len() > 0 {
        seq![parent_dir_button()]
    } else {
        Seq::empty()
    }) + entry_buttons(child_entries(v, dir), dir, with_files)
}

pub open spec fn err_no_directory() -> Seq<char> {
    "Directory not found"@
}

pub open spec fn directory_keyboard_spec(
    v: Seq<(PathView, NodeView)>,
    dir: PathView,
    with_files: bool,
    with_current_dir: bool,
) -> Result<Seq<ButtonView>, Seq<char>> {
    if is_dir(v, dir) {
        Ok(directory_buttons(v, dir, with_files, with_current_dir))
    } else {
        Err(err_no_directory())
    }
}

pub open spec fn keyboard_result_view(r: Result<Vec<KeyboardButton>, String>) -> Result<
    Seq<ButtonView>,
    Seq<char>,
> {
    match r {
        Ok(k) => Ok(buttons_view(k@)),
        Err(e) => Err(e@),
    }
}

fn button(label: &str, data: &str) -> (b: KeyboardButton)
    ensures
        b@ == (ButtonView { label: label@, data: data@ }),
{
    KeyboardButton { text: String::from_str(label), callback_data: String::from_str(data) }
}

/// The keyboard that shows the directory `dir` of `fs`.
pub fn directory_keyboard(
    fs: &FileSystem,
    dir: &FsPath,
    with_files: bool,
    with_current_dir: bool,
) -> (r: Result<Vec<KeyboardButton>, String>)
    requires
        fs.wf(),
    ensures
        keyboard_result_view(r) == directory_keyboard_spec(fs@, dir@, with_files, with_current_dir),
{
    let is_directory = match fs.get_node(dir) {
        Ok(node) => node.is_directory(),
        Err(_) => false,
    };
    if !is_directory {
        return Err(String::from_str("Directory not found"));
    }
    let mut k: Vec<KeyboardButton> = Vec::new();
    if with_current_dir {
        k.push(button("Select this directory", "."));
    }
    if !dir.is_root() {
        k.push(button("..", ".."));
    }
    let ghost head = buttons_view(k@);
    assert(head =~= (if with_current_dir {
        seq![current_dir_button()]
    } else {
        Seq::empty()
    }) + (if dir@.len() > 0 {
        seq![parent_dir_button()]
    } else {
        Seq::empty()
    }));
    let entries = fs.children(dir);
    let ghost ev = named_nodes_view(entries@);
    let n = entries.len();
    assert(ev.take(0) =~= Seq::<(Seq<char>, NodeView)>::empty());
    for i in 0..n
        invariant
            n == entries.len(),
            ev == named_nodes_view(entries@),
            buttons_view(k@) =~= head + entry_buttons(ev.take(i as int), dir@, with_files),
    {
        let ghost prefix = ev.take(i + 1);
        assert(prefix.drop_last() =~= ev.take(i as int));
        assert(prefix.last() == ev[i as int]);
        let is_sub = entries[i].1.is_directory();
        if is_sub || with_files {
            let mut label = entries[i].0.clone();
            if is_sub {
                label.append("/");
            }
            let data = dir.child(&entries[i].0).to_text();
            let ghost before = buttons_view(k@);
            k.push(KeyboardButton { text: label, callback_data: data });
            assert(buttons_view(k@) =~= before.push(
                entry_button(dir@, ev[i as int].0, ev[i as int].1),
            ));
        }
    }
    assert(ev.take(n as int) =~= ev);
    Ok(k)
}

/// A keyboard with the single button that goes one step back.
pub fn back_inline_keyboard() -> (r: Vec<KeyboardButton>)
    ensures
        buttons_view(r@) == seq![back_button()],
{
    let mut k: Vec<KeyboardButton> = Vec::new();
    k.push(button("Back", "back"));
    assert(buttons_view(k@) =~= seq![back_button()]);
    k
}


proof fn lemma_child_entry_source(v: FsEntries, dir: PathView, k: int) -> (j: int)
    requires
        0 <= k < child_entries(v, dir).len(),
    ensures
        0 <= j < v.len(),
        v[j].0 == dir.push(child_entries(v, dir)[k].0),
        v[j].1 == child_entries(v, dir)[k].1,
    decreases v.len(),
{
    let rest = child_entries(v.drop_last(), dir);
    if k < rest.len() {
        let j = lemma_child_entry_source(v.drop_last(), dir, k);
        assert(v.drop_last()[j] == v[j]);
        j
    } else {
        let e = v.last().0;
        assert(is_child_of(e, dir));
        assert(e =~= dir.push(e.last())) by {
            assert(e.subrange(0, dir.len() as int) == dir);
            assert forall|i: int| 0 <= i < e.len() implies e[i] == dir.push(e.last())[i] by {
                if i < dir.len() {
                    assert(e[i] == e.subrange(0, dir.len() as int)[i]);
                }
            }
        }
        (v.len() - 1) as int
    }
}

proof fn lemma_entry_button_source(
    entries: Seq<(Seq<char>, NodeView)>,
    dir: PathView,
    files: bool,
    k: int,
) -> (i: int)
    requires
        0 <= k < entry_buttons(entries, dir, files).len(),
    ensures
        0 <= i < entries.len(),
        entry_buttons(entries, dir, files)[k] == entry_button(dir, entries[i].0, entries[i].1),
    decreases entries.len(),
{
    let rest = entry_buttons(entries.drop_last(), dir, files);
    if k < rest.len() {
        let i = lemma_entry_button_source(entries.drop_last(), dir, files, k);
        assert(entries.drop_last()[i] == entries[i]);
        i
    } else {
        (entries.len() - 1) as int
    }
}

/// Every button of a directory keyboard sends back data that reads as the
/// current directory, the parent directory, or an entry of the directory
/// that the tree holds.
pub proof fn lemma_keyboard_buttons_decode(
    v: FsEntries,
    dir: PathView,
    files: bool,
    current: bool,
    i: int,
)
    requires
        fs_wf(v),
        0 <= i < directory_buttons(v, dir, files, current).len(),
    ensures
        ({
            let a = decode_action(directory_buttons(v, dir, files, current)[i].data);
            ||| a == ActionView::CurrentDir
            ||| a == ActionView::ParentDir
            ||| (a matches ActionView::FileOrDir(q) && is_child_of(q, dir) && lookup(v, q) is Some)
        }),
{
    reveal_strlit(".");
    reveal_strlit("..");
    let h1: Seq<ButtonView> = if current {
        seq![current_dir_button()]
    } else {
        Seq::empty()
    };
    let h2: Seq<ButtonView> = if dir.len() > 0 {
        seq![parent_dir_button()]
    } else {
        Seq::empty()
    };
    let entries = child_entries(v, dir);
    let eb = entry_buttons(entries, dir, files);
    let bs = directory_buttons(v, dir, files, current);
    assert(bs == h1 + h2 + eb);
    if i < h1.len() {
        assert(bs[i] == current_dir_button());
    } else if i < h1.len() + h2.len() {
        assert(bs[i] == parent_dir_button());
        assert(".."@.len() == 2);
        assert("."@.len() == 1);
    } else {
        let k = i - h1.len() - h2.len();
        assert(bs[i] == eb[k]);
        let ei = lemma_entry_button_source(entries, dir, files, k);
        let j = lemma_child_entry_source(v, dir, ei);
        let q = v[j].0;
        assert(q == dir.push(entries[ei].0));
        lemma_entry_data_round_trip(q);
        lemma_lookup_at(v, j);
        assert(q.subrange(0, dir.len() as int) =~= dir);
    }
}


proof fn lemma_child_entry_listed(v: FsEntries, dir: PathView, j: int) -> (k: int)
    requires
        0 <= j < v.len(),
        is_child_of(v[j].0, dir),
    ensures
        0 <= k < child_entries(v, dir).len(),
        child_entries(v, dir)[k] == (v[j].0.last(), v[j].1),
    decreases v.len(),
{
    let rest = child_entries(v.drop_last(), dir);
    if j == v.len() - 1 {
        rest.len() as int
    } else {
        assert(v.drop_last()[j] == v[j]);
        lemma_child_entry_listed(v.drop_last(), dir, j)
    }
}

proof fn lemma_entry_listed(
    entries: Seq<(Seq<char>, NodeView)>,
    dir: PathView,
    files: bool,
    k: int,
) -> (i: int)
    requires
        0 <= k < entries.len(),
        entries[k].1 == NodeView::Directory || files,
    ensures
        0 <= i < entry_buttons(entries, dir, files).len(),
        entry_buttons(entries, dir, files)[i] == entry_button(dir, entries[k].0, entries[k].1),
    decreases entries.len(),
{
    let rest = entry_buttons(entries.drop_last(), dir, files);
    if k == entries.len() - 1 {
        rest.len() as int
    } else {
        assert(entries.drop_last()[k] == entries[k]);
        lemma_entry_listed(entries.drop_last(), dir, files, k)
    }
}

/// Every entry of a directory that the tree holds has a button in the
/// directory's keyboard, whose data is the entry's written path: every
/// subdirectory, and every file when the keyboard shows files.
pub proof fn lemma_keyboard_shows_entries(
    v: FsEntries,
    dir: PathView,
    files: bool,
    current: bool,
    q: PathView,
)
    requires
        is_child_of(q, dir),
        lookup(v, q) is Some,
        lookup(v, q) == Some(NodeView::Directory) || files,
    ensures
        exists|i: int|
            0 <= i < directory_buttons(v, dir, files, current).len()
                && (#[trigger] directory_buttons(v, dir, files, current)[i]).data == path_text(q),
{
    let j = crate::filesystem::path_index(v, q);
    assert(crate::filesystem::stores(v, q));
    assert(v[j].0 == q);
    let entries = child_entries(v, dir);
    let k = lemma_child_entry_listed(v, dir, j);
    let ei = lemma_entry_listed(entries, dir, files, k);
    assert(q =~= dir.push(q.last())) by {
        assert forall|t: int| 0 <= t < q.len() implies q[t] == dir.push(q.last())[t] by {
            if t < dir.len() {
                assert(q[t] == q.subrange(0, dir.len() as int)[t]);
            }
        }
    }
    let h1: Seq<ButtonView> = if current {
        seq![current_dir_button()]
    } else {
        Seq::empty()
    };
    let h2: Seq<ButtonView> = if dir.len() > 0 {
        seq![parent_dir_button()]
    } else {
        Seq::empty()
    };
    let bs = directory_buttons(v, dir, files, current);
    let eb = entry_buttons(entries, dir, files);
    assert(bs == h1 + h2 + eb);
    let i = h1.len() + h2.len() + ei;
    assert(bs[i] == eb[ei]);
    assert(bs[i].data == path_text(q));
}

} // verus!
