use crate::filesystem::{FileSystemNode, NodeView};
use crate::path::{
    is_absolute_text, lemma_path_text_absolute, lemma_segments_of_path_text, path_segments,
    path_text, valid_components, FsPath, PathView,
};
use crate::messages::same_text;
use vstd::prelude::*;
use vstd::string::*;

verus! {

/// The reply that a chat is asked for.
#[derive(Clone, Copy, Debug, PartialEq, Eq, Structural)]
pub enum ChatSessionWaitReply {
    DirectoryName,
    FileName,
}

/// What a chat is doing, or what a button press asks for.
pub enum ChatSessionAction {
    CurrentDir,
    ParentDir,
    Back,
    FileOrDir(FsPath),
    Explorer,
    MkDir(Option<ChatSessionWaitReply>),
    SaveFile(Option<FileSystemNode>, Option<ChatSessionWaitReply>),
    RenameFile(Option<ChatSessionWaitReply>),
    MoveFile(Option<FsPath>),
    DeleteDir,
    DeleteFile,
}

pub enum ActionView {
    CurrentDir,
    ParentDir,
    Back,
    FileOrDir(PathView),
    Explorer,
    MkDir(Option<ChatSessionWaitReply>),
    SaveFile(Option<NodeView>, Option<ChatSessionWaitReply>),
    RenameFile(Option<ChatSessionWaitReply>),
    MoveFile(Option<PathView>),
    DeleteDir,
    DeleteFile,
}

impl View for ChatSessionAction {
    type V = ActionView;

    open spec fn view(&self) -> ActionView {
        match self {
            ChatSessionAction::CurrentDir => ActionView::CurrentDir,
            ChatSessionAction::ParentDir => ActionView::ParentDir,
            ChatSessionAction::Back => ActionView::Back,
            ChatSessionAction::FileOrDir(p) => ActionView::FileOrDir(p@),
            ChatSessionAction::Explorer => ActionView::Explorer,
            ChatSessionAction::MkDir(w) => ActionView::MkDir(*w),
            ChatSessionAction::SaveFile(n, w) => ActionView::SaveFile(
                match n {
                    Some(x) => Some(x@),
                    None => None,
                },
                *w,
            ),
            ChatSessionAction::RenameFile(w) => ActionView::RenameFile(*w),
            ChatSessionAction::MoveFile(p) => ActionView::MoveFile(
                match p {
                    Some(x) => Some(x@),
                    None => None,
                },
            ),
            ChatSessionAction::DeleteDir => ActionView::DeleteDir,
            ChatSessionAction::DeleteFile => ActionView::DeleteFile,
        }
    }
}

impl Clone for ChatSessionAction {
    fn clone(&self) -> (r: Self)
        ensures
            r@ == self@,
    {
        match self {
            ChatSessionAction::CurrentDir => ChatSessionAction::CurrentDir,
            ChatSessionAction::ParentDir => ChatSessionAction::ParentDir,
            ChatSessionAction::Back => ChatSessionAction::Back,
            ChatSessionAction::FileOrDir(p) => ChatSessionAction::FileOrDir(p.clone()),
            ChatSessionAction::Explorer => ChatSessionAction::Explorer,
            ChatSessionAction::MkDir(w) => ChatSessionAction::MkDir(*w),
            ChatSessionAction::SaveFile(n, w) => ChatSessionAction::SaveFile(
                match n {
                    Some(x) => Some(x.clone()),
                    None => None,
                },
                *w,
            ),
            ChatSessionAction::RenameFile(w) => ChatSessionAction::RenameFile(*w),
            ChatSessionAction::MoveFile(p) => ChatSessionAction::MoveFile(
                match p {
                    Some(x) => Some(x.clone()),
                    None => None,
                },
            ),
            ChatSessionAction::DeleteDir => ChatSessionAction::DeleteDir,
            ChatSessionAction::DeleteFile => ChatSessionAction::DeleteFile,
        }
    }
}

pub open spec fn opt_action(a: Option<ChatSessionAction>) -> Option<ActionView> {
    match a {
        Some(x) => Some(x@),
        None => None,
    }
}

/// The action that the data of a pressed button asks for: one of the fixed
/// words, else the entry at the written path.
pub open spec fn decode_action(s: Seq<char>) -> ActionView {
    if s == "."@ {
        ActionView::CurrentDir
    } else if s == ".."@ {
        ActionView::ParentDir
    } else if s == "back"@ {
        ActionView::Back
    } else if s == "explorer"@ {
        ActionView::Explorer
    } else if s == "mkdir"@ {
        ActionView::MkDir(None)
    } else if s == "save_file"@ {
        ActionView::SaveFile(None, None)
    } else if s == "rename_file"@ {
        ActionView::RenameFile(None)
    } else if s == "move_file"@ {
        ActionView::MoveFile(None)
    } else if s == "delete_dir"@ {
        ActionView::DeleteDir
    } else if s == "delete_file"@ {
        ActionView::DeleteFile
    } else {
        ActionView::FileOrDir(path_segments(s))
    }
}


impl ChatSessionAction {
    /// The action that the data of a pressed button asks for.
    pub fn from_callback_data(data: &str) -> (r: ChatSessionAction)
        ensures
            r@ == decode_action(data@),
    {
        if same_text(data, ".") {
            ChatSessionAction::CurrentDir
        } else if same_text(data, "..") {
            ChatSessionAction::ParentDir
        } else if same_text(data, "back") {
            ChatSessionAction::Back
        } else if same_text(data, "explorer") {
            ChatSessionAction::Explorer
        } else if same_text(data, "mkdir") {
            ChatSessionAction::MkDir(None)
        } else if same_text(data, "save_file") {
            ChatSessionAction::SaveFile(None, None)
        } else if same_text(data, "rename_file") {
            ChatSessionAction::RenameFile(None)
        } else if same_text(data, "move_file") {
            ChatSessionAction::MoveFile(None)
        } else if same_text(data, "delete_dir") {
            ChatSessionAction::DeleteDir
        } else if same_text(data, "delete_file") {
            ChatSessionAction::DeleteFile
        } else {
            ChatSessionAction::FileOrDir(FsPath::parse(data))
        }
    }
}

/// The written path of an entry, sent back by its button, is read back as that entry.
pub proof fn lemma_entry_data_round_trip(p: PathView)
    requires
        valid_components(p),
    ensures
        decode_action(path_text(p)) == ActionView::FileOrDir(p),
{
    lemma_path_text_absolute(p);
    lemma_segments_of_path_text(p);
    let t = path_text(p);
    reveal_strlit(".");
    reveal_strlit("..");
    reveal_strlit("back");
    reveal_strlit("explorer");
    reveal_strlit("mkdir");
    reveal_strlit("save_file");
    reveal_strlit("rename_file");
    reveal_strlit("move_file");
    reveal_strlit("delete_dir");
    reveal_strlit("delete_file");
    assert(t[0] == '/');
    assert(t != "."@);
    assert(t != ".."@);
    assert(t != "back"@);
    assert(t != "explorer"@);
    assert(t != "mkdir"@);
    assert(t != "save_file"@);
    assert(t != "rename_file"@);
    assert(t != "move_file"@);
    assert(t != "delete_dir"@);
    assert(t != "delete_file"@);
}

/// The dialogue state of one chat: where it is in its file tree and what it is doing.
pub struct ChatSession {
    pub current_path: FsPath,
    pub action: Option<ChatSessionAction>,
}

pub struct SessionView {
    pub path: PathView,
    pub action: Option<ActionView>,
}

impl View for ChatSession {
    type V = SessionView;

    open spec fn view(&self) -> SessionView {
        SessionView { path: self.current_path@, action: opt_action(self.action) }
    }
}

/// A chat at the root, doing nothing.
pub open spec fn fresh_session() -> SessionView {
    SessionView { path: Seq::empty(), action: None }
}

/// A file chosen to be moved has a file name.
pub open spec fn session_wf(s: SessionView) -> bool {
    s.action matches Some(ActionView::MoveFile(Some(p))) ==> crate::path::file_name_of(p) is Some
}

pub open spec fn with_action(s: SessionView, a: ActionView) -> SessionView {
    SessionView { action: Some(a), ..s }
}

pub open spec fn with_path(s: SessionView, p: PathView) -> SessionView {
    SessionView { path: p, ..s }
}

/// A failed step leaves the chat where it is, doing nothing.
pub open spec fn clear_action_if<T, E>(s: SessionView, r: Result<T, E>) -> SessionView {
    match r {
        Ok(_) => s,
        Err(_) => SessionView { action: None, ..s },
    }
}

impl Clone for ChatSession {
    fn clone(&self) -> (r: Self)
        ensures
            r@ == self@,
    {
        ChatSession {
            current_path: self.current_path.clone(),
            action: match &self.action {
                Some(a) => Some(a.clone()),
                None => None,
            },
        }
    }
}

impl Default for ChatSession {
    fn default() -> (r: Self)
        ensures
            r@ == fresh_session(),
    {
        ChatSession::new()
    }
}

impl ChatSession {
    pub fn new() -> (r: ChatSession)
        ensures
            r@ == fresh_session(),
    {
        ChatSession { current_path: FsPath::root(), action: None }
    }

    /// Back to the root, doing nothing.
    pub fn reset(&mut self)
        ensures
            final(self)@ == fresh_session(),
    {
        self.current_path = FsPath::root();
        self.action = None;
    }

    pub fn current_path(&self) -> (r: &FsPath)
        ensures
            r@ == self@.path,
    {
        &self.current_path
    }

    /// The written form of the current path.
    pub fn current_path_string(&self) -> (r: String)
        ensures
            r@ == path_text(self@.path),
    {
        self.current_path.to_text()
    }

    pub fn set_current_path(&mut self, path: FsPath)
        ensures
            final(self)@ == with_path(old(self)@, path@),
    {
        self.current_path = path;
    }

    pub fn action(&self) -> (r: Option<ChatSessionAction>)
        ensures
            opt_action(r) == self@.action,
    {
        match &self.action {
            Some(a) => Some(a.clone()),
            None => None,
        }
    }

    pub fn set_action(&mut self, action: ChatSessionAction)
        ensures
            final(self)@ == with_action(old(self)@, action@),
    {
        self.action = Some(action);
    }

    /// Forgets the action when a step failed.
    pub fn clear_action_on_error<T, E>(&mut self, res: &Result<T, E>)
        ensures
            final(self)@ == clear_action_if(old(self)@, *res),
    {
        if res.is_err() {
            self.action = None;
        }
    }
}

} // verus!
