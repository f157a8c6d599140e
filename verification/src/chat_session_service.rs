use crate::chat_session::{
    clear_action_if, decode_action, fresh_session, session_wf, with_action, with_path, ActionView,
    ChatSession, ChatSessionAction, ChatSessionWaitReply, SessionView,
};
use crate::command::{parse_command, Command};
use crate::command_service::{command_step, CommandService, CommandServiceImpl};
use crate::file_operation_service::{
    delete_dir_step, delete_file_step, err_no_file_name, err_not_supported, explorer_step,
    keyboard_reply, mkdir_step, move_file_step, process_file_step, rename_file_step,
    save_file_step, FileOperationService, FileOperationServiceImpl, Step,
};
use crate::filesystem::{fs_wf, lookup, FileSystem, FsEntries, NodeView};
use crate::keyboard::{back_button, back_inline_keyboard, directory_keyboard, directory_keyboard_spec};
use crate::messages;
use crate::messages::{
    edit_view, generic_error_text, reply_view, text_contains, text_reply, with_keyboard,
    with_reply_to, with_text, ChatId, MessageParams, MessageView,
};
use crate::path::{opt_text, path_text, FsPath, PathView};
use crate::update::{attachment_view, CallbackQueryInput, IncomingMessage};
use std::collections::HashMap;
use vstd::prelude::*;
use vstd::string::*;
use vstd::utf8::encode_utf8;

verus! {

broadcast use vstd::std_specs::hash::group_hash_axioms;

/// The tag that the type of a file without one starts with.
pub open spec fn file_type_prefix() -> Seq<char> {
    "telegram/"@
}

/// The commands after which a chat keeps its place in the tree.
pub open spec fn keeps_path(c: Command) -> bool {
    c == Command::DeleteDir || c == Command::DeleteFile || c == Command::Automation
}

pub open spec fn step_of(r: (Result<MessageView, Seq<char>>, SessionView), fv: FsEntries) -> Step {
    Step { reply: r.0, session: r.1, fs: fv }
}

pub open spec fn answer_step(sv: SessionView, fv: FsEntries, r: Result<MessageView, Seq<char>>) -> Step {
    Step { reply: r, session: sv, fs: fv }
}

/// A message that holds a file and no text.
pub open spec fn attachment_step(sv: SessionView, fv: FsEntries, chat: u64, m: IncomingMessage) -> Step {
    let id = m.message_id;
    if m.document is Some {
        let a = attachment_view(m.document)->0;
        process_file_step(fv, chat, id, a.file_size, a.mime_type)
    } else if m.photo is Some {
        process_file_step(fv, chat, id, m.photo->0@[0], Some("jpeg"@))
    } else if m.video is Some {
        let a = attachment_view(m.video)->0;
        process_file_step(fv, chat, id, a.file_size, a.mime_type)
    } else if m.video_note is Some {
        process_file_step(fv, chat, id, m.video_note->0, Some(file_type_prefix() + "video_note"@))
    } else if m.audio is Some {
        let a = attachment_view(m.audio)->0;
        process_file_step(fv, chat, id, a.file_size, a.mime_type)
    } else if m.voice is Some {
        let a = attachment_view(m.voice)->0;
        process_file_step(fv, chat, id, a.file_size, a.mime_type)
    } else if m.sticker is Some {
        process_file_step(fv, chat, id, m.sticker->0, Some(file_type_prefix() + "sticker"@))
    } else if m.has_contact {
        process_file_step(fv, chat, id, None, Some(file_type_prefix() + "contact"@))
    } else {
        answer_step(sv, fv, Ok(text_reply(chat, generic_error_text())))
    }
}

/// A message that holds text and no command: the reply that the chat waits for, or a file.
pub open spec fn text_step(sv: SessionView, fv: FsEntries, chat: u64, m: IncomingMessage, t: Seq<char>) -> Step {
    match sv.action {
        Some(ActionView::MkDir(Some(ChatSessionWaitReply::DirectoryName))) => mkdir_step(sv, fv, chat, t),
        Some(ActionView::SaveFile(Some(node), Some(ChatSessionWaitReply::FileName))) => save_file_step(sv, fv, chat, node, t),
        Some(ActionView::RenameFile(Some(ChatSessionWaitReply::FileName))) => rename_file_step(sv, fv, chat, t),
        Some(_) => answer_step(sv, fv, Ok(text_reply(chat, generic_error_text()))),
        None => process_file_step(
            fv,
            chat,
            m.message_id,
            Some(encode_utf8(t).len() as usize as u64),
            Some(file_type_prefix() + "text"@),
        ),
    }
}

/// A message, before a failure clears the chat's action.
pub open spec fn message_inner_step(sv: SessionView, fv: FsEntries, chat: u64, m: IncomingMessage) -> Step {
    match parse_command(opt_text(m.text), m.first_entity) {
        Ok(c) => {
            let base = if keeps_path(c) { with_path(fresh_session(), sv.path) } else { fresh_session() };
            step_of(command_step(base, fv, chat, c), fv)
        },
        Err(_) => match m.text {
            Some(t) => text_step(sv, fv, chat, m, t@),
            None => attachment_step(sv, fv, chat, m),
        },
    }
}

/// The reply to a message, and the chat and its tree after it.
pub open spec fn message_step(sv: SessionView, fv: FsEntries, chat: u64, m: IncomingMessage) -> Step {
    let s = message_inner_step(sv, fv, chat, m);
    Step { reply: s.reply, session: clear_action_if(s.session, s.reply), fs: s.fs }
}

/// The message can be read without the failures that stop the bot.
pub open spec fn message_readable(m: IncomingMessage) -> bool {
    &&& crate::command::command_readable(opt_text(m.text), m.first_entity)
    &&& (m.text is None && m.document is None && m.photo is Some) ==> m.photo->0@.len() > 0
}

/// A message asks for the automation when it holds that command and the command was answered.
pub open spec fn starts_automation(m: IncomingMessage, reply: Result<MessageView, Seq<char>>) -> bool {
    parse_command(opt_text(m.text), m.first_entity) == Ok::<Command, Seq<char>>(Command::Automation) && reply is Ok
}

pub open spec fn copy_text(e: MessageView, r: Result<MessageView, Seq<char>>) -> Result<MessageView, Seq<char>> {
    match r {
        Ok(m) => Ok(with_text(e, m.text->0)),
        Err(x) => Err(x),
    }
}

pub open spec fn err_parent_not_dir() -> Seq<char> {
    "Parent is not a directory"@
}

pub open spec fn err_invalid_action() -> Seq<char> {
    "invalid action"@
}

pub open spec fn not_supported(sv: SessionView, fv: FsEntries) -> Step {
    answer_step(sv, fv, Err(err_not_supported()))
}

/// The chat shown at `p`: it moves there, the text is `t`, the keyboard is of `p`.
pub open spec fn show_step(sv: SessionView, fv: FsEntries, e: MessageView, p: PathView, t: Seq<char>, files: bool, current: bool) -> Step {
    Step {
        reply: keyboard_reply(with_text(e, t), directory_keyboard_spec(fv, p, files, current)),
        session: with_path(sv, p),
        fs: fv,
    }
}

/// The button that picks the current directory.
pub open spec fn current_dir_step(sv: SessionView, fv: FsEntries, chat: u64, e: MessageView, cur: ActionView) -> Step {
    let here = path_text(sv.path);
    match cur {
        ActionView::MkDir(None) => Step {
            reply: Ok(with_keyboard(with_text(e, messages::ask_directory_name_message_text(here)), seq![back_button()])),
            session: with_action(sv, ActionView::MkDir(Some(ChatSessionWaitReply::DirectoryName))),
            fs: fv,
        },
        ActionView::SaveFile(Some(n), None) => Step {
            reply: Ok(with_keyboard(with_text(e, messages::ask_file_name_message_text(here)), seq![back_button()])),
            session: with_action(sv, ActionView::SaveFile(Some(n), Some(ChatSessionWaitReply::FileName))),
            fs: fv,
        },
        ActionView::MoveFile(Some(from)) => {
            let (r, f2) = move_file_step(fv, chat, from, sv.path);
            Step { reply: copy_text(e, r), session: sv, fs: f2 }
        },
        _ => not_supported(sv, fv),
    }
}

/// The button that goes to the parent directory.
pub open spec fn parent_dir_step(sv: SessionView, fv: FsEntries, e: MessageView, cur: ActionView) -> Step {
    let parent = if sv.path.len() > 0 { sv.path.drop_last() } else { sv.path };
    let pt = path_text(parent);
    match cur {
        ActionView::Explorer => match lookup(fv, parent) {
            None => answer_step(sv, fv, Err(crate::filesystem::err_not_found())),
            Some(NodeView::Directory) => show_step(sv, fv, e, parent, messages::explorer_message_text(pt), true, false),
            Some(_) => answer_step(sv, fv, Err(err_parent_not_dir())),
        },
        ActionView::MkDir(_) => show_step(sv, fv, e, parent, messages::mkdir_message_text(pt), false, true),
        ActionView::SaveFile(Some(_), None) => show_step(sv, fv, e, parent, messages::create_file_message_text(pt), false, true),
        ActionView::RenameFile(_) => show_step(sv, fv, e, parent, messages::rename_file_message_text(pt), true, false),
        ActionView::MoveFile(Some(from)) => show_step(sv, fv, e, parent, messages::move_file_select_destination_message_text(path_text(from)), false, true),
        ActionView::MoveFile(None) => show_step(sv, fv, e, parent, messages::move_file_select_file_message_text(pt), true, false),
        ActionView::DeleteFile => show_step(sv, fv, e, parent, messages::delete_file_message_text(pt), true, false),
        _ => not_supported(sv, fv),
    }
}

/// The reply of a directory deletion, made an edit of the pressed message.
pub open spec fn delete_dir_edit(e: MessageView, m: MessageView) -> MessageView {
    let e2 = with_text(e, m.text->0);
    match m.keyboard {
        Some(k) => with_keyboard(e2, k),
        None => e2,
    }
}

/// The entry at `p` pressed while exploring: a directory is entered, a file is answered.
pub open spec fn entry_explorer_step(sv: SessionView, fv: FsEntries, chat: u64, e: MessageView, p: PathView) -> Step {
    match lookup(fv, p) {
        None => answer_step(sv, fv, Err(crate::filesystem::err_not_found())),
        Some(NodeView::Directory) => show_step(sv, fv, e, p, messages::explorer_message_text(path_text(p)), true, false),
        Some(_) => answer_step(sv, fv, explorer_step(fv, chat, p)),
    }
}

/// The entry at `p` pressed while choosing a file to rename.
pub open spec fn entry_rename_step(sv: SessionView, fv: FsEntries, chat: u64, e: MessageView, p: PathView) -> Step {
    match lookup(fv, p) {
        None => answer_step(sv, fv, Err(crate::filesystem::err_not_found())),
        Some(NodeView::Directory) => show_step(sv, fv, e, p, messages::rename_file_message_text(path_text(p)), true, false),
        Some(NodeView::File { message_id, .. }) => if p.len() == 0 {
            answer_step(sv, fv, Err(err_no_file_name()))
        } else {
            Step {
                reply: Ok(with_reply_to(text_reply(chat, messages::ask_rename_file_message_text(p.last(), path_text(sv.path))), message_id)),
                session: with_action(with_path(sv, p), ActionView::RenameFile(Some(ChatSessionWaitReply::FileName))),
                fs: fv,
            }
        },
    }
}

/// The entry at `p` pressed while moving a file: a directory is entered, a file is chosen.
pub open spec fn entry_move_step(sv: SessionView, fv: FsEntries, chat: u64, e: MessageView, p: PathView, from: Option<PathView>) -> Step {
    match lookup(fv, p) {
        None => answer_step(sv, fv, Err(crate::filesystem::err_not_found())),
        Some(NodeView::Directory) => match from {
            Some(f) => show_step(sv, fv, e, p, messages::move_file_select_destination_message_text(path_text(f)), false, true),
            None => show_step(sv, fv, e, p, messages::move_file_select_file_message_text(path_text(p)), true, false),
        },
        Some(NodeView::File { message_id, .. }) => Step {
            reply: keyboard_reply(
                with_reply_to(text_reply(chat, messages::move_file_select_destination_message_text(path_text(p))), message_id),
                directory_keyboard_spec(fv, Seq::empty(), false, true),
            ),
            session: with_action(with_path(sv, Seq::empty()), ActionView::MoveFile(Some(p))),
            fs: fv,
        },
    }
}

/// The entry at `p` pressed while deleting a file: a directory is entered, a file is deleted.
pub open spec fn entry_delete_file_step(sv: SessionView, fv: FsEntries, chat: u64, e: MessageView, p: PathView) -> Step {
    match lookup(fv, p) {
        None => answer_step(sv, fv, Err(crate::filesystem::err_not_found())),
        Some(NodeView::Directory) => show_step(sv, fv, e, p, messages::delete_file_message_text(path_text(p)), true, false),
        Some(_) => {
            let (r, f2) = delete_file_step(fv, chat, p, sv.path);
            match r {
                Ok(m) => Step { reply: Ok(with_text(e, m.text->0)), session: fresh_session(), fs: f2 },
                Err(x) => answer_step(sv, fv, Err(x)),
            }
        },
    }
}

/// The node at `p` is a directory that holds nothing.
pub open spec fn is_empty_dir(fv: FsEntries, p: PathView) -> bool {
    lookup(fv, p) == Some(NodeView::Directory) && !crate::filesystem::has_children(fv, p)
}

/// The entry at `p` pressed while deleting a directory; the chat starts over
/// exactly when the directory was deleted, and otherwise stays as it was.
pub open spec fn entry_delete_dir_step(sv: SessionView, fv: FsEntries, chat: u64, e: MessageView, p: PathView) -> Step {
    let (r, f2) = delete_dir_step(fv, chat, p, sv.path);
    match r {
        Ok(m) => Step {
            reply: Ok(delete_dir_edit(e, m)),
            session: if is_empty_dir(fv, p) { fresh_session() } else { sv },
            fs: f2,
        },
        Err(x) => answer_step(sv, fv, Err(x)),
    }
}

/// The button of the entry at `p`.
pub open spec fn entry_step(sv: SessionView, fv: FsEntries, chat: u64, e: MessageView, p: PathView, cur: ActionView) -> Step {
    let pt = path_text(p);
    match cur {
        ActionView::Explorer => entry_explorer_step(sv, fv, chat, e, p),
        ActionView::MkDir(_) => show_step(sv, fv, e, p, messages::mkdir_message_text(pt), false, true),
        ActionView::SaveFile(Some(_), None) => show_step(sv, fv, e, p, messages::create_file_message_text(pt), false, true),
        ActionView::RenameFile(None) => entry_rename_step(sv, fv, chat, e, p),
        ActionView::MoveFile(from) => entry_move_step(sv, fv, chat, e, p, from),
        ActionView::DeleteFile => entry_delete_file_step(sv, fv, chat, e, p),
        ActionView::DeleteDir => entry_delete_dir_step(sv, fv, chat, e, p),
        _ => not_supported(sv, fv),
    }
}

/// The button that goes one step back in a dialogue.
pub open spec fn back_step(sv: SessionView, fv: FsEntries, e: MessageView, cur: ActionView) -> Step {
    let here = path_text(sv.path);
    match cur {
        ActionView::MkDir(Some(_)) => Step {
            reply: keyboard_reply(with_text(e, messages::mkdir_message_text(here)), directory_keyboard_spec(fv, sv.path, false, true)),
            session: with_action(sv, ActionView::MkDir(None)),
            fs: fv,
        },
        ActionView::SaveFile(Some(n), Some(_)) => Step {
            reply: keyboard_reply(with_text(e, messages::create_file_message_text(here)), directory_keyboard_spec(fv, sv.path, false, true)),
            session: with_action(sv, ActionView::SaveFile(Some(n), None)),
            fs: fv,
        },
        _ => not_supported(sv, fv),
    }
}

/// A pressed button `a` while the chat does `cur`; `e` is the edit of the pressed message.
pub open spec fn press_step(sv: SessionView, fv: FsEntries, chat: u64, e: MessageView, a: ActionView, cur: ActionView) -> Step {
    match a {
        ActionView::CurrentDir => current_dir_step(sv, fv, chat, e, cur),
        ActionView::ParentDir => parent_dir_step(sv, fv, e, cur),
        ActionView::FileOrDir(p) => entry_step(sv, fv, chat, e, p, cur),
        ActionView::Back => back_step(sv, fv, e, cur),
        _ => answer_step(sv, fv, Err(err_invalid_action())),
    }
}

pub open spec fn err_no_data() -> Seq<char> {
    "Data not found in callback query"@
}

pub open spec fn err_no_message() -> Seq<char> {
    "Message not found in callback query"@
}

pub open spec fn err_no_action() -> Seq<char> {
    "UpdateContent::CallbackQuery: No action in chat session"@
}

/// A pressed button, before a failure clears the chat's action.
pub open spec fn callback_inner_step(sv: SessionView, fv: FsEntries, chat: u64, q: CallbackQueryInput) -> Step {
    match q.data {
        None => answer_step(sv, fv, Err(err_no_data())),
        Some(d) => match q.message_id {
            None => answer_step(sv, fv, Err(err_no_message())),
            Some(mid) => match sv.action {
                None => answer_step(sv, fv, Err(err_no_action())),
                Some(cur) => press_step(sv, fv, chat, edit_view(chat, mid), decode_action(d@), cur),
            },
        },
    }
}

/// The reply to a pressed button, and the chat and its tree after it.
pub open spec fn callback_step(sv: SessionView, fv: FsEntries, chat: u64, q: CallbackQueryInput) -> Step {
    let s = callback_inner_step(sv, fv, chat, q);
    Step { reply: s.reply, session: clear_action_if(s.session, s.reply), fs: s.fs }
}

/// A run of the automation that the bot owes a chat: the path it was asked
/// for and the chat's tree as it was then.
pub struct AutomationJob {
    pub chat_id: ChatId,
    pub path: FsPath,
    pub filesystem: FileSystem,
}

pub struct JobView {
    pub chat: u64,
    pub path: PathView,
    pub fs: FsEntries,
}

impl View for AutomationJob {
    type V = JobView;

    open spec fn view(&self) -> JobView {
        JobView { chat: self.chat_id.0, path: self.path@, fs: self.filesystem@ }
    }
}

pub open spec fn jobs_view(v: Seq<AutomationJob>) -> Seq<JobView> {
    v.map_values(|j: AutomationJob| j@)
}

/// The chats of the bot: the dialogue state and the file tree of each, and the
/// automation runs it still owes.
pub struct ChatSessionServiceImpl {
    chat_sessions: HashMap<u64, ChatSession>,
    filesystems: HashMap<u64, FileSystem>,
    command_service: CommandServiceImpl,
    file_operation_service: FileOperationServiceImpl,
    pending_automations: Vec<AutomationJob>,
}

/// The state of a chat that the bot has not seen before.
pub open spec fn session_or_fresh(m: Map<u64, SessionView>, chat: u64) -> SessionView {
    if m.contains_key(chat) { m[chat] } else { fresh_session() }
}

/// The tree of a chat that the bot has not seen before holds only the root.
pub open spec fn fs_or_empty(m: Map<u64, FsEntries>, chat: u64) -> FsEntries {
    if m.contains_key(chat) { m[chat] } else { Seq::empty() }
}

impl ChatSessionServiceImpl {
    pub closed spec fn sessions(&self) -> Map<u64, SessionView> {
        self.chat_sessions@.map_values(|s: ChatSession| s@)
    }

    pub closed spec fn filesystems(&self) -> Map<u64, FsEntries> {
        self.filesystems@.map_values(|f: FileSystem| f@)
    }

    pub closed spec fn pending(&self) -> Seq<JobView> {
        jobs_view(self.pending_automations@)
    }

    /// Every tree is a tree and every chat state is sound.
    pub open spec fn inv(&self) -> bool {
        &&& forall|k: u64| #[trigger] self.filesystems().contains_key(k) ==> fs_wf(self.filesystems()[k])
        &&& forall|k: u64| #[trigger] self.sessions().contains_key(k) ==> session_wf(self.sessions()[k])
        &&& forall|i: int| 0 <= i < self.pending().len() ==> fs_wf(#[trigger] self.pending()[i].fs)
    }

    proof fn lemma_inv_after_session(&self, before: Self, k: u64)
        requires
            before.inv(),
            self.sessions().contains_key(k),
            session_wf(self.sessions()[k]),
            self.sessions() == before.sessions().insert(k, self.sessions()[k]),
            self.filesystems() == before.filesystems(),
            self.pending() == before.pending(),
        ensures
            self.inv(),
    {
        assert forall|j: u64| #[trigger] self.sessions().contains_key(j) implies session_wf(self.sessions()[j]) by {
            if j != k {
                assert(before.sessions().contains_key(j));
            }
        }
        assert forall|j: u64| #[trigger] self.filesystems().contains_key(j) implies fs_wf(self.filesystems()[j]) by {
            assert(before.filesystems().contains_key(j));
        }
        assert forall|i: int| 0 <= i < self.pending().len() implies fs_wf(#[trigger] self.pending()[i].fs) by {
            assert(before.pending()[i] == self.pending()[i]);
        }
    }

    proof fn lemma_inv_after_fs(&self, before: Self, k: u64)
        requires
            before.inv(),
            self.filesystems().contains_key(k),
            fs_wf(self.filesystems()[k]),
            self.filesystems() == before.filesystems().insert(k, self.filesystems()[k]),
            self.sessions() == before.sessions(),
            self.pending() == before.pending(),
        ensures
            self.inv(),
    {
        assert forall|j: u64| #[trigger] self.filesystems().contains_key(j) implies fs_wf(self.filesystems()[j]) by {
            if j != k {
                assert(before.filesystems().contains_key(j));
            }
        }
        assert forall|j: u64| #[trigger] self.sessions().contains_key(j) implies session_wf(self.sessions()[j]) by {
            assert(before.sessions().contains_key(j));
        }
        assert forall|i: int| 0 <= i < self.pending().len() implies fs_wf(#[trigger] self.pending()[i].fs) by {
            assert(before.pending()[i] == self.pending()[i]);
        }
    }

    /// No chat seen yet.
    pub fn new() -> (r: Self)
        ensures
            r.inv(),
            r.sessions() == Map::<u64, SessionView>::empty(),
            r.filesystems() == Map::<u64, FsEntries>::empty(),
            r.pending() == Seq::<JobView>::empty(),
    {
        let r = ChatSessionServiceImpl {
            chat_sessions: HashMap::new(),
            filesystems: HashMap::new(),
            command_service: CommandServiceImpl::new(),
            file_operation_service: FileOperationServiceImpl::new(),
            pending_automations: Vec::new(),
        };
        assert(r.sessions() =~= Map::<u64, SessionView>::empty());
        assert(r.filesystems() =~= Map::<u64, FsEntries>::empty());
        assert(r.pending() =~= Seq::<JobView>::empty());
        r
    }

    /// The state of the chat, made fresh and kept if the bot has not seen it.
    pub fn get_or_create_chat_session(&mut self, chat_id: &ChatId) -> (r: ChatSession)
        requires
            old(self).inv(),
        ensures
            final(self).inv(),
            r@ == session_or_fresh(old(self).sessions(), chat_id.0),
            final(self).sessions() == old(self).sessions().insert(chat_id.0, r@),
            final(self).filesystems() == old(self).filesystems(),
            final(self).pending() == old(self).pending(),
    {
        let ghost old_map = self.chat_sessions@;
        match self.chat_sessions.get(&chat_id.0) {
            Some(s) => {
                let r = s.clone();
                assert(self.sessions() =~= self.sessions().insert(chat_id.0, r@));
                r
            },
            None => {
                let r = ChatSession::new();
                self.chat_sessions.insert(chat_id.0, r.clone());
                assert(self.sessions() =~= old_map.map_values(|s: ChatSession| s@).insert(chat_id.0, r@));
                proof {
                    self.lemma_inv_after_session(*old(self), chat_id.0);
                }
                r
            },
        }
    }

    /// Keeps `chat_session` as the state of the chat.
    pub fn update_chat_session(&mut self, chat_id: ChatId, chat_session: ChatSession)
        requires
            old(self).inv(),
            session_wf(chat_session@),
        ensures
            final(self).inv(),
            final(self).sessions() == old(self).sessions().insert(chat_id.0, chat_session@),
            final(self).filesystems() == old(self).filesystems(),
            final(self).pending() == old(self).pending(),
    {
        let ghost old_map = self.chat_sessions@;
        let ghost v = chat_session@;
        self.chat_sessions.insert(chat_id.0, chat_session);
        assert(self.sessions() =~= old_map.map_values(|s: ChatSession| s@).insert(chat_id.0, v));
        proof {
            self.lemma_inv_after_session(*old(self), chat_id.0);
        }
    }

    /// How many chats the bot has seen, as a 32-bit count.
    pub fn get_chat_sessions_count(&self) -> (r: u32)
        ensures
            r == self.sessions().len() as u32,
    {
        assert(self.sessions().dom() =~= self.chat_sessions@.dom());
        self.chat_sessions.len() as u32
    }

    /// The tree of the chat, made empty and kept if the bot has not seen it.
    pub fn get_or_create_filesystem(&mut self, chat_id: &ChatId) -> (r: FileSystem)
        requires
            old(self).inv(),
        ensures
            final(self).inv(),
            r.wf(),
            r@ == fs_or_empty(old(self).filesystems(), chat_id.0),
            final(self).filesystems() == old(self).filesystems().insert(chat_id.0, r@),
            final(self).sessions() == old(self).sessions(),
            final(self).pending() == old(self).pending(),
    {
        let ghost old_map = self.filesystems@;
        match self.filesystems.get(&chat_id.0) {
            Some(f) => {
                let r = f.clone();
                assert(self.filesystems().contains_key(chat_id.0));
                assert(self.filesystems() =~= self.filesystems().insert(chat_id.0, r@));
                r
            },
            None => {
                let r = FileSystem::new();
                self.filesystems.insert(chat_id.0, r.clone());
                assert(self.filesystems() =~= old_map.map_values(|f: FileSystem| f@).insert(chat_id.0, r@));
                proof {
                    self.lemma_inv_after_fs(*old(self), chat_id.0);
                }
                r
            },
        }
    }

    /// Keeps `filesystem` as the tree of the chat.
    pub fn update_filesystem(&mut self, chat_id: &ChatId, filesystem: FileSystem)
        requires
            old(self).inv(),
            filesystem.wf(),
        ensures
            final(self).inv(),
            final(self).filesystems() == old(self).filesystems().insert(chat_id.0, filesystem@),
            final(self).sessions() == old(self).sessions(),
            final(self).pending() == old(self).pending(),
    {
        let ghost old_map = self.filesystems@;
        let ghost v = filesystem@;
        self.filesystems.insert(chat_id.0, filesystem);
        assert(self.filesystems() =~= old_map.map_values(|f: FileSystem| f@).insert(chat_id.0, v));
        proof {
            self.lemma_inv_after_fs(*old(self), chat_id.0);
        }
    }

    /// Keeps both the state and the tree of the chat.
    pub fn save_chat_session_and_filesystem(&mut self, chat_id: ChatId, chat_session: ChatSession, filesystem: FileSystem)
        requires
            old(self).inv(),
            session_wf(chat_session@),
            filesystem.wf(),
        ensures
            final(self).inv(),
            final(self).sessions() == old(self).sessions().insert(chat_id.0, chat_session@),
            final(self).filesystems() == old(self).filesystems().insert(chat_id.0, filesystem@),
            final(self).pending() == old(self).pending(),
    {
        self.update_chat_session(chat_id, chat_session);
        self.update_filesystem(&chat_id, filesystem);
    }

    /// Hands over the automation runs owed so far, oldest first.
    pub fn take_pending_automations(&mut self) -> (r: Vec<AutomationJob>)
        requires
            old(self).inv(),
        ensures
            final(self).inv(),
            jobs_view(r@) == old(self).pending(),
            forall|i: int| 0 <= i < r@.len() ==> (#[trigger] r@[i]).filesystem.wf(),
            final(self).pending() == Seq::<JobView>::empty(),
            final(self).sessions() == old(self).sessions(),
            final(self).filesystems() == old(self).filesystems(),
    {
        let mut r: Vec<AutomationJob> = Vec::new();
        std::mem::swap(&mut r, &mut self.pending_automations);
        assert(self.pending() =~= Seq::<JobView>::empty());
        proof {
            assert forall|i: int| 0 <= i < r@.len() implies (#[trigger] r@[i]).filesystem.wf() by {
                assert(old(self).pending()[i] == r@[i]@);
                assert(fs_wf(old(self).pending()[i].fs));
            }
            assert(self.sessions() == old(self).sessions());
            assert(self.filesystems() == old(self).filesystems());
        }
        r
    }
}


impl ChatSessionServiceImpl {
    fn text_message(
        &self,
        chat_id: ChatId,
        msg: &IncomingMessage,
        text: &String,
        cs: &mut ChatSession,
        fs: &mut FileSystem,
    ) -> (r: Result<MessageParams, String>)
        requires
            old(fs).wf(),
            session_wf(old(cs)@),
        ensures
            final(fs).wf(),
            session_wf(final(cs)@),
            ({
                let st = text_step(old(cs)@, old(fs)@, chat_id.0, *msg, text@);
                reply_view(r) == st.reply && final(cs)@ == st.session && final(fs)@ == st.fs
            }),
    {
        match cs.action() {
            Some(ChatSessionAction::MkDir(Some(ChatSessionWaitReply::DirectoryName))) => {
                self.file_operation_service.handle_mkdir_action(&chat_id, cs, fs, text.clone())
            },
            Some(ChatSessionAction::SaveFile(Some(node), Some(ChatSessionWaitReply::FileName))) => {
                self.file_operation_service.handle_save_file_action(
                    &chat_id,
                    cs,
                    fs,
                    node,
                    text.clone(),
                )
            },
            Some(ChatSessionAction::RenameFile(Some(ChatSessionWaitReply::FileName))) => {
                self.file_operation_service.handle_rename_file_action(&chat_id, cs, fs, text.clone())
            },
            Some(_) => Ok(MessageParams::generic_error(chat_id)),
            None => {
                let size = text.as_str().len() as u64;
                let mut mime = String::from_str("telegram/");
                mime.append("text");
                self.file_operation_service.process_file_message(
                    cs,
                    &*fs,
                    chat_id,
                    msg.message_id,
                    Some(size),
                    Some(mime),
                )
            },
        }
    }

    fn attachment_message(
        &self,
        chat_id: ChatId,
        msg: &IncomingMessage,
        cs: &mut ChatSession,
        fs: &FileSystem,
    ) -> (r: Result<MessageParams, String>)
        requires
            fs.wf(),
            session_wf(old(cs)@),
            msg.document is None && msg.photo is Some ==> msg.photo->0@.len() > 0,
        ensures
            session_wf(final(cs)@),
            ({
                let st = attachment_step(old(cs)@, fs@, chat_id.0, *msg);
                reply_view(r) == st.reply && final(cs)@ == st.session && fs@ == st.fs
            }),
    {
        let id = msg.message_id;
        let fos = &self.file_operation_service;
        if let Some(a) = &msg.document {
            return fos.process_file_message(cs, fs, chat_id, id, a.file_size, crate::filesystem::copy_opt_string(&a.mime_type));
        }
        if let Some(sizes) = &msg.photo {
            let size = sizes[0];
            return fos.process_file_message(cs, fs, chat_id, id, size, Some(String::from_str("jpeg")));
        }
        if let Some(a) = &msg.video {
            return fos.process_file_message(cs, fs, chat_id, id, a.file_size, crate::filesystem::copy_opt_string(&a.mime_type));
        }
        if let Some(size) = msg.video_note {
            let mut mime = String::from_str("telegram/");
            mime.append("video_note");
            return fos.process_file_message(cs, fs, chat_id, id, size, Some(mime));
        }
        if let Some(a) = &msg.audio {
            return fos.process_file_message(cs, fs, chat_id, id, a.file_size, crate::filesystem::copy_opt_string(&a.mime_type));
        }
        if let Some(a) = &msg.voice {
            return fos.process_file_message(cs, fs, chat_id, id, a.file_size, crate::filesystem::copy_opt_string(&a.mime_type));
        }
        if let Some(size) = msg.sticker {
            let mut mime = String::from_str("telegram/");
            mime.append("sticker");
            return fos.process_file_message(cs, fs, chat_id, id, size, Some(mime));
        }
        if msg.has_contact {
            let mut mime = String::from_str("telegram/");
            mime.append("contact");
            return fos.process_file_message(cs, fs, chat_id, id, None, Some(mime));
        }
        Ok(MessageParams::generic_error(chat_id))
    }

    fn message_inner(
        &self,
        chat_id: ChatId,
        msg: &IncomingMessage,
        cs: &mut ChatSession,
        fs: &mut FileSystem,
    ) -> (r: (Result<MessageParams, String>, bool))
        requires
            old(fs).wf(),
            session_wf(old(cs)@),
            message_readable(*msg),
        ensures
            final(fs).wf(),
            session_wf(final(cs)@),
            ({
                let st = message_inner_step(old(cs)@, old(fs)@, chat_id.0, *msg);
                reply_view(r.0) == st.reply && final(cs)@ == st.session && final(fs)@ == st.fs
            }),
            r.1 == (parse_command(opt_text(msg.text), msg.first_entity) == Ok::<Command, Seq<char>>(Command::Automation)),
    {
        let text_opt: Option<&str> = match &msg.text {
            Some(t) => Some(t.as_str()),
            None => None,
        };
        match Command::parse(text_opt, msg.first_entity) {
            Ok(command) => {
                let current_path = cs.current_path().clone();
                cs.reset();
                match command {
                    Command::DeleteDir | Command::DeleteFile | Command::Automation => {
                        cs.set_current_path(current_path);
                    },
                    _ => {},
                }
                let r = self.command_service.handle_command(&chat_id, &command, cs, &*fs);
                (r, command == Command::Automation)
            },
            Err(_) => {
                let r = match &msg.text {
                    Some(text) => self.text_message(chat_id, msg, text, cs, fs),
                    None => self.attachment_message(chat_id, msg, cs, &*fs),
                };
                (r, false)
            },
        }
    }

    /// The reply to a message of the chat; the chat's state and tree are kept,
    /// and an automation run is owed when the message asked for one.
    pub fn handle_update_content_message(&mut self, chat_id: ChatId, msg: IncomingMessage) -> (r: Result<MessageParams, String>)
        requires
            old(self).inv(),
            message_readable(msg),
        ensures
            final(self).inv(),
            ({
                let sv = session_or_fresh(old(self).sessions(), chat_id.0);
                let fv = fs_or_empty(old(self).filesystems(), chat_id.0);
                let st = message_step(sv, fv, chat_id.0, msg);
                &&& reply_view(r) == st.reply
                &&& final(self).sessions() == old(self).sessions().insert(chat_id.0, st.session)
                &&& final(self).filesystems() == old(self).filesystems().insert(chat_id.0, st.fs)
                &&& final(self).pending() == if starts_automation(msg, st.reply) {
                    old(self).pending().push(JobView { chat: chat_id.0, path: sv.path, fs: fv })
                } else {
                    old(self).pending()
                }
            }),
    {
        let mut fs = self.get_or_create_filesystem(&chat_id);
        let mut chat_session = self.get_or_create_chat_session(&chat_id);
        proof {
            assert(self.sessions().contains_key(chat_id.0));
        }
        let ghost sv = chat_session@;
        let ghost fv = fs@;
        let (res, automation) = self.message_inner(chat_id, &msg, &mut chat_session, &mut fs);
        chat_session.clear_action_on_error(&res);
        if automation && res.is_ok() {
            let job = AutomationJob { chat_id, path: chat_session.current_path().clone(), filesystem: fs.clone() };
            let ghost before = self.pending_automations@;
            self.pending_automations.push(job);
            proof {
                assert(self.pending() =~= jobs_view(before).push(JobView { chat: chat_id.0, path: sv.path, fs: fv }));
                assert forall|i: int| 0 <= i < self.pending().len() implies fs_wf(#[trigger] self.pending()[i].fs) by {
                    if i < jobs_view(before).len() {
                        assert(self.pending()[i] == jobs_view(before)[i]);
                    }
                }
            }
        }
        self.save_chat_session_and_filesystem(chat_id, chat_session, fs);
        res
    }
}


fn show(
    mut e: MessageParams,
    cs: &mut ChatSession,
    fs: &FileSystem,
    p: FsPath,
    text: String,
    files: bool,
    current: bool,
) -> (r: Result<MessageParams, String>)
    requires
        session_wf(old(cs)@),
        fs.wf(),
    ensures
        session_wf(final(cs)@),
        ({
            let st = show_step(old(cs)@, fs@, e@, p@, text@, files, current);
            reply_view(r) == st.reply && final(cs)@ == st.session
        }),
{
    cs.set_current_path(p);
    e.set_text(text);
    match directory_keyboard(fs, cs.current_path(), files, current) {
        Ok(k) => {
            e.set_inline_keyboard_markup(k);
            Ok(e)
        },
        Err(x) => Err(x),
    }
}

fn ask_for_name(mut e: MessageParams, cs: &mut ChatSession, action: ChatSessionAction, text: String) -> (r: Result<MessageParams, String>)
    requires
        session_wf(with_action(old(cs)@, action@)),
    ensures
        session_wf(final(cs)@),
        reply_view(r) == Ok::<MessageView, Seq<char>>(with_keyboard(with_text(e@, text@), seq![back_button()])),
        final(cs)@ == with_action(old(cs)@, action@),
{
    cs.set_action(action);
    e.set_text(text);
    e.set_inline_keyboard_markup(back_inline_keyboard());
    Ok(e)
}

fn err_text(s: &str) -> (r: Result<MessageParams, String>)
    ensures
        reply_view(r) == Err::<MessageView, Seq<char>>(s@),
{
    Err(String::from_str(s))
}

impl ChatSessionServiceImpl {
    fn move_here(
        &self,
        chat_id: ChatId,
        mut e: MessageParams,
        cs: &ChatSession,
        fs: &mut FileSystem,
        from_path: FsPath,
    ) -> (r: Result<MessageParams, String>)
        requires
            old(fs).wf(),
            crate::path::file_name_of(from_path@) is Some,
        ensures
            final(fs).wf(),
            ({
                let (res, f2) = move_file_step(old(fs)@, chat_id.0, from_path@, cs@.path);
                reply_view(r) == copy_text(e@, res) && final(fs)@ == f2
            }),
    {
        let to_path = cs.current_path().clone();
        match self.file_operation_service.handle_move_file_action(&chat_id, &from_path, &to_path, fs) {
            Ok(params) => match params.text {
                Some(t) => {
                    e.set_text(t);
                    Ok(e)
                },
                None => Err(String::from_str("Message text not found")),
            },
            Err(x) => Err(x),
        }
    }

    #[verifier::rlimit(30)]
    fn press_current_dir(
        &self,
        chat_id: ChatId,
        mut e: MessageParams,
        cs: &mut ChatSession,
        fs: &mut FileSystem,
        current_action: ChatSessionAction,
    ) -> (r: Result<MessageParams, String>)
        requires
            old(fs).wf(),
            session_wf(old(cs)@),
            old(cs)@.action == Some(current_action@),
        ensures
            session_wf(final(cs)@),
            final(fs).wf(),
            ({
                let st = current_dir_step(old(cs)@, old(fs)@, chat_id.0, e@, current_action@);
                reply_view(r) == st.reply && final(cs)@ == st.session && final(fs)@ == st.fs
            }),
    {
        match current_action {
            ChatSessionAction::MkDir(None) => {
                let t = messages::ask_directory_name_message(cs.current_path_string().as_str());
                ask_for_name(e, cs, ChatSessionAction::MkDir(Some(ChatSessionWaitReply::DirectoryName)), t)
            },
            ChatSessionAction::SaveFile(Some(node), None) => {
                let t = messages::ask_file_name_message(cs.current_path_string().as_str());
                ask_for_name(e, cs, ChatSessionAction::SaveFile(Some(node), Some(ChatSessionWaitReply::FileName)), t)
            },
            ChatSessionAction::MoveFile(Some(from_path)) => {
                self.move_here(chat_id, e, cs, fs, from_path)
            },
            _ => crate::file_operation_service::action_not_supported_error(),
        }
    }

    fn press_parent_dir(
        &self,
        e: MessageParams,
        cs: &mut ChatSession,
        fs: &FileSystem,
        current_action: ChatSessionAction,
    ) -> (r: Result<MessageParams, String>)
        requires
            session_wf(old(cs)@),
            fs.wf(),
        ensures
            session_wf(final(cs)@),
            ({
                let st = parent_dir_step(old(cs)@, fs@, e@, current_action@);
                reply_view(r) == st.reply && final(cs)@ == st.session && fs@ == st.fs
            }),
    {
        let parent = match cs.current_path().parent() {
            Some(p) => p,
            None => cs.current_path().clone(),
        };
        let pt = parent.to_text();
        match current_action {
            ChatSessionAction::Explorer => {
                let node = match fs.get_node(&parent) {
                    Ok(n) => n,
                    Err(x) => {
                        return Err(x);
                    },
                };
                if node.is_directory() {
                    show(e, cs, fs, parent, messages::explorer_message(pt.as_str()), true, false)
                } else {
                    err_text("Parent is not a directory")
                }
            },
            ChatSessionAction::MkDir(_) => show(e, cs, fs, parent, messages::mkdir_message(pt.as_str()), false, true),
            ChatSessionAction::SaveFile(Some(_), None) => show(e, cs, fs, parent, messages::create_file_message(pt.as_str()), false, true),
            ChatSessionAction::RenameFile(_) => show(e, cs, fs, parent, messages::rename_file_message(pt.as_str()), true, false),
            ChatSessionAction::MoveFile(Some(from)) => {
                let t = messages::move_file_select_destination_message(from.to_text().as_str());
                show(e, cs, fs, parent, t, false, true)
            },
            ChatSessionAction::MoveFile(None) => show(e, cs, fs, parent, messages::move_file_select_file_message(pt.as_str()), true, false),
            ChatSessionAction::DeleteFile => show(e, cs, fs, parent, messages::delete_file_message(pt.as_str()), true, false),
            _ => crate::file_operation_service::action_not_supported_error(),
        }
    }

    fn press_back(
        &self,
        mut e: MessageParams,
        cs: &mut ChatSession,
        fs: &FileSystem,
        current_action: ChatSessionAction,
    ) -> (r: Result<MessageParams, String>)
        requires
            session_wf(old(cs)@),
            fs.wf(),
        ensures
            session_wf(final(cs)@),
            ({
                let st = back_step(old(cs)@, fs@, e@, current_action@);
                reply_view(r) == st.reply && final(cs)@ == st.session && fs@ == st.fs
            }),
    {
        match current_action {
            ChatSessionAction::MkDir(Some(_)) => {
                cs.set_action(ChatSessionAction::MkDir(None));
                e.set_text(messages::mkdir_message(cs.current_path_string().as_str()));
            },
            ChatSessionAction::SaveFile(Some(node), Some(_)) => {
                cs.set_action(ChatSessionAction::SaveFile(Some(node), None));
                e.set_text(messages::create_file_message(cs.current_path_string().as_str()));
            },
            _ => {
                return crate::file_operation_service::action_not_supported_error();
            },
        }
        match directory_keyboard(fs, cs.current_path(), false, true) {
            Ok(k) => {
                e.set_inline_keyboard_markup(k);
                Ok(e)
            },
            Err(x) => Err(x),
        }
    }
}


impl ChatSessionServiceImpl {
    fn entry_explorer(
        &self,
        chat_id: ChatId,
        e: MessageParams,
        cs: &mut ChatSession,
        fs: &FileSystem,
        p: FsPath,
    ) -> (r: Result<MessageParams, String>)
        requires
            session_wf(old(cs)@),
            fs.wf(),
        ensures
            session_wf(final(cs)@),
            ({
                let st = entry_explorer_step(old(cs)@, fs@, chat_id.0, e@, p@);
                reply_view(r) == st.reply && final(cs)@ == st.session && fs@ == st.fs
            }),
    {
        let node = match fs.get_node(&p) {
            Ok(n) => n,
            Err(x) => {
                return Err(x);
            },
        };
        if node.is_directory() {
            let t = messages::explorer_message(p.to_text().as_str());
            show(e, cs, fs, p, t, true, false)
        } else {
            self.file_operation_service.handle_explorer_action(&chat_id, &p, fs)
        }
    }

    fn entry_rename(
        &self,
        chat_id: ChatId,
        e: MessageParams,
        cs: &mut ChatSession,
        fs: &FileSystem,
        p: FsPath,
    ) -> (r: Result<MessageParams, String>)
        requires
            session_wf(old(cs)@),
            fs.wf(),
        ensures
            session_wf(final(cs)@),
            ({
                let st = entry_rename_step(old(cs)@, fs@, chat_id.0, e@, p@);
                reply_view(r) == st.reply && final(cs)@ == st.session && fs@ == st.fs
            }),
    {
        let node = match fs.get_node(&p) {
            Ok(n) => n,
            Err(x) => {
                return Err(x);
            },
        };
        if node.is_directory() {
            let t = messages::rename_file_message(p.to_text().as_str());
            return show(e, cs, fs, p, t, true, false);
        }
        let message_id = match node.file_message_id() {
            Some(m) => m,
            None => {
                return err_text("Message id not found");
            },
        };
        let file_name = match p.file_name() {
            Some(n) => n,
            None => {
                return err_text("File name not found");
            },
        };
        let mut send_message_params = MessageParams::new_send(chat_id);
        send_message_params.set_text(
            messages::ask_rename_file_message(file_name.as_str(), cs.current_path_string().as_str()),
        );
        send_message_params.set_reply_to_message_id(message_id);
        cs.set_current_path(p);
        cs.set_action(ChatSessionAction::RenameFile(Some(ChatSessionWaitReply::FileName)));
        Ok(send_message_params)
    }

    fn entry_move(
        &self,
        chat_id: ChatId,
        e: MessageParams,
        cs: &mut ChatSession,
        fs: &FileSystem,
        p: FsPath,
        from: Option<FsPath>,
    ) -> (r: Result<MessageParams, String>)
        requires
            session_wf(old(cs)@),
            fs.wf(),
        ensures
            session_wf(final(cs)@),
            ({
                let st = entry_move_step(old(cs)@, fs@, chat_id.0, e@, p@, crate::path::opt_path(from));
                reply_view(r) == st.reply && final(cs)@ == st.session && fs@ == st.fs
            }),
    {
        let node = match fs.get_node(&p) {
            Ok(n) => n,
            Err(x) => {
                return Err(x);
            },
        };
        if node.is_directory() {
            return match from {
                Some(f) => {
                    let t = messages::move_file_select_destination_message(f.to_text().as_str());
                    show(e, cs, fs, p, t, false, true)
                },
                None => {
                    let t = messages::move_file_select_file_message(p.to_text().as_str());
                    show(e, cs, fs, p, t, true, false)
                },
            };
        }
        let message_id = match node.file_message_id() {
            Some(m) => m,
            None => {
                return err_text("Message id not found");
            },
        };
        cs.set_current_path(FsPath::root());
        let mut send_message_params = MessageParams::new_send(chat_id);
        send_message_params.set_text(
            messages::move_file_select_destination_message(p.to_text().as_str()),
        );
        send_message_params.set_reply_to_message_id(message_id);
        match directory_keyboard(fs, cs.current_path(), false, true) {
            Ok(k) => send_message_params.set_inline_keyboard_markup(k),
            Err(x) => {
                return Err(x);
            },
        }
        cs.set_action(ChatSessionAction::MoveFile(Some(p)));
        Ok(send_message_params)
    }

    fn entry_delete_file(
        &self,
        chat_id: ChatId,
        mut e: MessageParams,
        cs: &mut ChatSession,
        fs: &mut FileSystem,
        p: FsPath,
    ) -> (r: Result<MessageParams, String>)
        requires
            session_wf(old(cs)@),
            old(fs).wf(),
        ensures
            session_wf(final(cs)@),
            final(fs).wf(),
            ({
                let st = entry_delete_file_step(old(cs)@, old(fs)@, chat_id.0, e@, p@);
                reply_view(r) == st.reply && final(cs)@ == st.session && final(fs)@ == st.fs
            }),
    {
        let node = match fs.get_node(&p) {
            Ok(n) => n,
            Err(x) => {
                return Err(x);
            },
        };
        if node.is_directory() {
            let t = messages::delete_file_message(p.to_text().as_str());
            return show(e, cs, &*fs, p, t, true, false);
        }
        let result = match self.file_operation_service.handle_delete_file_action(&chat_id, &p, cs.current_path(), fs) {
            Ok(m) => m,
            Err(x) => {
                return Err(x);
            },
        };
        match result.text {
            Some(t) => e.set_text(t),
            None => {
                return err_text("Message text not found");
            },
        }
        cs.reset();
        Ok(e)
    }

    fn entry_delete_dir(
        &self,
        chat_id: ChatId,
        mut e: MessageParams,
        cs: &mut ChatSession,
        fs: &mut FileSystem,
        p: FsPath,
    ) -> (r: Result<MessageParams, String>)
        requires
            session_wf(old(cs)@),
            old(fs).wf(),
        ensures
            session_wf(final(cs)@),
            final(fs).wf(),
            ({
                let st = entry_delete_dir_step(old(cs)@, old(fs)@, chat_id.0, e@, p@);
                reply_view(r) == st.reply && final(cs)@ == st.session && final(fs)@ == st.fs
            }),
    {
        let empty_dir = match fs.get_node(&p) {
            Ok(node) => node.is_directory() && !fs.has_children(&p),
            Err(_) => false,
        };
        let result = match self.file_operation_service.handle_delete_dir_action(&chat_id, &p, cs.current_path(), fs) {
            Ok(m) => m,
            Err(x) => {
                return Err(x);
            },
        };
        let text = match result.text {
            Some(t) => t,
            None => {
                return err_text("Message text not found");
            },
        };
        e.set_text(text);
        match result.keyboard {
            Some(k) => e.set_inline_keyboard_markup(k),
            None => {},
        }
        if empty_dir {
            cs.reset();
        }
        Ok(e)
    }

    #[verifier::rlimit(30)]
    fn press_entry(
        &self,
        chat_id: ChatId,
        e: MessageParams,
        cs: &mut ChatSession,
        fs: &mut FileSystem,
        p: FsPath,
        current_action: ChatSessionAction,
    ) -> (r: Result<MessageParams, String>)
        requires
            session_wf(old(cs)@),
            old(fs).wf(),
        ensures
            session_wf(final(cs)@),
            final(fs).wf(),
            ({
                let st = entry_step(old(cs)@, old(fs)@, chat_id.0, e@, p@, current_action@);
                reply_view(r) == st.reply && final(cs)@ == st.session && final(fs)@ == st.fs
            }),
    {
        match current_action {
            ChatSessionAction::Explorer => self.entry_explorer(chat_id, e, cs, &*fs, p),
            ChatSessionAction::MkDir(_) => {
                let t = messages::mkdir_message(p.to_text().as_str());
                show(e, cs, &*fs, p, t, false, true)
            },
            ChatSessionAction::SaveFile(Some(_), None) => {
                let t = messages::create_file_message(p.to_text().as_str());
                show(e, cs, &*fs, p, t, false, true)
            },
            ChatSessionAction::RenameFile(None) => self.entry_rename(chat_id, e, cs, &*fs, p),
            ChatSessionAction::MoveFile(from) => self.entry_move(chat_id, e, cs, &*fs, p, from),
            ChatSessionAction::DeleteFile => self.entry_delete_file(chat_id, e, cs, fs, p),
            ChatSessionAction::DeleteDir => self.entry_delete_dir(chat_id, e, cs, fs, p),
            _ => crate::file_operation_service::action_not_supported_error(),
        }
    }
}


impl ChatSessionServiceImpl {
    fn callback_inner(
        &self,
        chat_id: ChatId,
        query: &CallbackQueryInput,
        cs: &mut ChatSession,
        fs: &mut FileSystem,
    ) -> (r: Result<MessageParams, String>)
        requires
            old(fs).wf(),
            session_wf(old(cs)@),
        ensures
            final(fs).wf(),
            session_wf(final(cs)@),
            ({
                let st = callback_inner_step(old(cs)@, old(fs)@, chat_id.0, *query);
                reply_view(r) == st.reply && final(cs)@ == st.session && final(fs)@ == st.fs
            }),
    {
        let data = match &query.data {
            Some(d) => d,
            None => {
                return err_text("Data not found in callback query");
            },
        };
        let message_id = match query.message_id {
            Some(m) => m,
            None => {
                return err_text("Message not found in callback query");
            },
        };
        let action = ChatSessionAction::from_callback_data(data.as_str());
        let edit_message_params = MessageParams::new_edit(chat_id, message_id);
        let current_action = match cs.action() {
            Some(a) => a,
            None => {
                return err_text("UpdateContent::CallbackQuery: No action in chat session");
            },
        };
        match action {
            ChatSessionAction::CurrentDir => self.press_current_dir(chat_id, edit_message_params, cs, fs, current_action),
            ChatSessionAction::ParentDir => self.press_parent_dir(edit_message_params, cs, &*fs, current_action),
            ChatSessionAction::FileOrDir(p) => self.press_entry(chat_id, edit_message_params, cs, fs, p, current_action),
            ChatSessionAction::Back => self.press_back(edit_message_params, cs, &*fs, current_action),
            _ => err_text("invalid action"),
        }
    }

    /// The reply to a button pressed in the chat; the chat's state and tree are kept.
    pub fn handle_update_content_callback_query(&mut self, chat_id: ChatId, query: CallbackQueryInput) -> (r: Result<MessageParams, String>)
        requires
            old(self).inv(),
        ensures
            final(self).inv(),
            ({
                let sv = session_or_fresh(old(self).sessions(), chat_id.0);
                let fv = fs_or_empty(old(self).filesystems(), chat_id.0);
                let st = callback_step(sv, fv, chat_id.0, query);
                &&& reply_view(r) == st.reply
                &&& final(self).sessions() == old(self).sessions().insert(chat_id.0, st.session)
                &&& final(self).filesystems() == old(self).filesystems().insert(chat_id.0, st.fs)
                &&& final(self).pending() == old(self).pending()
            }),
    {
        let mut fs = self.get_or_create_filesystem(&chat_id);
        let mut chat_session = self.get_or_create_chat_session(&chat_id);
        proof {
            assert(self.sessions().contains_key(chat_id.0));
        }
        let res = self.callback_inner(chat_id, &query, &mut chat_session, &mut fs);
        chat_session.clear_action_on_error(&res);
        self.save_chat_session_and_filesystem(chat_id, chat_session, fs);
        res
    }
}


/// Every message is written back whole: the reply is that of the step, the
/// tree keeps every change that the step made, and the chat keeps the state
/// that the step left, doing nothing when the reply is a refusal.
pub proof fn lemma_message_written_back(sv: SessionView, fv: FsEntries, chat: u64, m: IncomingMessage)
    ensures
        message_step(sv, fv, chat, m).reply == message_inner_step(sv, fv, chat, m).reply,
        message_step(sv, fv, chat, m).fs == message_inner_step(sv, fv, chat, m).fs,
        message_step(sv, fv, chat, m).session == (if message_inner_step(sv, fv, chat, m).reply is Err {
            SessionView { action: None, ..message_inner_step(sv, fv, chat, m).session }
        } else {
            message_inner_step(sv, fv, chat, m).session
        }),
{
}

/// A message that the bot refuses leaves the chat's tree as it was and the
/// chat doing nothing.
pub proof fn lemma_refused_message_changes_no_tree(sv: SessionView, fv: FsEntries, chat: u64, m: IncomingMessage)
    requires
        fs_wf(fv),
        message_step(sv, fv, chat, m).reply is Err,
    ensures
        message_step(sv, fv, chat, m).fs == fv,
        message_step(sv, fv, chat, m).session.action is None,
{
}

/// A button press that the bot refuses leaves the chat's tree as it was and
/// the chat doing nothing.
pub proof fn lemma_refused_press_changes_no_tree(sv: SessionView, fv: FsEntries, chat: u64, q: CallbackQueryInput)
    requires
        fs_wf(fv),
        callback_step(sv, fv, chat, q).reply is Err,
    ensures
        callback_step(sv, fv, chat, q).fs == fv,
        callback_step(sv, fv, chat, q).session.action is None,
{
}

/// A command brings the chat out of any dialogue: it starts over at the root
/// (or, for the deletions and the automation, where it was) and does what the
/// command sets, or nothing.
pub proof fn lemma_command_starts_over(sv: SessionView, fv: FsEntries, chat: u64, m: IncomingMessage, c: Command)
    requires
        parse_command(opt_text(m.text), m.first_entity) == Ok::<Command, Seq<char>>(c),
    ensures
        message_step(sv, fv, chat, m).fs == fv,
        message_step(sv, fv, chat, m).session.path == if keeps_path(c) { sv.path } else { Seq::<Seq<char>>::empty() },
        message_step(sv, fv, chat, m).session.action == if message_step(sv, fv, chat, m).reply is Ok {
            crate::command_service::command_action(c)
        } else {
            None
        },
{
}

/// A file saved by its name is then found at that name in the current directory.
pub proof fn lemma_saved_file_is_found(sv: SessionView, fv: FsEntries, chat: u64, m: IncomingMessage, t: Seq<char>, node: NodeView)
    requires
        fs_wf(fv),
        parse_command(opt_text(m.text), m.first_entity) is Err,
        opt_text(m.text) == Some(t),
        sv.action == Some(ActionView::SaveFile(Some(node), Some(ChatSessionWaitReply::FileName))),
        message_step(sv, fv, chat, m).reply is Ok,
    ensures
        lookup(message_step(sv, fv, chat, m).fs, crate::path::join_spec(sv.path, t)) == Some(node),
{
    crate::filesystem::lemma_lookup_after_insert(fv, crate::path::join_spec(sv.path, t), node, crate::path::join_spec(sv.path, t));
}

/// A directory made by its name is then found at that name in the current directory.
pub proof fn lemma_made_directory_is_found(sv: SessionView, fv: FsEntries, chat: u64, m: IncomingMessage, t: Seq<char>)
    requires
        fs_wf(fv),
        parse_command(opt_text(m.text), m.first_entity) is Err,
        opt_text(m.text) == Some(t),
        sv.action == Some(ActionView::MkDir(Some(ChatSessionWaitReply::DirectoryName))),
        message_step(sv, fv, chat, m).reply is Ok,
    ensures
        lookup(message_step(sv, fv, chat, m).fs, crate::path::join_spec(sv.path, t)) == Some(NodeView::Directory),
{
    crate::filesystem::lemma_lookup_after_insert(fv, crate::path::join_spec(sv.path, t), NodeView::Directory, crate::path::join_spec(sv.path, t));
}

/// A renamed file is then found under its new name, and no longer under its old one.
pub proof fn lemma_renamed_file_is_found(sv: SessionView, fv: FsEntries, chat: u64, m: IncomingMessage, t: Seq<char>)
    requires
        fs_wf(fv),
        parse_command(opt_text(m.text), m.first_entity) is Err,
        opt_text(m.text) == Some(t),
        sv.action == Some(ActionView::RenameFile(Some(ChatSessionWaitReply::FileName))),
        message_step(sv, fv, chat, m).reply is Ok,
    ensures
        lookup(message_step(sv, fv, chat, m).fs, crate::path::with_file_name_spec(sv.path, t)) == lookup(fv, sv.path),
        crate::path::with_file_name_spec(sv.path, t) != sv.path ==> lookup(message_step(sv, fv, chat, m).fs, sv.path) is None,
{
    let to = crate::path::with_file_name_spec(sv.path, t);
    crate::filesystem::lemma_lookup_after_move(fv, sv.path, to, to);
    crate::filesystem::lemma_lookup_after_move(fv, sv.path, to, sv.path);
}

/// A file deleted by its button is then no longer found.
pub proof fn lemma_deleted_file_is_gone(sv: SessionView, fv: FsEntries, chat: u64, q: CallbackQueryInput, p: PathView)
    requires
        fs_wf(fv),
        q.data matches Some(d) && decode_action(d@) == ActionView::FileOrDir(p),
        q.message_id is Some,
        sv.action == Some(ActionView::DeleteFile),
        lookup(fv, p) matches Some(NodeView::File { .. }),
        callback_step(sv, fv, chat, q).reply is Ok,
    ensures
        lookup(callback_step(sv, fv, chat, q).fs, p) is None,
{
    crate::filesystem::lemma_lookup_after_remove(fv, p, p);
}


/// A directory that holds something is never deleted by its button: the tree
/// stays as it was and the chat keeps deleting directories where it was.
pub proof fn lemma_non_empty_directory_is_kept(sv: SessionView, fv: FsEntries, chat: u64, q: CallbackQueryInput, p: PathView)
    requires
        fs_wf(fv),
        q.data matches Some(d) && decode_action(d@) == ActionView::FileOrDir(p),
        q.message_id is Some,
        sv.action == Some(ActionView::DeleteDir),
        p.len() > 0,
        lookup(fv, p) == Some(NodeView::Directory),
        crate::filesystem::has_children(fv, p),
    ensures
        callback_step(sv, fv, chat, q).reply is Ok,
        callback_step(sv, fv, chat, q).fs == fv,
        callback_step(sv, fv, chat, q).session == sv,
{
}

/// An empty directory pressed while deleting directories is deleted, and the
/// chat starts over.
pub proof fn lemma_empty_directory_is_deleted(sv: SessionView, fv: FsEntries, chat: u64, q: CallbackQueryInput, p: PathView)
    requires
        fs_wf(fv),
        q.data matches Some(d) && decode_action(d@) == ActionView::FileOrDir(p),
        q.message_id is Some,
        sv.action == Some(ActionView::DeleteDir),
        p.len() > 0,
        is_empty_dir(fv, p),
    ensures
        callback_step(sv, fv, chat, q).reply is Ok,
        lookup(callback_step(sv, fv, chat, q).fs, p) is None,
        callback_step(sv, fv, chat, q).session == fresh_session(),
{
    crate::filesystem::lemma_lookup_at(fv, crate::filesystem::path_index(fv, p));
    crate::filesystem::lemma_lookup_after_remove(fv, p, p);
}

/// A file pressed while deleting directories is not deleted: the tree stays
/// as it was and the chat keeps deleting directories where it was.
pub proof fn lemma_file_is_not_deleted_as_directory(sv: SessionView, fv: FsEntries, chat: u64, q: CallbackQueryInput, p: PathView)
    requires
        fs_wf(fv),
        q.data matches Some(d) && decode_action(d@) == ActionView::FileOrDir(p),
        q.message_id is Some,
        sv.action == Some(ActionView::DeleteDir),
        lookup(fv, p) matches Some(NodeView::File { .. }),
    ensures
        callback_step(sv, fv, chat, q).reply is Ok,
        callback_step(sv, fv, chat, q).fs == fv,
        callback_step(sv, fv, chat, q).session == sv,
{
}

/// Moving a file, the button "Select this directory" moves the chosen file
/// into the directory that the chat is in, where its name is free: the
/// pressed message is edited to say from where to where, the file is no
/// longer found where it was and is found, the same node, under its name in
/// that directory, and every other path finds what it found before.
#[verifier::spinoff_prover]
#[verifier::rlimit(40)]
pub proof fn lemma_selected_directory_receives_file(
    sv: SessionView,
    fv: FsEntries,
    chat: u64,
    q: CallbackQueryInput,
    from: PathView,
    other: PathView,
)
    requires
        fs_wf(fv),
        q.data matches Some(d) && d@ == "."@,
        q.message_id is Some,
        sv.action == Some(ActionView::MoveFile(Some(from))),
        lookup(fv, from) matches Some(NodeView::File { .. }),
        lookup(fv, sv.path) == Some(NodeView::Directory),
        lookup(fv, sv.path.push(from.last())) is None,
    ensures
        ({
            let s = callback_step(sv, fv, chat, q);
            let to = sv.path.push(from.last());
            &&& s.reply == Ok::<MessageView, Seq<char>>(with_text(
                edit_view(chat, q.message_id->0),
                messages::moved_file_success_message_text(from.last(), path_text(from), path_text(to)),
            ))
            &&& lookup(s.fs, from) is None
            &&& lookup(s.fs, to) == lookup(fv, from)
            &&& (other != from && other != to) ==> lookup(s.fs, other) == lookup(fv, other)
            &&& fs_wf(s.fs)
        }),
{
    reveal_strlit(".");
    assert("."@.len() == 1);
    assert(decode_action(q.data->0@) == ActionView::CurrentDir);
    let e = edit_view(chat, q.message_id->0);
    crate::file_operation_service::lemma_move_into_directory_succeeds(fv, chat, from, sv.path);
    crate::file_operation_service::lemma_move_moves_the_file(fv, chat, from, sv.path, other);
    let (r, f2) = move_file_step(fv, chat, from, sv.path);
    let inner = current_dir_step(sv, fv, chat, e, ActionView::MoveFile(Some(from)));
    assert(inner == Step { reply: copy_text(e, r), session: sv, fs: f2 });
    assert(callback_inner_step(sv, fv, chat, q) == inner);
    assert(callback_step(sv, fv, chat, q).fs == f2);
    assert(callback_step(sv, fv, chat, q).reply == copy_text(e, r));
}

/// The button ".." takes the chat one directory up: wherever the press is
/// answered, the chat is then at the parent of the directory it was in (and
/// stays at the root when it was there), still doing what it did, and the
/// tree is unchanged.
pub proof fn lemma_parent_button_goes_up(sv: SessionView, fv: FsEntries, chat: u64, q: CallbackQueryInput)
    requires
        q.data matches Some(d) && d@ == ".."@,
        q.message_id is Some,
        callback_step(sv, fv, chat, q).reply is Ok,
    ensures
        sv.path.len() > 0 ==> callback_step(sv, fv, chat, q).session.path == sv.path.subrange(0, sv.path.len() - 1),
        sv.path.len() == 0 ==> callback_step(sv, fv, chat, q).session.path == sv.path,
        callback_step(sv, fv, chat, q).session.action == sv.action,
        callback_step(sv, fv, chat, q).fs == fv,
{
    reveal_strlit("..");
    reveal_strlit(".");
    assert(".."@.len() == 2);
    assert("."@.len() == 1);
    assert(decode_action(q.data->0@) == ActionView::ParentDir);
}

/// Exploring a directory below the root, the button ".." shows its parent:
/// the press is answered by an edit of the pressed message that names the
/// parent directory and holds the keyboard of the parent (its entries, files
/// included, and ".." again below the root), and the chat is then there.
pub proof fn lemma_explorer_parent_shows_parent(sv: SessionView, fv: FsEntries, chat: u64, q: CallbackQueryInput)
    requires
        fs_wf(fv),
        q.data matches Some(d) && d@ == ".."@,
        q.message_id is Some,
        sv.action == Some(ActionView::Explorer),
        sv.path.len() > 0,
        lookup(fv, sv.path) == Some(NodeView::Directory),
    ensures
        ({
            let parent = sv.path.subrange(0, sv.path.len() - 1);
            &&& callback_step(sv, fv, chat, q).reply == Ok::<MessageView, Seq<char>>(with_keyboard(
                with_text(edit_view(chat, q.message_id->0), messages::explorer_message_text(path_text(parent))),
                crate::keyboard::directory_buttons(fv, parent, true, false),
            ))
            &&& callback_step(sv, fv, chat, q).session == SessionView { path: parent, ..sv }
            &&& callback_step(sv, fv, chat, q).fs == fv
        }),
{
    reveal_strlit("..");
    reveal_strlit(".");
    assert(".."@.len() == 2);
    assert("."@.len() == 1);
    assert(decode_action(q.data->0@) == ActionView::ParentDir);
    let j = crate::filesystem::path_index(fv, sv.path);
    assert(crate::filesystem::stores(fv, sv.path));
    assert(fv[j].0 == sv.path);
    assert(sv.path.drop_last() =~= sv.path.subrange(0, sv.path.len() - 1));
}

/// A size that Telegram gives, or 0 where it gives none.
pub open spec fn known_size(o: Option<u64>) -> u64 {
    match o {
        Some(n) => n,
        None => 0,
    }
}

/// The chat, at the root, waits for the directory in which to save the file
/// sent as message `id`, of `size` bytes and type `mime`; the reply asks for
/// that directory with the keyboard of the root, and the tree is unchanged.
pub open spec fn waits_to_save(s: Step, fv: FsEntries, chat: u64, id: i32, size: u64, mime: Option<Seq<char>>) -> bool {
    &&& s.reply == Ok::<MessageView, Seq<char>>(with_keyboard(
        text_reply(chat, messages::create_file_message_text(seq!['/'])),
        crate::keyboard::directory_buttons(fv, Seq::empty(), false, true),
    ))
    &&& s.session == (SessionView {
        path: Seq::empty(),
        action: Some(ActionView::SaveFile(Some(NodeView::File { message_id: id, size, mime_type: mime }), None)),
    })
    &&& s.fs == fv
}

/// A message that is no command and carries a file starts saving that file,
/// whatever the chat was doing: a document, the first size of a photo (a
/// "jpeg"), a video, a video note, an audio file, a voice message, a sticker
/// or a contact, taken in that order when a message carries several, with its
/// size (0 when unknown) and its type; a text is saved when the chat waits
/// for no reply. A message with none of these is answered with the generic
/// error and changes nothing.
pub proof fn lemma_attachment_is_saved(sv: SessionView, fv: FsEntries, chat: u64, m: IncomingMessage)
    ensures
        ({
            let s = message_step(sv, fv, chat, m);
            let id = m.message_id;
            let none_before_photo = m.text is None && m.document is None;
            let none_before_video = none_before_photo && m.photo is None;
            let none_before_note = none_before_video && m.video is None;
            let none_before_audio = none_before_note && m.video_note is None;
            let none_before_voice = none_before_audio && m.audio is None;
            let none_before_sticker = none_before_voice && m.voice is None;
            let none_before_contact = none_before_sticker && m.sticker is None;
            &&& (m.text is None && m.document is Some) ==> waits_to_save(
                s, fv, chat, id, known_size(m.document->0.file_size), opt_text(m.document->0.mime_type))
            &&& (none_before_photo && m.photo is Some && m.photo->0@.len() > 0) ==> waits_to_save(
                s, fv, chat, id, known_size(m.photo->0@[0]), Some("jpeg"@))
            &&& (none_before_video && m.video is Some) ==> waits_to_save(
                s, fv, chat, id, known_size(m.video->0.file_size), opt_text(m.video->0.mime_type))
            &&& (none_before_note && m.video_note is Some) ==> waits_to_save(
                s, fv, chat, id, known_size(m.video_note->0), Some("telegram/video_note"@))
            &&& (none_before_audio && m.audio is Some) ==> waits_to_save(
                s, fv, chat, id, known_size(m.audio->0.file_size), opt_text(m.audio->0.mime_type))
            &&& (none_before_voice && m.voice is Some) ==> waits_to_save(
                s, fv, chat, id, known_size(m.voice->0.file_size), opt_text(m.voice->0.mime_type))
            &&& (none_before_sticker && m.sticker is Some) ==> waits_to_save(
                s, fv, chat, id, known_size(m.sticker->0), Some("telegram/sticker"@))
            &&& (none_before_contact && m.has_contact) ==> waits_to_save(
                s, fv, chat, id, 0, Some("telegram/contact"@))
            &&& (none_before_contact && !m.has_contact) ==> s == (Step {
                reply: Ok(text_reply(chat, generic_error_text())),
                session: sv,
                fs: fv,
            })
            &&& (m.text is Some && parse_command(opt_text(m.text), m.first_entity) is Err && sv.action is None)
                ==> waits_to_save(s, fv, chat, id, encode_utf8(m.text->0@).len() as usize as u64, Some("telegram/text"@))
        }),
{
    reveal_strlit("telegram/");
    reveal_strlit("video_note");
    reveal_strlit("sticker");
    reveal_strlit("contact");
    reveal_strlit("text");
    reveal_strlit("telegram/video_note");
    reveal_strlit("telegram/sticker");
    reveal_strlit("telegram/contact");
    reveal_strlit("telegram/text");
    assert(file_type_prefix() + "video_note"@ =~= "telegram/video_note"@);
    assert(file_type_prefix() + "sticker"@ =~= "telegram/sticker"@);
    assert(file_type_prefix() + "contact"@ =~= "telegram/contact"@);
    assert(file_type_prefix() + "text"@ =~= "telegram/text"@);
    assert(path_text(Seq::<Seq<char>>::empty()) == seq!['/']);
}

impl Default for ChatSessionServiceImpl {
    fn default() -> (r: Self)
        ensures
            r.inv(),
            r.sessions() == Map::<u64, SessionView>::empty(),
            r.filesystems() == Map::<u64, FsEntries>::empty(),
            r.pending() == Seq::<JobView>::empty(),
    {
        ChatSessionServiceImpl::new()
    }
}

/// What the bot keeps of its chats, and how it answers them.
pub trait ChatSessionService {
    /// The state of each chat seen so far.
    spec fn sessions(&self) -> Map<u64, SessionView>;

    /// The file tree of each chat seen so far.
    spec fn filesystems(&self) -> Map<u64, FsEntries>;

    /// What every method keeps.
    spec fn inv(&self) -> bool;

    fn get_or_create_chat_session(&mut self, chat_id: &ChatId) -> (r: ChatSession)
        requires
            old(self).inv(),
        ensures
            final(self).inv(),
            r@ == session_or_fresh(old(self).sessions(), chat_id.0),
            final(self).sessions() == old(self).sessions().insert(chat_id.0, r@),
            final(self).filesystems() == old(self).filesystems(),
    ;

    fn update_chat_session(&mut self, chat_id: ChatId, chat_session: ChatSession)
        requires
            old(self).inv(),
            session_wf(chat_session@),
        ensures
            final(self).inv(),
            final(self).sessions() == old(self).sessions().insert(chat_id.0, chat_session@),
            final(self).filesystems() == old(self).filesystems(),
    ;

    fn get_chat_sessions_count(&self) -> (r: u32)
        ensures
            r == self.sessions().len() as u32,
    ;

    fn handle_update_content_message(&mut self, chat_id: ChatId, msg: IncomingMessage) -> (r: Result<MessageParams, String>)
        requires
            old(self).inv(),
            message_readable(msg),
        ensures
            final(self).inv(),
            ({
                let st = message_step(
                    session_or_fresh(old(self).sessions(), chat_id.0),
                    fs_or_empty(old(self).filesystems(), chat_id.0),
                    chat_id.0,
                    msg,
                );
                &&& reply_view(r) == st.reply
                &&& final(self).sessions() == old(self).sessions().insert(chat_id.0, st.session)
                &&& final(self).filesystems() == old(self).filesystems().insert(chat_id.0, st.fs)
            }),
    ;

    fn handle_update_content_callback_query(&mut self, chat_id: ChatId, query: CallbackQueryInput) -> (r: Result<MessageParams, String>)
        requires
            old(self).inv(),
        ensures
            final(self).inv(),
            ({
                let st = callback_step(
                    session_or_fresh(old(self).sessions(), chat_id.0),
                    fs_or_empty(old(self).filesystems(), chat_id.0),
                    chat_id.0,
                    query,
                );
                &&& reply_view(r) == st.reply
                &&& final(self).sessions() == old(self).sessions().insert(chat_id.0, st.session)
                &&& final(self).filesystems() == old(self).filesystems().insert(chat_id.0, st.fs)
            }),
    ;
}

impl ChatSessionService for ChatSessionServiceImpl {
    open spec fn sessions(&self) -> Map<u64, SessionView> {
        ChatSessionServiceImpl::sessions(self)
    }

    open spec fn filesystems(&self) -> Map<u64, FsEntries> {
        ChatSessionServiceImpl::filesystems(self)
    }

    open spec fn inv(&self) -> bool {
        ChatSessionServiceImpl::inv(self)
    }

    fn get_or_create_chat_session(&mut self, chat_id: &ChatId) -> (r: ChatSession) {
        ChatSessionServiceImpl::get_or_create_chat_session(self, chat_id)
    }

    fn update_chat_session(&mut self, chat_id: ChatId, chat_session: ChatSession) {
        ChatSessionServiceImpl::update_chat_session(self, chat_id, chat_session)
    }

    fn get_chat_sessions_count(&self) -> (r: u32) {
        ChatSessionServiceImpl::get_chat_sessions_count(self)
    }

    fn handle_update_content_message(&mut self, chat_id: ChatId, msg: IncomingMessage) -> (r: Result<MessageParams, String>) {
        ChatSessionServiceImpl::handle_update_content_message(self, chat_id, msg)
    }

    fn handle_update_content_callback_query(&mut self, chat_id: ChatId, query: CallbackQueryInput) -> (r: Result<MessageParams, String>) {
        ChatSessionServiceImpl::handle_update_content_callback_query(self, chat_id, query)
    }
}

} // verus!
