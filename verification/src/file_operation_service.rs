use crate::chat_session::{
    fresh_session, with_action, ActionView, ChatSession, ChatSessionAction, SessionView,
};
use crate::filesystem::{
    child_entries, has_children, insert_error, lookup, move_error, moved_entries, named_nodes_view,
    remove_error, removed_entries, FileSystem, FileSystemNode, FsEntries, NodeView,
};
use crate::keyboard::{
    back_button, back_inline_keyboard, directory_keyboard, directory_keyboard_spec,
};
use crate::messages::{
    automation_error_message, automation_error_message_text, automation_file_message,
    automation_file_message_text, automation_message, automation_message_text,
    cannot_delete_non_empty_dir_message, cannot_delete_non_empty_dir_message_text, contains_text,
    create_file_message, create_file_message_text, created_directory_success_message,
    created_directory_success_message_text, created_file_success_message,
    created_file_success_message_text, deleted_dir_success_message,
    deleted_dir_success_message_text, deleted_file_success_message,
    deleted_file_success_message_text, explorer_file_message, explorer_file_message_text,
    explorer_message, explorer_message_text, moved_file_success_message,
    moved_file_success_message_text, not_a_directory_text, renamed_file_success_message,
    renamed_file_success_message_text, reply_view, text_contains, text_reply, with_keyboard,
    with_reply_to, ButtonView, ChatId, MessageParams, MessageView,
};
use crate::path::{join_spec, opt_text, path_text, with_file_name_spec, FsPath, PathView};
use crate::webhook_service::{file_infos_view, FileInfo, FileInfoView};
use vstd::prelude::*;
use vstd::string::*;

verus! {

/// One step of a chat: the reply, and the chat and its file tree after it.
pub struct Step {
    pub reply: Result<MessageView, Seq<char>>,
    pub session: SessionView,
    pub fs: FsEntries,
}

/// A reply that carries a keyboard, or the reason the keyboard could not be made.
pub open spec fn keyboard_reply(m: MessageView, k: Result<Seq<ButtonView>, Seq<char>>) -> Result<
    MessageView,
    Seq<char>,
> {
    match k {
        Ok(b) => Ok(with_keyboard(m, b)),
        Err(e) => Err(e),
    }
}

pub open spec fn err_no_file_name() -> Seq<char> {
    "File name not found"@
}

pub open spec fn err_no_dir_name() -> Seq<char> {
    "Directory name not found"@
}

pub open spec fn err_not_supported() -> Seq<char> {
    "current action not supported by this action"@
}

/// A file sent to the chat: the chat starts over at the root, with the file
/// waiting for a directory.
pub open spec fn process_file_step(
    fv: FsEntries,
    chat: u64,
    message_id: i32,
    file_size: Option<u64>,
    mime_type: Option<Seq<char>>,
) -> Step {
    let node = NodeView::File {
        message_id,
        size: match file_size {
            Some(s) => s,
            None => 0,
        },
        mime_type,
    };
    Step {
        reply: keyboard_reply(
            text_reply(chat, create_file_message_text(path_text(Seq::empty()))),
            directory_keyboard_spec(fv, Seq::empty(), false, true),
        ),
        session: with_action(fresh_session(), ActionView::SaveFile(Some(node), None)),
        fs: fv,
    }
}

/// The directory `name` made in the current directory; the chat starts over.
pub open spec fn mkdir_step(sv: SessionView, fv: FsEntries, chat: u64, name: Seq<char>) -> Step {
    let dir = join_spec(sv.path, name);
    match insert_error(fv, dir) {
        Some(e) => Step { reply: Err(e), session: sv, fs: fv },
        None => Step {
            reply: Ok(
                text_reply(chat, created_directory_success_message_text(name, path_text(dir))),
            ),
            session: fresh_session(),
            fs: fv.push((dir, NodeView::Directory)),
        },
    }
}

/// The waiting file stored as `name` in the current directory.
pub open spec fn save_file_step(
    sv: SessionView,
    fv: FsEntries,
    chat: u64,
    node: NodeView,
    name: Seq<char>,
) -> Step {
    let p = join_spec(sv.path, name);
    match insert_error(fv, p) {
        Some(e) => Step { reply: Err(e), session: sv, fs: fv },
        None => Step {
            reply: Ok(
                text_reply(chat, created_file_success_message_text(p.last(), path_text(sv.path))),
            ),
            session: sv,
            fs: fv.push((p, node)),
        },
    }
}

/// The file at the current path renamed to `new_name`.
pub open spec fn rename_file_step(
    sv: SessionView,
    fv: FsEntries,
    chat: u64,
    new_name: Seq<char>,
) -> Step {
    let from = sv.path;
    let to = with_file_name_spec(from, new_name);
    match move_error(fv, from, to) {
        Some(e) => Step { reply: Err(e), session: sv, fs: fv },
        None => Step {
            reply: Ok(
                text_reply(
                    chat,
                    renamed_file_success_message_text(
                        from.last(),
                        new_name,
                        path_text(from.drop_last()),
                    ),
                ),
            ),
            session: sv,
            fs: moved_entries(fv, from, to),
        },
    }
}

/// The file at `from` moved into the directory `to`, under its own name.
pub open spec fn move_file_step(fv: FsEntries, chat: u64, from: PathView, to: PathView) -> (
    Result<MessageView, Seq<char>>,
    FsEntries,
) {
    let name = from.last();
    let full = join_spec(to, name);
    match move_error(fv, from, full) {
        Some(e) => (Err(e), fv),
        None => (
            Ok(
                text_reply(
                    chat,
                    moved_file_success_message_text(name, path_text(from), path_text(full)),
                ),
            ),
            moved_entries(fv, from, full),
        ),
    }
}

/// The file at `path` removed; the reply names the directory the chat is in.
pub open spec fn delete_file_step(fv: FsEntries, chat: u64, path: PathView, cur: PathView) -> (
    Result<MessageView, Seq<char>>,
    FsEntries,
) {
    match remove_error(fv, path) {
        Some(e) => (Err(e), fv),
        None => (
            Ok(text_reply(chat, deleted_file_success_message_text(path.last(), path_text(cur)))),
            removed_entries(fv, path),
        ),
    }
}

/// The directory at `path` removed if it holds nothing; otherwise a reply that says why not.
pub open spec fn delete_dir_step(fv: FsEntries, chat: u64, path: PathView, cur: PathView) -> (
    Result<MessageView, Seq<char>>,
    FsEntries,
) {
    match lookup(fv, path) {
        None => (Err(crate::filesystem::err_not_found()), fv),
        Some(NodeView::Directory) => if !has_children(fv, path) {
            match remove_error(fv, path) {
                Some(e) => (Err(e), fv),
                None => (
                    Ok(
                        text_reply(
                            chat,
                            deleted_dir_success_message_text(path.last(), path_text(cur)),
                        ),
                    ),
                    removed_entries(fv, path),
                ),
            }
        } else if path.len() == 0 {
            (Err(err_no_dir_name()), fv)
        } else {
            (
                Ok(
                    with_keyboard(
                        text_reply(chat, cannot_delete_non_empty_dir_message_text(path.last())),
                        seq![back_button()],
                    ),
                ),
                fv,
            )
        },
        Some(_) => (
            Ok(with_keyboard(text_reply(chat, not_a_directory_text()), seq![back_button()])),
            fv,
        ),
    }
}

/// A directory shown with its entries, or a file answered with its message.
pub open spec fn explorer_step(fv: FsEntries, chat: u64, path: PathView) -> Result<
    MessageView,
    Seq<char>,
> {
    match lookup(fv, path) {
        None => Err(crate::filesystem::err_not_found()),
        Some(NodeView::Directory) => keyboard_reply(
            text_reply(chat, explorer_message_text(path_text(path))),
            directory_keyboard_spec(fv, path, true, false),
        ),
        Some(NodeView::File { message_id, .. }) => if path.len() == 0 {
            Err(err_no_file_name())
        } else {
            Ok(
                with_reply_to(
                    text_reply(
                        chat,
                        explorer_file_message_text(path.last(), path_text(path.drop_last())),
                    ),
                    message_id,
                ),
            )
        },
    }
}

/// What the automation is asked to handle: one file, or the files of a directory.
pub enum AutomationRequest {
    File { path: FsPath, message_id: i32, file_info: FileInfo },
    Directory { path: FsPath, files: Vec<FileInfo> },
}

pub enum AutomationView {
    File { path: PathView, message_id: i32, file_info: FileInfoView },
    Directory { path: PathView, files: Seq<FileInfoView> },
}

impl View for AutomationRequest {
    type V = AutomationView;

    open spec fn view(&self) -> AutomationView {
        match self {
            AutomationRequest::File { path, message_id, file_info } => AutomationView::File {
                path: path@,
                message_id: *message_id,
                file_info: file_info@,
            },
            AutomationRequest::Directory { path, files } => AutomationView::Directory {
                path: path@,
                files: file_infos_view(files@),
            },
        }
    }
}

/// What the automation is told of the files among the entries of `dir`, in their order.
pub open spec fn dir_file_infos(entries: Seq<(Seq<char>, NodeView)>, dir: PathView) -> Seq<
    FileInfoView,
>
    decreases entries.len(),
{
    if entries.len() == 0 {
        Seq::empty()
    } else {
        let rest = dir_file_infos(entries.drop_last(), dir);
        match entries.last().1 {
            NodeView::File { message_id, size, mime_type } => rest.push(
                FileInfoView {
                    name: entries.last().0,
                    path: path_text(dir.push(entries.last().0)),
                    message_id,
                    mime_type,
                    size: Some(size),
                },
            ),
            NodeView::Directory => rest,
        }
    }
}

pub open spec fn automation_request_spec(fv: FsEntries, path: PathView) -> Result<
    AutomationView,
    Seq<char>,
> {
    match lookup(fv, path) {
        None => Err(crate::filesystem::err_not_found()),
        Some(NodeView::File { message_id, size, mime_type }) => if path.len() == 0 {
            Err(err_no_file_name())
        } else {
            Ok(
                AutomationView::File {
                    path,
                    message_id,
                    file_info: FileInfoView {
                        name: path.last(),
                        path: path_text(path),
                        message_id,
                        mime_type,
                        size: Some(size),
                    },
                },
            )
        },
        Some(NodeView::Directory) => Ok(
            AutomationView::Directory {
                path,
                files: dir_file_infos(child_entries(fv, path), path),
            },
        ),
    }
}

/// The webhook's answer reports a failure.
pub open spec fn automation_failed(answer: Seq<char>) -> bool {
    text_contains(answer, "error"@) || text_contains(answer, "Failed"@)
}

pub open spec fn automation_reply_spec(chat: u64, req: AutomationView, answer: Seq<char>) -> MessageView {
    text_reply(
        chat,
        if automation_failed(answer) {
            automation_error_message_text(answer)
        } else {
            match req {
                AutomationView::File { path, file_info, .. } => automation_file_message_text(
                    file_info.name,
                    path_text(path),
                ),
                AutomationView::Directory { path, .. } => automation_message_text(path_text(path)),
            }
        },
    )
}

pub open spec fn automation_result_view(r: Result<AutomationRequest, String>) -> Result<
    AutomationView,
    Seq<char>,
> {
    match r {
        Ok(a) => Ok(a@),
        Err(e) => Err(e@),
    }
}

/// A file that is moved leaves its old path and is found, the same node, at
/// its name inside the target directory; every other path finds what it
/// found before.
pub proof fn lemma_move_moves_the_file(fv: FsEntries, chat: u64, from: PathView, to: PathView, q: PathView)
    requires
        crate::filesystem::fs_wf(fv),
        move_file_step(fv, chat, from, to).0 is Ok,
    ensures
        lookup(move_file_step(fv, chat, from, to).1, from) is None,
        lookup(move_file_step(fv, chat, from, to).1, join_spec(to, from.last())) == lookup(fv, from),
        lookup(fv, from) matches Some(NodeView::File { .. }),
        q != from && q != join_spec(to, from.last()) ==> lookup(move_file_step(fv, chat, from, to).1, q) == lookup(fv, q),
        crate::filesystem::fs_wf(move_file_step(fv, chat, from, to).1),
{
    let full = join_spec(to, from.last());
    crate::filesystem::lemma_lookup_at(fv, crate::filesystem::path_index(fv, from));
    crate::filesystem::lemma_lookup_after_move(fv, from, full, from);
    crate::filesystem::lemma_lookup_after_move(fv, from, full, full);
    crate::filesystem::lemma_lookup_after_move(fv, from, full, q);
}

/// A file moved into a directory of the tree where its name is free is
/// moved: the reply says from where to where, and the file is then found
/// under its name in that directory.
pub proof fn lemma_move_into_directory_succeeds(fv: FsEntries, chat: u64, from: PathView, to: PathView)
    requires
        crate::filesystem::fs_wf(fv),
        lookup(fv, from) matches Some(NodeView::File { .. }),
        crate::filesystem::is_dir(fv, to),
        lookup(fv, to.push(from.last())) is None,
    ensures
        join_spec(to, from.last()) == to.push(from.last()),
        move_file_step(fv, chat, from, to).0 == Ok::<MessageView, Seq<char>>(text_reply(
            chat,
            moved_file_success_message_text(from.last(), path_text(from), path_text(to.push(from.last()))),
        )),
        lookup(move_file_step(fv, chat, from, to).1, to.push(from.last())) == lookup(fv, from),
        lookup(move_file_step(fv, chat, from, to).1, from) is None,
{
    let name = from.last();
    let full = to.push(name);
    crate::filesystem::lemma_found_path_valid(fv, from);
    crate::path::lemma_join_valid_name(to, name);
    if to.len() > 0 {
        crate::filesystem::lemma_found_path_valid(fv, to);
    }
    assert(crate::path::valid_components(full)) by {
        assert forall|i: int| 0 <= i < full.len() implies crate::path::valid_name(#[trigger] full[i]) by {
            if i < to.len() {
                assert(full[i] == to[i]);
            }
        }
    }
    assert(full.drop_last() =~= to);
    let k = crate::filesystem::path_index(fv, from);
    assert(crate::filesystem::stores(fv, from));
    assert(insert_error(fv, full) is None);
    assert(move_error(fv, from, full) is None);
    lemma_move_moves_the_file(fv, chat, from, to, from);
}

/// An answer of the webhook that holds "error" or "Failed" is reported as a
/// failure, whatever was asked for; any other answer is reported as started.
pub proof fn lemma_failed_answer_is_reported(chat: u64, req: AutomationView, answer: Seq<char>)
    ensures
        (text_contains(answer, "error"@) || text_contains(answer, "Failed"@)) ==> automation_reply_spec(chat, req, answer)
            == text_reply(chat, automation_error_message_text(answer)),
        !text_contains(answer, "error"@) && !text_contains(answer, "Failed"@) ==> automation_reply_spec(chat, req, answer)
            == text_reply(chat, match req {
                AutomationView::File { path, file_info, .. } => automation_file_message_text(file_info.name, path_text(path)),
                AutomationView::Directory { path, .. } => automation_message_text(path_text(path)),
            }),
{
}

/// Every rejected webhook call is reported to the chat as a failure.
pub proof fn lemma_rejection_is_reported_as_failure(chat: u64, req: AutomationView, code: Seq<char>, message: Seq<char>)
    ensures
        automation_reply_spec(chat, req, crate::webhook_service::webhook_outcome_text(Err((code, message))))
            == text_reply(chat, automation_error_message_text(crate::webhook_service::webhook_outcome_text(Err((code, message))))),
{
    crate::webhook_service::lemma_rejection_says_error(code, message);
}

/// The replies of the bot to the steps that change a chat's file tree.
pub trait FileOperationService {
    /// A file sent to the chat starts the dialogue that saves it.
    fn process_file_message(
        &self,
        chat_session: &mut ChatSession,
        fs: &FileSystem,
        chat_id: ChatId,
        message_id: i32,
        file_size: Option<u64>,
        mime_type: Option<String>,
    ) -> (r: Result<MessageParams, String>)
        requires
            fs.wf(),
        ensures
            ({
                let s = process_file_step(fs@, chat_id.0, message_id, file_size, opt_text(mime_type));
                reply_view(r) == s.reply && final(chat_session)@ == s.session
            }),
    ;

    fn handle_mkdir_action(
        &self,
        chat_id: &ChatId,
        chat_session: &mut ChatSession,
        fs: &mut FileSystem,
        text: String,
    ) -> (r: Result<MessageParams, String>)
        requires
            old(fs).wf(),
        ensures
            final(fs).wf(),
            ({
                let s = mkdir_step(old(chat_session)@, old(fs)@, chat_id.0, text@);
                reply_view(r) == s.reply && final(chat_session)@ == s.session && final(fs)@ == s.fs
            }),
    ;

    fn handle_save_file_action(
        &self,
        chat_id: &ChatId,
        chat_session: &mut ChatSession,
        fs: &mut FileSystem,
        file_node: FileSystemNode,
        file_name: String,
    ) -> (r: Result<MessageParams, String>)
        requires
            old(fs).wf(),
        ensures
            final(fs).wf(),
            ({
                let s = save_file_step(
                    old(chat_session)@,
                    old(fs)@,
                    chat_id.0,
                    file_node@,
                    file_name@,
                );
                reply_view(r) == s.reply && final(chat_session)@ == s.session && final(fs)@ == s.fs
            }),
    ;

    fn handle_rename_file_action(
        &self,
        chat_id: &ChatId,
        chat_session: &mut ChatSession,
        fs: &mut FileSystem,
        new_file_name: String,
    ) -> (r: Result<MessageParams, String>)
        requires
            old(fs).wf(),
        ensures
            final(fs).wf(),
            ({
                let s = rename_file_step(old(chat_session)@, old(fs)@, chat_id.0, new_file_name@);
                reply_view(r) == s.reply && final(chat_session)@ == s.session && final(fs)@ == s.fs
            }),
    ;

    fn handle_move_file_action(
        &self,
        chat_id: &ChatId,
        from_path: &FsPath,
        to_path: &FsPath,
        fs: &mut FileSystem,
    ) -> (r: Result<MessageParams, String>)
        requires
            old(fs).wf(),
            crate::path::file_name_of(from_path@) is Some,
        ensures
            final(fs).wf(),
            (reply_view(r), final(fs)@) == move_file_step(
                old(fs)@,
                chat_id.0,
                from_path@,
                to_path@,
            ),
    ;

    fn handle_delete_file_action(
        &self,
        chat_id: &ChatId,
        path: &FsPath,
        current_path: &FsPath,
        fs: &mut FileSystem,
    ) -> (r: Result<MessageParams, String>)
        requires
            old(fs).wf(),
        ensures
            final(fs).wf(),
            (reply_view(r), final(fs)@) == delete_file_step(
                old(fs)@,
                chat_id.0,
                path@,
                current_path@,
            ),
    ;

    fn handle_delete_dir_action(
        &self,
        chat_id: &ChatId,
        path: &FsPath,
        current_path: &FsPath,
        fs: &mut FileSystem,
    ) -> (r: Result<MessageParams, String>)
        requires
            old(fs).wf(),
        ensures
            final(fs).wf(),
            (reply_view(r), final(fs)@) == delete_dir_step(
                old(fs)@,
                chat_id.0,
                path@,
                current_path@,
            ),
    ;

    fn handle_explorer_action(&self, chat_id: &ChatId, path: &FsPath, fs: &FileSystem) -> (r:
        Result<MessageParams, String>)
        requires
            fs.wf(),
        ensures
            reply_view(r) == explorer_step(fs@, chat_id.0, path@),
    ;

    /// What the automation is to be sent for the node at `current_path`.
    fn prepare_file_automation(&self, current_path: &FsPath, fs: &FileSystem) -> (r: Result<
        AutomationRequest,
        String,
    >)
        requires
            fs.wf(),
        ensures
            automation_result_view(r) == automation_request_spec(fs@, current_path@),
    ;

    /// The reply once the webhook has answered `answer` to `request`.
    fn finish_file_automation(
        &self,
        chat_id: &ChatId,
        request: &AutomationRequest,
        answer: &str,
    ) -> (r: MessageParams)
        ensures
            r@ == automation_reply_spec(chat_id.0, request@, answer@),
    ;
}

/// The file operations of the bot.
pub struct FileOperationServiceImpl {}

impl Default for FileOperationServiceImpl {
    fn default() -> (r: Self) {
        Self::new()
    }
}

impl FileOperationServiceImpl {
    pub fn new() -> (r: Self) {
        Self {  }
    }
}

/// The error that a button press gets when the chat is doing something it does not fit.
pub fn action_not_supported_error() -> (r: Result<MessageParams, String>)
    ensures
        reply_view(r) == Err::<MessageView, Seq<char>>(err_not_supported()),
{
    Err(String::from_str("current action not supported by this action"))
}

fn text_reply_params(chat_id: ChatId, text: String) -> (r: MessageParams)
    ensures
        r@ == text_reply(chat_id.0, text@),
{
    let mut p = MessageParams::new_send(chat_id);
    p.set_text(text);
    p
}

impl FileOperationService for FileOperationServiceImpl {
    fn process_file_message(
        &self,
        chat_session: &mut ChatSession,
        fs: &FileSystem,
        chat_id: ChatId,
        message_id: i32,
        file_size: Option<u64>,
        mime_type: Option<String>,
    ) -> (r: Result<MessageParams, String>) {
        chat_session.reset();
        let size = match file_size {
            Some(s) => s,
            None => 0,
        };
        let node = FileSystemNode::new_file(message_id, size, mime_type);
        chat_session.set_action(ChatSessionAction::SaveFile(Some(node), None));
        let mut p = text_reply_params(
            chat_id,
            create_file_message(chat_session.current_path_string().as_str()),
        );
        match directory_keyboard(fs, chat_session.current_path(), false, true) {
            Ok(k) => {
                p.set_inline_keyboard_markup(k);
                Ok(p)
            },
            Err(e) => Err(e),
        }
    }

    fn handle_mkdir_action(
        &self,
        chat_id: &ChatId,
        chat_session: &mut ChatSession,
        fs: &mut FileSystem,
        text: String,
    ) -> (r: Result<MessageParams, String>) {
        let dir_path = chat_session.current_path().join(text.as_str());
        match fs.mkdir(&dir_path) {
            Ok(()) => {},
            Err(e) => {
                return Err(e);
            },
        }
        chat_session.reset();
        let msg = created_directory_success_message(text.as_str(), dir_path.to_text().as_str());
        Ok(text_reply_params(*chat_id, msg))
    }

    fn handle_save_file_action(
        &self,
        chat_id: &ChatId,
        chat_session: &mut ChatSession,
        fs: &mut FileSystem,
        file_node: FileSystemNode,
        file_name: String,
    ) -> (r: Result<MessageParams, String>) {
        let dir_path = chat_session.current_path();
        let file_path = dir_path.join(file_name.as_str());
        let final_path = match fs.create_file_from_node(&file_path, file_node) {
            Ok(p) => p,
            Err(e) => {
                return Err(e);
            },
        };
        let name = match final_path.file_name() {
            Some(n) => n,
            None => {
                return Err(String::from_str("File name not found"));
            },
        };
        let msg = created_file_success_message(name.as_str(), dir_path.to_text().as_str());
        Ok(text_reply_params(*chat_id, msg))
    }

    fn handle_rename_file_action(
        &self,
        chat_id: &ChatId,
        chat_session: &mut ChatSession,
        fs: &mut FileSystem,
        new_file_name: String,
    ) -> (r: Result<MessageParams, String>) {
        let from_path = chat_session.current_path();
        let to_path = from_path.with_file_name(new_file_name.as_str());
        match fs.mv(from_path, &to_path) {
            Ok(()) => {},
            Err(e) => {
                return Err(e);
            },
        }
        proof {
            assert(from_path@.len() > 0);
        }
        let old_name = match from_path.file_name() {
            Some(n) => n,
            None => {
                return Err(String::from_str("File name not found"));
            },
        };
        let parent = match from_path.parent() {
            Some(p) => p,
            None => {
                return Err(String::from_str("Parent path not found"));
            },
        };
        let msg = renamed_file_success_message(
            old_name.as_str(),
            new_file_name.as_str(),
            parent.to_text().as_str(),
        );
        Ok(text_reply_params(*chat_id, msg))
    }

    fn handle_move_file_action(
        &self,
        chat_id: &ChatId,
        from_path: &FsPath,
        to_path: &FsPath,
        fs: &mut FileSystem,
    ) -> (r: Result<MessageParams, String>) {
        let file_name = match from_path.file_name() {
            Some(n) => n,
            None => {
                return Err(String::from_str("File name not found"));
            },
        };
        let full_to_path = to_path.join(file_name.as_str());
        match fs.mv(from_path, &full_to_path) {
            Ok(()) => {},
            Err(e) => {
                return Err(e);
            },
        }
        let msg = moved_file_success_message(
            file_name.as_str(),
            from_path.to_text().as_str(),
            full_to_path.to_text().as_str(),
        );
        Ok(text_reply_params(*chat_id, msg))
    }

    fn handle_delete_file_action(
        &self,
        chat_id: &ChatId,
        path: &FsPath,
        current_path: &FsPath,
        fs: &mut FileSystem,
    ) -> (r: Result<MessageParams, String>) {
        match fs.remove_node(path) {
            Ok(()) => {},
            Err(e) => {
                return Err(e);
            },
        }
        proof {
            assert(path@.len() > 0);
        }
        let file_name = match path.file_name() {
            Some(n) => n,
            None => {
                return Err(String::from_str("File name not found"));
            },
        };
        let msg = deleted_file_success_message(
            file_name.as_str(),
            current_path.to_text().as_str(),
        );
        Ok(text_reply_params(*chat_id, msg))
    }

    fn handle_delete_dir_action(
        &self,
        chat_id: &ChatId,
        path: &FsPath,
        current_path: &FsPath,
        fs: &mut FileSystem,
    ) -> (r: Result<MessageParams, String>) {
        let node = match fs.get_node(path) {
            Ok(n) => n,
            Err(e) => {
                return Err(e);
            },
        };
        let mut message_params = MessageParams::new_send(*chat_id);
        if node.is_directory() {
            let is_empty = !fs.has_children(path);
            if is_empty {
                match fs.remove_node(path) {
                    Ok(()) => {},
                    Err(e) => {
                        return Err(e);
                    },
                }
                let dir_name = match path.file_name() {
                    Some(n) => n,
                    None => {
                        return Err(String::from_str("Directory name not found"));
                    },
                };
                message_params.set_text(
                    deleted_dir_success_message(
                        dir_name.as_str(),
                        current_path.to_text().as_str(),
                    ),
                );
            } else {
                let dir_name = match path.file_name() {
                    Some(n) => n,
                    None => {
                        return Err(String::from_str("Directory name not found"));
                    },
                };
                message_params.set_text(cannot_delete_non_empty_dir_message(dir_name.as_str()));
                message_params.set_inline_keyboard_markup(back_inline_keyboard());
            }
        } else {
            message_params.set_text(String::from_str("This is not a directory."));
            message_params.set_inline_keyboard_markup(back_inline_keyboard());
        }
        Ok(message_params)
    }

    fn handle_explorer_action(&self, chat_id: &ChatId, path: &FsPath, fs: &FileSystem) -> (r:
        Result<MessageParams, String>) {
        let node = match fs.get_node(path) {
            Ok(n) => n,
            Err(e) => {
                return Err(e);
            },
        };
        if node.is_directory() {
            let mut message_params = text_reply_params(
                *chat_id,
                explorer_message(path.to_text().as_str()),
            );
            match directory_keyboard(fs, path, true, false) {
                Ok(k) => {
                    message_params.set_inline_keyboard_markup(k);
                    Ok(message_params)
                },
                Err(e) => Err(e),
            }
        } else {
            let message_id = match node.file_message_id() {
                Some(m) => m,
                None => {
                    return Err(String::from_str("Message id not found"));
                },
            };
            let file_name = match path.file_name() {
                Some(n) => n,
                None => {
                    return Err(String::from_str("File name not found"));
                },
            };
            let parent_path = match path.parent() {
                Some(p) => p,
                None => {
                    return Err(String::from_str("Parent path not found"));
                },
            };
            let mut send_message_params = text_reply_params(
                *chat_id,
                explorer_file_message(file_name.as_str(), parent_path.to_text().as_str()),
            );
            send_message_params.set_reply_to_message_id(message_id);
            Ok(send_message_params)
        }
    }

    fn prepare_file_automation(&self, current_path: &FsPath, fs: &FileSystem) -> (r: Result<
        AutomationRequest,
        String,
    >) {
        let node = match fs.get_node(current_path) {
            Ok(n) => n,
            Err(e) => {
                return Err(e);
            },
        };
        match node {
            FileSystemNode::File { message_id, size, mime_type } => {
                let file_name = match current_path.file_name() {
                    Some(n) => n,
                    None => {
                        return Err(String::from_str("File name not found"));
                    },
                };
                let file_info = FileInfo {
                    name: file_name,
                    path: current_path.to_text(),
                    message_id,
                    mime_type,
                    size: Some(size),
                };
                Ok(AutomationRequest::File { path: current_path.clone(), message_id, file_info })
            },
            FileSystemNode::Directory => {
                let entries = fs.children(current_path);
                let ghost ev = named_nodes_view(entries@);
                let n = entries.len();
                let mut files: Vec<FileInfo> = Vec::new();
                assert(ev.take(0) =~= Seq::<(Seq<char>, NodeView)>::empty());
                for i in 0..n
                    invariant
                        n == entries.len(),
                        ev == named_nodes_view(entries@),
                        file_infos_view(files@) =~= dir_file_infos(
                            ev.take(i as int),
                            current_path@,
                        ),
                {
                    let ghost prefix = ev.take(i + 1);
                    assert(prefix.drop_last() =~= ev.take(i as int));
                    assert(prefix.last() == ev[i as int]);
                    match &entries[i].1 {
                        FileSystemNode::File { message_id, size, mime_type } => {
                            let full_path = current_path.child(&entries[i].0);
                            let info = FileInfo {
                                name: entries[i].0.clone(),
                                path: full_path.to_text(),
                                message_id: *message_id,
                                mime_type: crate::filesystem::copy_opt_string(mime_type),
                                size: Some(*size),
                            };
                            let ghost before = file_infos_view(files@);
                            files.push(info);
                            assert(file_infos_view(files@) =~= before.push(info@));
                        },
                        FileSystemNode::Directory => {},
                    }
                }
                assert(ev.take(n as int) =~= ev);
                Ok(AutomationRequest::Directory { path: current_path.clone(), files })
            },
        }
    }

    fn finish_file_automation(
        &self,
        chat_id: &ChatId,
        request: &AutomationRequest,
        answer: &str,
    ) -> (r: MessageParams) {
        let failed = contains_text(answer, "error") || contains_text(answer, "Failed");
        let text = if failed {
            automation_error_message(answer)
        } else {
            match request {
                AutomationRequest::File { path, file_info, .. } => automation_file_message(
                    file_info.name.as_str(),
                    path.to_text().as_str(),
                ),
                AutomationRequest::Directory { path, .. } => automation_message(
                    path.to_text().as_str(),
                ),
            }
        };
        text_reply_params(*chat_id, text)
    }
}

} // verus!
