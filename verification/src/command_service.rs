use crate::chat_session::{with_action, ActionView, ChatSession, ChatSessionAction, SessionView};
use crate::command::Command;
use crate::file_operation_service::keyboard_reply;
use crate::filesystem::{fs_wf, is_dir, lookup, path_index, stores, FileSystem, FsEntries, NodeView};
use crate::keyboard::{directory_buttons, directory_keyboard, directory_keyboard_spec, lemma_keyboard_shows_entries};
use crate::messages::{
    automation_pending_message, automation_pending_message_text, delete_dir_message,
    delete_dir_message_text, delete_file_message, delete_file_message_text, explorer_message,
    explorer_message_text, help_message, help_message_text, info_message, info_message_text,
    mkdir_message, mkdir_message_text, move_file_select_file_message,
    move_file_select_file_message_text, rename_file_message, rename_file_message_text, reply_view,
    start_message, start_message_text, text_reply, ChatId, MessageParams, MessageView,
};
use crate::path::{is_child_of, path_text, PathView};
use vstd::prelude::*;

verus! {

/// What a command sets the chat to do; none for the commands that only answer.
pub open spec fn command_action(c: Command) -> Option<ActionView> {
    match c {
        Command::Start | Command::Help | Command::Info => None,
        Command::MkDir => Some(ActionView::MkDir(None)),
        Command::Explorer | Command::Automation => Some(ActionView::Explorer),
        Command::RenameFile => Some(ActionView::RenameFile(None)),
        Command::MoveFile => Some(ActionView::MoveFile(None)),
        Command::DeleteDir => Some(ActionView::DeleteDir),
        Command::DeleteFile => Some(ActionView::DeleteFile),
    }
}

/// The text that answers a command given in the directory written `path`.
pub open spec fn command_text(c: Command, path: Seq<char>) -> Seq<char> {
    match c {
        Command::Start => start_message_text(None),
        Command::Help => help_message_text(),
        Command::Info => info_message_text(),
        Command::MkDir => mkdir_message_text(path),
        Command::Explorer => explorer_message_text(path),
        Command::RenameFile => rename_file_message_text(path),
        Command::MoveFile => move_file_select_file_message_text(path),
        Command::DeleteDir => delete_dir_message_text(path),
        Command::DeleteFile => delete_file_message_text(path),
        Command::Automation => automation_pending_message_text(path),
    }
}

/// The keyboard that answers a command, as (with files, with a button for the
/// current directory); none for the commands that only answer.
pub open spec fn command_keyboard(c: Command) -> Option<(bool, bool)> {
    match c {
        Command::Start | Command::Help | Command::Info => None,
        Command::MkDir => Some((false, true)),
        Command::DeleteDir => Some((false, false)),
        _ => Some((true, false)),
    }
}

/// The reply to a command, and the chat after it.
pub open spec fn command_step(sv: SessionView, fv: FsEntries, chat: u64, c: Command) -> (
    Result<MessageView, Seq<char>>,
    SessionView,
) {
    let m = text_reply(chat, command_text(c, path_text(sv.path)));
    (
        match command_keyboard(c) {
            None => Ok(m),
            Some((files, current)) => keyboard_reply(
                m,
                directory_keyboard_spec(fv, sv.path, files, current),
            ),
        },
        match command_action(c) {
            Some(a) => with_action(sv, a),
            None => sv,
        },
    )
}

/// The replies of the bot to commands.
pub trait CommandService {
    /// The reply to `command` and the chat after it. Answering `/automation`
    /// does not run the automation: the caller that keeps the chats owes that
    /// run when the reply is `Ok` (see `starts_automation`).
    fn handle_command(
        &self,
        chat_id: &ChatId,
        command: &Command,
        chat_session: &mut ChatSession,
        filesystem: &FileSystem,
    ) -> (r: Result<MessageParams, String>)
        requires
            filesystem.wf(),
        ensures
            (reply_view(r), final(chat_session)@) == command_step(
                old(chat_session)@,
                filesystem@,
                chat_id.0,
                *command,
            ),
    ;
}

/// The command handling of the bot.
pub struct CommandServiceImpl {}

impl Default for CommandServiceImpl {
    fn default() -> (r: Self) {
        Self::new()
    }
}

impl CommandServiceImpl {
    pub fn new() -> (r: Self) {
        Self {  }
    }
}

impl CommandService for CommandServiceImpl {
    fn handle_command(
        &self,
        chat_id: &ChatId,
        command: &Command,
        chat_session: &mut ChatSession,
        filesystem: &FileSystem,
    ) -> (r: Result<MessageParams, String>) {
        let mut send_message_params = MessageParams::new_send(*chat_id);
        let (files, current) = match command {
            Command::Start => {
                send_message_params.set_text(start_message(None));
                return Ok(send_message_params);
            },
            Command::Help => {
                send_message_params.set_text(help_message());
                return Ok(send_message_params);
            },
            Command::Info => {
                send_message_params.set_text(info_message());
                return Ok(send_message_params);
            },
            Command::MkDir => {
                chat_session.set_action(ChatSessionAction::MkDir(None));
                send_message_params.set_text(
                    mkdir_message(chat_session.current_path_string().as_str()),
                );
                (false, true)
            },
            Command::Explorer => {
                chat_session.set_action(ChatSessionAction::Explorer);
                send_message_params.set_text(
                    explorer_message(chat_session.current_path_string().as_str()),
                );
                (true, false)
            },
            Command::RenameFile => {
                chat_session.set_action(ChatSessionAction::RenameFile(None));
                send_message_params.set_text(
                    rename_file_message(chat_session.current_path_string().as_str()),
                );
                (true, false)
            },
            Command::MoveFile => {
                chat_session.set_action(ChatSessionAction::MoveFile(None));
                send_message_params.set_text(
                    move_file_select_file_message(chat_session.current_path_string().as_str()),
                );
                (true, false)
            },
            Command::DeleteDir => {
                chat_session.set_action(ChatSessionAction::DeleteDir);
                send_message_params.set_text(
                    delete_dir_message(chat_session.current_path_string().as_str()),
                );
                (false, false)
            },
            Command::DeleteFile => {
                chat_session.set_action(ChatSessionAction::DeleteFile);
                send_message_params.set_text(
                    delete_file_message(chat_session.current_path_string().as_str()),
                );
                (true, false)
            },
            Command::Automation => {
                send_message_params.set_text(
                    automation_pending_message(chat_session.current_path_string().as_str()),
                );
                chat_session.set_action(ChatSessionAction::Explorer);
                (true, false)
            },
        };
        match directory_keyboard(filesystem, chat_session.current_path(), files, current) {
            Ok(k) => {
                send_message_params.set_inline_keyboard_markup(k);
                Ok(send_message_params)
            },
            Err(e) => Err(e),
        }
    }
}


/// The commands that show the files of the current directory.
pub open spec fn shows_files(c: Command) -> bool {
    c == Command::Explorer || c == Command::RenameFile || c == Command::MoveFile
        || c == Command::DeleteFile || c == Command::Automation
}

/// A command that shows the current directory is answered with a keyboard
/// that has a button for each entry of that directory: for `/explorer`,
/// `/rename_file`, `/move_file`, `/delete_file` and `/automation` each file
/// and each subdirectory, for `/mkdir` and `/delete_dir` each subdirectory.
/// The button sends back the entry's written path.
pub proof fn lemma_command_keyboard_lists_entries(sv: SessionView, fv: FsEntries, chat: u64, c: Command, q: PathView)
    requires
        fs_wf(fv),
        is_child_of(q, sv.path),
        lookup(fv, q) is Some,
        shows_files(c) || ((c == Command::MkDir || c == Command::DeleteDir) && lookup(fv, q) == Some(NodeView::Directory)),
    ensures
        command_step(sv, fv, chat, c).0 is Ok,
        command_step(sv, fv, chat, c).0->Ok_0.text == Some(command_text(c, path_text(sv.path))),
        command_step(sv, fv, chat, c).0->Ok_0.keyboard is Some,
        exists|i: int|
            0 <= i < command_step(sv, fv, chat, c).0->Ok_0.keyboard->Some_0.len()
                && (#[trigger] command_step(sv, fv, chat, c).0->Ok_0.keyboard->Some_0[i]).data == path_text(q),
{
    let j = path_index(fv, q);
    assert(stores(fv, q));
    assert(fv[j].0 == q);
    assert(q.drop_last() =~= sv.path);
    assert(is_dir(fv, sv.path));
    let (files, current) = command_keyboard(c)->Some_0;
    lemma_keyboard_shows_entries(fv, sv.path, files, current, q);
    let bs = directory_buttons(fv, sv.path, files, current);
    assert(command_step(sv, fv, chat, c).0->Ok_0.keyboard->Some_0 == bs);
    let i = choose|i: int| 0 <= i < bs.len() && (#[trigger] bs[i]).data == path_text(q);
    assert(command_step(sv, fv, chat, c).0->Ok_0.keyboard->Some_0[i].data == path_text(q));
}

} // verus!
