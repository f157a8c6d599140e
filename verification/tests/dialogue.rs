use backend::chat_session::{ChatSessionAction, ChatSessionWaitReply};
use backend::chat_session_service::ChatSessionServiceImpl;
use backend::filesystem::FileSystemNode;
use backend::messages::{ChatId, KeyboardButton, MessageParams};
use backend::path::FsPath;
use backend::update::{Attachment, CallbackQueryInput, IncomingMessage, MessageEntity};

fn plain(message_id: i32) -> IncomingMessage {
    IncomingMessage {
        message_id,
        text: None,
        first_entity: None,
        document: None,
        photo: None,
        video: None,
        video_note: None,
        audio: None,
        voice: None,
        sticker: None,
        has_contact: false,
    }
}

fn text(message_id: i32, t: &str) -> IncomingMessage {
    let mut m = plain(message_id);
    m.text = Some(t.to_string());
    m
}

fn command(message_id: i32, t: &str) -> IncomingMessage {
    let mut m = text(message_id, t);
    let length = t.find(' ').unwrap_or(t.len());
    m.first_entity = Some(MessageEntity { is_bot_command: true, offset: 0, length });
    m
}

fn document(message_id: i32, size: u64, mime: &str) -> IncomingMessage {
    let mut m = plain(message_id);
    m.document = Some(Attachment { file_size: Some(size), mime_type: Some(mime.to_string()) });
    m
}

fn press(data: &str, message_id: i32) -> CallbackQueryInput {
    CallbackQueryInput { data: Some(data.to_string()), message_id: Some(message_id) }
}

fn text_of(p: &MessageParams) -> String {
    p.text.clone().unwrap()
}

fn buttons(p: &MessageParams) -> Vec<(String, String)> {
    p.keyboard
        .as_ref()
        .unwrap()
        .iter()
        .map(|b: &KeyboardButton| (b.text.clone(), b.callback_data.clone()))
        .collect()
}

fn pair(a: &str, b: &str) -> (String, String) {
    (a.to_string(), b.to_string())
}

const CHAT: ChatId = ChatId(42);

/// Saves a document named `name` in the directory the chat is in.
fn save_document(s: &mut ChatSessionServiceImpl, id: i32, name: &str) {
    s.handle_update_content_message(CHAT, document(id, 100, "application/pdf")).unwrap();
    s.handle_update_content_callback_query(CHAT, press(".", id + 1)).unwrap();
    s.handle_update_content_message(CHAT, text(id + 2, name)).unwrap();
}

#[test]
fn help_command_answers_without_changing_the_chat() {
    let mut s = ChatSessionServiceImpl::new();
    let r = s.handle_update_content_message(CHAT, command(1, "/help")).unwrap();
    assert_eq!(r.chat_id, CHAT);
    assert!(r.edit_message_id.is_none());
    assert!(text_of(&r).starts_with("Send me any file to store it."));
    assert!(r.keyboard.is_none());
    assert_eq!(s.get_chat_sessions_count(), 1);
}

#[test]
fn unknown_command_text_without_action_starts_saving_it() {
    let mut s = ChatSessionServiceImpl::new();
    let r = s.handle_update_content_message(CHAT, command(1, "/nothing")).unwrap();
    assert_eq!(text_of(&r), "Choose the directory in which to save the file.\nCurrent path: /");
    assert_eq!(buttons(&r), vec![pair("Select this directory", ".")]);
    let cs = s.get_or_create_chat_session(&CHAT);
    match cs.action {
        Some(ChatSessionAction::SaveFile(Some(FileSystemNode::File { message_id, size, mime_type }), None)) => {
            assert_eq!(message_id, 1);
            assert_eq!(size, 8);
            assert_eq!(mime_type, Some("telegram/text".to_string()));
        }
        _ => panic!("the chat should wait for a directory"),
    }
}

#[test]
fn document_is_saved_under_the_given_name() {
    let mut s = ChatSessionServiceImpl::new();
    let r = s.handle_update_content_message(CHAT, document(10, 2048, "application/pdf")).unwrap();
    assert_eq!(text_of(&r), "Choose the directory in which to save the file.\nCurrent path: /");
    let r = s.handle_update_content_callback_query(CHAT, press(".", 11)).unwrap();
    assert_eq!(r.edit_message_id, Some(11));
    assert_eq!(text_of(&r), "Send the name of the file to save in /");
    assert_eq!(buttons(&r), vec![pair("Back", "back")]);
    let r = s.handle_update_content_message(CHAT, text(12, "report.pdf")).unwrap();
    assert_eq!(text_of(&r), "File report.pdf saved in /");
    let fs = s.get_or_create_filesystem(&CHAT);
    match fs.get_node(&FsPath::parse("/report.pdf")).unwrap() {
        FileSystemNode::File { message_id, size, mime_type } => {
            assert_eq!(message_id, 10);
            assert_eq!(size, 2048);
            assert_eq!(mime_type, Some("application/pdf".to_string()));
        }
        FileSystemNode::Directory => panic!("a file was saved"),
    }
}

#[test]
fn saving_twice_under_one_name_is_refused_and_clears_the_action() {
    let mut s = ChatSessionServiceImpl::new();
    save_document(&mut s, 1, "a.txt");
    let r = s.handle_update_content_message(CHAT, text(4, "a.txt"));
    assert_eq!(r.err(), Some("Path already exists".to_string()));
    assert!(s.get_or_create_chat_session(&CHAT).action.is_none());
}

#[test]
fn mkdir_dialogue_makes_the_directory() {
    let mut s = ChatSessionServiceImpl::new();
    let r = s.handle_update_content_message(CHAT, command(1, "/mkdir")).unwrap();
    assert_eq!(text_of(&r), "Choose the directory in which to create a new one.\nCurrent path: /");
    assert_eq!(buttons(&r), vec![pair("Select this directory", ".")]);
    let r = s.handle_update_content_callback_query(CHAT, press(".", 2)).unwrap();
    assert_eq!(text_of(&r), "Send the name of the new directory in /");
    let r = s.handle_update_content_message(CHAT, text(3, "docs")).unwrap();
    assert_eq!(text_of(&r), "Directory docs created at /docs");
    assert!(s.get_or_create_chat_session(&CHAT).action.is_none());
    let fs = s.get_or_create_filesystem(&CHAT);
    assert!(fs.get_node(&FsPath::parse("/docs")).unwrap().is_directory());
}

#[test]
fn back_button_returns_to_choosing_the_directory() {
    let mut s = ChatSessionServiceImpl::new();
    s.handle_update_content_message(CHAT, command(1, "/mkdir")).unwrap();
    s.handle_update_content_callback_query(CHAT, press(".", 2)).unwrap();
    let r = s.handle_update_content_callback_query(CHAT, press("back", 2)).unwrap();
    assert_eq!(text_of(&r), "Choose the directory in which to create a new one.\nCurrent path: /");
    match s.get_or_create_chat_session(&CHAT).action {
        Some(ChatSessionAction::MkDir(None)) => {}
        _ => panic!("the chat should choose a directory again"),
    }
}

#[test]
fn explorer_lists_directories_then_files() {
    let mut s = ChatSessionServiceImpl::new();
    save_document(&mut s, 1, "b.txt");
    s.handle_update_content_message(CHAT, command(4, "/mkdir")).unwrap();
    s.handle_update_content_callback_query(CHAT, press(".", 5)).unwrap();
    s.handle_update_content_message(CHAT, text(6, "music")).unwrap();
    let r = s.handle_update_content_message(CHAT, command(7, "/explorer")).unwrap();
    assert_eq!(text_of(&r), "Current path: /");
    assert_eq!(buttons(&r), vec![pair("b.txt", "/b.txt"), pair("music/", "/music")]);
    let r = s.handle_update_content_callback_query(CHAT, press("/music", 7)).unwrap();
    assert_eq!(text_of(&r), "Current path: /music");
    assert_eq!(buttons(&r), vec![pair("..", "..")]);
    let r = s.handle_update_content_callback_query(CHAT, press("..", 7)).unwrap();
    assert_eq!(text_of(&r), "Current path: /");
    let r = s.handle_update_content_callback_query(CHAT, press("/b.txt", 7)).unwrap();
    assert_eq!(text_of(&r), "File b.txt in /");
    assert_eq!(r.reply_to_message_id, Some(1));
    assert!(r.edit_message_id.is_none());
}

#[test]
fn rename_dialogue_renames_the_file() {
    let mut s = ChatSessionServiceImpl::new();
    save_document(&mut s, 1, "old.txt");
    s.handle_update_content_message(CHAT, command(4, "/rename_file")).unwrap();
    let r = s.handle_update_content_callback_query(CHAT, press("/old.txt", 5)).unwrap();
    assert_eq!(text_of(&r), "Send the new name of old.txt in /");
    assert_eq!(r.reply_to_message_id, Some(1));
    let r = s.handle_update_content_message(CHAT, text(6, "new.txt")).unwrap();
    assert_eq!(text_of(&r), "File old.txt renamed to new.txt in /");
    let fs = s.get_or_create_filesystem(&CHAT);
    assert!(fs.get_node(&FsPath::parse("/new.txt")).is_ok());
    assert_eq!(fs.get_node(&FsPath::parse("/old.txt")).err(), Some("Path not found".to_string()));
}

#[test]
fn move_dialogue_moves_the_file() {
    let mut s = ChatSessionServiceImpl::new();
    save_document(&mut s, 1, "f.txt");
    s.handle_update_content_message(CHAT, command(4, "/mkdir")).unwrap();
    s.handle_update_content_callback_query(CHAT, press(".", 5)).unwrap();
    s.handle_update_content_message(CHAT, text(6, "dst")).unwrap();
    s.handle_update_content_message(CHAT, command(7, "/move_file")).unwrap();
    let r = s.handle_update_content_callback_query(CHAT, press("/f.txt", 8)).unwrap();
    assert_eq!(text_of(&r), "Choose the directory to move /f.txt to.");
    assert_eq!(buttons(&r), vec![pair("Select this directory", "."), pair("dst/", "/dst")]);
    let r = s.handle_update_content_callback_query(CHAT, press("/dst", 9)).unwrap();
    assert_eq!(text_of(&r), "Choose the directory to move /f.txt to.");
    let r = s.handle_update_content_callback_query(CHAT, press(".", 9)).unwrap();
    assert_eq!(text_of(&r), "File f.txt moved from /f.txt to /dst/f.txt");
    let fs = s.get_or_create_filesystem(&CHAT);
    assert!(fs.get_node(&FsPath::parse("/dst/f.txt")).is_ok());
}

#[test]
fn delete_file_by_button_removes_it_and_starts_over() {
    let mut s = ChatSessionServiceImpl::new();
    save_document(&mut s, 1, "gone.txt");
    s.handle_update_content_message(CHAT, command(4, "/delete_file")).unwrap();
    let r = s.handle_update_content_callback_query(CHAT, press("/gone.txt", 5)).unwrap();
    assert_eq!(text_of(&r), "File gone.txt deleted from /");
    assert_eq!(r.edit_message_id, Some(5));
    assert!(s.get_or_create_chat_session(&CHAT).action.is_none());
    let fs = s.get_or_create_filesystem(&CHAT);
    assert!(fs.get_node(&FsPath::parse("/gone.txt")).is_err());
}

#[test]
fn non_empty_directory_is_not_deleted_and_the_chat_keeps_its_action() {
    let mut s = ChatSessionServiceImpl::new();
    s.handle_update_content_message(CHAT, command(1, "/mkdir")).unwrap();
    s.handle_update_content_callback_query(CHAT, press(".", 2)).unwrap();
    s.handle_update_content_message(CHAT, text(3, "full")).unwrap();
    s.handle_update_content_message(CHAT, command(4, "/explorer")).unwrap();
    s.handle_update_content_callback_query(CHAT, press("/full", 4)).unwrap();
    s.handle_update_content_message(CHAT, document(5, 1, "text/plain")).unwrap();
    s.handle_update_content_callback_query(CHAT, press("/full", 6)).unwrap();
    s.handle_update_content_callback_query(CHAT, press(".", 6)).unwrap();
    s.handle_update_content_message(CHAT, text(7, "x.txt")).unwrap();
    let r = s.handle_update_content_message(CHAT, command(8, "/delete_dir")).unwrap();
    assert_eq!(text_of(&r), "Choose the directory to delete.\nCurrent path: /full");
    assert_eq!(buttons(&r), vec![pair("..", "..")]);
    let r = s.handle_update_content_callback_query(CHAT, press("/full", 9)).unwrap();
    assert_eq!(text_of(&r), "Directory full is not empty and cannot be deleted.");
    assert_eq!(buttons(&r), vec![pair("Back", "back")]);
    match s.get_or_create_chat_session(&CHAT).action {
        Some(ChatSessionAction::DeleteDir) => {}
        _ => panic!("the chat should still be deleting a directory"),
    }
}

#[test]
fn empty_directory_is_deleted() {
    let mut s = ChatSessionServiceImpl::new();
    s.handle_update_content_message(CHAT, command(1, "/mkdir")).unwrap();
    s.handle_update_content_callback_query(CHAT, press(".", 2)).unwrap();
    s.handle_update_content_message(CHAT, text(3, "empty")).unwrap();
    s.handle_update_content_message(CHAT, command(4, "/delete_dir")).unwrap();
    let r = s.handle_update_content_callback_query(CHAT, press("/empty", 5)).unwrap();
    assert_eq!(text_of(&r), "Directory empty deleted from /");
    assert!(s.get_or_create_chat_session(&CHAT).action.is_none());
}

#[test]
fn press_without_action_is_refused() {
    let mut s = ChatSessionServiceImpl::new();
    let r = s.handle_update_content_callback_query(CHAT, press(".", 1));
    assert_eq!(r.err(), Some("UpdateContent::CallbackQuery: No action in chat session".to_string()));
}

#[test]
fn press_without_data_or_message_is_refused() {
    let mut s = ChatSessionServiceImpl::new();
    let r = s.handle_update_content_callback_query(CHAT, CallbackQueryInput { data: None, message_id: Some(1) });
    assert_eq!(r.err(), Some("Data not found in callback query".to_string()));
    let r = s.handle_update_content_callback_query(CHAT, CallbackQueryInput { data: Some(".".to_string()), message_id: None });
    assert_eq!(r.err(), Some("Message not found in callback query".to_string()));
}

#[test]
fn word_button_is_an_invalid_action() {
    let mut s = ChatSessionServiceImpl::new();
    s.handle_update_content_message(CHAT, command(1, "/explorer")).unwrap();
    let r = s.handle_update_content_callback_query(CHAT, press("mkdir", 2));
    assert_eq!(r.err(), Some("invalid action".to_string()));
    assert!(s.get_or_create_chat_session(&CHAT).action.is_none());
}

#[test]
fn current_dir_button_while_exploring_is_not_supported() {
    let mut s = ChatSessionServiceImpl::new();
    s.handle_update_content_message(CHAT, command(1, "/explorer")).unwrap();
    let r = s.handle_update_content_callback_query(CHAT, press(".", 2));
    assert_eq!(r.err(), Some("current action not supported by this action".to_string()));
}

#[test]
fn text_while_exploring_is_a_generic_error() {
    let mut s = ChatSessionServiceImpl::new();
    s.handle_update_content_message(CHAT, command(1, "/explorer")).unwrap();
    let r = s.handle_update_content_message(CHAT, text(2, "hello")).unwrap();
    assert_eq!(text_of(&r), "Something went wrong. Send /help to see what I can do.");
}

#[test]
fn message_without_content_is_a_generic_error() {
    let mut s = ChatSessionServiceImpl::new();
    let r = s.handle_update_content_message(CHAT, plain(1)).unwrap();
    assert_eq!(text_of(&r), "Something went wrong. Send /help to see what I can do.");
}

#[test]
fn photo_takes_its_first_size_and_a_jpeg_type() {
    let mut s = ChatSessionServiceImpl::new();
    let mut m = plain(3);
    m.photo = Some(vec![Some(77), Some(900)]);
    s.handle_update_content_message(CHAT, m).unwrap();
    match s.get_or_create_chat_session(&CHAT).action {
        Some(ChatSessionAction::SaveFile(Some(FileSystemNode::File { message_id, size, mime_type }), None)) => {
            assert_eq!((message_id, size), (3, 77));
            assert_eq!(mime_type, Some("jpeg".to_string()));
        }
        _ => panic!("the photo should wait for a directory"),
    }
}

#[test]
fn contact_is_saved_without_a_size() {
    let mut s = ChatSessionServiceImpl::new();
    let mut m = plain(4);
    m.has_contact = true;
    s.handle_update_content_message(CHAT, m).unwrap();
    match s.get_or_create_chat_session(&CHAT).action {
        Some(ChatSessionAction::SaveFile(Some(FileSystemNode::File { size, mime_type, .. }), None)) => {
            assert_eq!(size, 0);
            assert_eq!(mime_type, Some("telegram/contact".to_string()));
        }
        _ => panic!("the contact should wait for a directory"),
    }
}

#[test]
fn automation_command_is_owed_to_the_chat() {
    let mut s = ChatSessionServiceImpl::new();
    let r = s.handle_update_content_message(CHAT, command(1, "/automation")).unwrap();
    assert_eq!(text_of(&r), "Preparing to run automation for path:\n/\n\nProcessing...");
    let jobs = s.take_pending_automations();
    assert_eq!(jobs.len(), 1);
    assert_eq!(jobs[0].chat_id, CHAT);
    assert!(jobs[0].path.is_root());
    assert!(s.take_pending_automations().is_empty());
}

#[test]
fn command_keeps_the_path_only_for_deletions_and_automation() {
    let mut s = ChatSessionServiceImpl::new();
    s.handle_update_content_message(CHAT, command(1, "/mkdir")).unwrap();
    s.handle_update_content_callback_query(CHAT, press(".", 2)).unwrap();
    s.handle_update_content_message(CHAT, text(3, "d")).unwrap();
    s.handle_update_content_message(CHAT, command(4, "/explorer")).unwrap();
    s.handle_update_content_callback_query(CHAT, press("/d", 5)).unwrap();
    let r = s.handle_update_content_message(CHAT, command(6, "/delete_file")).unwrap();
    assert_eq!(text_of(&r), "Choose the file to delete.\nCurrent path: /d");
    let r = s.handle_update_content_message(CHAT, command(7, "/explorer")).unwrap();
    assert_eq!(text_of(&r), "Current path: /");
}

#[test]
fn chats_are_counted_and_kept_apart() {
    let mut s = ChatSessionServiceImpl::new();
    save_document(&mut s, 1, "mine.txt");
    s.handle_update_content_message(ChatId(7), command(1, "/start")).unwrap();
    assert_eq!(s.get_chat_sessions_count(), 2);
    let other = s.get_or_create_filesystem(&ChatId(7));
    assert!(other.get_node(&FsPath::parse("/mine.txt")).is_err());
}

#[test]
fn wait_reply_states_are_distinct() {
    assert_ne!(ChatSessionWaitReply::DirectoryName, ChatSessionWaitReply::FileName);
}

#[test]
fn refused_directory_name_leaves_the_tree_and_clears_the_action() {
    let mut s = ChatSessionServiceImpl::new();
    s.handle_update_content_message(CHAT, command(1, "/mkdir")).unwrap();
    s.handle_update_content_callback_query(CHAT, press(".", 2)).unwrap();
    let r = s.handle_update_content_message(CHAT, text(3, ".."));
    assert_eq!(r.err(), Some("Invalid name".to_string()));
    assert!(s.get_or_create_chat_session(&CHAT).action.is_none());
    let fs = s.get_or_create_filesystem(&CHAT);
    assert!(fs.children(&FsPath::root()).is_empty());
}

#[test]
fn every_keyboard_button_leads_to_an_entry_of_the_tree() {
    let mut s = ChatSessionServiceImpl::new();
    save_document(&mut s, 1, "a.txt");
    s.handle_update_content_message(CHAT, command(4, "/mkdir")).unwrap();
    s.handle_update_content_callback_query(CHAT, press(".", 5)).unwrap();
    s.handle_update_content_message(CHAT, text(6, "sub dir")).unwrap();
    let r = s.handle_update_content_message(CHAT, command(7, "/explorer")).unwrap();
    let fs = s.get_or_create_filesystem(&CHAT);
    for (_, data) in buttons(&r) {
        match ChatSessionAction::from_callback_data(&data) {
            ChatSessionAction::FileOrDir(q) => assert!(fs.get_node(&q).is_ok()),
            ChatSessionAction::CurrentDir | ChatSessionAction::ParentDir => {}
            _ => panic!("a button sent something else"),
        }
    }
}

#[test]
fn rename_onto_an_existing_name_is_refused() {
    let mut s = ChatSessionServiceImpl::new();
    save_document(&mut s, 1, "one.txt");
    save_document(&mut s, 4, "two.txt");
    s.handle_update_content_message(CHAT, command(7, "/rename_file")).unwrap();
    s.handle_update_content_callback_query(CHAT, press("/one.txt", 8)).unwrap();
    let r = s.handle_update_content_message(CHAT, text(9, "two.txt"));
    assert_eq!(r.err(), Some("Path already exists".to_string()));
    let fs = s.get_or_create_filesystem(&CHAT);
    assert!(fs.get_node(&FsPath::parse("/one.txt")).is_ok());
}

#[test]
fn parent_button_while_choosing_a_destination_keeps_the_file() {
    let mut s = ChatSessionServiceImpl::new();
    save_document(&mut s, 1, "f.txt");
    s.handle_update_content_message(CHAT, command(4, "/mkdir")).unwrap();
    s.handle_update_content_callback_query(CHAT, press(".", 5)).unwrap();
    s.handle_update_content_message(CHAT, text(6, "d")).unwrap();
    s.handle_update_content_message(CHAT, command(7, "/move_file")).unwrap();
    s.handle_update_content_callback_query(CHAT, press("/f.txt", 8)).unwrap();
    s.handle_update_content_callback_query(CHAT, press("/d", 9)).unwrap();
    let r = s.handle_update_content_callback_query(CHAT, press("..", 9)).unwrap();
    assert_eq!(text_of(&r), "Choose the directory to move /f.txt to.");
    assert_eq!(buttons(&r)[0], pair("Select this directory", "."));
    match s.get_or_create_chat_session(&CHAT).action {
        Some(ChatSessionAction::MoveFile(Some(from))) => assert_eq!(from.to_text(), "/f.txt"),
        _ => panic!("the chat should still move the file"),
    }
}

#[test]
fn directory_named_cannot_is_deleted_and_the_chat_starts_over() {
    let mut s = ChatSessionServiceImpl::new();
    s.handle_update_content_message(CHAT, command(1, "/mkdir")).unwrap();
    s.handle_update_content_callback_query(CHAT, press(".", 2)).unwrap();
    s.handle_update_content_message(CHAT, text(3, "cannot")).unwrap();
    s.handle_update_content_message(CHAT, command(4, "/delete_dir")).unwrap();
    let r = s.handle_update_content_callback_query(CHAT, press("/cannot", 5)).unwrap();
    assert_eq!(text_of(&r), "Directory cannot deleted from /");
    assert!(s.get_or_create_filesystem(&CHAT).get_node(&FsPath::parse("/cannot")).is_err());
    assert!(s.get_or_create_chat_session(&CHAT).action.is_none());
}

#[test]
fn file_pressed_while_deleting_directories_is_kept_and_the_chat_keeps_its_action() {
    let mut s = ChatSessionServiceImpl::new();
    save_document(&mut s, 1, "keep.txt");
    s.handle_update_content_message(CHAT, command(4, "/delete_dir")).unwrap();
    let r = s.handle_update_content_callback_query(CHAT, press("/keep.txt", 5)).unwrap();
    assert_eq!(text_of(&r), "This is not a directory.");
    assert_eq!(buttons(&r), vec![pair("Back", "back")]);
    assert!(s.get_or_create_filesystem(&CHAT).get_node(&FsPath::parse("/keep.txt")).is_ok());
    match s.get_or_create_chat_session(&CHAT).action {
        Some(ChatSessionAction::DeleteDir) => {}
        _ => panic!("the chat should still be deleting a directory"),
    }
}
