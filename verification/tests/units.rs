use backend::chat_session::{ChatSession, ChatSessionAction};
use backend::command::Command;
use backend::command_service::{CommandService, CommandServiceImpl};
use backend::file_operation_service::{
    action_not_supported_error, AutomationRequest, FileOperationService, FileOperationServiceImpl,
};
use backend::filesystem::{FileSystem, FileSystemNode};
use backend::keyboard::{back_inline_keyboard, directory_keyboard};
use backend::messages::{contains_text, ChatId};
use backend::path::{is_valid_name, FsPath};
use backend::update::MessageEntity;
use backend::webhook_service::{
    describe_webhook_outcome, transform_response, webhook_request, HttpMethod, HttpReply,
    WEBHOOK_CYCLES,
};

fn file(id: i32) -> FileSystemNode {
    FileSystemNode::new_file(id, 10, Some("text/plain".to_string()))
}

fn p(s: &str) -> FsPath {
    FsPath::parse(s)
}

#[test]
fn paths_are_read_without_empty_and_dot_parts() {
    let q = p("/a//b/./c/");
    assert_eq!(q.components, vec!["a".to_string(), "b".to_string(), "c".to_string()]);
    assert_eq!(q.to_text(), "/a/b/c");
    assert_eq!(p("/").to_text(), "/");
    assert!(p("").is_root());
    assert_eq!(p("..").components, vec!["..".to_string()]);
}

#[test]
fn written_path_reads_back_as_itself() {
    let q = p("/music/live set.mp3");
    assert!(p(&q.to_text()).same_as(&q));
}

#[test]
fn join_appends_and_absolute_names_replace() {
    let base = p("/a");
    assert_eq!(base.join("b/c").to_text(), "/a/b/c");
    assert_eq!(base.join("/x").to_text(), "/x");
    assert_eq!(base.join("").to_text(), "/a");
    assert_eq!(p("/a/b").with_file_name("z").to_text(), "/a/z");
    assert_eq!(p("/").with_file_name("z").to_text(), "/z");
}

#[test]
fn parent_and_file_name_of_root_are_none() {
    assert!(p("/").parent().is_none());
    assert!(p("/").file_name().is_none());
    assert_eq!(p("/a/b").parent().unwrap().to_text(), "/a");
    assert_eq!(p("/a/b").file_name(), Some("b".to_string()));
    assert!(p("/a/..").file_name().is_none());
    assert_eq!(p("/a/..").with_file_name("x").to_text(), "/a/../x");
}

#[test]
fn valid_names_exclude_slashes_and_dots() {
    assert!(is_valid_name("notes.txt"));
    assert!(!is_valid_name(""));
    assert!(!is_valid_name("a/b"));
    assert!(!is_valid_name("."));
    assert!(!is_valid_name(".."));
}

#[test]
fn filesystem_refuses_what_it_cannot_hold() {
    let mut fs = FileSystem::new();
    assert_eq!(fs.mkdir(&p("/")).err(), Some("Path already exists".to_string()));
    assert_eq!(fs.mkdir(&p("/a/b")).err(), Some("Parent directory not found".to_string()));
    assert_eq!(fs.mkdir(&p("/..")).err(), Some("Invalid name".to_string()));
    assert!(fs.mkdir(&p("/a")).is_ok());
    assert_eq!(fs.mkdir(&p("/a")).err(), Some("Path already exists".to_string()));
    assert!(fs.create_file_from_node(&p("/a/f"), file(1)).is_ok());
    assert_eq!(fs.mkdir(&p("/a/f/g")).err(), Some("Parent directory not found".to_string()));
    assert_eq!(fs.mv(&p("/a"), &p("/b")).err(), Some("Only files can be moved".to_string()));
    assert_eq!(fs.mv(&p("/zz"), &p("/b")).err(), Some("Path not found".to_string()));
    assert_eq!(fs.remove_node(&p("/a")).err(), Some("Directory is not empty".to_string()));
    assert_eq!(fs.remove_node(&p("/")).err(), Some("Path not found".to_string()));
}

#[test]
fn filesystem_read_gives_back_what_was_written() {
    let mut fs = FileSystem::new();
    fs.mkdir(&p("/d")).unwrap();
    let at = fs.create_file_from_node(&p("/d/f"), file(5)).unwrap();
    assert_eq!(at.to_text(), "/d/f");
    assert_eq!(fs.get_node(&p("/d/f")).unwrap().file_message_id(), Some(5));
    fs.mv(&p("/d/f"), &p("/g")).unwrap();
    assert_eq!(fs.get_node(&p("/g")).unwrap().file_message_id(), Some(5));
    assert!(fs.get_node(&p("/d/f")).is_err());
    assert!(!fs.has_children(&p("/d")));
    fs.remove_node(&p("/d")).unwrap();
    assert!(fs.get_node(&p("/d")).is_err());
    assert!(fs.get_node(&p("/")).unwrap().is_directory());
}

#[test]
fn children_come_in_the_order_they_were_made() {
    let mut fs = FileSystem::new();
    fs.create_file_from_node(&p("/z"), file(1)).unwrap();
    fs.mkdir(&p("/a")).unwrap();
    fs.create_file_from_node(&p("/a/in"), file(2)).unwrap();
    let names: Vec<String> = fs.children(&p("/")).into_iter().map(|(n, _)| n).collect();
    assert_eq!(names, vec!["z".to_string(), "a".to_string()]);
}

#[test]
fn keyboard_of_a_missing_directory_is_refused() {
    let fs = FileSystem::new();
    assert_eq!(directory_keyboard(&fs, &p("/nope"), true, false).err(), Some("Directory not found".to_string()));
    let k = directory_keyboard(&fs, &p("/"), true, true).unwrap();
    assert_eq!(k.len(), 1);
    assert_eq!(k[0].callback_data, ".");
    let b = back_inline_keyboard();
    assert_eq!((b[0].text.as_str(), b[0].callback_data.as_str()), ("Back", "back"));
}

#[test]
fn button_data_reads_back_as_its_action() {
    match ChatSessionAction::from_callback_data("/a/b") {
        ChatSessionAction::FileOrDir(q) => assert_eq!(q.to_text(), "/a/b"),
        _ => panic!("an entry was pressed"),
    }
    assert!(matches!(ChatSessionAction::from_callback_data("."), ChatSessionAction::CurrentDir));
    assert!(matches!(ChatSessionAction::from_callback_data(".."), ChatSessionAction::ParentDir));
    assert!(matches!(ChatSessionAction::from_callback_data("back"), ChatSessionAction::Back));
    assert!(matches!(ChatSessionAction::from_callback_data("delete_dir"), ChatSessionAction::DeleteDir));
}

fn entity(offset: usize, length: usize) -> Option<MessageEntity> {
    Some(MessageEntity { is_bot_command: true, offset, length })
}

#[test]
fn commands_are_read_from_their_entity() {
    assert_eq!(Command::parse(Some("/start"), entity(0, 6)), Ok(Command::Start));
    assert_eq!(Command::parse(Some("/mkdir docs"), entity(0, 6)), Ok(Command::MkDir));
    assert_eq!(Command::parse(Some("hi /delete_file"), entity(3, 12)), Ok(Command::DeleteFile));
    assert_eq!(Command::parse(Some("é /info"), entity(3, 5)), Ok(Command::Info));
    assert_eq!(Command::parse(Some("/nope"), entity(0, 5)), Err("Unknown command".to_string()));
    assert_eq!(Command::parse(None, entity(0, 5)), Err("No text in message".to_string()));
    assert_eq!(Command::parse(Some("/start"), None), Err("No entities in message".to_string()));
    let not_command = Some(MessageEntity { is_bot_command: false, offset: 0, length: 6 });
    assert_eq!(Command::parse(Some("/start"), not_command), Err("No bot command in message".to_string()));
}

#[test]
fn command_service_sets_the_chat_action() {
    let svc = CommandServiceImpl::new();
    let fs = FileSystem::new();
    let mut cs = ChatSession::new();
    let r = svc.handle_command(&ChatId(1), &Command::Start, &mut cs, &fs).unwrap();
    assert_eq!(r.text.unwrap(), "Hello! I keep the files you send me in folders. Send /help to see what I can do.");
    assert!(cs.action.is_none());
    let r = svc.handle_command(&ChatId(1), &Command::DeleteDir, &mut cs, &fs).unwrap();
    assert_eq!(r.text.unwrap(), "Choose the directory to delete.\nCurrent path: /");
    assert!(matches!(cs.action, Some(ChatSessionAction::DeleteDir)));
    cs.set_current_path(p("/missing"));
    let r = svc.handle_command(&ChatId(1), &Command::Explorer, &mut cs, &fs);
    assert_eq!(r.err(), Some("Directory not found".to_string()));
    assert!(matches!(cs.action, Some(ChatSessionAction::Explorer)));
}

#[test]
fn not_supported_error_text() {
    assert_eq!(action_not_supported_error().err(), Some("current action not supported by this action".to_string()));
}

#[test]
fn delete_dir_of_a_file_says_it_is_not_a_directory() {
    let svc = FileOperationServiceImpl::new();
    let mut fs = FileSystem::new();
    fs.create_file_from_node(&p("/f"), file(1)).unwrap();
    let r = svc.handle_delete_dir_action(&ChatId(1), &p("/f"), &p("/"), &mut fs).unwrap();
    assert_eq!(r.text.unwrap(), "This is not a directory.");
    assert!(fs.get_node(&p("/f")).is_ok());
    let r = svc.handle_delete_dir_action(&ChatId(1), &p("/nope"), &p("/"), &mut fs);
    assert_eq!(r.err(), Some("Path not found".to_string()));
}

#[test]
fn automation_of_a_directory_lists_its_files() {
    let svc = FileOperationServiceImpl::new();
    let mut fs = FileSystem::new();
    fs.mkdir(&p("/d")).unwrap();
    fs.create_file_from_node(&p("/d/one"), file(1)).unwrap();
    fs.mkdir(&p("/d/sub")).unwrap();
    fs.create_file_from_node(&p("/d/two"), FileSystemNode::new_file(2, 99, None)).unwrap();
    let req = svc.prepare_file_automation(&p("/d"), &fs).unwrap();
    match &req {
        AutomationRequest::Directory { path, files } => {
            assert_eq!(path.to_text(), "/d");
            assert_eq!(files.len(), 2);
            assert_eq!((files[0].name.as_str(), files[0].path.as_str(), files[0].message_id), ("one", "/d/one", 1));
            assert_eq!((files[1].size, files[1].mime_type.clone()), (Some(99), None));
        }
        AutomationRequest::File { .. } => panic!("a directory was asked for"),
    }
    let ok = svc.finish_file_automation(&ChatId(3), &req, "accepted");
    assert_eq!(ok.text.unwrap(), "Automation started for directory /d");
    let failed = svc.finish_file_automation(&ChatId(3), &req, "Failed to decode response");
    assert_eq!(failed.text.unwrap(), "The automation failed: Failed to decode response");
}

#[test]
fn automation_of_a_file_names_it() {
    let svc = FileOperationServiceImpl::new();
    let mut fs = FileSystem::new();
    fs.create_file_from_node(&p("/f"), file(8)).unwrap();
    let req = svc.prepare_file_automation(&p("/f"), &fs).unwrap();
    match &req {
        AutomationRequest::File { message_id, file_info, .. } => {
            assert_eq!(*message_id, 8);
            assert_eq!(file_info.path, "/f");
            assert_eq!(file_info.size, Some(10));
        }
        AutomationRequest::Directory { .. } => panic!("a file was asked for"),
    }
    let r = svc.finish_file_automation(&ChatId(3), &req, "{\"ok\":true}");
    assert_eq!(r.text.unwrap(), "Automation started for file f at /f");
    assert_eq!(svc.prepare_file_automation(&p("/x"), &fs).err(), Some("Path not found".to_string()));
}

#[test]
fn text_search_finds_substrings() {
    assert!(contains_text("an error happened", "error"));
    assert!(!contains_text("all good", "error"));
    assert!(contains_text("abc", ""));
    assert!(!contains_text("ab", "abc"));
}

#[test]
fn transformed_response_keeps_status_and_body() {
    let r = transform_response(HttpReply { status: 200u32, body: vec![1, 2, 3], headers: Vec::new() });
    assert_eq!(r.status, 200);
    assert_eq!(r.body, vec![1, 2, 3]);
    let names: Vec<&str> = r.headers.iter().map(|h| h.name.as_str()).collect();
    assert_eq!(names, vec!["Content-Security-Policy", "X-Content-Type-Options"]);
    assert_eq!(r.headers[1].value, "nosniff");
}

#[test]
fn webhook_request_carries_the_payload() {
    let r = webhook_request("{\"a\":1}");
    assert_eq!(r.body, b"{\"a\":1}".to_vec());
    assert_eq!(r.cycles, WEBHOOK_CYCLES);
    assert_eq!(r.cycles, 20_900_000_000);
    assert_eq!(r.transform_method, "transform");
    assert_eq!(r.method, HttpMethod::Post);
    assert_eq!(r.max_response_bytes, None);
    assert_eq!(r.url, "https://oversyn.com/webhook-test/6b8bc071-50a4-481a-bce0-2e92bd04b171");
    assert_eq!(r.headers[1].value, "application/json");
}

#[test]
fn webhook_outcome_reports_body_or_rejection() {
    assert_eq!(describe_webhook_outcome(Ok(b"done".to_vec())), "done");
    assert_eq!(describe_webhook_outcome(Ok(vec![0xff, 0xfe])), "Failed to decode response");
    let r = describe_webhook_outcome(Err(("SysTransient".to_string(), "timeout".to_string())));
    assert_eq!(r, "The http_request resulted into error. RejectionCode: SysTransient, Error: timeout");
}
