use vstd::prelude::*;
use vstd::string::*;

verus! {

/// The chat that an update comes from and a reply goes to.
#[derive(Clone, Copy, Debug, PartialEq, Eq, Structural)]
pub struct ChatId(pub u64);

/// A button of an inline keyboard: its label and the data that a press sends back.
pub struct KeyboardButton {
    pub text: String,
    pub callback_data: String,
}

pub struct ButtonView {
    pub label: Seq<char>,
    pub data: Seq<char>,
}

impl View for KeyboardButton {
    type V = ButtonView;

    open spec fn view(&self) -> ButtonView {
        ButtonView { label: self.text@, data: self.callback_data@ }
    }
}

pub open spec fn buttons_view(b: Seq<KeyboardButton>) -> Seq<ButtonView> {
    b.map_values(|x: KeyboardButton| x@)
}

/// A reply of the bot: a new message to a chat, or an edit of one of its
/// messages, with its text, the message it answers and its keyboard.
pub struct MessageParams {
    pub chat_id: ChatId,
    pub edit_message_id: Option<i32>,
    pub text: Option<String>,
    pub reply_to_message_id: Option<i32>,
    pub keyboard: Option<Vec<KeyboardButton>>,
}

pub struct MessageView {
    pub chat_id: u64,
    pub edit_message_id: Option<i32>,
    pub text: Option<Seq<char>>,
    pub reply_to_message_id: Option<i32>,
    pub keyboard: Option<Seq<ButtonView>>,
}

impl View for MessageParams {
    type V = MessageView;

    open spec fn view(&self) -> MessageView {
        MessageView {
            chat_id: self.chat_id.0,
            edit_message_id: self.edit_message_id,
            text: match self.text {
                Some(t) => Some(t@),
                None => None,
            },
            reply_to_message_id: self.reply_to_message_id,
            keyboard: match self.keyboard {
                Some(k) => Some(buttons_view(k@)),
                None => None,
            },
        }
    }
}

pub open spec fn reply_view(r: Result<MessageParams, String>) -> Result<MessageView, Seq<char>> {
    match r {
        Ok(m) => Ok(m@),
        Err(e) => Err(e@),
    }
}

/// A new message to `chat`, with nothing set yet.
pub open spec fn send_view(chat: u64) -> MessageView {
    MessageView {
        chat_id: chat,
        edit_message_id: None,
        text: None,
        reply_to_message_id: None,
        keyboard: None,
    }
}

/// An edit of the message `message_id` of `chat`, with nothing set yet.
pub open spec fn edit_view(chat: u64, message_id: i32) -> MessageView {
    MessageView { edit_message_id: Some(message_id), ..send_view(chat) }
}

pub open spec fn with_text(m: MessageView, t: Seq<char>) -> MessageView {
    MessageView { text: Some(t), ..m }
}

pub open spec fn with_keyboard(m: MessageView, k: Seq<ButtonView>) -> MessageView {
    MessageView { keyboard: Some(k), ..m }
}

pub open spec fn with_reply_to(m: MessageView, id: i32) -> MessageView {
    MessageView { reply_to_message_id: Some(id), ..m }
}

/// A new message with a text.
pub open spec fn text_reply(chat: u64, t: Seq<char>) -> MessageView {
    with_text(send_view(chat), t)
}

pub open spec fn generic_error_text() -> Seq<char> {
    "Something went wrong. Send /help to see what I can do."@
}

impl MessageParams {
    pub fn new_send(chat_id: ChatId) -> (r: MessageParams)
        ensures
            r@ == send_view(chat_id.0),
    {
        MessageParams {
            chat_id,
            edit_message_id: None,
            text: None,
            reply_to_message_id: None,
            keyboard: None,
        }
    }

    pub fn new_edit(chat_id: ChatId, message_id: i32) -> (r: MessageParams)
        ensures
            r@ == edit_view(chat_id.0, message_id),
    {
        MessageParams {
            chat_id,
            edit_message_id: Some(message_id),
            text: None,
            reply_to_message_id: None,
            keyboard: None,
        }
    }

    pub fn set_text(&mut self, text: String)
        ensures
            final(self)@ == with_text(old(self)@, text@),
    {
        self.text = Some(text);
    }

    pub fn set_inline_keyboard_markup(&mut self, keyboard: Vec<KeyboardButton>)
        ensures
            final(self)@ == with_keyboard(old(self)@, buttons_view(keyboard@)),
    {
        self.keyboard = Some(keyboard);
    }

    pub fn set_reply_to_message_id(&mut self, message_id: i32)
        ensures
            final(self)@ == with_reply_to(old(self)@, message_id),
    {
        self.reply_to_message_id = Some(message_id);
    }

    /// The reply to an update that the bot does not understand.
    pub fn generic_error(chat_id: ChatId) -> (r: MessageParams)
        ensures
            r@ == text_reply(chat_id.0, generic_error_text()),
    {
        let mut r = MessageParams::new_send(chat_id);
        r.set_text(String::from_str("Something went wrong. Send /help to see what I can do."));
        r
    }
}

pub open spec fn start_message_text(name: Option<Seq<char>>) -> Seq<char> {
    match name {
        Some(n) => "Hello, "@ + n
            + "! I keep the files you send me in folders. Send /help to see what I can do."@,
        None => "Hello! I keep the files you send me in folders. Send /help to see what I can do."@,
    }
}

pub fn start_message(name: Option<String>) -> (r: String)
    ensures
        r@ == start_message_text(match name {
            Some(n) => Some(n@),
            None => None,
        }),
{
    match name {
        Some(n) => {
            let mut r = String::from_str("Hello, ");
            r.append(n.as_str());
            r.append(
                "! I keep the files you send me in folders. Send /help to see what I can do.",
            );
            r
        },
        None => String::from_str(
            "Hello! I keep the files you send me in folders. Send /help to see what I can do.",
        ),
    }
}

pub open spec fn help_message_text() -> Seq<char> {
    "Send me any file to store it. Commands:\n/explorer - browse your files\n/mkdir - create a directory\n/rename_file - rename a file\n/move_file - move a file\n/delete_file - delete a file\n/delete_dir - delete an empty directory\n/automation - run the automation on the current path\n/info - about this bot"@
}

pub fn help_message() -> (r: String)
    ensures
        r@ == help_message_text(),
{
    String::from_str(
        "Send me any file to store it. Commands:\n/explorer - browse your files\n/mkdir - create a directory\n/rename_file - rename a file\n/move_file - move a file\n/delete_file - delete a file\n/delete_dir - delete an empty directory\n/automation - run the automation on the current path\n/info - about this bot",
    )
}

pub open spec fn info_message_text() -> Seq<char> {
    "This bot keeps a file tree for each chat. Files stay in the chat; the tree records where each one belongs."@
}

pub fn info_message() -> (r: String)
    ensures
        r@ == info_message_text(),
{
    String::from_str(
        "This bot keeps a file tree for each chat. Files stay in the chat; the tree records where each one belongs.",
    )
}

pub open spec fn mkdir_message_text(path: Seq<char>) -> Seq<char> {
    "Choose the directory in which to create a new one.\nCurrent path: "@ + path
}

pub fn mkdir_message(path: &str) -> (r: String)
    ensures
        r@ == mkdir_message_text(path@),
{
    let mut r = String::from_str("Choose the directory in which to create a new one.\nCurrent path: ");
    r.append(path);
    r
}

pub open spec fn explorer_message_text(path: Seq<char>) -> Seq<char> {
    "Current path: "@ + path
}

pub fn explorer_message(path: &str) -> (r: String)
    ensures
        r@ == explorer_message_text(path@),
{
    let mut r = String::from_str("Current path: ");
    r.append(path);
    r
}

pub open spec fn rename_file_message_text(path: Seq<char>) -> Seq<char> {
    "Choose the file to rename.\nCurrent path: "@ + path
}

pub fn rename_file_message(path: &str) -> (r: String)
    ensures
        r@ == rename_file_message_text(path@),
{
    let mut r = String::from_str("Choose the file to rename.\nCurrent path: ");
    r.append(path);
    r
}

pub open spec fn move_file_select_file_message_text(path: Seq<char>) -> Seq<char> {
    "Choose the file to move.\nCurrent path: "@ + path
}

pub fn move_file_select_file_message(path: &str) -> (r: String)
    ensures
        r@ == move_file_select_file_message_text(path@),
{
    let mut r = String::from_str("Choose the file to move.\nCurrent path: ");
    r.append(path);
    r
}

pub open spec fn move_file_select_destination_message_text(from: Seq<char>) -> Seq<char> {
    "Choose the directory to move "@ + from + " to."@
}

pub fn move_file_select_destination_message(from: &str) -> (r: String)
    ensures
        r@ == move_file_select_destination_message_text(from@),
{
    let mut r = String::from_str("Choose the directory to move ");
    r.append(from);
    r.append(" to.");
    r
}

pub open spec fn delete_dir_message_text(path: Seq<char>) -> Seq<char> {
    "Choose the directory to delete.\nCurrent path: "@ + path
}

pub fn delete_dir_message(path: &str) -> (r: String)
    ensures
        r@ == delete_dir_message_text(path@),
{
    let mut r = String::from_str("Choose the directory to delete.\nCurrent path: ");
    r.append(path);
    r
}

pub open spec fn delete_file_message_text(path: Seq<char>) -> Seq<char> {
    "Choose the file to delete.\nCurrent path: "@ + path
}

pub fn delete_file_message(path: &str) -> (r: String)
    ensures
        r@ == delete_file_message_text(path@),
{
    let mut r = String::from_str("Choose the file to delete.\nCurrent path: ");
    r.append(path);
    r
}

pub open spec fn create_file_message_text(path: Seq<char>) -> Seq<char> {
    "Choose the directory in which to save the file.\nCurrent path: "@ + path
}

pub fn create_file_message(path: &str) -> (r: String)
    ensures
        r@ == create_file_message_text(path@),
{
    let mut r = String::from_str("Choose the directory in which to save the file.\nCurrent path: ");
    r.append(path);
    r
}

pub open spec fn ask_directory_name_message_text(path: Seq<char>) -> Seq<char> {
    "Send the name of the new directory in "@ + path
}

pub fn ask_directory_name_message(path: &str) -> (r: String)
    ensures
        r@ == ask_directory_name_message_text(path@),
{
    let mut r = String::from_str("Send the name of the new directory in ");
    r.append(path);
    r
}

pub open spec fn ask_file_name_message_text(path: Seq<char>) -> Seq<char> {
    "Send the name of the file to save in "@ + path
}

pub fn ask_file_name_message(path: &str) -> (r: String)
    ensures
        r@ == ask_file_name_message_text(path@),
{
    let mut r = String::from_str("Send the name of the file to save in ");
    r.append(path);
    r
}

pub open spec fn ask_rename_file_message_text(name: Seq<char>, path: Seq<char>) -> Seq<char> {
    "Send the new name of "@ + name + " in "@ + path
}

pub fn ask_rename_file_message(name: &str, path: &str) -> (r: String)
    ensures
        r@ == ask_rename_file_message_text(name@, path@),
{
    let mut r = String::from_str("Send the new name of ");
    r.append(name);
    r.append(" in ");
    r.append(path);
    r
}

pub open spec fn created_directory_success_message_text(name: Seq<char>, path: Seq<char>) -> Seq<
    char,
> {
    "Directory "@ + name + " created at "@ + path
}

pub fn created_directory_success_message(name: &str, path: &str) -> (r: String)
    ensures
        r@ == created_directory_success_message_text(name@, path@),
{
    let mut r = String::from_str("Directory ");
    r.append(name);
    r.append(" created at ");
    r.append(path);
    r
}

pub open spec fn created_file_success_message_text(name: Seq<char>, dir: Seq<char>) -> Seq<char> {
    "File "@ + name + " saved in "@ + dir
}

pub fn created_file_success_message(name: &str, dir: &str) -> (r: String)
    ensures
        r@ == created_file_success_message_text(name@, dir@),
{
    let mut r = String::from_str("File ");
    r.append(name);
    r.append(" saved in ");
    r.append(dir);
    r
}

pub open spec fn renamed_file_success_message_text(
    old_name: Seq<char>,
    new_name: Seq<char>,
    dir: Seq<char>,
) -> Seq<char> {
    "File "@ + old_name + " renamed to "@ + new_name + " in "@ + dir
}

pub fn renamed_file_success_message(old_name: &str, new_name: &str, dir: &str) -> (r: String)
    ensures
        r@ == renamed_file_success_message_text(old_name@, new_name@, dir@),
{
    let mut r = String::from_str("File ");
    r.append(old_name);
    r.append(" renamed to ");
    r.append(new_name);
    r.append(" in ");
    r.append(dir);
    r
}

pub open spec fn moved_file_success_message_text(
    name: Seq<char>,
    from: Seq<char>,
    to: Seq<char>,
) -> Seq<char> {
    "File "@ + name + " moved from "@ + from + " to "@ + to
}

pub fn moved_file_success_message(name: &str, from: &str, to: &str) -> (r: String)
    ensures
        r@ == moved_file_success_message_text(name@, from@, to@),
{
    let mut r = String::from_str("File ");
    r.append(name);
    r.append(" moved from ");
    r.append(from);
    r.append(" to ");
    r.append(to);
    r
}

pub open spec fn deleted_file_success_message_text(name: Seq<char>, path: Seq<char>) -> Seq<char> {
    "File "@ + name + " deleted from "@ + path
}

pub fn deleted_file_success_message(name: &str, path: &str) -> (r: String)
    ensures
        r@ == deleted_file_success_message_text(name@, path@),
{
    let mut r = String::from_str("File ");
    r.append(name);
    r.append(" deleted from ");
    r.append(path);
    r
}

pub open spec fn deleted_dir_success_message_text(name: Seq<char>, path: Seq<char>) -> Seq<char> {
    "Directory "@ + name + " deleted from "@ + path
}

pub fn deleted_dir_success_message(name: &str, path: &str) -> (r: String)
    ensures
        r@ == deleted_dir_success_message_text(name@, path@),
{
    let mut r = String::from_str("Directory ");
    r.append(name);
    r.append(" deleted from ");
    r.append(path);
    r
}

pub open spec fn cannot_delete_non_empty_dir_message_text(name: Seq<char>) -> Seq<char> {
    "Directory "@ + name + " is not empty and cannot be deleted."@
}

pub fn cannot_delete_non_empty_dir_message(name: &str) -> (r: String)
    ensures
        r@ == cannot_delete_non_empty_dir_message_text(name@),
{
    let mut r = String::from_str("Directory ");
    r.append(name);
    r.append(" is not empty and cannot be deleted.");
    r
}

pub open spec fn not_a_directory_text() -> Seq<char> {
    "This is not a directory."@
}

pub open spec fn explorer_file_message_text(name: Seq<char>, parent: Seq<char>) -> Seq<char> {
    "File "@ + name + " in "@ + parent
}

pub fn explorer_file_message(name: &str, parent: &str) -> (r: String)
    ensures
        r@ == explorer_file_message_text(name@, parent@),
{
    let mut r = String::from_str("File ");
    r.append(name);
    r.append(" in ");
    r.append(parent);
    r
}

pub open spec fn automation_error_message_text(result: Seq<char>) -> Seq<char> {
    "The automation failed: "@ + result
}

pub fn automation_error_message(result: &str) -> (r: String)
    ensures
        r@ == automation_error_message_text(result@),
{
    let mut r = String::from_str("The automation failed: ");
    r.append(result);
    r
}

pub open spec fn automation_file_message_text(name: Seq<char>, path: Seq<char>) -> Seq<char> {
    "Automation started for file "@ + name + " at "@ + path
}

pub fn automation_file_message(name: &str, path: &str) -> (r: String)
    ensures
        r@ == automation_file_message_text(name@, path@),
{
    let mut r = String::from_str("Automation started for file ");
    r.append(name);
    r.append(" at ");
    r.append(path);
    r
}

pub open spec fn automation_message_text(path: Seq<char>) -> Seq<char> {
    "Automation started for directory "@ + path
}

pub fn automation_message(path: &str) -> (r: String)
    ensures
        r@ == automation_message_text(path@),
{
    let mut r = String::from_str("Automation started for directory ");
    r.append(path);
    r
}

pub open spec fn automation_pending_message_text(path: Seq<char>) -> Seq<char> {
    "Preparing to run automation for path:\n"@ + path + "\n\nProcessing..."@
}

pub fn automation_pending_message(path: &str) -> (r: String)
    ensures
        r@ == automation_pending_message_text(path@),
{
    let mut r = String::from_str("Preparing to run automation for path:\n");
    r.append(path);
    r.append("\n\nProcessing...");
    r
}

/// Whether two texts are the same.
pub fn same_text(a: &str, b: &str) -> (r: bool)
    ensures
        r == (a@ == b@),
{
    String::from_str(a) == String::from_str(b)
}

/// Whether `needle` occurs in `hay` at `i`.
pub open spec fn occurs_at(hay: Seq<char>, needle: Seq<char>, i: int) -> bool {
    0 <= i && i + needle.len() <= hay.len() && hay.subrange(i, i + needle.len()) == needle
}

pub open spec fn text_contains(hay: Seq<char>, needle: Seq<char>) -> bool {
    exists|i: int| occurs_at(hay, needle, i)
}

/// Whether `needle` occurs in `hay`.
pub fn contains_text(hay: &str, needle: &str) -> (b: bool)
    ensures
        b == text_contains(hay@, needle@),
{
    let h = hay.unicode_len();
    let n = needle.unicode_len();
    if n > h {
        proof {
            assert forall|i: int| !occurs_at(hay@, needle@, i) by {}
        }
        return false;
    }
    let last = h - n;
    let mut i: usize = 0;
    while i <= last
        invariant
            h == hay@.len(),
            n == needle@.len(),
            last == h - n,
            forall|k: int| 0 <= k < i ==> !occurs_at(hay@, needle@, k),
        decreases last + 1 - i,
    {
        let mut j: usize = 0;
        let mut same = true;
        while j < n
            invariant
                h == hay@.len(),
                n == needle@.len(),
                i + n <= h,
                j <= n,
                same == (forall|k: int| 0 <= k < j ==> hay@[i + k] == needle@[k]),
            decreases n - j,
        {
            if hay.get_char(i + j) != needle.get_char(j) {
                same = false;
            }
            j = j + 1;
        }
        if same {
            proof {
                assert(hay@.subrange(i as int, i + n) =~= needle@);
                assert(occurs_at(hay@, needle@, i as int));
            }
            return true;
        }
        proof {
            assert(!occurs_at(hay@, needle@, i as int)) by {
                if occurs_at(hay@, needle@, i as int) {
                    let k = choose|k: int| 0 <= k < n && hay@[i + k] != needle@[k];
                    assert(hay@.subrange(i as int, i + n)[k] == hay@[i + k]);
                }
            }
        }
        i = i + 1;
    }
    proof {
        assert forall|k: int| !occurs_at(hay@, needle@, k) by {
            if occurs_at(hay@, needle@, k) {
                assert(k <= last);
            }
        }
    }
    false
}

} // verus!
