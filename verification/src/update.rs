use crate::path::opt_text;
use vstd::prelude::*;

verus! {

/// The first entity that Telegram marks in a message's text: whether it is a
/// bot command, and where it lies, in bytes of the text.
#[derive(Clone, Copy, Debug, PartialEq, Eq, Structural)]
pub struct MessageEntity {
    pub is_bot_command: bool,
    pub offset: usize,
    pub length: usize,
}

/// A file that a message carries: its size and its type, where Telegram gives them.
pub struct Attachment {
    pub file_size: Option<u64>,
    pub mime_type: Option<String>,
}

/// What the bot reads of a message that a chat sends.
pub struct IncomingMessage {
    pub message_id: i32,
    pub text: Option<String>,
    pub first_entity: Option<MessageEntity>,
    pub document: Option<Attachment>,
    /// The sizes of the versions of a photo, smallest first.
    pub photo: Option<Vec<Option<u64>>>,
    pub video: Option<Attachment>,
    pub video_note: Option<Option<u64>>,
    pub audio: Option<Attachment>,
    pub voice: Option<Attachment>,
    pub sticker: Option<Option<u64>>,
    pub has_contact: bool,
}

/// What the bot reads of a pressed button: the data it sends back and the
/// message that holds it.
pub struct CallbackQueryInput {
    pub data: Option<String>,
    pub message_id: Option<i32>,
}

pub struct AttachmentView {
    pub file_size: Option<u64>,
    pub mime_type: Option<Seq<char>>,
}

pub open spec fn attachment_view(a: Option<Attachment>) -> Option<AttachmentView> {
    match a {
        Some(x) => Some(AttachmentView { file_size: x.file_size, mime_type: opt_text(x.mime_type) }),
        None => None,
    }
}

} // verus!
