use crate::update::MessageEntity;
use crate::messages::same_text;
use vstd::prelude::*;
use vstd::string::*;
use vstd::utf8::{
    decode_utf8, encode_utf8, encode_utf8_decode_utf8, encode_utf8_valid_utf8, is_char_boundary,
    is_char_boundary_iff_not_is_continuation_byte, is_char_boundary_start_end_of_seq,
    valid_utf8_split,
};

verus! {

/// A command that a chat sends to the bot.
#[derive(Clone, Copy, Debug, PartialEq, Eq, Structural)]
pub enum Command {
    Start,
    Help,
    Info,
    MkDir,
    Explorer,
    RenameFile,
    MoveFile,
    DeleteDir,
    DeleteFile,
    Automation,
}

/// The command that a written name stands for.
pub open spec fn command_named(name: Seq<char>) -> Option<Command> {
    if name == "/start"@ {
        Some(Command::Start)
    } else if name == "/help"@ {
        Some(Command::Help)
    } else if name == "/info"@ {
        Some(Command::Info)
    } else if name == "/mkdir"@ {
        Some(Command::MkDir)
    } else if name == "/explorer"@ {
        Some(Command::Explorer)
    } else if name == "/rename_file"@ {
        Some(Command::RenameFile)
    } else if name == "/move_file"@ {
        Some(Command::MoveFile)
    } else if name == "/delete_dir"@ {
        Some(Command::DeleteDir)
    } else if name == "/delete_file"@ {
        Some(Command::DeleteFile)
    } else if name == "/automation"@ {
        Some(Command::Automation)
    } else {
        None
    }
}

/// The characters that the bytes `offset .. offset + length` of `text` hold.
pub open spec fn entity_text(text: Seq<char>, e: MessageEntity) -> Seq<char> {
    decode_utf8(encode_utf8(text).subrange(e.offset as int, e.offset + e.length))
}

/// The entity lies inside the text and starts and ends between characters.
pub open spec fn entity_in_text(text: Seq<char>, e: MessageEntity) -> bool {
    let bytes = encode_utf8(text);
    &&& e.offset + e.length <= bytes.len()
    &&& e.offset + e.length <= usize::MAX
    &&& is_char_boundary(bytes, e.offset as int)
    &&& is_char_boundary(bytes, e.offset + e.length)
}

/// A message can be read for a command unless it marks a bot command that
/// does not fit its text.
pub open spec fn command_readable(text: Option<Seq<char>>, entity: Option<MessageEntity>) -> bool {
    text matches Some(t) ==> entity matches Some(e) ==> e.is_bot_command ==> entity_in_text(t, e)
}

pub open spec fn err_no_text() -> Seq<char> {
    "No text in message"@
}

pub open spec fn err_no_entities() -> Seq<char> {
    "No entities in message"@
}

pub open spec fn err_no_bot_command() -> Seq<char> {
    "No bot command in message"@
}

pub open spec fn err_unknown_command() -> Seq<char> {
    "Unknown command"@
}

/// The command that a message holds, or why it holds none.
pub open spec fn parse_command(text: Option<Seq<char>>, entity: Option<MessageEntity>) -> Result<
    Command,
    Seq<char>,
> {
    match text {
        None => Err(err_no_text()),
        Some(t) => match entity {
            None => Err(err_no_entities()),
            Some(e) => if !e.is_bot_command {
                Err(err_no_bot_command())
            } else {
                match command_named(entity_text(t, e)) {
                    Some(c) => Ok(c),
                    None => Err(err_unknown_command()),
                }
            },
        },
    }
}

pub open spec fn command_result_view(r: Result<Command, String>) -> Result<Command, Seq<char>> {
    match r {
        Ok(c) => Ok(c),
        Err(e) => Err(e@),
    }
}


/// The command that the written name `name` stands for.
fn command_from_name(name: &str) -> (r: Option<Command>)
    ensures
        r == command_named(name@),
{
    if same_text(name, "/start") {
        Some(Command::Start)
    } else if same_text(name, "/help") {
        Some(Command::Help)
    } else if same_text(name, "/info") {
        Some(Command::Info)
    } else if same_text(name, "/mkdir") {
        Some(Command::MkDir)
    } else if same_text(name, "/explorer") {
        Some(Command::Explorer)
    } else if same_text(name, "/rename_file") {
        Some(Command::RenameFile)
    } else if same_text(name, "/move_file") {
        Some(Command::MoveFile)
    } else if same_text(name, "/delete_dir") {
        Some(Command::DeleteDir)
    } else if same_text(name, "/delete_file") {
        Some(Command::DeleteFile)
    } else if same_text(name, "/automation") {
        Some(Command::Automation)
    } else {
        None
    }
}

/// A character boundary of a text is one of every prefix that reaches it.
proof fn lemma_boundary_of_prefix(bytes: Seq<u8>, m: int, o: int)
    requires
        vstd::utf8::valid_utf8(bytes),
        0 <= o <= m <= bytes.len(),
        is_char_boundary(bytes, o),
        is_char_boundary(bytes, m),
    ensures
        vstd::utf8::valid_utf8(bytes.subrange(0, m)),
        is_char_boundary(bytes.subrange(0, m), o),
{
    valid_utf8_split(bytes, m);
    let a = bytes.subrange(0, m);
    if o == m {
        is_char_boundary_start_end_of_seq(a);
    } else if o == 0 {
    } else {
        is_char_boundary_iff_not_is_continuation_byte(bytes, o);
        is_char_boundary_iff_not_is_continuation_byte(a, o);
        assert(a[o] == bytes[o]);
    }
}

impl Command {
    /// The command that a message holds: the text that its first entity marks
    /// as a bot command.
    pub fn parse(text: Option<&str>, entity: Option<MessageEntity>) -> (r: Result<Command, String>)
        requires
            command_readable(
                match text {
                    Some(t) => Some(t@),
                    None => None,
                },
                entity,
            ),
        ensures
            command_result_view(r) == parse_command(
                match text {
                    Some(t) => Some(t@),
                    None => None,
                },
                entity,
            ),
    {
        let t = match text {
            Some(t) => t,
            None => {
                return Err(String::from_str("No text in message"));
            },
        };
        let e = match entity {
            Some(e) => e,
            None => {
                return Err(String::from_str("No entities in message"));
            },
        };
        if !e.is_bot_command {
            return Err(String::from_str("No bot command in message"));
        }
        let end = e.offset + e.length;
        proof {
            encode_utf8_valid_utf8(t@);
            lemma_boundary_of_prefix(t.spec_bytes(), end as int, e.offset as int);
        }
        let (head, _) = t.split_at(end);
        let (_, name) = head.split_at(e.offset);
        proof {
            let bytes = t.spec_bytes();
            assert(name.spec_bytes() =~= bytes.subrange(e.offset as int, end as int));
            encode_utf8_decode_utf8(name@);
        }
        match command_from_name(name) {
            Some(c) => Ok(c),
            None => Err(String::from_str("Unknown command")),
        }
    }
}

} // verus!
