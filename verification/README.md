# backend

A Telegram bot that keeps a file tree for each chat: files sent to the chat
are filed into directories, and the chat can browse, rename, move and delete
them and hand them to an automation webhook. The library is written in Verus;
every operation carries a contract over a mathematical model and is proved.

## Layout

- `src/path.rs` — paths as component sequences: reading, writing, joining.
- `src/filesystem.rs` — a chat's file tree, its well-formedness and the
  lookups after each change.
- `src/messages.rs`, `src/keyboard.rs` — reply texts, replies and keyboards.
- `src/chat_session.rs` — the dialogue state of a chat and the data of buttons.
- `src/update.rs`, `src/command.rs` — what the bot reads of a message; commands.
- `src/command_service.rs`, `src/file_operation_service.rs` — the replies to
  commands and to the steps that change a tree.
- `src/chat_session_service.rs` — all chats, the message and button dialogues,
  and the laws that hold across them.
- `src/webhook_service.rs` — the automation payloads, the webhook request and
  the report of its answer.
- `app/lib.rs` — the canister: Telegram types in and out, HTTP outcalls, the
  exported methods.
- `tests/` — scenarios and unit checks.
