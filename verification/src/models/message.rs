//! Messages left through the contact form.

use vstd::prelude::*;

use crate::db::surreal::{push_assignment, texts, update_statement, update_statement_text};
use crate::error::AppResult;
use crate::models::{created_record, updated_record, RecordId};

verus! {

broadcast use vstd::string::group_string_axioms;

/// All messages, newest first.
pub const ALL_MESSAGES: &'static str = "SELECT * FROM messages ORDER BY created_at DESC";

/// The unread messages, newest first.
pub const UNREAD_MESSAGES: &'static str = "SELECT * FROM messages WHERE read = false ORDER BY created_at DESC";

/// The number of unread messages.
pub const COUNT_UNREAD_MESSAGES: &'static str = "SELECT count() as count FROM messages WHERE read = false GROUP ALL";

/// The table that holds the messages.
pub const MESSAGES_TABLE: &'static str = "messages";

/// A message from a visitor.
#[derive(Debug, Clone, PartialEq, Eq)]
pub struct Message {
    pub id: Option<RecordId>,
    pub name: String,
    pub email: String,
    pub subject: String,
    pub message: String,
    pub read: bool,
    pub created_at: Option<String>,
}

/// What the contact form submits.
#[derive(Debug, Clone, PartialEq, Eq)]
pub struct CreateMessage {
    pub name: String,
    pub email: String,
    pub subject: String,
    pub message: String,
}

impl Message {
    /// The message to store for `data`: unread, not yet given an id or a time.
    pub fn create(data: CreateMessage) -> (res: Message)
        ensures
            res.id is None,
            res.name == data.name,
            res.email == data.email,
            res.subject == data.subject,
            res.message == data.message,
            !res.read,
            res.created_at is None,
    {
        Message {
            id: None,
            name: data.name,
            email: data.email,
            subject: data.subject,
            message: data.message,
            read: false,
            created_at: None,
        }
    }

    /// What the store's answer to a create means.
    pub fn created(stored: Option<Message>) -> (res: AppResult<Message>)
        ensures
            stored matches Some(m) ==> res == Ok::<Message, crate::error::AppError>(m),
            stored is None ==> (res matches Err(crate::error::AppError::DatabaseError(m)) && m@
                == "Failed to create message"@),
    {
        let r = created_record(stored, "message");
        proof {
            reveal_strlit("Failed to create ");
            reveal_strlit("message");
            reveal_strlit("Failed to create message");
        }
        r
    }

    /// The statement that marks message `id` as read.
    pub fn mark_read(id: &str) -> (res: String)
        ensures
            res@ == update_statement_text(MESSAGES_TABLE@, id@, seq!["read = true"@]),
    {
        let mut updates: Vec<String> = Vec::new();
        push_assignment(&mut updates, "read = true".to_string());
        assert(texts(updates@) == seq!["read = true"@]);
        update_statement(MESSAGES_TABLE, id, &updates)
    }

    /// What the store's answer to marking a message read means.
    pub fn updated(rows: Vec<Message>) -> (res: AppResult<Message>)
        ensures
            rows@.len() > 0 ==> res == Ok::<Message, crate::error::AppError>(rows@[0]),
            rows@.len() == 0 ==> (res matches Err(crate::error::AppError::NotFound(m)) && m@
                == "Message not found"@),
    {
        updated_record(rows, "Message not found")
    }
}

} // verus!
