//! The errors of the chat.
use vstd::prelude::*;

verus! {

/// What can go wrong in the chat client, server and web front end.
#[derive(Debug, Clone, Copy, PartialEq, Eq, Structural)]
pub enum ChatError {
    PassToSendIssue,
    AccomodationIssue,
    AcceptanceIssue,
    GreetingIssue,
    OtherEndIssue,
    WritingIssue,
    DeserializingIssue,
    SerializingIssue,
    SavingIssue,
    UserDirectoryIssue,
    PathIssue,
    NoPathIssue,
    ReadingIssue,
    MessageTypePathIssue,
    DatabaseIssue,
    LoginIssue,
    CookieIssue,
}

/// The text that describes each error.
pub open spec fn chat_error_text(e: ChatError) -> Seq<char> {
    match e {
        ChatError::PassToSendIssue => "Error passing message to distribution"@,
        ChatError::AccomodationIssue => "Error accomodating new contact"@,
        ChatError::AcceptanceIssue => "Error accepting new contact"@,
        ChatError::GreetingIssue => "Error greeting new contact"@,
        ChatError::OtherEndIssue => "Error reading from other end"@,
        ChatError::WritingIssue => "Error writing to the other end"@,
        ChatError::DeserializingIssue => "Error deserializing"@,
        ChatError::SerializingIssue => "Error serializing"@,
        ChatError::SavingIssue => "Error saving file"@,
        ChatError::UserDirectoryIssue => "Error creating user dir"@,
        ChatError::PathIssue => "Error finding path - provide a valid one"@,
        ChatError::NoPathIssue => "Error finding path - provide one"@,
        ChatError::ReadingIssue => "Error reading from path"@,
        ChatError::MessageTypePathIssue => "Error this type of message takes no path"@,
        ChatError::DatabaseIssue => "Database error"@,
        ChatError::LoginIssue => "Error logging in"@,
        ChatError::CookieIssue => "Error reading cookie"@,
    }
}

impl ChatError {
    /// The text that describes the error, as the error's `Display` shows it.
    pub fn to_string(&self) -> (r: String)
        ensures
            r@ == chat_error_text(*self),
    {
        let s = match self {
            ChatError::PassToSendIssue => "Error passing message to distribution",
            ChatError::AccomodationIssue => "Error accomodating new contact",
            ChatError::AcceptanceIssue => "Error accepting new contact",
            ChatError::GreetingIssue => "Error greeting new contact",
            ChatError::OtherEndIssue => "Error reading from other end",
            ChatError::WritingIssue => "Error writing to the other end",
            ChatError::DeserializingIssue => "Error deserializing",
            ChatError::SerializingIssue => "Error serializing",
            ChatError::SavingIssue => "Error saving file",
            ChatError::UserDirectoryIssue => "Error creating user dir",
            ChatError::PathIssue => "Error finding path - provide a valid one",
            ChatError::NoPathIssue => "Error finding path - provide one",
            ChatError::ReadingIssue => "Error reading from path",
            ChatError::MessageTypePathIssue => "Error this type of message takes no path",
            ChatError::DatabaseIssue => "Database error",
            ChatError::LoginIssue => "Error logging in",
            ChatError::CookieIssue => "Error reading cookie",
        };
        String::from_str(s)
    }
}

} // verus!
