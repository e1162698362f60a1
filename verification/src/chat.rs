//! The messages that chat clients exchange through the server.
use vstd::prelude::*;
use crate::error::ChatError;
use crate::text::{has_prefix, starts_with, split_space_spec, split_first_space, trim_end_spec, trim_end, to_owned};

verus! {

/// What a chat message carries.
#[derive(Debug)]
pub enum MessageType {
    Text(String),
    Image(Vec<u8>),
    /// A file's name and its content.
    File(String, Vec<u8>),
    /// The server's answer to a login: welcome, or the reason for refusal.
    Welcome(Result<(), String>),
    /// A password, sent to log in.
    Pass(String),
}

/// A chat message and the nickname of its author.
#[derive(Debug)]
pub struct Message {
    pub content: MessageType,
    pub nick: String,
}

/// The text that the database stores for a message: text messages are stored as they
/// are, other kinds of message are not stored.
pub open spec fn db_text(content: MessageType) -> Option<Seq<char>> {
    match content {
        MessageType::Text(t) => Some(t@),
        _ => None,
    }
}

impl MessageType {
    /// The text that the database stores for this content, if it stores any.
    pub fn into_db(&self) -> (r: Option<String>)
        ensures
            match r {
                Some(t) => db_text(*self) == Some(t@),
                None => db_text(*self) is None,
            },
    {
        match self {
            MessageType::Text(t) => Some(t.clone()),
            _ => None,
        }
    }
}

impl Message {
    /// The text that the database stores for this message, if it stores any.
    pub fn into_db(&self) -> (r: Option<String>)
        ensures
            match r {
                Some(t) => db_text(self.content) == Some(t@),
                None => db_text(self.content) is None,
            },
    {
        self.content.into_db()
    }
}

/// What a line typed by a user becomes: a message ready to send, or a message that
/// needs the content of the file that the line names.
#[derive(Debug)]
pub enum Composed {
    Ready(Message),
    /// The line asks to send a file (`kind` is a `File`) or an image (`kind` is an
    /// `Image`); the path is read from `input` by `attachment_path`.
    Attach { nick: String, input: String, kind: MessageType },
}

/// `m` is a text message of `nick` that says `text`.
pub open spec fn is_text_message(m: Message, nick: String, text: Seq<char>) -> bool {
    m.nick == nick && match m.content {
        MessageType::Text(t) => t@ == text,
        _ => false,
    }
}

/// `r` asks for the file named in `input`, to send it as a file (`as_file`) or as an image.
pub open spec fn asks_attachment(r: Composed, nick: String, input: Seq<char>, as_file: bool) -> bool {
    match r {
        Composed::Attach { nick: n, input: i, kind } => n == nick && i@ == input && if as_file {
            kind is File
        } else {
            kind is Image
        },
        _ => false,
    }
}

/// `m` is the message of `nick` that carries `c`, read from a file, as `kind` asks:
/// a file (under some name), an image, or, for any other kind, an empty text.
pub open spec fn carries_read_file(m: Message, nick: String, kind: MessageType, c: Vec<u8>) -> bool {
    m.nick == nick && match kind {
        MessageType::File(_, _) => match m.content {
            MessageType::File(_, d) => d == c,
            _ => false,
        },
        MessageType::Image(_) => m.content == MessageType::Image(c),
        _ => match m.content {
            MessageType::Text(t) => t@ == Seq::<char>::empty(),
            _ => false,
        },
    }
}

impl Message {
    /// Reads a line typed by `nick`: a line that begins with `.file` or `.image` asks to send
    /// a file or an image; any other line is a text message, kept exactly as typed.
    pub fn new(input: &str, nick: String) -> (r: Composed)
        ensures
            has_prefix(input@, ".file"@) ==> asks_attachment(r, nick, input@, true),
            !has_prefix(input@, ".file"@) && has_prefix(input@, ".image"@) ==> asks_attachment(
                r,
                nick,
                input@,
                false,
            ),
            !has_prefix(input@, ".file"@) && !has_prefix(input@, ".image"@) ==> match r {
                Composed::Ready(m) => is_text_message(m, nick, input@),
                _ => false,
            },
    {
        if starts_with(input, ".file") {
            Composed::Attach {
                nick,
                input: to_owned(input),
                kind: MessageType::File(String::new(), Vec::new()),
            }
        } else if starts_with(input, ".image") {
            Composed::Attach { nick, input: to_owned(input), kind: MessageType::Image(Vec::new()) }
        } else {
            Composed::Ready(Message { content: MessageType::Text(to_owned(input)), nick })
        }
    }
}

/// The path named by a line that asks to send a file or an image: the text after the
/// line's first space, without trailing whitespace. Only files and images take a path, and
/// a line without a space names none.
pub open spec fn attachment_path_spec(input: Seq<char>, kind: MessageType) -> Result<Seq<char>, ChatError> {
    if !(kind is File || kind is Image) {
        Err(ChatError::MessageTypePathIssue)
    } else {
        match split_space_spec(input).1 {
            None => Err(ChatError::NoPathIssue),
            Some(rest) => Ok(trim_end_spec(rest)),
        }
    }
}

/// The path that a line asking to send `mess_type` names; see `attachment_path_spec`.
pub fn attachment_path(input: &str, mess_type: &MessageType) -> (r: Result<String, ChatError>)
    ensures
        match r {
            Ok(p) => attachment_path_spec(input@, *mess_type) == Ok::<Seq<char>, ChatError>(p@),
            Err(e) => attachment_path_spec(input@, *mess_type) == Err::<Seq<char>, ChatError>(e),
        },
{
    match mess_type {
        MessageType::File(_, _) => {},
        MessageType::Image(_) => {},
        _ => {
            return Err(ChatError::MessageTypePathIssue);
        },
    }
    let (_, rest) = split_first_space(input);
    match rest {
        None => Err(ChatError::NoPathIssue),
        Some(r) => Ok(trim_end(r.as_str())),
    }
}

/// What came of reading a file from disk.
#[derive(Debug)]
pub enum FileRead {
    OpenFailed,
    ReadFailed,
    Contents(Vec<u8>),
}

/// The message that carries a file of the given name and content: a file keeps its name,
/// an image keeps only its content. A path without a file name is refused, for images too.
pub fn attach(nick: String, mess_type: &MessageType, name: Option<String>, contents: Vec<u8>) -> (r: Result<Message, ChatError>)
    ensures
        name is None ==> r == Err::<Message, ChatError>(ChatError::PathIssue),
        name matches Some(n) ==> match r {
            Ok(m) => match *mess_type {
                MessageType::File(_, _) => m == Message { content: MessageType::File(n, contents), nick },
                _ => carries_read_file(m, nick, *mess_type, contents),
            },
            Err(_) => false,
        },
{
    let n = match name {
        Some(n) => n,
        None => {
            return Err(ChatError::PathIssue);
        },
    };
    let content = match mess_type {
        MessageType::File(_, _) => MessageType::File(n, contents),
        MessageType::Image(_) => MessageType::Image(contents),
        _ => MessageType::Text(String::new()),
    };
    Ok(Message { content, nick })
}

/// `n` is a piece of `path`: its characters stand one after another somewhere in `path`.
pub open spec fn is_run_of(n: Seq<char>, path: Seq<char>) -> bool {
    exists|i: int| 0 <= i && i + n.len() <= path.len() && #[trigger] path.subrange(i, i + n.len()) == n
}

/// `n` could be the file name that a path ends in, on every platform: it is not empty and
/// it is a piece of `path`.
pub open spec fn name_from_path(n: Seq<char>, path: Seq<char>) -> bool {
    &&& n.len() > 0
    &&& is_run_of(n, path)
}

/// A path that is nothing but a file name on every platform: not empty, without `/`, `\`
/// or `:`, and neither `.` nor `..`.
pub open spec fn plain_name(p: Seq<char>) -> bool {
    &&& p.len() > 0
    &&& forall|i: int| 0 <= i < p.len() ==> #[trigger] p[i] != '/' && p[i] != '\\' && p[i] != ':'
    &&& p != "."@
    &&& p != ".."@
}

/// A path into which no platform reads a prefix (a drive, a server share, a verbatim
/// path), so that `/` separates its components everywhere: it holds neither `\` nor `:` and
/// does not begin with two `/`.
pub open spec fn simple_path(p: Seq<char>) -> bool {
    &&& forall|i: int| 0 <= i < p.len() ==> #[trigger] p[i] != '\\' && p[i] != ':'
    &&& !(p.len() >= 2 && p[0] == '/' && p[1] == '/')
}

/// `p` has a `/` at `i`, and what follows it is a plain name (so this `/` is the last one).
pub open spec fn name_after(p: Seq<char>, i: int) -> bool {
    &&& 0 <= i < p.len()
    &&& p[i] == '/'
    &&& plain_name(p.subrange(i + 1, p.len() as int))
}

/// The file name of the path `p` where it is the same on every platform: a plain name is its
/// own file name, and a simple path whose last `/` is followed by a plain name has that name.
/// Of other paths nothing is known here.
pub open spec fn known_file_name(p: Seq<char>) -> Option<Seq<char>> {
    if plain_name(p) {
        Some(p)
    } else if simple_path(p) && exists|i: int| name_after(p, i) {
        Some(p.subrange((choose|i: int| name_after(p, i)) + 1, p.len() as int))
    } else {
        None
    }
}

/// The final component of a path (`std::path::Path::file_name`), as text.
///
/// The documentation: the final component, if there is one; `None` when the path ends in
/// `..`. The contract claims what holds on every platform: a name is a non-empty piece of the
/// path, and a path whose final component the syntax of paths fixes on every platform (see
/// `known_file_name`: a plain name, or a simple path ending in `/` and a plain name) gives
/// that component. Which component other paths give, and which characters separate
/// components there, depends on the platform (a verbatim prefix on Windows, for one, turns
/// `/` into an ordinary character) and is left unsaid.
#[verifier::external_body]
pub(crate) fn file_name(path: &str) -> (r: Option<String>)
    ensures
        match r {
            Some(n) => name_from_path(n@, path@),
            None => known_file_name(path@) is None,
        },
        known_file_name(path@) is Some ==> (r is Some && r->Some_0@ == known_file_name(path@)->Some_0),
{
    std::path::Path::new(path).file_name().map(|n| n.to_string_lossy().to_string())
}

/// `m` carries content `c` read from the file at `path`, as `kind` asks, and a file keeps
/// a name taken from `path`: its known file name where there is one (see `known_file_name`).
pub open spec fn carries_file_at(m: Message, nick: String, kind: MessageType, c: Vec<u8>, path: Seq<char>) -> bool {
    &&& carries_read_file(m, nick, kind, c)
    &&& match m.content {
        MessageType::File(n, _) => name_from_path(n@, path)
            && (known_file_name(path) is Some ==> n@ == known_file_name(path)->Some_0),
        _ => true,
    }
}

/// Builds the message that carries the file named by a line typed to send a file or an
/// image, once the file at `attachment_path(input, &mess_type)` was read: the line must name
/// a path (see `attachment_path_spec`); a file that could not be opened or read is refused;
/// otherwise the message carries the content under the path's file name (see `attach`),
/// which is its known file name where there is one (see `known_file_name`); a path without a
/// file name is refused, and a path with a known file name never is.
pub fn build_message_w_path(nick: String, input: &str, mess_type: MessageType, read: FileRead) -> (r: Result<Message, ChatError>)
    ensures
        match attachment_path_spec(input@, mess_type) {
            Err(e) => r == Err::<Message, ChatError>(e),
            Ok(_) => match read {
                FileRead::OpenFailed => r == Err::<Message, ChatError>(ChatError::UserDirectoryIssue),
                FileRead::ReadFailed => r == Err::<Message, ChatError>(ChatError::ReadingIssue),
                FileRead::Contents(c) => match r {
                    Err(e) => e == ChatError::PathIssue && known_file_name(attachment_path_spec(input@, mess_type)->Ok_0) is None,
                    Ok(m) => carries_file_at(m, nick, mess_type, c, attachment_path_spec(input@, mess_type)->Ok_0),
                },
            },
        },
{
    let path = match attachment_path(input, &mess_type) {
        Ok(p) => p,
        Err(e) => {
            return Err(e);
        },
    };
    let contents = match read {
        FileRead::OpenFailed => {
            return Err(ChatError::UserDirectoryIssue);
        },
        FileRead::ReadFailed => {
            return Err(ChatError::ReadingIssue);
        },
        FileRead::Contents(c) => c,
    };
    attach(nick, &mess_type, file_name(path.as_str()), contents)
}

} // verus!
