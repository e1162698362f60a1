//! The decisions of the chat client: its nickname, what a typed line sends, how received
//! messages are shown and where received files are saved.
use vstd::prelude::*;
use crate::error::ChatError;
use crate::chat::{Message, MessageType, FileRead, file_name, name_from_path, known_file_name};
use crate::text::{has_prefix, starts_with, split_space_spec, split_first_space, trim_end_spec, trim_end,
    trim_newlines_spec, trim_newlines, to_owned, join, slice};

verus! {

/// The command line of the chat client.
#[derive(Debug, Clone)]
pub struct Args {
    pub nick: String,
    pub pass: String,
    pub host: String,
    pub port: String,
}

impl Args {
    /// The host, port, nickname and password, in that order.
    pub fn deconstruct(self) -> (r: (String, String, String, String))
        ensures
            r == (self.host, self.port, self.nick, self.pass),
    {
        (self.host, self.port, self.nick, self.pass)
    }
}

/// The longest nickname kept whole, in bytes; a longer one is cut to this many characters.
pub const MAX_NICK: usize = 14;

/// The number of bytes in the UTF-8 encoding of `s`.
pub open spec fn utf8_len(s: Seq<char>) -> nat {
    vstd::utf8::encode_utf8(s).len()
}

/// The nickname that the client uses for the name it was given: kept whole when its UTF-8
/// encoding is at most 14 bytes long, otherwise cut to its first 14 characters.
pub open spec fn nick_spec(name: Seq<char>) -> Seq<char> {
    if utf8_len(name) <= 14 {
        name
    } else if name.len() <= 14 {
        name
    } else {
        name.subrange(0, 14)
    }
}

proof fn lemma_utf8_len_concat(a: Seq<char>, b: Seq<char>)
    ensures
        utf8_len(a + b) == utf8_len(a) + utf8_len(b),
    decreases a.len(),
{
    if a.len() == 0 {
        assert(a + b =~= b);
    } else {
        lemma_utf8_len_concat(a.drop_first(), b);
        assert((a + b).drop_first() =~= a.drop_first() + b);
        assert((a + b)[0] == a[0]);
    }
}

/// The number of bytes in the UTF-8 encoding of `c`.
fn char_width(c: char) -> (w: usize)
    ensures
        w == utf8_len(seq![c]),
        w <= 4,
{
    proof {
        vstd::utf8::char_is_scalar(c);
        let e = Seq::<char>::empty();
        assert(seq![c].drop_first() =~= e);
        assert(vstd::utf8::encode_utf8(e).len() == 0);
        assert(vstd::utf8::encode_utf8(seq![c]) == vstd::utf8::encode_scalar(c as u32) + vstd::utf8::encode_utf8(e));
    }
    let u: u32 = c as u32;
    if u < 0x80 {
        1
    } else if u < 0x800 {
        2
    } else if u < 0x10000 {
        3
    } else {
        4
    }
}

/// The nickname that the client uses for `name` (see `nick_spec`).
pub fn truncate_nick(name: &str) -> (r: String)
    ensures
        r@ == nick_spec(name@),
{
    let n = name.unicode_len();
    let mut bytes: usize = 0;
    let mut i: usize = 0;
    while i < n && bytes <= MAX_NICK
        invariant
            n == name@.len(),
            i <= n,
            bytes <= MAX_NICK + 4,
            bytes == utf8_len(name@.subrange(0, i as int)),
        decreases n - i,
    {
        let w = char_width(name.get_char(i));
        proof {
            let c = name@[i as int];
            lemma_utf8_len_concat(name@.subrange(0, i as int), seq![c]);
            assert(name@.subrange(0, i + 1) =~= name@.subrange(0, i as int) + seq![c]);
        }
        bytes = bytes + w;
        i = i + 1;
    }
    proof {
        lemma_utf8_len_concat(name@.subrange(0, i as int), name@.subrange(i as int, n as int));
        assert(name@.subrange(0, i as int) + name@.subrange(i as int, n as int) =~= name@);
    }
    if bytes <= MAX_NICK {
        proof {
            assert(name@.subrange(0, i as int) =~= name@);
        }
        to_owned(name)
    } else if n <= MAX_NICK {
        proof {
            assert(name@.subrange(0, n as int) =~= name@);
        }
        slice(name, 0, n)
    } else {
        slice(name, 0, MAX_NICK)
    }
}

/// The prompt before a line of the chat: the time (eight spaces when there is none), a
/// space, the nickname and a colon with a space.
pub open spec fn prompt_spec(nick: Seq<char>, timestamp: Option<Seq<char>>) -> Seq<char> {
    let time = match timestamp {
        Some(t) => t,
        None => "        "@,
    };
    time + " "@ + nick + ": "@
}

/// The prompt before a line of the chat (see `prompt_spec`).
pub fn nick_prompt(nick: &str, timestamp: Option<String>) -> (r: String)
    ensures
        r@ == prompt_spec(nick@, match timestamp {
            Some(t) => Some(t@),
            None => None,
        }),
{
    let time = match timestamp {
        Some(t) => t,
        None => to_owned("        "),
    };
    let mut p = join(time.as_str(), " ");
    p.append(nick);
    p.append(": ");
    p
}

/// The text of a received text message as the client shows it: without trailing newlines.
pub fn shown_text(text: &str) -> (r: String)
    ensures
        r@ == trim_newlines_spec(text@),
{
    trim_newlines(text)
}

/// `m` is a text message of `nick` that says `text`.
pub open spec fn says(m: Message, nick: Seq<char>, text: Seq<char>) -> bool {
    m.nick@ == nick && match m.content {
        MessageType::Text(t) => t@ == text,
        _ => false,
    }
}

/// Why a typed line sends nothing.
#[derive(Debug, Clone, Copy, PartialEq, Eq, Structural)]
pub enum SendError {
    /// A `.file` or `.image` line that names no path.
    NoPath,
    /// A path without a file name.
    InvalidPath,
    /// The file could not be opened.
    Unopenable,
    /// The file could not be read.
    Unreadable,
}

/// The text that describes each refusal.
pub open spec fn send_error_text(e: SendError) -> Seq<char> {
    match e {
        SendError::NoPath => "provide a path to file"@,
        SendError::InvalidPath => "invalid path"@,
        SendError::Unopenable => "could not open the file"@,
        SendError::Unreadable => "could not read the file"@,
    }
}

impl SendError {
    /// The text that describes the refusal.
    pub fn to_string(&self) -> (r: String)
        ensures
            r@ == send_error_text(*self),
    {
        match self {
            SendError::NoPath => to_owned("provide a path to file"),
            SendError::InvalidPath => to_owned("invalid path"),
            SendError::Unopenable => to_owned("could not open the file"),
            SendError::Unreadable => to_owned("could not read the file"),
        }
    }
}

/// The refusal for a file that could not be opened or read.
pub open spec fn read_error(read: FileRead) -> SendError {
    match read {
        FileRead::OpenFailed => SendError::Unopenable,
        _ => SendError::Unreadable,
    }
}

/// What a line typed into the client asks for.
#[derive(Debug)]
pub enum Outgoing {
    /// Leave the chat.
    Quit,
    /// Send the file at `path`.
    File { path: String },
    /// Send the image at `path`.
    Image { path: String },
    /// Send this message at once, and show `echo` in place of the typed line.
    Ready { message: Message, echo: String },
}

/// What a line typed by `nick` asks for: `.quit` leaves; `.file` sends the file whose path
/// follows the first space, and `.image` the image whose path follows the first space (both
/// without trailing whitespace); a `.file` or `.image` line without a space names no path and
/// is refused; any other line is a text message, kept as typed.
pub fn build_message(input: &str, nick: &str) -> (r: Result<Outgoing, SendError>)
    ensures
        has_prefix(input@, ".quit"@) ==> r matches Ok(Outgoing::Quit),
        !has_prefix(input@, ".quit"@) && has_prefix(input@, ".file"@) ==> match split_space_spec(input@).1 {
            None => r == Err::<Outgoing, SendError>(SendError::NoPath),
            Some(rest) => (r matches Ok(Outgoing::File { path }) && path@ == trim_end_spec(rest)),
        },
        !has_prefix(input@, ".quit"@) && !has_prefix(input@, ".file"@) && has_prefix(input@, ".image"@)
            ==> match split_space_spec(input@).1 {
            None => r == Err::<Outgoing, SendError>(SendError::NoPath),
            Some(rest) => (r matches Ok(Outgoing::Image { path }) && path@ == trim_end_spec(rest)),
        },
        !has_prefix(input@, ".quit"@) && !has_prefix(input@, ".file"@) && !has_prefix(input@, ".image"@)
            ==> (r matches Ok(Outgoing::Ready { message, echo }) && echo@ == input@ && says(message, nick@, input@)),
{
    if starts_with(input, ".quit") {
        Ok(Outgoing::Quit)
    } else if starts_with(input, ".file") {
        let (_, rest) = split_first_space(input);
        match rest {
            Some(r) => Ok(Outgoing::File { path: trim_end(r.as_str()) }),
            None => Err(SendError::NoPath),
        }
    } else if starts_with(input, ".image") {
        let (_, rest) = split_first_space(input);
        match rest {
            Some(r) => Ok(Outgoing::Image { path: trim_end(r.as_str()) }),
            None => Err(SendError::NoPath),
        }
    } else {
        Ok(Outgoing::Ready {
            message: Message { content: MessageType::Text(to_owned(input)), nick: to_owned(nick) },
            echo: to_owned(input),
        })
    }
}

/// The message that sends the file at `path` once it was read, and the line shown in place
/// of the typed one (`Sending `, the file name and a new line). The file name is taken from
/// the path, and is its known file name where it has one (see `known_file_name`), such as
/// `a.txt` for `dir/a.txt`. A file that could not be opened or read is refused, and so is a
/// path without a file name; a path with a known file name never is.
pub fn send_file(nick: &str, path: &str, read: FileRead) -> (r: Result<(Message, String), SendError>)
    ensures
        !(read is Contents) ==> r == Err::<(Message, String), SendError>(read_error(read)),
        read matches FileRead::Contents(c) ==> match r {
            Err(e) => e == SendError::InvalidPath && known_file_name(path@) is None,
            Ok((m, echo)) => m.nick@ == nick@ && match m.content {
                MessageType::File(name, d) => d == c && echo@ == "Sending "@ + name@ + "\n"@
                    && name_from_path(name@, path@)
                    && (known_file_name(path@) is Some ==> name@ == known_file_name(path@)->Some_0),
                _ => false,
            },
        },
{
    let contents = match read {
        FileRead::Contents(c) => c,
        FileRead::OpenFailed => {
            return Err(SendError::Unopenable);
        },
        FileRead::ReadFailed => {
            return Err(SendError::Unreadable);
        },
    };
    file_message(nick, file_name(path), contents)
}

/// The message that sends a file under the file name `name` that was found for its path,
/// and the line shown in place of the typed one (`Sending `, the name and a new line); no
/// name means the path has no file name, which is refused.
pub fn file_message(nick: &str, name: Option<String>, contents: Vec<u8>) -> (r: Result<(Message, String), SendError>)
    ensures
        match name {
            None => r == Err::<(Message, String), SendError>(SendError::InvalidPath),
            Some(n) => (r matches Ok((m, echo)) && m.nick@ == nick@ && m.content == MessageType::File(n, contents)
                && echo@ == "Sending "@ + n@ + "\n"@),
        },
{
    match name {
        None => Err(SendError::InvalidPath),
        Some(n) => {
            let mut echo = join("Sending ", n.as_str());
            echo.append("\n");
            Ok((Message { content: MessageType::File(n, contents), nick: to_owned(nick) }, echo))
        },
    }
}

/// The message that sends an image once it was read, and the line shown in place of the
/// typed one. An image that could not be opened or read is refused.
pub fn send_image(nick: &str, read: FileRead) -> (r: Result<(Message, String), SendError>)
    ensures
        match read {
            FileRead::Contents(c) => (r matches Ok((m, echo)) && m.nick@ == nick@ && m.content == MessageType::Image(c)
                && echo@ == "Sending image..."@),
            _ => r == Err::<(Message, String), SendError>(read_error(read)),
        },
{
    match read {
        FileRead::Contents(c) => Ok((Message { content: MessageType::Image(c), nick: to_owned(nick) }, to_owned("Sending image..."))),
        FileRead::OpenFailed => Err(SendError::Unopenable),
        FileRead::ReadFailed => Err(SendError::Unreadable),
    }
}

/// The message that a line typed into the client sends: the line without trailing newlines,
/// as a text message of `nick`.
pub fn write_message(input: &str, nick: &str) -> (r: Message)
    ensures
        says(r, nick@, trim_newlines_spec(input@)),
{
    Message { content: MessageType::Text(trim_newlines(input)), nick: to_owned(nick) }
}

/// `p` saves `data` under `name`.
pub open spec fn saves_as(p: SavePlan, name: Seq<char>, data: Vec<u8>) -> bool {
    match p.file {
        Some((n, d)) => n@ == name && d == data,
        None => false,
    }
}

/// What the client does with a received message.
#[derive(Debug)]
pub enum ReadAction {
    /// Show this line.
    Show(String),
    /// Save a received file or image as planned.
    Save(SavePlan),
    /// Nothing to show or save.
    Nothing,
}

/// `r` is what the client of `own_nick` does with a received `message` at `timestamp`; see
/// `read_action`.
pub open spec fn acts_on(message: Message, own_nick: Seq<char>, timestamp: Seq<char>, r: ReadAction) -> bool {
    match message.content {
        MessageType::Text(t) => (r matches ReadAction::Show(line) && line@ == message.nick@ + ": "@ + t@),
        MessageType::File(name, content) => (r matches ReadAction::Save(p) && p.dir@ == "media/"@ + own_nick
            && p.file == Some((name, content))),
        MessageType::Image(data) => (r matches ReadAction::Save(p) && p.dir@ == "media/"@ + own_nick
            && saves_as(p, timestamp + ".png"@, data)),
        _ => r is Nothing,
    }
}

/// What the client's reading loop got from the server in one round.
#[derive(Debug)]
pub enum ReaderEvent {
    /// The four bytes that give a frame's length could not be read.
    HeaderUnread,
    /// The frame's read gave no bytes.
    NothingRead,
    /// A frame was read: the message it holds, or `None` when it held none.
    Frame(Option<Message>),
    /// Reading the frame failed.
    BodyUnread,
    /// Saving a received file or image failed, with this error.
    SaveFailed(ChatError),
}

/// What the reading loop does next.
#[derive(Debug)]
pub enum ReaderStep {
    /// Read the next frame.
    Continue,
    /// Do this with the message, then read the next frame.
    Act(ReadAction),
    /// Stop reading, with this error.
    Stop(ChatError),
}

/// One round of the client's reading loop: a length that could not be read, an empty read
/// and a frame that holds no message are passed over; a message is acted on (see
/// `read_action`); a failed read of the frame stops the loop with `OtherEndIssue`, and a
/// failed save with the error that saving gave.
pub fn reader_step(event: ReaderEvent, own_nick: &str, timestamp: &str) -> (r: ReaderStep)
    ensures
        match event {
            ReaderEvent::Frame(Some(m)) => (r matches ReaderStep::Act(a) && acts_on(m, own_nick@, timestamp@, a)),
            ReaderEvent::BodyUnread => r == ReaderStep::Stop(ChatError::OtherEndIssue),
            ReaderEvent::SaveFailed(e) => r == ReaderStep::Stop(e),
            _ => r is Continue,
        },
{
    match event {
        ReaderEvent::Frame(Some(m)) => ReaderStep::Act(read_action(m, own_nick, timestamp)),
        ReaderEvent::BodyUnread => ReaderStep::Stop(ChatError::OtherEndIssue),
        ReaderEvent::SaveFailed(e) => ReaderStep::Stop(e),
        _ => ReaderStep::Continue,
    }
}

/// What the client of `own_nick` does with a received message: a text is shown as the
/// author's nickname, a colon and the text; a file or an image is saved for `own_nick`
/// (see `receive_and_save`, with `timestamp` as the time of receipt); anything else is
/// dropped.
pub fn read_action(message: Message, own_nick: &str, timestamp: &str) -> (r: ReadAction)
    ensures
        acts_on(message, own_nick@, timestamp@, r),
{
    match message.content {
        MessageType::Text(t) => {
            let mut line = join(message.nick.as_str(), ": ");
            line.append(t.as_str());
            ReadAction::Show(line)
        },
        MessageType::File(name, content) => ReadAction::Save(receive_and_save(MessageType::File(name, content), own_nick, timestamp)),
        MessageType::Image(data) => ReadAction::Save(receive_and_save(MessageType::Image(data), own_nick, timestamp)),
        _ => ReadAction::Nothing,
    }
}

/// Where a received file goes: the directory to create, and, for a file or an image, the
/// name to save it under and its content.
#[derive(Debug)]
pub struct SavePlan {
    pub dir: String,
    pub file: Option<(String, Vec<u8>)>,
}

/// Where the client of user `nick`, the addressee, saves what a received `message` carries:
/// in `media/` and the addressee's nickname; a file under its own name, an image under the
/// time of receipt with `.png`; other messages save nothing.
pub fn receive_and_save(message: MessageType, nick: &str, timestamp: &str) -> (r: SavePlan)
    ensures
        r.dir@ == "media/"@ + nick@,
        match message {
            MessageType::File(name, content) => (r.file matches Some((n, d)) && n == name && d == content),
            MessageType::Image(data) => (r.file matches Some((n, d)) && n@ == timestamp@ + ".png"@ && d == data),
            _ => r.file is None,
        },
{
    let dir = join("media/", nick);
    let file = match message {
        MessageType::File(name, content) => Some((name, content)),
        MessageType::Image(data) => Some((join(timestamp, ".png"), data)),
        _ => None,
    };
    SavePlan { dir, file }
}

/// Where the terminal client of user `nick`, the addressee, saves what a received `message`
/// carries: in `media/` and the addressee's nickname; a file under its own name, an image
/// under the time of receipt; other messages save nothing.
pub fn receive_and_save_flat(message: MessageType, nick: &str, timestamp: &str) -> (r: SavePlan)
    ensures
        r.dir@ == "media/"@ + nick@,
        match message {
            MessageType::File(name, content) => (r.file matches Some((n, d)) && n == name && d == content),
            MessageType::Image(data) => (r.file matches Some((n, d)) && n@ == timestamp@ && d == data),
            _ => r.file is None,
        },
{
    let dir = join("media/", nick);
    let file = match message {
        MessageType::File(name, content) => Some((name, content)),
        MessageType::Image(data) => Some((to_owned(timestamp), data)),
        _ => None,
    };
    SavePlan { dir, file }
}

} // verus!
