//! The database task: what it does with each request, and how it shapes what it read.
use vstd::prelude::*;
use crate::chat::{Message as ChatMessage, MessageType, db_text};
use crate::error::ChatError;
use crate::logging_in::LoginAttempt;
use crate::message::Message;
use crate::task::{LoginDirection, Task, TaskDirection};
use crate::text::{to_owned, join};

verus! {

/// A row of the message table; every column may be empty.
#[derive(Debug, Clone)]
pub struct StoredMessage {
    pub nick: Option<String>,
    pub message: Option<String>,
    pub date: Option<String>,
}

/// A row of the user table; every column may be empty.
#[derive(Debug, Clone)]
pub struct UserRow {
    pub nick: Option<String>,
    pub deleted: Option<bool>,
}

/// The line of the history text for one stored message: a new line, the nickname, a colon
/// and the message, when both are present; nothing otherwise.
pub open spec fn history_line(r: StoredMessage) -> Seq<char> {
    match (r.nick, r.message) {
        (Some(n), Some(m)) => "\n"@ + n@ + ": "@ + m@,
        _ => Seq::empty(),
    }
}

/// The history text of the stored messages, in their order.
pub open spec fn history_text_spec(rows: Seq<StoredMessage>) -> Seq<char>
    decreases rows.len(),
{
    if rows.len() == 0 {
        Seq::empty()
    } else {
        history_text_spec(rows.drop_last()) + history_line(rows.last())
    }
}

/// The history text of the stored messages; an unreadable table gives the empty text.
pub fn history(rows: Option<Vec<StoredMessage>>) -> (r: String)
    ensures
        r@ == match rows {
            Some(rs) => history_text_spec(rs@),
            None => Seq::empty(),
        },
{
    let rows = match rows {
        Some(rs) => rs,
        None => {
            return String::new();
        },
    };
    let mut acc = String::new();
    let mut i: usize = 0;
    while i < rows.len()
        invariant
            i <= rows@.len(),
            acc@ == history_text_spec(rows@.subrange(0, i as int)),
        decreases rows@.len() - i,
    {
        let r = &rows[i];
        match (&r.nick, &r.message) {
            (Some(n), Some(m)) => {
                acc.append("\n");
                acc.append(n.as_str());
                acc.append(": ");
                acc.append(m.as_str());
            },
            _ => {},
        }
        proof {
            assert(rows@.subrange(0, i + 1).drop_last() =~= rows@.subrange(0, i as int));
        }
        i = i + 1;
    }
    assert(rows@.subrange(0, i as int) =~= rows@);
    acc
}

/// The nicknames of the deleted users, in table order; a row without a nickname names
/// nobody, and a row whose deletion mark is empty is not deleted.
pub open spec fn deleted_names(users: Seq<UserRow>) -> Seq<Seq<char>>
    decreases users.len(),
{
    if users.len() == 0 {
        Seq::empty()
    } else {
        let last = users.last();
        let rest = deleted_names(users.drop_last());
        match (last.nick, last.deleted) {
            (Some(n), Some(true)) => rest.push(n@),
            _ => rest,
        }
    }
}

/// `text`, or `default` when there is none.
pub open spec fn or_text(text: Option<String>, default: Seq<char>) -> Seq<char> {
    match text {
        Some(t) => t@,
        None => default,
    }
}

/// `m` shows the stored message `r`: its author (`user` when unknown), whether the author
/// is among the deleted, its text (`...` when missing) and its date (`?????` when missing).
pub open spec fn shows(m: Message, r: StoredMessage, deleted: Seq<Seq<char>>) -> bool {
    &&& m.username@ == or_text(r.nick, "user"@)
    &&& m.deleted == deleted.contains(m.username@)
    &&& m.message@ == or_text(r.message, "..."@)
    &&& m.date@ == or_text(r.date, "?????"@)
}

/// `t` answers a history request with messages that show `rows`, one for one and in order.
pub open spec fn history_answer(t: Task, rows: Seq<StoredMessage>, deleted: Seq<Seq<char>>) -> bool {
    match t {
        Task::History(TaskDirection::Response(v)) => v@.len() == rows.len() && forall|i: int|
            0 <= i < rows.len() ==> #[trigger] shows(v@[i], rows[i], deleted),
        _ => false,
    }
}

/// The text, or a copy of `default` when there is none.
fn text_or(text: &Option<String>, default: &str) -> (r: String)
    ensures
        r@ == or_text(*text, default@),
{
    match text {
        Some(t) => t.clone(),
        None => to_owned(default),
    }
}

/// The nicknames of the deleted users.
fn deleted_users(users: &Vec<UserRow>) -> (r: Vec<String>)
    ensures
        r@.map_values(|s: String| s@) == deleted_names(users@),
{
    let mut r: Vec<String> = Vec::new();
    let mut i: usize = 0;
    while i < users.len()
        invariant
            i <= users@.len(),
            r@.map_values(|s: String| s@) == deleted_names(users@.subrange(0, i as int)),
        decreases users@.len() - i,
    {
        let u = &users[i];
        let ghost before = r@;
        proof {
            assert(users@.subrange(0, i + 1).drop_last() =~= users@.subrange(0, i as int));
            assert(users@.subrange(0, i + 1).last() == users@[i as int]);
        }
        match (&u.nick, &u.deleted) {
            (Some(n), Some(true)) => {
                r.push(n.clone());
                proof {
                    assert(r@.map_values(|s: String| s@) =~= before.map_values(|s: String| s@).push(n@));
                }
            },
            _ => {},
        }
        i = i + 1;
    }
    assert(users@.subrange(0, i as int) =~= users@);
    r
}

/// Whether `name` is among `names`.
fn contains_name(names: &Vec<String>, name: &String) -> (r: bool)
    ensures
        r == names@.map_values(|s: String| s@).contains(name@),
{
    let mut i: usize = 0;
    while i < names.len()
        invariant
            i <= names@.len(),
            forall|j: int| 0 <= j < i ==> names@[j]@ != name@,
        decreases names@.len() - i,
    {
        if names[i] == *name {
            proof {
                assert(names@.map_values(|s: String| s@)[i as int] == name@);
            }
            return true;
        }
        i = i + 1;
    }
    proof {
        let views = names@.map_values(|s: String| s@);
        assert forall|k: int| 0 <= k < views.len() implies #[trigger] views[k] != name@ by {
            assert(views[k] == names@[k]@);
        }
    }
    false
}

/// The answer to a history request: every stored message, marked when its author was
/// deleted. When either table could not be read the answer is empty.
pub fn get_history(users: Option<Vec<UserRow>>, rows: Option<Vec<StoredMessage>>) -> (r: Task)
    ensures
        match (users, rows) {
            (Some(us), Some(rs)) => history_answer(r, rs@, deleted_names(us@)),
            _ => history_answer(r, Seq::empty(), Seq::empty()),
        },
{
    let users = match users {
        Some(us) => us,
        None => {
            return Task::History(TaskDirection::Response(Vec::new()));
        },
    };
    let deleted = deleted_users(&users);
    let rows = match rows {
        Some(rs) => rs,
        None => {
            return Task::History(TaskDirection::Response(Vec::new()));
        },
    };
    let ghost del = deleted_names(users@);
    let mut out: Vec<Message> = Vec::new();
    let mut i: usize = 0;
    while i < rows.len()
        invariant
            i <= rows@.len(),
            out@.len() == i,
            deleted@.map_values(|s: String| s@) == del,
            forall|j: int| 0 <= j < i ==> #[trigger] shows(out@[j], rows@[j], del),
        decreases rows@.len() - i,
    {
        let row = &rows[i];
        let username = text_or(&row.nick, "user");
        let is_deleted = contains_name(&deleted, &username);
        let message = text_or(&row.message, "...");
        let date = text_or(&row.date, "?????");
        out.push(Message { username, message, deleted: is_deleted, date });
        proof {
            assert(shows(out@[i as int], rows@[i as int], del));
        }
        i = i + 1;
    }
    Task::History(TaskDirection::Response(out))
}

/// `users` holds a row for the user `name` whose deletion mark is set.
pub open spec fn marked_deleted(users: Seq<UserRow>, name: Seq<char>) -> bool {
    exists|j: int| 0 <= j < users.len() && (#[trigger] users[j]).deleted == Some(true)
        && (users[j].nick matches Some(n) && n@ == name)
}

proof fn lemma_deleted_names_are_marked(users: Seq<UserRow>, name: Seq<char>)
    ensures
        deleted_names(users).contains(name) <==> marked_deleted(users, name),
    decreases users.len(),
{
    if users.len() > 0 {
        let init = users.drop_last();
        let last = users.last();
        lemma_deleted_names_are_marked(init, name);
        let rest = deleted_names(init);
        if marked_deleted(init, name) {
            let j = choose|j: int| 0 <= j < init.len() && (#[trigger] init[j]).deleted == Some(true)
                && (init[j].nick matches Some(n) && n@ == name);
            assert(users[j] == init[j]);
        }
        if marked_deleted(users, name) {
            let j = choose|j: int| 0 <= j < users.len() && (#[trigger] users[j]).deleted == Some(true)
                && (users[j].nick matches Some(n) && n@ == name);
            if j < users.len() - 1 {
                assert(init[j] == users[j]);
            }
        }
        match (last.nick, last.deleted) {
            (Some(n), Some(true)) => {
                assert(rest.push(n@).contains(name) <==> rest.contains(name) || n@ == name) by {
                    if rest.push(n@).contains(name) && n@ != name {
                        let k = choose|k: int| 0 <= k < rest.push(n@).len() && rest.push(n@)[k] == name;
                        assert(rest[k] == name);
                    }
                    if rest.contains(name) {
                        let k = choose|k: int| 0 <= k < rest.len() && rest[k] == name;
                        assert(rest.push(n@)[k] == name);
                    }
                    if n@ == name {
                        assert(rest.push(n@)[rest.len() as int] == name);
                    }
                }
                if n@ == name {
                    assert(users[users.len() - 1] == last);
                }
            },
            _ => {},
        }
    }
}

/// In an answer to a history request, a message is marked as from a deleted user exactly
/// when the user table holds a row for its author whose deletion mark is set: a row whose
/// mark is unset or empty marks nobody.
pub proof fn law_deleted_exactly_when_marked(t: Task, users: Seq<UserRow>, rows: Seq<StoredMessage>)
    requires
        history_answer(t, rows, deleted_names(users)),
    ensures
        t matches Task::History(TaskDirection::Response(v)) && forall|i: int| 0 <= i < v@.len() ==>
            ((#[trigger] v@[i]).deleted <==> marked_deleted(users, v@[i].username@)),
{
    if let Task::History(TaskDirection::Response(v)) = t {
        assert forall|i: int| 0 <= i < v@.len() implies
            ((#[trigger] v@[i]).deleted <==> marked_deleted(users, v@[i].username@)) by {
            assert(shows(v@[i], rows[i], deleted_names(users)));
            lemma_deleted_names_are_marked(users, v@[i].username@);
        }
    }
}

/// The history text holds one line for every stored message that has a nickname and a
/// text, in order: the empty table gives the empty text, and one more message adds its line
/// (a new line, the nickname, `: ` and the text) at the end; the text of two runs of
/// messages is the text of the first followed by the text of the second.
pub proof fn law_history_lines_in_order(rows: Seq<StoredMessage>, more: Seq<StoredMessage>, r: StoredMessage)
    ensures
        history_text_spec(Seq::empty()) == Seq::<char>::empty(),
        history_text_spec(rows.push(r)) == history_text_spec(rows) + match (r.nick, r.message) {
            (Some(n), Some(m)) => "\n"@ + n@ + ": "@ + m@,
            _ => Seq::<char>::empty(),
        },
        history_text_spec(rows + more) == history_text_spec(rows) + history_text_spec(more),
    decreases more.len(),
{
    assert(rows.push(r).drop_last() =~= rows);
    if more.len() == 0 {
        assert(rows + more =~= rows);
        assert(history_text_spec(rows) + history_text_spec(more) =~= history_text_spec(rows));
    } else {
        law_history_lines_in_order(rows, more.drop_last(), r);
        assert((rows + more).drop_last() =~= rows + more.drop_last());
        assert((rows + more).last() == more.last());
        assert(history_text_spec(rows + more) =~= history_text_spec(rows) + history_text_spec(more));
    }
}

/// The nickname of each user row, or the empty text when it has none.
pub open spec fn mannschaft_answer(t: Task, users: Seq<UserRow>) -> bool {
    match t {
        Task::Mannschaft(TaskDirection::Response(v)) => v@.len() == users.len() && forall|i: int|
            0 <= i < users.len() ==> (#[trigger] v@[i])@ == or_text(users[i].nick, Seq::empty()),
        _ => false,
    }
}

/// The answer to a request for the list of users: the nickname of every user, in table
/// order. When the table could not be read the list is empty.
pub fn get_mannschaft(users: Option<Vec<UserRow>>) -> (r: Task)
    ensures
        match users {
            Some(us) => mannschaft_answer(r, us@),
            None => mannschaft_answer(r, Seq::empty()),
        },
{
    let users = match users {
        Some(us) => us,
        None => {
            return Task::Mannschaft(TaskDirection::Response(Vec::new()));
        },
    };
    let mut out: Vec<String> = Vec::new();
    let mut i: usize = 0;
    while i < users.len()
        invariant
            i <= users@.len(),
            out@.len() == i,
            forall|j: int| 0 <= j < i ==> (#[trigger] out@[j])@ == or_text(users@[j].nick, Seq::empty()),
        decreases users@.len() - i,
    {
        proof {
            reveal_strlit("");
            assert(""@ =~= Seq::<char>::empty());
        }
        out.push(text_or(&users[i].nick, ""));
        i = i + 1;
    }
    Task::Mannschaft(TaskDirection::Response(out))
}

/// What the database task does with a request.
#[derive(Debug)]
pub enum DbAction {
    /// Store a message: its text, author and date.
    Store { message: String, nick: String, date: String },
    /// Check a login and send back the verdict.
    CheckLogin(LoginAttempt),
    /// Send back the history.
    SendHistory,
    /// Send back the list of users.
    SendMannschaft,
    /// Mark a user as deleted.
    DeleteUser(String),
    /// The request makes no sense to the database; nothing to do.
    Ignore,
}

/// What the database task does with a request (the decision of `database_task`).
pub fn database_task(task: Task) -> (r: DbAction)
    ensures
        r == (match task {
            Task::Message(m) => DbAction::Store { message: m.message, nick: m.username, date: m.date },
            Task::User(LoginDirection::Request(a)) => DbAction::CheckLogin(a),
            Task::User(LoginDirection::Response(_)) => DbAction::Ignore,
            Task::History(_) => DbAction::SendHistory,
            Task::Mannschaft(_) => DbAction::SendMannschaft,
            Task::Delete(user) => DbAction::DeleteUser(user),
        }),
{
    match task {
        Task::Message(m) => DbAction::Store { message: m.message, nick: m.username, date: m.date },
        Task::User(LoginDirection::Request(a)) => DbAction::CheckLogin(a),
        Task::User(LoginDirection::Response(_)) => DbAction::Ignore,
        Task::History(_) => DbAction::SendHistory,
        Task::Mannschaft(_) => DbAction::SendMannschaft,
        Task::Delete(user) => DbAction::DeleteUser(user),
    }
}

/// Whether the web task waits for the database's answer to `task` and sends it on: it does
/// for history requests and login requests.
pub fn awaits_reply(task: &Task) -> (r: bool)
    ensures
        r == (task matches Task::History(TaskDirection::Request) || task matches Task::User(LoginDirection::Request(_))),
{
    match task {
        Task::History(TaskDirection::Request) => true,
        Task::User(LoginDirection::Request(_)) => true,
        _ => false,
    }
}

/// The nickname and password of a chat message that logs in, if it is one.
pub fn login_request(m: ChatMessage) -> (r: Option<(String, String)>)
    ensures
        r == (match m.content {
            MessageType::Pass(p) => Some((m.nick, p)),
            _ => None,
        }),
{
    match m.content {
        MessageType::Pass(p) => Some((m.nick, p)),
        _ => None,
    }
}

/// The text that the database stores for a message received in bytes: bytes that are no
/// message are refused, and so is a message that the database does not store.
pub fn message_for_db(decoded: Option<ChatMessage>) -> (r: Result<String, ChatError>)
    ensures
        match decoded {
            None => r == Err::<String, ChatError>(ChatError::DeserializingIssue),
            Some(m) => match db_text(m.content) {
                Some(t) => (r matches Ok(s) && s@ == t),
                None => r == Err::<String, ChatError>(ChatError::WritingIssue),
            },
        },
{
    match decoded {
        None => Err(ChatError::DeserializingIssue),
        Some(m) => match m.into_db() {
            Some(t) => Ok(t),
            None => Err(ChatError::WritingIssue),
        },
    }
}

/// The bytes that a read of `n` bytes into `buffer` received; a read of nothing received
/// nothing to pass on.
pub fn received_bytes(buffer: &Vec<u8>, n: usize) -> (r: Option<Vec<u8>>)
    requires
        n <= buffer@.len(),
    ensures
        n == 0 ==> r is None,
        n > 0 ==> (r matches Some(b) && b@ == buffer@.subrange(0, n as int)),
{
    if n == 0 {
        return None;
    }
    let mut out: Vec<u8> = Vec::new();
    let mut i: usize = 0;
    while i < n
        invariant
            i <= n <= buffer@.len(),
            out@ == buffer@.subrange(0, i as int),
        decreases n - i,
    {
        out.push(buffer[i]);
        i = i + 1;
        assert(out@ =~= buffer@.subrange(0, i as int));
    }
    Some(out)
}

} // verus!
