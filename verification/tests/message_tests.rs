use rusty_dreams::chat::{attach, attachment_path, build_message_w_path, Composed, FileRead, Message, MessageType};
use rusty_dreams::error::ChatError;

fn text(m: &MessageType) -> &str {
    match m {
        MessageType::Text(t) => t.as_str(),
        _ => "lulzwut",
    }
}

#[test]
fn make_message() {
    let message = match Message::new("lol", "nick".to_string()) {
        Composed::Ready(m) => m,
        other => panic!("not a ready message: {:?}", other),
    };
    let message2 = Message {
        content: MessageType::Text("lol".to_string()),
        nick: "nick".to_string(),
    };

    assert_eq!(text(&message.content), text(&message2.content));
    assert_eq!(message.nick, message2.nick)
}

#[test]
fn not_welcome() {
    assert_eq!(MessageType::Welcome(Ok(())).into_db(), None)
}

#[test]
#[should_panic]
fn file_incoming() {
    assert_eq!(
        MessageType::Image(vec![0]).into_db(),
        Some("incoming_image".to_string())
    )
}

#[test]
fn err() {
    assert_eq!(
        format!("{}", ChatError::DatabaseIssue.to_string()),
        "Database error".to_string()
    )
}

#[test]
fn welcome() {
    let welcome = build_message_w_path(
        "nick".to_string(),
        ".accept rn",
        MessageType::Welcome(Ok(())),
        FileRead::Contents(vec![]),
    );

    assert!(welcome.is_err())
}

#[test]
fn text_is_stored_in_db() {
    assert_eq!(MessageType::Text("hi".to_string()).into_db(), Some("hi".to_string()));
    assert_eq!(MessageType::Pass("pw".to_string()).into_db(), None);
    assert_eq!(MessageType::File("a".to_string(), vec![1]).into_db(), None);
    let m = Message { content: MessageType::Text("x".to_string()), nick: "n".to_string() };
    assert_eq!(m.into_db(), Some("x".to_string()));
}

#[test]
fn file_line_asks_for_file() {
    match Message::new(".file qwerty", "nick".to_string()) {
        Composed::Attach { nick, input, kind } => {
            assert_eq!(nick, "nick");
            assert_eq!(input, ".file qwerty");
            assert!(matches!(kind, MessageType::File(_, _)));
        }
        other => panic!("unexpected {:?}", other),
    }
    match Message::new(".image pic.png", "nick".to_string()) {
        Composed::Attach { kind, .. } => assert!(matches!(kind, MessageType::Image(_))),
        other => panic!("unexpected {:?}", other),
    }
}

#[test]
fn attachment_paths() {
    let file = MessageType::File(String::new(), vec![]);
    assert_eq!(attachment_path(".file some/dir/a.txt  \n", &file), Ok("some/dir/a.txt".to_string()));
    assert_eq!(attachment_path(".file", &file), Err(ChatError::NoPathIssue));
    assert_eq!(attachment_path(".image x y ", &MessageType::Image(vec![])), Ok("x y".to_string()));
    assert_eq!(
        attachment_path(".file a", &MessageType::Text(String::new())),
        Err(ChatError::MessageTypePathIssue)
    );
}

#[test]
fn attaching_files() {
    let file = MessageType::File(String::new(), vec![]);
    let m = attach("nick".to_string(), &file, Some("a.txt".to_string()), vec![1, 2]).unwrap();
    match m.content {
        MessageType::File(name, data) => {
            assert_eq!(name, "a.txt");
            assert_eq!(data, vec![1, 2]);
        }
        _ => panic!("not a file"),
    }
    assert_eq!(attach("n".to_string(), &file, None, vec![]).unwrap_err(), ChatError::PathIssue);
    let img = attach("n".to_string(), &MessageType::Image(vec![]), Some("p".to_string()), vec![9]).unwrap();
    assert!(matches!(img.content, MessageType::Image(ref d) if d == &vec![9]));
    let file2 = || MessageType::File(String::new(), vec![]);
    assert_eq!(
        build_message_w_path("n".to_string(), ".file a", file2(), FileRead::OpenFailed).unwrap_err(),
        ChatError::UserDirectoryIssue
    );
    assert_eq!(
        build_message_w_path("n".to_string(), ".file a", file2(), FileRead::ReadFailed).unwrap_err(),
        ChatError::ReadingIssue
    );
    assert_eq!(
        build_message_w_path("n".to_string(), ".file", file2(), FileRead::Contents(vec![])).unwrap_err(),
        ChatError::NoPathIssue
    );
    let read = build_message_w_path("n".to_string(), ".file dir/b.bin \n", file2(), FileRead::Contents(vec![7])).unwrap();
    assert!(matches!(read.content, MessageType::File(ref name, ref d) if name == "b.bin" && d == &vec![7]));
    let plain = build_message_w_path("n".to_string(), ".file my notes.txt\n", file2(), FileRead::Contents(vec![8])).unwrap();
    assert!(matches!(plain.content, MessageType::File(ref name, ref d) if name == "my notes.txt" && d == &vec![8]));
    assert_eq!(plain.nick, "n");
    let abs = build_message_w_path("n".to_string(), ".file /home/u/x.txt\n", file2(), FileRead::Contents(vec![3])).unwrap();
    assert!(matches!(abs.content, MessageType::File(ref name, ref d) if name == "x.txt" && d == &vec![3]));
    let dir_image = build_message_w_path("n".to_string(), ".image pics/a.png\n", MessageType::Image(vec![]), FileRead::Contents(vec![4])).unwrap();
    assert!(matches!(dir_image.content, MessageType::Image(ref d) if d == &vec![4]));
    let image = build_message_w_path("n".to_string(), ".image a b.png ", MessageType::Image(vec![1]), FileRead::Contents(vec![6])).unwrap();
    assert!(matches!(image.content, MessageType::Image(ref d) if d == &vec![6]));
    assert_eq!(
        build_message_w_path("n".to_string(), ".file x/..", file2(), FileRead::Contents(vec![1])).unwrap_err(),
        ChatError::PathIssue
    );
    let welcome = build_message_w_path(
        "n".to_string(),
        ".accept rn",
        MessageType::Welcome(Ok(())),
        FileRead::Contents(vec![]),
    );
    assert_eq!(welcome.unwrap_err(), ChatError::MessageTypePathIssue);
}

#[test]
fn error_texts() {
    assert_eq!(ChatError::PathIssue.to_string(), "Error finding path - provide a valid one");
    assert_eq!(ChatError::ReadingIssue.to_string(), "Error reading from path");
    assert_eq!(ChatError::NoPathIssue.to_string(), "Error finding path - provide one");
}
