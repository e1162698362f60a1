use rusty_dreams::command::{Command, ParseCommandError};
use rusty_dreams::frontend::{blank, App, Msg};
use rusty_dreams::interactive::split_command_line;
use rusty_dreams::my_error::MyError;
use rusty_dreams::parse_command::{parse_command, InvalidCommand};
use rusty_dreams::parse_csv::parse_into_ascii_table;
use rusty_dreams::text::{split_first_space, starts_with, trim_end};

#[test]
fn command_names() {
    assert_eq!(Command::from_str("lowercase"), Ok(Command::LowerCase));
    assert_eq!(Command::from_str("uppercase"), Ok(Command::UpperCase));
    assert_eq!(Command::from_str("slugify"), Ok(Command::Slugify));
    assert_eq!(Command::from_str("no-space"), Ok(Command::NoSpaces));
    assert_eq!(Command::from_str("ale-ironicky"), Ok(Command::AleIronicky));
    assert_eq!(Command::from_str("reverse"), Ok(Command::Reverse));
    assert_eq!(Command::from_str("csv"), Ok(Command::Csv));
    assert_eq!(Command::from_str("Csv"), Err(ParseCommandError));
    assert_eq!(parse_command("reverse".to_string()), Ok(Command::Reverse));
    assert_eq!(parse_command("nope".to_string()), Err(InvalidCommand));
    assert_eq!(InvalidCommand::build_err::<u8>(), Err(InvalidCommand));
    assert_eq!(InvalidCommand.to_string(), "");
    assert_eq!(rusty_dreams::parse_execute::parse_command("csv".to_string()), Ok(Command::Csv));
}

#[test]
fn interactive_lines() {
    assert_eq!(split_command_line("csv a;b"), ("csv".to_string(), "a;b".to_string()));
    assert_eq!(split_command_line("reverse"), ("reverse".to_string(), "".to_string()));
    assert_eq!(split_command_line(" x"), ("".to_string(), "x".to_string()));
}

#[test]
fn text_helpers() {
    assert!(starts_with(".file x", ".file"));
    assert!(!starts_with(".fil", ".file"));
    assert_eq!(trim_end("a b \t\n"), "a b");
    assert_eq!(trim_end("\u{3000}"), "");
    assert_eq!(split_first_space("a b c"), ("a".to_string(), Some("b c".to_string())));
    assert_eq!(split_first_space("abc"), ("abc".to_string(), None));
}

#[test]
fn browser_page() {
    let mut app = App::create();
    assert!(app.messages.is_empty());
    app.input_text = "  \n".to_string();
    assert!(app.update(Msg::SendMessage));
    assert!(app.messages.is_empty());
    assert_eq!(app.input_text, "  \n");
    app.input_text = " hi ".to_string();
    assert!(app.update(Msg::SendMessage));
    assert_eq!(app.messages, vec![" hi ".to_string()]);
    assert_eq!(app.input_text, "");
    assert!(blank(""));
    assert!(!blank(" x"));
}

#[test]
fn my_error_text() {
    assert_eq!(MyError::new("broken".to_string()).to_string(), "broken");
}

#[test]
fn csv_tables() {
    let t = parse_into_ascii_table("a;b\n1;2\n".to_string()).unwrap();
    assert_eq!(
        t,
        "┌───┬───┐\n│ a │ b │\n├───┼───┤\n│ 1 │ 2 │\n└───┴───┘\n"
    );
    let t = parse_into_ascii_table("h1;h2\n".to_string()).unwrap();
    assert_eq!(t, "┌────┬────┐\n│ h1 │ h2 │\n├────┼────┤\n│    │    │\n└────┴────┘\n");
    assert!(parse_into_ascii_table("a;b\n1;2;3\n".to_string()).is_err());
}
