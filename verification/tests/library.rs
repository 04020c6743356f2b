use std::hash::{DefaultHasher, Hash, Hasher};

use tgbot::commands::{get_command, has_handler, put_command, CommandRegistry};
use tgbot::handlers::{
    command_args_missing, create, create_callback, delete, get_all, handle_update,
    handling_fails, init, item_listing, item_message, listing_page, new_item, run_command,
    stamped_item, start, unknown, update, update_callback, Action, Command, ListingNext,
    StoreRequest, CREATE_CALLBACK_TEXT,
    CREATE_INCORRECT_TEXT, DELETE_INCORRECT_TEXT, START_TEXT, UPDATE_CALLBACK_TEXT,
    UPDATE_INCORRECT_TEXT,
};
use tgbot::items::{string_attribute, Attribute, ItemSchema, StoredItem};
use tgbot::messages::{compose_message, text_message, Button, OutgoingMessage};
use tgbot::text::{chars_of, decimal_string, split, split_once, starts_with};
use tgbot::update::{CallbackQuery, Message, RepliedMessage, Update};

fn keyboard(m: &OutgoingMessage) -> Vec<Vec<(String, String)>> {
    m.keyboard
        .iter()
        .map(|row| row.iter().map(|b| (b.text.clone(), b.callback_data.clone())).collect())
        .collect()
}

fn back() -> Vec<(String, String)> {
    vec![("<< Back to menu".to_string(), "/start".to_string())]
}

fn reply(a: &Action) -> &OutgoingMessage {
    match a {
        Action::Reply(m) => m,
        _ => panic!("expected a reply"),
    }
}

fn hash_of(text: &str) -> u64 {
    let mut hasher = DefaultHasher::new();
    text.to_string().hash(&mut hasher);
    hasher.finish()
}

#[test]
fn split_keeps_empty_pieces() {
    assert_eq!(split("a~b~", &['~']), vec!["a", "b", ""]);
    assert_eq!(split("", &['~']), vec![""]);
    assert_eq!(split("~", &['~']), vec!["", ""]);
    assert_eq!(split("[/create ]\n\nx", &['[', ']']), vec!["", "/create ", "\n\nx"]);
    assert_eq!(split("no separators", &['~']), vec!["no separators"]);
}

#[test]
fn split_once_cuts_at_first() {
    assert_eq!(split_once("/a b c", ' '), Some(("/a".to_string(), "b c".to_string())));
    assert_eq!(split_once("abc", ' '), None);
    assert_eq!(split_once(" x", ' '), Some(("".to_string(), "x".to_string())));
}

#[test]
fn starts_with_and_chars() {
    assert!(starts_with("/x", '/'));
    assert!(!starts_with("", '/'));
    assert!(!starts_with("x/", '/'));
    assert_eq!(chars_of("añb"), vec!['a', 'ñ', 'b']);
}

#[test]
fn decimal_matches_to_string() {
    for n in [0u128, 7, 10, 99, 100, 1234567890, u64::MAX as u128, u128::MAX] {
        assert_eq!(decimal_string(n), n.to_string());
    }
}

#[test]
fn registry_get_after_put() {
    let mut r: CommandRegistry<u32> = CommandRegistry::new();
    assert!(!has_handler(&r, "/x"));
    assert!(put_command(&mut r, "/x", 1).is_ok());
    assert!(has_handler(&r, "/x"));
    assert_eq!(*get_command(&r, "/x"), 1);
    assert!(put_command(&mut r, "/x", 2).is_ok());
    assert_eq!(*get_command(&r, "/x"), 2);
}

#[test]
fn registry_falls_back_on_unknown() {
    let mut r: CommandRegistry<u32> = CommandRegistry::new();
    put_command(&mut r, "/unknown", 9).unwrap();
    put_command(&mut r, "/a", 1).unwrap();
    assert_eq!(*get_command(&r, "/b"), 9);
    assert_eq!(*get_command(&r, "/a"), 1);
    put_command(&mut r, "/b", 3).unwrap();
    assert_eq!(*get_command(&r, "/a"), 1);
    assert_eq!(*get_command(&r, "/b"), 3);
}

#[test]
fn init_registers_bot_commands() {
    let mut r = CommandRegistry::new();
    init(&mut r);
    let expected = [
        ("/start", Command::Start),
        ("/get_all", Command::GetAll),
        ("/create_callback", Command::CreateCallback),
        ("/create", Command::Create),
        ("/update_callback", Command::UpdateCallback),
        ("/update", Command::Update),
        ("/delete", Command::Delete),
        ("/unknown", Command::Unknown),
        ("/nonsense", Command::Unknown),
        ("/start now", Command::Unknown),
    ];
    for (name, cmd) in expected {
        assert_eq!(*get_command(&r, name), cmd);
    }
}

#[test]
fn compose_appends_back_row() {
    let rows = vec![vec![Button { text: "a".to_string(), callback_data: "/a".to_string() }]];
    let m = compose_message(3, "hi", rows, true);
    assert_eq!(m.chat_id, 3);
    assert_eq!(m.text, "hi");
    assert_eq!(keyboard(&m), vec![vec![("a".to_string(), "/a".to_string())], back()]);
    let n = compose_message(3, "hi", vec![], false);
    assert!(n.keyboard.is_empty());
}

#[test]
fn simple_replies() {
    let m = reply(&unknown(4)).clone_view();
    assert_eq!(m, (4, "Unknown command".to_string(), vec![back()]));
    let s = reply(&start(4)).clone_view();
    assert_eq!(
        s,
        (
            4,
            START_TEXT.to_string(),
            vec![vec![
                ("Show list".to_string(), "/get_all".to_string()),
                ("Create item".to_string(), "/create_callback".to_string()),
            ]]
        )
    );
    assert!(matches!(get_all(4), Action::ListItems));
    let c = reply(&create_callback(4)).clone_view();
    assert_eq!(c, (4, format!("[/create ]\n\n{}", CREATE_CALLBACK_TEXT), vec![]));
    let u = reply(&update_callback(4, &"p~s~".to_string())).clone_view();
    assert_eq!(u, (4, format!("[/update p~s~]\n\n{}", UPDATE_CALLBACK_TEXT), vec![]));
}

trait CloneView {
    fn clone_view(&self) -> (i64, String, Vec<Vec<(String, String)>>);
}

impl CloneView for OutgoingMessage {
    fn clone_view(&self) -> (i64, String, Vec<Vec<(String, String)>>) {
        (self.chat_id, self.text.clone(), keyboard(self))
    }
}

fn write_parts(a: &Action) -> (&StoreRequest, &OutgoingMessage, &OutgoingMessage) {
    match a {
        Action::Write { request, on_success, on_failure } => (request, on_success, on_failure),
        _ => panic!("expected a write"),
    }
}

#[test]
fn empty_arguments_get_format_reminders() {
    let empty = String::new();
    assert_eq!(reply(&create(1, &empty)).clone_view(), (1, CREATE_INCORRECT_TEXT.to_string(), vec![back()]));
    assert_eq!(reply(&update(1, &empty)).clone_view(), (1, UPDATE_INCORRECT_TEXT.to_string(), vec![back()]));
    assert_eq!(reply(&delete(1, &empty)).clone_view(), (1, DELETE_INCORRECT_TEXT.to_string(), vec![back()]));
}

#[test]
fn create_keys_item_by_hash_and_time() {
    let text = "buy milk".to_string();
    let a = create(2, &text);
    let (req, ok, err) = write_parts(&a);
    match req {
        StoreRequest::Put { pk, sk, text: t } => {
            assert_eq!(pk, &hash_of("buy milk").to_string());
            assert_ne!(pk, "buy milk");
            assert!(!sk.is_empty() && sk.chars().all(|c| c.is_ascii_digit()));
            assert_eq!(t, "buy milk");
        }
        _ => panic!("expected a put"),
    }
    assert_eq!(ok.clone_view(), (2, "Item created".to_string(), vec![back()]));
    assert_eq!(err.clone_view(), (2, "Error creating item!".to_string(), vec![back()]));
}

#[test]
fn new_item_formats_keys_in_decimal() {
    let a = new_item(2, &"t".to_string(), 42, 1697032000123);
    match write_parts(&a).0 {
        StoreRequest::Put { pk, sk, text } => {
            assert_eq!((pk.as_str(), sk.as_str(), text.as_str()), ("42", "1697032000123", "t"));
        }
        _ => panic!("expected a put"),
    }
}

#[test]
fn update_and_delete_read_tilde_pieces() {
    let a = update(3, &"p~s~text~more".to_string());
    let (req, ok, err) = write_parts(&a);
    match req {
        StoreRequest::Put { pk, sk, text } => {
            assert_eq!((pk.as_str(), sk.as_str(), text.as_str()), ("p", "s", "text"));
        }
        _ => panic!("expected a put"),
    }
    assert_eq!(ok.text, "Item updated");
    assert_eq!(err.text, "Error updating item!");
    let d = delete(3, &"p~s".to_string());
    let (req, ok, err) = write_parts(&d);
    match req {
        StoreRequest::Remove { pk, sk } => assert_eq!((pk.as_str(), sk.as_str()), ("p", "s")),
        _ => panic!("expected a removal"),
    }
    assert_eq!(ok.text, "Item deleted");
    assert_eq!(err.text, "Error deleting item!");
}

#[test]
fn missing_pieces_are_detected() {
    assert!(command_args_missing(Command::Update, &"p~s".to_string()));
    assert!(!command_args_missing(Command::Update, &"p~s~".to_string()));
    assert!(!command_args_missing(Command::Update, &"".to_string()));
    assert!(command_args_missing(Command::Delete, &"p".to_string()));
    assert!(!command_args_missing(Command::Delete, &"p~s".to_string()));
    assert!(!command_args_missing(Command::Create, &"p".to_string()));
}

#[test]
fn run_command_dispatches() {
    let a = run_command(Command::Delete, 8, &"x~y".to_string());
    assert!(matches!(write_parts(&a).0, StoreRequest::Remove { .. }));
    let b = run_command(Command::Unknown, 8, &"".to_string());
    assert_eq!(reply(&b).text, "Unknown command");
}

fn item(pk: &str, sk: &str, text: Option<&str>) -> StoredItem {
    let mut attributes = vec![
        ("pk".to_string(), Attribute::S(pk.to_string())),
        ("sk".to_string(), Attribute::S(sk.to_string())),
    ];
    if let Some(t) = text {
        attributes.push(("text".to_string(), Attribute::S(t.to_string())));
    }
    StoredItem { attributes }
}

fn schema() -> ItemSchema {
    ItemSchema { pk: "pk".to_string(), sk: "sk".to_string(), text: "text".to_string() }
}

#[test]
fn item_message_shows_keys_and_buttons() {
    let m = item_message(5, &"P".to_string(), &"S".to_string(), &"T".to_string());
    assert_eq!(
        m.clone_view(),
        (
            5,
            "pk: P\nsk: S\ntext: T".to_string(),
            vec![
                vec![
                    ("Edit item".to_string(), "/update_callback P~S~".to_string()),
                    ("Delete item".to_string(), "/delete P~S".to_string()),
                ],
                back(),
            ]
        )
    );
}

#[test]
fn item_listing_needs_all_string_fields() {
    let m = item_listing(5, &item("P", "S", Some("T")), &schema()).unwrap();
    assert_eq!(m.text, "pk: P\nsk: S\ntext: T");
    assert!(item_listing(5, &item("P", "S", None), &schema()).is_none());
    let other = StoredItem {
        attributes: vec![
            ("pk".to_string(), Attribute::Other),
            ("sk".to_string(), Attribute::S("S".to_string())),
            ("text".to_string(), Attribute::S("T".to_string())),
        ],
    };
    assert!(item_listing(5, &other, &schema()).is_none());
    assert_eq!(string_attribute(&other, &"sk".to_string()), Some("S".to_string()));
    assert_eq!(string_attribute(&other, &"pk".to_string()), None);
}

fn press(chat: i64, data: &str) -> Update {
    Update {
        message: None,
        callback_query: Some(CallbackQuery {
            id: "q".to_string(),
            message_chat_id: Some(chat),
            data: Some(data.to_string()),
        }),
    }
}

fn reply_to(prompt: &str, text: &str) -> Update {
    Update {
        message: Some(Message {
            chat_id: 11,
            text: Some(text.to_string()),
            reply_to_message: Some(RepliedMessage { text: Some(prompt.to_string()) }),
        }),
        callback_query: None,
    }
}

fn bot() -> CommandRegistry<Command> {
    let mut r = CommandRegistry::new();
    init(&mut r);
    r
}

#[test]
fn delete_button_removes_its_item() {
    let r = bot();
    let listed = item_message(11, &"P 1".to_string(), &"S".to_string(), &"T".to_string());
    let data = listed.keyboard[0][1].callback_data.clone();
    let u = press(11, &data);
    assert!(!handling_fails(&r, &u));
    let (chat, a) = handle_update(&r, &u).unwrap();
    assert_eq!(chat, 11);
    match write_parts(&a).0 {
        StoreRequest::Remove { pk, sk } => assert_eq!((pk.as_str(), sk.as_str()), ("P 1", "S")),
        _ => panic!("expected a removal"),
    }
}

#[test]
fn edit_flow_writes_reply_text() {
    let r = bot();
    let listed = item_message(11, &"P".to_string(), &"S".to_string(), &"old".to_string());
    let data = listed.keyboard[0][0].callback_data.clone();
    let (_, prompt_action) = handle_update(&r, &press(11, &data)).unwrap();
    let prompt = reply(&prompt_action).text.clone();
    let u = reply_to(&prompt, "new text");
    assert!(!handling_fails(&r, &u));
    let (chat, a) = handle_update(&r, &u).unwrap();
    assert_eq!(chat, 11);
    match write_parts(&a).0 {
        StoreRequest::Put { pk, sk, text } => {
            assert_eq!((pk.as_str(), sk.as_str(), text.as_str()), ("P", "S", "new text"));
        }
        _ => panic!("expected a put"),
    }
}

#[test]
fn create_flow_writes_reply_text() {
    let r = bot();
    let (_, prompt_action) = handle_update(&r, &press(11, "/create_callback")).unwrap();
    let prompt = reply(&prompt_action).text.clone();
    let (_, a) = handle_update(&r, &reply_to(&prompt, "buy milk")).unwrap();
    match write_parts(&a).0 {
        StoreRequest::Put { pk, text, .. } => {
            assert_eq!(pk, &hash_of("buy milk").to_string());
            assert_eq!(text, "buy milk");
        }
        _ => panic!("expected a put"),
    }
}

#[test]
fn start_buttons_lead_to_their_commands() {
    let r = bot();
    let (_, a) = handle_update(&r, &press(2, "/get_all")).unwrap();
    assert!(matches!(a, Action::ListItems));
    let (_, b) = handle_update(&r, &press(2, "/start")).unwrap();
    assert_eq!(reply(&b).text, START_TEXT);
    let (_, c) = handle_update(&r, &press(2, "/whatever")).unwrap();
    assert_eq!(reply(&c).text, "Unknown command");
}

#[test]
fn handling_detects_failures() {
    let r = bot();
    assert!(handling_fails(&r, &press(2, "/update a~b")));
    assert!(handling_fails(&r, &press(2, "/delete a")));
    let no_unknown: CommandRegistry<Command> = CommandRegistry::new();
    assert!(handling_fails(&no_unknown, &press(2, "/start")));
    let none = Update { message: None, callback_query: None };
    assert!(!handling_fails(&r, &none));
    assert!(handle_update(&r, &none).is_err());
}

#[test]
fn text_message_has_only_the_back_row() {
    assert_eq!(text_message(1, "x", true).clone_view(), (1, "x".to_string(), vec![back()]));
    assert_eq!(text_message(1, "x", false).clone_view(), (1, "x".to_string(), vec![]));
}

#[test]
fn stamped_item_depends_on_clock_reading() {
    assert!(matches!(stamped_item(1, &"t".to_string(), 5, None), Action::ClockError));
    let a = stamped_item(1, &"t".to_string(), 5, Some(77));
    match write_parts(&a).0 {
        StoreRequest::Put { pk, sk, text } => {
            assert_eq!((pk.as_str(), sk.as_str(), text.as_str()), ("5", "77", "t"));
        }
        _ => panic!("expected a put"),
    }
}

#[test]
fn listing_page_shows_items_in_order() {
    let page = vec![item("A", "1", Some("a")), item("B", "2", Some("b"))];
    let more = listing_page(4, &page, &schema(), true);
    assert_eq!(more.next, ListingNext::NextPage);
    let texts: Vec<String> = more.messages.iter().map(|m| m.text.clone()).collect();
    assert_eq!(texts, vec!["pk: A\nsk: 1\ntext: a", "pk: B\nsk: 2\ntext: b"]);
    let last = listing_page(4, &page, &schema(), false);
    assert_eq!(last.next, ListingNext::Done);
    assert_eq!(last.messages.len(), 2);
    let empty = listing_page(4, &vec![], &schema(), false);
    assert_eq!(empty.next, ListingNext::Done);
    assert!(empty.messages.is_empty());
}

#[test]
fn listing_page_stops_at_item_without_text() {
    let page = vec![item("A", "1", Some("a")), item("B", "2", None), item("C", "3", Some("c"))];
    let step = listing_page(4, &page, &schema(), true);
    assert_eq!(step.next, ListingNext::MissingField);
    assert_eq!(step.messages.len(), 1);
    assert_eq!(step.messages[0].text, "pk: A\nsk: 1\ntext: a");
}
