use tgbot::update::{
    callback_answer, extract_panic, extract_request, CallbackQuery, ExtractError, ExtractPanic,
    ExtractedCommand, Message, RepliedMessage, Update,
};

const CHAT: i64 = 364257553;

fn message(text: Option<&str>, reply: Option<Option<&str>>) -> Update {
    Update {
        message: Some(Message {
            chat_id: CHAT,
            text: text.map(|t| t.to_string()),
            reply_to_message: reply.map(|r| RepliedMessage { text: r.map(|t| t.to_string()) }),
        }),
        callback_query: None,
    }
}

fn press(chat: Option<i64>, data: Option<&str>) -> Update {
    Update {
        message: None,
        callback_query: Some(CallbackQuery {
            id: "123456".to_string(),
            message_chat_id: chat,
            data: data.map(|d| d.to_string()),
        }),
    }
}

fn ok(update: &Update) -> (i64, String, String) {
    assert!(extract_panic(update).is_none());
    let c: ExtractedCommand = extract_request(update).unwrap();
    (c.chat_id, c.command, c.args)
}

fn err(update: &Update) -> ExtractError {
    assert!(extract_panic(update).is_none());
    match extract_request(update) {
        Ok(_) => panic!("expected an error"),
        Err(e) => e,
    }
}

#[test]
fn simple_start_message_reads_start() {
    let u = message(Some("/start"), None);
    assert_eq!(ok(&u), (CHAT, "/start".to_string(), "".to_string()));
    assert!(callback_answer(&u).is_none());
}

#[test]
fn callback_without_space_uses_data_for_both() {
    let u = press(Some(CHAT), Some("/callback_data"));
    assert_eq!(ok(&u), (CHAT, "/callback_data".to_string(), "/callback_data".to_string()));
}

#[test]
fn callback_with_space_is_cut_at_first_space() {
    let u = press(Some(7), Some("/delete a b~c"));
    assert_eq!(ok(&u), (7, "/delete".to_string(), "a b~c".to_string()));
}

#[test]
fn callback_answer_acknowledges_press() {
    let u = press(Some(CHAT), Some("/get_all"));
    let a = callback_answer(&u).unwrap();
    assert_eq!(a.callback_query_id, "123456");
    assert_eq!(a.text, "\u{2705} Operation processing");
    assert!(!a.show_alert);
}

#[test]
fn callback_takes_precedence_over_message() {
    let mut u = press(Some(5), Some("/start"));
    u.message = message(Some("/create x"), None).message;
    assert_eq!(ok(&u), (5, "/start".to_string(), "/start".to_string()));
}

#[test]
fn inaccessible_callback_message_is_an_error() {
    let u = press(None, Some("/start"));
    assert_eq!(err(&u), ExtractError::InaccessibleMessage);
    assert_eq!(err(&u).message(), "Callback query message is inaccessible");
    // the inaccessible message is reported before the missing data is noticed
    let v = press(None, None);
    assert_eq!(err(&v), ExtractError::InaccessibleMessage);
}

#[test]
fn callback_data_without_slash_is_not_a_command() {
    let u = press(Some(1), Some("hello"));
    assert_eq!(err(&u), ExtractError::NotABotCommand);
    assert_eq!(err(&u).message(), "Not a bot command");
}

#[test]
fn callback_without_data_fails() {
    let u = press(Some(1), None);
    let p = extract_panic(&u).unwrap();
    assert!(matches!(p, ExtractPanic::NoCallbackData));
    assert_eq!(p.message(), "No callback request specified");
}

#[test]
fn empty_update_has_no_message() {
    let u = Update { message: None, callback_query: None };
    assert_eq!(err(&u), ExtractError::NoMessage);
    assert_eq!(err(&u).message(), "No message or callback query found");
}

#[test]
fn plain_message_takes_first_and_second_word() {
    let u = message(Some("/create hello world"), None);
    assert_eq!(ok(&u), (CHAT, "/create".to_string(), "hello".to_string()));
    let v = message(Some("/get_all"), None);
    assert_eq!(ok(&v), (CHAT, "/get_all".to_string(), "".to_string()));
    let w = message(Some("/x  y"), None);
    assert_eq!(ok(&w), (CHAT, "/x".to_string(), "".to_string()));
}

#[test]
fn plain_message_without_slash_is_not_a_command() {
    let u = message(Some("hello /start"), None);
    assert_eq!(err(&u), ExtractError::NotABotCommand);
}

#[test]
fn plain_message_without_text_fails() {
    let u = message(None, None);
    let p = extract_panic(&u).unwrap();
    assert!(matches!(p, ExtractPanic::NoCommandInput));
    assert_eq!(p.message(), "No command input");
}

#[test]
fn reply_to_bracketed_prompt_appends_reply_text() {
    let prompt = "[/update pk1~sk1~]\n\nPlease, reply to this message with the text you want to update";
    let u = message(Some("new text"), Some(Some(prompt)));
    assert_eq!(ok(&u), (CHAT, "/update".to_string(), "pk1~sk1~new text".to_string()));
    let v = message(None, Some(Some(prompt)));
    assert_eq!(ok(&v), (CHAT, "/update".to_string(), "pk1~sk1~".to_string()));
}

#[test]
fn reply_to_create_prompt_gives_reply_text() {
    let prompt = "[/create ]\n\nPlease, reply to this message with the text you want to create";
    let u = message(Some("buy milk"), Some(Some(prompt)));
    assert_eq!(ok(&u), (CHAT, "/create".to_string(), "buy milk".to_string()));
}

#[test]
fn reply_to_bracket_without_slash_is_not_a_command() {
    let u = message(Some("x"), Some(Some("[hello world]")));
    assert_eq!(err(&u), ExtractError::NotABotCommand);
}

#[test]
fn reply_to_bracket_without_space_fails() {
    let u = message(Some("x"), Some(Some("[/update]")));
    let p = extract_panic(&u).unwrap();
    match &p {
        ExtractPanic::IncorrectCommand(cmd) => assert_eq!(cmd, "/update"),
        _ => panic!("expected an incorrect command"),
    }
    assert_eq!(p.message(), "Incorrect command: /update");
}

#[test]
fn reply_to_plain_command_repeats_it() {
    let u = message(Some("ignored"), Some(Some("/start now")));
    assert_eq!(ok(&u), (CHAT, "/start now".to_string(), "/start now".to_string()));
    let v = message(Some("x"), Some(Some("start")));
    assert_eq!(err(&v), ExtractError::NotABotCommand);
}

#[test]
fn reply_to_message_without_text_fails() {
    let u = message(Some("x"), Some(None));
    let p = extract_panic(&u).unwrap();
    assert!(matches!(p, ExtractPanic::NoRepliedText));
    assert_eq!(p.message(), "No original message for reply");
}

#[test]
fn extracted_commands_start_with_slash() {
    let updates = vec![
        message(Some("/a b c"), None),
        message(Some("/"), None),
        press(Some(1), Some("/ x")),
        message(Some("t"), Some(Some("[/c d]rest"))),
        message(Some("t"), Some(Some("/z"))),
    ];
    for u in &updates {
        let (_, command, _) = ok(u);
        assert!(command.starts_with('/'));
    }
}

#[test]
fn non_ascii_text_is_read_by_characters() {
    let u = message(Some("/créer привет мир"), None);
    assert_eq!(ok(&u), (CHAT, "/créer".to_string(), "привет".to_string()));
}
