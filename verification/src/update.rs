//! Incoming Telegram updates, and how a bot command with its chat and its
//! arguments is read out of one.
use vstd::prelude::*;
use vstd::string::*;

use crate::text::{
    is_first_occurrence, lemma_split_leading_separator, lemma_split_pieces_len, split, split_once,
    split_once_spec, split_pieces, starts_with, starts_with_char,
};

verus! {

/// The message that a message replies to, as far as commands read it.
pub struct RepliedMessage {
    pub text: Option<String>,
}

/// A chat message, as far as commands read it.
pub struct Message {
    pub chat_id: i64,
    pub text: Option<String>,
    pub reply_to_message: Option<RepliedMessage>,
}

/// A press on an inline keyboard button. `message_chat_id` is the chat of the
/// message that carried the button, or `None` where that message is absent or
/// no longer accessible to the bot.
pub struct CallbackQuery {
    pub id: String,
    pub message_chat_id: Option<i64>,
    pub data: Option<String>,
}

/// An update that Telegram delivers to the bot.
pub struct Update {
    pub message: Option<Message>,
    pub callback_query: Option<CallbackQuery>,
}

/// A bot command read out of an update: the chat to answer in, the command
/// name (such as "/create") and its argument text.
pub struct ExtractedCommand {
    pub chat_id: i64,
    pub command: String,
    pub args: String,
}

/// Why an update carries no command.
#[derive(PartialEq, Eq, Structural, Clone, Copy, Debug)]
pub enum ExtractError {
    /// The pressed button's message is absent or inaccessible.
    InaccessibleMessage,
    /// The text does not start with '/'.
    NotABotCommand,
    /// The update has neither a message nor a callback query.
    NoMessage,
}

/// Where reading an update's command fails outright, as opposed to answering
/// with an `ExtractError`.
pub enum ExtractPanic {
    /// A pressed button carries no callback data.
    NoCallbackData,
    /// The replied-to message has no text.
    NoRepliedText,
    /// A bracketed command has no space after its name.
    IncorrectCommand(String),
    /// A message that is not a reply has no text.
    NoCommandInput,
}

/// The acknowledgement that a pressed button gets.
pub struct CallbackAnswer {
    pub callback_query_id: String,
    pub text: String,
    pub show_alert: bool,
}

/// An extraction as plain values.
pub type Outcome = Result<(i64, Seq<char>, Seq<char>), ExtractError>;

/// The text of an optional text, empty where there is none.
pub open spec fn opt_text(t: Option<String>) -> Seq<char> {
    match t {
        Some(s) => s@,
        None => Seq::empty(),
    }
}

/// The command inside a bracketed reply text such as "[/update a~b~]": the
/// second piece when the text is split at '[' and ']'.
pub open spec fn bracketed_command(text: Seq<char>) -> Seq<char> {
    split_pieces(text, seq!['[', ']'])[1]
}

/// What a pressed button gives.
pub open spec fn callback_outcome(cb: CallbackQuery) -> Outcome {
    match cb.message_chat_id {
        None => Err(ExtractError::InaccessibleMessage),
        Some(chat_id) => {
            let input = opt_text(cb.data);
            if !starts_with_char(input, '/') {
                Err(ExtractError::NotABotCommand)
            } else {
                match split_once_spec(input, ' ') {
                    Some((command, args)) => Ok((chat_id, command, args)),
                    None => Ok((chat_id, input, input)),
                }
            }
        },
    }
}

/// Whether reading a pressed button fails outright.
pub open spec fn callback_panics(cb: CallbackQuery) -> bool {
    cb.message_chat_id is Some && cb.data is None
}

/// What a message gives: for a reply to a bracketed prompt, the command in
/// the brackets with the reply's text appended to its arguments; for another
/// reply, the replied-to text as command and as arguments; for a plain
/// message, its first word as command and its second word as arguments.
pub open spec fn message_outcome(m: Message) -> Outcome {
    match m.reply_to_message {
        Some(r) => {
            let input = opt_text(r.text);
            if starts_with_char(input, '[') {
                let cmd = bracketed_command(input);
                if !starts_with_char(cmd, '/') {
                    Err(ExtractError::NotABotCommand)
                } else {
                    let parts = split_once_spec(cmd, ' ').unwrap();
                    Ok((m.chat_id, parts.0, parts.1 + opt_text(m.text)))
                }
            } else if !starts_with_char(input, '/') {
                Err(ExtractError::NotABotCommand)
            } else {
                Ok((m.chat_id, input, input))
            }
        },
        None => {
            let input = opt_text(m.text);
            if !starts_with_char(input, '/') {
                Err(ExtractError::NotABotCommand)
            } else {
                let words = split_pieces(input, seq![' ']);
                Ok(
                    (
                        m.chat_id,
                        words[0],
                        if words.len() > 1 {
                            words[1]
                        } else {
                            Seq::empty()
                        },
                    ),
                )
            }
        },
    }
}

/// Whether reading a message fails outright.
pub open spec fn message_panics(m: Message) -> bool {
    match m.reply_to_message {
        Some(r) => {
            ||| r.text is None
            ||| {
                let input = opt_text(r.text);
                let cmd = bracketed_command(input);
                &&& starts_with_char(input, '[')
                &&& starts_with_char(cmd, '/')
                &&& split_once_spec(cmd, ' ') is None
            }
        },
        None => m.text is None,
    }
}

/// What an update gives: a pressed button takes precedence over a message.
pub open spec fn extract_outcome(u: Update) -> Outcome {
    match u.callback_query {
        Some(cb) => callback_outcome(cb),
        None => match u.message {
            Some(m) => message_outcome(m),
            None => Err(ExtractError::NoMessage),
        },
    }
}

/// Whether reading an update fails outright.
pub open spec fn extract_panics(u: Update) -> bool {
    match u.callback_query {
        Some(cb) => callback_panics(cb),
        None => match u.message {
            Some(m) => message_panics(m),
            None => false,
        },
    }
}

/// An extraction result as plain values.
pub open spec fn outcome_of(r: Result<ExtractedCommand, ExtractError>) -> Outcome {
    match r {
        Ok(c) => Ok((c.chat_id, c.command@, c.args@)),
        Err(e) => Err(e),
    }
}

/// The text that acknowledges a pressed button.
pub open spec fn callback_ack_text() -> Seq<char> {
    seq!['\u{2705}', ' '] + "Operation processing"@
}

impl ExtractError {
    /// The text that describes the error.
    pub fn message(&self) -> (s: String)
        ensures
            s@ == match self {
                ExtractError::InaccessibleMessage => "Callback query message is inaccessible"@,
                ExtractError::NotABotCommand => "Not a bot command"@,
                ExtractError::NoMessage => "No message or callback query found"@,
            },
    {
        match self {
            ExtractError::InaccessibleMessage => String::from_str(
                "Callback query message is inaccessible",
            ),
            ExtractError::NotABotCommand => String::from_str("Not a bot command"),
            ExtractError::NoMessage => String::from_str("No message or callback query found"),
        }
    }
}

impl ExtractPanic {
    /// The text that the failure reports.
    pub fn message(&self) -> (s: String)
        ensures
            s@ == match self {
                ExtractPanic::NoCallbackData => "No callback request specified"@,
                ExtractPanic::NoRepliedText => "No original message for reply"@,
                ExtractPanic::IncorrectCommand(cmd) => "Incorrect command: "@ + cmd@,
                ExtractPanic::NoCommandInput => "No command input"@,
            },
    {
        match self {
            ExtractPanic::NoCallbackData => String::from_str("No callback request specified"),
            ExtractPanic::NoRepliedText => String::from_str("No original message for reply"),
            ExtractPanic::IncorrectCommand(cmd) => {
                let mut s = String::from_str("Incorrect command: ");
                s.append(cmd.as_str());
                s
            },
            ExtractPanic::NoCommandInput => String::from_str("No command input"),
        }
    }
}

/// The acknowledgement to send before reading the command, for an update
/// that is a pressed button.
pub fn callback_answer(update: &Update) -> (res: Option<CallbackAnswer>)
    ensures
        match update.callback_query {
            Some(cb) => res matches Some(a) && a.callback_query_id@ == cb.id@ && a.text@
                == callback_ack_text() && !a.show_alert,
            None => res is None,
        },
{
    match &update.callback_query {
        Some(cb) => {
            let mut text = String::from_str("\u{2705} ");
            text.append("Operation processing");
            proof {
                reveal_strlit("\u{2705} ");
                assert(seq!['\u{2705}', ' '] =~= "\u{2705} "@);
            }
            Some(CallbackAnswer { callback_query_id: cb.id.clone(), text, show_alert: false })
        },
        None => None,
    }
}

/// The bracketed command of a reply text that begins with '['.
fn read_bracketed_command(input: &String) -> (cmd: String)
    requires
        starts_with_char(input@, '['),
    ensures
        cmd@ == bracketed_command(input@),
{
    let seps: [char; 2] = ['[', ']'];
    let pieces = split(input.as_str(), &seps);
    proof {
        assert(seps@ =~= seq!['[', ']']);
        assert(seps@.contains('[')) by {
            assert(seps@[0] == '[');
        }
        lemma_split_leading_separator(input@, seps@);
    }
    pieces[1].clone()
}

/// Whether reading `update` fails outright, and why.
pub fn extract_panic(update: &Update) -> (res: Option<ExtractPanic>)
    ensures
        res is Some <==> extract_panics(*update),
        (res matches Some(ExtractPanic::NoCallbackData)) <==> (update.callback_query matches Some(
            cb,
        ) && callback_panics(cb)),
        (res matches Some(ExtractPanic::NoRepliedText)) <==> (update.callback_query is None && (
        update.message matches Some(m) && m.reply_to_message matches Some(r) && r.text is None)),
        (res matches Some(ExtractPanic::NoCommandInput)) <==> (update.callback_query is None && (
        update.message matches Some(m) && m.reply_to_message is None && m.text is None)),
        res matches Some(ExtractPanic::IncorrectCommand(cmd)) ==> update.message matches Some(m)
            && m.reply_to_message matches Some(r) && cmd@ == bracketed_command(opt_text(r.text)),
{
    match &update.callback_query {
        Some(cb) => {
            if cb.message_chat_id.is_some() && cb.data.is_none() {
                Some(ExtractPanic::NoCallbackData)
            } else {
                None
            }
        },
        None => match &update.message {
            None => None,
            Some(m) => match &m.reply_to_message {
                Some(r) => match &r.text {
                    None => Some(ExtractPanic::NoRepliedText),
                    Some(input) => {
                        if starts_with(input.as_str(), '[') {
                            let cmd = read_bracketed_command(input);
                            if starts_with(cmd.as_str(), '/') && split_once(cmd.as_str(), ' ').is_none() {
                                Some(ExtractPanic::IncorrectCommand(cmd))
                            } else {
                                None
                            }
                        } else {
                            None
                        }
                    },
                },
                None => {
                    if m.text.is_none() {
                        Some(ExtractPanic::NoCommandInput)
                    } else {
                        None
                    }
                },
            },
        },
    }
}

/// The command of a pressed button.
fn extract_from_callback(cb: &CallbackQuery) -> (res: Result<ExtractedCommand, ExtractError>)
    requires
        !callback_panics(*cb),
    ensures
        outcome_of(res) == callback_outcome(*cb),
{
    let chat_id = match cb.message_chat_id {
        Some(id) => id,
        None => {
            return Err(ExtractError::InaccessibleMessage);
        },
    };
    let input = cb.data.as_ref().unwrap();
    if !starts_with(input.as_str(), '/') {
        return Err(ExtractError::NotABotCommand);
    }
    match split_once(input.as_str(), ' ') {
        Some((command, args)) => Ok(ExtractedCommand { chat_id, command, args }),
        None => Ok(ExtractedCommand { chat_id, command: input.clone(), args: input.clone() }),
    }
}

/// The command of a message.
fn extract_from_message(m: &Message) -> (res: Result<ExtractedCommand, ExtractError>)
    requires
        !message_panics(*m),
    ensures
        outcome_of(res) == message_outcome(*m),
{
    match &m.reply_to_message {
        Some(r) => {
            let input = r.text.as_ref().unwrap();
            if starts_with(input.as_str(), '[') {
                let cmd = read_bracketed_command(input);
                if !starts_with(cmd.as_str(), '/') {
                    return Err(ExtractError::NotABotCommand);
                }
                let (command, mut args) = split_once(cmd.as_str(), ' ').unwrap();
                match &m.text {
                    Some(t) => args.append(t.as_str()),
                    None => {
                        proof {
                            assert(args@ + opt_text(m.text) =~= args@);
                        }
                    },
                }
                Ok(ExtractedCommand { chat_id: m.chat_id, command, args })
            } else if !starts_with(input.as_str(), '/') {
                Err(ExtractError::NotABotCommand)
            } else {
                Ok(
                    ExtractedCommand {
                        chat_id: m.chat_id,
                        command: input.clone(),
                        args: input.clone(),
                    },
                )
            }
        },
        None => {
            let input = m.text.as_ref().unwrap();
            if !starts_with(input.as_str(), '/') {
                return Err(ExtractError::NotABotCommand);
            }
            let seps: [char; 1] = [' '];
            let words = split(input.as_str(), &seps);
            proof {
                assert(seps@ =~= seq![' ']);
                lemma_split_pieces_len(input@, seps@);
            }
            let command = words[0].clone();
            let args = if words.len() > 1 {
                words[1].clone()
            } else {
                String::new()
            };
            Ok(ExtractedCommand { chat_id: m.chat_id, command, args })
        },
    }
}

/// The bot command that `update` carries: the chat to answer in, the
/// command name and its arguments, or why there is none. A command read out
/// of an update always starts with '/'.
pub fn extract_request(update: &Update) -> (res: Result<ExtractedCommand, ExtractError>)
    requires
        !extract_panics(*update),
    ensures
        outcome_of(res) == extract_outcome(*update),
        res matches Ok(c) ==> starts_with_char(c.command@, '/'),
{
    proof {
        lemma_extracted_command_is_bot_command(*update);
    }
    match &update.callback_query {
        Some(cb) => extract_from_callback(cb),
        None => match &update.message {
            Some(m) => extract_from_message(m),
            None => Err(ExtractError::NoMessage),
        },
    }
}

/// The text before the first `c` of a text that starts with a character
/// other than `c` starts with that same character.
proof fn lemma_split_once_keeps_start(s: Seq<char>, c: char, first: char)
    requires
        starts_with_char(s, first),
        first != c,
        split_once_spec(s, c) is Some,
    ensures
        starts_with_char(split_once_spec(s, c).unwrap().0, first),
{
    let i = choose|i: int| is_first_occurrence(s, c, i);
    assert(is_first_occurrence(s, c, i));
    assert(i != 0);
    assert(s.take(i)[0] == s[0]);
}

/// The first piece of a text that starts with a non-separator starts with
/// that same character.
proof fn lemma_first_piece_keeps_start(s: Seq<char>, seps: Seq<char>, first: char)
    requires
        starts_with_char(s, first),
        !seps.contains(first),
    ensures
        starts_with_char(split_pieces(s, seps)[0], first),
    decreases s.len(),
{
    lemma_split_pieces_len(s, seps);
    if s.len() == 1 {
        assert(s.drop_last() =~= Seq::<char>::empty());
        assert(split_pieces(s.drop_last(), seps) =~= seq![Seq::<char>::empty()]);
        assert(split_pieces(s, seps)[0] =~= seq![s[0]]);
    } else {
        let t = s.drop_last();
        assert(t[0] == s[0]);
        lemma_first_piece_keeps_start(t, seps, first);
        lemma_split_pieces_len(t, seps);
        if !seps.contains(s.last()) && split_pieces(t, seps).len() == 1 {
            assert(split_pieces(s, seps)[0] == split_pieces(t, seps)[0].push(s.last()));
        }
    }
}

/// Every command read out of an update (one that the reading does not fail
/// on outright) is a bot command: it starts with '/'.
pub proof fn lemma_extracted_command_is_bot_command(u: Update)
    requires
        !extract_panics(u),
    ensures
        extract_outcome(u) matches Ok((chat_id, command, args)) ==> starts_with_char(command, '/'),
{
    match u.callback_query {
        Some(cb) => {
            let input = opt_text(cb.data);
            if cb.message_chat_id is Some && starts_with_char(input, '/') {
                if split_once_spec(input, ' ') is Some {
                    lemma_split_once_keeps_start(input, ' ', '/');
                }
            }
        },
        None => match u.message {
            Some(m) => match m.reply_to_message {
                Some(r) => {
                    let input = opt_text(r.text);
                    let cmd = bracketed_command(input);
                    if starts_with_char(input, '[') && starts_with_char(cmd, '/') && split_once_spec(
                        cmd,
                        ' ',
                    ) is Some {
                        lemma_split_once_keeps_start(cmd, ' ', '/');
                    }
                },
                None => {
                    let input = opt_text(m.text);
                    if starts_with_char(input, '/') {
                        lemma_first_piece_keeps_start(input, seq![' '], '/');
                    }
                },
            },
            None => {},
        },
    }
}

/// A pressed button decides the command alone: the message beside it does
/// not matter.
pub proof fn lemma_callback_takes_precedence(u: Update, v: Update)
    requires
        u.callback_query is Some,
        u.callback_query == v.callback_query,
    ensures
        extract_outcome(u) == extract_outcome(v),
        extract_panics(u) == extract_panics(v),
{
}

} // verus!
