//! Outgoing chat messages with their inline keyboards.
use vstd::prelude::*;
use vstd::string::*;

verus! {

/// An inline keyboard button: its label and the callback data that a press
/// sends back.
pub struct Button {
    pub text: String,
    pub callback_data: String,
}

/// A button as plain values: (label, callback data).
pub type ButtonView = (Seq<char>, Seq<char>);

/// A keyboard as plain values: rows of buttons.
pub type KeyboardView = Seq<Seq<ButtonView>>;

/// A message as plain values: (chat, text, keyboard).
pub type MessageView = (i64, Seq<char>, KeyboardView);

impl View for Button {
    type V = ButtonView;

    open spec fn view(&self) -> ButtonView {
        (self.text@, self.callback_data@)
    }
}

/// A message for the bot to send: the chat, the text, and the rows of the
/// inline keyboard under it.
pub struct OutgoingMessage {
    pub chat_id: i64,
    pub text: String,
    pub keyboard: Vec<Vec<Button>>,
}

/// Rows of buttons as plain values.
pub open spec fn keyboard_view(rows: Seq<Vec<Button>>) -> KeyboardView {
    rows.map_values(|row: Vec<Button>| row@.map_values(|b: Button| b@))
}

impl View for OutgoingMessage {
    type V = MessageView;

    open spec fn view(&self) -> MessageView {
        (self.chat_id, self.text@, keyboard_view(self.keyboard@))
    }
}

/// The row that leads back to the menu.
pub open spec fn back_row() -> Seq<ButtonView> {
    seq![("<< Back to menu"@, "/start"@)]
}

/// The keyboard of a message: the given rows, and the row back to the menu
/// last where it is asked for.
pub open spec fn with_back_row(rows: KeyboardView, include_back_btn: bool) -> KeyboardView {
    if include_back_btn {
        rows.push(back_row())
    } else {
        rows
    }
}

/// A message as plain values, from its parts.
pub open spec fn message_view(
    chat_id: i64,
    text: Seq<char>,
    rows: KeyboardView,
    include_back_btn: bool,
) -> MessageView {
    (chat_id, text, with_back_row(rows, include_back_btn))
}

/// A button with the given label and callback data.
pub fn button(text: &str, callback_data: &str) -> (b: Button)
    ensures
        b@ == (text@, callback_data@),
{
    Button { text: String::from_str(text), callback_data: String::from_str(callback_data) }
}

/// The message to send to `chat_id` with `text` and the rows of `buttons`,
/// followed by a row back to the menu when `include_back_btn` holds.
pub fn compose_message(
    chat_id: i64,
    text: &str,
    buttons: Vec<Vec<Button>>,
    include_back_btn: bool,
) -> (m: OutgoingMessage)
    ensures
        m@ == message_view(chat_id, text@, keyboard_view(buttons@), include_back_btn),
{
    let mut buttons = buttons;
    let ghost rows = buttons@;
    if include_back_btn {
        let mut start_btn: Vec<Button> = Vec::new();
        start_btn.push(button("<< Back to menu", "/start"));
        buttons.push(start_btn);
        proof {
            assert(keyboard_view(buttons@) =~= keyboard_view(rows).push(back_row())) by {
                assert(start_btn@.map_values(|b: Button| b@) =~= back_row());
            }
        }
    }
    OutgoingMessage { chat_id, text: String::from_str(text), keyboard: buttons }
}

/// The message to send to `chat_id` with `text` and no buttons but, when
/// `include_back_btn` holds, the row back to the menu.
pub fn text_message(chat_id: i64, text: &str, include_back_btn: bool) -> (m: OutgoingMessage)
    ensures
        m@ == message_view(chat_id, text@, Seq::empty(), include_back_btn),
{
    let m = compose_message(chat_id, text, Vec::new(), include_back_btn);
    assert(keyboard_view(Seq::<Vec<Button>>::empty()) =~= Seq::empty());
    m
}

} // verus!
