//! The bot's commands: what each one answers, and which change of the item
//! table it asks for.
use vstd::prelude::*;
use vstd::string::*;
use std::hash::{DefaultHasher, Hasher};
use vstd::std_specs::hash::DefaultHasherAdditionalSpecFns;
use std::time::{Duration, SystemTime, SystemTimeError};

use crate::commands::{get_command, put_command, resolvable, resolve, CommandRegistry};
use crate::update::{extract_outcome, extract_panics, extract_request, ExtractError, Update};
use crate::items::{string_attr, string_attribute, ItemSchema, StoredItem};
use crate::messages::{
    button, compose_message, keyboard_view, message_view, text_message, Button, MessageView,
    OutgoingMessage,
};
use crate::text::{decimal, decimal_string, split, split_pieces};

verus! {

/// The greeting of "/start".
pub const START_TEXT: &'static str = "Hello! with this bot you can show the list of items, edit or delete them";

/// The prompt for the text of a new item.
pub const CREATE_CALLBACK_TEXT: &'static str = "Please, reply to this message with the text you want to create";

/// The prompt for the new text of an item.
pub const UPDATE_CALLBACK_TEXT: &'static str = "Please, reply to this message with the text you want to update";

/// The answer to "/create" without a text.
pub const CREATE_INCORRECT_TEXT: &'static str = "Incorrect format. Please, send (brackets not needed, but semicolon's required): \"/create <text>\"";

/// The answer to "/update" without arguments.
pub const UPDATE_INCORRECT_TEXT: &'static str = "Incorrect format. Please, send (brackets not needed, but semicolon's required): \"/update <partition_key>;<sort_key>;<text>\"";

/// The answer to "/delete" without arguments.
pub const DELETE_INCORRECT_TEXT: &'static str = "Incorrect format. Please, send (brackets not needed, but semicolon's required): \"/delete <partition_key>;<sort_key>\"";

/// The handlers that commands can be registered with.
#[derive(PartialEq, Eq, Structural, Clone, Copy, Debug)]
pub enum Command {
    Start,
    GetAll,
    CreateCallback,
    Create,
    UpdateCallback,
    Update,
    Delete,
    Unknown,
}

/// A change of the item table.
pub enum StoreRequest {
    /// Write the item with these keys and this text, replacing any item with
    /// the same keys.
    Put { pk: String, sk: String, text: String },
    /// Remove the item with these keys.
    Remove { pk: String, sk: String },
}

/// What a command does once it has been read.
pub enum Action {
    /// Send this message.
    Reply(OutgoingMessage),
    /// Make this change, then send `on_success` if it succeeded and
    /// `on_failure` if it did not.
    Write { request: StoreRequest, on_success: OutgoingMessage, on_failure: OutgoingMessage },
    /// Send one message per item of the table (see `item_listing`).
    ListItems,
    /// The system clock reads earlier than the Unix epoch, so no new item
    /// can be stamped.
    ClockError,
}

/// A change of the item table as plain values.
pub enum RequestView {
    Put(Seq<char>, Seq<char>, Seq<char>),
    Remove(Seq<char>, Seq<char>),
}

/// An action as plain values.
pub enum ActionView {
    Reply(MessageView),
    Write(RequestView, MessageView, MessageView),
    ListItems,
    ClockError,
}

impl View for StoreRequest {
    type V = RequestView;

    open spec fn view(&self) -> RequestView {
        match self {
            StoreRequest::Put { pk, sk, text } => RequestView::Put(pk@, sk@, text@),
            StoreRequest::Remove { pk, sk } => RequestView::Remove(pk@, sk@),
        }
    }
}

impl View for Action {
    type V = ActionView;

    open spec fn view(&self) -> ActionView {
        match self {
            Action::Reply(m) => ActionView::Reply(m@),
            Action::Write { request, on_success, on_failure } => ActionView::Write(
                request@,
                on_success@,
                on_failure@,
            ),
            Action::ListItems => ActionView::ListItems,
            Action::ClockError => ActionView::ClockError,
        }
    }
}

/// A reply with a text and no buttons but, where asked, the one back to the
/// menu.
pub open spec fn plain_reply(chat_id: i64, text: Seq<char>, include_back_btn: bool) -> ActionView {
    ActionView::Reply(message_view(chat_id, text, Seq::empty(), include_back_btn))
}

/// A change followed by a confirmation or an error report, each with the
/// button back to the menu.
pub open spec fn write_then_report(
    chat_id: i64,
    request: RequestView,
    success: Seq<char>,
    failure: Seq<char>,
) -> ActionView {
    ActionView::Write(
        request,
        message_view(chat_id, success, Seq::empty(), true),
        message_view(chat_id, failure, Seq::empty(), true),
    )
}

/// The two buttons of the greeting.
pub open spec fn start_rows() -> Seq<Seq<(Seq<char>, Seq<char>)>> {
    seq![seq![("Show list"@, "/get_all"@), ("Create item"@, "/create_callback"@)]]
}

/// The callback data of an item's "Edit item" button.
pub open spec fn edit_callback_data(pk: Seq<char>, sk: Seq<char>) -> Seq<char> {
    "/update_callback "@ + pk + "~"@ + sk + "~"@
}

/// The callback data of an item's "Delete item" button.
pub open spec fn delete_callback_data(pk: Seq<char>, sk: Seq<char>) -> Seq<char> {
    "/delete "@ + pk + "~"@ + sk
}

/// The message that shows one item, with its edit and delete buttons.
pub open spec fn item_message_view(chat_id: i64, pk: Seq<char>, sk: Seq<char>, text: Seq<char>) -> MessageView {
    message_view(
        chat_id,
        "pk: "@ + pk + "\nsk: "@ + sk + "\ntext: "@ + text,
        seq![
            seq![
                ("Edit item"@, edit_callback_data(pk, sk)),
                ("Delete item"@, delete_callback_data(pk, sk)),
            ],
        ],
        true,
    )
}

/// The prompt that asks for the new text of the item that `args` names.
pub open spec fn update_prompt_text(args: Seq<char>) -> Seq<char> {
    "[/update "@ + args + "]\n\n"@ + UPDATE_CALLBACK_TEXT@
}

/// The prompt that asks for the text of a new item.
pub open spec fn create_prompt_text() -> Seq<char> {
    "[/create ]\n\n"@ + CREATE_CALLBACK_TEXT@
}

/// The pieces of a command's argument text, which '~' separates.
pub open spec fn arg_pieces(args: Seq<char>) -> Seq<Seq<char>> {
    split_pieces(args, seq!['~'])
}

/// "/update" reads three pieces of a non-empty argument text.
pub open spec fn update_args_ok(args: Seq<char>) -> bool {
    args.len() == 0 || arg_pieces(args).len() >= 3
}

/// "/delete" reads two pieces of a non-empty argument text.
pub open spec fn delete_args_ok(args: Seq<char>) -> bool {
    args.len() == 0 || arg_pieces(args).len() >= 2
}

/// What "/update" does with its argument text.
pub open spec fn update_action(chat_id: i64, args: Seq<char>) -> ActionView {
    if args.len() == 0 {
        plain_reply(chat_id, UPDATE_INCORRECT_TEXT@, true)
    } else {
        let p = arg_pieces(args);
        write_then_report(
            chat_id,
            RequestView::Put(p[0], p[1], p[2]),
            "Item updated"@,
            "Error updating item!"@,
        )
    }
}

/// What "/delete" does with its argument text.
pub open spec fn delete_action(chat_id: i64, args: Seq<char>) -> ActionView {
    if args.len() == 0 {
        plain_reply(chat_id, DELETE_INCORRECT_TEXT@, true)
    } else {
        let p = arg_pieces(args);
        write_then_report(
            chat_id,
            RequestView::Remove(p[0], p[1]),
            "Item deleted"@,
            "Error deleting item!"@,
        )
    }
}

/// The item that "/create" writes for a text, given the hash of the text
/// and the time in milliseconds since the Unix epoch: the hash and the time,
/// in decimal, are its keys.
pub open spec fn new_item_action(chat_id: i64, text: Seq<char>, key_hash: u64, millis: u128) -> ActionView {
    write_then_report(
        chat_id,
        RequestView::Put(decimal(key_hash as nat), decimal(millis as nat), text),
        "Item created"@,
        "Error creating item!"@,
    )
}

/// The state that `std::hash::DefaultHasher` is in after it has hashed a
/// `String` with the text `s`, from the state `before` (states as vstd
/// models them).
pub uninterp spec fn hashed_string_state(before: Seq<Seq<u8>>, s: Seq<char>) -> Seq<Seq<u8>>;

/// The partition key hash of a new item's text: what a fresh
/// `DefaultHasher` finishes with after hashing the text as a `String`.
pub open spec fn text_key_hash(text: Seq<char>) -> u64 {
    DefaultHasher::spec_finish(hashed_string_state(Seq::empty(), text))
}

/// What "/create" does with a non-empty text, given its hash and the clock
/// reading: the milliseconds since the Unix epoch, or `None` where the clock
/// reads earlier than the epoch.
pub open spec fn stamped_item_action(
    chat_id: i64,
    text: Seq<char>,
    key_hash: u64,
    reading: Option<u128>,
) -> ActionView {
    match reading {
        Some(millis) => new_item_action(chat_id, text, key_hash, millis),
        None => ActionView::ClockError,
    }
}

/// What "/create" may do with its argument text: answer an empty text with
/// the format reminder, else act on the text's hash and some clock reading
/// as `stamped_item_action` says.
pub open spec fn create_result(chat_id: i64, args: Seq<char>, action: ActionView) -> bool {
    if args.len() == 0 {
        action == plain_reply(chat_id, CREATE_INCORRECT_TEXT@, true)
    } else {
        exists|reading: Option<u128>|
            action == stamped_item_action(chat_id, args, text_key_hash(args), reading)
    }
}

/// `<String as std::hash::Hash>::hash` into `hasher`. Claimed: the hasher's
/// state afterwards is a function of its state before and of the text alone.
#[verifier::external_body]
fn hash_string(s: &String, hasher: &mut DefaultHasher)
    ensures
        final(hasher)@ == hashed_string_state(old(hasher)@, s@),
{
    std::hash::Hash::hash(s, hasher)
}

/// `std::time::SystemTime` as Verus sees it: nothing inside.
#[verifier::external_type_specification]
#[verifier::external_body]
pub struct ExSystemTime(SystemTime);

/// `std::time::SystemTimeError` as Verus sees it: nothing inside.
#[verifier::external_type_specification]
#[verifier::external_body]
pub struct ExSystemTimeError(SystemTimeError);

/// `SystemTime::now`: the clock's current reading. Nothing is claimed of it.
#[verifier::external_body]
fn clock_now() -> SystemTime {
    SystemTime::now()
}

/// `SystemTime::duration_since(std::time::UNIX_EPOCH)`: how long after the
/// epoch `t` lies, or an error where it lies before. Nothing is claimed of
/// the result.
#[verifier::external_body]
fn since_unix_epoch(t: &SystemTime) -> Result<Duration, SystemTimeError> {
    t.duration_since(std::time::UNIX_EPOCH)
}

/// `Duration::as_millis`: the whole milliseconds of `d`. Nothing is claimed
/// of the result, as Verus sees nothing inside a `Duration`.
#[verifier::external_body]
fn whole_millis(d: &Duration) -> u128 {
    d.as_millis()
}

/// "/unknown": tells the user that the command is not known.
pub fn unknown(chat_id: i64) -> (a: Action)
    ensures
        a@ == plain_reply(chat_id, "Unknown command"@, true),
{
    let m = text_message(chat_id, "Unknown command", true);
    Action::Reply(m)
}

/// "/start": the greeting, with buttons to show the list and to create an
/// item.
pub fn start(chat_id: i64) -> (a: Action)
    ensures
        a@ == ActionView::Reply(message_view(chat_id, START_TEXT@, start_rows(), false)),
{
    let mut row: Vec<Button> = Vec::new();
    row.push(button("Show list", "/get_all"));
    row.push(button("Create item", "/create_callback"));
    let mut rows: Vec<Vec<Button>> = Vec::new();
    rows.push(row);
    proof {
        assert(keyboard_view(rows@) =~= start_rows()) by {
            assert(rows@[0]@.map_values(|b: Button| b@) =~= start_rows()[0]);
        }
    }
    Action::Reply(compose_message(chat_id, START_TEXT, rows, false))
}

/// "/get_all": lists the items of the table.
pub fn get_all(_chat_id: i64) -> (a: Action)
    ensures
        a@ == ActionView::ListItems,
{
    Action::ListItems
}

/// The message that shows one item.
pub fn item_message(chat_id: i64, pk: &String, sk: &String, text: &String) -> (m: OutgoingMessage)
    ensures
        m@ == item_message_view(chat_id, pk@, sk@, text@),
{
    let mut body = String::from_str("pk: ");
    body.append(pk.as_str());
    body.append("\nsk: ");
    body.append(sk.as_str());
    body.append("\ntext: ");
    body.append(text.as_str());
    let mut edit = String::from_str("/update_callback ");
    edit.append(pk.as_str());
    edit.append("~");
    edit.append(sk.as_str());
    edit.append("~");
    let mut del = String::from_str("/delete ");
    del.append(pk.as_str());
    del.append("~");
    del.append(sk.as_str());
    let mut row: Vec<Button> = Vec::new();
    row.push(Button { text: String::from_str("Edit item"), callback_data: edit });
    row.push(Button { text: String::from_str("Delete item"), callback_data: del });
    let mut rows: Vec<Vec<Button>> = Vec::new();
    rows.push(row);
    let ghost expected = seq![
        seq![
            ("Edit item"@, edit_callback_data(pk@, sk@)),
            ("Delete item"@, delete_callback_data(pk@, sk@)),
        ],
    ];
    proof {
        assert(keyboard_view(rows@) =~= expected) by {
            assert(rows@[0]@.map_values(|b: Button| b@) =~= expected[0]);
        }
    }
    compose_message(chat_id, body.as_str(), rows, true)
}

/// The message that shows a listed item, where the item has string values
/// under all three attribute names of `schema`.
pub fn item_listing(chat_id: i64, item: &StoredItem, schema: &ItemSchema) -> (res: Option<
    OutgoingMessage,
>)
    ensures
        match res {
            Some(m) => string_attr(item.attributes@, schema.pk@) matches Some(pk) && string_attr(
                item.attributes@,
                schema.sk@,
            ) matches Some(sk) && string_attr(item.attributes@, schema.text@) matches Some(text)
                && m@ == item_message_view(chat_id, pk, sk, text),
            None => string_attr(item.attributes@, schema.pk@) is None || string_attr(
                item.attributes@,
                schema.sk@,
            ) is None || string_attr(item.attributes@, schema.text@) is None,
        },
{
    let pk = string_attribute(item, &schema.pk)?;
    let sk = string_attribute(item, &schema.sk)?;
    let text = string_attribute(item, &schema.text)?;
    Some(item_message(chat_id, &pk, &sk, &text))
}

/// How listing goes on after a page of items.
#[derive(PartialEq, Eq, Structural, Clone, Copy, Debug)]
pub enum ListingNext {
    /// The table has more items: scan the next page.
    NextPage,
    /// The scan is complete.
    Done,
    /// An item lacks a string value under one of the schema's names; listing
    /// cannot go on.
    MissingField,
}

/// The messages that one page of the table gives, in the order of its
/// items, and how listing goes on.
pub struct ListingPage {
    pub messages: Vec<OutgoingMessage>,
    pub next: ListingNext,
}

/// Whether an item has string values under all three names of `schema`.
pub open spec fn listable(item: StoredItem, schema: ItemSchema) -> bool {
    &&& string_attr(item.attributes@, schema.pk@) is Some
    &&& string_attr(item.attributes@, schema.sk@) is Some
    &&& string_attr(item.attributes@, schema.text@) is Some
}

/// The message that shows a listable item.
pub open spec fn listed_view(chat_id: i64, item: StoredItem, schema: ItemSchema) -> MessageView {
    item_message_view(
        chat_id,
        string_attr(item.attributes@, schema.pk@).unwrap(),
        string_attr(item.attributes@, schema.sk@).unwrap(),
        string_attr(item.attributes@, schema.text@).unwrap(),
    )
}

/// One step of "/get_all": the messages for a page of scanned items, one per
/// item and in order, up to the first item that cannot be shown; then stop
/// at such an item, go on to the next page where `more_pages` holds (the scan
/// returned a key to continue from), or finish.
pub fn listing_page(chat_id: i64, page: &Vec<StoredItem>, schema: &ItemSchema, more_pages: bool) -> (res: ListingPage)
    ensures
        res.messages@.len() <= page@.len(),
        forall|i: int| 0 <= i < res.messages@.len() ==> #[trigger] listable(page@[i], *schema),
        forall|i: int|
            0 <= i < res.messages@.len() ==> (#[trigger] res.messages@[i])@ == listed_view(
                chat_id,
                page@[i],
                *schema,
            ),
        res.messages@.len() < page@.len() ==> !listable(page@[res.messages@.len() as int], *schema),
        res.next == if res.messages@.len() < page@.len() {
            ListingNext::MissingField
        } else if more_pages {
            ListingNext::NextPage
        } else {
            ListingNext::Done
        },
{
    let mut messages: Vec<OutgoingMessage> = Vec::new();
    let mut i: usize = 0;
    while i < page.len()
        invariant
            i <= page@.len(),
            messages@.len() == i,
            forall|j: int| 0 <= j < i ==> #[trigger] listable(page@[j], *schema),
            forall|j: int|
                0 <= j < i ==> (#[trigger] messages@[j])@ == listed_view(chat_id, page@[j], *schema),
        decreases page@.len() - i,
    {
        match item_listing(chat_id, &page[i], schema) {
            Some(m) => {
                let ghost before = messages@;
                messages.push(m);
                proof {
                    assert(listable(page@[i as int], *schema));
                    assert(messages@[i as int]@ == listed_view(chat_id, page@[i as int], *schema));
                    assert forall|j: int| 0 <= j < i implies (#[trigger] messages@[j]) == before[j] by {}
                }
            },
            None => {
                return ListingPage { messages, next: ListingNext::MissingField };
            },
        }
        i = i + 1;
    }
    let next = if more_pages {
        ListingNext::NextPage
    } else {
        ListingNext::Done
    };
    ListingPage { messages, next }
}

/// "/create_callback": asks for the text of a new item, in a message that
/// names the command that a reply to it runs.
pub fn create_callback(chat_id: i64) -> (a: Action)
    ensures
        a@ == plain_reply(chat_id, create_prompt_text(), false),
{
    let mut text = String::from_str("[/create ]\n\n");
    text.append(CREATE_CALLBACK_TEXT);
    let m = text_message(chat_id, text.as_str(), false);
    Action::Reply(m)
}

/// The change that "/create" makes for a text, given its hash and the time.
pub fn new_item(chat_id: i64, args: &String, key_hash: u64, millis: u128) -> (a: Action)
    ensures
        a@ == new_item_action(chat_id, args@, key_hash, millis),
{
    let pk = decimal_string(key_hash as u128);
    let sk = decimal_string(millis);
    let ok = text_message(chat_id, "Item created", true);
    let err = text_message(chat_id, "Error creating item!", true);
    Action::Write {
        request: StoreRequest::Put { pk, sk, text: args.clone() },
        on_success: ok,
        on_failure: err,
    }
}

/// What "/create" does with a non-empty text, given its hash and the clock
/// reading (`None` where the clock reads earlier than the Unix epoch).
pub fn stamped_item(chat_id: i64, args: &String, key_hash: u64, reading: Option<u128>) -> (a: Action)
    ensures
        a@ == stamped_item_action(chat_id, args@, key_hash, reading),
{
    match reading {
        Some(millis) => new_item(chat_id, args, key_hash, millis),
        None => Action::ClockError,
    }
}

/// "/create": writes a new item with the argument text, keyed by the text's
/// hash and the current time in milliseconds.
pub fn create(chat_id: i64, args: &String) -> (a: Action)
    ensures
        create_result(chat_id, args@, a@),
{
    if args.as_str().is_empty() {
        let m = text_message(chat_id, CREATE_INCORRECT_TEXT, true);
        return Action::Reply(m);
    }
    let mut hasher = DefaultHasher::new();
    hash_string(args, &mut hasher);
    let key_hash = hasher.finish();
    let now = clock_now();
    let reading = match since_unix_epoch(&now) {
        Ok(elapsed) => Some(whole_millis(&elapsed)),
        Err(_) => None,
    };
    let a = stamped_item(chat_id, args, key_hash, reading);
    assert(a@ == stamped_item_action(chat_id, args@, text_key_hash(args@), reading));
    a
}

/// "/update_callback": asks for the new text of the item that `args` names
/// ("pk~sk~"), in a message that names the command that a reply to it runs.
pub fn update_callback(chat_id: i64, args: &String) -> (a: Action)
    ensures
        a@ == plain_reply(chat_id, update_prompt_text(args@), false),
{
    let mut text = String::from_str("[/update ");
    text.append(args.as_str());
    text.append("]\n\n");
    text.append(UPDATE_CALLBACK_TEXT);
    let m = text_message(chat_id, text.as_str(), false);
    Action::Reply(m)
}

/// "/update": writes the item whose keys and text are the first three
/// '~'-separated pieces of the argument text.
pub fn update(chat_id: i64, args: &String) -> (a: Action)
    requires
        update_args_ok(args@),
    ensures
        a@ == update_action(chat_id, args@),
{
    if args.as_str().is_empty() {
        return Action::Reply(text_message(chat_id, UPDATE_INCORRECT_TEXT, true));
    }
    let seps: [char; 1] = ['~'];
    let upd = split(args.as_str(), &seps);
    proof {
        assert(seps@ =~= seq!['~']);
    }
    let ok = text_message(chat_id, "Item updated", true);
    let err = text_message(chat_id, "Error updating item!", true);
    Action::Write {
        request: StoreRequest::Put { pk: upd[0].clone(), sk: upd[1].clone(), text: upd[2].clone() },
        on_success: ok,
        on_failure: err,
    }
}

/// "/delete": removes the item whose keys are the first two '~'-separated
/// pieces of the argument text.
pub fn delete(chat_id: i64, args: &String) -> (a: Action)
    requires
        delete_args_ok(args@),
    ensures
        a@ == delete_action(chat_id, args@),
{
    if args.as_str().is_empty() {
        return Action::Reply(text_message(chat_id, DELETE_INCORRECT_TEXT, true));
    }
    let seps: [char; 1] = ['~'];
    let dlt = split(args.as_str(), &seps);
    proof {
        assert(seps@ =~= seq!['~']);
    }
    let ok = text_message(chat_id, "Item deleted", true);
    let err = text_message(chat_id, "Error deleting item!", true);
    Action::Write {
        request: StoreRequest::Remove { pk: dlt[0].clone(), sk: dlt[1].clone() },
        on_success: ok,
        on_failure: err,
    }
}

/// Whether `cmd` can run with the argument text `args`.
pub open spec fn command_args_ok(cmd: Command, args: Seq<char>) -> bool {
    &&& cmd == Command::Update ==> update_args_ok(args)
    &&& cmd == Command::Delete ==> delete_args_ok(args)
}

/// Whether "/update" or "/delete", the handlers that read pieces of their
/// argument text, would find too few of them in `args`.
pub fn command_args_missing(cmd: Command, args: &String) -> (b: bool)
    ensures
        b == !command_args_ok(cmd, args@),
{
    match cmd {
        Command::Update | Command::Delete => {
            if args.as_str().is_empty() {
                return false;
            }
            let seps: [char; 1] = ['~'];
            let pieces = split(args.as_str(), &seps);
            proof {
                assert(seps@ =~= seq!['~']);
            }
            match cmd {
                Command::Update => pieces.len() < 3,
                _ => pieces.len() < 2,
            }
        },
        _ => false,
    }
}

/// What `cmd` does in `chat_id` with the argument text `args`.
pub open spec fn command_result(cmd: Command, chat_id: i64, args: Seq<char>, a: ActionView) -> bool {
    match cmd {
        Command::Start => a == ActionView::Reply(message_view(chat_id, START_TEXT@, start_rows(), false)),
        Command::GetAll => a == ActionView::ListItems,
        Command::CreateCallback => a == plain_reply(chat_id, create_prompt_text(), false),
        Command::Create => create_result(chat_id, args, a),
        Command::UpdateCallback => a == plain_reply(chat_id, update_prompt_text(args), false),
        Command::Update => a == update_action(chat_id, args),
        Command::Delete => a == delete_action(chat_id, args),
        Command::Unknown => a == plain_reply(chat_id, "Unknown command"@, true),
    }
}

/// Runs the handler `cmd` in `chat_id` with the argument text `args`.
pub fn run_command(cmd: Command, chat_id: i64, args: &String) -> (a: Action)
    requires
        command_args_ok(cmd, args@),
    ensures
        command_result(cmd, chat_id, args@, a@),
{
    match cmd {
        Command::Start => start(chat_id),
        Command::GetAll => get_all(chat_id),
        Command::CreateCallback => create_callback(chat_id),
        Command::Create => create(chat_id, args),
        Command::UpdateCallback => update_callback(chat_id, args),
        Command::Update => update(chat_id, args),
        Command::Delete => delete(chat_id, args),
        Command::Unknown => unknown(chat_id),
    }
}

/// The command table with the bot's commands registered in `m`.
pub open spec fn with_bot_commands(m: Map<Seq<char>, Command>) -> Map<Seq<char>, Command> {
    m.insert("/start"@, Command::Start).insert("/get_all"@, Command::GetAll).insert(
        "/create_callback"@,
        Command::CreateCallback,
    ).insert("/create"@, Command::Create).insert("/update_callback"@, Command::UpdateCallback).insert(
        "/update"@,
        Command::Update,
    ).insert("/delete"@, Command::Delete).insert("/unknown"@, Command::Unknown)
}

/// Registers the bot's commands: "/start", "/get_all", "/create_callback",
/// "/create", "/update_callback", "/update", "/delete" and "/unknown".
pub fn init(registry: &mut CommandRegistry<Command>)
    ensures
        final(registry)@ == with_bot_commands(old(registry)@),
{
    put_command(registry, "/start", Command::Start).unwrap();
    put_command(registry, "/get_all", Command::GetAll).unwrap();
    put_command(registry, "/create_callback", Command::CreateCallback).unwrap();
    put_command(registry, "/create", Command::Create).unwrap();
    put_command(registry, "/update_callback", Command::UpdateCallback).unwrap();
    put_command(registry, "/update", Command::Update).unwrap();
    put_command(registry, "/delete", Command::Delete).unwrap();
    put_command(registry, "/unknown", Command::Unknown).unwrap();
}

/// Whether an update can be handled with the command table `m`: reading it
/// does not fail outright, and the command it carries finds a handler that
/// can run with its arguments.
pub open spec fn handleable(m: Map<Seq<char>, Command>, u: Update) -> bool {
    &&& !extract_panics(u)
    &&& extract_outcome(u) matches Ok((chat_id, name, args)) ==> resolvable(m, name)
        && command_args_ok(resolve(m, name), args)
}

/// Whether handling `update` with `registry` would fail outright.
pub fn handling_fails(registry: &CommandRegistry<Command>, update: &Update) -> (b: bool)
    ensures
        b == !handleable(registry@, *update),
{
    if crate::update::extract_panic(update).is_some() {
        return true;
    }
    match extract_request(update) {
        Err(_) => false,
        Ok(c) => {
            if !crate::commands::has_handler(registry, c.command.as_str()) {
                return true;
            }
            let cmd = *get_command(registry, c.command.as_str());
            command_args_missing(cmd, &c.args)
        },
    }
}

/// Handles an update: reads the command it carries, looks up its handler in
/// `registry` and runs it, giving the chat and the action to perform, or
/// why the update carries no command.
pub fn handle_update(registry: &CommandRegistry<Command>, update: &Update) -> (res: Result<
    (i64, Action),
    ExtractError,
>)
    requires
        handleable(registry@, *update),
    ensures
        match extract_outcome(*update) {
            Err(e) => res == Err::<(i64, Action), ExtractError>(e),
            Ok((chat_id, name, args)) => res matches Ok((c, a)) && c == chat_id && command_result(
                resolve(registry@, name),
                chat_id,
                args,
                a@,
            ),
        },
{
    match extract_request(update) {
        Err(e) => Err(e),
        Ok(c) => {
            let cmd = *get_command(registry, c.command.as_str());
            Ok((c.chat_id, run_command(cmd, c.chat_id, &c.args)))
        },
    }
}

} // verus!
