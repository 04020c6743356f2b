//! What the bot's conversations achieve across several updates: the command
//! table that `init` builds, and the button presses and replies that list,
//! create, edit and delete items.
use vstd::prelude::*;

use crate::commands::{resolvable, resolve};
use crate::handlers::{
    handleable, item_message_view,
    arg_pieces, create_prompt_text, delete_action, delete_args_ok, delete_callback_data,
    edit_callback_data, update_action, update_args_ok, update_prompt_text, with_bot_commands,
    write_then_report, Command, RequestView, CREATE_CALLBACK_TEXT, UPDATE_CALLBACK_TEXT,
};
use crate::text::{
    starts_with_char,
    is_first_occurrence, lemma_split_concat_separator, lemma_split_no_separator,
    lemma_split_once_at, split_once_spec, split_pieces,
};
use crate::update::{
    extract_outcome, extract_panics, Update,
    bracketed_command, callback_outcome, callback_panics, message_outcome, message_panics,
    opt_text, CallbackQuery, Message, Outcome,
};

verus! {

/// The handler that the table built by `init` gives for a command name.
pub open spec fn bot_command_for(name: Seq<char>) -> Command {
    if name == "/start"@ {
        Command::Start
    } else if name == "/get_all"@ {
        Command::GetAll
    } else if name == "/create_callback"@ {
        Command::CreateCallback
    } else if name == "/create"@ {
        Command::Create
    } else if name == "/update_callback"@ {
        Command::UpdateCallback
    } else if name == "/update"@ {
        Command::Update
    } else if name == "/delete"@ {
        Command::Delete
    } else {
        Command::Unknown
    }
}

/// After `init` on an empty table, every command name finds a handler: each
/// of the bot's commands its own, and any other name the "/unknown" one.
pub proof fn lemma_init_table_resolves(name: Seq<char>)
    ensures
        resolvable(with_bot_commands(Map::empty()), name),
        resolve(with_bot_commands(Map::empty()), name) == bot_command_for(name),
{
    reveal_strlit("/start");
    reveal_strlit("/get_all");
    reveal_strlit("/create_callback");
    reveal_strlit("/create");
    reveal_strlit("/update_callback");
    reveal_strlit("/update");
    reveal_strlit("/delete");
    reveal_strlit("/unknown");
    assert(crate::commands::unknown_command_name() =~= "/unknown"@);
    let names = seq![
        "/start"@,
        "/get_all"@,
        "/create_callback"@,
        "/create"@,
        "/update_callback"@,
        "/update"@,
        "/delete"@,
        "/unknown"@,
    ];
    assert forall|i: int, j: int| 0 <= i < j < 8 implies names[i] != names[j] by {
        assert(names[i].len() != names[j].len() || names[i][2] != names[j][2] || names[i][3]
            != names[j][3]);
    }
}

/// Whether `s` holds neither '[' nor ']'.
pub open spec fn bracket_free(s: Seq<char>) -> bool {
    !s.contains('[') && !s.contains(']')
}

/// A text without '~' is one argument piece.
proof fn lemma_tilde_free_piece(s: Seq<char>)
    requires
        !s.contains('~'),
    ensures
        arg_pieces(s) == seq![s],
{
    assert forall|i: int| 0 <= i < s.len() implies !seq!['~'].contains(#[trigger] s[i]) by {
        if seq!['~'].contains(s[i]) {
            assert(seq!['~'][0] == '~');
            assert(s[i] == '~');
            assert(s.contains('~'));
        }
    }
    lemma_split_no_separator(s, seq!['~']);
}

/// Two tilde-free texts joined by '~' are two argument pieces.
proof fn lemma_two_pieces(a: Seq<char>, b: Seq<char>)
    requires
        !a.contains('~'),
        !b.contains('~'),
    ensures
        arg_pieces(a + "~"@ + b) == seq![a, b],
{
    reveal_strlit("~");
    assert("~"@ =~= seq!['~']);
    assert(seq!['~'].contains('~')) by {
        assert(seq!['~'][0] == '~');
    }
    lemma_split_concat_separator(a, '~', b, seq!['~']);
    lemma_tilde_free_piece(a);
    lemma_tilde_free_piece(b);
    assert(seq![a] + seq![b] =~= seq![a, b]);
}

/// Three tilde-free texts joined by '~' are three argument pieces.
proof fn lemma_three_pieces(a: Seq<char>, b: Seq<char>, c: Seq<char>)
    requires
        !a.contains('~'),
        !b.contains('~'),
        !c.contains('~'),
    ensures
        arg_pieces(a + "~"@ + b + "~"@ + c) == seq![a, b, c],
{
    reveal_strlit("~");
    assert("~"@ =~= seq!['~']);
    assert(seq!['~'].contains('~')) by {
        assert(seq!['~'][0] == '~');
    }
    let rest = b + "~"@ + c;
    assert(a + "~"@ + b + "~"@ + c =~= a + seq!['~'] + rest);
    lemma_split_concat_separator(a, '~', rest, seq!['~']);
    lemma_tilde_free_piece(a);
    lemma_two_pieces(b, c);
    assert(seq![a] + seq![b, c] =~= seq![a, b, c]);
}

/// A text made of a command name without spaces, a space and arguments is
/// cut after the name.
proof fn lemma_cut_after_name(name: Seq<char>, args: Seq<char>)
    requires
        !name.contains(' '),
    ensures
        split_once_spec(name + seq![' '] + args, ' ') == Some((name, args)),
{
    let s = name + seq![' '] + args;
    let i = name.len() as int;
    assert forall|j: int| 0 <= j < i implies s[j] != ' ' by {
        assert(s[j] == name[j]);
        if name[j] == ' ' {
            assert(name.contains(' '));
        }
    }
    assert(is_first_occurrence(s, ' ', i));
    lemma_split_once_at(s, ' ', i);
    assert(s.take(i) =~= name);
    assert(s.skip(i + 1) =~= args);
}

/// Pressing an item's "Delete item" button removes that item, where its keys
/// hold no '~': the press reads as "/delete" with the keys as arguments, and
/// "/delete" asks for the removal of the item with those keys.
pub proof fn lemma_delete_button_removes_item(
    chat_id: i64,
    pk: Seq<char>,
    sk: Seq<char>,
    cb: CallbackQuery,
)
    requires
        cb.message_chat_id == Some(chat_id),
        cb.data matches Some(d) && d@ == delete_callback_data(pk, sk),
        !pk.contains('~'),
        !sk.contains('~'),
    ensures
        !callback_panics(cb),
        callback_outcome(cb) == Outcome::Ok((chat_id, "/delete"@, pk + "~"@ + sk)),
        resolve(with_bot_commands(Map::empty()), "/delete"@) == Command::Delete,
        delete_args_ok(pk + "~"@ + sk),
        delete_action(chat_id, pk + "~"@ + sk) == write_then_report(
            chat_id,
            RequestView::Remove(pk, sk),
            "Item deleted"@,
            "Error deleting item!"@,
        ),
{
    reveal_strlit("/delete ");
    reveal_strlit("/delete");
    reveal_strlit("~");
    let name = "/delete"@;
    let args = pk + "~"@ + sk;
    assert(!name.contains(' ')) by {
        assert forall|j: int| 0 <= j < name.len() implies name[j] != ' ' by {}
    }
    assert(delete_callback_data(pk, sk) =~= name + seq![' '] + args);
    lemma_cut_after_name(name, args);
    lemma_two_pieces(pk, sk);
    assert(args.len() > 0);
    lemma_init_table_resolves("/delete"@);
}

/// Pressing an item's "Edit item" button asks for its new text: the press
/// reads as "/update_callback" with the keys, each followed by '~', as
/// arguments.
pub proof fn lemma_edit_button_asks_for_text(
    chat_id: i64,
    pk: Seq<char>,
    sk: Seq<char>,
    cb: CallbackQuery,
)
    requires
        cb.message_chat_id == Some(chat_id),
        cb.data matches Some(d) && d@ == edit_callback_data(pk, sk),
    ensures
        !callback_panics(cb),
        callback_outcome(cb) == Outcome::Ok(
            (chat_id, "/update_callback"@, pk + "~"@ + sk + "~"@),
        ),
{
    reveal_strlit("/update_callback ");
    reveal_strlit("/update_callback");
    let name = "/update_callback"@;
    let args = pk + "~"@ + sk + "~"@;
    assert(!name.contains(' ')) by {
        assert forall|j: int| 0 <= j < name.len() implies name[j] != ' ' by {}
    }
    assert(edit_callback_data(pk, sk) =~= name + seq![' '] + args);
    lemma_cut_after_name(name, args);
}

/// The command inside a prompt "[cmd]rest" whose command holds no bracket.
proof fn lemma_bracketed(cmd: Seq<char>, rest: Seq<char>)
    requires
        bracket_free(cmd),
    ensures
        bracketed_command(seq!['['] + cmd + seq![']'] + rest) == cmd,
{
    let seps = seq!['[', ']'];
    assert(seps.contains('[')) by {
        assert(seps[0] == '[');
    }
    assert(seps.contains(']')) by {
        assert(seps[1] == ']');
    }
    let t = seq!['['] + cmd + seq![']'] + rest;
    let e = Seq::<char>::empty();
    assert(t =~= e + seq!['['] + (cmd + seq![']'] + rest));
    lemma_split_concat_separator(e, '[', cmd + seq![']'] + rest, seps);
    lemma_split_concat_separator(cmd, ']', rest, seps);
    assert forall|i: int| 0 <= i < cmd.len() implies !seps.contains(#[trigger] cmd[i]) by {
        if seps.contains(cmd[i]) {
            let k = choose|k: int| 0 <= k < seps.len() && seps[k] == cmd[i];
            if k == 0 {
                assert(cmd.contains('['));
            } else {
                assert(cmd.contains(']'));
            }
        }
    }
    lemma_split_no_separator(cmd, seps);
    assert(split_pieces(e, seps) =~= seq![e]);
}

/// A reply to the prompt of "/update_callback" for the arguments `args`
/// reads as "/update" with `args` followed by the reply's text.
pub proof fn lemma_reply_to_update_prompt(args: Seq<char>, m: Message)
    requires
        m.reply_to_message matches Some(r) && r.text matches Some(t) && t@ == update_prompt_text(
            args,
        ),
        bracket_free(args),
    ensures
        !message_panics(m),
        message_outcome(m) == Outcome::Ok((m.chat_id, "/update"@, args + opt_text(m.text))),
{
    reveal_strlit("[/update ");
    reveal_strlit("/update");
    reveal_strlit("]\n\n");
    let name = "/update"@;
    let cmd = name + seq![' '] + args;
    let rest = seq!['\n', '\n'] + UPDATE_CALLBACK_TEXT@;
    assert(update_prompt_text(args) =~= seq!['['] + cmd + seq![']'] + rest);
    assert(!name.contains(' ')) by {
        assert forall|j: int| 0 <= j < name.len() implies name[j] != ' ' by {}
    }
    assert(bracket_free(cmd)) by {
        assert forall|j: int| 0 <= j < cmd.len() implies cmd[j] != '[' && cmd[j] != ']' by {
            if j >= name.len() + 1 {
                assert(cmd[j] == args[j - name.len() - 1]);
                if cmd[j] == '[' {
                    assert(args.contains('['));
                }
                if cmd[j] == ']' {
                    assert(args.contains(']'));
                }
            }
        }
    }
    lemma_bracketed(cmd, rest);
    lemma_cut_after_name(name, args);
}

/// A reply to the prompt of "/create_callback" reads as "/create" with the
/// reply's text as arguments.
pub proof fn lemma_reply_to_create_prompt(m: Message)
    requires
        m.reply_to_message matches Some(r) && r.text matches Some(t) && t@ == create_prompt_text(),
    ensures
        !message_panics(m),
        message_outcome(m) == Outcome::Ok((m.chat_id, "/create"@, opt_text(m.text))),
        resolve(with_bot_commands(Map::empty()), "/create"@) == Command::Create,
{
    lemma_init_table_resolves("/create"@);
    reveal_strlit("[/create ]\n\n");
    reveal_strlit("/create");
    let name = "/create"@;
    let cmd = name + seq![' '];
    let rest = seq!['\n', '\n'] + CREATE_CALLBACK_TEXT@;
    assert(create_prompt_text() =~= seq!['['] + cmd + seq![']'] + rest);
    assert(!name.contains(' ')) by {
        assert forall|j: int| 0 <= j < name.len() implies name[j] != ' ' by {}
    }
    assert(bracket_free(cmd)) by {
        assert forall|j: int| 0 <= j < cmd.len() implies cmd[j] != '[' && cmd[j] != ']' by {}
    }
    lemma_bracketed(cmd, rest);
    lemma_cut_after_name(name, Seq::empty());
    assert(cmd =~= name + seq![' '] + Seq::<char>::empty());
    assert(Seq::<char>::empty() + opt_text(m.text) =~= opt_text(m.text));
}

/// "/update" with keys and a text joined by '~' writes that text under those
/// keys, where none of them holds a '~'.
pub proof fn lemma_update_writes_item(chat_id: i64, pk: Seq<char>, sk: Seq<char>, text: Seq<char>)
    requires
        !pk.contains('~'),
        !sk.contains('~'),
        !text.contains('~'),
    ensures
        update_args_ok(pk + "~"@ + sk + "~"@ + text),
        update_action(chat_id, pk + "~"@ + sk + "~"@ + text) == write_then_report(
            chat_id,
            RequestView::Put(pk, sk, text),
            "Item updated"@,
            "Error updating item!"@,
        ),
{
    reveal_strlit("~");
    lemma_three_pieces(pk, sk, text);
    assert((pk + "~"@ + sk + "~"@ + text).len() > 0);
}

/// Editing an item from its message: the "Edit item" button asks for a
/// text, and a reply to that prompt writes the reply's text under the item's
/// keys, where the keys hold none of '~', '[' and ']' and the text holds no
/// '~'.
pub proof fn lemma_edit_flow(chat_id: i64, pk: Seq<char>, sk: Seq<char>, cb: CallbackQuery, m: Message)
    requires
        cb.message_chat_id == Some(chat_id),
        cb.data matches Some(d) && d@ == edit_callback_data(pk, sk),
        m.reply_to_message matches Some(r) && r.text matches Some(t) && t@ == update_prompt_text(
            pk + "~"@ + sk + "~"@,
        ),
        !pk.contains('~') && bracket_free(pk),
        !sk.contains('~') && bracket_free(sk),
        !opt_text(m.text).contains('~'),
    ensures
        callback_outcome(cb) == Outcome::Ok(
            (chat_id, "/update_callback"@, pk + "~"@ + sk + "~"@),
        ),
        resolve(with_bot_commands(Map::empty()), "/update_callback"@) == Command::UpdateCallback,
        resolve(with_bot_commands(Map::empty()), "/update"@) == Command::Update,
        message_outcome(m) == Outcome::Ok(
            (m.chat_id, "/update"@, pk + "~"@ + sk + "~"@ + opt_text(m.text)),
        ),
        update_action(m.chat_id, pk + "~"@ + sk + "~"@ + opt_text(m.text)) == write_then_report(
            m.chat_id,
            RequestView::Put(pk, sk, opt_text(m.text)),
            "Item updated"@,
            "Error updating item!"@,
        ),
{
    reveal_strlit("~");
    let args = pk + "~"@ + sk + "~"@;
    assert(bracket_free(args)) by {
        assert forall|j: int| 0 <= j < args.len() implies args[j] != '[' && args[j] != ']' by {
            if j < pk.len() {
                assert(args[j] == pk[j]);
                if args[j] == '[' {
                    assert(pk.contains('['));
                }
                if args[j] == ']' {
                    assert(pk.contains(']'));
                }
            } else if pk.len() + 1 <= j < pk.len() + 1 + sk.len() {
                assert(args[j] == sk[j - pk.len() - 1]);
                if args[j] == '[' {
                    assert(sk.contains('['));
                }
                if args[j] == ']' {
                    assert(sk.contains(']'));
                }
            }
        }
    }
    lemma_edit_button_asks_for_text(chat_id, pk, sk, cb);
    lemma_reply_to_update_prompt(args, m);
    lemma_update_writes_item(m.chat_id, pk, sk, opt_text(m.text));
    lemma_init_table_resolves("/update_callback"@);
    lemma_init_table_resolves("/update"@);
}

/// A text without spaces is one word.
proof fn lemma_one_word(s: Seq<char>)
    requires
        !s.contains(' '),
    ensures
        split_pieces(s, seq![' ']) == seq![s],
{
    assert forall|i: int| 0 <= i < s.len() implies !seq![' '].contains(#[trigger] s[i]) by {
        if seq![' '].contains(s[i]) {
            assert(seq![' '][0] == ' ');
            assert(s[i] == ' ');
            assert(s.contains(' '));
        }
    }
    lemma_split_no_separator(s, seq![' ']);
}

/// A plain message (not a reply) reads as its first word, the command, with
/// its second word as the arguments, whatever follows them: for a text
/// `cmd` + " " + `word` + `tail` where `cmd` and `word` hold no space and
/// `tail` is empty or starts with a space, the command is `cmd` and the
/// arguments are exactly `word`, other characters such as '~' included.
pub proof fn lemma_plain_message_words(
    m: Message,
    cmd: Seq<char>,
    word: Seq<char>,
    tail: Seq<char>,
)
    requires
        m.reply_to_message is None,
        m.text matches Some(t) && t@ == cmd + seq![' '] + word + tail,
        starts_with_char(cmd, '/'),
        !cmd.contains(' '),
        !word.contains(' '),
        tail.len() == 0 || tail[0] == ' ',
    ensures
        !message_panics(m),
        message_outcome(m) == Outcome::Ok((m.chat_id, cmd, word)),
{
    let seps = seq![' '];
    assert(seps.contains(' ')) by {
        assert(seps[0] == ' ');
    }
    let input = opt_text(m.text);
    assert(input =~= cmd + seq![' '] + (word + tail));
    assert(starts_with_char(input, '/'));
    lemma_split_concat_separator(cmd, ' ', word + tail, seps);
    lemma_one_word(cmd);
    if tail.len() == 0 {
        assert(word + tail =~= word);
        lemma_one_word(word);
    } else {
        let rest = tail.drop_first();
        assert(word + tail =~= word + seq![' '] + rest);
        lemma_split_concat_separator(word, ' ', rest, seps);
        lemma_one_word(word);
    }
    let words = split_pieces(input, seps);
    assert(words.len() > 1);
    assert(words[0] == cmd);
    assert(words[1] == word);
}

/// A plain message of one word reads as that word with no arguments.
pub proof fn lemma_plain_message_one_word(m: Message, cmd: Seq<char>)
    requires
        m.reply_to_message is None,
        m.text matches Some(t) && t@ == cmd,
        starts_with_char(cmd, '/'),
        !cmd.contains(' '),
    ensures
        !message_panics(m),
        message_outcome(m) == Outcome::Ok((m.chat_id, cmd, Seq::<char>::empty())),
{
    lemma_one_word(cmd);
}

/// The listing of an item ends with its whole text, after "\ntext: ", and
/// starts with "pk: " and its partition key.
pub proof fn lemma_listing_shows_whole_text(chat_id: i64, pk: Seq<char>, sk: Seq<char>, text: Seq<char>)
    ensures
        ({
            let body = item_message_view(chat_id, pk, sk, text).1;
            &&& body.len() >= text.len() + 7
            &&& body.skip(body.len() - text.len() - 7) == seq!['\n', 't', 'e', 'x', 't', ':', ' '] + text
            &&& body.take(pk.len() + 4int) == seq!['p', 'k', ':', ' '] + pk
        }),
{
    reveal_strlit("pk: ");
    reveal_strlit("\nsk: ");
    reveal_strlit("\ntext: ");
    let body = item_message_view(chat_id, pk, sk, text).1;
    let head = "pk: "@ + pk + "\nsk: "@ + sk;
    assert(body =~= head + "\ntext: "@ + text);
    assert(body.skip(body.len() - text.len() - 7) =~= seq!['\n', 't', 'e', 'x', 't', ':', ' '] + text);
    assert(body.take(pk.len() + 4int) =~= seq!['p', 'k', ':', ' '] + pk);
}

/// Items with the same keys and different texts are listed with different
/// messages: the listing keeps all of an item's text.
pub proof fn lemma_listing_tells_texts_apart(
    chat_id: i64,
    pk: Seq<char>,
    sk: Seq<char>,
    t1: Seq<char>,
    t2: Seq<char>,
)
    requires
        item_message_view(chat_id, pk, sk, t1).1 == item_message_view(chat_id, pk, sk, t2).1,
    ensures
        t1 == t2,
{
    let head = "pk: "@ + pk + "\nsk: "@ + sk + "\ntext: "@;
    let b1 = item_message_view(chat_id, pk, sk, t1).1;
    let b2 = item_message_view(chat_id, pk, sk, t2).1;
    assert(b1 =~= head + t1);
    assert(b2 =~= head + t2);
    assert(b1.skip(head.len() as int) =~= t1);
    assert(b2.skip(head.len() as int) =~= t2);
}

/// The names of the bot's commands differ from each other.
proof fn lemma_bot_command_names_distinct()
    ensures
        ({
            let names = seq![
                "/start"@,
                "/get_all"@,
                "/create_callback"@,
                "/create"@,
                "/update_callback"@,
                "/update"@,
                "/delete"@,
                "/unknown"@,
            ];
            forall|i: int, j: int| 0 <= i < j < 8 ==> names[i] != names[j]
        }),
{
    reveal_strlit("/start");
    reveal_strlit("/get_all");
    reveal_strlit("/create_callback");
    reveal_strlit("/create");
    reveal_strlit("/update_callback");
    reveal_strlit("/update");
    reveal_strlit("/delete");
    reveal_strlit("/unknown");
    let names = seq![
        "/start"@,
        "/get_all"@,
        "/create_callback"@,
        "/create"@,
        "/update_callback"@,
        "/update"@,
        "/delete"@,
        "/unknown"@,
    ];
    assert forall|i: int, j: int| 0 <= i < j < 8 implies names[i] != names[j] by {
        assert(names[i].len() != names[j].len() || names[i][2] != names[j][2] || names[i][3]
            != names[j][3]);
    }
}

/// With the table that `init` builds, an update can be handled exactly when
/// reading it does not fail outright and, where it carries "/update" or
/// "/delete", the arguments have the pieces that command reads. Every other
/// command, known or not, is handled: unknown ones by "/unknown".
pub proof fn lemma_init_table_handles(u: Update)
    ensures
        handleable(with_bot_commands(Map::empty()), u) <==> (!extract_panics(u) && (extract_outcome(
            u,
        ) matches Ok((chat_id, name, args)) ==> (name == "/update"@ ==> update_args_ok(args)) && (
        name == "/delete"@ ==> delete_args_ok(args)))),
{
    lemma_bot_command_names_distinct();
    let names = seq![
        "/start"@,
        "/get_all"@,
        "/create_callback"@,
        "/create"@,
        "/update_callback"@,
        "/update"@,
        "/delete"@,
        "/unknown"@,
    ];
    assert(names[5] != names[0] && names[5] != names[1] && names[5] != names[2] && names[5]
        != names[3] && names[5] != names[4]);
    assert(names[6] != names[0] && names[6] != names[1] && names[6] != names[2] && names[6]
        != names[3] && names[6] != names[4] && names[6] != names[5]);
    match extract_outcome(u) {
        Ok((chat_id, name, args)) => {
            lemma_init_table_resolves(name);
        },
        Err(_) => {},
    }
}

} // verus!
