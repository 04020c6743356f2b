//! The command table: bot commands by name, with "/unknown" answering every
//! name that has no entry of its own.
use vstd::prelude::*;
use vstd::string::*;

verus! {

/// The name whose handler answers commands that have no entry of their own.
pub open spec fn unknown_command_name() -> Seq<char> {
    seq!['/', 'u', 'n', 'k', 'n', 'o', 'w', 'n']
}

/// The map that a list of (name, handler) entries stands for: a later entry
/// for a name hides the earlier ones.
pub open spec fn table_map<H>(es: Seq<(Seq<char>, H)>) -> Map<Seq<char>, H>
    decreases es.len(),
{
    if es.len() == 0 {
        Map::empty()
    } else {
        table_map(es.drop_last()).insert(es.last().0, es.last().1)
    }
}

/// The handler that a lookup of `name` gives in the table `m`: the entry of
/// `name`, or else the entry of "/unknown".
pub open spec fn resolve<H>(m: Map<Seq<char>, H>, name: Seq<char>) -> H {
    if m.contains_key(name) {
        m[name]
    } else {
        m[unknown_command_name()]
    }
}

/// Whether a lookup of `name` in `m` finds a handler (its own or "/unknown").
pub open spec fn resolvable<H>(m: Map<Seq<char>, H>, name: Seq<char>) -> bool {
    m.contains_key(name) || m.contains_key(unknown_command_name())
}

/// Entries at or after position `i` leave the table's entry of `k` as the
/// entries before `i` made it, when none of them is named `k`.
proof fn lemma_table_map_suffix_free<H>(es: Seq<(Seq<char>, H)>, k: Seq<char>, i: int)
    requires
        0 <= i <= es.len(),
        forall|j: int| i <= j < es.len() ==> es[j].0 != k,
    ensures
        table_map(es).contains_key(k) == table_map(es.take(i)).contains_key(k),
        table_map(es).contains_key(k) ==> table_map(es)[k] == table_map(es.take(i))[k],
    decreases es.len(),
{
    if i < es.len() {
        lemma_table_map_suffix_free(es.drop_last(), k, i);
        assert(es.drop_last().take(i) =~= es.take(i));
    } else {
        assert(es.take(i) =~= es);
    }
}

/// The table's entry of `k` is the handler of the last entry named `k`.
proof fn lemma_table_map_last_occurrence<H>(es: Seq<(Seq<char>, H)>, k: Seq<char>, i: int)
    requires
        0 <= i < es.len(),
        es[i].0 == k,
        forall|j: int| i < j < es.len() ==> es[j].0 != k,
    ensures
        table_map(es).contains_key(k),
        table_map(es)[k] == es[i].1,
{
    lemma_table_map_suffix_free(es, k, i + 1);
    let t = es.take(i + 1);
    assert(t.drop_last() =~= es.take(i));
    assert(t.last() == es[i]);
}

/// Replacing the handler of the last entry named `k` sets the table's entry
/// of `k` and leaves the others.
proof fn lemma_table_map_replace_last<H>(es: Seq<(Seq<char>, H)>, k: Seq<char>, i: int, f: H)
    requires
        0 <= i < es.len(),
        es[i].0 == k,
        forall|j: int| i < j < es.len() ==> es[j].0 != k,
    ensures
        table_map(es.update(i, (k, f))) =~= table_map(es).insert(k, f),
    decreases es.len(),
{
    let u = es.update(i, (k, f));
    if i == es.len() - 1 {
        assert(u.drop_last() =~= es.drop_last());
    } else {
        lemma_table_map_replace_last(es.drop_last(), k, i, f);
        assert(u.drop_last() =~= es.drop_last().update(i, (k, f)));
        assert(u.last() == es.last());
    }
}

/// `std::fmt::Error`, the error of the `fmt::Result` that registration
/// returns; Verus sees nothing inside it.
#[verifier::external_type_specification]
#[verifier::external_body]
pub struct ExFmtError(std::fmt::Error);

/// A table of bot commands, each name mapped to the handler registered last
/// under it.
pub struct CommandRegistry<H> {
    entries: Vec<(String, H)>,
}

impl<H> CommandRegistry<H> {
    /// The entries as plain values, in the order they are kept.
    pub closed spec fn entry_seq(&self) -> Seq<(Seq<char>, H)> {
        self.entries@.map_values(|e: (String, H)| (e.0@, e.1))
    }

    /// A table without entries.
    pub fn new() -> (r: Self)
        ensures
            r@ == Map::<Seq<char>, H>::empty(),
    {
        let r = CommandRegistry { entries: Vec::new() };
        assert(r.entry_seq() =~= Seq::<(Seq<char>, H)>::empty());
        r
    }

    /// The position of the last entry named `name`.
    fn find(&self, name: &String) -> (res: Option<usize>)
        ensures
            match res {
                Some(i) => {
                    &&& i < self.entry_seq().len()
                    &&& self.entry_seq()[i as int].0 == name@
                    &&& forall|j: int|
                        i < j < self.entry_seq().len() ==> self.entry_seq()[j].0 != name@
                },
                None => forall|j: int|
                    0 <= j < self.entry_seq().len() ==> self.entry_seq()[j].0 != name@,
            },
    {
        let mut i: usize = self.entries.len();
        while i > 0
            invariant
                i <= self.entries@.len(),
                forall|j: int| i <= j < self.entry_seq().len() ==> self.entry_seq()[j].0 != name@,
            decreases i,
        {
            i = i - 1;
            if self.entries[i].0 == *name {
                return Some(i);
            }
        }
        None
    }
}

impl<H> View for CommandRegistry<H> {
    type V = Map<Seq<char>, H>;

    closed spec fn view(&self) -> Map<Seq<char>, H> {
        table_map(self.entry_seq())
    }
}

/// Registers `func` under the name `command`, replacing any handler that the
/// name had. Never fails.
pub fn put_command<H>(registry: &mut CommandRegistry<H>, command: &str, func: H) -> (res: Result<
    (),
    std::fmt::Error,
>)
    ensures
        res is Ok,
        final(registry)@ == old(registry)@.insert(command@, func),
{
    let name = command.to_owned();
    match registry.find(&name) {
        Some(i) => {
            proof {
                lemma_table_map_replace_last(registry.entry_seq(), command@, i as int, func);
            }
            registry.entries.set(i, (name, func));
            proof {
                assert(registry.entry_seq() =~= old(registry).entry_seq().update(
                    i as int,
                    (command@, func),
                ));
            }
        },
        None => {
            let ghost before = registry.entry_seq();
            registry.entries.push((name, func));
            proof {
                assert(registry.entry_seq() =~= before.push((command@, func)));
                assert(registry.entry_seq().drop_last() =~= before);
            }
        },
    }
    Ok(())
}

/// Whether a lookup of `command` finds a handler: its own or the one of
/// "/unknown".
pub fn has_handler<H>(registry: &CommandRegistry<H>, command: &str) -> (b: bool)
    ensures
        b == resolvable(registry@, command@),
{
    let name = command.to_owned();
    let unknown = String::from_str("/unknown");
    proof {
        reveal_strlit("/unknown");
        assert(unknown@ =~= unknown_command_name());
    }
    let own = registry.find(&name);
    let fallback = registry.find(&unknown);
    proof {
        if own is Some {
            lemma_table_map_last_occurrence(registry.entry_seq(), command@, own->0 as int);
        } else {
            lemma_table_map_suffix_free(registry.entry_seq(), command@, 0);
        }
        if fallback is Some {
            lemma_table_map_last_occurrence(registry.entry_seq(), unknown@, fallback->0 as int);
        } else {
            lemma_table_map_suffix_free(registry.entry_seq(), unknown@, 0);
        }
        assert(registry.entry_seq().take(0) =~= Seq::<(Seq<char>, H)>::empty());
    }
    own.is_some() || fallback.is_some()
}

/// The handler registered under `command`, or else the one registered under
/// "/unknown".
pub fn get_command<'a, H>(registry: &'a CommandRegistry<H>, command: &str) -> (res: &'a H)
    requires
        resolvable(registry@, command@),
    ensures
        *res == resolve(registry@, command@),
{
    let name = command.to_owned();
    match registry.find(&name) {
        Some(i) => {
            proof {
                lemma_table_map_last_occurrence(registry.entry_seq(), command@, i as int);
            }
            &registry.entries[i].1
        },
        None => {
            proof {
                lemma_table_map_suffix_free(registry.entry_seq(), command@, 0);
                assert(registry.entry_seq().take(0) =~= Seq::<(Seq<char>, H)>::empty());
            }
            let unknown = String::from_str("/unknown");
            proof {
                reveal_strlit("/unknown");
                assert(unknown@ =~= unknown_command_name());
            }
            let found = registry.find(&unknown);
            proof {
                if found is None {
                    lemma_table_map_suffix_free(registry.entry_seq(), unknown@, 0);
                    assert(registry.entry_seq().take(0) =~= Seq::<(Seq<char>, H)>::empty());
                }
            }
            let j = found.unwrap();
            proof {
                lemma_table_map_last_occurrence(registry.entry_seq(), unknown@, j as int);
            }
            &registry.entries[j].1
        },
    }
}

/// A lookup of a name after registering a handler under it gives that
/// handler.
pub proof fn lemma_get_after_put<H>(m: Map<Seq<char>, H>, name: Seq<char>, func: H)
    ensures
        resolvable(m.insert(name, func), name),
        resolve(m.insert(name, func), name) == func,
{
}

/// Registering a handler under one name leaves what a lookup of any other
/// name gives, as long as the registration does not create the "/unknown"
/// entry that the lookup falls back on.
pub proof fn lemma_put_keeps_other_names<H>(
    m: Map<Seq<char>, H>,
    name: Seq<char>,
    func: H,
    other: Seq<char>,
)
    requires
        other != name,
        resolvable(m, other),
        m.contains_key(other) || name != unknown_command_name(),
    ensures
        resolvable(m.insert(name, func), other),
        resolve(m.insert(name, func), other) == resolve(m, other),
{
}

} // verus!
