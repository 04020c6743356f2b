//! Stored items as the table returns them: named attributes, of which the
//! bot reads the string-valued ones.
use vstd::prelude::*;

verus! {

/// An attribute value: a string, or a value of another kind.
pub enum Attribute {
    S(String),
    Other,
}

/// An item of the table: its attributes by name.
pub struct StoredItem {
    pub attributes: Vec<(String, Attribute)>,
}

/// The names of the attributes that hold an item's partition key, sort key
/// and text.
pub struct ItemSchema {
    pub pk: String,
    pub sk: String,
    pub text: String,
}

/// The value of the first attribute named `name`.
pub open spec fn attr_lookup(attrs: Seq<(String, Attribute)>, name: Seq<char>) -> Option<Attribute>
    decreases attrs.len(),
{
    if attrs.len() == 0 {
        None
    } else {
        match attr_lookup(attrs.drop_last(), name) {
            Some(a) => Some(a),
            None => if attrs.last().0@ == name {
                Some(attrs.last().1)
            } else {
                None
            },
        }
    }
}

/// The string value of the attribute named `name`, where it has one.
pub open spec fn string_attr(attrs: Seq<(String, Attribute)>, name: Seq<char>) -> Option<Seq<char>> {
    match attr_lookup(attrs, name) {
        Some(Attribute::S(s)) => Some(s@),
        _ => None,
    }
}

/// Attributes after the first one named `name` do not change its value.
proof fn lemma_attr_lookup_prefix(attrs: Seq<(String, Attribute)>, name: Seq<char>, k: int)
    requires
        0 <= k <= attrs.len(),
        attr_lookup(attrs.take(k), name) is Some,
    ensures
        attr_lookup(attrs, name) == attr_lookup(attrs.take(k), name),
    decreases attrs.len(),
{
    if k < attrs.len() {
        assert(attrs.drop_last().take(k) =~= attrs.take(k));
        lemma_attr_lookup_prefix(attrs.drop_last(), name, k);
    } else {
        assert(attrs.take(k) =~= attrs);
    }
}

/// The string value of the attribute of `item` named `name`.
pub fn string_attribute(item: &StoredItem, name: &String) -> (res: Option<String>)
    ensures
        match res {
            Some(s) => string_attr(item.attributes@, name@) == Some(s@),
            None => string_attr(item.attributes@, name@) is None,
        },
{
    let n = item.attributes.len();
    let mut i: usize = 0;
    assert(item.attributes@.take(0) =~= Seq::<(String, Attribute)>::empty());
    while i < n
        invariant
            n == item.attributes@.len(),
            i <= n,
            attr_lookup(item.attributes@.take(i as int), name@) is None,
        decreases n - i,
    {
        proof {
            assert(item.attributes@.take(i + 1).drop_last() =~= item.attributes@.take(i as int));
        }
        if item.attributes[i].0 == *name {
            proof {
                lemma_attr_lookup_prefix(item.attributes@, name@, i + 1);
            }
            return match &item.attributes[i].1 {
                Attribute::S(s) => Some(s.clone()),
                Attribute::Other => None,
            };
        }
        i = i + 1;
    }
    proof {
        assert(item.attributes@.take(n as int) =~= item.attributes@);
    }
    None
}

} // verus!
