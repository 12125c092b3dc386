use vstd::prelude::*;

verus! {

/// A JSON document as the protocol's hand-written encodings read and write it.
///
/// Numbers are kept as their decimal text. An object lists its members in
/// order; a document read from JSON text holds each key once.
#[derive(Debug, PartialEq)]
pub enum WireValue {
    Null,
    Bool(bool),
    Number(String),
    Text(String),
    Array(Vec<WireValue>),
    Object(Vec<(String, WireValue)>),
}

/// The value of the first member of `members` named `key`.
pub open spec fn wire_lookup(members: Seq<(String, WireValue)>, key: Seq<char>) -> Option<WireValue>
    decreases members.len(),
{
    if members.len() == 0 {
        None
    } else if members[0].0@ == key {
        Some(members[0].1)
    } else {
        wire_lookup(members.drop_first(), key)
    }
}

/// Lookup finds the first member with the key, wherever it stands.
pub proof fn lemma_wire_lookup_first(members: Seq<(String, WireValue)>, key: Seq<char>, i: int)
    requires
        0 <= i < members.len(),
        members[i].0@ == key,
        forall|k: int| 0 <= k < i ==> (#[trigger] members[k]).0@ != key,
    ensures
        wire_lookup(members, key) == Some(members[i].1),
    decreases i,
{
    if i > 0 {
        assert forall|k: int| 0 <= k < i - 1 implies (#[trigger] members.drop_first()[k]).0@ != key by {
            assert(members.drop_first()[k] == members[k + 1]);
        }
        lemma_wire_lookup_first(members.drop_first(), key, i - 1);
    }
}

/// Lookup finds nothing when no member has the key.
pub proof fn lemma_wire_lookup_absent(members: Seq<(String, WireValue)>, key: Seq<char>)
    requires
        forall|k: int| 0 <= k < members.len() ==> (#[trigger] members[k]).0@ != key,
    ensures
        wire_lookup(members, key) is None,
    decreases members.len(),
{
    if members.len() > 0 {
        assert(members[0].0@ != key);
        assert forall|k: int| 0 <= k < members.len() - 1 implies (#[trigger] members.drop_first()[k]).0@
            != key by {
            assert(members.drop_first()[k] == members[k + 1]);
        }
        lemma_wire_lookup_absent(members.drop_first(), key);
    }
}

/// The value of the first member of `members` named `key`.
pub fn member<'a>(members: &'a Vec<(String, WireValue)>, key: &String) -> (found: Option<&'a WireValue>)
    ensures
        match found {
            Some(v) => wire_lookup(members@, key@) == Some(*v),
            None => wire_lookup(members@, key@) is None,
        },
{
    let mut i: usize = 0;
    assert(members@.skip(0) =~= members@);
    while i < members.len()
        invariant
            i <= members@.len(),
            wire_lookup(members@, key@) == wire_lookup(members@.skip(i as int), key@),
        decreases members@.len() - i,
    {
        assert(members@.skip(i as int).drop_first() =~= members@.skip(i + 1));
        if members[i].0 == *key {
            return Some(&members[i].1);
        }
        i = i + 1;
    }
    assert(members@.skip(i as int).len() == 0);
    None
}

} // verus!
