//! The mathematical model of a configuration document.

use vstd::prelude::*;

verus! {

/// A node of a configuration document, as contracts see it.
pub enum Node {
    Text(Seq<char>),
    Integer(i64),
    /// The bit pattern of a binary64 number.
    Float(u64),
    Boolean(bool),
    /// A date or time, by its rendered text.
    Datetime(Seq<char>),
    Array(Seq<Node>),
    Table(Map<Seq<char>, Node>),
}

/// The entry of `node` under `key`: present only where `node` is a table that
/// holds the key.
pub open spec fn child(node: Node, key: Seq<char>) -> Option<Node> {
    match node {
        Node::Table(entries) => if entries.contains_key(key) {
            Some(entries[key])
        } else {
            None
        },
        _ => None,
    }
}

/// The node reached from `node` by following `keys` from left to right.
pub open spec fn descend(node: Node, keys: Seq<Seq<char>>) -> Option<Node>
    decreases keys.len(),
{
    if keys.len() == 0 {
        Some(node)
    } else {
        match child(node, keys[0]) {
            Some(next) => descend(next, keys.drop_first()),
            None => None,
        }
    }
}

/// Following keys is following the first `at` of them and then the rest.
pub proof fn lemma_descend_split(node: Node, keys: Seq<Seq<char>>, at: int)
    requires
        0 <= at <= keys.len(),
    ensures
        descend(node, keys) == match descend(node, keys.take(at)) {
            Some(reached) => descend(reached, keys.skip(at)),
            None => None,
        },
    decreases at,
{
    if at == 0 {
        assert(keys.take(0).len() == 0);
        assert(keys.skip(0) == keys);
    } else {
        assert(keys.take(at)[0] == keys[0]);
        assert(keys.take(at).drop_first() == keys.drop_first().take(at - 1));
        assert(keys.skip(at) == keys.drop_first().skip(at - 1));
        match child(node, keys[0]) {
            Some(next) => {
                lemma_descend_split(next, keys.drop_first(), at - 1);
            },
            None => {},
        }
    }
}

/// Following keys from a node is following the rest of them from its child
/// under the first.
pub proof fn lemma_descend_step(node: Node, keys: Seq<Seq<char>>, at: int)
    requires
        0 <= at < keys.len(),
    ensures
        descend(node, keys.skip(at)) == match child(node, keys[at]) {
            Some(next) => descend(next, keys.skip(at + 1)),
            None => None,
        },
{
    assert(keys.skip(at).drop_first() == keys.skip(at + 1));
}

} // verus!
