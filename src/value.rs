//! The JSON document tree that every codec reads and writes.

use vstd::prelude::*;

verus! {

/// A JSON document held in memory.
///
/// Floating-point numbers are carried as their IEEE-754 bit pattern: the codecs
/// in this crate only tell them apart from the other kinds, never compute with them.
#[derive(Debug, PartialEq)]
pub enum Value {
    Null,
    Bool(bool),
    I64(i64),
    U64(u64),
    F64(u64),
    String(String),
    Array(Vec<Value>),
    /// Members in order; a well-formed object has no key twice.
    Object(Vec<(String, Value)>),
}

/// The mathematical model of a [`Value`].
pub enum Tree {
    Null,
    Bool(bool),
    I64(i64),
    U64(u64),
    F64(u64),
    Str(Seq<char>),
    Array(Seq<Tree>),
    Object(Seq<(Seq<char>, Tree)>),
}

/// The tree that `v` holds: strings become their characters, vectors sequences.
pub open spec fn tree_of(v: &Value) -> Tree
    decreases v,
{
    match v {
        Value::Null => Tree::Null,
        Value::Bool(b) => Tree::Bool(*b),
        Value::I64(n) => Tree::I64(*n),
        Value::U64(n) => Tree::U64(*n),
        Value::F64(bits) => Tree::F64(*bits),
        Value::String(s) => Tree::Str(s@),
        Value::Array(items) => Tree::Array(
            Seq::new(
                items@.len(),
                |i: int|
                    if 0 <= i < items@.len() {
                        tree_of(&items@[i])
                    } else {
                        Tree::Null
                    },
            ),
        ),
        Value::Object(members) => Tree::Object(
            Seq::new(
                members@.len(),
                |i: int|
                    if 0 <= i < members@.len() {
                        (members@[i].0@, tree_of(&members@[i].1))
                    } else {
                        (Seq::empty(), Tree::Null)
                    },
            ),
        ),
    }
}

impl View for Value {
    type V = Tree;

    open spec fn view(&self) -> Tree {
        tree_of(self)
    }
}

/// No two members share a key.
pub open spec fn keys_distinct(members: Seq<(Seq<char>, Tree)>) -> bool {
    forall|i: int, j: int| 0 <= i < j < members.len() ==> members[i].0 != members[j].0
}

/// Every object in `t`, at any depth, has distinct keys.
pub open spec fn well_formed(t: Tree) -> bool
    decreases t,
{
    match t {
        Tree::Array(items) => forall|i: int| 0 <= i < items.len() ==> well_formed(#[trigger] items[i]),
        Tree::Object(members) => {
            &&& keys_distinct(members)
            &&& forall|i: int| 0 <= i < members.len() ==> well_formed(#[trigger] members[i].1)
        },
        _ => true,
    }
}

/// The value of the first member of `members` whose key is `key`.
pub open spec fn member(members: Seq<(Seq<char>, Tree)>, key: Seq<char>) -> Option<Tree>
    decreases members.len(),
{
    if members.len() == 0 {
        None
    } else if members[0].0 == key {
        Some(members[0].1)
    } else {
        member(members.drop_first(), key)
    }
}

/// The value that `t` holds under `key`: none unless `t` is an object.
pub open spec fn field(t: Tree, key: Seq<char>) -> Option<Tree> {
    match t {
        Tree::Object(members) => member(members, key),
        _ => None,
    }
}

/// Members before the first one keyed `key` do not decide the lookup.
proof fn lemma_member_skip(members: Seq<(Seq<char>, Tree)>, key: Seq<char>, i: int)
    requires
        0 <= i <= members.len(),
        forall|j: int| 0 <= j < i ==> #[trigger] members[j].0 != key,
    ensures
        member(members, key) == member(members.skip(i), key),
    decreases i,
{
    if i > 0 {
        let rest = members.drop_first();
        assert forall|j: int| 0 <= j < i - 1 implies #[trigger] rest[j].0 != key by {
            assert(rest[j] == members[j + 1]);
        }
        lemma_member_skip(rest, key, i - 1);
        assert(rest.skip(i - 1) =~= members.skip(i));
    } else {
        assert(members.skip(0) =~= members);
    }
}

impl Value {
    /// The value held under `key` in an object: its first member with that key.
    /// A value that is not an object holds nothing.
    pub fn get(&self, key: &str) -> (r: Option<&Value>)
        ensures
            r matches Some(v) ==> field(self@, key@) == Some(v@),
            r is None ==> field(self@, key@) is None,
    {
        match self {
            Value::Object(members) => {
                let ghost m = self@->Object_0;
                let wanted = key.to_owned();
                let mut i: usize = 0;
                while i < members.len()
                    invariant
                        i <= members@.len(),
                        self@ == Tree::Object(m),
                        m.len() == members@.len(),
                        forall|j: int| 0 <= j < m.len() ==> #[trigger] m[j] == (members@[j].0@, members@[j].1@),
                        wanted@ == key@,
                        forall|j: int| 0 <= j < i ==> #[trigger] m[j].0 != key@,
                    decreases members@.len() - i,
                {
                    if members[i].0 == wanted {
                        proof {
                            lemma_member_skip(m, key@, i as int);
                        }
                        return Some(&members[i].1);
                    }
                    i = i + 1;
                }
                proof {
                    lemma_member_skip(m, key@, i as int);
                }
                None
            },
            _ => None,
        }
    }
}

} // verus!
