//! Chat messages, and their codec.
//!
//! A message is written `{"sender": ..., "value": ..., "time_posted": ..., "id": ...}`,
//! where `"id"` is left out while the message has no sequence number yet (id 0).

use vstd::prelude::*;
use crate::error::{Kind, MarshalError};
use crate::json::{round_trips, FromJsonnable, ToJsonnable};
use crate::timestamp::{current_time, timestamp_round_trip, Timestamp};
use crate::user::{user_round_trip, valid_user, ChatUser, UserModel};
use crate::value::{field, member, well_formed, Tree, Value};

verus! {

/// A message posted to the chat.
#[derive(Debug, Clone)]
pub struct ChatMessage {
    pub sender: ChatUser,
    pub value: String,
    pub time_posted: Timestamp,
    /// The message's sequence number; 0 until one is assigned.
    pub id: u64,
}

/// The model of a [`ChatMessage`].
pub struct MessageModel {
    pub sender: UserModel,
    pub value: Seq<char>,
    pub time_posted: Timestamp,
    pub id: u64,
}

impl DeepView for ChatMessage {
    type V = MessageModel;

    open spec fn deep_view(&self) -> MessageModel {
        MessageModel {
            sender: self.sender.deep_view(),
            value: self.value@,
            time_posted: self.time_posted,
            id: self.id,
        }
    }
}

/// One id assignment: the message takes the counter's value and the counter
/// moves on by one.
pub open spec fn assigns_id(counter_before: u64, counter_after: u64, id: u64) -> bool {
    id == counter_before && counter_after == counter_before + 1
}

impl ChatMessage {
    /// Creates a message from `by` with text `contents`, stamped with the current
    /// time and not yet numbered.
    pub fn new(by: ChatUser, contents: String) -> (r: ChatMessage)
        ensures
            r.sender == by,
            r.value == contents,
            r.time_posted.wf(),
            r.id == 0,
    {
        ChatMessage { sender: by, value: contents, time_posted: current_time(), id: 0 }
    }

    /// Numbers this message from the shared counter `curid` and advances the counter.
    /// The caller holds the counter exclusively (under a lock, say) for the call.
    pub fn fill_id(&mut self, curid: &mut u64)
        requires
            *old(curid) < u64::MAX,
        ensures
            assigns_id(*old(curid), *final(curid), final(self).id),
            final(self).sender == old(self).sender,
            final(self).value == old(self).value,
            final(self).time_posted == old(self).time_posted,
    {
        self.id = *curid;
        *curid = *curid + 1;
    }

    /// Numbers `messages` one after another, in order, from the shared counter
    /// `curid`, which the caller holds exclusively for the call.
    pub fn fill_ids(messages: Vec<ChatMessage>, curid: &mut u64) -> (r: Vec<ChatMessage>)
        requires
            *old(curid) + messages@.len() <= u64::MAX,
        ensures
            r@.len() == messages@.len(),
            *final(curid) == *old(curid) + messages@.len(),
            forall|i: int| 0 <= i < r@.len() ==> {
                &&& #[trigger] r@[i].id == *old(curid) + i
                &&& r@[i].sender == messages@[i].sender
                &&& r@[i].value == messages@[i].value
                &&& r@[i].time_posted == messages@[i].time_posted
            },
    {
        let ghost start = *curid;
        let ghost ms = messages@;
        let mut out: Vec<ChatMessage> = Vec::new();
        for message in it: messages.into_iter()
            invariant
                it.seq() == ms,
                start + ms.len() <= u64::MAX,
                out@.len() == it.index(),
                *curid == start + it.index(),
                forall|i: int| 0 <= i < out@.len() ==> (#[trigger] out@[i]).id == start + i,
                forall|i: int| 0 <= i < out@.len() ==> (#[trigger] out@[i]).sender == ms[i].sender,
                forall|i: int| 0 <= i < out@.len() ==> (#[trigger] out@[i]).value == ms[i].value,
                forall|i: int| 0 <= i < out@.len() ==> (#[trigger] out@[i]).time_posted == ms[i].time_posted,
        {
            let ghost i = it.index() as int;
            assert(message == ms[i]);
            let mut message = message;
            message.fill_id(curid);
            let ghost prev = out@;
            out.push(message);
            assert forall|j: int| 0 <= j < i implies #[trigger] out@[j] == prev[j] by {}
        }
        out
    }
}

impl PartialEq for ChatMessage {
    /// Field-wise comparison, the sender compared by name.
    fn eq(&self, other: &ChatMessage) -> (r: bool) {
        self.sender == other.sender && self.value == other.value && self.time_posted
            == other.time_posted && self.id == other.id
    }
}

impl vstd::std_specs::cmp::PartialEqSpecImpl for ChatMessage {
    open spec fn obeys_eq_spec() -> bool {
        true
    }

    open spec fn eq_spec(&self, other: &ChatMessage) -> bool {
        &&& self.sender.deep_view().name == other.sender.deep_view().name
        &&& self.value@ == other.value@
        &&& self.time_posted == other.time_posted
        &&& self.id == other.id
    }
}

impl Eq for ChatMessage {
}

/// The members of a message's object, in the order they are written.
pub open spec fn message_members(m: MessageModel) -> Seq<(Seq<char>, Tree)> {
    let required = seq![
        ("sender"@, <ChatUser as ToJsonnable>::encoded(m.sender)),
        ("value"@, Tree::Str(m.value)),
        ("time_posted"@, <Timestamp as ToJsonnable>::encoded(m.time_posted)),
    ];
    if m.id != 0 {
        required.push(("id"@, Tree::U64(m.id)))
    } else {
        required
    }
}

impl ToJsonnable for ChatMessage {
    open spec fn encoded(m: MessageModel) -> Tree {
        Tree::Object(message_members(m))
    }

    fn to_json(&self) -> (r: Value) {
        let mut members: Vec<(String, Value)> = Vec::new();
        members.push(("sender".to_owned(), self.sender.to_json()));
        members.push(("value".to_owned(), Value::String(self.value.clone())));
        members.push(("time_posted".to_owned(), self.time_posted.to_json()));
        if self.id != 0 {
            members.push(("id".to_owned(), Value::U64(self.id)));
        }
        let ghost m = members@;
        let r = Value::Object(members);
        assert(m[1].1@ == Tree::Str(self.value@));
        assert(m.len() == 4 ==> m[3].1@ == Tree::U64(self.id));
        assert(r@->Object_0 =~= message_members(self.deep_view()));
        proof {
            reveal_strlit("sender");
            reveal_strlit("value");
            reveal_strlit("time_posted");
            reveal_strlit("id");
            assert("sender"@.len() == 6);
            assert("value"@.len() == 5);
            assert("time_posted"@.len() == 11);
            assert("id"@.len() == 2);
            let ms = r@->Object_0;
            assert forall|i: int, j: int| 0 <= i < j < ms.len() implies ms[i].0 != ms[j].0 by {
                assert(0 <= i <= 2 && 1 <= j <= 3);
            }
            assert forall|i: int| 0 <= i < ms.len() implies well_formed(#[trigger] ms[i].1) by {
                assert(ms[i].1 == m[i].1@);
            }
        }
        r
    }
}

/// How the optional `"id"` member, if present, is read.
pub open spec fn decoded_id(f: Option<Tree>) -> Result<u64, MarshalError> {
    match f {
        None => Ok(0),
        Some(Tree::U64(id)) => Ok(id),
        Some(_) => Err(MarshalError::TypeMismatch(Kind::U64)),
    }
}

impl FromJsonnable for ChatMessage {
    /// An object is required, with `"sender"` (a user), `"value"` (a string) and
    /// `"time_posted"` (a timestamp), read in that order; `"id"` is optional and
    /// reads as 0 when absent.
    open spec fn decoded(t: Tree) -> Result<MessageModel, MarshalError> {
        if !(t is Object) {
            Err(MarshalError::TypeMismatch(Kind::Struct))
        } else {
            match field(t, "sender"@) {
                None => Err(MarshalError::MissingField("sender")),
                Some(s) => match <ChatUser as FromJsonnable>::decoded(s) {
                    Err(e) => Err(e),
                    Ok(sender) => match field(t, "value"@) {
                        None => Err(MarshalError::MissingField("value")),
                        Some(Tree::Str(value)) => match field(t, "time_posted"@) {
                            None => Err(MarshalError::MissingField("time_posted")),
                            Some(p) => match <Timestamp as FromJsonnable>::decoded(p) {
                                Err(e) => Err(e),
                                Ok(time_posted) => match decoded_id(field(t, "id"@)) {
                                    Err(e) => Err(e),
                                    Ok(id) => Ok(MessageModel { sender, value, time_posted, id }),
                                },
                            },
                        },
                        Some(_) => Err(MarshalError::TypeMismatch(Kind::Str)),
                    },
                },
            }
        }
    }

    fn from_json(json: Value) -> (r: Result<ChatMessage, MarshalError>) {
        if !matches!(json, Value::Object(_)) {
            return Err(MarshalError::TypeMismatch(Kind::Struct));
        }
        let sender = match json.get("sender") {
            None => return Err(MarshalError::MissingField("sender")),
            Some(s) => match ChatUser::from_json_ref(s) {
                Ok(sender) => sender,
                Err(e) => return Err(e),
            },
        };
        let value = match json.get("value") {
            None => return Err(MarshalError::MissingField("value")),
            Some(Value::String(value)) => value.clone(),
            Some(_) => return Err(MarshalError::TypeMismatch(Kind::Str)),
        };
        let time_posted = match json.get("time_posted") {
            None => return Err(MarshalError::MissingField("time_posted")),
            Some(p) => match Timestamp::from_json_ref(p) {
                Ok(time_posted) => time_posted,
                Err(e) => return Err(e),
            },
        };
        let id = match json.get("id") {
            None => 0,
            Some(Value::U64(id)) => *id,
            Some(_) => return Err(MarshalError::TypeMismatch(Kind::U64)),
        };
        Ok(ChatMessage { sender, value, time_posted, id })
    }
}

/// Looks up each key of a written message among its members.
proof fn lemma_message_fields(m: MessageModel)
    ensures
        field(<ChatMessage as ToJsonnable>::encoded(m), "sender"@) == Some(
            <ChatUser as ToJsonnable>::encoded(m.sender),
        ),
        field(<ChatMessage as ToJsonnable>::encoded(m), "value"@) == Some(Tree::Str(m.value)),
        field(<ChatMessage as ToJsonnable>::encoded(m), "time_posted"@) == Some(
            <Timestamp as ToJsonnable>::encoded(m.time_posted),
        ),
        field(<ChatMessage as ToJsonnable>::encoded(m), "id"@) == (if m.id == 0 {
            None
        } else {
            Some(Tree::U64(m.id))
        }),
{
    reveal_strlit("sender");
    reveal_strlit("value");
    reveal_strlit("time_posted");
    reveal_strlit("id");
    assert("sender"@.len() == 6);
    assert("value"@.len() == 5);
    assert("time_posted"@.len() == 11);
    assert("id"@.len() == 2);
    let ms = message_members(m);
    let m1 = ms.drop_first();
    let m2 = m1.drop_first();
    let m3 = m2.drop_first();
    assert(member(m2, "time_posted"@) == Some(<Timestamp as ToJsonnable>::encoded(m.time_posted)));
    assert(member(m1, "time_posted"@) == member(m2, "time_posted"@));
    assert(member(m1, "value"@) == Some(Tree::Str(m.value)));
    if m.id == 0 {
        assert(m3.len() == 0);
    } else {
        assert(m3[0] == ("id"@, Tree::U64(m.id)));
        assert(member(m3, "id"@) == Some(Tree::U64(m.id)));
    }
    assert(member(m2, "id"@) == member(m3, "id"@));
    assert(member(m1, "id"@) == member(m2, "id"@));
}

/// A message with a well-formed timestamp, written and read back, is unchanged.
pub proof fn message_round_trip(m: MessageModel)
    requires
        m.time_posted.wf(),
        valid_user(m.sender),
    ensures
        round_trips::<ChatMessage>(m),
{
    lemma_message_fields(m);
    user_round_trip(m.sender);
    timestamp_round_trip(m.time_posted);
}

/// A message is written with an `"id"` member exactly when it has been numbered,
/// and reading it back restores its id, 0 included.
pub proof fn message_id_on_the_wire(m: MessageModel)
    requires
        m.time_posted.wf(),
        valid_user(m.sender),
    ensures
        m.id == 0 ==> field(<ChatMessage as ToJsonnable>::encoded(m), "id"@) is None,
        m.id != 0 ==> field(<ChatMessage as ToJsonnable>::encoded(m), "id"@) == Some(Tree::U64(m.id)),
        <ChatMessage as FromJsonnable>::decoded(<ChatMessage as ToJsonnable>::encoded(m)) matches Ok(d)
            && d.id == m.id,
{
    lemma_message_fields(m);
    message_round_trip(m);
}

/// After `k` assignments from a counter that started at 1, the counter reads `k + 1`.
proof fn lemma_counter_after(counters: Seq<u64>, ids: Seq<u64>, k: int)
    requires
        counters.len() == ids.len() + 1,
        counters[0] == 1,
        forall|i: int| 0 <= i < ids.len() ==> assigns_id(counters[i], counters[i + 1], #[trigger] ids[i]),
        0 <= k < counters.len(),
    ensures
        counters[k] == k + 1,
    decreases k,
{
    if k > 0 {
        lemma_counter_after(counters, ids, k - 1);
        assert(assigns_id(counters[k - 1], counters[k], ids[k - 1]));
    }
}

/// Numbering messages one after another from a counter that starts at 1 gives
/// them the ids 1, 2, ..., N, none twice, and leaves the counter at N + 1.
pub proof fn sequential_ids(counters: Seq<u64>, ids: Seq<u64>)
    requires
        counters.len() == ids.len() + 1,
        counters[0] == 1,
        forall|i: int| 0 <= i < ids.len() ==> assigns_id(counters[i], counters[i + 1], #[trigger] ids[i]),
    ensures
        forall|i: int| 0 <= i < ids.len() ==> #[trigger] ids[i] == i + 1,
        forall|i: int, j: int| 0 <= i < j < ids.len() ==> #[trigger] ids[i] != #[trigger] ids[j],
        counters.last() == ids.len() + 1,
{
    assert forall|i: int| 0 <= i < ids.len() implies #[trigger] ids[i] == i + 1 by {
        lemma_counter_after(counters, ids, i);
    }
    lemma_counter_after(counters, ids, ids.len() as int);
}

} // verus!
