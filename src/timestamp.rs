//! Points in time, and their codec: `{"sec": seconds, "nsec": nanoseconds}`.

use vstd::prelude::*;
use crate::error::{Kind, MarshalError};
use crate::json::{modeled, round_trips, FromJsonnable, ToJsonnable};
use crate::value::{field, member, well_formed, Tree, Value};

verus! {

/// Nanoseconds in one second.
pub const NSEC_PER_SEC: i32 = 1_000_000_000;

/// A point in time: whole seconds since the Unix epoch and the nanoseconds past them.
#[derive(Debug, Clone, Copy, PartialEq, Eq, Structural)]
pub struct Timestamp {
    pub sec: i64,
    pub nsec: i32,
}

impl DeepView for Timestamp {
    type V = Timestamp;

    open spec fn deep_view(&self) -> Timestamp {
        *self
    }
}

impl Timestamp {
    /// The nanoseconds lie in `[0, NSEC_PER_SEC)`.
    pub open spec fn wf(&self) -> bool {
        0 <= self.nsec < NSEC_PER_SEC
    }

    /// The point `sec` seconds and `nsec` nanoseconds past the epoch.
    pub fn new(sec: i64, nsec: i32) -> (r: Timestamp)
        requires
            0 <= nsec < NSEC_PER_SEC,
        ensures
            r == (Timestamp { sec, nsec }),
            r.wf(),
    {
        Timestamp { sec, nsec }
    }

    /// Decodes a timestamp from a borrowed value.
    pub(crate) fn from_json_ref(json: &Value) -> (r: Result<Timestamp, MarshalError>)
        ensures
            modeled(r) == <Timestamp as FromJsonnable>::decoded(json@),
    {
        if !matches!(json, Value::Object(_)) {
            return Err(MarshalError::TypeMismatch(Kind::Struct));
        }
        let sec: i64 = match json.get("sec") {
            None => return Err(MarshalError::MissingField("sec")),
            Some(Value::I64(x)) => *x,
            Some(Value::U64(x)) => #[verifier::truncate] (*x as i64),
            Some(_) => return Err(MarshalError::TypeMismatch(Kind::I64)),
        };
        let nsec: i32 = match json.get("nsec") {
            None => return Err(MarshalError::MissingField("nsec")),
            Some(Value::I64(x)) => #[verifier::truncate] (*x as i32),
            Some(Value::U64(x)) => #[verifier::truncate] (*x as i32),
            Some(_) => return Err(MarshalError::TypeMismatch(Kind::I32)),
        };
        if nsec < 0 || nsec >= NSEC_PER_SEC {
            return Err(MarshalError::TypeMismatch(Kind::I32));
        }
        Ok(Timestamp { sec, nsec })
    }
}

/// How the `"sec"` member, if present, is read.
pub open spec fn decoded_seconds(f: Option<Tree>) -> Result<i64, MarshalError> {
    match f {
        None => Err(MarshalError::MissingField("sec")),
        Some(Tree::I64(x)) => Ok(x),
        Some(Tree::U64(x)) => Ok(x as i64),
        Some(_) => Err(MarshalError::TypeMismatch(Kind::I64)),
    }
}

/// How the `"nsec"` member, if present, is read, before its range is checked.
pub open spec fn decoded_nanoseconds(f: Option<Tree>) -> Result<i32, MarshalError> {
    match f {
        None => Err(MarshalError::MissingField("nsec")),
        Some(Tree::I64(x)) => Ok(x as i32),
        Some(Tree::U64(x)) => Ok(x as i32),
        Some(_) => Err(MarshalError::TypeMismatch(Kind::I32)),
    }
}

impl ToJsonnable for Timestamp {
    open spec fn encoded(m: Timestamp) -> Tree {
        Tree::Object(seq![("sec"@, Tree::I64(m.sec)), ("nsec"@, Tree::I64(m.nsec as i64))])
    }

    fn to_json(&self) -> (r: Value) {
        let mut members: Vec<(String, Value)> = Vec::new();
        members.push(("sec".to_owned(), Value::I64(self.sec)));
        members.push(("nsec".to_owned(), Value::I64(self.nsec as i64)));
        let ghost m = members@;
        let r = Value::Object(members);
        assert(m[0].1@ == Tree::I64(self.sec));
        assert(m[1].1@ == Tree::I64(self.nsec as i64));
        assert(r@->Object_0 =~= seq![("sec"@, Tree::I64(self.sec)), ("nsec"@, Tree::I64(self.nsec as i64))]);
        proof {
            reveal_strlit("sec");
            reveal_strlit("nsec");
            assert("sec"@.len() != "nsec"@.len());
            let ms = r@->Object_0;
            assert forall|i: int, j: int| 0 <= i < j < ms.len() implies ms[i].0 != ms[j].0 by {
                assert(i == 0 && j == 1);
            }
            assert forall|i: int| 0 <= i < ms.len() implies well_formed(#[trigger] ms[i].1) by {
                assert(i == 0 || i == 1);
            }
        }
        r
    }
}

impl FromJsonnable for Timestamp {
    /// An object is required; `"sec"` and `"nsec"` may each be signed or unsigned.
    /// The nanoseconds, narrowed to 32 bits, must lie in `[0, NSEC_PER_SEC)`;
    /// a count outside it is refused as a `TypeMismatch(I32)`.
    open spec fn decoded(t: Tree) -> Result<Timestamp, MarshalError> {
        if !(t is Object) {
            Err(MarshalError::TypeMismatch(Kind::Struct))
        } else {
            match decoded_seconds(field(t, "sec"@)) {
                Err(e) => Err(e),
                Ok(sec) => match decoded_nanoseconds(field(t, "nsec"@)) {
                    Err(e) => Err(e),
                    Ok(nsec) => if 0 <= nsec < NSEC_PER_SEC {
                        Ok(Timestamp { sec, nsec })
                    } else {
                        Err(MarshalError::TypeMismatch(Kind::I32))
                    },
                },
            }
        }
    }

    fn from_json(json: Value) -> (r: Result<Timestamp, MarshalError>) {
        Timestamp::from_json_ref(&json)
    }
}

/// A well-formed timestamp, written and read back, is unchanged.
pub proof fn timestamp_round_trip(t: Timestamp)
    requires
        t.wf(),
    ensures
        round_trips::<Timestamp>(t),
{
    reveal_strlit("sec");
    reveal_strlit("nsec");
    let members = seq![("sec"@, Tree::I64(t.sec)), ("nsec"@, Tree::I64(t.nsec as i64))];
    assert("sec"@.len() != "nsec"@.len());
    assert(field(Tree::Object(members), "sec"@) == Some(Tree::I64(t.sec)));
    assert(members.drop_first()[0].0 == "nsec"@);
    assert(member(members.drop_first(), "nsec"@) == Some(Tree::I64(t.nsec as i64)));
    assert(field(Tree::Object(members), "nsec"@) == Some(Tree::I64(t.nsec as i64)));
    let n = t.nsec;
    assert(((n as i64) as i32) == n) by (bit_vector);
}

/// Relies on time::get_time: the current wall-clock time, built with
/// `Timespec::new`, which asserts that the nanoseconds lie in `[0, 1_000_000_000)`.
#[verifier::external_body]
pub(crate) fn current_time() -> (r: Timestamp)
    ensures
        r.wf(),
{
    let now = time::get_time();
    Timestamp { sec: now.sec, nsec: now.nsec }
}

} // verus!
