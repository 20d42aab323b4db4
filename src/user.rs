//! Chat participants, and their codec.
//!
//! A user whose address is known is written `{"name": ..., "poster": ...}`; one
//! whose address is not yet known is written as the bare name string.
//!
//! An address is held as the text of a socket address (`"127.0.0.1:50030"`,
//! `"[::1]:80"`; [`crate::address`] gives the forms), exactly as it was given or
//! received, so it is written out again as that same text. Resolving a host name
//! into an address needs a lookup on the network, which is the host's business,
//! not this crate's: such text is not an address here.

use vstd::prelude::*;
use crate::address::{is_socket_address, is_socket_address_text};
use crate::error::{Kind, MarshalError};
use crate::json::{modeled, round_trips, FromJsonnable, ToJsonnable};
use crate::value::{field, member, well_formed, Tree, Value};

verus! {

/// A chat participant.
///
/// The address is private: every way to make or change a user keeps it a socket
/// address or none, fills it in at most once and never clears it. Two users are
/// equal when their names are.
#[derive(Debug, Clone)]
pub struct ChatUser {
    /// User's desired name
    pub name: String,
    poster: Option<String>,
}

/// The model of a [`ChatUser`].
pub struct UserModel {
    pub name: Seq<char>,
    pub poster: Option<Seq<char>>,
}

impl DeepView for ChatUser {
    type V = UserModel;

    closed spec fn deep_view(&self) -> UserModel {
        UserModel {
            name: self.name@,
            poster: match self.poster {
                Some(p) => Some(p@),
                None => None,
            },
        }
    }
}

/// The address kept for an address text: the text itself if it is a socket
/// address, none otherwise.
pub open spec fn kept_address(poster: Option<String>) -> Option<Seq<char>> {
    match poster {
        Some(p) => if is_socket_address(p@) {
            Some(p@)
        } else {
            None
        },
        None => None,
    }
}

/// The address, if any, is a socket address.
pub open spec fn valid_user(m: UserModel) -> bool {
    m.poster matches Some(p) ==> is_socket_address(p)
}

impl ChatUser {
    /// Keeps `poster` if it is a socket address.
    fn checked(poster: Option<String>) -> (r: Option<String>)
        ensures
            match r {
                Some(p) => kept_address(poster) == Some(p@),
                None => kept_address(poster) is None,
            },
    {
        match poster {
            Some(p) => if is_socket_address_text(p.as_str()) {
                Some(p)
            } else {
                None
            },
            None => None,
        }
    }

    /// Creates a user named `name` seen at `poster`, the address that the caller
    /// resolved for it. Without an address, or with text that is not a socket
    /// address, the user is address-less.
    pub fn get(name: String, poster: Option<String>) -> (r: ChatUser)
        ensures
            r.deep_view() == (UserModel { name: name@, poster: kept_address(poster) }),
    {
        ChatUser { name, poster: Self::checked(poster) }
    }

    /// Creates a named, address-less user.
    /// Used by the client, which does not know its own address; the server fills
    /// it in with [`fill_ip()`](#method.fill_ip).
    pub fn me(name: String) -> (r: ChatUser)
        ensures
            r.deep_view() == (UserModel { name: name@, poster: None }),
    {
        ChatUser { name, poster: None }
    }

    /// Server-side: records the address the user was seen at. Only the first
    /// socket address given is kept; an address once filled in is neither
    /// replaced nor cleared.
    pub fn fill_ip(&mut self, poster: Option<String>)
        ensures
            final(self).deep_view().name == old(self).deep_view().name,
            final(self).deep_view().poster == (if old(self).deep_view().poster is Some {
                old(self).deep_view().poster
            } else {
                kept_address(poster)
            }),
    {
        if self.poster.is_none() {
            self.poster = Self::checked(poster);
        }
    }

    /// The user's name.
    pub fn name(&self) -> (r: &String)
        ensures
            r@ == self.deep_view().name,
    {
        &self.name
    }

    /// The address the user was seen at, if it is known.
    pub fn poster(&self) -> (r: Option<&String>)
        ensures
            match r {
                Some(p) => self.deep_view().poster == Some(p@),
                None => self.deep_view().poster is None,
            },
    {
        self.poster.as_ref()
    }

    /// Decodes a user from a borrowed value.
    pub(crate) fn from_json_ref(json: &Value) -> (r: Result<ChatUser, MarshalError>)
        ensures
            modeled(r) == <ChatUser as FromJsonnable>::decoded(json@),
    {
        match json {
            Value::String(name) => Ok(ChatUser::me(name.clone())),
            Value::Object(_) => {
                let name = match json.get("name") {
                    None => return Err(MarshalError::MissingField("name")),
                    Some(Value::String(name)) => name.clone(),
                    Some(_) => return Err(MarshalError::TypeMismatch(Kind::Str)),
                };
                let poster = match json.get("poster") {
                    None => return Err(MarshalError::MissingField("poster")),
                    Some(Value::String(poster)) => poster.clone(),
                    Some(_) => return Err(MarshalError::TypeMismatch(Kind::Str)),
                };
                if !is_socket_address_text(poster.as_str()) {
                    return Err(MarshalError::TypeMismatch(Kind::Str));
                }
                Ok(ChatUser { name, poster: Some(poster) })
            },
            _ => Err(MarshalError::TypeMismatch(Kind::Struct)),
        }
    }
}

impl PartialEq for ChatUser {
    /// Name-wise comparison: the address is not part of a user's identity.
    fn eq(&self, other: &ChatUser) -> (r: bool) {
        self.name == other.name
    }
}

impl vstd::std_specs::cmp::PartialEqSpecImpl for ChatUser {
    open spec fn obeys_eq_spec() -> bool {
        true
    }

    open spec fn eq_spec(&self, other: &ChatUser) -> bool {
        self.deep_view().name == other.deep_view().name
    }
}

impl Eq for ChatUser {
}

impl ToJsonnable for ChatUser {
    open spec fn encoded(m: UserModel) -> Tree {
        match m.poster {
            Some(p) => Tree::Object(seq![("name"@, Tree::Str(m.name)), ("poster"@, Tree::Str(p))]),
            None => Tree::Str(m.name),
        }
    }

    fn to_json(&self) -> (r: Value) {
        match &self.poster {
            Some(ip) => {
                let mut members: Vec<(String, Value)> = Vec::new();
                members.push(("name".to_owned(), Value::String(self.name.clone())));
                members.push(("poster".to_owned(), Value::String(ip.clone())));
                let ghost m = members@;
                let r = Value::Object(members);
                assert(m[0].1@ == Tree::Str(self.name@));
                assert(m[1].1@ == Tree::Str(ip@));
                assert(r@->Object_0 =~= seq![("name"@, Tree::Str(self.name@)), ("poster"@, Tree::Str(ip@))]);
                proof {
                    reveal_strlit("name");
                    reveal_strlit("poster");
                    assert("name"@.len() != "poster"@.len());
                    let ms = r@->Object_0;
                    assert forall|i: int, j: int| 0 <= i < j < ms.len() implies ms[i].0 != ms[j].0 by {
                        assert(i == 0 && j == 1);
                    }
                    assert forall|i: int| 0 <= i < ms.len() implies well_formed(#[trigger] ms[i].1) by {
                        assert(i == 0 || i == 1);
                    }
                }
                r
            },
            None => Value::String(self.name.clone()),
        }
    }
}

impl FromJsonnable for ChatUser {
    /// A bare string is an address-less user of that name; an object must hold
    /// the strings `"name"` and `"poster"`, and `"poster"` must be the text of a
    /// socket address, which is kept as it is; any other text there, a host name
    /// included, is refused as a `TypeMismatch(Str)`.
    open spec fn decoded(t: Tree) -> Result<UserModel, MarshalError> {
        match t {
            Tree::Str(name) => Ok(UserModel { name, poster: None }),
            Tree::Object(_) => match field(t, "name"@) {
                None => Err(MarshalError::MissingField("name")),
                Some(Tree::Str(name)) => match field(t, "poster"@) {
                    None => Err(MarshalError::MissingField("poster")),
                    Some(Tree::Str(poster)) => if is_socket_address(poster) {
                        Ok(UserModel { name, poster: Some(poster) })
                    } else {
                        Err(MarshalError::TypeMismatch(Kind::Str))
                    },
                    Some(_) => Err(MarshalError::TypeMismatch(Kind::Str)),
                },
                Some(_) => Err(MarshalError::TypeMismatch(Kind::Str)),
            },
            _ => Err(MarshalError::TypeMismatch(Kind::Struct)),
        }
    }

    fn from_json(json: Value) -> (r: Result<ChatUser, MarshalError>) {
        ChatUser::from_json_ref(&json)
    }
}

/// Writing a user and reading it back gives the same name and the same address text.
pub proof fn user_round_trip(u: UserModel)
    requires
        valid_user(u),
    ensures
        round_trips::<ChatUser>(u),
{
    if let Some(p) = u.poster {
        reveal_strlit("name");
        reveal_strlit("poster");
        let members = seq![("name"@, Tree::Str(u.name)), ("poster"@, Tree::Str(p))];
        assert("name"@.len() != "poster"@.len());
        assert(field(Tree::Object(members), "name"@) == Some(Tree::Str(u.name)));
        assert(members.drop_first()[0].0 == "poster"@);
        assert(member(members.drop_first(), "poster"@) == Some(Tree::Str(p)));
        assert(field(Tree::Object(members), "poster"@) == Some(Tree::Str(p)));
    }
}

/// A user without an address is written as its bare name, and a bare name is
/// read as the address-less user of that name.
pub proof fn addressless_user_is_its_name(name: Seq<char>)
    ensures
        <ChatUser as ToJsonnable>::encoded(UserModel { name, poster: None }) == Tree::Str(name),
        <ChatUser as FromJsonnable>::decoded(Tree::Str(name)) == Ok::<UserModel, MarshalError>(
            UserModel { name, poster: None },
        ),
{
}

} // verus!
