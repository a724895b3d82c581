//! The message-role tag and its fixed lowercase wire strings.

use vstd::prelude::*;
use crate::models::ModelError;
use crate::text::str_eq;

verus! {

/// The origin of a message in a chat conversation.
///
/// - `System`: instructions to the assistant,
/// - `User`: input or question from the user,
/// - `Assistant`: response generated by the assistant.
#[derive(Debug, PartialEq, Eq, Structural, Clone, Copy)]
pub enum Role {
    System,
    User,
    Assistant,
}

/// The fixed lowercase wire string of a role.
pub open spec fn role_canonical(r: Role) -> Seq<char> {
    match r {
        Role::System => "system"@,
        Role::User => "user"@,
        Role::Assistant => "assistant"@,
    }
}

/// Which role, if any, a string names: exact match against the lowercase
/// wire strings, case- and whitespace-sensitive.
pub open spec fn role_parse_spec(s: Seq<char>) -> Option<Role> {
    if s == "system"@ {
        Some(Role::System)
    } else if s == "user"@ {
        Some(Role::User)
    } else if s == "assistant"@ {
        Some(Role::Assistant)
    } else {
        None
    }
}

impl Role {
    /// The lowercase wire string of this role, as a borrowed slice.
    pub fn as_canonical_str(&self) -> (r: &'static str)
        ensures
            r@ == role_canonical(*self),
    {
        match self {
            Role::System => "system",
            Role::User => "user",
            Role::Assistant => "assistant",
        }
    }

    /// The lowercase wire string of this role, as an owned string.
    pub fn to_canonical_string(&self) -> (r: String)
        ensures
            r@ == role_canonical(*self),
    {
        self.as_canonical_str().to_owned()
    }

    /// Parses a role name: succeeds exactly on the lowercase wire strings,
    /// and otherwise fails carrying the offending input verbatim.
    pub fn from_str(s: &str) -> (r: Result<Role, ModelError>)
        ensures
            r matches Ok(v) ==> role_parse_spec(s@) == Some(v),
            r is Ok <==> role_parse_spec(s@) is Some,
            r matches Err(e) ==> (e matches ModelError::UnsupportedModel(t) && t@ == s@),
    {
        if str_eq(s, "system") {
            Ok(Role::System)
        } else if str_eq(s, "user") {
            Ok(Role::User)
        } else if str_eq(s, "assistant") {
            Ok(Role::Assistant)
        } else {
            Err(ModelError::UnsupportedModel(s.to_owned()))
        }
    }
}

/// Round trip: any string that the role parser accepts is exactly the wire
/// string of the role it yields.
pub proof fn lemma_role_parse_then_canonical(s: Seq<char>, v: Role)
    requires
        role_parse_spec(s) == Some(v),
    ensures
        role_canonical(v) == s,
{
}

/// Round trip: the wire string of every role parses back to that same role.
pub proof fn lemma_role_canonical_then_parse(v: Role)
    ensures
        role_parse_spec(role_canonical(v)) == Some(v),
{
    reveal_strlit("system");
    reveal_strlit("user");
    reveal_strlit("assistant");
    assert("system"@.len() == 6);
    assert("user"@.len() == 4);
    assert("assistant"@.len() == 9);
}

} // verus!
