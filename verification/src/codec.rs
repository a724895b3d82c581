//! The structured-data codec boundary: a variant encodes to its canonical
//! wire string as a quoted scalar, and decodes from exactly that text.

use vstd::prelude::*;
use vstd::string::StrSliceExecFns;
use vstd::string::StringExecFns;
use crate::models::Model;
use crate::models::ModelError;
use crate::models::canonical;
use crate::models::parse_spec;
use crate::models::lemma_canonical_then_parse;
use crate::role::Role;
use crate::role::role_canonical;
use crate::role::role_parse_spec;
use crate::role::lemma_role_canonical_then_parse;

verus! {

/// A scalar string in the structured wire format: the payload between
/// double quotes.
pub open spec fn quoted(s: Seq<char>) -> Seq<char> {
    seq!['"'] + s + seq!['"']
}

/// Whether a structured text is a quoted scalar.
pub open spec fn is_quoted(s: Seq<char>) -> bool {
    s.len() >= 2 && s[0] == '"' && s[s.len() - 1] == '"'
}

/// The payload of a quoted scalar.
pub open spec fn unquoted(s: Seq<char>) -> Seq<char> {
    s.subrange(1, s.len() - 1)
}

/// Which model variant, if any, a structured text encodes.
pub open spec fn decode_model_spec(s: Seq<char>) -> Option<Model> {
    if is_quoted(s) {
        parse_spec(unquoted(s))
    } else {
        None
    }
}

/// Which role, if any, a structured text encodes.
pub open spec fn decode_role_spec(s: Seq<char>) -> Option<Role> {
    if is_quoted(s) {
        role_parse_spec(unquoted(s))
    } else {
        None
    }
}

/// Wraps a payload in double quotes.
fn quote(s: &str) -> (r: String)
    ensures
        r@ == quoted(s@),
{
    let mut r: String = "\"".to_owned();
    r.append(s);
    r.append("\"");
    proof {
        reveal_strlit("\"");
        assert(r@ =~= quoted(s@));
    }
    r
}

/// Returns the payload of a quoted scalar, or nothing for any other text.
fn strip_quotes<'a>(s: &'a str) -> (r: Option<&'a str>)
    ensures
        r matches Some(t) ==> t@ == unquoted(s@),
        r is Some <==> is_quoted(s@),
{
    let n: usize = s.unicode_len();
    if n >= 2 {
        let first: char = s.get_char(0);
        let last: char = s.get_char(n - 1);
        if first == '"' && last == '"' {
            return Some(s.substring_char(1, n - 1));
        }
    }
    None
}

impl Model {
    /// Encodes this variant for the structured wire format: its canonical
    /// string as a quoted scalar.
    pub fn to_json_string(&self) -> (r: String)
        ensures
            r@ == quoted(canonical(*self)),
    {
        quote(self.as_canonical_str())
    }

    /// Decodes a structured text: succeeds exactly on the canonical wire
    /// strings as quoted scalars, and otherwise fails carrying the offending
    /// text verbatim.
    pub fn from_json_str(s: &str) -> (r: Result<Model, ModelError>)
        ensures
            r matches Ok(m) ==> decode_model_spec(s@) == Some(m),
            r is Ok <==> decode_model_spec(s@) is Some,
            r matches Err(e) ==> (e matches ModelError::UnsupportedModel(t) && t@ == s@),
    {
        match strip_quotes(s) {
            Some(inner) => match Model::from_str(inner) {
                Ok(m) => Ok(m),
                Err(_) => Err(ModelError::UnsupportedModel(s.to_owned())),
            },
            None => Err(ModelError::UnsupportedModel(s.to_owned())),
        }
    }
}

impl Role {
    /// Encodes this role for the structured wire format: its lowercase wire
    /// string as a quoted scalar.
    pub fn to_json_string(&self) -> (r: String)
        ensures
            r@ == quoted(role_canonical(*self)),
    {
        quote(self.as_canonical_str())
    }

    /// Decodes a structured text: succeeds exactly on the lowercase wire
    /// strings as quoted scalars, and otherwise fails carrying the offending
    /// text verbatim.
    pub fn from_json_str(s: &str) -> (r: Result<Role, ModelError>)
        ensures
            r matches Ok(v) ==> decode_role_spec(s@) == Some(v),
            r is Ok <==> decode_role_spec(s@) is Some,
            r matches Err(e) ==> (e matches ModelError::UnsupportedModel(t) && t@ == s@),
    {
        match strip_quotes(s) {
            Some(inner) => match Role::from_str(inner) {
                Ok(v) => Ok(v),
                Err(_) => Err(ModelError::UnsupportedModel(s.to_owned())),
            },
            None => Err(ModelError::UnsupportedModel(s.to_owned())),
        }
    }
}

/// Decoding a quoted scalar inspects exactly its payload.
pub proof fn lemma_decode_model_quoted(s: Seq<char>)
    ensures
        decode_model_spec(quoted(s)) == parse_spec(s),
{
    assert(is_quoted(quoted(s)));
    assert(unquoted(quoted(s)) =~= s);
}

/// Decoding a quoted scalar inspects exactly its payload.
pub proof fn lemma_decode_role_quoted(s: Seq<char>)
    ensures
        decode_role_spec(quoted(s)) == role_parse_spec(s),
{
    assert(is_quoted(quoted(s)));
    assert(unquoted(quoted(s)) =~= s);
}

/// Codec round trip: encoding a model variant and then decoding yields the
/// original variant.
pub proof fn lemma_model_codec_round_trip(v: Model)
    ensures
        decode_model_spec(quoted(canonical(v))) == Some(v),
{
    lemma_decode_model_quoted(canonical(v));
    lemma_canonical_then_parse(v);
}

/// Codec round trip: encoding a role and then decoding yields the original
/// role.
pub proof fn lemma_role_codec_round_trip(v: Role)
    ensures
        decode_role_spec(quoted(role_canonical(v))) == Some(v),
{
    lemma_decode_role_quoted(role_canonical(v));
    lemma_role_canonical_then_parse(v);
}

} // verus!
