//! The model identifier registry: a closed set of supported model variants,
//! their canonical wire strings, and their context-length limits.

use vstd::prelude::*;
use vstd::string::StringExecFns;
use crate::text::str_eq;

verus! {

/// The closed set of supported hosted models.
///
/// Each variant has exactly one canonical wire string ([`canonical`]) and a
/// fixed positive context-length limit ([`Model::max_tokens`]).
#[derive(Debug, PartialEq, Eq, Structural, Clone, Copy)]
#[allow(non_camel_case_types)]
pub enum Model {
    Gpt3_5Turbo,
    Gpt_4,
    Gpt_4_32k,
    Gpt_4Turbo,
    Gpt_4o,
    Gpt_4Turbo_Vision,
}

/// A model parsing issue.
#[derive(Debug)]
pub enum ModelError {
    /// Unknown or not supported model; carries the offending input verbatim.
    UnsupportedModel(String),
}

/// The canonical wire string of a variant, as the hosted API expects it.
pub open spec fn canonical(m: Model) -> Seq<char> {
    match m {
        Model::Gpt3_5Turbo => "gpt-3.5-turbo"@,
        Model::Gpt_4 => "gpt-4"@,
        Model::Gpt_4_32k => "gpt-4-32k"@,
        Model::Gpt_4Turbo => "gpt-4-1106-preview"@,
        Model::Gpt_4o => "gpt-4o"@,
        Model::Gpt_4Turbo_Vision => "gpt-4-vision-preview"@,
    }
}

/// Which variant, if any, a string names: exact match against the canonical
/// wire strings, case- and whitespace-sensitive.
pub open spec fn parse_spec(s: Seq<char>) -> Option<Model> {
    if s == "gpt-3.5-turbo"@ {
        Some(Model::Gpt3_5Turbo)
    } else if s == "gpt-4"@ {
        Some(Model::Gpt_4)
    } else if s == "gpt-4-32k"@ {
        Some(Model::Gpt_4_32k)
    } else if s == "gpt-4o"@ {
        Some(Model::Gpt_4o)
    } else if s == "gpt-4-1106-preview"@ {
        Some(Model::Gpt_4Turbo)
    } else if s == "gpt-4-vision-preview"@ {
        Some(Model::Gpt_4Turbo_Vision)
    } else {
        None
    }
}

/// The context-length limit of a variant.
pub open spec fn spec_max_tokens(m: Model) -> usize {
    match m {
        Model::Gpt3_5Turbo => 4096,
        Model::Gpt_4 => 8192,
        Model::Gpt_4_32k => 32768,
        Model::Gpt_4o => 128000,
        Model::Gpt_4Turbo => 128000,
        Model::Gpt_4Turbo_Vision => 128000,
    }
}

impl Model {
    /// The maximum number of tokens the model accepts in a single call.
    pub fn max_tokens(&self) -> (r: usize)
        ensures
            r == spec_max_tokens(*self),
            r > 0,
    {
        match self {
            Model::Gpt3_5Turbo => 4096,
            Model::Gpt_4 => 8192,
            Model::Gpt_4_32k => 32768,
            Model::Gpt_4o => 128000,
            Model::Gpt_4Turbo => 128000,
            Model::Gpt_4Turbo_Vision => 128000,
        }
    }

    /// The canonical wire string of this variant, as a borrowed slice.
    pub fn as_canonical_str(&self) -> (r: &'static str)
        ensures
            r@ == canonical(*self),
    {
        match self {
            Model::Gpt3_5Turbo => "gpt-3.5-turbo",
            Model::Gpt_4 => "gpt-4",
            Model::Gpt_4_32k => "gpt-4-32k",
            Model::Gpt_4Turbo => "gpt-4-1106-preview",
            Model::Gpt_4o => "gpt-4o",
            Model::Gpt_4Turbo_Vision => "gpt-4-vision-preview",
        }
    }

    /// The canonical wire string of this variant, as an owned string.
    pub fn to_canonical_string(&self) -> (r: String)
        ensures
            r@ == canonical(*self),
    {
        self.as_canonical_str().to_owned()
    }

    /// Parses a model name: succeeds exactly on the canonical wire strings,
    /// and otherwise fails carrying the offending input verbatim.
    pub fn from_str(s: &str) -> (r: Result<Model, ModelError>)
        ensures
            r matches Ok(m) ==> parse_spec(s@) == Some(m),
            r is Ok <==> parse_spec(s@) is Some,
            r matches Err(e) ==> (e matches ModelError::UnsupportedModel(t) && t@ == s@),
    {
        if str_eq(s, "gpt-3.5-turbo") {
            Ok(Model::Gpt3_5Turbo)
        } else if str_eq(s, "gpt-4") {
            Ok(Model::Gpt_4)
        } else if str_eq(s, "gpt-4-32k") {
            Ok(Model::Gpt_4_32k)
        } else if str_eq(s, "gpt-4o") {
            Ok(Model::Gpt_4o)
        } else if str_eq(s, "gpt-4-1106-preview") {
            Ok(Model::Gpt_4Turbo)
        } else if str_eq(s, "gpt-4-vision-preview") {
            Ok(Model::Gpt_4Turbo_Vision)
        } else {
            Err(ModelError::UnsupportedModel(s.to_owned()))
        }
    }
}

impl ModelError {
    /// A human-readable description of the error.
    pub fn message(&self) -> (r: String)
        ensures
            self matches ModelError::UnsupportedModel(t) ==> r@ == "Unsupported model: "@ + t@,
    {
        match self {
            ModelError::UnsupportedModel(t) => {
                let mut r: String = "Unsupported model: ".to_owned();
                r.append(t.as_str());
                r
            },
        }
    }
}

/// Round trip: any string that the parser accepts is exactly the canonical
/// wire string of the variant it yields.
pub proof fn lemma_parse_then_canonical(s: Seq<char>, v: Model)
    requires
        parse_spec(s) == Some(v),
    ensures
        canonical(v) == s,
{
}

/// Round trip: the canonical wire string of every variant parses back to
/// that same variant.
pub proof fn lemma_canonical_then_parse(v: Model)
    ensures
        parse_spec(canonical(v)) == Some(v),
{
    reveal_strlit("gpt-3.5-turbo");
    reveal_strlit("gpt-4");
    reveal_strlit("gpt-4-32k");
    reveal_strlit("gpt-4o");
    reveal_strlit("gpt-4-1106-preview");
    reveal_strlit("gpt-4-vision-preview");
    assert("gpt-3.5-turbo"@.len() == 13);
    assert("gpt-4"@.len() == 5);
    assert("gpt-4-32k"@.len() == 9);
    assert("gpt-4o"@.len() == 6);
    assert("gpt-4-1106-preview"@.len() == 18);
    assert("gpt-4-vision-preview"@.len() == 20);
}

/// Totality: every variant has a defined, positive context-length limit.
pub proof fn lemma_max_tokens_positive(v: Model)
    ensures
        spec_max_tokens(v) > 0,
{
}

} // verus!
