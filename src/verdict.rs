use vstd::prelude::*;

verus! {

/// The status code of a healthy response.
pub const STATUS_OK: u16 = 200;

/// The status code of an unhealthy response.
pub const STATUS_INTERNAL_SERVER_ERROR: u16 = 500;

/// The liveness verdict derived from whether the deadline has passed.
#[derive(Clone, Copy, Debug, PartialEq, Eq, Structural)]
pub enum Verdict {
    Healthy,
    Unhealthy,
}

/// The verdict for a deadline that has (or has not) passed.
pub open spec fn verdict_of(expired: bool) -> Verdict {
    if expired {
        Verdict::Unhealthy
    } else {
        Verdict::Healthy
    }
}

/// The gauge value that encodes a verdict, 1 when healthy and 0 otherwise.
pub open spec fn gauge_of(v: Verdict) -> i64 {
    match v {
        Verdict::Healthy => 1,
        Verdict::Unhealthy => 0,
    }
}

/// The status code that encodes a verdict.
pub open spec fn status_of(v: Verdict) -> u16 {
    match v {
        Verdict::Healthy => STATUS_OK,
        Verdict::Unhealthy => STATUS_INTERNAL_SERVER_ERROR,
    }
}

/// The word that names a verdict.
pub open spec fn label_of(v: Verdict) -> Seq<char> {
    match v {
        Verdict::Healthy => seq!['h', 'e', 'a', 'l', 't', 'h', 'y'],
        Verdict::Unhealthy => seq!['u', 'n', 'h', 'e', 'a', 'l', 't', 'h', 'y'],
    }
}

/// The response body for a verdict, which is its word as a JSON string literal.
pub open spec fn body_of(v: Verdict) -> Seq<char> {
    seq!['"'] + label_of(v) + seq!['"']
}

impl Verdict {
    /// The verdict for a deadline that has (or has not) passed.
    pub fn from_expired(expired: bool) -> (r: Verdict)
        ensures
            r == verdict_of(expired),
    {
        if expired {
            Verdict::Unhealthy
        } else {
            Verdict::Healthy
        }
    }

    /// The value the exported gauge takes for this verdict.
    pub fn gauge_value(&self) -> (r: i64)
        ensures
            r == gauge_of(*self),
    {
        match self {
            Verdict::Healthy => 1,
            Verdict::Unhealthy => 0,
        }
    }

    /// The status code the health endpoint answers with.
    pub fn status_code(&self) -> (r: u16)
        ensures
            r == status_of(*self),
    {
        match self {
            Verdict::Healthy => STATUS_OK,
            Verdict::Unhealthy => STATUS_INTERNAL_SERVER_ERROR,
        }
    }

    /// The word that names this verdict.
    pub fn label(&self) -> (r: &'static str)
        ensures
            r@ == label_of(*self),
    {
        match self {
            Verdict::Healthy => {
                proof {
                    reveal_strlit("healthy");
                }
                "healthy"
            },
            Verdict::Unhealthy => {
                proof {
                    reveal_strlit("unhealthy");
                }
                "unhealthy"
            },
        }
    }

    /// The body the health endpoint answers with: the word as a JSON string.
    pub fn body(&self) -> (r: String)
        ensures
            r@ == body_of(*self),
    {
        let word = self.label();
        let r = json_string(word);
        assert(needs_no_escape(word@));
        r
    }
}

/// Whether every character of `s` is written as itself inside a JSON string:
/// no quote, no backslash, no control character.
pub open spec fn needs_no_escape(s: Seq<char>) -> bool {
    forall|i: int| 0 <= i < s.len() ==> #[trigger] s[i] != '"' && s[i] != '\\' && s[i] >= ' '
}

/// Relies on serde_json's `Display` for `Value::String`: the text is the
/// string between double quotes, each character written as itself unless it
/// is a quote, a backslash or a control character.
#[verifier::external_body]
fn json_string(s: &str) -> (r: String)
    ensures
        needs_no_escape(s@) ==> r@ == seq!['"'] + s@ + seq!['"'],
{
    serde_json::Value::String(s.to_string()).to_string()
}

} // verus!
