use crate::auth::AuthOutcome;
use crate::chars::str_to_chars;
use crate::json::parse_json_str;
use crate::json::spec_parse_json;
use crate::radius::radius_from_json;
use crate::radius::radius_opts_view;
use crate::radius::spec_radius_opts;
use crate::radius::SpecRadiusOpts;
use vstd::prelude::*;
use vstd::string::*;

verus! {

/// The protocol families the decoder recognizes in the provider-identifying
/// response header. `Other` and `Ldap` are the plain family: a bare accept,
/// no body decoding. `Radius` is the attribute-bearing provider.
#[derive(Debug, Clone, Copy, PartialEq, Eq, Structural)]
pub enum Provider {
    Other,
    Ldap,
    Radius,
    Unknown,
}

/// ASCII case folding: the code point, with upper-case letters lowered.
pub open spec fn lower_code(c: char) -> int {
    if 65 <= c as u32 && c as u32 <= 90 {
        c as u32 + 32
    } else {
        c as u32 as int
    }
}

/// Case-insensitive equality of two texts, by ASCII folding.
pub open spec fn fold_eq(a: Seq<char>, b: Seq<char>) -> bool {
    a.len() == b.len() && forall|i: int| 0 <= i < a.len() ==> lower_code(#[trigger] a[i])
        == lower_code(b[i])
}

/// The family a header value names, matched case-insensitively against the
/// fixed set of recognized names.
pub open spec fn spec_provider_of(h: Seq<char>) -> Provider {
    if fold_eq(h, "other"@) {
        Provider::Other
    } else if fold_eq(h, "ldap"@) {
        Provider::Ldap
    } else if fold_eq(h, "radius"@) {
        Provider::Radius
    } else {
        Provider::Unknown
    }
}

fn fold_eq_str(h: &Vec<char>, lit: &str) -> (r: bool)
    ensures
        r == fold_eq(h@, lit@),
{
    let n = lit.unicode_len();
    if h.len() != n {
        return false;
    }
    let mut i: usize = 0;
    while i < n
        invariant
            n == lit@.len(),
            n == h@.len(),
            i <= n,
            forall|j: int| 0 <= j < i ==> lower_code(#[trigger] h@[j]) == lower_code(lit@[j]),
        decreases n - i,
    {
        let a = h[i] as u32;
        let b = lit.get_char(i) as u32;
        let la = if 65 <= a && a <= 90 {
            a + 32
        } else {
            a
        };
        let lb = if 65 <= b && b <= 90 {
            b + 32
        } else {
            b
        };
        if la != lb {
            return false;
        }
        i = i + 1;
    }
    true
}

/// Classifies the provider header value.
pub fn provider_of(header: &str) -> (r: Provider)
    ensures
        r == spec_provider_of(header@),
{
    let h = str_to_chars(header);
    if fold_eq_str(&h, "other") {
        Provider::Other
    } else if fold_eq_str(&h, "ldap") {
        Provider::Ldap
    } else if fold_eq_str(&h, "radius") {
        Provider::Radius
    } else {
        Provider::Unknown
    }
}

/// Why one authentication response did not decode to an acceptance.
/// `MalformedAttributes` is deliberately distinct from the others: a
/// provider that promised attributes and sent an unusable payload is a
/// protocol mismatch, not a plain authentication failure.
#[derive(Debug, Clone, Copy, PartialEq, Eq, Structural)]
pub enum DecodeError {
    NotSuccess,
    MissingHeader,
    UnknownProvider,
    MalformedAttributes,
}

/// Model of a tagged authentication outcome.
pub enum SpecOutcome {
    Denied,
    AcceptedPlain,
    AcceptedWithAttributes(SpecRadiusOpts),
}

pub open spec fn outcome_view(o: AuthOutcome) -> SpecOutcome {
    match o {
        AuthOutcome::Denied => SpecOutcome::Denied,
        AuthOutcome::AcceptedPlain => SpecOutcome::AcceptedPlain,
        AuthOutcome::AcceptedWithAttributes(opts) => SpecOutcome::AcceptedWithAttributes(
            radius_opts_view(opts),
        ),
    }
}

/// A body fails the attribute-bearing provider when it is unreadable, not a
/// JSON document, or not of the promised shape.
pub open spec fn spec_malformed_body(body: Option<Seq<char>>) -> bool {
    match body {
        None => true,
        Some(b) => match spec_parse_json(b) {
            None => true,
            Some(m) => spec_radius_opts(m) is None,
        },
    }
}

/// The decoder's full decision on one HTTP response: success is owed
/// exactly for status 200 with a recognized provider header, and, for the
/// attribute-bearing provider, a body of the promised shape.
pub open spec fn spec_decode(
    status: u16,
    header: Option<Seq<char>>,
    body: Option<Seq<char>>,
) -> Result<SpecOutcome, DecodeError> {
    if status != 200 {
        Err(DecodeError::NotSuccess)
    } else {
        match header {
            None => Err(DecodeError::MissingHeader),
            Some(h) => match spec_provider_of(h) {
                Provider::Other => Ok(SpecOutcome::AcceptedPlain),
                Provider::Ldap => Ok(SpecOutcome::AcceptedPlain),
                Provider::Radius => match body {
                    None => Err(DecodeError::MalformedAttributes),
                    Some(b) => match spec_parse_json(b) {
                        None => Err(DecodeError::MalformedAttributes),
                        Some(m) => match spec_radius_opts(m) {
                            None => Err(DecodeError::MalformedAttributes),
                            Some(o) => Ok(SpecOutcome::AcceptedWithAttributes(o)),
                        },
                    },
                },
                Provider::Unknown => Err(DecodeError::UnknownProvider),
            },
        }
    }
}

pub open spec fn opt_str_view(o: Option<&str>) -> Option<Seq<char>> {
    match o {
        None => None,
        Some(s) => Some(s@),
    }
}

/// Decodes one HTTP response exactly as the model does.
pub fn decode_auth_response(status: u16, header: Option<&str>, body: Option<&str>) -> (r: Result<
    AuthOutcome,
    DecodeError,
>)
    ensures
        match r {
            Ok(o) => spec_decode(status, opt_str_view(header), opt_str_view(body)) == Ok::<SpecOutcome, DecodeError>(
                outcome_view(o),
            ) && !(o is Denied),
            Err(e) => spec_decode(status, opt_str_view(header), opt_str_view(body))
                == Err::<SpecOutcome, DecodeError>(e),
        },
{
    if status != 200 {
        return Err(DecodeError::NotSuccess);
    }
    match header {
        None => Err(DecodeError::MissingHeader),
        Some(h) => match provider_of(h) {
            Provider::Other => Ok(AuthOutcome::AcceptedPlain),
            Provider::Ldap => Ok(AuthOutcome::AcceptedPlain),
            Provider::Radius => match body {
                None => Err(DecodeError::MalformedAttributes),
                Some(b) => match parse_json_str(b) {
                    None => Err(DecodeError::MalformedAttributes),
                    Some(m) => match radius_from_json(&m) {
                        None => Err(DecodeError::MalformedAttributes),
                        Some(opts) => Ok(AuthOutcome::AcceptedWithAttributes(opts)),
                    },
                },
            },
            Provider::Unknown => Err(DecodeError::UnknownProvider),
        },
    }
}

/// Everything a decode error folds to at the dispatcher boundary: the
/// single denied outcome. The host never sees the raw error, only logs do.
pub open spec fn spec_outcome_of_decode(d: Result<SpecOutcome, DecodeError>) -> SpecOutcome {
    match d {
        Ok(o) => o,
        Err(_) => SpecOutcome::Denied,
    }
}

/// The parts of an authentication response the dispatcher hands to the
/// decoder: the status, the provider-identifying header if present, and the
/// body if it could be read as text.
#[derive(Debug, Clone)]
pub struct HttpResponseParts {
    pub status: u16,
    pub provider_header: Option<String>,
    pub body: Option<String>,
}

pub open spec fn spec_response_view(r: Option<HttpResponseParts>) -> Option<
    (u16, Option<Seq<char>>, Option<Seq<char>>),
> {
    match r {
        None => None,
        Some(p) => Some((p.status, p.provider_header.deep_view(), p.body.deep_view())),
    }
}

/// The outcome of the network phase of one attempt: no response at all is a
/// transport failure and denies; otherwise the decoder decides and every
/// decode error folds to denied.
pub fn outcome_from_response(resp: &Option<HttpResponseParts>) -> (r: AuthOutcome)
    ensures
        match spec_response_view(*resp) {
            None => outcome_view(r) == SpecOutcome::Denied,
            Some((status, header, body)) => outcome_view(r) == spec_outcome_of_decode(
                spec_decode(status, header, body),
            ),
        },
{
    match resp {
        None => AuthOutcome::Denied,
        Some(p) => {
            let header: Option<&str> = match &p.provider_header {
                None => None,
                Some(h) => Some(h.as_str()),
            };
            let body: Option<&str> = match &p.body {
                None => None,
                Some(b) => Some(b.as_str()),
            };
            match decode_auth_response(p.status, header, body) {
                Ok(o) => o,
                Err(_) => AuthOutcome::Denied,
            }
        },
    }
}

/// Attributes are only ever produced for the attribute-bearing provider:
/// the plain family and every error path never carry them.
pub proof fn lemma_attributes_only_from_radius(
    status: u16,
    header: Option<Seq<char>>,
    body: Option<Seq<char>>,
)
    ensures
        (spec_decode(status, header, body) matches Ok(o) && o is AcceptedWithAttributes)
            ==> (header matches Some(h) && spec_provider_of(h) == Provider::Radius),
{
}

/// Any response whose status is not 200 is denied, whatever the header and
/// body hold.
pub proof fn lemma_non_success_is_denied(
    status: u16,
    header: Option<Seq<char>>,
    body: Option<Seq<char>>,
)
    requires
        status != 200,
    ensures
        spec_decode(status, header, body) == Err::<SpecOutcome, DecodeError>(DecodeError::NotSuccess),
        spec_outcome_of_decode(spec_decode(status, header, body)) == SpecOutcome::Denied,
{
}

/// A response whose provider header case-insensitively matches a plain
/// family name is accepted plainly, whatever the body holds — even a
/// non-empty or unparseable one.
pub proof fn lemma_plain_provider_accepts(header: Seq<char>, body: Option<Seq<char>>)
    requires
        fold_eq(header, "other"@) || fold_eq(header, "ldap"@),
    ensures
        spec_decode(200, Some(header), body) == Ok::<SpecOutcome, DecodeError>(SpecOutcome::AcceptedPlain),
{
    reveal_strlit("other");
    reveal_strlit("ldap");
}

/// For the attribute-bearing provider, a malformed body is denied, with an
/// error distinct from every transport-level failure.
pub proof fn lemma_malformed_attributes_denied(header: Seq<char>, body: Option<Seq<char>>)
    requires
        fold_eq(header, "radius"@),
        spec_malformed_body(body),
    ensures
        spec_decode(200, Some(header), body) == Err::<SpecOutcome, DecodeError>(DecodeError::MalformedAttributes),
        spec_outcome_of_decode(spec_decode(200, Some(header), body)) == SpecOutcome::Denied,
        DecodeError::MalformedAttributes != DecodeError::NotSuccess,
{
    reveal_strlit("other");
    reveal_strlit("ldap");
    reveal_strlit("radius");
}

} // verus!
