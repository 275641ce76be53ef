use crate::chars::chars_to_string;
use crate::chars::str_to_chars;
use crate::liveset::live_set_wf;
use crate::radius::spec_ccd_path;
use crate::radius::spec_ccd_view;
use crate::radius::spec_provisioning_content;
use crate::radius::spec_provisioning_due;
use crate::radius::provisioning_plan;
use crate::radius::ProvisioningWrite;
use crate::radius::RadiusResponseOpts;
use vstd::prelude::*;
use vstd::string::*;

verus! {

/// One in-flight authentication attempt, handed in by the host: the
/// credentials, the client address, and the control file through which the
/// decision is reported back.
#[derive(Debug, Clone)]
pub struct AuthRequest {
    pub username: String,
    pub password: String,
    pub client_ip: String,
    pub control_file: String,
}

/// A required attempt field was absent (or unreadable) in the host
/// environment. Each such attempt fails before any network call.
#[derive(Debug, Clone, Copy, PartialEq, Eq, Structural)]
pub enum AuthInputError {
    MissingUsername,
    MissingPassword,
    MissingControlFile,
    MissingClientIp,
}

/// Tagged result of one authentication call.
#[derive(Debug, Clone)]
pub enum AuthOutcome {
    Denied,
    AcceptedPlain,
    AcceptedWithAttributes(RadiusResponseOpts),
}

pub open spec fn spec_build_auth_request(
    username: Option<String>,
    password: Option<String>,
    control_file: Option<String>,
    client_ip: Option<String>,
) -> Result<AuthRequest, AuthInputError> {
    if username is None {
        Err(AuthInputError::MissingUsername)
    } else if password is None {
        Err(AuthInputError::MissingPassword)
    } else if control_file is None {
        Err(AuthInputError::MissingControlFile)
    } else if client_ip is None {
        Err(AuthInputError::MissingClientIp)
    } else {
        Ok(
            AuthRequest {
                username: username->0,
                password: password->0,
                client_ip: client_ip->0,
                control_file: control_file->0,
            },
        )
    }
}

/// Validates the per-attempt host environment: the attempt is accepted for
/// dispatch exactly when all four required fields are present, and otherwise
/// names the first absent one, in the order the host glue checks them.
pub fn build_auth_request(
    username: Option<String>,
    password: Option<String>,
    control_file: Option<String>,
    client_ip: Option<String>,
) -> (r: Result<AuthRequest, AuthInputError>)
    ensures
        r == spec_build_auth_request(username, password, control_file, client_ip),
{
    match (username, password, control_file, client_ip) {
        (None, _, _, _) => Err(AuthInputError::MissingUsername),
        (_, None, _, _) => Err(AuthInputError::MissingPassword),
        (_, _, None, _) => Err(AuthInputError::MissingControlFile),
        (_, _, _, None) => Err(AuthInputError::MissingClientIp),
        (Some(u), Some(p), Some(cf), Some(ip)) => Ok(
            AuthRequest { username: u, password: p, client_ip: ip, control_file: cf },
        ),
    }
}

/// The dispatcher's first decision for one attempt: deny outright, or call
/// one backend.
#[derive(Debug, Clone, Copy, PartialEq, Eq, Structural)]
pub enum DispatchPlan {
    Deny,
    Call { idx: usize },
}

/// Backend selection policy: the first index of the snapshot, an
/// arbitrary-but-deterministic choice among currently-live backends; an
/// empty snapshot is the sole fast-fail path, denied before any network
/// call.
pub open spec fn spec_plan_dispatch(live: Seq<usize>) -> DispatchPlan {
    if live.len() == 0 {
        DispatchPlan::Deny
    } else {
        DispatchPlan::Call { idx: live[0] }
    }
}

pub fn plan_dispatch(live: &Vec<usize>) -> (r: DispatchPlan)
    ensures
        r == spec_plan_dispatch(live@),
{
    if live.len() == 0 {
        DispatchPlan::Deny
    } else {
        DispatchPlan::Call { idx: live[0] }
    }
}

/// For every non-empty live-set snapshot that is well formed for a catalog
/// of `cap` entries, dispatcher selection picks a backend index within
/// catalog bounds.
pub proof fn lemma_selection_in_bounds(live: Seq<usize>, cap: nat)
    requires
        live_set_wf(live, cap),
        live.len() > 0,
    ensures
        spec_plan_dispatch(live) matches DispatchPlan::Call { idx } && (idx as nat) < cap,
{
}

/// An empty live-set snapshot is denied outright: the plan carries no
/// backend call.
pub proof fn lemma_empty_snapshot_denies(live: Seq<usize>)
    requires
        live.len() == 0,
    ensures
        spec_plan_dispatch(live) == DispatchPlan::Deny,
{
}

/// Authentication calls go to the `auth` route under the backend's base URL.
pub fn auth_endpoint_url(base: &String) -> (r: String)
    ensures
        r@ == base@ + "/auth"@,
{
    let mut s = base.clone();
    s.append("/auth");
    s
}

/// Hex digit for one nibble of a code-point escape.
pub open spec fn hex_char(n: int) -> char {
    if n == 0 {
        '0'
    } else if n == 1 {
        '1'
    } else if n == 2 {
        '2'
    } else if n == 3 {
        '3'
    } else if n == 4 {
        '4'
    } else if n == 5 {
        '5'
    } else if n == 6 {
        '6'
    } else if n == 7 {
        '7'
    } else if n == 8 {
        '8'
    } else if n == 9 {
        '9'
    } else if n == 10 {
        'a'
    } else if n == 11 {
        'b'
    } else if n == 12 {
        'c'
    } else if n == 13 {
        'd'
    } else if n == 14 {
        'e'
    } else {
        'f'
    }
}

fn hex_char_exec(n: u32) -> (r: char)
    requires
        n < 16,
    ensures
        r == hex_char(n as int),
{
    if n == 0 {
        '0'
    } else if n == 1 {
        '1'
    } else if n == 2 {
        '2'
    } else if n == 3 {
        '3'
    } else if n == 4 {
        '4'
    } else if n == 5 {
        '5'
    } else if n == 6 {
        '6'
    } else if n == 7 {
        '7'
    } else if n == 8 {
        '8'
    } else if n == 9 {
        '9'
    } else if n == 10 {
        'a'
    } else if n == 11 {
        'b'
    } else if n == 12 {
        'c'
    } else if n == 13 {
        'd'
    } else if n == 14 {
        'e'
    } else {
        'f'
    }
}

/// What one character of a credential becomes in the request body: the
/// named escapes for quote, backslash and the common control characters, a
/// code-point escape for the remaining control characters, the character
/// itself otherwise.
pub open spec fn spec_escape_char(c: char) -> Seq<char> {
    if c == '"' {
        seq!['\\', '"']
    } else if c == '\\' {
        seq!['\\', '\\']
    } else if c == '\n' {
        seq!['\\', 'n']
    } else if c == '\r' {
        seq!['\\', 'r']
    } else if c == '\t' {
        seq!['\\', 't']
    } else if c == '\u{0008}' {
        seq!['\\', 'b']
    } else if c == '\u{000C}' {
        seq!['\\', 'f']
    } else if (c as u32) < 32 {
        seq!['\\', 'u', '0', '0', hex_char(c as u32 as int / 16), hex_char(c as u32 as int % 16)]
    } else {
        seq![c]
    }
}

pub open spec fn spec_escape(s: Seq<char>) -> Seq<char>
    decreases s.len(),
{
    if s.len() == 0 {
        Seq::empty()
    } else {
        spec_escape(s.drop_last()) + spec_escape_char(s.last())
    }
}

fn escape_char_exec(c: char) -> (r: Vec<char>)
    ensures
        r@ == spec_escape_char(c),
{
    let mut v: Vec<char> = Vec::new();
    if c == '"' {
        v.push('\\');
        v.push('"');
    } else if c == '\\' {
        v.push('\\');
        v.push('\\');
    } else if c == '\n' {
        v.push('\\');
        v.push('n');
    } else if c == '\r' {
        v.push('\\');
        v.push('r');
    } else if c == '\t' {
        v.push('\\');
        v.push('t');
    } else if c == '\u{0008}' {
        v.push('\\');
        v.push('b');
    } else if c == '\u{000C}' {
        v.push('\\');
        v.push('f');
    } else if (c as u32) < 32 {
        v.push('\\');
        v.push('u');
        v.push('0');
        v.push('0');
        v.push(hex_char_exec((c as u32) / 16));
        v.push(hex_char_exec((c as u32) % 16));
    } else {
        v.push(c);
    }
    proof {
        assert(v@ =~= spec_escape_char(c));
    }
    v
}

fn append_str_chars(out: &mut Vec<char>, s: &str)
    ensures
        final(out)@ == old(out)@ + s@,
{
    let n = s.unicode_len();
    let mut i: usize = 0;
    while i < n
        invariant
            n == s@.len(),
            i <= n,
            out@ == old(out)@ + s@.subrange(0, i as int),
        decreases n - i,
    {
        out.push(s.get_char(i));
        i = i + 1;
        proof {
            assert(out@ =~= old(out)@ + s@.subrange(0, i as int));
        }
    }
    proof {
        assert(out@ =~= old(out)@ + s@);
    }
}

fn append_escaped(out: &mut Vec<char>, s: &str)
    ensures
        final(out)@ == old(out)@ + spec_escape(s@),
{
    let cs = str_to_chars(s);
    let n = cs.len();
    let mut i: usize = 0;
    proof {
        assert(spec_escape(s@.subrange(0, 0)) =~= Seq::<char>::empty());
    }
    while i < n
        invariant
            n == cs@.len(),
            cs@ == s@,
            i <= n,
            out@ == old(out)@ + spec_escape(s@.subrange(0, i as int)),
        decreases n - i,
    {
        let mut e = escape_char_exec(cs[i]);
        out.append(&mut e);
        i = i + 1;
        proof {
            assert(s@.subrange(0, i as int).drop_last() =~= s@.subrange(0, i as int - 1));
            assert(out@ =~= old(out)@ + spec_escape(s@.subrange(0, i as int)));
        }
    }
    proof {
        assert(s@.subrange(0, n as int) =~= s@);
        assert(out@ =~= old(out)@ + spec_escape(s@));
    }
}

/// The JSON request body posted to a backend's authentication route: the
/// three credential fields, each escaped.
pub open spec fn spec_post_body(u: Seq<char>, p: Seq<char>, ip: Seq<char>) -> Seq<char> {
    "{\"u\":\""@ + spec_escape(u) + "\",\"p\":\""@ + spec_escape(p) + "\",\"client_ip\":\""@
        + spec_escape(ip) + "\"}"@
}

/// Builds the request body for one attempt.
pub fn auth_post_body(username: &str, password: &str, client_ip: &str) -> (r: String)
    ensures
        r@ == spec_post_body(username@, password@, client_ip@),
{
    let mut out: Vec<char> = Vec::new();
    append_str_chars(&mut out, "{\"u\":\"");
    append_escaped(&mut out, username);
    append_str_chars(&mut out, "\",\"p\":\"");
    append_escaped(&mut out, password);
    append_str_chars(&mut out, "\",\"client_ip\":\"");
    append_escaped(&mut out, client_ip);
    append_str_chars(&mut out, "\"}");
    let s = chars_to_string(&out);
    proof {
        assert(s@ =~= spec_post_body(username@, password@, client_ip@));
    }
    s
}

/// Control-file body for a decision: the single character `1` on accept,
/// `0` on deny.
pub open spec fn spec_decision_content(accepted: bool) -> Seq<char> {
    if accepted {
        "1"@
    } else {
        "0"@
    }
}

pub fn decision_content(accepted: bool) -> (r: &'static str)
    ensures
        r@ == spec_decision_content(accepted),
{
    if accepted {
        "1"
    } else {
        "0"
    }
}

/// Model of the host-visible control file: a decision write replaces the
/// whole content (never appends), so the file afterwards holds exactly the
/// decision body, whatever it held before.
pub open spec fn spec_control_file_after_write(prev: Seq<char>, accepted: bool) -> Seq<char> {
    spec_decision_content(accepted)
}

/// Writing the same decision twice leaves the file exactly as one write
/// does: the latest single-character value, with nothing appended.
pub proof fn lemma_decision_write_idempotent(prev: Seq<char>, accepted: bool)
    ensures
        spec_control_file_after_write(
            spec_control_file_after_write(prev, accepted),
            accepted,
        ) == spec_control_file_after_write(prev, accepted),
        spec_control_file_after_write(prev, accepted) == spec_decision_content(accepted),
{
}

/// Everything the result sink owes for one concluded attempt: at most one
/// provisioning write, then the control-file decision.
#[derive(Debug, Clone)]
pub struct SinkPlan {
    pub provisioning: Option<ProvisioningWrite>,
    pub accept: bool,
}

/// Concludes one attempt: the decision accepts exactly the non-denied
/// outcomes, and the provisioning write is planned exactly when the outcome
/// carries attributes with both address and netmask and a client-config
/// directory is configured. A failing provisioning write never downgrades
/// the decision: the two sink writes are independent by construction.
pub fn conclude(outcome: &AuthOutcome, ccd: &Option<String>, username: &String) -> (r: SinkPlan)
    ensures
        r.accept == !(*outcome is Denied),
        r.provisioning is Some <==> (*outcome matches AuthOutcome::AcceptedWithAttributes(o)
            && spec_provisioning_due(o, spec_ccd_view(*ccd))),
        r.provisioning matches Some(w) ==> (*outcome matches AuthOutcome::AcceptedWithAttributes(o)
            && w.path@ == spec_ccd_path(ccd->0@, username@) && w.content@
            == spec_provisioning_content(o.ip->0@, o.netmask->0@)),
{
    match outcome {
        AuthOutcome::Denied => SinkPlan { provisioning: None, accept: false },
        AuthOutcome::AcceptedPlain => SinkPlan { provisioning: None, accept: true },
        AuthOutcome::AcceptedWithAttributes(o) => SinkPlan {
            provisioning: provisioning_plan(o, ccd, username),
            accept: true,
        },
    }
}

} // verus!
