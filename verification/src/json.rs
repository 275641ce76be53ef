use crate::chars::chars_eq_str;
use crate::chars::chars_to_string;
use crate::chars::str_to_chars;
use vstd::prelude::*;

verus! {

// The wire format of both upstream protocols (authentication responses and
// monitoring status payloads) is a JSON document. The grammar accepted here:
// objects, arrays, strings with the single-character escapes
// (\" \\ \/ \b \f \n \r \t), integer numbers of at most 18 digits, and the
// three literals. Code-point escapes (\uXXXX), fractions and exponents are
// not part of this decoder's grammar: a payload using them is rejected, and
// rejection of a payload is always surfaced as a decode failure, never as an
// accepted value.

/// A decoded JSON document.
#[derive(Debug)]
pub enum JsonValue {
    Null,
    Bool(bool),
    Int(i64),
    Str(Vec<char>),
    Arr(Vec<JsonValue>),
    Obj(Vec<(Vec<char>, JsonValue)>),
}

/// The mathematical model of a decoded document.
pub enum SpecJson {
    Null,
    Bool(bool),
    Int(int),
    Str(Seq<char>),
    Arr(Seq<SpecJson>),
    Obj(Seq<(Seq<char>, SpecJson)>),
}

pub open spec fn seq_view(vs: Seq<JsonValue>) -> Seq<SpecJson>
    decreases vs,
{
    Seq::new(
        vs.len(),
        |i: int|
            if 0 <= i < vs.len() {
                vs[i].view()
            } else {
                SpecJson::Null
            },
    )
}

pub open spec fn fields_view(fs: Seq<(Vec<char>, JsonValue)>) -> Seq<(Seq<char>, SpecJson)>
    decreases fs,
{
    Seq::new(
        fs.len(),
        |i: int|
            if 0 <= i < fs.len() {
                (fs[i].0@, fs[i].1.view())
            } else {
                (Seq::<char>::empty(), SpecJson::Null)
            },
    )
}

impl JsonValue {
    /// The model of this value.
    pub open spec fn view(self) -> SpecJson
        decreases self,
    {
        match self {
            JsonValue::Null => SpecJson::Null,
            JsonValue::Bool(b) => SpecJson::Bool(b),
            JsonValue::Int(n) => SpecJson::Int(n as int),
            JsonValue::Str(cs) => SpecJson::Str(cs@),
            JsonValue::Arr(vs) => SpecJson::Arr(seq_view(vs@)),
            JsonValue::Obj(fs) => SpecJson::Obj(fields_view(fs@)),
        }
    }
}

pub open spec fn is_json_ws(c: char) -> bool {
    c == ' ' || c == '\t' || c == '\n' || c == '\r'
}

pub open spec fn spec_skip_ws(s: Seq<char>, i: int) -> int
    decreases s.len() - i when 0 <= i <= s.len()
{
    if i < s.len() && is_json_ws(s[i]) {
        spec_skip_ws(s, i + 1)
    } else {
        i
    }
}

fn is_ws_exec(c: char) -> (r: bool)
    ensures
        r == is_json_ws(c),
{
    c == ' ' || c == '\t' || c == '\n' || c == '\r'
}

fn skip_ws(s: &Vec<char>, i: usize) -> (r: usize)
    requires
        i <= s@.len(),
    ensures
        r as int == spec_skip_ws(s@, i as int),
        i <= r <= s@.len(),
{
    let mut j = i;
    while j < s.len() && is_ws_exec(s[j])
        invariant
            i <= j <= s@.len(),
            spec_skip_ws(s@, i as int) == spec_skip_ws(s@, j as int),
        decreases s@.len() - j,
    {
        j = j + 1;
    }
    j
}

pub open spec fn is_digit(c: char) -> bool {
    48 <= c as int && c as int <= 57
}

fn is_digit_exec(c: char) -> (r: bool)
    ensures
        r == is_digit(c),
{
    let u = c as u32;
    48 <= u && u <= 57
}

pub open spec fn digit_val(c: char) -> int {
    c as int - 48
}

pub open spec fn spec_scan_digits(s: Seq<char>, i: int) -> int
    decreases s.len() - i when 0 <= i <= s.len()
{
    if i < s.len() && is_digit(s[i]) {
        spec_scan_digits(s, i + 1)
    } else {
        i
    }
}

/// Value of the digit run `s[i..j]`, most significant first.
pub open spec fn spec_digits_value(s: Seq<char>, i: int, j: int) -> int
    decreases j - i when i <= j
{
    if i < j {
        spec_digits_value(s, i, j - 1) * 10 + digit_val(s[j - 1])
    } else {
        0
    }
}

pub open spec fn pow10(n: nat) -> int
    decreases n,
{
    if n == 0 {
        1
    } else {
        10 * pow10((n - 1) as nat)
    }
}

proof fn lemma_pow10_pos(n: nat)
    ensures
        1 <= pow10(n),
    decreases n,
{
    if n > 0 {
        lemma_pow10_pos((n - 1) as nat);
    }
}

proof fn lemma_pow10_mono(a: nat, b: nat)
    requires
        a <= b,
    ensures
        1 <= pow10(a) <= pow10(b),
    decreases b,
{
    if a == b {
        lemma_pow10_pos(a);
    } else {
        lemma_pow10_mono(a, (b - 1) as nat);
        lemma_pow10_pos((b - 1) as nat);
    }
}

proof fn lemma_digits_value_bound(s: Seq<char>, i: int, j: int)
    requires
        i <= j,
        forall|t: int| i <= t < j ==> is_digit(#[trigger] s[t]),
    ensures
        0 <= spec_digits_value(s, i, j) < pow10((j - i) as nat),
    decreases j - i,
{
    if i < j {
        lemma_digits_value_bound(s, i, j - 1);
    }
}

/// An integer literal: an optional sign, then at most 18 digits with no
/// leading zero. The result and the position after the run.
pub open spec fn spec_parse_number(s: Seq<char>, i: int) -> Option<(int, int)> {
    let neg = i < s.len() && s[i] == '-';
    let k = if neg {
        i + 1
    } else {
        i
    };
    let j = spec_scan_digits(s, k);
    if j == k {
        None
    } else if s[k] == '0' && j > k + 1 {
        None
    } else if j - k > 18 {
        None
    } else {
        let v0 = spec_digits_value(s, k, j);
        Some(
            (
                if neg {
                    -v0
                } else {
                    v0
                },
                j,
            ),
        )
    }
}

pub open spec fn rel_int(r: Option<(i64, usize)>, m: Option<(int, int)>) -> bool {
    match r {
        None => m is None,
        Some((v, j)) => m == Some((v as int, j as int)),
    }
}

fn parse_number(s: &Vec<char>, i: usize) -> (r: Option<(i64, usize)>)
    requires
        i <= s@.len(),
    ensures
        rel_int(r, spec_parse_number(s@, i as int)),
        r matches Some(p) ==> i < p.1 <= s@.len(),
{
    let neg = i < s.len() && s[i] == '-';
    let k = if neg {
        i + 1
    } else {
        i
    };
    let mut j = k;
    while j < s.len() && is_digit_exec(s[j])
        invariant
            k <= j <= s@.len(),
            spec_scan_digits(s@, k as int) == spec_scan_digits(s@, j as int),
            forall|t: int| k <= t < j ==> is_digit(#[trigger] s@[t]),
        decreases s@.len() - j,
    {
        j = j + 1;
    }
    if j == k {
        return None;
    }
    if s[k] == '0' && j > k + 1 {
        return None;
    }
    if j - k > 18 {
        return None;
    }
    let mut acc: u64 = 0;
    let mut p = k;
    while p < j
        invariant
            k <= p <= j <= s@.len(),
            j - k <= 18,
            forall|t: int| k <= t < j ==> is_digit(#[trigger] s@[t]),
            acc as int == spec_digits_value(s@, k as int, p as int),
        decreases j - p,
    {
        proof {
            lemma_digits_value_bound(s@, k as int, p as int);
            lemma_pow10_mono((p - k) as nat, 17);
            reveal_with_fuel(pow10, 19);
            assert(pow10(17) == 100000000000000000);
        }
        let d = (s[p] as u32 - 48) as u64;
        acc = acc * 10 + d;
        p = p + 1;
    }
    proof {
        lemma_digits_value_bound(s@, k as int, j as int);
        lemma_pow10_mono((j - k) as nat, 18);
        reveal_with_fuel(pow10, 19);
        assert(pow10(18) == 1000000000000000000);
    }
    let v: i64 = if neg {
        -(acc as i64)
    } else {
        acc as i64
    };
    Some((v, j))
}

/// The character named by a single-character escape, if the escape is part
/// of the grammar.
pub open spec fn spec_unescape(c: char) -> Option<char> {
    if c == '"' {
        Some('"')
    } else if c == '\\' {
        Some('\\')
    } else if c == '/' {
        Some('/')
    } else if c == 'b' {
        Some('\u{0008}')
    } else if c == 'f' {
        Some('\u{000C}')
    } else if c == 'n' {
        Some('\n')
    } else if c == 'r' {
        Some('\r')
    } else if c == 't' {
        Some('\t')
    } else {
        None
    }
}

fn unescape(c: char) -> (r: Option<char>)
    ensures
        r == spec_unescape(c),
{
    if c == '"' {
        Some('"')
    } else if c == '\\' {
        Some('\\')
    } else if c == '/' {
        Some('/')
    } else if c == 'b' {
        Some('\u{0008}')
    } else if c == 'f' {
        Some('\u{000C}')
    } else if c == 'n' {
        Some('\n')
    } else if c == 'r' {
        Some('\r')
    } else if c == 't' {
        Some('\t')
    } else {
        None
    }
}

/// Content of a string literal from just after the opening quote to just
/// after the closing quote: unescaped characters, and the position after
/// the closing quote. Raw control characters must be escaped.
pub open spec fn spec_parse_string_body(s: Seq<char>, i: int) -> Option<(Seq<char>, int)>
    decreases s.len() - i when 0 <= i <= s.len()
{
    if i >= s.len() {
        None
    } else if s[i] == '"' {
        Some((Seq::empty(), i + 1))
    } else if s[i] == '\\' {
        if i + 1 >= s.len() {
            None
        } else {
            match spec_unescape(s[i + 1]) {
                None => None,
                Some(c) => match spec_parse_string_body(s, i + 2) {
                    None => None,
                    Some((rest, j)) => Some((seq![c] + rest, j)),
                },
            }
        }
    } else if (s[i] as u32) < 32 {
        None
    } else {
        match spec_parse_string_body(s, i + 1) {
            None => None,
            Some((rest, j)) => Some((seq![s[i]] + rest, j)),
        }
    }
}

pub open spec fn rel_str(r: Option<(Vec<char>, usize)>, m: Option<(Seq<char>, int)>) -> bool {
    match r {
        None => m is None,
        Some((v, j)) => m == Some((v@, j as int)),
    }
}

fn parse_string_body(s: &Vec<char>, i: usize) -> (r: Option<(Vec<char>, usize)>)
    requires
        i <= s@.len(),
    ensures
        rel_str(r, spec_parse_string_body(s@, i as int)),
        r matches Some(p) ==> i < p.1 <= s@.len(),
    decreases s@.len() - i,
{
    if i >= s.len() {
        return None;
    }
    let c = s[i];
    if c == '"' {
        return Some((Vec::new(), i + 1));
    }
    if c == '\\' {
        if i + 1 >= s.len() {
            return None;
        }
        match unescape(s[i + 1]) {
            None => None,
            Some(e) => match parse_string_body(s, i + 2) {
                None => None,
                Some((rest, j)) => {
                    let ghost old_rest = rest@;
                    let mut rest = rest;
                    rest.insert(0, e);
                    proof {
                        assert(rest@ =~= seq![e] + old_rest);
                    }
                    Some((rest, j))
                },
            },
        }
    } else if (c as u32) < 32 {
        None
    } else {
        match parse_string_body(s, i + 1) {
            None => None,
            Some((rest, j)) => {
                let ghost old_rest = rest@;
                let mut rest = rest;
                rest.insert(0, c);
                proof {
                    assert(rest@ =~= seq![c] + old_rest);
                }
                Some((rest, j))
            },
        }
    }
}

// A value, an array tail, or an object tail. The mutual recursion is bounded
// by an explicit budget, decremented at each descent; the top-level entry
// hands in a budget larger than any run the input's length admits, so only
// malformed inputs are ever cut off. Leading whitespace is the caller's to
// skip.
pub open spec fn spec_parse_value(s: Seq<char>, i: int, fuel: nat) -> Option<(SpecJson, int)>
    decreases fuel,
{
    if fuel == 0 {
        None
    } else if i >= s.len() {
        None
    } else {
        let c = s[i];
        if c == 'n' {
            if i + 4 <= s.len() && s[i + 1] == 'u' && s[i + 2] == 'l' && s[i + 3] == 'l' {
                Some((SpecJson::Null, i + 4))
            } else {
                None
            }
        } else if c == 't' {
            if i + 4 <= s.len() && s[i + 1] == 'r' && s[i + 2] == 'u' && s[i + 3] == 'e' {
                Some((SpecJson::Bool(true), i + 4))
            } else {
                None
            }
        } else if c == 'f' {
            if i + 5 <= s.len() && s[i + 1] == 'a' && s[i + 2] == 'l' && s[i + 3] == 's' && s[i
                + 4] == 'e' {
                Some((SpecJson::Bool(false), i + 5))
            } else {
                None
            }
        } else if c == '"' {
            match spec_parse_string_body(s, i + 1) {
                None => None,
                Some((cs, j)) => Some((SpecJson::Str(cs), j)),
            }
        } else if c == '[' {
            let j = spec_skip_ws(s, i + 1);
            if j < s.len() && s[j] == ']' {
                Some((SpecJson::Arr(Seq::empty()), j + 1))
            } else {
                match spec_parse_elems(s, j, (fuel - 1) as nat) {
                    None => None,
                    Some((es, j2)) => Some((SpecJson::Arr(es), j2)),
                }
            }
        } else if c == '{' {
            let j = spec_skip_ws(s, i + 1);
            if j < s.len() && s[j] == '}' {
                Some((SpecJson::Obj(Seq::empty()), j + 1))
            } else {
                match spec_parse_members(s, j, (fuel - 1) as nat) {
                    None => None,
                    Some((fs, j2)) => Some((SpecJson::Obj(fs), j2)),
                }
            }
        } else if c == '-' || is_digit(c) {
            match spec_parse_number(s, i) {
                None => None,
                Some((v, j)) => Some((SpecJson::Int(v), j)),
            }
        } else {
            None
        }
    }
}

pub open spec fn spec_parse_elems(s: Seq<char>, i: int, fuel: nat) -> Option<(Seq<SpecJson>, int)>
    decreases fuel,
{
    if fuel == 0 {
        None
    } else {
        match spec_parse_value(s, i, (fuel - 1) as nat) {
            None => None,
            Some((v, j)) => {
                let j2 = spec_skip_ws(s, j);
                if j2 < s.len() && s[j2] == ']' {
                    Some((seq![v], j2 + 1))
                } else if j2 < s.len() && s[j2] == ',' {
                    let j3 = spec_skip_ws(s, j2 + 1);
                    match spec_parse_elems(s, j3, (fuel - 1) as nat) {
                        None => None,
                        Some((rest, j4)) => Some((seq![v] + rest, j4)),
                    }
                } else {
                    None
                }
            },
        }
    }
}

pub open spec fn spec_parse_members(s: Seq<char>, i: int, fuel: nat) -> Option<
    (Seq<(Seq<char>, SpecJson)>, int),
>
    decreases fuel,
{
    if fuel == 0 {
        None
    } else if i >= s.len() || s[i] != '"' {
        None
    } else {
        match spec_parse_string_body(s, i + 1) {
            None => None,
            Some((key, j1)) => {
                let j2 = spec_skip_ws(s, j1);
                if j2 >= s.len() || s[j2] != ':' {
                    None
                } else {
                    let j3 = spec_skip_ws(s, j2 + 1);
                    match spec_parse_value(s, j3, (fuel - 1) as nat) {
                        None => None,
                        Some((v, j4)) => {
                            let j5 = spec_skip_ws(s, j4);
                            if j5 < s.len() && s[j5] == '}' {
                                Some((seq![(key, v)], j5 + 1))
                            } else if j5 < s.len() && s[j5] == ',' {
                                let j6 = spec_skip_ws(s, j5 + 1);
                                match spec_parse_members(s, j6, (fuel - 1) as nat) {
                                    None => None,
                                    Some((rest, j7)) => Some((seq![(key, v)] + rest, j7)),
                                }
                            } else {
                                None
                            }
                        },
                    }
                }
            },
        }
    }
}

pub open spec fn rel_val(r: Option<(JsonValue, usize)>, m: Option<(SpecJson, int)>) -> bool {
    match r {
        None => m is None,
        Some((v, j)) => m == Some((v.view(), j as int)),
    }
}

pub open spec fn rel_elems(r: Option<(Vec<JsonValue>, usize)>, m: Option<
    (Seq<SpecJson>, int),
>) -> bool {
    match r {
        None => m is None,
        Some((v, j)) => m == Some((seq_view(v@), j as int)),
    }
}

pub open spec fn rel_members(r: Option<(Vec<(Vec<char>, JsonValue)>, usize)>, m: Option<
    (Seq<(Seq<char>, SpecJson)>, int),
>) -> bool {
    match r {
        None => m is None,
        Some((v, j)) => m == Some((fields_view(v@), j as int)),
    }
}

fn parse_value(s: &Vec<char>, i: usize, fuel: usize) -> (r: Option<(JsonValue, usize)>)
    requires
        i <= s@.len(),
    ensures
        rel_val(r, spec_parse_value(s@, i as int, fuel as nat)),
        r matches Some(p) ==> i < p.1 <= s@.len(),
    decreases fuel,
{
    if fuel == 0 {
        return None;
    }
    if i >= s.len() {
        return None;
    }
    let c = s[i];
    if c == 'n' {
        if s.len() - i >= 4 && s[i + 1] == 'u' && s[i + 2] == 'l' && s[i + 3] == 'l' {
            Some((JsonValue::Null, i + 4))
        } else {
            None
        }
    } else if c == 't' {
        if s.len() - i >= 4 && s[i + 1] == 'r' && s[i + 2] == 'u' && s[i + 3] == 'e' {
            Some((JsonValue::Bool(true), i + 4))
        } else {
            None
        }
    } else if c == 'f' {
        if s.len() - i >= 5 && s[i + 1] == 'a' && s[i + 2] == 'l' && s[i + 3] == 's' && s[i + 4]
            == 'e' {
            Some((JsonValue::Bool(false), i + 5))
        } else {
            None
        }
    } else if c == '"' {
        match parse_string_body(s, i + 1) {
            None => None,
            Some((cs, j)) => Some((JsonValue::Str(cs), j)),
        }
    } else if c == '[' {
        let j = skip_ws(s, i + 1);
        if j < s.len() && s[j] == ']' {
            let out: Vec<JsonValue> = Vec::new();
            proof {
                assert(seq_view(out@) =~= Seq::<SpecJson>::empty());
            }
            Some((JsonValue::Arr(out), j + 1))
        } else {
            match parse_elems(s, j, fuel - 1) {
                None => None,
                Some((es, j2)) => Some((JsonValue::Arr(es), j2)),
            }
        }
    } else if c == '{' {
        let j = skip_ws(s, i + 1);
        if j < s.len() && s[j] == '}' {
            let out: Vec<(Vec<char>, JsonValue)> = Vec::new();
            proof {
                assert(fields_view(out@) =~= Seq::<(Seq<char>, SpecJson)>::empty());
            }
            Some((JsonValue::Obj(out), j + 1))
        } else {
            match parse_members(s, j, fuel - 1) {
                None => None,
                Some((fs, j2)) => Some((JsonValue::Obj(fs), j2)),
            }
        }
    } else if c == '-' || is_digit_exec(c) {
        match parse_number(s, i) {
            None => None,
            Some((v, j)) => Some((JsonValue::Int(v), j)),
        }
    } else {
        None
    }
}

fn parse_elems(s: &Vec<char>, i: usize, fuel: usize) -> (r: Option<(Vec<JsonValue>, usize)>)
    requires
        i <= s@.len(),
    ensures
        rel_elems(r, spec_parse_elems(s@, i as int, fuel as nat)),
        r matches Some(p) ==> i <= p.1 <= s@.len(),
    decreases fuel,
{
    if fuel == 0 {
        return None;
    }
    match parse_value(s, i, fuel - 1) {
        None => None,
        Some((v, j)) => {
            let j2 = skip_ws(s, j);
            if j2 < s.len() && s[j2] == ']' {
                let mut out: Vec<JsonValue> = Vec::new();
                out.push(v);
                proof {
                    assert(seq_view(out@) =~= seq![v.view()]);
                }
                Some((out, j2 + 1))
            } else if j2 < s.len() && s[j2] == ',' {
                let j3 = skip_ws(s, j2 + 1);
                match parse_elems(s, j3, fuel - 1) {
                    None => None,
                    Some((rest, j4)) => {
                        let ghost old_rest = rest@;
                        let mut rest = rest;
                        rest.insert(0, v);
                        proof {
                            assert(seq_view(rest@) =~= seq![v.view()] + seq_view(old_rest));
                        }
                        Some((rest, j4))
                    },
                }
            } else {
                None
            }
        },
    }
}

fn parse_members(s: &Vec<char>, i: usize, fuel: usize) -> (r: Option<
    (Vec<(Vec<char>, JsonValue)>, usize),
>)
    requires
        i <= s@.len(),
    ensures
        rel_members(r, spec_parse_members(s@, i as int, fuel as nat)),
        r matches Some(p) ==> i <= p.1 <= s@.len(),
    decreases fuel,
{
    if fuel == 0 {
        return None;
    }
    if i >= s.len() {
        return None;
    }
    if s[i] != '"' {
        return None;
    }
    match parse_string_body(s, i + 1) {
        None => None,
        Some((key, j1)) => {
            let j2 = skip_ws(s, j1);
            if j2 >= s.len() {
                return None;
            }
            if s[j2] != ':' {
                return None;
            }
            let j3 = skip_ws(s, j2 + 1);
            match parse_value(s, j3, fuel - 1) {
                None => None,
                Some((v, j4)) => {
                    let j5 = skip_ws(s, j4);
                    if j5 < s.len() && s[j5] == '}' {
                        let mut out: Vec<(Vec<char>, JsonValue)> = Vec::new();
                        let ghost gkey = key@;
                        let ghost gv = v.view();
                        out.push((key, v));
                        proof {
                            assert(fields_view(out@) =~= seq![(gkey, gv)]);
                        }
                        Some((out, j5 + 1))
                    } else if j5 < s.len() && s[j5] == ',' {
                        let j6 = skip_ws(s, j5 + 1);
                        match parse_members(s, j6, fuel - 1) {
                            None => None,
                            Some((rest, j7)) => {
                                let ghost old_rest = rest@;
                                let ghost gkey = key@;
                                let ghost gv = v.view();
                                let mut rest = rest;
                                rest.insert(0, (key, v));
                                proof {
                                    assert(fields_view(rest@) =~= seq![(gkey, gv)] + fields_view(
                                        old_rest,
                                    ));
                                }
                                Some((rest, j7))
                            },
                        }
                    } else {
                        None
                    }
                },
            }
        },
    }
}

pub open spec fn spec_top_fuel(n: nat) -> nat {
    if n <= usize::MAX - 2 {
        n + 2
    } else {
        usize::MAX as nat
    }
}

/// A complete document: one value with only whitespace around it.
pub open spec fn spec_parse_json(s: Seq<char>) -> Option<SpecJson> {
    let i = spec_skip_ws(s, 0);
    match spec_parse_value(s, i, spec_top_fuel(s.len())) {
        None => None,
        Some((v, j)) => {
            let j2 = spec_skip_ws(s, j);
            if j2 == s.len() {
                Some(v)
            } else {
                None
            }
        },
    }
}

/// Decodes one JSON document, or reports that the input is not one.
pub fn parse_json(s: &Vec<char>) -> (r: Option<JsonValue>)
    ensures
        match r {
            None => spec_parse_json(s@) is None,
            Some(v) => spec_parse_json(s@) == Some(v.view()),
        },
{
    let fuel: usize = if s.len() <= usize::MAX - 2 {
        s.len() + 2
    } else {
        usize::MAX
    };
    let i = skip_ws(s, 0);
    match parse_value(s, i, fuel) {
        None => None,
        Some((v, j)) => {
            let j2 = skip_ws(s, j);
            if j2 == s.len() {
                Some(v)
            } else {
                None
            }
        },
    }
}

/// What looking a key up in a decoded object yields: no field, exactly one,
/// or several — a duplicate key makes the whole payload unusable.
pub enum FieldLookup {
    Absent,
    Once(SpecJson),
    Dup,
}

pub open spec fn spec_field_lookup(fs: Seq<(Seq<char>, SpecJson)>, key: Seq<char>) -> FieldLookup
    decreases fs.len(),
{
    if fs.len() == 0 {
        FieldLookup::Absent
    } else {
        let prev = spec_field_lookup(fs.drop_last(), key);
        if fs.last().0 == key {
            match prev {
                FieldLookup::Absent => FieldLookup::Once(fs.last().1),
                _ => FieldLookup::Dup,
            }
        } else {
            prev
        }
    }
}

proof fn lemma_lookup_dup_extend(fs: Seq<(Seq<char>, SpecJson)>, n: int, key: Seq<char>)
    requires
        0 <= n <= fs.len(),
        spec_field_lookup(fs.take(n), key) is Dup,
    ensures
        spec_field_lookup(fs, key) is Dup,
    decreases fs.len() - n,
{
    if n == fs.len() {
        assert(fs.take(n) =~= fs);
    } else {
        assert(fs.take(n + 1).drop_last() =~= fs.take(n));
        lemma_lookup_dup_extend(fs, n + 1, key);
    }
}

/// Finds the field named `key`, reporting a duplicate as an error.
pub fn obj_get<'a>(fields: &'a Vec<(Vec<char>, JsonValue)>, key: &str) -> (r: Result<
    Option<&'a JsonValue>,
    (),
>)
    ensures
        match r {
            Err(_) => spec_field_lookup(fields_view(fields@), key@) is Dup,
            Ok(o) => match o {
                None => spec_field_lookup(fields_view(fields@), key@) is Absent,
                Some(v) => spec_field_lookup(fields_view(fields@), key@) == FieldLookup::Once(
                    v.view(),
                ),
            },
        },
{
    let n = fields.len();
    let mut i: usize = 0;
    let mut found: Option<usize> = None;
    while i < n
        invariant
            n == fields@.len(),
            i <= n,
            match found {
                None => spec_field_lookup(fields_view(fields@.take(i as int)), key@) is Absent,
                Some(ix) => ix < i && spec_field_lookup(fields_view(fields@.take(i as int)), key@)
                    == FieldLookup::Once(fields@[ix as int].1.view()),
            },
        decreases n - i,
    {
        proof {
            assert(fields_view(fields@.take(i as int + 1)).drop_last() =~= fields_view(
                fields@.take(i as int),
            ));
            assert(fields_view(fields@.take(i as int + 1)).last() == (
                fields@[i as int].0@,
                fields@[i as int].1.view(),
            ));
        }
        if chars_eq_str(&fields[i].0, key) {
            if found.is_some() {
                proof {
                    assert(fields_view(fields@).take(i as int + 1) =~= fields_view(
                        fields@.take(i as int + 1),
                    ));
                    lemma_lookup_dup_extend(fields_view(fields@), i as int + 1, key@);
                }
                return Err(());
            }
            found = Some(i);
        }
        i = i + 1;
    }
    proof {
        assert(fields@.take(n as int) =~= fields@);
    }
    match found {
        None => Ok(None),
        Some(ix) => Ok(Some(&fields[ix].1)),
    }
}

/// An optional text field: absent or `null` is "not given"; any other
/// non-string shape, or a duplicate, is a payload error.
pub open spec fn spec_opt_str_field(fs: Seq<(Seq<char>, SpecJson)>, key: Seq<char>) -> Option<
    Option<Seq<char>>,
> {
    match spec_field_lookup(fs, key) {
        FieldLookup::Absent => Some(None),
        FieldLookup::Once(v) => match v {
            SpecJson::Null => Some(None),
            SpecJson::Str(s) => Some(Some(s)),
            _ => None,
        },
        FieldLookup::Dup => None,
    }
}

pub fn opt_str_field(fields: &Vec<(Vec<char>, JsonValue)>, key: &str) -> (r: Option<
    Option<String>,
>)
    ensures
        match r {
            None => spec_opt_str_field(fields_view(fields@), key@) is None,
            Some(o) => spec_opt_str_field(fields_view(fields@), key@) == Some(o.deep_view()),
        },
{
    match obj_get(fields, key) {
        Err(_) => None,
        Ok(None) => Some(None),
        Ok(Some(v)) => match v {
            JsonValue::Null => Some(None),
            JsonValue::Str(cs) => Some(Some(chars_to_string(cs))),
            _ => None,
        },
    }
}

/// A required text field: anything but exactly one string is a payload
/// error.
pub open spec fn spec_str_field(fs: Seq<(Seq<char>, SpecJson)>, key: Seq<char>) -> Option<
    Seq<char>,
> {
    match spec_field_lookup(fs, key) {
        FieldLookup::Once(v) => match v {
            SpecJson::Str(s) => Some(s),
            _ => None,
        },
        _ => None,
    }
}

pub fn str_field(fields: &Vec<(Vec<char>, JsonValue)>, key: &str) -> (r: Option<String>)
    ensures
        match r {
            None => spec_str_field(fields_view(fields@), key@) is None,
            Some(s) => spec_str_field(fields_view(fields@), key@) == Some(s@),
        },
{
    match obj_get(fields, key) {
        Err(_) => None,
        Ok(None) => None,
        Ok(Some(v)) => match v {
            JsonValue::Str(cs) => Some(chars_to_string(cs)),
            _ => None,
        },
    }
}

/// A required integer field: anything but exactly one integer is a payload
/// error.
pub open spec fn spec_int_field(fs: Seq<(Seq<char>, SpecJson)>, key: Seq<char>) -> Option<int> {
    match spec_field_lookup(fs, key) {
        FieldLookup::Once(v) => match v {
            SpecJson::Int(n) => Some(n),
            _ => None,
        },
        _ => None,
    }
}

pub fn int_field(fields: &Vec<(Vec<char>, JsonValue)>, key: &str) -> (r: Option<i64>)
    ensures
        match r {
            None => spec_int_field(fields_view(fields@), key@) is None,
            Some(n) => spec_int_field(fields_view(fields@), key@) == Some(n as int),
        },
{
    match obj_get(fields, key) {
        Err(_) => None,
        Ok(None) => None,
        Ok(Some(v)) => match v {
            JsonValue::Int(n) => Some(*n),
            _ => None,
        },
    }
}

/// The texts of an all-string array; any other element shape is a payload
/// error.
pub open spec fn spec_str_items(es: Seq<SpecJson>) -> Option<Seq<Seq<char>>>
    decreases es.len(),
{
    if es.len() == 0 {
        Some(Seq::empty())
    } else {
        match spec_str_items(es.drop_last()) {
            None => None,
            Some(pre) => match es.last() {
                SpecJson::Str(s) => Some(pre.push(s)),
                _ => None,
            },
        }
    }
}

proof fn lemma_str_items_none_extend(es: Seq<SpecJson>, n: int)
    requires
        0 <= n <= es.len(),
        spec_str_items(es.take(n)) is None,
    ensures
        spec_str_items(es) is None,
    decreases es.len() - n,
{
    if n == es.len() {
        assert(es.take(n) =~= es);
    } else {
        assert(es.take(n + 1).drop_last() =~= es.take(n));
        lemma_str_items_none_extend(es, n + 1);
    }
}

fn str_items(es: &Vec<JsonValue>) -> (r: Option<Vec<String>>)
    ensures
        match r {
            None => spec_str_items(seq_view(es@)) is None,
            Some(v) => spec_str_items(seq_view(es@)) == Some(v.deep_view()),
        },
{
    let mut out: Vec<String> = Vec::new();
    let n = es.len();
    let mut i: usize = 0;
    proof {
        assert(seq_view(es@.take(0)) =~= Seq::<SpecJson>::empty());
        assert(out.deep_view() =~= Seq::<Seq<char>>::empty());
    }
    while i < n
        invariant
            n == es@.len(),
            i <= n,
            spec_str_items(seq_view(es@.take(i as int))) == Some(out.deep_view()),
        decreases n - i,
    {
        proof {
            assert(seq_view(es@.take(i as int + 1)).drop_last() =~= seq_view(es@.take(i as int)));
            assert(seq_view(es@.take(i as int + 1)).last() == es@[i as int].view());
        }
        let e = &es[i];
        match e {
            JsonValue::Str(cs) => {
                let ghost old_deep = out.deep_view();
                out.push(chars_to_string(cs));
                proof {
                    assert(out.deep_view() =~= old_deep.push(cs@));
                }
            },
            _ => {
                proof {
                    assert(seq_view(es@).take(i as int + 1) =~= seq_view(es@.take(i as int + 1)));
                    lemma_str_items_none_extend(seq_view(es@), i as int + 1);
                }
                return None;
            },
        }
        i = i + 1;
    }
    proof {
        assert(es@.take(n as int) =~= es@);
    }
    Some(out)
}

/// An optional list-of-texts field: absent or `null` is "not given"; any
/// other shape, a non-string element, or a duplicate is a payload error.
pub open spec fn spec_opt_str_list_field(fs: Seq<(Seq<char>, SpecJson)>, key: Seq<char>) -> Option<
    Option<Seq<Seq<char>>>,
> {
    match spec_field_lookup(fs, key) {
        FieldLookup::Absent => Some(None),
        FieldLookup::Once(v) => match v {
            SpecJson::Null => Some(None),
            SpecJson::Arr(es) => match spec_str_items(es) {
                None => None,
                Some(l) => Some(Some(l)),
            },
            _ => None,
        },
        FieldLookup::Dup => None,
    }
}

pub fn opt_str_list_field(fields: &Vec<(Vec<char>, JsonValue)>, key: &str) -> (r: Option<
    Option<Vec<String>>,
>)
    ensures
        match r {
            None => spec_opt_str_list_field(fields_view(fields@), key@) is None,
            Some(o) => spec_opt_str_list_field(fields_view(fields@), key@) == Some(o.deep_view()),
        },
{
    match obj_get(fields, key) {
        Err(_) => None,
        Ok(None) => Some(None),
        Ok(Some(v)) => match v {
            JsonValue::Null => Some(None),
            JsonValue::Arr(es) => match str_items(es) {
                None => None,
                Some(items) => Some(Some(items)),
            },
            _ => None,
        },
    }
}

/// Decodes a JSON document presented as text.
pub fn parse_json_str(s: &str) -> (r: Option<JsonValue>)
    ensures
        match r {
            None => spec_parse_json(s@) is None,
            Some(v) => spec_parse_json(s@) == Some(v.view()),
        },
{
    let cs = str_to_chars(s);
    parse_json(&cs)
}

} // verus!
