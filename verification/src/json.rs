//! The JSON documents the service answers with, and a parser for them.
//!
//! `Json` is the executable document tree; `JVal` is its mathematical
//! counterpart, with sequences in place of vectors and strings. The grammar
//! is stated by the `spec_parse_*` functions, and the executable parser is
//! proved to return exactly what they describe. A number is kept in its
//! lexical form; the decoder narrows it to the typed field it belongs to.

use vstd::prelude::*;

use crate::text::chars_to_string;
use crate::text::char_from_u32;
use crate::text::str_to_chars;
use crate::text::valid_scalar;

verus! {

broadcast use vstd::std_specs::vec::group_vec_axioms;

/// The mathematical form of one object member.
pub struct MemberV {
    pub key: Seq<char>,
    pub value: JVal,
}

/// The mathematical form of a JSON document.
pub enum JVal {
    Null,
    Bool(bool),
    /// A number, in the lexical form the document spells it.
    Num(Seq<char>),
    Str(Seq<char>),
    Arr(Seq<JVal>),
    Obj(Seq<MemberV>),
}

/// A JSON document.
pub enum Json {
    Null,
    Bool(bool),
    /// A number, in the lexical form the document spells it.
    Num(String),
    Str(String),
    Arr(Vec<Json>),
    Obj(Vec<Member>),
}

/// One key-value member of a JSON object.
pub struct Member {
    pub key: String,
    pub value: Json,
}

impl DeepView for Json {
    type V = JVal;

    open spec fn deep_view(&self) -> JVal
        decreases self,
    {
        match self {
            Json::Null => JVal::Null,
            Json::Bool(b) => JVal::Bool(*b),
            Json::Num(t) => JVal::Num(t@),
            Json::Str(t) => JVal::Str(t@),
            Json::Arr(a) => JVal::Arr(
                Seq::new(
                    a@.len(),
                    |k: int|
                        if 0 <= k && k < a@.len() {
                            a@[k].deep_view()
                        } else {
                            JVal::Null
                        },
                ),
            ),
            Json::Obj(m) => JVal::Obj(
                Seq::new(
                    m@.len(),
                    |k: int|
                        if 0 <= k && k < m@.len() {
                            m@[k].deep_view()
                        } else {
                            MemberV { key: Seq::empty(), value: JVal::Null }
                        },
                ),
            ),
        }
    }
}

impl View for Json {
    type V = JVal;

    open spec fn view(&self) -> JVal {
        self.deep_view()
    }
}

impl DeepView for Member {
    type V = MemberV;

    open spec fn deep_view(&self) -> MemberV
        decreases self,
    {
        MemberV { key: self.key@, value: self.value.deep_view() }
    }
}

impl View for Member {
    type V = MemberV;

    open spec fn view(&self) -> MemberV {
        self.deep_view()
    }
}

pub open spec fn is_ws(c: char) -> bool {
    c == ' ' || c == '\t' || c == '\n' || c == '\r'
}

pub open spec fn is_digit(c: char) -> bool {
    48 <= c as u32 && c as u32 <= 57
}

/// The first position at or after `i` that does not hold whitespace.
pub open spec fn spec_skip_ws(s: Seq<char>, i: int) -> int
    decreases s.len() - i,
{
    if 0 <= i && i < s.len() && is_ws(s[i]) {
        spec_skip_ws(s, i + 1)
    } else {
        i
    }
}

/// The first position at or after `i` that does not hold a digit.
pub open spec fn spec_scan_digits(s: Seq<char>, i: int) -> int
    decreases s.len() - i,
{
    if 0 <= i && i < s.len() && is_digit(s[i]) {
        spec_scan_digits(s, i + 1)
    } else {
        i
    }
}

/// The position after an optional fraction part starting at `k`.
pub open spec fn spec_after_frac(s: Seq<char>, k: int) -> Option<int> {
    if 0 <= k && k < s.len() && s[k] == '.' {
        if k + 1 < s.len() && is_digit(s[k + 1]) {
            Some(spec_scan_digits(s, k + 1))
        } else {
            None
        }
    } else {
        Some(k)
    }
}

/// The position after an optional exponent part starting at `k`.
pub open spec fn spec_after_exp(s: Seq<char>, k: int) -> Option<int> {
    if 0 <= k && k < s.len() && (s[k] == 'e' || s[k] == 'E') {
        let m = if k + 1 < s.len() && (s[k + 1] == '+' || s[k + 1] == '-') {
            k + 2
        } else {
            k + 1
        };
        if m < s.len() && is_digit(s[m]) {
            Some(spec_scan_digits(s, m))
        } else {
            None
        }
    } else {
        Some(k)
    }
}

/// The position after a number token starting at `i`, when one starts there.
pub open spec fn spec_num_end(s: Seq<char>, i: int) -> Option<int> {
    let j = if 0 <= i && i < s.len() && s[i] == '-' {
        i + 1
    } else {
        i
    };
    if 0 <= j && j < s.len() && is_digit(s[j]) {
        let k = if s[j] == '0' {
            j + 1
        } else {
            spec_scan_digits(s, j)
        };
        match spec_after_frac(s, k) {
            None => None,
            Some(k2) => spec_after_exp(s, k2),
        }
    } else {
        None
    }
}

/// The value of one hexadecimal digit.
pub open spec fn spec_hex_val(c: char) -> Option<u32> {
    let u = c as u32;
    if 48 <= u && u <= 57 {
        Some((u - 48) as u32)
    } else if 97 <= u && u <= 102 {
        Some((u - 87) as u32)
    } else if 65 <= u && u <= 70 {
        Some((u - 55) as u32)
    } else {
        None
    }
}

/// The value of four hexadecimal digits starting at `i`.
pub open spec fn spec_hex4(s: Seq<char>, i: int) -> Option<u32> {
    if 0 <= i && i + 4 <= s.len() {
        match (spec_hex_val(s[i]), spec_hex_val(s[i + 1]), spec_hex_val(s[i + 2]), spec_hex_val(
            s[i + 3],
        )) {
            (Some(a), Some(b), Some(c), Some(d)) => Some(
                (a * 4096 + b * 256 + c * 16 + d) as u32,
            ),
            _ => None,
        }
    } else {
        None
    }
}

/// The scalar value encoded by a surrogate pair.
pub open spec fn spec_surrogate(hi: u32, lo: u32) -> u32 {
    (0x10000 + (hi - 0xD800) * 0x400 + (lo - 0xDC00)) as u32
}

/// What a single-character escape stands for.
pub open spec fn spec_escape_char(e: char) -> Option<char> {
    if e == '"' {
        Some('"')
    } else if e == '\\' {
        Some('\\')
    } else if e == '/' {
        Some('/')
    } else if e == 'b' {
        Some('\u{0008}')
    } else if e == 'f' {
        Some('\u{000C}')
    } else if e == 'n' {
        Some('\n')
    } else if e == 'r' {
        Some('\r')
    } else if e == 't' {
        Some('\t')
    } else {
        None
    }
}

/// One more character in front of a partial string-body result.
pub open spec fn spec_cons_str(c: char, rest: Option<(Seq<char>, int)>) -> Option<
    (Seq<char>, int),
> {
    match rest {
        None => None,
        Some((t, j)) => Some((seq![c] + t, j)),
    }
}

/// The body of a string literal from position `i` (just after the opening
/// quote) to its closing quote: the decoded characters and the position
/// after the closing quote.
pub open spec fn spec_parse_string_chars(s: Seq<char>, i: int) -> Option<(Seq<char>, int)>
    decreases s.len() - i,
{
    if !(0 <= i && i < s.len()) {
        None
    } else if s[i] == '"' {
        Some((Seq::empty(), i + 1))
    } else if s[i] == '\\' {
        if i + 1 < s.len() {
            let e = s[i + 1];
            if e == 'u' {
                match spec_hex4(s, i + 2) {
                    None => None,
                    Some(u) => if valid_scalar(u) {
                        spec_cons_str(u as char, spec_parse_string_chars(s, i + 6))
                    } else if 0xD800 <= u && u < 0xDC00 && i + 8 <= s.len() && s[i + 6] == '\\'
                        && s[i + 7] == 'u' {
                        match spec_hex4(s, i + 8) {
                            None => None,
                            Some(u2) => if 0xDC00 <= u2 && u2 < 0xE000 {
                                spec_cons_str(
                                    spec_surrogate(u, u2) as char,
                                    spec_parse_string_chars(s, i + 12),
                                )
                            } else {
                                None
                            },
                        }
                    } else {
                        None
                    },
                }
            } else {
                match spec_escape_char(e) {
                    None => None,
                    Some(c) => spec_cons_str(c, spec_parse_string_chars(s, i + 2)),
                }
            }
        } else {
            None
        }
    } else if (s[i] as u32) < 32 {
        None
    } else {
        spec_cons_str(s[i], spec_parse_string_chars(s, i + 1))
    }
}

/// A JSON value starting exactly at position `i`: the value and the
/// position after it.
pub open spec fn spec_parse_value(s: Seq<char>, i: int) -> Option<(JVal, int)>
    decreases s.len() - i, 1int,
{
    if !(0 <= i && i < s.len()) {
        None
    } else {
        let c = s[i];
        if c == 'n' {
            if i + 4 <= s.len() && s[i + 1] == 'u' && s[i + 2] == 'l' && s[i + 3] == 'l' {
                Some((JVal::Null, i + 4))
            } else {
                None
            }
        } else if c == 't' {
            if i + 4 <= s.len() && s[i + 1] == 'r' && s[i + 2] == 'u' && s[i + 3] == 'e' {
                Some((JVal::Bool(true), i + 4))
            } else {
                None
            }
        } else if c == 'f' {
            if i + 5 <= s.len() && s[i + 1] == 'a' && s[i + 2] == 'l' && s[i + 3] == 's' && s[i
                + 4] == 'e' {
                Some((JVal::Bool(false), i + 5))
            } else {
                None
            }
        } else if c == '"' {
            match spec_parse_string_chars(s, i + 1) {
                None => None,
                Some((cs, j)) => Some((JVal::Str(cs), j)),
            }
        } else if c == '-' || is_digit(c) {
            match spec_num_end(s, i) {
                None => None,
                Some(j) => Some((JVal::Num(s.subrange(i, j)), j)),
            }
        } else if c == '[' {
            let j = spec_skip_ws(s, i + 1);
            if j < s.len() && s[j] == ']' {
                Some((JVal::Arr(Seq::empty()), j + 1))
            } else if j <= i || s.len() < j {
                None
            } else {
                match spec_parse_elements(s, j) {
                    None => None,
                    Some((es, k)) => Some((JVal::Arr(es), k)),
                }
            }
        } else if c == '{' {
            let j = spec_skip_ws(s, i + 1);
            if j < s.len() && s[j] == '}' {
                Some((JVal::Obj(Seq::empty()), j + 1))
            } else if j <= i || s.len() < j {
                None
            } else {
                match spec_parse_members(s, j) {
                    None => None,
                    Some((ms, k)) => Some((JVal::Obj(ms), k)),
                }
            }
        } else {
            None
        }
    }
}

/// The elements of an array from the start of its first element to the
/// closing bracket.
pub open spec fn spec_parse_elements(s: Seq<char>, i: int) -> Option<(Seq<JVal>, int)>
    decreases s.len() - i, 2int,
{
    if !(0 <= i && i <= s.len()) {
        None
    } else {
        match spec_parse_value(s, i) {
            None => None,
            Some((v, j)) => {
                let k = spec_skip_ws(s, j);
                if k < s.len() && s[k] == ',' {
                    let m = spec_skip_ws(s, k + 1);
                    if m <= i || s.len() < m {
                        None
                    } else {
                        match spec_parse_elements(s, m) {
                            None => None,
                            Some((rest, e)) => Some((seq![v] + rest, e)),
                        }
                    }
                } else if k < s.len() && s[k] == ']' {
                    Some((seq![v], k + 1))
                } else {
                    None
                }
            },
        }
    }
}

/// The members of an object from the start of its first key to the closing
/// brace.
pub open spec fn spec_parse_members(s: Seq<char>, i: int) -> Option<(Seq<MemberV>, int)>
    decreases s.len() - i, 2int,
{
    if !(0 <= i && i < s.len() && s[i] == '"') {
        None
    } else {
        match spec_parse_string_chars(s, i + 1) {
            None => None,
            Some((key, j)) => {
                let k = spec_skip_ws(s, j);
                if k < s.len() && s[k] == ':' {
                    let m = spec_skip_ws(s, k + 1);
                    if m <= i || s.len() < m {
                        None
                    } else {
                        match spec_parse_value(s, m) {
                            None => None,
                            Some((v, e)) => {
                                let k2 = spec_skip_ws(s, e);
                                if k2 < s.len() && s[k2] == ',' {
                                    let m2 = spec_skip_ws(s, k2 + 1);
                                    if m2 <= i || s.len() < m2 {
                                        None
                                    } else {
                                        match spec_parse_members(s, m2) {
                                            None => None,
                                            Some((rest, e2)) => Some(
                                                (seq![MemberV { key, value: v }] + rest, e2),
                                            ),
                                        }
                                    }
                                } else if k2 < s.len() && s[k2] == '}' {
                                    Some((seq![MemberV { key, value: v }], k2 + 1))
                                } else {
                                    None
                                }
                            },
                        }
                    }
                } else {
                    None
                }
            },
        }
    }
}

/// A whole JSON document: one value, surrounded by whitespace only.
pub open spec fn spec_parse_json(s: Seq<char>) -> Option<JVal> {
    match spec_parse_value(s, spec_skip_ws(s, 0)) {
        None => None,
        Some((v, j)) => if spec_skip_ws(s, j) == s.len() {
            Some(v)
        } else {
            None
        },
    }
}

/// Scanning digits never moves backwards.
proof fn lemma_scan_digits_ge(s: Seq<char>, i: int)
    ensures
        spec_scan_digits(s, i) >= i,
    decreases s.len() - i,
{
    if 0 <= i && i < s.len() && is_digit(s[i]) {
        lemma_scan_digits_ge(s, i + 1);
    }
}

/// The view of an array node is the deep view of its element vector.
pub(crate) proof fn lemma_json_arr_view(a: &Vec<Json>)
    ensures
        (Json::Arr(*a)).deep_view() == JVal::Arr(a.deep_view()),
{
    let dv = (Json::Arr(*a)).deep_view();
    assert(dv->Arr_0 =~= a.deep_view());
}

/// The view of an object node is the deep view of its member vector.
pub(crate) proof fn lemma_json_obj_view(m: &Vec<Member>)
    ensures
        (Json::Obj(*m)).deep_view() == JVal::Obj(m.deep_view()),
{
    let dv = (Json::Obj(*m)).deep_view();
    assert(dv->Obj_0 =~= m.deep_view());
}

pub(crate) fn skip_ws(s: &Vec<char>, i: usize) -> (r: usize)
    requires
        i <= s@.len(),
    ensures
        r == spec_skip_ws(s@, i as int),
        i <= r <= s@.len(),
{
    let mut j = i;
    while j < s.len() && (s[j] == ' ' || s[j] == '\t' || s[j] == '\n' || s[j] == '\r')
        invariant
            i <= j <= s@.len(),
            spec_skip_ws(s@, i as int) == spec_skip_ws(s@, j as int),
        decreases s@.len() - j,
    {
        j = j + 1;
    }
    j
}

pub(crate) fn scan_digits(s: &Vec<char>, i: usize) -> (r: usize)
    requires
        i <= s@.len(),
    ensures
        r == spec_scan_digits(s@, i as int),
        i <= r <= s@.len(),
{
    let mut j = i;
    while j < s.len() && (s[j] as u32) >= 48 && (s[j] as u32) <= 57
        invariant
            i <= j <= s@.len(),
            spec_scan_digits(s@, i as int) == spec_scan_digits(s@, j as int),
        decreases s@.len() - j,
    {
        j = j + 1;
    }
    j
}

pub(crate) fn after_frac(s: &Vec<char>, k: usize) -> (r: Option<usize>)
    requires
        k <= s@.len(),
    ensures
        match r {
            Some(e) => spec_after_frac(s@, k as int) == Some(e as int) && k <= e <= s@.len(),
            None => spec_after_frac(s@, k as int) is None,
        },
{
    if k < s.len() && s[k] == '.' {
        if k + 1 < s.len() && (s[k + 1] as u32) >= 48 && (s[k + 1] as u32) <= 57 {
            Some(scan_digits(s, k + 1))
        } else {
            None
        }
    } else {
        Some(k)
    }
}

pub(crate) fn after_exp(s: &Vec<char>, k: usize) -> (r: Option<usize>)
    requires
        k <= s@.len(),
    ensures
        match r {
            Some(e) => spec_after_exp(s@, k as int) == Some(e as int) && k <= e <= s@.len(),
            None => spec_after_exp(s@, k as int) is None,
        },
{
    if k < s.len() && (s[k] == 'e' || s[k] == 'E') {
        let m = if k + 1 < s.len() && (s[k + 1] == '+' || s[k + 1] == '-') {
            k + 2
        } else {
            k + 1
        };
        if m < s.len() && (s[m] as u32) >= 48 && (s[m] as u32) <= 57 {
            Some(scan_digits(s, m))
        } else {
            None
        }
    } else {
        Some(k)
    }
}

pub(crate) fn num_end(s: &Vec<char>, i: usize) -> (r: Option<usize>)
    requires
        i < s@.len(),
    ensures
        match r {
            Some(e) => spec_num_end(s@, i as int) == Some(e as int) && i < e <= s@.len(),
            None => spec_num_end(s@, i as int) is None,
        },
{
    let n = s.len();
    let j = if s[i] == '-' {
        i + 1
    } else {
        i
    };
    if j < n && (s[j] as u32) >= 48 && (s[j] as u32) <= 57 {
        let k = if s[j] == '0' {
            j + 1
        } else {
            scan_digits(s, j)
        };
        proof {
            lemma_scan_digits_ge(s@, j as int + 1);
        }
        match after_frac(s, k) {
            None => None,
            Some(k2) => after_exp(s, k2),
        }
    } else {
        None
    }
}

fn hex_val(c: char) -> (r: Option<u32>)
    ensures
        r == spec_hex_val(c),
{
    let u = c as u32;
    if 48 <= u && u <= 57 {
        Some(u - 48)
    } else if 97 <= u && u <= 102 {
        Some(u - 87)
    } else if 65 <= u && u <= 70 {
        Some(u - 55)
    } else {
        None
    }
}

fn hex4(s: &Vec<char>, i: usize) -> (r: Option<u32>)
    ensures
        r == spec_hex4(s@, i as int),
        r is Some ==> i + 4 <= s@.len(),
{
    if s.len() >= 4 && i <= s.len() - 4 {
        match (hex_val(s[i]), hex_val(s[i + 1]), hex_val(s[i + 2]), hex_val(s[i + 3])) {
            (Some(a), Some(b), Some(c), Some(d)) => Some(a * 4096 + b * 256 + c * 16 + d),
            _ => None,
        }
    } else {
        None
    }
}

fn escape_char(e: char) -> (r: Option<char>)
    ensures
        r == spec_escape_char(e),
{
    if e == '"' {
        Some('"')
    } else if e == '\\' {
        Some('\\')
    } else if e == '/' {
        Some('/')
    } else if e == 'b' {
        Some('\u{0008}')
    } else if e == 'f' {
        Some('\u{000C}')
    } else if e == 'n' {
        Some('\n')
    } else if e == 'r' {
        Some('\r')
    } else if e == 't' {
        Some('\t')
    } else {
        None
    }
}

fn parse_string_chars(s: &Vec<char>, i: usize) -> (r: Option<(Vec<char>, usize)>)
    requires
        i <= s@.len(),
    ensures
        match r {
            Some(p) => spec_parse_string_chars(s@, i as int) == Some((p.0@, p.1 as int)) && i
                < p.1 <= s@.len(),
            None => spec_parse_string_chars(s@, i as int) is None,
        },
    decreases s@.len() - i,
{
    if !(i < s.len()) {
        None
    } else if s[i] == '"' {
        let v: Vec<char> = Vec::new();
        proof {
            assert(v@ =~= Seq::<char>::empty());
        }
        Some((v, i + 1))
    } else if s[i] == '\\' {
        if i + 1 < s.len() {
            let e = s[i + 1];
            if e == 'u' {
                match hex4(s, i + 2) {
                    None => None,
                    Some(u) => {
                        if u < 0xD800 || (0xE000 <= u && u <= 0x10FFFF) {
                            let c = match char_from_u32(u) {
                                Some(c) => c,
                                None => {
                                    proof {
                                        assert(false);
                                    }
                                    ' '
                                },
                            };
                            cons_result(c, parse_string_chars(s, i + 6))
                        } else if 0xD800 <= u && u < 0xDC00 && s.len() >= 8 && i <= s.len() - 8
                            && s[i + 6] == '\\' && s[i + 7] == 'u' {
                            match hex4(s, i + 8) {
                                None => None,
                                Some(u2) => {
                                    if 0xDC00 <= u2 && u2 < 0xE000 {
                                        let w = 0x10000 + (u - 0xD800) * 0x400 + (u2 - 0xDC00);
                                        proof {
                                            assert(w == spec_surrogate(u, u2));
                                            assert(valid_scalar(w));
                                        }
                                        let c = match char_from_u32(w) {
                                            Some(c) => c,
                                            None => {
                                                proof {
                                                    assert(false);
                                                }
                                                ' '
                                            },
                                        };
                                        cons_result(c, parse_string_chars(s, i + 12))
                                    } else {
                                        None
                                    }
                                },
                            }
                        } else {
                            None
                        }
                    },
                }
            } else {
                match escape_char(e) {
                    None => None,
                    Some(c) => cons_result(c, parse_string_chars(s, i + 2)),
                }
            }
        } else {
            None
        }
    } else if (s[i] as u32) < 32 {
        None
    } else {
        let c = s[i];
        cons_result(c, parse_string_chars(s, i + 1))
    }
}

fn cons_result(c: char, rest: Option<(Vec<char>, usize)>) -> (r: Option<(Vec<char>, usize)>)
    ensures
        match r {
            Some(p) => match rest {
                Some(q) => p.0@ == seq![c] + q.0@ && p.1 == q.1,
                None => false,
            },
            None => rest is None,
        },
{
    match rest {
        None => None,
        Some((t, j)) => {
            let mut t = t;
            let ghost t0 = t@;
            t.insert(0, c);
            proof {
                assert(t@ =~= seq![c] + t0);
            }
            Some((t, j))
        },
    }
}

pub(crate) fn copy_range(s: &Vec<char>, i: usize, j: usize) -> (r: Vec<char>)
    requires
        i <= j <= s@.len(),
    ensures
        r@ == s@.subrange(i as int, j as int),
{
    let mut v: Vec<char> = Vec::new();
    let mut k = i;
    while k < j
        invariant
            i <= k <= j <= s@.len(),
            v@ == s@.subrange(i as int, k as int),
        decreases j - k,
    {
        v.push(s[k]);
        k = k + 1;
        proof {
            assert(v@ =~= s@.subrange(i as int, k as int));
        }
    }
    proof {
        assert(v@ =~= s@.subrange(i as int, j as int));
    }
    v
}

fn parse_value(s: &Vec<char>, i: usize) -> (r: Option<(Json, usize)>)
    requires
        i <= s@.len(),
    ensures
        match r {
            Some(p) => spec_parse_value(s@, i as int) == Some((p.0.deep_view(), p.1 as int))
                && i < p.1 <= s@.len(),
            None => spec_parse_value(s@, i as int) is None,
        },
    decreases s@.len() - i, 1int,
{
    if !(i < s.len()) {
        None
    } else {
        let c = s[i];
        if c == 'n' {
            if s.len() >= 4 && i <= s.len() - 4 && s[i + 1] == 'u' && s[i + 2] == 'l' && s[i
                + 3] == 'l' {
                Some((Json::Null, i + 4))
            } else {
                None
            }
        } else if c == 't' {
            if s.len() >= 4 && i <= s.len() - 4 && s[i + 1] == 'r' && s[i + 2] == 'u' && s[i
                + 3] == 'e' {
                Some((Json::Bool(true), i + 4))
            } else {
                None
            }
        } else if c == 'f' {
            if s.len() >= 5 && i <= s.len() - 5 && s[i + 1] == 'a' && s[i + 2] == 'l' && s[i
                + 3] == 's' && s[i + 4] == 'e' {
                Some((Json::Bool(false), i + 5))
            } else {
                None
            }
        } else if c == '"' {
            match parse_string_chars(s, i + 1) {
                None => None,
                Some((cs, j)) => {
                    let t = chars_to_string(&cs);
                    Some((Json::Str(t), j))
                },
            }
        } else if c == '-' || ((c as u32) >= 48 && (c as u32) <= 57) {
            match num_end(s, i) {
                None => None,
                Some(j) => {
                    let tok = copy_range(s, i, j);
                    let t = chars_to_string(&tok);
                    Some((Json::Num(t), j))
                },
            }
        } else if c == '[' {
            let j = skip_ws(s, i + 1);
            if j < s.len() && s[j] == ']' {
                let v: Vec<Json> = Vec::new();
                proof {
                    lemma_json_arr_view(&v);
                    assert(v.deep_view() =~= Seq::<JVal>::empty());
                }
                Some((Json::Arr(v), j + 1))
            } else if j <= i {
                None
            } else {
                match parse_elements(s, j) {
                    None => None,
                    Some((es, k)) => {
                        proof {
                            lemma_json_arr_view(&es);
                        }
                        Some((Json::Arr(es), k))
                    },
                }
            }
        } else if c == '{' {
            let j = skip_ws(s, i + 1);
            if j < s.len() && s[j] == '}' {
                let v: Vec<Member> = Vec::new();
                proof {
                    lemma_json_obj_view(&v);
                    assert(v.deep_view() =~= Seq::<MemberV>::empty());
                }
                Some((Json::Obj(v), j + 1))
            } else if j <= i {
                None
            } else {
                match parse_members(s, j) {
                    None => None,
                    Some((ms, k)) => {
                        proof {
                            lemma_json_obj_view(&ms);
                        }
                        Some((Json::Obj(ms), k))
                    },
                }
            }
        } else {
            None
        }
    }
}

fn parse_elements(s: &Vec<char>, i: usize) -> (r: Option<(Vec<Json>, usize)>)
    requires
        i <= s@.len(),
    ensures
        match r {
            Some(p) => spec_parse_elements(s@, i as int) == Some((p.0.deep_view(), p.1 as int))
                && i < p.1 <= s@.len(),
            None => spec_parse_elements(s@, i as int) is None,
        },
    decreases s@.len() - i, 2int,
{
    match parse_value(s, i) {
        None => None,
        Some((v, j)) => {
            let k = skip_ws(s, j);
            if k < s.len() && s[k] == ',' {
                let m = skip_ws(s, k + 1);
                if m <= i {
                    None
                } else {
                    match parse_elements(s, m) {
                        None => None,
                        Some((rest, e)) => {
                            let mut rest = rest;
                            let ghost r0 = rest.deep_view();
                            rest.insert(0, v);
                            proof {
                                assert(rest.deep_view() =~= seq![v.deep_view()] + r0);
                            }
                            Some((rest, e))
                        },
                    }
                }
            } else if k < s.len() && s[k] == ']' {
                let mut one: Vec<Json> = Vec::new();
                one.push(v);
                proof {
                    assert(one.deep_view() =~= seq![v.deep_view()]);
                }
                Some((one, k + 1))
            } else {
                None
            }
        },
    }
}

fn parse_members(s: &Vec<char>, i: usize) -> (r: Option<(Vec<Member>, usize)>)
    requires
        i <= s@.len(),
    ensures
        match r {
            Some(p) => spec_parse_members(s@, i as int) == Some((p.0.deep_view(), p.1 as int))
                && i < p.1 <= s@.len(),
            None => spec_parse_members(s@, i as int) is None,
        },
    decreases s@.len() - i, 2int,
{
    if !(i < s.len() && s[i] == '"') {
        None
    } else {
        match parse_string_chars(s, i + 1) {
            None => None,
            Some((kc, j)) => {
                let key = chars_to_string(&kc);
                let k = skip_ws(s, j);
                if k < s.len() && s[k] == ':' {
                    let m = skip_ws(s, k + 1);
                    if m <= i {
                        None
                    } else {
                        match parse_value(s, m) {
                            None => None,
                            Some((v, e)) => {
                                let k2 = skip_ws(s, e);
                                if k2 < s.len() && s[k2] == ',' {
                                    let m2 = skip_ws(s, k2 + 1);
                                    if m2 <= i {
                                        None
                                    } else {
                                        match parse_members(s, m2) {
                                            None => None,
                                            Some((rest, e2)) => {
                                                let mut rest = rest;
                                                let ghost r0 = rest.deep_view();
                                                rest.insert(0, Member { key, value: v });
                                                proof {
                                                    assert(rest.deep_view() =~= seq![
                                                        MemberV { key: kc@, value: v.deep_view() },
                                                    ] + r0);
                                                }
                                                Some((rest, e2))
                                            },
                                        }
                                    }
                                } else if k2 < s.len() && s[k2] == '}' {
                                    let mut one: Vec<Member> = Vec::new();
                                    one.push(Member { key, value: v });
                                    proof {
                                        assert(one.deep_view() =~= seq![
                                            MemberV { key: kc@, value: v.deep_view() },
                                        ]);
                                    }
                                    Some((one, k2 + 1))
                                } else {
                                    None
                                }
                            },
                        }
                    }
                } else {
                    None
                }
            },
        }
    }
}

/// Parses a whole JSON document: one value surrounded by whitespace only.
pub fn parse_json(s: &str) -> (r: Option<Json>)
    ensures
        match r {
            Some(v) => spec_parse_json(s@) == Some(v.deep_view()),
            None => spec_parse_json(s@) is None,
        },
{
    let cs = str_to_chars(s);
    let i = skip_ws(&cs, 0);
    match parse_value(&cs, i) {
        None => None,
        Some((v, j)) => {
            let k = skip_ws(&cs, j);
            if k == cs.len() {
                Some(v)
            } else {
                None
            }
        },
    }
}

} // verus!
