//! Verified framing of the wire protocol.
//!
//! An outbound frame is `{"id":<uint>,"method":"<m>"[,"sessionId":"<s>"],"params":<json>}`;
//! an inbound frame is either a response `{"id":<uint>[,"result":<json>][,"error":{...}]}`
//! or an event `{"method":"<m>"[,"sessionId":"<s>"],"params":<json>}` — the presence
//! of `"id"` is the sole discriminant.
//!
//! The encoder and decoder here handle the *framing* only: they build the
//! outer object and pull the correlation fields out of it, carrying nested
//! payloads through as raw JSON text.  They work on the compact form the
//! browser and this crate emit (no whitespace between tokens), and they
//! reject a frame whose `method` or `sessionId` value uses string escapes
//! (the protocol never emits such identifiers).

use vstd::prelude::*;
use vstd::string::*;

use crate::types::{CdpJsonEventMessage, Error, CallId, Message, MethodCall, Response};

verus! {

// ---------------------------------------------------------------------------
// Characters and digits
// ---------------------------------------------------------------------------

/// A character that may stand verbatim inside a JSON string: not a quote,
/// not a backslash, not a control character.
pub open spec fn json_plain_char(c: char) -> bool {
    c != '"' && c != '\\' && c as u32 >= 32
}

/// All characters of `s` may stand verbatim inside a JSON string.
pub open spec fn json_plain(s: Seq<char>) -> bool {
    forall|i: int| 0 <= i < s.len() ==> json_plain_char(#[trigger] s[i])
}

/// A decimal digit.
pub open spec fn is_digit_char(c: char) -> bool {
    '0' <= c && c <= '9'
}

/// The value of a decimal digit character.
pub open spec fn digit_val(c: char) -> int {
    c as int - '0' as int
}

/// The decimal digit character for a value below ten.
pub open spec fn digit_char(d: int) -> char {
    if d == 0 { '0' }
    else if d == 1 { '1' }
    else if d == 2 { '2' }
    else if d == 3 { '3' }
    else if d == 4 { '4' }
    else if d == 5 { '5' }
    else if d == 6 { '6' }
    else if d == 7 { '7' }
    else if d == 8 { '8' }
    else { '9' }
}

/// The decimal representation of `n`, most significant digit first, with no
/// leading zero (except for `n == 0` itself).
pub open spec fn dec_digits(n: nat) -> Seq<char>
    decreases n,
{
    if n < 10 {
        seq![digit_char(n as int)]
    } else {
        dec_digits(n / 10).push(digit_char((n % 10) as int))
    }
}

/// The decimal digit character for a value below ten (executable form).
fn digit_str(d: u64) -> (r: &'static str)
    requires
        d < 10,
    ensures
        r@ =~= seq![digit_char(d as int)],
{
    proof {
        reveal_strlit("0");
        reveal_strlit("1");
        reveal_strlit("2");
        reveal_strlit("3");
        reveal_strlit("4");
        reveal_strlit("5");
        reveal_strlit("6");
        reveal_strlit("7");
        reveal_strlit("8");
        reveal_strlit("9");
    }
    match d {
        0 => "0",
        1 => "1",
        2 => "2",
        3 => "3",
        4 => "4",
        5 => "5",
        6 => "6",
        7 => "7",
        8 => "8",
        _ => "9",
    }
}

/// Writes `n` in decimal.
pub fn u64_to_dec(n: u64) -> (r: String)
    ensures
        r@ == dec_digits(n as nat),
    decreases n,
{
    if n < 10 {
        let s = digit_str(n).to_owned();
        proof {
            assert(s@ =~= dec_digits(n as nat));
        }
        s
    } else {
        let mut s = u64_to_dec(n / 10);
        s.append(digit_str(n % 10));
        proof {
            assert(s@ =~= dec_digits(n as nat));
        }
        s
    }
}

/// Every character of a decimal representation is a digit, and there is at
/// least one.
pub proof fn lemma_dec_digits_are_digits(n: nat)
    ensures
        dec_digits(n).len() >= 1,
        forall|i: int|
            0 <= i < dec_digits(n).len() ==> is_digit_char(#[trigger] dec_digits(n)[i]),
    decreases n,
{
    if n >= 10 {
        lemma_dec_digits_are_digits(n / 10);
    }
}

// ---------------------------------------------------------------------------
// Escaping
// ---------------------------------------------------------------------------

/// A hexadecimal digit character for a value below sixteen.
pub open spec fn hex_char(d: int) -> char {
    if d < 10 {
        digit_char(d)
    } else if d == 10 { 'a' }
    else if d == 11 { 'b' }
    else if d == 12 { 'c' }
    else if d == 13 { 'd' }
    else if d == 14 { 'e' }
    else { 'f' }
}

/// How one character stands inside a JSON string: itself when plain, else
/// its escape.
pub open spec fn escape_char(c: char) -> Seq<char> {
    if c == '"' {
        seq!['\\', '"']
    } else if c == '\\' {
        seq!['\\', '\\']
    } else if c == '\n' {
        seq!['\\', 'n']
    } else if c == '\r' {
        seq!['\\', 'r']
    } else if c == '\t' {
        seq!['\\', 't']
    } else if (c as u32) < 32 {
        seq!['\\', 'u', '0', '0', hex_char(c as int / 16), hex_char(c as int % 16)]
    } else {
        seq![c]
    }
}

/// The body of the JSON string holding the characters `s`.
pub open spec fn escaped(s: Seq<char>) -> Seq<char>
    decreases s.len(),
{
    if s.len() == 0 {
        Seq::<char>::empty()
    } else {
        escape_char(s[0]) + escaped(s.skip(1))
    }
}

/// Escaping distributes over extending the text by one character.
proof fn lemma_escaped_push(s: Seq<char>, c: char)
    ensures
        escaped(s.push(c)) == escaped(s) + escape_char(c),
    decreases s.len(),
{
    if s.len() == 0 {
        assert(s.push(c).skip(1) =~= Seq::<char>::empty());
        assert(s.push(c)[0] == c);
        assert(escaped(s.push(c)) == escape_char(c) + escaped(Seq::<char>::empty()));
        assert(escaped(Seq::<char>::empty()) =~= Seq::<char>::empty());
        assert(escape_char(c) + Seq::<char>::empty() =~= escape_char(c));
        assert(escaped(s) =~= Seq::<char>::empty());
        assert(Seq::<char>::empty() + escape_char(c) =~= escape_char(c));
    } else {
        assert(s.push(c).skip(1) =~= s.skip(1).push(c));
        lemma_escaped_push(s.skip(1), c);
        assert(escaped(s.push(c)) =~= escaped(s) + escape_char(c));
    }
}

fn hex_str(d: u32) -> (r: &'static str)
    requires
        d < 16,
    ensures
        r@ =~= seq![hex_char(d as int)],
{
    proof {
        reveal_strlit("a");
        reveal_strlit("b");
        reveal_strlit("c");
        reveal_strlit("d");
        reveal_strlit("e");
        reveal_strlit("f");
    }
    if d < 10 {
        digit_str(d as u64)
    } else {
        match d {
            10 => "a",
            11 => "b",
            12 => "c",
            13 => "d",
            14 => "e",
            _ => "f",
        }
    }
}

/// Writes the body of the JSON string holding the characters of `s`:
/// quotes, backslashes and control characters are escaped, everything else
/// stands verbatim.
pub fn json_escape(s: &str) -> (r: String)
    ensures
        r@ == escaped(s@),
{
    let n = s.unicode_len();
    let mut out = String::new();
    let mut i: usize = 0;
    proof {
        assert(s@.take(0) =~= Seq::<char>::empty());
    }
    while i < n
        invariant
            n == s@.len(),
            i <= n,
            out@ == escaped(s@.take(i as int)),
        decreases n - i,
    {
        let c = s.get_char(i);
        if c == '"' {
            proof {
                reveal_strlit("\\\"");
            }
            out.append("\\\"");
        } else if c == '\\' {
            proof {
                reveal_strlit("\\\\");
            }
            out.append("\\\\");
        } else if c == '\n' {
            proof {
                reveal_strlit("\\n");
            }
            out.append("\\n");
        } else if c == '\r' {
            proof {
                reveal_strlit("\\r");
            }
            out.append("\\r");
        } else if c == '\t' {
            proof {
                reveal_strlit("\\t");
            }
            out.append("\\t");
        } else if (c as u32) < 32 {
            proof {
                reveal_strlit("\\u00");
            }
            out.append("\\u00");
            out.append(hex_str((c as u32) / 16));
            out.append(hex_str((c as u32) % 16));
        } else {
            out.append(s.substring_char(i, i + 1));
            proof {
                assert(s@.subrange(i as int, i + 1int) =~= seq![s@[i as int]]);
            }
        }
        proof {
            lemma_escaped_push(s@.take(i as int), s@[i as int]);
            assert(s@.take(i + 1int) =~= s@.take(i as int).push(s@[i as int]));
            assert(out@ =~= escaped(s@.take(i + 1int)));
        }
        i = i + 1;
    }
    proof {
        assert(s@.take(n as int) =~= s@);
    }
    out
}

/// The full JSON string token (with its quotes) holding the characters `s`.
pub open spec fn json_string(s: Seq<char>) -> Seq<char> {
    seq!['"'] + escaped(s) + seq!['"']
}

/// Writes the JSON string token holding the characters of `s`.
pub fn json_string_of(s: &str) -> (r: String)
    ensures
        r@ == json_string(s@),
{
    proof {
        reveal_strlit("\"");
    }
    let mut out = String::new();
    out.append("\"");
    let body = json_escape(s);
    out.append(body.as_str());
    out.append("\"");
    proof {
        assert(out@ =~= json_string(s@));
    }
    out
}

// ---------------------------------------------------------------------------
// Encoding
// ---------------------------------------------------------------------------

/// The wire text of a method call: the framing this crate sends.
pub open spec fn spec_encode_call(
    id: nat,
    method: Seq<char>,
    session_id: Option<Seq<char>>,
    params: Seq<char>,
) -> Seq<char> {
    "{\"id\":"@ + dec_digits(id) + ",\"method\":\""@ + method + "\""@ + (match session_id {
        Some(s) => ",\"sessionId\":\""@ + s + "\""@,
        None => Seq::<char>::empty(),
    }) + ",\"params\":"@ + params + "}"@
}

/// Whether every character of the string may stand verbatim inside a JSON
/// string.
pub fn is_json_plain(s: &str) -> (r: bool)
    ensures
        r == json_plain(s@),
{
    let n = s.unicode_len();
    let mut i: usize = 0;
    while i < n
        invariant
            n == s@.len(),
            i <= n,
            forall|j: int| 0 <= j < i ==> json_plain_char(#[trigger] s@[j]),
        decreases n - i,
    {
        let c = s.get_char(i);
        if c == '"' || c == '\\' || (c as u32) < 32 {
            return false;
        }
        i = i + 1;
    }
    true
}

/// Frames a method call for the wire.  Returns `None` exactly when the
/// method or session identifier could not be embedded verbatim (it contains
/// a quote, a backslash or a control character); the protocol's identifiers
/// are always plain.  `params` must already be JSON text and is embedded
/// unchanged.
pub fn encode_method_call(call: &MethodCall) -> (r: Option<String>)
    ensures
        match r {
            Some(s) => {
                &&& json_plain(call.method@)
                &&& (call.session_id matches Some(sid) ==> json_plain(sid@))
                &&& s@ == spec_encode_call(
                    call.id.0 as nat,
                    call.method@,
                    match call.session_id {
                        Some(sid) => Some(sid@),
                        None => None,
                    },
                    call.params@,
                )
            },
            None => {
                ||| !json_plain(call.method@)
                ||| (call.session_id matches Some(sid) && !json_plain(sid@))
            },
        },
{
    if !is_json_plain(call.method.as_str()) {
        return None;
    }
    let mut out = String::new();
    out.append("{\"id\":");
    let dec = u64_to_dec(call.id.0 as u64);
    out.append(dec.as_str());
    out.append(",\"method\":\"");
    out.append(call.method.as_str());
    out.append("\"");
    match &call.session_id {
        Some(sid) => {
            if !is_json_plain(sid.as_str()) {
                return None;
            }
            out.append(",\"sessionId\":\"");
            out.append(sid.as_str());
            out.append("\"");
        },
        None => {},
    }
    out.append(",\"params\":");
    out.append(call.params.as_str());
    out.append("}");
    proof {
        assert(out@ =~= spec_encode_call(
            call.id.0 as nat,
            call.method@,
            match call.session_id {
                Some(sid) => Some(sid@),
                None => None::<Seq<char>>,
            },
            call.params@,
        ));
    }
    Some(out)
}

// ---------------------------------------------------------------------------
// Decoding: token scanners (specification)
// ---------------------------------------------------------------------------

/// Position just after the closing quote of a string body starting at `i`
/// (the character after the opening quote), stepping over backslash escapes;
/// `None` if the string never closes.
pub open spec fn string_end(s: Seq<char>, i: int) -> Option<int>
    decreases s.len() - i,
{
    if i < 0 || i >= s.len() {
        None
    } else if s[i] == '"' {
        Some(i + 1)
    } else if s[i] == '\\' {
        if i + 1 < s.len() {
            string_end(s, i + 2)
        } else {
            None
        }
    } else {
        string_end(s, i + 1)
    }
}

/// First position at or after `i` holding a quote or a backslash (or the end
/// of the text).
pub open spec fn plain_run_end(s: Seq<char>, i: int) -> int
    decreases s.len() - i,
{
    if 0 <= i < s.len() && s[i] != '"' && s[i] != '\\' {
        plain_run_end(s, i + 1)
    } else {
        i
    }
}

/// Parses a string token at `i` (which must hold the opening quote) whose
/// body uses no escapes: the body and the position after the closing quote.
pub open spec fn parse_plain_string(s: Seq<char>, i: int) -> Option<(Seq<char>, int)> {
    if 0 <= i < s.len() && s[i] == '"' {
        let j = plain_run_end(s, i + 1);
        if j < s.len() && s[j] == '"' {
            Some((s.subrange(i + 1, j), j + 1))
        } else {
            None
        }
    } else {
        None
    }
}

/// First position at or after `i` holding no digit.
pub open spec fn digit_run_end(s: Seq<char>, i: int) -> int
    decreases s.len() - i,
{
    if 0 <= i < s.len() && is_digit_char(s[i]) {
        digit_run_end(s, i + 1)
    } else {
        i
    }
}

/// The value of the digits `s[i..j)`.
pub open spec fn digits_value(s: Seq<char>, i: int, j: int) -> nat
    decreases j - i,
{
    if i < j {
        (digits_value(s, i, j - 1) * 10 + if digit_val(s[j - 1]) >= 0 {
            digit_val(s[j - 1])
        } else {
            0
        }) as nat
    } else {
        0
    }
}

/// Parses an unsigned decimal number at `i`: its value and the position
/// after its digits; `None` if `s[i]` is no digit.
pub open spec fn parse_number_u(s: Seq<char>, i: int) -> Option<(nat, int)> {
    let j = digit_run_end(s, i);
    if j > i {
        Some((digits_value(s, i, j), j))
    } else {
        None
    }
}

/// Parses a decimal integer at `i`, with an optional leading minus sign.
pub open spec fn parse_number_i(s: Seq<char>, i: int) -> Option<(int, int)> {
    if 0 <= i < s.len() && s[i] == '-' {
        match parse_number_u(s, i + 1) {
            Some((v, j)) => Some((-(v as int), j)),
            None => None,
        }
    } else {
        match parse_number_u(s, i) {
            Some((v, j)) => Some((v as int, j)),
            None => None,
        }
    }
}

/// Position just after the bracket that closes a composite value whose
/// opening bracket stood at `i - 1`, counting bracket depth and stepping
/// over strings; `None` if it never closes.
pub open spec fn composite_end(
    s: Seq<char>,
    i: int,
    depth: nat,
    in_str: bool,
    esc: bool,
) -> Option<int>
    decreases s.len() - i,
{
    if i < 0 || i >= s.len() {
        None
    } else {
        let c = s[i];
        if in_str {
            if esc {
                composite_end(s, i + 1, depth, true, false)
            } else if c == '\\' {
                composite_end(s, i + 1, depth, true, true)
            } else if c == '"' {
                composite_end(s, i + 1, depth, false, false)
            } else {
                composite_end(s, i + 1, depth, true, false)
            }
        } else if c == '"' {
            composite_end(s, i + 1, depth, true, false)
        } else if c == '{' || c == '[' {
            composite_end(s, i + 1, depth + 1, false, false)
        } else if c == '}' || c == ']' {
            if depth == 1 {
                Some(i + 1)
            } else {
                composite_end(s, i + 1, (depth - 1) as nat, false, false)
            }
        } else {
            composite_end(s, i + 1, depth, false, false)
        }
    }
}

/// A character that ends a scalar value in the compact form.
pub open spec fn is_delim_char(c: char) -> bool {
    c == ',' || c == '}' || c == ']'
}

/// First position at or after `i` holding a delimiter (or the end).
pub open spec fn scalar_end(s: Seq<char>, i: int) -> int
    decreases s.len() - i,
{
    if 0 <= i < s.len() && !is_delim_char(s[i]) {
        scalar_end(s, i + 1)
    } else {
        i
    }
}

/// Position just after the JSON value starting at `i`, scanning its framing
/// only (strings, bracket balance, scalars); `None` if no value starts here
/// or it never closes.
pub open spec fn skip_value(s: Seq<char>, i: int) -> Option<int> {
    if i < 0 || i >= s.len() {
        None
    } else if s[i] == '"' {
        string_end(s, i + 1)
    } else if s[i] == '{' || s[i] == '[' {
        composite_end(s, i + 1, 1, false, false)
    } else if is_delim_char(s[i]) || s[i] == ':' {
        None
    } else {
        Some(scalar_end(s, i))
    }
}

// ---------------------------------------------------------------------------
// Decoding: frames (specification)
// ---------------------------------------------------------------------------

/// The error member of a response frame.
pub struct WireError {
    /// Error code.
    pub code: int,
    /// Error message.
    pub message: Seq<char>,
}

/// The correlation fields a frame may carry.
pub struct WireFields {
    /// The `"id"` member, when present.
    pub id: Option<nat>,
    /// The `"method"` member, when present.
    pub method: Option<Seq<char>>,
    /// The `"sessionId"` member, when present.
    pub session_id: Option<Seq<char>>,
    /// The raw text of the `"params"` member, when present.
    pub params: Option<Seq<char>>,
    /// The raw text of the `"result"` member, when present.
    pub result: Option<Seq<char>>,
    /// The `"error"` member, when present.
    pub error: Option<WireError>,
}

/// A frame with no members.
pub open spec fn empty_fields() -> WireFields {
    WireFields { id: None, method: None, session_id: None, params: None, result: None, error: None }
}

/// Parses the members of an error object from the first key at `i` to the
/// closing brace: the error, whether a code and a message were seen, and the
/// position after the brace.
pub open spec fn parse_error_members(
    s: Seq<char>,
    i: int,
    acc: WireError,
    got_code: bool,
    got_msg: bool,
    fuel: nat,
) -> Option<(WireError, bool, bool, int)>
    decreases fuel, 1int,
{
    if fuel == 0 {
        None
    } else {
        match parse_plain_string(s, i) {
            None => None,
            Some((key, j)) => {
                if j < s.len() && s[j] == ':' {
                    let k = j + 1;
                    if key == "code"@ {
                        match parse_number_i(s, k) {
                            None => None,
                            Some((v, m)) => {
                                if v < i64::MIN || v > i64::MAX {
                                    None
                                } else {
                                    parse_error_tail(
                                        s,
                                        m,
                                        WireError { code: v, ..acc },
                                        true,
                                        got_msg,
                                        fuel,
                                    )
                                }
                            },
                        }
                    } else if key == "message"@ {
                        match parse_plain_string(s, k) {
                            None => None,
                            Some((v, m)) => parse_error_tail(
                                s,
                                m,
                                WireError { message: v, ..acc },
                                got_code,
                                true,
                                fuel,
                            ),
                        }
                    } else {
                        match skip_value(s, k) {
                            None => None,
                            Some(m) => parse_error_tail(s, m, acc, got_code, got_msg, fuel),
                        }
                    }
                } else {
                    None
                }
            },
        }
    }
}

/// After an error member: a comma continues with the next member, a closing
/// brace ends the object.
pub open spec fn parse_error_tail(
    s: Seq<char>,
    i: int,
    acc: WireError,
    got_code: bool,
    got_msg: bool,
    fuel: nat,
) -> Option<(WireError, bool, bool, int)>
    decreases fuel, 0int,
{
    if 0 <= i < s.len() {
        if s[i] == ',' {
            if fuel > 0 {
                parse_error_members(s, i + 1, acc, got_code, got_msg, (fuel - 1) as nat)
            } else {
                None
            }
        } else if s[i] == '}' {
            Some((acc, got_code, got_msg, i + 1))
        } else {
            None
        }
    } else {
        None
    }
}

/// Parses an error object value at `i`: both a code and a message must be
/// present.
pub open spec fn parse_error_value(s: Seq<char>, i: int) -> Option<(WireError, int)> {
    if 0 <= i < s.len() && s[i] == '{' {
        match parse_error_members(
            s,
            i + 1,
            WireError { code: 0, message: Seq::<char>::empty() },
            false,
            false,
            s.len() as nat,
        ) {
            None => None,
            Some((e, got_code, got_msg, m)) => {
                if got_code && got_msg {
                    Some((e, m))
                } else {
                    None
                }
            },
        }
    } else {
        None
    }
}

/// Parses the members of a frame from the first key at `i` to the closing
/// brace.  Correlation members must be well formed where present: an id
/// must be an unsigned integer that fits the id type, a method or session
/// identifier a string without escapes; a member under any other key is
/// skipped over as raw JSON.  A repeated key keeps its last value.
pub open spec fn parse_frame_members(s: Seq<char>, i: int, acc: WireFields, fuel: nat) -> Option<
    (WireFields, int),
>
    decreases fuel, 1int,
{
    if fuel == 0 {
        None
    } else {
        match parse_plain_string(s, i) {
            None => None,
            Some((key, j)) => {
                if j < s.len() && s[j] == ':' {
                    let k = j + 1;
                    if key == "id"@ {
                        match parse_number_u(s, k) {
                            None => None,
                            Some((v, m)) => {
                                if v > usize::MAX {
                                    None
                                } else {
                                    parse_frame_tail(s, m, WireFields { id: Some(v), ..acc }, fuel)
                                }
                            },
                        }
                    } else if key == "method"@ {
                        match parse_plain_string(s, k) {
                            None => None,
                            Some((v, m)) => parse_frame_tail(
                                s,
                                m,
                                WireFields { method: Some(v), ..acc },
                                fuel,
                            ),
                        }
                    } else if key == "sessionId"@ {
                        match parse_plain_string(s, k) {
                            None => None,
                            Some((v, m)) => parse_frame_tail(
                                s,
                                m,
                                WireFields { session_id: Some(v), ..acc },
                                fuel,
                            ),
                        }
                    } else if key == "params"@ {
                        match skip_value(s, k) {
                            None => None,
                            Some(m) => parse_frame_tail(
                                s,
                                m,
                                WireFields { params: Some(s.subrange(k, m)), ..acc },
                                fuel,
                            ),
                        }
                    } else if key == "result"@ {
                        match skip_value(s, k) {
                            None => None,
                            Some(m) => parse_frame_tail(
                                s,
                                m,
                                WireFields { result: Some(s.subrange(k, m)), ..acc },
                                fuel,
                            ),
                        }
                    } else if key == "error"@ {
                        match parse_error_value(s, k) {
                            None => None,
                            Some((e, m)) => parse_frame_tail(
                                s,
                                m,
                                WireFields { error: Some(e), ..acc },
                                fuel,
                            ),
                        }
                    } else {
                        match skip_value(s, k) {
                            None => None,
                            Some(m) => parse_frame_tail(s, m, acc, fuel),
                        }
                    }
                } else {
                    None
                }
            },
        }
    }
}

/// After a frame member: a comma continues with the next member, a closing
/// brace ends the frame.
pub open spec fn parse_frame_tail(s: Seq<char>, i: int, acc: WireFields, fuel: nat) -> Option<
    (WireFields, int),
>
    decreases fuel, 0int,
{
    if 0 <= i < s.len() {
        if s[i] == ',' {
            if fuel > 0 {
                parse_frame_members(s, i + 1, acc, (fuel - 1) as nat)
            } else {
                None
            }
        } else if s[i] == '}' {
            Some((acc, i + 1))
        } else {
            None
        }
    } else {
        None
    }
}

/// The fields of the frame `s`, which must be one JSON object spanning the
/// whole text.
pub open spec fn spec_frame_fields(s: Seq<char>) -> Option<WireFields> {
    if s.len() > 0 && s[0] == '{' {
        let parsed = if s.len() > 1 && s[1] == '}' {
            Some((empty_fields(), 2int))
        } else {
            parse_frame_members(s, 1, empty_fields(), s.len() as nat)
        };
        match parsed {
            None => None,
            Some((f, end)) => {
                if end == s.len() {
                    Some(f)
                } else {
                    None
                }
            },
        }
    } else {
        None
    }
}

/// The spec-level value of a decoded frame.
pub enum SpecFrame {
    /// A response: it carried an id.
    Response {
        /// The answered call.
        id: nat,
        /// Raw text of the result payload, when present.
        result: Option<Seq<char>>,
        /// The error, when present.
        error: Option<WireError>,
    },
    /// An event: it carried a method and no id.
    Event {
        /// The event method name.
        method: Seq<char>,
        /// The session the event is meant for, when present.
        session_id: Option<Seq<char>>,
        /// Raw text of the event payload.
        params: Seq<char>,
    },
}

/// What the frame `s` means: a response exactly when it carries an id, an
/// event exactly when it carries a method (and no id) together with a
/// params payload; anything else is no frame.
pub open spec fn spec_decode_frame(s: Seq<char>) -> Option<SpecFrame> {
    match spec_frame_fields(s) {
        None => None,
        Some(f) => match f.id {
            Some(id) => Some(
                SpecFrame::Response { id, result: f.result, error: f.error },
            ),
            None => match (f.method, f.params) {
                (Some(m), Some(p)) => Some(
                    SpecFrame::Event { method: m, session_id: f.session_id, params: p },
                ),
                _ => None,
            },
        },
    }
}

// ---------------------------------------------------------------------------
// Decoding: executable scanners
// ---------------------------------------------------------------------------

/// The text was not one well-formed frame.
#[derive(Debug, Clone, PartialEq, Eq, Structural)]
pub struct DecodeError {}

fn string_end_x(s: &str, n: usize, i: usize) -> (r: Option<usize>)
    requires
        n == s@.len(),
    ensures
        match r {
            Some(j) => string_end(s@, i as int) == Some(j as int) && i < j <= n,
            None => string_end(s@, i as int) is None,
        },
{
    let mut k = i;
    loop
        invariant
            n == s@.len(),
            i <= k,
            string_end(s@, i as int) == string_end(s@, k as int),
        decreases n - k,
    {
        if k >= n {
            return None;
        }
        let c = s.get_char(k);
        if c == '"' {
            return Some(k + 1);
        } else if c == '\\' {
            if k + 1 < n {
                k = k + 2;
            } else {
                return None;
            }
        } else {
            k = k + 1;
        }
    }
}

fn plain_run_end_x(s: &str, n: usize, i: usize) -> (r: usize)
    requires
        n == s@.len(),
        i <= n,
    ensures
        r == plain_run_end(s@, i as int),
        i <= r <= n,
{
    let mut k = i;
    loop
        invariant
            n == s@.len(),
            i <= k <= n,
            plain_run_end(s@, i as int) == plain_run_end(s@, k as int),
        decreases n - k,
    {
        if k >= n {
            return k;
        }
        let c = s.get_char(k);
        if c == '"' || c == '\\' {
            return k;
        }
        k = k + 1;
    }
}

fn parse_plain_string_x(s: &str, n: usize, i: usize) -> (r: Option<(String, usize)>)
    requires
        n == s@.len(),
    ensures
        match r {
            Some(v) => parse_plain_string(s@, i as int) == Some((v.0@, v.1 as int)) && i < v.1 <= n,
            None => parse_plain_string(s@, i as int) is None,
        },
{
    if i >= n || s.get_char(i) != '"' {
        return None;
    }
    let j = plain_run_end_x(s, n, i + 1);
    if j < n && s.get_char(j) == '"' {
        let body = s.substring_char(i + 1, j).to_owned();
        Some((body, j + 1))
    } else {
        None
    }
}

fn digit_run_end_x(s: &str, n: usize, i: usize) -> (r: usize)
    requires
        n == s@.len(),
        i <= n,
    ensures
        r == digit_run_end(s@, i as int),
        i <= r <= n,
{
    let mut k = i;
    loop
        invariant
            n == s@.len(),
            i <= k <= n,
            digit_run_end(s@, i as int) == digit_run_end(s@, k as int),
        decreases n - k,
    {
        if k >= n {
            return k;
        }
        let c = s.get_char(k);
        if '0' <= c && c <= '9' {
            k = k + 1;
        } else {
            return k;
        }
    }
}

/// The value of a digit run only grows as the run extends.
proof fn lemma_digits_value_grows(s: Seq<char>, i: int, k: int, j: int)
    requires
        i <= k <= j,
    ensures
        digits_value(s, i, j) >= digits_value(s, i, k),
    decreases j - k,
{
    if k < j {
        lemma_digits_value_grows(s, i, k + 1, j);
        assert(digits_value(s, i, k + 1) >= digits_value(s, i, k)) by {
            let v = digits_value(s, i, k);
            assert(v * 10 >= v) by (nonlinear_arith)
                requires
                    v >= 0,
            ;
        };
    }
}

fn parse_number_x(s: &str, n: usize, i: usize) -> (r: Option<(u64, usize)>)
    requires
        n == s@.len(),
        i <= n,
    ensures
        match r {
            Some(v) => parse_number_u(s@, i as int) == Some((v.0 as nat, v.1 as int)) && i < v.1
                <= n,
            None => parse_number_u(s@, i as int) is None || parse_number_u(
                s@,
                i as int,
            ).unwrap().0 > u64::MAX,
        },
{
    let j = digit_run_end_x(s, n, i);
    if j == i {
        return None;
    }
    let mut acc: u64 = 0;
    let mut k = i;
    while k < j
        invariant
            n == s@.len(),
            i <= k <= j <= n,
            j == digit_run_end(s@, i as int),
            acc as nat == digits_value(s@, i as int, k as int),
        decreases j - k,
    {
        proof {
            lemma_digit_run_chars(s@, i as int, k as int);
        }
        let c = s.get_char(k);
        let d: u64 = ((c as u32) - 48) as u64;
        let shifted = match acc.checked_mul(10) {
            Some(x) => x,
            None => {
                proof {
                    lemma_digits_value_grows(s@, i as int, k + 1, j as int);
                }
                return None;
            },
        };
        let next = match shifted.checked_add(d) {
            Some(x) => x,
            None => {
                proof {
                    lemma_digits_value_grows(s@, i as int, k + 1, j as int);
                }
                return None;
            },
        };
        acc = next;
        k = k + 1;
    }
    Some((acc, j))
}

/// Every character before the end of a digit run is a digit.
proof fn lemma_digit_run_chars(s: Seq<char>, i: int, k: int)
    requires
        0 <= i <= k,
        k < digit_run_end(s, i),
    ensures
        is_digit_char(s[k]),
    decreases k - i,
{
    if i < k {
        lemma_digit_run_chars(s, i + 1, k);
    }
}

fn parse_number_i_x(s: &str, n: usize, i: usize) -> (r: Option<(i64, usize)>)
    requires
        n == s@.len(),
        i <= n,
    ensures
        match r {
            Some(v) => parse_number_i(s@, i as int) == Some((v.0 as int, v.1 as int)) && i < v.1
                <= n,
            None => parse_number_i(s@, i as int) is None || parse_number_i(
                s@,
                i as int,
            ).unwrap().0 < i64::MIN || parse_number_i(s@, i as int).unwrap().0 > i64::MAX,
        },
{
    if i < n && s.get_char(i) == '-' {
        match parse_number_x(s, n, i + 1) {
            Some((v, j)) => {
                if v <= 9_223_372_036_854_775_807u64 {
                    Some((-(v as i64), j))
                } else if v == 9_223_372_036_854_775_808u64 {
                    Some((i64::MIN, j))
                } else {
                    None
                }
            },
            None => None,
        }
    } else {
        match parse_number_x(s, n, i) {
            Some((v, j)) => {
                if v <= 9_223_372_036_854_775_807u64 {
                    Some((v as i64, j))
                } else {
                    None
                }
            },
            None => None,
        }
    }
}

fn composite_end_x(s: &str, n: usize, i: usize, depth: usize, in_str: bool, esc: bool) -> (r:
    Option<usize>)
    requires
        n == s@.len(),
        1 <= depth <= i,
    ensures
        match r {
            Some(j) => composite_end(s@, i as int, depth as nat, in_str, esc) == Some(j as int)
                && i < j <= n,
            None => composite_end(s@, i as int, depth as nat, in_str, esc) is None,
        },
{
    let mut k = i;
    let mut d = depth;
    let mut instr = in_str;
    let mut e = esc;
    loop
        invariant
            n == s@.len(),
            i <= k,
            1 <= d <= k,
            composite_end(s@, i as int, depth as nat, in_str, esc) == composite_end(
                s@,
                k as int,
                d as nat,
                instr,
                e,
            ),
        decreases n - k,
    {
        if k >= n {
            return None;
        }
        let c = s.get_char(k);
        if instr {
            if e {
                e = false;
            } else if c == '\\' {
                e = true;
            } else if c == '"' {
                instr = false;
                e = false;
            } else {
                e = false;
            }
            k = k + 1;
        } else if c == '"' {
            instr = true;
            e = false;
            k = k + 1;
        } else if c == '{' || c == '[' {
            d = d + 1;
            e = false;
            k = k + 1;
        } else if c == '}' || c == ']' {
            if d == 1 {
                return Some(k + 1);
            }
            d = d - 1;
            e = false;
            k = k + 1;
        } else {
            e = false;
            k = k + 1;
        }
    }
}

fn scalar_end_x(s: &str, n: usize, i: usize) -> (r: usize)
    requires
        n == s@.len(),
        i <= n,
    ensures
        r == scalar_end(s@, i as int),
        i <= r <= n,
{
    let mut k = i;
    loop
        invariant
            n == s@.len(),
            i <= k <= n,
            scalar_end(s@, i as int) == scalar_end(s@, k as int),
        decreases n - k,
    {
        if k >= n {
            return k;
        }
        let c = s.get_char(k);
        if c == ',' || c == '}' || c == ']' {
            return k;
        }
        k = k + 1;
    }
}

fn skip_value_x(s: &str, n: usize, i: usize) -> (r: Option<usize>)
    requires
        n == s@.len(),
    ensures
        match r {
            Some(j) => skip_value(s@, i as int) == Some(j as int) && i < j <= n,
            None => skip_value(s@, i as int) is None,
        },
{
    if i >= n {
        return None;
    }
    let c = s.get_char(i);
    if c == '"' {
        string_end_x(s, n, i + 1)
    } else if c == '{' || c == '[' {
        composite_end_x(s, n, i + 1, 1, false, false)
    } else if c == ',' || c == '}' || c == ']' || c == ':' {
        None
    } else {
        let j = scalar_end_x(s, n, i + 1);
        proof {
            assert(scalar_end(s@, i as int) == scalar_end(s@, i + 1 as int));
        }
        Some(j)
    }
}

/// The correlation fields of a frame, as the executable parser accumulates
/// them.
struct FieldsX {
    id: Option<usize>,
    method: Option<String>,
    session_id: Option<String>,
    params: Option<String>,
    result: Option<String>,
    error: Option<Error>,
}

spec fn opt_str_view(o: Option<String>) -> Option<Seq<char>> {
    match o {
        Some(s) => Some(s@),
        None => None,
    }
}

spec fn error_view(e: Error) -> WireError {
    WireError { code: e.code as int, message: e.message@ }
}

spec fn fields_view(f: FieldsX) -> WireFields {
    WireFields {
        id: match f.id {
            Some(v) => Some(v as nat),
            None => None,
        },
        method: opt_str_view(f.method),
        session_id: opt_str_view(f.session_id),
        params: opt_str_view(f.params),
        result: opt_str_view(f.result),
        error: match f.error {
            Some(e) => Some(error_view(e)),
            None => None,
        },
    }
}

fn parse_error_members_x(
    s: &str,
    n: usize,
    i: usize,
    acc: Error,
    got_code: bool,
    got_msg: bool,
    fuel: usize,
) -> (r: Option<(Error, bool, bool, usize)>)
    requires
        n == s@.len(),
    ensures
        match r {
            Some(v) => parse_error_members(
                s@,
                i as int,
                error_view(acc),
                got_code,
                got_msg,
                fuel as nat,
            ) == Some((error_view(v.0), v.1, v.2, v.3 as int)) && v.3 <= n,
            None => parse_error_members(
                s@,
                i as int,
                error_view(acc),
                got_code,
                got_msg,
                fuel as nat,
            ) is None,
        },
    decreases fuel,
{
    if fuel == 0 {
        return None;
    }
    let (key, j) = match parse_plain_string_x(s, n, i) {
        Some(v) => v,
        None => {
            return None;
        },
    };
    if !(j < n && s.get_char(j) == ':') {
        return None;
    }
    let k = j + 1;
    let (acc2, gc2, gm2, m) = if crate::strutil::str_eq(key.as_str(), "code") {
        match parse_number_i_x(s, n, k) {
            Some((v, m)) => (Error { code: v, ..acc }, true, got_msg, m),
            None => {
                return None;
            },
        }
    } else if crate::strutil::str_eq(key.as_str(), "message") {
        match parse_plain_string_x(s, n, k) {
            Some((v, m)) => (Error { message: v, ..acc }, got_code, true, m),
            None => {
                return None;
            },
        }
    } else {
        match skip_value_x(s, n, k) {
            Some(m) => (acc, got_code, got_msg, m),
            None => {
                return None;
            },
        }
    };
    if m < n {
        let c = s.get_char(m);
        if c == ',' {
            parse_error_members_x(s, n, m + 1, acc2, gc2, gm2, fuel - 1)
        } else if c == '}' {
            Some((acc2, gc2, gm2, m + 1))
        } else {
            None
        }
    } else {
        None
    }
}

fn parse_error_value_x(s: &str, n: usize, i: usize) -> (r: Option<(Error, usize)>)
    requires
        n == s@.len(),
    ensures
        match r {
            Some(v) => parse_error_value(s@, i as int) == Some((error_view(v.0), v.1 as int))
                && v.1 <= n,
            None => parse_error_value(s@, i as int) is None,
        },
{
    if !(i < n && s.get_char(i) == '{') {
        return None;
    }
    let start = Error { code: 0, message: String::new() };
    match parse_error_members_x(s, n, i + 1, start, false, false, n) {
        None => None,
        Some((e, got_code, got_msg, m)) => {
            if got_code && got_msg {
                Some((e, m))
            } else {
                None
            }
        },
    }
}

fn parse_frame_members_x(s: &str, n: usize, i: usize, acc: FieldsX, fuel: usize) -> (r: Option<
    (FieldsX, usize),
>)
    requires
        n == s@.len(),
    ensures
        match r {
            Some(v) => parse_frame_members(s@, i as int, fields_view(acc), fuel as nat) == Some(
                (fields_view(v.0), v.1 as int),
            ) && v.1 <= n,
            None => parse_frame_members(s@, i as int, fields_view(acc), fuel as nat) is None,
        },
    decreases fuel,
{
    if fuel == 0 {
        return None;
    }
    let (key, j) = match parse_plain_string_x(s, n, i) {
        Some(v) => v,
        None => {
            return None;
        },
    };
    if !(j < n && s.get_char(j) == ':') {
        return None;
    }
    let k = j + 1;
    let (acc2, m) = if crate::strutil::str_eq(key.as_str(), "id") {
        match parse_number_x(s, n, k) {
            Some((v, m)) => {
                if v <= usize::MAX as u64 {
                    (FieldsX { id: Some(v as usize), ..acc }, m)
                } else {
                    return None;
                }
            },
            None => {
                return None;
            },
        }
    } else if crate::strutil::str_eq(key.as_str(), "method") {
        match parse_plain_string_x(s, n, k) {
            Some((v, m)) => (FieldsX { method: Some(v), ..acc }, m),
            None => {
                return None;
            },
        }
    } else if crate::strutil::str_eq(key.as_str(), "sessionId") {
        match parse_plain_string_x(s, n, k) {
            Some((v, m)) => (FieldsX { session_id: Some(v), ..acc }, m),
            None => {
                return None;
            },
        }
    } else if crate::strutil::str_eq(key.as_str(), "params") {
        match skip_value_x(s, n, k) {
            Some(m) => (
                FieldsX { params: Some(s.substring_char(k, m).to_owned()), ..acc },
                m,
            ),
            None => {
                return None;
            },
        }
    } else if crate::strutil::str_eq(key.as_str(), "result") {
        match skip_value_x(s, n, k) {
            Some(m) => (
                FieldsX { result: Some(s.substring_char(k, m).to_owned()), ..acc },
                m,
            ),
            None => {
                return None;
            },
        }
    } else if crate::strutil::str_eq(key.as_str(), "error") {
        match parse_error_value_x(s, n, k) {
            Some((e, m)) => (FieldsX { error: Some(e), ..acc }, m),
            None => {
                return None;
            },
        }
    } else {
        match skip_value_x(s, n, k) {
            Some(m) => (acc, m),
            None => {
                return None;
            },
        }
    };
    if m < n {
        let c = s.get_char(m);
        if c == ',' {
            parse_frame_members_x(s, n, m + 1, acc2, fuel - 1)
        } else if c == '}' {
            Some((acc2, m + 1))
        } else {
            None
        }
    } else {
        None
    }
}

/// Decodes one inbound frame: a [`Message::Response`] exactly when the frame
/// carries an `"id"` member, a [`Message::Event`] exactly when it carries a
/// `"method"` and a `"params"` member and no id; every other text is a
/// decode error.  The contract ties the result to [`spec_decode_frame`],
/// which defines the accepted grammar.
pub fn decode_frame(s: &str) -> (r: Result<Message, DecodeError>)
    ensures
        match r {
            Ok(m) => spec_decode_frame(s@) == Some(message_spec(m)),
            Err(_) => spec_decode_frame(s@) is None,
        },
{
    let n = s.unicode_len();
    if n == 0 || s.get_char(0) != '{' {
        return Err(DecodeError {});
    }
    let start = FieldsX {
        id: None,
        method: None,
        session_id: None,
        params: None,
        result: None,
        error: None,
    };
    proof {
        assert(fields_view(start) =~= empty_fields());
    }
    let parsed = if n > 1 && s.get_char(1) == '}' {
        Some((start, 2))
    } else {
        parse_frame_members_x(s, n, 1, start, n)
    };
    match parsed {
        None => Err(DecodeError {}),
        Some((f, end)) => {
            if end != n {
                return Err(DecodeError {});
            }
            match f.id {
                Some(id) => Ok(
                    Message::Response(
                        Response { id: CallId(id), result: f.result, error: f.error },
                    ),
                ),
                None => {
                    let FieldsX { method, session_id, params, .. } = f;
                    match (method, params) {
                        (Some(m), Some(p)) => Ok(
                            Message::Event(
                                CdpJsonEventMessage { method: m, session_id, params: p },
                            ),
                        ),
                        _ => Err(DecodeError {}),
                    }
                },
            }
        },
    }
}

/// What a decoded [`Message`] says, for stating the decoder's contract.
pub open spec fn message_spec(m: Message) -> SpecFrame {
    match m {
        Message::Response(r) => SpecFrame::Response {
            id: r.id.0 as nat,
            result: match r.result {
                Some(t) => Some(t@),
                None => None,
            },
            error: match r.error {
                Some(e) => Some(WireError { code: e.code as int, message: e.message@ }),
                None => None,
            },
        },
        Message::Event(e) => SpecFrame::Event {
            method: e.method@,
            session_id: match e.session_id {
                Some(t) => Some(t@),
                None => None,
            },
            params: e.params@,
        },
    }
}

} // verus!
