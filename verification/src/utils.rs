//! Helpers for building and recognising JavaScript expression strings.

use vstd::prelude::*;
use vstd::string::StringExecFns;

verus! {

/// A whitespace character, as the recognisers here skip it.
pub open spec fn is_ws(c: char) -> bool {
    c == ' ' || c == '\t' || c == '\n' || c == '\r'
}

/// The first position at or after `i` holding no whitespace.
pub open spec fn skip_ws_idx(s: Seq<char>, i: int) -> int
    decreases s.len() - i,
{
    if 0 <= i < s.len() && is_ws(s[i]) {
        skip_ws_idx(s, i + 1)
    } else {
        i
    }
}

/// Whether `prefix` stands at position `i` of `s`.
pub open spec fn starts_with_at(s: Seq<char>, i: int, prefix: Seq<char>) -> bool {
    0 <= i && i + prefix.len() <= s.len() && s.subrange(i, i + prefix.len()) == prefix
}

/// The characters of the first `i` parameters, each in quotes, joined with
/// commas.
pub open spec fn joined_prefix(params: Seq<String>, i: int) -> Seq<char>
    decreases i,
{
    if i <= 0 {
        Seq::<char>::empty()
    } else if i == 1 {
        seq!['"'] + params[0]@ + seq!['"']
    } else {
        joined_prefix(params, i - 1) + seq![','] + seq!['"'] + params[i - 1]@ + seq!['"']
    }
}

/// The evaluation string for a function and its parameters:
/// `(<function>)("<param 1>","<param 2>")`.
pub open spec fn spec_evaluation_string(function: Seq<char>, params: Seq<String>) -> Seq<char> {
    "("@ + function + ")("@ + joined_prefix(params, params.len() as int) + ")"@
}

/// Creates a JavaScript invocation string `(<function>)("<p1>","<p2>")`;
/// the parameters are wrapped in quotes as given.
pub fn evaluation_string(function: &str, params: &Vec<String>) -> (r: String)
    ensures
        r@ == spec_evaluation_string(function@, params@),
{
    let mut out = String::new();
    out.append("(");
    out.append(function);
    out.append(")(");
    let n = params.len();
    let mut i: usize = 0;
    while i < n
        invariant
            n == params@.len(),
            i <= n,
            out@ == "("@ + function@ + ")("@ + joined_prefix(params@, i as int),
        decreases n - i,
    {
        if i > 0 {
            out.append(",");
        }
        out.append("\"");
        out.append(params[i].as_str());
        out.append("\"");
        proof {
            reveal_strlit(",");
            reveal_strlit("\"");
            assert(","@ =~= seq![',']);
            assert("\""@ =~= seq!['"']);
            assert(out@ =~= "("@ + function@ + ")("@ + joined_prefix(params@, i + 1int));
        }
        i = i + 1;
    }
    out.append(")");
    proof {
        assert(out@ =~= spec_evaluation_string(function@, params@));
    }
    out
}

/// Scans forward from `i` counting parentheses until as many have closed as
/// opened: the position after balance, if it is reached.
pub open spec fn paren_scan(s: Seq<char>, i: int, open: int, closed: int) -> Option<int>
    decreases s.len() - i,
{
    if open == closed {
        Some(i)
    } else if i < 0 || i >= s.len() {
        None
    } else if s[i] == '(' {
        paren_scan(s, i + 1, open + 1, closed)
    } else if s[i] == ')' {
        paren_scan(s, i + 1, open, closed + 1)
    } else {
        paren_scan(s, i + 1, open, closed)
    }
}

/// The position just after a leading parenthesized argument list starting
/// at `i`, if one is there and balanced.
pub open spec fn spec_skip_args(s: Seq<char>, i: int) -> Option<int> {
    if 0 <= i < s.len() && s[i] == '(' {
        paren_scan(s, i + 1, 1, 0)
    } else {
        None
    }
}

/// Whether the text is likely a JavaScript function: after leading
/// whitespace and an optional `async ` marker it starts with `function `,
/// or it starts with a balanced argument list followed by an arrow.
pub open spec fn spec_is_likely_js_function(s: Seq<char>) -> bool {
    let t = skip_ws_idx(s, 0);
    if t >= s.len() {
        false
    } else {
        let off: int = if starts_with_at(s, t, "async "@) {
            5
        } else {
            0
        };
        if starts_with_at(s, skip_ws_idx(s, t + off), "function "@) {
            true
        } else {
            match spec_skip_args(s, t) {
                Some(j) => starts_with_at(s, skip_ws_idx(s, j), "=>"@),
                None => false,
            }
        }
    }
}

fn skip_ws_x(s: &str, n: usize, i: usize) -> (r: usize)
    requires
        n == s@.len(),
        i <= n,
    ensures
        r == skip_ws_idx(s@, i as int),
        i <= r <= n,
{
    let mut k = i;
    loop
        invariant
            n == s@.len(),
            i <= k <= n,
            skip_ws_idx(s@, i as int) == skip_ws_idx(s@, k as int),
        decreases n - k,
    {
        if k >= n {
            return k;
        }
        let c = s.get_char(k);
        if c == ' ' || c == '\t' || c == '\n' || c == '\r' {
            k = k + 1;
        } else {
            return k;
        }
    }
}

fn starts_with_at_x(s: &str, n: usize, i: usize, prefix: &str) -> (r: bool)
    requires
        n == s@.len(),
    ensures
        r == starts_with_at(s@, i as int, prefix@),
{
    let m = prefix.unicode_len();
    if i > n || m > n - i {
        return false;
    }
    let mut k: usize = 0;
    while k < m
        invariant
            n == s@.len(),
            m == prefix@.len(),
            i + m <= n,
            k <= m,
            forall|j: int| 0 <= j < k ==> s@[i + j] == prefix@[j],
        decreases m - k,
    {
        if s.get_char(i + k) != prefix.get_char(k) {
            proof {
                assert(s@.subrange(i as int, i + prefix@.len()) != prefix@) by {
                    assert(s@.subrange(i as int, i + prefix@.len())[k as int] != prefix@[k as int]);
                }
            }
            return false;
        }
        k = k + 1;
    }
    proof {
        assert(s@.subrange(i as int, i + prefix@.len()) =~= prefix@);
    }
    true
}

fn paren_scan_x(s: &str, n: usize, i: usize, open: usize, closed: usize) -> (r: Option<usize>)
    requires
        n == s@.len(),
        closed <= open <= i <= n,
        1 <= open,
    ensures
        match r {
            Some(j) => paren_scan(s@, i as int, open as int, closed as int) == Some(j as int) && j
                <= n,
            None => paren_scan(s@, i as int, open as int, closed as int) is None,
        },
{
    let mut k = i;
    let mut op = open;
    let mut cl = closed;
    loop
        invariant
            n == s@.len(),
            cl <= op <= k <= n,
            paren_scan(s@, i as int, open as int, closed as int) == paren_scan(
                s@,
                k as int,
                op as int,
                cl as int,
            ),
        decreases n - k,
    {
        if op == cl {
            return Some(k);
        }
        if k >= n {
            return None;
        }
        let c = s.get_char(k);
        if c == '(' {
            op = op + 1;
        } else if c == ')' {
            cl = cl + 1;
        }
        k = k + 1;
    }
}

/// Tries to identify whether this is a JavaScript function.
pub fn is_likely_js_function(function: &str) -> (r: bool)
    ensures
        r == spec_is_likely_js_function(function@),
{
    let n = function.unicode_len();
    let t = skip_ws_x(function, n, 0);
    if t >= n {
        return false;
    }
    let has_async = starts_with_at_x(function, n, t, "async ");
    proof {
        reveal_strlit("async ");
    }
    let off: usize = if has_async {
        5
    } else {
        0
    };
    let after = skip_ws_x(function, n, t + off);
    if starts_with_at_x(function, n, after, "function ") {
        return true;
    }
    match skip_args(function, n, t) {
        Some(j) => {
            let k = skip_ws_x(function, n, j);
            starts_with_at_x(function, n, k, "=>")
        },
        None => false,
    }
}

/// Strips a leading balanced pair of parentheses from position `i`,
/// reporting the position after it.
fn skip_args(s: &str, n: usize, i: usize) -> (r: Option<usize>)
    requires
        n == s@.len(),
        i <= n,
    ensures
        match r {
            Some(j) => spec_skip_args(s@, i as int) == Some(j as int) && j <= n,
            None => spec_skip_args(s@, i as int) is None,
        },
{
    if i >= n || s.get_char(i) != '(' {
        return None;
    }
    paren_scan_x(s, n, i + 1, 1, 0)
}

} // verus!
