//! The loopback authorization listener: what is read from the request and what is answered.
use vstd::prelude::*;

use crate::text::{
    digits_value, law_decimal_reads_back, chars_of, decimal, decode_lossy, utf8_lossy, is_whitespace, is_whitespace_char, push_decimal, push_str, string_of_range,
};

verus! {

/// Index of the first `'\n'` in `s`, or `s.len()` when there is none.
pub open spec fn newline_index(s: Seq<char>) -> nat
    decreases s.len(),
{
    if s.len() == 0 {
        0
    } else if s[0] == '\n' {
        0
    } else {
        1 + newline_index(s.drop_first())
    }
}

/// The first line of `s` as `str::lines` yields it: text up to the first `'\n'`, without a
/// `'\r'` just before that `'\n'`; `None` for empty text.
pub open spec fn first_line(s: Seq<char>) -> Option<Seq<char>> {
    if s.len() == 0 {
        None
    } else {
        let k = newline_index(s) as int;
        let line = s.take(k);
        if k < s.len() && k > 0 && line.last() == '\r' {
            Some(line.drop_last())
        } else {
            Some(line)
        }
    }
}

/// Number of leading characters of `s` that are not white space.
pub open spec fn word_len(s: Seq<char>) -> nat
    decreases s.len(),
{
    if s.len() == 0 || is_whitespace(s[0]) {
        0
    } else {
        1 + word_len(s.drop_first())
    }
}

/// A word is no longer than the text it starts, and a text that starts with a non-space has one.
pub proof fn lemma_word_len_bound(s: Seq<char>)
    ensures
        word_len(s) <= s.len(),
        s.len() > 0 && !is_whitespace(s[0]) ==> word_len(s) >= 1,
    decreases s.len(),
{
    if s.len() > 0 && !is_whitespace(s[0]) {
        lemma_word_len_bound(s.drop_first());
    }
}

/// The white-space separated words of `s`, as `str::split_whitespace` yields them.
pub open spec fn words(s: Seq<char>) -> Seq<Seq<char>>
    decreases s.len(),
{
    if s.len() == 0 {
        seq![]
    } else if is_whitespace(s[0]) {
        words(s.drop_first())
    } else {
        let n = word_len(s) as int;
        proof {
            lemma_word_len_bound(s);
        }
        seq![s.take(n)] + words(s.skip(n))
    }
}

/// The request target of an HTTP request text: the second word of its first line.
pub open spec fn request_target_of(s: Seq<char>) -> Option<Seq<char>> {
    match first_line(s) {
        None => None,
        Some(line) => if words(line).len() >= 2 {
            Some(words(line)[1])
        } else {
            None
        },
    }
}

proof fn lemma_newline_index(s: Seq<char>)
    ensures
        newline_index(s) <= s.len(),
        forall|i: int| 0 <= i < newline_index(s) ==> s[i] != '\n',
        newline_index(s) < s.len() ==> s[newline_index(s) as int] == '\n',
    decreases s.len(),
{
    if s.len() > 0 && s[0] != '\n' {
        lemma_newline_index(s.drop_first());
        assert forall|i: int| 0 <= i < newline_index(s) implies s[i] != '\n' by {
            if i > 0 {
                assert(s[i] == s.drop_first()[i - 1]);
            }
        }
    }
}

proof fn lemma_newline_index_unique(s: Seq<char>, k: int)
    requires
        0 <= k <= s.len(),
        forall|i: int| 0 <= i < k ==> s[i] != '\n',
        k < s.len() ==> s[k] == '\n',
    ensures
        newline_index(s) == k,
{
    lemma_newline_index(s);
    if newline_index(s) < k {
        assert(s[newline_index(s) as int] == '\n');
    }
    if newline_index(s) > k {
        assert(s[k] != '\n');
    }
}

proof fn lemma_skip_space(l: Seq<char>, a: int, b: int)
    requires
        0 <= a <= b <= l.len(),
        forall|i: int| a <= i < b ==> is_whitespace(l[i]),
    ensures
        words(l.skip(a)) == words(l.skip(b)),
    decreases b - a,
{
    if a < b {
        assert(l.skip(a)[0] == l[a]);
        assert(l.skip(a).drop_first() =~= l.skip(a + 1));
        lemma_skip_space(l, a + 1, b);
    }
}

proof fn lemma_word_len(l: Seq<char>, a: int, b: int)
    requires
        0 <= a <= b <= l.len(),
        forall|i: int| a <= i < b ==> !is_whitespace(l[i]),
        b == l.len() || is_whitespace(l[b]),
    ensures
        word_len(l.skip(a)) == b - a,
    decreases b - a,
{
    if a < b {
        assert(l.skip(a)[0] == l[a]);
        assert(l.skip(a).drop_first() =~= l.skip(a + 1));
        lemma_word_len(l, a + 1, b);
    } else {
        if b < l.len() {
            assert(l.skip(a)[0] == l[b]);
        }
    }
}

proof fn lemma_word(l: Seq<char>, a: int, b: int)
    requires
        0 <= a < b <= l.len(),
        forall|i: int| a <= i < b ==> !is_whitespace(l[i]),
        b == l.len() || is_whitespace(l[b]),
    ensures
        words(l.skip(a)) == seq![l.subrange(a, b)] + words(l.skip(b)),
{
    lemma_word_len(l, a, b);
    assert(l.skip(a)[0] == l[a]);
    assert(l.skip(a).take(b - a) =~= l.subrange(a, b));
    assert(l.skip(a).skip(b - a) =~= l.skip(b));
}

/// Skips white space in `v[from..end]`.
fn skip_space(v: &Vec<char>, from: usize, end: usize) -> (r: usize)
    requires
        from <= end <= v.len(),
    ensures
        from <= r <= end,
        forall|i: int| from <= i < r ==> is_whitespace(v@[i]),
        r == end || !is_whitespace(v@[r as int]),
{
    let mut i = from;
    while i < end && is_whitespace_char(v[i])
        invariant
            from <= i <= end <= v.len(),
            forall|j: int| from <= j < i ==> is_whitespace(v@[j]),
        decreases end - i,
    {
        i = i + 1;
    }
    i
}

/// Skips a word in `v[from..end]`.
fn skip_word(v: &Vec<char>, from: usize, end: usize) -> (r: usize)
    requires
        from <= end <= v.len(),
    ensures
        from <= r <= end,
        forall|i: int| from <= i < r ==> !is_whitespace(v@[i]),
        r == end || is_whitespace(v@[r as int]),
{
    let mut i = from;
    while i < end && !is_whitespace_char(v[i])
        invariant
            from <= i <= end <= v.len(),
            forall|j: int| from <= j < i ==> !is_whitespace(v@[j]),
        decreases end - i,
    {
        i = i + 1;
    }
    i
}

/// The request target named on the first line of an HTTP request text, such as `/callback?code=x`
/// in `GET /callback?code=x HTTP/1.1`; `None` when that line has fewer than two words.
pub fn request_target(text: &str) -> (target: Option<String>)
    ensures
        target matches Some(t) ==> request_target_of(text@) == Some(t@),
        target is None ==> request_target_of(text@) is None,
{
    let v = chars_of(text);
    let n = v.len();
    if n == 0 {
        return None;
    }
    let mut k: usize = 0;
    while k < n && v[k] != '\n'
        invariant
            k <= n == v.len(),
            forall|i: int| 0 <= i < k ==> v@[i] != '\n',
        decreases n - k,
    {
        k = k + 1;
    }
    proof {
        lemma_newline_index_unique(v@, k as int);
    }
    let end = if k < n && k > 0 && v[k - 1] == '\r' {
        k - 1
    } else {
        k
    };
    let ghost line = v@.subrange(0, end as int);
    assert(first_line(v@) == Some(line)) by {
        if k < n && k > 0 && v@[k - 1] == '\r' {
            assert(v@.take(k as int).drop_last() =~= line);
        } else {
            assert(v@.take(k as int) =~= line);
        }
    }
    let a = skip_space(&v, 0, end);
    let b = skip_word(&v, a, end);
    let c = skip_space(&v, b, end);
    let d = skip_word(&v, c, end);
    proof {
        assert(line.skip(0) =~= line);
        assert forall|i: int| 0 <= i < end implies line[i] == v@[i] by {}
        lemma_skip_space(line, 0, a as int);
        if a < end {
            lemma_word(line, a as int, b as int);
            lemma_skip_space(line, b as int, c as int);
            if c < end {
                lemma_word(line, c as int, d as int);
                assert(line.subrange(c as int, d as int) =~= v@.subrange(c as int, d as int));
            } else {
                assert(line.skip(end as int).len() == 0);
            }
        } else {
            assert(line.skip(end as int).len() == 0);
        }
    }
    if a < end && c < end {
        Some(string_of_range(&v, c, d))
    } else {
        None
    }
}

/// The request target of the bytes read from the loopback connection, decoded as
/// `String::from_utf8_lossy` decodes them.
pub fn loopback_request_target(request: &[u8]) -> (target: Option<String>)
    ensures
        target matches Some(t) ==> request_target_of(utf8_lossy(request@)) == Some(t@),
        target is None ==> request_target_of(utf8_lossy(request@)) is None,
{
    let text = decode_lossy(request);
    request_target(text.as_str())
}

/// Whether `s` is a single word: not empty and free of white space.
pub open spec fn is_word(s: Seq<char>) -> bool {
    s.len() > 0 && forall|i: int| 0 <= i < s.len() ==> !is_whitespace(#[trigger] s[i])
}

/// A request line `<method> <target>...` names `<target>`: for any method and target that are
/// single words, whatever follows the target after white space (or nothing), the reported
/// target is exactly `<target>`.
pub proof fn law_request_line_target(method: Seq<char>, target: Seq<char>, rest: Seq<char>)
    requires
        is_word(method),
        is_word(target),
        rest.len() == 0 || is_whitespace(rest[0]),
    ensures
        request_target_of(method + " "@ + target + rest) == Some(target),
{
    reveal_strlit(" ");
    let s = method + " "@ + target + rest;
    let a = method.len() as int;
    let n0 = a + 1 + target.len();
    assert(s[a] == ' ');
    assert forall|i: int| 0 <= i < a implies s[i] == method[i] by {}
    assert forall|i: int| a < i < n0 implies s[i] == target[i - a - 1] by {}
    assert(forall|i: int| 0 <= i < n0 ==> s[i] != '\n') by {
        assert forall|i: int| 0 <= i < n0 implies s[i] != '\n' by {
            if i < a {
                assert(!is_whitespace(method[i]));
            } else if i > a {
                assert(!is_whitespace(target[i - a - 1]));
            }
        }
    }
    lemma_newline_index(s);
    let k = newline_index(s) as int;
    assert(k >= n0) by {
        if k < n0 {
            assert(s[k] == '\n');
        }
    }
    assert(s.len() > 0);
    let l = first_line(s)->0;
    assert(l.len() >= n0 && forall|i: int| 0 <= i < l.len() ==> l[i] == s[i]) by {
        if k < s.len() && k > 0 && s.take(k).last() == '\r' {
            if k == n0 {
                assert(s.take(k).last() == target.last());
                assert(!is_whitespace(target[target.len() - 1]));
            }
        }
    }
    assert(l.len() == n0 || is_whitespace(l[n0])) by {
        if l.len() > n0 {
            assert(l[n0] == s[n0]);
            assert(s[n0] == rest[0]);
        }
    }
    assert(forall|i: int| 0 <= i < a ==> !is_whitespace(#[trigger] l[i])) by {
        assert forall|i: int| 0 <= i < a implies !is_whitespace(#[trigger] l[i]) by {
            assert(l[i] == method[i]);
        }
    }
    assert(forall|i: int| a + 1 <= i < n0 ==> !is_whitespace(#[trigger] l[i])) by {
        assert forall|i: int| a + 1 <= i < n0 implies !is_whitespace(#[trigger] l[i]) by {
            assert(l[i] == target[i - a - 1]);
        }
    }
    assert(is_whitespace(l[a]));
    assert(l.skip(0) =~= l);
    lemma_word(l, 0, a);
    lemma_skip_space(l, a, a + 1);
    lemma_word(l, a + 1, n0);
    assert(l.subrange(a + 1, n0) =~= target);
    assert(words(l)[1] == target);
}

/// Most bytes of the request that are read.
pub const REQUEST_READ_LIMIT: usize = 2048;

/// The HTTP answer sent to the browser once the request is read.
pub const AUTHORIZATION_RESPONSE: &'static str = "HTTP/1.1 200 OK\r\nContent-Type: text/html\r\nConnection: close\r\n\r\n<html><head><title>Authorization Successful</title><style>body { font-family: -apple-system, BlinkMacSystemFont, 'Segoe UI', Roboto, Helvetica, Arial, sans-serif; background-color: #121212; color: #ffffff; text-align: center; padding-top: 100px; }.container { max-width: 500px; margin: 0 auto; padding: 40px; background: #1e1e1e; border-radius: 8px; box-shadow: 0 4px 12px rgba(0,0,0,0.5); }h1 { color: #4caf50; }p { color: #b0b0b0; font-size: 1.1em; }</style></head><body><div class='container'><h1>Setup Successful!</h1><p>Theater has captured your authorization key.</p><p>You can safely close this browser window now.</p></div></body></html>";

/// The address the listener binds: `127.0.0.1:<port>`.
pub open spec fn loopback_address_of(port: u16) -> Seq<char> {
    "127.0.0.1:"@ + decimal(port as nat)
}

/// The listener address is the loopback host `127.0.0.1`, a colon, and the port unchanged: what
/// follows the ten characters `127.0.0.1:` is made of digits and reads back as `port`.
pub proof fn law_loopback_address_carries_port(port: u16)
    ensures
        loopback_address_of(port).len() > 10,
        loopback_address_of(port).take(10) == "127.0.0.1:"@,
        digits_value(loopback_address_of(port).skip(10)) == port,
        forall|i: int|
            10 <= i < loopback_address_of(port).len() ==> '0' <= #[trigger] loopback_address_of(
                port,
            )[i] <= '9',
{
    reveal_strlit("127.0.0.1:");
    let a = loopback_address_of(port);
    let d = decimal(port as nat);
    law_decimal_reads_back(port as nat);
    assert(a.skip(10) =~= d);
    assert(a.take(10) =~= "127.0.0.1:"@);
    assert forall|i: int| 10 <= i < a.len() implies '0' <= #[trigger] a[i] <= '9' by {
        assert(a[i] == d[i - 10]);
    }
}

/// The address the listener binds for `port`.
pub fn loopback_address(port: u16) -> (addr: String)
    ensures
        addr@ == loopback_address_of(port),
        addr@ == "127.0.0.1:"@ + decimal(port as nat),
        addr@.len() > 10,
        digits_value(addr@.skip(10)) == port,
{
    proof {
        law_loopback_address_carries_port(port);
    }
    let mut addr = String::new();
    push_str(&mut addr, "127.0.0.1:");
    push_decimal(&mut addr, port as u128);
    addr
}

} // verus!
