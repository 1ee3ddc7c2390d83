use vstd::prelude::*;

use crate::errors::{spec_hints, spec_public_error, ApiResponse, ResponseHints};
use crate::status::ok_view;
use crate::StrictApiResponse;

verus! {

// The wire format of the envelope is a contract of this crate: a success is
// `{"success":<payload>}` with the payload already JSON-encoded by the
// caller, an error is `{"error":"<text>"}` with the text JSON-escaped here.

/// The lower-case hex digit for a value below 16.
pub open spec fn hex_digit(n: int) -> char {
    if n == 0 {
        '0'
    } else if n == 1 {
        '1'
    } else if n == 2 {
        '2'
    } else if n == 3 {
        '3'
    } else if n == 4 {
        '4'
    } else if n == 5 {
        '5'
    } else if n == 6 {
        '6'
    } else if n == 7 {
        '7'
    } else if n == 8 {
        '8'
    } else if n == 9 {
        '9'
    } else if n == 10 {
        'a'
    } else if n == 11 {
        'b'
    } else if n == 12 {
        'c'
    } else if n == 13 {
        'd'
    } else if n == 14 {
        'e'
    } else {
        'f'
    }
}

pub open spec fn is_hex_digit(c: char) -> bool {
    ('0' <= c && c <= '9') || ('a' <= c && c <= 'f')
}

/// The value of a lower-case hex digit.
pub open spec fn hex_val(c: char) -> int {
    if '0' <= c && c <= '9' {
        c as int - '0' as int
    } else {
        c as int - 'a' as int + 10
    }
}

/// How one character is written inside a JSON string: quote and backslash
/// are escaped, control characters take the `\u00XX` form, everything else
/// stands for itself.
pub open spec fn escape_char(c: char) -> Seq<char> {
    if c == '"' {
        seq!['\\', '"']
    } else if c == '\\' {
        seq!['\\', '\\']
    } else if (c as u32) < 32 {
        seq!['\\', 'u', '0', '0', hex_digit(c as int / 16), hex_digit(c as int % 16)]
    } else {
        seq![c]
    }
}

/// The JSON-escaped form of a text.
pub open spec fn escape_chars(s: Seq<char>) -> Seq<char>
    decreases s.len(),
{
    if s.len() == 0 {
        Seq::empty()
    } else {
        escape_char(s[0]) + escape_chars(s.skip(1))
    }
}

/// The inverse of [`escape_chars`]: `None` where the text is not a valid
/// escaped JSON string body (a dangling backslash, an unknown escape, or a
/// raw quote).
pub open spec fn unescape_chars(s: Seq<char>) -> Option<Seq<char>>
    decreases s.len(),
{
    if s.len() == 0 {
        Some(Seq::empty())
    } else if s[0] == '\\' {
        if s.len() >= 2 && (s[1] == '"' || s[1] == '\\') {
            match unescape_chars(s.skip(2)) {
                Some(t) => Some(seq![s[1]] + t),
                None => None,
            }
        } else if s.len() >= 6 && s[1] == 'u' && s[2] == '0' && s[3] == '0' && is_hex_digit(s[4])
            && is_hex_digit(s[5]) {
            match unescape_chars(s.skip(6)) {
                Some(t) => Some(seq![(((hex_val(s[4]) * 16 + hex_val(s[5])) as u8) as char)] + t),
                None => None,
            }
        } else {
            None
        }
    } else if s[0] == '"' {
        None
    } else {
        match unescape_chars(s.skip(1)) {
            Some(t) => Some(seq![s[0]] + t),
            None => None,
        }
    }
}

pub open spec fn success_prefix() -> Seq<char> {
    seq!['{', '"', 's', 'u', 'c', 'c', 'e', 's', 's', '"', ':']
}

pub open spec fn error_prefix() -> Seq<char> {
    seq!['{', '"', 'e', 'r', 'r', 'o', 'r', '"', ':', '"']
}

/// The body of a success envelope around an already-encoded payload.
pub open spec fn spec_success_body(payload: Seq<char>) -> Seq<char> {
    success_prefix() + payload + seq!['}']
}

/// The body of an error envelope around a disclosed text.
pub open spec fn spec_error_body(msg: Seq<char>) -> Seq<char> {
    error_prefix() + escape_chars(msg) + seq!['"', '}']
}

/// Spec-level model of an envelope with a textual payload: the encoded
/// payload of a success, or the disclosed (unescaped) text of an error.
pub enum EnvelopeView {
    Success(Seq<char>),
    Error(Seq<char>),
}

/// The body of either envelope.
pub open spec fn body_view(r: EnvelopeView) -> Seq<char> {
    match r {
        EnvelopeView::Success(p) => spec_success_body(p),
        EnvelopeView::Error(m) => spec_error_body(m),
    }
}

/// The model of a strict response whose payload is already-encoded text.
pub open spec fn strict_view(r: StrictApiResponse<String>) -> EnvelopeView {
    match r {
        StrictApiResponse::Success(p) => EnvelopeView::Success(p@),
        StrictApiResponse::Error(m) => EnvelopeView::Error(m@),
    }
}

/// Relies on `String`'s `FromIterator<char>` implementation: collecting
/// characters yields the string of exactly those characters, in order.
#[verifier::external_body]
fn chars_to_string(v: &Vec<char>) -> (r: String)
    ensures
        r@ == v@,
{
    v.iter().collect()
}

/// The characters of a string, as a vector.
fn str_chars(s: &str) -> (r: Vec<char>)
    ensures
        r@ == s@,
{
    let n = s.unicode_len();
    let mut r: Vec<char> = Vec::new();
    let mut i: usize = 0;
    while i < n
        invariant
            n == s@.len(),
            i <= n,
            r@ == s@.take(i as int),
        decreases n - i,
    {
        let c = s.get_char(i);
        r.push(c);
        proof {
            assert(s@.take(i + 1 as int) =~= s@.take(i as int).push(s@[i as int]));
        }
        i += 1;
    }
    proof {
        assert(s@.take(n as int) =~= s@);
    }
    r
}

fn hex_digit_exec(d: u8) -> (c: char)
    requires
        d < 16,
    ensures
        c == hex_digit(d as int),
{
    if d == 0 {
        '0'
    } else if d == 1 {
        '1'
    } else if d == 2 {
        '2'
    } else if d == 3 {
        '3'
    } else if d == 4 {
        '4'
    } else if d == 5 {
        '5'
    } else if d == 6 {
        '6'
    } else if d == 7 {
        '7'
    } else if d == 8 {
        '8'
    } else if d == 9 {
        '9'
    } else if d == 10 {
        'a'
    } else if d == 11 {
        'b'
    } else if d == 12 {
        'c'
    } else if d == 13 {
        'd'
    } else if d == 14 {
        'e'
    } else {
        'f'
    }
}

fn escape_push(out: &mut Vec<char>, c: char)
    ensures
        final(out)@ == old(out)@ + escape_char(c),
{
    if c == '"' {
        out.push('\\');
        out.push('"');
    } else if c == '\\' {
        out.push('\\');
        out.push('\\');
    } else if (c as u32) < 32 {
        let code = c as u32;
        out.push('\\');
        out.push('u');
        out.push('0');
        out.push('0');
        out.push(hex_digit_exec((code / 16) as u8));
        out.push(hex_digit_exec((code % 16) as u8));
    } else {
        out.push(c);
    }
    proof {
        assert(out@ =~= old(out)@ + escape_char(c));
    }
}

/// Escaping distributes over concatenation.
proof fn lemma_escape_chars_append(a: Seq<char>, b: Seq<char>)
    ensures
        escape_chars(a + b) == escape_chars(a) + escape_chars(b),
    decreases a.len(),
{
    if a.len() == 0 {
        assert(a + b =~= b);
        assert(escape_chars(a) + escape_chars(b) =~= escape_chars(b));
    } else {
        assert((a + b)[0] == a[0]);
        assert((a + b).skip(1) =~= a.skip(1) + b);
        lemma_escape_chars_append(a.skip(1), b);
        assert(escape_char(a[0]) + (escape_chars(a.skip(1)) + escape_chars(b)) =~= (escape_char(
            a[0],
        ) + escape_chars(a.skip(1))) + escape_chars(b));
    }
}

fn escape_all(s: &Vec<char>) -> (r: Vec<char>)
    ensures
        r@ == escape_chars(s@),
{
    let mut out: Vec<char> = Vec::new();
    let mut i: usize = 0;
    while i < s.len()
        invariant
            i <= s@.len(),
            out@ == escape_chars(s@.take(i as int)),
        decreases s@.len() - i,
    {
        escape_push(&mut out, s[i]);
        proof {
            lemma_escape_chars_append(s@.take(i as int), seq![s@[i as int]]);
            assert(s@.take(i + 1 as int) =~= s@.take(i as int) + seq![s@[i as int]]);
            assert(seq![s@[i as int]].skip(1) =~= Seq::<char>::empty());
            assert(seq![s@[i as int]][0] == s@[i as int]);
            assert(escape_chars(seq![s@[i as int]]) == escape_char(s@[i as int]) + escape_chars(
                Seq::<char>::empty(),
            ));
            assert(escape_char(s@[i as int]) + escape_chars(Seq::<char>::empty()) =~= escape_char(
                s@[i as int],
            ));
        }
        i += 1;
    }
    proof {
        assert(s@.take(s@.len() as int) =~= s@);
    }
    out
}

fn push_success_prefix(out: &mut Vec<char>)
    ensures
        final(out)@ == old(out)@ + success_prefix(),
{
    out.push('{');
    out.push('"');
    out.push('s');
    out.push('u');
    out.push('c');
    out.push('c');
    out.push('e');
    out.push('s');
    out.push('s');
    out.push('"');
    out.push(':');
    proof {
        assert(out@ =~= old(out)@ + success_prefix());
    }
}

fn push_error_prefix(out: &mut Vec<char>)
    ensures
        final(out)@ == old(out)@ + error_prefix(),
{
    out.push('{');
    out.push('"');
    out.push('e');
    out.push('r');
    out.push('r');
    out.push('o');
    out.push('r');
    out.push('"');
    out.push(':');
    out.push('"');
    proof {
        assert(out@ =~= old(out)@ + error_prefix());
    }
}

/// The body of a success envelope, around a payload the caller has already
/// JSON-encoded.
pub fn success_body(payload: &str) -> (r: String)
    ensures
        r@ == spec_success_body(payload@),
{
    let mut out: Vec<char> = Vec::new();
    push_success_prefix(&mut out);
    let mut p = str_chars(payload);
    out.append(&mut p);
    out.push('}');
    proof {
        assert(out@ =~= spec_success_body(payload@));
    }
    chars_to_string(&out)
}

/// The body of an error envelope around a disclosed text, escaped here.
pub fn error_body(msg: &str) -> (r: String)
    ensures
        r@ == spec_error_body(msg@),
{
    let mut out: Vec<char> = Vec::new();
    push_error_prefix(&mut out);
    let cs = str_chars(msg);
    let mut e = escape_all(&cs);
    out.append(&mut e);
    out.push('"');
    out.push('}');
    proof {
        assert(out@ =~= spec_error_body(msg@));
    }
    chars_to_string(&out)
}

/// The body of either envelope; a `Success` payload must already be
/// JSON-encoded.
pub fn encode_body(r: &StrictApiResponse<String>) -> (out: String)
    ensures
        out@ == body_view(strict_view(*r)),
{
    match r {
        StrictApiResponse::Success(p) => success_body(p.as_str()),
        StrictApiResponse::Error(m) => error_body(m.as_str()),
    }
}

/// What a body decodes to: the payload text of a success envelope, or the
/// unescaped disclosed text of an error envelope; `None` for anything else.
pub open spec fn spec_decode(s: Seq<char>) -> Option<EnvelopeView> {
    if s.len() >= 12 && s.take(11) == success_prefix() && s[s.len() - 1] == '}' {
        Some(EnvelopeView::Success(s.subrange(11, s.len() - 1)))
    } else if s.len() >= 12 && s.take(10) == error_prefix() && s[s.len() - 2] == '"' && s[s.len()
        - 1] == '}' {
        match unescape_chars(s.subrange(10, s.len() - 2)) {
            Some(m) => Some(EnvelopeView::Error(m)),
            None => None,
        }
    } else {
        None
    }
}

fn is_hex_exec(c: char) -> (b: bool)
    ensures
        b == is_hex_digit(c),
{
    ('0' <= c && c <= '9') || ('a' <= c && c <= 'f')
}

fn hex_val_exec(c: char) -> (v: u8)
    requires
        is_hex_digit(c),
    ensures
        v as int == hex_val(c),
        v < 16,
{
    proof {
        assert(c as int <= 102);
    }
    if c <= '9' {
        (c as u8) - 48
    } else {
        (c as u8) - 97 + 10
    }
}

fn success_prefix_vec() -> (r: Vec<char>)
    ensures
        r@ == success_prefix(),
{
    let mut v: Vec<char> = Vec::new();
    push_success_prefix(&mut v);
    proof {
        assert(v@ =~= success_prefix());
    }
    v
}

fn error_prefix_vec() -> (r: Vec<char>)
    ensures
        r@ == error_prefix(),
{
    let mut v: Vec<char> = Vec::new();
    push_error_prefix(&mut v);
    proof {
        assert(v@ =~= error_prefix());
    }
    v
}

fn has_prefix(cs: &Vec<char>, p: &Vec<char>) -> (b: bool)
    ensures
        b == (cs@.len() >= p@.len() && cs@.take(p@.len() as int) == p@),
{
    if cs.len() < p.len() {
        return false;
    }
    let mut i: usize = 0;
    while i < p.len()
        invariant
            i <= p@.len() <= cs@.len(),
            forall|k: int| 0 <= k < i ==> cs@[k] == p@[k],
        decreases p@.len() - i,
    {
        if cs[i] != p[i] {
            proof {
                assert(cs@.take(p@.len() as int)[i as int] == cs@[i as int]);
            }
            return false;
        }
        i += 1;
    }
    proof {
        assert(cs@.take(p@.len() as int) =~= p@);
    }
    true
}

proof fn lemma_push_assoc(a: Seq<char>, c: char, t: Seq<char>)
    ensures
        a.push(c) + t == a + (seq![c] + t),
{
    assert(a.push(c) + t =~= a + (seq![c] + t));
}

fn unescape_exec(cs: &Vec<char>, from: usize, to: usize) -> (r: Option<Vec<char>>)
    requires
        from <= to && to <= cs@.len(),
    ensures
        (match unescape_chars(cs@.subrange(from as int, to as int)) {
            Some(m) => r matches Some(v) && v@ == m,
            None => r is None,
        }),
{
    let mut out: Vec<char> = Vec::new();
    let mut i: usize = from;
    while i < to
        invariant
            from <= i <= to <= cs@.len(),
            (match unescape_chars(cs@.subrange(i as int, to as int)) {
                Some(t) => unescape_chars(cs@.subrange(from as int, to as int)) == Some(out@ + t),
                None => unescape_chars(cs@.subrange(from as int, to as int)) is None,
            }),
        decreases to - i,
    {
        let ghost pre = cs@.subrange(i as int, to as int);
        let c = cs[i];
        proof {
            assert(pre[0] == cs@[i as int]);
        }
        if c == '\\' {
            if to - i < 2 {
                return None;
            }
            let d = cs[i + 1];
            proof {
                assert(pre[1] == cs@[i as int + 1]);
            }
            if d == '"' || d == '\\' {
                out.push(d);
                proof {
                    assert(pre.skip(2) =~= cs@.subrange(i as int + 2, to as int));
                    if let Some(t) = unescape_chars(cs@.subrange(i as int + 2, to as int)) {
                        lemma_push_assoc(out@.drop_last(), d, t);
                    }
                }
                i += 2;
            } else if d == 'u' {
                if to - i < 6 {
                    return None;
                }
                if !(cs[i + 2] == '0' && cs[i + 3] == '0') {
                    proof {
                        assert(pre[2] == cs@[i as int + 2]);
                        assert(pre[3] == cs@[i as int + 3]);
                    }
                    return None;
                }
                proof {
                    assert(pre[2] == cs@[i as int + 2]);
                    assert(pre[3] == cs@[i as int + 3]);
                    assert(pre[4] == cs@[i as int + 4]);
                    assert(pre[5] == cs@[i as int + 5]);
                }
                if !is_hex_exec(cs[i + 4]) {
                    return None;
                }
                if !is_hex_exec(cs[i + 5]) {
                    return None;
                }
                let v: u8 = hex_val_exec(cs[i + 4]) * 16 + hex_val_exec(cs[i + 5]);
                out.push(v as char);
                proof {
                    assert(pre.skip(6) =~= cs@.subrange(i as int + 6, to as int));
                    if let Some(t) = unescape_chars(cs@.subrange(i as int + 6, to as int)) {
                        lemma_push_assoc(out@.drop_last(), v as char, t);
                    }
                }
                i += 6;
            } else {
                return None;
            }
        } else if c == '"' {
            return None;
        } else {
            out.push(c);
            proof {
                assert(pre.skip(1) =~= cs@.subrange(i as int + 1, to as int));
                if let Some(t) = unescape_chars(cs@.subrange(i as int + 1, to as int)) {
                    lemma_push_assoc(out@.drop_last(), c, t);
                }
            }
            i += 1;
        }
    }
    proof {
        assert(cs@.subrange(i as int, to as int) =~= Seq::<char>::empty());
        assert(out@ + Seq::<char>::empty() =~= out@);
    }
    Some(out)
}

/// Decodes an envelope body: the inverse of [`encode_body`] on everything
/// the encoder produces, `None` on anything malformed.
pub fn decode_body(body: &str) -> (r: Option<StrictApiResponse<String>>)
    ensures
        (match spec_decode(body@) {
            Some(v) => r matches Some(x) && strict_view(x) == v,
            None => r is None,
        }),
{
    let cs = str_chars(body);
    let n = cs.len();
    let sp = success_prefix_vec();
    let ep = error_prefix_vec();
    if n >= 12 && has_prefix(&cs, &sp) && cs[n - 1] == '}' {
        let mut p: Vec<char> = Vec::new();
        let mut i: usize = 11;
        while i < n - 1
            invariant
                11 <= i <= n - 1,
                n == cs@.len(),
                n >= 12,
                p@ == cs@.subrange(11, i as int),
            decreases n - 1 - i,
        {
            p.push(cs[i]);
            proof {
                assert(cs@.subrange(11, i + 1 as int) =~= cs@.subrange(11, i as int).push(
                    cs@[i as int],
                ));
            }
            i += 1;
        }
        let payload = chars_to_string(&p);
        Some(StrictApiResponse::Success(payload))
    } else if n >= 12 && has_prefix(&cs, &ep) && cs[n - 2] == '"' && cs[n - 1] == '}' {
        match unescape_exec(&cs, 10, n - 2) {
            Some(m) => {
                let msg = chars_to_string(&m);
                Some(StrictApiResponse::Error(msg))
            },
            None => None,
        }
    } else {
        None
    }
}

/// Reading back the two hex digits of a `\u00XX` escape restores the
/// escaped control character.
proof fn lemma_control_char_round(c: char)
    requires
        ((c as u32) < 32),
    ensures
        (c as int) < 32,
        is_hex_digit(hex_digit(c as int / 16)),
        is_hex_digit(hex_digit(c as int % 16)),
        (((hex_val(hex_digit(c as int / 16)) * 16 + hex_val(hex_digit(c as int % 16)))
            as u8) as char) == c,
{
    assert(c as int == (c as u32) as int);
    let hi = c as int / 16;
    let lo = c as int % 16;
    assert(0 <= hi < 2 && 0 <= lo < 16);
    assert(hex_val(hex_digit(hi)) == hi);
    assert(hex_val(hex_digit(lo)) == lo);
    assert(hi * 16 + lo == c as int);
    assert((((c as u32) as u8) as char) == c);
}

/// Unescaping inverts escaping exactly, on every text.
proof fn lemma_unescape_escape(s: Seq<char>)
    ensures
        unescape_chars(escape_chars(s)) == Some(s),
    decreases s.len(),
{
    if s.len() == 0 {
    } else {
        let c = s[0];
        let e = escape_chars(s);
        let rest = escape_chars(s.skip(1));
        lemma_unescape_escape(s.skip(1));
        assert(e == escape_char(c) + rest);
        if c == '"' {
            assert(e[0] == '\\' && e[1] == '"');
            assert(e.skip(2) =~= rest);
            assert(seq![c] + s.skip(1) =~= s);
        } else if c == '\\' {
            assert(e[0] == '\\' && e[1] == '\\');
            assert(e.skip(2) =~= rest);
            assert(seq![c] + s.skip(1) =~= s);
        } else if (c as u32) < 32 {
            lemma_control_char_round(c);
            let hi = c as int / 16;
            let lo = c as int % 16;
            assert(e[0] == '\\' && e[1] == 'u' && e[2] == '0' && e[3] == '0');
            assert(e[4] == hex_digit(hi) && e[5] == hex_digit(lo));
            assert(e.skip(6) =~= rest);
            assert((((hex_val(e[4]) * 16 + hex_val(e[5])) as u8) as char) == c);
            assert(seq![c] + s.skip(1) =~= s);
        } else {
            assert(e[0] == c);
            assert(e.skip(1) =~= rest);
            assert(seq![c] + s.skip(1) =~= s);
        }
    }
}

/// The round-trip law: decoding the body of an encoded envelope yields that
/// envelope back — the payload of a success and the disclosed text of an
/// error both come back unchanged.
pub proof fn lemma_envelope_round_trip(r: EnvelopeView)
    ensures
        spec_decode(body_view(r)) == Some(r),
{
    match r {
        EnvelopeView::Success(p) => {
            let s = spec_success_body(p);
            assert(s.len() == 12 + p.len());
            assert(s.take(11) =~= success_prefix());
            assert(s[s.len() - 1] == '}');
            assert(s.subrange(11, s.len() - 1) =~= p);
        },
        EnvelopeView::Error(m) => {
            let s = spec_error_body(m);
            let e = escape_chars(m);
            assert(s.len() == 12 + e.len());
            assert(s[2] == 'e');
            assert(success_prefix()[2] == 's');
            assert(s.take(11)[2] == s[2]);
            assert(s.take(11) != success_prefix());
            assert(s.take(10) =~= error_prefix());
            assert(s[s.len() - 2] == '"' && s[s.len() - 1] == '}');
            assert(s.subrange(10, s.len() - 2) =~= e);
            lemma_unescape_escape(m);
        },
    }
}

/// The renderer core, over an already-encoded success payload: resolves the
/// status by the disclosure rule and builds the envelope body.
pub fn render(resp: ApiResponse<String>) -> (r: (ResponseHints, String))
    ensures
        (match resp {
            ApiResponse::Success(p) => r.0@ == ok_view() && r.1@ == spec_success_body(p@),
            ApiResponse::Error(e) => r.0@ == spec_hints(e@) && r.1@ == spec_error_body(
                spec_public_error(e@),
            ),
        }),
{
    let (strict, hints) = resp.into_strict();
    let body = encode_body(&strict);
    (hints, body)
}

} // verus!
