use vstd::prelude::*;

use crate::domain::VoiceSeparationStem;
use crate::error::AppError;
use crate::domain::VoiceSeparationStems;
use crate::offline::{OfflineJob, OfflineJobStatus, OfflineJobView};
use crate::separation::{stem_file, stems_view, StemsView, VoiceSeparationJob, VoiceSeparationJobView};
use crate::text::{
    ascii_lower_seq, ascii_lowercase, chars_of, concat2, concat3, decimal, decimal_seq, is_whitespace,
    is_whitespace_char, push_char, same_text, string_from_chars, trim_seq, trim_start_seq, trimmed,
};

verus! {

/// The MCP protocol revision served.
pub fn protocol_version() -> (v: &'static str)
    ensures
        v@ == "2025-06-18"@,
{
    "2025-06-18"
}

/// The most header bytes read before a request is refused.
pub const MAX_HEADER_BYTES: usize = 65_536;

/// `buffer[i..i + 4]` is the blank line `\r\n\r\n`.
pub open spec fn blank_line_at(buffer: Seq<u8>, i: int) -> bool {
    &&& 0 <= i
    &&& i + 4 <= buffer.len()
    &&& buffer[i] == 13 && buffer[i + 1] == 10 && buffer[i + 2] == 13 && buffer[i + 3] == 10
}

/// Where the header of an HTTP request ends: the first blank line.
pub fn find_header_end(buffer: &[u8]) -> (r: Option<usize>)
    ensures
        match r {
            Some(i) => blank_line_at(buffer@, i as int) && forall|j: int| 0 <= j < i ==> !blank_line_at(buffer@, j),
            None => forall|j: int| 0 <= j ==> !blank_line_at(buffer@, j),
        },
{
    let n = buffer.len();
    let mut i: usize = 0;
    while n >= 4 && i <= n - 4
        invariant
            n == buffer@.len(),
            n >= 4 ==> i <= n - 3,
            forall|j: int| 0 <= j < i ==> !blank_line_at(buffer@, j),
        decreases n - i,
    {
        if buffer[i] == 13 && buffer[i + 1] == 10 && buffer[i + 2] == 13 && buffer[i + 3] == 10 {
            return Some(i);
        }
        i += 1;
    }
    None
}

/// After a read of `read` bytes into `buffer`: where the header ends, or keep
/// reading; an empty read or a header past `MAX_HEADER_BYTES` is an error.
pub fn header_progress(read: usize, buffer: &[u8]) -> (r: Result<Option<usize>, AppError>)
    ensures
        match r {
            Ok(Some(i)) => read > 0 && blank_line_at(buffer@, i as int) && forall|j: int|
                0 <= j < i ==> !blank_line_at(buffer@, j),
            Ok(None) => read > 0 && (forall|j: int| 0 <= j ==> !blank_line_at(buffer@, j)) && buffer@.len()
                <= MAX_HEADER_BYTES,
            Err(e) => (read == 0 && (e matches AppError::OfflineJob { message } && message@
                == "empty MCP HTTP request"@)) || (read > 0 && (forall|j: int| 0 <= j ==> !blank_line_at(buffer@, j))
                && buffer@.len() > MAX_HEADER_BYTES && (e matches AppError::OfflineJob { message } && message@
                == "MCP HTTP headers are too large"@)),
        },
{
    if read == 0 {
        return Err(AppError::offline_job(String::from_str("empty MCP HTTP request")));
    }
    match find_header_end(buffer) {
        Some(i) => Ok(Some(i)),
        None => if buffer.len() > MAX_HEADER_BYTES {
            Err(AppError::offline_job(String::from_str("MCP HTTP headers are too large")))
        } else {
            Ok(None)
        },
    }
}

/// What `String::from_utf8_lossy` gives for some bytes.
pub uninterp spec fn utf8_lossy(bytes: Seq<u8>) -> Seq<char>;

/// `String::from_utf8_lossy(bytes)`; the contract only names the result (it
/// is a function of the bytes alone).
#[verifier::external_body]
fn lossy_text(bytes: &[u8]) -> (s: String)
    ensures
        s@ == utf8_lossy(bytes@),
{
    String::from_utf8_lossy(bytes).into_owned()
}

/// A line without the `\r` of a `\r\n` ending.
pub open spec fn strip_cr(l: Seq<char>) -> Seq<char> {
    if l.len() > 0 && l.last() == '\r' {
        l.drop_last()
    } else {
        l
    }
}

/// `str::lines`, continued from a partial line `cur` after the lines `acc`:
/// lines end at `\n` (a `\r` before it dropped); a last line without `\n`
/// is kept as it is, and an empty one is not a line.
pub open spec fn lines_from(s: Seq<char>, cur: Seq<char>, acc: Seq<Seq<char>>) -> Seq<Seq<char>>
    decreases s.len(),
{
    if s.len() == 0 {
        if cur.len() > 0 {
            acc.push(cur)
        } else {
            acc
        }
    } else if s[0] == '\n' {
        lines_from(s.drop_first(), Seq::empty(), acc.push(strip_cr(cur)))
    } else {
        lines_from(s.drop_first(), cur.push(s[0]), acc)
    }
}

pub open spec fn text_lines(s: Seq<char>) -> Seq<Seq<char>> {
    lines_from(s, Seq::empty(), Seq::empty())
}

fn lines_of(s: &str) -> (r: Vec<String>)
    ensures
        r@.map_values(|x: String| x@) == text_lines(s@),
{
    let v = chars_of(s);
    let mut acc: Vec<String> = Vec::new();
    let mut cur = String::new();
    let mut i: usize = 0;
    assert(s@.skip(0) =~= s@);
    assert(acc@.map_values(|x: String| x@) =~= Seq::<Seq<char>>::empty());
    assert(cur@ =~= Seq::<char>::empty());
    while i < v.len()
        invariant
            i <= v.len(),
            v@ == s@,
            lines_from(s@.skip(i as int), cur@, acc@.map_values(|x: String| x@)) == text_lines(s@),
        decreases v.len() - i,
    {
        let ghost rest = s@.skip(i as int);
        assert(rest.drop_first() =~= s@.skip(i as int + 1));
        let c = v[i];
        if c == '\n' {
            let mut line = cur;
            let n = line.unicode_len();
            if n > 0 && line.get_char(n - 1) == '\r' {
                let lv = chars_of(line.as_str());
                line = string_from_chars(&lv, 0, n - 1);
                assert(line@ =~= strip_cr(cur@));
            }
            let ghost before = acc@;
            acc.push(line);
            assert(acc@.map_values(|x: String| x@) =~= before.map_values(|x: String| x@).push(strip_cr(cur@)));
            cur = String::new();
        } else {
            push_char(&mut cur, c);
        }
        i += 1;
    }
    if cur.unicode_len() > 0 {
        let ghost before = acc@;
        let ghost last = cur@;
        acc.push(cur);
        assert(acc@.map_values(|x: String| x@) =~= before.map_values(|x: String| x@).push(last));
    }
    acc
}

/// The length of the run of non-whitespace at the start of `s`.
pub open spec fn word_len(s: Seq<char>) -> nat
    decreases s.len(),
{
    if s.len() == 0 || is_whitespace_char(s[0]) {
        0
    } else {
        1 + word_len(s.drop_first())
    }
}

/// The first word of `s` (as `split_whitespace` finds it) and what follows it.
pub open spec fn first_word(s: Seq<char>) -> Option<(Seq<char>, Seq<char>)> {
    let t = trim_start_seq(s);
    if t.len() == 0 {
        None
    } else {
        Some((t.take(word_len(t) as int), t.skip(word_len(t) as int)))
    }
}

proof fn lemma_word_len_bound(s: Seq<char>)
    ensures
        word_len(s) <= s.len(),
        forall|k: int| 0 <= k < word_len(s) ==> !is_whitespace_char(#[trigger] s[k]),
        word_len(s) < s.len() ==> is_whitespace_char(s[word_len(s) as int]),
    decreases s.len(),
{
    if s.len() > 0 && !is_whitespace_char(s[0]) {
        lemma_word_len_bound(s.drop_first());
        assert forall|k: int| 0 <= k < word_len(s) implies !is_whitespace_char(#[trigger] s[k]) by {
            if k > 0 {
                assert(s[k] == s.drop_first()[k - 1]);
            }
        }
        if word_len(s) < s.len() {
            assert(s[word_len(s) as int] == s.drop_first()[word_len(s.drop_first()) as int]);
        }
    }
}

proof fn lemma_trim_start_suffix(s: Seq<char>)
    ensures
        trim_start_seq(s).len() <= s.len(),
        trim_start_seq(s) == s.skip(s.len() - trim_start_seq(s).len()),
        forall|k: int| 0 <= k < s.len() - trim_start_seq(s).len() ==> is_whitespace_char(#[trigger] s[k]),
        trim_start_seq(s).len() > 0 ==> !is_whitespace_char(trim_start_seq(s)[0]),
    decreases s.len(),
{
    if s.len() > 0 && is_whitespace_char(s[0]) {
        lemma_trim_start_suffix(s.drop_first());
        assert(s.drop_first().skip(s.drop_first().len() - trim_start_seq(s.drop_first()).len()) =~= s.skip(
            s.len() - trim_start_seq(s).len(),
        ));
        assert forall|k: int| 0 <= k < s.len() - trim_start_seq(s).len() implies is_whitespace_char(#[trigger] s[k]) by {
            if k > 0 {
                assert(s[k] == s.drop_first()[k - 1]);
            }
        }
    } else {
        assert(s.skip(0) =~= s);
    }
}

fn split_first_word(v: &Vec<char>, from: usize) -> (r: Option<(usize, usize)>)
    requires
        from <= v@.len(),
    ensures
        match r {
            Some((a, b)) => from <= a < b <= v@.len() && first_word(v@.skip(from as int)) == Some(
                (v@.subrange(a as int, b as int), v@.skip(b as int)),
            ),
            None => first_word(v@.skip(from as int)) is None,
        },
{
    let ghost s = v@.skip(from as int);
    proof {
        lemma_trim_start_suffix(s);
    }
    let mut a = from;
    while a < v.len() && is_whitespace(v[a])
        invariant
            from <= a <= v@.len(),
            s == v@.skip(from as int),
            forall|k: int| from <= k < a ==> is_whitespace_char(#[trigger] v@[k]),
        decreases v.len() - a,
    {
        a += 1;
    }
    let ghost t = trim_start_seq(s);
    proof {
        let w = s.len() - t.len();
        if a - from < w {
            assert(s[a - from] == v@[a as int]);
            assert(is_whitespace_char(s[a - from]));
        }
        if a - from > w {
            assert(s[w] == v@[from + w]);
            assert(t[0] == s[w]);
        }
        assert(a - from == w);
        assert(t =~= v@.skip(a as int));
    }
    if a == v.len() {
        return None;
    }
    let mut b = a;
    while b < v.len() && !is_whitespace(v[b])
        invariant
            a <= b <= v@.len(),
            forall|k: int| a <= k < b ==> !is_whitespace_char(#[trigger] v@[k]),
        decreases v.len() - b,
    {
        b += 1;
    }
    proof {
        lemma_word_len_bound(t);
        let w = word_len(t);
        if b - a < w {
            assert(t[b - a] == v@[b as int]);
        }
        if b - a > w {
            assert(t[w as int] == v@[a + w]);
        }
        assert(b - a == w);
        assert(t.take(w as int) =~= v@.subrange(a as int, b as int));
        assert(t.skip(w as int) =~= v@.skip(b as int));
    }
    Some((a, b))
}

/// The value of a run of decimal digits.
pub open spec fn digits_value(s: Seq<char>) -> int
    decreases s.len(),
{
    if s.len() == 0 {
        0
    } else {
        digits_value(s.drop_last()) * 10 + (s.last() as int - 48)
    }
}

pub open spec fn all_digits(s: Seq<char>) -> bool {
    forall|i: int| 0 <= i < s.len() ==> '0' <= #[trigger] s[i] <= '9'
}

/// `usize::from_str`: an optional `+`, then at least one digit, and a value
/// that fits.
pub open spec fn parse_usize_spec(s: Seq<char>) -> Option<usize> {
    let d = if s.len() > 0 && s[0] == '+' {
        s.drop_first()
    } else {
        s
    };
    if d.len() > 0 && all_digits(d) && digits_value(d) <= usize::MAX {
        Some(digits_value(d) as usize)
    } else {
        None
    }
}

proof fn lemma_digits_value_nonneg(s: Seq<char>)
    requires
        all_digits(s),
    ensures
        digits_value(s) >= 0,
        s.len() > 0 ==> digits_value(s) >= digits_value(s.drop_last()),
    decreases s.len(),
{
    if s.len() > 0 {
        assert(all_digits(s.drop_last()));
        lemma_digits_value_nonneg(s.drop_last());
    }
}

/// See `parse_usize_spec`.
pub fn parse_usize(s: &str) -> (r: Option<usize>)
    ensures
        r == parse_usize_spec(s@),
{
    let v = chars_of(s);
    let start: usize = if v.len() > 0 && v[0] == '+' {
        1
    } else {
        0
    };
    let ghost d = if s@.len() > 0 && s@[0] == '+' {
        s@.drop_first()
    } else {
        s@
    };
    assert(d =~= s@.skip(start as int));
    if start == v.len() {
        return None;
    }
    let mut value: usize = 0;
    let mut i = start;
    assert(s@.subrange(start as int, start as int) =~= Seq::<char>::empty());
    while i < v.len()
        invariant
            start <= i <= v@.len(),
            v@ == s@,
            d == s@.skip(start as int),
            d == (if s@.len() > 0 && s@[0] == '+' {
                s@.drop_first()
            } else {
                s@
            }),
            all_digits(s@.subrange(start as int, i as int)),
            value == digits_value(s@.subrange(start as int, i as int)),
        decreases v.len() - i,
    {
        let c = v[i];
        let ghost pre = s@.subrange(start as int, i as int);
        let ghost next = s@.subrange(start as int, i as int + 1);
        assert(next.drop_last() =~= pre);
        if !('0' <= c && c <= '9') {
            proof {
                assert(d[i - start] == c);
                assert(!all_digits(d));
            }
            return None;
        }
        assert(all_digits(next));
        let digit = (c as u32 - 48) as usize;
        let scaled = match value.checked_mul(10) {
            Some(x) => x,
            None => {
                proof {
                    if all_digits(d) {
                        assert(next.last() == c);
                        assert(digits_value(next) == value * 10 + (c as int - 48));
                        lemma_digits_value_nonneg(next);
                        lemma_prefix_bound(d, (i + 1 - start) as int);
                        assert(d.take((i + 1 - start) as int) =~= next);
                    }
                }
                return None;
            },
        };
        value = match scaled.checked_add(digit) {
            Some(x) => x,
            None => {
                proof {
                    if all_digits(d) {
                        lemma_prefix_bound(d, (i + 1 - start) as int);
                        assert(d.take((i + 1 - start) as int) =~= next);
                    }
                }
                return None;
            },
        };
        i += 1;
    }
    assert(s@.subrange(start as int, v.len() as int) =~= d);
    Some(value)
}

proof fn lemma_prefix_bound(d: Seq<char>, k: int)
    requires
        all_digits(d),
        0 <= k <= d.len(),
    ensures
        digits_value(d.take(k)) <= digits_value(d),
    decreases d.len() - k,
{
    if k < d.len() {
        lemma_prefix_bound(d, k + 1);
        assert(d.take(k + 1).drop_last() =~= d.take(k));
        assert(all_digits(d.take(k + 1)));
        lemma_digits_value_nonneg(d.take(k + 1));
    } else {
        assert(d.take(k) =~= d);
    }
}

/// Where the first `c` is in `s`, if anywhere.
pub open spec fn char_index(s: Seq<char>, c: char) -> Option<int> {
    if exists|i: int| 0 <= i < s.len() && s[i] == c {
        Some(choose|i: int| 0 <= i < s.len() && s[i] == c && forall|j: int| 0 <= j < i ==> s[j] != c)
    } else {
        None
    }
}

fn find_char(v: &Vec<char>, c: char) -> (r: Option<usize>)
    ensures
        match r {
            Some(i) => i < v@.len() && v@[i as int] == c && forall|j: int| 0 <= j < i ==> v@[j] != c,
            None => forall|j: int| 0 <= j < v@.len() ==> v@[j] != c,
        },
        r matches Some(i) ==> char_index(v@, c) == Some(i as int),
        r is None ==> char_index(v@, c) is None,
{
    let mut i: usize = 0;
    while i < v.len()
        invariant
            i <= v@.len(),
            forall|j: int| 0 <= j < i ==> v@[j] != c,
        decreases v.len() - i,
    {
        if v[i] == c {
            proof {
                let k = choose|k: int| 0 <= k < v@.len() && v@[k] == c && forall|j: int| 0 <= j < k ==> v@[j] != c;
                assert(v@[i as int] == c);
                if k < i {
                } else if k > i {
                    assert(v@[i as int] != c);
                }
            }
            return Some(i);
        }
        i += 1;
    }
    None
}

/// A header line split at its first colon into name and value.
pub open spec fn header_field(l: Seq<char>) -> Option<(Seq<char>, Seq<char>)> {
    match char_index(l, ':') {
        Some(i) => Some((l.take(i), l.skip(i + 1))),
        None => None,
    }
}

/// The content length the header lines give: the value of the first field
/// named `content-length` in any case, if it parses, else 0.
pub open spec fn content_length_from(lines: Seq<Seq<char>>) -> usize
    decreases lines.len(),
{
    if lines.len() == 0 {
        0
    } else {
        match header_field(lines[0]) {
            Some((n, v)) => if ascii_lower_seq(n) == "content-length"@ {
                match parse_usize_spec(trim_seq(v)) {
                    Some(x) => x,
                    None => 0,
                }
            } else {
                content_length_from(lines.drop_first())
            },
            None => content_length_from(lines.drop_first()),
        }
    }
}

/// The method, path and content length of a request head, or what is missing.
pub open spec fn request_head_spec(text: Seq<char>) -> Result<(Seq<char>, Seq<char>, usize), Seq<char>> {
    let ls = text_lines(text);
    if ls.len() == 0 {
        Err("MCP HTTP request line is missing"@)
    } else {
        match first_word(ls[0]) {
            None => Err("MCP HTTP method is missing"@),
            Some((m, rest)) => match first_word(rest) {
                None => Err("MCP HTTP path is missing"@),
                Some((p, _)) => Ok((m, p, content_length_from(ls.drop_first()))),
            },
        }
    }
}

/// The request line and length of an HTTP request.
#[derive(Debug, Clone, PartialEq, Eq)]
pub struct HttpRequestHead {
    pub method: String,
    pub path: String,
    pub content_length: usize,
}

fn content_length_of(lines: &Vec<String>, from: usize) -> (n: usize)
    requires
        from <= lines@.len(),
    ensures
        n == content_length_from(lines@.map_values(|x: String| x@).skip(from as int)),
    decreases lines.len() - from,
{
    if from == lines.len() {
        assert(lines@.map_values(|x: String| x@).skip(from as int) =~= Seq::<Seq<char>>::empty());
        return 0;
    }
    let ghost ls = lines@.map_values(|x: String| x@).skip(from as int);
    assert(ls[0] == lines@[from as int]@);
    assert(ls.drop_first() =~= lines@.map_values(|x: String| x@).skip(from as int + 1));
    let v = chars_of(lines[from].as_str());
    match find_char(&v, ':') {
        Some(i) => {
            let name = string_from_chars(&v, 0, i);
            let value = string_from_chars(&v, i + 1, v.len());
            assert(name@ =~= ls[0].take(i as int));
            assert(value@ =~= ls[0].skip(i as int + 1));
            if same_text(ascii_lowercase(name.as_str()).as_str(), "content-length") {
                match parse_usize(trimmed(value.as_str()).as_str()) {
                    Some(x) => x,
                    None => 0,
                }
            } else {
                content_length_of(lines, from + 1)
            }
        },
        None => content_length_of(lines, from + 1),
    }
}

/// Reads the method, path and content length from the bytes of a request
/// head (taken as text with invalid UTF-8 replaced).
pub fn parse_request_head(head: &[u8]) -> (r: Result<HttpRequestHead, AppError>)
    ensures
        match r {
            Ok(h) => request_head_spec(utf8_lossy(head@)) == Ok::<(Seq<char>, Seq<char>, usize), Seq<char>>(
                (h.method@, h.path@, h.content_length),
            ),
            Err(e) => request_head_spec(utf8_lossy(head@)) matches Err(m) && (e matches AppError::OfflineJob {
                message,
            } && message@ == m),
        },
{
    let text = lossy_text(head);
    parse_request_text(text.as_str())
}

/// Reads the method, path and content length from the text of a request head.
pub fn parse_request_text(text: &str) -> (r: Result<HttpRequestHead, AppError>)
    ensures
        match r {
            Ok(h) => request_head_spec(text@) == Ok::<(Seq<char>, Seq<char>, usize), Seq<char>>(
                (h.method@, h.path@, h.content_length),
            ),
            Err(e) => request_head_spec(text@) matches Err(m) && (e matches AppError::OfflineJob {
                message,
            } && message@ == m),
        },
{
    let lines = lines_of(text);
    let ghost ls = lines@.map_values(|x: String| x@);
    if lines.len() == 0 {
        return Err(AppError::offline_job(String::from_str("MCP HTTP request line is missing")));
    }
    assert(ls[0] == lines@[0]@);
    let v = chars_of(lines[0].as_str());
    assert(v@.skip(0) =~= v@);
    let (a, b) = match split_first_word(&v, 0) {
        Some(x) => x,
        None => return Err(AppError::offline_job(String::from_str("MCP HTTP method is missing"))),
    };
    let (c, d) = match split_first_word(&v, b) {
        Some(x) => x,
        None => return Err(AppError::offline_job(String::from_str("MCP HTTP path is missing"))),
    };
    let method = string_from_chars(&v, a, b);
    let path = string_from_chars(&v, c, d);
    let content_length = content_length_of(&lines, 1);
    assert(ls.skip(1) =~= ls.drop_first());
    Ok(HttpRequestHead { method, path, content_length })
}

/// The body bytes already read with the head: what follows the blank line.
pub fn body_after_head(buffer: &[u8], header_end: usize) -> (body: Vec<u8>)
    ensures
        body@ == if header_end + 4 <= buffer@.len() {
            buffer@.skip(header_end + 4)
        } else {
            Seq::empty()
        },
{
    let mut body: Vec<u8> = Vec::new();
    if header_end <= buffer.len() && buffer.len() - header_end >= 4 {
        let mut i = header_end + 4;
        while i < buffer.len()
            invariant
                header_end + 4 <= i <= buffer@.len(),
                body@ == buffer@.subrange(header_end + 4, i as int),
            decreases buffer.len() - i,
        {
            body.push(buffer[i]);
            assert(body@ =~= buffer@.subrange(header_end + 4, i as int + 1));
            i += 1;
        }
        assert(buffer@.subrange(header_end + 4, buffer@.len() as int) =~= buffer@.skip(header_end + 4));
    }
    body
}

/// The body cut to the announced length.
pub fn finish_body(body: Vec<u8>, content_length: usize) -> (r: Vec<u8>)
    ensures
        r@ == if body@.len() > content_length {
            body@.take(content_length as int)
        } else {
            body@
        },
{
    let mut body = body;
    body.truncate(content_length);
    body
}

/// How an HTTP request is answered.
#[derive(Debug, Clone, Copy, PartialEq, Eq, Structural)]
pub enum HttpRoute {
    NotFound,
    /// `GET`: a description of the endpoint.
    Describe,
    /// `POST`: a JSON-RPC call.
    JsonRpc,
    /// `OPTIONS`: an empty answer for CORS.
    Preflight,
    MethodNotAllowed,
}

/// The path without its query.
pub open spec fn path_without_query(path: Seq<char>) -> Seq<char> {
    match char_index(path, '?') {
        Some(i) => path.take(i),
        None => path,
    }
}

/// Routes a request: other paths are not found; `GET`, `POST` and `OPTIONS`
/// are served, other methods are not allowed.
pub fn route_request(method: &str, path: &str, expected_path: &str) -> (r: HttpRoute)
    ensures
        r == (if path_without_query(path@) != expected_path@ {
            HttpRoute::NotFound
        } else if method@ == "GET"@ {
            HttpRoute::Describe
        } else if method@ == "POST"@ {
            HttpRoute::JsonRpc
        } else if method@ == "OPTIONS"@ {
            HttpRoute::Preflight
        } else {
            HttpRoute::MethodNotAllowed
        }),
{
    let v = chars_of(path);
    let bare = match find_char(&v, '?') {
        Some(i) => string_from_chars(&v, 0, i),
        None => String::from_str(path),
    };
    assert(bare@ =~= path_without_query(path@));
    if !same_text(bare.as_str(), expected_path) {
        HttpRoute::NotFound
    } else if same_text(method, "GET") {
        HttpRoute::Describe
    } else if same_text(method, "POST") {
        HttpRoute::JsonRpc
    } else if same_text(method, "OPTIONS") {
        HttpRoute::Preflight
    } else {
        HttpRoute::MethodNotAllowed
    }
}

/// The reason phrase of the statuses used (others read `OK`).
pub open spec fn reason_phrase(status: u16) -> Seq<char> {
    if status == 200 {
        "OK"@
    } else if status == 202 {
        "Accepted"@
    } else if status == 204 {
        "No Content"@
    } else if status == 400 {
        "Bad Request"@
    } else if status == 404 {
        "Not Found"@
    } else if status == 405 {
        "Method Not Allowed"@
    } else {
        "OK"@
    }
}

fn reason_text(status: u16) -> (r: &'static str)
    ensures
        r@ == reason_phrase(status),
{
    if status == 200 {
        "OK"
    } else if status == 202 {
        "Accepted"
    } else if status == 204 {
        "No Content"
    } else if status == 400 {
        "Bad Request"
    } else if status == 404 {
        "Not Found"
    } else if status == 405 {
        "Method Not Allowed"
    } else {
        "OK"
    }
}

/// The fixed headers after the content length.
pub open spec fn cors_headers() -> Seq<char> {
    "\r\nAccess-Control-Allow-Origin: http://localhost\r\nAccess-Control-Allow-Headers: content-type, mcp-session-id\r\nAccess-Control-Allow-Methods: GET, POST, OPTIONS\r\nConnection: close\r\n\r\n"@
}

/// A complete HTTP response: status line, content type and byte length of
/// the body, the CORS headers for `http://localhost`, and the body.
pub open spec fn http_response_spec(status: u16, content_type: Seq<char>, body: Seq<char>) -> Seq<char> {
    "HTTP/1.1 "@ + decimal_seq(status as nat) + " "@ + reason_phrase(status) + "\r\nContent-Type: "@ + content_type
        + "\r\nContent-Length: "@ + decimal_seq((vstd::utf8::encode_utf8(body).len() as usize) as nat) + cors_headers() + body
}

/// See `http_response_spec`.
pub fn http_response(status: u16, content_type: &str, body: String) -> (r: String)
    ensures
        r@ == http_response_spec(status, content_type@, body@),
{
    let len = body.as_str().len();
    let a = concat3("HTTP/1.1 ", decimal(status as u64).as_str(), " ");
    let a = concat3(a.as_str(), reason_text(status), "\r\nContent-Type: ");
    let a = concat3(a.as_str(), content_type, "\r\nContent-Length: ");
    let a = concat2(a.as_str(), decimal(len as u64).as_str());
    let a = concat2(
        a.as_str(),
        "\r\nAccess-Control-Allow-Origin: http://localhost\r\nAccess-Control-Allow-Headers: content-type, mcp-session-id\r\nAccess-Control-Allow-Methods: GET, POST, OPTIONS\r\nConnection: close\r\n\r\n",
    );
    concat2(a.as_str(), body.as_str())
}

/// The JSON-RPC methods served.
#[derive(Debug, Clone, Copy, PartialEq, Eq, Structural)]
pub enum McpMethod {
    Initialize,
    Ping,
    ToolsList,
    ToolsCall,
    ResourcesList,
    ResourcesRead,
    PromptsList,
    PromptsGet,
}

/// The method a JSON-RPC request names; others are unsupported.
pub fn parse_mcp_method(method: &str) -> (r: Result<McpMethod, AppError>)
    ensures
        match r {
            Ok(m) => m == (if method@ == "initialize"@ {
                McpMethod::Initialize
            } else if method@ == "ping"@ {
                McpMethod::Ping
            } else if method@ == "tools/list"@ {
                McpMethod::ToolsList
            } else if method@ == "tools/call"@ {
                McpMethod::ToolsCall
            } else if method@ == "resources/list"@ {
                McpMethod::ResourcesList
            } else if method@ == "resources/read"@ {
                McpMethod::ResourcesRead
            } else if method@ == "prompts/list"@ {
                McpMethod::PromptsList
            } else {
                McpMethod::PromptsGet
            }) && (method@ == "initialize"@ || method@ == "ping"@ || method@ == "tools/list"@ || method@
                == "tools/call"@ || method@ == "resources/list"@ || method@ == "resources/read"@ || method@
                == "prompts/list"@ || method@ == "prompts/get"@),
            Err(e) => !(method@ == "initialize"@ || method@ == "ping"@ || method@ == "tools/list"@ || method@
                == "tools/call"@ || method@ == "resources/list"@ || method@ == "resources/read"@ || method@
                == "prompts/list"@ || method@ == "prompts/get"@) && (e matches AppError::Unsupported { message }
                && message@ == "unsupported MCP method: "@ + method@),
        },
{
    if same_text(method, "initialize") {
        Ok(McpMethod::Initialize)
    } else if same_text(method, "ping") {
        Ok(McpMethod::Ping)
    } else if same_text(method, "tools/list") {
        Ok(McpMethod::ToolsList)
    } else if same_text(method, "tools/call") {
        Ok(McpMethod::ToolsCall)
    } else if same_text(method, "resources/list") {
        Ok(McpMethod::ResourcesList)
    } else if same_text(method, "resources/read") {
        Ok(McpMethod::ResourcesRead)
    } else if same_text(method, "prompts/list") {
        Ok(McpMethod::PromptsList)
    } else if same_text(method, "prompts/get") {
        Ok(McpMethod::PromptsGet)
    } else {
        Err(AppError::unsupported(concat2("unsupported MCP method: ", method)))
    }
}

/// The tools offered.
#[derive(Debug, Clone, Copy, PartialEq, Eq, Structural)]
pub enum McpTool {
    OfflineVoiceChange,
    SeparateVoice,
}

/// The tool a call names; others are unknown.
pub fn parse_mcp_tool(name: &str) -> (r: Result<McpTool, AppError>)
    ensures
        match r {
            Ok(t) => (name@ == "offline_voice_change"@ && t == McpTool::OfflineVoiceChange) || (name@
                == "separate_voice"@ && t == McpTool::SeparateVoice),
            Err(e) => name@ != "offline_voice_change"@ && name@ != "separate_voice"@ && (e matches AppError::Unsupported {
                message,
            } && message@ == "unknown MCP tool: "@ + name@),
        },
{
    if same_text(name, "offline_voice_change") {
        Ok(McpTool::OfflineVoiceChange)
    } else if same_text(name, "separate_voice") {
        Ok(McpTool::SeparateVoice)
    } else {
        Err(AppError::unsupported(concat2("unknown MCP tool: ", name)))
    }
}

/// The input of an offline voice change: a text or an audio file.
#[derive(Debug, Clone, PartialEq, Eq)]
pub enum OfflineVoiceInput {
    Text(String),
    AudioPath(String),
}

/// Exactly one of `text` and `input_path` must be given.
pub fn offline_voice_input(text: Option<String>, input_path: Option<String>) -> (r: Result<OfflineVoiceInput, AppError>)
    ensures
        match r {
            Ok(OfflineVoiceInput::Text(t)) => Some(t) == text && input_path is None,
            Ok(OfflineVoiceInput::AudioPath(p)) => Some(p) == input_path && text is None,
            Err(e) => (text is Some) == (input_path is Some) && (e matches AppError::OfflineJob { message } && message@
                == "offline_voice_change requires exactly one of text or inputPath"@),
        },
{
    match (text, input_path) {
        (Some(t), None) => Ok(OfflineVoiceInput::Text(t)),
        (None, Some(p)) => Ok(OfflineVoiceInput::AudioPath(p)),
        _ => Err(
            AppError::offline_job(String::from_str("offline_voice_change requires exactly one of text or inputPath")),
        ),
    }
}

/// The output format a tool call asks for when it names none.
pub fn default_wav() -> (f: String)
    ensures
        f@ == "wav"@,
{
    String::from_str("wav")
}

/// The prompts offered and their texts.
pub fn prompt_text(name: &str) -> (r: Result<&'static str, AppError>)
    ensures
        match r {
            Ok(_) => name@ == "explain_offline_voice_change"@ || name@ == "explain_voice_separation"@,
            Err(e) => name@ != "explain_offline_voice_change"@ && name@ != "explain_voice_separation"@ && (e matches AppError::Unsupported {
                message,
            } && message@ == "unknown MCP prompt: "@ + name@),
        },
{
    if same_text(name, "explain_offline_voice_change") {
        Ok(
            "离线变声工具 offline_voice_change 用于把文本或本地音频转换为指定音色的 WAV。参数：text 与 inputPath 二选一；voiceName 是目标音色；runtimeParams.values 传递语速、情绪等后端参数；outputFormat 当前固定为 wav。工具返回 jobId、状态、localArtifactPath 和 voice-cloner://offline-jobs/{jobId}/artifact 资源 URI。读取该 resource 只会返回应用缓存中的受控本地音频路径。",
        )
    } else if same_text(name, "explain_voice_separation") {
        Ok(
            "人声分离工具 separate_voice 用于从本地音频或视频中分离 vocals、noVocals、drums、bass、other。参数：sourcePath 是源文件路径；model 可选 htDemucs 或 htDemucsFt；postProcessConfig 控制降噪、采样率、声道和响度归一化。工具返回 jobId、状态和每个 stem 的 voice-cloner://voice-separation/{jobId}/stems/{stem} 资源 URI。读取 resource 只会返回该任务产出的受控本地音频路径。",
        )
    } else {
        Err(AppError::unsupported(concat2("unknown MCP prompt: ", name)))
    }
}

/// A separated track by its name in resource URIs.
pub fn parse_stem(value: &str) -> (r: Result<VoiceSeparationStem, AppError>)
    ensures
        match r {
            Ok(s) => value@ == stem_key(s),
            Err(e) => (forall|s: VoiceSeparationStem| value@ != #[trigger] stem_key(s)) && (e matches AppError::OfflineJob {
                message,
            } && message@ == "unsupported voice separation stem"@),
        },
{
    if same_text(value, "vocals") {
        Ok(VoiceSeparationStem::Vocals)
    } else if same_text(value, "noVocals") {
        Ok(VoiceSeparationStem::NoVocals)
    } else if same_text(value, "drums") {
        Ok(VoiceSeparationStem::Drums)
    } else if same_text(value, "bass") {
        Ok(VoiceSeparationStem::Bass)
    } else if same_text(value, "other") {
        Ok(VoiceSeparationStem::Other)
    } else {
        Err(AppError::offline_job(String::from_str("unsupported voice separation stem")))
    }
}

/// The name of a track in resource URIs.
pub open spec fn stem_key(s: VoiceSeparationStem) -> Seq<char> {
    match s {
        VoiceSeparationStem::Vocals => "vocals"@,
        VoiceSeparationStem::NoVocals => "noVocals"@,
        VoiceSeparationStem::Drums => "drums"@,
        VoiceSeparationStem::Bass => "bass"@,
        VoiceSeparationStem::Other => "other"@,
    }
}

fn stem_key_text(s: VoiceSeparationStem) -> (t: &'static str)
    ensures
        t@ == stem_key(s),
{
    match s {
        VoiceSeparationStem::Vocals => "vocals",
        VoiceSeparationStem::NoVocals => "noVocals",
        VoiceSeparationStem::Drums => "drums",
        VoiceSeparationStem::Bass => "bass",
        VoiceSeparationStem::Other => "other",
    }
}

/// The resource URI of an offline job's artifact.
pub open spec fn offline_artifact_uri_spec(job_id: Seq<char>) -> Seq<char> {
    "voice-cloner://offline-jobs/"@ + job_id + "/artifact"@
}

/// See `offline_artifact_uri_spec`.
pub fn offline_artifact_uri(job_id: &str) -> (u: String)
    ensures
        u@ == offline_artifact_uri_spec(job_id@),
{
    concat3("voice-cloner://offline-jobs/", job_id, "/artifact")
}

/// The resource URI of a separated track.
pub open spec fn stem_uri_spec(job_id: Seq<char>, stem: VoiceSeparationStem) -> Seq<char> {
    "voice-cloner://voice-separation/"@ + job_id + "/stems/"@ + stem_key(stem)
}

/// See `stem_uri_spec`.
pub fn stem_uri(job_id: &str, stem: VoiceSeparationStem) -> (u: String)
    ensures
        u@ == stem_uri_spec(job_id@, stem),
{
    let a = concat3("voice-cloner://voice-separation/", job_id, "/stems/");
    concat2(a.as_str(), stem_key_text(stem))
}

/// What a resource URI points at.
#[derive(Debug, Clone, PartialEq, Eq)]
pub enum ResourceRef {
    OfflineArtifact(String),
    SeparationStem(String, VoiceSeparationStem),
}

/// Reads what follows `voice-cloner://voice-separation/`: `<job>/stems/<stem>`.
pub open spec fn separation_ref_spec(rest: Seq<char>) -> Result<(Seq<char>, VoiceSeparationStem), Seq<char>> {
    let job = match char_index(rest, '/') {
        Some(i) => rest.take(i),
        None => rest,
    };
    if crate::text::is_blank(job) {
        Err("voice separation job id is required"@)
    } else {
        match char_index(rest, '/') {
            None => Err("unsupported voice separation resource URI"@),
            Some(i) => {
                let r2 = rest.skip(i + 1);
                match char_index(r2, '/') {
                    None => if r2 != "stems"@ {
                        Err("unsupported voice separation resource URI"@)
                    } else {
                        Err("voice separation stem is required"@)
                    },
                    Some(j) => {
                        let r3 = r2.skip(j + 1);
                        if r2.take(j) != "stems"@ || char_index(r3, '/') is Some {
                            Err("unsupported voice separation resource URI"@)
                        } else if exists|s: VoiceSeparationStem| r3 == #[trigger] stem_key(s) {
                            Ok((job, choose|s: VoiceSeparationStem| r3 == #[trigger] stem_key(s)))
                        } else {
                            Err("unsupported voice separation stem"@)
                        }
                    },
                }
            },
        }
    }
}

/// Reads a resource URI: `voice-cloner://offline-jobs/<job>/artifact` or
/// `voice-cloner://voice-separation/<job>/stems/<stem>`; an error carries its message.
pub open spec fn resource_ref_spec(uri: Seq<char>) -> Result<(Seq<char>, Option<VoiceSeparationStem>), Seq<char>> {
    let off = "voice-cloner://offline-jobs/"@;
    let sep = "voice-cloner://voice-separation/"@;
    if crate::text::has_prefix(uri, off) {
        let rest = uri.skip(off.len() as int);
        if crate::text::has_suffix(rest, "/artifact"@) {
            Ok((rest.take(rest.len() - "/artifact"@.len()), None))
        } else {
            Err("unsupported offline resource URI"@)
        }
    } else if crate::text::has_prefix(uri, sep) {
        match separation_ref_spec(uri.skip(sep.len() as int)) {
            Ok((job, stem)) => Ok((job, Some(stem))),
            Err(m) => Err(m),
        }
    } else {
        Err("unsupported voice-cloner resource URI"@)
    }
}

/// The resource a parsed reference stands for, as `resource_ref_spec` gives it.
pub open spec fn resource_ref_view(r: ResourceRef) -> (Seq<char>, Option<VoiceSeparationStem>) {
    match r {
        ResourceRef::OfflineArtifact(job) => (job@, None),
        ResourceRef::SeparationStem(job, stem) => (job@, Some(stem)),
    }
}

proof fn lemma_stem_key_injective(a: VoiceSeparationStem, b: VoiceSeparationStem)
    requires
        stem_key(a) == stem_key(b),
    ensures
        a == b,
{
    reveal_strlit("vocals");
    reveal_strlit("noVocals");
    reveal_strlit("drums");
    reveal_strlit("bass");
    reveal_strlit("other");
    assert("vocals"@.len() == 6 && "noVocals"@.len() == 8 && "bass"@.len() == 4);
    assert("drums"@.len() == 5 && "other"@.len() == 5 && "drums"@[0] != "other"@[0]);
    match a {
        VoiceSeparationStem::Drums => assert(stem_key(b)[0] == 'd'),
        VoiceSeparationStem::Other => assert(stem_key(b)[0] == 'o'),
        _ => {},
    }
}

fn char_slice(v: &Vec<char>, from: usize) -> (w: Vec<char>)
    requires
        from <= v.len(),
    ensures
        w@ == v@.skip(from as int),
{
    let mut w: Vec<char> = Vec::new();
    let mut i = from;
    while i < v.len()
        invariant
            from <= i <= v.len(),
            w@ == v@.subrange(from as int, i as int),
        decreases v.len() - i,
    {
        w.push(v[i]);
        i += 1;
    }
    w
}

fn separation_ref(rest: &Vec<char>) -> (r: Result<(String, VoiceSeparationStem), AppError>)
    ensures
        match r {
            Ok((job, stem)) => separation_ref_spec(rest@) == Ok::<(Seq<char>, VoiceSeparationStem), Seq<char>>((job@, stem)),
            Err(e) => e is OfflineJob && separation_ref_spec(rest@) == Err::<(Seq<char>, VoiceSeparationStem), Seq<char>>(crate::error::error_message(e)),
        },
{
    let first = find_char(rest, '/');
    let job = match first {
        Some(i) => string_from_chars(rest, 0, i),
        None => string_from_chars(rest, 0, rest.len()),
    };
    proof {
        if first is None {
            assert(rest@.subrange(0, rest@.len() as int) =~= rest@);
        }
    }
    if crate::text::is_blank_str(job.as_str()) {
        return Err(AppError::offline_job(String::from_str("voice separation job id is required")));
    }
    let i = match first {
        None => {
            return Err(AppError::offline_job(String::from_str("unsupported voice separation resource URI")));
        },
        Some(i) => i,
    };
    let r2 = char_slice(rest, i + 1);
    match find_char(&r2, '/') {
        None => {
            let seg = string_from_chars(&r2, 0, r2.len());
            assert(r2@.subrange(0, r2@.len() as int) =~= r2@);
            if !same_text(seg.as_str(), "stems") {
                Err(AppError::offline_job(String::from_str("unsupported voice separation resource URI")))
            } else {
                Err(AppError::offline_job(String::from_str("voice separation stem is required")))
            }
        },
        Some(j) => {
            let seg = string_from_chars(&r2, 0, j);
            let r3 = char_slice(&r2, j + 1);
            let more = find_char(&r3, '/');
            if !same_text(seg.as_str(), "stems") || more.is_some() {
                return Err(AppError::offline_job(String::from_str("unsupported voice separation resource URI")));
            }
            let name = string_from_chars(&r3, 0, r3.len());
            assert(r3@.subrange(0, r3@.len() as int) =~= r3@);
            match parse_stem(name.as_str()) {
                Ok(stem) => {
                    proof {
                        let r3s = rest@.skip(i + 1).skip(j + 1);
                        assert(r3s == r3@);
                        assert(r3s == stem_key(stem));
                        let c = choose|s: VoiceSeparationStem| r3s == #[trigger] stem_key(s);
                        assert(stem_key(c) == stem_key(stem));
                        lemma_stem_key_injective(c, stem);
                    }
                    Ok((job, stem))
                },
                Err(e) => Err(e),
            }
        },
    }
}

/// Reads a resource URI; see `resource_ref_spec`.
pub fn parse_resource_uri(uri: &str) -> (r: Result<ResourceRef, AppError>)
    ensures
        match r {
            Ok(rr) => resource_ref_spec(uri@) == Ok::<(Seq<char>, Option<VoiceSeparationStem>), Seq<char>>(resource_ref_view(rr)),
            Err(e) => e is OfflineJob && resource_ref_spec(uri@) == Err::<(Seq<char>, Option<VoiceSeparationStem>), Seq<char>>(crate::error::error_message(e)),
        },
{
    if let Some(rest) = crate::text::strip_prefix(uri, "voice-cloner://offline-jobs/") {
        if crate::text::ends_with(rest.as_str(), "/artifact") {
            let v = chars_of(rest.as_str());
            let n = "/artifact".unicode_len();
            proof { reveal_strlit("/artifact"); }
            Ok(ResourceRef::OfflineArtifact(string_from_chars(&v, 0, v.len() - n)))
        } else {
            Err(AppError::offline_job(String::from_str("unsupported offline resource URI")))
        }
    } else if let Some(rest) = crate::text::strip_prefix(uri, "voice-cloner://voice-separation/") {
        let v = chars_of(rest.as_str());
        match separation_ref(&v) {
            Ok((job, stem)) => Ok(ResourceRef::SeparationStem(job, stem)),
            Err(e) => Err(e),
        }
    } else {
        Err(AppError::offline_job(String::from_str("unsupported voice-cloner resource URI")))
    }
}

/// What reading an offline artifact resource answers, given the job, the path
/// the artifact cache assigns to it and whether the stored path equals that
/// path as a path: the controlled path, or the reason the resource is refused.
pub open spec fn offline_resource_outcome(job: OfflineJobView, expected: Seq<char>, same: bool) -> Result<
    Seq<char>,
    Seq<char>,
> {
    if job.status != OfflineJobStatus::Completed {
        Err("offline resource is not completed"@)
    } else {
        match job.local_artifact_path {
            None => Err("offline resource has no local artifact"@),
            Some(stored) => if !same {
                Err("offline resource is outside the controlled artifact cache"@)
            } else {
                Ok(expected)
            },
        }
    }
}

/// `offline_resource_outcome` with the stored path compared to `expected` as paths.
pub open spec fn offline_resource_spec(job: OfflineJobView, expected: Seq<char>) -> Result<Seq<char>, Seq<char>> {
    offline_resource_outcome(
        job,
        expected,
        match job.local_artifact_path {
            Some(stored) => crate::storage::path_eq(stored, expected),
            None => false,
        },
    )
}

/// Decides whether an offline job's artifact may be served, given whether its
/// stored path equals `expected` as a path: see `offline_resource_outcome`.
pub fn offline_resource_decision(job: &OfflineJob, expected: &str, same: bool) -> (r: Result<String, AppError>)
    ensures
        match r {
            Ok(p) => offline_resource_outcome(job@, expected@, same) == Ok::<Seq<char>, Seq<char>>(p@),
            Err(e) => e is OfflineJob && offline_resource_outcome(job@, expected@, same) == Err::<
                Seq<char>,
                Seq<char>,
            >(crate::error::error_message(e)),
        },
{
    if job.status != OfflineJobStatus::Completed {
        return Err(AppError::offline_job(String::from_str("offline resource is not completed")));
    }
    match &job.local_artifact_path {
        None => Err(AppError::offline_job(String::from_str("offline resource has no local artifact"))),
        Some(_) => if !same {
            Err(AppError::offline_job(String::from_str("offline resource is outside the controlled artifact cache")))
        } else {
            Ok(String::from_str(expected))
        },
    }
}

/// Checks that an offline job's artifact may be served: see `offline_resource_spec`.
/// Whether the file exists on disk is left to the caller.
pub fn check_offline_resource(job: &OfflineJob, expected: &str) -> (r: Result<String, AppError>)
    ensures
        match r {
            Ok(p) => offline_resource_spec(job@, expected@) == Ok::<Seq<char>, Seq<char>>(p@),
            Err(e) => e is OfflineJob && offline_resource_spec(job@, expected@) == Err::<Seq<char>, Seq<char>>(
                crate::error::error_message(e),
            ),
        },
{
    let same = match &job.local_artifact_path {
        Some(stored) => crate::storage::same_path(stored.as_str(), expected),
        None => false,
    };
    offline_resource_decision(job, expected, same)
}

/// An entry of the MCP resource list.
#[derive(Debug, Clone, PartialEq, Eq)]
pub struct McpResource {
    pub uri: String,
    pub name: String,
    pub description: String,
    pub mime_type: String,
}

pub struct McpResourceView {
    pub uri: Seq<char>,
    pub name: Seq<char>,
    pub description: Seq<char>,
    pub mime_type: Seq<char>,
}

impl View for McpResource {
    type V = McpResourceView;

    open spec fn view(&self) -> McpResourceView {
        McpResourceView {
            uri: self.uri@,
            name: self.name@,
            description: self.description@,
            mime_type: self.mime_type@,
        }
    }
}

/// The listed resource of a finished offline job.
pub open spec fn offline_resource_entry(job_id: Seq<char>) -> McpResourceView {
    McpResourceView {
        uri: offline_artifact_uri_spec(job_id),
        name: "Offline voice artifact "@ + job_id,
        description: "受控本地离线变声音频路径"@,
        mime_type: "text/plain"@,
    }
}

/// An offline job whose artifact is listed: completed, with a local artifact.
pub open spec fn lists_offline_artifact(j: OfflineJobView) -> bool {
    j.status == OfflineJobStatus::Completed && j.local_artifact_path is Some
}

/// The resources listed for `jobs`, in their order.
pub open spec fn offline_resources_spec(jobs: Seq<OfflineJobView>) -> Seq<McpResourceView>
    decreases jobs.len(),
{
    if jobs.len() == 0 {
        seq![]
    } else {
        let prev = offline_resources_spec(jobs.drop_last());
        if lists_offline_artifact(jobs.last()) {
            prev.push(offline_resource_entry(jobs.last().job_id))
        } else {
            prev
        }
    }
}

/// The MCP resources of the offline jobs: one per completed job that has a
/// local artifact, in the jobs' order.
pub fn offline_resources(jobs: &Vec<OfflineJob>) -> (r: Vec<McpResource>)
    ensures
        r@.map_values(|x: McpResource| x@) == offline_resources_spec(crate::offline::jobs_view(jobs@)),
{
    let mut out: Vec<McpResource> = Vec::new();
    let mut i: usize = 0;
    while i < jobs.len()
        invariant
            i <= jobs.len(),
            out@.map_values(|x: McpResource| x@) == offline_resources_spec(crate::offline::jobs_view(jobs@).take(i as int)),
        decreases jobs.len() - i,
    {
        let ghost js = crate::offline::jobs_view(jobs@);
        assert(js.take(i + 1).drop_last() =~= js.take(i as int));
        let job = &jobs[i];
        if job.status == OfflineJobStatus::Completed && job.local_artifact_path.is_some() {
            let e = McpResource {
                uri: offline_artifact_uri(job.job_id.as_str()),
                name: concat2("Offline voice artifact ", job.job_id.as_str()),
                description: String::from_str("受控本地离线变声音频路径"),
                mime_type: String::from_str("text/plain"),
            };
            out.push(e);
            assert(out@.map_values(|x: McpResource| x@) =~= offline_resources_spec(js.take(i as int)).push(
                offline_resource_entry(js[i as int].job_id),
            ));
        }
        i += 1;
    }
    assert(crate::offline::jobs_view(jobs@).take(jobs.len() as int) =~= crate::offline::jobs_view(jobs@));
    out
}


/// The listed resource of one separated track.
pub open spec fn stem_resource_entry(job_id: Seq<char>, stem: VoiceSeparationStem) -> McpResourceView {
    McpResourceView {
        uri: stem_uri_spec(job_id, stem),
        name: "Voice separation "@ + stem_key(stem) + " "@ + job_id,
        description: "受控本地人声分离音频路径"@,
        mime_type: "text/plain"@,
    }
}

/// The entry of `stem` when the job has a file for it.
pub open spec fn stem_entry_if(job_id: Seq<char>, s: StemsView, stem: VoiceSeparationStem) -> Seq<McpResourceView> {
    if stem_file(s, stem) is Some {
        seq![stem_resource_entry(job_id, stem)]
    } else {
        seq![]
    }
}

/// The listed tracks of one job: vocals, accompaniment, drums, bass, other.
pub open spec fn job_stem_entries(j: VoiceSeparationJobView) -> Seq<McpResourceView> {
    match j.stems {
        None => seq![],
        Some(s) => stem_entry_if(j.job_id, s, VoiceSeparationStem::Vocals) + stem_entry_if(
            j.job_id,
            s,
            VoiceSeparationStem::NoVocals,
        ) + stem_entry_if(j.job_id, s, VoiceSeparationStem::Drums) + stem_entry_if(
            j.job_id,
            s,
            VoiceSeparationStem::Bass,
        ) + stem_entry_if(j.job_id, s, VoiceSeparationStem::Other),
    }
}

/// The resources listed for the separation jobs, in their order.
pub open spec fn separation_resources_spec(jobs: Seq<VoiceSeparationJobView>) -> Seq<McpResourceView>
    decreases jobs.len(),
{
    if jobs.len() == 0 {
        seq![]
    } else {
        separation_resources_spec(jobs.drop_last()) + job_stem_entries(jobs.last())
    }
}

fn push_stem_entry(out: &mut Vec<McpResource>, job_id: &str, stems: &VoiceSeparationStems, stem: VoiceSeparationStem)
    ensures
        final(out)@.map_values(|x: McpResource| x@) == old(out)@.map_values(|x: McpResource| x@) + stem_entry_if(
            job_id@,
            stems_view(*stems),
            stem,
        ),
{
    let ghost before = out@.map_values(|x: McpResource| x@);
    if stems.path_for(stem).is_some() {
        let name = concat3("Voice separation ", stem_key_text(stem), " ");
        out.push(
            McpResource {
                uri: stem_uri(job_id, stem),
                name: concat2(name.as_str(), job_id),
                description: String::from_str("受控本地人声分离音频路径"),
                mime_type: String::from_str("text/plain"),
            },
        );
        assert(out@.map_values(|x: McpResource| x@) =~= before + stem_entry_if(job_id@, stems_view(*stems), stem));
    } else {
        assert(out@.map_values(|x: McpResource| x@) =~= before + stem_entry_if(job_id@, stems_view(*stems), stem));
    }
}

/// The MCP resources of the separation jobs: for each job that has tracks,
/// one per track file, in the order vocals, accompaniment, drums, bass, other.
pub fn separation_resources(jobs: &Vec<VoiceSeparationJob>) -> (r: Vec<McpResource>)
    ensures
        r@.map_values(|x: McpResource| x@) == separation_resources_spec(crate::separation::jobs_view(jobs@)),
{
    let mut out: Vec<McpResource> = Vec::new();
    let ghost js = crate::separation::jobs_view(jobs@);
    let mut i: usize = 0;
    assert(out@.map_values(|x: McpResource| x@) =~= Seq::<McpResourceView>::empty());
    while i < jobs.len()
        invariant
            i <= jobs.len(),
            js == crate::separation::jobs_view(jobs@),
            out@.map_values(|x: McpResource| x@) == separation_resources_spec(js.take(i as int)),
        decreases jobs.len() - i,
    {
        assert(js.take(i + 1).drop_last() =~= js.take(i as int));
        assert(js.take(i + 1).last() == jobs@[i as int]@);
        let ghost before = out@.map_values(|x: McpResource| x@);
        let job = &jobs[i];
        match &job.stems {
            None => {
                assert(job_stem_entries(jobs@[i as int]@) =~= Seq::<McpResourceView>::empty());
                assert(before + job_stem_entries(jobs@[i as int]@) =~= before);
            },
            Some(st) => {
                let id = job.job_id.as_str();
                push_stem_entry(&mut out, id, st, VoiceSeparationStem::Vocals);
                push_stem_entry(&mut out, id, st, VoiceSeparationStem::NoVocals);
                push_stem_entry(&mut out, id, st, VoiceSeparationStem::Drums);
                push_stem_entry(&mut out, id, st, VoiceSeparationStem::Bass);
                push_stem_entry(&mut out, id, st, VoiceSeparationStem::Other);
                assert(out@.map_values(|x: McpResource| x@) =~= before + job_stem_entries(jobs@[i as int]@));
            },
        }
        i += 1;
    }
    assert(js.take(jobs.len() as int) =~= js);
    out
}


/// Every offline artifact URI the resource list hands out reads back as that
/// job's artifact.
pub proof fn lemma_offline_uri_round_trip(job_id: Seq<char>)
    ensures
        resource_ref_spec(offline_artifact_uri_spec(job_id)) == Ok::<(Seq<char>, Option<VoiceSeparationStem>), Seq<char>>(
            (job_id, None),
        ),
{
    let off = "voice-cloner://offline-jobs/"@;
    let uri = offline_artifact_uri_spec(job_id);
    assert(uri.subrange(0, off.len() as int) =~= off);
    let rest = uri.skip(off.len() as int);
    assert(rest =~= job_id + "/artifact"@);
    assert(rest.subrange(rest.len() - "/artifact"@.len(), rest.len() as int) =~= "/artifact"@);
    assert(rest.take(rest.len() - "/artifact"@.len()) =~= job_id);
}

/// Every track URI the resource list hands out reads back as that job's
/// track, for a job id that is not blank and holds no `/`.
pub proof fn lemma_stem_uri_round_trip(job_id: Seq<char>, stem: VoiceSeparationStem)
    requires
        !crate::text::is_blank(job_id),
        char_index(job_id, '/') is None,
    ensures
        resource_ref_spec(stem_uri_spec(job_id, stem)) == Ok::<(Seq<char>, Option<VoiceSeparationStem>), Seq<char>>(
            (job_id, Some(stem)),
        ),
{
    reveal_strlit("voice-cloner://offline-jobs/");
    reveal_strlit("voice-cloner://voice-separation/");
    reveal_strlit("/stems/");
    reveal_strlit("stems");
    reveal_strlit("stems/");
    reveal_strlit("vocals");
    reveal_strlit("noVocals");
    reveal_strlit("drums");
    reveal_strlit("bass");
    reveal_strlit("other");
    let off = "voice-cloner://offline-jobs/"@;
    let sep = "voice-cloner://voice-separation/"@;
    let uri = stem_uri_spec(job_id, stem);
    let key = stem_key(stem);
    assert(uri[15] == 'v' && off[15] == 'o');
    assert(!crate::text::has_prefix(uri, off)) by {
        if crate::text::has_prefix(uri, off) {
            assert(uri.subrange(0, off.len() as int)[15] == uri[15]);
        }
    }
    assert(uri.subrange(0, sep.len() as int) =~= sep);
    let rest = uri.skip(sep.len() as int);
    assert(rest =~= job_id + "/stems/"@ + key);
    let n = job_id.len() as int;
    assert(rest[n] == '/');
    assert forall|j: int| 0 <= j < n implies rest[j] != '/' by {
        assert(rest[j] == job_id[j]);
        if job_id[j] == '/' {
            assert(exists|k: int| 0 <= k < job_id.len() && job_id[k] == '/');
        }
    }
    assert(char_index(rest, '/') == Some(n)) by {
        assert(exists|i: int| 0 <= i < rest.len() && rest[i] == '/');
        let c = choose|i: int| 0 <= i < rest.len() && rest[i] == '/' && forall|j: int| 0 <= j < i ==> rest[j] != '/';
        assert(0 <= c < rest.len() && rest[c] == '/' && forall|j: int| 0 <= j < c ==> rest[j] != '/');
        if c < n {
        } else if c > n {
            assert(rest[n] != '/');
        }
    }
    assert(rest.take(n) =~= job_id);
    let r2 = rest.skip(n + 1);
    assert(r2 =~= "stems/"@ + key);
    assert(r2[5] == '/');
    assert forall|j: int| 0 <= j < 5 implies r2[j] != '/' by {
        assert(r2[j] == "stems"@[j]);
    }
    assert(char_index(r2, '/') == Some(5int)) by {
        assert(exists|i: int| 0 <= i < r2.len() && r2[i] == '/');
        let c = choose|i: int| 0 <= i < r2.len() && r2[i] == '/' && forall|j: int| 0 <= j < i ==> r2[j] != '/';
        assert(0 <= c < r2.len() && r2[c] == '/' && forall|j: int| 0 <= j < c ==> r2[j] != '/');
        if c < 5 {
        } else if c > 5 {
            assert(r2[5] != '/');
        }
    }
    assert(r2.take(5) =~= "stems"@);
    let r3 = r2.skip(6);
    assert(r3 =~= key);
    assert(char_index(r3, '/') is None) by {
        if exists|i: int| 0 <= i < r3.len() && r3[i] == '/' {
            let i = choose|i: int| 0 <= i < r3.len() && r3[i] == '/';
            match stem {
                VoiceSeparationStem::Vocals => assert(r3[i] != '/'),
                VoiceSeparationStem::NoVocals => assert(r3[i] != '/'),
                VoiceSeparationStem::Drums => assert(r3[i] != '/'),
                VoiceSeparationStem::Bass => assert(r3[i] != '/'),
                VoiceSeparationStem::Other => assert(r3[i] != '/'),
            }
        }
    }
    assert(exists|s: VoiceSeparationStem| r3 == #[trigger] stem_key(s));
    let c = choose|s: VoiceSeparationStem| r3 == #[trigger] stem_key(s);
    lemma_stem_key_injective(c, stem);
}

} // verus!
