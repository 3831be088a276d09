//! Field extraction from the flat JSON object of an F1 certificate.
//!
//! A key counts only where it stands outside any string value: an even number of
//! unescaped double quotes precedes it. The first such occurrence wins.

use vstd::prelude::*;

verus! {

/// The Unicode `White_Space` property: the characters that `str::trim_start` strips.
pub open spec fn is_white_space(c: char) -> bool {
    let u = c as u32;
    ||| 0x09 <= u && u <= 0x0d
    ||| u == 0x20
    ||| u == 0x85
    ||| u == 0xa0
    ||| u == 0x1680
    ||| 0x2000 <= u && u <= 0x200a
    ||| u == 0x2028
    ||| u == 0x2029
    ||| u == 0x202f
    ||| u == 0x205f
    ||| u == 0x3000
}

pub fn char_is_white_space(c: char) -> (r: bool)
    ensures
        r == is_white_space(c),
{
    let u = c as u32;
    (0x09 <= u && u <= 0x0d) || u == 0x20 || u == 0x85 || u == 0xa0 || u == 0x1680 || (0x2000 <= u
        && u <= 0x200a) || u == 0x2028 || u == 0x2029 || u == 0x202f || u == 0x205f || u == 0x3000
}

/// Scan state after reading `s` from its start: the number of unescaped double quotes
/// seen, and whether a backslash escape is pending.
pub open spec fn quote_scan(s: Seq<char>) -> (nat, bool)
    decreases s.len(),
{
    if s.len() == 0 {
        (0, false)
    } else {
        let prev = quote_scan(s.drop_last());
        let c = s.last();
        if prev.1 {
            (prev.0, false)
        } else if c == '\\' {
            (prev.0, true)
        } else if c == '"' {
            (prev.0 + 1, false)
        } else {
            (prev.0, false)
        }
    }
}

/// Number of double quotes in `s` that no backslash escapes.
pub open spec fn unescaped_quotes(s: Seq<char>) -> nat {
    quote_scan(s).0
}

/// `key` wrapped in double quotes, as it stands in the object.
pub open spec fn quoted(key: Seq<char>) -> Seq<char> {
    seq!['"'] + key + seq!['"']
}

/// `pat` occurs in `s` at position `p`.
pub open spec fn occurs_at(s: Seq<char>, pat: Seq<char>, p: int) -> bool {
    0 <= p && p + pat.len() <= s.len() && s.subrange(p, p + pat.len()) == pat
}

/// `pat` occurs at `p` outside any string value.
pub open spec fn key_at(s: Seq<char>, pat: Seq<char>, p: int) -> bool {
    occurs_at(s, pat, p) && unescaped_quotes(s.take(p)) % 2 == 0
}

/// The first position at or after `start` where `pat` stands outside any string value.
pub open spec fn key_search(s: Seq<char>, pat: Seq<char>, start: int) -> Option<int>
    decreases s.len() + 1 - start,
{
    if start < 0 || start + pat.len() > s.len() {
        None
    } else if key_at(s, pat, start) {
        Some(start)
    } else {
        key_search(s, pat, start + 1)
    }
}

/// The first index at or after `i` that holds `ch`.
pub open spec fn find_char_from(s: Seq<char>, ch: char, i: int) -> Option<int>
    decreases s.len() - i,
{
    if i < 0 || i >= s.len() {
        None
    } else if s[i] == ch {
        Some(i)
    } else {
        find_char_from(s, ch, i + 1)
    }
}

/// The first index at or after `i` that is the end of `s` or holds no white space.
pub open spec fn skip_white_space_from(s: Seq<char>, i: int) -> int
    decreases s.len() - i,
{
    if i < 0 || i >= s.len() {
        i
    } else if is_white_space(s[i]) {
        skip_white_space_from(s, i + 1)
    } else {
        i
    }
}

/// Where the value of `key` starts: past the key, the next colon and any white space.
pub open spec fn value_start(json: Seq<char>, key: Seq<char>) -> Option<int> {
    match key_search(json, quoted(key), 0) {
        None => None,
        Some(p) => match find_char_from(json, ':', p + quoted(key).len()) {
            None => None,
            Some(c) => Some(skip_white_space_from(json, c + 1)),
        },
    }
}

/// The character that a backslash escape stands for.
pub open spec fn unescape(c: char) -> char {
    if c == 'n' {
        '\n'
    } else if c == 'r' {
        '\r'
    } else if c == 't' {
        '\t'
    } else {
        c
    }
}

/// Decodes the body of a string literal, up to its closing quote; `None` where the
/// text ends first.
pub open spec fn decode_string_body(s: Seq<char>) -> Option<Seq<char>>
    decreases s.len(),
{
    if s.len() == 0 {
        None
    } else if s[0] == '"' {
        Some(Seq::empty())
    } else if s[0] == '\\' {
        if s.len() < 2 {
            None
        } else {
            match decode_string_body(s.skip(2)) {
                None => None,
                Some(rest) => Some(seq![unescape(s[1])] + rest),
            }
        }
    } else {
        match decode_string_body(s.skip(1)) {
            None => None,
            Some(rest) => Some(seq![s[0]] + rest),
        }
    }
}

/// The decoded string value of `key`; `None` where the key is absent or its value is
/// not a string literal.
pub open spec fn json_str_value(json: Seq<char>, key: Seq<char>) -> Option<Seq<char>> {
    match value_start(json, key) {
        None => None,
        Some(v) => if v < json.len() && json[v] == '"' {
            decode_string_body(json.skip(v + 1))
        } else {
            None
        },
    }
}

/// A character that may appear in a JSON number.
pub open spec fn is_number_char(c: char) -> bool {
    ('0' <= c && c <= '9') || c == '.' || c == 'e' || c == 'E' || c == '+' || c == '-'
}

/// The longest prefix of `s` made of number characters.
pub open spec fn number_prefix(s: Seq<char>) -> Seq<char>
    decreases s.len(),
{
    if s.len() > 0 && is_number_char(s[0]) {
        seq![s[0]] + number_prefix(s.skip(1))
    } else {
        Seq::empty()
    }
}

/// The raw numeric token of `key`'s value; `None` where the key is absent or the value
/// does not start with a number character.
pub open spec fn json_number_token(json: Seq<char>, key: Seq<char>) -> Option<Seq<char>> {
    match value_start(json, key) {
        None => None,
        Some(v) => {
            let token = number_prefix(json.skip(v));
            if token.len() == 0 {
                None
            } else {
                Some(token)
            }
        },
    }
}

// ─── executable scanning ────────────────────────────────────────────────────────

fn chars_of(s: &str) -> (v: Vec<char>)
    ensures
        v@ == s@,
{
    let n = s.unicode_len();
    let mut v: Vec<char> = Vec::new();
    let mut i: usize = 0;
    while i < n
        invariant
            n == s@.len(),
            i <= n,
            v@ == s@.take(i as int),
        decreases n - i,
    {
        v.push(s.get_char(i));
        i = i + 1;
        assert(v@ =~= s@.take(i as int));
    }
    assert(v@ =~= s@);
    v
}

fn quoted_chars(key: &str) -> (v: Vec<char>)
    ensures
        v@ == quoted(key@),
{
    let n = key.unicode_len();
    let mut v: Vec<char> = Vec::new();
    v.push('"');
    let mut i: usize = 0;
    while i < n
        invariant
            n == key@.len(),
            i <= n,
            v@ == seq!['"'] + key@.take(i as int),
        decreases n - i,
    {
        v.push(key.get_char(i));
        i = i + 1;
        assert(v@ =~= seq!['"'] + key@.take(i as int));
    }
    v.push('"');
    assert(key@.take(n as int) =~= key@);
    assert(v@ =~= quoted(key@));
    v
}

fn occurs_at_exec(s: &Vec<char>, pat: &Vec<char>, p: usize) -> (r: bool)
    requires
        p + pat@.len() <= s@.len(),
    ensures
        r == occurs_at(s@, pat@, p as int),
{
    let m = pat.len();
    let n = s.len();
    let mut j: usize = 0;
    while j < m
        invariant
            m == pat@.len(),
            n == s@.len(),
            p + m <= n,
            j <= m,
            forall|k: int| 0 <= k < j ==> s@[p + k] == pat@[k],
        decreases m - j,
    {
        if s[p + j] != pat[j] {
            assert(s@.subrange(p as int, p + m)[j as int] != pat@[j as int]);
            return false;
        }
        j = j + 1;
    }
    assert(s@.subrange(p as int, p + m) =~= pat@);
    true
}

proof fn lemma_quote_scan_step(s: Seq<char>, i: int)
    requires
        0 <= i < s.len(),
    ensures
        s.take(i + 1).drop_last() == s.take(i),
        s.take(i + 1).last() == s[i],
{
    assert(s.take(i + 1).drop_last() =~= s.take(i));
}

/// The first key position at or after the start; `None` where there is none.
fn key_search_exec(s: &Vec<char>, pat: &Vec<char>) -> (r: Option<usize>)
    requires
        pat@.len() > 0,
    ensures
        r matches Some(p) ==> key_search(s@, pat@, 0) == Some(p as int),
        r is None ==> key_search(s@, pat@, 0) is None,
{
    let n = s.len();
    let m = pat.len();
    let mut p: usize = 0;
    let mut count: usize = 0;
    let mut escaped = false;
    if m > n {
        return None;
    }
    while p <= n - m
        invariant
            n == s@.len(),
            m == pat@.len(),
            0 < m <= n,
            p <= n,
            count <= p,
            (count as nat, escaped) == quote_scan(s@.take(p as int)),
            key_search(s@, pat@, 0) == key_search(s@, pat@, p as int),
        decreases n - p,
    {
        if occurs_at_exec(s, pat, p) && count % 2 == 0 {
            return Some(p);
        }
        let c = s[p];
        proof {
            lemma_quote_scan_step(s@, p as int);
        }
        if escaped {
            escaped = false;
        } else if c == '\\' {
            escaped = true;
        } else if c == '"' {
            count = count + 1;
        }
        p = p + 1;
    }
    None
}

fn find_char_from_exec(s: &Vec<char>, ch: char, i: usize) -> (r: Option<usize>)
    requires
        i <= s@.len(),
    ensures
        r matches Some(j) ==> find_char_from(s@, ch, i as int) == Some(j as int),
        r is None ==> find_char_from(s@, ch, i as int) is None,
{
    let n = s.len();
    let mut j = i;
    while j < n
        invariant
            n == s@.len(),
            i <= j <= n,
            find_char_from(s@, ch, i as int) == find_char_from(s@, ch, j as int),
        decreases n - j,
    {
        if s[j] == ch {
            return Some(j);
        }
        j = j + 1;
    }
    None
}

fn skip_white_space_exec(s: &Vec<char>, i: usize) -> (r: usize)
    requires
        i <= s@.len(),
    ensures
        r as int == skip_white_space_from(s@, i as int),
        r <= s@.len(),
{
    let n = s.len();
    let mut j = i;
    while j < n && char_is_white_space(s[j])
        invariant
            n == s@.len(),
            i <= j <= n,
            skip_white_space_from(s@, i as int) == skip_white_space_from(s@, j as int),
        decreases n - j,
    {
        j = j + 1;
    }
    j
}

fn value_start_exec(s: &Vec<char>, key: &str) -> (r: Option<usize>)
    ensures
        r matches Some(v) ==> value_start(s@, key@) == Some(v as int) && v <= s@.len(),
        r is None ==> value_start(s@, key@) is None,
{
    let pat = quoted_chars(key);
    let n = s.len();
    match key_search_exec(s, &pat) {
        None => None,
        Some(p) => {
            proof {
                lemma_key_search_found(s@, pat@, 0);
            }
            match find_char_from_exec(s, ':', p + pat.len()) {
                None => None,
                Some(c) => {
                    proof {
                        assert(c < s@.len()) by {
                            lemma_find_char_in_range(s@, ':', (p + pat@.len()) as int);
                        }
                    }
                    Some(skip_white_space_exec(s, c + 1))
                },
            }
        },
    }
}

proof fn lemma_key_search_found(s: Seq<char>, pat: Seq<char>, start: int)
    ensures
        key_search(s, pat, start) matches Some(p) ==> start <= p && key_at(s, pat, p),
    decreases s.len() + 1 - start,
{
    if !(start < 0 || start + pat.len() > s.len()) && !key_at(s, pat, start) {
        lemma_key_search_found(s, pat, start + 1);
    }
}

proof fn lemma_find_char_in_range(s: Seq<char>, ch: char, i: int)
    ensures
        find_char_from(s, ch, i) matches Some(j) ==> i <= j < s.len() && s[j] == ch,
    decreases s.len() - i,
{
    if 0 <= i < s.len() && s[i] != ch {
        lemma_find_char_in_range(s, ch, i + 1);
    }
}

/// The one-character string holding `s[i]`.
fn char_at_str(json: &str, i: usize) -> (r: &str)
    requires
        i < json@.len(),
        json@.len() <= usize::MAX,
    ensures
        r@ == seq![json@[i as int]],
{
    let r = json.substring_char(i, i + 1);
    assert(r@ =~= seq![json@[i as int]]);
    r
}

/// The one-character string holding `unescape(c)` for an escape character `c` that is
/// one of `"`, `\`, `n`, `r`, `t`.
fn escape_str(c: char) -> (r: &'static str)
    requires
        c == '"' || c == '\\' || c == 'n' || c == 'r' || c == 't',
    ensures
        r@ == seq![unescape(c)],
{
    proof {
        reveal_strlit("\"");
        reveal_strlit("\\");
        reveal_strlit("\n");
        reveal_strlit("\r");
        reveal_strlit("\t");
    }
    if c == '"' {
        "\""
    } else if c == '\\' {
        "\\"
    } else if c == 'n' {
        "\n"
    } else if c == 'r' {
        "\r"
    } else {
        "\t"
    }
}

proof fn lemma_skip_skip(s: Seq<char>, i: int, k: int)
    requires
        0 <= i,
        0 <= k,
        i + k <= s.len(),
    ensures
        s.skip(i).skip(k) == s.skip(i + k),
{
    assert(s.skip(i).skip(k) =~= s.skip(i + k));
}

/// Prepends `prefix` to an optional decoded value.
pub open spec fn prepend(prefix: Seq<char>, rest: Option<Seq<char>>) -> Option<Seq<char>> {
    match rest {
        None => None,
        Some(r) => Some(prefix + r),
    }
}

/// Decodes the string literal body that starts at index `start` of `json`.
fn decode_string_at(json: &str, s: &Vec<char>, start: usize) -> (r: Option<String>)
    requires
        s@ == json@,
        start <= s@.len(),
    ensures
        r matches Some(v) ==> decode_string_body(s@.skip(start as int)) == Some(v@),
        r is None ==> decode_string_body(s@.skip(start as int)) is None,
{
    let n = s.len();
    let mut out = String::new();
    let mut i = start;
    proof {
        assert(out@ + Seq::<char>::empty() =~= Seq::<char>::empty());
    }
    while i < n
        invariant
            n == s@.len(),
            s@ == json@,
            start <= i <= n,
            decode_string_body(s@.skip(start as int)) == prepend(
                out@,
                decode_string_body(s@.skip(i as int)),
            ),
        decreases n - i,
    {
        let c = s[i];
        let ghost rest = s@.skip(i as int);
        assert(rest[0] == c);
        if c == '"' {
            assert(out@ + Seq::<char>::empty() =~= out@);
            return Some(out);
        } else if c == '\\' {
            if i + 1 >= n {
                return None;
            }
            let e = s[i + 1];
            proof {
                lemma_skip_skip(s@, i as int, 2);
                assert(rest[1] == e);
            }
            if e == '"' || e == '\\' || e == 'n' || e == 'r' || e == 't' {
                out.append(escape_str(e));
            } else {
                out.append(char_at_str(json, i + 1));
            }
            proof {
                let ghost old_out = out@.drop_last();
                assert forall|tail: Seq<char>|
                    #![auto]
                    old_out + (seq![unescape(e)] + tail) == out@ + tail by {
                    assert(old_out + (seq![unescape(e)] + tail) =~= out@ + tail);
                }
            }
            i = i + 2;
        } else {
            out.append(char_at_str(json, i));
            proof {
                lemma_skip_skip(s@, i as int, 1);
                let ghost old_out = out@.drop_last();
                assert forall|tail: Seq<char>|
                    #![auto]
                    old_out + (seq![c] + tail) == out@ + tail by {
                    assert(old_out + (seq![c] + tail) =~= out@ + tail);
                }
            }
            i = i + 1;
        }
    }
    assert(s@.skip(i as int).len() == 0);
    None
}

/// Reads the number token that starts at index `start` of `json`.
fn number_token_at(json: &str, s: &Vec<char>, start: usize) -> (r: String)
    requires
        s@ == json@,
        start <= s@.len(),
    ensures
        r@ == number_prefix(s@.skip(start as int)),
{
    let n = s.len();
    let mut out = String::new();
    let mut i = start;
    assert(out@ + number_prefix(s@.skip(start as int)) =~= number_prefix(s@.skip(start as int)));
    while i < n && (('0' <= s[i] && s[i] <= '9') || s[i] == '.' || s[i] == 'e' || s[i] == 'E'
        || s[i] == '+' || s[i] == '-')
        invariant
            n == s@.len(),
            s@ == json@,
            start <= i <= n,
            number_prefix(s@.skip(start as int)) == out@ + number_prefix(s@.skip(i as int)),
        decreases n - i,
    {
        let ghost rest = s@.skip(i as int);
        let ghost old_out = out@;
        assert(rest[0] == s@[i as int]);
        out.append(char_at_str(json, i));
        proof {
            lemma_skip_skip(s@, i as int, 1);
            assert(old_out + (seq![rest[0]] + number_prefix(rest.skip(1))) =~= out@
                + number_prefix(rest.skip(1)));
        }
        i = i + 1;
    }
    assert(number_prefix(s@.skip(i as int)) =~= Seq::<char>::empty());
    assert(out@ + Seq::<char>::empty() =~= out@);
    out
}

/// The decoded string value of `key` in the flat JSON object `json`.
pub fn extract_json_str(json: &str, key: &str) -> (r: Option<String>)
    ensures
        r matches Some(v) ==> json_str_value(json@, key@) == Some(v@),
        r is None ==> json_str_value(json@, key@) is None,
{
    let s = chars_of(json);
    match value_start_exec(&s, key) {
        None => None,
        Some(v) => {
            if v < s.len() && s[v] == '"' {
                decode_string_at(json, &s, v + 1)
            } else {
                None
            }
        },
    }
}

/// The raw numeric token of `key`'s value in the flat JSON object `json`.
pub fn extract_json_number_token(json: &str, key: &str) -> (r: Option<String>)
    ensures
        r matches Some(t) ==> json_number_token(json@, key@) == Some(t@),
        r is None ==> json_number_token(json@, key@) is None,
{
    let s = chars_of(json);
    match value_start_exec(&s, key) {
        None => None,
        Some(v) => {
            let t = number_token_at(json, &s, v);
            if t.as_str().unicode_len() == 0 {
                None
            } else {
                Some(t)
            }
        },
    }
}

} // verus!
