//! Canonical JSON bytes (object keys sorted, no insignificant white space) and the
//! runtime configuration hash computed over them.

use vstd::prelude::*;

use crate::policy::digest::{hex_encode, hex_string, sha256, sha256_spec};
use crate::text::{decimal, u64_to_decimal};

verus! {

/// A JSON value for canonical hashing. A float is held as the decimal text it is
/// written with.
#[derive(Debug, PartialEq)]
pub enum JsonValue {
    Null,
    Bool(bool),
    Int(i64),
    Float(String),
    Str(String),
    Array(Vec<JsonValue>),
    Object(Vec<(String, JsonValue)>),
}

// ─── text to bytes ──────────────────────────────────────────────────────────────

/// UTF-8 encoding of one character.
pub open spec fn utf8(c: char) -> Seq<u8> {
    let u = c as u32;
    if u < 0x80 {
        seq![u as u8]
    } else if u < 0x800 {
        seq![(0xc0 + u / 64) as u8, (0x80 + u % 64) as u8]
    } else if u < 0x10000 {
        seq![(0xe0 + u / 4096) as u8, (0x80 + (u / 64) % 64) as u8, (0x80 + u % 64) as u8]
    } else {
        seq![
            (0xf0 + u / 262144) as u8,
            (0x80 + (u / 4096) % 64) as u8,
            (0x80 + (u / 64) % 64) as u8,
            (0x80 + u % 64) as u8,
        ]
    }
}

/// UTF-8 encoding of a character sequence.
pub open spec fn utf8_of(s: Seq<char>) -> Seq<u8>
    decreases s.len(),
{
    if s.len() == 0 {
        Seq::empty()
    } else {
        utf8_of(s.drop_last()) + utf8(s.last())
    }
}

/// Lowercase hex digit byte for `d` in `0..16`.
pub open spec fn hex_byte(d: int) -> u8 {
    if d < 10 {
        (0x30 + d) as u8
    } else {
        (0x61 + d - 10) as u8
    }
}

/// One character inside a string literal: quote, backslash, newline, carriage return
/// and tab take a backslash escape, other control characters `\u` and four hex digits.
pub open spec fn escape_char(c: char) -> Seq<u8> {
    let u = c as u32;
    if c == '"' {
        seq![0x5cu8, 0x22u8]
    } else if c == '\\' {
        seq![0x5cu8, 0x5cu8]
    } else if c == '\n' {
        seq![0x5cu8, 0x6eu8]
    } else if c == '\r' {
        seq![0x5cu8, 0x72u8]
    } else if c == '\t' {
        seq![0x5cu8, 0x74u8]
    } else if u < 0x20 {
        seq![0x5cu8, 0x75u8, 0x30u8, 0x30u8, hex_byte((u / 16) as int), hex_byte((u % 16) as int)]
    } else {
        utf8(c)
    }
}

/// The escaped body of a string literal.
pub open spec fn escaped(s: Seq<char>) -> Seq<u8>
    decreases s.len(),
{
    if s.len() == 0 {
        Seq::empty()
    } else {
        escaped(s.drop_last()) + escape_char(s.last())
    }
}

/// A string literal.
pub open spec fn string_literal(s: Seq<char>) -> Seq<u8> {
    seq![0x22u8] + escaped(s) + seq![0x22u8]
}

/// Decimal text of a signed integer.
pub open spec fn int_text(n: i64) -> Seq<char> {
    if n < 0 {
        seq!['-'] + decimal((-n) as nat)
    } else {
        decimal(n as nat)
    }
}

// ─── key order ──────────────────────────────────────────────────────────────────

/// `a` sorts before or with `b`: lexicographic order of code points, which is the
/// byte order of their UTF-8 encodings.
pub open spec fn key_le(a: Seq<char>, b: Seq<char>) -> bool
    decreases a.len(),
{
    if a.len() == 0 {
        true
    } else if b.len() == 0 {
        false
    } else if (a[0] as u32) < (b[0] as u32) {
        true
    } else if (a[0] as u32) > (b[0] as u32) {
        false
    } else {
        key_le(a.skip(1), b.skip(1))
    }
}

/// Inserts index `i` into `order` after every index whose key sorts before or with
/// `keys[i]`, and before the rest.
pub open spec fn insert_index(keys: Seq<Seq<char>>, order: Seq<int>, i: int) -> Seq<int>
    decreases order.len(),
{
    if order.len() == 0 {
        seq![i]
    } else if key_le(keys[order.last()], keys[i]) {
        order.push(i)
    } else {
        insert_index(keys, order.drop_last(), i).push(order.last())
    }
}

/// The indices of `keys` in stable sorted order (insertion sort).
pub open spec fn sorted_order(keys: Seq<Seq<char>>, n: nat) -> Seq<int>
    decreases n,
{
    if n == 0 {
        Seq::empty()
    } else {
        insert_index(keys, sorted_order(keys, (n - 1) as nat), n - 1)
    }
}

/// The keys of an object's entries.
pub open spec fn keys_of(pairs: Seq<(String, JsonValue)>) -> Seq<Seq<char>> {
    Seq::new(pairs.len(), |i: int| pairs[i].0@)
}

// ─── canonical form ─────────────────────────────────────────────────────────────

/// The canonical bytes of a value.
pub open spec fn canonical(v: JsonValue) -> Seq<u8>
    decreases v, 0nat,
{
    match v {
        JsonValue::Null => seq![0x6eu8, 0x75u8, 0x6cu8, 0x6cu8],
        JsonValue::Bool(b) => if b {
            seq![0x74u8, 0x72u8, 0x75u8, 0x65u8]
        } else {
            seq![0x66u8, 0x61u8, 0x6cu8, 0x73u8, 0x65u8]
        },
        JsonValue::Int(n) => utf8_of(int_text(n)),
        JsonValue::Float(t) => utf8_of(t@),
        JsonValue::Str(s) => string_literal(s@),
        JsonValue::Array(items) => seq![0x5bu8] + canonical_items(items@, items@.len()) + seq![
            0x5du8,
        ],
        JsonValue::Object(pairs) => seq![0x7bu8] + canonical_entries(
            pairs@,
            sorted_order(keys_of(pairs@), pairs@.len()),
            pairs@.len(),
        ) + seq![0x7du8],
    }
}

/// The first `n` items, separated by commas.
pub open spec fn canonical_items(items: Seq<JsonValue>, n: nat) -> Seq<u8>
    decreases items, n,
{
    if n == 0 || n > items.len() {
        Seq::empty()
    } else if n == 1 {
        canonical(items[0])
    } else {
        canonical_items(items, (n - 1) as nat) + seq![0x2cu8] + canonical(items[n - 1])
    }
}

/// The entries at the first `n` positions of `order`, each as key, colon and value,
/// separated by commas.
pub open spec fn canonical_entries(pairs: Seq<(String, JsonValue)>, order: Seq<int>, n: nat) -> Seq<
    u8,
>
    decreases pairs, n,
{
    if n == 0 || n > order.len() {
        Seq::empty()
    } else {
        let k = order[n - 1];
        let entry = if 0 <= k < pairs.len() {
            string_literal(pairs[k].0@) + seq![0x3au8] + canonical(pairs[k].1)
        } else {
            Seq::empty()
        };
        if n == 1 {
            entry
        } else {
            canonical_entries(pairs, order, (n - 1) as nat) + seq![0x2cu8] + entry
        }
    }
}


// ─── writing ────────────────────────────────────────────────────────────────────

proof fn lemma_utf8_of_append(a: Seq<char>, b: Seq<char>)
    ensures
        utf8_of(a + b) == utf8_of(a) + utf8_of(b),
    decreases b.len(),
{
    if b.len() == 0 {
        assert(a + b =~= a);
    } else {
        assert((a + b).drop_last() =~= a + b.drop_last());
        lemma_utf8_of_append(a, b.drop_last());
    }
}

fn push_utf8(buf: &mut Vec<u8>, c: char)
    ensures
        final(buf)@ == old(buf)@ + utf8(c),
{
    let u = c as u32;
    if u < 0x80 {
        buf.push(u as u8);
    } else if u < 0x800 {
        buf.push((0xc0 + u / 64) as u8);
        buf.push((0x80 + u % 64) as u8);
    } else if u < 0x10000 {
        buf.push((0xe0 + u / 4096) as u8);
        buf.push((0x80 + (u / 64) % 64) as u8);
        buf.push((0x80 + u % 64) as u8);
    } else {
        assert(u <= 0x10ffff);
        buf.push((0xf0 + u / 262144) as u8);
        buf.push((0x80 + (u / 4096) % 64) as u8);
        buf.push((0x80 + (u / 64) % 64) as u8);
        buf.push((0x80 + u % 64) as u8);
    }
    assert(buf@ =~= old(buf)@ + utf8(c));
}


fn push_utf8_str(buf: &mut Vec<u8>, s: &str)
    ensures
        final(buf)@ == old(buf)@ + utf8_of(s@),
{
    let n = s.unicode_len();
    let mut i: usize = 0;
    while i < n
        invariant
            n == s@.len(),
            i <= n,
            buf@ == old(buf)@ + utf8_of(s@.take(i as int)),
        decreases n - i,
    {
        let c = s.get_char(i);
        push_utf8(buf, c);
        proof {
            assert(s@.take(i + 1).drop_last() =~= s@.take(i as int));
        }
        i = i + 1;
        assert(buf@ =~= old(buf)@ + utf8_of(s@.take(i as int)));
    }
    assert(s@.take(n as int) =~= s@);
}

fn hex_byte_exec(d: u32) -> (b: u8)
    requires
        d < 16,
    ensures
        b == hex_byte(d as int),
{
    if d < 10 {
        (0x30 + d) as u8
    } else {
        (0x61 + d - 10) as u8
    }
}

fn push_escaped_char(buf: &mut Vec<u8>, c: char)
    ensures
        final(buf)@ == old(buf)@ + escape_char(c),
{
    let u = c as u32;
    if c == '"' {
        buf.push(0x5c);
        buf.push(0x22);
    } else if c == '\\' {
        buf.push(0x5c);
        buf.push(0x5c);
    } else if c == '\n' {
        buf.push(0x5c);
        buf.push(0x6e);
    } else if c == '\r' {
        buf.push(0x5c);
        buf.push(0x72);
    } else if c == '\t' {
        buf.push(0x5c);
        buf.push(0x74);
    } else if u < 0x20 {
        buf.push(0x5c);
        buf.push(0x75);
        buf.push(0x30);
        buf.push(0x30);
        buf.push(hex_byte_exec(u / 16));
        buf.push(hex_byte_exec(u % 16));
    } else {
        push_utf8(buf, c);
        return ;
    }
    assert(buf@ =~= old(buf)@ + escape_char(c));
}

fn push_string_literal(buf: &mut Vec<u8>, s: &str)
    ensures
        final(buf)@ == old(buf)@ + string_literal(s@),
{
    buf.push(0x22);
    let ghost start = buf@;
    let n = s.unicode_len();
    let mut i: usize = 0;
    while i < n
        invariant
            n == s@.len(),
            i <= n,
            buf@ == start + escaped(s@.take(i as int)),
        decreases n - i,
    {
        let c = s.get_char(i);
        push_escaped_char(buf, c);
        proof {
            assert(s@.take(i + 1).drop_last() =~= s@.take(i as int));
        }
        i = i + 1;
        assert(buf@ =~= start + escaped(s@.take(i as int)));
    }
    assert(s@.take(n as int) =~= s@);
    buf.push(0x22);
    assert(buf@ =~= old(buf)@ + string_literal(s@));
}

fn push_int(buf: &mut Vec<u8>, n: i64)
    ensures
        final(buf)@ == old(buf)@ + utf8_of(int_text(n)),
{
    if n < 0 {
        let magnitude: u64 = if n == i64::MIN {
            9_223_372_036_854_775_808
        } else {
            (-n) as u64
        };
        let digits = u64_to_decimal(magnitude);
        buf.push(0x2d);
        push_utf8_str(buf, digits.as_str());
        proof {
            lemma_utf8_of_append(seq!['-'], decimal((-n) as nat));
            assert(utf8_of(seq!['-']) =~= seq![0x2du8]) by {
                assert(seq!['-'].drop_last() =~= Seq::<char>::empty());
                assert(('-' as u32) == 0x2d);
                assert(utf8('-') =~= seq![0x2du8]);
                assert(seq!['-'].last() == '-');
                assert(utf8_of(Seq::<char>::empty()) =~= Seq::<u8>::empty());
                assert(utf8_of(seq!['-']) == utf8_of(seq!['-'].drop_last()) + utf8(seq!['-'].last()));
            }
        }
        assert(buf@ =~= old(buf)@ + utf8_of(int_text(n)));
    } else {
        let digits = u64_to_decimal(n as u64);
        push_utf8_str(buf, digits.as_str());
    }
}


fn key_le_exec(a: &str, b: &str) -> (r: bool)
    ensures
        r == key_le(a@, b@),
{
    let n = a.unicode_len();
    let m = b.unicode_len();
    let mut i: usize = 0;
    assert(a@.skip(0) =~= a@);
    assert(b@.skip(0) =~= b@);
    while i < n && i < m && (a.get_char(i) as u32) == (b.get_char(i) as u32)
        invariant
            n == a@.len(),
            m == b@.len(),
            i <= n,
            i <= m,
            key_le(a@, b@) == key_le(a@.skip(i as int), b@.skip(i as int)),
        decreases n - i,
    {
        proof {
            assert(a@.skip(i as int).skip(1) =~= a@.skip(i + 1));
            assert(b@.skip(i as int).skip(1) =~= b@.skip(i + 1));
        }
        i = i + 1;
    }
    if i == n {
        true
    } else if i == m {
        false
    } else {
        (a.get_char(i) as u32) < (b.get_char(i) as u32)
    }
}

/// The indices of `v` as integers.
pub open spec fn as_ints(v: Seq<usize>) -> Seq<int> {
    Seq::new(v.len(), |i: int| v[i] as int)
}

proof fn lemma_insert_index_elems(keys: Seq<Seq<char>>, order: Seq<int>, i: int)
    ensures
        insert_index(keys, order, i).len() == order.len() + 1,
        forall|j: int|
            0 <= j < insert_index(keys, order, i).len() ==> (#[trigger] insert_index(
                keys,
                order,
                i,
            )[j] == i || order.contains(insert_index(keys, order, i)[j])),
    decreases order.len(),
{
    if order.len() > 0 && !key_le(keys[order.last()], keys[i]) {
        lemma_insert_index_elems(keys, order.drop_last(), i);
        let r = insert_index(keys, order.drop_last(), i);
        assert forall|j: int| 0 <= j < r.push(order.last()).len() implies (#[trigger] r.push(
            order.last(),
        )[j] == i || order.contains(r.push(order.last())[j])) by {
            if j < r.len() {
                if r[j] != i {
                    let w = choose|w: int| 0 <= w < order.drop_last().len() && order.drop_last()[w] == r[j];
                    assert(order[w] == r[j]);
                }
            } else {
                assert(order[order.len() - 1] == order.last());
            }
        }
    }
}

proof fn lemma_sorted_order_in_range(keys: Seq<Seq<char>>, n: nat)
    ensures
        sorted_order(keys, n).len() == n,
        forall|j: int| 0 <= j < n ==> 0 <= #[trigger] sorted_order(keys, n)[j] < n,
    decreases n,
{
    if n > 0 {
        let prev = sorted_order(keys, (n - 1) as nat);
        lemma_sorted_order_in_range(keys, (n - 1) as nat);
        lemma_insert_index_elems(keys, prev, n - 1);
        assert forall|j: int| 0 <= j < n implies 0 <= #[trigger] sorted_order(keys, n)[j] < n by {
            let x = sorted_order(keys, n)[j];
            if x != n - 1 {
                let w = choose|w: int| 0 <= w < prev.len() && prev[w] == x;
                assert(0 <= prev[w] < n - 1);
            }
        }
    }
}

/// The stable sorted order of the entries' keys, as indices.
fn sorted_order_exec(pairs: &Vec<(String, JsonValue)>) -> (order: Vec<usize>)
    ensures
        as_ints(order@) == sorted_order(keys_of(pairs@), pairs@.len()),
{
    let n = pairs.len();
    let ghost keys = keys_of(pairs@);
    let mut order: Vec<usize> = Vec::new();
    let mut i: usize = 0;
    while i < n
        invariant
            n == pairs@.len(),
            keys == keys_of(pairs@),
            i <= n,
            as_ints(order@) == sorted_order(keys, i as nat),
        decreases n - i,
    {
        proof {
            lemma_sorted_order_in_range(keys, i as nat);
        }
        let ghost o = as_ints(order@);
        let mut j = order.len();
        assert(o.take(j as int) =~= o);
        assert(o + o.skip(j as int) =~= o);
        while j > 0 && !key_le_exec(pairs[order[j - 1]].0.as_str(), pairs[i].0.as_str())
            invariant
                n == pairs@.len(),
                keys == keys_of(pairs@),
                i < n,
                o == as_ints(order@),
                o == sorted_order(keys, i as nat),
                o.len() == i,
                forall|q: int| 0 <= q < i ==> 0 <= #[trigger] o[q] < i,
                j <= order@.len(),
                insert_index(keys, o, i as int) == insert_index(keys, o.take(j as int), i as int)
                    + o.skip(j as int),
            decreases j,
        {
            proof {
                assert(o.take(j as int).drop_last() =~= o.take(j - 1));
                assert(o.take(j as int).last() == o[j - 1]);
                assert(seq![o[j - 1]] + o.skip(j as int) =~= o.skip(j - 1));
                assert(insert_index(keys, o.take(j as int), i as int) == insert_index(
                    keys,
                    o.take(j - 1),
                    i as int,
                ).push(o[j - 1]));
                assert(insert_index(keys, o.take(j - 1), i as int).push(o[j - 1]) + o.skip(
                    j as int,
                ) =~= insert_index(keys, o.take(j - 1), i as int) + o.skip(j - 1));
            }
            j = j - 1;
        }
        proof {
            if j > 0 {
                assert(o.take(j as int).last() == o[j - 1]);
            } else {
                assert(o.take(0) =~= Seq::<int>::empty());
            }
            assert(insert_index(keys, o.take(j as int), i as int) =~= o.take(j as int).push(
                i as int,
            ));
        }
        order.insert(j, i);
        proof {
            assert(as_ints(order@) =~= o.take(j as int).push(i as int) + o.skip(j as int));
        }
        i = i + 1;
    }
    order
}


fn write_canonical(buf: &mut Vec<u8>, v: &JsonValue)
    ensures
        final(buf)@ == old(buf)@ + canonical(*v),
    decreases v,
{
    match v {
        JsonValue::Null => {
            buf.push(0x6e);
            buf.push(0x75);
            buf.push(0x6c);
            buf.push(0x6c);
            assert(buf@ =~= old(buf)@ + canonical(*v));
        },
        JsonValue::Bool(b) => {
            if *b {
                buf.push(0x74);
                buf.push(0x72);
                buf.push(0x75);
                buf.push(0x65);
            } else {
                buf.push(0x66);
                buf.push(0x61);
                buf.push(0x6c);
                buf.push(0x73);
                buf.push(0x65);
            }
            assert(buf@ =~= old(buf)@ + canonical(*v));
        },
        JsonValue::Int(n) => {
            push_int(buf, *n);
        },
        JsonValue::Float(t) => {
            push_utf8_str(buf, t.as_str());
        },
        JsonValue::Str(s) => {
            push_string_literal(buf, s.as_str());
        },
        JsonValue::Array(items) => {
            buf.push(0x5b);
            let ghost start = buf@;
            let n = items.len();
            let mut i: usize = 0;
            while i < n
                invariant
                    n == items@.len(),
                    i <= n,
                    *v == JsonValue::Array(*items),
                    buf@ == start + canonical_items(items@, i as nat),
                decreases n - i,
            {
                if i > 0 {
                    buf.push(0x2c);
                }
                let ghost before = buf@;
                proof {
                    assert(decreases_to!(*v => (*v)->Array_0));
                    assert((*v)->Array_0 == *items);
                    assert(decreases_to!(*items => items@));
                    assert(decreases_to!(items@ => items@[i as int]));
                    assert(decreases_to!(*v => items@[i as int]));
                }
                write_canonical(buf, &items[i]);
                proof {
                    if i == 0 {
                        assert(canonical_items(items@, 0) =~= Seq::<u8>::empty());
                    }
                }
                i = i + 1;
                assert(buf@ =~= start + canonical_items(items@, i as nat));
            }
            buf.push(0x5d);
            assert(buf@ =~= old(buf)@ + canonical(*v));
        },
        JsonValue::Object(pairs) => {
            let order = sorted_order_exec(pairs);
            let ghost o = as_ints(order@);
            proof {
                lemma_sorted_order_in_range(keys_of(pairs@), pairs@.len());
            }
            buf.push(0x7b);
            let ghost start = buf@;
            let n = order.len();
            let mut i: usize = 0;
            while i < n
                invariant
                    n == order@.len(),
                    n == pairs@.len(),
                    o == as_ints(order@),
                    o == sorted_order(keys_of(pairs@), pairs@.len()),
                    forall|j: int| 0 <= j < n ==> 0 <= #[trigger] o[j] < n,
                    i <= n,
                    *v == JsonValue::Object(*pairs),
                    buf@ == start + canonical_entries(pairs@, o, i as nat),
                decreases n - i,
            {
                let k = order[i];
                assert(o[i as int] == k);
                if i > 0 {
                    buf.push(0x2c);
                }
                push_string_literal(buf, pairs[k].0.as_str());
                buf.push(0x3a);
                proof {
                    assert(decreases_to!(*v => (*v)->Object_0));
                    assert((*v)->Object_0 == *pairs);
                    assert(decreases_to!(*pairs => pairs@));
                    assert(decreases_to!(pairs@ => pairs@[k as int]));
                    assert(decreases_to!(pairs@[k as int] => pairs@[k as int].1));
                    assert(decreases_to!(*v => pairs@[k as int].1));
                }
                write_canonical(buf, &pairs[k].1);
                i = i + 1;
                assert(buf@ =~= start + canonical_entries(pairs@, o, i as nat));
            }
            buf.push(0x7d);
            assert(buf@ =~= old(buf)@ + canonical(*v));
        },
    }
}

/// The canonical bytes of a value: object keys in sorted order, no white space.
pub fn canonical_json_bytes(value: &JsonValue) -> (bytes: Vec<u8>)
    ensures
        bytes@ == canonical(*value),
{
    let mut buf: Vec<u8> = Vec::new();
    write_canonical(&mut buf, value);
    assert(buf@ =~= canonical(*value));
    buf
}

/// The runtime configuration hash: the lowercase hex SHA-256 of the canonical bytes.
pub fn compute_runtime_config_hash(config: &JsonValue) -> (h: String)
    requires
        canonical(*config).len() + 128 <= usize::MAX,
    ensures
        h@ == hex_string(sha256_spec(canonical(*config))),
{
    let bytes = canonical_json_bytes(config);
    let digest = sha256(bytes.as_slice());
    hex_encode(&digest)
}


proof fn lemma_key_le_total(a: Seq<char>, b: Seq<char>)
    ensures
        key_le(a, b) || key_le(b, a),
    decreases a.len(),
{
    if a.len() > 0 && b.len() > 0 && (a[0] as u32) == (b[0] as u32) {
        lemma_key_le_total(a.skip(1), b.skip(1));
    }
}

proof fn lemma_insert_index_last(keys: Seq<Seq<char>>, order: Seq<int>, i: int)
    ensures
        insert_index(keys, order, i).last() == i || (order.len() > 0 && insert_index(
            keys,
            order,
            i,
        ).last() == order.last()),
{
}

/// Neighbouring indices of `order` have keys in order.
pub open spec fn keys_ascending(keys: Seq<Seq<char>>, order: Seq<int>) -> bool {
    forall|j: int| 0 <= j < order.len() - 1 ==> key_le(keys[#[trigger] order[j]], keys[order[j + 1]])
}

proof fn lemma_insert_index_ascending(keys: Seq<Seq<char>>, order: Seq<int>, i: int)
    requires
        keys_ascending(keys, order),
    ensures
        keys_ascending(keys, insert_index(keys, order, i)),
    decreases order.len(),
{
    if order.len() > 0 {
        let last = order.last();
        if key_le(keys[last], keys[i]) {
            let r = order.push(i);
            assert forall|j: int| 0 <= j < r.len() - 1 implies key_le(keys[#[trigger] r[j]], keys[r[j + 1]]) by {
                if j < order.len() - 1 {
                    assert(r[j] == order[j] && r[j + 1] == order[j + 1]);
                }
            }
        } else {
            let d = order.drop_last();
            assert(keys_ascending(keys, d)) by {
                assert forall|j: int| 0 <= j < d.len() - 1 implies key_le(keys[#[trigger] d[j]], keys[d[j + 1]]) by {
                    assert(d[j] == order[j] && d[j + 1] == order[j + 1]);
                }
            }
            lemma_insert_index_ascending(keys, d, i);
            let r = insert_index(keys, d, i);
            lemma_insert_index_last(keys, d, i);
            lemma_key_le_total(keys[last], keys[i]);
            lemma_insert_index_elems(keys, d, i);
            let t = r.push(last);
            assert forall|j: int| 0 <= j < t.len() - 1 implies key_le(keys[#[trigger] t[j]], keys[t[j + 1]]) by {
                if j < r.len() - 1 {
                    assert(t[j] == r[j] && t[j + 1] == r[j + 1]);
                } else {
                    assert(t[j] == r.last());
                    assert(t[j + 1] == last);
                    if r.last() != i {
                        assert(d.len() > 0 && r.last() == d.last());
                        assert(order[order.len() - 2] == d.last());
                    }
                }
            }
        }
    }
}

/// The entries of an object are written in sorted key order: the order used is a
/// permutation of the entry positions, and neighbouring keys in it are in order.
pub proof fn lemma_canonical_keys_sorted(pairs: Seq<(String, JsonValue)>)
    ensures
        ({
            let o = sorted_order(keys_of(pairs), pairs.len());
            &&& o.len() == pairs.len()
            &&& forall|j: int| 0 <= j < o.len() ==> 0 <= #[trigger] o[j] < pairs.len()
            &&& keys_ascending(keys_of(pairs), o)
        }),
{
    lemma_sorted_order_in_range(keys_of(pairs), pairs.len());
    lemma_sorted_order_ascending(keys_of(pairs), pairs.len());
}

proof fn lemma_sorted_order_ascending(keys: Seq<Seq<char>>, n: nat)
    ensures
        keys_ascending(keys, sorted_order(keys, n)),
    decreases n,
{
    if n > 0 {
        lemma_sorted_order_ascending(keys, (n - 1) as nat);
        lemma_insert_index_ascending(keys, sorted_order(keys, (n - 1) as nat), n - 1);
    }
}

} // verus!
