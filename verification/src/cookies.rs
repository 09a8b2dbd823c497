//! `Set-Cookie` header values and lookup of a cookie in a `Cookie` header.

use vstd::prelude::*;
use crate::text::{chars_of, decimal, digit_char, push_char, push_decimal};

verus! {

/// The attributes that every cookie of this service carries, up to the
/// `Max-Age` value.
pub open spec fn cookie_attributes() -> Seq<char> {
    "; Path=/; HttpOnly; Secure; SameSite=Lax; Max-Age="@
}

/// The `Set-Cookie` value that stores `value` under `name` for `max_age` seconds.
pub open spec fn set_cookie_text(name: Seq<char>, value: Seq<char>, max_age: nat) -> Seq<char> {
    name + "="@ + value + cookie_attributes() + decimal(max_age)
}

/// The `Set-Cookie` value that removes the cookie `name` from the client.
pub open spec fn clear_cookie_text(name: Seq<char>) -> Seq<char> {
    name + "=; Path=/; HttpOnly; Secure; SameSite=Lax; Max-Age=0"@
}

/// Builds the `Set-Cookie` value `name=value; Path=/; HttpOnly; Secure;
/// SameSite=Lax; Max-Age=max_age`.
pub fn cookie_set(name: &str, value: &str, max_age: u64) -> (r: String)
    ensures
        r@ == set_cookie_text(name@, value@, max_age as nat),
{
    let mut r = name.to_owned();
    r.append("=");
    r.append(value);
    r.append("; Path=/; HttpOnly; Secure; SameSite=Lax; Max-Age=");
    push_decimal(&mut r, max_age);
    r
}

/// Builds the `Set-Cookie` value that expires the cookie `name` at once.
pub fn cookie_clear(name: &str) -> (r: String)
    ensures
        r@ == clear_cookie_text(name@),
{
    let mut r = name.to_owned();
    r.append("=; Path=/; HttpOnly; Secure; SameSite=Lax; Max-Age=0");
    r
}

/// Unicode `White_Space`, the set of characters that `char::is_whitespace`
/// accepts and that `str::trim` removes.
pub open spec fn is_whitespace(c: char) -> bool {
    let u = c as u32;
    ||| 9 <= u <= 13
    ||| u == 32
    ||| u == 0x85
    ||| u == 0xA0
    ||| u == 0x1680
    ||| 0x2000 <= u <= 0x200A
    ||| u == 0x2028
    ||| u == 0x2029
    ||| u == 0x202F
    ||| u == 0x205F
    ||| u == 0x3000
}

/// `s` without its leading whitespace.
pub open spec fn trim_start(s: Seq<char>) -> Seq<char>
    decreases s.len(),
{
    if s.len() > 0 && is_whitespace(s[0]) {
        trim_start(s.drop_first())
    } else {
        s
    }
}

/// `s` without its trailing whitespace.
pub open spec fn trim_end(s: Seq<char>) -> Seq<char>
    decreases s.len(),
{
    if s.len() > 0 && is_whitespace(s.last()) {
        trim_end(s.drop_last())
    } else {
        s
    }
}

/// `s` without leading and trailing whitespace (`str::trim`).
pub open spec fn trim(s: Seq<char>) -> Seq<char> {
    trim_end(trim_start(s))
}

/// The position of the first `c` in `s`, or `s.len()` where there is none.
pub open spec fn find_char(s: Seq<char>, c: char) -> nat
    decreases s.len(),
{
    if s.len() == 0 {
        0
    } else if s[0] == c {
        0
    } else {
        1 + find_char(s.drop_first(), c)
    }
}

/// Whether `s` begins with `p`.
pub open spec fn has_prefix(s: Seq<char>, p: Seq<char>) -> bool {
    p.len() <= s.len() && s.take(p.len() as int) == p
}

/// The value of the cookie `name` in the `Cookie` header text `header`: the
/// header is cut at each `;`; the first piece that, once trimmed, begins with
/// `name=` gives its text after the first `=`.
pub open spec fn cookie_value(header: Seq<char>, name: Seq<char>) -> Option<Seq<char>>
    decreases header.len(),
{
    let end = find_char(header, ';');
    let piece = trim(header.take(end as int));
    if has_prefix(piece, name.push('=')) {
        Some(piece.skip(find_char(piece, '=') + 1 as int))
    } else if end >= header.len() {
        None
    } else {
        cookie_value(header.skip(end + 1 as int), name)
    }
}

proof fn lemma_find_char(s: Seq<char>, c: char, j: int)
    requires
        0 <= j <= s.len(),
        forall|k: int| 0 <= k < j ==> s[k] != c,
        j == s.len() || s[j] == c,
    ensures
        find_char(s, c) == j,
    decreases j,
{
    if j > 0 {
        lemma_find_char(s.drop_first(), c, j - 1);
    }
}

proof fn lemma_trim_start(s: Seq<char>, a: int)
    requires
        0 <= a <= s.len(),
        forall|k: int| 0 <= k < a ==> is_whitespace(s[k]),
        a == s.len() || !is_whitespace(s[a]),
    ensures
        trim_start(s) == s.skip(a),
    decreases a,
{
    if a > 0 {
        lemma_trim_start(s.drop_first(), a - 1);
        assert(s.drop_first().skip(a - 1) =~= s.skip(a));
    } else {
        assert(s.skip(0) =~= s);
    }
}

proof fn lemma_trim_end(s: Seq<char>, b: int)
    requires
        0 <= b <= s.len(),
        forall|k: int| b <= k < s.len() ==> is_whitespace(s[k]),
        b == 0 || !is_whitespace(s[b - 1]),
    ensures
        trim_end(s) == s.take(b),
    decreases s.len() - b,
{
    if b < s.len() {
        lemma_trim_end(s.drop_last(), b);
        assert(s.drop_last().take(b) =~= s.take(b));
    } else {
        assert(s.take(b) =~= s);
    }
}

/// `char::is_whitespace`.
fn whitespace(c: char) -> (r: bool)
    ensures
        r == is_whitespace(c),
{
    let u = c as u32;
    (9 <= u && u <= 13) || u == 32 || u == 0x85 || u == 0xA0 || u == 0x1680 || (0x2000 <= u && u
        <= 0x200A) || u == 0x2028 || u == 0x2029 || u == 0x202F || u == 0x205F || u == 0x3000
}

/// Whether `h[a..b]` begins with `key` followed by `=`.
fn piece_has_key(h: &Vec<char>, a: usize, b: usize, key: &Vec<char>) -> (r: bool)
    requires
        a <= b <= h@.len(),
    ensures
        r == has_prefix(h@.subrange(a as int, b as int), key@.push('=')),
{
    let klen = key.len();
    if b - a <= klen {
        return false;
    }
    if h[a + klen] != '=' {
        assert(h@.subrange(a as int, b as int).take(klen + 1)[klen as int] != key@.push('=')[klen as int]);
        return false;
    }
    let mut m: usize = 0;
    while m < klen
        invariant
            m <= klen,
            klen == key@.len(),
            a + klen < b <= h@.len(),
            h@[a + klen] == '=',
            forall|q: int| 0 <= q < m ==> h@[a + q] == key@[q],
        decreases klen - m,
    {
        if h[a + m] != key[m] {
            assert(h@.subrange(a as int, b as int).take(klen + 1)[m as int] != key@.push('=')[m as int]);
            return false;
        }
        m = m + 1;
    }
    assert(h@.subrange(a as int, b as int).take(klen + 1) =~= key@.push('='));
    true
}

/// The bounds of the piece of `h` that starts at `i`: it ends at `j` (the
/// next `;` or the end), and `h[a..b]` is that piece trimmed.
fn piece_bounds(h: &Vec<char>, i: usize) -> (r: (usize, usize, usize))
    requires
        i <= h@.len(),
    ensures
        i <= r.1 <= r.2 <= r.0 <= h@.len(),
        find_char(h@.skip(i as int), ';') == r.0 - i,
        trim(h@.skip(i as int).take(r.0 - i)) == h@.subrange(r.1 as int, r.2 as int),
{
    let n = h.len();
    let ghost t = h@.skip(i as int);
    let mut j: usize = i;
    while j < n && h[j] != ';'
        invariant
            i <= j <= n,
            n == h@.len(),
            forall|k: int| i <= k < j ==> h@[k] != ';',
        decreases n - j,
    {
        j = j + 1;
    }
    proof {
        lemma_find_char(t, ';', j - i);
        assert(t.take(j - i) =~= h@.subrange(i as int, j as int));
    }
    let mut a: usize = i;
    while a < j && whitespace(h[a])
        invariant
            i <= a <= j <= n,
            n == h@.len(),
            forall|k: int| i <= k < a ==> is_whitespace(h@[k]),
        decreases j - a,
    {
        a = a + 1;
    }
    proof {
        lemma_trim_start(h@.subrange(i as int, j as int), a - i);
        assert(h@.subrange(i as int, j as int).skip(a - i) =~= h@.subrange(a as int, j as int));
    }
    let mut b: usize = j;
    while b > a && whitespace(h[b - 1])
        invariant
            i <= a <= b <= j <= n,
            n == h@.len(),
            forall|k: int| b <= k < j ==> is_whitespace(h@[k]),
        decreases b - a,
    {
        b = b - 1;
    }
    proof {
        lemma_trim_end(h@.subrange(a as int, j as int), b - a);
        assert(h@.subrange(a as int, j as int).take(b - a) =~= h@.subrange(a as int, b as int));
    }
    (j, a, b)
}

/// The text of the piece `h[a..b]` after its first `=`, where the piece
/// begins with `key=`.
fn text_after_eq(h: &Vec<char>, a: usize, b: usize, key: &Vec<char>) -> (s: String)
    requires
        a <= b <= h@.len(),
        has_prefix(h@.subrange(a as int, b as int), key@.push('=')),
    ensures
        ({
            let piece = h@.subrange(a as int, b as int);
            s@ == piece.skip(find_char(piece, '=') + 1 as int)
        }),
{
    let ghost piece = h@.subrange(a as int, b as int);
    let n = h.len();
    let klen = key.len();
    assert(piece.take(klen + 1)[klen as int] == key@.push('=')[klen as int]);
    let mut e: usize = a;
    while e < b && h[e] != '='
        invariant
            a <= e <= a + klen < b <= n,
            n == h@.len(),
            h@[a + klen] == '=',
            forall|k: int| a <= k < e ==> h@[k] != '=',
        decreases b - e,
    {
        e = e + 1;
    }
    proof {
        lemma_find_char(piece, '=', e - a);
    }
    let mut s = String::new();
    let mut k: usize = e + 1;
    while k < b
        invariant
            e + 1 <= k <= b <= n,
            n == h@.len(),
            s@ == h@.subrange(e + 1, k as int),
        decreases b - k,
    {
        push_char(&mut s, h[k]);
        k = k + 1;
        assert(s@ =~= h@.subrange(e + 1, k as int));
    }
    assert(piece.skip(e - a + 1) =~= h@.subrange(e + 1, b as int));
    s
}

/// The first cookie named `key` in the header characters `h`.
fn lookup_cookie(h: &Vec<char>, key: &Vec<char>) -> (r: Option<String>)
    ensures
        match cookie_value(h@, key@) {
            None => (r is None),
            Some(v) => r matches Some(s) && s@ == v,
        },
{
    let n = h.len();
    let mut i: usize = 0;
    assert(h@.skip(0) =~= h@);
    loop
        invariant
            i <= n,
            n == h@.len(),
            cookie_value(h@, key@) == cookie_value(h@.skip(i as int), key@),
        decreases n - i,
    {
        let (j, a, b) = piece_bounds(h, i);
        if piece_has_key(h, a, b, key) {
            return Some(text_after_eq(h, a, b, key));
        }
        if j >= n {
            return None;
        }
        assert(h@.skip(i as int).skip(j - i + 1) =~= h@.skip(j + 1));
        i = j + 1;
    }
}

/// The value of the cookie `name` in the `Cookie` header text `raw`, where
/// there is a header.
pub fn extract_cookie(raw: Option<&str>, name: &str) -> (r: Option<String>)
    ensures
        match raw {
            None => (r is None),
            Some(h) => match cookie_value(h@, name@) {
                None => (r is None),
                Some(v) => r matches Some(s) && s@ == v,
            },
        },
{
    match raw {
        None => None,
        Some(h) => {
            let hv = chars_of(h);
            let key = chars_of(name);
            lookup_cookie(&hv, &key)
        },
    }
}


/// A cookie name that `extract_cookie` can find again: no `;` or `=` in it,
/// and no whitespace in front.
pub open spec fn is_plain_cookie_name(name: Seq<char>) -> bool {
    &&& forall|k: int| 0 <= k < name.len() ==> name[k] != ';' && name[k] != '='
    &&& name.len() == 0 || !is_whitespace(name[0])
}

/// A cookie value that `extract_cookie` gives back unchanged: no `;` in it,
/// and no whitespace at its end.
pub open spec fn is_plain_cookie_value(value: Seq<char>) -> bool {
    &&& forall|k: int| 0 <= k < value.len() ==> value[k] != ';'
    &&& value.len() == 0 || !is_whitespace(value.last())
}

/// The first piece of a header `pre + name=value + rest`, where `pre` is
/// whitespace and `rest` is empty or starts with `;`, ends after the value
/// and trims to `name=value`.
proof fn lemma_first_piece(pre: Seq<char>, name: Seq<char>, value: Seq<char>, rest: Seq<char>)
    requires
        forall|k: int| 0 <= k < pre.len() ==> is_whitespace(pre[k]),
        is_plain_cookie_name(name),
        is_plain_cookie_value(value),
        rest.len() == 0 || rest[0] == ';',
    ensures
        ({
            let h = pre + name + "="@ + value + rest;
            let end = find_char(h, ';');
            &&& end == pre.len() + name.len() + 1 + value.len()
            &&& trim(h.take(end as int)) == name + "="@ + value
        }),
{
    reveal_strlit("=");
    let seg = name + "="@ + value;
    let raw = pre + seg;
    let h = raw + rest;
    assert(h =~= pre + name + "="@ + value + rest);
    let e = raw.len() as int;
    assert forall|k: int| 0 <= k < e implies h[k] != ';' by {
        if k < pre.len() {
            assert(h[k] == pre[k]);
            assert(is_whitespace(pre[k]));
        } else if k < pre.len() + name.len() {
            assert(h[k] == name[k - pre.len()]);
        } else if k > pre.len() + name.len() {
            assert(h[k] == value[k - pre.len() - name.len() - 1]);
        }
    }
    lemma_find_char(h, ';', e);
    assert(h.take(e) =~= raw);
    assert forall|k: int| 0 <= k < pre.len() implies is_whitespace(raw[k]) by {
        assert(raw[k] == pre[k]);
    }
    assert(raw[pre.len() as int] == seg[0]);
    lemma_trim_start(raw, pre.len() as int);
    assert(raw.skip(pre.len() as int) =~= seg);
    lemma_trim_end(seg, seg.len() as int);
    assert(seg.take(seg.len() as int) =~= seg);
}

/// Where the trimmed piece is `name=value`, the lookup of `name` gives `value`.
proof fn lemma_piece_matches(name: Seq<char>, value: Seq<char>)
    requires
        is_plain_cookie_name(name),
    ensures
        has_prefix(name + "="@ + value, name.push('=')),
        (name + "="@ + value).skip(find_char(name + "="@ + value, '=') + 1 as int) == value,
{
    reveal_strlit("=");
    let seg = name + "="@ + value;
    assert(seg.take(name.len() + 1 as int) =~= name.push('='));
    assert forall|k: int| 0 <= k < name.len() implies seg[k] != '=' by {
        assert(seg[k] == name[k]);
    }
    lemma_find_char(seg, '=', name.len() as int);
    assert(seg.skip(name.len() + 1 as int) =~= value);
}

/// Where the trimmed piece is `other=value` for another plain name, the
/// lookup of `name` passes it over.
proof fn lemma_piece_differs(other: Seq<char>, value: Seq<char>, name: Seq<char>)
    requires
        is_plain_cookie_name(other),
        is_plain_cookie_name(name),
        other != name,
    ensures
        !has_prefix(other + "="@ + value, name.push('=')),
{
    reveal_strlit("=");
    let seg = other + "="@ + value;
    let key = name.push('=');
    if has_prefix(seg, key) {
        let t = seg.take(key.len() as int);
        if name.len() < other.len() {
            assert(t[name.len() as int] == key[name.len() as int]);
            assert(seg[name.len() as int] == other[name.len() as int]);
        } else if name.len() > other.len() {
            assert(t[other.len() as int] == key[other.len() as int]);
            assert(key[other.len() as int] == name[other.len() as int]);
        } else {
            assert forall|k: int| 0 <= k < name.len() implies other[k] == name[k] by {
                assert(t[k] == key[k]);
                assert(seg[k] == other[k]);
            }
            assert(other =~= name);
        }
    }
}

/// A header that begins with `name=value`, where whatever follows starts a
/// new piece with `;`, gives back `value` for `name`.
pub proof fn lemma_cookie_read_back(name: Seq<char>, value: Seq<char>, rest: Seq<char>)
    requires
        is_plain_cookie_name(name),
        is_plain_cookie_value(value),
        rest.len() == 0 || rest[0] == ';',
    ensures
        cookie_value(name + "="@ + value + rest, name) == Some(value),
{
    let pre = Seq::<char>::empty();
    lemma_first_piece(pre, name, value, rest);
    assert(pre + name + "="@ + value + rest =~= name + "="@ + value + rest);
    lemma_piece_matches(name, value);
}

/// A header `first=v1; second=v2` followed by further pieces, as a client
/// sends two cookies, gives back each value for its own name.
pub proof fn lemma_two_cookies_read_back(
    first: Seq<char>,
    v1: Seq<char>,
    second: Seq<char>,
    v2: Seq<char>,
    rest: Seq<char>,
)
    requires
        is_plain_cookie_name(first),
        is_plain_cookie_name(second),
        first != second,
        is_plain_cookie_value(v1),
        is_plain_cookie_value(v2),
        rest.len() == 0 || rest[0] == ';',
    ensures
        ({
            let h = first + "="@ + v1 + "; "@ + second + "="@ + v2 + rest;
            &&& cookie_value(h, first) == Some(v1)
            &&& cookie_value(h, second) == Some(v2)
        }),
{
    reveal_strlit("; ");
    reveal_strlit("=");
    let tail = seq![' '] + second + "="@ + v2 + rest;
    let after = seq![';'] + tail;
    let h = first + "="@ + v1 + "; "@ + second + "="@ + v2 + rest;
    assert(h =~= first + "="@ + v1 + after);
    lemma_cookie_read_back(first, v1, after);
    let pre = Seq::<char>::empty();
    lemma_first_piece(pre, first, v1, after);
    assert(pre + first + "="@ + v1 + after =~= h);
    lemma_piece_differs(first, v1, second);
    let end = find_char(h, ';');
    assert(h.skip(end + 1 as int) =~= tail);
    assert(is_whitespace(' '));
    lemma_first_piece(seq![' '], second, v2, rest);
    assert(seq![' '] + second + "="@ + v2 + rest =~= tail);
    lemma_piece_matches(second, v2);
    assert(cookie_value(tail, second) == Some(v2));
}

/// The cookie that `cookie_set` stores is what a later lookup of that name
/// in the same text finds.
pub proof fn lemma_set_cookie_read_back(name: Seq<char>, value: Seq<char>, max_age: nat)
    requires
        is_plain_cookie_name(name),
        is_plain_cookie_value(value),
    ensures
        cookie_value(set_cookie_text(name, value, max_age), name) == Some(value),
{
    reveal_strlit("; Path=/; HttpOnly; Secure; SameSite=Lax; Max-Age=");
    let rest = cookie_attributes() + decimal(max_age);
    assert(set_cookie_text(name, value, max_age) =~= name + "="@ + value + rest);
    lemma_cookie_read_back(name, value, rest);
}

/// Clearing a cookie is storing the empty value with a lifetime of zero.
pub proof fn lemma_clear_is_empty_set(name: Seq<char>)
    ensures
        clear_cookie_text(name) == set_cookie_text(name, Seq::empty(), 0),
{
    reveal_strlit("=; Path=/; HttpOnly; Secure; SameSite=Lax; Max-Age=0");
    reveal_strlit("; Path=/; HttpOnly; Secure; SameSite=Lax; Max-Age=");
    reveal_strlit("=");
    assert(decimal(0) == seq!['0']);
    assert(clear_cookie_text(name) =~= set_cookie_text(name, Seq::empty(), 0));
}


/// A character that may stand in an HTTP header value: any character from
/// the space on except DEL, and the tab.
pub open spec fn is_header_value_char(c: char) -> bool {
    (c as u32 >= 32 && c as u32 != 127) || c as u32 == 9
}

/// A text that is a valid HTTP header value (`HeaderValue::from_str` accepts
/// exactly these).
pub open spec fn is_header_value_text(s: Seq<char>) -> bool {
    forall|i: int| 0 <= i < s.len() ==> is_header_value_char(#[trigger] s[i])
}

proof fn lemma_header_value_concat(a: Seq<char>, b: Seq<char>)
    requires
        is_header_value_text(a),
        is_header_value_text(b),
    ensures
        is_header_value_text(a + b),
{
    assert forall|i: int| 0 <= i < (a + b).len() implies is_header_value_char(#[trigger] (a + b)[i]) by {
        if i < a.len() {
            assert((a + b)[i] == a[i]);
        } else {
            assert((a + b)[i] == b[i - a.len()]);
        }
    }
}

proof fn lemma_decimal_header_value(n: nat)
    ensures
        is_header_value_text(decimal(n)),
    decreases n,
{
    if n >= 10 {
        lemma_decimal_header_value(n / 10);
        lemma_header_value_concat(decimal(n / 10), seq![digit_char(n % 10)]);
        assert(decimal(n) =~= decimal(n / 10) + seq![digit_char(n % 10)]);
    }
}

/// A `Set-Cookie` value made of a name and a value that may stand in a
/// header may itself stand in a header.
pub proof fn lemma_set_cookie_is_header_value(name: Seq<char>, value: Seq<char>, max_age: nat)
    requires
        is_header_value_text(name),
        is_header_value_text(value),
    ensures
        is_header_value_text(set_cookie_text(name, value, max_age)),
{
    reveal_strlit("=");
    reveal_strlit("; Path=/; HttpOnly; Secure; SameSite=Lax; Max-Age=");
    let attrs = cookie_attributes();
    assert forall|i: int| 0 <= i < attrs.len() implies is_header_value_char(#[trigger] attrs[i]) by {}
    lemma_decimal_header_value(max_age);
    lemma_header_value_concat(name, "="@);
    lemma_header_value_concat(name + "="@, value);
    lemma_header_value_concat(name + "="@ + value, attrs);
    lemma_header_value_concat(name + "="@ + value + attrs, decimal(max_age));
}

/// A clearing `Set-Cookie` value for a name that may stand in a header may
/// itself stand in a header.
pub proof fn lemma_clear_cookie_is_header_value(name: Seq<char>)
    requires
        is_header_value_text(name),
    ensures
        is_header_value_text(clear_cookie_text(name)),
{
    lemma_clear_is_empty_set(name);
    lemma_set_cookie_is_header_value(name, Seq::empty(), 0);
}


/// A piece of the header that does not hold the cookie is passed over: the
/// lookup goes on in the text after its `;`, however many pieces follow.
pub proof fn lemma_lookup_passes_other_piece(header: Seq<char>, name: Seq<char>)
    requires
        find_char(header, ';') < header.len(),
        !has_prefix(trim(header.take(find_char(header, ';') as int)), name.push('=')),
    ensures
        cookie_value(header, name) == cookie_value(header.skip(find_char(header, ';') + 1 as int), name),
{
}

/// The `Cookie` header text that sends the given name-value pairs in order,
/// separated by `; `.
pub open spec fn cookie_pairs_text(pairs: Seq<(Seq<char>, Seq<char>)>) -> Seq<char>
    decreases pairs.len(),
{
    if pairs.len() == 0 {
        Seq::empty()
    } else if pairs.len() == 1 {
        pairs[0].0 + "="@ + pairs[0].1
    } else {
        pairs[0].0 + "="@ + pairs[0].1 + "; "@ + cookie_pairs_text(pairs.drop_first())
    }
}

/// Pairs of plain names, pairwise different, and plain values.
pub open spec fn plain_distinct_pairs(pairs: Seq<(Seq<char>, Seq<char>)>) -> bool {
    &&& forall|k: int|
        0 <= k < pairs.len() ==> is_plain_cookie_name(#[trigger] pairs[k].0) && is_plain_cookie_value(
            pairs[k].1,
        )
    &&& forall|j: int, k: int| 0 <= j < pairs.len() && 0 <= k < pairs.len() && j != k ==> pairs[j].0 != pairs[k].0
}

proof fn lemma_pairs_read_back_after(pre: Seq<char>, pairs: Seq<(Seq<char>, Seq<char>)>, i: int)
    requires
        forall|k: int| 0 <= k < pre.len() ==> is_whitespace(pre[k]),
        plain_distinct_pairs(pairs),
        0 <= i < pairs.len(),
    ensures
        cookie_value(pre + cookie_pairs_text(pairs), pairs[i].0) == Some(pairs[i].1),
    decreases pairs.len(),
{
    reveal_strlit("; ");
    reveal_strlit("=");
    let n0 = pairs[0].0;
    let v0 = pairs[0].1;
    assert(is_plain_cookie_name(pairs[0].0));
    let rest = if pairs.len() == 1 {
        Seq::<char>::empty()
    } else {
        "; "@ + cookie_pairs_text(pairs.drop_first())
    };
    let h = pre + cookie_pairs_text(pairs);
    assert(h =~= pre + n0 + "="@ + v0 + rest);
    lemma_first_piece(pre, n0, v0, rest);
    if i == 0 {
        lemma_piece_matches(n0, v0);
    } else {
        let tail = pairs.drop_first();
        assert(is_plain_cookie_name(pairs[i].0));
        assert(pairs[0].0 != pairs[i].0);
        lemma_piece_differs(n0, v0, pairs[i].0);
        let end = find_char(h, ';');
        assert(h.skip(end + 1 as int) =~= seq![' '] + cookie_pairs_text(tail));
        assert forall|k: int| 0 <= k < tail.len() implies is_plain_cookie_name(#[trigger] tail[k].0)
            && is_plain_cookie_value(tail[k].1) by {
            assert(tail[k] == pairs[k + 1]);
        }
        assert forall|j: int, k: int|
            0 <= j < tail.len() && 0 <= k < tail.len() && j != k implies tail[j].0 != tail[k].0 by {
            assert(tail[j] == pairs[j + 1]);
            assert(tail[k] == pairs[k + 1]);
        }
        assert(is_whitespace(' '));
        lemma_pairs_read_back_after(seq![' '], tail, i - 1);
        assert(tail[i - 1] == pairs[i]);
    }
}

/// In a header that sends any number of cookies `n1=v1; ...; nk=vk` with
/// plain, pairwise different names and plain values, looking up each name
/// gives its own value, wherever in the header it stands.
pub proof fn lemma_cookie_pairs_read_back(pairs: Seq<(Seq<char>, Seq<char>)>, i: int)
    requires
        plain_distinct_pairs(pairs),
        0 <= i < pairs.len(),
    ensures
        cookie_value(cookie_pairs_text(pairs), pairs[i].0) == Some(pairs[i].1),
{
    lemma_pairs_read_back_after(Seq::empty(), pairs, i);
    assert(Seq::<char>::empty() + cookie_pairs_text(pairs) =~= cookie_pairs_text(pairs));
}

} // verus!
