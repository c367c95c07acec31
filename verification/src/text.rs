//! Character-level helpers on strings: whitespace, trimming, prefixes,
//! path segments, shortened previews and hexadecimal digests.
use vstd::prelude::*;
use vstd::string::*;
use vstd::utf8::*;

verus! {

/// The Unicode `White_Space` property, which is what `char::is_whitespace` tests.
pub open spec fn is_ws(c: char) -> bool {
    let u = c as u32;
    ||| 0x09 <= u <= 0x0D
    ||| u == 0x20
    ||| u == 0x85
    ||| u == 0xA0
    ||| u == 0x1680
    ||| 0x2000 <= u <= 0x200A
    ||| u == 0x2028
    ||| u == 0x2029
    ||| u == 0x202F
    ||| u == 0x205F
    ||| u == 0x3000
}

/// Whether `c` is a whitespace character.
pub fn is_whitespace(c: char) -> (r: bool)
    ensures
        r == is_ws(c),
{
    let u = c as u32;
    (0x09 <= u && u <= 0x0D) || u == 0x20 || u == 0x85 || u == 0xA0 || u == 0x1680 || (0x2000
        <= u && u <= 0x200A) || u == 0x2028 || u == 0x2029 || u == 0x202F || u == 0x205F || u
        == 0x3000
}

/// Appends one character at the end of a `String` (`String::push`).
#[verifier::external_body]
pub(crate) fn push_char(s: &mut String, c: char)
    ensures
        final(s)@ == old(s)@.push(c),
{
    s.push(c);
}

/// The characters of a string slice, collected into a vector.
pub fn chars_of(s: &str) -> (r: Vec<char>)
    ensures
        r@ == s@,
{
    let mut r: Vec<char> = Vec::new();
    for c in it: s.chars()
        invariant
            r@ == it.seq().take(it.index() as int),
    {
        r.push(c);
    }
    proof {
        broadcast use vstd::string::group_string_axioms;

    }
    assert(r@ == s@);
    r
}

/// A new `String` holding the characters `v[start..end]`.
pub fn string_of(v: &Vec<char>, start: usize, end: usize) -> (r: String)
    requires
        start <= end <= v@.len(),
    ensures
        r@ == v@.subrange(start as int, end as int),
{
    let mut r = String::new();
    let mut i = start;
    while i < end
        invariant
            start <= i <= end <= v@.len(),
            r@ == v@.subrange(start as int, i as int),
        decreases end - i,
    {
        push_char(&mut r, v[i]);
        assert(v@.subrange(start as int, i + 1) == v@.subrange(start as int, i as int).push(v@[i as int]));
        i = i + 1;
    }
    r
}

/// Whether the characters `v[start..end]` are exactly those of `lit`.
pub fn range_equals(v: &Vec<char>, start: usize, end: usize, lit: &str) -> (r: bool)
    requires
        start <= end <= v@.len(),
    ensures
        r == (v@.subrange(start as int, end as int) == lit@),
{
    let n = lit.unicode_len();
    if end - start != n {
        return false;
    }
    let mut i: usize = 0;
    while i < n
        invariant
            start <= end <= v@.len(),
            end - start == n,
            n == lit@.len(),
            i <= n,
            forall|j: int| 0 <= j < i ==> v@[start + j] == lit@[j],
        decreases n - i,
    {
        if v[start + i] != lit.get_char(i) {
            assert(v@.subrange(start as int, end as int)[i as int] != lit@[i as int]);
            return false;
        }
        i = i + 1;
    }
    assert(v@.subrange(start as int, end as int) =~= lit@);
    true
}

/// `p` is a prefix of `s`.
pub open spec fn has_prefix(s: Seq<char>, p: Seq<char>) -> bool {
    p.len() <= s.len() && s.subrange(0, p.len() as int) == p
}

/// Whether `s` starts with `prefix`.
pub fn starts_with(s: &str, prefix: &str) -> (r: bool)
    ensures
        r == has_prefix(s@, prefix@),
{
    let v = chars_of(s);
    let n = prefix.unicode_len();
    if n > v.len() {
        return false;
    }
    range_equals(&v, 0, n, prefix)
}

/// Every character of `s` is whitespace (so `s.trim()` is empty).
pub open spec fn is_blank(s: Seq<char>) -> bool {
    forall|i: int| 0 <= i < s.len() ==> is_ws(#[trigger] s[i])
}

/// Whether `s` holds nothing but whitespace.
pub fn blank(s: &str) -> (r: bool)
    ensures
        r == is_blank(s@),
{
    let v = chars_of(s);
    let mut i: usize = 0;
    while i < v.len()
        invariant
            i <= v@.len(),
            v@ == s@,
            forall|j: int| 0 <= j < i ==> is_ws(#[trigger] v@[j]),
        decreases v.len() - i,
    {
        if !is_whitespace(v[i]) {
            return false;
        }
        i = i + 1;
    }
    true
}

/// `s` without its leading whitespace (`str::trim_start`).
pub open spec fn trim_start(s: Seq<char>) -> Seq<char>
    decreases s.len(),
{
    if s.len() > 0 && is_ws(s[0]) {
        trim_start(s.drop_first())
    } else {
        s
    }
}

/// `s` without its trailing whitespace (`str::trim_end`).
pub open spec fn trim_end(s: Seq<char>) -> Seq<char>
    decreases s.len(),
{
    if s.len() > 0 && is_ws(s.last()) {
        trim_end(s.drop_last())
    } else {
        s
    }
}

/// `s` without leading and trailing whitespace (`str::trim`).
pub open spec fn trim(s: Seq<char>) -> Seq<char> {
    trim_end(trim_start(s))
}

/// The string `s` with leading and trailing whitespace removed.
pub fn trimmed(s: &str) -> (r: String)
    ensures
        r@ == trim(s@),
{
    let v = chars_of(s);
    let n = v.len();
    let mut i: usize = 0;
    assert(v@.subrange(0, n as int) =~= v@);
    while i < n && is_whitespace(v[i])
        invariant
            i <= n == v@.len(),
            trim_start(v@) == trim_start(v@.subrange(i as int, n as int)),
        decreases n - i,
    {
        assert(v@.subrange(i as int, n as int).drop_first() =~= v@.subrange(i + 1, n as int));
        i = i + 1;
    }
    assert(trim_start(v@) == v@.subrange(i as int, n as int));
    let mut j: usize = n;
    while j > i && is_whitespace(v[j - 1])
        invariant
            i <= j <= n == v@.len(),
            trim(v@) == trim_end(v@.subrange(i as int, j as int)),
        decreases j,
    {
        assert(v@.subrange(i as int, j as int).drop_last() =~= v@.subrange(i as int, j - 1));
        j = j - 1;
    }
    string_of(&v, i, j)
}

/// The characters after the last `'/'` of `s`, or all of `s` when it holds none
/// (the last item of `s.split('/')`).
pub open spec fn last_segment(s: Seq<char>) -> Seq<char>
    decreases s.len(),
{
    if s.len() == 0 {
        s
    } else if s.last() == '/' {
        Seq::empty()
    } else {
        last_segment(s.drop_last()).push(s.last())
    }
}

/// The last `'/'`-separated segment of `s`.
pub fn last_path_segment(s: &str) -> (r: String)
    ensures
        r@ == last_segment(s@),
{
    let v = chars_of(s);
    let n = v.len();
    let mut j: usize = n;
    assert(v@.subrange(n as int, n as int) =~= Seq::<char>::empty());
    assert(v@.subrange(0, n as int) =~= v@);
    while j > 0 && v[j - 1] != '/'
        invariant
            j <= n == v@.len(),
            last_segment(v@) == last_segment(v@.subrange(0, j as int)) + v@.subrange(
                j as int,
                n as int,
            ),
        decreases j,
    {
        let ghost pre = v@.subrange(0, j as int);
        assert(pre.drop_last() =~= v@.subrange(0, j - 1));
        assert(v@.subrange(j - 1, n as int) =~= seq![v@[j - 1]] + v@.subrange(j as int, n as int));
        assert(last_segment(pre) == last_segment(pre.drop_last()).push(pre.last()));
        assert(last_segment(v@.subrange(0, j - 1)).push(v@[j - 1]) + v@.subrange(j as int, n as int)
            =~= last_segment(v@.subrange(0, j - 1)) + v@.subrange(j - 1, n as int));
        j = j - 1;
    }
    assert(last_segment(v@.subrange(0, j as int)) =~= Seq::<char>::empty());
    assert(last_segment(v@) =~= v@.subrange(j as int, n as int));
    string_of(&v, j, n)
}

/// The number of bytes that UTF-8 takes for `s` (what `str::len` reports).
pub open spec fn byte_len(s: Seq<char>) -> nat {
    encode_utf8(s).len()
}

/// A preview of `s`: when it takes more than `max_bytes` bytes, its first
/// `keep` characters (or all of them, if it has fewer) followed by `"..."`;
/// otherwise `s` itself.
pub open spec fn shortened(s: Seq<char>, max_bytes: nat, keep: nat) -> Seq<char> {
    if byte_len(s) > max_bytes {
        s.take(if keep <= s.len() {
            keep as int
        } else {
            s.len() as int
        }) + "..."@
    } else {
        s
    }
}

/// A shortened preview of `s`, as `shortened` describes.
pub fn shorten(s: &str, max_bytes: usize, keep: usize) -> (r: String)
    ensures
        r@ == shortened(s@, max_bytes as nat, keep as nat),
{
    if s.as_bytes().len() > max_bytes {
        let v = chars_of(s);
        let k = if keep <= v.len() {
            keep
        } else {
            v.len()
        };
        let mut r = string_of(&v, 0, k);
        r.append("...");
        assert(v@.subrange(0, k as int) == v@.take(k as int));
        r
    } else {
        s.to_owned()
    }
}

/// How many leading characters of `s` fit, whole, in `n` bytes of UTF-8.
pub open spec fn chars_within_bytes(s: Seq<char>, n: int) -> nat
    decreases s.len(),
{
    if s.len() == 0 {
        0
    } else if encode_scalar(s[0] as u32).len() <= n {
        1 + chars_within_bytes(s.drop_first(), n - encode_scalar(s[0] as u32).len())
    } else {
        0
    }
}

/// The first `n` bytes of the UTF-8 encoding of `s` end on a character
/// boundary, so that `&s[..n]` is a string.
pub open spec fn is_boundary_at(s: Seq<char>, n: int) -> bool {
    chars_within_bytes(s, n) <= s.len() && byte_len(s.take(chars_within_bytes(s, n) as int)) == n
}

/// The characters of `s` split its UTF-8 bytes at byte `n` exactly when `n` is a
/// character boundary of those bytes (what `str::is_char_boundary` tests).
pub proof fn lemma_boundary_at_iff_char_boundary(s: Seq<char>, n: int)
    ensures
        is_char_boundary(encode_utf8(s), n) <==> is_boundary_at(s, n),
    decreases s.len(),
{
    encode_utf8_valid_utf8(s);
    lemma_chars_within_bytes_bound(s, n);
    if s.len() == 0 {
        assert(encode_utf8(s) =~= Seq::<u8>::empty());
        assert(s.take(0) =~= s);
    } else {
        let bytes = encode_utf8(s);
        let tail = s.drop_first();
        let w = encode_scalar(s[0] as u32).len() as int;
        encode_utf8_first_scalar(s);
        assert(pop_first_scalar(bytes) =~= encode_utf8(tail));
        encode_utf8_valid_utf8(tail);
        lemma_boundary_at_iff_char_boundary(tail, n - w);
        assert(s.take(0) =~= Seq::<char>::empty());
        assert(encode_utf8(Seq::<char>::empty()) =~= Seq::<u8>::empty());
        if n != 0 && w <= n {
            let k = chars_within_bytes(tail, n - w);
            lemma_chars_within_bytes_bound(tail, n - w);
            assert(s.take(k as int + 1).drop_first() =~= tail.take(k as int));
            assert(s.take(k as int + 1)[0] == s[0]);
        }
    }
}

/// The characters that fit in `n` bytes are characters of `s`.
proof fn lemma_chars_within_bytes_bound(s: Seq<char>, n: int)
    ensures
        chars_within_bytes(s, n) <= s.len(),
    decreases s.len(),
{
    if s.len() > 0 {
        lemma_chars_within_bytes_bound(s.drop_first(), n - encode_scalar(s[0] as u32).len());
    }
}

/// One more character adds its own width to the UTF-8 length.
proof fn lemma_byte_len_push(s: Seq<char>, c: char)
    ensures
        byte_len(s.push(c)) == byte_len(s) + encode_scalar(c as u32).len(),
    decreases s.len(),
{
    if s.len() == 0 {
        assert(s.push(c).drop_first() =~= Seq::<char>::empty());
        assert(encode_utf8(Seq::<char>::empty()) =~= Seq::<u8>::empty());
    } else {
        assert(s.push(c).drop_first() =~= s.drop_first().push(c));
        lemma_byte_len_push(s.drop_first(), c);
    }
}

/// The number of bytes that UTF-8 takes for `c`.
pub fn utf8_width(c: char) -> (w: usize)
    ensures
        w == encode_scalar(c as u32).len(),
        1 <= w <= 4,
{
    proof {
        char_is_scalar(c);
    }
    let u = c as u32;
    if u <= 0x7F {
        1
    } else if u <= 0x7FF {
        2
    } else if u <= 0xFFFF {
        3
    } else {
        4
    }
}

/// The characters held in the first `n` bytes of `s` (`&s[..n]`), which must end
/// on a character boundary.
pub fn byte_prefix(s: &str, n: usize) -> (r: String)
    requires
        is_char_boundary(encode_utf8(s@), n as int),
    ensures
        r@ == s@.take(chars_within_bytes(s@, n as int) as int),
        byte_len(r@) == n,
{
    proof {
        lemma_boundary_at_iff_char_boundary(s@, n as int);
    }
    let v = chars_of(s);
    let len = v.len();
    let mut k: usize = 0;
    let mut b: usize = 0;
    assert(v@.skip(0) =~= v@);
    assert(v@.take(0) =~= Seq::<char>::empty());
    assert(encode_utf8(Seq::<char>::empty()) =~= Seq::<u8>::empty());
    while k < len && utf8_width(v[k]) <= n - b
        invariant
            k <= len == v@.len(),
            v@ == s@,
            b <= n,
            byte_len(v@.take(k as int)) == b,
            chars_within_bytes(v@, n as int) == k + chars_within_bytes(v@.skip(k as int), n - b),
        decreases len - k,
    {
        let w = utf8_width(v[k]);
        proof {
            assert(v@.skip(k as int).drop_first() =~= v@.skip(k + 1));
            assert(v@.take(k + 1) =~= v@.take(k as int).push(v@[k as int]));
            lemma_byte_len_push(v@.take(k as int), v@[k as int]);
        }
        b = b + w;
        k = k + 1;
    }
    string_of(&v, 0, k)
}

/// `s` with every line feed replaced by a space.
pub open spec fn newlines_to_spaces(s: Seq<char>) -> Seq<char> {
    s.map_values(|c: char| if c == '\n' { ' ' } else { c })
}

/// `s` with every `'\n'` replaced by `' '`.
pub fn replace_newlines(s: &str) -> (r: String)
    ensures
        r@ == newlines_to_spaces(s@),
{
    let v = chars_of(s);
    let mut r = String::new();
    let mut i: usize = 0;
    while i < v.len()
        invariant
            i <= v@.len(),
            v@ == s@,
            r@ == newlines_to_spaces(v@.take(i as int)),
        decreases v.len() - i,
    {
        let c = v[i];
        push_char(&mut r, if c == '\n' { ' ' } else { c });
        assert(v@.take(i + 1) == v@.take(i as int).push(c));
        assert(newlines_to_spaces(v@.take(i + 1)) =~= newlines_to_spaces(v@.take(i as int)).push(
            if c == '\n' { ' ' } else { c },
        ));
        i = i + 1;
    }
    assert(v@.take(v@.len() as int) =~= v@);
    r
}

/// The last segment of a path is what follows its last `'/'`: it ends the path,
/// holds no `'/'`, and is either the whole path or comes right after a `'/'`.
pub proof fn lemma_last_segment_follows_last_slash(s: Seq<char>)
    ensures
        last_segment(s).len() <= s.len(),
        s.skip(s.len() - last_segment(s).len()) == last_segment(s),
        forall|i: int| 0 <= i < last_segment(s).len() ==> #[trigger] last_segment(s)[i] != '/',
        last_segment(s).len() < s.len() ==> s[s.len() - last_segment(s).len() - 1] == '/',
    decreases s.len(),
{
    if s.len() > 0 && s.last() != '/' {
        lemma_last_segment_follows_last_slash(s.drop_last());
        let t = last_segment(s.drop_last());
        assert(last_segment(s) == t.push(s.last()));
        assert(s.skip(s.len() - last_segment(s).len()) =~= s.drop_last().skip(
            s.drop_last().len() - t.len(),
        ).push(s.last()));
        assert forall|i: int| 0 <= i < last_segment(s).len() implies #[trigger] last_segment(s)[i]
            != '/' by {
            if i < t.len() {
                assert(last_segment(s)[i] == t[i]);
            }
        }
        if last_segment(s).len() < s.len() {
            assert(s[s.len() - last_segment(s).len() - 1] == s.drop_last()[s.drop_last().len()
                - t.len() - 1]);
        }
    } else {
        assert(s.skip(s.len() as int) =~= Seq::<char>::empty());
    }
}

} // verus!
