//! The kinds of recorded content and the commands that the shell accepts.
use vstd::prelude::*;
use vstd::string::*;

use crate::text::{chars_of, is_whitespace, is_ws, range_equals};

verus! {

/// What a history entry holds.
#[derive(Debug, Clone, Copy, PartialEq, Eq, Structural)]
pub enum ContentType {
    Text,
    Image,
    File,
}

/// The name under which a content type is stored.
pub open spec fn content_type_name(c: ContentType) -> Seq<char> {
    match c {
        ContentType::Text => "text"@,
        ContentType::Image => "image"@,
        ContentType::File => "file"@,
    }
}

/// The content type stored under the name `s`, if any.
pub open spec fn content_type_named(s: Seq<char>) -> Option<ContentType> {
    if s == "text"@ {
        Some(ContentType::Text)
    } else if s == "image"@ {
        Some(ContentType::Image)
    } else if s == "file"@ {
        Some(ContentType::File)
    } else {
        None
    }
}

/// The position, in the extractor list, of the extractor for a content type.
pub open spec fn extractor_position(c: ContentType) -> int {
    match c {
        ContentType::File => 0,
        ContentType::Image => 1,
        ContentType::Text => 2,
    }
}

impl ContentType {
    /// The name under which this content type is stored.
    pub fn as_str(&self) -> (r: &'static str)
        ensures
            r@ == content_type_name(*self),
    {
        match self {
            ContentType::Text => "text",
            ContentType::Image => "image",
            ContentType::File => "file",
        }
    }

    /// The position of this content type's extractor in the extractor list.
    pub fn extractor_index(&self) -> (r: usize)
        ensures
            r == extractor_position(*self),
    {
        match self {
            ContentType::File => 0,
            ContentType::Image => 1,
            ContentType::Text => 2,
        }
    }

    /// The content type stored under the name `s`, or `None` for any other name.
    pub fn from_str(s: &str) -> (r: Option<ContentType>)
        ensures
            r == content_type_named(s@),
    {
        let v = chars_of(s);
        let n = v.len();
        assert(v@.subrange(0, n as int) =~= v@);
        if range_equals(&v, 0, n, "text") {
            Some(ContentType::Text)
        } else if range_equals(&v, 0, n, "image") {
            Some(ContentType::Image)
        } else if range_equals(&v, 0, n, "file") {
            Some(ContentType::File)
        } else {
            None
        }
    }
}

/// Reading back the stored name of a content type gives that content type,
/// and no other name reads as it.
pub proof fn lemma_content_type_name_round_trip(c: ContentType, s: Seq<char>)
    ensures
        content_type_named(content_type_name(c)) == Some(c),
        content_type_named(s) == Some(c) ==> s == content_type_name(c),
{
    reveal_strlit("text");
    reveal_strlit("image");
    reveal_strlit("file");
    assert("text"@.len() != "image"@.len());
    assert("image"@.len() != "file"@.len());
    assert("text"@[0] != "file"@[0]);
}

/// A command of the interactive shell, or one that the history window sends to
/// the service.
///
/// `TogglePin` is never typed: the history window sends it to flip the pin
/// status of an entry, and `parse` never gives it.
#[derive(Debug, Clone, Copy, PartialEq, Eq, Structural)]
pub enum Command {
    Pin(i64),
    Unpin(i64),
    Copy(i64),
    List,
    ListPinned,
    Help,
    Exit,
    Clear,
    TogglePin(i64),
    Unknown,
}

/// The length of the run of non-whitespace characters at the start of `s`.
pub open spec fn word_len(s: Seq<char>) -> nat
    decreases s.len(),
{
    if s.len() > 0 && !is_ws(s[0]) {
        1 + word_len(s.drop_first())
    } else {
        0
    }
}

/// A word never runs past the end of its text.
pub proof fn lemma_word_len_bound(s: Seq<char>)
    ensures
        word_len(s) <= s.len(),
        s.len() > 0 && !is_ws(s[0]) ==> word_len(s) >= 1,
    decreases s.len(),
{
    if s.len() > 0 && !is_ws(s[0]) {
        lemma_word_len_bound(s.drop_first());
    }
}

/// The whitespace-separated words of `s`, in order (`str::split_whitespace`).
pub open spec fn words(s: Seq<char>) -> Seq<Seq<char>>
    decreases s.len(),
{
    if s.len() == 0 {
        Seq::empty()
    } else if is_ws(s[0]) {
        words(s.drop_first())
    } else {
        proof {
            lemma_word_len_bound(s);
        }
        seq![s.take(word_len(s) as int)] + words(s.skip(word_len(s) as int))
    }
}

/// `c` is an ASCII decimal digit.
pub open spec fn is_digit(c: char) -> bool {
    48 <= (c as u32) <= 57
}

/// Every character of `s` is a decimal digit.
pub open spec fn all_digits(s: Seq<char>) -> bool {
    forall|i: int| 0 <= i < s.len() ==> is_digit(#[trigger] s[i])
}

/// The number that the decimal digits `s` denote.
pub open spec fn digits_value(s: Seq<char>) -> int
    decreases s.len(),
{
    if s.len() == 0 {
        0
    } else {
        digits_value(s.drop_last()) * 10 + ((s.last() as u32) - 48)
    }
}

/// The integer that `t` spells: an optional `+` or `-` followed by at least one
/// decimal digit (the syntax that `str::parse` accepts for integers).
pub open spec fn integer_value(t: Seq<char>) -> Option<int> {
    if t.len() == 0 {
        None
    } else {
        let digits = if t[0] == '-' || t[0] == '+' {
            t.drop_first()
        } else {
            t
        };
        if digits.len() == 0 || !all_digits(digits) {
            None
        } else if t[0] == '-' {
            Some(-digits_value(digits))
        } else {
            Some(digits_value(digits))
        }
    }
}

/// What `t.parse::<i64>()` gives: the integer that `t` spells when it fits in an `i64`.
pub open spec fn parse_i64(t: Seq<char>) -> Option<i64> {
    match integer_value(t) {
        Some(v) => if i64::MIN <= v <= i64::MAX {
            Some(v as i64)
        } else {
            None
        },
        None => None,
    }
}

/// The command that a list of words asks for.
pub open spec fn command_of_words(t: Seq<Seq<char>>) -> Command {
    if t.len() == 0 {
        Command::Unknown
    } else if t[0] == "list"@ {
        Command::List
    } else if t[0] == "help"@ {
        Command::Help
    } else if t[0] == "exit"@ || t[0] == "quit"@ {
        Command::Exit
    } else if t[0] == "clear"@ {
        Command::Clear
    } else if t[0] == "pin"@ || t[0] == "unpin"@ || t[0] == "copy"@ {
        if t.len() < 2 {
            Command::Unknown
        } else {
            match parse_i64(t[1]) {
                Some(id) => if t[0] == "pin"@ {
                    Command::Pin(id)
                } else if t[0] == "unpin"@ {
                    Command::Unpin(id)
                } else {
                    Command::Copy(id)
                },
                None => Command::Unknown,
            }
        }
    } else {
        Command::Unknown
    }
}

/// The command that a line of input asks for.
pub open spec fn parse_command(s: Seq<char>) -> Command {
    command_of_words(words(s))
}

/// The first index at or after `i` that does not hold whitespace (or the end).
fn skip_whitespace(v: &Vec<char>, i: usize) -> (j: usize)
    requires
        i <= v@.len(),
    ensures
        i <= j <= v@.len(),
        words(v@.skip(i as int)) == words(v@.skip(j as int)),
        j < v@.len() ==> !is_ws(v@[j as int]),
{
    let mut j = i;
    while j < v.len() && is_whitespace(v[j])
        invariant
            i <= j <= v@.len(),
            words(v@.skip(i as int)) == words(v@.skip(j as int)),
        decreases v@.len() - j,
    {
        assert(v@.skip(j as int).drop_first() =~= v@.skip(j + 1));
        j = j + 1;
    }
    j
}

/// The end of the word that starts at index `j`.
fn word_end(v: &Vec<char>, j: usize) -> (e: usize)
    requires
        j <= v@.len(),
    ensures
        j <= e <= v@.len(),
        word_len(v@.skip(j as int)) == e - j,
{
    let mut e = j;
    while e < v.len() && !is_whitespace(v[e])
        invariant
            j <= e <= v@.len(),
            word_len(v@.skip(j as int)) == (e - j) + word_len(v@.skip(e as int)),
        decreases v@.len() - e,
    {
        assert(v@.skip(e as int).drop_first() =~= v@.skip(e + 1));
        e = e + 1;
    }
    e
}

/// The words of a text that does not start with whitespace begin with its first word.
proof fn lemma_words_step(s: Seq<char>, j: int, e: int)
    requires
        0 <= j < s.len(),
        !is_ws(s[j]),
        word_len(s.skip(j)) == e - j,
    ensures
        j < e <= s.len(),
        words(s.skip(j)) == seq![s.subrange(j, e)] + words(s.skip(e)),
{
    let t = s.skip(j);
    lemma_word_len_bound(t);
    assert(t.take(e - j) =~= s.subrange(j, e));
    assert(t.skip(e - j) =~= s.skip(e));
}

/// A value of digits never falls below the value of a prefix of them.
proof fn lemma_digits_value_prefix(s: Seq<char>, k: int)
    requires
        all_digits(s),
        0 <= k <= s.len(),
    ensures
        0 <= digits_value(s.take(k)) <= digits_value(s),
    decreases s.len(),
{
    if s.len() > 0 {
        let d = s.drop_last();
        assert(all_digits(d)) by {
            assert forall|i: int| 0 <= i < d.len() implies is_digit(#[trigger] d[i]) by {
                assert(d[i] == s[i]);
            }
        }
        assert(is_digit(s[s.len() - 1]));
        if k < s.len() {
            assert(s.take(k) =~= d.take(k));
            lemma_digits_value_prefix(d, k);
        } else {
            assert(s.take(k) =~= s);
        }
        lemma_digits_value_prefix(d, d.len() as int);
        assert(d.take(d.len() as int) =~= d);
    } else {
        assert(s.take(k) =~= s);
    }
}

/// The `i64` that `v[start..end]` spells, as `str::parse::<i64>` reads it.
pub fn parse_i64_range(v: &Vec<char>, start: usize, end: usize) -> (r: Option<i64>)
    requires
        start <= end <= v@.len(),
    ensures
        r == parse_i64(v@.subrange(start as int, end as int)),
{
    let ghost t = v@.subrange(start as int, end as int);
    if start == end {
        return None;
    }
    let neg = v[start] == '-';
    let first = if v[start] == '-' || v[start] == '+' {
        start + 1
    } else {
        start
    };
    assert(t[0] == v@[start as int]);
    let ghost digits = v@.subrange(first as int, end as int);
    assert(digits =~= (if t[0] == '-' || t[0] == '+' {
        t.drop_first()
    } else {
        t
    }));
    if first == end {
        return None;
    }
    let limit: u128 = if neg {
        0x8000_0000_0000_0000
    } else {
        0x7FFF_FFFF_FFFF_FFFF
    };
    let mut acc: u128 = 0;
    let mut i = first;
    while i < end
        invariant
            first <= i <= end <= v@.len(),
            digits == v@.subrange(first as int, end as int),
            t == v@.subrange(start as int, end as int),
            t.len() > 0,
            digits == (if t[0] == '-' || t[0] == '+' {
                t.drop_first()
            } else {
                t
            }),
            digits.len() > 0,
            neg == (t[0] == '-'),
            limit == (if neg { 0x8000_0000_0000_0000u128 } else { 0x7FFF_FFFF_FFFF_FFFFu128 }),
            forall|j: int| 0 <= j < i - first ==> is_digit(#[trigger] digits[j]),
            acc == digits_value(digits.take(i - first)),
            acc <= limit,
            limit <= 0x8000_0000_0000_0000,
        decreases end - i,
    {
        let c = v[i];
        let u = c as u32;
        if u < 48 || u > 57 {
            assert(!is_digit(digits[i - first]));
            assert(!all_digits(digits));
            assert(integer_value(t) is None);
            return None;
        }
        let ghost before = digits.take(i - first);
        assert(digits.take(i - first + 1).drop_last() =~= before);
        acc = acc * 10 + ((u - 48) as u128);
        assert(acc == digits_value(digits.take(i - first + 1)));
        i = i + 1;
        if acc > limit {
            proof {
                if all_digits(digits) {
                    lemma_digits_value_prefix(digits, i - first);
                    assert(digits_value(digits) > limit);
                }
                assert(parse_i64(t) is None);
            }
            return None;
        }
    }
    assert(digits.take(digits.len() as int) =~= digits);
    assert(all_digits(digits));
    if neg {
        if acc == 0x8000_0000_0000_0000 {
            Some(i64::MIN)
        } else {
            Some(-(acc as i64))
        }
    } else {
        Some(acc as i64)
    }
}

impl Command {
    /// The command that a line of input asks for: its first word names the
    /// command, and `pin`, `unpin` and `copy` take the entry's id from the second.
    pub fn parse(input: &str) -> (r: Command)
        ensures
            r == parse_command(input@),
    {
        let v = chars_of(input);
        let n = v.len();
        assert(v@.skip(0) =~= v@);
        let j0 = skip_whitespace(&v, 0);
        if j0 == n {
            assert(v@.skip(n as int) =~= Seq::<char>::empty());
            return Command::Unknown;
        }
        let e0 = word_end(&v, j0);
        proof {
            lemma_words_step(v@, j0 as int, e0 as int);
        }
        let ghost w0 = v@.subrange(j0 as int, e0 as int);
        if range_equals(&v, j0, e0, "list") {
            Command::List
        } else if range_equals(&v, j0, e0, "help") {
            Command::Help
        } else if range_equals(&v, j0, e0, "exit") || range_equals(&v, j0, e0, "quit") {
            Command::Exit
        } else if range_equals(&v, j0, e0, "clear") {
            Command::Clear
        } else {
            let is_pin = range_equals(&v, j0, e0, "pin");
            let is_unpin = range_equals(&v, j0, e0, "unpin");
            let is_copy = range_equals(&v, j0, e0, "copy");
            if !(is_pin || is_unpin || is_copy) {
                return Command::Unknown;
            }
            let j1 = skip_whitespace(&v, e0);
            if j1 == n {
                assert(v@.skip(n as int) =~= Seq::<char>::empty());
                return Command::Unknown;
            }
            let e1 = word_end(&v, j1);
            proof {
                lemma_words_step(v@, j1 as int, e1 as int);
            }
            match parse_i64_range(&v, j1, e1) {
                Some(id) => if is_pin {
                    Command::Pin(id)
                } else if is_unpin {
                    Command::Unpin(id)
                } else {
                    Command::Copy(id)
                },
                None => Command::Unknown,
            }
        }
    }
}



/// The decimal digit that stands for `d` (below 10).
pub open spec fn digit_char(d: nat) -> char {
    if d == 0 {
        '0'
    } else if d == 1 {
        '1'
    } else if d == 2 {
        '2'
    } else if d == 3 {
        '3'
    } else if d == 4 {
        '4'
    } else if d == 5 {
        '5'
    } else if d == 6 {
        '6'
    } else if d == 7 {
        '7'
    } else if d == 8 {
        '8'
    } else {
        '9'
    }
}

/// The decimal digits of `n`, without leading zeros.
pub open spec fn decimal(n: nat) -> Seq<char>
    decreases n,
{
    if n < 10 {
        seq![digit_char(n)]
    } else {
        decimal(n / 10).push(digit_char(n % 10))
    }
}

/// The way `i64`'s `Display` writes `v`: a minus sign for negative numbers, then
/// the decimal digits of its magnitude.
pub open spec fn signed_decimal(v: int) -> Seq<char> {
    if v < 0 {
        seq!['-'] + decimal((-v) as nat)
    } else {
        decimal(v as nat)
    }
}

/// A digit character stands for its value.
proof fn lemma_digit_char(d: nat)
    requires
        d < 10,
    ensures
        digit_char(d) as u32 == d + 48,
{
}

/// The digits of `n` are digits, and they denote `n`.
proof fn lemma_decimal_digits(n: nat)
    ensures
        decimal(n).len() > 0,
        all_digits(decimal(n)),
        digits_value(decimal(n)) == n,
    decreases n,
{
    lemma_digit_char(n % 10);
    if n < 10 {
        assert(n % 10 == n);
        assert(decimal(n).drop_last() =~= Seq::<char>::empty());
        assert(digits_value(decimal(n)) == digits_value(Seq::<char>::empty()) * 10 + (
        digit_char(n) as u32 - 48));
    }
    if n >= 10 {
        lemma_decimal_digits(n / 10);
        let d = decimal(n / 10);
        assert(n == (n / 10) * 10 + n % 10) by (nonlinear_arith);
        assert(decimal(n).last() == digit_char(n % 10));
        assert(decimal(n).drop_last() =~= d);
        assert forall|i: int| 0 <= i < decimal(n).len() implies is_digit(#[trigger] decimal(n)[i]) by {
            if i < d.len() {
                assert(decimal(n)[i] == d[i]);
            }
        }
    }
}

/// Every `i64`, written in decimal, parses back to itself.
pub proof fn lemma_parse_i64_round_trip(v: i64)
    ensures
        parse_i64(signed_decimal(v as int)) == Some(v),
{
    if v < 0 {
        let m = (-(v as int)) as nat;
        lemma_decimal_digits(m);
        let t = signed_decimal(v as int);
        assert(t.drop_first() =~= decimal(m));
        assert(t[0] == '-');
    } else {
        lemma_decimal_digits(v as nat);
        let d = decimal(v as nat);
        assert(is_digit(d[0]));
    }
}

/// A word followed by a space and more text splits into that word and the words of the rest.
proof fn lemma_words_of_word_then_space(w: Seq<char>, rest: Seq<char>)
    requires
        w.len() > 0,
        forall|i: int| 0 <= i < w.len() ==> !is_ws(#[trigger] w[i]),
    ensures
        words(w + seq![' '] + rest) == seq![w] + words(rest),
{
    let s = w + seq![' '] + rest;
    lemma_word_len_prefix(w, seq![' '] + rest);
    assert(s[0] == w[0]);
    assert(!is_ws(w[0]));
    assert(s.len() > 0);
    assert(s =~= w + (seq![' '] + rest));
    assert(s.take(w.len() as int) =~= w);
    assert(s.skip(w.len() as int) =~= seq![' '] + rest);
    assert((seq![' '] + rest).drop_first() =~= rest);
    assert(is_ws(' '));
    assert(words(seq![' '] + rest) == words(rest));
    assert(word_len(s) == w.len());
    assert(words(s) == seq![s.take(word_len(s) as int)] + words(s.skip(word_len(s) as int)));
}

/// A word followed by text that starts with whitespace is a whole word.
proof fn lemma_word_len_prefix(w: Seq<char>, rest: Seq<char>)
    requires
        forall|i: int| 0 <= i < w.len() ==> !is_ws(#[trigger] w[i]),
        rest.len() > 0,
        is_ws(rest[0]),
    ensures
        word_len(w + rest) == w.len(),
    decreases w.len(),
{
    if w.len() > 0 {
        assert((w + rest).drop_first() =~= w.drop_first() + rest);
        assert forall|i: int| 0 <= i < w.drop_first().len() implies !is_ws(
            #[trigger] w.drop_first()[i],
        ) by {
            assert(w.drop_first()[i] == w[i + 1]);
        }
        lemma_word_len_prefix(w.drop_first(), rest);
    } else {
        assert(w + rest =~= rest);
    }
}

/// A non-empty text without whitespace is a single word.
proof fn lemma_words_of_one_word(w: Seq<char>)
    requires
        w.len() > 0,
        forall|i: int| 0 <= i < w.len() ==> !is_ws(#[trigger] w[i]),
    ensures
        words(w) == seq![w],
    decreases w.len(),
{
    lemma_word_len_whole(w);
    assert(!is_ws(w[0]));
    assert(w.take(w.len() as int) =~= w);
    assert(w.skip(w.len() as int) =~= Seq::<char>::empty());
    assert(words(Seq::<char>::empty()) =~= Seq::<Seq<char>>::empty());
    assert(seq![w] + Seq::<Seq<char>>::empty() =~= seq![w]);
}

/// A text without whitespace is one word long.
proof fn lemma_word_len_whole(w: Seq<char>)
    requires
        forall|i: int| 0 <= i < w.len() ==> !is_ws(#[trigger] w[i]),
    ensures
        word_len(w) == w.len(),
    decreases w.len(),
{
    if w.len() > 0 {
        assert forall|i: int| 0 <= i < w.drop_first().len() implies !is_ws(
            #[trigger] w.drop_first()[i],
        ) by {
            assert(w.drop_first()[i] == w[i + 1]);
        }
        lemma_word_len_whole(w.drop_first());
    }
}

/// Whitespace before a line does not change the command it asks for.
pub proof fn lemma_parse_skips_leading_whitespace(c: char, s: Seq<char>)
    requires
        is_ws(c),
    ensures
        parse_command(seq![c] + s) == parse_command(s),
{
    assert((seq![c] + s).drop_first() =~= s);
}

/// `pin`, `unpin` and `copy` followed by any `i64` written in decimal ask for
/// that command on that id.
pub proof fn lemma_parse_commands_with_any_id(id: i64)
    ensures
        parse_command("pin"@ + seq![' '] + signed_decimal(id as int)) == Command::Pin(id),
        parse_command("unpin"@ + seq![' '] + signed_decimal(id as int)) == Command::Unpin(id),
        parse_command("copy"@ + seq![' '] + signed_decimal(id as int)) == Command::Copy(id),
{
    reveal_strlit("pin");
    reveal_strlit("unpin");
    reveal_strlit("copy");
    reveal_strlit("list");
    reveal_strlit("help");
    reveal_strlit("exit");
    reveal_strlit("quit");
    reveal_strlit("clear");
    let d = signed_decimal(id as int);
    lemma_parse_i64_round_trip(id);
    lemma_signed_decimal_has_no_whitespace(id as int);
    lemma_words_of_one_word(d);
    assert(!is_ws('p') && !is_ws('i') && !is_ws('n') && !is_ws('u') && !is_ws('c') && !is_ws('o')
        && !is_ws('y'));
    lemma_words_of_word_then_space("pin"@, d);
    lemma_words_of_word_then_space("unpin"@, d);
    lemma_words_of_word_then_space("copy"@, d);
    assert("pin"@ != "list"@ && "pin"@ != "help"@ && "pin"@ != "exit"@ && "pin"@ != "quit"@ && "pin"@
        != "clear"@);
    assert("unpin"@ != "list"@ && "unpin"@ != "help"@ && "unpin"@ != "exit"@ && "unpin"@ != "quit"@
        && "unpin"@ != "pin"@);
    assert("unpin"@[0] != "clear"@[0]);
    assert("copy"@[0] != "list"@[0] && "copy"@[0] != "help"@[0] && "copy"@[0] != "exit"@[0]
        && "copy"@[0] != "quit"@[0] && "copy"@[0] != "clear"@[1]);
    assert("copy"@ != "clear"@);
    assert("copy"@ != "pin"@ && "copy"@ != "unpin"@);
}

/// A word ends where whitespace begins, so text that follows after whitespace
/// does not lengthen the first word.
proof fn lemma_word_len_append(s: Seq<char>, x: Seq<char>)
    requires
        x.len() > 0,
        is_ws(x[0]),
    ensures
        word_len(s + x) == word_len(s),
    decreases s.len(),
{
    if s.len() > 0 && !is_ws(s[0]) {
        assert((s + x).drop_first() =~= s.drop_first() + x);
        lemma_word_len_append(s.drop_first(), x);
    } else if s.len() == 0 {
        assert(s + x =~= x);
    } else {
        assert((s + x)[0] == s[0]);
    }
}

/// The words of two texts joined by whitespace are the words of the first
/// followed by those of the second.
proof fn lemma_words_append(s: Seq<char>, x: Seq<char>)
    requires
        x.len() > 0,
        is_ws(x[0]),
    ensures
        words(s + x) == words(s) + words(x),
    decreases s.len(),
{
    if s.len() == 0 {
        assert(s + x =~= x);
        assert(words(s) + words(x) =~= words(x));
    } else if is_ws(s[0]) {
        assert((s + x)[0] == s[0]);
        assert((s + x).drop_first() =~= s.drop_first() + x);
        lemma_words_append(s.drop_first(), x);
    } else {
        let k = word_len(s) as int;
        lemma_word_len_bound(s);
        lemma_word_len_append(s, x);
        assert((s + x)[0] == s[0]);
        assert((s + x).take(k) =~= s.take(k));
        assert((s + x).skip(k) =~= s.skip(k) + x);
        lemma_words_append(s.skip(k), x);
        assert(words(s + x) == seq![s.take(k)] + words(s.skip(k) + x));
        assert(seq![s.take(k)] + (words(s.skip(k)) + words(x)) =~= (seq![s.take(k)] + words(
            s.skip(k),
        )) + words(x));
    }
}

/// Once a line asks for a command, words added after it, past a space, do not
/// change which command it asks for: only the command word and its id count.
pub proof fn lemma_parse_ignores_trailing_words(s: Seq<char>, t: Seq<char>)
    requires
        parse_command(s) != Command::Unknown,
    ensures
        parse_command(s + seq![' '] + t) == parse_command(s),
{
    let x = seq![' '] + t;
    assert(is_ws(' '));
    assert(s + seq![' '] + t =~= s + x);
    lemma_words_append(s, x);
    let w = words(s);
    let u = words(x);
    assert(w.len() > 0);
    assert((w + u)[0] == w[0]);
    if w.len() >= 2 {
        assert((w + u)[1] == w[1]);
    }
}

/// A number written in decimal holds no whitespace.
proof fn lemma_signed_decimal_has_no_whitespace(v: int)
    ensures
        signed_decimal(v).len() > 0,
        forall|i: int|
            0 <= i < signed_decimal(v).len() ==> !is_ws(#[trigger] signed_decimal(v)[i]),
{
    let m: nat = if v < 0 {
        (-v) as nat
    } else {
        v as nat
    };
    lemma_decimal_digits(m);
    let d = decimal(m);
    assert forall|i: int| 0 <= i < signed_decimal(v).len() implies !is_ws(
        #[trigger] signed_decimal(v)[i],
    ) by {
        if v < 0 {
            if i > 0 {
                assert(signed_decimal(v)[i] == d[i - 1]);
                assert(is_digit(d[i - 1]));
            }
        } else {
            assert(is_digit(d[i]));
        }
    }
}

} // verus!
