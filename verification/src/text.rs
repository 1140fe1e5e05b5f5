//! Text building blocks: characters, decimal numerals, joining and trimming.
use vstd::prelude::*;
use vstd::string::*;

verus! {

/// `String::push` appends one character.
pub assume_specification[ String::push ](s: &mut String, c: char)
    ensures
        final(s)@ == old(s)@.push(c),
;

/// The texts of a sequence of strings.
pub open spec fn texts(v: Seq<String>) -> Seq<Seq<char>> {
    v.map_values(|s: String| s@)
}

/// The characters of `s`, in order.
pub fn chars_of(s: &str) -> (out: Vec<char>)
    ensures
        out@ == s@,
{
    let mut out: Vec<char> = Vec::new();
    for c in it: s.chars()
        invariant
            out@ == s@.take(it.index()),
            it.seq() == s@,
    {
        out.push(c);
        assert(s@.take(it.index() + 1) == s@.take(it.index()).push(c));
    }
    assert(s@.take(s@.len() as int) == s@);
    out
}

/// The string made of the characters `cs[from..to]`.
pub fn text_of(cs: &[char], from: usize, to: usize) -> (out: String)
    requires
        from <= to <= cs@.len(),
    ensures
        out@ == cs@.subrange(from as int, to as int),
{
    let mut out = String::new();
    let mut i: usize = from;
    while i < to
        invariant
            from <= i <= to <= cs@.len(),
            out@ == cs@.subrange(from as int, i as int),
        decreases to - i,
    {
        out.push(cs[i]);
        assert(cs@.subrange(from as int, i + 1) == cs@.subrange(from as int, i as int).push(
            cs@[i as int],
        ));
        i = i + 1;
    }
    out
}

/// Whether two texts are the same.
pub fn same_text(a: &str, b: &str) -> (same: bool)
    ensures
        same == (a@ == b@),
{
    a.to_owned() == b.to_owned()
}

/// Whether `s` begins with `prefix`.
pub fn begins_with(s: &str, prefix: &str) -> (yes: bool)
    ensures
        yes == prefix@.is_prefix_of(s@),
{
    let s_chars = chars_of(s);
    let p_chars = chars_of(prefix);
    if p_chars.len() > s_chars.len() {
        return false;
    }
    let mut i: usize = 0;
    while i < p_chars.len()
        invariant
            i <= p_chars@.len() <= s_chars@.len(),
            s_chars@ == s@,
            p_chars@ == prefix@,
            forall|j: int| 0 <= j < i ==> p_chars@[j] == s_chars@[j],
        decreases p_chars@.len() - i,
    {
        if p_chars[i] != s_chars[i] {
            assert(s@.subrange(0, prefix@.len() as int)[i as int] == s@[i as int]);
            return false;
        }
        i = i + 1;
    }
    assert(s@.subrange(0, prefix@.len() as int) =~= prefix@);
    true
}

/// `a` and `b`, one after the other.
pub fn cat2(a: &str, b: &str) -> (out: String)
    ensures
        out@ == a@ + b@,
{
    let mut out = a.to_owned();
    out.append(b);
    out
}

/// `a`, `b` and `c`, one after the other.
pub fn cat3(a: &str, b: &str, c: &str) -> (out: String)
    ensures
        out@ == a@ + b@ + c@,
{
    let mut out = cat2(a, b);
    out.append(c);
    out
}

/// `a`, `b`, `c` and `d`, one after the other.
pub fn cat4(a: &str, b: &str, c: &str, d: &str) -> (out: String)
    ensures
        out@ == a@ + b@ + c@ + d@,
{
    let mut out = cat3(a, b, c);
    out.append(d);
    out
}

/// `a`, `b`, `c`, `d` and `e`, one after the other.
pub fn cat5(a: &str, b: &str, c: &str, d: &str, e: &str) -> (out: String)
    ensures
        out@ == a@ + b@ + c@ + d@ + e@,
{
    let mut out = cat4(a, b, c, d);
    out.append(e);
    out
}

/// The text of an optional string.
pub open spec fn optional(s: Option<String>) -> Option<Seq<char>> {
    match s {
        Some(t) => Some(t@),
        None => None,
    }
}

/// A copy of an optional string.
pub fn copy_optional(s: &Option<String>) -> (out: Option<String>)
    ensures
        optional(out) == optional(*s),
{
    match s {
        Some(t) => Some(t.clone()),
        None => None,
    }
}

/// The decimal digit for `d`.
pub open spec fn digit_char(d: nat) -> char {
    (('0' as u32) + d) as char
}

/// The decimal numeral of `n`, without leading zeros.
pub open spec fn decimal_text(n: nat) -> Seq<char>
    decreases n,
{
    if n < 10 {
        seq![digit_char(n)]
    } else {
        decimal_text(n / 10).push(digit_char(n % 10))
    }
}

fn digit(d: u128) -> (c: char)
    requires
        d < 10,
    ensures
        c == digit_char(d as nat),
{
    if d == 0 {
        '0'
    } else if d == 1 {
        '1'
    } else if d == 2 {
        '2'
    } else if d == 3 {
        '3'
    } else if d == 4 {
        '4'
    } else if d == 5 {
        '5'
    } else if d == 6 {
        '6'
    } else if d == 7 {
        '7'
    } else if d == 8 {
        '8'
    } else {
        '9'
    }
}

/// The decimal numeral of `n`.
pub fn decimal(n: u128) -> (out: String)
    ensures
        out@ == decimal_text(n as nat),
    decreases n,
{
    if n < 10 {
        let mut out = String::new();
        out.push(digit(n));
        assert(out@ =~= seq![digit_char(n as nat)]);
        out
    } else {
        let mut out = decimal(n / 10);
        out.push(digit(n % 10));
        out
    }
}

/// The parts in order, with `sep` between neighbours.
pub open spec fn joined(parts: Seq<Seq<char>>, sep: Seq<char>) -> Seq<char>
    decreases parts.len(),
{
    if parts.len() == 0 {
        Seq::empty()
    } else if parts.len() == 1 {
        parts[0]
    } else {
        joined(parts.drop_last(), sep) + sep + parts.last()
    }
}

/// Joins `parts` with `sep` between neighbours.
pub fn join(parts: &Vec<String>, sep: &str) -> (out: String)
    ensures
        out@ == joined(texts(parts@), sep@),
{
    let mut out = String::new();
    let mut i: usize = 0;
    while i < parts.len()
        invariant
            i <= parts@.len(),
            out@ == joined(texts(parts@).take(i as int), sep@),
        decreases parts@.len() - i,
    {
        if i > 0 {
            out.append(sep);
        }
        out.append(parts[i].as_str());
        proof {
            let now = texts(parts@).take(i + 1);
            assert(now.drop_last() =~= texts(parts@).take(i as int));
            assert(now.last() == parts@[i as int]@);
        }
        i = i + 1;
    }
    assert(texts(parts@).take(i as int) =~= texts(parts@));
    out
}

/// The characters with the Unicode `White_Space` property.
pub open spec fn is_white(c: char) -> bool {
    ||| '\u{9}' <= c <= '\u{d}'
    ||| c == ' '
    ||| c == '\u{85}'
    ||| c == '\u{a0}'
    ||| c == '\u{1680}'
    ||| '\u{2000}' <= c <= '\u{200a}'
    ||| c == '\u{2028}'
    ||| c == '\u{2029}'
    ||| c == '\u{202f}'
    ||| c == '\u{205f}'
    ||| c == '\u{3000}'
}

/// Whether `c` is white space.
pub fn white(c: char) -> (yes: bool)
    ensures
        yes == is_white(c),
{
    ('\u{9}' <= c && c <= '\u{d}') || c == ' ' || c == '\u{85}' || c == '\u{a0}' || c
        == '\u{1680}' || ('\u{2000}' <= c && c <= '\u{200a}') || c == '\u{2028}' || c == '\u{2029}'
        || c == '\u{202f}' || c == '\u{205f}' || c == '\u{3000}'
}

/// `std::str::from_utf8` accepts exactly the valid UTF-8 and decodes it.
#[verifier::external_body]
pub(crate) fn utf8_text(bytes: &[u8]) -> (out: Option<String>)
    ensures
        match out {
            Some(s) => vstd::utf8::valid_utf8(bytes@) && s@ == vstd::utf8::decode_utf8(bytes@),
            None => !vstd::utf8::valid_utf8(bytes@),
        },
{
    std::str::from_utf8(bytes).ok().map(|s| s.to_string())
}

/// What `String::from_utf8_lossy` makes of bytes that need not be UTF-8.
pub uninterp spec fn lossy_text(bytes: Seq<u8>) -> Seq<char>;

/// `String::from_utf8_lossy` decodes valid UTF-8, and puts replacement
/// characters where its argument is not valid.
#[verifier::external_body]
pub(crate) fn lossy(bytes: &[u8]) -> (out: String)
    ensures
        out@ == lossy_text(bytes@),
        vstd::utf8::valid_utf8(bytes@) ==> out@ == vstd::utf8::decode_utf8(bytes@),
{
    String::from_utf8_lossy(bytes).into_owned()
}

/// A text without the white space that it starts with.
pub open spec fn trim_start(s: Seq<char>) -> Seq<char>
    decreases s.len(),
{
    if s.len() > 0 && is_white(s[0]) {
        trim_start(s.drop_first())
    } else {
        s
    }
}

/// A text without the white space that it ends with.
pub open spec fn trim_end(s: Seq<char>) -> Seq<char>
    decreases s.len(),
{
    if s.len() > 0 && is_white(s.last()) {
        trim_end(s.drop_last())
    } else {
        s
    }
}

/// A text without the white space at its two ends.
pub open spec fn trimmed(s: Seq<char>) -> Seq<char> {
    trim_end(trim_start(s))
}

/// Where `s[from..to]` starts and ends without the white space at its ends.
pub fn trim_range(s: &Vec<char>, from: usize, to: usize) -> (range: (usize, usize))
    requires
        from <= to <= s@.len(),
    ensures
        from <= range.0 <= range.1 <= to,
        s@.subrange(range.0 as int, range.1 as int) == trimmed(
            s@.subrange(from as int, to as int),
        ),
{
    let ghost all = s@.subrange(from as int, to as int);
    let mut a: usize = from;
    while a < to && white(s[a])
        invariant
            from <= a <= to <= s@.len(),
            trim_start(all) == trim_start(s@.subrange(a as int, to as int)),
        decreases to - a,
    {
        assert(s@.subrange(a as int, to as int).drop_first() =~= s@.subrange(a + 1, to as int));
        a = a + 1;
    }
    let ghost rest = s@.subrange(a as int, to as int);
    assert(trim_start(all) == rest);
    let mut b: usize = to;
    while b > a && white(s[b - 1])
        invariant
            from <= a <= b <= to <= s@.len(),
            trim_end(rest) == trim_end(s@.subrange(a as int, b as int)),
        decreases b,
    {
        assert(s@.subrange(a as int, b as int).drop_last() =~= s@.subrange(a as int, b - 1));
        b = b - 1;
    }
    (a, b)
}

/// The white space of ASCII.
pub open spec fn is_ascii_white(c: char) -> bool {
    c == ' ' || c == '\t' || c == '\n' || c == '\u{c}' || c == '\r'
}

fn ascii_white(c: char) -> (yes: bool)
    ensures
        yes == is_ascii_white(c),
{
    c == ' ' || c == '\t' || c == '\n' || c == '\u{c}' || c == '\r'
}

/// The words of the first `n` characters of a text, and the part of a word
/// that it ends in.
pub open spec fn words_up_to(s: Seq<char>, n: int) -> (Seq<Seq<char>>, Seq<char>)
    decreases n,
{
    if n <= 0 {
        (Seq::empty(), Seq::empty())
    } else {
        let (words, part) = words_up_to(s, n - 1);
        if !is_ascii_white(s[n - 1]) {
            (words, part.push(s[n - 1]))
        } else if part.len() > 0 {
            (words.push(part), Seq::empty())
        } else {
            (words, part)
        }
    }
}

/// What stands between ASCII white space.
pub open spec fn words_of(s: Seq<char>) -> Seq<Seq<char>> {
    let (words, part) = words_up_to(s, s.len() as int);
    if part.len() > 0 {
        words.push(part)
    } else {
        words
    }
}

/// Splits a text at ASCII white space.
pub fn split_words(s: &str) -> (words: Vec<String>)
    ensures
        texts(words@) == words_of(s@),
{
    let chars = chars_of(s);
    let mut words: Vec<String> = Vec::new();
    let mut start: usize = 0;
    let mut i: usize = 0;
    assert(texts(words@) =~= Seq::empty());
    assert(s@.subrange(0, 0) =~= Seq::empty());
    while i < chars.len()
        invariant
            start <= i <= chars@.len(),
            chars@ == s@,
            words_up_to(s@, i as int) == (texts(words@), s@.subrange(start as int, i as int)),
        decreases chars@.len() - i,
    {
        if ascii_white(chars[i]) {
            if start < i {
                let ghost before = words@;
                words.push(text_of(chars.as_slice(), start, i));
                assert(texts(words@) =~= texts(before).push(s@.subrange(start as int, i as int)));
            }
            start = i + 1;
            assert(s@.subrange(start as int, i + 1) =~= Seq::empty());
        } else {
            assert(s@.subrange(start as int, i + 1) =~= s@.subrange(start as int, i as int).push(
                s@[i as int],
            ));
        }
        i = i + 1;
    }
    if start < chars.len() {
        let ghost before = words@;
        words.push(text_of(chars.as_slice(), start, chars.len()));
        assert(texts(words@) =~= texts(before).push(
            s@.subrange(start as int, chars@.len() as int),
        ));
    }
    words
}

/// Whether a character is a decimal digit.
pub open spec fn is_digit(c: char) -> bool {
    '0' <= c <= '9'
}

/// The number that decimal digits spell.
pub open spec fn digits_value(s: Seq<char>) -> nat
    decreases s.len(),
{
    if s.len() == 0 {
        0
    } else {
        digits_value(s.drop_last()) * 10 + (s.last() as nat - '0' as nat) as nat
    }
}

/// The digits of a numeral, without the plus sign that it may start with.
pub open spec fn unsigned_part(s: Seq<char>) -> Seq<char> {
    if s.len() > 0 && s[0] == '+' {
        s.skip(1)
    } else {
        s
    }
}

/// The number that a text spells in decimal, if it does and 32 bits hold it.
pub open spec fn parsed_u32(s: Seq<char>) -> Option<u32> {
    let d = unsigned_part(s);
    if d.len() > 0 && (forall|i: int| 0 <= i < d.len() ==> is_digit(#[trigger] d[i]))
        && digits_value(d) <= u32::MAX {
        Some(digits_value(d) as u32)
    } else {
        None
    }
}

proof fn lemma_digits_grow(s: Seq<char>, n: int)
    requires
        0 <= n <= s.len(),
        forall|i: int| 0 <= i < s.len() ==> is_digit(#[trigger] s[i]),
    ensures
        digits_value(s.take(n)) <= digits_value(s),
    decreases s.len() - n,
{
    if n < s.len() {
        lemma_digits_grow(s, n + 1);
        assert(s.take(n + 1).drop_last() =~= s.take(n));
        assert(s.take(n + 1).last() == s[n]);
    } else {
        assert(s.take(n) =~= s);
    }
}

/// Reads a number in decimal, with or without a plus sign.
pub fn parse_u32(s: &str) -> (n: Option<u32>)
    ensures
        n == parsed_u32(s@),
{
    let chars = chars_of(s);
    let from: usize = if chars.len() > 0 && chars[0] == '+' {
        1
    } else {
        0
    };
    let ghost d = unsigned_part(s@);
    assert(d =~= s@.skip(from as int));
    if from == chars.len() {
        return None;
    }
    let mut value: u32 = 0;
    let mut i: usize = from;
    assert(d.take(0) =~= Seq::empty());
    while i < chars.len()
        invariant
            from <= i <= chars@.len(),
            from < chars@.len(),
            chars@ == s@,
            d == unsigned_part(s@),
            d == s@.skip(from as int),
            value == digits_value(d.take(i - from)),
            forall|k: int| 0 <= k < i - from ==> is_digit(#[trigger] d[k]),
        decreases chars@.len() - i,
    {
        let c = chars[i];
        assert(d[i - from] == c);
        if c < '0' || c > '9' {
            return None;
        }
        let digit: u32 = c as u32 - 48;
        let wide: u64 = value as u64 * 10 + digit as u64;
        proof {
            assert(d.take(i - from + 1).drop_last() =~= d.take(i - from));
            assert(d.take(i - from + 1).last() == c);
        }
        if wide > 0xffff_ffff {
            proof {
                if forall|k: int| 0 <= k < d.len() ==> is_digit(#[trigger] d[k]) {
                    lemma_digits_grow(d, i - from + 1);
                }
            }
            return None;
        }
        value = wide as u32;
        i = i + 1;
    }
    assert(d.take(i - from) =~= d);
    Some(value)
}

proof fn lemma_decimal_text_digits(n: nat)
    ensures
        decimal_text(n).len() > 0,
        forall|i: int| 0 <= i < decimal_text(n).len() ==> is_digit(#[trigger] decimal_text(n)[i]),
        digits_value(decimal_text(n)) == n,
    decreases n,
{
    if n >= 10 {
        lemma_decimal_text_digits(n / 10);
        assert(decimal_text(n).drop_last() =~= decimal_text(n / 10));
    } else {
        assert(decimal_text(n).drop_last() =~= Seq::empty());
        reveal_with_fuel(digits_value, 2);
    }
}

/// A numeral that is written is read back as the number that it was.
pub proof fn law_numerals_read_back(n: u32)
    ensures
        parsed_u32(decimal_text(n as nat)) == Some(n),
{
    lemma_decimal_text_digits(n as nat);
    assert(is_digit(decimal_text(n as nat)[0]));
}

/// A numeral is made of decimal digits, starts with a zero only where it is
/// that alone, and ends in the units of its number behind the numeral of the
/// tens.
pub proof fn law_a_numeral_spells_its_number(n: nat)
    ensures
        decimal_text(n).len() >= 1,
        forall|i: int|
            0 <= i < decimal_text(n).len() ==> '0' <= #[trigger] decimal_text(n)[i] <= '9',
        n > 0 ==> decimal_text(n)[0] != '0',
        decimal_text(n).last() as nat == 48 + n % 10,
        n < 10 ==> decimal_text(n).len() == 1,
        n >= 10 ==> decimal_text(n).drop_last() == decimal_text(n / 10),
    decreases n,
{
    lemma_decimal_text_digits(n);
    assert forall|i: int| 0 <= i < decimal_text(n).len() implies '0' <= #[trigger] decimal_text(
        n,
    )[i] <= '9' by {
        assert(is_digit(decimal_text(n)[i]));
    }
    if n >= 10 {
        law_a_numeral_spells_its_number(n / 10);
        assert(decimal_text(n).drop_last() =~= decimal_text(n / 10));
        assert(decimal_text(n)[0] == decimal_text(n / 10)[0]);
    }
}

/// White space is what is left out at the two ends of a trimmed text, and
/// nothing else is left out.
pub proof fn law_trimming_takes_white_space_alone(lead: Seq<char>, kept: Seq<char>, trail: Seq<char>)
    requires
        forall|i: int| 0 <= i < lead.len() ==> is_white(#[trigger] lead[i]),
        forall|i: int| 0 <= i < trail.len() ==> is_white(#[trigger] trail[i]),
        kept.len() > 0 ==> !is_white(kept[0]) && !is_white(kept.last()),
    ensures
        trimmed(lead + kept + trail) == kept,
    decreases lead.len(), trail.len(),
{
    let s = lead + kept + trail;
    if lead.len() > 0 {
        assert(is_white(lead[0]));
        assert(s.drop_first() =~= lead.drop_first() + kept + trail);
        assert forall|i: int| 0 <= i < lead.drop_first().len() implies is_white(
            #[trigger] lead.drop_first()[i],
        ) by {
            assert(lead.drop_first()[i] == lead[i + 1]);
        }
        law_trimming_takes_white_space_alone(lead.drop_first(), kept, trail);
    } else if kept.len() > 0 {
        assert(s =~= kept + trail);
        assert(trim_start(s) == s);
        lemma_trim_end(kept, trail);
    } else {
        assert(s =~= trail);
        lemma_all_white(trail);
    }
}

proof fn lemma_trim_end(kept: Seq<char>, trail: Seq<char>)
    requires
        forall|i: int| 0 <= i < trail.len() ==> is_white(#[trigger] trail[i]),
        kept.len() > 0,
        !is_white(kept.last()),
    ensures
        trim_end(kept + trail) == kept,
    decreases trail.len(),
{
    if trail.len() > 0 {
        assert(is_white(trail[trail.len() - 1]));
        assert((kept + trail).drop_last() =~= kept + trail.drop_last());
        lemma_trim_end(kept, trail.drop_last());
    } else {
        assert(kept + trail =~= kept);
    }
}

proof fn lemma_all_white(s: Seq<char>)
    requires
        forall|i: int| 0 <= i < s.len() ==> is_white(#[trigger] s[i]),
    ensures
        trim_start(s) == Seq::<char>::empty(),
    decreases s.len(),
{
    if s.len() > 0 {
        assert(is_white(s[0]));
        assert forall|i: int| 0 <= i < s.drop_first().len() implies is_white(
            #[trigger] s.drop_first()[i],
        ) by {
            assert(s.drop_first()[i] == s[i + 1]);
        }
        lemma_all_white(s.drop_first());
    } else {
        assert(s =~= Seq::empty());
    }
}

/// Blanks, tabs and the ends of lines are white space; letters, digits and
/// signs that can be seen are not.
pub proof fn law_what_can_be_seen_is_not_white_space(c: char)
    ensures
        c == ' ' || c == '\t' || c == '\n' || c == '\r' || c == '\u{b}' || c == '\u{c}'
            ==> is_white(c),
        c == ' ' || c == '\t' || c == '\n' || c == '\r' || c == '\u{c}' <==> is_ascii_white(c),
        '!' <= c <= '~' ==> !is_white(c),
        is_ascii_white(c) ==> is_white(c),
{
}

/// The texts that are put together are all there, in order, with the separator
/// between neighbours and nowhere else.
pub proof fn law_joining_keeps_every_part(before: Seq<Seq<char>>, part: Seq<char>, sep: Seq<char>)
    ensures
        joined(Seq::empty(), sep) == Seq::<char>::empty(),
        joined(seq![part], sep) == part,
        before.len() > 0 ==> joined(before.push(part), sep) == joined(before, sep) + sep + part,
{
    assert(before.push(part).drop_last() =~= before);
}

/// A word: no character of it is white space, and it is not empty.
pub open spec fn is_word(w: Seq<char>) -> bool {
    &&& w.len() > 0
    &&& forall|i: int|
        0 <= i < w.len() ==> {
            let c = #[trigger] w[i];
            c != ' ' && c != '\t' && c != '\n' && c != '\u{c}' && c != '\r'
        }
}

proof fn lemma_words_of_a_start(s: Seq<char>, t: Seq<char>, n: int)
    requires
        0 <= n <= s.len(),
    ensures
        words_up_to(s + t, n) == words_up_to(s, n),
    decreases n,
{
    if n > 0 {
        lemma_words_of_a_start(s, t, n - 1);
    }
}

proof fn lemma_a_word_is_gathered(s: Seq<char>, w: Seq<char>, n: int)
    requires
        is_word(w),
        0 <= n <= w.len(),
        words_up_to(s, s.len() as int).1.len() == 0,
    ensures
        words_up_to(s + w, s.len() + n) == (words_up_to(s, s.len() as int).0, w.take(n)),
    decreases n,
{
    if n > 0 {
        lemma_a_word_is_gathered(s, w, n - 1);
        assert((s + w)[s.len() + n - 1] == w[n - 1]);
        assert(w.take(n - 1).push(w[n - 1]) =~= w.take(n));
    } else {
        lemma_words_of_a_start(s, w, s.len() as int);
        assert(w.take(0) =~= words_up_to(s, s.len() as int).1);
    }
}

/// Words that are put together with a blank between neighbours come apart into
/// the same words again.
pub proof fn law_words_come_apart_again(words: Seq<Seq<char>>)
    requires
        forall|i: int| 0 <= i < words.len() ==> is_word(#[trigger] words[i]),
    ensures
        words_of(joined(words, seq![' '])) == words,
    decreases words.len(),
{
    lemma_words_come_apart(words);
    if words.len() == 0 {
        assert(words_of(joined(words, seq![' '])) =~= words);
    } else {
        assert(is_word(words[words.len() - 1]));
        assert(words.drop_last().push(words.last()) =~= words);
    }
}

proof fn lemma_words_come_apart(words: Seq<Seq<char>>)
    requires
        forall|i: int| 0 <= i < words.len() ==> is_word(#[trigger] words[i]),
    ensures
        ({
            let s = joined(words, seq![' ']);
            words.len() > 0 ==> words_up_to(s, s.len() as int) == (
                words.drop_last(),
                words.last(),
            )
        }),
    decreases words.len(),
{
    if words.len() == 1 {
        let w = words[0];
        let none = Seq::<char>::empty();
        lemma_a_word_is_gathered(none, w, w.len() as int);
        assert(none + w =~= w);
        assert(w.take(w.len() as int) =~= w);
        assert(words.drop_last() =~= words_up_to(none, 0).0);
    } else if words.len() > 1 {
        let before = words.drop_last();
        lemma_words_come_apart(before);
        let w = words.last();
        assert(is_word(words[words.len() - 1]));
        assert(is_word(words[words.len() - 2]));
        let s = joined(before, seq![' ']);
        let t = s + seq![' '];
        lemma_words_of_a_start(s, seq![' '], s.len() as int);
        assert(t[s.len() as int] == ' ');
        assert(before.drop_last().push(before.last()) =~= before);
        assert(words_up_to(t, t.len() as int) == (before, Seq::<char>::empty()));
        lemma_a_word_is_gathered(t, w, w.len() as int);
        assert(w.take(w.len() as int) =~= w);
        assert(joined(words, seq![' ']) =~= t + w);
    }
}

/// Only numerals are read as numbers: a text with anything but digits behind
/// its plus sign, if it has one, is none, nor is one without a digit. A plus
/// sign changes nothing.
pub proof fn law_only_numerals_are_read(s: Seq<char>, i: int)
    ensures
        parsed_u32(Seq::empty()) is None,
        parsed_u32(seq!['+']) is None,
        1 <= i < s.len() && !('0' <= s[i] <= '9') ==> parsed_u32(s) is None,
        s.len() > 0 && s[0] != '+' && !('0' <= s[0] <= '9') ==> parsed_u32(s) is None,
        s.len() > 0 && s[0] != '+' ==> parsed_u32(seq!['+'] + s) == parsed_u32(s),
{
    if 1 <= i < s.len() && !('0' <= s[i] <= '9') {
        let d = unsigned_part(s);
        let k = i - (s.len() - d.len());
        assert(!is_digit(d[k]));
    }
    if s.len() > 0 && s[0] != '+' {
        assert(!is_digit(s[0]) || is_digit(s[0]));
        assert(unsigned_part(seq!['+'] + s) =~= s);
    }
}

/// Texts are put together in the order in which they are given, and are the same
/// or start alike by their characters alone.
pub proof fn law_texts_are_put_together_in_order(
    a: &str,
    b: &str,
    c: &str,
    d: &str,
    e: &str,
    two: String,
    three: String,
    four: String,
    five: String,
    same: bool,
    begins: bool,
)
    requires
        call_ensures(cat2, (a, b), two),
        call_ensures(cat3, (a, b, c), three),
        call_ensures(cat4, (a, b, c, d), four),
        call_ensures(cat5, (a, b, c, d, e), five),
        call_ensures(same_text, (a, b), same),
        call_ensures(begins_with, (a, b), begins),
    ensures
        two@ == a@ + b@,
        three@ == a@ + b@ + c@,
        four@ == a@ + b@ + c@ + d@,
        five@ == a@ + b@ + c@ + d@ + e@,
        same <==> a@ == b@,
        begins <==> b@.len() <= a@.len() && a@.take(b@.len() as int) == b@,
{
    if b@.len() <= a@.len() {
        assert(a@.take(b@.len() as int) =~= a@.subrange(0, b@.len() as int));
    }
}

/// The functions on texts do what is said of texts here.
pub proof fn law_texts_are_taken_by_their_characters(
    s: &str,
    parts: &Vec<String>,
    n: u128,
    numeral: String,
    joint: String,
    words: Vec<String>,
    number: Option<u32>,
    chars: Vec<char>,
    c: char,
    blank: bool,
    some: &Option<String>,
    copy: Option<String>,
)
    requires
        call_ensures(decimal, (n,), numeral),
        call_ensures(join, (parts, s), joint),
        call_ensures(split_words, (s,), words),
        call_ensures(parse_u32, (s,), number),
        call_ensures(chars_of, (s,), chars),
        call_ensures(white, (c,), blank),
        call_ensures(copy_optional, (some,), copy),
    ensures
        numeral@ == decimal_text(n as nat),
        joint@ == joined(texts(parts@), s@),
        texts(words@) == words_of(s@),
        number == parsed_u32(s@),
        chars@ == s@,
        blank <==> is_white(c),
        copy is Some <==> some is Some,
        copy is Some ==> copy->0@ == some->0@,
{
}

/// A stretch of characters becomes the text of just those, and a stretch is
/// trimmed at both of its ends.
pub proof fn law_stretches_are_cut_where_they_end(
    cs: &[char],
    v: &Vec<char>,
    from: usize,
    to: usize,
    out: String,
    range: (usize, usize),
)
    requires
        from <= to <= cs@.len(),
        from <= to <= v@.len(),
        call_ensures(text_of, (cs, from, to), out),
        call_ensures(trim_range, (v, from, to), range),
    ensures
        out@ == cs@.subrange(from as int, to as int),
        from <= range.0 <= range.1 <= to,
        v@.subrange(range.0 as int, range.1 as int) == trimmed(
            v@.subrange(from as int, to as int),
        ),
{
}

/// The texts of a list are those of its strings, one for one and in order, and
/// an optional string has a text where it is there.
pub proof fn law_a_list_has_the_texts_of_its_strings(v: Seq<String>, i: int, s: String)
    ensures
        texts(v).len() == v.len(),
        0 <= i < v.len() ==> texts(v)[i] == v[i]@,
        optional(Some(s)) == Some(s@),
        optional(None) == None::<Seq<char>>,
{
}

} // verus!
