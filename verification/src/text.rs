//! Text, character by character.

use vstd::prelude::*;
use vstd::string::*;

verus! {

/// Whether two texts hold the same characters.
pub fn same(a: &str, b: &str) -> (equal: bool)
    ensures
        equal == (a@ == b@),
{
    a.to_owned() == b.to_owned()
}

/// The characters of an optional name.
pub open spec fn name_view(name: Option<String>) -> Option<Seq<char>> {
    match name {
        Some(text) => Some(text@),
        None => None,
    }
}

/// The text of an optional name.
pub fn name_ref(name: &Option<String>) -> (text: Option<&str>)
    ensures
        match text {
            Some(text) => name_view(*name) == Some(text@),
            None => name_view(*name) is None,
        },
{
    match name {
        Some(text) => Some(text.as_str()),
        None => None,
    }
}

/// Whether an optional name is this one.
pub fn named(name: &Option<String>, id: &str) -> (is_named: bool)
    ensures
        is_named == (name_view(*name) == Some(id@)),
{
    match name {
        Some(text) => same(text.as_str(), id),
        None => false,
    }
}

/// An optional name of one's own.
pub fn owned(name: Option<&str>) -> (copy: Option<String>)
    ensures
        name_view(copy) == (match name {
            Some(name) => Some(name@),
            None => None,
        }),
{
    match name {
        Some(name) => Some(name.to_owned()),
        None => None,
    }
}

/// The characters of a text, in order.
pub fn chars_of(text: &str) -> (chars: Vec<char>)
    ensures
        chars@ == text@,
{
    let mut chars: Vec<char> = Vec::new();
    for c in it: text.chars()
        invariant
            it.seq() == text@,
            chars@ == text@.take(it.index() as int),
    {
        chars.push(c);
        assert(text@.take(it.index() + 1) =~= text@.take(it.index() as int).push(c));
    }
    assert(text@.take(text@.len() as int) =~= text@);
    chars
}

/// The characters Unicode calls white space.
pub open spec fn is_white_space(c: char) -> bool {
    ||| '\u{9}' <= c <= '\u{D}'
    ||| c == ' '
    ||| c == '\u{85}'
    ||| c == '\u{A0}'
    ||| c == '\u{1680}'
    ||| '\u{2000}' <= c <= '\u{200A}'
    ||| c == '\u{2028}'
    ||| c == '\u{2029}'
    ||| c == '\u{202F}'
    ||| c == '\u{205F}'
    ||| c == '\u{3000}'
}

pub fn white_space(c: char) -> (white: bool)
    ensures
        white == is_white_space(c),
{
    ('\u{9}' <= c && c <= '\u{D}') || c == ' ' || c == '\u{85}' || c == '\u{A0}' || c == '\u{1680}'
        || ('\u{2000}' <= c && c <= '\u{200A}') || c == '\u{2028}' || c == '\u{2029}' || c
        == '\u{202F}' || c == '\u{205F}' || c == '\u{3000}'
}

/// The text without the white space it begins with.
pub open spec fn trim_start(text: Seq<char>) -> Seq<char>
    decreases text.len(),
{
    if text.len() > 0 && is_white_space(text[0]) {
        trim_start(text.drop_first())
    } else {
        text
    }
}

/// The text without the white space it ends with.
pub open spec fn trim_end(text: Seq<char>) -> Seq<char>
    decreases text.len(),
{
    if text.len() > 0 && is_white_space(text.last()) {
        trim_end(text.drop_last())
    } else {
        text
    }
}

/// The text without white space around it.
pub open spec fn trimmed(text: Seq<char>) -> Seq<char> {
    trim_end(trim_start(text))
}

pub fn trim(text: &str) -> (inner: String)
    ensures
        inner@ == trimmed(text@),
{
    let chars = chars_of(text);
    let mut from: usize = 0;
    assert(text@.skip(0) =~= text@);
    while from < chars.len() && white_space(chars[from])
        invariant
            chars@ == text@,
            from <= chars.len(),
            trim_start(text@) == trim_start(text@.skip(from as int)),
        decreases chars.len() - from,
    {
        assert(text@.skip(from as int).drop_first() =~= text@.skip(from + 1));
        from = from + 1;
    }
    assert(trim_start(text@) == text@.skip(from as int));
    let mut to: usize = chars.len();
    assert(text@.subrange(from as int, to as int) =~= text@.skip(from as int));
    while from < to && white_space(chars[to - 1])
        invariant
            chars@ == text@,
            from <= to <= chars.len(),
            trimmed(text@) == trim_end(text@.subrange(from as int, to as int)),
        decreases to,
    {
        assert(text@.subrange(from as int, to as int).drop_last() =~= text@.subrange(
            from as int,
            to - 1,
        ));
        to = to - 1;
    }
    text.substring_char(from, to).to_owned()
}

/// Whether there is nothing in the text but white space.
pub open spec fn is_blank(text: Seq<char>) -> bool {
    forall|i: int| 0 <= i < text.len() ==> is_white_space(#[trigger] text[i])
}

/// What is left of a text after trimming is empty exactly when the text was
/// blank.
pub proof fn lemma_trimming_what_is_blank(text: Seq<char>)
    ensures
        trimmed(text).len() == 0 <==> is_blank(text),
    decreases text.len(),
{
    if text.len() > 0 && is_white_space(text[0]) {
        let rest = text.drop_first();
        lemma_trimming_what_is_blank(rest);
        if is_blank(rest) {
            assert forall|i: int| 0 <= i < text.len() implies is_white_space(#[trigger] text[i]) by {
                if i > 0 {
                    assert(rest[i - 1] == text[i]);
                }
            }
        } else {
            let i = choose|i: int| 0 <= i < rest.len() && !is_white_space(#[trigger] rest[i]);
            assert(!is_white_space(text[i + 1]));
        }
    } else if text.len() > 0 {
        assert(!is_blank(text));
        lemma_trim_end_keeps_the_front(text);
    }
}

proof fn lemma_trim_end_keeps_the_front(text: Seq<char>)
    requires
        text.len() > 0,
        !is_white_space(text[0]),
    ensures
        trim_end(text).len() > 0,
    decreases text.len(),
{
    if is_white_space(text.last()) {
        assert(text.len() > 1);
        assert(text.drop_last()[0] == text[0]);
        lemma_trim_end_keeps_the_front(text.drop_last());
    }
}

pub fn blank(text: &str) -> (empty: bool)
    ensures
        empty == is_blank(text@),
{
    let chars = chars_of(text);
    let mut i: usize = 0;
    while i < chars.len()
        invariant
            chars@ == text@,
            i <= chars.len(),
            forall|j: int| 0 <= j < i ==> is_white_space(#[trigger] text@[j]),
        decreases chars.len() - i,
    {
        if !white_space(chars[i]) {
            assert(!is_white_space(text@[i as int]));
            return false;
        }
        i = i + 1;
    }
    true
}

/// How many words there are: the places where something that is not white
/// space follows white space or the beginning.
pub open spec fn words(text: Seq<char>) -> nat
    decreases text.len(),
{
    if text.len() == 0 {
        0
    } else {
        let before = words(text.drop_last());
        if !is_white_space(text.last()) && (text.len() == 1 || is_white_space(
            text[text.len() - 2],
        )) {
            before + 1
        } else {
            before
        }
    }
}

pub fn word_count(text: &str) -> (count: usize)
    ensures
        count == words(text@),
{
    let chars = chars_of(text);
    let mut count: usize = 0;
    let mut apart: bool = true;
    let mut i: usize = 0;
    while i < chars.len()
        invariant
            chars@ == text@,
            i <= chars.len(),
            count == words(text@.take(i as int)),
            count <= i,
            apart == (i == 0 || is_white_space(text@[i - 1])),
        decreases chars.len() - i,
    {
        proof {
            let seen = text@.take(i + 1);
            assert(seen.drop_last() =~= text@.take(i as int));
            assert(seen.last() == text@[i as int]);
            if i > 0 {
                assert(seen[seen.len() - 2] == text@[i - 1]);
            }
        }
        let white = white_space(chars[i]);
        if !white && apart {
            count = count + 1;
        }
        apart = white;
        i = i + 1;
    }
    assert(text@.take(text@.len() as int) =~= text@);
    count
}

/// Where a character first stands, from a place on.
pub fn place_of(chars: &Vec<char>, from: usize, c: char) -> (at: Option<usize>)
    requires
        from <= chars.len(),
    ensures
        match at {
            Some(at) => from <= at < chars.len() && chars@.skip(from as int).index_of_first(c)
                == Some(at - from),
            None => chars@.skip(from as int).index_of_first(c) is None,
        },
{
    let ghost rest = chars@.skip(from as int);
    proof {
        rest.index_of_first_ensures(c);
    }
    let mut i: usize = from;
    while i < chars.len()
        invariant
            from <= i <= chars.len(),
            rest == chars@.skip(from as int),
            forall|j: int| 0 <= j < i - from ==> #[trigger] rest[j] != c,
        decreases chars.len() - i,
    {
        if chars[i] == c {
            proof {
                rest.index_of_first_ensures(c);
                assert(rest[i - from] == c);
            }
            return Some(i);
        }
        assert(rest[i - from] != c);
        i = i + 1;
    }
    None
}

/// The characters from one place up to another.
pub fn part_of(chars: &Vec<char>, from: usize, to: usize) -> (part: Vec<char>)
    requires
        from <= to <= chars.len(),
    ensures
        part@ == chars@.subrange(from as int, to as int),
{
    let mut part: Vec<char> = Vec::new();
    let mut i: usize = from;
    while i < to
        invariant
            from <= i <= to <= chars.len(),
            part@ == chars@.subrange(from as int, i as int),
        decreases to - i,
    {
        part.push(chars[i]);
        i = i + 1;
        assert(part@ =~= chars@.subrange(from as int, i as int));
    }
    part
}

/// What a text is in lower case.
pub uninterp spec fn lowercase(text: Seq<char>) -> Seq<char>;

/// Calls `str::to_lowercase`. The claim is only that its result depends on the
/// characters of the text and nothing else: the mapping is Unicode's, and it
/// takes no locale.
#[verifier::external_body]
pub(crate) fn lower(text: &str) -> (lowered: String)
    ensures
        lowered@ == lowercase(text@),
{
    text.to_lowercase()
}

/// What a character is in upper case, which may be more than one character.
pub uninterp spec fn uppercase(c: char) -> Seq<char>;

/// Calls `char::to_uppercase`. The claim is only that its result depends on the
/// character and nothing else: the mapping is Unicode's, and it takes no
/// locale.
#[verifier::external_body]
pub(crate) fn upper(c: char) -> (raised: String)
    ensures
        raised@ == uppercase(c),
{
    c.to_uppercase().to_string()
}

/// A letter of the Latin alphabet in lower case; anything else as it is.
pub open spec fn ascii_lower(c: char) -> char {
    if 'A' <= c <= 'Z' {
        ((c as u32) + 32) as char
    } else {
        c
    }
}

/// Whether two texts are the same but for the case of Latin letters.
pub open spec fn same_but_case(a: Seq<char>, b: Seq<char>) -> bool {
    a.len() == b.len() && forall|i: int|
        0 <= i < a.len() ==> ascii_lower(#[trigger] a[i]) == ascii_lower(b[i])
}

fn ascii_code(c: char) -> (code: u32)
    ensures
        code == ascii_lower(c) as u32,
{
    if 'A' <= c && c <= 'Z' {
        c as u32 + 32
    } else {
        c as u32
    }
}

pub fn eq_ignore_ascii_case(a: &str, b: &str) -> (equal: bool)
    ensures
        equal == same_but_case(a@, b@),
{
    let left = chars_of(a);
    let right = chars_of(b);
    if left.len() != right.len() {
        return false;
    }
    let mut i: usize = 0;
    while i < left.len()
        invariant
            left@ == a@,
            right@ == b@,
            left.len() == right.len(),
            i <= left.len(),
            forall|j: int| 0 <= j < i ==> ascii_lower(#[trigger] a@[j]) == ascii_lower(b@[j]),
        decreases left.len() - i,
    {
        if ascii_code(left[i]) != ascii_code(right[i]) {
            assert(ascii_lower(a@[i as int]) != ascii_lower(b@[i as int]));
            return false;
        }
        i = i + 1;
    }
    true
}

/// The sign for a digit.
pub open spec fn digit_char(d: nat) -> char {
    (48 + d) as char
}

/// A number written in base ten.
pub open spec fn decimal(n: nat) -> Seq<char>
    decreases n,
{
    if n < 10 {
        seq![digit_char(n)]
    } else {
        decimal(n / 10).push(digit_char(n % 10))
    }
}

fn digit(d: u128) -> (sign: &'static str)
    requires
        d < 10,
    ensures
        sign@ == seq![digit_char(d as nat)],
{
    proof {
        reveal_strlit("0");
        reveal_strlit("1");
        reveal_strlit("2");
        reveal_strlit("3");
        reveal_strlit("4");
        reveal_strlit("5");
        reveal_strlit("6");
        reveal_strlit("7");
        reveal_strlit("8");
        reveal_strlit("9");
    }
    match d {
        0 => "0",
        1 => "1",
        2 => "2",
        3 => "3",
        4 => "4",
        5 => "5",
        6 => "6",
        7 => "7",
        8 => "8",
        _ => "9",
    }
}

pub fn number(n: u128) -> (written: String)
    ensures
        written@ == decimal(n as nat),
    decreases n,
{
    if n < 10 {
        digit(n).to_owned()
    } else {
        let mut written = number(n / 10);
        written.append(digit(n % 10));
        written
    }
}

/// Different numbers are written differently.
pub proof fn lemma_decimal_is_injective(a: nat, b: nat)
    requires
        decimal(a) == decimal(b),
    ensures
        a == b,
    decreases a,
{
    lemma_decimal_is_not_empty(a / 10);
    lemma_decimal_is_not_empty(b / 10);
    assert(decimal(a).last() == digit_char(a % 10));
    assert(decimal(b).last() == digit_char(b % 10));
    assert(a % 10 == b % 10);
    if a >= 10 && b >= 10 {
        assert(decimal(a).drop_last() =~= decimal(a / 10));
        assert(decimal(b).drop_last() =~= decimal(b / 10));
        lemma_decimal_is_injective(a / 10, b / 10);
    }
}

proof fn lemma_decimal_is_not_empty(n: nat)
    ensures
        decimal(n).len() > 0,
{
}

/// A number written with at least two digits.
pub open spec fn two_digits(n: nat) -> Seq<char> {
    if n < 10 {
        seq!['0'] + decimal(n)
    } else {
        decimal(n)
    }
}

/// Minutes and seconds, as a clock shows them.
pub open spec fn clock_time(seconds: nat) -> Seq<char> {
    decimal(seconds / 60) + seq![':'] + two_digits(seconds % 60)
}

pub fn clock_text(seconds: u64) -> (written: String)
    ensures
        written@ == clock_time(seconds as nat),
{
    proof {
        reveal_strlit(":");
        reveal_strlit(":0");
    }
    let mut written = number((seconds / 60) as u128);
    let rest = seconds % 60;
    if rest < 10 {
        written.append(":0");
    } else {
        written.append(":");
    }
    written.append(number(rest as u128).as_str());
    assert(written@ =~= clock_time(seconds as nat));
    written
}

/// Which characters are white space, by their numbers.
pub proof fn lemma_white_space_by_number(c: char)
    ensures
        is_white_space(c) <==> {
            let n = c as u32;
            ||| 0x9 <= n <= 0xd
            ||| n == 0x20 || n == 0x85 || n == 0xa0 || n == 0x1680
            ||| 0x2000 <= n <= 0x200a
            ||| n == 0x2028 || n == 0x2029 || n == 0x202f || n == 0x205f || n == 0x3000
        },
{
}

/// Trimming takes white space off the two ends and nothing else: what is left
/// is a stretch of the text with only white space on either side of it, and it
/// neither begins nor ends with any.
pub proof fn lemma_trimming_takes_only_the_ends(text: Seq<char>)
    ensures
        exists|from: int, to: int|
            0 <= from <= to <= text.len() && trimmed(text) == #[trigger] text.subrange(from, to)
                && is_blank(text.take(from)) && is_blank(text.skip(to)),
        trimmed(text).len() > 0 ==> !is_white_space(trimmed(text)[0]) && !is_white_space(
            trimmed(text).last(),
        ),
        trimmed(trimmed(text)) == trimmed(text),
{
    let from = lemma_trim_start_cut(text);
    let rest = trim_start(text);
    let cut = lemma_trim_end_cut(rest);
    assert(trimmed(text) =~= text.subrange(from, from + cut));
    assert forall|i: int| 0 <= i < text.skip(from + cut).len() implies is_white_space(
        #[trigger] text.skip(from + cut)[i],
    ) by {
        assert(text.skip(from + cut)[i] == rest.skip(cut)[i]);
    }
    if trimmed(text).len() > 0 {
        assert(trimmed(text)[0] == rest[0]);
    }
}

proof fn lemma_trim_start_cut(text: Seq<char>) -> (from: int)
    ensures
        0 <= from <= text.len(),
        trim_start(text) == text.skip(from),
        is_blank(text.take(from)),
        trim_start(text).len() > 0 ==> !is_white_space(trim_start(text)[0]),
    decreases text.len(),
{
    if text.len() > 0 && is_white_space(text[0]) {
        let from = lemma_trim_start_cut(text.drop_first());
        assert(text.drop_first().skip(from) =~= text.skip(from + 1));
        assert forall|i: int| 0 <= i < from + 1 implies is_white_space(
            #[trigger] text.take(from + 1)[i],
        ) by {
            if i > 0 {
                assert(text.take(from + 1)[i] == text.drop_first().take(from)[i - 1]);
            }
        }
        from + 1
    } else {
        assert(text.skip(0) =~= text);
        0
    }
}

proof fn lemma_trim_end_cut(text: Seq<char>) -> (to: int)
    ensures
        0 <= to <= text.len(),
        trim_end(text) == text.take(to),
        is_blank(text.skip(to)),
        to > 0 ==> !is_white_space(text[to - 1]),
    decreases text.len(),
{
    if text.len() > 0 && is_white_space(text.last()) {
        let to = lemma_trim_end_cut(text.drop_last());
        assert(text.drop_last().take(to) =~= text.take(to));
        assert forall|i: int| 0 <= i < text.skip(to).len() implies is_white_space(
            #[trigger] text.skip(to)[i],
        ) by {
            if i < text.len() - to - 1 {
                assert(text.skip(to)[i] == text.drop_last().skip(to)[i]);
            }
        }
        to
    } else {
        assert(text.take(text.len() as int) =~= text);
        text.len() as int
    }
}

/// Words are what white space stands between: there are none in white space, a
/// run of anything else is one, and two texts with white space between them
/// have the words of both.
pub proof fn lemma_words_are_what_white_space_parts(a: Seq<char>, gap: char, b: Seq<char>)
    ensures
        is_blank(a) ==> words(a) == 0,
        a.len() > 0 && (forall|i: int| 0 <= i < a.len() ==> !is_white_space(#[trigger] a[i]))
            ==> words(a) == 1,
        is_white_space(gap) ==> words(a.push(gap) + b) == words(a) + words(b),
    decreases a.len() + b.len(),
{
    if is_blank(a) && a.len() > 0 {
        assert(is_blank(a.drop_last()));
        lemma_words_are_what_white_space_parts(a.drop_last(), gap, Seq::empty());
    }
    if a.len() > 0 && (forall|i: int| 0 <= i < a.len() ==> !is_white_space(#[trigger] a[i])) {
        if a.len() > 1 {
            lemma_words_are_what_white_space_parts(a.drop_last(), gap, Seq::empty());
        } else {
            assert(words(a.drop_last()) == 0);
        }
    }
    if is_white_space(gap) {
        let whole = a.push(gap) + b;
        if b.len() == 0 {
            assert(whole =~= a.push(gap));
            assert(whole.drop_last() =~= a);
        } else {
            lemma_words_are_what_white_space_parts(a, gap, b.drop_last());
            assert(whole.drop_last() =~= a.push(gap) + b.drop_last());
            if b.len() == 1 {
                assert(whole[whole.len() - 2] == gap);
            } else {
                assert(whole[whole.len() - 2] == b[b.len() - 2]);
            }
        }
    }
}

/// The number that a row of digits comes to.
pub open spec fn reading(digits: Seq<char>) -> int
    decreases digits.len(),
{
    if digits.len() == 0 {
        0
    } else {
        10 * reading(digits.drop_last()) + (digits.last() as u32 - '0' as u32)
    }
}

/// A number that is written reads back as itself, in digits alone, and begins
/// with a zero only where it is one.
pub proof fn lemma_a_number_reads_back(n: nat)
    ensures
        reading(decimal(n)) == n,
        forall|i: int| 0 <= i < decimal(n).len() ==> '0' <= #[trigger] decimal(n)[i] <= '9',
        decimal(n)[0] == '0' ==> n == 0,
        n == 0 ==> decimal(n) == seq!['0'],
    decreases n,
{
    if n < 10 {
        assert(decimal(n).drop_last() =~= Seq::empty());
        assert(reading(decimal(n).drop_last()) == 0);
    } else {
        lemma_a_number_reads_back(n / 10);
        assert(decimal(n).drop_last() =~= decimal(n / 10));
        assert(decimal(n)[0] == decimal(n / 10)[0]);
    }
}

/// Minutes and seconds are told apart by the colon: what stands before it is
/// the whole minutes, and the two digits after it are the seconds left over.
pub proof fn lemma_a_clock_shows_minutes_and_seconds(seconds: nat)
    ensures
        ({
            let shown = clock_time(seconds);
            let colon = shown.len() - 3;
            &&& colon > 0
            &&& shown[colon] == ':'
            &&& 60 * reading(shown.take(colon)) + reading(shown.skip(colon + 1)) == seconds
            &&& 0 <= reading(shown.skip(colon + 1)) < 60
            &&& shown.take(colon) == decimal(seconds / 60)
        }),
{
    let (minutes, rest) = (seconds / 60, seconds % 60);
    let shown = clock_time(seconds);
    lemma_a_number_reads_back(minutes);
    lemma_a_number_reads_back(rest);
    lemma_decimal_is_not_empty(minutes);
    if rest >= 10 {
        assert(decimal(rest / 10).len() == 1);
    }
    assert(two_digits(rest).len() == 2);
    assert(shown.take(shown.len() - 3) =~= decimal(minutes));
    assert(shown.skip(shown.len() - 2) =~= two_digits(rest));
    if rest < 10 {
        let digits = two_digits(rest);
        assert(digits.drop_last() =~= seq!['0']);
        assert(seq!['0'].drop_last() =~= Seq::<char>::empty());
        assert(reading(Seq::<char>::empty()) == 0);
        assert(reading(seq!['0']) == 0);
        assert(decimal(rest).drop_last() =~= Seq::<char>::empty());
        assert(digits.last() == decimal(rest).last());
        assert(reading(digits) == rest);
    }
}

/// Case is the only thing that does not matter: a Latin capital is the same as
/// the letter it is the capital of, any other two characters are the same only
/// where they are one, and texts of different lengths never are.
pub proof fn lemma_only_case_is_overlooked(a: char, b: char)
    ensures
        same_but_case(seq![a], seq![b]) <==> {
            ||| a == b
            ||| 'A' <= a <= 'Z' && b as u32 == a as u32 + 32
            ||| 'A' <= b <= 'Z' && a as u32 == b as u32 + 32
        },
        forall|s: Seq<char>, t: Seq<char>|
            #[trigger] same_but_case(s, t) ==> s.len() == t.len() && same_but_case(t, s),
        forall|s: Seq<char>| #[trigger] same_but_case(s, s),
{
    let (s, t) = (seq![a], seq![b]);
    if same_but_case(s, t) {
        assert(ascii_lower(s[0]) == ascii_lower(t[0]));
    }
    assert(ascii_lower(a) == ascii_lower(b) ==> same_but_case(s, t));
}

} // verus!
