//! Text that the backends print: decimal and hexadecimal integers, and the
//! ASCII operations that device selection needs.

use vstd::prelude::*;
use vstd::string::StringExecFns;

verus! {

/// The character of a decimal or lower-case hexadecimal digit.
pub open spec fn digit_char(d: int) -> char {
    if d == 0 { '0' }
    else if d == 1 { '1' }
    else if d == 2 { '2' }
    else if d == 3 { '3' }
    else if d == 4 { '4' }
    else if d == 5 { '5' }
    else if d == 6 { '6' }
    else if d == 7 { '7' }
    else if d == 8 { '8' }
    else if d == 9 { '9' }
    else if d == 10 { 'a' }
    else if d == 11 { 'b' }
    else if d == 12 { 'c' }
    else if d == 13 { 'd' }
    else if d == 14 { 'e' }
    else { 'f' }
}

/// A result with its error text taken as characters.
pub open spec fn viewed<T>(r: Result<T, String>) -> Result<T, Seq<char>> {
    match r {
        Ok(value) => Ok(value),
        Err(error) => Err(error@),
    }
}

/// A natural number in decimal, without leading zeros.
pub open spec fn decimal_text(n: nat) -> Seq<char>
    decreases n,
{
    if n < 10 {
        seq![digit_char(n as int)]
    } else {
        decimal_text(n / 10).push(digit_char((n % 10) as int))
    }
}

/// An integer in decimal, with a leading `-` when it is negative.
pub open spec fn signed_decimal_text(n: int) -> Seq<char> {
    if n < 0 {
        seq!['-'] + decimal_text((-n) as nat)
    } else {
        decimal_text(n as nat)
    }
}

/// The one-character text of a digit.
fn digit_str(d: u32) -> (r: &'static str)
    requires
        d < 16,
    ensures
        r@ == seq![digit_char(d as int)],
{
    proof {
        reveal_strlit("0");
        reveal_strlit("1");
        reveal_strlit("2");
        reveal_strlit("3");
        reveal_strlit("4");
        reveal_strlit("5");
        reveal_strlit("6");
        reveal_strlit("7");
        reveal_strlit("8");
        reveal_strlit("9");
        reveal_strlit("a");
        reveal_strlit("b");
        reveal_strlit("c");
        reveal_strlit("d");
        reveal_strlit("e");
        reveal_strlit("f");
    }
    match d {
        0 => "0",
        1 => "1",
        2 => "2",
        3 => "3",
        4 => "4",
        5 => "5",
        6 => "6",
        7 => "7",
        8 => "8",
        9 => "9",
        10 => "a",
        11 => "b",
        12 => "c",
        13 => "d",
        14 => "e",
        _ => "f",
    }
}

/// Appends `n` in decimal.
pub fn push_decimal(out: &mut String, n: u64)
    ensures
        final(out)@ == old(out)@ + decimal_text(n as nat),
    decreases n,
{
    if n >= 10 {
        push_decimal(out, n / 10);
    }
    out.append(digit_str((n % 10) as u32));
}


/// `n` in decimal.
pub fn decimal(n: u64) -> (r: String)
    ensures
        r@ == decimal_text(n as nat),
{
    let mut out = String::new();
    push_decimal(&mut out, n);
    assert(out@ =~= decimal_text(n as nat));
    out
}

/// `n` in decimal, with its sign when it is negative.
pub fn signed_decimal(n: i32) -> (r: String)
    ensures
        r@ == signed_decimal_text(n as int),
{
    if n < 0 {
        let mut out = "-".to_owned();
        proof {
            reveal_strlit("-");
        }
        push_decimal(&mut out, (-(n as i64)) as u64);
        assert(out@ =~= signed_decimal_text(n as int));
        out
    } else {
        decimal(n as u64)
    }
}

/// Eight lower-case hexadecimal digits of a word, the high digit first.
pub open spec fn hex_word_text(n: u32) -> Seq<char> {
    seq![
        digit_char((n / 0x1000_0000) as int % 16),
        digit_char((n / 0x100_0000) as int % 16),
        digit_char((n / 0x10_0000) as int % 16),
        digit_char((n / 0x1_0000) as int % 16),
        digit_char((n / 0x1000) as int % 16),
        digit_char((n / 0x100) as int % 16),
        digit_char((n / 0x10) as int % 16),
        digit_char(n as int % 16),
    ]
}

/// A word as eight lower-case hexadecimal digits.
pub fn hex_word(n: u32) -> (r: String)
    ensures
        r@ == hex_word_text(n),
{
    let mut out = digit_str(n / 0x1000_0000 % 16).to_owned();
    out.append(digit_str(n / 0x100_0000 % 16));
    out.append(digit_str(n / 0x10_0000 % 16));
    out.append(digit_str(n / 0x1_0000 % 16));
    out.append(digit_str(n / 0x1000 % 16));
    out.append(digit_str(n / 0x100 % 16));
    out.append(digit_str(n / 0x10 % 16));
    out.append(digit_str(n % 16));
    assert(out@ =~= hex_word_text(n));
    out
}

/// The characters of a string.
pub(crate) fn chars_of(s: &str) -> (r: Vec<char>)
    ensures
        r@ == s@,
{
    let mut out: Vec<char> = Vec::new();
    for c in it: s.chars()
        invariant
            out@ == it.seq().take(it.index() as int),
            it.seq() == s@,
    {
        out.push(c);
    }
    out
}

/// The lower-case form of an ASCII letter; every other character as it is.
pub open spec fn ascii_lower_char(c: char) -> char {
    if 'A' <= c && c <= 'Z' {
        ((c as u32) + 32) as char
    } else {
        c
    }
}

/// A text with its ASCII letters in lower case.
pub open spec fn ascii_lower(s: Seq<char>) -> Seq<char> {
    s.map_values(|c: char| ascii_lower_char(c))
}

/// The characters of `s`, its ASCII letters in lower case.
pub(crate) fn ascii_lower_chars(s: &str) -> (r: Vec<char>)
    ensures
        r@ == ascii_lower(s@),
{
    let chars = chars_of(s);
    let mut out: Vec<char> = Vec::new();
    let mut i: usize = 0;
    while i < chars.len()
        invariant
            chars@ == s@,
            i <= chars.len(),
            out@ == ascii_lower(s@).take(i as int),
        decreases chars.len() - i,
    {
        let c = chars[i];
        if 'A' <= c && c <= 'Z' {
            out.push((c as u8 + 32) as char);
        } else {
            out.push(c);
        }
        assert(out@ =~= ascii_lower(s@).take(i as int + 1));
        i += 1;
    }
    assert(ascii_lower(s@).take(i as int) =~= ascii_lower(s@));
    out
}

/// Whether `word` occurs in `s` at position `at`.
pub open spec fn occurs_at(s: Seq<char>, word: Seq<char>, at: int) -> bool {
    &&& 0 <= at
    &&& at + word.len() <= s.len()
    &&& s.subrange(at, at + word.len()) == word
}

/// Whether `word` occurs in `s`.
pub open spec fn contains_text(s: Seq<char>, word: Seq<char>) -> bool {
    exists|at: int| occurs_at(s, word, at)
}

/// Whether `word` occurs at position `at`.
fn matches_at(s: &Vec<char>, word: &Vec<char>, at: usize) -> (r: bool)
    requires
        at + word.len() <= s.len(),
    ensures
        r == occurs_at(s@, word@, at as int),
{
    let mut i: usize = 0;
    while i < word.len()
        invariant
            at + word.len() <= s.len(),
            i <= word.len(),
            forall|k: int| 0 <= k < i ==> s@[at + k] == word@[k],
        decreases word.len() - i,
    {
        if s[at + i] != word[i] {
            assert(s@.subrange(at as int, at + word@.len())[i as int] != word@[i as int]);
            return false;
        }
        i += 1;
    }
    assert(s@.subrange(at as int, at + word@.len()) =~= word@);
    true
}

/// Whether `word` occurs in `s`.
pub(crate) fn contains(s: &Vec<char>, word: &str) -> (r: bool)
    ensures
        r == contains_text(s@, word@),
{
    let word_chars = chars_of(word);
    if word_chars.len() > s.len() {
        return false;
    }
    let last: usize = s.len() - word_chars.len();
    let mut at: usize = 0;
    loop
        invariant
            word_chars@ == word@,
            word_chars.len() <= s.len(),
            last == s.len() - word_chars.len(),
            at <= last,
            forall|k: int| 0 <= k < at ==> !occurs_at(s@, word@, k),
        decreases last - at,
    {
        if matches_at(s, &word_chars, at) {
            return true;
        }
        if at == last {
            return false;
        }
        at += 1;
    }
}

/// The characters that separate words: space, tab, line feed, form feed and
/// carriage return.
pub open spec fn is_ascii_space(c: char) -> bool {
    c == ' ' || c == '\t' || c == '\n' || c == '\u{c}' || c == '\r'
}

fn ascii_space(c: char) -> (r: bool)
    ensures
        r == is_ascii_space(c),
{
    c == ' ' || c == '\t' || c == '\n' || c == '\u{c}' || c == '\r'
}

/// Whether `word` stands in `s` at `at` as a whole word: with white space or
/// an end of the text on either side.
pub open spec fn word_at(s: Seq<char>, word: Seq<char>, at: int) -> bool {
    &&& occurs_at(s, word, at)
    &&& at == 0 || is_ascii_space(s[at - 1])
    &&& at + word.len() == s.len() || is_ascii_space(s[at + word.len()])
}

/// Whether `word` is one of the white-space separated words of `s`.
pub open spec fn has_word(s: Seq<char>, word: Seq<char>) -> bool {
    exists|at: int| word_at(s, word, at)
}

/// Whether `word` is one of the white-space separated words of `text`.
pub(crate) fn contains_word(text: &str, word: &str) -> (r: bool)
    ensures
        r == has_word(text@, word@),
{
    let s = chars_of(text);
    let w = chars_of(word);
    if w.len() > s.len() {
        return false;
    }
    let last: usize = s.len() - w.len();
    let mut at: usize = 0;
    loop
        invariant
            w@ == word@,
            s@ == text@,
            w.len() <= s.len(),
            last == s.len() - w.len(),
            at <= last,
            forall|k: int| 0 <= k < at ==> !word_at(s@, word@, k),
        decreases last - at,
    {
        if matches_at(&s, &w, at) && (at == 0 || ascii_space(s[at - 1])) && (at == last
            || ascii_space(s[at + w.len()])) {
            assert(word_at(s@, word@, at as int));
            return true;
        }
        assert(!word_at(s@, word@, at as int));
        if at == last {
            return false;
        }
        at += 1;
    }
}

/// The texts one after another.
pub open spec fn joined(parts: Seq<Seq<char>>) -> Seq<char>
    decreases parts.len(),
{
    if parts.len() == 0 {
        Seq::empty()
    } else {
        joined(parts.drop_last()) + parts.last()
    }
}

/// What the strings hold.
pub open spec fn texts(parts: Seq<&str>) -> Seq<Seq<char>> {
    parts.map_values(|part: &str| part@)
}

/// The strings one after another.
pub fn concat(parts: &Vec<&str>) -> (r: String)
    ensures
        r@ == joined(texts(parts@)),
{
    let mut text = String::new();
    for i in 0..parts.len()
        invariant
            text@ == joined(texts(parts@.take(i as int))),
    {
        proof {
            assert(texts(parts@.take(i + 1)).drop_last() == texts(parts@.take(i as int)));
        }
        text.append(parts[i]);
    }
    proof {
        assert(parts@.take(parts@.len() as int) == parts@);
    }
    text
}


/// Joining distributes over appending.
pub proof fn lemma_joined_add(a: Seq<Seq<char>>, b: Seq<Seq<char>>)
    ensures
        joined(a + b) == joined(a) + joined(b),
    decreases b.len(),
{
    if b.len() == 0 {
        assert(a + b == a);
        assert(joined(a) + joined(b) == joined(a));
    } else {
        lemma_joined_add(a, b.drop_last());
        assert((a + b).drop_last() == a + b.drop_last());
        assert((joined(a) + joined(b.drop_last())) + b.last() == joined(a) + (joined(b.drop_last())
            + b.last()));
    }
}

/// Three parts that follow one another occur in the joined text.
pub proof fn lemma_three_parts_occur(parts: Seq<Seq<char>>, i: int)
    requires
        0 <= i,
        i + 3 <= parts.len(),
    ensures
        contains_text(joined(parts), parts[i] + parts[i + 1] + parts[i + 2]),
{
    let before = parts.take(i);
    let middle = parts.subrange(i, i + 3);
    let after = parts.skip(i + 3);
    lemma_joined_add(before + middle, after);
    lemma_joined_add(before, middle);
    assert(parts == before + middle + after);
    reveal_with_fuel(joined, 4);
    assert(middle.drop_last().drop_last() == seq![parts[i]]);
    assert(middle.drop_last().drop_last().drop_last() == Seq::<Seq<char>>::empty());
    let word = parts[i] + parts[i + 1] + parts[i + 2];
    assert(joined(middle) == word) by {
        assert(Seq::<char>::empty() + parts[i] == parts[i]);
    }
    assert(joined(parts).subrange(joined(before).len() as int, (joined(before) + word).len() as int)
        == word);
    assert(occurs_at(joined(parts), word, joined(before).len() as int));
}

/// The first part starts the joined text.
pub proof fn lemma_first_part_is_prefix(parts: Seq<Seq<char>>)
    requires
        parts.len() > 0,
    ensures
        parts[0].is_prefix_of(joined(parts)),
{
    let first = parts.take(1);
    let rest = parts.skip(1);
    lemma_joined_add(first, rest);
    assert(parts == first + rest);
    reveal_with_fuel(joined, 2);
    assert(first.drop_last() == Seq::<Seq<char>>::empty());
    assert(joined(first) == parts[0]);
}

/// The value of a decimal digit.
pub open spec fn decimal_digit(c: char) -> int {
    c as int - '0' as int
}

/// The number that decimal digits stand for, the most significant digit first.
pub open spec fn read_decimal(digits: Seq<char>) -> int
    decreases digits.len(),
{
    if digits.len() == 0 {
        0
    } else {
        10 * read_decimal(digits.drop_last()) + decimal_digit(digits.last())
    }
}

/// A number in decimal is made of decimal digits, has no leading zero but for
/// zero itself, and reads as the number.
pub proof fn law_decimal_reads_back(n: nat)
    ensures
        read_decimal(decimal_text(n)) == n,
        decimal_text(n).len() > 0,
        forall|i: int|
            0 <= i < decimal_text(n).len() ==> 0 <= decimal_digit(#[trigger] decimal_text(n)[i])
                < 10,
        n > 0 ==> decimal_text(n)[0] != '0',
    decreases n,
{
    let text = decimal_text(n);
    if n < 10 {
        assert(text.drop_last() =~= Seq::<char>::empty());
        assert(read_decimal(text.drop_last()) == 0);
    } else {
        law_decimal_reads_back(n / 10);
        assert(text.drop_last() =~= decimal_text(n / 10));
        assert forall|i: int| 0 <= i < text.len() implies 0 <= decimal_digit(#[trigger] text[i])
            < 10 by {
            if i < text.len() - 1 {
                assert(text[i] == decimal_text(n / 10)[i]);
            }
        }
        assert(text[0] == decimal_text(n / 10)[0]);
    }
}

/// A negative number is its absolute value in decimal behind a minus sign; any
/// other is the number in decimal.
pub proof fn law_signed_decimal_reads_back(n: int)
    ensures
        n >= 0 ==> read_decimal(signed_decimal_text(n)) == n && signed_decimal_text(n)[0] != '-',
        n < 0 ==> signed_decimal_text(n)[0] == '-' && -read_decimal(signed_decimal_text(n).skip(1))
            == n,
{
    if n < 0 {
        law_decimal_reads_back((-n) as nat);
        assert(signed_decimal_text(n).skip(1) =~= decimal_text((-n) as nat));
    } else {
        law_decimal_reads_back(n as nat);
        assert(0 <= decimal_digit(decimal_text(n as nat)[0]));
    }
}

/// The value of a lower-case hexadecimal digit.
pub open spec fn hex_digit(c: char) -> int {
    if c as int >= 'a' as int {
        c as int - 'a' as int + 10
    } else {
        c as int - '0' as int
    }
}

/// The number that hexadecimal digits stand for, the most significant first.
pub open spec fn read_hex(digits: Seq<char>) -> int
    decreases digits.len(),
{
    if digits.len() == 0 {
        0
    } else {
        16 * read_hex(digits.drop_last()) + hex_digit(digits.last())
    }
}

/// A word in hexadecimal has eight digits and reads as the word.
pub proof fn law_hex_word_reads_back(n: u32)
    ensures
        hex_word_text(n).len() == 8,
        read_hex(hex_word_text(n)) == n,
{
    let text = hex_word_text(n);
    assert(text.take(0) =~= Seq::<char>::empty());
    assert(read_hex(text.take(0)) == 0);
    lemma_read_hex_step(text, 1, (n / 0x1000_0000) as int % 16);
    assert(read_hex(text.take(1)) == n / 0x1000_0000);
    lemma_read_hex_step(text, 2, (n / 0x100_0000) as int % 16);
    assert(read_hex(text.take(2)) == n / 0x100_0000);
    lemma_read_hex_step(text, 3, (n / 0x10_0000) as int % 16);
    assert(read_hex(text.take(3)) == n / 0x10_0000);
    lemma_read_hex_step(text, 4, (n / 0x1_0000) as int % 16);
    assert(read_hex(text.take(4)) == n / 0x1_0000);
    lemma_read_hex_step(text, 5, (n / 0x1000) as int % 16);
    assert(read_hex(text.take(5)) == n / 0x1000);
    lemma_read_hex_step(text, 6, (n / 0x100) as int % 16);
    assert(read_hex(text.take(6)) == n / 0x100);
    lemma_read_hex_step(text, 7, (n / 0x10) as int % 16);
    assert(read_hex(text.take(7)) == n / 0x10);
    lemma_read_hex_step(text, 8, n as int % 16);
    assert(text.take(8) =~= text);
}

proof fn lemma_hex_digit(d: int)
    requires
        0 <= d < 16,
    ensures
        hex_digit(digit_char(d)) == d,
{
}

/// One more digit makes the number sixteen times as large and adds the digit.
proof fn lemma_read_hex_step(text: Seq<char>, count: int, d: int)
    requires
        0 < count <= text.len(),
        0 <= d < 16,
        text[count - 1] == digit_char(d),
    ensures
        read_hex(text.take(count)) == 16 * read_hex(text.take(count - 1)) + d,
{
    lemma_hex_digit(d);
    assert(text.take(count).drop_last() =~= text.take(count - 1));
    assert(text.take(count).last() == text[count - 1]);
}

/// Whether a character is a lower-case letter, or the same letter in upper case.
pub open spec fn same_letter(c: char, lower: char) -> bool {
    c == lower || ('A' as int <= c as int <= 'Z' as int && c as int - 'A' as int == lower as int
        - 'a' as int)
}

/// Whether a word in lower case stands in a text at a position, in whatever case.
pub open spec fn mentions_at(text: Seq<char>, word: Seq<char>, at: int) -> bool {
    0 <= at <= text.len() - word.len() && forall|k: int|
        0 <= k < word.len() ==> same_letter(text[at + k], #[trigger] word[k])
}

/// Whether a word in lower case occurs in a text, in whatever case.
pub open spec fn mentions(text: Seq<char>, word: Seq<char>) -> bool {
    exists|at: int| mentions_at(text, word, at)
}

/// A word in lower case is found in the lower-case form of a text exactly where the
/// text mentions it in whatever case.
pub proof fn law_lower_case_finds_any_case(text: Seq<char>, word: Seq<char>)
    requires
        forall|k: int| 0 <= k < word.len() ==> 'a' <= #[trigger] word[k] && word[k] <= 'z',
    ensures
        contains_text(ascii_lower(text), word) <==> mentions(text, word),
{
    let lower = ascii_lower(text);
    if contains_text(lower, word) {
        let at = choose|at: int| occurs_at(lower, word, at);
        let found = lower.subrange(at, at + word.len());
        assert forall|k: int| 0 <= k < word.len() implies same_letter(
            text[at + k],
            #[trigger] word[k],
        ) by {
            assert(found[k] == word[k]);
            assert(lower[at + k] == ascii_lower_char(text[at + k]));
        }
        assert(mentions_at(text, word, at));
    }
    if mentions(text, word) {
        let at = choose|at: int| mentions_at(text, word, at);
        assert forall|k: int| 0 <= k < word.len() implies lower[at + k] == #[trigger] word[k] by {
            assert(same_letter(text[at + k], word[k]));
            assert(lower[at + k] == ascii_lower_char(text[at + k]));
        }
        assert(lower.subrange(at, at + word.len()) =~= word);
        assert(occurs_at(lower, word, at));
    }
}

/// Whether a text holds no white space.
pub open spec fn is_unbroken(text: Seq<char>) -> bool {
    forall|k: int| 0 <= k < text.len() ==> !is_ascii_space(#[trigger] text[k])
}

/// The words of a text are what its white space separates: a text without white
/// space is its one word, and the words of two texts with white space between them
/// are those of the one and those of the other.
pub proof fn law_words_are_separated_by_space(
    left: Seq<char>,
    space: char,
    right: Seq<char>,
    word: Seq<char>,
)
    requires
        word.len() > 0,
        is_unbroken(word),
        is_ascii_space(space),
    ensures
        is_unbroken(left) ==> (has_word(left, word) <==> left == word),
        has_word(left.push(space) + right, word) <==> has_word(left, word) || has_word(right, word),
{
    if is_unbroken(left) {
        lemma_only_word(left, word);
    }
    if has_word(left, word) {
        lemma_word_of_left(left, space, right, word, choose|at: int| word_at(left, word, at));
    }
    if has_word(right, word) {
        lemma_word_of_right(left, space, right, word, choose|at: int| word_at(right, word, at));
    }
    let text = left.push(space) + right;
    if has_word(text, word) {
        lemma_word_of_either(left, space, right, word, choose|at: int| word_at(text, word, at));
    }
}

proof fn lemma_only_word(text: Seq<char>, word: Seq<char>)
    requires
        word.len() > 0,
        is_unbroken(text),
    ensures
        has_word(text, word) <==> text == word,
{
    assert(text.subrange(0, text.len() as int) =~= text);
    if has_word(text, word) {
        let at = choose|at: int| word_at(text, word, at);
        assert(at == 0);
        assert(word.len() == text.len());
    }
    if text == word {
        assert(word_at(text, word, 0));
    }
}

proof fn lemma_word_of_left(
    left: Seq<char>,
    space: char,
    right: Seq<char>,
    word: Seq<char>,
    at: int,
)
    requires
        is_ascii_space(space),
        word_at(left, word, at),
    ensures
        has_word(left.push(space) + right, word),
{
    let text = left.push(space) + right;
    assert(text.subrange(at, at + word.len()) =~= left.subrange(at, at + word.len()));
    assert(text[left.len() as int] == space);
    assert(word_at(text, word, at));
}

proof fn lemma_word_of_right(
    left: Seq<char>,
    space: char,
    right: Seq<char>,
    word: Seq<char>,
    at: int,
)
    requires
        is_ascii_space(space),
        word_at(right, word, at),
    ensures
        has_word(left.push(space) + right, word),
{
    let text = left.push(space) + right;
    let from = left.len() + 1 + at;
    assert(text.subrange(from, from + word.len()) =~= right.subrange(at, at + word.len()));
    assert(word_at(text, word, from));
}

proof fn lemma_word_of_either(
    left: Seq<char>,
    space: char,
    right: Seq<char>,
    word: Seq<char>,
    at: int,
)
    requires
        word.len() > 0,
        is_unbroken(word),
        is_ascii_space(space),
        word_at(left.push(space) + right, word, at),
    ensures
        has_word(left, word) || has_word(right, word),
{
    let text = left.push(space) + right;
    let found = text.subrange(at, at + word.len());
    let middle = left.len() as int;
    if at <= middle < at + word.len() {
        assert(found[middle - at] == text[middle]);
        assert(!is_ascii_space(word[middle - at]));
    } else if at < middle {
        assert(left.subrange(at, at + word.len()) =~= found);
        assert(word_at(left, word, at));
    } else {
        let from = at - middle - 1;
        assert(right.subrange(from, from + word.len()) =~= found);
        assert(word_at(right, word, from));
    }
}

} // verus!
