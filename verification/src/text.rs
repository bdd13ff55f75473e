//! Text operations over character sequences.

use vstd::prelude::*;
use vstd::string::*;

verus! {

/// The number of characters of `text` before the first `mark`; all of them if it has none.
pub open spec fn run_before(text: Seq<char>, mark: char) -> nat
    decreases text.len(),
{
    if text.len() == 0 || text[0] == mark {
        0
    } else {
        1 + run_before(text.skip(1), mark)
    }
}

/// The pieces of `text` between occurrences of `mark`. There is always at least one.
pub open spec fn segments(text: Seq<char>, mark: char) -> Seq<Seq<char>>
    decreases text.len(),
{
    let n = run_before(text, mark);
    if n >= text.len() {
        seq![text]
    } else {
        seq![text.take(n as int)] + segments(text.skip(n as int + 1), mark)
    }
}

/// `text` without the `mark`s at its end.
pub open spec fn trimmed_end(text: Seq<char>, mark: char) -> Seq<char>
    decreases text.len(),
{
    if text.len() > 0 && text.last() == mark {
        trimmed_end(text.drop_last(), mark)
    } else {
        text
    }
}

/// The characters with the Unicode property White_Space.
pub open spec fn white_space(c: char) -> bool {
    ||| '\u{9}' <= c <= '\u{d}'
    ||| c == '\u{20}'
    ||| c == '\u{85}'
    ||| c == '\u{a0}'
    ||| c == '\u{1680}'
    ||| '\u{2000}' <= c <= '\u{200a}'
    ||| '\u{2028}' <= c <= '\u{2029}'
    ||| c == '\u{202f}'
    ||| c == '\u{205f}'
    ||| c == '\u{3000}'
}

/// The number of characters of `text` before its first white space.
pub open spec fn word_len(text: Seq<char>) -> nat
    decreases text.len(),
{
    if text.len() == 0 || white_space(text[0]) {
        0
    } else {
        1 + word_len(text.skip(1))
    }
}

/// The maximal runs of `text` that hold no white space, in order.
pub open spec fn words(text: Seq<char>) -> Seq<Seq<char>>
    decreases text.len(),
{
    if text.len() == 0 {
        seq![]
    } else if white_space(text[0]) {
        words(text.skip(1))
    } else {
        proof {
            lemma_word_len(text);
        }
        let n = word_len(text) as int;
        seq![text.take(n)] + words(text.skip(n))
    }
}

/// The parts in order, with `separator` between neighbours.
pub open spec fn joined(parts: Seq<Seq<char>>, separator: Seq<char>) -> Seq<char>
    decreases parts.len(),
{
    if parts.len() == 0 {
        seq![]
    } else if parts.len() == 1 {
        parts[0]
    } else {
        joined(parts.drop_last(), separator) + separator + parts.last()
    }
}

/// The texts that a list of strings holds.
pub open spec fn texts(list: Seq<String>) -> Seq<Seq<char>> {
    list.map_values(|s: String| s@)
}

/// The text of an optional string.
pub open spec fn text_option(value: Option<String>) -> Option<Seq<char>> {
    match value {
        Some(s) => Some(s@),
        None => None,
    }
}

/// The digit character for a number below ten.
pub open spec fn digit(n: nat) -> char {
    (48 + n) as char
}

/// The decimal notation of a number, without leading zeros.
pub open spec fn decimal(n: nat) -> Seq<char>
    decreases n,
{
    if n < 10 {
        seq![digit(n)]
    } else {
        decimal(n / 10).push(digit(n % 10))
    }
}

/// Whether `c` is one of the digits 0 to 9.
pub open spec fn is_digit(c: char) -> bool {
    '0' <= c <= '9'
}

/// The number that a run of digits denotes.
pub open spec fn decimal_value(digits: Seq<char>) -> nat
    decreases digits.len(),
{
    if digits.len() == 0 {
        0
    } else {
        decimal_value(digits.drop_last()) * 10 + (digits.last() as nat - 48) as nat
    }
}

/// The digits of a numeral, which may open with a plus sign.
pub open spec fn numeral_digits(text: Seq<char>) -> Seq<char> {
    if text.len() > 0 && text[0] == '+' {
        text.skip(1)
    } else {
        text
    }
}

/// The number that `text` denotes: an optional plus sign and then digits only, at least one of
/// them, for a number that 64 bits can hold.
pub open spec fn decimal_u64(text: Seq<char>) -> Option<u64> {
    let digits = numeral_digits(text);
    if digits.len() > 0 && (forall|i: int| 0 <= i < digits.len() ==> is_digit(#[trigger] digits[i]))
        && decimal_value(digits) <= u64::MAX {
        Some(decimal_value(digits) as u64)
    } else {
        None
    }
}

/// A first word ends within the text, at white space or at the end.
pub proof fn lemma_word_len(text: Seq<char>)
    ensures
        word_len(text) <= text.len(),
        forall|i: int| 0 <= i < word_len(text) ==> !white_space(#[trigger] text[i]),
        word_len(text) < text.len() ==> white_space(text[word_len(text) as int]),
    decreases text.len(),
{
    if text.len() > 0 && !white_space(text[0]) {
        let rest = text.skip(1);
        lemma_word_len(rest);
        assert forall|i: int| 0 <= i < word_len(text) implies !white_space(#[trigger] text[i]) by {
            if i > 0 {
                assert(rest[i - 1] == text[i]);
            }
        }
    }
}

/// Conversely, a run without white space that white space or the end follows is the first word.
proof fn lemma_word_len_unique(text: Seq<char>, n: int)
    requires
        0 <= n <= text.len(),
        forall|i: int| 0 <= i < n ==> !white_space(#[trigger] text[i]),
        n < text.len() ==> white_space(text[n]),
    ensures
        word_len(text) == n,
{
    lemma_word_len(text);
    let m = word_len(text) as int;
    if m < n {
        assert(!white_space(text[m]));
    }
    if n < m {
        assert(!white_space(text[n]));
    }
}

/// The run before the first mark ends within the text, at the mark or at the end.
pub proof fn lemma_run_before(text: Seq<char>, mark: char)
    ensures
        run_before(text, mark) <= text.len(),
        forall|i: int| 0 <= i < run_before(text, mark) ==> #[trigger] text[i] != mark,
        run_before(text, mark) < text.len() ==> text[run_before(text, mark) as int] == mark,
    decreases text.len(),
{
    if text.len() > 0 && text[0] != mark {
        let rest = text.skip(1);
        lemma_run_before(rest, mark);
        assert forall|i: int| 0 <= i < run_before(text, mark) implies #[trigger] text[i]
            != mark by {
            if i > 0 {
                assert(rest[i - 1] == text[i]);
            }
        }
    }
}

/// Conversely, a run without the mark that the mark or the end follows is the run before it.
pub proof fn lemma_run_before_unique(text: Seq<char>, mark: char, n: int)
    requires
        0 <= n <= text.len(),
        forall|i: int| 0 <= i < n ==> #[trigger] text[i] != mark,
        n < text.len() ==> text[n] == mark,
    ensures
        run_before(text, mark) == n,
{
    lemma_run_before(text, mark);
    let m = run_before(text, mark) as int;
    if m < n {
        assert(text[m] != mark);
    }
    if n < m {
        assert(text[n] != mark);
    }
}

/// A mark and a piece without marks behind a text add one segment to it.
proof fn lemma_segments_append(text: Seq<char>, mark: char, piece: Seq<char>)
    requires
        forall|i: int| 0 <= i < piece.len() ==> #[trigger] piece[i] != mark,
    ensures
        segments(text + seq![mark] + piece, mark) == segments(text, mark).push(piece),
    decreases text.len(),
{
    let all = text + seq![mark] + piece;
    let n = run_before(text, mark) as int;
    lemma_run_before(text, mark);
    assert forall|i: int| 0 <= i < n implies #[trigger] all[i] != mark by {
        assert(all[i] == text[i]);
    }
    assert(all[n] == mark);
    lemma_run_before_unique(all, mark, n);
    assert(all.take(n) =~= text.take(n));
    if n >= text.len() {
        assert(all.skip(n + 1) =~= piece);
        lemma_run_before_unique(piece, mark, piece.len() as int);
        assert(text.take(n) =~= text);
        assert(segments(piece, mark) =~= seq![piece]);
    } else {
        assert(all.skip(n + 1) =~= text.skip(n + 1) + seq![mark] + piece);
        lemma_segments_append(text.skip(n + 1), mark, piece);
    }
    assert(segments(all, mark) =~= segments(text, mark).push(piece));
}

/// Pieces without marks that were joined by marks are the segments of what they were joined to.
pub proof fn lemma_segments_of_joined(pieces: Seq<Seq<char>>, mark: char)
    requires
        pieces.len() > 0,
        forall|i: int, j: int|
            0 <= i < pieces.len() && 0 <= j < pieces[i].len() ==> #[trigger] pieces[i][j] != mark,
    ensures
        segments(joined(pieces, seq![mark]), mark) == pieces,
    decreases pieces.len(),
{
    let last = pieces.last();
    assert forall|j: int| 0 <= j < last.len() implies #[trigger] last[j] != mark by {
        assert(pieces[pieces.len() - 1][j] != mark);
    }
    if pieces.len() == 1 {
        lemma_run_before_unique(last, mark, last.len() as int);
        assert(segments(last, mark) =~= pieces);
    } else {
        let front = pieces.drop_last();
        assert forall|i: int, j: int|
            0 <= i < front.len() && 0 <= j < front[i].len() implies #[trigger] front[i][j]
            != mark by {
            assert(front[i] == pieces[i]);
            assert(pieces[i][j] != mark);
        }
        lemma_segments_of_joined(front, mark);
        lemma_segments_append(joined(front, seq![mark]), mark, last);
        assert(front.push(last) =~= pieces);
    }
}

/// The position of the first `mark` at or after `from`; the length if there is none.
fn find_from(chars: &Vec<char>, mark: char, from: usize) -> (at: usize)
    requires
        from <= chars@.len(),
    ensures
        from <= at <= chars@.len(),
        at - from == run_before(chars@.skip(from as int), mark),
{
    let mut at: usize = from;
    while at < chars.len() && chars[at] != mark
        invariant
            from <= at <= chars@.len(),
            forall|i: int| from <= i < at ==> #[trigger] chars@[i] != mark,
        decreases chars@.len() - at,
    {
        at = at + 1;
    }
    proof {
        lemma_run_before_unique(chars@.skip(from as int), mark, at - from);
    }
    at
}

/// The second of the segments of `text`, if there is a second.
pub fn second_segment(text: &str, mark: char) -> (segment: Option<String>)
    ensures
        text_option(segment) == (if segments(text@, mark).len() > 1 {
            Some(segments(text@, mark)[1])
        } else {
            None
        }),
{
    let chars = chars_of(text);
    let first: usize = find_from(&chars, mark, 0);
    assert(chars@.skip(0) == text@);
    if first == chars.len() {
        return None;
    }
    let second: usize = find_from(&chars, mark, first + 1);
    let segment = text.substring_char(first + 1, second).to_owned();
    proof {
        let rest = text@.skip(first + 1);
        assert(segments(text@, mark) == seq![text@.take(first as int)] + segments(rest, mark));
        assert(segments(rest, mark)[0] == rest.take(second - first - 1));
        assert(rest.take(second - first - 1) == text@.subrange(first + 1, second as int));
    }
    Some(segment)
}

/// `text` without the `mark`s at its end.
pub fn trim_end(text: &str, mark: char) -> (trimmed: String)
    ensures
        trimmed@ == trimmed_end(text@, mark),
{
    let chars = chars_of(text);
    let mut n: usize = chars.len();
    assert(text@.take(n as int) == text@);
    while n > 0 && chars[n - 1] == mark
        invariant
            n <= chars@.len(),
            chars@ == text@,
            trimmed_end(text@.take(n as int), mark) == trimmed_end(text@, mark),
        decreases n,
    {
        assert(text@.take(n as int).drop_last() == text@.take(n - 1));
        n = n - 1;
    }
    text.substring_char(0, n).to_owned()
}

/// Whether `c` is white space.
pub fn is_white_space(c: char) -> (answer: bool)
    ensures
        answer == white_space(c),
{
    ('\u{9}' <= c && c <= '\u{d}') || c == '\u{20}' || c == '\u{85}' || c == '\u{a0}' || c
        == '\u{1680}' || ('\u{2000}' <= c && c <= '\u{200a}') || ('\u{2028}' <= c && c
        <= '\u{2029}') || c == '\u{202f}' || c == '\u{205f}' || c == '\u{3000}'
}

/// The words of `text`: its maximal runs without white space.
pub fn split_words(text: &str) -> (list: Vec<String>)
    ensures
        texts(list@) == words(text@),
{
    let chars = chars_of(text);
    let mut list: Vec<String> = Vec::new();
    let mut at: usize = 0;
    assert(text@.skip(0) == text@);
    assert(texts(list@) + words(text@) == words(text@));
    while at < chars.len()
        invariant
            at <= chars@.len(),
            chars@ == text@,
            texts(list@) + words(text@.skip(at as int)) == words(text@),
        decreases chars@.len() - at,
    {
        let ghost rest = text@.skip(at as int);
        if is_white_space(chars[at]) {
            assert(rest.skip(1) == text@.skip(at + 1));
            at = at + 1;
        } else {
            let start: usize = at;
            while at < chars.len() && !is_white_space(chars[at])
                invariant
                    start <= at <= chars@.len(),
                    chars@ == text@,
                    forall|i: int| start <= i < at ==> !white_space(#[trigger] chars@[i]),
                decreases chars@.len() - at,
            {
                at = at + 1;
            }
            let ghost before = list@;
            let word = text.substring_char(start, at).to_owned();
            list.push(word);
            proof {
                lemma_word_len_unique(rest, at - start);
                assert(!white_space(rest[0]));
                assert(rest.take(at - start) == word@);
                assert(rest.skip(at - start) == text@.skip(at as int));
                assert(texts(list@) == texts(before).push(word@));
                assert(texts(list@) + words(text@.skip(at as int)) == texts(before) + (seq![word@]
                    + words(text@.skip(at as int))));
            }
        }
    }
    assert(texts(list@) + words(text@.skip(at as int)) == texts(list@));
    list
}

/// The strings in order, with `separator` between neighbours.
pub fn join(list: &Vec<String>, separator: &str) -> (result: String)
    ensures
        result@ == joined(texts(list@), separator@),
{
    let mut result = String::new();
    let mut i: usize = 0;
    while i < list.len()
        invariant
            i <= list@.len(),
            result@ == joined(texts(list@).take(i as int), separator@),
        decreases list@.len() - i,
    {
        if i > 0 {
            result.append(separator);
        }
        result.append(list[i].as_str());
        assert(texts(list@).take(i + 1).drop_last() == texts(list@).take(i as int));
        i = i + 1;
    }
    assert(texts(list@).take(i as int) == texts(list@));
    result
}

/// Whether two strings hold the same text.
pub fn same_text(a: &str, b: &str) -> (same: bool)
    ensures
        same == (a@ == b@),
{
    a.to_owned() == b.to_owned()
}

/// Whether `text` opens with `prefix`.
pub fn starts_with(text: &str, prefix: &str) -> (answer: bool)
    ensures
        answer == prefix@.is_prefix_of(text@),
{
    let n: usize = prefix.unicode_len();
    if text.unicode_len() < n {
        return false;
    }
    assert(prefix@.is_prefix_of(text@) ==> prefix@ == text@.subrange(0, n as int));
    same_text(text.substring_char(0, n), prefix)
}

/// The decimal notation of a number.
pub fn format_decimal(n: u64) -> (result: String)
    ensures
        result@ == decimal(n as nat),
    decreases n,
{
    proof {
        reveal_strlit("0123456789");
    }
    let digits = "0123456789";
    let last: usize = (n % 10) as usize;
    let unit = digits.substring_char(last, last + 1);
    assert(unit@ == seq![digit((n % 10) as nat)]);
    let mut result = if n < 10 {
        String::new()
    } else {
        format_decimal(n / 10)
    };
    result.append(unit);
    assert(result@ == decimal(n as nat));
    result
}

/// The number that `text` denotes, if it is a numeral that 64 bits can hold.
pub fn parse_u64(text: &str) -> (number: Option<u64>)
    ensures
        number == decimal_u64(text@),
{
    let chars = chars_of(text);
    let start: usize = if chars.len() > 0 && chars[0] == '+' {
        1
    } else {
        0
    };
    let ghost digits = numeral_digits(text@);
    assert(digits == text@.skip(start as int));
    if start == chars.len() {
        return None;
    }
    let mut value: u64 = 0;
    let mut i: usize = start;
    while i < chars.len()
        invariant
            start <= i <= chars@.len(),
            chars@ == text@,
            digits == text@.skip(start as int),
            digits == numeral_digits(text@),
            forall|j: int| 0 <= j < i - start ==> is_digit(#[trigger] digits[j]),
            value == decimal_value(digits.take(i - start)),
        decreases chars@.len() - i,
    {
        let c = chars[i];
        assert(digits[i - start] == c);
        if c < '0' || '9' < c {
            return None;
        }
        let unit: u64 = (c as u32 - 48) as u64;
        assert(digits.take(i + 1 - start).drop_last() == digits.take(i - start));
        assert(decimal_value(digits.take(i + 1 - start)) == value * 10 + unit);
        if value > (u64::MAX - unit) / 10 {
            proof {
                lemma_decimal_value_grows(digits, i + 1 - start);
            }
            return None;
        }
        value = value * 10 + unit;
        i = i + 1;
    }
    assert(digits.take(i - start) == digits);
    Some(value)
}

/// More digits never make a number smaller.
proof fn lemma_decimal_value_grows(digits: Seq<char>, n: int)
    requires
        0 <= n <= digits.len(),
    ensures
        decimal_value(digits.take(n)) <= decimal_value(digits),
    decreases digits.len() - n,
{
    if n == digits.len() {
        assert(digits.take(n) == digits);
    } else {
        lemma_decimal_value_grows(digits, n + 1);
        assert(digits.take(n + 1).drop_last() == digits.take(n));
    }
}

/// The characters of a string.
pub fn chars_of(text: &str) -> (chars: Vec<char>)
    ensures
        chars@ == text@,
{
    let mut chars: Vec<char> = Vec::new();
    for c in it: text.chars()
        invariant
            it.seq() == text@,
            chars@ == text@.take(it.index() as int),
    {
        chars.push(c);
    }
    chars
}

/// Whether `text` is a word: not empty, and without white space.
pub open spec fn is_word(text: Seq<char>) -> bool {
    text.len() > 0 && forall|i: int| 0 <= i < text.len() ==> !white_space(#[trigger] text[i])
}

/// Words are words: none is empty, and none holds white space.
pub proof fn words_are_words(text: Seq<char>)
    ensures
        forall|i: int| 0 <= i < words(text).len() ==> is_word(#[trigger] words(text)[i]),
    decreases text.len(),
{
    if text.len() > 0 {
        if white_space(text[0]) {
            words_are_words(text.skip(1));
            assert(words(text) == words(text.skip(1)));
        } else {
            lemma_word_len(text);
            let n = word_len(text) as int;
            let rest = words(text.skip(n));
            words_are_words(text.skip(n));
            assert(is_word(text.take(n)));
            assert forall|i: int| 0 <= i < words(text).len() implies is_word(
                #[trigger] words(text)[i],
            ) by {
                if i > 0 {
                    assert(words(text)[i] == rest[i - 1]);
                } else {
                    assert(words(text)[0] == text.take(n));
                }
            }
        }
    }
}

/// A word holds one word, itself.
proof fn lemma_words_of_word(word: Seq<char>)
    requires
        is_word(word),
    ensures
        words(word) == seq![word],
{
    let end = word.skip(word.len() as int);
    assert(!white_space(word[0]));
    lemma_word_len_unique(word, word.len() as int);
    assert(word.take(word.len() as int) =~= word);
    assert(end =~= Seq::<char>::empty());
    assert(words(end) =~= Seq::<Seq<char>>::empty());
    assert(words(word) =~= seq![word]);
}

/// A space and a word behind a text add one word to it.
proof fn lemma_words_append(text: Seq<char>, word: Seq<char>)
    requires
        is_word(word),
    ensures
        words(text + seq![' '] + word) == words(text).push(word),
    decreases text.len(),
{
    let all = text + seq![' '] + word;
    if text.len() == 0 {
        assert(all[0] == ' ');
        assert(all.skip(1) =~= word);
        lemma_words_of_word(word);
        assert(words(text) =~= seq![]);
    } else if white_space(text[0]) {
        assert(all[0] == text[0]);
        assert(all.skip(1) =~= text.skip(1) + seq![' '] + word);
        lemma_words_append(text.skip(1), word);
    } else {
        let n = word_len(text) as int;
        lemma_word_len(text);
        assert forall|i: int| 0 <= i < n implies !white_space(#[trigger] all[i]) by {
            assert(all[i] == text[i]);
        }
        if n < text.len() {
            assert(all[n] == text[n]);
        } else {
            assert(all[n] == ' ');
        }
        lemma_word_len_unique(all, n);
        assert(all.take(n) =~= text.take(n));
        assert(all.skip(n) =~= text.skip(n) + seq![' '] + word);
        lemma_words_append(text.skip(n), word);
        assert(words(all) =~= words(text).push(word));
    }
}

/// Words that were joined by spaces are found again, each one and in order.
pub proof fn joined_words_are_found_again(list: Seq<Seq<char>>)
    requires
        forall|i: int| 0 <= i < list.len() ==> is_word(#[trigger] list[i]),
    ensures
        words(joined(list, seq![' '])) == list,
    decreases list.len(),
{
    if list.len() == 0 {
        assert(words(joined(list, seq![' '])) =~= list);
    } else if list.len() == 1 {
        lemma_words_of_word(list[0]);
        assert(seq![list[0]] =~= list);
    } else {
        let front = list.drop_last();
        assert forall|i: int| 0 <= i < front.len() implies is_word(#[trigger] front[i]) by {
            assert(front[i] == list[i]);
        }
        joined_words_are_found_again(front);
        assert(is_word(list[list.len() - 1]));
        lemma_words_append(joined(front, seq![' ']), list.last());
        assert(front.push(list.last()) =~= list);
    }
}

/// A number written in decimal reads back as itself.
pub proof fn decimal_reads_back(n: u64)
    ensures
        decimal_u64(decimal(n as nat)) == Some(n),
{
    lemma_decimal(n as nat);
    let written = decimal(n as nat);
    assert(is_digit(written[0]));
    assert(numeral_digits(written) == written);
}

/// The decimal notation of a number is made of digits, at least one, that denote it.
proof fn lemma_decimal(n: nat)
    ensures
        decimal(n).len() > 0,
        forall|i: int| 0 <= i < decimal(n).len() ==> is_digit(#[trigger] decimal(n)[i]),
        decimal_value(decimal(n)) == n,
    decreases n,
{
    if n < 10 {
        assert(decimal(n).drop_last() =~= Seq::<char>::empty());
        assert(decimal_value(Seq::<char>::empty()) == 0);
    } else {
        lemma_decimal(n / 10);
        let front = decimal(n / 10);
        assert(decimal(n).drop_last() =~= front);
        assert forall|i: int| 0 <= i < decimal(n).len() implies is_digit(
            #[trigger] decimal(n)[i],
        ) by {
            if i < front.len() {
                assert(decimal(n)[i] == front[i]);
            }
        }
    }
}

/// Splitting loses nothing and leaves no mark: the segments, joined by the mark, are the text
/// again, and no segment holds the mark.
pub proof fn segments_join_to_the_text(text: Seq<char>, mark: char)
    ensures
        segments(text, mark).len() > 0,
        joined(segments(text, mark), seq![mark]) == text,
        forall|i: int, j: int|
            0 <= i < segments(text, mark).len() && 0 <= j < segments(text, mark)[i].len()
                ==> #[trigger] segments(text, mark)[i][j] != mark,
    decreases text.len(),
{
    let n = run_before(text, mark) as int;
    lemma_run_before(text, mark);
    let all = segments(text, mark);
    if n < text.len() {
        let rest = segments(text.skip(n + 1), mark);
        segments_join_to_the_text(text.skip(n + 1), mark);
        joining_puts_the_separator_between(seq![text.take(n)], rest, seq![mark]);
        assert(all =~= seq![text.take(n)] + rest);
        assert(text =~= text.take(n) + seq![mark] + text.skip(n + 1));
        assert forall|i: int, j: int| 0 <= i < all.len() && 0 <= j < all[i].len() implies
            #[trigger] all[i][j] != mark by {
            if i > 0 {
                assert(all[i] == rest[i - 1]);
                assert(rest[i - 1][j] != mark);
            } else {
                assert(all[0] == text.take(n));
            }
        }
    } else {
        assert(all =~= seq![text]);
    }
}

/// Joining puts the separator between neighbours and nowhere else: nothing joins to nothing, a
/// single part to itself, and two lists to what each joins to, with one separator between.
pub proof fn joining_puts_the_separator_between(
    a: Seq<Seq<char>>,
    b: Seq<Seq<char>>,
    separator: Seq<char>,
)
    ensures
        joined(seq![], separator) == Seq::<char>::empty(),
        a.len() == 1 ==> joined(a, separator) == a[0],
        a.len() > 0 && b.len() > 0 ==> joined(a + b, separator) == joined(a, separator) + separator
            + joined(b, separator),
    decreases b.len(),
{
    if a.len() > 0 && b.len() > 0 {
        let all = a + b;
        assert(all.last() == b.last());
        assert(all.drop_last() =~= a + b.drop_last());
        if b.len() == 1 {
            assert(a + b.drop_last() =~= a);
        } else {
            joining_puts_the_separator_between(a, b.drop_last(), separator);
        }
        assert(joined(all, separator) =~= joined(a, separator) + separator + joined(b, separator));
    }
}

/// White space parts words, whatever stands on either side of it, and nothing else does: a text
/// without white space is a word, unless it is empty.
pub proof fn white_space_parts_words(a: Seq<char>, space: char, b: Seq<char>)
    requires
        white_space(space),
    ensures
        words(a + seq![space] + b) == words(a) + words(b),
        is_word(a) ==> words(a) == seq![a],
        a.len() == 0 ==> words(a).len() == 0,
    decreases a.len(),
{
    let all = a + seq![space] + b;
    if is_word(a) {
        lemma_words_of_word(a);
    }
    if a.len() == 0 {
        assert(all[0] == space);
        assert(all.skip(1) =~= b);
        assert(words(all) =~= words(a) + words(b));
    } else if white_space(a[0]) {
        assert(all[0] == a[0]);
        assert(all.skip(1) =~= a.skip(1) + seq![space] + b);
        white_space_parts_words(a.skip(1), space, b);
    } else {
        let n = word_len(a) as int;
        lemma_word_len(a);
        assert forall|i: int| 0 <= i < n implies !white_space(#[trigger] all[i]) by {
            assert(all[i] == a[i]);
        }
        if n < a.len() {
            assert(all[n] == a[n]);
        } else {
            assert(all[n] == space);
        }
        lemma_word_len_unique(all, n);
        assert(all.take(n) =~= a.take(n));
        assert(all.skip(n) =~= a.skip(n) + seq![space] + b);
        white_space_parts_words(a.skip(n), space, b);
        assert(words(all) =~= words(a) + words(b));
    }
}

/// Trimming takes marks off the end and nothing else: what is left does not end in the mark, and
/// only marks are missing.
pub proof fn trimming_takes_off_marks_only(text: Seq<char>, mark: char)
    ensures
        trimmed_end(text, mark).is_prefix_of(text),
        trimmed_end(text, mark).len() > 0 ==> trimmed_end(text, mark).last() != mark,
        forall|i: int|
            trimmed_end(text, mark).len() <= i < text.len() ==> #[trigger] text[i] == mark,
    decreases text.len(),
{
    if text.len() > 0 && text.last() == mark {
        let front = text.drop_last();
        trimming_takes_off_marks_only(front, mark);
        assert forall|i: int|
            trimmed_end(text, mark).len() <= i < text.len() implies #[trigger] text[i] == mark by {
            if i < front.len() {
                assert(front[i] == text[i]);
            }
        }
    }
}

/// How numerals are read: a digit denotes its distance from zero, a digit behind a numeral adds
/// itself to ten times what the numeral denotes, and a plus sign in front of digits changes
/// nothing. A text with any other character in it denotes nothing, nor does one without a digit or
/// one for a number that 64 bits cannot hold.
pub proof fn numerals_are_read_digit_by_digit(numeral: Seq<char>, digit: char)
    requires
        forall|i: int| 0 <= i < numeral.len() ==> '0' <= #[trigger] numeral[i] <= '9',
    ensures
        '0' <= digit <= '9' ==> decimal_u64(seq![digit]) == Some(
            (digit as int - '0' as int) as u64,
        ),
        '0' <= digit <= '9' ==> (decimal_u64(numeral) matches Some(n) ==> decimal_u64(
            numeral.push(digit),
        ) == (if n * 10 + (digit as int - '0' as int) <= u64::MAX {
            Some((n * 10 + (digit as int - '0' as int)) as u64)
        } else {
            None
        })),
        '0' <= digit <= '9' && numeral.len() > 0 ==> (decimal_u64(numeral) is None ==> decimal_u64(
            numeral.push(digit),
        ) is None),
        decimal_u64(seq!['+'] + numeral) == decimal_u64(numeral),
        decimal_u64(seq![]) is None,
        decimal_u64(seq!['+']) is None,
{
    assert(seq!['+'] + Seq::<char>::empty() =~= seq!['+']);
    assert((seq!['+'] + numeral).skip(1) =~= numeral);
    assert(seq!['+'].skip(1) =~= Seq::<char>::empty());
    if numeral.len() > 0 {
        assert(is_digit(numeral[0]));
    }
    assert(numeral_digits(numeral) == numeral);
    if '0' <= digit <= '9' {
        let longer = numeral.push(digit);
        assert(longer.drop_last() =~= numeral);
        assert(forall|i: int| 0 <= i < numeral.len() ==> longer[i] == numeral[i]);
        assert(is_digit(longer[0]));
        assert(numeral_digits(longer) == longer);
        assert forall|i: int| 0 <= i < longer.len() implies is_digit(#[trigger] longer[i]) by {
            if i < numeral.len() {
                assert(longer[i] == numeral[i]);
            }
        }
        assert(seq![digit].drop_last() =~= Seq::<char>::empty());
        assert(decimal_value(Seq::<char>::empty()) == 0);
        assert(numeral_digits(seq![digit]) == seq![digit]);
        assert(decimal_value(seq![digit]) == (digit as nat - 48) as nat);
    }
}

/// A text with a character that is no digit denotes no number, but for a plus sign in front.
pub proof fn only_digits_make_a_numeral(text: Seq<char>, at: int)
    requires
        0 <= at < text.len(),
        !('0' <= text[at] <= '9'),
        at > 0 || text[at] != '+',
    ensures
        decimal_u64(text) is None,
{
    if text[0] == '+' {
        assert(text.skip(1)[at - 1] == text[at]);
    }
}

/// The texts of a list of strings are those of the strings, one for each and in order.
pub proof fn texts_are_those_of_the_strings(list: Seq<String>, i: int, value: Option<String>)
    ensures
        texts(list).len() == list.len(),
        0 <= i < list.len() ==> texts(list)[i] == list[i]@,
        value matches Some(s) ==> text_option(value) == Some(s@),
        value is None ==> text_option(value) is None,
{
}

/// The decimal notation of a number is made of digits and does not open with a zero, unless the
/// number is zero and the notation that digit alone.
pub proof fn decimal_has_no_leading_zero(n: u64)
    ensures
        decimal(n as nat).len() > 0,
        forall|i: int|
            0 <= i < decimal(n as nat).len() ==> '0' <= #[trigger] decimal(n as nat)[i] <= '9',
        n > 0 ==> decimal(n as nat)[0] != '0',
        n == 0 ==> decimal(n as nat) == seq!['0'],
    decreases n,
{
    lemma_decimal(n as nat);
    assert forall|i: int| 0 <= i < decimal(n as nat).len() implies '0' <= #[trigger] decimal(
        n as nat,
    )[i] <= '9' by {
        assert(is_digit(decimal(n as nat)[i]));
    }
    if n >= 10 {
        decimal_has_no_leading_zero(n / 10);
        assert(decimal(n as nat)[0] == decimal((n / 10) as nat)[0]);
    }
}

} // verus!
