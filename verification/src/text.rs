//! Text: searching, splitting, replacing and number formatting over character sequences.
use vstd::prelude::*;

verus! {

/// `String::push` appends one character to the end of the string.
pub assume_specification[ String::push ](text: &mut String, c: char)
    ensures
        final(text)@ == old(text)@.push(c),
;

/// Whether `pattern` stands in `text` at position `i`.
pub open spec fn occurs_at(text: Seq<char>, pattern: Seq<char>, i: int) -> bool {
    &&& 0 <= i
    &&& i + pattern.len() <= text.len()
    &&& text.subrange(i, i + pattern.len()) == pattern
}

/// The first position at or after `from` at which `pattern` stands in `text`.
pub open spec fn find(text: Seq<char>, pattern: Seq<char>, from: int) -> Option<int>
    decreases text.len() + 1 - from,
{
    if from < 0 || from + pattern.len() > text.len() {
        None
    } else if occurs_at(text, pattern, from) {
        Some(from)
    } else {
        find(text, pattern, from + 1)
    }
}

/// The part of `text` in front of the first `separator`; `None` where there is no separator.
pub open spec fn before(text: Seq<char>, separator: Seq<char>) -> Option<Seq<char>> {
    match find(text, separator, 0) {
        Some(i) => Some(text.subrange(0, i)),
        None => None,
    }
}

/// The pieces of `text` from position `from` on, cut at every `separator`.
pub open spec fn split_from(text: Seq<char>, separator: Seq<char>, from: int) -> Seq<Seq<char>>
    decreases text.len() - from,
{
    if separator.len() == 0 || from < 0 || from > text.len() {
        seq![]
    } else {
        match find(text, separator, from) {
            Some(i) => if from <= i && i + separator.len() <= text.len() {
                seq![text.subrange(from, i)] + split_from(text, separator, i + separator.len())
            } else {
                seq![]
            },
            None => seq![text.subrange(from, text.len() as int)],
        }
    }
}

/// `text` with every `from` replaced by `to`.
pub open spec fn replaced(text: Seq<char>, from: char, to: char) -> Seq<char> {
    text.map_values(|c: char| if c == from { to } else { c })
}

/// The character of a decimal digit.
pub open spec fn digit(n: nat) -> char {
    (('0' as u32) + n) as char
}

/// `n` written in decimal, without leading zeros.
pub open spec fn decimal(n: nat) -> Seq<char>
    decreases n,
{
    if n < 10 {
        seq![digit(n)]
    } else {
        decimal(n / 10).push(digit(n % 10))
    }
}

/// Different numbers are written differently.
pub proof fn decimal_is_injective(a: nat, b: nat)
    requires
        decimal(a) == decimal(b),
    ensures
        a == b,
    decreases a,
{
    decimal_is_not_empty(a / 10);
    decimal_is_not_empty(b / 10);
    assert(decimal(a).last() == digit(a % 10));
    assert(decimal(b).last() == digit(b % 10));
    if a >= 10 && b >= 10 {
        assert(decimal(a).drop_last() =~= decimal(a / 10));
        assert(decimal(b).drop_last() =~= decimal(b / 10));
        decimal_is_injective(a / 10, b / 10);
    }
}

proof fn decimal_is_not_empty(n: nat)
    ensures
        decimal(n).len() > 0,
{
}

/// The pieces put back together with `separator` between them.
pub open spec fn joined(pieces: Seq<Seq<char>>, separator: Seq<char>) -> Seq<char>
    decreases pieces.len(),
{
    if pieces.len() == 0 {
        seq![]
    } else if pieces.len() == 1 {
        pieces[0]
    } else {
        pieces[0] + separator + joined(pieces.skip(1), separator)
    }
}

/// What `find` gives is the first occurrence: the pattern stands there and nowhere before.
pub proof fn find_is_first(text: Seq<char>, pattern: Seq<char>, from: int)
    requires
        0 <= from,
    ensures
        match find(text, pattern, from) {
            Some(i) => from <= i && occurs_at(text, pattern, i) && forall|j: int|
                from <= j < i ==> !#[trigger] occurs_at(text, pattern, j),
            None => forall|j: int| from <= j ==> !#[trigger] occurs_at(text, pattern, j),
        },
    decreases text.len() + 1 - from,
{
    if from + pattern.len() > text.len() {
    } else if occurs_at(text, pattern, from) {
    } else {
        find_is_first(text, pattern, from + 1);
    }
}

/// What stands before a separator is the shortest beginning of the text that the separator follows;
/// there is none where the separator stands nowhere.
pub proof fn before_is_shortest(text: Seq<char>, separator: Seq<char>)
    ensures
        match before(text, separator) {
            Some(p) => {
                &&& p.len() + separator.len() <= text.len()
                &&& text == p + separator + text.skip(p.len() + separator.len() as int)
                &&& forall|j: int|
                    0 <= j < p.len() ==> #[trigger] text.subrange(j, j + separator.len())
                        != separator
            },
            None => forall|j: int|
                0 <= j && j + separator.len() <= text.len() ==> #[trigger] text.subrange(
                    j,
                    j + separator.len(),
                ) != separator,
        },
{
    find_is_first(text, separator, 0);
    match before(text, separator) {
        Some(p) => {
            let i = p.len() as int;
            assert(occurs_at(text, separator, i));
            assert(text.subrange(i, i + separator.len()) == separator);
            assert(text =~= p + text.subrange(i, i + separator.len()) + text.skip(
                i + separator.len(),
            ));
            assert forall|j: int| 0 <= j < p.len() implies #[trigger] text.subrange(
                j,
                j + separator.len(),
            ) != separator by {
                assert(!occurs_at(text, separator, j));
            }
        },
        None => {
            assert forall|j: int| 0 <= j && j + separator.len() <= text.len() implies
                #[trigger] text.subrange(j, j + separator.len()) != separator by {
                assert(!occurs_at(text, separator, j));
            }
        },
    }
}

/// Replacing a character replaces every one of it, and nothing else.
pub proof fn replacing_replaces(text: Seq<char>, from: char, to: char, i: int)
    requires
        0 <= i < text.len(),
    ensures
        replaced(text, from, to).len() == text.len(),
        text[i] == from ==> replaced(text, from, to)[i] == to,
        text[i] != from ==> replaced(text, from, to)[i] == text[i],
{
}

/// The number that a list of decimal digits stands for.
pub open spec fn decimal_value(digits: Seq<char>) -> int
    decreases digits.len(),
{
    if digits.len() == 0 {
        0
    } else {
        10 * decimal_value(digits.drop_last()) + (digits.last() as int - '0' as int)
    }
}

/// A number in decimal is made of digits, begins with a zero only where it is zero, and reads back
/// as the number.
pub proof fn decimal_reads_back(n: nat)
    ensures
        decimal_value(decimal(n)) == n,
        decimal(n).len() > 0,
        forall|i: int| 0 <= i < decimal(n).len() ==> '0' <= #[trigger] decimal(n)[i] <= '9',
        decimal(n)[0] == '0' ==> n == 0 && decimal(n).len() == 1,
    decreases n,
{
    reveal_with_fuel(decimal_value, 2);
    if n < 10 {
        assert(decimal(n).drop_last() =~= Seq::empty());
    } else {
        decimal_reads_back(n / 10);
        assert(decimal(n).drop_last() =~= decimal(n / 10));
        assert(decimal(n)[0] == decimal(n / 10)[0]);
    }
}

/// Splitting loses nothing: the pieces joined by the separator are the text again.
pub proof fn split_then_join(text: Seq<char>, separator: Seq<char>, from: int)
    requires
        0 < separator.len(),
        0 <= from <= text.len(),
    ensures
        split_from(text, separator, from).len() > 0,
        joined(split_from(text, separator, from), separator) == text.subrange(
            from,
            text.len() as int,
        ),
    decreases text.len() - from,
{
    find_is_first(text, separator, from);
    match find(text, separator, from) {
        Some(i) => {
            let next = i + separator.len();
            split_then_join(text, separator, next);
            let rest = split_from(text, separator, next);
            let all = split_from(text, separator, from);
            assert(all.skip(1) =~= rest);
            assert(text.subrange(from, text.len() as int) =~= text.subrange(from, i) + separator
                + text.subrange(next, text.len() as int)) by {
                assert(text.subrange(i, next) == separator);
                assert forall|k: int| i <= k < next implies text[k] == separator[k - i] by {
                    assert(text.subrange(i, next)[k - i] == text[k]);
                }
            }
        },
        None => {
            assert(split_from(text, separator, from).len() == 1);
        },
    }
}

/// No piece of a split text holds the separator.
pub proof fn split_pieces_hold_no_separator(
    text: Seq<char>,
    separator: Seq<char>,
    from: int,
    piece: int,
    at: int,
)
    requires
        0 < separator.len(),
        0 <= from <= text.len(),
        0 <= piece < split_from(text, separator, from).len(),
    ensures
        !occurs_at(split_from(text, separator, from)[piece], separator, at),
        ({
            let p = split_from(text, separator, from)[piece];
            0 <= at && at + separator.len() <= p.len() ==> p.subrange(at, at + separator.len())
                != separator
        }),
    decreases text.len() - from,
{
    find_is_first(text, separator, from);
    let p = split_from(text, separator, from)[piece];
    match find(text, separator, from) {
        Some(i) => {
            let next = i + separator.len();
            if piece == 0 {
                assert(p == text.subrange(from, i));
                if occurs_at(p, separator, at) {
                    assert(text.subrange(from + at, from + at + separator.len()) =~= p.subrange(
                        at,
                        at + separator.len(),
                    ));
                    assert(occurs_at(text, separator, from + at));
                }
            } else {
                split_pieces_hold_no_separator(text, separator, next, piece - 1, at);
            }
        },
        None => {
            assert(p == text.subrange(from, text.len() as int));
            if occurs_at(p, separator, at) {
                assert(text.subrange(from + at, from + at + separator.len()) =~= p.subrange(
                    at,
                    at + separator.len(),
                ));
                assert(occurs_at(text, separator, from + at));
            }
        },
    }
}

/// The characters of `text`.
pub fn chars_of(text: &str) -> (chars: Vec<char>)
    ensures
        chars@ == text@,
{
    let mut chars: Vec<char> = Vec::new();
    let letters = text.chars();
    for c in it: letters
        invariant
            it.seq() == text@,
            chars@ == text@.take(it.index() as int),
    {
        chars.push(c);
        assert(chars@ =~= text@.take(it.index() + 1));
    }
    assert(text@.take(text@.len() as int) =~= text@);
    chars
}

/// The text of the characters from `from` up to `to`.
pub fn text_of(chars: &Vec<char>, from: usize, to: usize) -> (text: String)
    requires
        from <= to <= chars@.len(),
    ensures
        text@ == chars@.subrange(from as int, to as int),
{
    let mut text = String::new();
    let mut i: usize = from;
    while i < to
        invariant
            from <= i <= to <= chars@.len(),
            text@ == chars@.subrange(from as int, i as int),
        decreases to - i,
    {
        text.push(chars[i]);
        i = i + 1;
        assert(text@ =~= chars@.subrange(from as int, i as int));
    }
    text
}

/// Whether `pattern` stands in `text` at position `i`.
fn stands_at(text: &Vec<char>, pattern: &Vec<char>, i: usize) -> (b: bool)
    requires
        i + pattern.len() <= text.len(),
    ensures
        b == occurs_at(text@, pattern@, i as int),
{
    let mut k: usize = 0;
    while k < pattern.len()
        invariant
            k <= pattern@.len(),
            i + pattern.len() <= text.len(),
            forall|j: int| i <= j < i + k ==> #[trigger] text@[j] == pattern@[j - i],
        decreases pattern@.len() - k,
    {
        if text[i + k] != pattern[k] {
            assert(text@.subrange(i as int, i + pattern@.len())[k as int] != pattern@[k as int]);
            return false;
        }
        k = k + 1;
    }
    assert(text@.subrange(i as int, i + pattern@.len()) =~= pattern@);
    true
}

/// The first position at or after `from` at which `pattern` stands in `text`.
pub fn position(text: &Vec<char>, pattern: &Vec<char>, from: usize) -> (r: Option<usize>)
    requires
        from <= text@.len(),
    ensures
        match r {
            Some(i) => find(text@, pattern@, from as int) == Some(i as int),
            None => find(text@, pattern@, from as int) is None,
        },
{
    let mut i: usize = from;
    while pattern.len() <= text.len() - i
        invariant
            from <= i <= text@.len(),
            find(text@, pattern@, from as int) == find(text@, pattern@, i as int),
        decreases text@.len() - i,
    {
        if stands_at(text, pattern, i) {
            return Some(i);
        }
        if i == text.len() {
            assert(find(text@, pattern@, i + 1) is None);
            return None;
        }
        i = i + 1;
    }
    None
}

/// The part of `text` in front of the first `separator`.
pub fn text_before(text: &str, separator: &str) -> (r: Option<String>)
    ensures
        match r {
            Some(t) => before(text@, separator@) == Some(t@),
            None => before(text@, separator@) is None,
        },
{
    let chars = chars_of(text);
    let pattern = chars_of(separator);
    match position(&chars, &pattern, 0) {
        Some(i) => {
            proof {
                find_is_first(text@, separator@, 0);
            }
            Some(text_of(&chars, 0, i))
        },
        None => None,
    }
}

/// The views of a list of texts.
pub open spec fn texts(list: Seq<String>) -> Seq<Seq<char>> {
    list.map_values(|t: String| t@)
}

/// The pieces of `text`, cut at every `separator`.
pub fn split(text: &str, separator: &str) -> (pieces: Vec<String>)
    requires
        separator@.len() > 0,
    ensures
        texts(pieces@) == split_from(text@, separator@, 0),
{
    let chars = chars_of(text);
    let pattern = chars_of(separator);
    let mut pieces: Vec<String> = Vec::new();
    let mut from: usize = 0;
    assert(texts(pieces@) + split_from(text@, separator@, 0) =~= split_from(text@, separator@, 0));
    loop
        invariant
            chars@ == text@,
            pattern@ == separator@,
            separator@.len() > 0,
            from <= text@.len(),
            texts(pieces@) + split_from(text@, separator@, from as int) == split_from(
                text@,
                separator@,
                0,
            ),
        decreases text@.len() - from,
    {
        proof {
            find_is_first(text@, separator@, from as int);
        }
        match position(&chars, &pattern, from) {
            Some(i) => {
                let piece = text_of(&chars, from, i);
                let ghost earlier = texts(pieces@);
                pieces.push(piece);
                assert(texts(pieces@) =~= earlier.push(text@.subrange(from as int, i as int)));
                assert(texts(pieces@) + split_from(text@, separator@, i + separator@.len())
                    =~= earlier + split_from(text@, separator@, from as int));
                assert(i + pattern.len() <= chars.len());
                from = i + pattern.len();
            },
            None => {
                let piece = text_of(&chars, from, chars.len());
                let ghost earlier = texts(pieces@);
                pieces.push(piece);
                assert(texts(pieces@) =~= earlier + split_from(text@, separator@, from as int));
                return pieces;
            },
        }
    }
}

/// `text` with every `from` replaced by `to`.
pub fn replace_char(text: &str, from: char, to: char) -> (r: String)
    ensures
        r@ == replaced(text@, from, to),
{
    let chars = chars_of(text);
    let mut out = String::new();
    let mut i: usize = 0;
    while i < chars.len()
        invariant
            i <= chars@.len(),
            chars@ == text@,
            out@ == replaced(text@.take(i as int), from, to),
        decreases chars@.len() - i,
    {
        let c = chars[i];
        out.push(if c == from { to } else { c });
        i = i + 1;
        assert(out@ =~= replaced(text@.take(i as int), from, to));
    }
    assert(text@.take(i as int) =~= text@);
    out
}

/// The character of a decimal digit.
fn digit_char(n: u32) -> (c: char)
    requires
        n < 10,
    ensures
        c == digit(n as nat),
{
    match n {
        0 => '0',
        1 => '1',
        2 => '2',
        3 => '3',
        4 => '4',
        5 => '5',
        6 => '6',
        7 => '7',
        8 => '8',
        _ => '9',
    }
}

/// `n` written in decimal.
pub fn decimal_text(n: u32) -> (text: String)
    ensures
        text@ == decimal(n as nat),
    decreases n,
{
    if n < 10 {
        let mut text = String::new();
        text.push(digit_char(n));
        assert(text@ =~= seq![digit(n as nat)]);
        text
    } else {
        let mut text = decimal_text(n / 10);
        text.push(digit_char(n % 10));
        text
    }
}

} // verus!
