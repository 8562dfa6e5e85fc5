//! Text: decimal numbers, searching, replacing and trimming.
use vstd::prelude::*;

verus! {

/// `String::push`: the character goes to the end of the text.
pub assume_specification[ String::push ](s: &mut String, c: char)
    ensures
        final(s)@ == old(s)@.push(c),
;

/// The characters of a text.
pub fn chars_of(s: &str) -> (r: Vec<char>)
    ensures
        r@ == s@,
{
    let mut r: Vec<char> = Vec::new();
    for c in it: s.chars()
        invariant
            r@ == it.seq().take(it.index()),
            it.seq() == s@,
    {
        r.push(c);
        assert(it.seq().take(it.index() + 1) =~= it.seq().take(it.index()).push(c));
    }
    assert(s@.take(s@.len() as int) =~= s@);
    r
}

/// Appends characters to a text.
pub fn push_chars(s: &mut String, chars: &[char])
    ensures
        final(s)@ == old(s)@ + chars@,
{
    let ghost start = s@;
    let mut i: usize = 0;
    while i < chars.len()
        invariant
            i <= chars@.len(),
            s@ == start + chars@.take(i as int),
        decreases chars@.len() - i,
    {
        s.push(chars[i]);
        assert(s@ =~= start + chars@.take(i + 1));
        i = i + 1;
    }
    assert(chars@.take(i as int) =~= chars@);
}

/// Appends a text to a text.
pub fn push_text(s: &mut String, t: &str)
    ensures
        final(s)@ == old(s)@ + t@,
{
    let chars = chars_of(t);
    push_chars(s, chars.as_slice());
}

/// The text of characters.
pub fn string_of(chars: &[char]) -> (r: String)
    ensures
        r@ == chars@,
{
    let mut r = String::new();
    push_chars(&mut r, chars);
    assert(r@ =~= chars@);
    r
}

// ---------------------------------------------------------------------------
// Numbers.

/// The decimal digits of a natural number.
pub open spec fn decimal_nat(n: nat) -> Seq<char>
    decreases n,
{
    if n < 10 {
        seq![(48 + n) as char]
    } else {
        decimal_nat(n / 10).push((48 + n % 10) as char)
    }
}

/// The decimal form of a number.
pub open spec fn decimal(v: int) -> Seq<char> {
    if v < 0 {
        seq!['-'] + decimal_nat((-v) as nat)
    } else {
        decimal_nat(v as nat)
    }
}

fn push_decimal_nat(s: &mut String, n: u64)
    ensures
        final(s)@ == old(s)@ + decimal_nat(n as nat),
    decreases n,
{
    let ghost start = s@;
    if n >= 10 {
        push_decimal_nat(s, n / 10);
    }
    let digit: u8 = 48 + (n % 10) as u8;
    s.push(digit as char);
    assert(s@ =~= start + decimal_nat(n as nat));
}

/// Appends the decimal form of a number.
pub fn push_decimal(s: &mut String, v: i64)
    ensures
        final(s)@ == old(s)@ + decimal(v as int),
{
    let ghost start = s@;
    if v < 0 {
        s.push('-');
        let magnitude: u64 = if v == i64::MIN {
            0x8000_0000_0000_0000
        } else {
            (-v) as u64
        };
        push_decimal_nat(s, magnitude);
        assert(s@ =~= start + decimal(v as int));
    } else {
        push_decimal_nat(s, v as u64);
    }
}

/// A text followed by the decimal form of a number.
pub fn with_number(prefix: &str, v: i64) -> (r: String)
    ensures
        r@ == prefix@ + decimal(v as int),
{
    let mut r = String::new();
    push_text(&mut r, prefix);
    push_decimal(&mut r, v);
    assert(r@ =~= prefix@ + decimal(v as int));
    r
}

/// A hexadecimal digit.
pub open spec fn hex_digit(n: nat) -> char {
    if n < 10 {
        (48 + n) as char
    } else {
        (55 + n) as char
    }
}

/// The hexadecimal digits of a number, at least `width` of them.
pub open spec fn hex(n: nat, width: nat) -> Seq<char>
    decreases n, width,
{
    if n < 16 && width <= 1 {
        seq![hex_digit(n)]
    } else {
        hex(n / 16, if width > 0 { (width - 1) as nat } else { 0 }).push(hex_digit(n % 16))
    }
}

/// Appends the hexadecimal digits of a number, at least `width` of them.
pub fn push_hex(s: &mut String, n: u32, width: usize)
    ensures
        final(s)@ == old(s)@ + hex(n as nat, width as nat),
    decreases n, width,
{
    let ghost start = s@;
    if n >= 16 || width > 1 {
        push_hex(
            s,
            n / 16,
            if width > 0 {
                width - 1
            } else {
                0
            },
        );
    }
    let low: u8 = (n % 16) as u8;
    let digit: u8 = if low < 10 {
        48 + low
    } else {
        55 + low
    };
    s.push(digit as char);
    assert(s@ =~= start + hex(n as nat, width as nat));
}

// ---------------------------------------------------------------------------
// Searching and replacing.

/// Whether `needle` stands in `hay` at position `i`.
pub open spec fn occurs_at(hay: Seq<char>, needle: Seq<char>, i: int) -> bool {
    0 <= i && i + needle.len() <= hay.len() && hay.subrange(i, i + needle.len()) == needle
}

/// Whether `needle` stands somewhere in `hay`.
pub open spec fn holds(hay: Seq<char>, needle: Seq<char>) -> bool {
    exists|i: int| occurs_at(hay, needle, i)
}

/// The first position from `from` on at which `needle` stands, or the length of `hay`.
pub open spec fn first_occurrence(hay: Seq<char>, needle: Seq<char>, from: int) -> int
    decreases hay.len() - from,
{
    if from >= hay.len() {
        hay.len() as int
    } else if occurs_at(hay, needle, from) {
        from
    } else {
        first_occurrence(hay, needle, from + 1)
    }
}

/// The text with every occurrence of `needle` replaced, from the left and without
/// looking at what was put in.
pub open spec fn replaced(hay: Seq<char>, needle: Seq<char>, with: Seq<char>) -> Seq<char>
    decreases hay.len(),
{
    let i = first_occurrence(hay, needle, 0);
    if needle.len() > 0 && 0 <= i && i + needle.len() <= hay.len() {
        hay.take(i) + with + replaced(hay.skip(i + needle.len()), needle, with)
    } else {
        hay
    }
}

proof fn lemma_first_occurrence(hay: Seq<char>, needle: Seq<char>, from: int)
    requires
        0 <= from <= hay.len(),
    ensures
        from <= first_occurrence(hay, needle, from) <= hay.len(),
        first_occurrence(hay, needle, from) < hay.len() ==> occurs_at(
            hay,
            needle,
            first_occurrence(hay, needle, from),
        ),
        forall|i: int|
            from <= i < first_occurrence(hay, needle, from) ==> !occurs_at(hay, needle, i),
    decreases hay.len() - from,
{
    if from < hay.len() && !occurs_at(hay, needle, from) {
        lemma_first_occurrence(hay, needle, from + 1);
    }
}

/// A text in which `needle` does not stand stays as it is.
pub proof fn law_replacing_nothing(hay: Seq<char>, needle: Seq<char>, with: Seq<char>)
    requires
        !holds(hay, needle),
    ensures
        replaced(hay, needle, with) == hay,
{
    lemma_first_occurrence(hay, needle, 0);
}

fn matches_at(hay: &[char], needle: &[char], i: usize) -> (b: bool)
    requires
        i <= hay@.len(),
    ensures
        b == occurs_at(hay@, needle@, i as int),
{
    if needle.len() > hay.len() - i {
        return false;
    }
    let n: usize = hay.len();
    let mut j: usize = 0;
    while j < needle.len()
        invariant
            n == hay@.len(),
            j <= needle@.len(),
            i + needle@.len() <= hay@.len(),
            forall|k: int| 0 <= k < j ==> hay@[i + k] == needle@[k],
        decreases needle@.len() - j,
    {
        assert(i + j < n);
        if hay[i + j] != needle[j] {
            assert(hay@.subrange(i as int, i + needle@.len())[j as int] == hay@[i + j]);
            return false;
        }
        j = j + 1;
    }
    assert(hay@.subrange(i as int, i + needle@.len()) =~= needle@);
    true
}

/// Tests whether `needle` stands somewhere in `hay`.
pub fn contains_chars(hay: &[char], needle: &[char]) -> (b: bool)
    ensures
        b == holds(hay@, needle@),
{
    let mut i: usize = 0;
    loop
        invariant
            i <= hay@.len(),
            forall|k: int| 0 <= k < i ==> !occurs_at(hay@, needle@, k),
        decreases hay@.len() - i,
    {
        if matches_at(hay, needle, i) {
            return true;
        }
        if i == hay.len() {
            return false;
        }
        i = i + 1;
    }
}

/// Tests whether `needle` stands somewhere in `hay`.
pub fn contains_text(hay: &str, needle: &str) -> (b: bool)
    ensures
        b == holds(hay@, needle@),
{
    let h = chars_of(hay);
    let n = chars_of(needle);
    contains_chars(h.as_slice(), n.as_slice())
}

/// Replaces every occurrence of `needle`.
pub fn replace_chars(hay: &[char], needle: &[char], with: &[char]) -> (r: Vec<char>)
    requires
        needle@.len() > 0,
    ensures
        r@ == replaced(hay@, needle@, with@),
{
    let mut r: Vec<char> = Vec::new();
    // what comes before `start` has been dealt with, and nothing stands between it and `i`
    let mut start: usize = 0;
    let mut i: usize = 0;
    assert(hay@.skip(0) =~= hay@);
    assert(hay@.subrange(0, 0) =~= Seq::<char>::empty());
    while i < hay.len()
        invariant
            start <= i <= hay@.len(),
            needle@.len() > 0,
            forall|k: int|
                0 <= k < i - start ==> !occurs_at(hay@.skip(start as int), needle@, k),
            replaced(hay@, needle@, with@) == r@ + replaced(hay@.skip(start as int), needle@, with@),
        decreases hay@.len() - i,
    {
        let ghost rest = hay@.skip(start as int);
        if matches_at(hay, needle, i) {
            let ghost before = r@;
            assert(occurs_at(rest, needle@, i - start)) by {
                assert(rest.subrange(i - start, i - start + needle@.len()) =~= hay@.subrange(
                    i as int,
                    i + needle@.len(),
                ));
            }
            proof {
                lemma_first_occurrence(rest, needle@, 0);
                assert(first_occurrence(rest, needle@, 0) == i - start);
            }
            r.extend_from_slice(vstd::slice::slice_subrange(hay, start, i));
            r.extend_from_slice(with);
            assert(r@ =~= before + rest.take(i - start) + with@);
            assert(rest.skip(i - start + needle@.len()) =~= hay@.skip(i + needle@.len()));
            i = i + needle.len();
            start = i;
            assert(before + replaced(rest, needle@, with@) =~= r@ + replaced(
                hay@.skip(start as int),
                needle@,
                with@,
            ));
        } else {
            assert(!occurs_at(rest, needle@, i - start)) by {
                if occurs_at(rest, needle@, i - start) {
                    assert(rest.subrange(i - start, i - start + needle@.len()) =~= hay@.subrange(
                        i as int,
                        i + needle@.len(),
                    ));
                }
            }
            i = i + 1;
        }
    }
    let ghost rest = hay@.skip(start as int);
    proof {
        lemma_first_occurrence(rest, needle@, 0);
        assert(replaced(rest, needle@, with@) == rest);
    }
    let ghost before = r@;
    r.extend_from_slice(vstd::slice::slice_subrange(hay, start, hay.len()));
    assert(r@ =~= before + rest);
    r
}

// ---------------------------------------------------------------------------
// White space, lines and words.

/// The characters that Unicode counts as white space.
pub open spec fn is_white(c: char) -> bool {
    let n = c as u32;
    9 <= n <= 13 || n == 0x20 || n == 0x85 || n == 0xA0 || n == 0x1680 || 0x2000 <= n <= 0x200A
        || n == 0x2028 || n == 0x2029 || n == 0x202F || n == 0x205F || n == 0x3000
}

/// Tests whether Unicode counts the character as white space.
pub fn is_white_space(c: char) -> (b: bool)
    ensures
        b == is_white(c),
{
    let n: u32 = c as u32;
    (9 <= n && n <= 13) || n == 0x20 || n == 0x85 || n == 0xA0 || n == 0x1680 || (0x2000 <= n && n
        <= 0x200A) || n == 0x2028 || n == 0x2029 || n == 0x202F || n == 0x205F || n == 0x3000
}

/// The text without white space at its start.
pub open spec fn trim_start(s: Seq<char>) -> Seq<char>
    decreases s.len(),
{
    if s.len() > 0 && is_white(s[0]) {
        trim_start(s.skip(1))
    } else {
        s
    }
}

/// The text without white space at its end.
pub open spec fn trim_end(s: Seq<char>) -> Seq<char>
    decreases s.len(),
{
    if s.len() > 0 && is_white(s.last()) {
        trim_end(s.drop_last())
    } else {
        s
    }
}

/// The text without white space at its ends.
pub open spec fn trimmed(s: Seq<char>) -> Seq<char> {
    trim_end(trim_start(s))
}

/// The text without NUL characters at its end.
pub open spec fn without_end_nuls(s: Seq<char>) -> Seq<char>
    decreases s.len(),
{
    if s.len() > 0 && s.last() as u32 == 0 {
        without_end_nuls(s.drop_last())
    } else {
        s
    }
}

/// Takes white space off both ends.
pub fn trim_chars(s: &[char]) -> (r: Vec<char>)
    ensures
        r@ == trimmed(s@),
{
    let mut from: usize = 0;
    assert(s@.skip(0) =~= s@);
    while from < s.len() && is_white_space(s[from])
        invariant
            from <= s@.len(),
            trim_start(s@) == trim_start(s@.skip(from as int)),
        decreases s@.len() - from,
    {
        assert(s@.skip(from as int).skip(1) =~= s@.skip(from + 1));
        from = from + 1;
    }
    let ghost kept = s@.skip(from as int);
    let mut to: usize = s.len();
    assert(s@.subrange(from as int, to as int) =~= kept);
    while from < to && is_white_space(s[to - 1])
        invariant
            from <= to <= s@.len(),
            trim_end(kept) == trim_end(s@.subrange(from as int, to as int)),
        decreases to - from,
    {
        assert(s@.subrange(from as int, to as int).drop_last() =~= s@.subrange(
            from as int,
            to - 1,
        ));
        to = to - 1;
    }
    let mut r: Vec<char> = Vec::new();
    r.extend_from_slice(vstd::slice::slice_subrange(s, from, to));
    assert(r@ =~= s@.subrange(from as int, to as int));
    r
}

/// Takes NUL characters off the end, then white space off both ends, as values of a
/// device tree need it.
pub fn trim_device_tree(s: &str) -> (r: Vec<char>)
    ensures
        r@ == trimmed(without_end_nuls(s@)),
{
    let chars = chars_of(s);
    let mut to: usize = chars.len();
    assert(chars@.take(to as int) =~= chars@);
    while to > 0 && chars[to - 1] as u32 == 0
        invariant
            to <= chars@.len(),
            without_end_nuls(chars@) == without_end_nuls(chars@.take(to as int)),
        decreases to,
    {
        assert(chars@.take(to as int).drop_last() =~= chars@.take(to - 1));
        to = to - 1;
    }
    let r = trim_chars(vstd::slice::slice_subrange(chars.as_slice(), 0, to));
    assert(chars@.subrange(0, to as int) =~= chars@.take(to as int));
    r
}

/// The position of the first line feed from `from` on, or the length of the text.
pub open spec fn line_end(s: Seq<char>, from: int) -> int
    decreases s.len() - from,
{
    if from >= s.len() {
        s.len() as int
    } else if s[from] == '\n' {
        from
    } else {
        line_end(s, from + 1)
    }
}

/// A line without the carriage return that belongs to its line feed.
pub open spec fn without_return(s: Seq<char>) -> Seq<char> {
    if s.len() > 0 && s.last() == '\r' {
        s.drop_last()
    } else {
        s
    }
}

/// The lines of a text; a line feed at the end opens no further line.
pub open spec fn lines(s: Seq<char>) -> Seq<Seq<char>>
    decreases s.len(),
{
    if s.len() == 0 {
        seq![]
    } else {
        let i = line_end(s, 0);
        if 0 <= i < s.len() {
            seq![without_return(s.take(i))] + lines(s.skip(i + 1))
        } else {
            seq![s]
        }
    }
}

/// The position of the first white space from `from` on, or the length of the text.
pub open spec fn word_end(s: Seq<char>, from: int) -> int
    decreases s.len() - from,
{
    if from >= s.len() {
        s.len() as int
    } else if is_white(s[from]) {
        from
    } else {
        word_end(s, from + 1)
    }
}

/// The words of a text that white space separates.
pub open spec fn words(s: Seq<char>) -> Seq<Seq<char>>
    decreases s.len(),
{
    if s.len() == 0 {
        seq![]
    } else if is_white(s[0]) {
        words(s.skip(1))
    } else {
        let i = word_end(s, 0);
        if 0 < i <= s.len() {
            seq![s.take(i)] + words(s.skip(i))
        } else {
            seq![]
        }
    }
}

/// The contents of each vector.
pub open spec fn texts(v: Seq<Vec<char>>) -> Seq<Seq<char>> {
    v.map_values(|t: Vec<char>| t@)
}

/// The contents of each string.
pub open spec fn string_views(v: Seq<String>) -> Seq<Seq<char>> {
    v.map_values(|t: String| t@)
}

proof fn lemma_line_end(s: Seq<char>, from: int, to: int)
    requires
        0 <= from <= to <= s.len(),
        forall|k: int| from <= k < to ==> s[k] != '\n',
        to < s.len() ==> s[to] == '\n',
    ensures
        line_end(s, from) == to,
    decreases to - from,
{
    if from < to {
        lemma_line_end(s, from + 1, to);
    }
}

proof fn lemma_word_end(s: Seq<char>, from: int, to: int)
    requires
        0 <= from <= to <= s.len(),
        forall|k: int| from <= k < to ==> !is_white(s[k]),
        to < s.len() ==> is_white(s[to]),
    ensures
        word_end(s, from) == to,
    decreases to - from,
{
    if from < to {
        lemma_word_end(s, from + 1, to);
    }
}

/// Splits a text into lines.
pub fn lines_of(s: &[char]) -> (r: Vec<Vec<char>>)
    ensures
        texts(r@) == lines(s@),
{
    let mut r: Vec<Vec<char>> = Vec::new();
    let mut start: usize = 0;
    assert(s@.skip(0) =~= s@);
    assert(texts(r@) + lines(s@) =~= lines(s@));
    while start < s.len()
        invariant
            start <= s@.len(),
            lines(s@) == texts(r@) + lines(s@.skip(start as int)),
        decreases s@.len() - start,
    {
        let ghost rest = s@.skip(start as int);
        let ghost before = texts(r@);
        let mut end: usize = start;
        while end < s.len() && s[end] != '\n'
            invariant
                start <= end <= s@.len(),
                forall|k: int| start <= k < end ==> s@[k] != '\n',
            decreases s@.len() - end,
        {
            end = end + 1;
        }
        proof {
            assert forall|k: int| 0 <= k < end - start implies rest[k] != '\n' by {
                assert(rest[k] == s@[start + k]);
            }
            lemma_line_end(rest, 0, end - start);
        }
        let mut line: Vec<char> = Vec::new();
        line.extend_from_slice(vstd::slice::slice_subrange(s, start, end));
        assert(line@ =~= rest.take(end - start));
        if end < s.len() {
            if line.len() > 0 && line[line.len() - 1] == '\r' {
                let n: usize = line.len() - 1;
                line.truncate(n);
                assert(line@ =~= rest.take(end - start).drop_last());
            }
            assert(line@ =~= without_return(rest.take(end - start)));
            assert(rest.skip(end - start + 1) =~= s@.skip(end + 1));
            r.push(line);
            assert(texts(r@) =~= before.push(line@));
            start = end + 1;
            assert(before + lines(rest) =~= texts(r@) + lines(s@.skip(start as int)));
        } else {
            assert(line@ =~= rest);
            r.push(line);
            assert(texts(r@) =~= before.push(rest));
            start = end;
            assert(lines(s@.skip(start as int)) =~= Seq::<Seq<char>>::empty());
            assert(before + lines(rest) =~= texts(r@) + lines(s@.skip(start as int)));
        }
    }
    assert(lines(s@.skip(start as int)) =~= Seq::<Seq<char>>::empty());
    assert(texts(r@) + lines(s@.skip(start as int)) =~= texts(r@));
    r
}

/// Splits a text into words.
pub fn words_of(s: &[char]) -> (r: Vec<Vec<char>>)
    ensures
        texts(r@) == words(s@),
{
    let mut r: Vec<Vec<char>> = Vec::new();
    let mut start: usize = 0;
    assert(s@.skip(0) =~= s@);
    assert(texts(r@) + words(s@) =~= words(s@));
    while start < s.len()
        invariant
            start <= s@.len(),
            words(s@) == texts(r@) + words(s@.skip(start as int)),
        decreases s@.len() - start,
    {
        let ghost rest = s@.skip(start as int);
        let ghost before = texts(r@);
        if is_white_space(s[start]) {
            assert(rest.skip(1) =~= s@.skip(start + 1));
            start = start + 1;
        } else {
            let mut end: usize = start + 1;
            while end < s.len() && !is_white_space(s[end])
                invariant
                    start < end <= s@.len(),
                    forall|k: int| start <= k < end ==> !is_white(s@[k]),
                decreases s@.len() - end,
            {
                end = end + 1;
            }
            proof {
                assert forall|k: int| 0 <= k < end - start implies !is_white(rest[k]) by {
                    assert(rest[k] == s@[start + k]);
                }
                lemma_word_end(rest, 0, end - start);
            }
            let mut word: Vec<char> = Vec::new();
            word.extend_from_slice(vstd::slice::slice_subrange(s, start, end));
            assert(word@ =~= rest.take(end - start));
            assert(rest.skip(end - start) =~= s@.skip(end as int));
            r.push(word);
            assert(texts(r@) =~= before.push(word@));
            start = end;
            assert(before + words(rest) =~= texts(r@) + words(s@.skip(start as int)));
        }
    }
    assert(words(s@.skip(start as int)) =~= Seq::<Seq<char>>::empty());
    assert(texts(r@) + words(s@.skip(start as int)) =~= texts(r@));
    r
}

/// Tests whether two texts are equal.
pub fn same_chars(a: &[char], b: &[char]) -> (r: bool)
    ensures
        r == (a@ == b@),
{
    if a.len() != b.len() {
        return false;
    }
    let mut i: usize = 0;
    while i < a.len()
        invariant
            i <= a@.len(),
            a@.len() == b@.len(),
            forall|k: int| 0 <= k < i ==> a@[k] == b@[k],
        decreases a@.len() - i,
    {
        if a[i] != b[i] {
            return false;
        }
        i = i + 1;
    }
    assert(a@ =~= b@);
    true
}

/// Tests whether a text equals another.
pub fn same_text(a: &str, b: &str) -> (r: bool)
    ensures
        r == (a@ == b@),
{
    let x = chars_of(a);
    let y = chars_of(b);
    same_chars(x.as_slice(), y.as_slice())
}

} // verus!
