//! Scanning of texts: white space, patterns, lines and fields, stated on
//! sequences of characters and computed on windows of a character vector.

use vstd::prelude::*;

verus! {

/// The characters that count as white space at the ends of a text.
pub open spec fn is_whitespace(c: char) -> bool {
    let u = c as u32;
    ||| (0x09 <= u && u <= 0x0D)
    ||| u == 0x20
    ||| u == 0x85
    ||| u == 0xA0
    ||| u == 0x1680
    ||| (0x2000 <= u && u <= 0x200A)
    ||| u == 0x2028
    ||| u == 0x2029
    ||| u == 0x202F
    ||| u == 0x205F
    ||| u == 0x3000
}

/// Whether a character counts as white space.
pub fn char_is_whitespace(c: char) -> (r: bool)
    ensures
        r == is_whitespace(c),
{
    let u = c as u32;
    (0x09 <= u && u <= 0x0D) || u == 0x20 || u == 0x85 || u == 0xA0 || u == 0x1680 || (0x2000 <= u
        && u <= 0x200A) || u == 0x2028 || u == 0x2029 || u == 0x202F || u == 0x205F || u == 0x3000
}

/// The text without the white space at its start.
pub open spec fn trim_start(s: Seq<char>) -> Seq<char>
    decreases s.len(),
{
    if s.len() > 0 && is_whitespace(s[0]) {
        trim_start(s.drop_first())
    } else {
        s
    }
}

/// The text without the white space at its end.
pub open spec fn trim_end(s: Seq<char>) -> Seq<char>
    decreases s.len(),
{
    if s.len() > 0 && is_whitespace(s.last()) {
        trim_end(s.drop_last())
    } else {
        s
    }
}

/// The text without the white space at both ends.
pub open spec fn trimmed(s: Seq<char>) -> Seq<char> {
    trim_end(trim_start(s))
}

/// The text without the run of `c` at its end.
pub open spec fn without_trailing(s: Seq<char>, c: char) -> Seq<char>
    decreases s.len(),
{
    if s.len() > 0 && s.last() == c {
        without_trailing(s.drop_last(), c)
    } else {
        s
    }
}

/// The text without the run of `c` at its start.
pub open spec fn without_leading(s: Seq<char>, c: char) -> Seq<char>
    decreases s.len(),
{
    if s.len() > 0 && s[0] == c {
        without_leading(s.drop_first(), c)
    } else {
        s
    }
}

/// The pattern stands in the text at place `i`.
pub open spec fn matches_at(s: Seq<char>, pattern: Seq<char>, i: int) -> bool {
    0 <= i && i + pattern.len() <= s.len() && s.subrange(i, i + pattern.len()) == pattern
}

/// The first place at or after `from` where the pattern stands in the text.
pub open spec fn find_from(s: Seq<char>, pattern: Seq<char>, from: int) -> Option<int>
    decreases s.len() - from + 1,
{
    if from < 0 || from + pattern.len() > s.len() {
        None
    } else if matches_at(s, pattern, from) {
        Some(from)
    } else {
        find_from(s, pattern, from + 1)
    }
}

/// The first place where the pattern stands in the text.
pub open spec fn find(s: Seq<char>, pattern: Seq<char>) -> Option<int> {
    find_from(s, pattern, 0)
}

/// The pattern stands somewhere in the text.
pub open spec fn contains(s: Seq<char>, pattern: Seq<char>) -> bool {
    find(s, pattern) is Some
}

/// The first place at or after `from` where the character stands.
pub open spec fn find_char_from(s: Seq<char>, c: char, from: int) -> Option<int>
    decreases s.len() - from,
{
    if from < 0 || from >= s.len() {
        None
    } else if s[from] == c {
        Some(from)
    } else {
        find_char_from(s, c, from + 1)
    }
}

/// The first place where the character stands.
pub open spec fn find_char(s: Seq<char>, c: char) -> Option<int> {
    find_char_from(s, c, 0)
}

/// The last place where the character stands.
pub open spec fn rfind_char(s: Seq<char>, c: char) -> Option<int>
    decreases s.len(),
{
    if s.len() == 0 {
        None
    } else if s.last() == c {
        Some(s.len() - 1)
    } else {
        rfind_char(s.drop_last(), c)
    }
}

/// The lines of a text: the pieces between line feeds.
pub open spec fn lines_of(s: Seq<char>) -> Seq<Seq<char>>
    decreases s.len(),
{
    match find_char(s, '\n') {
        None => seq![s],
        Some(i) => if 0 <= i < s.len() {
            seq![s.take(i)] + lines_of(s.skip(i + 1))
        } else {
            seq![s]
        },
    }
}

/// The fields of a text: the pieces between runs of two spaces that are not
/// empty, where the runs are taken from the left and do not overlap.
pub open spec fn fields_of(s: Seq<char>) -> Seq<Seq<char>>
    decreases s.len(),
{
    match find(s, seq![' ', ' ']) {
        None => if s.len() > 0 {
            seq![s]
        } else {
            Seq::empty()
        },
        Some(i) => if 0 <= i && i + 2 <= s.len() {
            if i > 0 {
                seq![s.take(i)] + fields_of(s.skip(i + 2))
            } else {
                fields_of(s.skip(i + 2))
            }
        } else {
            Seq::empty()
        },
    }
}

/// What `find_from` finds is a place at or after `from` where the pattern
/// stands, and the pattern stands at no place between the two; it finds
/// nothing only where the pattern stands nowhere from `from` on.
pub proof fn lemma_find_from(s: Seq<char>, pattern: Seq<char>, from: int)
    requires
        0 <= from,
    ensures
        match find_from(s, pattern, from) {
            Some(i) => from <= i && matches_at(s, pattern, i) && forall|k: int|
                from <= k < i ==> !matches_at(s, pattern, k),
            None => forall|k: int| from <= k ==> !matches_at(s, pattern, k),
        },
    decreases s.len() - from + 1,
{
    if from + pattern.len() > s.len() {
    } else if matches_at(s, pattern, from) {
    } else {
        lemma_find_from(s, pattern, from + 1);
    }
}

/// What `find_char_from` finds is the first place at or after `from` where
/// the character stands.
pub proof fn lemma_find_char_from(s: Seq<char>, c: char, from: int)
    requires
        0 <= from,
    ensures
        match find_char_from(s, c, from) {
            Some(i) => from <= i < s.len() && s[i] == c && forall|k: int|
                from <= k < i ==> s[k] != c,
            None => forall|k: int| from <= k < s.len() ==> s[k] != c,
        },
    decreases s.len() - from,
{
    if from >= s.len() {
    } else if s[from] == c {
    } else {
        lemma_find_char_from(s, c, from + 1);
    }
}

/// What `rfind_char` finds is the last place where the character stands.
pub proof fn lemma_rfind_char(s: Seq<char>, c: char)
    ensures
        match rfind_char(s, c) {
            Some(i) => 0 <= i < s.len() && s[i] == c && forall|k: int|
                i < k < s.len() ==> s[k] != c,
            None => forall|k: int| 0 <= k < s.len() ==> s[k] != c,
        },
    decreases s.len(),
{
    if s.len() == 0 {
    } else if s.last() == c {
    } else {
        lemma_rfind_char(s.drop_last(), c);
        assert forall|k: int| 0 <= k < s.len() - 1 implies s.drop_last()[k] == s[k] by {}
    }
}

/// A window of a vector of characters: the places from `start` up to, not
/// including, `end`.
#[derive(Clone, Copy, Debug, PartialEq, Eq, Structural)]
pub struct Span {
    pub start: usize,
    pub end: usize,
}

impl Span {
    /// The window lies within a text of `len` characters.
    pub open spec fn within(self, len: nat) -> bool {
        self.start <= self.end && self.end <= len
    }

    /// The characters of the window.
    pub open spec fn of(self, s: Seq<char>) -> Seq<char> {
        s.subrange(self.start as int, self.end as int)
    }

    /// The number of characters in the window.
    pub fn len(&self) -> (r: usize)
        requires
            self.start <= self.end,
        ensures
            r == self.end - self.start,
    {
        self.end - self.start
    }
}

/// The window without the white space at both ends.
pub fn trim_span(chars: &Vec<char>, span: Span) -> (r: Span)
    requires
        span.within(chars@.len()),
    ensures
        r.within(chars@.len()),
        span.start <= r.start,
        r.end <= span.end,
        r.of(chars@) == trimmed(span.of(chars@)),
{
    let mut a = span.start;
    while a < span.end && char_is_whitespace(chars[a])
        invariant
            span.within(chars@.len()),
            span.start <= a <= span.end,
            trim_start(span.of(chars@)) == trim_start(chars@.subrange(a as int, span.end as int)),
        decreases span.end - a,
    {
        assert(chars@.subrange(a as int, span.end as int).drop_first() =~= chars@.subrange(
            a + 1,
            span.end as int,
        ));
        a += 1;
    }
    let mut b = span.end;
    while b > a && char_is_whitespace(chars[b - 1])
        invariant
            span.within(chars@.len()),
            a <= b <= span.end,
            trim_end(chars@.subrange(a as int, span.end as int)) == trim_end(
                chars@.subrange(a as int, b as int),
            ),
        decreases b - a,
    {
        assert(chars@.subrange(a as int, b as int).drop_last() =~= chars@.subrange(
            a as int,
            b - 1,
        ));
        b -= 1;
    }
    Span { start: a, end: b }
}

/// The window without the run of `c` at its end.
pub fn trim_trailing_span(chars: &Vec<char>, span: Span, c: char) -> (r: Span)
    requires
        span.within(chars@.len()),
    ensures
        r.within(chars@.len()),
        r.start == span.start,
        r.end <= span.end,
        r.of(chars@) == without_trailing(span.of(chars@), c),
{
    let mut b = span.end;
    while b > span.start && chars[b - 1] == c
        invariant
            span.within(chars@.len()),
            span.start <= b <= span.end,
            without_trailing(span.of(chars@), c) == without_trailing(
                chars@.subrange(span.start as int, b as int),
                c,
            ),
        decreases b - span.start,
    {
        assert(chars@.subrange(span.start as int, b as int).drop_last() =~= chars@.subrange(
            span.start as int,
            b - 1,
        ));
        b -= 1;
    }
    Span { start: span.start, end: b }
}

/// The window without the run of `c` at its start.
pub fn trim_leading_span(chars: &Vec<char>, span: Span, c: char) -> (r: Span)
    requires
        span.within(chars@.len()),
    ensures
        r.within(chars@.len()),
        r.end == span.end,
        span.start <= r.start,
        r.of(chars@) == without_leading(span.of(chars@), c),
{
    let mut a = span.start;
    while a < span.end && chars[a] == c
        invariant
            span.within(chars@.len()),
            span.start <= a <= span.end,
            without_leading(span.of(chars@), c) == without_leading(
                chars@.subrange(a as int, span.end as int),
                c,
            ),
        decreases span.end - a,
    {
        assert(chars@.subrange(a as int, span.end as int).drop_first() =~= chars@.subrange(
            a + 1,
            span.end as int,
        ));
        a += 1;
    }
    Span { start: a, end: span.end }
}

/// Whether the pattern stands in the window at the place `at` of the vector.
pub fn span_matches_at(chars: &Vec<char>, span: Span, pattern: &Vec<char>, at: usize) -> (r: bool)
    requires
        span.within(chars@.len()),
        span.start <= at,
    ensures
        r == matches_at(span.of(chars@), pattern@, at - span.start),
{
    if at > span.end || pattern.len() > span.end - at {
        return false;
    }
    let mut k: usize = 0;
    while k < pattern.len()
        invariant
            span.within(chars@.len()),
            span.start <= at <= span.end,
            pattern@.len() <= span.end - at,
            k <= pattern@.len(),
            forall|j: int| 0 <= j < k ==> chars@[at + j] == pattern@[j],
        decreases pattern@.len() - k,
    {
        if chars[at + k] != pattern[k] {
            proof {
                let window = span.of(chars@).subrange(
                    at - span.start,
                    at - span.start + pattern@.len(),
                );
            }
            return false;
        }
        k += 1;
    }
    proof {
        let window = span.of(chars@).subrange(at - span.start, at - span.start + pattern@.len());
        assert(window =~= pattern@);
    }
    true
}

/// The first place in the window, counted from its start, where the pattern
/// stands.
pub fn find_in_span(chars: &Vec<char>, span: Span, pattern: &Vec<char>) -> (r: Option<usize>)
    requires
        span.within(chars@.len()),
    ensures
        match r {
            Some(i) => find(span.of(chars@), pattern@) == Some(i as int) && i + pattern@.len()
                <= span.end - span.start,
            None => find(span.of(chars@), pattern@) is None,
        },
{
    let mut at = span.start;
    while at <= span.end && pattern.len() <= span.end - at
        invariant
            span.within(chars@.len()),
            span.start <= at,
            find(span.of(chars@), pattern@) == find_from(
                span.of(chars@),
                pattern@,
                at - span.start,
            ),
        decreases span.end + 1 - at,
    {
        if span_matches_at(chars, span, pattern, at) {
            return Some(at - span.start);
        }
        if at == span.end {
            assert(find_from(span.of(chars@), pattern@, at - span.start + 1) is None);
            return None;
        }
        at += 1;
    }
    None
}

/// The first place in the window, counted from its start, where the
/// character stands.
pub fn find_char_in_span(chars: &Vec<char>, span: Span, c: char) -> (r: Option<usize>)
    requires
        span.within(chars@.len()),
    ensures
        match r {
            Some(i) => find_char(span.of(chars@), c) == Some(i as int) && i < span.end
                - span.start,
            None => find_char(span.of(chars@), c) is None,
        },
{
    let mut at = span.start;
    while at < span.end
        invariant
            span.within(chars@.len()),
            span.start <= at <= span.end,
            find_char(span.of(chars@), c) == find_char_from(span.of(chars@), c, at - span.start),
        decreases span.end - at,
    {
        if chars[at] == c {
            return Some(at - span.start);
        }
        at += 1;
    }
    None
}

/// The last place in the window, counted from its start, where the
/// character stands.
pub fn rfind_char_in_span(chars: &Vec<char>, span: Span, c: char) -> (r: Option<usize>)
    requires
        span.within(chars@.len()),
    ensures
        match r {
            Some(i) => rfind_char(span.of(chars@), c) == Some(i as int) && i < span.end
                - span.start,
            None => rfind_char(span.of(chars@), c) is None,
        },
{
    let mut b = span.end;
    while b > span.start
        invariant
            span.within(chars@.len()),
            span.start <= b <= span.end,
            rfind_char(span.of(chars@), c) == rfind_char(
                chars@.subrange(span.start as int, b as int),
                c,
            ),
        decreases b - span.start,
    {
        if chars[b - 1] == c {
            return Some(b - 1 - span.start);
        }
        assert(chars@.subrange(span.start as int, b as int).drop_last() =~= chars@.subrange(
            span.start as int,
            b - 1,
        ));
        b -= 1;
    }
    None
}

/// The windows of a list, as the texts they hold.
pub open spec fn span_texts(spans: Seq<Span>, s: Seq<char>) -> Seq<Seq<char>> {
    spans.map_values(|span: Span| span.of(s))
}

/// The lines of the window.
pub fn lines_in_span(chars: &Vec<char>, span: Span) -> (lines: Vec<Span>)
    requires
        span.within(chars@.len()),
    ensures
        span_texts(lines@, chars@) == lines_of(span.of(chars@)),
        forall|k: int| 0 <= k < lines@.len() ==> (#[trigger] lines@[k]).within(chars@.len()),
{
    let mut lines: Vec<Span> = Vec::new();
    let mut start = span.start;
    let mut done = false;
    while !done
        invariant
            span.within(chars@.len()),
            span.start <= start <= span.end,
            forall|k: int| 0 <= k < lines@.len() ==> (#[trigger] lines@[k]).within(chars@.len()),
            !done ==> span_texts(lines@, chars@) + lines_of(
                chars@.subrange(start as int, span.end as int),
            ) == lines_of(span.of(chars@)),
            done ==> span_texts(lines@, chars@) == lines_of(span.of(chars@)),
        decreases span.end - start + (if done { 0int } else { 1int }),
    {
        let rest = Span { start, end: span.end };
        let ghost tail = rest.of(chars@);
        match find_char_in_span(chars, rest, '\n') {
            None => {
                lines.push(rest);
                done = true;
            },
            Some(i) => {
                let line = Span { start, end: start + i };
                lines.push(line);
                proof {
                    assert(line.of(chars@) =~= tail.take(i as int));
                    assert(chars@.subrange(start + i + 1, span.end as int) =~= tail.skip(i + 1));
                }
                start = start + i + 1;
            },
        }
    }
    lines
}

/// The fields of the window.
pub fn fields_in_span(chars: &Vec<char>, span: Span) -> (fields: Vec<Span>)
    requires
        span.within(chars@.len()),
    ensures
        span_texts(fields@, chars@) == fields_of(span.of(chars@)),
        forall|k: int| 0 <= k < fields@.len() ==> (#[trigger] fields@[k]).within(chars@.len()),
{
    let mut gap: Vec<char> = Vec::new();
    gap.push(' ');
    gap.push(' ');
    let mut fields: Vec<Span> = Vec::new();
    let mut start = span.start;
    let mut done = false;
    while !done
        invariant
            span.within(chars@.len()),
            span.start <= start <= span.end,
            gap@ == seq![' ', ' '],
            forall|k: int| 0 <= k < fields@.len() ==> (#[trigger] fields@[k]).within(chars@.len()),
            !done ==> span_texts(fields@, chars@) + fields_of(
                chars@.subrange(start as int, span.end as int),
            ) == fields_of(span.of(chars@)),
            done ==> span_texts(fields@, chars@) == fields_of(span.of(chars@)),
        decreases span.end - start + (if done { 0int } else { 1int }),
    {
        let rest = Span { start, end: span.end };
        let ghost tail = rest.of(chars@);
        match find_in_span(chars, rest, &gap) {
            None => {
                if rest.len() > 0 {
                    fields.push(rest);
                }
                done = true;
            },
            Some(i) => {
                proof {
                    assert(chars@.subrange(start + i + 2, span.end as int) =~= tail.skip(i + 2));
                }
                if i > 0 {
                    let field = Span { start, end: start + i };
                    fields.push(field);
                    proof {
                        assert(field.of(chars@) =~= tail.take(i as int));
                    }
                }
                start = start + i + 2;
            },
        }
    }
    fields
}

} // verus!
