//! Text as sequences of characters: the operations on it that the core needs,
//! each with its meaning as a function on `Seq<char>`.

use vstd::prelude::*;

verus! {

/// Appends one character to a string, by `String::push`.
///
/// Trusted: the string is afterwards what it was, followed by the character.
#[verifier::external_body]
fn push_char(s: &mut String, c: char)
    ensures
        final(s)@ == old(s)@.push(c),
{
    s.push(c)
}

/// `a` followed by `b`.
pub fn join(a: &str, b: &str) -> (s: String)
    ensures
        s@ == a@ + b@,
{
    let mut s = String::from_str(a);
    s.append(b);
    s
}

/// Whether two strings hold the same text.
pub fn same(a: &str, b: &str) -> (r: bool)
    ensures
        r == (a@ == b@),
{
    let left = to_chars(a);
    let right = to_chars(b);
    if left.len() != right.len() {
        return false;
    }
    let mut i: usize = 0;
    while i < left.len()
        invariant
            i <= left.len(),
            left.len() == right.len(),
            left@ == a@,
            right@ == b@,
            forall|k: int| 0 <= k < i ==> left@[k] == right@[k],
        decreases left.len() - i,
    {
        if left[i] != right[i] {
            return false;
        }
        i = i + 1;
    }
    assert(a@ =~= b@);
    true
}

/// The characters of a string.
pub fn to_chars(s: &str) -> (chars: Vec<char>)
    ensures
        chars@ == s@,
{
    let mut chars: Vec<char> = Vec::new();
    for c in it: s.chars()
        invariant
            chars@ == it.seq().take(it.index() as int),
            it.seq() == s@,
    {
        chars.push(c);
    }
    chars
}

/// The string of the given characters.
pub fn to_string(chars: &Vec<char>) -> (s: String)
    ensures
        s@ == chars@,
{
    let mut s = String::new();
    let mut i: usize = 0;
    while i < chars.len()
        invariant
            i <= chars.len(),
            s@ == chars@.take(i as int),
        decreases chars.len() - i,
    {
        push_char(&mut s, chars[i]);
        i = i + 1;
    }
    s
}

/// Whether a character is white space: one of the code points with the
/// Unicode property `White_Space`.
pub open spec fn is_white_space(c: char) -> bool {
    let n = c as u32;
    ||| 0x09 <= n <= 0x0d
    ||| n == 0x20
    ||| n == 0x85
    ||| n == 0xa0
    ||| n == 0x1680
    ||| 0x2000 <= n <= 0x200a
    ||| n == 0x2028
    ||| n == 0x2029
    ||| n == 0x202f
    ||| n == 0x205f
    ||| n == 0x3000
}

/// Whether a character is white space.
pub fn is_whitespace(c: char) -> (b: bool)
    ensures
        b == is_white_space(c),
{
    let n: u32 = c as u32;
    (0x09 <= n && n <= 0x0d) || n == 0x20 || n == 0x85 || n == 0xa0 || n == 0x1680 || (0x2000 <= n
        && n <= 0x200a) || n == 0x2028 || n == 0x2029 || n == 0x202f || n == 0x205f || n == 0x3000
}

/// `s` without its leading white space.
pub open spec fn without_leading_space(s: Seq<char>) -> Seq<char>
    decreases s.len(),
{
    if s.len() > 0 && is_white_space(s[0]) {
        without_leading_space(s.drop_first())
    } else {
        s
    }
}

/// `s` without its trailing white space.
pub open spec fn without_trailing_space(s: Seq<char>) -> Seq<char>
    decreases s.len(),
{
    if s.len() > 0 && is_white_space(s.last()) {
        without_trailing_space(s.drop_last())
    } else {
        s
    }
}

/// `s` without its leading and trailing white space.
pub open spec fn trimmed(s: Seq<char>) -> Seq<char> {
    without_trailing_space(without_leading_space(s))
}

/// Whether `s` neither begins nor ends with white space.
pub open spec fn is_trimmed(s: Seq<char>) -> bool {
    s.len() > 0 ==> !is_white_space(s[0]) && !is_white_space(s.last())
}

/// Whether `p` stands in `s` at index `i`.
pub open spec fn occurs_at(s: Seq<char>, p: Seq<char>, i: int) -> bool {
    0 <= i && i + p.len() <= s.len() && s.subrange(i, i + p.len()) == p
}

/// Whether `s` begins with `p`.
pub open spec fn has_prefix(s: Seq<char>, p: Seq<char>) -> bool {
    occurs_at(s, p, 0)
}

/// Whether `s` ends with `p`.
pub open spec fn has_suffix(s: Seq<char>, p: Seq<char>) -> bool {
    occurs_at(s, p, s.len() - p.len())
}

/// The first index from `i` on at which `p` stands in `s`.
pub open spec fn occurrence_from(s: Seq<char>, p: Seq<char>, i: int) -> Option<int>
    decreases s.len() - i,
{
    if i < 0 || i + p.len() > s.len() {
        None
    } else if occurs_at(s, p, i) {
        Some(i)
    } else if i >= s.len() {
        None
    } else {
        occurrence_from(s, p, i + 1)
    }
}

/// The first index at which `p` stands in `s`.
pub open spec fn first_occurrence(s: Seq<char>, p: Seq<char>) -> Option<int> {
    occurrence_from(s, p, 0)
}

/// Whether `p` stands somewhere in `s`.
pub open spec fn holds(s: Seq<char>, p: Seq<char>) -> bool {
    first_occurrence(s, p) is Some
}

/// What stands in `s` before the first `p`: all of `s`, where it holds no `p`.
pub open spec fn before_first(s: Seq<char>, p: Seq<char>) -> Seq<char> {
    match first_occurrence(s, p) {
        Some(i) => s.subrange(0, i),
        None => s,
    }
}

/// `s` after `p` was taken from its end as often as it stood there.
pub open spec fn without_suffixes(s: Seq<char>, p: Seq<char>) -> Seq<char>
    decreases s.len(),
{
    if p.len() > 0 && has_suffix(s, p) {
        without_suffixes(s.subrange(0, s.len() - p.len()), p)
    } else {
        s
    }
}

/// `s` after `p` was taken from its start as often as it stood there.
pub open spec fn without_prefixes(s: Seq<char>, p: Seq<char>) -> Seq<char>
    decreases s.len(),
{
    if p.len() > 0 && has_prefix(s, p) {
        without_prefixes(s.subrange(p.len() as int, s.len() as int), p)
    } else {
        s
    }
}

/// `s` from index `i` on, with `to` in place of each `from`: the occurrences
/// are taken from left to right, and none overlaps the one before.
pub open spec fn replaced_from(s: Seq<char>, from: Seq<char>, to: Seq<char>, i: int) -> Seq<char>
    decreases s.len() - i,
{
    if i < 0 || i >= s.len() {
        seq![]
    } else if from.len() > 0 && occurs_at(s, from, i) {
        to + replaced_from(s, from, to, i + from.len())
    } else {
        seq![s[i]] + replaced_from(s, from, to, i + 1)
    }
}

/// `s` with `to` in place of each `from`.
pub open spec fn replaced(s: Seq<char>, from: Seq<char>, to: Seq<char>) -> Seq<char> {
    replaced_from(s, from, to, 0)
}

/// The characters of `s` from index `from` up to index `to`.
pub fn slice(s: &Vec<char>, from: usize, to: usize) -> (part: Vec<char>)
    requires
        from <= to <= s.len(),
    ensures
        part@ == s@.subrange(from as int, to as int),
{
    let mut part: Vec<char> = Vec::new();
    let mut i: usize = from;
    while i < to
        invariant
            from <= i <= to <= s.len(),
            part@ == s@.subrange(from as int, i as int),
        decreases to - i,
    {
        part.push(s[i]);
        i = i + 1;
    }
    part
}

/// `s` without its leading and trailing white space.
pub fn trim(s: &Vec<char>) -> (t: Vec<char>)
    ensures
        t@ == trimmed(s@),
{
    let mut start: usize = 0;
    assert(s@.subrange(0, s.len() as int) =~= s@);
    while start < s.len() && is_whitespace(s[start])
        invariant
            start <= s.len(),
            without_leading_space(s@) == without_leading_space(
                s@.subrange(start as int, s.len() as int),
            ),
        decreases s.len() - start,
    {
        assert(s@.subrange(start as int, s.len() as int).drop_first() =~= s@.subrange(
            start + 1,
            s.len() as int,
        ));
        start = start + 1;
    }
    let mut end: usize = s.len();
    while end > start && is_whitespace(s[end - 1])
        invariant
            start <= end <= s.len(),
            without_leading_space(s@) == s@.subrange(start as int, s.len() as int),
            trimmed(s@) == without_trailing_space(s@.subrange(start as int, end as int)),
        decreases end,
    {
        assert(s@.subrange(start as int, end as int).drop_last() =~= s@.subrange(
            start as int,
            end - 1,
        ));
        end = end - 1;
    }
    slice(s, start, end)
}

/// `s` without its leading white space.
pub fn trim_start(s: &Vec<char>) -> (t: Vec<char>)
    ensures
        t@ == without_leading_space(s@),
{
    let mut start: usize = 0;
    assert(s@.subrange(0, s.len() as int) =~= s@);
    while start < s.len() && is_whitespace(s[start])
        invariant
            start <= s.len(),
            without_leading_space(s@) == without_leading_space(
                s@.subrange(start as int, s.len() as int),
            ),
        decreases s.len() - start,
    {
        assert(s@.subrange(start as int, s.len() as int).drop_first() =~= s@.subrange(
            start + 1,
            s.len() as int,
        ));
        start = start + 1;
    }
    slice(s, start, s.len())
}

/// `s` without its leading and trailing white space.
pub fn trim_str(s: &str) -> (t: String)
    ensures
        t@ == trimmed(s@),
{
    to_string(&trim(&to_chars(s)))
}

/// Whether `p` stands in `s` at index `i`.
pub fn occurs(s: &Vec<char>, p: &Vec<char>, i: usize) -> (b: bool)
    ensures
        b == occurs_at(s@, p@, i as int),
{
    if p.len() > s.len() || i > s.len() - p.len() {
        return false;
    }
    let mut j: usize = 0;
    while j < p.len()
        invariant
            j <= p.len(),
            i + p.len() <= s.len(),
            forall|k: int| 0 <= k < j ==> s@[i + k] == p@[k],
        decreases p.len() - j,
    {
        if s[i + j] != p[j] {
            return false;
        }
        j = j + 1;
    }
    assert(s@.subrange(i as int, i + p.len()) =~= p@);
    true
}

/// Whether `s` begins with `p`.
pub fn starts_with(s: &Vec<char>, p: &Vec<char>) -> (b: bool)
    ensures
        b == has_prefix(s@, p@),
{
    occurs(s, p, 0)
}

/// Whether `s` ends with `p`.
pub fn ends_with(s: &Vec<char>, p: &Vec<char>) -> (b: bool)
    ensures
        b == has_suffix(s@, p@),
{
    if p.len() > s.len() {
        false
    } else {
        occurs(s, p, s.len() - p.len())
    }
}

/// The first index at which `p` stands in `s`.
pub fn find(s: &Vec<char>, p: &Vec<char>) -> (found: Option<usize>)
    ensures
        match found {
            Some(i) => first_occurrence(s@, p@) == Some(i as int),
            None => first_occurrence(s@, p@) is None,
        },
{
    if p.len() > s.len() {
        return None;
    }
    let last: usize = s.len() - p.len();
    let mut i: usize = 0;
    loop
        invariant
            i <= last,
            last == s.len() - p.len(),
            first_occurrence(s@, p@) == occurrence_from(s@, p@, i as int),
        decreases last - i,
    {
        if occurs(s, p, i) {
            return Some(i);
        }
        if i == last {
            assert(occurrence_from(s@, p@, i + 1) is None);
            return None;
        }
        i = i + 1;
    }
}

/// Whether `p` stands somewhere in `s`.
pub fn contains(s: &Vec<char>, p: &Vec<char>) -> (b: bool)
    ensures
        b == holds(s@, p@),
{
    find(s, p).is_some()
}

/// What stands in `s` before the first `p`.
pub fn before(s: &Vec<char>, p: &Vec<char>) -> (part: Vec<char>)
    ensures
        part@ == before_first(s@, p@),
{
    match find(s, p) {
        Some(i) => {
            proof {
                lemma_occurrence_in_range(s@, p@, 0);
            }
            slice(s, 0, i)
        },
        None => {
            slice(s, 0, s.len())
        },
    }
}

/// An occurrence that is found lies in the text, at or after the index from
/// which it was looked for, and no occurrence stands between the two.
pub proof fn lemma_occurrence_in_range(s: Seq<char>, p: Seq<char>, i: int)
    requires
        0 <= i,
    ensures
        match occurrence_from(s, p, i) {
            Some(k) => i <= k && occurs_at(s, p, k) && forall|j: int|
                i <= j < k ==> !occurs_at(s, p, j),
            None => forall|j: int| i <= j ==> !occurs_at(s, p, j),
        },
    decreases s.len() - i,
{
    if i + p.len() <= s.len() && !occurs_at(s, p, i) && i < s.len() {
        lemma_occurrence_in_range(s, p, i + 1);
    }
}

/// `s` after `p` was taken from its end as often as it stood there.
pub fn trim_end_matches(s: &Vec<char>, p: &Vec<char>) -> (t: Vec<char>)
    ensures
        t@ == without_suffixes(s@, p@),
{
    let mut end: usize = s.len();
    assert(s@.subrange(0, end as int) =~= s@);
    if p.len() > 0 {
        while end >= p.len() && occurs(s, p, end - p.len())
            invariant
                end <= s.len(),
                p.len() > 0,
                without_suffixes(s@, p@) == without_suffixes(s@.subrange(0, end as int), p@),
            decreases end,
        {
            let ghost head = s@.subrange(0, end as int);
            assert(head.subrange(end - p.len(), end as int) =~= s@.subrange(
                end - p.len(),
                end as int,
            ));
            assert(head.subrange(0, end - p.len()) =~= s@.subrange(0, end - p.len()));
            end = end - p.len();
        }
        proof {
            let head = s@.subrange(0, end as int);
            if end >= p.len() {
                assert(head.subrange(end - p.len(), end as int) =~= s@.subrange(
                    end - p.len(),
                    end as int,
                ));
            }
        }
    }
    slice(s, 0, end)
}

/// `s` after `p` was taken from its start as often as it stood there.
pub fn trim_start_matches(s: &Vec<char>, p: &Vec<char>) -> (t: Vec<char>)
    ensures
        t@ == without_prefixes(s@, p@),
{
    let mut start: usize = 0;
    assert(s@.subrange(0, s.len() as int) =~= s@);
    if p.len() > 0 {
        while p.len() <= s.len() && start <= s.len() - p.len() && occurs(s, p, start)
            invariant
                start <= s.len(),
                p.len() > 0,
                without_prefixes(s@, p@) == without_prefixes(
                    s@.subrange(start as int, s.len() as int),
                    p@,
                ),
            decreases s.len() - start,
        {
            let ghost tail = s@.subrange(start as int, s.len() as int);
            assert(tail.subrange(0, p.len() as int) =~= s@.subrange(
                start as int,
                start + p.len(),
            ));
            assert(tail.subrange(p.len() as int, tail.len() as int) =~= s@.subrange(
                start + p.len(),
                s.len() as int,
            ));
            start = start + p.len();
        }
        proof {
            let tail = s@.subrange(start as int, s.len() as int);
            if start + p.len() <= s.len() {
                assert(tail.subrange(0, p.len() as int) =~= s@.subrange(
                    start as int,
                    start + p.len(),
                ));
            }
        }
    }
    slice(s, start, s.len())
}

/// `s` with `to` in place of each `from`.
pub fn replace(s: &Vec<char>, from: &Vec<char>, to: &Vec<char>) -> (t: Vec<char>)
    ensures
        t@ == replaced(s@, from@, to@),
{
    let mut t: Vec<char> = Vec::new();
    let mut i: usize = 0;
    while i < s.len()
        invariant
            i <= s.len(),
            replaced(s@, from@, to@) == t@ + replaced_from(s@, from@, to@, i as int),
        decreases s.len() - i,
    {
        let ghost before = t@;
        if from.len() > 0 && occurs(s, from, i) {
            let mut j: usize = 0;
            while j < to.len()
                invariant
                    j <= to.len(),
                    t@ == before + to@.take(j as int),
                decreases to.len() - j,
            {
                t.push(to[j]);
                j = j + 1;
            }
            i = i + from.len();
        } else {
            t.push(s[i]);
            i = i + 1;
        }
    }
    t
}

/// What is left without leading white space is the end of the text, and
/// begins with no white space.
pub proof fn lemma_without_leading_space(s: Seq<char>)
    ensures
        ({
            let t = without_leading_space(s);
            &&& t.len() <= s.len()
            &&& t == s.subrange(s.len() - t.len(), s.len() as int)
            &&& t.len() > 0 ==> !is_white_space(t[0])
        }),
    decreases s.len(),
{
    if s.len() > 0 && is_white_space(s[0]) {
        lemma_without_leading_space(s.drop_first());
    }
}

/// What is left without trailing white space is the start of the text, and
/// ends with no white space; a text that begins with no white space keeps its
/// first character.
pub proof fn lemma_without_trailing_space(s: Seq<char>)
    ensures
        ({
            let t = without_trailing_space(s);
            &&& t.len() <= s.len()
            &&& t == s.subrange(0, t.len() as int)
            &&& t.len() > 0 ==> !is_white_space(t.last())
            &&& s.len() > 0 && !is_white_space(s[0]) ==> t.len() > 0
        }),
    decreases s.len(),
{
    if s.len() > 0 && is_white_space(s.last()) {
        lemma_without_trailing_space(s.drop_last());
    }
}

/// A trimmed text is a part of the text, and neither begins nor ends with
/// white space. The lemma gives the bounds of the part.
pub proof fn lemma_trimmed(s: Seq<char>) -> (bounds: (int, int))
    ensures
        0 <= bounds.0 <= bounds.1 <= s.len(),
        trimmed(s) == s.subrange(bounds.0, bounds.1),
        is_trimmed(trimmed(s)),
        trimmed(trimmed(s)) == trimmed(s),
{
    lemma_without_leading_space(s);
    let inner = without_leading_space(s);
    lemma_without_trailing_space(inner);
    let start = s.len() - inner.len();
    (start, start + trimmed(s).len())
}

/// What stands in a part of a text stands in the text.
pub proof fn lemma_occurs_in_part(s: Seq<char>, from: int, to: int, p: Seq<char>, k: int)
    requires
        0 <= from <= to <= s.len(),
        occurs_at(s.subrange(from, to), p, k),
    ensures
        occurs_at(s, p, from + k),
{
    assert(s.subrange(from, to).subrange(k, k + p.len()) =~= s.subrange(
        from + k,
        from + k + p.len(),
    ));
}

/// A text holds what stands in it somewhere, and nothing else.
pub proof fn lemma_holds(s: Seq<char>, p: Seq<char>)
    ensures
        holds(s, p) <==> exists|k: int| occurs_at(s, p, k),
{
    lemma_occurrence_in_range(s, p, 0);
}

/// A part of a text that holds no `p` holds no `p`.
pub proof fn lemma_part_holds_none(s: Seq<char>, from: int, to: int, p: Seq<char>)
    requires
        0 <= from <= to <= s.len(),
        !holds(s, p),
    ensures
        !holds(s.subrange(from, to), p),
{
    lemma_holds(s, p);
    lemma_holds(s.subrange(from, to), p);
    if holds(s.subrange(from, to), p) {
        let k = choose|k: int| occurs_at(s.subrange(from, to), p, k);
        lemma_occurs_in_part(s, from, to, p, k);
    }
}

/// How a replacement goes on from index `i`: the text up to the next `from`
/// stays, `to` takes the place of that `from`, and the replacement goes on
/// behind it.
pub proof fn lemma_replaced_from(s: Seq<char>, from: Seq<char>, to: Seq<char>, i: int)
    requires
        0 <= i <= s.len(),
        from.len() > 0,
    ensures
        match occurrence_from(s, from, i) {
            Some(q) => i <= q && q + from.len() <= s.len() && replaced_from(s, from, to, i)
                == s.subrange(i, q) + to + replaced_from(s, from, to, q + from.len()),
            None => replaced_from(s, from, to, i) == s.subrange(i, s.len() as int),
        },
    decreases s.len() - i,
{
    lemma_occurrence_in_range(s, from, i);
    if i < s.len() && !occurs_at(s, from, i) {
        lemma_replaced_from(s, from, to, i + 1);
        lemma_occurrence_in_range(s, from, i + 1);
    }
}

/// A text in which one character took the place of each `from` holds no
/// `from`, if that character is none of `from`.
pub proof fn lemma_replaced_holds_none(s: Seq<char>, from: Seq<char>, to: Seq<char>, i: int, j: int)
    requires
        0 <= i <= s.len(),
        from.len() > 0,
        to.len() == 1,
        forall|k: int| 0 <= k < from.len() ==> from[k] != to[0],
    ensures
        !occurs_at(replaced_from(s, from, to, i), from, j),
    decreases s.len() - i,
{
    lemma_replaced_from(s, from, to, i);
    lemma_occurrence_in_range(s, from, i);
    let all = replaced_from(s, from, to, i);
    if occurs_at(all, from, j) {
        match occurrence_from(s, from, i) {
            Some(q) => {
                let kept = q - i;
                let rest = replaced_from(s, from, to, q + from.len());
                if j + from.len() <= kept {
                    assert(all.subrange(j, j + from.len()) =~= s.subrange(
                        i + j,
                        i + j + from.len(),
                    ));
                    assert(occurs_at(s, from, i + j));
                } else if j <= kept {
                    assert(all.subrange(j, j + from.len())[kept - j] == all[kept]);
                } else {
                    assert(all.subrange(j, j + from.len()) =~= rest.subrange(
                        j - kept - 1,
                        j - kept - 1 + from.len(),
                    ));
                    lemma_replaced_holds_none(s, from, to, q + from.len(), j - kept - 1);
                }
            },
            None => {
                lemma_occurs_in_part(s, i, s.len() as int, from, j);
            },
        }
    }
}

/// A replacement keeps the last character of a text that does not end as
/// `from` ends.
pub proof fn lemma_replaced_last(s: Seq<char>, from: Seq<char>, to: Seq<char>, i: int)
    requires
        0 <= i < s.len(),
        from.len() > 0,
        from.last() != s.last(),
    ensures
        replaced_from(s, from, to, i).len() > 0,
        replaced_from(s, from, to, i).last() == s.last(),
    decreases s.len() - i,
{
    if occurs_at(s, from, i) {
        lemma_replaced_last(s, from, to, i + from.len());
    } else if i + 1 < s.len() {
        lemma_replaced_last(s, from, to, i + 1);
    }
}

/// Taking `p` from the end of a text as often as it stands there makes the
/// text no longer.
pub proof fn lemma_without_suffixes_is_no_longer(s: Seq<char>, p: Seq<char>)
    ensures
        without_suffixes(s, p).len() <= s.len(),
    decreases s.len(),
{
    if p.len() > 0 && has_suffix(s, p) {
        lemma_without_suffixes_is_no_longer(s.subrange(0, s.len() - p.len()), p);
    }
}

/// Taking `p` from the start of a text as often as it stands there makes the
/// text no longer.
pub proof fn lemma_without_prefixes_is_no_longer(s: Seq<char>, p: Seq<char>)
    ensures
        without_prefixes(s, p).len() <= s.len(),
    decreases s.len(),
{
    if p.len() > 0 && has_prefix(s, p) {
        lemma_without_prefixes_is_no_longer(s.subrange(p.len() as int, s.len() as int), p);
    }
}

/// A replacement by a text that is no longer than what it replaces makes the
/// text no longer.
pub proof fn lemma_replaced_is_no_longer(s: Seq<char>, from: Seq<char>, to: Seq<char>, i: int)
    requires
        0 <= i <= s.len(),
        to.len() <= from.len(),
    ensures
        replaced_from(s, from, to, i).len() <= s.len() - i,
    decreases s.len() - i,
{
    if i < s.len() {
        if from.len() > 0 && occurs_at(s, from, i) {
            lemma_replaced_is_no_longer(s, from, to, i + from.len());
        } else {
            lemma_replaced_is_no_longer(s, from, to, i + 1);
        }
    }
}

} // verus!
