//! Text scanning on `&str`: trimming, splitting and cutting into lines.
//!
//! Every function states its result over the characters of its argument, as a
//! `Seq<char>`.
use vstd::prelude::*;

verus! {

/// The characters with Unicode's `White_Space` property.
pub open spec fn is_white_space(c: char) -> bool {
    let u = c as u32;
    ||| 0x9 <= u <= 0xd
    ||| u == 0x20
    ||| u == 0x85
    ||| u == 0xa0
    ||| u == 0x1680
    ||| 0x2000 <= u <= 0x200a
    ||| u == 0x2028
    ||| u == 0x2029
    ||| u == 0x202f
    ||| u == 0x205f
    ||| u == 0x3000
}

/// `char::is_whitespace` holds of exactly the characters that have the
/// `White_Space` property, which [`is_white_space`] lists.
pub assume_specification[ char::is_whitespace ](c: char) -> (r: bool)
    ensures
        r == is_white_space(c),
;

/// `s` without the white space at its start.
pub open spec fn trimmed_start(s: Seq<char>) -> Seq<char>
    decreases s.len(),
{
    if s.len() > 0 && is_white_space(s[0]) {
        trimmed_start(s.skip(1))
    } else {
        s
    }
}

/// `s` without the white space at its end.
pub open spec fn trimmed_end(s: Seq<char>) -> Seq<char>
    decreases s.len(),
{
    if s.len() > 0 && is_white_space(s.last()) {
        trimmed_end(s.drop_last())
    } else {
        s
    }
}

/// `s` without the white space at both ends.
pub open spec fn trimmed(s: Seq<char>) -> Seq<char> {
    trimmed_start(trimmed_end(s))
}

/// `s` without `prefix`, where it starts with it.
pub open spec fn without_prefix(s: Seq<char>, prefix: Seq<char>) -> Seq<char> {
    if prefix.is_prefix_of(s) {
        s.skip(prefix.len() as int)
    } else {
        s
    }
}

/// `s` without `suffix`, where it ends with it.
pub open spec fn without_suffix(s: Seq<char>, suffix: Seq<char>) -> Seq<char> {
    if suffix.is_suffix_of(s) {
        s.take(s.len() - suffix.len())
    } else {
        s
    }
}

/// The bracket that closes what `c` opens, for the brackets that open nothing else.
/// A `<` may also be a comparison, so it is none of them.
pub open spec fn partner(c: char) -> Option<char> {
    if c == '(' {
        Some(')')
    } else if c == '[' {
        Some(']')
    } else if c == '{' {
        Some('}')
    } else {
        None
    }
}

/// Whether a closing bracket stands in `s` at position `i`. The `>` of `->` is none.
pub open spec fn closes(s: Seq<char>, i: int) -> bool {
    ||| s[i] == ')' || s[i] == ']' || s[i] == '}'
    ||| s[i] == '>' && !(i > 0 && s[i - 1] == '-')
}

/// `closers` without each `>` at its end.
pub open spec fn without_angles(closers: Seq<char>) -> Seq<char>
    decreases closers.len(),
{
    if closers.len() > 0 && closers.last() == '>' {
        without_angles(closers.drop_last())
    } else {
        closers
    }
}

/// The closing brackets that are left without a partner once position `i` of `s` is
/// read, where those in `closers` were left before, the innermost one last.
///
/// A `<` is the partner of a `>` that is innermost, and otherwise a comparison. A `(`,
/// `[` or `{` is the partner of the innermost bracket of its kind, and each `>` inside
/// of the two is a comparison. There is no answer where it has no partner.
pub open spec fn left_open(closers: Seq<char>, s: Seq<char>, i: int) -> Option<Seq<char>> {
    if closes(s, i) {
        Some(closers.push(s[i]))
    } else if s[i] == '<' {
        if closers.len() > 0 && closers.last() == '>' {
            Some(closers.drop_last())
        } else {
            Some(closers)
        }
    } else if let Some(closer) = partner(s[i]) {
        let rest = without_angles(closers);
        if rest.len() > 0 && rest.last() == closer {
            Some(rest.drop_last())
        } else {
            None
        }
    } else {
        Some(closers)
    }
}

/// The closing brackets that are left without a partner where `s` is read from its
/// end down to position `i`, the innermost one last.
pub open spec fn pending(s: Seq<char>, i: int) -> Option<Seq<char>>
    decreases s.len() - i,
{
    if i >= s.len() {
        Some(Seq::empty())
    } else {
        match pending(s, i + 1) {
            Some(closers) => left_open(closers, s, i),
            None => None,
        }
    }
}

/// The brackets from position `i` of `s` on balance.
pub open spec fn balances_from(s: Seq<char>, i: int) -> bool {
    pending(s, i) == Some(Seq::<char>::empty())
}

/// The brackets of `s` balance, and each `<` outside of other brackets has its `>`.
pub open spec fn is_balanced(s: Seq<char>) -> bool {
    &&& balances_from(s, 0)
    &&& forall|i: int| 0 <= i < s.len() && #[trigger] s[i] == '<' ==> !balances_from(s, i + 1)
}

/// Whether `c` stands in `s` at position `i`, and the brackets behind it balance.
pub open spec fn stands_outside(s: Seq<char>, c: char, i: int) -> bool {
    0 <= i < s.len() && s[i] == c && balances_from(s, i + 1)
}

/// Whether `s` is split at position `i`: at its last `c` that stands outside of
/// brackets, or at its last `c` where none does.
pub open spec fn is_split_at(s: Seq<char>, c: char, i: int) -> bool {
    if exists|j: int| stands_outside(s, c, j) {
        stands_outside(s, c, i) && forall|j: int| i < j ==> !#[trigger] stands_outside(s, c, j)
    } else {
        0 <= i < s.len() && s[i] == c && forall|j: int| i < j < s.len() ==> s[j] != c
    }
}

/// What stands before and what stands behind the `delimiter` at which `s` is split.
pub open spec fn split_outside(s: Seq<char>, delimiter: char) -> Option<(Seq<char>, Seq<char>)> {
    if exists|i: int| is_split_at(s, delimiter, i) {
        let i = choose|i: int| is_split_at(s, delimiter, i);
        Some((s.take(i), s.skip(i + 1)))
    } else {
        None
    }
}

/// The number of characters before the first line feed, or in all of `s` where
/// it has none.
pub open spec fn line_len(s: Seq<char>) -> nat
    decreases s.len(),
{
    if s.len() == 0 || s[0] == '\n' {
        0
    } else {
        1 + line_len(s.skip(1))
    }
}

/// `line` without the carriage return at its end, if one is there.
pub open spec fn without_carriage_return(line: Seq<char>) -> Seq<char> {
    if line.len() > 0 && line.last() == '\r' {
        line.drop_last()
    } else {
        line
    }
}

/// The lines of `s`. A line ends in a line feed, or in a carriage return and a
/// line feed; the last line needs no ending. A line holds none of its ending.
pub open spec fn lines_of(s: Seq<char>) -> Seq<Seq<char>>
    decreases s.len(),
{
    let n = line_len(s) as int;
    if s.len() == 0 {
        Seq::empty()
    } else if 0 <= n < s.len() {
        seq![without_carriage_return(s.take(n))] + lines_of(s.skip(n + 1))
    } else {
        seq![s]
    }
}

/// The characters that each of `parts` holds.
pub open spec fn views(parts: Seq<&str>) -> Seq<Seq<char>> {
    Seq::new(parts.len(), |i: int| parts[i]@)
}

/// The characters of `s`.
pub(crate) fn char_vec(s: &str) -> (r: Vec<char>)
    ensures
        r@ == s@,
{
    let mut r: Vec<char> = Vec::new();
    for c in it: s.chars()
        invariant
            it.seq() == s@,
            r@ == s@.take(it.index() as int),
    {
        r.push(c);
    }
    r
}

/// `s` without the white space at its end.
pub fn trim_end<'a>(s: &'a str) -> (r: &'a str)
    ensures
        r@ == trimmed_end(s@),
{
    let chars = char_vec(s);
    let mut to: usize = chars.len();
    assert(s@.take(to as int) =~= s@);
    while to > 0 && chars[to - 1].is_whitespace()
        invariant
            chars@ == s@,
            to <= s@.len(),
            trimmed_end(s@.take(to as int)) == trimmed_end(s@),
        decreases to,
    {
        assert(s@.take(to as int).drop_last() =~= s@.take(to - 1));
        to = to - 1;
    }
    s.substring_char(0, to)
}

/// `s` without the white space at both ends.
pub fn trim<'a>(s: &'a str) -> (r: &'a str)
    ensures
        r@ == trimmed(s@),
{
    let s = trim_end(s);
    let chars = char_vec(s);
    let mut from: usize = 0;
    assert(s@.skip(from as int) =~= s@);
    while from < chars.len() && chars[from].is_whitespace()
        invariant
            chars@ == s@,
            from <= s@.len(),
            trimmed_start(s@.skip(from as int)) == trimmed_start(s@),
        decreases s@.len() - from,
    {
        assert(s@.skip(from as int).skip(1) =~= s@.skip(from + 1));
        from = from + 1;
    }
    s.substring_char(from, chars.len())
}

/// Whether `part` stands in `whole` at position `at`.
fn stands_at(whole: &Vec<char>, at: usize, part: &Vec<char>) -> (r: bool)
    requires
        at + part@.len() <= whole@.len(),
    ensures
        r == (whole@.subrange(at as int, at + part@.len()) == part@),
{
    let len: usize = whole.len();
    let mut i: usize = 0;
    while i < part.len()
        invariant
            len == whole@.len(),
            i <= part@.len(),
            at + part@.len() <= whole@.len(),
            forall|j: int| 0 <= j < i ==> whole@[at + j] == part@[j],
        decreases part@.len() - i,
    {
        if whole[at + i] != part[i] {
            assert(whole@.subrange(at as int, at + part@.len())[i as int] != part@[i as int]);
            return false;
        }
        i = i + 1;
    }
    assert(whole@.subrange(at as int, at + part@.len()) =~= part@);
    true
}

/// Whether two texts hold the same characters.
pub fn same(a: &str, b: &str) -> (r: bool)
    ensures
        r == (a@ == b@),
{
    let a_chars = char_vec(a);
    let b_chars = char_vec(b);
    if a_chars.len() != b_chars.len() {
        return false;
    }
    assert(a_chars@.subrange(0, b_chars@.len() as int) =~= a@);
    stands_at(&a_chars, 0, &b_chars)
}

/// `s` without `prefix`, where it starts with it.
pub fn strip_prefix<'a>(s: &'a str, prefix: &str) -> (r: &'a str)
    ensures
        r@ == without_prefix(s@, prefix@),
{
    let chars = char_vec(s);
    let part = char_vec(prefix);
    if part.len() <= chars.len() && stands_at(&chars, 0, &part) {
        s.substring_char(part.len(), chars.len())
    } else {
        s
    }
}

/// `s` without `suffix`, where it ends with it.
pub fn strip_suffix<'a>(s: &'a str, suffix: &str) -> (r: &'a str)
    ensures
        r@ == without_suffix(s@, suffix@),
{
    let chars = char_vec(s);
    let part = char_vec(suffix);
    if part.len() <= chars.len() && stands_at(&chars, chars.len() - part.len(), &part) {
        s.substring_char(0, chars.len() - part.len())
    } else {
        s
    }
}

/// Whether `s` starts with `prefix`.
pub fn starts_with(s: &str, prefix: &str) -> (r: bool)
    ensures
        r == prefix@.is_prefix_of(s@),
{
    let chars = char_vec(s);
    let part = char_vec(prefix);
    part.len() <= chars.len() && stands_at(&chars, 0, &part)
}

/// Takes away each `>` at the end of `closers`.
fn drop_angles(closers: &mut Vec<char>)
    ensures
        final(closers)@ == without_angles(old(closers)@),
{
    while closers.len() > 0 && closers[closers.len() - 1] == '>'
        invariant
            without_angles(closers@) == without_angles(old(closers)@),
        decreases closers@.len(),
    {
        closers.pop();
    }
}

/// The bracket that closes what `c` opens, for the brackets that open nothing else.
fn closer_of(c: char) -> (r: Option<char>)
    ensures
        r == partner(c),
{
    if c == '(' {
        Some(')')
    } else if c == '[' {
        Some(']')
    } else if c == '{' {
        Some('}')
    } else {
        None
    }
}

/// Reads position `i` of `s` and brings `closers` up to date, or gives back that an
/// opening bracket has no partner.
fn read_bracket(closers: &mut Vec<char>, s: &Vec<char>, i: usize) -> (r: bool)
    requires
        i < s@.len(),
    ensures
        match left_open(old(closers)@, s@, i as int) {
            Some(left) => r && final(closers)@ == left,
            None => !r,
        },
{
    let c = s[i];
    if c == ')' || c == ']' || c == '}' || (c == '>' && !(i > 0 && s[i - 1] == '-')) {
        closers.push(c);
    } else if c == '<' {
        if closers.len() > 0 && closers[closers.len() - 1] == '>' {
            closers.pop();
        }
    } else if let Some(closer) = closer_of(c) {
        drop_angles(closers);
        if closers.len() > 0 && closers[closers.len() - 1] == closer {
            closers.pop();
        } else {
            return false;
        }
    }
    true
}

/// Splits `s` at its last `delimiter` outside of brackets, or at its last one where
/// none stands outside.
pub fn rsplit_outside<'a>(s: &'a str, delimiter: char) -> (r: Option<(&'a str, &'a str)>)
    ensures
        match (r, split_outside(s@, delimiter)) {
            (Some((before, behind)), Some((b, h))) => before@ == b && behind@ == h,
            (None, None) => true,
            _ => false,
        },
{
    let chars = char_vec(s);
    let mut closers: Vec<char> = Vec::new();
    let mut has_partners: bool = true;
    let mut last: Option<usize> = None;
    let mut i: usize = chars.len();
    while i > 0
        invariant
            chars@ == s@,
            i <= s@.len(),
            has_partners ==> pending(s@, i as int) == Some(closers@),
            !has_partners ==> pending(s@, i as int) is None,
            match last {
                Some(k) => i <= k < s@.len() && s@[k as int] == delimiter && forall|j: int|
                    k < j < s@.len() ==> s@[j] != delimiter,
                None => forall|j: int| i <= j < s@.len() ==> s@[j] != delimiter,
            },
            forall|j: int| i <= j ==> !#[trigger] stands_outside(s@, delimiter, j),
        decreases i,
    {
        i = i - 1;
        if chars[i] == delimiter {
            if has_partners && closers.len() == 0 {
                proof {
                    assert(closers@ =~= Seq::<char>::empty());
                    assert(stands_outside(s@, delimiter, i as int));
                    lemma_split_at(s@, delimiter, i as int);
                }
                return Some((s.substring_char(0, i), s.substring_char(i + 1, chars.len())));
            }
            if last.is_none() {
                last = Some(i);
            }
        }
        if has_partners {
            has_partners = read_bracket(&mut closers, &chars, i);
        }
    }
    assert forall|j: int| !#[trigger] stands_outside(s@, delimiter, j) by {}
    match last {
        Some(at) => {
            proof {
                lemma_split_at(s@, delimiter, at as int);
            }
            Some((s.substring_char(0, at), s.substring_char(at + 1, chars.len())))
        },
        None => None,
    }
}

/// A text is split at one place only.
proof fn lemma_split_at(s: Seq<char>, delimiter: char, i: int)
    requires
        is_split_at(s, delimiter, i),
    ensures
        split_outside(s, delimiter) == Some((s.take(i), s.skip(i + 1))),
{
    let k = choose|k: int| is_split_at(s, delimiter, k);
    if exists|j: int| stands_outside(s, delimiter, j) {
        assert(stands_outside(s, delimiter, i) && stands_outside(s, delimiter, k));
    }
}

/// What brackets a text leaves open depends on nothing that stands before it.
pub(crate) proof fn lemma_pending_behind(a: Seq<char>, b: Seq<char>, i: int)
    requires
        0 <= i <= b.len(),
        a.len() > 0 ==> a.last() != '-',
    ensures
        pending(a + b, a.len() + i) == pending(b, i),
    decreases b.len() - i,
{
    if i < b.len() {
        lemma_pending_behind(a, b, i + 1);
        assert(closes(a + b, a.len() + i) == closes(b, i));
    }
}

/// A text splits at a delimiter behind which the brackets balance and no other one
/// stands outside of brackets.
pub proof fn law_split_outside(before: Seq<char>, delimiter: char, behind: Seq<char>)
    requires
        delimiter != '-',
        balances_from(behind, 0),
        forall|i: int| !#[trigger] stands_outside(behind, delimiter, i),
    ensures
        split_outside(before.push(delimiter) + behind, delimiter) == Some((before, behind)),
{
    let head = before.push(delimiter);
    let s = head + behind;
    let at = before.len() as int;
    lemma_pending_behind(head, behind, 0);
    assert(stands_outside(s, delimiter, at));
    assert forall|j: int| at < j implies !#[trigger] stands_outside(s, delimiter, j) by {
        if stands_outside(s, delimiter, j) {
            let k = j - at - 1;
            lemma_pending_behind(head, behind, k + 1);
            assert(stands_outside(behind, delimiter, k));
        }
    }
    lemma_split_at(s, delimiter, at);
    assert(s.take(at) =~= before);
    assert(s.skip(at + 1) =~= behind);
}

/// A text splits at its last delimiter, where none before it stands outside of
/// brackets.
pub proof fn law_split_at_last(before: Seq<char>, delimiter: char, behind: Seq<char>)
    requires
        !behind.contains(delimiter),
        forall|i: int|
            i < before.len() ==> !#[trigger] stands_outside(
                before.push(delimiter) + behind,
                delimiter,
                i,
            ),
    ensures
        split_outside(before.push(delimiter) + behind, delimiter) == Some((before, behind)),
{
    let s = before.push(delimiter) + behind;
    let at = before.len() as int;
    assert(s[at] == delimiter);
    assert forall|j: int| at < j < s.len() implies s[j] != delimiter by {
        assert(behind[j - at - 1] == s[j]);
    }
    assert forall|j: int| at < j implies !#[trigger] stands_outside(s, delimiter, j) by {}
    if exists|j: int| stands_outside(s, delimiter, j) {
        let j = choose|j: int| stands_outside(s, delimiter, j);
        assert(j == at);
    }
    lemma_split_at(s, delimiter, at);
    assert(s.take(at) =~= before);
    assert(s.skip(at + 1) =~= behind);
}

/// A text that holds no bracket leaves open what was open behind it.
pub(crate) proof fn lemma_pending_over_plain(s: Seq<char>, i: int, j: int)
    requires
        0 <= i <= j <= s.len(),
        forall|k: int|
            i <= k < j ==> !#[trigger] closes(s, k) && s[k] != '<' && partner(s[k]) is None,
    ensures
        pending(s, i) == pending(s, j),
    decreases j - i,
{
    if i < j {
        lemma_pending_over_plain(s, i + 1, j);
        assert(!closes(s, i));
    }
}

proof fn lemma_without_angles(first: char, more: Seq<char>)
    ensures
        without_angles(more).len() > 0 ==> without_angles(seq![first] + more) == seq![first]
            + without_angles(more),
    decreases more.len(),
{
    if more.len() > 0 && more.last() == '>' {
        lemma_without_angles(first, more.drop_last());
        assert((seq![first] + more).drop_last() =~= seq![first] + more.drop_last());
    }
}

/// A balanced text inside of brackets leaves the `closer` open, and what is open inside
/// of the text comes on top of it.
pub(crate) proof fn lemma_pending_over_balanced(
    s: Seq<char>,
    at: int,
    part: Seq<char>,
    closer: char,
    i: int,
)
    requires
        0 <= at,
        at + part.len() <= s.len(),
        s.subrange(at, at + part.len()) == part,
        at > 0 ==> s[at - 1] != '-',
        is_balanced(part),
        pending(s, at + part.len()) == Some(seq![closer]),
        0 <= i <= part.len(),
    ensures
        pending(part, i) is Some,
        pending(s, at + i) == Some(seq![closer] + pending(part, i)->0),
    decreases part.len() - i,
{
    lemma_balanced_has_partners(part, i);
    if i == part.len() {
        assert(seq![closer] + Seq::<char>::empty() =~= seq![closer]);
    } else {
        lemma_pending_over_balanced(s, at, part, closer, i + 1);
        let left = pending(part, i + 1)->0;
        let c = part[i];
        assert(s[at + i] == s.subrange(at, at + part.len())[i]);
        assert(i > 0 ==> s[at + i - 1] == s.subrange(at, at + part.len())[i - 1]);
        assert(closes(s, at + i) == closes(part, i));
        lemma_without_angles(closer, left);
        if closes(part, i) {
            assert((seq![closer] + left).push(c) =~= seq![closer] + left.push(c));
        } else if c == '<' {
            assert(!balances_from(part, i + 1));
            assert(left.len() > 0) by {
                if left.len() == 0 {
                    assert(left =~= Seq::<char>::empty());
                }
            }
            if left.last() == '>' {
                assert((seq![closer] + left).drop_last() =~= seq![closer] + left.drop_last());
            }
        } else if partner(c) is Some {
            let rest = without_angles(left);
            assert((seq![closer] + rest).drop_last() =~= seq![closer] + rest.drop_last());
        }
    }
}

/// An opening bracket without a partner leaves the text before it unbalanced.
proof fn lemma_balanced_has_partners(s: Seq<char>, i: int)
    requires
        balances_from(s, 0),
        0 <= i <= s.len(),
    ensures
        pending(s, i) is Some,
    decreases i,
{
    if i > 0 {
        lemma_balanced_has_partners(s, i - 1);
    }
}

/// No white space stands at the start or at the end of `s`.
pub open spec fn is_trimmed(s: Seq<char>) -> bool {
    s.len() > 0 ==> !is_white_space(s[0]) && !is_white_space(s.last())
}

/// Trimming takes a space away on either side, and nothing else.
pub proof fn law_trim_space(s: Seq<char>)
    requires
        is_trimmed(s),
    ensures
        trimmed(s) == s,
        trimmed(s.push(' ')) == s,
        trimmed(seq![' '] + s) == s,
{
    assert(s.push(' ').drop_last() =~= s);
    assert(trimmed_end(s.push(' ')) == trimmed_end(s));
    let t = seq![' '] + s;
    assert(t.skip(1) =~= s);
    if s.len() == 0 {
        assert(t.drop_last() =~= s);
        assert(trimmed_end(t) == trimmed_end(s));
    } else {
        assert(trimmed_end(t) == t);
        assert(trimmed_start(t) == trimmed_start(s));
    }
}

/// The lines of `s`, without their endings.
pub fn lines<'a>(s: &'a str) -> (r: Vec<&'a str>)
    ensures
        views(r@) == lines_of(s@),
{
    let chars = char_vec(s);
    let mut r: Vec<&'a str> = Vec::new();
    let mut from: usize = 0;
    assert(s@.skip(0) =~= s@);
    assert(views(r@) + lines_of(s@) =~= lines_of(s@));
    while from < chars.len()
        invariant
            chars@ == s@,
            from <= s@.len(),
            views(r@) + lines_of(s@.skip(from as int)) == lines_of(s@),
        decreases s@.len() - from,
    {
        let ghost rest = s@.skip(from as int);
        let mut to: usize = from;
        assert(s@.skip(to as int) =~= rest);
        while to < chars.len() && chars[to] != '\n'
            invariant
                chars@ == s@,
                from <= to <= s@.len(),
                rest == s@.skip(from as int),
                line_len(rest) == (to - from) + line_len(s@.skip(to as int)),
            decreases s@.len() - to,
        {
            assert(s@.skip(to as int).skip(1) =~= s@.skip(to + 1));
            to = to + 1;
        }
        let ghost before = views(r@);
        assert(line_len(rest) == to - from);
        if to < chars.len() {
            let end: usize = if from < to && chars[to - 1] == '\r' {
                to - 1
            } else {
                to
            };
            assert(s@.subrange(from as int, end as int) =~= without_carriage_return(
                rest.take(to - from),
            ));
            assert(rest.skip(to - from + 1) =~= s@.skip(to + 1));
            let line = s.substring_char(from, end);
            r.push(line);
            assert(views(r@) =~= before.push(line@));
            assert(before + (seq![line@] + lines_of(s@.skip(to + 1))) =~= views(r@) + lines_of(
                s@.skip(to + 1),
            ));
            from = to + 1;
        } else {
            let line = s.substring_char(from, to);
            assert(line@ =~= rest);
            r.push(line);
            assert(views(r@) =~= before.push(line@));
            assert(lines_of(s@.skip(to as int)) =~= Seq::<Seq<char>>::empty());
            assert(before + seq![line@] =~= views(r@) + lines_of(s@.skip(to as int)));
            from = to;
        }
    }
    assert(lines_of(s@.skip(from as int)) =~= Seq::<Seq<char>>::empty());
    assert(views(r@) + Seq::<Seq<char>>::empty() =~= views(r@));
    r
}

/// `s` holds no `c`.
pub open spec fn is_free_of(s: Seq<char>, c: char) -> bool {
    forall|i: int| 0 <= i < s.len() ==> s[i] != c
}

/// A line feed ends the first line, whatever follows it.
proof fn lemma_line_len(s: Seq<char>, more: Seq<char>)
    ensures
        line_len(s) <= s.len(),
        line_len(s) < s.len() ==> s[line_len(s) as int] == '\n' && line_len(s + more) == line_len(
            s,
        ),
        line_len(s) == s.len() ==> is_free_of(s, '\n') && line_len(s + more) == s.len()
            + line_len(more),
        is_free_of(s.take(line_len(s) as int), '\n'),
    decreases s.len(),
{
    if s.len() == 0 {
        assert(s + more =~= more);
    } else if s[0] != '\n' {
        lemma_line_len(s.skip(1), more);
        assert((s + more).skip(1) =~= s.skip(1) + more);
        let n = line_len(s) as int;
        assert forall|i: int| 0 <= i < n implies s[i] != '\n' by {
            if i > 0 {
                assert(s.skip(1).take(n - 1)[i - 1] == s[i]);
            }
        }
    }
}

/// A line that is added to whole lines is one line more, without a carriage return at
/// its end.
pub proof fn law_lines_of_added_line(s: Seq<char>, line: Seq<char>)
    requires
        s.len() > 0 ==> s.last() == '\n',
        is_free_of(line, '\n'),
    ensures
        lines_of(s + line.push('\n')) == lines_of(s).push(without_carriage_return(line)),
    decreases s.len(),
{
    let added = line.push('\n');
    let whole = s + added;
    lemma_line_len(s, added);
    let n = line_len(s) as int;
    if s.len() == 0 {
        assert(whole =~= added);
        lemma_line_len(line, seq!['\n']);
        assert(added =~= line + seq!['\n']);
        if line_len(line) < line.len() {
            assert(line[line_len(line) as int] == '\n');
        }
        assert(line_len(added) == line.len());
        assert(added.take(line.len() as int) =~= line);
        assert(added.skip(line.len() as int + 1) =~= Seq::<char>::empty());
        assert(lines_of(Seq::<char>::empty()) =~= Seq::<Seq<char>>::empty());
        assert(lines_of(added) =~= seq![without_carriage_return(line)]);
        assert(lines_of(s).push(without_carriage_return(line)) =~= lines_of(added));
    } else {
        if n == s.len() {
            assert(s[s.len() - 1] == '\n');
        }
        let rest = s.skip(n + 1);
        law_lines_of_added_line(rest, line);
        assert(whole.take(n) =~= s.take(n));
        assert(whole.skip(n + 1) =~= rest + added);
        let first = seq![without_carriage_return(s.take(n))];
        let last = without_carriage_return(line);
        assert(first + lines_of(rest).push(last) =~= (first + lines_of(rest)).push(last));
    }
}

/// White space at the end of a text is all that trimming takes away there.
pub(crate) proof fn lemma_trimmed_end_of_sum(a: Seq<char>, b: Seq<char>)
    ensures
        trimmed_end(b).len() == 0 ==> trimmed_end(a + b) == trimmed_end(a),
        trimmed_end(b).len() > 0 ==> trimmed_end(a + b) == a + trimmed_end(b),
    decreases b.len(),
{
    if b.len() == 0 {
        assert(a + b =~= a);
    } else if is_white_space(b.last()) {
        lemma_trimmed_end_of_sum(a, b.drop_last());
        assert((a + b).drop_last() =~= a + b.drop_last());
    }
}

/// What trimming leaves is a part of the text and ends in no white space.
pub(crate) proof fn lemma_trimmed_end(s: Seq<char>)
    ensures
        trimmed_end(s).is_prefix_of(s),
        trimmed_end(s).len() > 0 ==> !is_white_space(trimmed_end(s).last()),
        (forall|i: int| 0 <= i < s.len() ==> is_white_space(#[trigger] s[i])) ==> trimmed_end(
            s,
        ).len() == 0,
    decreases s.len(),
{
    if s.len() > 0 && is_white_space(s.last()) {
        lemma_trimmed_end(s.drop_last());
    }
}

/// A line feed behind the last line does not make another line.
pub proof fn law_lines_of_ended_text(s: Seq<char>)
    requires
        s.len() > 0,
        s.last() != '\n',
        s.last() != '\r',
    ensures
        lines_of(s.push('\n')) == lines_of(s),
    decreases s.len(),
{
    let whole = s.push('\n');
    assert(whole =~= s + seq!['\n']);
    lemma_line_len(s, seq!['\n']);
    let n = line_len(s) as int;
    if n == s.len() {
        assert(line_len(seq!['\n']) == 0);
        assert(whole.take(n) =~= s);
        assert(whole.skip(n + 1) =~= Seq::<char>::empty());
        assert(lines_of(Seq::<char>::empty()) =~= Seq::<Seq<char>>::empty());
        assert(lines_of(whole) =~= seq![s]);
    } else {
        assert(n + 1 < s.len());
        let rest = s.skip(n + 1);
        law_lines_of_ended_text(rest);
        assert(whole.take(n) =~= s.take(n));
        assert(whole.skip(n + 1) =~= rest.push('\n'));
    }
}

/// A line holds no line feed, and no character that the text does not hold.
pub proof fn law_lines_are_free_of(s: Seq<char>, c: char)
    requires
        c == '\n' || is_free_of(s, c),
    ensures
        forall|i: int| 0 <= i < lines_of(s).len() ==> is_free_of(#[trigger] lines_of(s)[i], c),
    decreases s.len(),
{
    if s.len() > 0 {
        lemma_line_len(s, Seq::empty());
        let n = line_len(s) as int;
        if n < s.len() {
            let rest = s.skip(n + 1);
            law_lines_are_free_of(rest, c);
            let first = without_carriage_return(s.take(n));
            assert(is_free_of(s.take(n), c));
            assert forall|i: int| 0 <= i < first.len() implies first[i] != c by {
                assert(first[i] == s.take(n)[i]);
            }
            assert forall|i: int| 0 <= i < lines_of(s).len() implies is_free_of(
                #[trigger] lines_of(s)[i],
                c,
            ) by {
                if i > 0 {
                    assert(lines_of(s)[i] == lines_of(rest)[i - 1]);
                }
            }
        }
    }
}

/// A text that does not end in a line feed has its last character at the end of its
/// last line.
pub proof fn law_last_line(s: Seq<char>)
    requires
        s.len() > 0,
        s.last() != '\n',
    ensures
        lines_of(s).len() > 0,
        lines_of(s).last().len() > 0,
        lines_of(s).last().last() == s.last(),
    decreases s.len(),
{
    lemma_line_len(s, Seq::empty());
    let n = line_len(s) as int;
    if n < s.len() {
        assert(n + 1 < s.len());
        law_last_line(s.skip(n + 1));
    }
}

/// `part` stands somewhere in `whole`.
pub open spec fn occurs(part: Seq<char>, whole: Seq<char>) -> bool {
    exists|before: Seq<char>, behind: Seq<char>| whole == #[trigger] (before + part + behind)
}

/// What stands in a part stands in the whole.
pub(crate) proof fn lemma_occurs_between(
    part: Seq<char>,
    before: Seq<char>,
    middle: Seq<char>,
    behind: Seq<char>,
)
    requires
        occurs(part, middle),
    ensures
        occurs(part, before + middle + behind),
        occurs(part, before + middle),
        occurs(part, middle + behind),
{
    let (b, h) = choose|b: Seq<char>, h: Seq<char>| middle == #[trigger] (b + part + h);
    assert(before + middle + behind =~= (before + b) + part + (h + behind));
    assert(before + middle =~= (before + b) + part + h);
    assert(middle + behind =~= b + part + (h + behind));
}

/// A text stands in itself.
pub(crate) proof fn lemma_occurs_itself(s: Seq<char>)
    ensures
        occurs(s, s),
{
    assert(s =~= Seq::<char>::empty() + s + Seq::<char>::empty());
}

/// What stands in a text stands in any longer one that starts with it.
pub(crate) broadcast proof fn lemma_occurs_before(
    part: Seq<char>,
    whole: Seq<char>,
    more: Seq<char>,
)
    requires
        #[trigger] occurs(part, whole),
    ensures
        occurs(part, #[trigger] (whole + more)),
{
    lemma_occurs_between(part, Seq::empty(), whole, more);
}

/// Three texts in a row stand at the end of a text that they are added to.
pub(crate) proof fn lemma_occurs_three(
    before: Seq<char>,
    a: Seq<char>,
    b: Seq<char>,
    c: Seq<char>,
)
    ensures
        occurs(a + b + c, before + a + b + c),
{
    assert(before + a + b + c =~= before + (a + b + c) + Seq::<char>::empty());
}

/// What stands in a text and holds no line ending stands in one of its lines.
pub(crate) proof fn lemma_occurs_in_line(part: Seq<char>, s: Seq<char>) -> (i: int)
    requires
        occurs(part, s),
        part.len() > 0,
        is_free_of(part, '\n'),
        is_free_of(part, '\r'),
    ensures
        0 <= i < lines_of(s).len(),
        occurs(part, lines_of(s)[i]),
    decreases s.len(),
{
    let (before, behind) = choose|before: Seq<char>, behind: Seq<char>|
        s == #[trigger] (before + part + behind);
    lemma_line_len(s, Seq::empty());
    let n = line_len(s) as int;
    if n == s.len() {
        0
    } else if before.len() + part.len() <= n {
        let line = s.take(n);
        let tail = behind.take(n - before.len() - part.len());
        assert(line =~= before + part + tail);
        if line.last() == '\r' {
            assert(tail.len() > 0) by {
                if tail.len() == 0 {
                    assert(line.last() == part.last());
                }
            }
            assert(without_carriage_return(line) =~= before + part + tail.drop_last());
        }
        0
    } else if before.len() > n {
        let rest = s.skip(n + 1);
        assert(rest =~= before.skip(n + 1) + part + behind);
        let i = lemma_occurs_in_line(part, rest);
        assert(lines_of(s)[i + 1] == lines_of(rest)[i]);
        i + 1
    } else {
        assert(part[n - before.len()] == s[n]);
        0
    }
}

/// A text without brackets is balanced, and everything in it stands outside.
pub proof fn law_plain_text_is_balanced(s: Seq<char>, c: char, i: int)
    requires
        forall|k: int|
            0 <= k < s.len() ==> {
                let d = #[trigger] s[k];
                d != '<' && d != '>' && d != '(' && d != ')' && d != '[' && d != ']' && d != '{'
                    && d != '}'
            },
    ensures
        is_balanced(s),
        stands_outside(s, c, i) <==> 0 <= i < s.len() && s[i] == c,
{
    lemma_pending_over_plain(s, 0, s.len() as int);
    if 0 <= i < s.len() {
        lemma_pending_over_plain(s, i + 1, s.len() as int);
    }
}

proof fn lemma_pending_before(a: Seq<char>, b: Seq<char>, i: int)
    requires
        balances_from(b, 0),
        a.len() > 0 ==> a.last() != '-',
        0 <= i <= a.len(),
    ensures
        pending(a + b, i) == pending(a, i),
    decreases a.len() - i,
{
    if i == a.len() {
        lemma_pending_behind(a, b, 0);
    } else {
        lemma_pending_before(a, b, i + 1);
        assert(closes(a + b, i) == closes(a, i));
    }
}

/// Two balanced texts in a row are balanced, and what stands outside in one of them
/// does so in both together.
pub proof fn law_balanced_texts_in_a_row(a: Seq<char>, b: Seq<char>, c: char, i: int)
    requires
        is_balanced(a),
        is_balanced(b),
        a.len() > 0 ==> a.last() != '-',
    ensures
        is_balanced(a + b),
        stands_outside(a + b, c, i) <==> stands_outside(a, c, i) || stands_outside(
            b,
            c,
            i - a.len(),
        ),
{
    let s = a + b;
    lemma_pending_before(a, b, 0);
    assert forall|k: int| 0 <= k < s.len() && #[trigger] s[k] == '<' implies !balances_from(
        s,
        k + 1,
    ) by {
        if k < a.len() {
            lemma_pending_before(a, b, k + 1);
            assert(a[k] == '<');
        } else {
            lemma_pending_behind(a, b, k + 1 - a.len());
            assert(b[k - a.len()] == '<');
        }
    }
    if 0 <= i < a.len() {
        lemma_pending_before(a, b, i + 1);
    } else if a.len() <= i < s.len() {
        lemma_pending_behind(a, b, i + 1 - a.len());
    }
}

/// A balanced text in brackets of any kind is balanced, and nothing between the two
/// brackets stands outside.
pub proof fn law_text_in_brackets(
    open: char,
    inner: Seq<char>,
    closer: char,
    c: char,
    i: int,
)
    requires
        is_balanced(inner),
        inner.len() > 0 ==> inner.last() != '-',
        ({
            ||| open == '<' && closer == '>'
            ||| open == '(' && closer == ')'
            ||| open == '[' && closer == ']'
            ||| open == '{' && closer == '}'
        }),
    ensures
        is_balanced(seq![open] + inner + seq![closer]),
        0 < i <= inner.len() ==> !stands_outside(seq![open] + inner + seq![closer], c, i),
{
    let s = seq![open] + inner + seq![closer];
    let n = s.len() as int;
    assert(s.subrange(1, n - 1) =~= inner);
    assert(pending(s, n) == Some(Seq::<char>::empty()));
    assert(inner.len() > 0 ==> s[n - 2] == inner.last());
    assert(closes(s, n - 1));
    assert(Seq::<char>::empty().push(closer) =~= seq![closer]);
    lemma_pending_over_balanced(s, 1, inner, closer, 0);
    assert(seq![closer] + Seq::<char>::empty() =~= seq![closer]);
    assert(seq![closer].drop_last() =~= Seq::<char>::empty());
    assert(without_angles(seq![closer]) == seq![closer] || closer == '>');
    assert(balances_from(s, 0));
    assert forall|k: int| 0 <= k < n && #[trigger] s[k] == '<' implies !balances_from(s, k + 1) by {
        if 0 < k {
            lemma_pending_over_balanced(s, 1, inner, closer, k);
        }
    }
    if 0 < i <= inner.len() {
        lemma_pending_over_balanced(s, 1, inner, closer, i);
    }
}

/// Trimming takes white space away at both ends, and leaves none there.
pub proof fn law_trimmed_text(s: Seq<char>) -> (ends: (Seq<char>, Seq<char>))
    ensures
        s == ends.0 + trimmed(s) + ends.1,
        forall|i: int| 0 <= i < ends.0.len() ==> is_white_space(#[trigger] ends.0[i]),
        forall|i: int| 0 <= i < ends.1.len() ==> is_white_space(#[trigger] ends.1[i]),
        trimmed(s).len() > 0 ==> !is_white_space(trimmed(s)[0]) && !is_white_space(
            trimmed(s).last(),
        ),
{
    let behind = lemma_trimmed_end_parts(s);
    let before = lemma_trimmed_start_parts(trimmed_end(s));
    assert(s =~= before + trimmed(s) + behind);
    lemma_trimmed_end(s);
    (before, behind)
}

proof fn lemma_trimmed_end_parts(s: Seq<char>) -> (behind: Seq<char>)
    ensures
        s == trimmed_end(s) + behind,
        forall|i: int| 0 <= i < behind.len() ==> is_white_space(#[trigger] behind[i]),
    decreases s.len(),
{
    if s.len() > 0 && is_white_space(s.last()) {
        let rest = lemma_trimmed_end_parts(s.drop_last());
        assert(s =~= s.drop_last().push(s.last()));
        assert(s.drop_last() == trimmed_end(s) + rest);
        assert(s =~= trimmed_end(s) + rest.push(s.last()));
        rest.push(s.last())
    } else {
        assert(s =~= trimmed_end(s) + Seq::<char>::empty());
        Seq::empty()
    }
}

proof fn lemma_trimmed_start_parts(s: Seq<char>) -> (before: Seq<char>)
    ensures
        s == before + trimmed_start(s),
        forall|i: int| 0 <= i < before.len() ==> is_white_space(#[trigger] before[i]),
        trimmed_start(s).len() > 0 ==> !is_white_space(trimmed_start(s)[0])
            && trimmed_start(s).last() == s.last(),
    decreases s.len(),
{
    if s.len() > 0 && is_white_space(s[0]) {
        let rest = lemma_trimmed_start_parts(s.skip(1));
        let before = seq![s[0]] + rest;
        assert(s =~= seq![s[0]] + s.skip(1));
        assert(s.skip(1) == rest + trimmed_start(s));
        assert(s =~= before + trimmed_start(s));
        before
    } else {
        assert(s =~= Seq::<char>::empty() + trimmed_start(s));
        Seq::empty()
    }
}

/// A prefix and a suffix are taken away once, and nothing else is.
pub proof fn law_stripped_text(s: Seq<char>, part: Seq<char>)
    ensures
        without_prefix(part + s, part) == s,
        without_suffix(s + part, part) == s,
        !part.is_prefix_of(s) ==> without_prefix(s, part) == s,
        !part.is_suffix_of(s) ==> without_suffix(s, part) == s,
{
    assert((part + s).subrange(0, part.len() as int) =~= part);
    assert((part + s).skip(part.len() as int) =~= s);
    assert((s + part).subrange(s.len() as int, (s + part).len() as int) =~= part);
    assert((s + part).take(s.len() as int) =~= s);
}

/// There are no lines in nothing. A line feed ends a line, and so does a carriage return
/// before it. The last line needs no ending.
pub proof fn law_lines(s: Seq<char>, line: Seq<char>)
    requires
        s.len() > 0 ==> s.last() == '\n',
        is_free_of(line, '\n'),
        line.len() > 0,
        line.last() != '\r',
    ensures
        lines_of(Seq::<char>::empty()) == Seq::<Seq<char>>::empty(),
        lines_of(s + line) == lines_of(s).push(line),
        lines_of(s + line + seq!['\n']) == lines_of(s).push(line),
        lines_of(s + line + seq!['\r', '\n']) == lines_of(s).push(line),
        lines_of(s + seq!['\n']) == lines_of(s).push(Seq::<char>::empty()),
        lines_of(s + seq!['\r', '\n']) == lines_of(s).push(Seq::<char>::empty()),
{
    let none = Seq::<char>::empty();
    assert(lines_of(none) =~= Seq::<Seq<char>>::empty());
    law_lines_of_added_line(s, line);
    law_lines_of_ended_text(s + line);
    assert((s + line).push('\n') =~= s + line.push('\n'));
    assert(s + line + seq!['\n'] =~= s + line.push('\n'));
    let returned = line.push('\r');
    law_lines_of_added_line(s, returned);
    assert(returned.drop_last() =~= line);
    assert(s + line + seq!['\r', '\n'] =~= s + returned.push('\n'));
    law_lines_of_added_line(s, none);
    assert(s + seq!['\n'] =~= s + none.push('\n'));
    law_lines_of_added_line(s, seq!['\r']);
    assert(seq!['\r'].drop_last() =~= none);
    assert(s + seq!['\r', '\n'] =~= s + seq!['\r'].push('\n'));
}

/// The characters of some texts are those of each of them, in their order.
pub proof fn law_views(parts: Seq<&str>)
    ensures
        views(parts).len() == parts.len(),
        forall|i: int| 0 <= i < parts.len() ==> #[trigger] views(parts)[i] == parts[i]@,
{
}

/// A text without the delimiter is not split.
pub proof fn law_no_delimiter(s: Seq<char>, delimiter: char)
    requires
        is_free_of(s, delimiter),
    ensures
        split_outside(s, delimiter) is None,
{
    if exists|i: int| is_split_at(s, delimiter, i) {
        let i = choose|i: int| is_split_at(s, delimiter, i);
        assert(s[i] == delimiter);
    }
}

} // verus!
