//! Character-level groundwork: whitespace, trimming, and finding the first
//! occurrence of a character. Strings are modelled by their view, a `Seq<char>`.

use vstd::prelude::*;

verus! {

/// Whether `c` has the Unicode property `White_Space`.
pub open spec fn is_whitespace(c: char) -> bool {
    let n = c as u32;
    ||| 0x0009 <= n <= 0x000D
    ||| n == 0x0020
    ||| n == 0x0085
    ||| n == 0x00A0
    ||| n == 0x1680
    ||| 0x2000 <= n <= 0x200A
    ||| n == 0x2028
    ||| n == 0x2029
    ||| n == 0x202F
    ||| n == 0x205F
    ||| n == 0x3000
}

/// `s` without its leading whitespace.
pub open spec fn trim_start(s: Seq<char>) -> Seq<char>
    decreases s.len(),
{
    if s.len() > 0 && is_whitespace(s.first()) {
        trim_start(s.drop_first())
    } else {
        s
    }
}

/// `s` without its trailing whitespace.
pub open spec fn trim_end(s: Seq<char>) -> Seq<char>
    decreases s.len(),
{
    if s.len() > 0 && is_whitespace(s.last()) {
        trim_end(s.drop_last())
    } else {
        s
    }
}

/// `s` without its leading and trailing whitespace.
pub open spec fn trimmed(s: Seq<char>) -> Seq<char> {
    trim_end(trim_start(s))
}

/// Whether `s[a..b]` is what remains of `s` once the whitespace at both ends
/// is gone: everything outside the range is whitespace, and the range, if it
/// is not empty, begins and ends with a character that is not.
pub open spec fn trims_to(s: Seq<char>, a: int, b: int) -> bool {
    &&& 0 <= a <= b <= s.len()
    &&& forall|j: int| 0 <= j < a ==> is_whitespace(#[trigger] s[j])
    &&& forall|j: int| b <= j < s.len() ==> is_whitespace(#[trigger] s[j])
    &&& a < b ==> !is_whitespace(s[a]) && !is_whitespace(s[b - 1])
}

/// Whether `i` is the position of the first `c` in `s`.
pub open spec fn first_at(s: Seq<char>, c: char, i: int) -> bool {
    &&& 0 <= i < s.len()
    &&& s[i] == c
    &&& forall|j: int| 0 <= j < i ==> #[trigger] s[j] != c
}

/// The position of the first `c` in `s`, where `s` contains `c`.
pub open spec fn first_index(s: Seq<char>, c: char) -> int {
    choose|i: int| first_at(s, c, i)
}

/// The part of `s` before its first `c`.
pub open spec fn before_first(s: Seq<char>, c: char) -> Seq<char> {
    s.subrange(0, first_index(s, c))
}

/// The part of `s` after its first `c`.
pub open spec fn after_first(s: Seq<char>, c: char) -> Seq<char> {
    s.subrange(first_index(s, c) + 1, s.len() as int)
}

/// The pieces of `s` that lie between its occurrences of `sep`: one more
/// piece than there are occurrences, each free of `sep`, some possibly empty.
pub open spec fn split_on(s: Seq<char>, sep: char) -> Seq<Seq<char>>
    decreases s.len(),
    via split_on_decreases
{
    if s.contains(sep) {
        seq![before_first(s, sep)] + split_on(after_first(s, sep), sep)
    } else {
        seq![s]
    }
}

#[via_fn]
proof fn split_on_decreases(s: Seq<char>, sep: char) {
    if s.contains(sep) {
        lemma_first_exists(s, sep);
    }
}

/// The parts in order, with `sep` between each two neighbours.
pub open spec fn joined(parts: Seq<Seq<char>>, sep: Seq<char>) -> Seq<char>
    decreases parts.len(),
{
    if parts.len() == 0 {
        Seq::empty()
    } else if parts.len() == 1 {
        parts[0]
    } else {
        joined(parts.drop_last(), sep) + sep + parts.last()
    }
}

/// Whether `s` holds no whitespace.
pub open spec fn free_of_whitespace(s: Seq<char>) -> bool {
    forall|i: int| 0 <= i < s.len() ==> !is_whitespace(#[trigger] s[i])
}

/// The predicate that holds of the characters that are not whitespace.
pub open spec fn not_whitespace() -> spec_fn(char) -> bool {
    |c: char| !is_whitespace(c)
}

/// `s` with every whitespace character removed.
pub open spec fn without_whitespace(s: Seq<char>) -> Seq<char> {
    s.filter(not_whitespace())
}

/// A position that satisfies `first_at` is the one `first_index` names.
pub proof fn lemma_first_index(s: Seq<char>, c: char, i: int)
    requires
        first_at(s, c, i),
    ensures
        first_index(s, c) == i,
        s.contains(c),
{
    // Of two first positions neither can lie before the other.
    assert(first_at(s, c, first_index(s, c)));
}

proof fn lemma_first_before(s: Seq<char>, c: char, k: int)
    requires
        0 <= k < s.len(),
        s[k] == c,
    ensures
        exists|i: int| first_at(s, c, i),
    decreases k,
{
    if forall|j: int| 0 <= j < k ==> #[trigger] s[j] != c {
        assert(first_at(s, c, k));
    } else {
        let j = choose|j: int| 0 <= j < k && #[trigger] s[j] == c;
        lemma_first_before(s, c, j);
    }
}

/// A sequence that contains `c` has a first `c`, and `first_index` names it.
pub proof fn lemma_first_exists(s: Seq<char>, c: char)
    requires
        s.contains(c),
    ensures
        first_at(s, c, first_index(s, c)),
{
    let k = choose|k: int| 0 <= k < s.len() && s[k] == c;
    lemma_first_before(s, c, k);
}

proof fn lemma_trim_start_bound(s: Seq<char>) -> (a: int)
    ensures
        0 <= a <= s.len(),
        forall|j: int| 0 <= j < a ==> is_whitespace(#[trigger] s[j]),
        a < s.len() ==> !is_whitespace(s[a]),
        trim_start(s) == s.subrange(a, s.len() as int),
    decreases s.len(),
{
    if s.len() > 0 && is_whitespace(s.first()) {
        let t = s.drop_first();
        let a1 = lemma_trim_start_bound(t);
        assert forall|j: int| 0 <= j < a1 + 1 implies is_whitespace(#[trigger] s[j]) by {
            if j > 0 {
                assert(s[j] == t[j - 1]);
            }
        }
        a1 + 1
    } else {
        0
    }
}

proof fn lemma_trim_end_bound(s: Seq<char>) -> (b: int)
    ensures
        0 <= b <= s.len(),
        forall|j: int| b <= j < s.len() ==> is_whitespace(#[trigger] s[j]),
        0 < b ==> !is_whitespace(s[b - 1]),
        trim_end(s) == s.subrange(0, b),
    decreases s.len(),
{
    if s.len() > 0 && is_whitespace(s.last()) {
        let t = s.drop_last();
        let b1 = lemma_trim_end_bound(t);
        assert forall|j: int| b1 <= j < s.len() implies is_whitespace(#[trigger] s[j]) by {
            if j < t.len() {
                assert(s[j] == t[j]);
            }
        }
        b1
    } else {
        s.len() as int
    }
}

/// Trimming keeps one range of the sequence: what it leaves out is
/// whitespace, and what it keeps neither begins nor ends with whitespace.
pub proof fn lemma_trimmed_bounds(s: Seq<char>) -> (r: (int, int))
    ensures
        trims_to(s, r.0, r.1),
        trimmed(s) == s.subrange(r.0, r.1),
{
    let a = lemma_trim_start_bound(s);
    let t = s.subrange(a, s.len() as int);
    let b = lemma_trim_end_bound(t);
    assert forall|j: int| a + b <= j < s.len() implies is_whitespace(#[trigger] s[j]) by {
        assert(s[j] == t[j - a]);
    }
    (a, a + b)
}

/// Bounds that satisfy `trims_to` delimit the trimmed sequence.
pub proof fn lemma_trimmed(s: Seq<char>, a: int, b: int)
    requires
        trims_to(s, a, b),
    ensures
        trimmed(s) == s.subrange(a, b),
{
    // A character that is not whitespace pins both bounds; where there is
    // none, both ranges are empty.
    let _ = lemma_trimmed_bounds(s);
}

/// What is trimmed neither begins nor ends with whitespace, and trimming it
/// again changes nothing.
pub proof fn lemma_trimmed_is_trim(s: Seq<char>)
    ensures
        trimmed(s).len() > 0 ==> !is_whitespace(trimmed(s).first()) && !is_whitespace(
            trimmed(s).last(),
        ),
        trimmed(trimmed(s)) == trimmed(s),
{
    let (a, b) = lemma_trimmed_bounds(s);
    let t = s.subrange(a, b);
    lemma_trimmed(t, 0, t.len() as int);
}

/// Whitespace around a sequence does not change what trimming leaves of it.
pub proof fn lemma_trimmed_of_padded(left: Seq<char>, s: Seq<char>, right: Seq<char>)
    requires
        forall|j: int| 0 <= j < left.len() ==> is_whitespace(#[trigger] left[j]),
        forall|j: int| 0 <= j < right.len() ==> is_whitespace(#[trigger] right[j]),
    ensures
        trimmed(left + s + right) == trimmed(s),
{
    let (a, b) = lemma_trimmed_bounds(s);
    let w = left + s + right;
    let n = left.len() as int;
    if a < b {
        // The range that trimming keeps of `s` lies `n` further to the right in `w`.
        assert(trims_to(w, n + a, n + b));
        lemma_trimmed(w, n + a, n + b);
    } else {
        // All of `s` is whitespace, and so is all of `w`.
        assert(trims_to(w, 0, 0));
        lemma_trimmed(w, 0, 0);
    }
}

/// Cutting at the first `c` gives back the two parts that `c` was put
/// between, whatever the right part holds, as long as the left part is free
/// of `c`.
pub proof fn lemma_cut_of_concat(left: Seq<char>, c: char, right: Seq<char>)
    requires
        !left.contains(c),
    ensures
        (left + seq![c] + right).contains(c),
        before_first(left + seq![c] + right, c) == left,
        after_first(left + seq![c] + right, c) == right,
{
    let s = left + seq![c] + right;
    let n = left.len() as int;
    assert(first_at(s, c, n));
    lemma_first_index(s, c, n);
}

proof fn lemma_joined_prepend(first: Seq<char>, rest: Seq<Seq<char>>, sep: Seq<char>)
    requires
        rest.len() > 0,
    ensures
        joined(seq![first] + rest, sep) == first + sep + joined(rest, sep),
    decreases rest.len(),
{
    let all = seq![first] + rest;
    assert(all.drop_last() =~= seq![first] + rest.drop_last());
    if rest.len() == 1 {
        assert(joined(all.drop_last(), sep) == first);
    } else {
        lemma_joined_prepend(first, rest.drop_last(), sep);
        let inner = joined(rest.drop_last(), sep);
        assert(first + sep + inner + sep + rest.last() =~= first + sep + (inner + sep
            + rest.last()));
    }
}

/// Splitting loses nothing: there is at least one piece, no piece holds the
/// separator, and the pieces joined by the separator are the sequence again.
pub proof fn lemma_split_on(s: Seq<char>, sep: char)
    ensures
        split_on(s, sep).len() >= 1,
        forall|i: int|
            0 <= i < split_on(s, sep).len() ==> !(#[trigger] split_on(s, sep)[i]).contains(sep),
        joined(split_on(s, sep), seq![sep]) == s,
    decreases s.len(),
{
    if s.contains(sep) {
        lemma_first_exists(s, sep);
        let head = before_first(s, sep);
        let tail = after_first(s, sep);
        lemma_split_on(tail, sep);
        // A separator in the head would stand before the first one.
        assert forall|j: int| 0 <= j < head.len() implies head[j] != sep by {
            assert(head[j] == s[j]);
        }
        lemma_joined_prepend(head, split_on(tail, sep), seq![sep]);
    }
}

/// Joining undoes nothing that splitting would not find again: parts that
/// are free of the separator, joined by it, split into the same parts.
pub proof fn lemma_split_of_joined(parts: Seq<Seq<char>>, sep: char)
    requires
        parts.len() > 0,
        forall|i: int| 0 <= i < parts.len() ==> !(#[trigger] parts[i]).contains(sep),
    ensures
        split_on(joined(parts, seq![sep]), sep) == parts,
    decreases parts.len(),
{
    let first = parts[0];
    if parts.len() > 1 {
        let rest = parts.drop_first();
        assert(seq![first] + rest =~= parts);
        lemma_joined_prepend(first, rest, seq![sep]);
        lemma_cut_of_concat(first, sep, joined(rest, seq![sep]));
        lemma_split_of_joined(rest, sep);
    }
}

/// Parts that hold no whitespace, joined by a separator that holds none,
/// make a sequence that holds none.
pub proof fn lemma_joined_free_of_whitespace(parts: Seq<Seq<char>>, sep: Seq<char>)
    requires
        free_of_whitespace(sep),
        forall|i: int| 0 <= i < parts.len() ==> free_of_whitespace(#[trigger] parts[i]),
    ensures
        free_of_whitespace(joined(parts, sep)),
    decreases parts.len(),
{
    if parts.len() > 1 {
        lemma_joined_free_of_whitespace(parts.drop_last(), sep);
    }
}

/// Dropping the whitespace from a sequence that holds none changes nothing.
pub proof fn lemma_without_whitespace_of_free(s: Seq<char>)
    requires
        free_of_whitespace(s),
    ensures
        without_whitespace(s) == s,
    decreases s.len(),
{
    reveal(Seq::filter);
    if s.len() > 0 {
        lemma_without_whitespace_of_free(s.drop_last());
    }
}

/// Taken on trust, not proved: `String::push` appends the character to the
/// end of the string and changes nothing else of it.
pub assume_specification[ String::push ](s: &mut String, c: char)
    ensures
        final(s)@ == old(s)@.push(c),
;

/// Tells whether `c` is whitespace.
pub fn whitespace_char(c: char) -> (b: bool)
    ensures
        b == is_whitespace(c),
{
    let n: u32 = c as u32;
    if n <= 0x0020 {
        (0x0009 <= n && n <= 0x000D) || n == 0x0020
    } else if n < 0x2000 {
        n == 0x0085 || n == 0x00A0 || n == 0x1680
    } else {
        n <= 0x200A || n == 0x2028 || n == 0x2029 || n == 0x202F || n == 0x205F || n == 0x3000
    }
}

/// The characters of `s`, in order.
pub fn chars_of(s: &str) -> (v: Vec<char>)
    ensures
        v@ == s@,
{
    let mut v: Vec<char> = Vec::new();
    for c in it: s.chars()
        invariant
            v@ == it.seq().take(it.index()),
    {
        v.push(c);
    }
    v
}

/// The string made of `v[from..to]`.
pub(crate) fn string_of(v: &Vec<char>, from: usize, to: usize) -> (r: String)
    requires
        from <= to <= v.len(),
    ensures
        r@ == v@.subrange(from as int, to as int),
{
    let mut r = String::new();
    let mut i: usize = from;
    while i < to
        invariant
            from <= i <= to <= v.len(),
            r@ == v@.subrange(from as int, i as int),
        decreases to - i,
    {
        r.push(v[i]);
        assert(v@.subrange(from as int, i as int).push(v@[i as int]) =~= v@.subrange(
            from as int,
            i + 1,
        ));
        i = i + 1;
    }
    r
}

/// Looks for the first `c` at or after position `from`.
pub(crate) fn find_first(v: &Vec<char>, c: char, from: usize) -> (r: Option<usize>)
    requires
        from <= v.len(),
    ensures
        match r {
            Some(i) => from <= i < v.len() && first_at(v@.skip(from as int), c, i - from),
            None => !v@.skip(from as int).contains(c),
        },
{
    let mut i: usize = from;
    while i < v.len()
        invariant
            from <= i <= v.len(),
            forall|j: int| from <= j < i ==> #[trigger] v@[j] != c,
        decreases v.len() - i,
    {
        if v[i] == c {
            return Some(i);
        }
        i = i + 1;
    }
    None
}

/// Finds where `v[from..to]` begins and ends once the whitespace at both of
/// its ends is left out.
pub(crate) fn trim_bounds(v: &Vec<char>, from: usize, to: usize) -> (r: (usize, usize))
    requires
        from <= to <= v.len(),
    ensures
        from <= r.0 <= r.1 <= to,
        v@.subrange(r.0 as int, r.1 as int) == trimmed(v@.subrange(from as int, to as int)),
{
    let mut a: usize = from;
    while a < to && whitespace_char(v[a])
        invariant
            from <= a <= to <= v.len(),
            forall|j: int| from <= j < a ==> is_whitespace(#[trigger] v@[j]),
        decreases to - a,
    {
        a = a + 1;
    }
    let mut b: usize = to;
    while b > a && whitespace_char(v[b - 1])
        invariant
            a <= b <= to <= v.len(),
            forall|j: int| b <= j < to ==> is_whitespace(#[trigger] v@[j]),
        decreases b,
    {
        b = b - 1;
    }
    proof {
        let w = v@.subrange(from as int, to as int);
        lemma_trimmed(w, a - from, b - from);
    }
    (a, b)
}

/// The characters of `v` that are not whitespace, in order.
pub(crate) fn strip_whitespace(v: &Vec<char>) -> (r: Vec<char>)
    ensures
        r@ == without_whitespace(v@),
{
    let mut r: Vec<char> = Vec::new();
    let mut i: usize = 0;
    proof {
        reveal(Seq::filter);
    }
    while i < v.len()
        invariant
            i <= v.len(),
            r@ == without_whitespace(v@.take(i as int)),
        decreases v.len() - i,
    {
        let c = v[i];
        proof {
            assert(v@.take(i + 1) =~= v@.take(i as int).push(c));
            v@.take(i as int).lemma_filter_push(c, not_whitespace());
        }
        if !whitespace_char(c) {
            r.push(c);
        }
        i = i + 1;
    }
    proof {
        assert(v@.take(v@.len() as int) =~= v@);
    }
    r
}

/// `s` without its leading and trailing whitespace.
pub fn trim(s: &str) -> (r: String)
    ensures
        r@ == trimmed(s@),
{
    let v = chars_of(s);
    let (a, b) = trim_bounds(&v, 0, v.len());
    proof {
        assert(v@.subrange(0, v@.len() as int) =~= v@);
    }
    string_of(&v, a, b)
}

} // verus!
