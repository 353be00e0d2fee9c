//! Field normalization: from raw `key:value` text to ordered key/value pairs.

use crate::text::{
    after_first, before_first, chars_of, find_first, free_of_whitespace, joined,
    lemma_cut_of_concat, lemma_first_exists, lemma_first_index, lemma_joined_free_of_whitespace,
    lemma_split_of_joined, lemma_trimmed_bounds, lemma_trimmed_is_trim,
    lemma_without_whitespace_of_free, split_on, string_of, strip_whitespace, trim_bounds, trimmed,
    without_whitespace,
};
use vstd::prelude::*;

verus! {

/// Separates a key from its value. Only its first occurrence in a raw field
/// counts: the value may hold further ones.
pub const DELIMITER: char = ':';

/// Separates the raw fields of a list that is given as one string.
pub const SEPARATOR: char = ',';

/// A normalized field: a key and its value, both free of surrounding whitespace.
#[derive(Clone, Debug, PartialEq, Eq)]
pub struct FieldPair {
    pub key: String,
    pub value: String,
}

impl View for FieldPair {
    type V = (Seq<char>, Seq<char>);

    open spec fn view(&self) -> (Seq<char>, Seq<char>) {
        (self.key@, self.value@)
    }
}

impl DeepView for FieldPair {
    type V = (Seq<char>, Seq<char>);

    open spec fn deep_view(&self) -> (Seq<char>, Seq<char>) {
        self@
    }
}

/// What can be wrong with the shape of a raw field.
#[derive(Clone, Copy, Debug, PartialEq, Eq, Structural)]
pub enum FieldFault {
    /// The raw field holds no delimiter.
    MissingDelimiter,
    /// Nothing but whitespace stands before the first delimiter.
    EmptyKey,
    /// Nothing but whitespace stands after the first delimiter.
    EmptyValue,
}

/// The rejection of a list of raw fields: which entry is at fault, and how.
#[derive(Clone, Debug, PartialEq, Eq)]
pub struct FieldShapeError {
    pub fault: FieldFault,
    /// Position of the offending entry in the list.
    pub index: usize,
    /// The offending entry, as it was given.
    pub raw: String,
}

/// The key of a raw field: what stands before the first delimiter, trimmed.
pub open spec fn field_key(raw: Seq<char>) -> Seq<char> {
    trimmed(before_first(raw, DELIMITER))
}

/// The value of a raw field: what stands after the first delimiter, trimmed.
pub open spec fn field_value(raw: Seq<char>) -> Seq<char> {
    trimmed(after_first(raw, DELIMITER))
}

/// What is wrong with a raw field, if anything.
pub open spec fn field_fault(raw: Seq<char>) -> Option<FieldFault> {
    if !raw.contains(DELIMITER) {
        Some(FieldFault::MissingDelimiter)
    } else if field_key(raw).len() == 0 {
        Some(FieldFault::EmptyKey)
    } else if field_value(raw).len() == 0 {
        Some(FieldFault::EmptyValue)
    } else {
        None
    }
}

/// Whether a raw field has the shape `key:value`, with neither part empty.
pub open spec fn well_shaped(raw: Seq<char>) -> bool {
    field_fault(raw) is None
}

/// Whether every entry of the list is well shaped.
pub open spec fn all_well_shaped(raws: Seq<Seq<char>>) -> bool {
    forall|i: int| 0 <= i < raws.len() ==> well_shaped(#[trigger] raws[i])
}

/// Whether entry `i` is the first of the list that is not well shaped.
pub open spec fn first_fault_at(raws: Seq<Seq<char>>, i: int) -> bool {
    &&& 0 <= i < raws.len()
    &&& !well_shaped(raws[i])
    &&& forall|j: int| 0 <= j < i ==> well_shaped(#[trigger] raws[j])
}

/// The pairs that a list of raw fields stands for: one per entry, in the
/// order of the entries.
pub open spec fn normalized(raws: Seq<Seq<char>>) -> Seq<(Seq<char>, Seq<char>)> {
    Seq::new(raws.len(), |i: int| (field_key(raws[i]), field_value(raws[i])))
}

/// Whether `e` reports the first ill-shaped entry of `raws`.
pub open spec fn reports_first_fault(raws: Seq<Seq<char>>, e: FieldShapeError) -> bool {
    &&& first_fault_at(raws, e.index as int)
    &&& field_fault(raws[e.index as int]) == Some(e.fault)
    &&& e.raw@ == raws[e.index as int]
}

/// The raw fields that one comma-separated string holds: all whitespace is
/// dropped first, then the rest is cut at every separator.
pub open spec fn field_list(input: Seq<char>) -> Seq<Seq<char>> {
    split_on(without_whitespace(input), SEPARATOR)
}

/// The raw fields that the command line gives: those given one by one
/// first, then those of the one line, if there is one.
pub open spec fn gathered(each: Seq<Seq<char>>, line: Option<Seq<char>>) -> Seq<Seq<char>> {
    match line {
        Some(text) => each + field_list(text),
        None => each,
    }
}

/// Given one by one or on one line, the same raw fields are read as the
/// same list, as long as there is at least one and none of them holds a
/// separator or whitespace.
pub proof fn lemma_field_list_of_joined(raws: Seq<Seq<char>>)
    requires
        raws.len() > 0,
        forall|i: int| 0 <= i < raws.len() ==> !(#[trigger] raws[i]).contains(SEPARATOR),
        forall|i: int| 0 <= i < raws.len() ==> free_of_whitespace(#[trigger] raws[i]),
    ensures
        field_list(joined(raws, seq![SEPARATOR])) == raws,
{
    lemma_joined_free_of_whitespace(raws, seq![SEPARATOR]);
    lemma_without_whitespace_of_free(joined(raws, seq![SEPARATOR]));
    lemma_split_of_joined(raws, SEPARATOR);
}

/// Only the first delimiter cuts a raw field: with a left part that is free
/// of the delimiter, the key is the left part and the value is the right
/// part, each trimmed, whatever the right part holds.
pub proof fn lemma_field_parts(left: Seq<char>, right: Seq<char>)
    requires
        !left.contains(DELIMITER),
    ensures
        field_fault(left + seq![DELIMITER] + right) != Some(FieldFault::MissingDelimiter),
        field_key(left + seq![DELIMITER] + right) == trimmed(left),
        field_value(left + seq![DELIMITER] + right) == trimmed(right),
{
    lemma_cut_of_concat(left, DELIMITER, right);
}

/// The pair of a well-shaped raw field is tidy: neither part is empty,
/// neither begins or ends with whitespace, and the key holds no delimiter.
pub proof fn lemma_well_shaped_pair(raw: Seq<char>)
    requires
        well_shaped(raw),
    ensures
        field_key(raw).len() > 0,
        field_value(raw).len() > 0,
        trimmed(field_key(raw)) == field_key(raw),
        trimmed(field_value(raw)) == field_value(raw),
        !field_key(raw).contains(DELIMITER),
{
    let left = before_first(raw, DELIMITER);
    lemma_trimmed_is_trim(left);
    lemma_trimmed_is_trim(after_first(raw, DELIMITER));
    lemma_first_exists(raw, DELIMITER);
    let (a, _) = lemma_trimmed_bounds(left);
    let key = field_key(raw);
    // A delimiter in the key would stand before the first one.
    assert forall|j: int| 0 <= j < key.len() implies key[j] != DELIMITER by {
        assert(key[j] == raw[a + j]);
    }
}

/// A list is either well shaped throughout or has a first ill-shaped entry,
/// never both, and no list has two first ill-shaped entries.
pub proof fn lemma_first_fault(raws: Seq<Seq<char>>)
    ensures
        all_well_shaped(raws) <==> !exists|i: int| first_fault_at(raws, i),
        forall|i: int, j: int| first_fault_at(raws, i) && first_fault_at(raws, j) ==> i == j,
{
    if !all_well_shaped(raws) {
        let k = choose|k: int| 0 <= k < raws.len() && !well_shaped(#[trigger] raws[k]);
        lemma_fault_before(raws, k);
    }
}

proof fn lemma_fault_before(raws: Seq<Seq<char>>, k: int)
    requires
        0 <= k < raws.len(),
        !well_shaped(raws[k]),
    ensures
        exists|i: int| first_fault_at(raws, i),
    decreases k,
{
    if forall|j: int| 0 <= j < k ==> well_shaped(#[trigger] raws[j]) {
        assert(first_fault_at(raws, k));
    } else {
        let j = choose|j: int| 0 <= j < k && !well_shaped(#[trigger] raws[j]);
        lemma_fault_before(raws, j);
    }
}

/// Splits one raw field at its first delimiter and trims both parts.
pub fn parse_field(raw: &str) -> (r: Result<FieldPair, FieldFault>)
    ensures
        r is Ok <==> well_shaped(raw@),
        r matches Ok(pair) ==> pair@ == (field_key(raw@), field_value(raw@)),
        r matches Err(fault) ==> field_fault(raw@) == Some(fault),
{
    let v = chars_of(raw);
    proof {
        assert(v@.skip(0) =~= v@);
    }
    match find_first(&v, DELIMITER, 0) {
        None => Err(FieldFault::MissingDelimiter),
        Some(i) => {
            proof {
                lemma_first_index(v@, DELIMITER, i as int);
            }
            let (a, b) = trim_bounds(&v, 0, i);
            let (c, d) = trim_bounds(&v, i + 1, v.len());
            if a == b {
                Err(FieldFault::EmptyKey)
            } else if c == d {
                Err(FieldFault::EmptyValue)
            } else {
                Ok(FieldPair { key: string_of(&v, a, b), value: string_of(&v, c, d) })
            }
        },
    }
}

/// Normalizes a list of raw fields, entry by entry and in order. One
/// ill-shaped entry rejects the whole list, and the error names the first
/// such entry.
pub fn normalize_fields(raws: &[String]) -> (r: Result<Vec<FieldPair>, FieldShapeError>)
    ensures
        r is Ok <==> all_well_shaped(raws.deep_view()),
        r matches Ok(pairs) ==> pairs.len() == raws.len(),
        r matches Ok(pairs) ==> pairs.deep_view() == normalized(raws.deep_view()),
        r matches Err(e) ==> reports_first_fault(raws.deep_view(), e),
{
    let mut pairs: Vec<FieldPair> = Vec::new();
    let mut i: usize = 0;
    while i < raws.len()
        invariant
            i <= raws.len(),
            pairs.len() == i,
            forall|j: int| 0 <= j < i ==> well_shaped(#[trigger] raws.deep_view()[j]),
            forall|j: int|
                0 <= j < i ==> (#[trigger] pairs@[j])@ == (
                    field_key(raws.deep_view()[j]),
                    field_value(raws.deep_view()[j]),
                ),
        decreases raws.len() - i,
    {
        let raw = &raws[i];
        match parse_field(raw.as_str()) {
            Ok(pair) => {
                pairs.push(pair);
            },
            Err(fault) => {
                assert(!well_shaped(raws.deep_view()[i as int]));
                return Err(FieldShapeError { fault, index: i, raw: raw.clone() });
            },
        }
        i = i + 1;
    }
    Ok(pairs)
}

/// Cuts one comma-separated string into its raw fields, after dropping all
/// whitespace from it. The empty string holds one raw field, the empty one.
pub fn split_field_list(input: &str) -> (r: Vec<String>)
    ensures
        r.deep_view() == field_list(input@),
{
    let all = chars_of(input);
    let v = strip_whitespace(&all);
    let mut out: Vec<String> = Vec::new();
    let mut start: usize = 0;
    proof {
        assert(v@.skip(0) =~= v@);
    }
    loop
        invariant
            start <= v.len(),
            split_on(v@, SEPARATOR) == out.deep_view() + split_on(v@.skip(start as int), SEPARATOR),
            v@ == without_whitespace(input@),
        decreases v.len() - start,
    {
        let ghost rest = v@.skip(start as int);
        match find_first(&v, SEPARATOR, start) {
            Some(j) => {
                let piece = string_of(&v, start, j);
                out.push(piece);
                proof {
                    lemma_first_index(rest, SEPARATOR, j - start);
                    assert(before_first(rest, SEPARATOR) =~= piece@);
                    assert(after_first(rest, SEPARATOR) =~= v@.skip(j + 1));
                }
                start = j + 1;
            },
            None => {
                let piece = string_of(&v, start, v.len());
                out.push(piece);
                return out;
            },
        }
    }
}

/// Puts the raw fields of both ways to give them into one list: those given
/// one by one first, then those of the one line, if there is one.
pub fn gather_fields(each: Vec<String>, line: Option<&str>) -> (r: Vec<String>)
    ensures
        r.deep_view() == gathered(
            each.deep_view(),
            match line {
                Some(text) => Some(text@),
                None => None,
            },
        ),
{
    let mut out = each;
    if let Some(text) = line {
        let mut pieces = split_field_list(text);
        out.append(&mut pieces);
    }
    out
}

/// Normalizes the raw fields that one comma-separated string holds.
pub fn normalize_field_list(input: &str) -> (r: Result<Vec<FieldPair>, FieldShapeError>)
    ensures
        r is Ok <==> all_well_shaped(field_list(input@)),
        r matches Ok(pairs) ==> pairs.deep_view() == normalized(field_list(input@)),
        r matches Err(e) ==> reports_first_fault(field_list(input@), e),
{
    let raws = split_field_list(input);
    normalize_fields(raws.as_slice())
}

} // verus!
