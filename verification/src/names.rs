//! Device name matching shared by audio and MIDI device resolution.
//!
//! A device query selects the first device whose name equals it exactly,
//! and failing that the first device whose lower-cased name contains the
//! lower-cased query. A query that is empty or all whitespace names no
//! device.

use vstd::prelude::*;
use vstd::string::*;

verus! {

/// Whether `needle` occurs in `haystack` at position `at`.
pub open spec fn spec_occurs_at(haystack: Seq<char>, needle: Seq<char>, at: int) -> bool {
    &&& 0 <= at
    &&& at + needle.len() <= haystack.len()
    &&& haystack.subrange(at, at + needle.len()) == needle
}

/// Whether `needle` occurs anywhere in `haystack`.
pub open spec fn spec_contains(haystack: Seq<char>, needle: Seq<char>) -> bool {
    exists|at: int| spec_occurs_at(haystack, needle, at)
}

/// What Unicode lower-casing (`str::to_lowercase`) makes of `s`.
pub uninterp spec fn spec_to_lowercase(s: Seq<char>) -> Seq<char>;

/// Whether `c` has the Unicode `White_Space` property, the property that
/// `char::is_whitespace` tests: the controls U+0009 to U+000D, the space,
/// U+0085, the no-break space, U+1680, the spaces U+2000 to U+200A, the line
/// and paragraph separators, U+202F, U+205F and U+3000.
pub open spec fn spec_is_whitespace(c: char) -> bool {
    let u = c as u32;
    ||| 0x9 <= u <= 0xd
    ||| u == 0x20
    ||| u == 0x85
    ||| u == 0xa0
    ||| u == 0x1680
    ||| 0x2000 <= u <= 0x200a
    ||| u == 0x2028
    ||| u == 0x2029
    ||| u == 0x202f
    ||| u == 0x205f
    ||| u == 0x3000
}

/// Whether every character of `s` is whitespace, that is, whether `s`
/// trims to the empty string.
pub open spec fn spec_is_blank(s: Seq<char>) -> bool {
    forall|i: int| 0 <= i < s.len() ==> spec_is_whitespace(#[trigger] s[i])
}

/// Whether `name` is exactly `query`.
pub open spec fn spec_is_exact(name: Seq<char>, query: Seq<char>) -> bool {
    name == query
}

/// Whether `name` contains `query` once both are lower-cased.
pub open spec fn spec_fuzzy(name: Seq<char>, query: Seq<char>) -> bool {
    spec_contains(spec_to_lowercase(name), spec_to_lowercase(query))
}

/// The first index below `len` where `holds` is true.
pub open spec fn spec_first_where(len: nat, holds: spec_fn(int) -> bool) -> Option<int>
    decreases len,
{
    if len == 0 {
        None
    } else {
        match spec_first_where((len - 1) as nat, holds) {
            Some(i) => Some(i),
            None => if holds(len - 1) {
                Some(len - 1)
            } else {
                None
            },
        }
    }
}

/// The index of the device whose name `query` selects among `names`, where
/// `None` stands for a name that could not be read.
pub open spec fn spec_device_match(names: Seq<Option<String>>, query: Seq<char>) -> Option<int> {
    let exact = |i: int| names[i] matches Some(n) && spec_is_exact(n@, query);
    let fuzzy = |i: int| names[i] matches Some(n) && spec_fuzzy(n@, query);
    match spec_first_where(names.len(), exact) {
        Some(i) => Some(i),
        None => spec_first_where(names.len(), fuzzy),
    }
}

proof fn lemma_first_where_bounds(len: nat, holds: spec_fn(int) -> bool)
    ensures
        spec_first_where(len, holds) matches Some(i) ==> 0 <= i < len && holds(i),
        spec_first_where(len, holds) is None ==> forall|j: int| 0 <= j < len ==> !#[trigger] holds(j),
    decreases len,
{
    if len > 0 {
        lemma_first_where_bounds((len - 1) as nat, holds);
    }
}

/// A selected index always names one of the devices.
pub proof fn lemma_device_match_in_range(names: Seq<Option<String>>, query: Seq<char>)
    ensures
        spec_device_match(names, query) matches Some(i) ==> 0 <= i < names.len(),
{
    let exact = |i: int| names[i] matches Some(n) && spec_is_exact(n@, query);
    let fuzzy = |i: int| names[i] matches Some(n) && spec_fuzzy(n@, query);
    lemma_first_where_bounds(names.len(), exact);
    lemma_first_where_bounds(names.len(), fuzzy);
}

/// Lower-cases `s` with the Unicode rules of `str::to_lowercase`.
#[verifier::external_body]
fn to_lowercase(s: &str) -> (lower: String)
    ensures
        lower@ == spec_to_lowercase(s@),
{
    s.to_lowercase()
}

/// Whether `c` is whitespace: whether it has the Unicode `White_Space`
/// property, as `char::is_whitespace` tests.
pub fn is_whitespace(c: char) -> (white: bool)
    ensures
        white == spec_is_whitespace(c),
{
    let u = c as u32;
    (0x9 <= u && u <= 0xd) || u == 0x20 || u == 0x85 || u == 0xa0 || u == 0x1680 || (0x2000 <= u
        && u <= 0x200a) || u == 0x2028 || u == 0x2029 || u == 0x202f || u == 0x205f || u == 0x3000
}

/// The characters of `s`, in order.
pub fn chars_of(s: &str) -> (chars: Vec<char>)
    ensures
        chars@ == s@,
{
    let len = s.unicode_len();
    let mut chars: Vec<char> = Vec::new();
    let mut i: usize = 0;
    while i < len
        invariant
            len == s@.len(),
            i <= len,
            chars@ == s@.subrange(0, i as int),
        decreases len - i,
    {
        chars.push(s.get_char(i));
        i = i + 1;
    }
    chars
}

/// Whether `s` is empty or all whitespace, that is, whether it trims to
/// the empty string.
pub fn is_blank(s: &str) -> (blank: bool)
    ensures
        blank == spec_is_blank(s@),
{
    let chars = chars_of(s);
    let mut i: usize = 0;
    while i < chars.len()
        invariant
            chars@ == s@,
            i <= chars@.len(),
            forall|k: int| 0 <= k < i ==> spec_is_whitespace(#[trigger] chars@[k]),
        decreases chars@.len() - i,
    {
        if !is_whitespace(chars[i]) {
            return false;
        }
        i = i + 1;
    }
    true
}

/// Whether `needle` occurs at position `at` of `haystack`.
pub(crate) fn occurs_at(haystack: &[char], needle: &[char], at: usize) -> (found: bool)
    requires
        at + needle@.len() <= haystack@.len(),
    ensures
        found == spec_occurs_at(haystack@, needle@, at as int),
{
    assert(haystack@.len() == haystack.len());
    let mut k: usize = 0;
    while k < needle.len()
        invariant
            at + needle@.len() <= haystack@.len(),
            haystack@.len() == haystack.len(),
            k <= needle@.len(),
            forall|j: int| 0 <= j < k ==> #[trigger] haystack@[at + j] == needle@[j],
        decreases needle@.len() - k,
    {
        if haystack[at + k] != needle[k] {
            assert(haystack@.subrange(at as int, at + needle@.len())[k as int] != needle@[k as int]);
            return false;
        }
        k = k + 1;
    }
    assert forall|j: int| 0 <= j < needle@.len() implies #[trigger] haystack@.subrange(at as int, at + needle@.len())[j] == needle@[j] by {
        assert(haystack@[at + j] == needle@[j]);
    }
    assert(haystack@.subrange(at as int, at + needle@.len()) =~= needle@);
    true
}

/// Whether `needle` occurs anywhere in `haystack`.
pub fn contains(haystack: &[char], needle: &[char]) -> (found: bool)
    ensures
        found == spec_contains(haystack@, needle@),
{
    if needle.len() > haystack.len() {
        return false;
    }
    let last = haystack.len() - needle.len();
    let mut at: usize = 0;
    loop
        invariant
            last == haystack@.len() - needle@.len(),
            needle@.len() <= haystack@.len(),
            at <= last,
            forall|p: int| 0 <= p < at ==> !spec_occurs_at(haystack@, needle@, p),
        ensures
            forall|p: int| 0 <= p <= last ==> !spec_occurs_at(haystack@, needle@, p),
        decreases last - at,
    {
        if occurs_at(haystack, needle, at) {
            return true;
        }
        if at == last {
            break;
        }
        at = at + 1;
    }
    assert forall|p: int| !spec_occurs_at(haystack@, needle@, p) by {
        if 0 <= p && p + needle@.len() <= haystack@.len() {
            assert(p <= last);
        }
    }
    false
}

/// Whether `name` and `query` are the same characters.
fn exact_match(name: &str, query: &[char]) -> (matched: bool)
    ensures
        matched == (name@ == query@),
{
    let chars = chars_of(name);
    if chars.len() != query.len() {
        return false;
    }
    let mut i: usize = 0;
    while i < chars.len()
        invariant
            chars@ == name@,
            chars@.len() == query@.len(),
            i <= chars@.len(),
            forall|k: int| 0 <= k < i ==> #[trigger] chars@[k] == query@[k],
        decreases chars@.len() - i,
    {
        if chars[i] != query[i] {
            assert(name@[i as int] != query@[i as int]);
            return false;
        }
        i = i + 1;
    }
    assert(chars@ =~= query@);
    true
}

/// Whether `name` contains `query_lower`, the lower-cased query, once the
/// name is lower-cased.
fn fuzzy_match(name: &str, query_lower: &[char], query: &[char]) -> (matched: bool)
    requires
        query_lower@ == spec_to_lowercase(query@),
    ensures
        matched == spec_fuzzy(name@, query@),
{
    let lower = to_lowercase(name);
    let lower_chars = chars_of(lower.as_str());
    contains(lower_chars.as_slice(), query_lower)
}

/// The index of the device `query` selects among `names`: the first name
/// that equals it, else the first whose lower-cased form
/// contains the lower-cased query. `None` entries are names that could not
/// be read, and never match.
#[verifier::loop_isolation(false)]
pub fn find_device_index(names: &Vec<Option<String>>, query: &str) -> (index: Option<usize>)
    ensures
        match index {
            Some(i) => spec_device_match(names@, query@) == Some(i as int),
            None => spec_device_match(names@, query@) is None,
        },
{
    let query_chars = chars_of(query);
    let query_lower_string = to_lowercase(query);
    let query_lower = chars_of(query_lower_string.as_str());
    let ghost exact = |i: int| names@[i] matches Some(n) && spec_is_exact(n@, query@);
    let ghost fuzzy = |i: int| names@[i] matches Some(n) && spec_fuzzy(n@, query@);
    let mut fuzzy_candidate: Option<usize> = None;
    let mut i: usize = 0;
    while i < names.len()
        invariant
            i <= names@.len(),
            query_chars@ == query@,
            query_lower@ == spec_to_lowercase(query@),
            spec_first_where(i as nat, exact) is None,
            match fuzzy_candidate {
                Some(c) => spec_first_where(i as nat, fuzzy) == Some(c as int),
                None => spec_first_where(i as nat, fuzzy) is None,
            },
        decreases names@.len() - i,
    {
        match &names[i] {
            Some(name) => {
                assert(names@[i as int] == Some(*name));
                if exact_match(name.as_str(), query_chars.as_slice()) {
                    assert(name@ == query@);
                    assert(exact(i as int));
                    assert(spec_first_where((i + 1) as nat, exact) == Some(i as int));
                    proof {
                        lemma_first_where_prefix(i as nat, names@.len(), exact);
                    }
                    return Some(i);
                }
                if fuzzy_candidate.is_none() && fuzzy_match(name.as_str(), query_lower.as_slice(), query_chars.as_slice()) {
                    fuzzy_candidate = Some(i);
                }
            },
            None => {},
        }
        i = i + 1;
    }
    proof {
        lemma_first_where_bounds(names@.len(), exact);
    }
    fuzzy_candidate
}

/// Once a prefix holds a first index, every longer prefix has the same one.
proof fn lemma_first_where_prefix(short: nat, long: nat, holds: spec_fn(int) -> bool)
    requires
        short < long,
        spec_first_where(short + 1, holds) is Some,
    ensures
        spec_first_where(long, holds) == spec_first_where(short + 1, holds),
    decreases long,
{
    if long > short + 1 {
        lemma_first_where_prefix(short, (long - 1) as nat, holds);
    }
}

} // verus!
