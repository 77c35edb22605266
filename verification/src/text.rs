use vstd::prelude::*;

verus! {

/// `pattern` stands in `text` at position `at`.
pub open spec fn occurs_at(pattern: Seq<char>, text: Seq<char>, at: int) -> bool {
    &&& 0 <= at
    &&& at + pattern.len() <= text.len()
    &&& text.subrange(at, at + pattern.len()) == pattern
}

/// `pattern` stands somewhere in `text`.
pub open spec fn occurs_in(pattern: Seq<char>, text: Seq<char>) -> bool {
    exists|at: int| occurs_at(pattern, text, at)
}

/// `text` begins with `pattern`.
pub open spec fn begins_with(pattern: Seq<char>, text: Seq<char>) -> bool {
    occurs_at(pattern, text, 0)
}

/// An occurrence read character by character: every character of the pattern
/// is met again in the text, shifted by the position.
pub proof fn lemma_occurs_at_pointwise(pattern: Seq<char>, text: Seq<char>, at: int)
    ensures
        occurs_at(pattern, text, at) <==> {
            &&& 0 <= at
            &&& at + pattern.len() <= text.len()
            &&& forall|k: int| 0 <= k < pattern.len() ==> text[at + k] == pattern[k]
        },
{
    if 0 <= at && at + pattern.len() <= text.len() {
        let window = text.subrange(at, at + pattern.len());
        if window == pattern {
            assert forall|k: int| 0 <= k < pattern.len() implies text[at + k] == pattern[k] by {
                assert(window[k] == text[at + k]);
            }
        }
        if forall|k: int| 0 <= k < pattern.len() ==> text[at + k] == pattern[k] {
            assert(window =~= pattern);
        }
    }
}

/// The characters of a string slice, in order.
pub fn chars_of(s: &str) -> (v: Vec<char>)
    ensures
        v@ == s@,
{
    let mut v: Vec<char> = Vec::new();
    for c in it: s.chars()
        invariant
            v@ == it.seq().take(it.index()),
            it.seq() == s@,
    {
        v.push(c);
    }
    v
}

/// Whether `pattern` stands in `text` at position `at`.
pub fn matches_at(text: &Vec<char>, pattern: &Vec<char>, at: usize) -> (found: bool)
    ensures
        found == occurs_at(pattern@, text@, at as int),
{
    if pattern.len() > text.len() || at > text.len() - pattern.len() {
        return false;
    }
    let mut k: usize = 0;
    while k < pattern.len()
        invariant
            k <= pattern.len(),
            at + pattern.len() <= text.len(),
            forall|j: int| 0 <= j < k ==> text@[at + j] == pattern@[j],
        decreases pattern.len() - k,
    {
        if text[at + k] != pattern[k] {
            proof {
                lemma_occurs_at_pointwise(pattern@, text@, at as int);
            }
            return false;
        }
        k += 1;
    }
    proof {
        lemma_occurs_at_pointwise(pattern@, text@, at as int);
    }
    true
}

/// Whether `text` begins with `pattern`.
pub fn starts_with(text: &Vec<char>, pattern: &Vec<char>) -> (found: bool)
    ensures
        found == begins_with(pattern@, text@),
{
    matches_at(text, pattern, 0)
}

/// The first position at which `pattern` stands in `text`, if there is one.
pub fn find(text: &Vec<char>, pattern: &Vec<char>) -> (place: Option<usize>)
    ensures
        match place {
            Some(at) => {
                &&& occurs_at(pattern@, text@, at as int)
                &&& forall|before: int| 0 <= before < at ==> !occurs_at(pattern@, text@, before)
            },
            None => !occurs_in(pattern@, text@),
        },
{
    if pattern.len() > text.len() {
        return None;
    }
    let last: usize = text.len() - pattern.len();
    let mut at: usize = 0;
    loop
        invariant
            last == text.len() - pattern.len(),
            at <= last,
            forall|before: int| 0 <= before < at ==> !occurs_at(pattern@, text@, before),
        decreases last - at,
    {
        if matches_at(text, pattern, at) {
            return Some(at);
        }
        if at == last {
            return None;
        }
        at += 1;
    }
}

/// Whether `pattern` stands somewhere in `text`.
pub fn contains(text: &Vec<char>, pattern: &Vec<char>) -> (found: bool)
    ensures
        found == occurs_in(pattern@, text@),
{
    find(text, pattern).is_some()
}

} // verus!
