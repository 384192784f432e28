//! Auto-responder policy: decides whether an inbound human message warrants
//! an automated reply.
//!
//! The decision is a deliberately low-precision substring heuristic: a body
//! triggers a reply when it contains a literal `?`, or when its lowercased
//! text contains any word of a fixed trigger vocabulary as a substring (not
//! at word boundaries — "hi" inside "this" triggers). That behaviour is
//! preserved exactly, not improved.

use vstd::prelude::*;

verus! {

/// True when `needle` occurs as a contiguous run of characters in `hay`.
pub open spec fn contains_seq(hay: Seq<char>, needle: Seq<char>) -> bool {
    exists|i: int|
        0 <= i <= hay.len() - needle.len() && #[trigger] hay.subrange(i, i + needle.len())
            == needle
}

/// Compares one candidate position: does `needle` stand at `start` in `hay`?
fn match_at(hay: &str, hay_len: usize, needle: &str, needle_len: usize, start: usize) -> (r: bool)
    requires
        hay_len == hay@.len(),
        needle_len == needle@.len(),
        start + needle_len <= hay_len,
    ensures
        r == (hay@.subrange(start as int, start + needle@.len() as int) == needle@),
{
    let mut j: usize = 0;
    while j < needle_len
        invariant
            hay_len == hay@.len(),
            needle_len == needle@.len(),
            start + needle_len <= hay_len,
            0 <= j <= needle_len,
            forall|k: int| 0 <= k < j ==> hay@[start + k] == needle@[k],
        decreases needle_len - j,
    {
        if hay.get_char(start + j) != needle.get_char(j) {
            assert(hay@.subrange(start as int, start + needle@.len() as int)[j as int]
                != needle@[j as int]);
            return false;
        }
        j = j + 1;
    }
    proof {
        assert(hay@.subrange(start as int, start + needle@.len() as int) =~= needle@);
    }
    true
}

/// Substring search over characters, exact to `contains_seq`.
pub fn contains_str(hay: &str, needle: &str) -> (r: bool)
    ensures
        r == contains_seq(hay@, needle@),
{
    let hay_len = hay.unicode_len();
    let needle_len = needle.unicode_len();
    if needle_len > hay_len {
        return false;
    }
    if needle_len == 0 {
        proof {
            assert(hay@.subrange(0, 0 + needle@.len() as int) =~= needle@);
        }
        return true;
    }
    let mut start: usize = 0;
    while start <= hay_len - needle_len
        invariant
            hay_len == hay@.len(),
            needle_len == needle@.len(),
            1 <= needle_len <= hay_len,
            0 <= start <= hay_len - needle_len + 1,
            forall|i: int|
                0 <= i < start ==> #[trigger] hay@.subrange(i, i + needle@.len() as int)
                    != needle@,
        decreases hay_len - needle_len - start + 1,
    {
        if match_at(hay, hay_len, needle, needle_len, start) {
            return true;
        }
        start = start + 1;
    }
    false
}

/// Scans for one character, exact to `Seq::contains`.
fn contains_char(s: &str, c: char) -> (r: bool)
    ensures
        r == s@.contains(c),
{
    let len = s.unicode_len();
    let mut i: usize = 0;
    while i < len
        invariant
            len == s@.len(),
            0 <= i <= len,
            forall|k: int| 0 <= k < i ==> s@[k] != c,
        decreases len - i,
    {
        if s.get_char(i) == c {
            return true;
        }
        i = i + 1;
    }
    false
}

/// What `str::to_lowercase` returns for a given character sequence.
pub uninterp spec fn lower_of(s: Seq<char>) -> Seq<char>;

/// Relies on str::to_lowercase: the lowercased text is a function of the
/// input characters alone.
#[verifier::external_body]
fn lowercase(s: &str) -> (r: String)
    ensures
        r@ == lower_of(s@),
{
    s.to_lowercase()
}

/// True when the lowercased body contains any word of the fixed trigger
/// vocabulary as a substring.
pub open spec fn trigger_hit(lowered: Seq<char>) -> bool {
    ||| contains_seq(lowered, "ai"@)
    ||| contains_seq(lowered, "bot"@)
    ||| contains_seq(lowered, "assistant"@)
    ||| contains_seq(lowered, "help"@)
    ||| contains_seq(lowered, "hello"@)
    ||| contains_seq(lowered, "hi"@)
    ||| contains_seq(lowered, "hey"@)
    ||| contains_seq(lowered, "what"@)
    ||| contains_seq(lowered, "how"@)
    ||| contains_seq(lowered, "why"@)
    ||| contains_seq(lowered, "when"@)
    ||| contains_seq(lowered, "where"@)
    ||| contains_seq(lowered, "who"@)
    ||| contains_seq(lowered, "can you"@)
    ||| contains_seq(lowered, "please"@)
    ||| contains_seq(lowered, "thanks"@)
    ||| contains_seq(lowered, "thank you"@)
}

/// The auto-responder's decision for a message body: a literal `?`
/// anywhere, or a trigger-vocabulary hit in the lowercased body.
pub open spec fn spec_should_respond(body: Seq<char>) -> bool {
    body.contains('?') || trigger_hit(lower_of(body))
}

/// Decides whether the assistant answers `message`.
pub fn should_ai_respond(message: &str) -> (r: bool)
    ensures
        r == spec_should_respond(message@),
{
    if contains_char(message, '?') {
        return true;
    }
    let lowered = lowercase(message);
    let l = lowered.as_str();
    contains_str(l, "ai") || contains_str(l, "bot") || contains_str(l, "assistant")
        || contains_str(l, "help") || contains_str(l, "hello") || contains_str(l, "hi")
        || contains_str(l, "hey") || contains_str(l, "what") || contains_str(l, "how")
        || contains_str(l, "why") || contains_str(l, "when") || contains_str(l, "where")
        || contains_str(l, "who") || contains_str(l, "can you") || contains_str(l, "please")
        || contains_str(l, "thanks") || contains_str(l, "thank you")
}

/// The trigger heuristic is pure: equal message bodies always yield equal
/// decisions.
pub proof fn lemma_should_respond_deterministic(a: Seq<char>, b: Seq<char>)
    requires
        a == b,
    ensures
        spec_should_respond(a) == spec_should_respond(b),
{
}

} // verus!
