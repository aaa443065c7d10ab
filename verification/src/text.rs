//! Character-level vocabulary of the wire protocol: line terminators, the
//! leading token of a line, and case folding.
//!
//! Every line is modelled as a `Seq<char>`. The executable helpers below work
//! on `&str` and are specified against those sequences.
use vstd::prelude::*;

verus! {

/// The ASCII lower-case form of a character. Characters outside `A`..=`Z`
/// are left as they are.
pub open spec fn ascii_lower(c: char) -> char {
    if 'A' <= c && c <= 'Z' {
        ((c as int) + 32) as char
    } else {
        c
    }
}

/// A sequence with every character folded to ASCII lower case.
pub open spec fn lowercase(s: Seq<char>) -> Seq<char> {
    Seq::new(s.len(), |i: int| ascii_lower(s[i]))
}

/// Whether a line ends with the two-character terminator, carriage return
/// then line feed.
pub open spec fn ends_with_crlf(line: Seq<char>) -> bool {
    line.len() >= 2 && line[line.len() - 2] == '\r' && line[line.len() - 1] == '\n'
}

/// The content of a line: the line without its trailing terminator. A line
/// that does not end with the terminator is its own content.
pub open spec fn strip_terminator(line: Seq<char>) -> Seq<char> {
    if ends_with_crlf(line) {
        line.take(line.len() - 2)
    } else {
        line
    }
}

/// Length of the leading run of characters other than the space character.
pub open spec fn token_len(s: Seq<char>) -> nat
    decreases s.len(),
{
    if s.len() == 0 || s[0] == ' ' {
        0
    } else {
        1 + token_len(s.drop_first())
    }
}

/// The leading run of non-space characters: the keyword candidate of a line.
pub open spec fn first_token(s: Seq<char>) -> Seq<char> {
    s.take(token_len(s) as int)
}

/// What follows the leading token once exactly one separator character has
/// been removed. Empty when nothing follows the token.
pub open spec fn after_token(s: Seq<char>) -> Seq<char> {
    if token_len(s) < s.len() {
        s.skip(token_len(s) as int + 1)
    } else {
        Seq::empty()
    }
}

/// Whether `s` begins with `tag`, compared without regard to ASCII case.
/// `tag` is expected in lower case.
pub open spec fn has_tag(s: Seq<char>, tag: Seq<char>) -> bool {
    tag.len() <= s.len() && lowercase(s.take(tag.len() as int)) == tag
}

/// `s` without a leading `tag`, or `s` itself when it does not begin with it.
pub open spec fn without_tag(s: Seq<char>, tag: Seq<char>) -> Seq<char> {
    if has_tag(s, tag) {
        s.skip(tag.len() as int)
    } else {
        s
    }
}

/// The token ends at the first space or at the end of the sequence, and holds
/// no space itself.
pub proof fn lemma_token_len_bounds(s: Seq<char>)
    ensures
        token_len(s) <= s.len(),
        forall|i: int| 0 <= i < token_len(s) ==> s[i] != ' ',
        token_len(s) < s.len() ==> s[token_len(s) as int] == ' ',
    decreases s.len(),
{
    if s.len() == 0 || s[0] == ' ' {
    } else {
        let t = s.drop_first();
        lemma_token_len_bounds(t);
        assert forall|i: int| 0 <= i < token_len(s) implies s[i] != ' ' by {
            if i > 0 {
                assert(s[i] == t[i - 1]);
            }
        }
        if token_len(s) < s.len() {
            assert(s[token_len(s) as int] == t[token_len(t) as int]);
        }
    }
}

/// A position that is preceded by no space and is either the end of the
/// sequence or a space is the end of the token.
pub proof fn lemma_token_len_unique(s: Seq<char>, n: nat)
    requires
        n <= s.len(),
        forall|i: int| 0 <= i < n ==> s[i] != ' ',
        n < s.len() ==> s[n as int] == ' ',
    ensures
        token_len(s) == n,
{
    lemma_token_len_bounds(s);
    let m = token_len(s);
    if m < n {
        assert(s[m as int] == ' ');
    } else if n < m {
        assert(s[n as int] != ' ');
    }
}

/// Folds one character to ASCII lower case.
pub fn to_ascii_lower(c: char) -> (r: char)
    ensures
        r == ascii_lower(c),
{
    if 'A' <= c && c <= 'Z' {
        ((c as u8) + 32u8) as char
    } else {
        c
    }
}

/// The number of characters of `line` that belong to its content, that is
/// the length of the line without its trailing terminator.
pub fn content_len(line: &str) -> (end: usize)
    ensures
        end == strip_terminator(line@).len(),
        strip_terminator(line@) == line@.take(end as int),
{
    let n = line.unicode_len();
    if n >= 2 && line.get_char(n - 2) == '\r' && line.get_char(n - 1) == '\n' {
        n - 2
    } else {
        assert(line@.take(n as int) =~= line@);
        n
    }
}

/// Whether `s` begins with `tag` when ASCII case is ignored.
pub fn starts_with_tag(s: &str, tag: &str) -> (r: bool)
    ensures
        r == has_tag(s@, tag@),
{
    let n = s.unicode_len();
    let k = tag.unicode_len();
    if n < k {
        return false;
    }
    let mut i: usize = 0;
    while i < k
        invariant
            i <= k,
            k == tag@.len(),
            k <= s@.len(),
            forall|j: int| 0 <= j < i ==> ascii_lower(s@[j]) == tag@[j],
        decreases k - i,
    {
        let c = to_ascii_lower(s.get_char(i));
        if c != tag.get_char(i) {
            proof {
                assert(lowercase(s@.take(k as int))[i as int] == ascii_lower(s@[i as int]));
            }
            return false;
        }
        i += 1;
    }
    proof {
        assert(lowercase(s@.take(k as int)) =~= tag@);
    }
    true
}

/// `s` without a leading `tag`, where the tag is recognised without regard
/// to ASCII case; `s` itself when it does not begin with the tag.
pub fn strip_tag<'a>(s: &'a str, tag: &str) -> (r: &'a str)
    ensures
        r@ == without_tag(s@, tag@),
{
    if starts_with_tag(s, tag) {
        let k = tag.unicode_len();
        let n = s.unicode_len();
        let r = s.substring_char(k, n);
        proof {
            assert(s@.subrange(k as int, n as int) =~= s@.skip(k as int));
        }
        r
    } else {
        s
    }
}

} // verus!
