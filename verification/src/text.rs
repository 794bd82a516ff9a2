//! Byte strings: copies, keywords, and splitting on single spaces.

use vstd::prelude::*;
use vstd::string::*;

verus! {

/// The byte that separates the words of a command.
pub const SPACE: u8 = 0x20;

/// A byte string that ends in NUL, as the host expects its text arguments.
pub open spec fn nul_terminated(text: Seq<u8>) -> bool {
    text.len() > 0 && text.last() == 0
}

/// The bytes of a string made of ASCII characters.
pub open spec fn ascii(text: Seq<char>) -> Seq<u8> {
    Seq::new(text.len(), |i: int| text[i] as u8)
}

/// The length of the word that `text` starts with: the number of bytes
/// before its first space, or all of them if it has none.
pub open spec fn word_len(text: Seq<u8>) -> nat
    decreases text.len(),
{
    if text.len() == 0 || text[0] == SPACE {
        0
    } else {
        1 + word_len(text.skip(1))
    }
}

/// The word of `text` at position `k`, counting from 0, where words are
/// separated by single spaces. Two spaces in a row enclose an empty word, and
/// a text without spaces is one word.
pub open spec fn token(text: Seq<u8>, k: nat) -> Option<Seq<u8>>
    decreases k,
{
    let n = word_len(text);
    if k == 0 {
        Some(text.take(n as int))
    } else if n >= text.len() {
        None
    } else {
        token(text.skip(n as int + 1), (k - 1) as nat)
    }
}

/// A word ends at the first space or at the end of the text.
pub proof fn lemma_word_len(text: Seq<u8>, n: int)
    requires
        0 <= n <= text.len(),
        forall|i: int| 0 <= i < n ==> text[i] != SPACE,
        n == text.len() || text[n] == SPACE,
    ensures
        word_len(text) == n,
    decreases n,
{
    if n > 0 {
        lemma_word_len(text.skip(1), n - 1);
    }
}

/// Copies the bytes from `start` up to `end`.
pub fn copy_range(bytes: &[u8], start: usize, end: usize) -> (copy: Vec<u8>)
    requires
        start <= end <= bytes@.len(),
    ensures
        copy@ == bytes@.subrange(start as int, end as int),
{
    let mut copy: Vec<u8> = Vec::new();
    let mut i: usize = start;
    while i < end
        invariant
            start <= i <= end <= bytes@.len(),
            copy@ == bytes@.subrange(start as int, i as int),
        decreases end - i,
    {
        copy.push(bytes[i]);
        assert(bytes@.subrange(start as int, i + 1) =~= bytes@.subrange(
            start as int,
            i as int,
        ).push(bytes@[i as int]));
        i = i + 1;
    }
    copy
}

/// Copies a byte slice.
pub fn copy_bytes(bytes: &[u8]) -> (copy: Vec<u8>)
    ensures
        copy@ == bytes@,
{
    assert(bytes@.subrange(0, bytes@.len() as int) =~= bytes@);
    copy_range(bytes, 0, bytes.len())
}

/// Whether two byte strings are the same.
pub fn same_bytes(a: &[u8], b: &[u8]) -> (same: bool)
    ensures
        same == (a@ == b@),
{
    if a.len() != b.len() {
        return false;
    }
    let mut i: usize = 0;
    while i < a.len()
        invariant
            a@.len() == b@.len(),
            i <= a@.len(),
            forall|j: int| 0 <= j < i ==> a@[j] == b@[j],
        decreases a@.len() - i,
    {
        if a[i] != b[i] {
            return false;
        }
        i = i + 1;
    }
    assert(a@ =~= b@);
    true
}

/// Whether `word` spells the ASCII keyword `keyword`.
pub fn spells(word: &[u8], keyword: &str) -> (same: bool)
    requires
        is_ascii(keyword),
    ensures
        same == (word@ == ascii(keyword@)),
{
    proof {
        is_ascii_spec_bytes(keyword);
    }
    same_bytes(word, keyword.as_bytes())
}

/// The word of `text` at position `k`, counting from 0, where words are
/// separated by single spaces; `None` if the text has fewer words.
pub fn token_at(text: &[u8], k: usize) -> (word: Option<Vec<u8>>)
    ensures
        match word {
            Some(w) => token(text@, k as nat) == Some(w@),
            None => token(text@, k as nat) is None,
        },
{
    let len: usize = text.len();
    let mut start: usize = 0;
    let mut j: usize = 0;
    assert(text@.skip(0) =~= text@);
    loop
        invariant
            len == text@.len(),
            start <= len,
            j <= k,
            token(text@, k as nat) == token(text@.skip(start as int), (k - j) as nat),
        decreases k - j,
    {
        let ghost rest = text@.skip(start as int);
        let mut end: usize = start;
        while end < len && text[end] != SPACE
            invariant
                len == text@.len(),
                start <= end <= len,
                forall|i: int| start <= i < end ==> text@[i] != SPACE,
            decreases len - end,
        {
            end = end + 1;
        }
        proof {
            lemma_word_len(rest, end - start);
        }
        if j == k {
            let word = copy_range(text, start, end);
            assert(rest.take(end - start) =~= text@.subrange(start as int, end as int));
            return Some(word);
        }
        if end == len {
            return None;
        }
        assert(rest.skip(end - start + 1) =~= text@.skip(end + 1));
        start = end + 1;
        j = j + 1;
    }
}

} // verus!
