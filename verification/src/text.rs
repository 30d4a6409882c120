//! Lines of the protocol as bytes: splitting at spaces, joining with
//! spaces, comparing with a word.

use vstd::prelude::*;

verus! {

/// The byte that parts the words of a line.
pub const SPACE: u8 = 32;

/// The bytes of a text.
pub open spec fn bytes_of(text: Seq<char>) -> Seq<u8> {
    vstd::utf8::encode_utf8(text)
}

/// The bytes of a word of the protocol.
pub open spec fn word(text: &str) -> Seq<u8> {
    bytes_of(text@)
}

/// The words of a line: what stands between its spaces, before the first
/// and after the last. A line without a space is one word, the empty line
/// one empty word, and two spaces in a row have an empty word between them.
pub open spec fn split_spec(line: Seq<u8>) -> Seq<Seq<u8>>
    decreases line.len(),
{
    if line.len() == 0 {
        seq![Seq::empty()]
    } else {
        let before = split_spec(line.drop_last());
        if line.last() == SPACE {
            before.push(Seq::empty())
        } else {
            before.drop_last().push(before.last().push(line.last()))
        }
    }
}

/// Words put together again, with one space between each two.
pub open spec fn join_spec(words: Seq<Seq<u8>>) -> Seq<u8>
    decreases words.len(),
{
    if words.len() == 0 {
        Seq::empty()
    } else if words.len() == 1 {
        words[0]
    } else {
        join_spec(words.drop_last()) + seq![SPACE] + words.last()
    }
}

/// What each of some vectors holds.
pub open spec fn texts(words: Seq<Vec<u8>>) -> Seq<Seq<u8>> {
    Seq::new(words.len(), |i: int| words[i]@)
}

/// Splitting loses nothing and leaves no space: a line has at least one
/// word, no word holds a space, and the words joined are the line.
pub proof fn lemma_split_join(line: Seq<u8>)
    ensures
        split_spec(line).len() >= 1,
        forall|i: int, j: int|
            0 <= i < split_spec(line).len() && 0 <= j < split_spec(line)[i].len() ==> (
            #[trigger] split_spec(line)[i][j]) != SPACE,
        join_spec(split_spec(line)) == line,
    decreases line.len(),
{
    if line.len() > 0 {
        let shorter = line.drop_last();
        lemma_split_join(shorter);
        let before = split_spec(shorter);
        if line.last() == SPACE {
            let words = before.push(Seq::empty());
            assert(words.drop_last() =~= before);
        } else {
            let grown = before.last().push(line.last());
            let words = before.drop_last().push(grown);
            assert(words.drop_last() =~= before.drop_last());
            assert(line =~= shorter.push(line.last()));
        }
    }
}

/// Whether two runs of bytes are the same.
pub fn same_bytes(a: &[u8], b: &[u8]) -> (same: bool)
    ensures
        same == (a@ == b@),
{
    if a.len() != b.len() {
        return false;
    }
    let mut i: usize = 0;
    while i < a.len()
        invariant
            i <= a.len(),
            a.len() == b.len(),
            forall|j: int| 0 <= j < i ==> a@[j] == b@[j],
        decreases a.len() - i,
    {
        if a[i] != b[i] {
            return false;
        }
        i = i + 1;
    }
    assert(a@ =~= b@);
    true
}

/// Whether `token` is the word `text`.
pub fn is_word(token: &Vec<u8>, text: &str) -> (same: bool)
    ensures
        same == (token@ == word(text)),
{
    same_bytes(token.as_slice(), text.as_bytes())
}

/// Splits a line at its spaces.
pub fn split_line(line: &[u8]) -> (words: Vec<Vec<u8>>)
    ensures
        texts(words@) == split_spec(line@),
        words.len() >= 1,
{
    let mut words: Vec<Vec<u8>> = Vec::new();
    let mut current: Vec<u8> = Vec::new();
    let mut i: usize = 0;
    while i < line.len()
        invariant
            i <= line.len(),
            split_spec(line@.take(i as int)) == texts(words@).push(current@),
        decreases line.len() - i,
    {
        let byte = line[i];
        let ghost before = texts(words@).push(current@);
        assert(line@.take(i + 1).drop_last() =~= line@.take(i as int));
        if byte == SPACE {
            words.push(current);
            current = Vec::new();
        } else {
            current.push(byte);
            assert(texts(words@).push(current@) =~= before.drop_last().push(
                before.last().push(byte),
            ));
        }
        i = i + 1;
    }
    assert(line@.take(i as int) =~= line@);
    words.push(current);
    words
}

} // verus!
