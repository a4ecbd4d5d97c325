//! Cutting Chinese text into words.

use vstd::prelude::*;
use crate::text::{byte_len, texts_of, trim, trimmed, utf8_len};

verus! {

/// The longest text, in bytes, that is handed to the segmenter, which keeps
/// positions in the text in 32 bits.
pub const MAX_CUT_BYTES: usize = 0xffff_ffff;

/// `jieba_rs::Jieba`, the segmenter with its dictionary, of which nothing is
/// looked into here.
#[verifier::external_type_specification]
#[verifier::external_body]
pub struct ExJieba(jieba_rs::Jieba);

/// A word segmenter with the dictionary that it comes with.
pub struct Segmenter {
    jieba: jieba_rs::Jieba,
}

/// The words into which `segmenter` cuts `text`, in their order, with or
/// without the help of its hidden Markov model for words that the dictionary
/// does not hold.
pub uninterp spec fn jieba_words(segmenter: Segmenter, text: Seq<char>, hmm: bool) -> Seq<
    Seq<char>,
>;

/// `Jieba::new`: a segmenter that holds the dictionary built into the crate.
#[verifier::external_body]
fn default_jieba() -> jieba_rs::Jieba {
    jieba_rs::Jieba::new()
}

/// `Jieba::cut`: the words of `text`, each copied out of its token. The
/// result depends on the segmenter's dictionary, on the text and on whether
/// the hidden Markov model is used. Positions in a text of more than
/// `MAX_CUT_BYTES` bytes do not fit the 32 bits in which they are kept, which
/// `requires` rules out.
#[verifier::external_body]
fn cut_words(segmenter: &Segmenter, text: &str, hmm: bool) -> (r: Vec<String>)
    requires
        utf8_len(text@) <= MAX_CUT_BYTES,
    ensures
        texts_of(r@) == jieba_words(*segmenter, text@, hmm),
{
    segmenter.jieba.cut(text, hmm).into_iter().map(|token| token.word.to_string()).collect()
}

impl Segmenter {
    /// Loads the dictionary.
    pub fn new() -> Segmenter {
        Segmenter { jieba: default_jieba() }
    }
}

/// Whether a word is kept: without the white space around it, it takes more
/// than one byte.
pub open spec fn is_kept(word: Seq<char>) -> bool {
    utf8_len(trimmed(word)) > 1
}

/// The words among `words` that are kept, in their order and as they are.
pub fn keep_words(words: Vec<String>) -> (r: Vec<String>)
    ensures
        texts_of(r@) == texts_of(words@).filter(|word: Seq<char>| is_kept(word)),
{
    let mut kept: Vec<String> = Vec::new();
    let mut i: usize = 0;
    let ghost keep = |word: Seq<char>| is_kept(word);
    assert(texts_of(words@).take(0) =~= Seq::<Seq<char>>::empty());
    assert(texts_of(kept@) =~= texts_of(words@).take(0).filter(keep));
    while i < words.len()
        invariant
            i <= words.len(),
            keep == |word: Seq<char>| is_kept(word),
            texts_of(kept@) == texts_of(words@).take(i as int).filter(keep),
        decreases words.len() - i,
    {
        proof {
            let all = texts_of(words@);
            assert(all.take(i + 1) =~= all.take(i as int).push(all[i as int]));
            all.take(i as int).lemma_filter_push(all[i as int], keep);
        }
        if byte_len(trim(words[i].as_str())) > 1 {
            let ghost before = kept@;
            kept.push(words[i].clone());
            assert(texts_of(kept@) =~= texts_of(before).push(words@[i as int]@));
        }
        i += 1;
    }
    assert(texts_of(words@).take(i as int) =~= texts_of(words@));
    kept
}

/// The words of `text`, without the white space around it, that are worth
/// looking up: those that are kept. The text is cut by the dictionary alone.
pub fn cut(segmenter: &Segmenter, text: &str) -> (r: Result<Vec<String>, ()>)
    requires
        utf8_len(trimmed(text@)) <= MAX_CUT_BYTES,
    ensures
        r matches Ok(words) && texts_of(words@) == jieba_words(
            *segmenter,
            trimmed(text@),
            false,
        ).filter(|word: Seq<char>| is_kept(word)),
{
    Ok(keep_words(cut_words(segmenter, trim(text), false)))
}

} // verus!
