//! Finding words among the pieces that lie between word boundaries.
use crate::segmentation::{char_is_whitespace, grapheme_clusters, graphemes, is_whitespace, texts};
use vstd::prelude::*;
use vstd::string::StringExecFns;

verus! {

broadcast use Seq::group_seq_flatten;

/// Whether `piece` holds nothing but white space.
pub open spec fn is_blank(piece: Seq<char>) -> bool {
    forall|i: int| 0 <= i < piece.len() ==> is_whitespace(#[trigger] piece[i])
}

/// The index of the first piece that is not blank, or the number of pieces
/// where all of them are.
pub open spec fn first_word(pieces: Seq<Seq<char>>) -> int
    decreases pieces.len(),
{
    if pieces.len() == 0 || !is_blank(pieces[0]) {
        0
    } else {
        1 + first_word(pieces.drop_first())
    }
}

/// The number of grapheme clusters of `text`.
pub open spec fn cluster_count(text: Seq<char>) -> int {
    grapheme_clusters(text).len() as int
}

/// `first_word` finds the first piece that is not blank.
pub proof fn lemma_first_word(pieces: Seq<Seq<char>>)
    ensures
        0 <= first_word(pieces) <= pieces.len(),
        forall|j: int| 0 <= j < first_word(pieces) ==> is_blank(#[trigger] pieces[j]),
        first_word(pieces) < pieces.len() ==> !is_blank(pieces[first_word(pieces)]),
    decreases pieces.len(),
{
    if pieces.len() == 0 || !is_blank(pieces[0]) {
    } else {
        let rest = pieces.drop_first();
        lemma_first_word(rest);
        assert forall|j: int| 0 <= j < first_word(pieces) implies is_blank(
            #[trigger] pieces[j],
        ) by {
            if j > 0 {
                assert(pieces[j] == rest[j - 1]);
            }
        }
        if first_word(rest) < rest.len() {
            assert(pieces[first_word(pieces)] == rest[first_word(rest)]);
        }
    }
}

/// A piece that is not blank, after blank ones only, is the first word.
pub proof fn lemma_first_word_is(pieces: Seq<Seq<char>>, k: int)
    requires
        0 <= k <= pieces.len(),
        forall|j: int| 0 <= j < k ==> is_blank(#[trigger] pieces[j]),
        k < pieces.len() ==> !is_blank(pieces[k]),
    ensures
        first_word(pieces) == k,
{
    lemma_first_word(pieces);
    let f = first_word(pieces);
    if f < k {
        assert(is_blank(pieces[f]));
    } else if k < f {
        assert(is_blank(pieces[k]));
    }
}

/// Tells whether `piece` holds nothing but white space.
#[verifier::loop_isolation(false)]
pub fn piece_is_blank(piece: &str) -> (blank: bool)
    ensures
        blank == is_blank(piece@),
{
    let mut blank = true;
    for c in it: piece.chars()
        invariant
            it.seq() == piece@,
            blank == is_blank(piece@.take(it.index() as int)),
    {
        proof {
            let seen = piece@.take(it.index() as int);
            let more = piece@.take(it.index() + 1);
            if is_blank(more) {
                assert forall|i: int| 0 <= i < seen.len() implies is_whitespace(
                    #[trigger] seen[i],
                ) by {
                    assert(is_whitespace(more[i]));
                }
            }
            assert(more[more.len() - 1] == c);
        }
        if !char_is_whitespace(c) {
            blank = false;
        }
    }
    assert(piece@.take(piece@.len() as int) == piece@);
    blank
}

/// Finds the first of `pieces` that is not blank.
///
/// Returns its index, or the number of pieces where all of them are blank.
pub fn find_first_word(pieces: &Vec<String>) -> (k: usize)
    ensures
        k == first_word(texts(pieces@)),
{
    let mut k: usize = 0;
    while k < pieces.len() && piece_is_blank(pieces[k].as_str())
        invariant
            k <= pieces@.len(),
            forall|j: int| 0 <= j < k ==> is_blank(#[trigger] texts(pieces@)[j]),
        decreases pieces@.len() - k,
    {
        k += 1;
    }
    proof {
        lemma_first_word_is(texts(pieces@), k as int);
    }
    k
}

/// Joins the first `k` of `pieces`, first piece first.
pub fn join(pieces: &Vec<String>, k: usize) -> (text: String)
    requires
        k <= pieces@.len(),
    ensures
        text@ == texts(pieces@).take(k as int).flatten(),
{
    let mut text = String::new();
    let mut i: usize = 0;
    while i < k
        invariant
            i <= k <= pieces@.len(),
            text@ == texts(pieces@).take(i as int).flatten(),
        decreases k - i,
    {
        proof {
            let all = texts(pieces@);
            assert(all.take(i + 1) == all.take(i as int).push(all[i as int]));
        }
        text.append(pieces[i].as_str());
        i += 1;
    }
    text
}

/// Joins the first `k` of `pieces`, last piece first.
pub fn join_back(pieces: &Vec<String>, k: usize) -> (text: String)
    requires
        k <= pieces@.len(),
    ensures
        text@ == texts(pieces@).take(k as int).reverse().flatten(),
{
    let mut text = String::new();
    let mut i: usize = k;
    while i > 0
        invariant
            i <= k <= pieces@.len(),
            text@ == texts(pieces@).take(k as int).skip(i as int).reverse().flatten(),
        decreases i,
    {
        proof {
            let head = texts(pieces@).take(k as int);
            assert(head.skip(i - 1).reverse() == head.skip(i as int).reverse().push(head[i - 1]));
        }
        i -= 1;
        text.append(pieces[i].as_str());
    }
    proof {
        let head = texts(pieces@).take(k as int);
        assert(head.skip(0) == head);
    }
    text
}

/// Counts the grapheme clusters of `text`.
pub fn count_clusters(text: &str) -> (n: usize)
    ensures
        n == cluster_count(text@),
{
    let clusters = graphemes(text);
    clusters.len()
}

} // verus!
