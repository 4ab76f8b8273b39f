//! What holds of every value, whatever its clusters are.
use crate::segmentation::grapheme_clusters;
use crate::text_input::value::{masked, text_with};
use vstd::prelude::*;
use vstd::seq_lib::lemma_flatten_concat;

verus! {

/// The text of the first `index` clusters is a prefix of the whole text, and
/// the rest of the text is that of the other clusters: a prefix of a value
/// never ends within a cluster.
pub proof fn lemma_prefix_ends_between_clusters(clusters: Seq<Seq<char>>, index: int)
    requires
        0 <= index <= clusters.len(),
    ensures
        clusters.take(index).flatten().is_prefix_of(clusters.flatten()),
        clusters.flatten() == clusters.take(index).flatten() + clusters.skip(index).flatten(),
{
    lemma_flatten_concat(clusters.take(index), clusters.skip(index));
    assert(clusters.take(index) + clusters.skip(index) == clusters);
}

/// Hiding keeps the number of clusters, and hiding what is hidden already
/// changes nothing.
pub proof fn lemma_masked_once_is_enough(clusters: Seq<Seq<char>>)
    ensures
        masked(clusters).len() == clusters.len(),
        masked(masked(clusters)) == masked(clusters),
{
}

/// Where a character that went in before the cluster at `index` stands as a
/// cluster of its own and leaves the others as they were, removing the
/// cluster at `index` gives the clusters back that were there before.
pub proof fn lemma_remove_undoes_insert(clusters: Seq<Seq<char>>, index: int, c: char)
    requires
        0 <= index <= clusters.len(),
        grapheme_clusters(text_with(clusters, index, c)) == clusters.insert(index, seq![c]),
    ensures
        grapheme_clusters(text_with(clusters, index, c)).remove(index) == clusters,
        grapheme_clusters(text_with(clusters, index, c)).remove(index).len() == clusters.len(),
{
}

} // verus!
