//! The content of a text field.
use crate::segmentation::{
    grapheme_clusters, graphemes, push_char, split_on_word_bounds, split_on_word_bounds_back, texts,
    word_bounds, word_bounds_back,
};
use crate::text_input::words::{
    cluster_count, count_clusters, find_first_word, first_word, join, join_back,
};
use vstd::prelude::*;
use vstd::seq_lib::lemma_flatten_concat;
use vstd::string::StringExecFns;

verus! {

broadcast use Seq::group_seq_flatten;

/// The glyph that stands for every cluster of a secure value.
pub const BULLET: char = '\u{2022}';

/// Why a [`Value`] refused an edit.
#[derive(Debug, Clone, Copy, PartialEq, Eq, Structural)]
pub enum Error {
    /// The index does not address a place in the value.
    IndexOutOfRange,
}

/// The lesser of `index` and `len`.
pub open spec fn clamped(index: int, len: int) -> int {
    if index < len {
        index
    } else {
        len
    }
}

/// A value of `clusters.len()` clusters, each of them the [`BULLET`].
pub open spec fn masked(clusters: Seq<Seq<char>>) -> Seq<Seq<char>> {
    Seq::new(clusters.len(), |i: int| seq![BULLET])
}

/// The clusters with those of `other` spliced in before the cluster at
/// `index`.
pub open spec fn spliced(clusters: Seq<Seq<char>>, index: int, other: Seq<Seq<char>>) -> Seq<
    Seq<char>,
> {
    clusters.take(index) + other + clusters.skip(index)
}

/// The text of the clusters once `c` stands before the cluster at `index`.
pub open spec fn text_with(clusters: Seq<Seq<char>>, index: int, c: char) -> Seq<char> {
    clusters.insert(index, seq![c]).flatten()
}

/// Where the word starts that ends at or before the cluster at `index`, or
/// 0 where no word does.
///
/// The text before `index` is split on word boundaries from its end. The
/// first piece so met that is not blank is the word. The place is `index`
/// less the clusters of the word and of what follows the word.
pub open spec fn word_start_before(clusters: Seq<Seq<char>>, index: int) -> int {
    let end = clamped(index, clusters.len() as int);
    let pieces = word_bounds_back(clusters.take(end).flatten());
    let k = first_word(pieces);
    if k < pieces.len() {
        index - cluster_count(pieces[k]) - cluster_count(pieces.take(k).reverse().flatten())
    } else {
        0
    }
}

/// Where the word ends that starts at or after the cluster at `index`, or
/// the number of clusters where no word does.
///
/// The text from `index` on is split on word boundaries from its start. The
/// first piece so met that is not blank is the word. The place is `index`
/// plus the clusters of the word and of what precedes the word.
pub open spec fn word_end_after(clusters: Seq<Seq<char>>, index: int) -> int {
    let pieces = word_bounds(clusters.skip(index).flatten());
    let k = first_word(pieces);
    if k < pieces.len() {
        index + cluster_count(pieces[k]) + cluster_count(pieces.take(k).flatten())
    } else {
        clusters.len() as int
    }
}

/// The value of a text field: a sequence of grapheme clusters.
///
/// Every index into a `Value` counts clusters, never bytes or scalar values.
#[derive(Debug)]
pub struct Value {
    graphemes: Vec<String>,
}

impl View for Value {
    type V = Seq<Seq<char>>;

    /// The clusters, each as the scalar values it is made of.
    closed spec fn view(&self) -> Seq<Seq<char>> {
        texts(self.graphemes@)
    }
}

/// Whether the clusters are those into which their own text splits.
///
/// It holds of a value that was made of a text and of one that a character
/// went into. Splicing, removing, hiding and taking a prefix do not split
/// anew, so it need not hold after them.
pub open spec fn is_segmented(clusters: Seq<Seq<char>>) -> bool {
    grapheme_clusters(clusters.flatten()) == clusters
}

/// Whether each of the clusters holds at least one scalar value.
pub open spec fn well_formed(clusters: Seq<Seq<char>>) -> bool {
    forall|i: int| 0 <= i < clusters.len() ==> (#[trigger] clusters[i]).len() > 0
}

impl Clone for Value {
    /// A value of its own with the same clusters.
    fn clone(&self) -> (copy: Value)
        ensures
            copy@ == self@,
            copy@.len() <= usize::MAX,
            well_formed(copy@),
    {
        self.until(self.graphemes.len())
    }
}

impl Value {
    /// No cluster of a value is empty.
    #[verifier::type_invariant]
    spec fn no_cluster_is_empty(&self) -> bool {
        well_formed(texts(self.graphemes@))
    }

    /// The text that the clusters spell.
    pub open spec fn text(&self) -> Seq<char> {
        self@.flatten()
    }

    /// Creates a value from `string`, split into extended grapheme clusters.
    pub fn new(string: &str) -> (value: Value)
        ensures
            value@ == grapheme_clusters(string@),
            value.text() == string@,
            is_segmented(value@),
            value@.len() <= usize::MAX,
            well_formed(value@),
    {
        let graphemes = graphemes(string);
        assert(graphemes.len() == graphemes@.len());
        Value { graphemes }
    }

    /// The number of clusters.
    pub fn len(&self) -> (n: usize)
        ensures
            n == self@.len(),
    {
        self.graphemes.len()
    }

    /// A new value that holds the clusters before `index`, or all of them
    /// where `index` lies beyond the end.
    pub fn until(&self, index: usize) -> (prefix: Value)
        ensures
            prefix@ == self@.take(clamped(index as int, self@.len() as int)),
            prefix@.len() <= usize::MAX,
            well_formed(prefix@),
    {
        proof {
            use_type_invariant(self);
        }
        let end = if index < self.graphemes.len() {
            index
        } else {
            self.graphemes.len()
        };
        let mut graphemes: Vec<String> = Vec::new();
        let mut i: usize = 0;
        while i < end
            invariant
                i <= end <= self.graphemes@.len(),
                texts(graphemes@) == texts(self.graphemes@).take(i as int),
            decreases end - i,
        {
            let cluster = self.graphemes[i].clone();
            proof {
                let all = texts(self.graphemes@);
                assert(all.take(i + 1) =~= all.take(i as int).push(all[i as int]));
            }
            graphemes.push(cluster);
            i += 1;
        }
        Value { graphemes }
    }

    /// The text of the value: its clusters, one after the other.
    pub fn to_string(&self) -> (text: String)
        ensures
            text@ == self.text(),
    {
        let mut text = String::new();
        let mut i: usize = 0;
        while i < self.graphemes.len()
            invariant
                i <= self.graphemes@.len(),
                text@ == texts(self.graphemes@).take(i as int).flatten(),
            decreases self.graphemes@.len() - i,
        {
            proof {
                let all = texts(self.graphemes@);
                assert(all.take(i + 1) == all.take(i as int).push(all[i as int]));
            }
            text.append(self.graphemes[i].as_str());
            i += 1;
        }
        proof {
            let all = texts(self.graphemes@);
            assert(all.take(i as int) == all);
        }
        text
    }

    /// The text of the clusters from `index` on.
    fn text_from(&self, index: usize) -> (text: String)
        requires
            index <= self@.len(),
        ensures
            text@ == self@.skip(index as int).flatten(),
    {
        let mut text = String::new();
        let mut i: usize = index;
        while i < self.graphemes.len()
            invariant
                index <= i <= self.graphemes@.len(),
                text@ == texts(self.graphemes@).subrange(index as int, i as int).flatten(),
            decreases self.graphemes@.len() - i,
        {
            proof {
                let all = texts(self.graphemes@);
                assert(all.subrange(index as int, i + 1) == all.subrange(
                    index as int,
                    i as int,
                ).push(all[i as int]));
            }
            text.append(self.graphemes[i].as_str());
            i += 1;
        }
        text
    }

    /// The clusters of the word before `index` and of what follows it, where
    /// there is such a word.
    fn word_before(&self, index: usize) -> (counts: Option<(usize, usize)>)
        ensures
            ({
                let end = clamped(index as int, self@.len() as int);
                let pieces = word_bounds_back(self@.take(end).flatten());
                let k = first_word(pieces);
                match counts {
                    Some((word, rest)) => {
                        &&& k < pieces.len()
                        &&& word == cluster_count(pieces[k])
                        &&& rest == cluster_count(pieces.take(k).reverse().flatten())
                    },
                    None => k >= pieces.len(),
                }
            }),
    {
        let before = self.until(index).to_string();
        let pieces = split_on_word_bounds_back(before.as_str());
        let k = find_first_word(&pieces);
        if k < pieces.len() {
            let word = count_clusters(pieces[k].as_str());
            let rest = count_clusters(join_back(&pieces, k).as_str());
            Some((word, rest))
        } else {
            None
        }
    }

    /// The clusters of the word after `index` and of what precedes it, where
    /// there is such a word.
    fn word_after(&self, index: usize) -> (counts: Option<(usize, usize)>)
        requires
            index <= self@.len(),
        ensures
            ({
                let pieces = word_bounds(self@.skip(index as int).flatten());
                let k = first_word(pieces);
                match counts {
                    Some((word, rest)) => {
                        &&& k < pieces.len()
                        &&& word == cluster_count(pieces[k])
                        &&& rest == cluster_count(pieces.take(k).flatten())
                    },
                    None => k >= pieces.len(),
                }
            }),
    {
        let after = self.text_from(index);
        let pieces = split_on_word_bounds(after.as_str());
        let k = find_first_word(&pieces);
        if k < pieces.len() {
            let word = count_clusters(pieces[k].as_str());
            let rest = count_clusters(join(&pieces, k).as_str());
            Some((word, rest))
        } else {
            None
        }
    }

    /// The index at which the word starts that precedes the cluster at
    /// `index`, or 0 where only white space precedes it.
    ///
    /// The clusters of that word and of what follows it must not outnumber
    /// `index`: see [`Value::checked_previous_start_of_word`].
    pub fn previous_start_of_word(&self, index: usize) -> (start: usize)
        requires
            word_start_before(self@, index as int) >= 0,
        ensures
            start == word_start_before(self@, index as int),
            start <= index,
    {
        match self.word_before(index) {
            Some((word, rest)) => index - word - rest,
            None => 0,
        }
    }

    /// The index at which the word starts that precedes the cluster at
    /// `index`, or 0 where only white space precedes it.
    ///
    /// `None` where the clusters of that word and of what follows it
    /// outnumber `index`, so that there is no such place.
    pub fn checked_previous_start_of_word(&self, index: usize) -> (start: Option<usize>)
        ensures
            word_start_before(self@, index as int) >= 0 ==> start == Some(
                word_start_before(self@, index as int) as usize,
            ),
            word_start_before(self@, index as int) < 0 ==> start.is_none(),
            start.is_some() ==> start.unwrap() <= index,
    {
        let fits = match self.word_before(index) {
            Some((word, rest)) => word <= index && rest <= index - word,
            None => true,
        };
        if fits {
            Some(self.previous_start_of_word(index))
        } else {
            None
        }
    }

    /// The index at which the word ends that follows the cluster at `index`,
    /// or the number of clusters where only white space follows it.
    ///
    /// The place must be one that a `usize` can hold: see
    /// [`Value::checked_next_end_of_word`].
    pub fn next_end_of_word(&self, index: usize) -> (end: usize)
        requires
            index <= self@.len(),
            word_end_after(self@, index as int) <= usize::MAX,
        ensures
            end == word_end_after(self@, index as int),
            index <= end,
    {
        match self.word_after(index) {
            Some((word, rest)) => index + word + rest,
            None => self.len(),
        }
    }

    /// The index at which the word ends that follows the cluster at `index`,
    /// or the number of clusters where only white space follows it.
    ///
    /// `None` where `index` lies beyond the end, or where no `usize` can hold
    /// the place.
    pub fn checked_next_end_of_word(&self, index: usize) -> (end: Option<usize>)
        ensures
            index <= self@.len() && word_end_after(self@, index as int) <= usize::MAX ==> end
                == Some(word_end_after(self@, index as int) as usize),
            index > self@.len() || word_end_after(self@, index as int) > usize::MAX
                ==> end.is_none(),
            end.is_some() ==> index <= end.unwrap(),
    {
        if index > self.len() {
            return None;
        }
        let fits = match self.word_after(index) {
            Some((word, rest)) => word <= usize::MAX - index && rest <= usize::MAX - index - word,
            None => true,
        };
        if fits {
            Some(self.next_end_of_word(index))
        } else {
            None
        }
    }

    /// Inserts `c` before the cluster at `index`, then splits the whole text
    /// into clusters anew, since `c` may join a cluster next to it.
    ///
    /// Refuses an `index` beyond the end and leaves the value as it was.
    pub fn insert(&mut self, index: usize, c: char) -> (result: Result<(), Error>)
        ensures
            final(self)@.len() <= usize::MAX,
            well_formed(final(self)@),
            index <= old(self)@.len() ==> {
                &&& result is Ok
                &&& final(self)@ == grapheme_clusters(text_with(old(self)@, index as int, c))
                &&& final(self).text() == text_with(old(self)@, index as int, c)
                &&& is_segmented(final(self)@)
            },
            index > old(self)@.len() ==> {
                &&& result == Err::<(), Error>(Error::IndexOutOfRange)
                &&& final(self)@ == old(self)@
            },
    {
        proof {
            use_type_invariant(&*self);
        }
        if index > self.graphemes.len() {
            return Err(Error::IndexOutOfRange);
        }
        let mut text = self.until(index).to_string();
        push_char(&mut text, c);
        text.append(self.text_from(index).as_str());
        proof {
            let before = self@;
            let at = index as int;
            let head = before.take(at);
            let tail = before.skip(at);
            lemma_flatten_concat(head.push(seq![c]), tail);
            assert(head.flatten().push(c) =~= head.flatten() + seq![c]);
        }
        let graphemes = graphemes(text.as_str());
        assert(graphemes.len() == graphemes@.len());
        self.graphemes = graphemes;
        Ok(())
    }

    /// Splices the clusters of `value` in before the cluster at `index`,
    /// without splitting anything anew.
    ///
    /// Refuses an `index` beyond the end and leaves the value as it was.
    pub fn insert_many(&mut self, index: usize, value: Value) -> (result: Result<(), Error>)
        ensures
            final(self)@.len() <= usize::MAX,
            well_formed(final(self)@),
            index <= old(self)@.len() ==> {
                &&& result is Ok
                &&& final(self)@ == spliced(old(self)@, index as int, value@)
            },
            index > old(self)@.len() ==> {
                &&& result == Err::<(), Error>(Error::IndexOutOfRange)
                &&& final(self)@ == old(self)@
            },
    {
        proof {
            use_type_invariant(&*self);
            use_type_invariant(&value);
        }
        if index > self.graphemes.len() {
            return Err(Error::IndexOutOfRange);
        }
        let ghost before = self.graphemes@;
        let ghost added = value.graphemes@;
        let mut graphemes: Vec<String> = Vec::new();
        std::mem::swap(&mut self.graphemes, &mut graphemes);
        let mut added_graphemes = value.graphemes;
        let mut tail = graphemes.split_off(index);
        graphemes.append(&mut added_graphemes);
        graphemes.append(&mut tail);
        proof {
            assert(texts(before.take(index as int) + added + before.skip(index as int)) =~= texts(
                before,
            ).take(index as int) + texts(added) + texts(before).skip(index as int));
            assert(graphemes.len() == graphemes@.len());
        }
        self.graphemes = graphemes;
        Ok(())
    }

    /// Removes the cluster at `index`.
    ///
    /// Refuses an `index` that addresses no cluster and leaves the value as
    /// it was.
    pub fn remove(&mut self, index: usize) -> (result: Result<(), Error>)
        ensures
            final(self)@.len() <= usize::MAX,
            well_formed(final(self)@),
            index < old(self)@.len() ==> {
                &&& result is Ok
                &&& final(self)@ == old(self)@.remove(index as int)
            },
            index >= old(self)@.len() ==> {
                &&& result == Err::<(), Error>(Error::IndexOutOfRange)
                &&& final(self)@ == old(self)@
            },
    {
        proof {
            use_type_invariant(&*self);
        }
        if index >= self.graphemes.len() {
            return Err(Error::IndexOutOfRange);
        }
        proof {
            assert(texts(self.graphemes@.remove(index as int)) =~= texts(self.graphemes@).remove(
                index as int,
            ));
        }
        let mut graphemes: Vec<String> = Vec::new();
        std::mem::swap(&mut self.graphemes, &mut graphemes);
        let _ = graphemes.remove(index);
        self.graphemes = graphemes;
        Ok(())
    }

    /// A new value of the same length in which the [`BULLET`] stands for
    /// every cluster.
    pub fn secure(&self) -> (hidden: Value)
        ensures
            hidden@ == masked(self@),
            hidden@.len() <= usize::MAX,
            well_formed(hidden@),
    {
        let mut graphemes: Vec<String> = Vec::new();
        let mut i: usize = 0;
        while i < self.graphemes.len()
            invariant
                i <= self.graphemes@.len(),
                graphemes@.len() == i,
                forall|j: int| 0 <= j < i ==> (#[trigger] graphemes@[j])@ == seq![BULLET],
            decreases self.graphemes@.len() - i,
        {
            let mut cluster = String::new();
            push_char(&mut cluster, BULLET);
            graphemes.push(cluster);
            i += 1;
        }
        Value { graphemes }
    }
}

} // verus!
