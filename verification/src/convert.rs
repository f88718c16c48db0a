//! Turns the successive full-text snapshots of one generation stream into the
//! pieces of text that each snapshot adds.

use crate::text::{is_prefix, prefix_len};
use vstd::prelude::*;
use vstd::string::*;

verus! {

/// What a snapshot adds to the one before it: the text behind the previous
/// snapshot where the new one starts with it, else the whole new snapshot.
pub open spec fn delta(previous: Seq<char>, snapshot: Seq<char>) -> Seq<char> {
    if is_prefix(previous, snapshot) {
        snapshot.subrange(previous.len() as int, snapshot.len() as int)
    } else {
        snapshot
    }
}

/// The pieces that a run of snapshots yields when the snapshot before the
/// first one was `previous`.
pub open spec fn chunks(previous: Seq<char>, snapshots: Seq<Seq<char>>) -> Seq<Seq<char>>
    decreases snapshots.len(),
{
    if snapshots.len() == 0 {
        Seq::empty()
    } else {
        seq![delta(previous, snapshots[0])] + chunks(snapshots[0], snapshots.drop_first())
    }
}

/// The pieces put one behind the other.
pub open spec fn joined(parts: Seq<Seq<char>>) -> Seq<char>
    decreases parts.len(),
{
    if parts.len() == 0 {
        Seq::empty()
    } else {
        parts[0] + joined(parts.drop_first())
    }
}

/// Every snapshot starts with the one before it, the first with `previous`.
pub open spec fn growing(previous: Seq<char>, snapshots: Seq<Seq<char>>) -> bool
    decreases snapshots.len(),
{
    snapshots.len() == 0 || (is_prefix(previous, snapshots[0]) && growing(
        snapshots[0],
        snapshots.drop_first(),
    ))
}

/// While every snapshot extends the one before it, the pieces put together
/// behind the text already emitted give the last snapshot: nothing is lost
/// and nothing is sent twice. For a fresh stream (`previous` empty) the
/// pieces alone give the last snapshot.
pub proof fn law_chunks_rebuild_snapshot(previous: Seq<char>, snapshots: Seq<Seq<char>>)
    requires
        growing(previous, snapshots),
    ensures
        chunks(previous, snapshots).len() == snapshots.len(),
        previous + joined(chunks(previous, snapshots)) == (if snapshots.len() == 0 {
            previous
        } else {
            snapshots.last()
        }),
    decreases snapshots.len(),
{
    if snapshots.len() == 0 {
        assert(previous + joined(chunks(previous, snapshots)) =~= previous);
    } else {
        let first = snapshots[0];
        let rest = snapshots.drop_first();
        law_chunks_rebuild_snapshot(first, rest);
        let parts = chunks(previous, snapshots);
        assert(parts[0] == delta(previous, first));
        assert(parts.drop_first() =~= chunks(first, rest));
        assert(previous + delta(previous, first) =~= first);
        assert(previous + joined(parts) =~= (previous + delta(previous, first)) + joined(
            chunks(first, rest),
        ));
        if rest.len() > 0 {
            assert(rest.last() == snapshots.last());
        }
    }
}

/// A snapshot that does not start with the one before it is emitted whole.
pub proof fn law_replacement_is_whole(previous: Seq<char>, snapshot: Seq<char>)
    requires
        !is_prefix(previous, snapshot),
    ensures
        delta(previous, snapshot) == snapshot,
{
}

/// The converter of one stream. It remembers the last snapshot it was given.
pub struct StreamConverter {
    previous: String,
}

impl View for StreamConverter {
    type V = Seq<char>;

    closed spec fn view(&self) -> Seq<char> {
        self.previous@
    }
}

impl StreamConverter {
    /// The converter of a stream that has emitted nothing yet.
    pub fn new() -> (converter: Self)
        ensures
            converter@ == Seq::<char>::empty(),
    {
        StreamConverter { previous: String::new() }
    }

    /// The last snapshot that was given.
    pub fn previous(&self) -> (text: &str)
        ensures
            text@ == self@,
    {
        self.previous.as_str()
    }

    /// Takes the next snapshot and gives the piece to emit for it.
    pub fn push(&mut self, snapshot: &str) -> (chunk: String)
        ensures
            chunk@ == delta(old(self)@, snapshot@),
            final(self)@ == snapshot@,
    {
        let chunk = match prefix_len(self.previous.as_str(), snapshot) {
            Some(n) => {
                let end = snapshot.unicode_len();
                snapshot.substring_char(n, end).to_owned()
            },
            None => snapshot.to_owned(),
        };
        self.previous = snapshot.to_owned();
        chunk
    }

    /// Takes the next event, of which only the first candidate counts, and
    /// gives the piece to emit for it.
    pub fn push_event(&mut self, candidates: &Vec<String>) -> (chunk: String)
        requires
            candidates@.len() >= 1,
        ensures
            chunk@ == delta(old(self)@, candidates@[0]@),
            final(self)@ == candidates@[0]@,
    {
        self.push(candidates[0].as_str())
    }
}

} // verus!
