//! What holds of every walk of the navigator.

use vstd::prelude::*;

use crate::cursor::Effect;
use crate::cursor_laws::{lemma_next_at_back, lemma_prev_at_front};
use crate::direction::{Direction, Edge};
use crate::entry::{DirEntryView, RequestView, ResponseView};
use crate::navigator::{NavigatorView, Phase, Travel, Verdict};
use crate::pixels::{decoded, PixelView};
use crate::sibling::{next_position, previous_position};

verus! {

/// Bytes that do not decode are shown as the placeholder, whatever the
/// display.
pub proof fn lemma_undecodable_gives_placeholder(bytes: Seq<u8>, max_width: u32, max_height: u32)
    requires
        decoded(bytes) is None,
    ensures
        PixelView::rendered(bytes, max_width, max_height) == PixelView::placeholder(),
{
}

/// What is shown is always a well-formed pixel buffer.
pub proof fn lemma_rendered_wf(bytes: Seq<u8>, max_width: u32, max_height: u32)
    ensures
        PixelView::rendered(bytes, max_width, max_height).wf(),
{
    assert(PixelView::placeholder().rgba.len() == 16);
    assert(4 * (2 * 2) == 16) by (nonlinear_arith);
}

/// Decoding never ends a walk: an entry with bytes is shown, as an image
/// or as the placeholder, and the navigator is left as it would be had the
/// bytes been any other, ready for the next move.
pub proof fn lemma_decoding_never_fails(
    n: NavigatorView,
    travel: Travel,
    bytes: Seq<u8>,
    other: Seq<u8>,
)
    requires
        bytes.len() > 0,
        other.len() > 0,
    ensures
        n.settle(travel, Effect::Yield(bytes)).verdict == Verdict::Entry(
            PixelView::rendered(bytes, n.max_width, n.max_height),
        ),
        n.settle(travel, Effect::Yield(bytes)).navigator == n.settle(
            travel,
            Effect::Yield(other),
        ).navigator,
        n.settle(travel, Effect::Yield(bytes)).navigator.phase is Idle,
        n.settle(travel, Effect::Yield(bytes)).navigator.cursor == n.cursor,
        n.settle(travel, Effect::Yield(bytes)).navigator.root_hint == n.root_hint,
{
}

/// A step forward off the end of the root asks for the root's neighbours
/// as long as the root's path is known.
pub proof fn lemma_next_leaves_root(n: NavigatorView)
    requires
        n.wf(),
        n.cursor.at_back(),
        n.root_hint is Some,
    ensures
        n.navigate(Travel::Forward, Direction::Next).verdict == Verdict::Need(
            RequestView::Siblings(n.root_hint.unwrap()),
        ),
        n.navigate(Travel::Forward, Direction::Next).navigator.phase == Phase::Seeking(
            Edge::Front,
        ),
{
    lemma_next_at_back(n.cursor);
}

/// The neighbour that a walk goes on in is opened as a new root and read
/// from the end that the walk comes from: the entry behind the old root
/// from its front, the entry before it from its back.
pub proof fn lemma_walk_enters_neighbour(n: NavigatorView, edge: Edge, entries: Seq<DirEntryView>)
    requires
        n.phase == Phase::Seeking(edge),
        n.root_hint is Some,
        (match edge {
            Edge::Front => next_position(entries, n.root_hint.unwrap()),
            Edge::Back => previous_position(entries, n.root_hint.unwrap()),
        }) is Some,
    ensures
        ({
            let at = (match edge {
                Edge::Front => next_position(entries, n.root_hint.unwrap()),
                Edge::Back => previous_position(entries, n.root_hint.unwrap()),
            }).unwrap();
            let turn = n.resume(ResponseView::Listing(entries));
            &&& turn.navigator.root_hint == Some(entries[at].path)
            &&& turn.navigator.phase == (Phase::Opening {
                listing: entries[at].kind is Directory,
                edge,
            })
            &&& turn.verdict == Verdict::Need(
                if entries[at].kind is Directory {
                    RequestView::List(entries[at].path)
                } else {
                    RequestView::Read(entries[at].path)
                },
            )
        }),
{
}

/// Behind the last neighbour the walk ends: there is no entry, and the
/// navigator forgets the path of its root.
pub proof fn lemma_walk_ends_behind_last_root(
    n: NavigatorView,
    edge: Edge,
    entries: Seq<DirEntryView>,
)
    requires
        n.phase == Phase::Seeking(edge),
        n.root_hint is Some,
        (match edge {
            Edge::Front => next_position(entries, n.root_hint.unwrap()),
            Edge::Back => previous_position(entries, n.root_hint.unwrap()),
        }) is None,
    ensures
        n.resume(ResponseView::Listing(entries)).verdict == Verdict::End,
        n.resume(ResponseView::Listing(entries)).navigator.root_hint is None,
        n.resume(ResponseView::Listing(entries)).navigator.phase is Idle,
        n.resume(ResponseView::Listing(entries)).navigator.cursor == n.cursor,
{
}

/// Once the path of the root is forgotten, a step forward at the end of
/// the root is no failure and asks for nothing: it yields no entry, and so
/// does every step after it.
pub proof fn lemma_next_after_end(n: NavigatorView)
    requires
        n.wf(),
        n.cursor.at_back(),
        n.root_hint is None,
    ensures
        n.navigate(Travel::Forward, Direction::Next).verdict == Verdict::End,
        n.navigate(Travel::Forward, Direction::Next).navigator.root_hint is None,
        n.navigate(Travel::Forward, Direction::Next).navigator.cursor.at_back(),
        n.navigate(Travel::Forward, Direction::Next).navigator.phase is Idle,
{
    lemma_next_at_back(n.cursor);
}

/// Once the path of the root is forgotten, a step backward at the head of
/// the root yields no entry, and so does every step after it.
pub proof fn lemma_previous_after_end(n: NavigatorView)
    requires
        n.wf(),
        n.cursor.at_front(),
        n.root_hint is None,
    ensures
        n.navigate(Travel::Backward, Direction::Prev).verdict == Verdict::End,
        n.navigate(Travel::Backward, Direction::Prev).navigator.root_hint is None,
        n.navigate(Travel::Backward, Direction::Prev).navigator.cursor.at_front(),
        n.navigate(Travel::Backward, Direction::Prev).navigator.phase is Idle,
{
    lemma_prev_at_front(n.cursor);
}

} // verus!
