//! What the store's decisions add up to when a driver carries them out.
//!
//! The driver is described here as mathematics: its files are a map from
//! paths to bytes, its evaluator is a function from a tile to its escape
//! counts, and three switches say whether entries can be read, directories
//! created and files written.  Against such a driver a request runs to its
//! end in at most four steps, and the laws below say what comes out.

use vstd::prelude::*;
use crate::path::{lemma_tile_path_injective, tile_path_of, TileKey};
use crate::png::png_encoding;
use crate::raster::{counts_fit, painted};
use crate::store::{begin_of, step, ActionView, EventView, Phase, RequestView, Source};

verus! {

/// The driver and what it answers from.
pub struct World {
    /// The entries of the store, by path.
    pub files: Map<Seq<char>, Seq<u8>>,
    /// The escape counts of each tile, row after row.
    pub evaluator: spec_fn(TileKey) -> Seq<u32>,
    /// Whether an entry that exists can be read.
    pub readable: bool,
    /// Whether directories can be created.
    pub dirs_ok: bool,
    /// Whether entries can be written.
    pub write_ok: bool,
}

/// What the driver reports of an action, and the world after it; `None` for
/// an action that ends the request.  Only a write that works changes
/// anything.
pub open spec fn answer(w: World, a: ActionView) -> Option<(World, EventView)> {
    match a {
        ActionView::Read { path } => if w.readable && w.files.contains_key(path) {
            Some((w, EventView::Found { bytes: w.files[path] }))
        } else {
            Some((w, EventView::Missing))
        },
        ActionView::Render { key } => Some((w, EventView::Rendered { counts: (w.evaluator)(key) })),
        ActionView::MakeDirs { .. } => Some((w, EventView::DirsMade { ok: w.dirs_ok })),
        ActionView::Write { path, bytes } => if w.write_ok {
            Some(
                (World { files: w.files.insert(path, bytes), ..w }, EventView::Written { ok: true }),
            )
        } else {
            Some((w, EventView::Written { ok: false }))
        },
        ActionView::Respond { .. } => None,
        ActionView::Fail => None,
    }
}

/// Carries out `a` and what follows from it, for at most `steps` actions.
/// The result is the world afterwards and the action at which the run
/// stopped: the one that ends the request, or one that was left undone.
pub open spec fn run(s: RequestView, a: ActionView, w: World, steps: nat) -> (World, ActionView)
    decreases steps,
{
    if steps == 0 {
        (w, a)
    } else {
        match answer(w, a) {
            Some((after, event)) => match step(s, event) {
                Some((next, then)) => run(next, then, after, (steps - 1) as nat),
                None => (after, a),
            },
            None => (w, a),
        }
    }
}

/// A whole request for the tile `key`, from the lookup on.
pub open spec fn serve(root: Seq<char>, side: u32, key: TileKey, w: World) -> (World, ActionView) {
    let (s, a) = begin_of(root, side, key);
    run(s, a, w, 4)
}

/// Whether a request for `key` finds its entry.
pub open spec fn hits(root: Seq<char>, key: TileKey, w: World) -> bool {
    w.readable && w.files.contains_key(tile_path_of(root, key))
}

/// A request whose entry is in the store is answered with the bytes of the
/// entry, whatever they are, and changes nothing.
pub proof fn lemma_hit(root: Seq<char>, side: u32, key: TileKey, w: World)
    requires
        hits(root, key, w),
    ensures
        serve(root, side, key, w) == (
            w,
            ActionView::Respond { bytes: w.files[tile_path_of(root, key)], source: Source::Store },
        ),
{
    reveal_with_fuel(run, 2);
}

/// A request whose entry is missing is answered with the encoding of the
/// painted tile, and the store holds that encoding afterwards if the write
/// worked.  Where the tile cannot be encoded the request fails and nothing
/// changes.
pub proof fn lemma_miss(root: Seq<char>, side: u32, key: TileKey, w: World)
    requires
        !hits(root, key, w),
        counts_fit(side, (w.evaluator)(key)),
    ensures
        match png_encoding(side, painted((w.evaluator)(key))) {
            Some(png) => serve(root, side, key, w) == (
                if w.write_ok {
                    World { files: w.files.insert(tile_path_of(root, key), png), ..w }
                } else {
                    w
                },
                ActionView::Respond { bytes: png, source: Source::Rendered { persisted: w.write_ok } },
            ),
            None => serve(root, side, key, w) == (w, ActionView::Fail),
        },
{
    reveal_with_fuel(run, 5);
}

/// The bytes of a response.
pub open spec fn response_of(a: ActionView) -> Seq<u8>
    recommends
        a is Respond,
{
    a->Respond_bytes
}

/// Asking twice gives the same bytes.  Where a request missed its entry and
/// was answered, and nothing but the request has touched the world since,
/// the next request for the same tile is answered with the same bytes.  If
/// the entry was written and can be read, that answer comes from the store
/// and the world stays as it is.
pub proof fn lemma_round_trip(root: Seq<char>, side: u32, key: TileKey, w: World)
    requires
        !hits(root, key, w),
        counts_fit(side, (w.evaluator)(key)),
        serve(root, side, key, w).1 is Respond,
    ensures
        ({
            let (after, first) = serve(root, side, key, w);
            let (last, second) = serve(root, side, key, after);
            &&& second is Respond
            &&& response_of(second) == response_of(first)
            &&& w.write_ok && w.readable ==> second->source == Source::Store && last == after
        }),
{
    lemma_miss(root, side, key, w);
    let after = serve(root, side, key, w).0;
    if hits(root, key, after) {
        lemma_hit(root, side, key, after);
    } else {
        lemma_miss(root, side, key, after);
    }
}

/// Rendering again gives the same bytes: where the entry of a tile is
/// missing in two worlds with the same evaluator, the two requests are
/// answered alike.
pub proof fn lemma_rerender(root: Seq<char>, side: u32, key: TileKey, w: World, later: World)
    requires
        !hits(root, key, w),
        !hits(root, key, later),
        counts_fit(side, (w.evaluator)(key)),
        later.evaluator == w.evaluator,
    ensures
        serve(root, side, key, later).1 is Respond <==> serve(root, side, key, w).1 is Respond,
        serve(root, side, key, w).1 is Respond ==> response_of(serve(root, side, key, later).1)
            == response_of(serve(root, side, key, w).1),
{
    lemma_miss(root, side, key, w);
    lemma_miss(root, side, key, later);
}

/// An entry that is deleted comes back as it was.  Where a request rendered
/// a tile and its entry is then removed from the store, the next request for
/// the tile is answered with the bytes of the first, and writes them again
/// if the store lets it.
pub proof fn lemma_deleted_entry_comes_back(
    root: Seq<char>,
    side: u32,
    key: TileKey,
    w: World,
    later: World,
)
    requires
        !hits(root, key, w),
        counts_fit(side, (w.evaluator)(key)),
        serve(root, side, key, w).1 is Respond,
        later.files == serve(root, side, key, w).0.files.remove(tile_path_of(root, key)),
        later.evaluator == w.evaluator,
    ensures
        ({
            let first = serve(root, side, key, w).1;
            let (last, second) = serve(root, side, key, later);
            &&& second is Respond
            &&& response_of(second) == response_of(first)
            &&& later.write_ok ==> last.files.contains_key(tile_path_of(root, key))
                && last.files[tile_path_of(root, key)] == response_of(first)
        }),
{
    lemma_rerender(root, side, key, w, later);
    lemma_miss(root, side, key, later);
}

/// A store that cannot be written to does not cost the response: a request
/// that missed its entry is answered with the encoded tile all the same,
/// whether or not the directories could be created, and the store is as it
/// was.  Only the encoder can make the request fail.
pub proof fn lemma_persist_failure(root: Seq<char>, side: u32, key: TileKey, w: World)
    requires
        !hits(root, key, w),
        counts_fit(side, (w.evaluator)(key)),
        !w.write_ok,
    ensures
        match png_encoding(side, painted((w.evaluator)(key))) {
            Some(png) => serve(root, side, key, w) == (
                w,
                ActionView::Respond { bytes: png, source: Source::Rendered { persisted: false } },
            ),
            None => serve(root, side, key, w) == (w, ActionView::Fail),
        },
{
    lemma_miss(root, side, key, w);
}

/// Two requests that both missed the same tile before either wrote it are
/// answered alike, and the second write puts down what the first did: the
/// store is the same whichever of them writes last.
pub proof fn lemma_racing_requests(root: Seq<char>, side: u32, key: TileKey, w: World)
    requires
        !hits(root, key, w),
        counts_fit(side, (w.evaluator)(key)),
        w.write_ok,
    ensures
        ({
            let waiting = RequestView { phase: Phase::Rendering, ..begin_of(root, side, key).0 };
            let render = ActionView::Render { key };
            let (between, first) = run(waiting, render, w, 3);
            let (after, second) = run(waiting, render, between, 3);
            &&& step(begin_of(root, side, key).0, EventView::Missing) == Some((waiting, render))
            &&& second == first
            &&& after == between
        }),
{
    reveal_with_fuel(run, 4);
    let path = tile_path_of(root, key);
    match png_encoding(side, painted((w.evaluator)(key))) {
        Some(png) => {
            assert(w.files.insert(path, png).insert(path, png) =~= w.files.insert(path, png));
        },
        None => {},
    }
}

/// A request touches no entry but its own: the entries of all other tiles
/// are after the request what they were before it.
pub proof fn lemma_other_entries_kept(
    root: Seq<char>,
    side: u32,
    key: TileKey,
    w: World,
    other: TileKey,
)
    requires
        other != key,
    ensures
        ({
            let after = serve(root, side, key, w).0;
            let path = tile_path_of(root, other);
            &&& after.files.contains_key(path) == w.files.contains_key(path)
            &&& after.files.contains_key(path) ==> after.files[path] == w.files[path]
        }),
{
    if tile_path_of(root, other) == tile_path_of(root, key) {
        lemma_tile_path_injective(root, other, key);
    }
    if hits(root, key, w) {
        lemma_hit(root, side, key, w);
    } else if counts_fit(side, (w.evaluator)(key)) {
        lemma_miss(root, side, key, w);
    } else {
        reveal_with_fuel(run, 3);
    }
}

} // verus!
