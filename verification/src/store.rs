//! The tile store: a request is looked up first and rendered only when the
//! store has no entry for it; what was rendered is kept for the next request.
//!
//! The store does no input or output itself.  It is a small machine that
//! tells its driver what to do next and is told what came of it.

use vstd::prelude::*;
use crate::config::Config;
use crate::path::{tile_dir, tile_dir_of, tile_path, tile_path_of, TileKey};
use crate::png::{encode, png_encoding, EncodeError};
use crate::raster::{counts_fit, painted, Raster};

verus! {

/// Where the bytes of a response come from.
#[derive(Clone, Copy, Debug, PartialEq, Eq, Structural)]
pub enum Source {
    /// The entry was in the store.
    Store,
    /// The tile was rendered for this request; `persisted` tells whether the
    /// store took the new entry.
    Rendered { persisted: bool },
}

/// What the driver is asked to do.
#[derive(Debug, PartialEq, Eq)]
pub enum Action {
    /// Read the entry at `path`.
    Read { path: String },
    /// Evaluate the escape count of every pixel of the tile, row after row.
    Render { key: TileKey },
    /// Create the directory `dir` and those above it.
    MakeDirs { dir: String },
    /// Write `bytes` to the entry at `path`.
    Write { path: String, bytes: Vec<u8> },
    /// Answer the request with `bytes`.
    Respond { bytes: Vec<u8>, source: Source },
    /// Give the request up: the picture could not be encoded.
    Fail,
}

/// An [`Action`] over mathematical values.
pub enum ActionView {
    Read { path: Seq<char> },
    Render { key: TileKey },
    MakeDirs { dir: Seq<char> },
    Write { path: Seq<char>, bytes: Seq<u8> },
    Respond { bytes: Seq<u8>, source: Source },
    Fail,
}

impl View for Action {
    type V = ActionView;

    open spec fn view(&self) -> ActionView {
        match self {
            Action::Read { path } => ActionView::Read { path: path@ },
            Action::Render { key } => ActionView::Render { key: *key },
            Action::MakeDirs { dir } => ActionView::MakeDirs { dir: dir@ },
            Action::Write { path, bytes } => ActionView::Write { path: path@, bytes: bytes@ },
            Action::Respond { bytes, source } => ActionView::Respond {
                bytes: bytes@,
                source: *source,
            },
            Action::Fail => ActionView::Fail,
        }
    }
}

/// What the driver reports of the action it was asked for.
#[derive(Debug, PartialEq, Eq)]
pub enum Event {
    /// The entry was read; these are its bytes.
    Found { bytes: Vec<u8> },
    /// There is no entry, or it cannot be read.
    Missing,
    /// The escape counts of the tile, one for each pixel, row after row.
    Rendered { counts: Vec<u32> },
    /// The directories were created, or not.
    DirsMade { ok: bool },
    /// The entry was written, or not.
    Written { ok: bool },
}

/// An [`Event`] over mathematical values.
pub enum EventView {
    Found { bytes: Seq<u8> },
    Missing,
    Rendered { counts: Seq<u32> },
    DirsMade { ok: bool },
    Written { ok: bool },
}

impl View for Event {
    type V = EventView;

    open spec fn view(&self) -> EventView {
        match self {
            Event::Found { bytes } => EventView::Found { bytes: bytes@ },
            Event::Missing => EventView::Missing,
            Event::Rendered { counts } => EventView::Rendered { counts: counts@ },
            Event::DirsMade { ok } => EventView::DirsMade { ok: *ok },
            Event::Written { ok } => EventView::Written { ok: *ok },
        }
    }
}

/// How far a request has come.
#[derive(Clone, Copy, Debug, PartialEq, Eq, Structural)]
pub enum Phase {
    /// The store is being asked for the entry.
    Lookup,
    /// The tile is being evaluated.
    Rendering,
    /// The directory of the new entry is being created.
    MakingDirs,
    /// The new entry is being written.
    Writing,
    /// The request was answered or given up.
    Done,
}

/// The event does not answer the action that the request is waiting for.
#[derive(Clone, Copy, Debug, PartialEq, Eq, Structural)]
pub struct OutOfTurn;

/// One request for a tile, from lookup to response.
pub struct Request {
    root: String,
    side: u32,
    key: TileKey,
    phase: Phase,
    bytes: Vec<u8>,
}

/// A [`Request`] over mathematical values.
pub struct RequestView {
    /// The root directory of the store.
    pub root: Seq<char>,
    /// The side of the tile in pixels.
    pub side: u32,
    /// The tile that is asked for.
    pub key: TileKey,
    /// How far the request has come.
    pub phase: Phase,
    /// The encoded tile, from the moment it is rendered until it is handed
    /// out; empty before and after.
    pub bytes: Seq<u8>,
}

impl View for Request {
    type V = RequestView;

    closed spec fn view(&self) -> RequestView {
        RequestView {
            root: self.root@,
            side: self.side,
            key: self.key,
            phase: self.phase,
            bytes: self.bytes@,
        }
    }
}

/// A new request and its first action: to read the entry of the tile.
pub open spec fn begin_of(root: Seq<char>, side: u32, key: TileKey) -> (RequestView, ActionView) {
    (
        RequestView { root, side, key, phase: Phase::Lookup, bytes: Seq::empty() },
        ActionView::Read { path: tile_path_of(root, key) },
    )
}

/// The encoder's answer over mathematical values: the file, or `None` for a
/// failure.
pub open spec fn encoding_of(result: Result<Vec<u8>, EncodeError>) -> Option<Seq<u8>> {
    match result {
        Ok(bytes) => Some(bytes@),
        Err(_) => None,
    }
}

/// What a request that is rendering does once the encoder has answered: with
/// a file it starts to persist it, without one it gives up.
pub open spec fn encoded_step(s: RequestView, encoded: Option<Seq<u8>>) -> (
    RequestView,
    ActionView,
) {
    match encoded {
        Some(bytes) => (
            RequestView { phase: Phase::MakingDirs, bytes, ..s },
            ActionView::MakeDirs { dir: tile_dir_of(s.root, s.key) },
        ),
        None => (RequestView { phase: Phase::Done, ..s }, ActionView::Fail),
    }
}

/// The next state and action of a request on an event, or `None` where the
/// event does not answer the action that the request is waiting for.
///
/// An entry that is found is handed out as it is.  A missing entry has the
/// tile rendered, encoded and persisted; the directories are created first,
/// the write is attempted whether or not that worked, and the response is
/// the encoded tile whether or not the write worked.
pub open spec fn step(s: RequestView, e: EventView) -> Option<(RequestView, ActionView)> {
    match (s.phase, e) {
        (Phase::Lookup, EventView::Found { bytes }) => Some(
            (
                RequestView { phase: Phase::Done, ..s },
                ActionView::Respond { bytes, source: Source::Store },
            ),
        ),
        (Phase::Lookup, EventView::Missing) => Some(
            (RequestView { phase: Phase::Rendering, ..s }, ActionView::Render { key: s.key }),
        ),
        (Phase::Rendering, EventView::Rendered { counts }) => if counts_fit(s.side, counts) {
            Some(encoded_step(s, png_encoding(s.side, painted(counts))))
        } else {
            None
        },
        (Phase::MakingDirs, EventView::DirsMade { .. }) => Some(
            (
                RequestView { phase: Phase::Writing, ..s },
                ActionView::Write { path: tile_path_of(s.root, s.key), bytes: s.bytes },
            ),
        ),
        (Phase::Writing, EventView::Written { ok }) => Some(
            (
                RequestView { phase: Phase::Done, bytes: Seq::empty(), ..s },
                ActionView::Respond { bytes: s.bytes, source: Source::Rendered { persisted: ok } },
            ),
        ),
        _ => None,
    }
}

impl Request {
    /// Starts a request for the tile `key`.  The first action is always to
    /// read the tile's entry.
    pub fn begin(config: &Config, key: TileKey) -> (r: (Request, Action))
        ensures
            (r.0@, r.1@) == begin_of(config.cache_root@, config.tile_side, key),
    {
        let path: String = tile_path(config.cache_root.as_str(), key);
        let request = Request {
            root: config.cache_root.clone(),
            side: config.tile_side,
            key,
            phase: Phase::Lookup,
            bytes: Vec::new(),
        };
        (request, Action::Read { path })
    }

    /// How far the request has come.
    pub fn phase(&self) -> (p: Phase)
        ensures
            p == self@.phase,
    {
        self.phase
    }

    /// The tile that is asked for.
    pub fn key(&self) -> (k: TileKey)
        ensures
            k == self@.key,
    {
        self.key
    }

    /// Takes the encoder's answer for a request that is rendering, and says
    /// what to do next: create the directory of the new entry, or give up.
    /// In any other phase the answer is refused and nothing changes.
    pub fn encoded(&mut self, result: Result<Vec<u8>, EncodeError>) -> (res: Result<Action, OutOfTurn>)
        ensures
            old(self)@.phase == Phase::Rendering ==> res is Ok && (final(self)@, res->Ok_0@)
                == encoded_step(old(self)@, encoding_of(result)),
            old(self)@.phase != Phase::Rendering ==> res is Err && final(self)@ == old(self)@,
    {
        match self.phase {
            Phase::Rendering => {},
            _ => {
                return Err(OutOfTurn);
            },
        }
        match result {
            Ok(bytes) => {
                let dir: String = tile_dir(self.root.as_str(), self.key);
                self.bytes = bytes;
                self.phase = Phase::MakingDirs;
                Ok(Action::MakeDirs { dir })
            },
            Err(_) => {
                self.phase = Phase::Done;
                Ok(Action::Fail)
            },
        }
    }

    /// Takes the driver's report and says what to do next.  A report that
    /// does not answer the pending action is refused and changes nothing.
    pub fn advance(&mut self, event: Event) -> (res: Result<Action, OutOfTurn>)
        ensures
            match step(old(self)@, event@) {
                Some((next, action)) => res is Ok && final(self)@ == next && res->Ok_0@ == action,
                None => res is Err && final(self)@ == old(self)@,
            },
    {
        match (self.phase, event) {
            (Phase::Lookup, Event::Found { bytes }) => {
                self.phase = Phase::Done;
                Ok(Action::Respond { bytes, source: Source::Store })
            },
            (Phase::Lookup, Event::Missing) => {
                self.phase = Phase::Rendering;
                Ok(Action::Render { key: self.key })
            },
            (Phase::Rendering, Event::Rendered { counts }) => {
                match Raster::from_counts(self.side, &counts) {
                    Some(img) => {
                        let result = encode(&img);
                        self.encoded(result)
                    },
                    None => Err(OutOfTurn),
                }
            },
            (Phase::MakingDirs, Event::DirsMade { .. }) => {
                let path: String = tile_path(self.root.as_str(), self.key);
                self.phase = Phase::Writing;
                Ok(Action::Write { path, bytes: self.bytes.clone() })
            },
            (Phase::Writing, Event::Written { ok }) => {
                let mut bytes: Vec<u8> = Vec::new();
                std::mem::swap(&mut bytes, &mut self.bytes);
                self.phase = Phase::Done;
                Ok(Action::Respond { bytes, source: Source::Rendered { persisted: ok } })
            },
            _ => Err(OutOfTurn),
        }
    }
}

} // verus!
