use std::collections::HashMap;

use mandel_tiles::config::Config;
use mandel_tiles::path::TileKey;
use mandel_tiles::png::{encode, EncodeError};
use mandel_tiles::raster::Raster;
use mandel_tiles::store::{Action, Event, OutOfTurn, Phase, Request, Source};

/// A driver that keeps its files in memory and counts what it is asked for.
struct Disk {
    files: HashMap<String, Vec<u8>>,
    dirs: Vec<String>,
    writable: bool,
    reads: usize,
    renders: usize,
}

fn empty_disk() -> Disk {
    Disk { files: HashMap::new(), dirs: Vec::new(), writable: true, reads: 0, renders: 0 }
}

fn small_config() -> Config {
    Config { cache_root: String::from("tiles"), tile_side: 4 }
}

/// Stand-in for the evaluator: any fixed function of the tile and the pixel.
fn counts_of(side: u32, key: TileKey) -> Vec<u32> {
    let mut counts: Vec<u32> = Vec::new();
    for py in 0..side {
        for px in 0..side {
            counts.push((key.z * 131 + key.x * 31 + key.y * 17 + py * side + px) % 512);
        }
    }
    counts
}

fn png_of(side: u32, key: TileKey) -> Vec<u8> {
    let img = Raster::from_counts(side, &counts_of(side, key)).unwrap();
    encode(&img).unwrap()
}

/// Serves one request against the disk, as a server would.
fn get_or_render(config: &Config, disk: &mut Disk, key: TileKey) -> (Vec<u8>, Source) {
    let (mut request, mut action) = Request::begin(config, key);
    loop {
        let event = match action {
            Action::Read { path } => {
                disk.reads += 1;
                match disk.files.get(&path) {
                    Some(bytes) => Event::Found { bytes: bytes.clone() },
                    None => Event::Missing,
                }
            }
            Action::Render { key } => {
                disk.renders += 1;
                Event::Rendered { counts: counts_of(config.tile_side, key) }
            }
            Action::MakeDirs { dir } => {
                if disk.writable {
                    disk.dirs.push(dir);
                }
                Event::DirsMade { ok: disk.writable }
            }
            Action::Write { path, bytes } => {
                if disk.writable {
                    disk.files.insert(path, bytes);
                }
                Event::Written { ok: disk.writable }
            }
            Action::Respond { bytes, source } => return (bytes, source),
            Action::Fail => panic!("the tile could not be encoded"),
        };
        action = request.advance(event).unwrap();
    }
}

#[test]
fn request_begins_with_a_lookup() {
    let config = Config::default();
    let (request, action) = Request::begin(&config, TileKey { z: 2, x: 1, y: 3 });
    assert_eq!(action, Action::Read { path: String::from("cache/2/1/3.png") });
    assert_eq!(request.phase(), Phase::Lookup);
    assert_eq!(request.key(), TileKey { z: 2, x: 1, y: 3 });
}

#[test]
fn hit_hands_out_the_entry_unchanged() {
    let config = small_config();
    let (mut request, _) = Request::begin(&config, TileKey { z: 0, x: 0, y: 0 });
    // The store does not look into an entry: any bytes will do.
    let stored: Vec<u8> = vec![1, 2, 3, 255, 0];
    let action = request.advance(Event::Found { bytes: stored.clone() });
    assert_eq!(action, Ok(Action::Respond { bytes: stored, source: Source::Store }));
    assert_eq!(request.phase(), Phase::Done);
}

#[test]
fn miss_renders_encodes_and_persists() {
    let config = small_config();
    let key = TileKey { z: 3, x: 2, y: 1 };
    let png: Vec<u8> = png_of(4, key);
    let (mut request, _) = Request::begin(&config, key);

    assert_eq!(request.advance(Event::Missing), Ok(Action::Render { key }));
    assert_eq!(request.phase(), Phase::Rendering);

    let rendered = Event::Rendered { counts: counts_of(4, key) };
    assert_eq!(
        request.advance(rendered),
        Ok(Action::MakeDirs { dir: String::from("tiles/3/2") })
    );
    assert_eq!(request.phase(), Phase::MakingDirs);

    assert_eq!(
        request.advance(Event::DirsMade { ok: true }),
        Ok(Action::Write { path: String::from("tiles/3/2/1.png"), bytes: png.clone() })
    );
    assert_eq!(request.phase(), Phase::Writing);

    assert_eq!(
        request.advance(Event::Written { ok: true }),
        Ok(Action::Respond { bytes: png, source: Source::Rendered { persisted: true } })
    );
    assert_eq!(request.phase(), Phase::Done);
}

#[test]
fn write_is_attempted_after_the_directories_failed() {
    let config = small_config();
    let key = TileKey { z: 1, x: 1, y: 0 };
    let png: Vec<u8> = png_of(4, key);
    let (mut request, _) = Request::begin(&config, key);
    request.advance(Event::Missing).unwrap();
    request.advance(Event::Rendered { counts: counts_of(4, key) }).unwrap();
    assert_eq!(
        request.advance(Event::DirsMade { ok: false }),
        Ok(Action::Write { path: String::from("tiles/1/1/0.png"), bytes: png.clone() })
    );
    assert_eq!(
        request.advance(Event::Written { ok: false }),
        Ok(Action::Respond { bytes: png, source: Source::Rendered { persisted: false } })
    );
}

#[test]
fn encoder_failure_ends_the_request() {
    let config = small_config();
    let (mut request, _) = Request::begin(&config, TileKey { z: 0, x: 0, y: 0 });
    request.advance(Event::Missing).unwrap();
    assert_eq!(request.encoded(Err(EncodeError)), Ok(Action::Fail));
    assert_eq!(request.phase(), Phase::Done);
    assert_eq!(request.advance(Event::Written { ok: true }), Err(OutOfTurn));
}

#[test]
fn encoder_answer_starts_the_persisting() {
    let config = small_config();
    let (mut request, _) = Request::begin(&config, TileKey { z: 9, x: 8, y: 7 });
    request.advance(Event::Missing).unwrap();
    let file: Vec<u8> = vec![9, 9, 9];
    assert_eq!(
        request.encoded(Ok(file.clone())),
        Ok(Action::MakeDirs { dir: String::from("tiles/9/8") })
    );
    assert_eq!(
        request.advance(Event::DirsMade { ok: true }),
        Ok(Action::Write { path: String::from("tiles/9/8/7.png"), bytes: file.clone() })
    );
    assert_eq!(
        request.advance(Event::Written { ok: true }),
        Ok(Action::Respond { bytes: file, source: Source::Rendered { persisted: true } })
    );
}

#[test]
fn encoder_answer_is_refused_out_of_turn() {
    let config = small_config();
    let (mut request, _) = Request::begin(&config, TileKey { z: 0, x: 0, y: 0 });
    assert_eq!(request.encoded(Ok(vec![1])), Err(OutOfTurn));
    assert_eq!(request.encoded(Err(EncodeError)), Err(OutOfTurn));
    assert_eq!(request.phase(), Phase::Lookup);
    // The request goes on as if nothing had been said.
    assert_eq!(
        request.advance(Event::Found { bytes: vec![5] }),
        Ok(Action::Respond { bytes: vec![5], source: Source::Store })
    );
    assert_eq!(request.encoded(Ok(vec![1])), Err(OutOfTurn));
}

#[test]
fn events_out_of_turn_are_refused() {
    let config = small_config();
    let key = TileKey { z: 0, x: 0, y: 0 };
    let (mut request, _) = Request::begin(&config, key);
    assert_eq!(request.advance(Event::Rendered { counts: counts_of(4, key) }), Err(OutOfTurn));
    assert_eq!(request.advance(Event::DirsMade { ok: true }), Err(OutOfTurn));
    assert_eq!(request.advance(Event::Written { ok: true }), Err(OutOfTurn));
    assert_eq!(request.phase(), Phase::Lookup);

    request.advance(Event::Missing).unwrap();
    assert_eq!(request.advance(Event::Missing), Err(OutOfTurn));
    assert_eq!(request.advance(Event::Found { bytes: vec![1] }), Err(OutOfTurn));
    assert_eq!(request.phase(), Phase::Rendering);

    request.advance(Event::Rendered { counts: counts_of(4, key) }).unwrap();
    assert_eq!(request.advance(Event::Written { ok: true }), Err(OutOfTurn));
    assert_eq!(request.phase(), Phase::MakingDirs);

    request.advance(Event::DirsMade { ok: true }).unwrap();
    assert_eq!(request.advance(Event::DirsMade { ok: true }), Err(OutOfTurn));
    assert_eq!(request.phase(), Phase::Writing);

    request.advance(Event::Written { ok: true }).unwrap();
    assert_eq!(request.advance(Event::Missing), Err(OutOfTurn));
    assert_eq!(request.advance(Event::Written { ok: true }), Err(OutOfTurn));
    assert_eq!(request.phase(), Phase::Done);
}

#[test]
fn counts_of_the_wrong_number_are_refused() {
    let config = small_config();
    let key = TileKey { z: 0, x: 0, y: 0 };
    let (mut request, _) = Request::begin(&config, key);
    request.advance(Event::Missing).unwrap();
    assert_eq!(request.advance(Event::Rendered { counts: vec![1, 2, 3] }), Err(OutOfTurn));
    assert_eq!(request.advance(Event::Rendered { counts: Vec::new() }), Err(OutOfTurn));
    assert_eq!(request.phase(), Phase::Rendering);
    // The right number is still taken afterwards.
    assert_eq!(
        request.advance(Event::Rendered { counts: counts_of(4, key) }),
        Ok(Action::MakeDirs { dir: String::from("tiles/0/0") })
    );
}

#[test]
fn tile_without_pixels_fails_to_encode() {
    let config = Config { cache_root: String::from("tiles"), tile_side: 0 };
    let (mut request, _) = Request::begin(&config, TileKey { z: 0, x: 0, y: 0 });
    request.advance(Event::Missing).unwrap();
    assert_eq!(request.advance(Event::Rendered { counts: Vec::new() }), Ok(Action::Fail));
    assert_eq!(request.phase(), Phase::Done);
}

#[test]
fn second_request_is_served_from_the_store() {
    let config = small_config();
    let mut disk = empty_disk();
    let key = TileKey { z: 5, x: 17, y: 9 };

    let (first, source) = get_or_render(&config, &mut disk, key);
    assert_eq!(source, Source::Rendered { persisted: true });
    assert_eq!(first, png_of(4, key));
    assert_eq!((disk.reads, disk.renders), (1, 1));
    assert_eq!(disk.dirs, vec![String::from("tiles/5/17")]);
    assert_eq!(disk.files.get("tiles/5/17/9.png"), Some(&first));

    let (second, source) = get_or_render(&config, &mut disk, key);
    assert_eq!(source, Source::Store);
    assert_eq!(second, first);
    assert_eq!((disk.reads, disk.renders), (2, 1));
    assert_eq!(disk.files.len(), 1);
}

#[test]
fn deleted_entry_is_rendered_again_alike() {
    let config = small_config();
    let mut disk = empty_disk();
    let key = TileKey { z: 2, x: 3, y: 0 };

    let (first, _) = get_or_render(&config, &mut disk, key);
    assert!(disk.files.remove("tiles/2/3/0.png").is_some());

    let (again, source) = get_or_render(&config, &mut disk, key);
    assert_eq!(source, Source::Rendered { persisted: true });
    assert_eq!(again, first);
    assert_eq!(disk.renders, 2);
    assert_eq!(disk.files.get("tiles/2/3/0.png"), Some(&first));
}

#[test]
fn unwritable_store_still_answers() {
    let config = small_config();
    let mut disk = empty_disk();
    disk.writable = false;
    let key = TileKey { z: 1, x: 0, y: 1 };

    let (bytes, source) = get_or_render(&config, &mut disk, key);
    assert_eq!(source, Source::Rendered { persisted: false });
    assert_eq!(bytes, png_of(4, key));
    assert!(disk.files.is_empty());
    assert!(disk.dirs.is_empty());

    // Nothing was kept, so the next request renders again and answers alike.
    let (again, source) = get_or_render(&config, &mut disk, key);
    assert_eq!(source, Source::Rendered { persisted: false });
    assert_eq!(again, bytes);
    assert_eq!(disk.renders, 2);
}

#[test]
fn racing_requests_write_the_same_entry() {
    let config = small_config();
    let key = TileKey { z: 4, x: 4, y: 4 };
    let mut files: HashMap<String, Vec<u8>> = HashMap::new();

    // Both requests look before either has written.
    let (mut first, _) = Request::begin(&config, key);
    let (mut second, _) = Request::begin(&config, key);
    assert_eq!(first.advance(Event::Missing), Ok(Action::Render { key }));
    assert_eq!(second.advance(Event::Missing), Ok(Action::Render { key }));

    let mut answers: Vec<Vec<u8>> = Vec::new();
    for request in [&mut first, &mut second] {
        request.advance(Event::Rendered { counts: counts_of(4, key) }).unwrap();
        match request.advance(Event::DirsMade { ok: true }).unwrap() {
            Action::Write { path, bytes } => {
                files.insert(path, bytes);
            }
            other => panic!("expected a write, got {:?}", other),
        }
        match request.advance(Event::Written { ok: true }).unwrap() {
            Action::Respond { bytes, source } => {
                assert_eq!(source, Source::Rendered { persisted: true });
                answers.push(bytes);
            }
            other => panic!("expected a response, got {:?}", other),
        }
    }
    assert_eq!(answers[0], answers[1]);
    assert_eq!(files.len(), 1);
    assert_eq!(files.get("tiles/4/4/4.png"), Some(&answers[0]));
}

#[test]
fn stored_bytes_are_handed_out_unread() {
    let config = small_config();
    let mut disk = empty_disk();
    let key = TileKey { z: 0, x: 0, y: 0 };
    disk.files.insert(String::from("tiles/0/0/0.png"), vec![b'n', b'o']);
    let (bytes, source) = get_or_render(&config, &mut disk, key);
    assert_eq!(source, Source::Store);
    assert_eq!(bytes, vec![b'n', b'o']);
    assert_eq!(disk.renders, 0);
}

#[test]
fn requests_keep_to_their_own_entries() {
    let config = small_config();
    let mut disk = empty_disk();
    let a = TileKey { z: 1, x: 23, y: 4 };
    let b = TileKey { z: 12, x: 3, y: 4 };
    let (first, _) = get_or_render(&config, &mut disk, a);
    let (other, _) = get_or_render(&config, &mut disk, b);
    assert_ne!(first, other);
    assert_eq!(disk.files.len(), 2);
    assert_eq!(disk.files.get("tiles/1/23/4.png"), Some(&first));
    assert_eq!(disk.files.get("tiles/12/3/4.png"), Some(&other));
}

#[test]
fn default_tile_is_a_png_of_256_pixels() {
    let config = Config::default();
    let mut disk = empty_disk();
    let key = TileKey { z: 0, x: 0, y: 0 };
    let (bytes, _) = get_or_render(&config, &mut disk, key);
    let decoded = image::load_from_memory(&bytes).unwrap().to_rgb8();
    assert_eq!(decoded.dimensions(), (256, 256));
    let counts: Vec<u32> = counts_of(256, key);
    let img = Raster::from_counts(256, &counts).unwrap();
    assert_eq!(decoded.as_raw(), img.as_bytes());
    assert_eq!(disk.files.get("cache/0/0/0.png"), Some(&bytes));
}
