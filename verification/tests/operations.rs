use song_library::error::Error;
use song_library::pipeline::Pipeline;
use song_library::protocol::{Outcome, Progress, Reply, Request};
use song_library::track::{DownloadSettings, Metadata, Song, VideoDetails};

/// The catalog document of the directory that the tests work on.
enum Document {
    Missing,
    Corrupt,
    Tracks(Vec<Song>),
}

/// A shell that keeps everything in memory and remembers what it was asked.
struct Shell {
    document: Document,
    assets: Vec<String>,
    videos: Vec<(String, String, String, String, Vec<String>)>,
    clock: u128,
    asked: Vec<String>,
    fetched: Vec<(String, String)>,
    writes: usize,
    failing: Option<(String, Error)>,
}

fn kind(request: &Request) -> &'static str {
    match request {
        Request::Describe { .. } => "describe",
        Request::ProbeAsset { .. } => "probe-asset",
        Request::FetchAudio { .. } => "fetch-audio",
        Request::FetchImage { .. } => "fetch-image",
        Request::RemoveAsset { .. } => "remove-asset",
        Request::Locate { .. } => "locate",
        Request::ReadClock => "read-clock",
        Request::ProbeCatalog { .. } => "probe-catalog",
        Request::WriteCatalog { .. } => "write-catalog",
        Request::ReadCatalog { .. } => "read-catalog",
    }
}

impl Shell {
    fn new() -> Shell {
        Shell {
            document: Document::Missing,
            assets: Vec::new(),
            videos: Vec::new(),
            clock: 1_700_000_000_000,
            asked: Vec::new(),
            fetched: Vec::new(),
            writes: 0,
            failing: None,
        }
    }

    fn with_tracks(songs: Vec<Song>) -> Shell {
        let mut shell = Shell::new();
        for song in &songs {
            shell.assets.push(format!("{}.mp3", song.id));
            shell.assets.push(format!("{}.png", song.id));
        }
        shell.document = Document::Tracks(songs);
        shell
    }

    fn video(&mut self, url: &str, id: &str, title: &str, length: &str, thumbnails: &[&str]) {
        self.videos.push((
            url.to_string(),
            id.to_string(),
            title.to_string(),
            length.to_string(),
            thumbnails.iter().map(|t| t.to_string()).collect(),
        ));
    }

    fn fail(&mut self, on: &str, error: Error) {
        self.failing = Some((on.to_string(), error));
    }

    fn has(&self, name: &str) -> bool {
        self.assets.iter().any(|a| a == name)
    }

    fn tracks(&self) -> &Vec<Song> {
        match &self.document {
            Document::Tracks(songs) => songs,
            _ => panic!("the directory holds no readable catalog"),
        }
    }

    fn answer(&mut self, request: Request) -> Reply {
        self.asked.push(kind(&request).to_string());
        if let Some((on, _)) = &self.failing {
            if on == kind(&request) {
                let (_, error) = self.failing.take().unwrap();
                return Reply::Failed(error);
            }
        }
        match request {
            Request::Describe { url } => {
                for (known, id, title, length, thumbnails) in &self.videos {
                    if *known == url {
                        return Reply::Described(Metadata {
                            id: id.clone(),
                            title: title.clone(),
                            length_seconds: length.clone(),
                            thumbnails: thumbnails.clone(),
                        });
                    }
                }
                Reply::Failed(Error::Resolution("The video not found".to_string()))
            }
            Request::ProbeAsset { name } => Reply::Probed(self.has(&name)),
            Request::FetchAudio { url, name } | Request::FetchImage { url, name } => {
                self.fetched.push((url, name.clone()));
                if !self.has(&name) {
                    self.assets.push(name);
                }
                Reply::Done
            }
            Request::RemoveAsset { name } => {
                if self.has(&name) {
                    self.assets.retain(|a| *a != name);
                    Reply::Done
                } else {
                    Reply::Failed(Error::Io("No such file or directory".to_string()))
                }
            }
            Request::Locate { audio, thumbnail } => Reply::Located {
                audio: format!("/data/{}", audio),
                thumbnail: format!("/data/{}", thumbnail),
            },
            Request::ReadClock => Reply::Clock(self.clock),
            Request::ProbeCatalog { name } => {
                assert_eq!(name, "songs.json");
                Reply::Probed(!matches!(self.document, Document::Missing))
            }
            Request::WriteCatalog { name, songs } => {
                assert_eq!(name, "songs.json");
                self.writes += 1;
                self.document = Document::Tracks(songs);
                Reply::Done
            }
            Request::ReadCatalog { name } => {
                assert_eq!(name, "songs.json");
                match &self.document {
                    Document::Tracks(songs) => Reply::Catalog(songs.clone()),
                    Document::Corrupt => {
                        Reply::Failed(Error::Format("expected value at line 1 column 1".to_string()))
                    }
                    Document::Missing => {
                        Reply::Failed(Error::Io("No such file or directory".to_string()))
                    }
                }
            }
        }
    }

    fn run(&mut self, first: (Pipeline, Request)) -> Result<Outcome, Error> {
        let (mut pipeline, mut request) = first;
        loop {
            let reply = self.answer(request);
            match pipeline.advance(reply) {
                Progress::Ask(next, asked) => {
                    pipeline = next;
                    request = asked;
                }
                Progress::Finish(ending) => return ending,
            }
        }
    }
}

fn settings(start: u64, end: u64, title: &str, thumbnail: &str, artist: &str) -> DownloadSettings {
    DownloadSettings {
        start,
        end,
        title: title.to_string(),
        thumbnail: thumbnail.to_string(),
        artist: artist.to_string(),
    }
}

fn song(id: &str, title: &str, artist: &str, duration: u64, created_at: u128) -> Song {
    Song {
        id: id.to_string(),
        title: title.to_string(),
        artist: artist.to_string(),
        thumbnail: format!("/data/{}.png", id),
        file: format!("/data/{}.mp3", id),
        duration,
        created_at,
        start: 0,
        end: duration,
    }
}

fn three_songs() -> Vec<Song> {
    vec![
        song("first", "One", "Ann", 100, 11),
        song("second", "Two", "Bob", 200, 22),
        song("third", "Three", "Cy", 300, 33),
    ]
}

fn asked(shell: &Shell) -> Vec<&str> {
    shell.asked.iter().map(|a| a.as_str()).collect()
}

#[test]
fn download_adds_the_track_and_both_assets() {
    let mut shell = Shell::new();
    shell.video("https://video/abc123", "abc123", "Source title", "42", &["http://img/x.png"]);
    let outcome = shell
        .run(Pipeline::download("https://video/abc123".to_string(), settings(0, 30, "T", "", "A")));
    let expected = Song {
        id: "abc123".to_string(),
        title: "T".to_string(),
        artist: "A".to_string(),
        thumbnail: "/data/abc123.png".to_string(),
        file: "/data/abc123.mp3".to_string(),
        duration: 42,
        created_at: 1_700_000_000_000,
        start: 0,
        end: 30,
    };
    assert_eq!(outcome, Ok(Outcome::Downloaded(expected.clone())));
    assert_eq!(shell.tracks(), &vec![expected]);
    assert!(shell.has("abc123.mp3"));
    assert!(shell.has("abc123.png"));
    assert_eq!(
        shell.fetched,
        vec![
            ("https://video/abc123".to_string(), "abc123.mp3".to_string()),
            ("http://img/x.png".to_string(), "abc123.png".to_string()),
        ]
    );
}

#[test]
fn download_asks_in_order() {
    let mut shell = Shell::new();
    shell.video("u", "abc123", "S", "42", &["http://img/x.png", "http://img/y.png"]);
    let outcome = shell.run(Pipeline::download("u".to_string(), settings(0, 30, "T", "", "A")));
    assert!(outcome.is_ok());
    assert_eq!(
        asked(&shell),
        vec![
            "describe",
            "probe-asset",
            "fetch-audio",
            "fetch-image",
            "probe-catalog",
            "write-catalog",
            "read-catalog",
            "read-clock",
            "locate",
            "write-catalog",
        ]
    );
}

#[test]
fn download_appends_behind_what_is_there() {
    let mut shell = Shell::with_tracks(three_songs());
    shell.video("u", "fourth", "S", "7", &["http://img/4.png"]);
    let outcome = shell.run(Pipeline::download("u".to_string(), settings(1, 5, "Four", "", "Di")));
    assert!(matches!(outcome, Ok(Outcome::Downloaded(_))));
    let tracks = shell.tracks();
    assert_eq!(tracks.len(), 4);
    assert_eq!(tracks[..3], three_songs()[..]);
    assert_eq!(tracks[3].id, "fourth");
    assert_eq!(tracks[3].title, "Four");
    assert_eq!(tracks[3].artist, "Di");
    assert_eq!(tracks[3].duration, 7);
    assert_eq!(tracks[3].start, 1);
    assert_eq!(tracks[3].end, 5);
    assert_eq!(shell.writes, 1);
}

#[test]
fn download_of_present_audio_does_nothing() {
    let mut shell = Shell::new();
    shell.video("u", "abc123", "S", "42", &["http://img/x.png"]);
    let first = shell.run(Pipeline::download("u".to_string(), settings(0, 30, "T", "", "A")));
    assert!(matches!(first, Ok(Outcome::Downloaded(_))));
    shell.asked.clear();
    shell.fetched.clear();
    shell.writes = 0;
    let second = shell.run(Pipeline::download("u".to_string(), settings(5, 9, "Other", "", "B")));
    assert_eq!(second, Ok(Outcome::AlreadyDownloaded));
    assert_eq!(asked(&shell), vec!["describe", "probe-asset"]);
    assert!(shell.fetched.is_empty());
    assert_eq!(shell.writes, 0);
    assert_eq!(shell.tracks().len(), 1);
    assert_eq!(shell.tracks()[0].title, "T");
}

#[test]
fn download_of_present_audio_does_not_need_a_catalog() {
    let mut shell = Shell::new();
    shell.assets.push("abc123.mp3".to_string());
    shell.video("u", "abc123", "S", "42", &[]);
    let outcome = shell.run(Pipeline::download("u".to_string(), settings(0, 30, "T", "", "A")));
    assert_eq!(outcome, Ok(Outcome::AlreadyDownloaded));
    assert!(matches!(shell.document, Document::Missing));
    assert!(!shell.has("abc123.png"));
}

#[test]
fn download_of_an_unknown_url_fails_as_unresolved() {
    let mut shell = Shell::new();
    let outcome = shell.run(Pipeline::download("nowhere".to_string(), settings(0, 1, "T", "", "A")));
    assert_eq!(outcome, Err(Error::Resolution("The video not found".to_string())));
    assert_eq!(asked(&shell), vec!["describe"]);
}

#[test]
fn download_with_an_unreadable_length_fails_as_unresolved() {
    let mut shell = Shell::new();
    shell.video("u", "abc123", "S", "1:30", &["http://img/x.png"]);
    let outcome = shell.run(Pipeline::download("u".to_string(), settings(0, 1, "T", "", "A")));
    assert_eq!(outcome, Err(Error::bad_duration("1:30")));
    assert_eq!(asked(&shell), vec!["describe"]);
    assert!(shell.assets.is_empty());
}

#[test]
fn download_without_a_thumbnail_fails_after_the_audio() {
    let mut shell = Shell::new();
    shell.video("u", "abc123", "S", "42", &[]);
    let outcome = shell.run(Pipeline::download("u".to_string(), settings(0, 30, "T", "", "A")));
    assert_eq!(outcome, Err(Error::Index));
    assert_eq!(asked(&shell), vec!["describe", "probe-asset", "fetch-audio"]);
    assert!(shell.has("abc123.mp3"));
    assert!(matches!(shell.document, Document::Missing));
}

#[test]
fn download_that_cannot_fetch_fails_with_the_network() {
    let mut shell = Shell::new();
    shell.video("u", "abc123", "S", "42", &["http://img/x.png"]);
    shell.fail("fetch-audio", Error::Network("connection reset".to_string()));
    let outcome = shell.run(Pipeline::download("u".to_string(), settings(0, 30, "T", "", "A")));
    assert_eq!(outcome, Err(Error::Network("connection reset".to_string())));
    assert_eq!(asked(&shell), vec!["describe", "probe-asset", "fetch-audio"]);
}

#[test]
fn download_that_cannot_save_leaves_the_assets() {
    let mut shell = Shell::with_tracks(three_songs());
    shell.video("u", "abc123", "S", "42", &["http://img/x.png"]);
    shell.fail("write-catalog", Error::Io("disk full".to_string()));
    let outcome = shell.run(Pipeline::download("u".to_string(), settings(0, 30, "T", "", "A")));
    assert_eq!(outcome, Err(Error::Io("disk full".to_string())));
    assert!(shell.has("abc123.mp3"));
    assert!(shell.has("abc123.png"));
    assert_eq!(shell.tracks(), &three_songs());
}

#[test]
fn download_with_a_corrupt_catalog_fails_on_the_format() {
    let mut shell = Shell::new();
    shell.document = Document::Corrupt;
    shell.video("u", "abc123", "S", "42", &["http://img/x.png"]);
    let outcome = shell.run(Pipeline::download("u".to_string(), settings(0, 30, "T", "", "A")));
    assert_eq!(outcome, Err(Error::Format("expected value at line 1 column 1".to_string())));
    assert!(shell.has("abc123.mp3"));
    assert!(shell.has("abc123.png"));
}

#[test]
fn details_sum_up_the_video() {
    let mut shell = Shell::new();
    shell.video("u", "abc123", "Source title", "+213", &["http://img/x.png", "http://img/y.png"]);
    let outcome = shell.run(Pipeline::details("u".to_string()));
    assert_eq!(
        outcome,
        Ok(Outcome::Details(VideoDetails {
            title: "Source title".to_string(),
            thumbnail: "http://img/x.png".to_string(),
            duration: 213,
        }))
    );
    assert_eq!(asked(&shell), vec!["describe"]);
}

#[test]
fn details_without_a_thumbnail_fail_on_the_index() {
    let mut shell = Shell::new();
    shell.video("u", "abc123", "S", "213", &[]);
    assert_eq!(shell.run(Pipeline::details("u".to_string())), Err(Error::Index));
}

#[test]
fn details_with_an_unreadable_length_fail_as_unresolved() {
    let mut shell = Shell::new();
    shell.video("u", "abc123", "S", "", &[]);
    assert_eq!(shell.run(Pipeline::details("u".to_string())), Err(Error::bad_duration("")));
}

#[test]
fn details_of_an_unknown_url_fail_as_unresolved() {
    let mut shell = Shell::new();
    assert_eq!(
        shell.run(Pipeline::details("nowhere".to_string())),
        Err(Error::Resolution("The video not found".to_string()))
    );
}

#[test]
fn list_creates_a_missing_catalog_empty() {
    let mut shell = Shell::new();
    let outcome = shell.run(Pipeline::list());
    assert_eq!(outcome, Ok(Outcome::Songs(Vec::new())));
    assert_eq!(asked(&shell), vec!["probe-catalog", "write-catalog", "read-catalog"]);
    assert!(shell.tracks().is_empty());
}

#[test]
fn list_gives_the_catalog_in_order() {
    let mut shell = Shell::with_tracks(three_songs());
    let outcome = shell.run(Pipeline::list());
    assert_eq!(outcome, Ok(Outcome::Songs(three_songs())));
    assert_eq!(asked(&shell), vec!["probe-catalog", "read-catalog"]);
    assert_eq!(shell.writes, 0);
}

#[test]
fn list_then_save_changes_nothing() {
    let mut shell = Shell::with_tracks(three_songs());
    let listed = match shell.run(Pipeline::list()) {
        Ok(Outcome::Songs(songs)) => songs,
        other => panic!("unexpected {:?}", other),
    };
    let reply = shell.answer(song_library::load::save(listed));
    assert_eq!(reply, Reply::Done);
    assert_eq!(shell.tracks(), &three_songs());
}

#[test]
fn list_of_a_corrupt_catalog_fails_on_the_format() {
    let mut shell = Shell::new();
    shell.document = Document::Corrupt;
    let outcome = shell.run(Pipeline::list());
    assert_eq!(outcome, Err(Error::Format("expected value at line 1 column 1".to_string())));
}

#[test]
fn list_that_cannot_create_the_catalog_fails() {
    let mut shell = Shell::new();
    shell.fail("write-catalog", Error::Io("read-only file system".to_string()));
    let outcome = shell.run(Pipeline::list());
    assert_eq!(outcome, Err(Error::Io("read-only file system".to_string())));
    assert_eq!(asked(&shell), vec!["probe-catalog", "write-catalog"]);
}

#[test]
fn edit_keeps_id_length_and_time_of_creation() {
    let mut shell = Shell::with_tracks(three_songs());
    let outcome = shell.run(Pipeline::edit(
        "second".to_string(),
        settings(3, 150, "Zwei", "/data/second.png", "Bea"),
    ));
    assert_eq!(outcome, Ok(Outcome::Edited));
    let tracks = shell.tracks();
    assert_eq!(tracks.len(), 3);
    assert_eq!(tracks[0], three_songs()[0]);
    assert_eq!(tracks[2], three_songs()[2]);
    assert_eq!(
        tracks[1],
        Song {
            id: "second".to_string(),
            title: "Zwei".to_string(),
            artist: "Bea".to_string(),
            thumbnail: "/data/second.png".to_string(),
            file: "/data/second.mp3".to_string(),
            duration: 200,
            created_at: 22,
            start: 3,
            end: 150,
        }
    );
}

#[test]
fn edit_with_the_stored_thumbnail_fetches_nothing() {
    let mut shell = Shell::with_tracks(three_songs());
    let outcome = shell
        .run(Pipeline::edit("first".to_string(), settings(0, 1, "T", "/data/first.png", "A")));
    assert_eq!(outcome, Ok(Outcome::Edited));
    assert!(shell.fetched.is_empty());
    assert_eq!(asked(&shell), vec!["probe-catalog", "read-catalog", "locate", "write-catalog"]);
}

#[test]
fn edit_with_another_thumbnail_fetches_it_over_the_old_one() {
    let mut shell = Shell::with_tracks(three_songs());
    let outcome = shell
        .run(Pipeline::edit("first".to_string(), settings(0, 1, "T", "http://img/new.png", "A")));
    assert_eq!(outcome, Ok(Outcome::Edited));
    assert_eq!(shell.fetched, vec![("http://img/new.png".to_string(), "first.png".to_string())]);
    assert_eq!(
        asked(&shell),
        vec!["probe-catalog", "read-catalog", "fetch-image", "locate", "write-catalog"]
    );
    assert_eq!(shell.tracks()[0].thumbnail, "/data/first.png");
    assert_eq!(shell.tracks()[0].file, "/data/first.mp3");
}

#[test]
fn edit_rederives_the_paths_from_the_id() {
    let mut songs = three_songs();
    songs[0].file = "/elsewhere/first.ogg".to_string();
    songs[0].thumbnail = "/elsewhere/first.jpg".to_string();
    let mut shell = Shell::with_tracks(songs);
    let outcome = shell
        .run(Pipeline::edit("first".to_string(), settings(0, 1, "T", "/elsewhere/first.jpg", "A")));
    assert_eq!(outcome, Ok(Outcome::Edited));
    assert!(shell.fetched.is_empty());
    assert_eq!(shell.tracks()[0].file, "/data/first.mp3");
    assert_eq!(shell.tracks()[0].thumbnail, "/data/first.png");
}

#[test]
fn edit_that_cannot_fetch_leaves_the_catalog() {
    let mut shell = Shell::with_tracks(three_songs());
    shell.fail("fetch-image", Error::Network("timed out".to_string()));
    let outcome = shell
        .run(Pipeline::edit("first".to_string(), settings(0, 1, "T", "http://img/new.png", "A")));
    assert_eq!(outcome, Err(Error::Network("timed out".to_string())));
    assert_eq!(shell.tracks(), &three_songs());
    assert_eq!(shell.writes, 0);
}

#[test]
fn edit_of_an_unknown_id_is_not_found() {
    let mut shell = Shell::with_tracks(three_songs());
    let outcome =
        shell.run(Pipeline::edit("nobody".to_string(), settings(0, 1, "T", "x", "A")));
    assert_eq!(outcome, Err(Error::NotFound("nobody".to_string())));
    assert_eq!(shell.tracks(), &three_songs());
    assert_eq!(shell.writes, 0);
    assert!(shell.fetched.is_empty());
    assert_eq!(asked(&shell), vec!["probe-catalog", "read-catalog"]);
}

#[test]
fn edit_takes_the_first_of_two_tracks_with_one_id() {
    let mut songs = three_songs();
    songs.push(song("first", "Again", "Ann", 5, 44));
    let mut shell = Shell::with_tracks(songs);
    let outcome = shell
        .run(Pipeline::edit("first".to_string(), settings(0, 1, "New", "/data/first.png", "A")));
    assert_eq!(outcome, Ok(Outcome::Edited));
    assert_eq!(shell.tracks()[0].title, "New");
    assert_eq!(shell.tracks()[0].duration, 100);
    assert_eq!(shell.tracks()[3].title, "Again");
}

#[test]
fn delete_removes_the_track_and_both_assets() {
    let mut shell = Shell::with_tracks(three_songs());
    let outcome = shell.run(Pipeline::delete("second".to_string()));
    assert_eq!(outcome, Ok(Outcome::Deleted));
    assert_eq!(shell.tracks(), &vec![three_songs().remove(0), three_songs().remove(2)]);
    assert!(!shell.has("second.mp3"));
    assert!(!shell.has("second.png"));
    assert!(shell.has("first.mp3") && shell.has("first.png"));
    assert!(shell.has("third.mp3") && shell.has("third.png"));
    assert_eq!(
        asked(&shell),
        vec!["probe-catalog", "read-catalog", "remove-asset", "remove-asset", "write-catalog"]
    );
    let listed = shell.run(Pipeline::list());
    match listed {
        Ok(Outcome::Songs(songs)) => assert!(songs.iter().all(|s| s.id != "second")),
        other => panic!("unexpected {:?}", other),
    }
}

#[test]
fn delete_goes_by_the_id_and_not_by_the_stored_paths() {
    let mut songs = three_songs();
    songs[0].file = "/elsewhere/first.ogg".to_string();
    let mut shell = Shell::with_tracks(songs);
    shell.assets.push("first.ogg".to_string());
    let outcome = shell.run(Pipeline::delete("first".to_string()));
    assert_eq!(outcome, Ok(Outcome::Deleted));
    assert!(!shell.has("first.mp3"));
    assert!(!shell.has("first.png"));
    assert!(shell.has("first.ogg"));
}

#[test]
fn delete_of_an_unknown_id_is_not_found() {
    let mut shell = Shell::with_tracks(three_songs());
    let outcome = shell.run(Pipeline::delete("nobody".to_string()));
    assert_eq!(outcome, Err(Error::NotFound("nobody".to_string())));
    assert_eq!(shell.tracks(), &three_songs());
    assert_eq!(shell.assets.len(), 6);
    assert_eq!(shell.writes, 0);
    assert_eq!(asked(&shell), vec!["probe-catalog", "read-catalog"]);
}

#[test]
fn delete_on_a_missing_catalog_creates_it_and_is_not_found() {
    let mut shell = Shell::new();
    let outcome = shell.run(Pipeline::delete("nobody".to_string()));
    assert_eq!(outcome, Err(Error::NotFound("nobody".to_string())));
    assert!(shell.tracks().is_empty());
    assert_eq!(shell.writes, 1);
}

#[test]
fn delete_stops_where_the_audio_cannot_go() {
    let mut shell = Shell::with_tracks(three_songs());
    shell.assets.retain(|a| a != "second.mp3");
    let outcome = shell.run(Pipeline::delete("second".to_string()));
    assert_eq!(outcome, Err(Error::Io("No such file or directory".to_string())));
    assert!(shell.has("second.png"));
    assert_eq!(shell.tracks(), &three_songs());
    assert_eq!(asked(&shell), vec!["probe-catalog", "read-catalog", "remove-asset"]);
}

#[test]
fn delete_stops_where_the_thumbnail_cannot_go() {
    let mut shell = Shell::with_tracks(three_songs());
    shell.assets.retain(|a| a != "second.png");
    let outcome = shell.run(Pipeline::delete("second".to_string()));
    assert_eq!(outcome, Err(Error::Io("No such file or directory".to_string())));
    assert!(!shell.has("second.mp3"));
    assert_eq!(shell.tracks(), &three_songs());
    assert_eq!(shell.writes, 0);
}

#[test]
fn delete_takes_the_first_of_two_tracks_with_one_id() {
    let mut songs = three_songs();
    songs.push(song("first", "Again", "Ann", 5, 44));
    let mut shell = Shell::with_tracks(songs);
    let outcome = shell.run(Pipeline::delete("first".to_string()));
    assert_eq!(outcome, Ok(Outcome::Deleted));
    let tracks = shell.tracks();
    assert_eq!(tracks.len(), 3);
    assert_eq!(tracks[0].id, "second");
    assert_eq!(tracks[2].title, "Again");
}

#[test]
fn an_answer_to_another_question_ends_the_operation() {
    let (pipeline, _) = Pipeline::list();
    assert_eq!(pipeline.advance(Reply::Clock(5)), Progress::Finish(Err(Error::Protocol)));
    let (pipeline, _) = Pipeline::details("u".to_string());
    assert_eq!(pipeline.advance(Reply::Done), Progress::Finish(Err(Error::Protocol)));
    let (pipeline, _) = Pipeline::download("u".to_string(), settings(0, 1, "T", "", "A"));
    assert_eq!(pipeline.advance(Reply::Probed(true)), Progress::Finish(Err(Error::Protocol)));
    let (pipeline, _) = Pipeline::edit("x".to_string(), settings(0, 1, "T", "", "A"));
    assert_eq!(
        pipeline.advance(Reply::Located { audio: "a".to_string(), thumbnail: "b".to_string() }),
        Progress::Finish(Err(Error::Protocol))
    );
    let (pipeline, _) = Pipeline::delete("x".to_string());
    assert_eq!(pipeline.advance(Reply::Catalog(Vec::new())), Progress::Finish(Err(Error::Protocol)));
}

#[test]
fn every_operation_begins_with_its_first_question() {
    assert_eq!(Pipeline::list().1, Request::ProbeCatalog { name: "songs.json".to_string() });
    assert_eq!(Pipeline::details("u".to_string()).1, Request::Describe { url: "u".to_string() });
    assert_eq!(
        Pipeline::download("u".to_string(), settings(0, 1, "T", "", "A")).1,
        Request::Describe { url: "u".to_string() }
    );
    assert_eq!(
        Pipeline::edit("x".to_string(), settings(0, 1, "T", "", "A")).1,
        Request::ProbeCatalog { name: "songs.json".to_string() }
    );
    assert_eq!(
        Pipeline::delete("x".to_string()).1,
        Request::ProbeCatalog { name: "songs.json".to_string() }
    );
}
