use std::marker::PhantomData;

use mpd_protocol::cmd::{
    Consume, Idle, Listall, ListallInfo, MpdCmd, MpdCmdParameters, Next, NoIdle, PlayAtPosition,
    PlayId, PlayPause, PlaylistInfo, Prev, QueueAdd, QueueClear, QueueDeleteId, QueueMoveId,
    Random, Repeat, Rescan, Search, Setvol, Stop, Update,
};
use mpd_protocol::cmd;
use mpd_protocol::cmdline::parse_cmdline;
use mpd_protocol::entity::{DatabaseVersion, FromRecord, ListEntry, ListallResponse, Stats, Status, Subsystem, Track};
use mpd_protocol::error::{DecodeError, MpdError};
use mpd_protocol::group::{group_records, LeadingKeys, Record};
use mpd_protocol::handlers::{MixedResponseResponse, OkResponse, RespMapResponse, ResponseHandler, Tracks};
use mpd_protocol::response::{parse_ack, parse_key_value, split_lines, tokenize, tokenize_text, KeyValue};
use mpd_protocol::session::{Session, SessionState};
use mpd_protocol::text::u32_to_decimal;

fn lines(v: &[&str]) -> Vec<String> {
    v.iter().map(|s| s.to_string()).collect()
}

fn kv(k: &str, v: &str) -> KeyValue {
    KeyValue { key: k.to_string(), value: v.to_string() }
}

fn pairs(r: &Record) -> Vec<(String, String)> {
    r.pairs.iter().map(|p| (p.key.clone(), p.value.clone())).collect()
}

#[test]
fn encodes_commands_without_arguments() {
    assert_eq!(Stop.to_cmdline(), "stop\n");
    assert_eq!(Next.to_cmdline(), "next\n");
    assert_eq!(Prev.to_cmdline(), "prev\n");
    assert_eq!(QueueClear.to_cmdline(), "clear\n");
    assert_eq!(PlaylistInfo.to_cmdline(), "playlistinfo\n");
    assert_eq!(Idle.to_cmdline(), "idle\n");
    assert_eq!(NoIdle.to_cmdline(), "noidle\n");
    assert_eq!(cmd::Status.to_cmdline(), "status\n");
    assert_eq!(cmd::Stats.to_cmdline(), "stats\n");
    assert_eq!(ListallInfo(None).to_cmdline(), "listallinfo\n");
    assert_eq!(Listall(None).to_cmdline(), "listall\n");
    assert_eq!(Update(None).to_cmdline(), "update\n");
    assert_eq!(Rescan(None).to_cmdline(), "rescan\n");
    assert_eq!(Search(None).to_cmdline(), "search\n");
}

#[test]
fn encodes_one_string_argument() {
    assert_eq!(ListallInfo(Some("music/rock")).to_cmdline(), "listallinfo \"music/rock\"\n");
    assert_eq!(Listall(Some("a b")).to_cmdline(), "listall \"a b\"\n");
    assert_eq!(Update(Some("new")).to_cmdline(), "update \"new\"\n");
    assert_eq!(Rescan(Some("old")).to_cmdline(), "rescan \"old\"\n");
    assert_eq!(Search(Some("any x")).to_cmdline(), "search \"any x\"\n");
    assert_eq!(QueueAdd("a.mp3", None).to_cmdline(), "add \"a.mp3\"\n");
}

#[test]
fn encodes_numbers_and_flags_as_quoted_text() {
    assert_eq!(Setvol(50).to_cmdline(), "setvol \"50\"\n");
    assert_eq!(PlayId(0).to_cmdline(), "playid \"0\"\n");
    assert_eq!(PlayAtPosition(4294967295).to_cmdline(), "play \"4294967295\"\n");
    assert_eq!(QueueDeleteId(107).to_cmdline(), "deleteid \"107\"\n");
    assert_eq!(Repeat(true).to_cmdline(), "repeat \"1\"\n");
    assert_eq!(Random(false).to_cmdline(), "random \"0\"\n");
    assert_eq!(Consume(true).to_cmdline(), "consume \"1\"\n");
    assert_eq!(PlayPause(false).to_cmdline(), "pause \"0\"\n");
}

#[test]
fn encodes_two_arguments() {
    assert_eq!(QueueAdd("a.mp3", Some("3")).to_cmdline(), "add \"a.mp3\" \"3\"\n");
    assert_eq!(QueueMoveId(13, "2").to_cmdline(), "moveid 13 \"2\"\n");
}

#[test]
fn argument_values() {
    match QueueMoveId(13, "2").argument() {
        Some(MpdCmdParameters::U32AndString(n, s)) => {
            assert_eq!(n, 13);
            assert_eq!(s, "2");
        }
        _ => panic!("wrong argument shape"),
    }
    match QueueAdd("x", Some("1")).argument() {
        Some(MpdCmdParameters::StringAndString(a, b)) => {
            assert_eq!(a, "x");
            assert_eq!(b, "1");
        }
        _ => panic!("wrong argument shape"),
    }
    assert!(Stop.argument().is_none());
}

#[test]
fn decimal_text() {
    assert_eq!(u32_to_decimal(0), "0");
    assert_eq!(u32_to_decimal(10), "10");
    assert_eq!(u32_to_decimal(4294967295), "4294967295");
}

#[test]
fn key_value_split_keeps_colons_in_value() {
    let p = parse_key_value("file: dir/a:b.mp3").unwrap();
    assert_eq!(p.key, "file");
    assert_eq!(p.value, "dir/a:b.mp3");
    let q = parse_key_value("  Title :  X ").unwrap();
    assert_eq!(q.key, "Title");
    assert_eq!(q.value, " X ");
    let r = parse_key_value("empty:").unwrap();
    assert_eq!(r.key, "empty");
    assert_eq!(r.value, "");
    assert!(parse_key_value("no colon here").is_none());
}

#[test]
fn tokenizes_pairs_up_to_ok() {
    let r = tokenize(&lines(&["volume: 50", "repeat: 1", "OK"])).unwrap();
    assert_eq!(r.len(), 2);
    assert_eq!(r[0].key, "volume");
    assert_eq!(r[0].value, "50");
    assert_eq!(r[1].key, "repeat");
    assert_eq!(r[1].value, "1");
    let empty = tokenize(&lines(&["OK"])).unwrap();
    assert!(empty.is_empty());
}

#[test]
fn missing_terminal_line_is_truncated() {
    assert!(matches!(tokenize(&lines(&["volume: 50", "repeat: 1"])), Err(MpdError::TruncatedResponse)));
    assert!(matches!(tokenize(&lines(&[])), Err(MpdError::TruncatedResponse)));
}

#[test]
fn ack_line_gives_protocol_error() {
    match tokenize(&lines(&["ACK [5@0] {play} song doesn't exist"])) {
        Err(MpdError::Protocol(e)) => {
            assert_eq!(e.code, 5);
            assert_eq!(e.index, 0);
            assert_eq!(e.command, "play");
            assert_eq!(e.message, "song doesn't exist");
        }
        _ => panic!("expected a protocol error"),
    }
    let e = parse_ack("ACK [50@12] {} no command").unwrap();
    assert_eq!(e.code, 50);
    assert_eq!(e.index, 12);
    assert_eq!(e.command, "");
    assert_eq!(e.message, "no command");
}

#[test]
fn ack_after_data_still_ends_reply() {
    match tokenize(&lines(&["volume: 50", "ACK [2@1] {setvol} bad", "OK"])) {
        Err(MpdError::Protocol(e)) => {
            assert_eq!(e.code, 2);
            assert_eq!(e.index, 1);
            assert_eq!(e.command, "setvol");
            assert_eq!(e.message, "bad");
        }
        _ => panic!("expected a protocol error"),
    }
}

#[test]
fn unparseable_ack_and_malformed_line() {
    assert!(matches!(tokenize(&lines(&["ACK oops"])), Err(MpdError::UnparseableAck)));
    assert!(matches!(tokenize(&lines(&["ACK [x@0] {play} m"])), Err(MpdError::UnparseableAck)));
    assert!(parse_ack("ACK [1@0] {play}").is_none());
    assert!(matches!(
        tokenize(&lines(&["garbage", "OK"])),
        Err(MpdError::Decode(DecodeError::MalformedLine))
    ));
}

#[test]
fn groups_two_track_records() {
    let kvs = vec![kv("file", "a.mp3"), kv("Title", "A"), kv("file", "b.mp3"), kv("Title", "B")];
    let g = group_records(&kvs, LeadingKeys::Tracks);
    assert_eq!(g.len(), 2);
    assert_eq!(pairs(&g[0]), vec![("file".to_string(), "a.mp3".to_string()), ("Title".to_string(), "A".to_string())]);
    assert_eq!(pairs(&g[1]), vec![("file".to_string(), "b.mp3".to_string()), ("Title".to_string(), "B".to_string())]);
}

#[test]
fn grouping_drops_pairs_before_first_leading_key() {
    let kvs = vec![kv("Title", "stray"), kv("file", "a.mp3"), kv("Artist", "X")];
    let g = group_records(&kvs, LeadingKeys::Tracks);
    assert_eq!(g.len(), 1);
    assert_eq!(pairs(&g[0]), vec![("file".to_string(), "a.mp3".to_string()), ("Artist".to_string(), "X".to_string())]);
    assert!(group_records(&vec![], LeadingKeys::Entries).is_empty());
}

#[test]
fn entry_grouping_splits_on_each_kind() {
    let kvs = vec![kv("directory", "d"), kv("Last-Modified", "t"), kv("file", "f.mp3"), kv("playlist", "p")];
    let g = group_records(&kvs, LeadingKeys::Entries);
    assert_eq!(g.len(), 3);
    assert_eq!(g[0].pairs.len(), 2);
    assert_eq!(g[1].pairs[0].value, "f.mp3");
    assert_eq!(g[2].pairs[0].key, "playlist");
}

#[test]
fn record_lookup_takes_the_later_value() {
    let r = Record { pairs: vec![kv("Title", "old"), kv("Title", "new")] };
    assert_eq!(r.get("Title").unwrap(), "new");
    assert!(r.get("Artist").is_none());
}

#[test]
fn ack_only_handler() {
    assert!(OkResponse::handle(&lines(&["OK"])).is_ok());
    assert!(matches!(
        OkResponse::handle(&lines(&["volume: 50", "OK"])),
        Err(MpdError::Decode(DecodeError::UnexpectedPayload))
    ));
    assert!(matches!(OkResponse::handle(&lines(&["ACK [5@0] {play} no"])), Err(MpdError::Protocol(_))));
}

#[test]
fn status_map_decodes_numbers_and_flags() {
    let st = RespMapResponse::<Status>::handle(&lines(&["volume: 50", "repeat: 1", "OK"])).unwrap();
    assert_eq!(st.volume, Some(50));
    assert_eq!(st.repeat, Some(true));
    assert_eq!(st.random, None);
    assert_eq!(st.state, None);
}

#[test]
fn status_ignores_unknown_keys_and_reads_all_fields() {
    let st = RespMapResponse::<Status>::handle(&lines(&[
        "volume: 7", "repeat: 0", "random: 1", "consume: 0", "song: 3", "songid: 9",
        "playlistlength: 12", "state: play", "xfade: 5", "OK",
    ]))
    .unwrap();
    assert_eq!(st.volume, Some(7));
    assert_eq!(st.repeat, Some(false));
    assert_eq!(st.random, Some(true));
    assert_eq!(st.consume, Some(false));
    assert_eq!(st.song, Some(3));
    assert_eq!(st.songid, Some(9));
    assert_eq!(st.playlistlength, Some(12));
    assert_eq!(st.state, Some("play".to_string()));
}

#[test]
fn non_numeric_field_is_a_decode_error() {
    match RespMapResponse::<Status>::handle(&lines(&["volume: loud", "OK"])) {
        Err(MpdError::Decode(DecodeError::BadValue(k))) => assert_eq!(k, "volume"),
        _ => panic!("expected a decode error"),
    }
    match RespMapResponse::<Status>::handle(&lines(&["repeat: yes", "OK"])) {
        Err(MpdError::Decode(DecodeError::BadValue(k))) => assert_eq!(k, "repeat"),
        _ => panic!("expected a decode error"),
    }
    match RespMapResponse::<Stats>::handle(&lines(&["uptime: 4294967296", "OK"])) {
        Err(MpdError::Decode(DecodeError::BadValue(k))) => assert_eq!(k, "uptime"),
        _ => panic!("expected a decode error"),
    }
}

#[test]
fn stats_database_version_and_subsystem() {
    let s = RespMapResponse::<Stats>::handle(&lines(&["artists: 3", "albums: 4", "songs: 50", "uptime: 100", "OK"])).unwrap();
    assert_eq!(s.artists, Some(3));
    assert_eq!(s.albums, Some(4));
    assert_eq!(s.songs, Some(50));
    assert_eq!(s.uptime, Some(100));
    assert_eq!(s.db_update, None);
    let d = RespMapResponse::<DatabaseVersion>::handle(&lines(&["updating_db: 42", "OK"])).unwrap();
    assert_eq!(d.updating_db, Some(42));
    let sub = RespMapResponse::<Subsystem>::handle(&lines(&["changed: player", "OK"])).unwrap();
    assert_eq!(sub.changed, Some("player".to_string()));
    let _ = PhantomData::<u8>;
}

#[test]
fn track_list_decodes_each_record() {
    let t = Tracks::handle(&lines(&["file: a.mp3", "Title: A", "Id: 1", "file: b.mp3", "Title: B", "Pos: 2", "OK"])).unwrap();
    assert_eq!(t.len(), 2);
    assert_eq!(t[0].file, "a.mp3");
    assert_eq!(t[0].title, Some("A".to_string()));
    assert_eq!(t[0].id, Some(1));
    assert_eq!(t[1].file, "b.mp3");
    assert_eq!(t[1].pos, Some(2));
    assert_eq!(t[1].id, None);
    assert!(Tracks::handle(&lines(&["OK"])).unwrap().is_empty());
}

#[test]
fn track_list_fails_whole_on_one_bad_record() {
    match Tracks::handle(&lines(&["file: a.mp3", "Id: 1", "file: b.mp3", "Id: x", "OK"])) {
        Err(MpdError::Decode(DecodeError::BadValue(k))) => assert_eq!(k, "Id"),
        _ => panic!("expected a decode error"),
    }
}

#[test]
fn track_needs_a_file() {
    let r = Record { pairs: vec![kv("Title", "A")] };
    match Track::from_record(&r) {
        Err(MpdError::Decode(DecodeError::MissingKey(k))) => assert_eq!(k, "file"),
        _ => panic!("expected a missing key"),
    }
}

#[test]
fn mixed_listing_selects_variant_by_leading_key() {
    let e = MixedResponseResponse::handle(&lines(&[
        "directory: music", "Last-Modified: t", "file: music/a.mp3", "Title: A", "playlist: fav", "OK",
    ]))
    .unwrap();
    assert_eq!(e.len(), 3);
    assert!(matches!(&e[0], ListEntry::Directory(p) if p == "music"));
    assert!(matches!(&e[1], ListEntry::File(t) if t.file == "music/a.mp3" && t.title == Some("A".to_string())));
    assert!(matches!(&e[2], ListEntry::Playlist(p) if p == "fav"));
}

#[test]
fn listall_collects_paths_by_kind() {
    let l: ListallResponse = RespMapResponse::<ListallResponse>::handle(&lines(&[
        "directory: d", "file: d/a.mp3", "file: d/b.mp3", "playlist: p", "OK",
    ]))
    .unwrap();
    assert_eq!(l.directories, vec!["d".to_string()]);
    assert_eq!(l.files, vec!["d/a.mp3".to_string(), "d/b.mp3".to_string()]);
    assert_eq!(l.playlists, vec!["p".to_string()]);
}

#[test]
fn session_interrupt_when_idle_off_is_no_op() {
    let mut s = Session::new();
    assert!(s.issue(NoIdle::CMD).is_ok());
    assert!(s.state == SessionState::IdleOff);
}

#[test]
fn session_idle_wait_admits_only_interrupt() {
    let mut s = Session::new();
    assert!(s.issue(Idle::CMD).is_ok());
    assert!(s.state == SessionState::IdleWaiting);
    assert!(matches!(s.issue(Stop::CMD), Err(MpdError::State)));
    assert!(s.state == SessionState::IdleWaiting);
    assert!(s.issue(NoIdle::CMD).is_ok());
    assert!(s.complete().is_ok());
    assert!(s.state == SessionState::IdleOff);
}

#[test]
fn session_one_command_at_a_time() {
    let mut s = Session::new();
    assert!(s.issue(Stop::CMD).is_ok());
    assert!(s.state == SessionState::CommandInFlight);
    assert!(matches!(s.issue(Next::CMD), Err(MpdError::State)));
    assert!(s.complete().is_ok());
    assert!(s.state == SessionState::IdleOff);
    assert!(matches!(s.complete(), Err(MpdError::State)));
}

fn decoded(line: &str) -> (String, Option<MpdCmdParameters>) {
    parse_cmdline(line).expect("line decodes")
}

#[test]
fn decode_of_encode_gives_back_arguments() {
    let (name, arg) = decoded(&Stop.to_cmdline());
    assert_eq!(name, "stop");
    assert!(arg.is_none());
    match decoded(&QueueAdd("a b.mp3", Some("3")).to_cmdline()) {
        (name, Some(MpdCmdParameters::StringAndString(a, b))) => {
            assert_eq!(name, "add");
            assert_eq!(a, "a b.mp3");
            assert_eq!(b, "3");
        }
        _ => panic!("wrong shape"),
    }
    match decoded(&QueueMoveId(13, "2").to_cmdline()) {
        (name, Some(MpdCmdParameters::U32AndString(n, a))) => {
            assert_eq!(name, "moveid");
            assert_eq!(n, 13);
            assert_eq!(a, "2");
        }
        _ => panic!("wrong shape"),
    }
    match decoded(&Setvol(75).to_cmdline()) {
        (name, Some(MpdCmdParameters::String(a))) => {
            assert_eq!(name, "setvol");
            assert_eq!(a, "75");
        }
        _ => panic!("wrong shape"),
    }
    match decoded(&Search(Some("")).to_cmdline()) {
        (name, Some(MpdCmdParameters::String(a))) => {
            assert_eq!(name, "search");
            assert_eq!(a, "");
        }
        _ => panic!("wrong shape"),
    }
    match decoded(&QueueAdd("", Some("")).to_cmdline()) {
        (_, Some(MpdCmdParameters::StringAndString(a, b))) => {
            assert_eq!(a, "");
            assert_eq!(b, "");
        }
        _ => panic!("wrong shape"),
    }
}

#[test]
fn decoder_rejects_malformed_lines() {
    assert!(parse_cmdline("stop").is_none());
    assert!(parse_cmdline("add \"unterminated\n").is_none());
    assert!(parse_cmdline("moveid x \"2\"\n").is_none());
    assert!(parse_cmdline("add \"a\" b\n").is_none());
}

#[test]
fn splits_raw_text_into_lines() {
    assert_eq!(split_lines("a: 1\nOK\n"), vec!["a: 1".to_string(), "OK".to_string()]);
    assert_eq!(split_lines("a: 1\n\nOK"), vec!["a: 1".to_string(), "".to_string(), "OK".to_string()]);
    assert!(split_lines("").is_empty());
}

#[test]
fn raw_ack_reply_gives_protocol_error() {
    match tokenize_text("ACK [5@0] {play} song doesn't exist\n") {
        Err(MpdError::Protocol(e)) => {
            assert_eq!(e.code, 5);
            assert_eq!(e.index, 0);
            assert_eq!(e.command, "play");
            assert_eq!(e.message, "song doesn't exist");
        }
        _ => panic!("expected a protocol error"),
    }
    assert!(matches!(tokenize_text("volume: 50\nrepeat: 1\n"), Err(MpdError::TruncatedResponse)));
}

#[test]
fn raw_track_listing_groups_into_two_records() {
    let kvs = tokenize_text("file: a.mp3\nTitle: A\nfile: b.mp3\nTitle: B\nOK\n").unwrap();
    let g = group_records(&kvs, LeadingKeys::Tracks);
    assert_eq!(g.len(), 2);
    assert_eq!(pairs(&g[0]), vec![("file".to_string(), "a.mp3".to_string()), ("Title".to_string(), "A".to_string())]);
    assert_eq!(pairs(&g[1]), vec![("file".to_string(), "b.mp3".to_string()), ("Title".to_string(), "B".to_string())]);
}
