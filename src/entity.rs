//! Typed entities, each decoded from one record.

use vstd::prelude::*;
use crate::error::{DecodeError, DecodeErrorView, ErrorView, MpdError};
use crate::fields::{flag_field, flag_field_of, opt_str_view, str_field_of, u32_field, u32_field_of};
use crate::group::{directory_key, file_key, is_leading, lookup, playlist_key, LeadingKeys, Record};

verus! {

/// A value decoded from one record.
pub trait FromRecord: Sized {
    /// The error that decoding the record meets first, if any.
    spec fn record_error(rec: Seq<(Seq<char>, Seq<char>)>) -> Option<ErrorView>;

    /// `v` holds what the record gives.
    spec fn record_fields(rec: Seq<(Seq<char>, Seq<char>)>, v: Self) -> bool;

    fn from_record(rec: &Record) -> (r: Result<Self, MpdError>)
        ensures
            match r {
                Ok(v) => Self::record_error(rec@) is None && Self::record_fields(rec@, v),
                Err(e) => Self::record_error(rec@) == Some(e@),
            },
    ;
}

pub open spec fn missing_key(key: Seq<char>) -> ErrorView {
    ErrorView::Decode(DecodeErrorView::MissingKey(key))
}

/// A snapshot of the player's state.
pub struct Status {
    pub volume: Option<u32>,
    pub repeat: Option<bool>,
    pub random: Option<bool>,
    pub consume: Option<bool>,
    pub song: Option<u32>,
    pub songid: Option<u32>,
    pub playlistlength: Option<u32>,
    pub state: Option<String>,
}

/// The first field of the record, in declaration order, that does not decode.
pub open spec fn status_error(rec: Seq<(Seq<char>, Seq<char>)>) -> Option<ErrorView> {
    if u32_field(rec, "volume"@) is Err {
        Some(u32_field(rec, "volume"@)->Err_0)
    } else if flag_field(rec, "repeat"@) is Err {
        Some(flag_field(rec, "repeat"@)->Err_0)
    } else if flag_field(rec, "random"@) is Err {
        Some(flag_field(rec, "random"@)->Err_0)
    } else if flag_field(rec, "consume"@) is Err {
        Some(flag_field(rec, "consume"@)->Err_0)
    } else if u32_field(rec, "song"@) is Err {
        Some(u32_field(rec, "song"@)->Err_0)
    } else if u32_field(rec, "songid"@) is Err {
        Some(u32_field(rec, "songid"@)->Err_0)
    } else if u32_field(rec, "playlistlength"@) is Err {
        Some(u32_field(rec, "playlistlength"@)->Err_0)
    } else {
        None
    }
}

/// The fields of a decoded value, each as the record gives it.
pub open spec fn status_fields(rec: Seq<(Seq<char>, Seq<char>)>, v: Status) -> bool {
    &&& u32_field(rec, "volume"@) == Ok::<Option<u32>, ErrorView>(v.volume)
    &&& flag_field(rec, "repeat"@) == Ok::<Option<bool>, ErrorView>(v.repeat)
    &&& flag_field(rec, "random"@) == Ok::<Option<bool>, ErrorView>(v.random)
    &&& flag_field(rec, "consume"@) == Ok::<Option<bool>, ErrorView>(v.consume)
    &&& u32_field(rec, "song"@) == Ok::<Option<u32>, ErrorView>(v.song)
    &&& u32_field(rec, "songid"@) == Ok::<Option<u32>, ErrorView>(v.songid)
    &&& u32_field(rec, "playlistlength"@) == Ok::<Option<u32>, ErrorView>(v.playlistlength)
    &&& opt_str_view(v.state) == lookup(rec, "state"@)
}

impl FromRecord for Status {
    open spec fn record_error(rec: Seq<(Seq<char>, Seq<char>)>) -> Option<ErrorView> {
        status_error(rec)
    }

    open spec fn record_fields(rec: Seq<(Seq<char>, Seq<char>)>, v: Status) -> bool {
        status_fields(rec, v)
    }

    /// Decodes one record; unknown keys are ignored.
    fn from_record(rec: &Record) -> (r: Result<Status, MpdError>) {
        let volume = match u32_field_of(rec, "volume") {
            Ok(v) => v,
            Err(e) => return Err(e),
        };
        let repeat = match flag_field_of(rec, "repeat") {
            Ok(v) => v,
            Err(e) => return Err(e),
        };
        let random = match flag_field_of(rec, "random") {
            Ok(v) => v,
            Err(e) => return Err(e),
        };
        let consume = match flag_field_of(rec, "consume") {
            Ok(v) => v,
            Err(e) => return Err(e),
        };
        let song = match u32_field_of(rec, "song") {
            Ok(v) => v,
            Err(e) => return Err(e),
        };
        let songid = match u32_field_of(rec, "songid") {
            Ok(v) => v,
            Err(e) => return Err(e),
        };
        let playlistlength = match u32_field_of(rec, "playlistlength") {
            Ok(v) => v,
            Err(e) => return Err(e),
        };
        let state = str_field_of(rec, "state");
        Ok(Status { volume, repeat, random, consume, song, songid, playlistlength, state })
    }
}

/// Counters of the daemon and its database.
pub struct Stats {
    pub artists: Option<u32>,
    pub albums: Option<u32>,
    pub songs: Option<u32>,
    pub uptime: Option<u32>,
    pub playtime: Option<u32>,
    pub db_playtime: Option<u32>,
    pub db_update: Option<u32>,
}

/// The first field of the record, in declaration order, that does not decode.
pub open spec fn stats_error(rec: Seq<(Seq<char>, Seq<char>)>) -> Option<ErrorView> {
    if u32_field(rec, "artists"@) is Err {
        Some(u32_field(rec, "artists"@)->Err_0)
    } else if u32_field(rec, "albums"@) is Err {
        Some(u32_field(rec, "albums"@)->Err_0)
    } else if u32_field(rec, "songs"@) is Err {
        Some(u32_field(rec, "songs"@)->Err_0)
    } else if u32_field(rec, "uptime"@) is Err {
        Some(u32_field(rec, "uptime"@)->Err_0)
    } else if u32_field(rec, "playtime"@) is Err {
        Some(u32_field(rec, "playtime"@)->Err_0)
    } else if u32_field(rec, "db_playtime"@) is Err {
        Some(u32_field(rec, "db_playtime"@)->Err_0)
    } else if u32_field(rec, "db_update"@) is Err {
        Some(u32_field(rec, "db_update"@)->Err_0)
    } else {
        None
    }
}

/// The fields of a decoded value, each as the record gives it.
pub open spec fn stats_fields(rec: Seq<(Seq<char>, Seq<char>)>, v: Stats) -> bool {
    &&& u32_field(rec, "artists"@) == Ok::<Option<u32>, ErrorView>(v.artists)
    &&& u32_field(rec, "albums"@) == Ok::<Option<u32>, ErrorView>(v.albums)
    &&& u32_field(rec, "songs"@) == Ok::<Option<u32>, ErrorView>(v.songs)
    &&& u32_field(rec, "uptime"@) == Ok::<Option<u32>, ErrorView>(v.uptime)
    &&& u32_field(rec, "playtime"@) == Ok::<Option<u32>, ErrorView>(v.playtime)
    &&& u32_field(rec, "db_playtime"@) == Ok::<Option<u32>, ErrorView>(v.db_playtime)
    &&& u32_field(rec, "db_update"@) == Ok::<Option<u32>, ErrorView>(v.db_update)
}

impl FromRecord for Stats {
    open spec fn record_error(rec: Seq<(Seq<char>, Seq<char>)>) -> Option<ErrorView> {
        stats_error(rec)
    }

    open spec fn record_fields(rec: Seq<(Seq<char>, Seq<char>)>, v: Stats) -> bool {
        stats_fields(rec, v)
    }

    /// Decodes one record; unknown keys are ignored.
    fn from_record(rec: &Record) -> (r: Result<Stats, MpdError>) {
        let artists = match u32_field_of(rec, "artists") {
            Ok(v) => v,
            Err(e) => return Err(e),
        };
        let albums = match u32_field_of(rec, "albums") {
            Ok(v) => v,
            Err(e) => return Err(e),
        };
        let songs = match u32_field_of(rec, "songs") {
            Ok(v) => v,
            Err(e) => return Err(e),
        };
        let uptime = match u32_field_of(rec, "uptime") {
            Ok(v) => v,
            Err(e) => return Err(e),
        };
        let playtime = match u32_field_of(rec, "playtime") {
            Ok(v) => v,
            Err(e) => return Err(e),
        };
        let db_playtime = match u32_field_of(rec, "db_playtime") {
            Ok(v) => v,
            Err(e) => return Err(e),
        };
        let db_update = match u32_field_of(rec, "db_update") {
            Ok(v) => v,
            Err(e) => return Err(e),
        };
        Ok(Stats { artists, albums, songs, uptime, playtime, db_playtime, db_update })
    }
}

/// The job number of a database update that was started.
pub struct DatabaseVersion {
    pub updating_db: Option<u32>,
}

/// The first field of the record, in declaration order, that does not decode.
pub open spec fn database_version_error(rec: Seq<(Seq<char>, Seq<char>)>) -> Option<ErrorView> {
    if u32_field(rec, "updating_db"@) is Err {
        Some(u32_field(rec, "updating_db"@)->Err_0)
    } else {
        None
    }
}

/// The fields of a decoded value, each as the record gives it.
pub open spec fn database_version_fields(rec: Seq<(Seq<char>, Seq<char>)>, v: DatabaseVersion) -> bool {
    &&& u32_field(rec, "updating_db"@) == Ok::<Option<u32>, ErrorView>(v.updating_db)
}

impl FromRecord for DatabaseVersion {
    open spec fn record_error(rec: Seq<(Seq<char>, Seq<char>)>) -> Option<ErrorView> {
        database_version_error(rec)
    }

    open spec fn record_fields(rec: Seq<(Seq<char>, Seq<char>)>, v: DatabaseVersion) -> bool {
        database_version_fields(rec, v)
    }

    /// Decodes one record; unknown keys are ignored.
    fn from_record(rec: &Record) -> (r: Result<DatabaseVersion, MpdError>) {
        let updating_db = match u32_field_of(rec, "updating_db") {
            Ok(v) => v,
            Err(e) => return Err(e),
        };
        Ok(DatabaseVersion { updating_db })
    }
}

/// The subsystem whose change ended an idle wait.
pub struct Subsystem {
    pub changed: Option<String>,
}

/// The first field of the record, in declaration order, that does not decode.
pub open spec fn subsystem_error(rec: Seq<(Seq<char>, Seq<char>)>) -> Option<ErrorView> {
    None
}

/// The fields of a decoded value, each as the record gives it.
pub open spec fn subsystem_fields(rec: Seq<(Seq<char>, Seq<char>)>, v: Subsystem) -> bool {
    &&& opt_str_view(v.changed) == lookup(rec, "changed"@)
}

impl FromRecord for Subsystem {
    open spec fn record_error(rec: Seq<(Seq<char>, Seq<char>)>) -> Option<ErrorView> {
        subsystem_error(rec)
    }

    open spec fn record_fields(rec: Seq<(Seq<char>, Seq<char>)>, v: Subsystem) -> bool {
        subsystem_fields(rec, v)
    }

    /// Decodes one record; unknown keys are ignored.
    fn from_record(rec: &Record) -> (r: Result<Subsystem, MpdError>) {
        let changed = str_field_of(rec, "changed");
        Ok(Subsystem { changed })
    }
}

/// One song of a listing; it always has a file.
pub struct Track {
    pub file: String,
    pub title: Option<String>,
    pub artist: Option<String>,
    pub album: Option<String>,
    pub id: Option<u32>,
    pub pos: Option<u32>,
    pub time: Option<u32>,
}

/// The first field of the record, in declaration order, that does not decode.
pub open spec fn track_error(rec: Seq<(Seq<char>, Seq<char>)>) -> Option<ErrorView> {
    if lookup(rec, "file"@) is None {
        Some(missing_key("file"@))
    } else if u32_field(rec, "Id"@) is Err {
        Some(u32_field(rec, "Id"@)->Err_0)
    } else if u32_field(rec, "Pos"@) is Err {
        Some(u32_field(rec, "Pos"@)->Err_0)
    } else if u32_field(rec, "Time"@) is Err {
        Some(u32_field(rec, "Time"@)->Err_0)
    } else {
        None
    }
}

/// The fields of a decoded value, each as the record gives it.
pub open spec fn track_fields(rec: Seq<(Seq<char>, Seq<char>)>, v: Track) -> bool {
    &&& lookup(rec, "file"@) == Some(v.file@)
    &&& opt_str_view(v.title) == lookup(rec, "Title"@)
    &&& opt_str_view(v.artist) == lookup(rec, "Artist"@)
    &&& opt_str_view(v.album) == lookup(rec, "Album"@)
    &&& u32_field(rec, "Id"@) == Ok::<Option<u32>, ErrorView>(v.id)
    &&& u32_field(rec, "Pos"@) == Ok::<Option<u32>, ErrorView>(v.pos)
    &&& u32_field(rec, "Time"@) == Ok::<Option<u32>, ErrorView>(v.time)
}

impl FromRecord for Track {
    open spec fn record_error(rec: Seq<(Seq<char>, Seq<char>)>) -> Option<ErrorView> {
        track_error(rec)
    }

    open spec fn record_fields(rec: Seq<(Seq<char>, Seq<char>)>, v: Track) -> bool {
        track_fields(rec, v)
    }

    /// Decodes one record; unknown keys are ignored.
    fn from_record(rec: &Record) -> (r: Result<Track, MpdError>) {
        let file = match str_field_of(rec, "file") {
            Some(v) => v,
            None => return Err(MpdError::Decode(DecodeError::MissingKey("file".to_string()))),
        };
        let id = match u32_field_of(rec, "Id") {
            Ok(v) => v,
            Err(e) => return Err(e),
        };
        let pos = match u32_field_of(rec, "Pos") {
            Ok(v) => v,
            Err(e) => return Err(e),
        };
        let time = match u32_field_of(rec, "Time") {
            Ok(v) => v,
            Err(e) => return Err(e),
        };
        let title = str_field_of(rec, "Title");
        let artist = str_field_of(rec, "Artist");
        let album = str_field_of(rec, "Album");
        Ok(Track { file, title, artist, album, id, pos, time })
    }
}

/// The values of every pair with this key, in order.
pub open spec fn values_of(rec: Seq<(Seq<char>, Seq<char>)>, key: Seq<char>) -> Seq<Seq<char>>
    decreases rec.len(),
{
    if rec.len() == 0 {
        Seq::empty()
    } else if rec.last().0 == key {
        values_of(rec.drop_last(), key).push(rec.last().1)
    } else {
        values_of(rec.drop_last(), key)
    }
}

pub open spec fn strings_view(v: Seq<String>) -> Seq<Seq<char>> {
    v.map_values(|s: String| s@)
}

/// The paths of a database listing, by kind.
pub struct ListallResponse {
    pub files: Vec<String>,
    pub directories: Vec<String>,
    pub playlists: Vec<String>,
}

pub open spec fn listall_fields(rec: Seq<(Seq<char>, Seq<char>)>, v: ListallResponse) -> bool {
    &&& strings_view(v.files@) == values_of(rec, file_key())
    &&& strings_view(v.directories@) == values_of(rec, directory_key())
    &&& strings_view(v.playlists@) == values_of(rec, playlist_key())
}

impl FromRecord for ListallResponse {
    open spec fn record_error(rec: Seq<(Seq<char>, Seq<char>)>) -> Option<ErrorView> {
        None
    }

    open spec fn record_fields(rec: Seq<(Seq<char>, Seq<char>)>, v: ListallResponse) -> bool {
        listall_fields(rec, v)
    }

    /// Collects the paths of every `file`, `directory` and `playlist` pair.
    fn from_record(rec: &Record) -> (r: Result<ListallResponse, MpdError>) {
        proof {
            reveal_strlit("file");
            reveal_strlit("directory");
            reveal_strlit("playlist");
            assert("file"@ =~= file_key());
            assert("directory"@ =~= directory_key());
            assert("playlist"@ =~= playlist_key());
        }
        let mut files: Vec<String> = Vec::new();
        let mut directories: Vec<String> = Vec::new();
        let mut playlists: Vec<String> = Vec::new();
        let mut i: usize = 0;
        while i < rec.pairs.len()
            invariant
                i <= rec.pairs.len(),
                strings_view(files@) == values_of(rec@.subrange(0, i as int), file_key()),
                strings_view(directories@) == values_of(rec@.subrange(0, i as int), directory_key()),
                strings_view(playlists@) == values_of(rec@.subrange(0, i as int), playlist_key()),
            decreases rec.pairs.len() - i,
        {
            proof {
                reveal_strlit("file");
                reveal_strlit("directory");
                reveal_strlit("playlist");
                assert("file"@ =~= file_key());
                assert("directory"@ =~= directory_key());
                assert("playlist"@ =~= playlist_key());
                assert(file_key().len() != directory_key().len());
                assert(file_key().len() != playlist_key().len());
                assert(playlist_key().len() != directory_key().len());
            }
            let kv = &rec.pairs[i];
            let ghost p = rec@.subrange(0, i + 1);
            assert(p.drop_last() =~= rec@.subrange(0, i as int));
            assert(p.last() == kv@);
            if crate::group::str_eq(kv.key.as_str(), "file") {
                let ghost before = files@;
                files.push(kv.value.clone());
                assert(strings_view(files@) =~= strings_view(before).push(kv.value@));
            } else if crate::group::str_eq(kv.key.as_str(), "directory") {
                let ghost before = directories@;
                directories.push(kv.value.clone());
                assert(strings_view(directories@) =~= strings_view(before).push(kv.value@));
            } else if crate::group::str_eq(kv.key.as_str(), "playlist") {
                let ghost before = playlists@;
                playlists.push(kv.value.clone());
                assert(strings_view(playlists@) =~= strings_view(before).push(kv.value@));
            }
            i = i + 1;
        }
        assert(rec@.subrange(0, i as int) =~= rec@);
        Ok(ListallResponse { files, directories, playlists })
    }
}

/// One entry of a database listing, of the kind its leading key names.
pub enum ListEntry {
    Directory(String),
    File(Track),
    Playlist(String),
}

/// An entry's record must start with a leading key; a file entry must decode as a track.
pub open spec fn entry_error(rec: Seq<(Seq<char>, Seq<char>)>) -> Option<ErrorView> {
    if rec.len() == 0 || !is_leading(LeadingKeys::Entries, rec[0].0) {
        Some(missing_key(file_key()))
    } else if rec[0].0 == file_key() {
        track_error(rec)
    } else {
        None
    }
}

pub open spec fn entry_fields(rec: Seq<(Seq<char>, Seq<char>)>, v: ListEntry) -> bool {
    rec.len() > 0 && match v {
        ListEntry::Directory(p) => rec[0].0 == directory_key() && p@ == rec[0].1,
        ListEntry::Playlist(p) => rec[0].0 == playlist_key() && p@ == rec[0].1,
        ListEntry::File(t) => rec[0].0 == file_key() && track_fields(rec, t),
    }
}

impl FromRecord for ListEntry {
    open spec fn record_error(rec: Seq<(Seq<char>, Seq<char>)>) -> Option<ErrorView> {
        entry_error(rec)
    }

    open spec fn record_fields(rec: Seq<(Seq<char>, Seq<char>)>, v: ListEntry) -> bool {
        entry_fields(rec, v)
    }

    /// Decodes one record into the variant of its leading key.
    fn from_record(rec: &Record) -> (r: Result<ListEntry, MpdError>) {
        proof {
            reveal_strlit("file");
            reveal_strlit("directory");
            reveal_strlit("playlist");
            assert("file"@ =~= file_key());
            assert("directory"@ =~= directory_key());
            assert("playlist"@ =~= playlist_key());
        }
        if rec.pairs.len() == 0 {
            return Err(MpdError::Decode(DecodeError::MissingKey("file".to_string())));
        }
        let first = &rec.pairs[0];
        assert(first@ == rec@[0]);
        if crate::group::str_eq(first.key.as_str(), "file") {
            match Track::from_record(rec) {
                Ok(t) => Ok(ListEntry::File(t)),
                Err(e) => Err(e),
            }
        } else if crate::group::str_eq(first.key.as_str(), "directory") {
            Ok(ListEntry::Directory(first.value.clone()))
        } else if crate::group::str_eq(first.key.as_str(), "playlist") {
            Ok(ListEntry::Playlist(first.value.clone()))
        } else {
            Err(MpdError::Decode(DecodeError::MissingKey("file".to_string())))
        }
    }
}

} // verus!
