//! Library domain types: what the Subsonic server describes (artists, albums,
//! songs, playlists) and what the lyrics service delivers.
use vstd::prelude::*;

verus! {

/// Exact copy of an optional string.
pub fn clone_opt_string(o: &Option<String>) -> (r: Option<String>)
    ensures
        r == *o,
{
    match o {
        Some(s) => Some(s.clone()),
        None => None,
    }
}

/// A single track (song) as returned by `getSong`, `getAlbum`, or `search3`.
pub struct Song {
    pub id: String,
    pub title: String,
    pub album: Option<String>,
    pub artist: Option<String>,
    pub album_id: Option<String>,
    pub artist_id: Option<String>,
    pub track: Option<u32>,
    pub disc_number: Option<u32>,
    pub year: Option<u32>,
    pub genre: Option<String>,
    pub cover_art: Option<String>,
    /// Duration in seconds.
    pub duration: Option<u32>,
    /// Bitrate in kbps.
    pub bit_rate: Option<u32>,
    pub content_type: Option<String>,
    pub suffix: Option<String>,
    pub size: Option<u64>,
    pub path: Option<String>,
    pub starred: Option<String>,
}

impl Clone for Song {
    fn clone(&self) -> (r: Self)
        ensures
            r == *self,
    {
        Song {
            id: self.id.clone(),
            title: self.title.clone(),
            album: clone_opt_string(&self.album),
            artist: clone_opt_string(&self.artist),
            album_id: clone_opt_string(&self.album_id),
            artist_id: clone_opt_string(&self.artist_id),
            track: self.track,
            disc_number: self.disc_number,
            year: self.year,
            genre: clone_opt_string(&self.genre),
            cover_art: clone_opt_string(&self.cover_art),
            duration: self.duration,
            bit_rate: self.bit_rate,
            content_type: clone_opt_string(&self.content_type),
            suffix: clone_opt_string(&self.suffix),
            size: self.size,
            path: clone_opt_string(&self.path),
            starred: clone_opt_string(&self.starred),
        }
    }
}

/// Exact copy of a list of songs.
pub fn clone_songs(v: &Vec<Song>) -> (r: Vec<Song>)
    ensures
        r@ == v@,
{
    let r = v.clone();
    assert(r@ =~= v@);
    r
}

/// An album as returned by `getAlbum` or `search3`; `song` is filled only by `getAlbum`.
pub struct Album {
    pub id: String,
    pub name: String,
    pub artist: Option<String>,
    pub artist_id: Option<String>,
    pub cover_art: Option<String>,
    pub song_count: Option<u32>,
    /// Total duration in seconds.
    pub duration: Option<u32>,
    pub year: Option<u32>,
    pub genre: Option<String>,
    pub starred: Option<String>,
    pub song: Vec<Song>,
}

impl Clone for Album {
    fn clone(&self) -> (r: Self)
        ensures
            r.id == self.id,
            r.name == self.name,
            r.artist == self.artist,
            r.artist_id == self.artist_id,
            r.cover_art == self.cover_art,
            r.song_count == self.song_count,
            r.duration == self.duration,
            r.year == self.year,
            r.genre == self.genre,
            r.id == self.id,
            r.name == self.name,
            r.artist == self.artist,
            r.artist_id == self.artist_id,
            r.cover_art == self.cover_art,
            r.song_count == self.song_count,
            r.duration == self.duration,
            r.year == self.year,
            r.genre == self.genre,
            r.starred == self.starred,
            r.song@ == self.song@,
    {
        Album {
            id: self.id.clone(),
            name: self.name.clone(),
            artist: clone_opt_string(&self.artist),
            artist_id: clone_opt_string(&self.artist_id),
            cover_art: clone_opt_string(&self.cover_art),
            song_count: self.song_count,
            duration: self.duration,
            year: self.year,
            genre: clone_opt_string(&self.genre),
            starred: clone_opt_string(&self.starred),
            song: clone_songs(&self.song),
        }
    }
}


/// A single artist entry as returned by `getArtists`, `getArtist`, or `search3`.
/// `album` holds album stubs only when returned by `getArtist`.
pub struct Artist {
    pub id: String,
    pub name: String,
    pub album_count: Option<u32>,
    pub cover_art: Option<String>,
    pub starred: Option<String>,
    pub album: Vec<Album>,
}

impl Clone for Artist {
    fn clone(&self) -> (r: Self)
        ensures
            r.id == self.id,
            r.name == self.name,
            r.album_count == self.album_count,
            r.cover_art == self.cover_art,
            r.id == self.id,
            r.name == self.name,
            r.album_count == self.album_count,
            r.cover_art == self.cover_art,
            r.starred == self.starred,
            r.album.len() == self.album.len(),
    {
        Artist {
            id: self.id.clone(),
            name: self.name.clone(),
            album_count: self.album_count,
            cover_art: clone_opt_string(&self.cover_art),
            starred: clone_opt_string(&self.starred),
            album: self.album.clone(),
        }
    }
}

/// One letter-bucket from a `getArtists` index response.
pub struct ArtistIndex {
    /// The index letter or prefix (e.g. `"A"`, `"#"`).
    pub name: String,
    pub artist: Vec<Artist>,
}

/// Top-level `artists` object from a `getArtists` response.
pub struct Artists {
    /// Space-separated articles the server strips when alphabetising names.
    pub ignored_articles: String,
    /// Alphabetical buckets, each containing one or more artists.
    pub index: Vec<ArtistIndex>,
}

/// Combined search result from `search3`.
pub struct SearchResult3 {
    pub artist: Vec<Artist>,
    pub album: Vec<Album>,
    pub song: Vec<Song>,
}

/// A snapshot of the library sufficient for browsing: all artists, sorted by name.
pub struct SubsonicLibrary {
    pub artists: Vec<Artist>,
}

/// A playlist entry as listed by `getPlaylists`.
pub struct Playlist {
    pub id: String,
    pub name: String,
    pub song_count: Option<u32>,
    pub duration: Option<u32>,
    pub owner: Option<String>,
    pub public: Option<bool>,
}

/// A playlist with its tracks, as returned by `getPlaylist` and `createPlaylist`.
pub struct PlaylistDetail {
    pub id: String,
    pub name: String,
    pub song_count: Option<u32>,
    pub duration: Option<u32>,
    pub entry: Vec<Song>,
}

impl Playlist {
    /// The listing entry for a freshly created playlist: owner and visibility unknown.
    pub fn from_detail(detail: PlaylistDetail) -> (p: Playlist)
        ensures
            p.id == detail.id,
            p.name == detail.name,
            p.song_count == detail.song_count,
            p.duration == detail.duration,
            p.owner.is_none(),
            p.public.is_none(),
    {
        Playlist {
            id: detail.id,
            name: detail.name,
            song_count: detail.song_count,
            duration: detail.duration,
            owner: None,
            public: None,
        }
    }
}

/// One line of lyrics; `time_ms` is the start time in milliseconds for synced lyrics,
/// `None` for plain text.
pub struct LyricLine {
    pub time_ms: Option<u64>,
    pub text: String,
}

impl Clone for LyricLine {
    fn clone(&self) -> (r: Self)
        ensures
            r == *self,
    {
        LyricLine { time_ms: self.time_ms, text: self.text.clone() }
    }
}

/// An application-level error returned by the Subsonic server (HTTP 200, status `"failed"`).
pub struct SubsonicError {
    /// Subsonic error code.
    pub code: u32,
    /// Human-readable error message.
    pub message: String,
}

} // verus!
