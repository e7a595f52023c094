//! Subsonic API requests: token authentication, request URLs and parameters, response
//! status checks, and the shaping of library listings.
//!
//! Every request carries `u` (user), `t` (MD5(password + salt) as lowercase hex),
//! `s` (a random salt), `v` (API version), `c` (client name) and `f` (`json`).
use vstd::prelude::*;
use crate::models::{Artist, Artists, Song, SubsonicError, SubsonicLibrary};
use crate::text::{
    chars_of, decimal, decimal_string, push_char, push_decimal, push_str, string_from,
};

verus! {

/// The Subsonic API version spoken.
pub open spec fn api_version() -> Seq<char> {
    "1.16.1"@
}

/// The client name sent with every request.
pub open spec fn client_name() -> Seq<char> {
    "playterm"@
}

/// What `md5::compute` returns for the UTF-8 bytes of a text.
pub uninterp spec fn md5_digest(text: Seq<char>) -> Seq<u8>;

/// `md5::compute(text)`: the MD5 digest of the text's UTF-8 bytes, the named
/// `md5_digest`; a `Digest` is 16 bytes (`Digest(pub [u8; 16])` in the crate).
#[verifier::external_body]
fn md5_compute(text: &str) -> (r: Vec<u8>)
    ensures
        r@ == md5_digest(text@),
        r@.len() == 16,
{
    md5::compute(text.as_bytes()).0.to_vec()
}

/// Lowercase hexadecimal digit of a value below 16.
pub open spec fn hex_digit(n: u8) -> char {
    if n < 10 {
        ('0' as u8 + n) as char
    } else {
        ('a' as u8 + n - 10) as char
    }
}

/// Lowercase hexadecimal rendering of bytes, two digits per byte.
pub open spec fn hex_lower(b: Seq<u8>) -> Seq<char>
    decreases b.len(),
{
    if b.len() == 0 {
        seq![]
    } else {
        hex_lower(b.drop_last()) + seq![hex_digit(b.last() / 16), hex_digit(b.last() % 16)]
    }
}

/// `hex::encode`: each byte as two lowercase hexadecimal digits, high nibble first (the
/// crate's `HEX_CHARS_LOWER` table).
#[verifier::external_body]
fn hex_encode(bytes: &Vec<u8>) -> (s: String)
    ensures
        s@ == hex_lower(bytes@),
{
    hex::encode(bytes)
}

/// The authentication token for a password and salt.
pub open spec fn token_spec(password: Seq<char>, salt: Seq<char>) -> Seq<char> {
    hex_lower(md5_digest(password + salt))
}

/// `MD5(password + salt)` as lowercase hex.
pub fn make_token(password: &str, salt: &str) -> (t: String)
    ensures
        t@ == token_spec(password@, salt@),
        t@.len() == 32,
{
    let mut text = String::new();
    push_str(&mut text, password);
    push_str(&mut text, salt);
    let d = md5_compute(text.as_str());
    proof {
        lemma_hex_len(d@);
    }
    hex_encode(&d)
}

/// Two hex digits per byte.
proof fn lemma_hex_len(b: Seq<u8>)
    ensures
        hex_lower(b).len() == 2 * b.len(),
    decreases b.len(),
{
    if b.len() > 0 {
        lemma_hex_len(b.drop_last());
    }
}

// ── Salt ──────────────────────────────────────────────────────────────────────

/// The salt alphabet.
pub open spec fn salt_charset() -> Seq<char> {
    "abcdefghijklmnopqrstuvwxyz0123456789"@
}

/// Generator state after drawing `i` characters from `seed`.
pub open spec fn salt_state(seed: u64, i: nat) -> u64
    decreases i,
{
    if i == 0 {
        seed
    } else {
        vstd::wrapping::u64_specs::wrapping_add(
            vstd::wrapping::u64_specs::wrapping_mul(salt_state(seed, (i - 1) as nat), 6_364_136_223_846_793_005),
            (1_442_695_040_888_963_407 + (i - 1)) as u64,
        )
    }
}

/// The character drawn at position `i` (the generator's high bits into the alphabet).
pub open spec fn salt_char(seed: u64, i: nat) -> char {
    salt_charset()[((salt_state(seed, i + 1) >> 33u64) % 36) as int]
}

/// The `len`-character salt grown from `seed`.
pub open spec fn salt_spec(seed: u64, len: nat) -> Seq<char> {
    Seq::new(len, |i: int| salt_char(seed, i as nat))
}

/// Builds a salt of `len` characters from `seed` with a linear congruential generator.
pub fn salt_from_seed(seed: u64, len: usize) -> (s: String)
    requires
        len < 1_000_000_000,
    ensures
        s@ == salt_spec(seed, len as nat),
{
    let cs = chars_of("abcdefghijklmnopqrstuvwxyz0123456789");
    proof {
        reveal_strlit("abcdefghijklmnopqrstuvwxyz0123456789");
    }
    let mut s = String::new();
    let mut x = seed;
    let mut i: usize = 0;
    while i < len
        invariant
            i <= len < 1_000_000_000,
            cs@ == salt_charset(),
            cs@.len() == 36,
            x == salt_state(seed, i as nat),
            s@ == salt_spec(seed, i as nat),
        decreases len - i,
    {
        x = x.wrapping_mul(6_364_136_223_846_793_005).wrapping_add(1_442_695_040_888_963_407 + i as u64);
        let k = ((x >> 33u64) % 36) as usize;
        push_char(&mut s, cs[k]);
        assert(s@ == salt_spec(seed, (i + 1) as nat));
        i = i + 1;
    }
    s
}

/// Nanoseconds since the epoch truncated to 64 bits (`as_nanos() as u64`), or the
/// fixed seed when the clock stands before the epoch.
pub fn clock_seed() -> u64 {
    match crate::clock::since_unix_epoch() {
        Some((secs, nanos)) => secs.wrapping_mul(1_000_000_000).wrapping_add(nanos as u64),
        None => 0xdead_beef_cafe_babe,
    }
}

/// Every character of a salt is a lowercase letter or a digit.
pub proof fn lemma_salt_chars(seed: u64, len: nat)
    ensures
        forall|i: int| 0 <= i < len ==> salt_charset().contains(#[trigger] salt_spec(seed, len)[i]),
{
    reveal_strlit("abcdefghijklmnopqrstuvwxyz0123456789");
    assert forall|i: int| 0 <= i < len implies salt_charset().contains(
        #[trigger] salt_spec(seed, len)[i],
    ) by {
        let x = salt_state(seed, (i + 1) as nat);
        let k = ((x >> 33u64) % 36) as int;
        assert(0 <= k < 36);
        assert(salt_charset()[k] == salt_spec(seed, len)[i]);
    }
}

/// A salt as requests are signed with: 12 lowercase letters and digits.
pub open spec fn valid_salt(salt: Seq<char>) -> bool {
    &&& salt.len() == 12
    &&& forall|i: int| 0 <= i < 12 ==> salt_charset().contains(#[trigger] salt[i])
}

/// `len` random lowercase letters and digits, seeded from the clock.
pub fn random_ascii(len: usize) -> (s: String)
    requires
        len < 1_000_000_000,
    ensures
        s@.len() == len,
        forall|i: int| 0 <= i < len ==> salt_charset().contains(#[trigger] s@[i]),
{
    let seed = clock_seed();
    let s = salt_from_seed(seed, len);
    proof {
        lemma_salt_chars(seed, len as nat);
    }
    s
}

// ── Client ────────────────────────────────────────────────────────────────────

/// `s` without its trailing `/` characters.
pub open spec fn strip_slashes(s: Seq<char>) -> Seq<char>
    decreases s.len(),
{
    if s.len() > 0 && s.last() == '/' {
        strip_slashes(s.drop_last())
    } else {
        s
    }
}

/// Where and as whom to talk to a Subsonic server.
pub struct SubsonicClient {
    base_url: String,
    username: String,
    password: String,
}

/// One query parameter.
pub open spec fn param(k: Seq<char>, v: Seq<char>) -> (Seq<char>, Seq<char>) {
    (k, v)
}

/// The characters of string pairs.
pub open spec fn pair_views(v: Seq<(String, String)>) -> Seq<(Seq<char>, Seq<char>)> {
    Seq::new(v.len(), |i: int| (v[i].0@, v[i].1@))
}

/// `k=v` pairs joined with `&`.
pub open spec fn query_string(ps: Seq<(Seq<char>, Seq<char>)>) -> Seq<char>
    decreases ps.len(),
{
    if ps.len() == 0 {
        seq![]
    } else if ps.len() == 1 {
        ps[0].0 + seq!['='] + ps[0].1
    } else {
        query_string(ps.drop_last()) + seq!['&'] + ps.last().0 + seq!['='] + ps.last().1
    }
}

impl SubsonicClient {
    /// The server root, without trailing slashes.
    pub closed spec fn base(&self) -> Seq<char> {
        self.base_url@
    }

    /// The user name.
    pub closed spec fn user(&self) -> Seq<char> {
        self.username@
    }

    /// The password.
    pub closed spec fn pass(&self) -> Seq<char> {
        self.password@
    }

    /// A client for the server at `base_url` (trailing slashes dropped).
    pub fn new(base_url: &str, username: &str, password: &str) -> (c: Self)
        ensures
            c.base() == strip_slashes(base_url@),
            c.user() == username@,
            c.pass() == password@,
    {
        let v = chars_of(base_url);
        let mut n = v.len();
        assert(v@.subrange(0, n as int) == v@);
        while n > 0 && v[n - 1] == '/'
            invariant
                n <= v@.len(),
                strip_slashes(v@) == strip_slashes(v@.subrange(0, n as int)),
            decreases n,
        {
            assert(v@.subrange(0, n as int).drop_last() == v@.subrange(0, n - 1));
            n = n - 1;
        }
        let base = string_from(&v, 0, n);
        let mut user = String::new();
        push_str(&mut user, username);
        let mut pass = String::new();
        push_str(&mut pass, password);
        SubsonicClient { base_url: base, username: user, password: pass }
    }

    /// The authentication parameters for a given salt.
    pub open spec fn auth_spec(&self, salt: Seq<char>) -> Seq<(Seq<char>, Seq<char>)> {
        seq![
            param("u"@, self.user()),
            param("t"@, token_spec(self.pass(), salt)),
            param("s"@, salt),
            param("v"@, api_version()),
            param("c"@, client_name()),
            param("f"@, "json"@),
        ]
    }

    /// The authentication parameters, with the given salt.
    pub fn auth_params_with_salt(&self, salt: &str) -> (r: Vec<(String, String)>)
        ensures
            pair_views(r@) == self.auth_spec(salt@),
    {
        let mut r: Vec<(String, String)> = Vec::new();
        r.push((String::from_str("u"), self.username.clone()));
        r.push((String::from_str("t"), make_token(self.password.as_str(), salt)));
        let mut s = String::new();
        push_str(&mut s, salt);
        r.push((String::from_str("s"), s));
        r.push((String::from_str("v"), String::from_str("1.16.1")));
        r.push((String::from_str("c"), String::from_str("playterm")));
        r.push((String::from_str("f"), String::from_str("json")));
        proof {
            reveal_strlit("u");
            reveal_strlit("t");
            reveal_strlit("s");
            reveal_strlit("v");
            reveal_strlit("c");
            reveal_strlit("f");
            reveal_strlit("1.16.1");
            reveal_strlit("playterm");
            reveal_strlit("json");
        }
        assert(pair_views(r@) == self.auth_spec(salt@));
        r
    }

    /// The authentication parameters with a fresh 12-character salt, so that no two
    /// requests can be replayed.
    pub fn auth_params(&self) -> (r: Vec<(String, String)>)
        ensures
            r@.len() == 6,
            r@[2].1@.len() == 12,
            pair_views(r@) == self.auth_spec(r@[2].1@),
    {
        let salt = random_ascii(12);
        let r = self.auth_params_with_salt(salt.as_str());
        assert(pair_views(r@).len() == r@.len());
        assert(pair_views(r@)[2] == (r@[2].0@, r@[2].1@));
        r
    }

    /// `<base>/rest/<name>`.
    pub fn endpoint_url(&self, name: &str) -> (u: String)
        ensures
            u@ == self.base() + "/rest/"@ + name@,
    {
        let mut u = self.base_url.clone();
        push_str(&mut u, "/rest/");
        push_str(&mut u, name);
        u
    }

    /// The parameters of a request: authentication with the given salt, then `extra`.
    pub fn request_params_with_salt(&self, salt: &str, extra: Vec<(String, String)>) -> (r: Vec<
        (String, String),
    >)
        ensures
            pair_views(r@) == self.auth_spec(salt@) + pair_views(extra@),
    {
        let mut r = self.auth_params_with_salt(salt);
        let ghost a = r@;
        let mut src = extra;
        let ghost all = src@;
        let mut taken: usize = 0;
        let n0 = src.len();
        assert(all.skip(0) == all);
        while src.len() > 0
            invariant
                taken + src@.len() == all.len() == n0,
                src@ == all.skip(taken as int),
                r@ == a + all.take(taken as int),
            decreases src.len(),
        {
            let p = src.remove(0);
            r.push(p);
            assert(all.skip(taken as int)[0] == p);
            assert(all.take(taken + 1) == all.take(taken as int).push(p));
            assert(all.skip(taken + 1) == all.skip(taken as int).drop_first());
            taken = taken + 1;
        }
        assert(all.take(all.len() as int) == all);
        assert(pair_views(r@) == pair_views(a) + pair_views(all));
        r
    }

    /// The parameters of a request with a fresh salt, then `extra`.
    pub fn request_params(&self, extra: Vec<(String, String)>) -> (r: Vec<(String, String)>)
        ensures
            r@.len() >= 6,
            pair_views(r@) == self.auth_spec(r@[2].1@) + pair_views(extra@),
    {
        let salt = random_ascii(12);
        let r = self.request_params_with_salt(salt.as_str(), extra);
        assert(pair_views(r@).len() == r@.len());
        assert(pair_views(r@)[2] == (r@[2].0@, r@[2].1@));
        r
    }

    /// The URL that streams song `id` (with `maxBitRate`, 0 for the original file), signed
    /// with the given salt.
    pub open spec fn stream_spec(&self, id: Seq<char>, max_bit_rate: u32, salt: Seq<char>) -> Seq<char> {
        self.base() + "/rest/stream?"@ + query_string(
            self.auth_spec(salt) + seq![
                param("id"@, id),
                param("maxBitRate"@, decimal(max_bit_rate as nat)),
            ],
        )
    }

    /// The stream URL of song `id`, signed with the given salt.
    pub fn stream_url_with_salt(&self, id: &str, max_bit_rate: u32, salt: &str) -> (u: String)
        ensures
            u@ == self.stream_spec(id@, max_bit_rate, salt@),
    {
        let mut extra: Vec<(String, String)> = Vec::new();
        let mut idv = String::new();
        push_str(&mut idv, id);
        extra.push((String::from_str("id"), idv));
        extra.push((String::from_str("maxBitRate"), decimal_string(max_bit_rate as u64)));
        proof {
            reveal_strlit("id");
            reveal_strlit("maxBitRate");
            assert(pair_views(extra@) == seq![
                param("id"@, id@),
                param("maxBitRate"@, decimal(max_bit_rate as nat)),
            ]);
        }
        let ps = self.request_params_with_salt(salt, extra);
        let mut u = self.base_url.clone();
        push_str(&mut u, "/rest/stream?");
        let ghost head = u@;
        let mut i: usize = 0;
        while i < ps.len()
            invariant
                i <= ps@.len(),
                u@ == head + query_string(pair_views(ps@).take(i as int)),
            decreases ps.len() - i,
        {
            let ghost t = pair_views(ps@).take(i + 1);
            assert(t.drop_last() == pair_views(ps@).take(i as int));
            if i > 0 {
                push_char(&mut u, '&');
            } else {
                assert(pair_views(ps@).take(0) == Seq::<(Seq<char>, Seq<char>)>::empty());
            }
            push_str(&mut u, ps[i].0.as_str());
            push_char(&mut u, '=');
            push_str(&mut u, ps[i].1.as_str());
            proof {
                if i == 0 {
                    assert(t.len() == 1 && t[0] == pair_views(ps@)[0]);
                }
            }
            i = i + 1;
        }
        assert(pair_views(ps@).take(ps@.len() as int) == pair_views(ps@));
        u
    }

    /// The stream URL of song `id`, signed with a fresh salt. The URL stands on its own:
    /// a media player can fetch it as it is.
    pub fn stream_url(&self, id: &str, max_bit_rate: u32) -> (u: String)
        ensures
            exists|salt: Seq<char>|
                valid_salt(salt) && #[trigger] self.stream_spec(id@, max_bit_rate, salt) == u@,
    {
        let salt = random_ascii(12);
        let u = self.stream_url_with_salt(id, max_bit_rate, salt.as_str());
        assert(valid_salt(salt@) && self.stream_spec(id@, max_bit_rate, salt@) == u@);
        u
    }
}

// ── Responses ─────────────────────────────────────────────────────────────────

/// The message of a failed response: the server's error, or the status itself.
pub open spec fn status_error(status: Seq<char>, error: Option<SubsonicError>) -> Seq<char> {
    match error {
        Some(e) => "Subsonic error "@ + decimal(e.code as nat) + ": "@ + e.message@,
        None => "Subsonic returned non-ok status: "@ + status,
    }
}

/// Checks the `status`/`error` pair of a Subsonic response: `Ok` exactly when the status
/// is `ok`, else the error's message.
pub fn check_status(status: &str, error: Option<&SubsonicError>) -> (r: Result<(), String>)
    ensures
        r.is_ok() == (status@ == "ok"@),
        r matches Err(m) ==> m@ == status_error(
            status@,
            match error {
                Some(e) => Some(*e),
                None => None,
            },
        ),
{
    if crate::text::str_eq(status, "ok") {
        return Ok(());
    }
    let mut m = String::new();
    match error {
        Some(e) => {
            push_str(&mut m, "Subsonic error ");
            push_decimal(&mut m, e.code as u64);
            push_str(&mut m, ": ");
            push_str(&mut m, e.message.as_str());
        },
        None => {
            push_str(&mut m, "Subsonic returned non-ok status: ");
            push_str(&mut m, status);
        },
    }
    Err(m)
}

/// The field a response carries once its status is checked: the status error when the
/// status is not `ok`; else the field, or `missing '<field>' field in <method> response`
/// when the server left it out.
pub fn response_field<T>(
    status: &str,
    error: Option<&SubsonicError>,
    field: Option<T>,
    field_name: &str,
    method: &str,
) -> (r: Result<T, String>)
    ensures
        r.is_ok() == (status@ == "ok"@ && field.is_some()),
        status@ != "ok"@ ==> (r matches Err(m) && m@ == status_error(
            status@,
            match error {
                Some(e) => Some(*e),
                None => None,
            },
        )),
        status@ == "ok"@ ==> match field {
            Some(v) => r == Ok::<T, String>(v),
            None => (r matches Err(m) && m@ == "missing '"@ + field_name@ + "' field in "@ + method@
                + " response"@),
        },
{
    match check_status(status, error) {
        Err(m) => Err(m),
        Ok(()) => match field {
            Some(v) => Ok(v),
            None => {
                let mut m = String::new();
                push_str(&mut m, "missing '");
                push_str(&mut m, field_name);
                push_str(&mut m, "' field in ");
                push_str(&mut m, method);
                push_str(&mut m, " response");
                Err(m)
            },
        },
    }
}

// ── API calls ─────────────────────────────────────────────────────────────────

/// A call of the Subsonic API that the client makes.
pub enum ApiCall {
    Ping,
    GetArtists,
    GetArtist(String),
    GetAlbum(String),
    GetSong(String),
    Search3 { query: String, artist_count: u32, album_count: u32, song_count: u32 },
    GetCoverArt(String),
    GetPlaylists,
    GetPlaylist(String),
    CreatePlaylist(String),
    AddTrackToPlaylist { playlist_id: String, song_id: String },
    RemoveTrackFromPlaylist { playlist_id: String, index: usize },
    RenamePlaylist { playlist_id: String, name: String },
    DeletePlaylist(String),
    Scrobble(String),
}

/// The endpoint name of a call.
pub open spec fn endpoint_spec(c: ApiCall) -> Seq<char> {
    match c {
        ApiCall::Ping => "ping"@,
        ApiCall::GetArtists => "getArtists"@,
        ApiCall::GetArtist(_) => "getArtist"@,
        ApiCall::GetAlbum(_) => "getAlbum"@,
        ApiCall::GetSong(_) => "getSong"@,
        ApiCall::Search3 { .. } => "search3"@,
        ApiCall::GetCoverArt(_) => "getCoverArt"@,
        ApiCall::GetPlaylists => "getPlaylists"@,
        ApiCall::GetPlaylist(_) => "getPlaylist"@,
        ApiCall::CreatePlaylist(_) => "createPlaylist"@,
        ApiCall::AddTrackToPlaylist { .. } => "updatePlaylist"@,
        ApiCall::RemoveTrackFromPlaylist { .. } => "updatePlaylist"@,
        ApiCall::RenamePlaylist { .. } => "updatePlaylist"@,
        ApiCall::DeletePlaylist(_) => "deletePlaylist"@,
        ApiCall::Scrobble(_) => "scrobble"@,
    }
}

/// Each call goes to the Subsonic REST method that serves it: the artist list to
/// `getArtists`, an artist's albums to `getArtist`, an album's tracks to `getAlbum`, and
/// so on; the three playlist edits all go to `updatePlaylist`.
pub proof fn law_call_methods(c: ApiCall)
    ensures
        c is Ping ==> endpoint_spec(c) == "ping"@,
        c is GetArtists ==> endpoint_spec(c) == "getArtists"@,
        c is GetArtist ==> endpoint_spec(c) == "getArtist"@,
        c is GetAlbum ==> endpoint_spec(c) == "getAlbum"@,
        c is GetSong ==> endpoint_spec(c) == "getSong"@,
        c is Search3 ==> endpoint_spec(c) == "search3"@,
        c is GetCoverArt ==> endpoint_spec(c) == "getCoverArt"@,
        c is GetPlaylists ==> endpoint_spec(c) == "getPlaylists"@,
        c is GetPlaylist ==> endpoint_spec(c) == "getPlaylist"@,
        c is CreatePlaylist ==> endpoint_spec(c) == "createPlaylist"@,
        c is AddTrackToPlaylist || c is RemoveTrackFromPlaylist || c is RenamePlaylist
            ==> endpoint_spec(c) == "updatePlaylist"@,
        c is DeletePlaylist ==> endpoint_spec(c) == "deletePlaylist"@,
        c is Scrobble ==> endpoint_spec(c) == "scrobble"@,
{
}

/// Requests for an artist, an album and a song go to three different methods, and
/// none of them to the artist list's.
pub proof fn law_lookup_methods_distinct(a: String, b: String, c: String)
    ensures
        endpoint_spec(ApiCall::GetArtist(a)) != endpoint_spec(ApiCall::GetAlbum(b)),
        endpoint_spec(ApiCall::GetAlbum(b)) != endpoint_spec(ApiCall::GetSong(c)),
        endpoint_spec(ApiCall::GetArtist(a)) != endpoint_spec(ApiCall::GetSong(c)),
        endpoint_spec(ApiCall::GetArtists) != endpoint_spec(ApiCall::GetArtist(a)),
{
    reveal_strlit("getArtist");
    reveal_strlit("getAlbum");
    reveal_strlit("getSong");
    reveal_strlit("getArtists");
    assert("getArtist"@[4] != "getAlbum"@[4]);
    assert("getAlbum"@[3] != "getSong"@[3]);
    assert("getArtist"@[3] != "getSong"@[3]);
    assert("getArtists"@.len() != "getArtist"@.len());
}

/// The parameters a call adds after the authentication parameters.
pub open spec fn extra_spec(c: ApiCall) -> Seq<(Seq<char>, Seq<char>)> {
    match c {
        ApiCall::Ping | ApiCall::GetArtists | ApiCall::GetPlaylists => seq![],
        ApiCall::GetArtist(id) | ApiCall::GetAlbum(id) | ApiCall::GetSong(id)
        | ApiCall::GetCoverArt(id) | ApiCall::GetPlaylist(id) | ApiCall::DeletePlaylist(id) => seq![
            param("id"@, id@),
        ],
        ApiCall::Search3 { query, artist_count, album_count, song_count } => seq![
            param("query"@, query@),
            param("artistCount"@, decimal(artist_count as nat)),
            param("albumCount"@, decimal(album_count as nat)),
            param("songCount"@, decimal(song_count as nat)),
        ],
        ApiCall::CreatePlaylist(name) => seq![param("name"@, name@)],
        ApiCall::AddTrackToPlaylist { playlist_id, song_id } => seq![
            param("playlistId"@, playlist_id@),
            param("songIdToAdd"@, song_id@),
        ],
        ApiCall::RemoveTrackFromPlaylist { playlist_id, index } => seq![
            param("playlistId"@, playlist_id@),
            param("songIndexToRemove"@, decimal(index as nat)),
        ],
        ApiCall::RenamePlaylist { playlist_id, name } => seq![
            param("playlistId"@, playlist_id@),
            param("name"@, name@),
        ],
        ApiCall::Scrobble(id) => seq![param("id"@, id@), param("submission"@, "true"@)],
    }
}

/// A parameter pair of owned strings.
fn pair(k: &str, v: &str) -> (p: (String, String))
    ensures
        p.0@ == k@,
        p.1@ == v@,
{
    let mut a = String::new();
    push_str(&mut a, k);
    let mut b = String::new();
    push_str(&mut b, v);
    (a, b)
}

impl ApiCall {
    /// The endpoint name (see `endpoint_spec`).
    pub fn endpoint(&self) -> (s: &'static str)
        ensures
            s@ == endpoint_spec(*self),
    {
        match self {
            ApiCall::Ping => "ping",
            ApiCall::GetArtists => "getArtists",
            ApiCall::GetArtist(_) => "getArtist",
            ApiCall::GetAlbum(_) => "getAlbum",
            ApiCall::GetSong(_) => "getSong",
            ApiCall::Search3 { .. } => "search3",
            ApiCall::GetCoverArt(_) => "getCoverArt",
            ApiCall::GetPlaylists => "getPlaylists",
            ApiCall::GetPlaylist(_) => "getPlaylist",
            ApiCall::CreatePlaylist(_) => "createPlaylist",
            ApiCall::AddTrackToPlaylist { .. } => "updatePlaylist",
            ApiCall::RemoveTrackFromPlaylist { .. } => "updatePlaylist",
            ApiCall::RenamePlaylist { .. } => "updatePlaylist",
            ApiCall::DeletePlaylist(_) => "deletePlaylist",
            ApiCall::Scrobble(_) => "scrobble",
        }
    }

    /// Whether the call is sent as a POST (creating a playlist); the others are GETs.
    pub fn uses_post(&self) -> (b: bool)
        ensures
            b == (*self is CreatePlaylist),
    {
        match self {
            ApiCall::CreatePlaylist(_) => true,
            _ => false,
        }
    }

    /// The parameters after authentication (see `extra_spec`).
    pub fn extra_params(&self) -> (r: Vec<(String, String)>)
        ensures
            pair_views(r@) == extra_spec(*self),
    {
        let mut r: Vec<(String, String)> = Vec::new();
        match self {
            ApiCall::Ping | ApiCall::GetArtists | ApiCall::GetPlaylists => {},
            ApiCall::GetArtist(id) | ApiCall::GetAlbum(id) | ApiCall::GetSong(id)
            | ApiCall::GetCoverArt(id) | ApiCall::GetPlaylist(id) | ApiCall::DeletePlaylist(id) => {
                r.push(pair("id", id.as_str()));
            },
            ApiCall::Search3 { query, artist_count, album_count, song_count } => {
                r.push(pair("query", query.as_str()));
                let a = decimal_string(*artist_count as u64);
                r.push(pair("artistCount", a.as_str()));
                let b = decimal_string(*album_count as u64);
                r.push(pair("albumCount", b.as_str()));
                let c = decimal_string(*song_count as u64);
                r.push(pair("songCount", c.as_str()));
            },
            ApiCall::CreatePlaylist(name) => {
                r.push(pair("name", name.as_str()));
            },
            ApiCall::AddTrackToPlaylist { playlist_id, song_id } => {
                r.push(pair("playlistId", playlist_id.as_str()));
                r.push(pair("songIdToAdd", song_id.as_str()));
            },
            ApiCall::RemoveTrackFromPlaylist { playlist_id, index } => {
                r.push(pair("playlistId", playlist_id.as_str()));
                let i = decimal_string(*index as u64);
                r.push(pair("songIndexToRemove", i.as_str()));
            },
            ApiCall::RenamePlaylist { playlist_id, name } => {
                r.push(pair("playlistId", playlist_id.as_str()));
                r.push(pair("name", name.as_str()));
            },
            ApiCall::Scrobble(id) => {
                r.push(pair("id", id.as_str()));
                r.push(pair("submission", "true"));
            },
        }
        assert(pair_views(r@) =~= extra_spec(*self));
        r
    }
}

impl SubsonicClient {
    /// The URL and query parameters of `call`, signed with the given salt.
    pub fn request_with_salt(&self, call: &ApiCall, salt: &str) -> (r: (String, Vec<(String, String)>))
        ensures
            r.0@ == self.base() + "/rest/"@ + endpoint_spec(*call),
            pair_views(r.1@) == self.auth_spec(salt@) + extra_spec(*call),
    {
        let url = self.endpoint_url(call.endpoint());
        let params = self.request_params_with_salt(salt, call.extra_params());
        (url, params)
    }

    /// The URL and query parameters of `call`, signed with a fresh salt.
    pub fn request(&self, call: &ApiCall) -> (r: (String, Vec<(String, String)>))
        ensures
            r.0@ == self.base() + "/rest/"@ + endpoint_spec(*call),
            r.1@.len() >= 6,
            pair_views(r.1@) == self.auth_spec(r.1@[2].1@) + extra_spec(*call),
    {
        let url = self.endpoint_url(call.endpoint());
        let params = self.request_params(call.extra_params());
        (url, params)
    }
}

// ── Library listings ──────────────────────────────────────────────────────────

/// The artists of all index buckets, in bucket order.
pub open spec fn flatten_artists(idx: Seq<Seq<Artist>>) -> Seq<Artist>
    decreases idx.len(),
{
    if idx.len() == 0 {
        seq![]
    } else {
        flatten_artists(idx.drop_last()) + idx.last()
    }
}

/// The artist list of a `getArtists` answer: every bucket's artists, sorted by name
/// (artists of the same name in bucket order).
pub fn library_from_index(artists: Artists) -> (lib: SubsonicLibrary)
    ensures
        crate::sort::sorted_by_name(lib.artists@),
        lib.artists@.to_multiset() == flatten_artists(
            Seq::new(artists.index@.len(), |i: int| artists.index@[i].artist@),
        ).to_multiset(),
        crate::sort::keeps_namesakes_in_order(
            lib.artists@,
            flatten_artists(Seq::new(artists.index@.len(), |i: int| artists.index@[i].artist@)),
        ),
{
    let ghost buckets = Seq::new(artists.index@.len(), |i: int| artists.index@[i].artist@);
    let mut all: Vec<Artist> = Vec::new();
    let idx = artists.index;
    let ghost ib = idx@;
    let mut rest = idx;
    let mut b: usize = 0;
    let n0 = rest.len();
    assert(ib.skip(0) == ib);
    while rest.len() > 0
        invariant
            b + rest@.len() == ib.len() == n0,
            rest@ == ib.skip(b as int),
            buckets == Seq::new(ib.len(), |i: int| ib[i].artist@),
            all@ == flatten_artists(buckets.take(b as int)),
        decreases rest.len(),
    {
        let bucket = rest.remove(0);
        assert(bucket == ib[b as int]);
        let ghost before = all@;
        let mut src = bucket.artist;
        let ghost bs = src@;
        let mut k: usize = 0;
        let m0 = src.len();
        assert(bs.skip(0) == bs);
        while src.len() > 0
            invariant
                k + src@.len() == bs.len() == m0,
                src@ == bs.skip(k as int),
                all@ == before + bs.take(k as int),
            decreases src.len(),
        {
            let a = src.remove(0);
            all.push(a);
            assert(bs.take(k + 1) == bs.take(k as int).push(bs[k as int]));
            assert(bs.skip(k + 1) == bs.skip(k as int).drop_first());
            k = k + 1;
        }
        assert(bs.take(k as int) == bs);
        assert(buckets.take(b + 1).drop_last() == buckets.take(b as int));
        assert(buckets.take(b + 1).last() == bs);
        assert(ib.skip(b + 1) == ib.skip(b as int).drop_first());
        b = b + 1;
    }
    assert(buckets.take(ib.len() as int) == buckets);
    let sorted = crate::sort::sort_artists_by_name(all);
    SubsonicLibrary { artists: sorted }
}

/// The songs of several albums, one list, in album order.
pub open spec fn flatten_songs(albums: Seq<Seq<Song>>) -> Seq<Song>
    decreases albums.len(),
{
    if albums.len() == 0 {
        seq![]
    } else {
        flatten_songs(albums.drop_last()) + albums.last()
    }
}

/// The songs of an artist's albums as one list sorted by disc, then track number; songs
/// with equal numbers stay in album order.
pub fn songs_from_albums(albums: Vec<Vec<Song>>) -> (r: Vec<Song>)
    ensures
        crate::sort::sorted_by_key(r@, false),
        r@.to_multiset() == flatten_songs(Seq::new(albums@.len(), |i: int| albums@[i]@)).to_multiset(),
        crate::sort::keeps_ties_in_order(
            r@,
            flatten_songs(Seq::new(albums@.len(), |i: int| albums@[i]@)),
            false,
        ),
{
    let ghost ab = Seq::new(albums@.len(), |i: int| albums@[i]@);
    let mut all: Vec<Song> = Vec::new();
    let mut b: usize = 0;
    while b < albums.len()
        invariant
            b <= albums@.len(),
            ab == Seq::new(albums@.len(), |i: int| albums@[i]@),
            all@ == flatten_songs(ab.take(b as int)),
        decreases albums.len() - b,
    {
        let ghost before = all@;
        let mut k: usize = 0;
        while k < albums[b].len()
            invariant
                b < albums@.len(),
                k <= albums@[b as int]@.len(),
                all@ == before + albums@[b as int]@.take(k as int),
            decreases albums@[b as int]@.len() - k,
        {
            all.push(albums[b][k].clone());
            assert(albums@[b as int]@.take(k + 1) == albums@[b as int]@.take(k as int).push(
                albums@[b as int]@[k as int],
            ));
            k = k + 1;
        }
        assert(albums@[b as int]@.take(k as int) == albums@[b as int]@);
        assert(ab.take(b + 1).drop_last() == ab.take(b as int));
        assert(ab.take(b + 1).last() == albums@[b as int]@);
        b = b + 1;
    }
    assert(ab.take(albums@.len() as int) == ab);
    crate::sort::sort_songs(all, false)
}

} // verus!
