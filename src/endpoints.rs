use vstd::prelude::*;

verus! {

/// The base that every request path is resolved against.
pub const API_BASE: &'static str = "https://api.spotify.com/";

#[derive(PartialEq, Eq, Structural, Clone, Copy, Debug)]
pub enum Method {
    Get,
    Put,
    Delete,
}

/// A request to the web API: a method, a path under the base and query
/// parameters in order.
pub struct ApiRequest {
    pub method: Method,
    pub path: String,
    pub query: Vec<(String, String)>,
}

pub open spec fn pairs_view(q: Seq<(String, String)>) -> Seq<(Seq<char>, Seq<char>)> {
    q.map_values(|p: (String, String)| (p.0@, p.1@))
}

impl ApiRequest {
    pub open spec fn query_view(&self) -> Seq<(Seq<char>, Seq<char>)> {
        pairs_view(self.query@)
    }

    pub fn new(method: Method, path: String) -> (r: Self)
        ensures
            r.method == method,
            r.path@ == path@,
            r.query_view() == Seq::<(Seq<char>, Seq<char>)>::empty(),
    {
        let r = ApiRequest { method, path, query: Vec::new() };
        assert(r.query_view() =~= Seq::<(Seq<char>, Seq<char>)>::empty());
        r
    }

    /// The same request with one more query parameter at the end.
    pub fn query(self, name: &str, value: &str) -> (r: Self)
        ensures
            r.method == self.method,
            r.path@ == self.path@,
            r.query_view() == self.query_view().push((name@, value@)),
    {
        let ApiRequest { method, path, query } = self;
        let mut query = query;
        let ghost before = query@;
        query.push((name.to_string(), value.to_string()));
        let r = ApiRequest { method, path, query };
        assert(r.query_view() =~= pairs_view(before).push((name@, value@)));
        r
    }

    /// The full URL of the request, without its query.
    pub fn url(&self) -> (r: String)
        ensures
            r@ == API_BASE@ + self.path@,
    {
        let mut u = API_BASE.to_string();
        u.append(self.path.as_str());
        u
    }
}

/// The value of the `Authorization` header for `token`.
pub fn bearer(token: &str) -> (r: String)
    ensures
        r@ == "Bearer "@ + token@,
{
    let mut h = "Bearer ".to_string();
    h.append(token);
    h
}

/// `prefix`, then `id`, then `suffix`.
fn join_path(prefix: &str, id: &str, suffix: &str) -> (r: String)
    ensures
        r@ == prefix@ + id@ + suffix@,
{
    let mut p = prefix.to_string();
    p.append(id);
    p.append(suffix);
    p
}

/// The profile of the signed-in user.
pub fn user_profile_request() -> (r: ApiRequest)
    ensures
        r.method == Method::Get,
        r.path@ == "v1/me"@,
        r.query_view() == Seq::<(Seq<char>, Seq<char>)>::empty(),
{
    ApiRequest::new(Method::Get, "v1/me".to_string())
}

/// One artist; served through the disk cache.
pub fn artist_request(id: &str) -> (r: ApiRequest)
    ensures
        r.method == Method::Get,
        r.path@ == "v1/artists/"@ + id@,
        r.query_view() == Seq::<(Seq<char>, Seq<char>)>::empty(),
{
    assert("v1/artists/"@ + id@ + ""@ == "v1/artists/"@ + id@) by {
        reveal_strlit("");
        assert("v1/artists/"@ + id@ + ""@ =~= "v1/artists/"@ + id@);
    }
    ApiRequest::new(Method::Get, join_path("v1/artists/", id, ""))
}

/// The albums of an artist, paginated.
pub fn artist_albums_request(id: &str) -> (r: ApiRequest)
    ensures
        r.method == Method::Get,
        r.path@ == "v1/artists/"@ + id@ + "/albums"@,
        r.query_view() == seq![("market"@, "from_token"@)],
{
    let r = ApiRequest::new(Method::Get, join_path("v1/artists/", id, "/albums")).query(
        "market",
        "from_token",
    );
    assert(r.query_view() =~= seq![("market"@, "from_token"@)]);
    r
}

/// The top tracks of an artist.
pub fn artist_top_tracks_request(id: &str) -> (r: ApiRequest)
    ensures
        r.method == Method::Get,
        r.path@ == "v1/artists/"@ + id@ + "/top-tracks"@,
        r.query_view() == seq![("market"@, "from_token"@)],
{
    let r = ApiRequest::new(Method::Get, join_path("v1/artists/", id, "/top-tracks")).query(
        "market",
        "from_token",
    );
    assert(r.query_view() =~= seq![("market"@, "from_token"@)]);
    r
}

/// The artists related to an artist; served through the disk cache.
pub fn related_artists_request(id: &str) -> (r: ApiRequest)
    ensures
        r.method == Method::Get,
        r.path@ == "v1/artists/"@ + id@ + "/related-artists"@,
        r.query_view() == Seq::<(Seq<char>, Seq<char>)>::empty(),
{
    ApiRequest::new(Method::Get, join_path("v1/artists/", id, "/related-artists"))
}

/// One album; served through the disk cache.
pub fn album_request(id: &str) -> (r: ApiRequest)
    ensures
        r.method == Method::Get,
        r.path@ == "v1/albums/"@ + id@,
        r.query_view() == seq![("market"@, "from_token"@)],
{
    assert("v1/albums/"@ + id@ + ""@ == "v1/albums/"@ + id@) by {
        reveal_strlit("");
        assert("v1/albums/"@ + id@ + ""@ =~= "v1/albums/"@ + id@);
    }
    let r = ApiRequest::new(Method::Get, join_path("v1/albums/", id, "")).query(
        "market",
        "from_token",
    );
    assert(r.query_view() =~= seq![("market"@, "from_token"@)]);
    r
}

/// The albums saved in the user's library, paginated.
pub fn saved_albums_request() -> (r: ApiRequest)
    ensures
        r.method == Method::Get,
        r.path@ == "v1/me/albums"@,
        r.query_view() == seq![("market"@, "from_token"@)],
{
    let r = ApiRequest::new(Method::Get, "v1/me/albums".to_string()).query("market", "from_token");
    assert(r.query_view() =~= seq![("market"@, "from_token"@)]);
    r
}

/// Save (`Put`) or remove (`Delete`) an album or a track of the user's
/// library; `path` is the collection path.
fn library_change_request(method: Method, path: &str, id: &str) -> (r: ApiRequest)
    ensures
        r.method == method,
        r.path@ == path@,
        r.query_view() == seq![("ids"@, id@)],
{
    let r = ApiRequest::new(method, path.to_string()).query("ids", id);
    assert(r.query_view() =~= seq![("ids"@, id@)]);
    r
}

pub fn save_album_request(id: &str) -> (r: ApiRequest)
    ensures
        r.method == Method::Put,
        r.path@ == "v1/me/albums"@,
        r.query_view() == seq![("ids"@, id@)],
{
    library_change_request(Method::Put, "v1/me/albums", id)
}

pub fn unsave_album_request(id: &str) -> (r: ApiRequest)
    ensures
        r.method == Method::Delete,
        r.path@ == "v1/me/albums"@,
        r.query_view() == seq![("ids"@, id@)],
{
    library_change_request(Method::Delete, "v1/me/albums", id)
}

/// The tracks saved in the user's library, paginated.
pub fn saved_tracks_request() -> (r: ApiRequest)
    ensures
        r.method == Method::Get,
        r.path@ == "v1/me/tracks"@,
        r.query_view() == seq![("market"@, "from_token"@)],
{
    let r = ApiRequest::new(Method::Get, "v1/me/tracks".to_string()).query("market", "from_token");
    assert(r.query_view() =~= seq![("market"@, "from_token"@)]);
    r
}

pub fn save_track_request(id: &str) -> (r: ApiRequest)
    ensures
        r.method == Method::Put,
        r.path@ == "v1/me/tracks"@,
        r.query_view() == seq![("ids"@, id@)],
{
    library_change_request(Method::Put, "v1/me/tracks", id)
}

pub fn unsave_track_request(id: &str) -> (r: ApiRequest)
    ensures
        r.method == Method::Delete,
        r.path@ == "v1/me/tracks"@,
        r.query_view() == seq![("ids"@, id@)],
{
    library_change_request(Method::Delete, "v1/me/tracks", id)
}

/// The user's playlists, paginated.
pub fn playlists_request() -> (r: ApiRequest)
    ensures
        r.method == Method::Get,
        r.path@ == "v1/me/playlists"@,
        r.query_view() == Seq::<(Seq<char>, Seq<char>)>::empty(),
{
    ApiRequest::new(Method::Get, "v1/me/playlists".to_string())
}

/// The tracks of a playlist, paginated.
pub fn playlist_tracks_request(id: &str) -> (r: ApiRequest)
    ensures
        r.method == Method::Get,
        r.path@ == "v1/playlists/"@ + id@ + "/tracks"@,
        r.query_view() == seq![("market"@, "from_token"@), ("additional_types"@, "track"@)],
{
    let r = ApiRequest::new(Method::Get, join_path("v1/playlists/", id, "/tracks")).query(
        "market",
        "from_token",
    ).query("additional_types", "track");
    assert(r.query_view() =~= seq![("market"@, "from_token"@), ("additional_types"@, "track"@)]);
    r
}

/// A search over artists, albums, tracks and playlists.
pub fn search_request(query: &str) -> (r: ApiRequest)
    ensures
        r.method == Method::Get,
        r.path@ == "v1/search"@,
        r.query_view() == seq![
            ("q"@, query@),
            ("type"@, "artist,album,track,playlist"@),
            ("market"@, "from_token"@),
        ],
{
    let r = ApiRequest::new(Method::Get, "v1/search".to_string()).query("q", query).query(
        "type",
        "artist,album,track,playlist",
    ).query("market", "from_token");
    assert(r.query_view() =~= seq![
        ("q"@, query@),
        ("type"@, "artist,album,track,playlist"@),
        ("market"@, "from_token"@),
    ]);
    r
}

/// The audio analysis of a track; served through the disk cache.
pub fn audio_analysis_request(track_id: &str) -> (r: ApiRequest)
    ensures
        r.method == Method::Get,
        r.path@ == "v1/audio-analysis/"@ + track_id@,
        r.query_view() == Seq::<(Seq<char>, Seq<char>)>::empty(),
{
    assert("v1/audio-analysis/"@ + track_id@ + ""@ == "v1/audio-analysis/"@ + track_id@) by {
        reveal_strlit("");
        assert("v1/audio-analysis/"@ + track_id@ + ""@ =~= "v1/audio-analysis/"@ + track_id@);
    }
    ApiRequest::new(Method::Get, join_path("v1/audio-analysis/", track_id, ""))
}

} // verus!
