use psst_gui::endpoints::{
    album_request, artist_albums_request, artist_request, audio_analysis_request, bearer,
    playlist_tracks_request, save_track_request, search_request, unsave_album_request,
    user_profile_request, ApiRequest, Method,
};
use psst_gui::webapi::{
    begin_cached_get, finish_cached_get, group_artist_albums, present_tracks, AlbumType,
    CacheEntry, Cached, CachedGetStep, DiskCache, Error, ARTIST_BUCKET,
};
use std::collections::HashMap;

fn query(r: &ApiRequest) -> Vec<(&str, &str)> {
    r.query.iter().map(|(k, v)| (k.as_str(), v.as_str())).collect()
}

#[test]
fn cached_get_fetches_once_then_serves_from_cache() {
    let mut disk: HashMap<(String, String), (Vec<u8>, u64)> = HashMap::new();
    let mut network_calls = 0;
    let key = (ARTIST_BUCKET.to_string(), "abc".to_string());

    let mut call = |now: u64, disk: &mut HashMap<(String, String), (Vec<u8>, u64)>| {
        let entry = disk.get(&key).map(|(body, modified)| CacheEntry {
            body: body.clone(),
            modified: *modified,
        });
        match begin_cached_get(entry) {
            CachedGetStep::Serve(c) => c,
            CachedGetStep::Fetch => {
                network_calls += 1;
                let body = b"{\"id\":\"abc\"}".to_vec();
                let (store, result) = finish_cached_get(body, None);
                if let Some(bytes) = store {
                    disk.insert(key.clone(), (bytes, now));
                }
                result.unwrap()
            }
        }
    };

    let first: Cached<Vec<u8>> = call(1000, &mut disk);
    assert!(!first.is_cached());
    assert_eq!(first.cached_at, None);
    let second = call(5000, &mut disk);
    assert!(second.is_cached());
    assert_eq!(second.cached_at, Some(1000));
    assert_eq!(second.data, first.data);
    assert_eq!(network_calls, 1);
}

#[test]
fn undecodable_body_is_not_stored() {
    let (store, result) = finish_cached_get(b"not json".to_vec(), Some("expected value".to_string()));
    assert!(store.is_none());
    match result {
        Err(Error::Deserialization { message }) => assert_eq!(message, "expected value"),
        _ => panic!("decoding error expected"),
    }
}

#[test]
fn disk_cache_paths() {
    let enabled = DiskCache::new(Some("/tmp/cache".to_string()));
    assert!(enabled.is_enabled());
    assert_eq!(enabled.entry_path("artist", "xyz"), Some("/tmp/cache/artist/xyz".to_string()));
    assert_eq!(enabled.bucket_path("album"), Some("/tmp/cache/album".to_string()));
    let disabled = DiskCache::new(None);
    assert!(!disabled.is_enabled());
    assert_eq!(disabled.entry_path("artist", "xyz"), None);
    assert_eq!(disabled.bucket_path("artist"), None);
}

#[test]
fn request_paths_and_queries() {
    let r = artist_request("42");
    assert_eq!(r.method, Method::Get);
    assert_eq!(r.url(), "https://api.spotify.com/v1/artists/42");
    assert!(r.query.is_empty());

    let r = artist_albums_request("42");
    assert_eq!(r.path, "v1/artists/42/albums");
    assert_eq!(query(&r), vec![("market", "from_token")]);

    let r = album_request("7");
    assert_eq!(r.path, "v1/albums/7");
    assert_eq!(query(&r), vec![("market", "from_token")]);

    let r = playlist_tracks_request("list-a");
    assert_eq!(r.path, "v1/playlists/list-a/tracks");
    assert_eq!(query(&r), vec![("market", "from_token"), ("additional_types", "track")]);

    let r = search_request("daft punk");
    assert_eq!(r.path, "v1/search");
    assert_eq!(
        query(&r),
        vec![("q", "daft punk"), ("type", "artist,album,track,playlist"), ("market", "from_token")]
    );

    let r = save_track_request("t9");
    assert_eq!(r.method, Method::Put);
    assert_eq!(r.path, "v1/me/tracks");
    assert_eq!(query(&r), vec![("ids", "t9")]);

    let r = unsave_album_request("a3");
    assert_eq!(r.method, Method::Delete);
    assert_eq!(r.path, "v1/me/albums");

    assert_eq!(audio_analysis_request("t1").path, "v1/audio-analysis/t1");
    assert_eq!(user_profile_request().path, "v1/me");
    assert_eq!(bearer("tok"), "Bearer tok");
}

#[test]
fn artist_albums_are_split_by_kind_in_order() {
    let albums = vec![
        (AlbumType::Single, 1),
        (AlbumType::Album, 2),
        (AlbumType::Single, 3),
        (AlbumType::AppearsOn, 4),
        (AlbumType::Compilation, 5),
        (AlbumType::Album, 6),
    ];
    let g = group_artist_albums(albums);
    assert_eq!(g.albums, vec![2, 6]);
    assert_eq!(g.singles, vec![1, 3]);
    assert_eq!(g.compilations, vec![5]);
    assert_eq!(g.appears_on, vec![4]);
}

#[test]
fn playlist_entries_without_track_are_dropped() {
    assert_eq!(present_tracks(vec![Some(1), None, Some(3), None]), vec![1, 3]);
    assert_eq!(present_tracks::<u8>(vec![None]), Vec::<u8>::new());
}
