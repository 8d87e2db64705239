use psst_gui::delegate::{
    load_album_detail, load_library_part, load_playlist_detail, load_search_results,
    session_connected, ArtistState, Delegate, Fetch, WindowAction,
};
use psst_gui::promise::Promise;

#[test]
fn windows_are_created_once_then_shown() {
    let mut d = Delegate::new();
    assert_eq!(d.show_main(), WindowAction::Create);
    d.main_window_created(11);
    assert_eq!(d.show_main(), WindowAction::Show { id: 11 });
    let mut p = Delegate::with_preferences(5);
    assert_eq!(p.show_preferences(), WindowAction::Show { id: 5 });
    assert!(p.window_removed(5));
    assert_eq!(p.show_preferences(), WindowAction::Create);
    assert!(!d.window_removed(11));
    assert_eq!(d.main_window(), None);
    let m = Delegate::with_main(3);
    assert_eq!(m.main_window(), Some(3));
    assert_eq!(m.preferences_window(), None);
}

#[test]
fn artist_page_fans_out_four_fetches() {
    let mut s: ArtistState<u8, u8, u8, u8, String> = ArtistState::new();
    let fetches = s.load("ar1".to_string());
    let id = "ar1".to_string();
    assert_eq!(
        fetches,
        vec![
            Fetch::Artist { id: id.clone() },
            Fetch::ArtistTopTracks { id: id.clone() },
            Fetch::ArtistRelated { id: id.clone() },
            Fetch::ArtistAlbums { id: id.clone() },
        ]
    );
    // One part failing leaves the others waiting.
    assert!(s.top_tracks.reject(id.clone(), "down".to_string()));
    assert!(s.artist.is_deferred(&id));
    assert!(s.albums.resolve(id.clone(), 4));
    assert!(s.related_artists.is_deferred(&id));
}

#[test]
fn navigating_to_another_playlist_drops_the_old_result() {
    let mut header: Promise<u8, String> = Promise::new();
    let mut tracks: Promise<Vec<u8>, String> = Promise::new();
    assert_eq!(
        load_playlist_detail(&mut header, &mut tracks, "list-a".to_string()),
        Fetch::PlaylistTracks { id: "list-a".to_string() }
    );
    load_playlist_detail(&mut header, &mut tracks, "list-b".to_string());
    assert!(!tracks.resolve_or_reject("list-a".to_string(), Ok(vec![1])));
    assert!(tracks.resolve_or_reject("list-b".to_string(), Ok(vec![2])));
    assert_eq!(tracks.resolved(), Some(&vec![2]));
}

#[test]
fn library_loads_only_when_empty_or_failed() {
    let mut saved: Promise<u8, String> = Promise::new();
    assert_eq!(load_library_part(&mut saved, Fetch::SavedTracks), Some(Fetch::SavedTracks));
    assert_eq!(load_library_part(&mut saved, Fetch::SavedTracks), None);
    assert!(saved.reject(String::new(), "x".to_string()));
    assert_eq!(load_library_part(&mut saved, Fetch::SavedTracks), Some(Fetch::SavedTracks));
    assert!(saved.resolve(String::new(), 1));
    assert_eq!(load_library_part(&mut saved, Fetch::SavedAlbums), None);
}

#[test]
fn album_search_and_session_cells() {
    let mut album: Promise<u8, String> = Promise::new();
    assert_eq!(load_album_detail(&mut album, "a".to_string()), Fetch::Album { id: "a".to_string() });
    assert!(album.is_deferred(&"a".to_string()));
    let mut results: Promise<u8, String> = Promise::new();
    assert_eq!(
        load_search_results(&mut results, "q".to_string()),
        Fetch::Search { query: "q".to_string() }
    );
    assert!(!results.resolve("old".to_string(), 1));
    let mut playlists: Promise<u8, String> = Promise::new();
    let mut profile: Promise<u8, String> = Promise::new();
    session_connected(&mut playlists, &mut profile);
    assert!(playlists.is_deferred(&String::new()));
    assert!(profile.is_deferred(&String::new()));
}
