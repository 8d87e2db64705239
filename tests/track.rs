use psst_gui::track::{popularity_stars, TrackDisplay};

#[test]
fn stars_for_popularity() {
    assert_eq!(popularity_stars(0), "☆☆☆☆☆");
    assert_eq!(popularity_stars(9), "☆☆☆☆☆");
    assert_eq!(popularity_stars(10), "★☆☆☆☆");
    assert_eq!(popularity_stars(50), "★★★☆☆");
    assert_eq!(popularity_stars(69), "★★★☆☆");
    assert_eq!(popularity_stars(70), "★★★★☆");
    assert_eq!(popularity_stars(100), "★★★★★");
    assert_eq!(popularity_stars(109), "★★★★★");
}

#[test]
fn empty_display_shows_nothing() {
    let d = TrackDisplay::empty();
    assert!(!d.number && !d.title && !d.artist && !d.album && !d.popularity);
}

