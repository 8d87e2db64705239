use vstd::prelude::*;
use crate::image_cache::{ImageCache, after_get, after_insert, keys_of, lookup};
use crate::promise::Promise;

verus! {

/// How many decoded images are kept in memory.
pub const IMAGE_CACHE_SIZE: usize = 256;

/// A unit of background work that a command asks for. Each one runs on its
/// own worker and its result comes back as a completion tagged with the
/// identity named here.
#[derive(PartialEq, Eq, Clone, Debug)]
pub enum Fetch {
    PlaylistTracks { id: String },
    Album { id: String },
    Artist { id: String },
    ArtistTopTracks { id: String },
    ArtistRelated { id: String },
    ArtistAlbums { id: String },
    SavedTracks,
    SavedAlbums,
    Search { query: String },
    AudioAnalysis { id: String },
    SaveTrack { id: String },
    UnsaveTrack { id: String },
    SaveAlbum { id: String },
    UnsaveAlbum { id: String },
    Image { location: String },
}

/// What to do when a window is asked for.
#[derive(PartialEq, Eq, Structural, Clone, Copy, Debug)]
pub enum WindowAction {
    /// Bring the open window with this id to the front.
    Show { id: u64 },
    /// Open a new window, then report its id.
    Create,
}

/// How an image request is answered.
pub enum ImageAnswer {
    /// From memory, with no fetch.
    Ready { data: Vec<u8> },
    /// The image must be fetched; its data comes back through
    /// `provide_image`.
    Fetch(Fetch),
}

/// Routes commands: owns the in-memory image cache and the ids of the open
/// windows, and decides which background fetches each command starts.
pub struct Delegate {
    image_cache: ImageCache,
    main_window: Option<u64>,
    preferences_window: Option<u64>,
}

impl Delegate {
    pub closed spec fn images(&self) -> Seq<(Seq<char>, Seq<u8>)> {
        self.image_cache@
    }

    pub closed spec fn image_capacity(&self) -> nat {
        self.image_cache.capacity()
    }

    pub closed spec fn spec_main_window(&self) -> Option<u64> {
        self.main_window
    }

    pub closed spec fn spec_preferences_window(&self) -> Option<u64> {
        self.preferences_window
    }

    /// Cached locators are unique and the cache holds at most its capacity.
    pub open spec fn wf(&self) -> bool {
        &&& keys_of(self.images()).no_duplicates()
        &&& self.images().len() <= self.image_capacity()
    }

    pub fn new() -> (r: Self)
        ensures
            r.wf(),
            r.images() == Seq::<(Seq<char>, Seq<u8>)>::empty(),
            r.image_capacity() == IMAGE_CACHE_SIZE,
            r.spec_main_window() is None,
            r.spec_preferences_window() is None,
    {
        Delegate {
            image_cache: ImageCache::new(IMAGE_CACHE_SIZE),
            main_window: None,
            preferences_window: None,
        }
    }

    pub fn with_main(main_window: u64) -> (r: Self)
        ensures
            r.wf(),
            r.images() == Seq::<(Seq<char>, Seq<u8>)>::empty(),
            r.image_capacity() == IMAGE_CACHE_SIZE,
            r.spec_main_window() == Some(main_window),
            r.spec_preferences_window() is None,
    {
        let mut this = Self::new();
        this.main_window = Some(main_window);
        this
    }

    pub fn with_preferences(preferences_window: u64) -> (r: Self)
        ensures
            r.wf(),
            r.images() == Seq::<(Seq<char>, Seq<u8>)>::empty(),
            r.image_capacity() == IMAGE_CACHE_SIZE,
            r.spec_main_window() is None,
            r.spec_preferences_window() == Some(preferences_window),
    {
        let mut this = Self::new();
        this.preferences_window = Some(preferences_window);
        this
    }

    pub fn main_window(&self) -> (r: Option<u64>)
        ensures
            r == self.spec_main_window(),
    {
        self.main_window
    }

    pub fn preferences_window(&self) -> (r: Option<u64>)
        ensures
            r == self.spec_preferences_window(),
    {
        self.preferences_window
    }

    /// The main window is asked for: show it when open, else create it.
    pub fn show_main(&self) -> (r: WindowAction)
        ensures
            self.spec_main_window() matches Some(id) ==> r == (WindowAction::Show { id }),
            self.spec_main_window() is None ==> r == WindowAction::Create,
    {
        match self.main_window {
            Some(id) => WindowAction::Show { id },
            None => WindowAction::Create,
        }
    }

    /// The preferences window is asked for: show it when open, else create
    /// it.
    pub fn show_preferences(&self) -> (r: WindowAction)
        ensures
            self.spec_preferences_window() matches Some(id) ==> r == (WindowAction::Show { id }),
            self.spec_preferences_window() is None ==> r == WindowAction::Create,
    {
        match self.preferences_window {
            Some(id) => WindowAction::Show { id },
            None => WindowAction::Create,
        }
    }

    pub fn main_window_created(&mut self, id: u64)
        ensures
            final(self).spec_main_window() == Some(id),
            final(self).spec_preferences_window() == old(self).spec_preferences_window(),
            final(self).images() == old(self).images(),
            final(self).image_capacity() == old(self).image_capacity(),
            final(self).wf() == old(self).wf(),
    {
        self.main_window = Some(id);
    }

    pub fn preferences_window_created(&mut self, id: u64)
        ensures
            final(self).spec_preferences_window() == Some(id),
            final(self).spec_main_window() == old(self).spec_main_window(),
            final(self).images() == old(self).images(),
            final(self).image_capacity() == old(self).image_capacity(),
            final(self).wf() == old(self).wf(),
    {
        self.preferences_window = Some(id);
    }

    /// A window closed: forget its id. Returns whether it was the
    /// preferences window, whose edits are then to be reset.
    pub fn window_removed(&mut self, id: u64) -> (reset_preferences: bool)
        ensures
            reset_preferences == (old(self).spec_preferences_window() == Some(id)),
            final(self).spec_preferences_window() == (if reset_preferences {
                None
            } else {
                old(self).spec_preferences_window()
            }),
            final(self).spec_main_window() == (if old(self).spec_main_window() == Some(id) {
                None
            } else {
                old(self).spec_main_window()
            }),
            final(self).images() == old(self).images(),
            final(self).image_capacity() == old(self).image_capacity(),
            final(self).wf() == old(self).wf(),
    {
        let reset_preferences = self.preferences_window == Some(id);
        if reset_preferences {
            self.preferences_window = None;
        }
        if self.main_window == Some(id) {
            self.main_window = None;
        }
        reset_preferences
    }

    /// An image is asked for: answered from memory on a hit (which becomes
    /// the most recently used entry), else by a fetch of `location`.
    pub fn request_image(&mut self, location: String) -> (r: ImageAnswer)
        requires
            old(self).wf(),
        ensures
            final(self).wf(),
            final(self).images() == after_get(old(self).images(), location@),
            final(self).image_capacity() == old(self).image_capacity(),
            final(self).spec_main_window() == old(self).spec_main_window(),
            final(self).spec_preferences_window() == old(self).spec_preferences_window(),
            r matches ImageAnswer::Ready { data } ==> lookup(old(self).images(), location@) == Some(
                data@,
            ),
            r matches ImageAnswer::Fetch(f) ==> lookup(old(self).images(), location@) is None && f
                == (Fetch::Image { location }),
    {
        match self.image_cache.get(&location) {
            Some(data) => ImageAnswer::Ready { data },
            None => ImageAnswer::Fetch(Fetch::Image { location }),
        }
    }

    /// Fetched image data arrived: keep it in memory for later requests.
    pub fn provide_image(&mut self, location: String, data: Vec<u8>)
        requires
            old(self).wf(),
        ensures
            final(self).wf(),
            final(self).images() == after_insert(
                old(self).images(),
                old(self).image_capacity(),
                location@,
                data@,
            ),
            final(self).image_capacity() == old(self).image_capacity(),
            final(self).spec_main_window() == old(self).spec_main_window(),
            final(self).spec_preferences_window() == old(self).spec_preferences_window(),
    {
        self.image_cache.insert(location, data);
    }
}

/// The cells of an artist page, one per part, each fetched on its own so
/// that one failing leaves the others alone.
pub struct ArtistState<A, T, R, L, E> {
    pub artist: Promise<A, E>,
    pub top_tracks: Promise<T, E>,
    pub related_artists: Promise<R, E>,
    pub albums: Promise<L, E>,
}

impl<A, T, R, L, E> ArtistState<A, T, R, L, E> {
    pub fn new() -> (r: Self)
        ensures
            r.artist is Empty,
            r.top_tracks is Empty,
            r.related_artists is Empty,
            r.albums is Empty,
    {
        ArtistState {
            artist: Promise::new(),
            top_tracks: Promise::new(),
            related_artists: Promise::new(),
            albums: Promise::new(),
        }
    }

    /// Open the page of artist `id`: every part waits on `id`, and one fetch
    /// per part is started, in the order detail, top tracks, related
    /// artists, albums.
    pub fn load(&mut self, id: String) -> (r: Vec<Fetch>)
        ensures
            final(self).artist == old(self).artist.spec_defer(id),
            final(self).top_tracks == old(self).top_tracks.spec_defer(id),
            final(self).related_artists == old(self).related_artists.spec_defer(id),
            final(self).albums == old(self).albums.spec_defer(id),
            r@ == seq![
                Fetch::Artist { id },
                Fetch::ArtistTopTracks { id },
                Fetch::ArtistRelated { id },
                Fetch::ArtistAlbums { id },
            ],
    {
        self.artist.defer(id.clone());
        self.top_tracks.defer(id.clone());
        self.related_artists.defer(id.clone());
        self.albums.defer(id.clone());
        let mut r: Vec<Fetch> = Vec::new();
        r.push(Fetch::Artist { id: id.clone() });
        r.push(Fetch::ArtistTopTracks { id: id.clone() });
        r.push(Fetch::ArtistRelated { id: id.clone() });
        r.push(Fetch::ArtistAlbums { id });
        assert(r@ =~= seq![
            Fetch::Artist { id },
            Fetch::ArtistTopTracks { id },
            Fetch::ArtistRelated { id },
            Fetch::ArtistAlbums { id },
        ]);
        r
    }
}

/// Open playlist `id`: its header and its tracks wait on `id`, and its
/// tracks are fetched.
pub fn load_playlist_detail<P, T, E>(
    playlist: &mut Promise<P, E>,
    tracks: &mut Promise<T, E>,
    id: String,
) -> (r: Fetch)
    ensures
        *final(playlist) == old(playlist).spec_defer(id),
        *final(tracks) == old(tracks).spec_defer(id),
        r == (Fetch::PlaylistTracks { id }),
{
    playlist.defer(id.clone());
    tracks.defer(id.clone());
    Fetch::PlaylistTracks { id }
}

/// Open album `id`: the album waits on `id` and is fetched.
pub fn load_album_detail<A, E>(album: &mut Promise<A, E>, id: String) -> (r: Fetch)
    ensures
        *final(album) == old(album).spec_defer(id),
        r == (Fetch::Album { id }),
{
    album.defer(id.clone());
    Fetch::Album { id }
}

/// Search for `query`: the results wait on the query, and it is sent.
pub fn load_search_results<S, E>(results: &mut Promise<S, E>, query: String) -> (r: Fetch)
    ensures
        *final(results) == old(results).spec_defer(query),
        r == (Fetch::Search { query }),
{
    results.defer(query.clone());
    Fetch::Search { query }
}

/// A track started playing: the analysis of the track now playing, if any,
/// waits on its id, and the analysis is fetched.
pub fn load_audio_analysis<A, E>(analysis: &mut Option<Promise<A, E>>, id: String) -> (r: Fetch)
    ensures
        *final(analysis) == (match *old(analysis) {
            Some(p) => Some(p.spec_defer(id)),
            None => None,
        }),
        r == (Fetch::AudioAnalysis { id }),
{
    match analysis {
        Some(cell) => cell.defer(id.clone()),
        None => {},
    }
    Fetch::AudioAnalysis { id }
}

/// A part of the user's library is asked for: fetched, under the empty
/// identity, only when it was never loaded or its last load failed.
pub fn load_library_part<T, E>(cell: &mut Promise<T, E>, fetch: Fetch) -> (r: Option<Fetch>)
    ensures
        (*old(cell) is Empty || *old(cell) is Rejected) ==> final(cell).spec_is_deferred(Seq::empty())
            && r == Some(fetch),
        !(*old(cell) is Empty || *old(cell) is Rejected) ==> *final(cell) == *old(cell) && r is None,
{
    if cell.is_empty() || cell.is_rejected() {
        cell.defer_default();
        Some(fetch)
    } else {
        None
    }
}

/// The session is connected: the playlists and the user's profile wait on
/// their first load.
pub fn session_connected<P, U, E>(playlists: &mut Promise<P, E>, user_profile: &mut Promise<U, E>)
    ensures
        final(playlists).spec_is_deferred(Seq::empty()),
        final(user_profile).spec_is_deferred(Seq::empty()),
{
    playlists.defer_default();
    user_profile.defer_default();
}

} // verus!
