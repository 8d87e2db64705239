use vstd::prelude::*;

verus! {

/// A failed fetch, by kind; `message` holds the underlying error's text.
#[derive(Clone, Debug)]
pub enum Error {
    /// The connection or the reading of a body failed.
    Transport { message: String },
    /// A status outside 2xx other than a rate limit.
    HttpStatus { status: u16 },
    /// The body did not decode into the expected shape.
    Deserialization { message: String },
    /// A cache entry that was found could not be read.
    Storage { message: String },
}

/// A value tagged with where it came from: fetched just now, or read from
/// the disk cache with the time the entry was last written.
#[derive(Clone, Debug)]
pub struct Cached<T> {
    pub data: T,
    /// Milliseconds since the Unix epoch at which the cache entry was last
    /// modified; `None` for a fresh value.
    pub cached_at: Option<u64>,
}

impl<T> Cached<T> {
    pub fn fresh(data: T) -> (r: Self)
        ensures
            r.data == data,
            r.cached_at is None,
    {
        Cached { data, cached_at: None }
    }

    pub fn cached(data: T, at: u64) -> (r: Self)
        ensures
            r.data == data,
            r.cached_at == Some(at),
    {
        Cached { data, cached_at: Some(at) }
    }

    pub fn is_cached(&self) -> (r: bool)
        ensures
            r == self.cached_at is Some,
    {
        self.cached_at.is_some()
    }
}

/// One entry read back from the disk cache.
pub struct CacheEntry {
    pub body: Vec<u8>,
    /// Milliseconds since the Unix epoch at which the entry was last written.
    pub modified: u64,
}

/// Where the disk cache keeps its entries: a file per key, in a directory
/// per bucket, under a base directory. Without a base directory the cache is
/// disabled.
pub struct DiskCache {
    pub base: Option<String>,
}

pub open spec fn spec_entry_path(base: Seq<char>, bucket: Seq<char>, key: Seq<char>) -> Seq<char> {
    base + "/"@ + bucket + "/"@ + key
}

impl DiskCache {
    pub fn new(base: Option<String>) -> (r: Self)
        ensures
            r.base == base,
    {
        DiskCache { base }
    }

    pub fn is_enabled(&self) -> (r: bool)
        ensures
            r == self.base is Some,
    {
        self.base.is_some()
    }

    /// The file that holds the entry `(bucket, key)`, or `None` when the
    /// cache is disabled: then every lookup misses and every store is
    /// skipped.
    pub fn entry_path(&self, bucket: &str, key: &str) -> (r: Option<String>)
        ensures
            self.base is None ==> r is None,
            self.base matches Some(b) ==> (r matches Some(p) && p@ == spec_entry_path(b@, bucket@, key@)),
    {
        match &self.base {
            Some(b) => {
                let mut p = b.clone();
                p.append("/");
                p.append(bucket);
                p.append("/");
                p.append(key);
                Some(p)
            },
            None => None,
        }
    }

    /// The directory that holds the entries of `bucket`, or `None` when the
    /// cache is disabled.
    pub fn bucket_path(&self, bucket: &str) -> (r: Option<String>)
        ensures
            self.base is None ==> r is None,
            self.base matches Some(b) ==> (r matches Some(p) && p@ == b@ + "/"@ + bucket@),
    {
        match &self.base {
            Some(b) => {
                let mut p = b.clone();
                p.append("/");
                p.append(bucket);
                Some(p)
            },
            None => None,
        }
    }
}

/// The first step of a cached GET, decided by what the disk cache holds for
/// the key.
pub enum CachedGetStep {
    /// A hit: the stored body, tagged with the entry's time; no network call.
    Serve(Cached<Vec<u8>>),
    /// A miss: the request goes to the network.
    Fetch,
}

pub open spec fn spec_begin_cached_get(entry: Option<CacheEntry>) -> CachedGetStep {
    match entry {
        Some(e) => CachedGetStep::Serve(Cached { data: e.body, cached_at: Some(e.modified) }),
        None => CachedGetStep::Fetch,
    }
}

/// A cached GET serves a stored entry as it is, tagged `Cached` with the
/// entry's time, and goes to the network only on a miss.
pub fn begin_cached_get(entry: Option<CacheEntry>) -> (r: CachedGetStep)
    ensures
        r == spec_begin_cached_get(entry),
{
    match entry {
        Some(e) => CachedGetStep::Serve(Cached::cached(e.body, e.modified)),
        None => CachedGetStep::Fetch,
    }
}

/// The outcome of a cached GET whose request went to the network: a body
/// that decoded is to be stored under the key and is returned `Fresh`; one
/// that did not is surfaced as a decoding error and not stored.
pub fn finish_cached_get(body: Vec<u8>, decode_error: Option<String>) -> (r: (
    Option<Vec<u8>>,
    Result<Cached<Vec<u8>>, Error>,
))
    ensures
        decode_error is None ==> (r.0 matches Some(b) && b@ == body@),
        decode_error is None ==> (r.1 matches Ok(c) && c.data@ == body@ && c.cached_at is None),
        decode_error matches Some(m) ==> r.0 is None && r.1 == Err::<Cached<Vec<u8>>, Error>(
            Error::Deserialization { message: m },
        ),
{
    match decode_error {
        None => {
            let stored = body.clone();
            assert(stored@ =~= body@);
            (Some(stored), Ok(Cached::fresh(body)))
        },
        Some(message) => (None, Err(Error::Deserialization { message })),
    }
}

/// A cached GET that finds the disk cache empty goes to the network; once an
/// entry has been stored with body `body` at time `written`, a later cached
/// GET for the key serves exactly that body, tagged with that time, and makes
/// no network call.
pub proof fn lemma_cached_get_serves_stored(body: Vec<u8>, written: u64)
    ensures
        spec_begin_cached_get(None) is Fetch,
        spec_begin_cached_get(Some(CacheEntry { body, modified: written }))
            == CachedGetStep::Serve(Cached { data: body, cached_at: Some(written) }),
{
}

/// The disk cache bucket of artist details.
pub const ARTIST_BUCKET: &'static str = "artist";

/// The disk cache bucket of album details.
pub const ALBUM_BUCKET: &'static str = "album";

/// The disk cache bucket of related-artist lists.
pub const RELATED_ARTISTS_BUCKET: &'static str = "related-artists";

/// The disk cache bucket of per-track audio analyses.
pub const AUDIO_ANALYSIS_BUCKET: &'static str = "audio-analysis";

#[derive(PartialEq, Eq, Structural, Clone, Copy, Debug)]
pub enum AlbumType {
    Album,
    Single,
    Compilation,
    AppearsOn,
}

/// The albums of an artist, split by kind.
pub struct ArtistAlbums<A> {
    pub albums: Vec<A>,
    pub singles: Vec<A>,
    pub compilations: Vec<A>,
    pub appears_on: Vec<A>,
}

/// The items of `s` whose kind is `k`, in order.
pub open spec fn of_kind<A>(s: Seq<(AlbumType, A)>, k: AlbumType) -> Seq<A>
    decreases s.len(),
{
    if s.len() == 0 {
        Seq::empty()
    } else if s.last().0 == k {
        of_kind(s.drop_last(), k).push(s.last().1)
    } else {
        of_kind(s.drop_last(), k)
    }
}

/// Split an artist's albums by kind, keeping the order of each kind.
pub fn group_artist_albums<A>(albums: Vec<(AlbumType, A)>) -> (r: ArtistAlbums<A>)
    ensures
        r.albums@ == of_kind(albums@, AlbumType::Album),
        r.singles@ == of_kind(albums@, AlbumType::Single),
        r.compilations@ == of_kind(albums@, AlbumType::Compilation),
        r.appears_on@ == of_kind(albums@, AlbumType::AppearsOn),
{
    let ghost all = albums@;
    let mut rest = albums;
    let mut r = ArtistAlbums {
        albums: Vec::new(),
        singles: Vec::new(),
        compilations: Vec::new(),
        appears_on: Vec::new(),
    };
    let ghost mut done: int = 0;
    while rest.len() > 0
        invariant
            0 <= done <= all.len(),
            rest@ == all.subrange(done, all.len() as int),
            r.albums@ == of_kind(all.take(done), AlbumType::Album),
            r.singles@ == of_kind(all.take(done), AlbumType::Single),
            r.compilations@ == of_kind(all.take(done), AlbumType::Compilation),
            r.appears_on@ == of_kind(all.take(done), AlbumType::AppearsOn),
        decreases rest.len(),
    {
        let (kind, album) = rest.remove(0);
        proof {
            assert(all.take(done + 1).drop_last() =~= all.take(done));
            assert(all.take(done + 1).last() == all[done]);
            done = done + 1;
        }
        match kind {
            AlbumType::Album => r.albums.push(album),
            AlbumType::Single => r.singles.push(album),
            AlbumType::Compilation => r.compilations.push(album),
            AlbumType::AppearsOn => r.appears_on.push(album),
        }
        assert(rest@ =~= all.subrange(done, all.len() as int));
    }
    assert(all.take(done) =~= all);
    r
}

/// The values that are present, in order.
pub open spec fn present<T>(s: Seq<Option<T>>) -> Seq<T>
    decreases s.len(),
{
    if s.len() == 0 {
        Seq::empty()
    } else {
        match s.last() {
            Some(t) => present(s.drop_last()).push(t),
            None => present(s.drop_last()),
        }
    }
}

/// Keep the values that are present, in order: a playlist entry may have no
/// track (a local file or one that was removed).
pub fn present_tracks<T>(items: Vec<Option<T>>) -> (r: Vec<T>)
    ensures
        r@ == present(items@),
{
    let ghost all = items@;
    let mut rest = items;
    let mut r: Vec<T> = Vec::new();
    let ghost mut done: int = 0;
    while rest.len() > 0
        invariant
            0 <= done <= all.len(),
            rest@ == all.subrange(done, all.len() as int),
            r@ == present(all.take(done)),
        decreases rest.len(),
    {
        let item = rest.remove(0);
        proof {
            assert(all.take(done + 1).drop_last() =~= all.take(done));
            assert(all.take(done + 1).last() == all[done]);
            done = done + 1;
        }
        match item {
            Some(t) => r.push(t),
            None => {},
        }
        assert(rest@ =~= all.subrange(done, all.len() as int));
    }
    assert(all.take(done) =~= all);
    r
}

} // verus!
