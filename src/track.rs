use vstd::prelude::*;

verus! {

/// Which columns a track row shows.
#[derive(Copy, Clone, PartialEq, Eq, Structural, Debug)]
pub struct TrackDisplay {
    pub number: bool,
    pub title: bool,
    pub artist: bool,
    pub album: bool,
    pub popularity: bool,
}

impl TrackDisplay {
    /// A row that shows no optional column.
    pub fn empty() -> (r: Self)
        ensures
            !r.number && !r.title && !r.artist && !r.album && !r.popularity,
    {
        TrackDisplay { number: false, title: false, artist: false, album: false, popularity: false }
    }
}

/// How many stars a popularity rating is shown with.
pub const STAR_COUNT: usize = 5;

/// The filled stars for a popularity out of 100: its share of five stars,
/// rounded to the nearest whole star, halves up.
pub open spec fn filled_stars(popularity: u32) -> nat {
    ((popularity + 10) / 20) as nat
}

/// `filled` filled stars, then empty stars up to `count`.
pub open spec fn star_line(filled: nat, count: nat) -> Seq<char> {
    Seq::new(count, |i: int| if i < filled { '★' } else { '☆' })
}

/// A popularity rating (0 to 100) drawn as five stars. Past 109 the share
/// would round to more than five stars.
pub fn popularity_stars(popularity: u32) -> (stars: String)
    requires
        popularity < 110,
    ensures
        stars@ == star_line(filled_stars(popularity), STAR_COUNT as nat),
{
    let popular: usize = ((popularity + 10) / 20) as usize;
    let unpopular: usize = STAR_COUNT - popular;
    proof {
        reveal_strlit("★");
        reveal_strlit("☆");
    }
    let mut stars = String::new();
    let mut i: usize = 0;
    while i < popular
        invariant
            i <= popular,
            popular <= STAR_COUNT,
            stars@ =~= star_line(filled_stars(popularity), STAR_COUNT as nat).take(i as int),
            popular == filled_stars(popularity),
            "★"@ == seq!['★'],
        decreases popular - i,
    {
        stars.append("★");
        i = i + 1;
    }
    let mut j: usize = 0;
    while j < unpopular
        invariant
            j <= unpopular,
            popular + unpopular == STAR_COUNT,
            stars@ =~= star_line(filled_stars(popularity), STAR_COUNT as nat).take(popular + j),
            popular == filled_stars(popularity),
            "☆"@ == seq!['☆'],
        decreases unpopular - j,
    {
        stars.append("☆");
        j = j + 1;
    }
    stars
}

} // verus!
