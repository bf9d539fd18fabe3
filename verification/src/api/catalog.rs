//! The catalog over HTTP: the orders that lists can have, and the sections of the home page.

use vstd::prelude::*;

use crate::api::parameters::{bad_request, ApiError};
use crate::text::same;

verus! {

/// How artists are ordered.
#[derive(Clone, Copy, Debug, PartialEq, Eq, Structural)]
pub enum ArtistSort {
    Title,
    AlbumCount,
    TrackCount,
    LastPlayed,
    PlayCount,
    Rating,
    Favorite,
}

pub open spec fn artist_sort_of(value: Seq<char>) -> Option<ArtistSort> {
    if value == "title"@ {
        Some(ArtistSort::Title)
    } else if value == "album_count"@ {
        Some(ArtistSort::AlbumCount)
    } else if value == "track_count"@ {
        Some(ArtistSort::TrackCount)
    } else if value == "last_played"@ {
        Some(ArtistSort::LastPlayed)
    } else if value == "play_count"@ {
        Some(ArtistSort::PlayCount)
    } else if value == "rating"@ {
        Some(ArtistSort::Rating)
    } else if value == "favorite"@ {
        Some(ArtistSort::Favorite)
    } else {
        None
    }
}

/// The order of artists that is asked for; by title where none is.
pub fn artist_sort(value: Option<&str>) -> (result: Result<ArtistSort, ApiError>)
    ensures
        match value {
            None => result == Ok::<ArtistSort, ApiError>(ArtistSort::Title),
            Some(value) => match artist_sort_of(value@) {
                Some(sort) => result == Ok::<ArtistSort, ApiError>(sort),
                None => result matches Err(error) && error.status == 400 && error.message@
                    == "Unknown artist sort"@,
            },
        },
{
    let value = match value {
        Some(value) => value,
        None => {
            return Ok(ArtistSort::Title);
        },
    };
    if same(value, "title") {
        Ok(ArtistSort::Title)
    } else if same(value, "album_count") {
        Ok(ArtistSort::AlbumCount)
    } else if same(value, "track_count") {
        Ok(ArtistSort::TrackCount)
    } else if same(value, "last_played") {
        Ok(ArtistSort::LastPlayed)
    } else if same(value, "play_count") {
        Ok(ArtistSort::PlayCount)
    } else if same(value, "rating") {
        Ok(ArtistSort::Rating)
    } else if same(value, "favorite") {
        Ok(ArtistSort::Favorite)
    } else {
        Err(bad_request("Unknown artist sort"))
    }
}

/// How albums are ordered.
#[derive(Clone, Copy, Debug, PartialEq, Eq, Structural)]
pub enum AlbumSort {
    Title,
    AlbumArtist,
    Year,
    ReleaseDate,
    DateAdded,
    LastPlayed,
    PlayCount,
    Rating,
    TrackCount,
    Duration,
    Favorite,
}

pub open spec fn album_sort_of(value: Seq<char>) -> Option<AlbumSort> {
    if value == "title"@ {
        Some(AlbumSort::Title)
    } else if value == "album_artist"@ {
        Some(AlbumSort::AlbumArtist)
    } else if value == "year"@ {
        Some(AlbumSort::Year)
    } else if value == "release_date"@ {
        Some(AlbumSort::ReleaseDate)
    } else if value == "date_added"@ {
        Some(AlbumSort::DateAdded)
    } else if value == "last_played"@ {
        Some(AlbumSort::LastPlayed)
    } else if value == "play_count"@ {
        Some(AlbumSort::PlayCount)
    } else if value == "rating"@ {
        Some(AlbumSort::Rating)
    } else if value == "track_count"@ {
        Some(AlbumSort::TrackCount)
    } else if value == "duration"@ {
        Some(AlbumSort::Duration)
    } else if value == "favorite"@ {
        Some(AlbumSort::Favorite)
    } else {
        None
    }
}

/// The order of albums that is asked for; by title where none is.
pub fn album_sort(value: Option<&str>) -> (result: Result<AlbumSort, ApiError>)
    ensures
        match value {
            None => result == Ok::<AlbumSort, ApiError>(AlbumSort::Title),
            Some(value) => match album_sort_of(value@) {
                Some(sort) => result == Ok::<AlbumSort, ApiError>(sort),
                None => result matches Err(error) && error.status == 400 && error.message@
                    == "Unknown album sort"@,
            },
        },
{
    let value = match value {
        Some(value) => value,
        None => {
            return Ok(AlbumSort::Title);
        },
    };
    if same(value, "title") {
        Ok(AlbumSort::Title)
    } else if same(value, "album_artist") {
        Ok(AlbumSort::AlbumArtist)
    } else if same(value, "year") {
        Ok(AlbumSort::Year)
    } else if same(value, "release_date") {
        Ok(AlbumSort::ReleaseDate)
    } else if same(value, "date_added") {
        Ok(AlbumSort::DateAdded)
    } else if same(value, "last_played") {
        Ok(AlbumSort::LastPlayed)
    } else if same(value, "play_count") {
        Ok(AlbumSort::PlayCount)
    } else if same(value, "rating") {
        Ok(AlbumSort::Rating)
    } else if same(value, "track_count") {
        Ok(AlbumSort::TrackCount)
    } else if same(value, "duration") {
        Ok(AlbumSort::Duration)
    } else if same(value, "favorite") {
        Ok(AlbumSort::Favorite)
    } else {
        Err(bad_request("Unknown album sort"))
    }
}

/// How lists of playlists are ordered.
#[derive(Clone, Copy, Debug, PartialEq, Eq, Structural)]
pub enum ListSort {
    Position,
    Title,
    TrackCount,
    Duration,
}

pub open spec fn list_sort_of(value: Seq<char>) -> Option<ListSort> {
    if value == "position"@ {
        Some(ListSort::Position)
    } else if value == "title"@ {
        Some(ListSort::Title)
    } else if value == "track_count"@ {
        Some(ListSort::TrackCount)
    } else if value == "duration"@ {
        Some(ListSort::Duration)
    } else {
        None
    }
}

fn read_list_sort(value: Option<&str>) -> (result: Option<ListSort>)
    ensures
        result == match value {
            None => Some(ListSort::Position),
            Some(value) => list_sort_of(value@),
        },
{
    let value = match value {
        Some(value) => value,
        None => {
            return Some(ListSort::Position);
        },
    };
    if same(value, "position") {
        Some(ListSort::Position)
    } else if same(value, "title") {
        Some(ListSort::Title)
    } else if same(value, "track_count") {
        Some(ListSort::TrackCount)
    } else if same(value, "duration") {
        Some(ListSort::Duration)
    } else {
        None
    }
}

/// The order of playlists that is asked for; by position where none is.
pub fn playlist_sort(value: Option<&str>) -> (result: Result<ListSort, ApiError>)
    ensures
        match (match value {
            None => Some(ListSort::Position),
            Some(value) => list_sort_of(value@),
        }) {
            Some(sort) => result == Ok::<ListSort, ApiError>(sort),
            None => result matches Err(error) && error.status == 400 && error.message@
                == "Unknown playlist sort"@,
        },
{
    match read_list_sort(value) {
        Some(sort) => Ok(sort),
        None => Err(bad_request("Unknown playlist sort")),
    }
}

/// The order of smart playlists that is asked for; by position where none is.
pub fn smart_playlist_sort(value: Option<&str>) -> (result: Result<ListSort, ApiError>)
    ensures
        match (match value {
            None => Some(ListSort::Position),
            Some(value) => list_sort_of(value@),
        }) {
            Some(sort) => result == Ok::<ListSort, ApiError>(sort),
            None => result matches Err(error) && error.status == 400 && error.message@
                == "Unknown smart playlist sort"@,
        },
{
    match read_list_sort(value) {
        Some(sort) => Ok(sort),
        None => Err(bad_request("Unknown smart playlist sort")),
    }
}

/// A block of the home page.
#[derive(Clone, Copy, Debug, PartialEq, Eq, Structural)]
pub enum HomeBlock {
    Showcase,
    Explore,
    MostPlayed,
    NewlyAdded,
    RecentlyPlayed,
    RecentlyReleased,
    Genres,
}

impl HomeBlock {
    pub open spec fn heading(self) -> Seq<char> {
        match self {
            HomeBlock::Showcase => "Showcase"@,
            HomeBlock::Explore => "Explore"@,
            HomeBlock::MostPlayed => "Most played"@,
            HomeBlock::NewlyAdded => "Newly added"@,
            HomeBlock::RecentlyPlayed => "Recently played"@,
            HomeBlock::RecentlyReleased => "Recently released"@,
            HomeBlock::Genres => "Featured genres"@,
        }
    }

    pub fn title(self) -> (result: &'static str)
        ensures
            result@ == self.heading(),
    {
        match self {
            HomeBlock::Showcase => "Showcase",
            HomeBlock::Explore => "Explore",
            HomeBlock::MostPlayed => "Most played",
            HomeBlock::NewlyAdded => "Newly added",
            HomeBlock::RecentlyPlayed => "Recently played",
            HomeBlock::RecentlyReleased => "Recently released",
            HomeBlock::Genres => "Featured genres",
        }
    }
}

/// The blocks that are shown: those that are configured, or only the one that is asked for.
pub open spec fn blocks_shown(blocks: Seq<HomeBlock>, wanted: Option<HomeBlock>) -> Seq<HomeBlock>
    decreases blocks.len(),
{
    if blocks.len() == 0 {
        seq![]
    } else {
        let earlier = blocks_shown(blocks.drop_last(), wanted);
        if wanted is None || wanted == Some(blocks.last()) {
            earlier.push(blocks.last())
        } else {
            earlier
        }
    }
}

pub fn home_blocks(blocks: &Vec<HomeBlock>, wanted: Option<HomeBlock>) -> (result: Vec<HomeBlock>)
    ensures
        result@ == blocks_shown(blocks@, wanted),
{
    let mut result: Vec<HomeBlock> = Vec::new();
    let mut i: usize = 0;
    while i < blocks.len()
        invariant
            i <= blocks@.len(),
            result@ == blocks_shown(blocks@.take(i as int), wanted),
        decreases blocks@.len() - i,
    {
        proof {
            assert(blocks@.take(i + 1).drop_last() =~= blocks@.take(i as int));
            assert(blocks@.take(i + 1).last() == blocks@[i as int]);
        }
        let block: HomeBlock = blocks[i];
        let chosen: bool = match wanted {
            None => true,
            Some(wanted) => wanted == block,
        };
        if chosen {
            result.push(block);
        }
        i += 1;
    }
    assert(blocks@.take(i as int) =~= blocks@);
    result
}

/// A section that a server has for its home page.
pub struct ProviderSection {
    pub title: Option<String>,
    pub items: usize,
}

/// What a section of the home page holds.
#[derive(Clone, Copy, Debug, PartialEq, Eq, Structural)]
pub enum SectionOf {
    Block(HomeBlock),
    /// The section of the server at this place.
    Provider(usize),
}

/// A section of the home page with its title.
pub struct HomeSection {
    pub of: SectionOf,
    pub title: String,
}

/// What the sections of the home page are: the blocks and then the sections of the server, without
/// those that hold nothing. The server's are not shown where one block is asked for.
pub open spec fn sections_shown(
    blocks: Seq<(HomeBlock, usize)>,
    provider: Seq<ProviderSection>,
    block_asked: bool,
) -> Seq<SectionOf> {
    block_sections(blocks) + if block_asked {
        seq![]
    } else {
        provider_sections(provider)
    }
}

pub open spec fn block_sections(blocks: Seq<(HomeBlock, usize)>) -> Seq<SectionOf>
    decreases blocks.len(),
{
    if blocks.len() == 0 {
        seq![]
    } else {
        let earlier = block_sections(blocks.drop_last());
        if blocks.last().1 > 0 {
            earlier.push(SectionOf::Block(blocks.last().0))
        } else {
            earlier
        }
    }
}

pub open spec fn provider_sections(provider: Seq<ProviderSection>) -> Seq<SectionOf>
    decreases provider.len(),
{
    if provider.len() == 0 {
        seq![]
    } else {
        let earlier = provider_sections(provider.drop_last());
        if provider.last().items > 0 {
            earlier.push(SectionOf::Provider((provider.len() - 1) as usize))
        } else {
            earlier
        }
    }
}

/// The title of a section; one of the server may have none of its own.
pub open spec fn section_title(of: SectionOf, provider: Seq<ProviderSection>) -> Seq<char> {
    match of {
        SectionOf::Block(block) => block.heading(),
        SectionOf::Provider(i) => match provider[i as int].title {
            Some(title) => title@,
            None => "From your server"@,
        },
    }
}

/// What sections hold.
pub open spec fn contents(sections: Seq<HomeSection>) -> Seq<SectionOf> {
    sections.map_values(|section: HomeSection| section.of)
}

/// The sections of the home page.
pub fn home_sections(
    blocks: &Vec<(HomeBlock, usize)>,
    provider: &Vec<ProviderSection>,
    block_asked: bool,
) -> (result: Vec<HomeSection>)
    ensures
        contents(result@) == sections_shown(blocks@, provider@, block_asked),
        forall|i: int|
            0 <= i < result@.len() ==> (#[trigger] result@[i]).title@ == section_title(
                result@[i].of,
                provider@,
            ),
{
    let mut result: Vec<HomeSection> = Vec::new();
    assert(contents(result@) =~= seq![]);
    let mut i: usize = 0;
    while i < blocks.len()
        invariant
            i <= blocks@.len(),
            contents(result@) == block_sections(blocks@.take(i as int)),
            forall|k: int|
                0 <= k < result@.len() ==> (#[trigger] result@[k]).title@ == section_title(
                    result@[k].of,
                    provider@,
                ),
        decreases blocks@.len() - i,
    {
        proof {
            assert(blocks@.take(i + 1).drop_last() =~= blocks@.take(i as int));
            assert(blocks@.take(i + 1).last() == blocks@[i as int]);
        }
        let (block, items): (HomeBlock, usize) = blocks[i];
        if items > 0 {
            let ghost before = result@;
            let section = HomeSection {
                of: SectionOf::Block(block),
                title: block.title().to_owned(),
            };
            result.push(section);
            assert(contents(result@) =~= contents(before).push(SectionOf::Block(block)));
        }
        i += 1;
    }
    assert(blocks@.take(i as int) =~= blocks@);
    if block_asked {
        assert(contents(result@) =~= sections_shown(blocks@, provider@, block_asked));
        return result;
    }
    let mut j: usize = 0;
    assert(contents(result@) =~= block_sections(blocks@) + provider_sections(provider@.take(0)));
    while j < provider.len()
        invariant
            j <= provider@.len(),
            contents(result@) == block_sections(blocks@) + provider_sections(
                provider@.take(j as int),
            ),
            forall|k: int|
                0 <= k < result@.len() ==> (#[trigger] result@[k]).title@ == section_title(
                    result@[k].of,
                    provider@,
                ),
        decreases provider@.len() - j,
    {
        proof {
            assert(provider@.take(j + 1).drop_last() =~= provider@.take(j as int));
            assert(provider@.take(j + 1).last() == provider@[j as int]);
        }
        if provider[j].items > 0 {
            let ghost before = result@;
            let title: String = match &provider[j].title {
                Some(title) => title.clone(),
                None => "From your server".to_owned(),
            };
            result.push(HomeSection { of: SectionOf::Provider(j), title });
            assert(contents(result@) =~= contents(before).push(SectionOf::Provider(j)));
            assert(contents(result@) =~= block_sections(blocks@) + provider_sections(
                provider@.take(j + 1),
            ));
        }
        j += 1;
    }
    assert(provider@.take(j as int) =~= provider@);
    result
}

} // verus!
