//! Data model of the download tracker's inventory: series, seasons and
//! their statistics, episode files, and tags.
//!
//! All values are read-only snapshots taken at the start of a run. Airing
//! instants are carried as signed epoch timestamps in seconds; byte sizes
//! are unsigned and wide enough for a full library.

use vstd::prelude::*;

verus! {

/// Statistics about a season known to the download tracker (via the TV db).
#[derive(Clone, Copy, Debug, PartialEq, Eq)]
pub struct SeasonStats {
    /// Number of episodes that have downloaded files.
    pub episode_file_count: u32,
    /// Total episodes that the TV db knows about in the season
    /// (announced episodes).
    pub total_episode_count: u32,
    /// Episodes that have been downloaded.
    pub episode_count: u32,
    /// Epoch second at which the next episode airs. `None` if there is no
    /// known next air date.
    pub next_airing: Option<i64>,
    /// Epoch second at which the previous episode aired. `None` if there
    /// was no last-aired episode.
    pub previous_airing: Option<i64>,
    /// Amount of space in bytes consumed by the season.
    pub size_on_disk: u128,
}

/// A TV show season known to the download tracker.
#[derive(Clone, Copy, Debug, PartialEq, Eq)]
pub struct Season {
    /// 1-based index of the season: `Season 01` is `1`.
    pub season_number: u32,
    /// Whether the season is "monitored" (i.e., still fetches new episodes).
    pub monitored: bool,
    /// Statistics for the season.
    pub statistics: SeasonStats,
}

/// A tag ID, interned as a number by the download tracker.
#[derive(Clone, Copy, Debug, PartialEq, Eq, Hash, Structural)]
pub struct TagId(pub u32);

/// A tag: a readable label and its interned ID. Tags organize shows and
/// give them additional properties, like marking them as manually managed.
#[derive(Debug)]
pub struct Tag {
    /// Readable name of the tag.
    pub label: String,
    /// ID of the tag.
    pub id: TagId,
}

impl Clone for Tag {
    fn clone(&self) -> (r: Self)
        ensures
            r == *self,
    {
        Tag { label: self.label.clone(), id: self.id }
    }
}

/// A thing that has a download-tracker API object ID.
pub trait IdEd {
    /// The ID as the specification sees it.
    spec fn spec_id(&self) -> u32;

    /// Returns the API ID of the object.
    fn id(&self) -> (r: u32)
        ensures
            r == self.spec_id(),
    ;
}

/// A TV show (series).
#[derive(Debug)]
pub struct Series {
    /// Title of the series, as displayed; not guaranteed unique.
    pub title: String,
    /// API object ID, unique per download tracker.
    pub id: u32,
    /// Tags (as tag IDs) associated with the show.
    pub tags: Vec<TagId>,
    /// Seasons known to the download tracker (via the TV metadata DB).
    pub seasons: Vec<Season>,
}

impl IdEd for Series {
    open spec fn spec_id(&self) -> u32 {
        self.id
    }

    fn id(&self) -> u32 {
        self.id
    }
}

/// A TV show episode (e.g., `S01E03`).
#[derive(Debug)]
pub struct Episode {
    /// ID of the TV series this belongs to.
    pub series_id: u32,
    /// ID of the episode itself.
    pub id: u32,
    /// ID of the [`EpisodeFile`] entry for this episode, if there is a
    /// downloaded episode.
    pub episode_file_id: u32,
    /// 1-based index of the season.
    pub season_number: u32,
    /// 1-based number of the episode.
    pub episode_number: u32,
    /// Title of the episode.
    pub title: String,
    /// Whether the episode has an [`EpisodeFile`].
    pub has_file: bool,
    /// True if the episode is "monitored".
    pub monitored: bool,
}

/// A file holding one downloaded episode.
#[derive(Debug)]
pub struct EpisodeFile {
    /// API object ID.
    pub id: u32,
    /// ID of the series.
    pub series_id: u32,
    /// 1-based season number.
    pub season_number: u32,
    /// Path to the file.
    pub path: String,
    /// Number of bytes that this file occupies.
    pub size: u128,
}

impl Clone for EpisodeFile {
    fn clone(&self) -> (r: Self)
        ensures
            r == *self,
    {
        EpisodeFile {
            id: self.id,
            series_id: self.series_id,
            season_number: self.season_number,
            path: self.path.clone(),
            size: self.size,
        }
    }
}

/// True when some tag in `tags` carries the label `name`.
pub open spec fn spec_has_label(tags: Seq<Tag>, name: Seq<char>) -> bool {
    exists|i: int| 0 <= i < tags.len() && tags[i].label@ == name
}

/// A list of tags from the download tracker's API.
#[derive(Debug)]
pub struct Tags {
    tags: Vec<Tag>,
}

impl Tags {
    /// The tags, in the order the tracker listed them.
    pub closed spec fn spec_tags(&self) -> Seq<Tag> {
        self.tags@
    }

    /// Wraps a freshly fetched tag listing.
    pub fn new(tags: Vec<Tag>) -> (r: Tags)
        ensures
            r.spec_tags() == tags@,
    {
        Tags { tags }
    }

    /// Returns the first tag with a given name, if any tag carries it.
    pub fn get(&self, name: &str) -> (r: Option<&Tag>)
        ensures
            match r {
                Some(t) => {
                    &&& exists|i: int|
                        {
                            &&& 0 <= i < self.spec_tags().len()
                            &&& self.spec_tags()[i] == *t
                            &&& self.spec_tags()[i].label@ == name@
                            &&& forall|m: int|
                                0 <= m < i ==> self.spec_tags()[m].label@ != name@
                        }
                },
                None => !spec_has_label(self.spec_tags(), name@),
            },
    {
        let wanted = name.to_owned();
        let mut k: usize = 0;
        while k < self.tags.len()
            invariant
                k <= self.tags@.len(),
                wanted@ == name@,
                forall|m: int| 0 <= m < k ==> self.tags@[m].label@ != name@,
            decreases self.tags@.len() - k,
        {
            if self.tags[k].label == wanted {
                let r = &self.tags[k];
                proof {
                    let i = k as int;
                    assert(0 <= i < self.spec_tags().len() && self.spec_tags()[i] == *r
                        && self.spec_tags()[i].label@ == name@ && (forall|m: int|
                        0 <= m < i ==> self.spec_tags()[m].label@ != name@));
                }
                return Some(r);
            }
            k += 1;
        }
        None
    }
}

/// True iff `tags` holds `id`.
pub fn tags_contain(tags: &Vec<TagId>, id: TagId) -> (r: bool)
    ensures
        r == tags@.contains(id),
{
    let mut k: usize = 0;
    while k < tags.len()
        invariant
            k <= tags@.len(),
            forall|m: int| 0 <= m < k ==> tags@[m] != id,
        decreases tags@.len() - k,
    {
        if tags[k] == id {
            return true;
        }
        k += 1;
    }
    false
}

} // verus!
