//! Radio station data.
use vstd::prelude::*;

verus! {

/// A radio station as the Radio Browser directory describes it.
#[derive(Debug)]
pub struct Station {
    /// Station UUID in the directory.
    pub uuid: String,
    /// Display name.
    pub name: String,
    /// Resolved direct stream URL.
    pub url_resolved: String,
    /// Country name.
    pub country: String,
    /// Comma-separated genre and tag list.
    pub tags: String,
    /// Stream bitrate in kbps (0 = unknown).
    pub bitrate: u32,
    /// Audio codec.
    pub codec: String,
    /// Community vote count.
    pub votes: i64,
}

/// The contents of a [`Station`].
pub struct StationView {
    pub uuid: Seq<char>,
    pub name: Seq<char>,
    pub url_resolved: Seq<char>,
    pub country: Seq<char>,
    pub tags: Seq<char>,
    pub bitrate: u32,
    pub codec: Seq<char>,
    pub votes: i64,
}

impl View for Station {
    type V = StationView;

    open spec fn view(&self) -> StationView {
        StationView {
            uuid: self.uuid@,
            name: self.name@,
            url_resolved: self.url_resolved@,
            country: self.country@,
            tags: self.tags@,
            bitrate: self.bitrate,
            codec: self.codec@,
            votes: self.votes,
        }
    }
}

impl Clone for Station {
    fn clone(&self) -> (copy: Station)
        ensures
            copy == *self,
    {
        Station {
            uuid: self.uuid.clone(),
            name: self.name.clone(),
            url_resolved: self.url_resolved.clone(),
            country: self.country.clone(),
            tags: self.tags.clone(),
            bitrate: self.bitrate,
            codec: self.codec.clone(),
            votes: self.votes,
        }
    }
}

/// The contents of a list of stations, in the same order.
pub open spec fn station_views(stations: Seq<Station>) -> Seq<StationView> {
    Seq::new(stations.len(), |i: int| stations[i]@)
}

/// The contents of a station are its own fields, and those of a list are the
/// contents of its stations, one by one, in order.
pub proof fn law_contents_are_the_fields(station: Station, stations: Seq<Station>)
    ensures
        station@.uuid == station.uuid@,
        station@.name == station.name@,
        station@.url_resolved == station.url_resolved@,
        station@.country == station.country@,
        station@.tags == station.tags@,
        station@.bitrate == station.bitrate,
        station@.codec == station.codec@,
        station@.votes == station.votes,
        station_views(stations).len() == stations.len(),
        forall|i: int|
            0 <= i < stations.len() ==> #[trigger] station_views(stations)[i] == stations[i]@,
{
}

} // verus!
