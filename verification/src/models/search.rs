//! Data models for search results.

use vstd::prelude::*;

use crate::codec::{
    bag_ok, collect_extra, get_req, req_field, req_shape, JsonCodec, KnownKeys, ToJson,
};
use crate::json::{jget, str_eq, Json, JsonV};
use crate::models::song::{SongCoreStats, SongCoreWithRDC};

verus! {

/// A search response.
#[derive(Debug, PartialEq)]
pub struct SearchResponse {
    /// Search hits.
    pub hits: Vec<Hit>,
}

impl JsonCodec for SearchResponse {
    open spec fn shape(j: JsonV, catchall: bool) -> bool {
        req_shape::<Vec<Hit>>(j, "hits"@, catchall)
    }

    open spec fn fields(j: JsonV, v: Self, catchall: bool) -> bool {
        req_field::<Vec<Hit>>(j, "hits"@, v.hits, catchall)
    }

    fn from_json(j: &Json, catchall: bool) -> (r: Option<Self>) {
        let hits = get_req::<Vec<Hit>>(j, "hits", catchall)?;
        Some(SearchResponse { hits })
    }
}

/// A search hit, discriminated on the wire by a `type` tag; the variant's
/// fields are siblings of the tag.
#[derive(Debug, PartialEq)]
pub enum Hit {
    /// Song hit.
    Song(HitCore<SongCoreWithRDC<SongCoreStats>>),
}

impl JsonCodec for Hit {
    open spec fn shape(j: JsonV, catchall: bool) -> bool {
        &&& jget(j, "type"@) == Some(JsonV::Str("song"@))
        &&& HitCore::<SongCoreWithRDC<SongCoreStats>>::shape(j, catchall)
    }

    open spec fn fields(j: JsonV, v: Self, catchall: bool) -> bool {
        match v {
            Hit::Song(core) => {
                &&& jget(j, "type"@) == Some(JsonV::Str("song"@))
                &&& HitCore::<SongCoreWithRDC<SongCoreStats>>::fields(j, core, catchall)
            },
        }
    }

    fn from_json(j: &Json, catchall: bool) -> (r: Option<Self>) {
        let tag = get_req::<String>(j, "type", false)?;
        if str_eq(tag.as_str(), "song") {
            let core = HitCore::<SongCoreWithRDC<SongCoreStats>>::from_json(j, catchall)?;
            Some(Hit::Song(core))
        } else {
            None
        }
    }
}

/// Core search hit data.
#[derive(Debug, PartialEq)]
pub struct HitCore<R> {
    /// Details about search term matches in the hit; empty for all hits seen
    /// so far.
    pub highlights: Vec<()>,
    /// Index of the hit.
    pub index: HitIndex,
    /// Resulting data.
    pub result: R,
    /// Extra data: wire keys not otherwise modelled.
    pub extra: Vec<(String, Json)>,
}

impl<R> KnownKeys for HitCore<R> {
    /// The named fields of this record, and the tag key of the wrapping hit.
    open spec fn known(k: Seq<char>) -> bool {
        ||| k == "highlights"@
        ||| k == "index"@
        ||| k == "result"@
        ||| k == "type"@
    }

    fn known_key(k: &str) -> (b: bool) {
        str_eq(k, "highlights") || str_eq(k, "index") || str_eq(k, "result") || str_eq(k, "type")
    }
}

impl<R: JsonCodec> JsonCodec for HitCore<R> {
    open spec fn shape(j: JsonV, catchall: bool) -> bool {
        &&& req_shape::<Vec<()>>(j, "highlights"@, catchall)
        &&& req_shape::<HitIndex>(j, "index"@, catchall)
        &&& req_shape::<R>(j, "result"@, catchall)
    }

    open spec fn fields(j: JsonV, v: Self, catchall: bool) -> bool {
        &&& req_field::<Vec<()>>(j, "highlights"@, v.highlights, catchall)
        &&& req_field::<HitIndex>(j, "index"@, v.index, catchall)
        &&& req_field::<R>(j, "result"@, v.result, catchall)
        &&& bag_ok(j, v.extra@, catchall, |k: Seq<char>| Self::known(k))
    }

    fn from_json(j: &Json, catchall: bool) -> (r: Option<Self>) {
        let highlights = get_req::<Vec<()>>(j, "highlights", catchall)?;
        let index = get_req::<HitIndex>(j, "index", catchall)?;
        let result = get_req::<R>(j, "result", catchall)?;
        let extra = collect_extra::<HitCore<R>>(j, catchall);
        Some(HitCore { highlights, index, result, extra })
    }
}

/// Search hit index.
///
/// The wire values form a closed set: anything but `song` is a decode error.
#[derive(Debug, Clone, Copy, PartialEq, Eq, Structural)]
pub enum HitIndex {
    /// A song.
    Song,
}

impl Default for HitIndex {
    /// The default hit index.
    fn default() -> (r: Self)
        ensures
            r == HitIndex::Song,
    {
        HitIndex::Song
    }
}

impl JsonCodec for HitIndex {
    open spec fn shape(j: JsonV, catchall: bool) -> bool {
        j == JsonV::Str("song"@)
    }

    open spec fn fields(j: JsonV, v: Self, catchall: bool) -> bool {
        v == HitIndex::Song
    }

    fn from_json(j: &Json, catchall: bool) -> (r: Option<Self>) {
        match j {
            Json::Str(s) => {
                if str_eq(s.as_str(), "song") {
                    Some(HitIndex::Song)
                } else {
                    None
                }
            },
            _ => None,
        }
    }
}

impl ToJson for HitIndex {
    open spec fn spec_json(v: Self) -> JsonV {
        JsonV::Str("song"@)
    }

    fn to_json(&self) -> (r: Json) {
        Json::Str(String::from_str("song"))
    }
}

} // verus!
