//! Data models for referents.

use vstd::prelude::*;

use crate::codec::{
    bag_ok, collect_extra, get_opt, get_req, opt_field, opt_shape, req_field, req_shape,
    JsonCodec, KnownKeys, ToJson,
};
use crate::json::{str_eq, Json, JsonV};
use crate::models::annotation::Annotation;

verus! {

/// A referents response.
#[derive(Debug, PartialEq)]
pub struct ReferentsResponse {
    /// A list of referents.
    pub referents: Vec<Referent>,
}

impl JsonCodec for ReferentsResponse {
    open spec fn shape(j: JsonV, catchall: bool) -> bool {
        req_shape::<Vec<Referent>>(j, "referents"@, catchall)
    }

    open spec fn fields(j: JsonV, v: Self, catchall: bool) -> bool {
        req_field::<Vec<Referent>>(j, "referents"@, v.referents, catchall)
    }

    fn from_json(j: &Json, catchall: bool) -> (r: Option<Self>) {
        let referents = get_req::<Vec<Referent>>(j, "referents", catchall)?;
        Some(ReferentsResponse { referents })
    }
}

/// A referent.
#[derive(Debug, PartialEq)]
pub struct Referent {
    /// Annotations.
    pub annotations: Vec<Annotation>,
    /// Core referent data, flattened into the same wire object.
    pub core: ReferentCore,
    /// Extra data: wire keys not otherwise modelled.
    pub extra: Vec<(String, Json)>,
}

impl KnownKeys for Referent {
    open spec fn known(k: Seq<char>) -> bool {
        ||| k == "annotations"@
        ||| ReferentCore::known(k)
    }

    fn known_key(k: &str) -> (b: bool) {
        str_eq(k, "annotations") || ReferentCore::known_key(k)
    }
}

impl JsonCodec for Referent {
    open spec fn shape(j: JsonV, catchall: bool) -> bool {
        &&& req_shape::<Vec<Annotation>>(j, "annotations"@, catchall)
        &&& ReferentCore::shape(j, false)
    }

    open spec fn fields(j: JsonV, v: Self, catchall: bool) -> bool {
        &&& req_field::<Vec<Annotation>>(j, "annotations"@, v.annotations, catchall)
        &&& ReferentCore::fields(j, v.core, false)
        &&& bag_ok(j, v.extra@, catchall, |k: Seq<char>| Self::known(k))
    }

    fn from_json(j: &Json, catchall: bool) -> (r: Option<Self>) {
        let annotations = get_req::<Vec<Annotation>>(j, "annotations", catchall)?;
        let core = ReferentCore::from_json(j, false)?;
        let extra = collect_extra::<Referent>(j, catchall);
        Some(Referent { annotations, core, extra })
    }
}

/// Referent core data.
#[derive(Debug, Clone, PartialEq)]
pub struct ReferentCore {
    /// Referent type; the wire key is `_type`.
    pub referent_type: ReferentType,
    /// Whether a referent is featured.
    pub featured: Option<bool>,
    /// Genius ID of the annotator.
    pub annotator_id: u32,
    /// Genius name of the annotator.
    pub annotator_login: String,
    /// API path to the referent.
    pub api_path: String,
    /// Referent classification.
    pub classification: String,
    /// Referent fragment.
    pub fragment: String,
    /// Genius ID of the referent.
    pub id: u32,
    /// Whether the referent is a description.
    pub is_description: bool,
    /// Path to the referent.
    pub path: String,
    /// Referent range.
    pub range: Range,
    /// Song ID associated with the referent.
    pub song_id: Option<u32>,
    /// Genius URL to the referent.
    pub url: String,
    /// Genius IDs of verified annotators.
    pub verified_annotator_ids: Vec<u32>,
    /// The annotatable entity.
    pub annotatable: Annotatable,
}

impl ReferentCore {
    /// Whether a key belongs to a named field of this record.
    pub open spec fn known(k: Seq<char>) -> bool {
        ||| k == "_type"@
        ||| k == "featured"@
        ||| k == "annotator_id"@
        ||| k == "annotator_login"@
        ||| k == "api_path"@
        ||| k == "classification"@
        ||| k == "fragment"@
        ||| k == "id"@
        ||| k == "is_description"@
        ||| k == "path"@
        ||| k == "range"@
        ||| k == "song_id"@
        ||| k == "url"@
        ||| k == "verified_annotator_ids"@
        ||| k == "annotatable"@
    }

    /// The runtime test for [`ReferentCore::known`].
    pub fn known_key(k: &str) -> (b: bool)
        ensures
            b == Self::known(k@),
    {
        str_eq(k, "_type") || str_eq(k, "featured") || str_eq(k, "annotator_id")
            || str_eq(k, "annotator_login") || str_eq(k, "api_path")
            || str_eq(k, "classification") || str_eq(k, "fragment") || str_eq(k, "id")
            || str_eq(k, "is_description") || str_eq(k, "path") || str_eq(k, "range")
            || str_eq(k, "song_id") || str_eq(k, "url") || str_eq(k, "verified_annotator_ids")
            || str_eq(k, "annotatable")
    }
}

impl JsonCodec for ReferentCore {
    open spec fn shape(j: JsonV, catchall: bool) -> bool {
        &&& req_shape::<ReferentType>(j, "_type"@, catchall)
        &&& opt_shape::<bool>(j, "featured"@, catchall)
        &&& req_shape::<u32>(j, "annotator_id"@, catchall)
        &&& req_shape::<String>(j, "annotator_login"@, catchall)
        &&& req_shape::<String>(j, "api_path"@, catchall)
        &&& req_shape::<String>(j, "classification"@, catchall)
        &&& req_shape::<String>(j, "fragment"@, catchall)
        &&& req_shape::<u32>(j, "id"@, catchall)
        &&& req_shape::<bool>(j, "is_description"@, catchall)
        &&& req_shape::<String>(j, "path"@, catchall)
        &&& req_shape::<Range>(j, "range"@, catchall)
        &&& opt_shape::<u32>(j, "song_id"@, catchall)
        &&& req_shape::<String>(j, "url"@, catchall)
        &&& req_shape::<Vec<u32>>(j, "verified_annotator_ids"@, catchall)
        &&& req_shape::<Annotatable>(j, "annotatable"@, catchall)
    }

    open spec fn fields(j: JsonV, v: Self, catchall: bool) -> bool {
        &&& req_field::<ReferentType>(j, "_type"@, v.referent_type, catchall)
        &&& opt_field::<bool>(j, "featured"@, v.featured, catchall)
        &&& req_field::<u32>(j, "annotator_id"@, v.annotator_id, catchall)
        &&& req_field::<String>(j, "annotator_login"@, v.annotator_login, catchall)
        &&& req_field::<String>(j, "api_path"@, v.api_path, catchall)
        &&& req_field::<String>(j, "classification"@, v.classification, catchall)
        &&& req_field::<String>(j, "fragment"@, v.fragment, catchall)
        &&& req_field::<u32>(j, "id"@, v.id, catchall)
        &&& req_field::<bool>(j, "is_description"@, v.is_description, catchall)
        &&& req_field::<String>(j, "path"@, v.path, catchall)
        &&& req_field::<Range>(j, "range"@, v.range, catchall)
        &&& opt_field::<u32>(j, "song_id"@, v.song_id, catchall)
        &&& req_field::<String>(j, "url"@, v.url, catchall)
        &&& req_field::<Vec<u32>>(j, "verified_annotator_ids"@, v.verified_annotator_ids, catchall)
        &&& req_field::<Annotatable>(j, "annotatable"@, v.annotatable, catchall)
    }

    fn from_json(j: &Json, catchall: bool) -> (r: Option<Self>) {
        let referent_type = get_req::<ReferentType>(j, "_type", catchall)?;
        let featured = get_opt::<bool>(j, "featured", catchall)?;
        let annotator_id = get_req::<u32>(j, "annotator_id", catchall)?;
        let annotator_login = get_req::<String>(j, "annotator_login", catchall)?;
        let api_path = get_req::<String>(j, "api_path", catchall)?;
        let classification = get_req::<String>(j, "classification", catchall)?;
        let fragment = get_req::<String>(j, "fragment", catchall)?;
        let id = get_req::<u32>(j, "id", catchall)?;
        let is_description = get_req::<bool>(j, "is_description", catchall)?;
        let path = get_req::<String>(j, "path", catchall)?;
        let range = get_req::<Range>(j, "range", catchall)?;
        let song_id = get_opt::<u32>(j, "song_id", catchall)?;
        let url = get_req::<String>(j, "url", catchall)?;
        let verified_annotator_ids = get_req::<Vec<u32>>(j, "verified_annotator_ids", catchall)?;
        let annotatable = get_req::<Annotatable>(j, "annotatable", catchall)?;
        Some(
            ReferentCore {
                referent_type,
                featured,
                annotator_id,
                annotator_login,
                api_path,
                classification,
                fragment,
                id,
                is_description,
                path,
                range,
                song_id,
                url,
                verified_annotator_ids,
                annotatable,
            },
        )
    }
}

/// A referent range; the wire keys are camel-cased.
#[derive(Debug, Clone, PartialEq)]
pub struct Range {
    /// Start.
    pub start: Option<String>,
    /// Start offset.
    pub start_offset: Option<String>,
    /// End.
    pub end: Option<String>,
    /// End offset.
    pub end_offset: Option<String>,
    /// Before content.
    pub before: Option<String>,
    /// After content.
    pub after: Option<String>,
    /// Content.
    pub content: String,
}

impl JsonCodec for Range {
    open spec fn shape(j: JsonV, catchall: bool) -> bool {
        &&& opt_shape::<String>(j, "start"@, catchall)
        &&& opt_shape::<String>(j, "startOffset"@, catchall)
        &&& opt_shape::<String>(j, "end"@, catchall)
        &&& opt_shape::<String>(j, "endOffset"@, catchall)
        &&& opt_shape::<String>(j, "before"@, catchall)
        &&& opt_shape::<String>(j, "after"@, catchall)
        &&& req_shape::<String>(j, "content"@, catchall)
    }

    open spec fn fields(j: JsonV, v: Self, catchall: bool) -> bool {
        &&& opt_field::<String>(j, "start"@, v.start, catchall)
        &&& opt_field::<String>(j, "startOffset"@, v.start_offset, catchall)
        &&& opt_field::<String>(j, "end"@, v.end, catchall)
        &&& opt_field::<String>(j, "endOffset"@, v.end_offset, catchall)
        &&& opt_field::<String>(j, "before"@, v.before, catchall)
        &&& opt_field::<String>(j, "after"@, v.after, catchall)
        &&& req_field::<String>(j, "content"@, v.content, catchall)
    }

    fn from_json(j: &Json, catchall: bool) -> (r: Option<Self>) {
        let start = get_opt::<String>(j, "start", catchall)?;
        let start_offset = get_opt::<String>(j, "startOffset", catchall)?;
        let end = get_opt::<String>(j, "end", catchall)?;
        let end_offset = get_opt::<String>(j, "endOffset", catchall)?;
        let before = get_opt::<String>(j, "before", catchall)?;
        let after = get_opt::<String>(j, "after", catchall)?;
        let content = get_req::<String>(j, "content", catchall)?;
        Some(Range { start, start_offset, end, end_offset, before, after, content })
    }
}

/// An annotatable entity.
#[derive(Debug, Clone, PartialEq)]
pub struct Annotatable {
    /// Genius API path.
    pub api_path: String,
    /// The entity's context.
    pub context: Option<String>,
    /// Genius ID.
    pub id: u32,
    /// Image URL.
    pub image_url: String,
    /// Link title.
    pub link_title: String,
    /// Title.
    pub title: String,
    /// Entity type; the wire key is `type`.
    pub annotatable_type: String,
    /// Genius URL.
    pub url: String,
    /// Client interaction timestamps.
    pub client_timestamps: Option<Timestamps>,
}

impl JsonCodec for Annotatable {
    open spec fn shape(j: JsonV, catchall: bool) -> bool {
        &&& req_shape::<String>(j, "api_path"@, catchall)
        &&& opt_shape::<String>(j, "context"@, catchall)
        &&& req_shape::<u32>(j, "id"@, catchall)
        &&& req_shape::<String>(j, "image_url"@, catchall)
        &&& req_shape::<String>(j, "link_title"@, catchall)
        &&& req_shape::<String>(j, "title"@, catchall)
        &&& req_shape::<String>(j, "type"@, catchall)
        &&& req_shape::<String>(j, "url"@, catchall)
        &&& opt_shape::<Timestamps>(j, "client_timestamps"@, catchall)
    }

    open spec fn fields(j: JsonV, v: Self, catchall: bool) -> bool {
        &&& req_field::<String>(j, "api_path"@, v.api_path, catchall)
        &&& opt_field::<String>(j, "context"@, v.context, catchall)
        &&& req_field::<u32>(j, "id"@, v.id, catchall)
        &&& req_field::<String>(j, "image_url"@, v.image_url, catchall)
        &&& req_field::<String>(j, "link_title"@, v.link_title, catchall)
        &&& req_field::<String>(j, "title"@, v.title, catchall)
        &&& req_field::<String>(j, "type"@, v.annotatable_type, catchall)
        &&& req_field::<String>(j, "url"@, v.url, catchall)
        &&& opt_field::<Timestamps>(j, "client_timestamps"@, v.client_timestamps, catchall)
    }

    fn from_json(j: &Json, catchall: bool) -> (r: Option<Self>) {
        let api_path = get_req::<String>(j, "api_path", catchall)?;
        let context = get_opt::<String>(j, "context", catchall)?;
        let id = get_req::<u32>(j, "id", catchall)?;
        let image_url = get_req::<String>(j, "image_url", catchall)?;
        let link_title = get_req::<String>(j, "link_title", catchall)?;
        let title = get_req::<String>(j, "title", catchall)?;
        let annotatable_type = get_req::<String>(j, "type", catchall)?;
        let url = get_req::<String>(j, "url", catchall)?;
        let client_timestamps = get_opt::<Timestamps>(j, "client_timestamps", catchall)?;
        Some(
            Annotatable {
                api_path,
                context,
                id,
                image_url,
                link_title,
                title,
                annotatable_type,
                url,
                client_timestamps,
            },
        )
    }
}

/// Client interaction timestamps, as seconds since the Unix epoch.
#[derive(Debug, Clone, Copy, PartialEq, Eq, Structural)]
pub struct Timestamps {
    /// The last time a human made an update.
    pub updated_by_human_at: i64,
    /// The last time lyrics were updated.
    pub lyrics_updated_at: i64,
}

impl JsonCodec for Timestamps {
    open spec fn shape(j: JsonV, catchall: bool) -> bool {
        &&& req_shape::<i64>(j, "updated_by_human_at"@, catchall)
        &&& req_shape::<i64>(j, "lyrics_updated_at"@, catchall)
    }

    open spec fn fields(j: JsonV, v: Self, catchall: bool) -> bool {
        &&& req_field::<i64>(j, "updated_by_human_at"@, v.updated_by_human_at, catchall)
        &&& req_field::<i64>(j, "lyrics_updated_at"@, v.lyrics_updated_at, catchall)
    }

    fn from_json(j: &Json, catchall: bool) -> (r: Option<Self>) {
        let updated_by_human_at = get_req::<i64>(j, "updated_by_human_at", catchall)?;
        let lyrics_updated_at = get_req::<i64>(j, "lyrics_updated_at", catchall)?;
        Some(Timestamps { updated_by_human_at, lyrics_updated_at })
    }
}

/// Referent type.
///
/// The one wire value seen for the `_type` field is `referent`; the single
/// variant doubles as the documented default for degenerate payloads, so any
/// string decodes to it rather than failing.
#[derive(Debug, Clone, Copy, PartialEq, Eq, Structural)]
pub enum ReferentType {
    /// A referent.
    Referent,
}

impl Default for ReferentType {
    /// The default referent type.
    fn default() -> (r: Self)
        ensures
            r == ReferentType::Referent,
    {
        ReferentType::Referent
    }
}

impl JsonCodec for ReferentType {
    open spec fn shape(j: JsonV, catchall: bool) -> bool {
        j is Str
    }

    open spec fn fields(j: JsonV, v: Self, catchall: bool) -> bool {
        v == ReferentType::Referent
    }

    fn from_json(j: &Json, catchall: bool) -> (r: Option<Self>) {
        match j {
            Json::Str(_) => Some(ReferentType::Referent),
            _ => None,
        }
    }
}

impl ToJson for ReferentType {
    open spec fn spec_json(v: Self) -> JsonV {
        JsonV::Str("referent"@)
    }

    fn to_json(&self) -> (r: Json) {
        Json::Str(String::from_str("referent"))
    }
}

} // verus!
