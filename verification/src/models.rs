//! Data models for the API endpoints.
//!
//! Every endpoint's body is one JSON object matching a three-way union: a
//! success envelope `{meta: {status}, response: T}`, a structured error
//! `{meta: {status, message}, response?: {error}}`, or an undocumented
//! fallback `{error, error_description}`. [`Response::from_json`] tries the
//! three shapes in that fixed order and commits to the first match.

use vstd::prelude::*;

use crate::codec::{
    get_opt, get_req, opt_field, opt_shape, req_field, req_shape, JsonCodec, ToJson,
};
use crate::json::{has_key, jget, obj_pairs, Json, JsonV};

pub mod account;
pub mod annotation;
pub mod artist;
pub mod metadata;
pub mod referent;
pub mod search;
pub mod song;
pub mod user;
pub mod webpage;

pub use account::{Account, AccountResponse};
pub use annotation::{
    Annotation, AnnotationResponse, AnnotationState, Attributions, RejectionComment,
    RejectionReason,
};
pub use artist::{Artist, ArtistCore, ArtistCoreNoMetadata, ArtistResponse};
pub use metadata::{
    Action, AnnotationActions, AnnotationInteractions, Metadata, MetadataWithActions,
    MetadataWithFeatures, MetadataWithRelationships, PrimaryAction, SongActions,
    SongInteractions, SongRelationships, UserInteractions, Vote,
};
pub use referent::{
    Annotatable, Range, Referent, ReferentCore, ReferentType, ReferentsResponse, Timestamps,
};
pub use search::{Hit, HitCore, HitIndex, SearchResponse};
pub use song::{
    Album, Audio, Contribution, DateComponents, Media, Performance, RelationshipType, Song,
    SongCore, SongCoreStats, SongCoreWithRDC, SongEssential, SongRelationship, SongResponse,
    SongStats, TranslationSong, Video,
};
pub use user::{Avatar, BoundingBox, Image, Role, Stats, User, UserCore, UserResponse};
pub use webpage::{WebPage, WebPageResponse};

verus! {

/// Annotation metadata.
pub type AnnotationMetadata = MetadataWithActions<AnnotationActions, Metadata<AnnotationInteractions>>;

/// User metadata.
pub type UserMetadata = MetadataWithFeatures<Metadata<UserInteractions>>;

/// Metadata with user interactions.
pub type UserInteractionMetadata = Metadata<UserInteractions>;

/// Song metadata.
pub type SongMetadata = MetadataWithActions<
    SongActions,
    MetadataWithRelationships<SongRelationships, Metadata<SongInteractions>>,
>;

/// Textual content: the same text as plain text and as unescaped HTML.
#[derive(Debug, Clone, PartialEq)]
pub struct Text {
    /// Plain text.
    pub plain: String,
    /// Unescaped HTML text.
    pub html: String,
}

impl JsonCodec for Text {
    open spec fn shape(j: JsonV, catchall: bool) -> bool {
        &&& req_shape::<String>(j, "plain"@, false)
        &&& req_shape::<String>(j, "html"@, false)
    }

    open spec fn fields(j: JsonV, v: Self, catchall: bool) -> bool {
        &&& req_field::<String>(j, "plain"@, v.plain, false)
        &&& req_field::<String>(j, "html"@, v.html, false)
    }

    fn from_json(j: &Json, catchall: bool) -> (r: Option<Self>) {
        let plain = get_req::<String>(j, "plain", false)?;
        let html = get_req::<String>(j, "html", false)?;
        Some(Text { plain, html })
    }
}

impl ToJson for Text {
    open spec fn spec_json(v: Self) -> JsonV {
        JsonV::Obj(seq![("plain"@, JsonV::Str(v.plain@)), ("html"@, JsonV::Str(v.html@))])
    }

    fn to_json(&self) -> (r: Json) {
        let mut ps: Vec<(String, Json)> = Vec::new();
        ps.push((String::from_str("plain"), Json::Str(self.plain.clone())));
        ps.push((String::from_str("html"), Json::Str(self.html.clone())));
        let r = Json::Obj(ps);
        proof {
            assert(obj_pairs(r@).len() == 2);
            assert(ps@[0].0@ == "plain"@ && ps@[0].1@ == JsonV::Str(self.plain@));
            assert(ps@[1].0@ == "html"@ && ps@[1].1@ == JsonV::Str(self.html@));
            assert(obj_pairs(r@) =~= obj_pairs(Self::spec_json(*self)));
            assert(r@ =~= Self::spec_json(*self));
        }
        r
    }
}

/// Metadata for successful responses to requests.
#[derive(Debug, Clone, Copy, PartialEq)]
pub struct SuccessMeta {
    /// The HTTP status code.
    pub status: u16,
}

impl JsonCodec for SuccessMeta {
    open spec fn shape(j: JsonV, catchall: bool) -> bool {
        req_shape::<u16>(j, "status"@, false)
    }

    open spec fn fields(j: JsonV, v: Self, catchall: bool) -> bool {
        req_field::<u16>(j, "status"@, v.status, false)
    }

    fn from_json(j: &Json, catchall: bool) -> (r: Option<Self>) {
        let status = get_req::<u16>(j, "status", false)?;
        Some(SuccessMeta { status })
    }
}

impl ToJson for SuccessMeta {
    open spec fn spec_json(v: Self) -> JsonV {
        JsonV::Obj(seq![("status"@, JsonV::Int(v.status as int))])
    }

    fn to_json(&self) -> (r: Json) {
        let mut ps: Vec<(String, Json)> = Vec::new();
        ps.push((String::from_str("status"), Json::Int(self.status as i64)));
        let r = Json::Obj(ps);
        proof {
            assert(obj_pairs(r@).len() == 1);
            assert(ps@[0].0@ == "status"@ && ps@[0].1@ == JsonV::Int(self.status as int));
            assert(obj_pairs(r@) =~= obj_pairs(Self::spec_json(*self)));
            assert(r@ =~= Self::spec_json(*self));
        }
        r
    }
}

/// Metadata for error responses to requests.
#[derive(Debug, Clone, PartialEq)]
pub struct ErrorMeta {
    /// The HTTP status code.
    pub status: u16,
    /// The error message.
    pub message: String,
}

impl JsonCodec for ErrorMeta {
    open spec fn shape(j: JsonV, catchall: bool) -> bool {
        &&& req_shape::<u16>(j, "status"@, false)
        &&& req_shape::<String>(j, "message"@, false)
    }

    open spec fn fields(j: JsonV, v: Self, catchall: bool) -> bool {
        &&& req_field::<u16>(j, "status"@, v.status, false)
        &&& req_field::<String>(j, "message"@, v.message, false)
    }

    fn from_json(j: &Json, catchall: bool) -> (r: Option<Self>) {
        let status = get_req::<u16>(j, "status", false)?;
        let message = get_req::<String>(j, "message", false)?;
        Some(ErrorMeta { status, message })
    }
}

impl ToJson for ErrorMeta {
    open spec fn spec_json(v: Self) -> JsonV {
        JsonV::Obj(
            seq![("status"@, JsonV::Int(v.status as int)), ("message"@, JsonV::Str(v.message@))],
        )
    }

    fn to_json(&self) -> (r: Json) {
        let mut ps: Vec<(String, Json)> = Vec::new();
        ps.push((String::from_str("status"), Json::Int(self.status as i64)));
        ps.push((String::from_str("message"), Json::Str(self.message.clone())));
        let r = Json::Obj(ps);
        proof {
            assert(obj_pairs(r@).len() == 2);
            assert(ps@[0].0@ == "status"@ && ps@[0].1@ == JsonV::Int(self.status as int));
            assert(ps@[1].0@ == "message"@ && ps@[1].1@ == JsonV::Str(self.message@));
            assert(obj_pairs(r@) =~= obj_pairs(Self::spec_json(*self)));
            assert(r@ =~= Self::spec_json(*self));
        }
        r
    }
}

/// An error response payload.
#[derive(Debug, Clone, PartialEq)]
pub struct ErrorResponse {
    /// The error message.
    pub error: String,
}

impl JsonCodec for ErrorResponse {
    open spec fn shape(j: JsonV, catchall: bool) -> bool {
        req_shape::<String>(j, "error"@, false)
    }

    open spec fn fields(j: JsonV, v: Self, catchall: bool) -> bool {
        req_field::<String>(j, "error"@, v.error, false)
    }

    fn from_json(j: &Json, catchall: bool) -> (r: Option<Self>) {
        let error = get_req::<String>(j, "error", false)?;
        Some(ErrorResponse { error })
    }
}

impl ToJson for ErrorResponse {
    open spec fn spec_json(v: Self) -> JsonV {
        JsonV::Obj(seq![("error"@, JsonV::Str(v.error@))])
    }

    fn to_json(&self) -> (r: Json) {
        let mut ps: Vec<(String, Json)> = Vec::new();
        ps.push((String::from_str("error"), Json::Str(self.error.clone())));
        let r = Json::Obj(ps);
        proof {
            assert(obj_pairs(r@).len() == 1);
            assert(ps@[0].0@ == "error"@ && ps@[0].1@ == JsonV::Str(self.error@));
            assert(obj_pairs(r@) =~= obj_pairs(Self::spec_json(*self)));
            assert(r@ =~= Self::spec_json(*self));
        }
        r
    }
}

/// Whether a fragment is acceptable as the optional payload of the
/// structured-error shape: `null`, or an object carrying an error message.
pub open spec fn error_payload_ok(x: JsonV) -> bool {
    x is Null || ErrorResponse::shape(x, false)
}

/// An endpoint response.
///
/// Necessary because the API wraps every payload in an envelope carrying
/// response metadata; errors documented by the API arrive as data in this
/// envelope, never as a local fault.
#[derive(Debug, PartialEq)]
pub enum Response<T> {
    /// Means the request was successful.
    Success {
        /// The response metadata.
        meta: SuccessMeta,
        /// The response payload.
        response: T,
    },
    /// Means an error occurred during the request.
    Error {
        /// The response metadata.
        meta: ErrorMeta,
        /// An optional error response payload.
        response: Option<ErrorResponse>,
    },
    /// Means that the request failed for some reason outside the typical
    /// error cases; a catchall for bodies that match neither documented shape.
    Other {
        /// The name of the error.
        error: String,
        /// The description of the error.
        error_description: String,
    },
}

impl<T: JsonCodec> Response<T> {
    /// The success shape: `{meta: {status}, response: T}`.
    pub open spec fn success_shape(j: JsonV, catchall: bool) -> bool {
        &&& req_shape::<SuccessMeta>(j, "meta"@, false)
        &&& req_shape::<T>(j, "response"@, catchall)
    }

    /// The structured-error shape: `{meta: {status, message}, response?: {error}}`.
    pub open spec fn error_shape(j: JsonV) -> bool {
        &&& req_shape::<ErrorMeta>(j, "meta"@, false)
        &&& opt_shape::<ErrorResponse>(j, "response"@, false)
    }

    /// The fallback shape: `{error, error_description}`.
    pub open spec fn other_shape(j: JsonV) -> bool {
        &&& req_shape::<String>(j, "error"@, false)
        &&& req_shape::<String>(j, "error_description"@, false)
    }

    /// Whether a body decodes to this envelope value: the three candidate
    /// shapes are tried in a fixed order and the first structurally valid
    /// match is committed to.
    pub open spec fn decodes(j: JsonV, r: Response<T>, catchall: bool) -> bool {
        match r {
            Response::Success { meta, response } => {
                &&& Self::success_shape(j, catchall)
                &&& req_field::<SuccessMeta>(j, "meta"@, meta, false)
                &&& req_field::<T>(j, "response"@, response, catchall)
            },
            Response::Error { meta, response } => {
                &&& !Self::success_shape(j, catchall)
                &&& Self::error_shape(j)
                &&& req_field::<ErrorMeta>(j, "meta"@, meta, false)
                &&& opt_field::<ErrorResponse>(j, "response"@, response, false)
            },
            Response::Other { error, error_description } => {
                &&& !Self::success_shape(j, catchall)
                &&& !Self::error_shape(j)
                &&& Self::other_shape(j)
                &&& req_field::<String>(j, "error"@, error, false)
                &&& req_field::<String>(j, "error_description"@, error_description, false)
            },
        }
    }

    /// A body bearing one of the three envelope shapes is accepted by that
    /// shape's matcher alone, provided the body does not mix the shapes'
    /// distinguishing parts: its payload under `response` is not also an
    /// acceptable error payload, and `meta` and `error` do not both occur as
    /// top-level keys. On bodies that do mix them, the decoder's fixed order
    /// of attempts resolves the overlap.
    pub proof fn lemma_shapes_disjoint(j: JsonV, catchall: bool)
        requires
            !(jget(j, "response"@) matches Some(x) && T::shape(x, catchall) && error_payload_ok(
                x,
            )),
            !(has_key(j, "meta"@) && has_key(j, "error"@)),
        ensures
            !(Self::success_shape(j, catchall) && Self::error_shape(j)),
            !(Self::success_shape(j, catchall) && Self::other_shape(j)),
            !(Self::error_shape(j) && Self::other_shape(j)),
    {
    }

    /// Decode an envelope, trying the success, error and fallback shapes in
    /// that order; a body matching none of the three is refused.
    pub fn from_json(j: &Json, catchall: bool) -> (r: Option<Response<T>>)
        ensures
            (r is Some) == (Self::success_shape(j@, catchall) || Self::error_shape(j@)
                || Self::other_shape(j@)),
            r matches Some(v) ==> Self::decodes(j@, v, catchall),
    {
        if let Some(meta) = get_req::<SuccessMeta>(j, "meta", false) {
            if let Some(response) = get_req::<T>(j, "response", catchall) {
                return Some(Response::Success { meta, response });
            }
        }
        if let Some(meta) = get_req::<ErrorMeta>(j, "meta", false) {
            if let Some(response) = get_opt::<ErrorResponse>(j, "response", false) {
                return Some(Response::Error { meta, response });
            }
        }
        if let Some(error) = get_req::<String>(j, "error", false) {
            if let Some(error_description) = get_req::<String>(j, "error_description", false) {
                return Some(Response::Other { error, error_description });
            }
        }
        None
    }
}

} // verus!
