//! Data models for annotations.

use vstd::prelude::*;

use crate::codec::{
    bag_ok, collect_extra, get_numtext, get_opt, get_req, numtext_field, numtext_shape,
    opt_field, opt_shape, req_field, req_shape, JsonCodec, KnownKeys, ToJson,
};
use crate::json::{str_eq, Json, JsonV};
use crate::models::referent::ReferentCore;
use crate::models::user::{Role, UserCore};
use crate::models::{AnnotationMetadata, Metadata, Text, UserInteractionMetadata, UserInteractions};

verus! {

/// An annotation response.
#[derive(Debug, PartialEq)]
pub struct AnnotationResponse {
    /// An annotation.
    pub annotation: Annotation,
    /// The referent of the annotation.
    pub referent: ReferentCore,
}

impl JsonCodec for AnnotationResponse {
    open spec fn shape(j: JsonV, catchall: bool) -> bool {
        &&& req_shape::<Annotation>(j, "annotation"@, catchall)
        &&& req_shape::<ReferentCore>(j, "referent"@, catchall)
    }

    open spec fn fields(j: JsonV, v: Self, catchall: bool) -> bool {
        &&& req_field::<Annotation>(j, "annotation"@, v.annotation, catchall)
        &&& req_field::<ReferentCore>(j, "referent"@, v.referent, catchall)
    }

    fn from_json(j: &Json, catchall: bool) -> (r: Option<Self>) {
        let annotation = get_req::<Annotation>(j, "annotation", catchall)?;
        let referent = get_req::<ReferentCore>(j, "referent", catchall)?;
        Some(AnnotationResponse { annotation, referent })
    }
}

/// Annotation data.
#[derive(Debug, PartialEq)]
pub struct Annotation {
    /// API path to the annotation.
    pub api_path: String,
    /// Content of the annotation.
    pub body: Text,
    /// Total number of comments on the annotation.
    pub comment_count: u32,
    /// Whether the annotation is a community post.
    pub community: bool,
    /// Custom preview element; always `null` on the wire so far.
    pub custom_preview: (),
    /// Whether the annotation has voters.
    pub has_voters: bool,
    /// Genius ID of the annotation.
    pub id: u32,
    /// Whether the annotation is pinned.
    pub pinned: bool,
    /// Sharable URL.
    pub share_url: String,
    /// Source element; always `null` on the wire so far.
    pub source: (),
    /// State of the annotation.
    pub state: AnnotationState,
    /// Genius URL to the annotation.
    pub url: String,
    /// Whether the annotation is verified.
    pub verified: bool,
    /// Total number of votes on the annotation.
    pub votes_total: i32,
    /// Rejection comment element.
    pub rejection_comment: Option<RejectionComment>,
    /// Cosigners of the annotation.
    pub cosigned_by: Vec<UserCore<Metadata<UserInteractions>>>,
    /// Verifier of the annotation.
    pub verified_by: Option<UserCore<Metadata<UserInteractions>>>,
    /// Authors of the annotation.
    pub authors: Vec<Attributions>,
    /// Current user metadata.
    pub current_user_metadata: AnnotationMetadata,
    /// Extra data: wire keys not otherwise modelled.
    pub extra: Vec<(String, Json)>,
}

impl KnownKeys for Annotation {
    open spec fn known(k: Seq<char>) -> bool {
        ||| k == "api_path"@
        ||| k == "body"@
        ||| k == "comment_count"@
        ||| k == "community"@
        ||| k == "custom_preview"@
        ||| k == "has_voters"@
        ||| k == "id"@
        ||| k == "pinned"@
        ||| k == "share_url"@
        ||| k == "source"@
        ||| k == "state"@
        ||| k == "url"@
        ||| k == "verified"@
        ||| k == "votes_total"@
        ||| k == "rejection_comment"@
        ||| k == "cosigned_by"@
        ||| k == "verified_by"@
        ||| k == "authors"@
        ||| k == "current_user_metadata"@
    }

    fn known_key(k: &str) -> (b: bool) {
        str_eq(k, "api_path") || str_eq(k, "body") || str_eq(k, "comment_count")
            || str_eq(k, "community") || str_eq(k, "custom_preview") || str_eq(k, "has_voters")
            || str_eq(k, "id") || str_eq(k, "pinned") || str_eq(k, "share_url")
            || str_eq(k, "source") || str_eq(k, "state") || str_eq(k, "url")
            || str_eq(k, "verified") || str_eq(k, "votes_total")
            || str_eq(k, "rejection_comment") || str_eq(k, "cosigned_by")
            || str_eq(k, "verified_by") || str_eq(k, "authors")
            || str_eq(k, "current_user_metadata")
    }
}

impl JsonCodec for Annotation {
    open spec fn shape(j: JsonV, catchall: bool) -> bool {
        &&& req_shape::<String>(j, "api_path"@, catchall)
        &&& req_shape::<Text>(j, "body"@, catchall)
        &&& req_shape::<u32>(j, "comment_count"@, catchall)
        &&& req_shape::<bool>(j, "community"@, catchall)
        &&& req_shape::<()>(j, "custom_preview"@, catchall)
        &&& req_shape::<bool>(j, "has_voters"@, catchall)
        &&& req_shape::<u32>(j, "id"@, catchall)
        &&& req_shape::<bool>(j, "pinned"@, catchall)
        &&& req_shape::<String>(j, "share_url"@, catchall)
        &&& req_shape::<()>(j, "source"@, catchall)
        &&& req_shape::<AnnotationState>(j, "state"@, catchall)
        &&& req_shape::<String>(j, "url"@, catchall)
        &&& req_shape::<bool>(j, "verified"@, catchall)
        &&& req_shape::<i32>(j, "votes_total"@, catchall)
        &&& opt_shape::<RejectionComment>(j, "rejection_comment"@, catchall)
        &&& req_shape::<Vec<UserCore<Metadata<UserInteractions>>>>(j, "cosigned_by"@, catchall)
        &&& opt_shape::<UserCore<Metadata<UserInteractions>>>(j, "verified_by"@, catchall)
        &&& req_shape::<Vec<Attributions>>(j, "authors"@, catchall)
        &&& req_shape::<AnnotationMetadata>(j, "current_user_metadata"@, catchall)
    }

    open spec fn fields(j: JsonV, v: Self, catchall: bool) -> bool {
        &&& req_field::<String>(j, "api_path"@, v.api_path, catchall)
        &&& req_field::<Text>(j, "body"@, v.body, catchall)
        &&& req_field::<u32>(j, "comment_count"@, v.comment_count, catchall)
        &&& req_field::<bool>(j, "community"@, v.community, catchall)
        &&& req_field::<()>(j, "custom_preview"@, v.custom_preview, catchall)
        &&& req_field::<bool>(j, "has_voters"@, v.has_voters, catchall)
        &&& req_field::<u32>(j, "id"@, v.id, catchall)
        &&& req_field::<bool>(j, "pinned"@, v.pinned, catchall)
        &&& req_field::<String>(j, "share_url"@, v.share_url, catchall)
        &&& req_field::<()>(j, "source"@, v.source, catchall)
        &&& req_field::<AnnotationState>(j, "state"@, v.state, catchall)
        &&& req_field::<String>(j, "url"@, v.url, catchall)
        &&& req_field::<bool>(j, "verified"@, v.verified, catchall)
        &&& req_field::<i32>(j, "votes_total"@, v.votes_total, catchall)
        &&& opt_field::<RejectionComment>(j, "rejection_comment"@, v.rejection_comment, catchall)
        &&& req_field::<Vec<UserCore<Metadata<UserInteractions>>>>(
            j,
            "cosigned_by"@,
            v.cosigned_by,
            catchall,
        )
        &&& opt_field::<UserCore<Metadata<UserInteractions>>>(
            j,
            "verified_by"@,
            v.verified_by,
            catchall,
        )
        &&& req_field::<Vec<Attributions>>(j, "authors"@, v.authors, catchall)
        &&& req_field::<AnnotationMetadata>(
            j,
            "current_user_metadata"@,
            v.current_user_metadata,
            catchall,
        )
        &&& bag_ok(j, v.extra@, catchall, |k: Seq<char>| Self::known(k))
    }

    fn from_json(j: &Json, catchall: bool) -> (r: Option<Self>) {
        let api_path = get_req::<String>(j, "api_path", catchall)?;
        let body = get_req::<Text>(j, "body", catchall)?;
        let comment_count = get_req::<u32>(j, "comment_count", catchall)?;
        let community = get_req::<bool>(j, "community", catchall)?;
        let custom_preview = get_req::<()>(j, "custom_preview", catchall)?;
        let has_voters = get_req::<bool>(j, "has_voters", catchall)?;
        let id = get_req::<u32>(j, "id", catchall)?;
        let pinned = get_req::<bool>(j, "pinned", catchall)?;
        let share_url = get_req::<String>(j, "share_url", catchall)?;
        let source = get_req::<()>(j, "source", catchall)?;
        let state = get_req::<AnnotationState>(j, "state", catchall)?;
        let url = get_req::<String>(j, "url", catchall)?;
        let verified = get_req::<bool>(j, "verified", catchall)?;
        let votes_total = get_req::<i32>(j, "votes_total", catchall)?;
        let rejection_comment = get_opt::<RejectionComment>(j, "rejection_comment", catchall)?;
        let cosigned_by = get_req::<Vec<UserCore<Metadata<UserInteractions>>>>(
            j,
            "cosigned_by",
            catchall,
        )?;
        let verified_by = get_opt::<UserCore<Metadata<UserInteractions>>>(
            j,
            "verified_by",
            catchall,
        )?;
        let authors = get_req::<Vec<Attributions>>(j, "authors", catchall)?;
        let current_user_metadata = get_req::<AnnotationMetadata>(
            j,
            "current_user_metadata",
            catchall,
        )?;
        let extra = collect_extra::<Annotation>(j, catchall);
        Some(
            Annotation {
                api_path,
                body,
                comment_count,
                community,
                custom_preview,
                has_voters,
                id,
                pinned,
                share_url,
                source,
                state,
                url,
                verified,
                votes_total,
                rejection_comment,
                cosigned_by,
                verified_by,
                authors,
                current_user_metadata,
                extra,
            },
        )
    }
}

/// A rejection comment.
#[derive(Debug, PartialEq)]
pub struct RejectionComment {
    /// Genius API path.
    pub api_path: String,
    /// Text description.
    pub body: Text,
    /// Commentable ID.
    pub commentable_id: u32,
    /// Commentable type.
    pub commentable_type: String,
    /// Created at, as seconds since the Unix epoch.
    pub created_at: i64,
    /// Whether the comment has voters.
    pub has_voters: bool,
    /// Genius ID.
    pub id: u32,
    /// Pinned role.
    pub pinned_role: Option<String>,
    /// Total votes.
    pub votes_total: u32,
    /// Anonymous author; always `null` on the wire so far.
    pub anonymous_author: (),
    /// Author.
    pub author: UserCore<UserInteractionMetadata>,
    /// Reason.
    pub reason: Option<RejectionReason>,
}

impl JsonCodec for RejectionComment {
    open spec fn shape(j: JsonV, catchall: bool) -> bool {
        &&& req_shape::<String>(j, "api_path"@, catchall)
        &&& req_shape::<Text>(j, "body"@, catchall)
        &&& req_shape::<u32>(j, "commentable_id"@, catchall)
        &&& req_shape::<String>(j, "commentable_type"@, catchall)
        &&& req_shape::<i64>(j, "created_at"@, catchall)
        &&& req_shape::<bool>(j, "has_voters"@, catchall)
        &&& req_shape::<u32>(j, "id"@, catchall)
        &&& opt_shape::<String>(j, "pinned_role"@, catchall)
        &&& req_shape::<u32>(j, "votes_total"@, catchall)
        &&& req_shape::<()>(j, "anonymous_author"@, catchall)
        &&& req_shape::<UserCore<UserInteractionMetadata>>(j, "author"@, catchall)
        &&& opt_shape::<RejectionReason>(j, "reason"@, catchall)
    }

    open spec fn fields(j: JsonV, v: Self, catchall: bool) -> bool {
        &&& req_field::<String>(j, "api_path"@, v.api_path, catchall)
        &&& req_field::<Text>(j, "body"@, v.body, catchall)
        &&& req_field::<u32>(j, "commentable_id"@, v.commentable_id, catchall)
        &&& req_field::<String>(j, "commentable_type"@, v.commentable_type, catchall)
        &&& req_field::<i64>(j, "created_at"@, v.created_at, catchall)
        &&& req_field::<bool>(j, "has_voters"@, v.has_voters, catchall)
        &&& req_field::<u32>(j, "id"@, v.id, catchall)
        &&& opt_field::<String>(j, "pinned_role"@, v.pinned_role, catchall)
        &&& req_field::<u32>(j, "votes_total"@, v.votes_total, catchall)
        &&& req_field::<()>(j, "anonymous_author"@, v.anonymous_author, catchall)
        &&& req_field::<UserCore<UserInteractionMetadata>>(j, "author"@, v.author, catchall)
        &&& opt_field::<RejectionReason>(j, "reason"@, v.reason, catchall)
    }

    fn from_json(j: &Json, catchall: bool) -> (r: Option<Self>) {
        let api_path = get_req::<String>(j, "api_path", catchall)?;
        let body = get_req::<Text>(j, "body", catchall)?;
        let commentable_id = get_req::<u32>(j, "commentable_id", catchall)?;
        let commentable_type = get_req::<String>(j, "commentable_type", catchall)?;
        let created_at = get_req::<i64>(j, "created_at", catchall)?;
        let has_voters = get_req::<bool>(j, "has_voters", catchall)?;
        let id = get_req::<u32>(j, "id", catchall)?;
        let pinned_role = get_opt::<String>(j, "pinned_role", catchall)?;
        let votes_total = get_req::<u32>(j, "votes_total", catchall)?;
        let anonymous_author = get_req::<()>(j, "anonymous_author", catchall)?;
        let author = get_req::<UserCore<UserInteractionMetadata>>(j, "author", catchall)?;
        let reason = get_opt::<RejectionReason>(j, "reason", catchall)?;
        Some(
            RejectionComment {
                api_path,
                body,
                commentable_id,
                commentable_type,
                created_at,
                has_voters,
                id,
                pinned_role,
                votes_total,
                anonymous_author,
                author,
                reason,
            },
        )
    }
}

/// A rejection reason.
#[derive(Debug, Clone, PartialEq)]
pub struct RejectionReason {
    /// Context URL.
    pub context_url: String,
    /// Display character.
    pub display_character: char,
    /// Handle.
    pub handle: String,
    /// Genius ID.
    pub id: u32,
    /// Name.
    pub name: String,
    /// Raw name.
    pub raw_name: String,
    /// Requires body.
    pub requires_body: bool,
    /// Slug.
    pub slug: String,
}

impl JsonCodec for RejectionReason {
    open spec fn shape(j: JsonV, catchall: bool) -> bool {
        &&& req_shape::<String>(j, "context_url"@, catchall)
        &&& req_shape::<char>(j, "display_character"@, catchall)
        &&& req_shape::<String>(j, "handle"@, catchall)
        &&& req_shape::<u32>(j, "id"@, catchall)
        &&& req_shape::<String>(j, "name"@, catchall)
        &&& req_shape::<String>(j, "raw_name"@, catchall)
        &&& req_shape::<bool>(j, "requires_body"@, catchall)
        &&& req_shape::<String>(j, "slug"@, catchall)
    }

    open spec fn fields(j: JsonV, v: Self, catchall: bool) -> bool {
        &&& req_field::<String>(j, "context_url"@, v.context_url, catchall)
        &&& req_field::<char>(j, "display_character"@, v.display_character, catchall)
        &&& req_field::<String>(j, "handle"@, v.handle, catchall)
        &&& req_field::<u32>(j, "id"@, v.id, catchall)
        &&& req_field::<String>(j, "name"@, v.name, catchall)
        &&& req_field::<String>(j, "raw_name"@, v.raw_name, catchall)
        &&& req_field::<bool>(j, "requires_body"@, v.requires_body, catchall)
        &&& req_field::<String>(j, "slug"@, v.slug, catchall)
    }

    fn from_json(j: &Json, catchall: bool) -> (r: Option<Self>) {
        let context_url = get_req::<String>(j, "context_url", catchall)?;
        let display_character = get_req::<char>(j, "display_character", catchall)?;
        let handle = get_req::<String>(j, "handle", catchall)?;
        let id = get_req::<u32>(j, "id", catchall)?;
        let name = get_req::<String>(j, "name", catchall)?;
        let raw_name = get_req::<String>(j, "raw_name", catchall)?;
        let requires_body = get_req::<bool>(j, "requires_body", catchall)?;
        let slug = get_req::<String>(j, "slug", catchall)?;
        Some(
            RejectionReason {
                context_url,
                display_character,
                handle,
                id,
                name,
                raw_name,
                requires_body,
                slug,
            },
        )
    }
}

/// An attribution to an author.
#[derive(Debug, Clone, PartialEq)]
pub struct Attributions {
    /// Portion of the annotation attributed to the user, between 0 and 1: a
    /// numeric literal, kept as its decimal text because it can be
    /// fractional on the wire.
    pub attribution: String,
    /// The pinned role of the author.
    pub pinned_role: Option<Role>,
    /// The user profile of the author.
    pub user: UserCore<Metadata<UserInteractions>>,
}

impl JsonCodec for Attributions {
    open spec fn shape(j: JsonV, catchall: bool) -> bool {
        &&& numtext_shape(j, "attribution"@)
        &&& opt_shape::<Role>(j, "pinned_role"@, catchall)
        &&& req_shape::<UserCore<Metadata<UserInteractions>>>(j, "user"@, catchall)
    }

    open spec fn fields(j: JsonV, v: Self, catchall: bool) -> bool {
        &&& numtext_field(j, "attribution"@, v.attribution@)
        &&& opt_field::<Role>(j, "pinned_role"@, v.pinned_role, catchall)
        &&& req_field::<UserCore<Metadata<UserInteractions>>>(j, "user"@, v.user, catchall)
    }

    fn from_json(j: &Json, catchall: bool) -> (r: Option<Self>) {
        let attribution = get_numtext(j, "attribution")?;
        let pinned_role = get_opt::<Role>(j, "pinned_role", catchall)?;
        let user = get_req::<UserCore<Metadata<UserInteractions>>>(j, "user", catchall)?;
        Some(Attributions { attribution, pinned_role, user })
    }
}

/// The state of an annotation.
///
/// The wire values form a closed set with no documented fallback: an
/// unrecognized state is a decode error.
#[derive(Debug, Clone, Copy, PartialEq, Eq, Structural)]
pub enum AnnotationState {
    /// From a verified artist.
    Verified,
    /// Not fully annotated.
    NeedsExegesis,
    /// Approved for display.
    Accepted,
    /// Likely in need of improvement.
    Suspect,
    /// In need of review.
    Rough,
    /// Pending.
    Pending,
}

impl Default for AnnotationState {
    /// The default annotation state.
    fn default() -> (r: Self)
        ensures
            r == AnnotationState::Verified,
    {
        AnnotationState::Verified
    }
}

impl JsonCodec for AnnotationState {
    open spec fn shape(j: JsonV, catchall: bool) -> bool {
        j matches JsonV::Str(s) && (s == "verified"@ || s == "needs_exegesis"@
            || s == "accepted"@ || s == "suspect"@ || s == "rough"@ || s == "pending"@)
    }

    open spec fn fields(j: JsonV, v: Self, catchall: bool) -> bool {
        match v {
            AnnotationState::Verified => j == JsonV::Str("verified"@),
            AnnotationState::NeedsExegesis => j == JsonV::Str("needs_exegesis"@),
            AnnotationState::Accepted => j == JsonV::Str("accepted"@),
            AnnotationState::Suspect => j == JsonV::Str("suspect"@),
            AnnotationState::Rough => j == JsonV::Str("rough"@),
            AnnotationState::Pending => j == JsonV::Str("pending"@),
        }
    }

    fn from_json(j: &Json, catchall: bool) -> (r: Option<Self>) {
        match j {
            Json::Str(s) => {
                if str_eq(s.as_str(), "verified") {
                    Some(AnnotationState::Verified)
                } else if str_eq(s.as_str(), "needs_exegesis") {
                    Some(AnnotationState::NeedsExegesis)
                } else if str_eq(s.as_str(), "accepted") {
                    Some(AnnotationState::Accepted)
                } else if str_eq(s.as_str(), "suspect") {
                    Some(AnnotationState::Suspect)
                } else if str_eq(s.as_str(), "rough") {
                    Some(AnnotationState::Rough)
                } else if str_eq(s.as_str(), "pending") {
                    Some(AnnotationState::Pending)
                } else {
                    None
                }
            },
            _ => None,
        }
    }
}

impl ToJson for AnnotationState {
    open spec fn spec_json(v: Self) -> JsonV {
        match v {
            AnnotationState::Verified => JsonV::Str("verified"@),
            AnnotationState::NeedsExegesis => JsonV::Str("needs_exegesis"@),
            AnnotationState::Accepted => JsonV::Str("accepted"@),
            AnnotationState::Suspect => JsonV::Str("suspect"@),
            AnnotationState::Rough => JsonV::Str("rough"@),
            AnnotationState::Pending => JsonV::Str("pending"@),
        }
    }

    fn to_json(&self) -> (r: Json) {
        match self {
            AnnotationState::Verified => Json::Str(String::from_str("verified")),
            AnnotationState::NeedsExegesis => Json::Str(String::from_str("needs_exegesis")),
            AnnotationState::Accepted => Json::Str(String::from_str("accepted")),
            AnnotationState::Suspect => Json::Str(String::from_str("suspect")),
            AnnotationState::Rough => Json::Str(String::from_str("rough")),
            AnnotationState::Pending => Json::Str(String::from_str("pending")),
        }
    }
}

} // verus!
