//! Data models for users.
//!
//! The user endpoint is not officially documented; the records here follow
//! the response format shared with the account endpoint.

use vstd::prelude::*;

use crate::codec::{
    bag_ok, collect_extra, get_opt, get_req, opt_field, opt_shape, req_field, req_shape,
    JsonCodec, KnownKeys, ToJson,
};
use crate::json::{str_eq, Json, JsonV};
use crate::models::artist::ArtistCore;
use crate::models::{Text, UserMetadata};

verus! {

/// A user response.
#[derive(Debug, Clone, PartialEq)]
pub struct UserResponse {
    /// User data.
    pub user: User,
}

impl JsonCodec for UserResponse {
    open spec fn shape(j: JsonV, catchall: bool) -> bool {
        req_shape::<User>(j, "user"@, catchall)
    }

    open spec fn fields(j: JsonV, v: Self, catchall: bool) -> bool {
        req_field::<User>(j, "user"@, v.user, catchall)
    }

    fn from_json(j: &Json, catchall: bool) -> (r: Option<Self>) {
        let user = get_req::<User>(j, "user", catchall)?;
        Some(UserResponse { user })
    }
}

/// User data.
#[derive(Debug, Clone, PartialEq)]
pub struct User {
    /// Personal description for the user.
    pub about_me: Text,
    /// URL for a custom header image.
    pub custom_header_image_url: Option<String>,
    /// Number of users followed.
    pub followed_users_count: u32,
    /// Number of followers.
    pub followers_count: u32,
    /// Display-friendly Genius IQ.
    pub iq_for_display: String,
    /// URL for user photo.
    pub photo_url: Option<String>,
    /// Display-friendly user roles.
    pub roles_for_display: Vec<Role>,
    /// User statistics.
    pub stats: Stats,
    /// User's artist profile.
    pub artist: Option<ArtistCore>,
    /// Core user data, flattened into the same wire object.
    pub core: UserCore<UserMetadata>,
    /// Extra data: wire keys not otherwise modelled.
    pub extra: Vec<(String, Json)>,
}

impl KnownKeys for User {
    open spec fn known(k: Seq<char>) -> bool {
        ||| k == "about_me"@
        ||| k == "custom_header_image_url"@
        ||| k == "followed_users_count"@
        ||| k == "followers_count"@
        ||| k == "iq_for_display"@
        ||| k == "photo_url"@
        ||| k == "roles_for_display"@
        ||| k == "stats"@
        ||| k == "artist"@
        ||| UserCore::<UserMetadata>::known(k)
    }

    fn known_key(k: &str) -> (b: bool) {
        str_eq(k, "about_me") || str_eq(k, "custom_header_image_url")
            || str_eq(k, "followed_users_count") || str_eq(k, "followers_count")
            || str_eq(k, "iq_for_display") || str_eq(k, "photo_url")
            || str_eq(k, "roles_for_display") || str_eq(k, "stats") || str_eq(k, "artist")
            || UserCore::<UserMetadata>::known_key(k)
    }
}

impl JsonCodec for User {
    open spec fn shape(j: JsonV, catchall: bool) -> bool {
        &&& req_shape::<Text>(j, "about_me"@, catchall)
        &&& opt_shape::<String>(j, "custom_header_image_url"@, catchall)
        &&& req_shape::<u32>(j, "followed_users_count"@, catchall)
        &&& req_shape::<u32>(j, "followers_count"@, catchall)
        &&& req_shape::<String>(j, "iq_for_display"@, catchall)
        &&& opt_shape::<String>(j, "photo_url"@, catchall)
        &&& req_shape::<Vec<Role>>(j, "roles_for_display"@, catchall)
        &&& req_shape::<Stats>(j, "stats"@, catchall)
        &&& opt_shape::<ArtistCore>(j, "artist"@, catchall)
        &&& UserCore::<UserMetadata>::shape(j, false)
    }

    open spec fn fields(j: JsonV, v: Self, catchall: bool) -> bool {
        &&& req_field::<Text>(j, "about_me"@, v.about_me, catchall)
        &&& opt_field::<String>(j, "custom_header_image_url"@, v.custom_header_image_url, catchall)
        &&& req_field::<u32>(j, "followed_users_count"@, v.followed_users_count, catchall)
        &&& req_field::<u32>(j, "followers_count"@, v.followers_count, catchall)
        &&& req_field::<String>(j, "iq_for_display"@, v.iq_for_display, catchall)
        &&& opt_field::<String>(j, "photo_url"@, v.photo_url, catchall)
        &&& req_field::<Vec<Role>>(j, "roles_for_display"@, v.roles_for_display, catchall)
        &&& req_field::<Stats>(j, "stats"@, v.stats, catchall)
        &&& opt_field::<ArtistCore>(j, "artist"@, v.artist, catchall)
        &&& UserCore::<UserMetadata>::fields(j, v.core, false)
        &&& bag_ok(j, v.extra@, catchall, |k: Seq<char>| Self::known(k))
    }

    fn from_json(j: &Json, catchall: bool) -> (r: Option<Self>) {
        let about_me = get_req::<Text>(j, "about_me", catchall)?;
        let custom_header_image_url = get_opt::<String>(j, "custom_header_image_url", catchall)?;
        let followed_users_count = get_req::<u32>(j, "followed_users_count", catchall)?;
        let followers_count = get_req::<u32>(j, "followers_count", catchall)?;
        let iq_for_display = get_req::<String>(j, "iq_for_display", catchall)?;
        let photo_url = get_opt::<String>(j, "photo_url", catchall)?;
        let roles_for_display = get_req::<Vec<Role>>(j, "roles_for_display", catchall)?;
        let stats = get_req::<Stats>(j, "stats", catchall)?;
        let artist = get_opt::<ArtistCore>(j, "artist", catchall)?;
        let core = UserCore::<UserMetadata>::from_json(j, false)?;
        let extra = collect_extra::<User>(j, catchall);
        Some(
            User {
                about_me,
                custom_header_image_url,
                followed_users_count,
                followers_count,
                iq_for_display,
                photo_url,
                roles_for_display,
                stats,
                artist,
                core,
                extra,
            },
        )
    }
}

/// Core user data: the fields shared between an abbreviated reference to a
/// user and the full standalone representation.
#[derive(Debug, Clone, PartialEq)]
pub struct UserCore<M> {
    /// Genius API path to this user.
    pub api_path: String,
    /// Avatar images for this user.
    pub avatar: Avatar,
    /// URL for a header image.
    pub header_image_url: String,
    /// Human-readable display-friendly user role.
    pub human_readable_role_for_display: Option<String>,
    /// Genius ID.
    pub id: u32,
    /// Genius IQ.
    pub iq: i32,
    /// User name (a duplicate of the name field on the wire).
    pub login: String,
    /// User name.
    pub name: String,
    /// Display-friendly user role.
    pub role_for_display: Option<Role>,
    /// Genius URL to the user.
    pub url: String,
    /// Current user metadata.
    pub current_user_metadata: M,
}

impl<M> UserCore<M> {
    /// Whether a key belongs to a named field of this record.
    pub open spec fn known(k: Seq<char>) -> bool {
        ||| k == "api_path"@
        ||| k == "avatar"@
        ||| k == "header_image_url"@
        ||| k == "human_readable_role_for_display"@
        ||| k == "id"@
        ||| k == "iq"@
        ||| k == "login"@
        ||| k == "name"@
        ||| k == "role_for_display"@
        ||| k == "url"@
        ||| k == "current_user_metadata"@
    }

    /// The runtime test for [`UserCore::known`].
    pub fn known_key(k: &str) -> (b: bool)
        ensures
            b == Self::known(k@),
    {
        str_eq(k, "api_path") || str_eq(k, "avatar") || str_eq(k, "header_image_url")
            || str_eq(k, "human_readable_role_for_display") || str_eq(k, "id") || str_eq(k, "iq")
            || str_eq(k, "login") || str_eq(k, "name") || str_eq(k, "role_for_display")
            || str_eq(k, "url") || str_eq(k, "current_user_metadata")
    }
}

impl<M: JsonCodec> JsonCodec for UserCore<M> {
    open spec fn shape(j: JsonV, catchall: bool) -> bool {
        &&& req_shape::<String>(j, "api_path"@, catchall)
        &&& req_shape::<Avatar>(j, "avatar"@, catchall)
        &&& req_shape::<String>(j, "header_image_url"@, catchall)
        &&& opt_shape::<String>(j, "human_readable_role_for_display"@, catchall)
        &&& req_shape::<u32>(j, "id"@, catchall)
        &&& req_shape::<i32>(j, "iq"@, catchall)
        &&& req_shape::<String>(j, "login"@, catchall)
        &&& req_shape::<String>(j, "name"@, catchall)
        &&& opt_shape::<Role>(j, "role_for_display"@, catchall)
        &&& req_shape::<String>(j, "url"@, catchall)
        &&& req_shape::<M>(j, "current_user_metadata"@, catchall)
    }

    open spec fn fields(j: JsonV, v: Self, catchall: bool) -> bool {
        &&& req_field::<String>(j, "api_path"@, v.api_path, catchall)
        &&& req_field::<Avatar>(j, "avatar"@, v.avatar, catchall)
        &&& req_field::<String>(j, "header_image_url"@, v.header_image_url, catchall)
        &&& opt_field::<String>(
            j,
            "human_readable_role_for_display"@,
            v.human_readable_role_for_display,
            catchall,
        )
        &&& req_field::<u32>(j, "id"@, v.id, catchall)
        &&& req_field::<i32>(j, "iq"@, v.iq, catchall)
        &&& req_field::<String>(j, "login"@, v.login, catchall)
        &&& req_field::<String>(j, "name"@, v.name, catchall)
        &&& opt_field::<Role>(j, "role_for_display"@, v.role_for_display, catchall)
        &&& req_field::<String>(j, "url"@, v.url, catchall)
        &&& req_field::<M>(j, "current_user_metadata"@, v.current_user_metadata, catchall)
    }

    fn from_json(j: &Json, catchall: bool) -> (r: Option<Self>) {
        let api_path = get_req::<String>(j, "api_path", catchall)?;
        let avatar = get_req::<Avatar>(j, "avatar", catchall)?;
        let header_image_url = get_req::<String>(j, "header_image_url", catchall)?;
        let human_readable_role_for_display = get_opt::<String>(
            j,
            "human_readable_role_for_display",
            catchall,
        )?;
        let id = get_req::<u32>(j, "id", catchall)?;
        let iq = get_req::<i32>(j, "iq", catchall)?;
        let login = get_req::<String>(j, "login", catchall)?;
        let name = get_req::<String>(j, "name", catchall)?;
        let role_for_display = get_opt::<Role>(j, "role_for_display", catchall)?;
        let url = get_req::<String>(j, "url", catchall)?;
        let current_user_metadata = get_req::<M>(j, "current_user_metadata", catchall)?;
        Some(
            UserCore {
                api_path,
                avatar,
                header_image_url,
                human_readable_role_for_display,
                id,
                iq,
                login,
                name,
                role_for_display,
                url,
                current_user_metadata,
            },
        )
    }
}

/// User roles.
#[derive(Debug, Clone, Copy, PartialEq, Eq, Structural)]
pub enum Role {
    /// Genius staff.
    Regulator,
    /// Also Genius staff.
    Staff,
    /// Verified artist.
    VerifiedArtist,
    /// Editor who coaches contributors and resolves conflicts.
    Moderator,
    /// Contributor and content curator.
    Editor,
    /// Recognized leader in the forum community.
    Mediator,
    /// A normal contributor.
    Contributor,
    /// A transcriber.
    Transcriber,
}

impl JsonCodec for Role {
    open spec fn shape(j: JsonV, catchall: bool) -> bool {
        j matches JsonV::Str(s) && (s == "regulator"@ || s == "staff"@ || s == "verified_artist"@
            || s == "moderator"@ || s == "editor"@ || s == "mediator"@ || s == "contributor"@
            || s == "transcriber"@)
    }

    open spec fn fields(j: JsonV, v: Self, catchall: bool) -> bool {
        match v {
            Role::Regulator => j == JsonV::Str("regulator"@),
            Role::Staff => j == JsonV::Str("staff"@),
            Role::VerifiedArtist => j == JsonV::Str("verified_artist"@),
            Role::Moderator => j == JsonV::Str("moderator"@),
            Role::Editor => j == JsonV::Str("editor"@),
            Role::Mediator => j == JsonV::Str("mediator"@),
            Role::Contributor => j == JsonV::Str("contributor"@),
            Role::Transcriber => j == JsonV::Str("transcriber"@),
        }
    }

    fn from_json(j: &Json, catchall: bool) -> (r: Option<Self>) {
        match j {
            Json::Str(s) => {
                if str_eq(s.as_str(), "regulator") {
                    Some(Role::Regulator)
                } else if str_eq(s.as_str(), "staff") {
                    Some(Role::Staff)
                } else if str_eq(s.as_str(), "verified_artist") {
                    Some(Role::VerifiedArtist)
                } else if str_eq(s.as_str(), "moderator") {
                    Some(Role::Moderator)
                } else if str_eq(s.as_str(), "editor") {
                    Some(Role::Editor)
                } else if str_eq(s.as_str(), "mediator") {
                    Some(Role::Mediator)
                } else if str_eq(s.as_str(), "contributor") {
                    Some(Role::Contributor)
                } else if str_eq(s.as_str(), "transcriber") {
                    Some(Role::Transcriber)
                } else {
                    None
                }
            },
            _ => None,
        }
    }
}

/// Avatar images.
#[derive(Debug, Clone, PartialEq)]
pub struct Avatar {
    /// Tiny image.
    pub tiny: Image,
    /// Thumbnail image.
    pub thumb: Image,
    /// Small image.
    pub small: Image,
    /// Medium image.
    pub medium: Image,
}

impl JsonCodec for Avatar {
    open spec fn shape(j: JsonV, catchall: bool) -> bool {
        &&& req_shape::<Image>(j, "tiny"@, catchall)
        &&& req_shape::<Image>(j, "thumb"@, catchall)
        &&& req_shape::<Image>(j, "small"@, catchall)
        &&& req_shape::<Image>(j, "medium"@, catchall)
    }

    open spec fn fields(j: JsonV, v: Self, catchall: bool) -> bool {
        &&& req_field::<Image>(j, "tiny"@, v.tiny, catchall)
        &&& req_field::<Image>(j, "thumb"@, v.thumb, catchall)
        &&& req_field::<Image>(j, "small"@, v.small, catchall)
        &&& req_field::<Image>(j, "medium"@, v.medium, catchall)
    }

    fn from_json(j: &Json, catchall: bool) -> (r: Option<Self>) {
        let tiny = get_req::<Image>(j, "tiny", catchall)?;
        let thumb = get_req::<Image>(j, "thumb", catchall)?;
        let small = get_req::<Image>(j, "small", catchall)?;
        let medium = get_req::<Image>(j, "medium", catchall)?;
        Some(Avatar { tiny, thumb, small, medium })
    }
}

/// An image.
#[derive(Debug, Clone, PartialEq)]
pub struct Image {
    /// The URL to the image.
    pub url: String,
    /// The image's bounding box.
    pub bounding_box: BoundingBox,
}

impl JsonCodec for Image {
    open spec fn shape(j: JsonV, catchall: bool) -> bool {
        &&& req_shape::<String>(j, "url"@, catchall)
        &&& req_shape::<BoundingBox>(j, "bounding_box"@, catchall)
    }

    open spec fn fields(j: JsonV, v: Self, catchall: bool) -> bool {
        &&& req_field::<String>(j, "url"@, v.url, catchall)
        &&& req_field::<BoundingBox>(j, "bounding_box"@, v.bounding_box, catchall)
    }

    fn from_json(j: &Json, catchall: bool) -> (r: Option<Self>) {
        let url = get_req::<String>(j, "url", catchall)?;
        let bounding_box = get_req::<BoundingBox>(j, "bounding_box", catchall)?;
        Some(Image { url, bounding_box })
    }
}

/// A bounding box.
#[derive(Debug, Clone, Copy, PartialEq, Eq, Structural)]
pub struct BoundingBox {
    /// The width of the box in pixels.
    pub width: u16,
    /// The height of the box in pixels.
    pub height: u16,
}

impl JsonCodec for BoundingBox {
    open spec fn shape(j: JsonV, catchall: bool) -> bool {
        &&& req_shape::<u16>(j, "width"@, catchall)
        &&& req_shape::<u16>(j, "height"@, catchall)
    }

    open spec fn fields(j: JsonV, v: Self, catchall: bool) -> bool {
        &&& req_field::<u16>(j, "width"@, v.width, catchall)
        &&& req_field::<u16>(j, "height"@, v.height, catchall)
    }

    fn from_json(j: &Json, catchall: bool) -> (r: Option<Self>) {
        let width = get_req::<u16>(j, "width", catchall)?;
        let height = get_req::<u16>(j, "height", catchall)?;
        Some(BoundingBox { width, height })
    }
}

/// User statistics.
#[derive(Debug, Clone, Copy, PartialEq, Eq, Structural)]
pub struct Stats {
    /// Number of annotations.
    pub annotations_count: u32,
    /// Number of answers.
    pub answers_count: u32,
    /// Number of comments.
    pub comments_count: u32,
    /// Number of forum posts.
    pub forum_posts_count: u32,
    /// Number of pyongs.
    pub pyongs_count: u32,
    /// Number of questions.
    pub questions_count: u32,
    /// Number of transcriptions.
    pub transcriptions_count: u32,
}

impl JsonCodec for Stats {
    open spec fn shape(j: JsonV, catchall: bool) -> bool {
        &&& req_shape::<u32>(j, "annotations_count"@, catchall)
        &&& req_shape::<u32>(j, "answers_count"@, catchall)
        &&& req_shape::<u32>(j, "comments_count"@, catchall)
        &&& req_shape::<u32>(j, "forum_posts_count"@, catchall)
        &&& req_shape::<u32>(j, "pyongs_count"@, catchall)
        &&& req_shape::<u32>(j, "questions_count"@, catchall)
        &&& req_shape::<u32>(j, "transcriptions_count"@, catchall)
    }

    open spec fn fields(j: JsonV, v: Self, catchall: bool) -> bool {
        &&& req_field::<u32>(j, "annotations_count"@, v.annotations_count, catchall)
        &&& req_field::<u32>(j, "answers_count"@, v.answers_count, catchall)
        &&& req_field::<u32>(j, "comments_count"@, v.comments_count, catchall)
        &&& req_field::<u32>(j, "forum_posts_count"@, v.forum_posts_count, catchall)
        &&& req_field::<u32>(j, "pyongs_count"@, v.pyongs_count, catchall)
        &&& req_field::<u32>(j, "questions_count"@, v.questions_count, catchall)
        &&& req_field::<u32>(j, "transcriptions_count"@, v.transcriptions_count, catchall)
    }

    fn from_json(j: &Json, catchall: bool) -> (r: Option<Self>) {
        let annotations_count = get_req::<u32>(j, "annotations_count", catchall)?;
        let answers_count = get_req::<u32>(j, "answers_count", catchall)?;
        let comments_count = get_req::<u32>(j, "comments_count", catchall)?;
        let forum_posts_count = get_req::<u32>(j, "forum_posts_count", catchall)?;
        let pyongs_count = get_req::<u32>(j, "pyongs_count", catchall)?;
        let questions_count = get_req::<u32>(j, "questions_count", catchall)?;
        let transcriptions_count = get_req::<u32>(j, "transcriptions_count", catchall)?;
        Some(
            Stats {
                annotations_count,
                answers_count,
                comments_count,
                forum_posts_count,
                pyongs_count,
                questions_count,
                transcriptions_count,
            },
        )
    }
}

impl ToJson for Role {
    open spec fn spec_json(v: Self) -> JsonV {
        match v {
            Role::Regulator => JsonV::Str("regulator"@),
            Role::Staff => JsonV::Str("staff"@),
            Role::VerifiedArtist => JsonV::Str("verified_artist"@),
            Role::Moderator => JsonV::Str("moderator"@),
            Role::Editor => JsonV::Str("editor"@),
            Role::Mediator => JsonV::Str("mediator"@),
            Role::Contributor => JsonV::Str("contributor"@),
            Role::Transcriber => JsonV::Str("transcriber"@),
        }
    }

    fn to_json(&self) -> (r: Json) {
        match self {
            Role::Regulator => Json::Str(String::from_str("regulator")),
            Role::Staff => Json::Str(String::from_str("staff")),
            Role::VerifiedArtist => Json::Str(String::from_str("verified_artist")),
            Role::Moderator => Json::Str(String::from_str("moderator")),
            Role::Editor => Json::Str(String::from_str("editor")),
            Role::Mediator => Json::Str(String::from_str("mediator")),
            Role::Contributor => Json::Str(String::from_str("contributor")),
            Role::Transcriber => Json::Str(String::from_str("transcriber")),
        }
    }
}

} // verus!
