//! Data models for artists.

use vstd::prelude::*;

use crate::codec::{
    bag_ok, collect_extra, get_opt, get_req, opt_field, opt_shape, req_field, req_shape,
    JsonCodec, KnownKeys,
};
use crate::json::{str_eq, Json, JsonV};
use crate::models::referent::Referent;
use crate::models::user::UserCore;
use crate::models::{Text, UserInteractionMetadata};

verus! {

/// An artist response.
#[derive(Debug, PartialEq)]
pub struct ArtistResponse {
    /// Artist data.
    pub artist: Artist,
}

impl JsonCodec for ArtistResponse {
    open spec fn shape(j: JsonV, catchall: bool) -> bool {
        req_shape::<Artist>(j, "artist"@, catchall)
    }

    open spec fn fields(j: JsonV, v: Self, catchall: bool) -> bool {
        req_field::<Artist>(j, "artist"@, v.artist, catchall)
    }

    fn from_json(j: &Json, catchall: bool) -> (r: Option<Self>) {
        let artist = get_req::<Artist>(j, "artist", catchall)?;
        Some(ArtistResponse { artist })
    }
}

/// Artist data.
#[derive(Debug, PartialEq)]
pub struct Artist {
    /// Alternate names for the artist.
    pub alternate_names: Vec<String>,
    /// Text description of the artist.
    pub description: Text,
    /// Artist's Facebook name.
    pub facebook_name: Option<String>,
    /// Artist's Instagram name.
    pub instagram_name: Option<String>,
    /// Artist's Twitter name.
    pub twitter_name: Option<String>,
    /// Number of followers.
    pub followers_count: u32,
    /// Whether the artist is a translation artist.
    pub translation_artist: bool,
    /// Annotation associated with the artist description.
    pub description_annotation: Referent,
    /// User profile associated with the artist.
    pub user: Option<UserCore<UserInteractionMetadata>>,
    /// Core artist data, flattened into the same wire object.
    pub core: ArtistCore,
    /// Extra data: wire keys not otherwise modelled.
    pub extra: Vec<(String, Json)>,
}

impl KnownKeys for Artist {
    open spec fn known(k: Seq<char>) -> bool {
        ||| k == "alternate_names"@
        ||| k == "description"@
        ||| k == "facebook_name"@
        ||| k == "instagram_name"@
        ||| k == "twitter_name"@
        ||| k == "followers_count"@
        ||| k == "translation_artist"@
        ||| k == "description_annotation"@
        ||| k == "user"@
        ||| ArtistCore::known(k)
    }

    fn known_key(k: &str) -> (b: bool) {
        str_eq(k, "alternate_names") || str_eq(k, "description") || str_eq(k, "facebook_name")
            || str_eq(k, "instagram_name") || str_eq(k, "twitter_name")
            || str_eq(k, "followers_count") || str_eq(k, "translation_artist")
            || str_eq(k, "description_annotation") || str_eq(k, "user")
            || ArtistCore::known_key(k)
    }
}

impl JsonCodec for Artist {
    open spec fn shape(j: JsonV, catchall: bool) -> bool {
        &&& req_shape::<Vec<String>>(j, "alternate_names"@, catchall)
        &&& req_shape::<Text>(j, "description"@, catchall)
        &&& opt_shape::<String>(j, "facebook_name"@, catchall)
        &&& opt_shape::<String>(j, "instagram_name"@, catchall)
        &&& opt_shape::<String>(j, "twitter_name"@, catchall)
        &&& req_shape::<u32>(j, "followers_count"@, catchall)
        &&& req_shape::<bool>(j, "translation_artist"@, catchall)
        &&& req_shape::<Referent>(j, "description_annotation"@, catchall)
        &&& opt_shape::<UserCore<UserInteractionMetadata>>(j, "user"@, catchall)
        &&& ArtistCore::shape(j, false)
    }

    open spec fn fields(j: JsonV, v: Self, catchall: bool) -> bool {
        &&& req_field::<Vec<String>>(j, "alternate_names"@, v.alternate_names, catchall)
        &&& req_field::<Text>(j, "description"@, v.description, catchall)
        &&& opt_field::<String>(j, "facebook_name"@, v.facebook_name, catchall)
        &&& opt_field::<String>(j, "instagram_name"@, v.instagram_name, catchall)
        &&& opt_field::<String>(j, "twitter_name"@, v.twitter_name, catchall)
        &&& req_field::<u32>(j, "followers_count"@, v.followers_count, catchall)
        &&& req_field::<bool>(j, "translation_artist"@, v.translation_artist, catchall)
        &&& req_field::<Referent>(j, "description_annotation"@, v.description_annotation, catchall)
        &&& opt_field::<UserCore<UserInteractionMetadata>>(j, "user"@, v.user, catchall)
        &&& ArtistCore::fields(j, v.core, false)
        &&& bag_ok(j, v.extra@, catchall, |k: Seq<char>| Self::known(k))
    }

    fn from_json(j: &Json, catchall: bool) -> (r: Option<Self>) {
        let alternate_names = get_req::<Vec<String>>(j, "alternate_names", catchall)?;
        let description = get_req::<Text>(j, "description", catchall)?;
        let facebook_name = get_opt::<String>(j, "facebook_name", catchall)?;
        let instagram_name = get_opt::<String>(j, "instagram_name", catchall)?;
        let twitter_name = get_opt::<String>(j, "twitter_name", catchall)?;
        let followers_count = get_req::<u32>(j, "followers_count", catchall)?;
        let translation_artist = get_req::<bool>(j, "translation_artist", catchall)?;
        let description_annotation = get_req::<Referent>(j, "description_annotation", catchall)?;
        let user = get_opt::<UserCore<UserInteractionMetadata>>(j, "user", catchall)?;
        let core = ArtistCore::from_json(j, false)?;
        let extra = collect_extra::<Artist>(j, catchall);
        Some(
            Artist {
                alternate_names,
                description,
                facebook_name,
                instagram_name,
                twitter_name,
                followers_count,
                translation_artist,
                description_annotation,
                user,
                core,
                extra,
            },
        )
    }
}

/// Core artist data.
#[derive(Debug, Clone, PartialEq)]
pub struct ArtistCore {
    /// Artist info with no metadata, flattened into the same wire object.
    pub info: ArtistCoreNoMetadata,
    /// Current user metadata.
    pub current_user_metadata: UserInteractionMetadata,
}

impl ArtistCore {
    /// Whether a key belongs to a named field of this record or of the
    /// record flattened into it.
    pub open spec fn known(k: Seq<char>) -> bool {
        ||| k == "current_user_metadata"@
        ||| ArtistCoreNoMetadata::known(k)
    }

    /// The runtime test for [`ArtistCore::known`].
    pub fn known_key(k: &str) -> (b: bool)
        ensures
            b == Self::known(k@),
    {
        str_eq(k, "current_user_metadata") || ArtistCoreNoMetadata::known_key(k)
    }
}

impl JsonCodec for ArtistCore {
    open spec fn shape(j: JsonV, catchall: bool) -> bool {
        &&& ArtistCoreNoMetadata::shape(j, false)
        &&& req_shape::<UserInteractionMetadata>(j, "current_user_metadata"@, catchall)
    }

    open spec fn fields(j: JsonV, v: Self, catchall: bool) -> bool {
        &&& ArtistCoreNoMetadata::fields(j, v.info, false)
        &&& req_field::<UserInteractionMetadata>(
            j,
            "current_user_metadata"@,
            v.current_user_metadata,
            catchall,
        )
    }

    fn from_json(j: &Json, catchall: bool) -> (r: Option<Self>) {
        let info = ArtistCoreNoMetadata::from_json(j, false)?;
        let current_user_metadata = get_req::<UserInteractionMetadata>(
            j,
            "current_user_metadata",
            catchall,
        )?;
        Some(ArtistCore { info, current_user_metadata })
    }
}

/// Core artist data, with no current user metadata.
#[derive(Debug, Clone, PartialEq)]
pub struct ArtistCoreNoMetadata {
    /// Genius API path to this artist.
    pub api_path: String,
    /// URL for a header image.
    pub header_image_url: String,
    /// Genius ID.
    pub id: u32,
    /// Genius IQ.
    pub iq: Option<u32>,
    /// Artist image URL.
    pub image_url: String,
    /// Whether the artist is meme verified.
    pub is_meme_verified: bool,
    /// Whether the artist is verified.
    pub is_verified: bool,
    /// The artist's name.
    pub name: String,
    /// URL to the artist's Genius page.
    pub url: String,
}

impl ArtistCoreNoMetadata {
    /// Whether a key belongs to a named field of this record.
    pub open spec fn known(k: Seq<char>) -> bool {
        ||| k == "api_path"@
        ||| k == "header_image_url"@
        ||| k == "id"@
        ||| k == "iq"@
        ||| k == "image_url"@
        ||| k == "is_meme_verified"@
        ||| k == "is_verified"@
        ||| k == "name"@
        ||| k == "url"@
    }

    /// The runtime test for [`ArtistCoreNoMetadata::known`].
    pub fn known_key(k: &str) -> (b: bool)
        ensures
            b == Self::known(k@),
    {
        str_eq(k, "api_path") || str_eq(k, "header_image_url") || str_eq(k, "id")
            || str_eq(k, "iq") || str_eq(k, "image_url") || str_eq(k, "is_meme_verified")
            || str_eq(k, "is_verified") || str_eq(k, "name") || str_eq(k, "url")
    }
}

impl JsonCodec for ArtistCoreNoMetadata {
    open spec fn shape(j: JsonV, catchall: bool) -> bool {
        &&& req_shape::<String>(j, "api_path"@, catchall)
        &&& req_shape::<String>(j, "header_image_url"@, catchall)
        &&& req_shape::<u32>(j, "id"@, catchall)
        &&& opt_shape::<u32>(j, "iq"@, catchall)
        &&& req_shape::<String>(j, "image_url"@, catchall)
        &&& req_shape::<bool>(j, "is_meme_verified"@, catchall)
        &&& req_shape::<bool>(j, "is_verified"@, catchall)
        &&& req_shape::<String>(j, "name"@, catchall)
        &&& req_shape::<String>(j, "url"@, catchall)
    }

    open spec fn fields(j: JsonV, v: Self, catchall: bool) -> bool {
        &&& req_field::<String>(j, "api_path"@, v.api_path, catchall)
        &&& req_field::<String>(j, "header_image_url"@, v.header_image_url, catchall)
        &&& req_field::<u32>(j, "id"@, v.id, catchall)
        &&& opt_field::<u32>(j, "iq"@, v.iq, catchall)
        &&& req_field::<String>(j, "image_url"@, v.image_url, catchall)
        &&& req_field::<bool>(j, "is_meme_verified"@, v.is_meme_verified, catchall)
        &&& req_field::<bool>(j, "is_verified"@, v.is_verified, catchall)
        &&& req_field::<String>(j, "name"@, v.name, catchall)
        &&& req_field::<String>(j, "url"@, v.url, catchall)
    }

    fn from_json(j: &Json, catchall: bool) -> (r: Option<Self>) {
        let api_path = get_req::<String>(j, "api_path", catchall)?;
        let header_image_url = get_req::<String>(j, "header_image_url", catchall)?;
        let id = get_req::<u32>(j, "id", catchall)?;
        let iq = get_opt::<u32>(j, "iq", catchall)?;
        let image_url = get_req::<String>(j, "image_url", catchall)?;
        let is_meme_verified = get_req::<bool>(j, "is_meme_verified", catchall)?;
        let is_verified = get_req::<bool>(j, "is_verified", catchall)?;
        let name = get_req::<String>(j, "name", catchall)?;
        let url = get_req::<String>(j, "url", catchall)?;
        Some(
            ArtistCoreNoMetadata {
                api_path,
                header_image_url,
                id,
                iq,
                image_url,
                is_meme_verified,
                is_verified,
                name,
                url,
            },
        )
    }
}

} // verus!
