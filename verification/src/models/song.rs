//! Data models for songs.

use vstd::prelude::*;

use crate::codec::{
    bag_ok, collect_extra, get_opt, get_req, opt_field, opt_shape, req_field, req_shape,
    JsonCodec, KnownKeys, ToJson,
};
use crate::json::{jget, str_eq, Json, JsonV};
use crate::models::artist::ArtistCoreNoMetadata;
use crate::models::referent::Referent;
use crate::models::user::UserCore;
use crate::models::{SongMetadata, Text, UserInteractionMetadata};

verus! {

/// A song response.
#[derive(Debug, PartialEq)]
pub struct SongResponse {
    /// Song data.
    pub song: Song,
}

impl JsonCodec for SongResponse {
    open spec fn shape(j: JsonV, catchall: bool) -> bool {
        req_shape::<Song>(j, "song"@, catchall)
    }

    open spec fn fields(j: JsonV, v: Self, catchall: bool) -> bool {
        req_field::<Song>(j, "song"@, v.song, catchall)
    }

    fn from_json(j: &Json, catchall: bool) -> (r: Option<Self>) {
        let song = get_req::<Song>(j, "song", catchall)?;
        Some(SongResponse { song })
    }
}

/// Song data.
#[derive(Debug, PartialEq)]
pub struct Song {
    /// Apple Music ID.
    pub apple_music_id: Option<String>,
    /// Apple Music player URL.
    pub apple_music_player_url: String,
    /// Current user metadata.
    pub current_user_metadata: SongMetadata,
    /// Song description.
    pub description: Text,
    /// Embeddable content.
    pub embed_content: String,
    /// If the song has a featured video.
    pub featured_video: bool,
    /// The song's language.
    pub language: Option<String>,
    /// Reason for a lyrics placeholder.
    pub lyrics_placeholder_reason: Option<String>,
    /// Recording location.
    pub recording_location: Option<String>,
    /// Release date.
    pub release_date: Option<String>,
    /// Associated album.
    pub album: Option<Album>,
    /// Custom performances.
    pub custom_performances: Vec<Performance>,
    /// Song description as an annotation.
    pub description_annotation: Referent,
    /// User who has marked the song lyrics as complete.
    pub lyrics_marked_complete_by: Option<UserCore<UserInteractionMetadata>>,
    /// Staff who has marked the song lyrics as approved.
    pub lyrics_marked_staff_approved_by: Option<UserCore<UserInteractionMetadata>>,
    /// Associated media.
    pub media: Vec<Media>,
    /// Song producers.
    pub producer_artists: Vec<ArtistCoreNoMetadata>,
    /// Song relationships.
    pub song_relationships: Vec<SongRelationship>,
    /// Translation songs.
    pub translation_songs: Vec<TranslationSong>,
    /// Verified annotators.
    pub verified_annotations_by: Vec<UserCore<UserInteractionMetadata>>,
    /// Verified contributors.
    pub verified_contributors: Vec<Contribution>,
    /// Providers of verified lyrics.
    pub verified_lyrics_by: Vec<UserCore<UserInteractionMetadata>>,
    /// Song writers.
    pub writer_artists: Vec<ArtistCoreNoMetadata>,
    /// Core song data, flattened into the same wire object.
    pub core: SongCore<SongStats>,
    /// Extra data: wire keys not otherwise modelled.
    pub extra: Vec<(String, Json)>,
}

impl KnownKeys for Song {
    open spec fn known(k: Seq<char>) -> bool {
        ||| k == "apple_music_id"@
        ||| k == "apple_music_player_url"@
        ||| k == "current_user_metadata"@
        ||| k == "description"@
        ||| k == "embed_content"@
        ||| k == "featured_video"@
        ||| k == "language"@
        ||| k == "lyrics_placeholder_reason"@
        ||| k == "recording_location"@
        ||| k == "release_date"@
        ||| k == "album"@
        ||| k == "custom_performances"@
        ||| k == "description_annotation"@
        ||| k == "lyrics_marked_complete_by"@
        ||| k == "lyrics_marked_staff_approved_by"@
        ||| k == "media"@
        ||| k == "producer_artists"@
        ||| k == "song_relationships"@
        ||| k == "translation_songs"@
        ||| k == "verified_annotations_by"@
        ||| k == "verified_contributors"@
        ||| k == "verified_lyrics_by"@
        ||| k == "writer_artists"@
        ||| SongCore::<SongStats>::known(k)
    }

    fn known_key(k: &str) -> (b: bool) {
        str_eq(k, "apple_music_id") || str_eq(k, "apple_music_player_url")
            || str_eq(k, "current_user_metadata") || str_eq(k, "description")
            || str_eq(k, "embed_content") || str_eq(k, "featured_video")
            || str_eq(k, "language") || str_eq(k, "lyrics_placeholder_reason")
            || str_eq(k, "recording_location") || str_eq(k, "release_date")
            || str_eq(k, "album") || str_eq(k, "custom_performances")
            || str_eq(k, "description_annotation") || str_eq(k, "lyrics_marked_complete_by")
            || str_eq(k, "lyrics_marked_staff_approved_by") || str_eq(k, "media")
            || str_eq(k, "producer_artists") || str_eq(k, "song_relationships")
            || str_eq(k, "translation_songs") || str_eq(k, "verified_annotations_by")
            || str_eq(k, "verified_contributors") || str_eq(k, "verified_lyrics_by")
            || str_eq(k, "writer_artists") || SongCore::<SongStats>::known_key(k)
    }
}

impl JsonCodec for Song {
    open spec fn shape(j: JsonV, catchall: bool) -> bool {
        &&& opt_shape::<String>(j, "apple_music_id"@, catchall)
        &&& req_shape::<String>(j, "apple_music_player_url"@, catchall)
        &&& req_shape::<SongMetadata>(j, "current_user_metadata"@, catchall)
        &&& req_shape::<Text>(j, "description"@, catchall)
        &&& req_shape::<String>(j, "embed_content"@, catchall)
        &&& req_shape::<bool>(j, "featured_video"@, catchall)
        &&& opt_shape::<String>(j, "language"@, catchall)
        &&& opt_shape::<String>(j, "lyrics_placeholder_reason"@, catchall)
        &&& opt_shape::<String>(j, "recording_location"@, catchall)
        &&& opt_shape::<String>(j, "release_date"@, catchall)
        &&& opt_shape::<Album>(j, "album"@, catchall)
        &&& req_shape::<Vec<Performance>>(j, "custom_performances"@, catchall)
        &&& req_shape::<Referent>(j, "description_annotation"@, catchall)
        &&& opt_shape::<UserCore<UserInteractionMetadata>>(j, "lyrics_marked_complete_by"@, catchall)
        &&& opt_shape::<UserCore<UserInteractionMetadata>>(
            j,
            "lyrics_marked_staff_approved_by"@,
            catchall,
        )
        &&& req_shape::<Vec<Media>>(j, "media"@, catchall)
        &&& req_shape::<Vec<ArtistCoreNoMetadata>>(j, "producer_artists"@, catchall)
        &&& req_shape::<Vec<SongRelationship>>(j, "song_relationships"@, catchall)
        &&& req_shape::<Vec<TranslationSong>>(j, "translation_songs"@, catchall)
        &&& req_shape::<Vec<UserCore<UserInteractionMetadata>>>(
            j,
            "verified_annotations_by"@,
            catchall,
        )
        &&& req_shape::<Vec<Contribution>>(j, "verified_contributors"@, catchall)
        &&& req_shape::<Vec<UserCore<UserInteractionMetadata>>>(j, "verified_lyrics_by"@, catchall)
        &&& req_shape::<Vec<ArtistCoreNoMetadata>>(j, "writer_artists"@, catchall)
        &&& SongCore::<SongStats>::shape(j, false)
    }

    open spec fn fields(j: JsonV, v: Self, catchall: bool) -> bool {
        &&& opt_field::<String>(j, "apple_music_id"@, v.apple_music_id, catchall)
        &&& req_field::<String>(j, "apple_music_player_url"@, v.apple_music_player_url, catchall)
        &&& req_field::<SongMetadata>(j, "current_user_metadata"@, v.current_user_metadata, catchall)
        &&& req_field::<Text>(j, "description"@, v.description, catchall)
        &&& req_field::<String>(j, "embed_content"@, v.embed_content, catchall)
        &&& req_field::<bool>(j, "featured_video"@, v.featured_video, catchall)
        &&& opt_field::<String>(j, "language"@, v.language, catchall)
        &&& opt_field::<String>(j, "lyrics_placeholder_reason"@, v.lyrics_placeholder_reason, catchall)
        &&& opt_field::<String>(j, "recording_location"@, v.recording_location, catchall)
        &&& opt_field::<String>(j, "release_date"@, v.release_date, catchall)
        &&& opt_field::<Album>(j, "album"@, v.album, catchall)
        &&& req_field::<Vec<Performance>>(j, "custom_performances"@, v.custom_performances, catchall)
        &&& req_field::<Referent>(j, "description_annotation"@, v.description_annotation, catchall)
        &&& opt_field::<UserCore<UserInteractionMetadata>>(
            j,
            "lyrics_marked_complete_by"@,
            v.lyrics_marked_complete_by,
            catchall,
        )
        &&& opt_field::<UserCore<UserInteractionMetadata>>(
            j,
            "lyrics_marked_staff_approved_by"@,
            v.lyrics_marked_staff_approved_by,
            catchall,
        )
        &&& req_field::<Vec<Media>>(j, "media"@, v.media, catchall)
        &&& req_field::<Vec<ArtistCoreNoMetadata>>(j, "producer_artists"@, v.producer_artists, catchall)
        &&& req_field::<Vec<SongRelationship>>(j, "song_relationships"@, v.song_relationships, catchall)
        &&& req_field::<Vec<TranslationSong>>(j, "translation_songs"@, v.translation_songs, catchall)
        &&& req_field::<Vec<UserCore<UserInteractionMetadata>>>(
            j,
            "verified_annotations_by"@,
            v.verified_annotations_by,
            catchall,
        )
        &&& req_field::<Vec<Contribution>>(j, "verified_contributors"@, v.verified_contributors, catchall)
        &&& req_field::<Vec<UserCore<UserInteractionMetadata>>>(
            j,
            "verified_lyrics_by"@,
            v.verified_lyrics_by,
            catchall,
        )
        &&& req_field::<Vec<ArtistCoreNoMetadata>>(j, "writer_artists"@, v.writer_artists, catchall)
        &&& SongCore::<SongStats>::fields(j, v.core, false)
        &&& bag_ok(j, v.extra@, catchall, |k: Seq<char>| Self::known(k))
    }

    fn from_json(j: &Json, catchall: bool) -> (r: Option<Self>) {
        let apple_music_id = get_opt::<String>(j, "apple_music_id", catchall)?;
        let apple_music_player_url = get_req::<String>(j, "apple_music_player_url", catchall)?;
        let current_user_metadata = get_req::<SongMetadata>(j, "current_user_metadata", catchall)?;
        let description = get_req::<Text>(j, "description", catchall)?;
        let embed_content = get_req::<String>(j, "embed_content", catchall)?;
        let featured_video = get_req::<bool>(j, "featured_video", catchall)?;
        let language = get_opt::<String>(j, "language", catchall)?;
        let lyrics_placeholder_reason = get_opt::<String>(j, "lyrics_placeholder_reason", catchall)?;
        let recording_location = get_opt::<String>(j, "recording_location", catchall)?;
        let release_date = get_opt::<String>(j, "release_date", catchall)?;
        let album = get_opt::<Album>(j, "album", catchall)?;
        let custom_performances = get_req::<Vec<Performance>>(j, "custom_performances", catchall)?;
        let description_annotation = get_req::<Referent>(j, "description_annotation", catchall)?;
        let lyrics_marked_complete_by = get_opt::<UserCore<UserInteractionMetadata>>(
            j,
            "lyrics_marked_complete_by",
            catchall,
        )?;
        let lyrics_marked_staff_approved_by = get_opt::<UserCore<UserInteractionMetadata>>(
            j,
            "lyrics_marked_staff_approved_by",
            catchall,
        )?;
        let media = get_req::<Vec<Media>>(j, "media", catchall)?;
        let producer_artists = get_req::<Vec<ArtistCoreNoMetadata>>(j, "producer_artists", catchall)?;
        let song_relationships = get_req::<Vec<SongRelationship>>(j, "song_relationships", catchall)?;
        let translation_songs = get_req::<Vec<TranslationSong>>(j, "translation_songs", catchall)?;
        let verified_annotations_by = get_req::<Vec<UserCore<UserInteractionMetadata>>>(
            j,
            "verified_annotations_by",
            catchall,
        )?;
        let verified_contributors = get_req::<Vec<Contribution>>(j, "verified_contributors", catchall)?;
        let verified_lyrics_by = get_req::<Vec<UserCore<UserInteractionMetadata>>>(
            j,
            "verified_lyrics_by",
            catchall,
        )?;
        let writer_artists = get_req::<Vec<ArtistCoreNoMetadata>>(j, "writer_artists", catchall)?;
        let core = SongCore::<SongStats>::from_json(j, false)?;
        let extra = collect_extra::<Song>(j, catchall);
        Some(
            Song {
                apple_music_id,
                apple_music_player_url,
                current_user_metadata,
                description,
                embed_content,
                featured_video,
                language,
                lyrics_placeholder_reason,
                recording_location,
                release_date,
                album,
                custom_performances,
                description_annotation,
                lyrics_marked_complete_by,
                lyrics_marked_staff_approved_by,
                media,
                producer_artists,
                song_relationships,
                translation_songs,
                verified_annotations_by,
                verified_contributors,
                verified_lyrics_by,
                writer_artists,
                core,
                extra,
            },
        )
    }
}

/// Song media, discriminated on the wire by a `type` tag whose value is
/// `audio` or `video`; the variant's fields are siblings of the tag.
#[derive(Debug, Clone, PartialEq)]
pub enum Media {
    /// Song audio.
    Audio(Audio),
    /// Song video.
    Video(Video),
}

impl Default for Media {
    /// The default media element: empty audio.
    fn default() -> (r: Self)
        ensures
            r matches Media::Audio(a) && a.attribution is None && a.native_uri is None
                && a.provider@ == Seq::<char>::empty() && a.url@ == Seq::<char>::empty(),
    {
        Media::Audio(
            Audio {
                attribution: None,
                native_uri: None,
                provider: String::new(),
                url: String::new(),
            },
        )
    }
}

impl JsonCodec for Media {
    open spec fn shape(j: JsonV, catchall: bool) -> bool {
        ||| (jget(j, "type"@) == Some(JsonV::Str("audio"@)) && Audio::shape(j, false))
        ||| (jget(j, "type"@) == Some(JsonV::Str("video"@)) && Video::shape(j, false))
    }

    open spec fn fields(j: JsonV, v: Self, catchall: bool) -> bool {
        match v {
            Media::Audio(a) => jget(j, "type"@) == Some(JsonV::Str("audio"@)) && Audio::fields(
                j,
                a,
                false,
            ),
            Media::Video(w) => jget(j, "type"@) == Some(JsonV::Str("video"@)) && Video::fields(
                j,
                w,
                false,
            ),
        }
    }

    fn from_json(j: &Json, catchall: bool) -> (r: Option<Self>) {
        proof {
            reveal_strlit("audio");
            reveal_strlit("video");
        }
        let tag = get_req::<String>(j, "type", false)?;
        if str_eq(tag.as_str(), "audio") {
            proof {
                reveal_strlit("audio");
                reveal_strlit("video");
                assert("audio"@[0] == 'a');
                assert("video"@[0] == 'v');
                assert("audio"@ != "video"@);
            }
            let audio = Audio::from_json(j, false)?;
            Some(Media::Audio(audio))
        } else if str_eq(tag.as_str(), "video") {
            let video = Video::from_json(j, false)?;
            Some(Media::Video(video))
        } else {
            None
        }
    }
}

/// Song audio.
#[derive(Debug, Clone, PartialEq)]
pub struct Audio {
    /// The user on the provider's platform providing the audio.
    pub attribution: Option<String>,
    /// Native URI of the song in the provider's platform.
    pub native_uri: Option<String>,
    /// The audio provider platform.
    pub provider: String,
    /// URL to the audio.
    pub url: String,
}

impl JsonCodec for Audio {
    open spec fn shape(j: JsonV, catchall: bool) -> bool {
        &&& opt_shape::<String>(j, "attribution"@, catchall)
        &&& opt_shape::<String>(j, "native_uri"@, catchall)
        &&& req_shape::<String>(j, "provider"@, catchall)
        &&& req_shape::<String>(j, "url"@, catchall)
    }

    open spec fn fields(j: JsonV, v: Self, catchall: bool) -> bool {
        &&& opt_field::<String>(j, "attribution"@, v.attribution, catchall)
        &&& opt_field::<String>(j, "native_uri"@, v.native_uri, catchall)
        &&& req_field::<String>(j, "provider"@, v.provider, catchall)
        &&& req_field::<String>(j, "url"@, v.url, catchall)
    }

    fn from_json(j: &Json, catchall: bool) -> (r: Option<Self>) {
        let attribution = get_opt::<String>(j, "attribution", catchall)?;
        let native_uri = get_opt::<String>(j, "native_uri", catchall)?;
        let provider = get_req::<String>(j, "provider", catchall)?;
        let url = get_req::<String>(j, "url", catchall)?;
        Some(Audio { attribution, native_uri, provider, url })
    }
}

/// Song video.
#[derive(Debug, Clone, PartialEq)]
pub struct Video {
    /// The video provider platform.
    pub provider: String,
    /// URL to the video.
    pub url: String,
    /// The start time of the video.
    pub start: Option<u32>,
}

impl JsonCodec for Video {
    open spec fn shape(j: JsonV, catchall: bool) -> bool {
        &&& req_shape::<String>(j, "provider"@, catchall)
        &&& req_shape::<String>(j, "url"@, catchall)
        &&& opt_shape::<u32>(j, "start"@, catchall)
    }

    open spec fn fields(j: JsonV, v: Self, catchall: bool) -> bool {
        &&& req_field::<String>(j, "provider"@, v.provider, catchall)
        &&& req_field::<String>(j, "url"@, v.url, catchall)
        &&& opt_field::<u32>(j, "start"@, v.start, catchall)
    }

    fn from_json(j: &Json, catchall: bool) -> (r: Option<Self>) {
        let provider = get_req::<String>(j, "provider", catchall)?;
        let url = get_req::<String>(j, "url", catchall)?;
        let start = get_opt::<u32>(j, "start", catchall)?;
        Some(Video { provider, url, start })
    }
}

/// Song relationships.
#[derive(Debug, Clone, PartialEq)]
pub struct SongRelationship {
    /// Internal relationship type field; the wire key is `type`. Kept so
    /// that re-emitting a relationship stays consistent with the wire.
    pub rel_type: RelationshipType,
    /// The type of relationship.
    pub relationship_type: RelationshipType,
    /// URL to the page of relationships.
    pub url: Option<String>,
    /// Related songs.
    pub songs: Vec<SongCoreWithRDC<SongCoreStats>>,
}

impl JsonCodec for SongRelationship {
    open spec fn shape(j: JsonV, catchall: bool) -> bool {
        &&& req_shape::<RelationshipType>(j, "type"@, catchall)
        &&& req_shape::<RelationshipType>(j, "relationship_type"@, catchall)
        &&& opt_shape::<String>(j, "url"@, catchall)
        &&& req_shape::<Vec<SongCoreWithRDC<SongCoreStats>>>(j, "songs"@, catchall)
    }

    open spec fn fields(j: JsonV, v: Self, catchall: bool) -> bool {
        &&& req_field::<RelationshipType>(j, "type"@, v.rel_type, catchall)
        &&& req_field::<RelationshipType>(j, "relationship_type"@, v.relationship_type, catchall)
        &&& opt_field::<String>(j, "url"@, v.url, catchall)
        &&& req_field::<Vec<SongCoreWithRDC<SongCoreStats>>>(j, "songs"@, v.songs, catchall)
    }

    fn from_json(j: &Json, catchall: bool) -> (r: Option<Self>) {
        let rel_type = get_req::<RelationshipType>(j, "type", catchall)?;
        let relationship_type = get_req::<RelationshipType>(j, "relationship_type", catchall)?;
        let url = get_opt::<String>(j, "url", catchall)?;
        let songs = get_req::<Vec<SongCoreWithRDC<SongCoreStats>>>(j, "songs", catchall)?;
        Some(SongRelationship { rel_type, relationship_type, url, songs })
    }
}

/// The relationship-type wire value for one variant.
pub open spec fn relationship_name(v: RelationshipType) -> Seq<char> {
    match v {
        RelationshipType::Samples => "samples"@,
        RelationshipType::SampledIn => "sampled_in"@,
        RelationshipType::Interpolates => "interpolates"@,
        RelationshipType::InterpolatedBy => "interpolated_by"@,
        RelationshipType::CoverOf => "cover_of"@,
        RelationshipType::CoveredBy => "covered_by"@,
        RelationshipType::RemixOf => "remix_of"@,
        RelationshipType::RemixedBy => "remixed_by"@,
        RelationshipType::LiveVersionOf => "live_version_of"@,
        RelationshipType::PerformedLiveAs => "performed_live_as"@,
        RelationshipType::TranslationOf => "translation_of"@,
        RelationshipType::Translations => "translations"@,
        RelationshipType::Unknown => "unknown"@,
    }
}

/// The variant a relationship-type wire value decodes to: one of the known
/// names, or the unknown fallback for any other string.
pub open spec fn relationship_of(s: Seq<char>) -> RelationshipType {
    if s == "samples"@ {
        RelationshipType::Samples
    } else if s == "sampled_in"@ {
        RelationshipType::SampledIn
    } else if s == "interpolates"@ {
        RelationshipType::Interpolates
    } else if s == "interpolated_by"@ {
        RelationshipType::InterpolatedBy
    } else if s == "cover_of"@ {
        RelationshipType::CoverOf
    } else if s == "covered_by"@ {
        RelationshipType::CoveredBy
    } else if s == "remix_of"@ {
        RelationshipType::RemixOf
    } else if s == "remixed_by"@ {
        RelationshipType::RemixedBy
    } else if s == "live_version_of"@ {
        RelationshipType::LiveVersionOf
    } else if s == "performed_live_as"@ {
        RelationshipType::PerformedLiveAs
    } else if s == "translation_of"@ {
        RelationshipType::TranslationOf
    } else if s == "translations"@ {
        RelationshipType::Translations
    } else {
        RelationshipType::Unknown
    }
}

/// A relationship between songs.
///
/// This is the one enumeration documented with a default: a wire value
/// outside the known set decodes to the unknown fallback variant instead of
/// failing.
#[derive(Debug, Clone, Copy, PartialEq, Eq, Structural)]
pub enum RelationshipType {
    /// Samples another song.
    Samples,
    /// Sampled in another song.
    SampledIn,
    /// Interpolates another song.
    Interpolates,
    /// Interpolated by another song.
    InterpolatedBy,
    /// Cover of another song.
    CoverOf,
    /// Covered by another song.
    CoveredBy,
    /// Remix of another song.
    RemixOf,
    /// Remixed by another song.
    RemixedBy,
    /// Live version of another song.
    LiveVersionOf,
    /// Performed live as another song.
    PerformedLiveAs,
    /// Translation of another song.
    TranslationOf,
    /// Translated by another song.
    Translations,
    /// Unknown relationship.
    Unknown,
}

impl Default for RelationshipType {
    /// The default relationship type.
    fn default() -> (r: Self)
        ensures
            r == RelationshipType::Unknown,
    {
        RelationshipType::Unknown
    }
}

impl JsonCodec for RelationshipType {
    open spec fn shape(j: JsonV, catchall: bool) -> bool {
        j is Str
    }

    open spec fn fields(j: JsonV, v: Self, catchall: bool) -> bool {
        j matches JsonV::Str(s) && v == relationship_of(s)
    }

    fn from_json(j: &Json, catchall: bool) -> (r: Option<Self>) {
        match j {
            Json::Str(s) => {
                if str_eq(s.as_str(), "samples") {
                    Some(RelationshipType::Samples)
                } else if str_eq(s.as_str(), "sampled_in") {
                    Some(RelationshipType::SampledIn)
                } else if str_eq(s.as_str(), "interpolates") {
                    Some(RelationshipType::Interpolates)
                } else if str_eq(s.as_str(), "interpolated_by") {
                    Some(RelationshipType::InterpolatedBy)
                } else if str_eq(s.as_str(), "cover_of") {
                    Some(RelationshipType::CoverOf)
                } else if str_eq(s.as_str(), "covered_by") {
                    Some(RelationshipType::CoveredBy)
                } else if str_eq(s.as_str(), "remix_of") {
                    Some(RelationshipType::RemixOf)
                } else if str_eq(s.as_str(), "remixed_by") {
                    Some(RelationshipType::RemixedBy)
                } else if str_eq(s.as_str(), "live_version_of") {
                    Some(RelationshipType::LiveVersionOf)
                } else if str_eq(s.as_str(), "performed_live_as") {
                    Some(RelationshipType::PerformedLiveAs)
                } else if str_eq(s.as_str(), "translation_of") {
                    Some(RelationshipType::TranslationOf)
                } else if str_eq(s.as_str(), "translations") {
                    Some(RelationshipType::Translations)
                } else {
                    Some(RelationshipType::Unknown)
                }
            },
            _ => None,
        }
    }
}

impl ToJson for RelationshipType {
    open spec fn spec_json(v: Self) -> JsonV {
        JsonV::Str(relationship_name(v))
    }

    fn to_json(&self) -> (r: Json) {
        match self {
            RelationshipType::Samples => Json::Str(String::from_str("samples")),
            RelationshipType::SampledIn => Json::Str(String::from_str("sampled_in")),
            RelationshipType::Interpolates => Json::Str(String::from_str("interpolates")),
            RelationshipType::InterpolatedBy => Json::Str(String::from_str("interpolated_by")),
            RelationshipType::CoverOf => Json::Str(String::from_str("cover_of")),
            RelationshipType::CoveredBy => Json::Str(String::from_str("covered_by")),
            RelationshipType::RemixOf => Json::Str(String::from_str("remix_of")),
            RelationshipType::RemixedBy => Json::Str(String::from_str("remixed_by")),
            RelationshipType::LiveVersionOf => Json::Str(String::from_str("live_version_of")),
            RelationshipType::PerformedLiveAs => Json::Str(String::from_str("performed_live_as")),
            RelationshipType::TranslationOf => Json::Str(String::from_str("translation_of")),
            RelationshipType::Translations => Json::Str(String::from_str("translations")),
            RelationshipType::Unknown => Json::Str(String::from_str("unknown")),
        }
    }
}

/// Information about a contribution.
#[derive(Debug, Clone, PartialEq)]
pub struct Contribution {
    /// Contributions made.
    pub contributions: Vec<String>,
    /// Artist profile associated with the contributor.
    pub artist: ArtistCoreNoMetadata,
    /// User profile associated with the contributor.
    pub user: Option<UserCore<UserInteractionMetadata>>,
}

impl JsonCodec for Contribution {
    open spec fn shape(j: JsonV, catchall: bool) -> bool {
        &&& req_shape::<Vec<String>>(j, "contributions"@, catchall)
        &&& req_shape::<ArtistCoreNoMetadata>(j, "artist"@, catchall)
        &&& opt_shape::<UserCore<UserInteractionMetadata>>(j, "user"@, catchall)
    }

    open spec fn fields(j: JsonV, v: Self, catchall: bool) -> bool {
        &&& req_field::<Vec<String>>(j, "contributions"@, v.contributions, catchall)
        &&& req_field::<ArtistCoreNoMetadata>(j, "artist"@, v.artist, catchall)
        &&& opt_field::<UserCore<UserInteractionMetadata>>(j, "user"@, v.user, catchall)
    }

    fn from_json(j: &Json, catchall: bool) -> (r: Option<Self>) {
        let contributions = get_req::<Vec<String>>(j, "contributions", catchall)?;
        let artist = get_req::<ArtistCoreNoMetadata>(j, "artist", catchall)?;
        let user = get_opt::<UserCore<UserInteractionMetadata>>(j, "user", catchall)?;
        Some(Contribution { contributions, artist, user })
    }
}

/// Song statistics.
#[derive(Debug, Clone, Copy, PartialEq, Eq, Structural)]
pub struct SongStats {
    /// Total number of accepted annotations.
    pub accepted_annotations: u32,
    /// Total number of contributors.
    pub contributors: u32,
    /// Total number of IQ earners.
    pub iq_earners: u32,
    /// Total number of transcribers.
    pub transcribers: u32,
    /// Total number of verified annotations.
    pub verified_annotations: u32,
    /// Core statistics, flattened into the same wire object.
    pub core: SongCoreStats,
}

impl JsonCodec for SongStats {
    open spec fn shape(j: JsonV, catchall: bool) -> bool {
        &&& req_shape::<u32>(j, "accepted_annotations"@, catchall)
        &&& req_shape::<u32>(j, "contributors"@, catchall)
        &&& req_shape::<u32>(j, "iq_earners"@, catchall)
        &&& req_shape::<u32>(j, "transcribers"@, catchall)
        &&& req_shape::<u32>(j, "verified_annotations"@, catchall)
        &&& SongCoreStats::shape(j, false)
    }

    open spec fn fields(j: JsonV, v: Self, catchall: bool) -> bool {
        &&& req_field::<u32>(j, "accepted_annotations"@, v.accepted_annotations, catchall)
        &&& req_field::<u32>(j, "contributors"@, v.contributors, catchall)
        &&& req_field::<u32>(j, "iq_earners"@, v.iq_earners, catchall)
        &&& req_field::<u32>(j, "transcribers"@, v.transcribers, catchall)
        &&& req_field::<u32>(j, "verified_annotations"@, v.verified_annotations, catchall)
        &&& SongCoreStats::fields(j, v.core, false)
    }

    fn from_json(j: &Json, catchall: bool) -> (r: Option<Self>) {
        let accepted_annotations = get_req::<u32>(j, "accepted_annotations", catchall)?;
        let contributors = get_req::<u32>(j, "contributors", catchall)?;
        let iq_earners = get_req::<u32>(j, "iq_earners", catchall)?;
        let transcribers = get_req::<u32>(j, "transcribers", catchall)?;
        let verified_annotations = get_req::<u32>(j, "verified_annotations", catchall)?;
        let core = SongCoreStats::from_json(j, false)?;
        Some(
            SongStats {
                accepted_annotations,
                contributors,
                iq_earners,
                transcribers,
                verified_annotations,
                core,
            },
        )
    }
}

/// Core song statistics.
#[derive(Debug, Clone, Copy, PartialEq, Eq, Structural)]
pub struct SongCoreStats {
    /// Total number of concurrents.
    pub concurrents: Option<u16>,
    /// Total number of page views; the wire key is `pageviews`.
    pub page_views: Option<u32>,
    /// Total number of unreviewed annotations.
    pub unreviewed_annotations: u32,
    /// Whether the song is hot.
    pub hot: bool,
}

impl JsonCodec for SongCoreStats {
    open spec fn shape(j: JsonV, catchall: bool) -> bool {
        &&& opt_shape::<u16>(j, "concurrents"@, catchall)
        &&& opt_shape::<u32>(j, "pageviews"@, catchall)
        &&& req_shape::<u32>(j, "unreviewed_annotations"@, catchall)
        &&& req_shape::<bool>(j, "hot"@, catchall)
    }

    open spec fn fields(j: JsonV, v: Self, catchall: bool) -> bool {
        &&& opt_field::<u16>(j, "concurrents"@, v.concurrents, catchall)
        &&& opt_field::<u32>(j, "pageviews"@, v.page_views, catchall)
        &&& req_field::<u32>(j, "unreviewed_annotations"@, v.unreviewed_annotations, catchall)
        &&& req_field::<bool>(j, "hot"@, v.hot, catchall)
    }

    fn from_json(j: &Json, catchall: bool) -> (r: Option<Self>) {
        let concurrents = get_opt::<u16>(j, "concurrents", catchall)?;
        let page_views = get_opt::<u32>(j, "pageviews", catchall)?;
        let unreviewed_annotations = get_req::<u32>(j, "unreviewed_annotations", catchall)?;
        let hot = get_req::<bool>(j, "hot", catchall)?;
        Some(SongCoreStats { concurrents, page_views, unreviewed_annotations, hot })
    }
}

/// A custom performance.
#[derive(Debug, Clone, PartialEq)]
pub struct Performance {
    /// A descriptor of the performance.
    pub label: String,
    /// Artists associated with the performance.
    pub artists: Vec<ArtistCoreNoMetadata>,
}

impl JsonCodec for Performance {
    open spec fn shape(j: JsonV, catchall: bool) -> bool {
        &&& req_shape::<String>(j, "label"@, catchall)
        &&& req_shape::<Vec<ArtistCoreNoMetadata>>(j, "artists"@, catchall)
    }

    open spec fn fields(j: JsonV, v: Self, catchall: bool) -> bool {
        &&& req_field::<String>(j, "label"@, v.label, catchall)
        &&& req_field::<Vec<ArtistCoreNoMetadata>>(j, "artists"@, v.artists, catchall)
    }

    fn from_json(j: &Json, catchall: bool) -> (r: Option<Self>) {
        let label = get_req::<String>(j, "label", catchall)?;
        let artists = get_req::<Vec<ArtistCoreNoMetadata>>(j, "artists", catchall)?;
        Some(Performance { label, artists })
    }
}

/// An album.
#[derive(Debug, Clone, PartialEq)]
pub struct Album {
    /// Genius API path to the album.
    pub api_path: String,
    /// URL for the cover art.
    pub cover_art_url: String,
    /// Full title.
    pub full_title: String,
    /// Genius ID.
    pub id: u32,
    /// Name of the album.
    pub name: String,
    /// A display-ready release date.
    pub release_date_for_display: Option<String>,
    /// Genius URL to the album.
    pub url: String,
    /// Album's artist.
    pub artist: ArtistCoreNoMetadata,
    /// Extra data: wire keys not otherwise modelled.
    pub extra: Vec<(String, Json)>,
}

impl KnownKeys for Album {
    open spec fn known(k: Seq<char>) -> bool {
        ||| k == "api_path"@
        ||| k == "cover_art_url"@
        ||| k == "full_title"@
        ||| k == "id"@
        ||| k == "name"@
        ||| k == "release_date_for_display"@
        ||| k == "url"@
        ||| k == "artist"@
    }

    fn known_key(k: &str) -> (b: bool) {
        str_eq(k, "api_path") || str_eq(k, "cover_art_url") || str_eq(k, "full_title")
            || str_eq(k, "id") || str_eq(k, "name") || str_eq(k, "release_date_for_display")
            || str_eq(k, "url") || str_eq(k, "artist")
    }
}

impl JsonCodec for Album {
    open spec fn shape(j: JsonV, catchall: bool) -> bool {
        &&& req_shape::<String>(j, "api_path"@, catchall)
        &&& req_shape::<String>(j, "cover_art_url"@, catchall)
        &&& req_shape::<String>(j, "full_title"@, catchall)
        &&& req_shape::<u32>(j, "id"@, catchall)
        &&& req_shape::<String>(j, "name"@, catchall)
        &&& opt_shape::<String>(j, "release_date_for_display"@, catchall)
        &&& req_shape::<String>(j, "url"@, catchall)
        &&& req_shape::<ArtistCoreNoMetadata>(j, "artist"@, catchall)
    }

    open spec fn fields(j: JsonV, v: Self, catchall: bool) -> bool {
        &&& req_field::<String>(j, "api_path"@, v.api_path, catchall)
        &&& req_field::<String>(j, "cover_art_url"@, v.cover_art_url, catchall)
        &&& req_field::<String>(j, "full_title"@, v.full_title, catchall)
        &&& req_field::<u32>(j, "id"@, v.id, catchall)
        &&& req_field::<String>(j, "name"@, v.name, catchall)
        &&& opt_field::<String>(j, "release_date_for_display"@, v.release_date_for_display, catchall)
        &&& req_field::<String>(j, "url"@, v.url, catchall)
        &&& req_field::<ArtistCoreNoMetadata>(j, "artist"@, v.artist, catchall)
        &&& bag_ok(j, v.extra@, catchall, |k: Seq<char>| Self::known(k))
    }

    fn from_json(j: &Json, catchall: bool) -> (r: Option<Self>) {
        let api_path = get_req::<String>(j, "api_path", catchall)?;
        let cover_art_url = get_req::<String>(j, "cover_art_url", catchall)?;
        let full_title = get_req::<String>(j, "full_title", catchall)?;
        let id = get_req::<u32>(j, "id", catchall)?;
        let name = get_req::<String>(j, "name", catchall)?;
        let release_date_for_display = get_opt::<String>(j, "release_date_for_display", catchall)?;
        let url = get_req::<String>(j, "url", catchall)?;
        let artist = get_req::<ArtistCoreNoMetadata>(j, "artist", catchall)?;
        let extra = collect_extra::<Album>(j, catchall);
        Some(
            Album {
                api_path,
                cover_art_url,
                full_title,
                id,
                name,
                release_date_for_display,
                url,
                artist,
                extra,
            },
        )
    }
}

/// Song data with release date components.
#[derive(Debug, Clone, PartialEq)]
pub struct SongCoreWithRDC<S> {
    /// The song's release date, split into components.
    pub release_date_components: Option<DateComponents>,
    /// Core song data, flattened into the same wire object; its catch-all
    /// bag keeps this record's leftover keys.
    pub core: SongCore<S>,
}

impl<S: JsonCodec> JsonCodec for SongCoreWithRDC<S> {
    open spec fn shape(j: JsonV, catchall: bool) -> bool {
        &&& opt_shape::<DateComponents>(j, "release_date_components"@, catchall)
        &&& SongCore::<S>::shape(j, catchall)
    }

    open spec fn fields(j: JsonV, v: Self, catchall: bool) -> bool {
        &&& opt_field::<DateComponents>(j, "release_date_components"@, v.release_date_components, catchall)
        &&& SongCore::<S>::fields(j, v.core, catchall)
    }

    fn from_json(j: &Json, catchall: bool) -> (r: Option<Self>) {
        let release_date_components = get_opt::<DateComponents>(
            j,
            "release_date_components",
            catchall,
        )?;
        let core = SongCore::<S>::from_json(j, catchall)?;
        Some(SongCoreWithRDC { release_date_components, core })
    }
}

/// Core song data.
#[derive(Debug, Clone, PartialEq)]
pub struct SongCore<S> {
    /// Total number of annotations.
    pub annotation_count: u32,
    /// Artist names.
    pub artist_names: String,
    /// Full title.
    pub full_title: String,
    /// URL to the header thumbnail image.
    pub header_image_thumbnail_url: String,
    /// URL to the header image.
    pub header_image_url: String,
    /// Genius ID of the lyrics owner.
    pub lyrics_owner_id: u32,
    /// Total number of pyongs.
    pub pyongs_count: Option<u32>,
    /// URL to the page of relationships.
    pub relationships_index_url: String,
    /// Display-ready release date.
    pub release_date_for_display: Option<String>,
    /// Display-ready release date, with abbreviated month.
    pub release_date_with_abbreviated_month_for_display: Option<String>,
    /// URL to the song art thumbnail image.
    pub song_art_image_thumbnail_url: String,
    /// URL to the song art image.
    pub song_art_image_url: String,
    /// Song stats.
    pub stats: S,
    /// Title with featured artists.
    pub title_with_featured: String,
    /// Featured artists.
    pub featured_artists: Vec<ArtistCoreNoMetadata>,
    /// The song's primary artist.
    pub primary_artist: ArtistCoreNoMetadata,
    /// Essential song data, flattened into the same wire object.
    pub essential: SongEssential,
    /// Extra data: wire keys not otherwise modelled.
    pub extra: Vec<(String, Json)>,
}

impl<S> KnownKeys for SongCore<S> {
    /// Whether a key belongs to a named field of this record, of the record
    /// flattened into it, or of the release-date components of the wrapping
    /// representation.
    open spec fn known(k: Seq<char>) -> bool {
        ||| k == "annotation_count"@
        ||| k == "artist_names"@
        ||| k == "full_title"@
        ||| k == "header_image_thumbnail_url"@
        ||| k == "header_image_url"@
        ||| k == "lyrics_owner_id"@
        ||| k == "pyongs_count"@
        ||| k == "relationships_index_url"@
        ||| k == "release_date_for_display"@
        ||| k == "release_date_with_abbreviated_month_for_display"@
        ||| k == "song_art_image_thumbnail_url"@
        ||| k == "song_art_image_url"@
        ||| k == "stats"@
        ||| k == "title_with_featured"@
        ||| k == "featured_artists"@
        ||| k == "primary_artist"@
        ||| k == "release_date_components"@
        ||| SongEssential::known(k)
    }

    fn known_key(k: &str) -> (b: bool) {
        str_eq(k, "annotation_count") || str_eq(k, "artist_names") || str_eq(k, "full_title")
            || str_eq(k, "header_image_thumbnail_url") || str_eq(k, "header_image_url")
            || str_eq(k, "lyrics_owner_id") || str_eq(k, "pyongs_count")
            || str_eq(k, "relationships_index_url") || str_eq(k, "release_date_for_display")
            || str_eq(k, "release_date_with_abbreviated_month_for_display")
            || str_eq(k, "song_art_image_thumbnail_url") || str_eq(k, "song_art_image_url")
            || str_eq(k, "stats") || str_eq(k, "title_with_featured")
            || str_eq(k, "featured_artists") || str_eq(k, "primary_artist")
            || str_eq(k, "release_date_components") || SongEssential::known_key(k)
    }
}

impl<S: JsonCodec> JsonCodec for SongCore<S> {
    open spec fn shape(j: JsonV, catchall: bool) -> bool {
        &&& req_shape::<u32>(j, "annotation_count"@, catchall)
        &&& req_shape::<String>(j, "artist_names"@, catchall)
        &&& req_shape::<String>(j, "full_title"@, catchall)
        &&& req_shape::<String>(j, "header_image_thumbnail_url"@, catchall)
        &&& req_shape::<String>(j, "header_image_url"@, catchall)
        &&& req_shape::<u32>(j, "lyrics_owner_id"@, catchall)
        &&& opt_shape::<u32>(j, "pyongs_count"@, catchall)
        &&& req_shape::<String>(j, "relationships_index_url"@, catchall)
        &&& opt_shape::<String>(j, "release_date_for_display"@, catchall)
        &&& opt_shape::<String>(j, "release_date_with_abbreviated_month_for_display"@, catchall)
        &&& req_shape::<String>(j, "song_art_image_thumbnail_url"@, catchall)
        &&& req_shape::<String>(j, "song_art_image_url"@, catchall)
        &&& req_shape::<S>(j, "stats"@, catchall)
        &&& req_shape::<String>(j, "title_with_featured"@, catchall)
        &&& req_shape::<Vec<ArtistCoreNoMetadata>>(j, "featured_artists"@, catchall)
        &&& req_shape::<ArtistCoreNoMetadata>(j, "primary_artist"@, catchall)
        &&& SongEssential::shape(j, false)
    }

    open spec fn fields(j: JsonV, v: Self, catchall: bool) -> bool {
        &&& req_field::<u32>(j, "annotation_count"@, v.annotation_count, catchall)
        &&& req_field::<String>(j, "artist_names"@, v.artist_names, catchall)
        &&& req_field::<String>(j, "full_title"@, v.full_title, catchall)
        &&& req_field::<String>(j, "header_image_thumbnail_url"@, v.header_image_thumbnail_url, catchall)
        &&& req_field::<String>(j, "header_image_url"@, v.header_image_url, catchall)
        &&& req_field::<u32>(j, "lyrics_owner_id"@, v.lyrics_owner_id, catchall)
        &&& opt_field::<u32>(j, "pyongs_count"@, v.pyongs_count, catchall)
        &&& req_field::<String>(j, "relationships_index_url"@, v.relationships_index_url, catchall)
        &&& opt_field::<String>(j, "release_date_for_display"@, v.release_date_for_display, catchall)
        &&& opt_field::<String>(
            j,
            "release_date_with_abbreviated_month_for_display"@,
            v.release_date_with_abbreviated_month_for_display,
            catchall,
        )
        &&& req_field::<String>(j, "song_art_image_thumbnail_url"@, v.song_art_image_thumbnail_url, catchall)
        &&& req_field::<String>(j, "song_art_image_url"@, v.song_art_image_url, catchall)
        &&& req_field::<S>(j, "stats"@, v.stats, catchall)
        &&& req_field::<String>(j, "title_with_featured"@, v.title_with_featured, catchall)
        &&& req_field::<Vec<ArtistCoreNoMetadata>>(j, "featured_artists"@, v.featured_artists, catchall)
        &&& req_field::<ArtistCoreNoMetadata>(j, "primary_artist"@, v.primary_artist, catchall)
        &&& SongEssential::fields(j, v.essential, false)
        &&& bag_ok(j, v.extra@, catchall, |k: Seq<char>| SongCore::<S>::known(k))
    }

    fn from_json(j: &Json, catchall: bool) -> (r: Option<Self>) {
        let annotation_count = get_req::<u32>(j, "annotation_count", catchall)?;
        let artist_names = get_req::<String>(j, "artist_names", catchall)?;
        let full_title = get_req::<String>(j, "full_title", catchall)?;
        let header_image_thumbnail_url = get_req::<String>(j, "header_image_thumbnail_url", catchall)?;
        let header_image_url = get_req::<String>(j, "header_image_url", catchall)?;
        let lyrics_owner_id = get_req::<u32>(j, "lyrics_owner_id", catchall)?;
        let pyongs_count = get_opt::<u32>(j, "pyongs_count", catchall)?;
        let relationships_index_url = get_req::<String>(j, "relationships_index_url", catchall)?;
        let release_date_for_display = get_opt::<String>(j, "release_date_for_display", catchall)?;
        let release_date_with_abbreviated_month_for_display = get_opt::<String>(
            j,
            "release_date_with_abbreviated_month_for_display",
            catchall,
        )?;
        let song_art_image_thumbnail_url = get_req::<String>(
            j,
            "song_art_image_thumbnail_url",
            catchall,
        )?;
        let song_art_image_url = get_req::<String>(j, "song_art_image_url", catchall)?;
        let stats = get_req::<S>(j, "stats", catchall)?;
        let title_with_featured = get_req::<String>(j, "title_with_featured", catchall)?;
        let featured_artists = get_req::<Vec<ArtistCoreNoMetadata>>(j, "featured_artists", catchall)?;
        let primary_artist = get_req::<ArtistCoreNoMetadata>(j, "primary_artist", catchall)?;
        let essential = SongEssential::from_json(j, false)?;
        let extra = collect_extra::<SongCore<S>>(j, catchall);
        Some(
            SongCore {
                annotation_count,
                artist_names,
                full_title,
                header_image_thumbnail_url,
                header_image_url,
                lyrics_owner_id,
                pyongs_count,
                relationships_index_url,
                release_date_for_display,
                release_date_with_abbreviated_month_for_display,
                song_art_image_thumbnail_url,
                song_art_image_url,
                stats,
                title_with_featured,
                featured_artists,
                primary_artist,
                essential,
                extra,
            },
        )
    }
}

/// A date by its components.
#[derive(Debug, Clone, Copy, PartialEq, Eq, Structural)]
pub struct DateComponents {
    /// The year.
    pub year: u16,
    /// The month.
    pub month: Option<u8>,
    /// The day.
    pub day: Option<u8>,
}

impl JsonCodec for DateComponents {
    open spec fn shape(j: JsonV, catchall: bool) -> bool {
        &&& req_shape::<u16>(j, "year"@, catchall)
        &&& opt_shape::<u8>(j, "month"@, catchall)
        &&& opt_shape::<u8>(j, "day"@, catchall)
    }

    open spec fn fields(j: JsonV, v: Self, catchall: bool) -> bool {
        &&& req_field::<u16>(j, "year"@, v.year, catchall)
        &&& opt_field::<u8>(j, "month"@, v.month, catchall)
        &&& opt_field::<u8>(j, "day"@, v.day, catchall)
    }

    fn from_json(j: &Json, catchall: bool) -> (r: Option<Self>) {
        let year = get_req::<u16>(j, "year", catchall)?;
        let month = get_opt::<u8>(j, "month", catchall)?;
        let day = get_opt::<u8>(j, "day", catchall)?;
        Some(DateComponents { year, month, day })
    }
}

/// A translation song.
#[derive(Debug, Clone, PartialEq)]
pub struct TranslationSong {
    /// The language of the translation song.
    pub language: Option<String>,
    /// Essential song data, flattened into the same wire object.
    pub essential: SongEssential,
}

impl JsonCodec for TranslationSong {
    open spec fn shape(j: JsonV, catchall: bool) -> bool {
        &&& opt_shape::<String>(j, "language"@, catchall)
        &&& SongEssential::shape(j, false)
    }

    open spec fn fields(j: JsonV, v: Self, catchall: bool) -> bool {
        &&& opt_field::<String>(j, "language"@, v.language, catchall)
        &&& SongEssential::fields(j, v.essential, false)
    }

    fn from_json(j: &Json, catchall: bool) -> (r: Option<Self>) {
        let language = get_opt::<String>(j, "language", catchall)?;
        let essential = SongEssential::from_json(j, false)?;
        Some(TranslationSong { language, essential })
    }
}

/// Essential song data.
#[derive(Debug, Clone, PartialEq)]
pub struct SongEssential {
    /// Genius API path to the song.
    pub api_path: String,
    /// Genius ID.
    pub id: u32,
    /// State of the lyrics.
    pub lyrics_state: String,
    /// Genius path to the song.
    pub path: String,
    /// Song title.
    pub title: String,
    /// Genius URL to the song.
    pub url: String,
}

impl SongEssential {
    /// Whether a key belongs to a named field of this record.
    pub open spec fn known(k: Seq<char>) -> bool {
        ||| k == "api_path"@
        ||| k == "id"@
        ||| k == "lyrics_state"@
        ||| k == "path"@
        ||| k == "title"@
        ||| k == "url"@
    }

    /// The runtime test for [`SongEssential::known`].
    pub fn known_key(k: &str) -> (b: bool)
        ensures
            b == Self::known(k@),
    {
        str_eq(k, "api_path") || str_eq(k, "id") || str_eq(k, "lyrics_state")
            || str_eq(k, "path") || str_eq(k, "title") || str_eq(k, "url")
    }
}

impl JsonCodec for SongEssential {
    open spec fn shape(j: JsonV, catchall: bool) -> bool {
        &&& req_shape::<String>(j, "api_path"@, catchall)
        &&& req_shape::<u32>(j, "id"@, catchall)
        &&& req_shape::<String>(j, "lyrics_state"@, catchall)
        &&& req_shape::<String>(j, "path"@, catchall)
        &&& req_shape::<String>(j, "title"@, catchall)
        &&& req_shape::<String>(j, "url"@, catchall)
    }

    open spec fn fields(j: JsonV, v: Self, catchall: bool) -> bool {
        &&& req_field::<String>(j, "api_path"@, v.api_path, catchall)
        &&& req_field::<u32>(j, "id"@, v.id, catchall)
        &&& req_field::<String>(j, "lyrics_state"@, v.lyrics_state, catchall)
        &&& req_field::<String>(j, "path"@, v.path, catchall)
        &&& req_field::<String>(j, "title"@, v.title, catchall)
        &&& req_field::<String>(j, "url"@, v.url, catchall)
    }

    fn from_json(j: &Json, catchall: bool) -> (r: Option<Self>) {
        let api_path = get_req::<String>(j, "api_path", catchall)?;
        let id = get_req::<u32>(j, "id", catchall)?;
        let lyrics_state = get_req::<String>(j, "lyrics_state", catchall)?;
        let path = get_req::<String>(j, "path", catchall)?;
        let title = get_req::<String>(j, "title", catchall)?;
        let url = get_req::<String>(j, "url", catchall)?;
        Some(SongEssential { api_path, id, lyrics_state, path, title, url })
    }
}

} // verus!
