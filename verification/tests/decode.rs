use megamind::codec::JsonCodec;
use megamind::models::{
    AccountResponse, Action, AnnotationState, ErrorResponse, Hit, HitIndex, Media, ReferentType,
    RelationshipType, Response, Role, SearchResponse, SongResponse, Vote, WebPage,
};
use megamind::{decode_response, ClientError, Json};

fn s(text: &str) -> String {
    text.to_string()
}

#[test]
fn test_referent_type_default() {
    assert_eq!(ReferentType::default(), ReferentType::Referent);
}

// A success-shaped body decodes to the success variant.
#[test]
fn test_envelope_success_shape() {
    let body = br#"{"meta": {"status": 200}, "response": {"hits": []}}"#;
    let result = decode_response::<SearchResponse>(body, false).unwrap();
    match result {
        Response::Success { meta, response } => {
            assert_eq!(meta.status, 200);
            assert!(response.hits.is_empty());
        }
        _ => panic!("expected the success variant"),
    }
}

// An error-shaped body decodes to the structured-error variant, with a
// populated status and message: what a request for a nonexistent ID yields.
#[test]
fn test_envelope_error_shape() {
    let body = br#"{"meta": {"status": 404, "message": "Not found"}, "response": null}"#;
    let result = decode_response::<SearchResponse>(body, false).unwrap();
    match result {
        Response::Error { meta, response } => {
            assert_eq!(meta.status, 404);
            assert_eq!(meta.message, "Not found");
            assert!(response.is_none());
        }
        _ => panic!("expected the error variant"),
    }
}

#[test]
fn test_envelope_error_shape_with_payload() {
    let body = br#"{"meta": {"status": 401, "message": "No go"}, "response": {"error": "bad token"}}"#;
    let result = decode_response::<SearchResponse>(body, false).unwrap();
    match result {
        Response::Error { meta, response } => {
            assert_eq!(meta.status, 401);
            assert_eq!(response, Some(ErrorResponse { error: s("bad token") }));
        }
        _ => panic!("expected the error variant"),
    }
}

// A fallback-shaped body decodes to the third variant.
#[test]
fn test_envelope_other_shape() {
    let body = br#"{"error": "invalid_token", "error_description": "The access token is expired."}"#;
    let result = decode_response::<SearchResponse>(body, false).unwrap();
    match result {
        Response::Other { error, error_description } => {
            assert_eq!(error, "invalid_token");
            assert_eq!(error_description, "The access token is expired.");
        }
        _ => panic!("expected the fallback variant"),
    }
}

#[test]
fn test_invalid_json_is_a_decode_error() {
    let body = b"not json at all";
    let result = decode_response::<SearchResponse>(body, false);
    assert!(matches!(result, Err(ClientError::JsonError(_))));
}

#[test]
fn test_unmatched_shape_is_a_decode_error() {
    let body = br#"{"something": "else"}"#;
    let result = decode_response::<SearchResponse>(body, false);
    assert!(matches!(result, Err(ClientError::JsonError(_))));
}

#[test]
fn test_http_error_carries_message() {
    let err = ClientError::HttpError(s("connection reset"));
    assert!(matches!(err, ClientError::HttpError(m) if m == "connection reset"));
}

// A full success body for a song request: the decoded song carries the
// requested ID in its essential data.
#[test]
fn test_song_success_body() {
    let body = br#"{
        "meta": {"status": 200},
        "response": {"song": {
            "apple_music_player_url": "https://genius.com/songs/8145634/apple_music_player",
            "current_user_metadata": {
                "iq_by_action": {},
                "relationships": {},
                "permissions": [],
                "excluded_permissions": [],
                "interactions": {"following": false, "pyong": false}
            },
            "description": {"plain": "?", "html": "<p>?</p>"},
            "embed_content": "<div>embed</div>",
            "featured_video": false,
            "custom_performances": [],
            "description_annotation": {
                "annotations": [],
                "_type": "referent",
                "annotator_id": 1,
                "annotator_login": "genius",
                "api_path": "/referents/101",
                "classification": "accepted",
                "fragment": "Song Title",
                "id": 101,
                "is_description": true,
                "path": "/101/",
                "range": {"content": "Song Title"},
                "url": "https://genius.com/101",
                "verified_annotator_ids": [],
                "annotatable": {
                    "api_path": "/songs/8145634",
                    "id": 8145634,
                    "image_url": "https://images.genius.com/cover.jpg",
                    "link_title": "Song Title by Artist",
                    "title": "Song Title",
                    "type": "Song",
                    "url": "https://genius.com/song-title"
                }
            },
            "media": [{"type": "video", "provider": "youtube", "url": "https://youtu.be/x", "start": 3}],
            "producer_artists": [],
            "song_relationships": [{
                "type": "samples",
                "relationship_type": "samples",
                "url": null,
                "songs": []
            }],
            "translation_songs": [],
            "verified_annotations_by": [],
            "verified_contributors": [],
            "verified_lyrics_by": [],
            "writer_artists": [],
            "annotation_count": 1,
            "artist_names": "Artist",
            "full_title": "Song Title by Artist",
            "header_image_thumbnail_url": "https://images.genius.com/thumb.jpg",
            "header_image_url": "https://images.genius.com/header.jpg",
            "lyrics_owner_id": 42,
            "relationships_index_url": "https://genius.com/songs/8145634/relationships",
            "song_art_image_thumbnail_url": "https://images.genius.com/art_thumb.jpg",
            "song_art_image_url": "https://images.genius.com/art.jpg",
            "stats": {
                "accepted_annotations": 1,
                "contributors": 1,
                "iq_earners": 1,
                "transcribers": 1,
                "verified_annotations": 0,
                "unreviewed_annotations": 0,
                "hot": false
            },
            "title_with_featured": "Song Title",
            "featured_artists": [],
            "primary_artist": {
                "api_path": "/artists/7",
                "header_image_url": "https://images.genius.com/artist_header.jpg",
                "id": 7,
                "image_url": "https://images.genius.com/artist.jpg",
                "is_meme_verified": false,
                "is_verified": true,
                "name": "Artist",
                "url": "https://genius.com/artists/Artist"
            },
            "api_path": "/songs/8145634",
            "id": 8145634,
            "lyrics_state": "complete",
            "path": "/Artist-song-title-lyrics",
            "title": "Song Title",
            "url": "https://genius.com/Artist-song-title-lyrics"
        }}
    }"#;
    let result = decode_response::<SongResponse>(body, false).unwrap();
    match result {
        Response::Success { meta, response } => {
            assert_eq!(meta.status, 200);
            let song = response.song;
            assert_eq!(song.core.essential.id, 8145634);
            assert_eq!(song.core.essential.title, "Song Title");
            assert_eq!(song.core.lyrics_owner_id, 42);
            assert_eq!(song.core.primary_artist.name, "Artist");
            assert!(!song.core.stats.core.hot);
            assert_eq!(song.media.len(), 1);
            match &song.media[0] {
                Media::Video(v) => {
                    assert_eq!(v.provider, "youtube");
                    assert_eq!(v.start, Some(3));
                }
                _ => panic!("expected a video"),
            }
            assert_eq!(song.song_relationships.len(), 1);
            assert_eq!(
                song.song_relationships[0].relationship_type,
                RelationshipType::Samples
            );
            assert!(song.song_relationships[0].url.is_none());
        }
        _ => panic!("expected the success variant"),
    }
}

// A non-empty search result: every hit is a song hit.
#[test]
fn test_search_with_hit() {
    let body = br#"{
        "meta": {"status": 200},
        "response": {"hits": [{
            "type": "song",
            "highlights": [],
            "index": "song",
            "result": {
                "release_date_components": {"year": 2017, "month": 4, "day": null},
                "annotation_count": 3,
                "artist_names": "Artist",
                "full_title": "Song Title by Artist",
                "header_image_thumbnail_url": "https://images.genius.com/thumb.jpg",
                "header_image_url": "https://images.genius.com/header.jpg",
                "lyrics_owner_id": 42,
                "relationships_index_url": "https://genius.com/songs/8145634/relationships",
                "song_art_image_thumbnail_url": "https://images.genius.com/art_thumb.jpg",
                "song_art_image_url": "https://images.genius.com/art.jpg",
                "stats": {"unreviewed_annotations": 0, "hot": true, "pageviews": 12000},
                "title_with_featured": "Song Title",
                "featured_artists": [],
                "primary_artist": {
                    "api_path": "/artists/7",
                    "header_image_url": "https://images.genius.com/artist_header.jpg",
                    "id": 7,
                    "image_url": "https://images.genius.com/artist.jpg",
                    "is_meme_verified": false,
                    "is_verified": true,
                    "name": "Artist",
                    "url": "https://genius.com/artists/Artist"
                },
                "api_path": "/songs/8145634",
                "id": 8145634,
                "lyrics_state": "complete",
                "path": "/Artist-song-title-lyrics",
                "title": "Song Title",
                "url": "https://genius.com/Artist-song-title-lyrics"
            }
        }]}
    }"#;
    let result = decode_response::<SearchResponse>(body, false).unwrap();
    match result {
        Response::Success { response, .. } => {
            assert_eq!(response.hits.len(), 1);
            let Hit::Song(hit) = &response.hits[0];
            assert_eq!(hit.index, HitIndex::Song);
            assert!(hit.highlights.is_empty());
            let components = hit.result.release_date_components.unwrap();
            assert_eq!(components.year, 2017);
            assert_eq!(components.month, Some(4));
            assert_eq!(components.day, None);
            assert_eq!(hit.result.core.essential.id, 8145634);
            assert_eq!(hit.result.core.stats.page_views, Some(12000));
            assert_eq!(hit.result.core.stats.concurrents, None);
            assert!(hit.result.core.stats.hot);
        }
        _ => panic!("expected the success variant"),
    }
}

// The relationship type is the one enumeration with a documented fallback:
// a value outside the known set decodes to the unknown variant.
#[test]
fn test_relationship_type_fallback() {
    let known = RelationshipType::from_json(&Json::Str(s("cover_of")), false);
    assert_eq!(known, Some(RelationshipType::CoverOf));
    let unknown = RelationshipType::from_json(&Json::Str(s("quoted_by")), false);
    assert_eq!(unknown, Some(RelationshipType::Unknown));
    assert_eq!(RelationshipType::default(), RelationshipType::Unknown);
}

// The annotation state has no fallback: an unrecognized value is refused.
#[test]
fn test_annotation_state_strict() {
    let known = AnnotationState::from_json(&Json::Str(s("accepted")), false);
    assert_eq!(known, Some(AnnotationState::Accepted));
    let bogus = AnnotationState::from_json(&Json::Str(s("bogus")), false);
    assert_eq!(bogus, None);
    assert_eq!(AnnotationState::default(), AnnotationState::Verified);
}

#[test]
fn test_referent_type_accepts_any_string() {
    let usual = ReferentType::from_json(&Json::Str(s("referent")), false);
    assert_eq!(usual, Some(ReferentType::Referent));
    let degenerate = ReferentType::from_json(&Json::Str(s("whatever")), false);
    assert_eq!(degenerate, Some(ReferentType::Referent));
    let wrong_type = ReferentType::from_json(&Json::Int(3), false);
    assert_eq!(wrong_type, None);
}

#[test]
fn test_hit_index_strict() {
    assert_eq!(HitIndex::from_json(&Json::Str(s("song")), false), Some(HitIndex::Song));
    assert_eq!(HitIndex::from_json(&Json::Str(s("album")), false), None);
    assert_eq!(HitIndex::default(), HitIndex::Song);
}

#[test]
fn test_vote_decode() {
    assert_eq!(Vote::from_json(&Json::Str(s("up")), false), Some(Vote::Up));
    assert_eq!(Vote::from_json(&Json::Str(s("down")), false), Some(Vote::Down));
    assert_eq!(Vote::from_json(&Json::Str(s("sideways")), false), None);
}

#[test]
fn test_role_decode() {
    assert_eq!(Role::from_json(&Json::Str(s("verified_artist")), false), Some(Role::VerifiedArtist));
    assert_eq!(Role::from_json(&Json::Str(s("staff")), false), Some(Role::Staff));
    assert_eq!(Role::from_json(&Json::Str(s("king")), false), None);
}

// A fractional numeric literal survives decoding as its decimal text; an
// integer one is rendered in decimal.
#[test]
fn test_action_base_number_text() {
    let fractional = Json::Obj(vec![
        (s("applicable"), Json::Bool(true)),
        (s("base"), Json::Num(s("0.5"))),
        (s("multiplier"), Json::Int(2)),
    ]);
    let action = Action::from_json(&fractional, false).unwrap();
    assert_eq!(action.base, "0.5");
    assert_eq!(action.multiplier, 2);

    let integral = Json::Obj(vec![
        (s("applicable"), Json::Bool(false)),
        (s("base"), Json::Int(10)),
        (s("multiplier"), Json::Int(1)),
    ]);
    let action = Action::from_json(&integral, false).unwrap();
    assert_eq!(action.base, "10");
}

// An account body: three levels of records flattened into one object. The
// outermost record owns the catch-all bag; the flattened user keeps none.
#[test]
fn test_account_flattened_decode() {
    let body = br#"{
        "meta": {"status": 200},
        "response": {"user": {
            "stray_key": 7,
            "email": "somebody@example.com",
            "unread_groups_inbox_count": 1,
            "unread_main_activity_inbox_count": 2,
            "unread_newsfeed_inbox_count": 3,
            "unread_messages_count": 4,
            "about_me": {"plain": "Hello.", "html": "<p>Hello.</p>"},
            "custom_header_image_url": null,
            "followed_users_count": 10,
            "followers_count": 20,
            "iq_for_display": "1.2k",
            "photo_url": "https://images.genius.com/somebody.jpg",
            "roles_for_display": ["editor"],
            "stats": {
                "annotations_count": 1,
                "answers_count": 2,
                "comments_count": 3,
                "forum_posts_count": 4,
                "pyongs_count": 5,
                "questions_count": 6,
                "transcriptions_count": 7
            },
            "artist": null,
            "api_path": "/users/1421",
            "avatar": {
                "tiny": {"url": "https://images.genius.com/tiny.jpg", "bounding_box": {"width": 16, "height": 16}},
                "thumb": {"url": "https://images.genius.com/thumb.jpg", "bounding_box": {"width": 32, "height": 32}},
                "small": {"url": "https://images.genius.com/small.jpg", "bounding_box": {"width": 100, "height": 100}},
                "medium": {"url": "https://images.genius.com/medium.jpg", "bounding_box": {"width": 300, "height": 400}}
            },
            "header_image_url": "https://images.genius.com/header.jpg",
            "human_readable_role_for_display": "Editor",
            "id": 1421,
            "iq": 1200,
            "login": "somebody",
            "name": "Somebody",
            "role_for_display": "editor",
            "url": "https://genius.com/somebody",
            "current_user_metadata": {
                "features": [],
                "permissions": ["follow"],
                "excluded_permissions": [],
                "interactions": {"following": false}
            }
        }}
    }"#;
    let result = decode_response::<AccountResponse>(body, true).unwrap();
    match result {
        Response::Success { response, .. } => {
            let account = response.account;
            assert_eq!(account.email, "somebody@example.com");
            assert_eq!(account.unread_messages_count, 4);
            assert_eq!(account.user.iq_for_display, "1.2k");
            assert_eq!(account.user.roles_for_display, vec![Role::Editor]);
            assert!(account.user.artist.is_none());
            assert_eq!(account.user.core.id, 1421);
            assert_eq!(account.user.core.login, "somebody");
            assert_eq!(account.user.core.current_user_metadata.metadata.permissions.len(), 1);
            // the outermost record keeps the stray key; the flattened user
            // keeps none
            assert_eq!(account.extra.len(), 1);
            assert_eq!(account.extra[0], ("stray_key".to_string(), Json::Int(7)));
            assert!(account.user.extra.is_empty());
        }
        _ => panic!("expected the success variant"),
    }
}

fn sample_web_page() -> Json {
    Json::Obj(vec![
        (s("pacman"), Json::Str(s("waka"))),
        (s("api_path"), Json::Null),
        (s("domain"), Json::Str(s("docs.genius.com"))),
        (s("id"), Json::Int(10347)),
        (s("normalized_url"), Json::Str(s("https://docs.genius.com/"))),
        (s("share_url"), Json::Str(s("https://genius.com/web_pages/10347"))),
        (s("title"), Json::Str(s("Genius API"))),
        (s("url"), Json::Str(s("https://docs.genius.com/"))),
        (s("annotation_count"), Json::Int(3)),
        (s("blinky"), Json::Arr(vec![Json::Int(1), Json::Null])),
    ])
}

// Round trip with the catch-all extension: re-encoding a decoded web page
// keeps every original key, known fields and unanticipated ones alike, and
// decoding the re-encoded object gives the same value back.
#[test]
fn test_webpage_catchall_roundtrip() {
    let original = sample_web_page();
    let page = WebPage::from_json(&original, true).unwrap();
    assert_eq!(page.extra.len(), 2);
    assert_eq!(page.extra[0].0, "pacman");
    assert_eq!(page.extra[1].0, "blinky");
    assert_eq!(page.id, Some(10347));
    assert_eq!(page.api_path, None);

    let encoded = page.to_json();
    match &encoded {
        Json::Obj(pairs) => {
            let original_pairs = match &original {
                Json::Obj(ps) => ps,
                _ => unreachable!(),
            };
            for (key, _) in original_pairs {
                assert!(pairs.iter().any(|p| &p.0 == key), "lost key {}", key);
            }
        }
        _ => panic!("expected an object"),
    }

    let again = WebPage::from_json(&encoded, true).unwrap();
    assert_eq!(again, page);
}

// Without the catch-all extension the unanticipated keys are dropped and
// the bag stays empty: the lossy configuration.
#[test]
fn test_webpage_without_catchall_drops_unknown_keys() {
    let page = WebPage::from_json(&sample_web_page(), false).unwrap();
    assert!(page.extra.is_empty());
    assert_eq!(page.domain, "docs.genius.com");
}

// The success envelope passes the catch-all switch through to the payload.
#[test]
fn test_envelope_passes_catchall_through() {
    let body = br#"{
        "meta": {"status": 200},
        "response": {"web_page": {
            "surprise": true,
            "api_path": null,
            "domain": "docs.genius.com",
            "id": 10347,
            "normalized_url": "https://docs.genius.com/",
            "share_url": "https://genius.com/web_pages/10347",
            "title": "Genius API",
            "url": "https://docs.genius.com/",
            "annotation_count": 3
        }}
    }"#;
    let kept = decode_response::<megamind::models::WebPageResponse>(body, true).unwrap();
    match kept {
        Response::Success { response, .. } => {
            assert_eq!(response.web_page.extra.len(), 1);
            assert_eq!(response.web_page.extra[0].0, "surprise");
            assert_eq!(response.web_page.extra[0].1, Json::Bool(true));
        }
        _ => panic!("expected the success variant"),
    }
}
