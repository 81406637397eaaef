use megamind::codec::{JsonCodec, ToJson};
use megamind::models::{
    Annotation, AnnotationState, BoundingBox, HitIndex, Metadata, MetadataWithFeatures,
    ReferentType, RejectionReason, RelationshipType, Role, Stats, Timestamps, UserCore,
    UserInteractions, Vote,
};
use megamind::Json;

fn s(text: &str) -> String {
    text.to_string()
}

fn image(url: &str, w: i64, h: i64) -> Json {
    Json::Obj(vec![
        (s("url"), Json::Str(s(url))),
        (
            s("bounding_box"),
            Json::Obj(vec![(s("width"), Json::Int(w)), (s("height"), Json::Int(h))]),
        ),
    ])
}

fn user_core_body() -> Json {
    Json::Obj(vec![
        (s("api_path"), Json::Str(s("/users/1421"))),
        (
            s("avatar"),
            Json::Obj(vec![
                (s("tiny"), image("https://images.genius.com/tiny.jpg", 16, 16)),
                (s("thumb"), image("https://images.genius.com/thumb.jpg", 32, 32)),
                (s("small"), image("https://images.genius.com/small.jpg", 100, 100)),
                (s("medium"), image("https://images.genius.com/medium.jpg", 300, 400)),
            ]),
        ),
        (s("header_image_url"), Json::Str(s("https://images.genius.com/header.jpg"))),
        (s("human_readable_role_for_display"), Json::Str(s("Staff"))),
        (s("id"), Json::Int(1421)),
        (s("iq"), Json::Int(-5)),
        (s("login"), Json::Str(s("somebody"))),
        (s("name"), Json::Str(s("Somebody"))),
        (s("role_for_display"), Json::Str(s("staff"))),
        (s("url"), Json::Str(s("https://genius.com/somebody"))),
        (
            s("current_user_metadata"),
            Json::Obj(vec![
                (s("permissions"), Json::Arr(vec![Json::Str(s("follow"))])),
                (s("excluded_permissions"), Json::Arr(vec![])),
                (s("interactions"), Json::Obj(vec![(s("following"), Json::Bool(true))])),
            ]),
        ),
    ])
}

#[test]
fn test_user_core_decode() {
    let core = UserCore::<Metadata<UserInteractions>>::from_json(&user_core_body(), false).unwrap();
    assert_eq!(core.api_path, "/users/1421");
    assert_eq!(core.avatar.medium.bounding_box, BoundingBox { width: 300, height: 400 });
    assert_eq!(core.avatar.tiny.url, "https://images.genius.com/tiny.jpg");
    assert_eq!(core.human_readable_role_for_display, Some(s("Staff")));
    assert_eq!(core.id, 1421);
    assert_eq!(core.iq, -5);
    assert_eq!(core.role_for_display, Some(Role::Staff));
    assert_eq!(core.current_user_metadata.permissions, vec![s("follow")]);
    assert!(core.current_user_metadata.excluded_permissions.is_empty());
    assert!(core.current_user_metadata.interactions.following);
}

#[test]
fn test_user_core_rejects_missing_field() {
    let mut pairs = match user_core_body() {
        Json::Obj(ps) => ps,
        _ => unreachable!(),
    };
    pairs.retain(|p| p.0 != "login");
    let body = Json::Obj(pairs);
    assert!(UserCore::<Metadata<UserInteractions>>::from_json(&body, false).is_none());
}

#[test]
fn test_user_core_rejects_mistyped_field() {
    let mut pairs = match user_core_body() {
        Json::Obj(ps) => ps,
        _ => unreachable!(),
    };
    for p in pairs.iter_mut() {
        if p.0 == "id" {
            p.1 = Json::Str(s("1421"));
        }
    }
    let body = Json::Obj(pairs);
    assert!(UserCore::<Metadata<UserInteractions>>::from_json(&body, false).is_none());
}

#[test]
fn test_rejection_reason_decode() {
    let body = Json::Obj(vec![
        (s("context_url"), Json::Str(s("https://genius.com/reasons/3"))),
        (s("display_character"), Json::Str(s("c"))),
        (s("handle"), Json::Str(s("incomplete"))),
        (s("id"), Json::Int(3)),
        (s("name"), Json::Str(s("Incomplete"))),
        (s("raw_name"), Json::Str(s("Incomplete"))),
        (s("requires_body"), Json::Bool(true)),
        (s("slug"), Json::Str(s("incomplete"))),
    ]);
    let reason = RejectionReason::from_json(&body, false).unwrap();
    assert_eq!(reason.display_character, 'c');
    assert_eq!(reason.id, 3);
    assert!(reason.requires_body);
    let mut pairs = match body {
        Json::Obj(ps) => ps,
        _ => unreachable!(),
    };
    for p in pairs.iter_mut() {
        if p.0 == "display_character" {
            p.1 = Json::Str(s("cc"));
        }
    }
    assert!(RejectionReason::from_json(&Json::Obj(pairs), false).is_none());
}

#[test]
fn test_timestamps_decode() {
    let body = Json::Obj(vec![
        (s("updated_by_human_at"), Json::Int(1670000000)),
        (s("lyrics_updated_at"), Json::Int(-61)),
    ]);
    let ts = Timestamps::from_json(&body, false).unwrap();
    assert_eq!(ts.updated_by_human_at, 1670000000);
    assert_eq!(ts.lyrics_updated_at, -61);
}

#[test]
fn test_unit_decodes_from_null_alone() {
    assert_eq!(<() as JsonCodec>::from_json(&Json::Null, false), Some(()));
    assert_eq!(<() as JsonCodec>::from_json(&Json::Bool(false), false), None);
}

#[test]
fn test_stats_decode() {
    let body = Json::Obj(vec![
        (s("annotations_count"), Json::Int(1)),
        (s("answers_count"), Json::Int(2)),
        (s("comments_count"), Json::Int(3)),
        (s("forum_posts_count"), Json::Int(4)),
        (s("pyongs_count"), Json::Int(5)),
        (s("questions_count"), Json::Int(6)),
        (s("transcriptions_count"), Json::Int(7)),
    ]);
    let stats = Stats::from_json(&body, false).unwrap();
    assert_eq!(
        stats,
        Stats {
            annotations_count: 1,
            answers_count: 2,
            comments_count: 3,
            forum_posts_count: 4,
            pyongs_count: 5,
            questions_count: 6,
            transcriptions_count: 7,
        }
    );
}

fn annotation_body() -> Json {
    Json::Obj(vec![
        (s("api_path"), Json::Str(s("/annotations/16292"))),
        (
            s("body"),
            Json::Obj(vec![
                (s("plain"), Json::Str(s("An explanation."))),
                (s("html"), Json::Str(s("<p>An explanation.</p>"))),
            ]),
        ),
        (s("comment_count"), Json::Int(4)),
        (s("community"), Json::Bool(true)),
        (s("custom_preview"), Json::Null),
        (s("has_voters"), Json::Bool(true)),
        (s("id"), Json::Int(16292)),
        (s("pinned"), Json::Bool(false)),
        (s("share_url"), Json::Str(s("https://genius.com/16292"))),
        (s("source"), Json::Null),
        (s("state"), Json::Str(s("accepted"))),
        (s("url"), Json::Str(s("https://genius.com/16292/annotation"))),
        (s("verified"), Json::Bool(false)),
        (s("votes_total"), Json::Int(-2)),
        (s("rejection_comment"), Json::Null),
        (s("cosigned_by"), Json::Arr(vec![])),
        (s("verified_by"), Json::Null),
        (
            s("authors"),
            Json::Arr(vec![Json::Obj(vec![
                (s("attribution"), Json::Int(1)),
                (s("pinned_role"), Json::Null),
                (s("user"), user_core_body()),
            ])]),
        ),
        (
            s("current_user_metadata"),
            Json::Obj(vec![
                (
                    s("iq_by_action"),
                    Json::Obj(vec![(
                        s("accept"),
                        Json::Obj(vec![(
                            s("primary"),
                            Json::Obj(vec![
                                (s("applicable"), Json::Bool(true)),
                                (s("base"), Json::Num(s("2.5"))),
                                (s("multiplier"), Json::Int(1)),
                            ]),
                        )]),
                    )]),
                ),
                (s("permissions"), Json::Arr(vec![])),
                (s("excluded_permissions"), Json::Arr(vec![Json::Str(s("cosign"))])),
                (
                    s("interactions"),
                    Json::Obj(vec![
                        (s("cosign"), Json::Bool(false)),
                        (s("pyong"), Json::Bool(false)),
                        (s("vote"), Json::Str(s("up"))),
                    ]),
                ),
            ]),
        ),
    ])
}

#[test]
fn test_annotation_decode() {
    let ann = Annotation::from_json(&annotation_body(), false).unwrap();
    assert_eq!(ann.id, 16292);
    assert_eq!(ann.state, AnnotationState::Accepted);
    assert_eq!(ann.votes_total, -2);
    assert_eq!(ann.body.plain, "An explanation.");
    assert!(ann.rejection_comment.is_none());
    assert!(ann.cosigned_by.is_empty());
    assert!(ann.verified_by.is_none());
    assert_eq!(ann.authors.len(), 1);
    assert_eq!(ann.authors[0].attribution, "1");
    assert!(ann.authors[0].pinned_role.is_none());
    assert_eq!(ann.authors[0].user.id, 1421);
    let meta = &ann.current_user_metadata;
    let accept = meta.iq_by_action.accept.as_ref().unwrap();
    assert_eq!(accept.primary.base, "2.5");
    assert!(accept.primary.applicable);
    assert!(meta.iq_by_action.reject.is_none());
    assert_eq!(meta.metadata.excluded_permissions, vec![s("cosign")]);
    assert_eq!(meta.metadata.interactions.vote, Some(Vote::Up));
    assert!(ann.extra.is_empty());
}

// An annotation state outside the closed set fails the whole decode.
#[test]
fn test_annotation_bogus_state_is_refused() {
    let mut pairs = match annotation_body() {
        Json::Obj(ps) => ps,
        _ => unreachable!(),
    };
    for p in pairs.iter_mut() {
        if p.0 == "state" {
            p.1 = Json::Str(s("bogus"));
        }
    }
    assert!(Annotation::from_json(&Json::Obj(pairs), false).is_none());
}

// A unit-typed field must be null on the wire.
#[test]
fn test_annotation_non_null_source_is_refused() {
    let mut pairs = match annotation_body() {
        Json::Obj(ps) => ps,
        _ => unreachable!(),
    };
    for p in pairs.iter_mut() {
        if p.0 == "source" {
            p.1 = Json::Str(s("somewhere"));
        }
    }
    assert!(Annotation::from_json(&Json::Obj(pairs), false).is_none());
}

// Flattening is transparent in both directions for user metadata: the keys
// of the inner metadata come back as siblings of the features block, each
// with the value the original flat object carried.
#[test]
fn test_user_metadata_flatten_roundtrip() {
    let flat = Json::Obj(vec![
        (s("interactions"), Json::Obj(vec![(s("following"), Json::Bool(true))])),
        (s("features"), Json::Arr(vec![Json::Str(s("editor"))])),
        (s("excluded_permissions"), Json::Arr(vec![])),
        (s("permissions"), Json::Arr(vec![Json::Str(s("follow"))])),
    ]);
    let meta = MetadataWithFeatures::<Metadata<UserInteractions>>::from_json(&flat, false).unwrap();
    assert_eq!(meta.features, vec![s("editor")]);
    assert!(meta.metadata.interactions.following);
    let encoded = meta.to_json();
    assert_eq!(
        encoded,
        Json::Obj(vec![
            (s("features"), Json::Arr(vec![Json::Str(s("editor"))])),
            (s("permissions"), Json::Arr(vec![Json::Str(s("follow"))])),
            (s("excluded_permissions"), Json::Arr(vec![])),
            (s("interactions"), Json::Obj(vec![(s("following"), Json::Bool(true))])),
        ])
    );
    let again =
        MetadataWithFeatures::<Metadata<UserInteractions>>::from_json(&encoded, false).unwrap();
    assert_eq!(again, meta);
}

// Encoding an enumeration value and decoding it again gives the value
// back; the unknown fallback encodes under its own name.
#[test]
fn test_enum_encode_roundtrip() {
    for state in [
        AnnotationState::Verified,
        AnnotationState::NeedsExegesis,
        AnnotationState::Accepted,
        AnnotationState::Suspect,
        AnnotationState::Rough,
        AnnotationState::Pending,
    ] {
        assert_eq!(AnnotationState::from_json(&state.to_json(), false), Some(state));
    }
    for role in [
        Role::Regulator,
        Role::Staff,
        Role::VerifiedArtist,
        Role::Moderator,
        Role::Editor,
        Role::Mediator,
        Role::Contributor,
        Role::Transcriber,
    ] {
        assert_eq!(Role::from_json(&role.to_json(), false), Some(role));
    }
    for rel in [
        RelationshipType::Samples,
        RelationshipType::CoverOf,
        RelationshipType::Translations,
        RelationshipType::Unknown,
    ] {
        assert_eq!(RelationshipType::from_json(&rel.to_json(), false), Some(rel));
    }
    assert_eq!(RelationshipType::Unknown.to_json(), Json::Str("unknown".to_string()));
    assert_eq!(Vote::Up.to_json(), Json::Str("up".to_string()));
    assert_eq!(HitIndex::Song.to_json(), Json::Str("song".to_string()));
    assert_eq!(ReferentType::Referent.to_json(), Json::Str("referent".to_string()));
}

#[test]
fn test_out_of_range_number_is_refused() {
    let body = Json::Obj(vec![
        (s("width"), Json::Int(70000)),
        (s("height"), Json::Int(0)),
    ]);
    assert!(BoundingBox::from_json(&body, false).is_none());
    let ok = Json::Obj(vec![
        (s("width"), Json::Int(65535)),
        (s("height"), Json::Int(0)),
    ]);
    assert!(BoundingBox::from_json(&ok, false).is_some());
}
