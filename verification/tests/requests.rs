use megamind::{Client, ClientBuilder, ClientBuilderError, ReferentAssociation, Request, BASE_URL};

#[test]
fn test_base_url() {
    assert_eq!(BASE_URL, "https://api.genius.com");
}

#[test]
fn test_account_url() {
    let req = Request::account();
    assert_eq!(req.url(), "https://api.genius.com/account?text_format=html,plain");
}

#[test]
fn test_annotation_url() {
    let req = Request::annotation(10225840);
    assert_eq!(
        req.url(),
        "https://api.genius.com/annotations/10225840?text_format=html,plain"
    );
}

#[test]
fn test_artist_url() {
    let req = Request::artist(16775);
    assert_eq!(req.url(), "https://api.genius.com/artists/16775?text_format=html,plain");
}

#[test]
fn test_song_url() {
    let req = Request::song(8145634);
    assert_eq!(req.url(), "https://api.genius.com/songs/8145634?text_format=html,plain");
}

#[test]
fn test_user_url() {
    let req = Request::user(1421);
    assert_eq!(req.url(), "https://api.genius.com/users/1421?text_format=html,plain");
}

#[test]
fn test_search_url() {
    let req = Request::search("Kendrick Lamar");
    assert_eq!(req.url(), "https://api.genius.com/search?q=Kendrick Lamar");
    let empty = Request::search("");
    assert_eq!(empty.url(), "https://api.genius.com/search?q=");
}

#[test]
fn test_referents_all_args_url() {
    let req = Request::referents(
        Some(12),
        Some(ReferentAssociation::SongId(13440)),
        Some(5),
        Some(1),
    );
    assert_eq!(
        req.url(),
        "https://api.genius.com/referents?text_format=html,plain&created_by_id=12&song_id=13440&per_page=5&page=1"
    );
}

#[test]
fn test_referents_no_args_url() {
    let req = Request::referents(None, None, None, None);
    assert_eq!(req.url(), "https://api.genius.com/referents?text_format=html,plain");
}

#[test]
fn test_referents_song_association_emits_one_key() {
    let req = Request::referents(None, Some(ReferentAssociation::SongId(13440)), None, None);
    let keys: Vec<&str> = req.params.iter().map(|p| p.0.as_str()).collect();
    assert!(keys.contains(&"song_id"));
    assert!(!keys.contains(&"web_page_id"));
}

#[test]
fn test_referents_web_page_association_emits_one_key() {
    let req = Request::referents(None, Some(ReferentAssociation::WebPageId(10347)), None, None);
    let keys: Vec<&str> = req.params.iter().map(|p| p.0.as_str()).collect();
    assert!(keys.contains(&"web_page_id"));
    assert!(!keys.contains(&"song_id"));
}

#[test]
fn test_web_pages_all_args_url() {
    let req = Request::web_pages(
        Some("https://docs.genius.com"),
        Some("https://docs.genius.com"),
        Some("https://docs.genius.com"),
    );
    assert_eq!(
        req.url(),
        "https://api.genius.com/web_pages/lookup?raw_annotatable_url=https://docs.genius.com&canonical_url=https://docs.genius.com&og_url=https://docs.genius.com"
    );
}

#[test]
fn test_web_pages_unset_args_omitted() {
    let req = Request::web_pages(None, None, None);
    assert_eq!(req.url(), "https://api.genius.com/web_pages/lookup");
    assert!(req.params.is_empty());
    let keys: Vec<&str> = req.params.iter().map(|p| p.0.as_str()).collect();
    assert!(!keys.contains(&"raw_annotatable_url"));
    assert!(!keys.contains(&"canonical_url"));
    assert!(!keys.contains(&"og_url"));
}

#[test]
fn test_web_pages_partial_args() {
    let req = Request::web_pages(None, Some("https://foobar.com"), None);
    assert_eq!(
        req.url(),
        "https://api.genius.com/web_pages/lookup?canonical_url=https://foobar.com"
    );
}

#[test]
fn test_builder_missing_token() {
    let result = ClientBuilder::new().build();
    assert!(matches!(result, Err(ClientBuilderError::MissingAuthToken)));
}

#[test]
fn test_builder_invalid_header_token() {
    let result = ClientBuilder::new().auth_token("bad\ntoken").build();
    assert!(matches!(result, Err(ClientBuilderError::AuthHeaderValue)));
}

#[test]
fn test_builder_ok() {
    let client: Client = ClientBuilder::new().auth_token("sample-token").build().unwrap();
    assert_eq!(client.auth_header(), "Bearer sample-token");
}

#[test]
fn test_builder_default_has_no_token() {
    let result = ClientBuilder::default().build();
    assert!(matches!(result, Err(ClientBuilderError::MissingAuthToken)));
}

#[test]
fn test_decimal_rendering() {
    assert_eq!(megamind::decimal::u32_string(0), "0");
    assert_eq!(megamind::decimal::u32_string(4294967295), "4294967295");
    assert_eq!(megamind::decimal::u8_string(255), "255");
    assert_eq!(megamind::decimal::u64_string(10), "10");
    assert_eq!(megamind::decimal::i64_string(-1), "-1");
    assert_eq!(megamind::decimal::i64_string(i64::MIN), "-9223372036854775808");
    assert_eq!(megamind::decimal::i64_string(i64::MAX), "9223372036854775807");
}
