//! The client surface: request construction and response decoding.
//!
//! Each endpoint operation does nothing but turn typed arguments into a
//! relative path and an ordered query parameter list ([`Request`]); unset
//! optional arguments are omitted from the query entirely. The HTTP
//! transport performs the round trip and hands the buffered body back to
//! [`decode_response`], which parses it against the three-shape envelope
//! union. Escaping beyond what the transport's query encoder performs is
//! the caller's responsibility, as is attaching the bearer credential that
//! [`Client`] carries.

use vstd::prelude::*;
use vstd::string::{StrSliceExecFns, StringExecFns};

use crate::codec::JsonCodec;
use crate::decimal::{dec_str, u32_string, u8_string};
use crate::models::Response;
use crate::wire::{json_of, parse_json};

verus! {

/// The base URL for the API.
pub const BASE_URL: &'static str = "https://api.genius.com";

/// Client errors: the local faults of one call. Errors documented by the
/// API are not here; they arrive as data in the response envelope.
#[derive(Debug, PartialEq)]
pub enum ClientError {
    /// An error in sending or receiving over HTTP, carried as the
    /// transport's message.
    HttpError(String),
    /// An error in parsing an HTTP response body: invalid JSON, or valid
    /// JSON matching none of the three envelope shapes.
    JsonError(String),
}

/// Decode one buffered response body against the three-shape envelope
/// union. The transport's status code plays no part: the union is
/// discriminated purely by body shape.
pub fn decode_response<T: JsonCodec>(body: &[u8], catchall: bool) -> (r: Result<
    Response<T>,
    ClientError,
>)
    ensures
        json_of(body@) is None ==> (r matches Err(e) && e is JsonError),
        json_of(body@) matches Some(j) ==> match r {
            Ok(v) => Response::<T>::decodes(j, v, catchall),
            Err(e) => {
                &&& e is JsonError
                &&& !Response::<T>::success_shape(j, catchall)
                &&& !Response::<T>::error_shape(j)
                &&& !Response::<T>::other_shape(j)
            },
        },
{
    let parsed = match parse_json(body) {
        Ok(j) => j,
        Err(m) => {
            return Err(ClientError::JsonError(m));
        },
    };
    match Response::<T>::from_json(&parsed, catchall) {
        Some(v) => Ok(v),
        None => Err(ClientError::JsonError(String::from_str("body matches no response shape"))),
    }
}

/// A web page or song ID that is associated with a referent.
#[derive(Debug, Clone, Copy, PartialEq, Eq, Structural)]
pub enum ReferentAssociation {
    /// A song via Genius ID.
    SongId(u32),
    /// A web page via Genius ID.
    WebPageId(u32),
}

/// The abstraction of an executable parameter list.
pub open spec fn params_view(ps: Seq<(String, String)>) -> Seq<(Seq<char>, Seq<char>)> {
    Seq::new(
        ps.len(),
        |i: int|
            if 0 <= i < ps.len() {
                (ps[i].0@, ps[i].1@)
            } else {
                (Seq::empty(), Seq::empty())
            },
    )
}

/// Whether a parameter list carries a key.
pub open spec fn contains_param_key(ps: Seq<(Seq<char>, Seq<char>)>, k: Seq<char>) -> bool {
    exists|i: int| 0 <= i < ps.len() && ps[i].0 == k
}

/// The one fixed parameter of the endpoints that carry HTML-bearing fields.
pub open spec fn text_format_params() -> Seq<(Seq<char>, Seq<char>)> {
    seq![("text_format"@, "html,plain"@)]
}

/// The parameters of a search request.
pub open spec fn search_params(q: Seq<char>) -> Seq<(Seq<char>, Seq<char>)> {
    seq![("q"@, q)]
}

/// The parameters of a referents request: the fixed text format, then each
/// supplied optional argument under its key, in a fixed order. The two
/// association kinds are mutually exclusive by construction: only one of
/// the two association keys is ever emitted.
pub open spec fn referents_params(
    created_by: Option<u32>,
    associated: Option<ReferentAssociation>,
    per_page: Option<u8>,
    page: Option<u8>,
) -> Seq<(Seq<char>, Seq<char>)> {
    let q0 = text_format_params();
    let q1 = match created_by {
        Option::Some(id) => q0.push(("created_by_id"@, dec_str(id as nat))),
        Option::None => q0,
    };
    let q2 = match associated {
        Option::Some(ReferentAssociation::SongId(id)) => q1.push(("song_id"@, dec_str(id as nat))),
        Option::Some(ReferentAssociation::WebPageId(id)) => q1.push(
            ("web_page_id"@, dec_str(id as nat)),
        ),
        Option::None => q1,
    };
    let q3 = match per_page {
        Option::Some(pp) => q2.push(("per_page"@, dec_str(pp as nat))),
        Option::None => q2,
    };
    match page {
        Option::Some(p) => q3.push(("page"@, dec_str(p as nat))),
        Option::None => q3,
    }
}

/// The view of an optional string argument.
pub open spec fn opt_view(o: Option<&str>) -> Option<Seq<char>> {
    match o {
        Option::Some(s) => Option::Some(s@),
        Option::None => Option::None,
    }
}

/// The parameters of a web page lookup: each supplied optional URL under
/// its key, in a fixed order; an unset argument emits no key at all.
pub open spec fn web_pages_params(
    raw_annotatable_url: Option<Seq<char>>,
    canonical_url: Option<Seq<char>>,
    og_url: Option<Seq<char>>,
) -> Seq<(Seq<char>, Seq<char>)> {
    let q0 = Seq::<(Seq<char>, Seq<char>)>::empty();
    let q1 = match raw_annotatable_url {
        Option::Some(u) => q0.push(("raw_annotatable_url"@, u)),
        Option::None => q0,
    };
    let q2 = match canonical_url {
        Option::Some(u) => q1.push(("canonical_url"@, u)),
        Option::None => q1,
    };
    match og_url {
        Option::Some(u) => q2.push(("og_url"@, u)),
        Option::None => q2,
    }
}

/// The flattened query string: `k=v` pairs joined by `&`.
pub open spec fn query_string(ps: Seq<(Seq<char>, Seq<char>)>) -> Seq<char>
    decreases ps.len(),
{
    if ps.len() == 0 {
        Seq::empty()
    } else if ps.len() == 1 {
        ps[0].0 + "="@ + ps[0].1
    } else {
        query_string(ps.drop_last()) + "&"@ + ps.last().0 + "="@ + ps.last().1
    }
}

/// The full URL of a request: base origin, path, and the query string after
/// a separator when there are parameters.
pub open spec fn url_of(path: Seq<char>, ps: Seq<(Seq<char>, Seq<char>)>) -> Seq<char> {
    if ps.len() == 0 {
        "https://api.genius.com"@ + path
    } else {
        "https://api.genius.com"@ + path + "?"@ + query_string(ps)
    }
}

/// One prepared API request: a relative endpoint path (beginning with a
/// separator) and its query parameters, in the order they are sent.
#[derive(Debug, Clone, PartialEq)]
pub struct Request {
    /// The relative endpoint path.
    pub path: String,
    /// The ordered query parameters.
    pub params: Vec<(String, String)>,
}

impl Request {
    /// The request for the account info of the currently authed user.
    pub fn account() -> (r: Request)
        ensures
            r.path@ == "/account"@,
            params_view(r.params@) == text_format_params(),
    {
        let path = String::from_str("/account");
        let mut params: Vec<(String, String)> = Vec::new();
        params.push((String::from_str("text_format"), String::from_str("html,plain")));
        proof {
            assert(params_view(params@) =~= text_format_params());
        }
        Request { path, params }
    }

    /// The request for an annotation by Genius ID.
    pub fn annotation(id: u32) -> (r: Request)
        ensures
            r.path@ == "/annotations/"@ + dec_str(id as nat),
            params_view(r.params@) == text_format_params(),
    {
        let mut path = String::from_str("/annotations/");
        path.append(u32_string(id).as_str());
        let mut params: Vec<(String, String)> = Vec::new();
        params.push((String::from_str("text_format"), String::from_str("html,plain")));
        proof {
            assert(params_view(params@) =~= text_format_params());
        }
        Request { path, params }
    }

    /// The request for an artist by Genius ID.
    pub fn artist(id: u32) -> (r: Request)
        ensures
            r.path@ == "/artists/"@ + dec_str(id as nat),
            params_view(r.params@) == text_format_params(),
    {
        let mut path = String::from_str("/artists/");
        path.append(u32_string(id).as_str());
        let mut params: Vec<(String, String)> = Vec::new();
        params.push((String::from_str("text_format"), String::from_str("html,plain")));
        proof {
            assert(params_view(params@) =~= text_format_params());
        }
        Request { path, params }
    }

    /// The request for referents: every optional argument that is unset is
    /// omitted from the query entirely, and an association contributes
    /// exactly one of the two association keys.
    pub fn referents(
        created_by: Option<u32>,
        associated: Option<ReferentAssociation>,
        per_page: Option<u8>,
        page: Option<u8>,
    ) -> (r: Request)
        ensures
            r.path@ == "/referents"@,
            params_view(r.params@) == referents_params(created_by, associated, per_page, page),
    {
        let path = String::from_str("/referents");
        let mut params: Vec<(String, String)> = Vec::new();
        params.push((String::from_str("text_format"), String::from_str("html,plain")));
        if let Some(id) = created_by {
            params.push((String::from_str("created_by_id"), u32_string(id)));
        }
        if let Some(association) = associated {
            match association {
                ReferentAssociation::SongId(id) => {
                    params.push((String::from_str("song_id"), u32_string(id)));
                },
                ReferentAssociation::WebPageId(id) => {
                    params.push((String::from_str("web_page_id"), u32_string(id)));
                },
            }
        }
        if let Some(pp) = per_page {
            params.push((String::from_str("per_page"), u8_string(pp)));
        }
        if let Some(p) = page {
            params.push((String::from_str("page"), u8_string(p)));
        }
        proof {
            assert(params_view(params@) =~= referents_params(
                created_by,
                associated,
                per_page,
                page,
            ));
        }
        Request { path, params }
    }

    /// The request for search results matching a term.
    pub fn search(query: &str) -> (r: Request)
        ensures
            r.path@ == "/search"@,
            params_view(r.params@) == search_params(query@),
    {
        let path = String::from_str("/search");
        let mut params: Vec<(String, String)> = Vec::new();
        params.push((String::from_str("q"), query.to_owned()));
        proof {
            assert(params_view(params@) =~= search_params(query@));
        }
        Request { path, params }
    }

    /// The request for a song by Genius ID.
    pub fn song(id: u32) -> (r: Request)
        ensures
            r.path@ == "/songs/"@ + dec_str(id as nat),
            params_view(r.params@) == text_format_params(),
    {
        let mut path = String::from_str("/songs/");
        path.append(u32_string(id).as_str());
        let mut params: Vec<(String, String)> = Vec::new();
        params.push((String::from_str("text_format"), String::from_str("html,plain")));
        proof {
            assert(params_view(params@) =~= text_format_params());
        }
        Request { path, params }
    }

    /// The request for a user by Genius ID.
    pub fn user(id: u32) -> (r: Request)
        ensures
            r.path@ == "/users/"@ + dec_str(id as nat),
            params_view(r.params@) == text_format_params(),
    {
        let mut path = String::from_str("/users/");
        path.append(u32_string(id).as_str());
        let mut params: Vec<(String, String)> = Vec::new();
        params.push((String::from_str("text_format"), String::from_str("html,plain")));
        proof {
            assert(params_view(params@) =~= text_format_params());
        }
        Request { path, params }
    }

    /// The request for a web page lookup: each unset URL argument is
    /// omitted from the query entirely.
    pub fn web_pages(
        raw_annotatable_url: Option<&str>,
        canonical_url: Option<&str>,
        og_url: Option<&str>,
    ) -> (r: Request)
        ensures
            r.path@ == "/web_pages/lookup"@,
            params_view(r.params@) == web_pages_params(
                opt_view(raw_annotatable_url),
                opt_view(canonical_url),
                opt_view(og_url),
            ),
    {
        let path = String::from_str("/web_pages/lookup");
        let mut params: Vec<(String, String)> = Vec::new();
        if let Some(u) = raw_annotatable_url {
            params.push((String::from_str("raw_annotatable_url"), u.to_owned()));
        }
        if let Some(u) = canonical_url {
            params.push((String::from_str("canonical_url"), u.to_owned()));
        }
        if let Some(u) = og_url {
            params.push((String::from_str("og_url"), u.to_owned()));
        }
        proof {
            assert(params_view(params@) =~= web_pages_params(
                opt_view(raw_annotatable_url),
                opt_view(canonical_url),
                opt_view(og_url),
            ));
        }
        Request { path, params }
    }

    /// The full URL of this request, with the flattened query string; no
    /// escaping is applied here.
    pub fn url(&self) -> (u: String)
        ensures
            u@ == url_of(self.path@, params_view(self.params@)),
    {
        let ghost pv = params_view(self.params@);
        let mut u = String::from_str(BASE_URL);
        u.append(self.path.as_str());
        if self.params.len() > 0 {
            u.append("?");
            let ghost prefix = u@;
            let mut i: usize = 0;
            while i < self.params.len()
                invariant
                    pv == params_view(self.params@),
                    pv.len() == self.params@.len(),
                    0 < self.params@.len(),
                    i <= self.params@.len(),
                    u@ == prefix + query_string(pv.take(i as int)),
                decreases self.params@.len() - i,
            {
                if i > 0 {
                    u.append("&");
                }
                u.append(self.params[i].0.as_str());
                u.append("=");
                u.append(self.params[i].1.as_str());
                proof {
                    let shorter = pv.take(i as int);
                    let longer = pv.take(i as int + 1);
                    assert(longer.drop_last() =~= shorter);
                    assert(longer.last() == pv[i as int]);
                    if i == 0 {
                        assert(query_string(longer) =~= pv[0].0 + "="@ + pv[0].1);
                    }
                    assert(u@ =~= prefix + query_string(longer));
                }
                i = i + 1;
            }
            proof {
                assert(pv.take(self.params@.len() as int) =~= pv);
                assert(u@ =~= url_of(self.path@, pv));
            }
        } else {
            proof {
                assert(u@ =~= url_of(self.path@, pv));
            }
        }
        u
    }
}

/// For the referents lookup, the two association kinds are mutually
/// exclusive by type: whatever the arguments, a constructed request never
/// carries both a `song_id` and a `web_page_id` query key.
pub proof fn lemma_referents_single_association(
    created_by: Option<u32>,
    associated: Option<ReferentAssociation>,
    per_page: Option<u8>,
    page: Option<u8>,
)
    ensures
        !(contains_param_key(
            referents_params(created_by, associated, per_page, page),
            "song_id"@,
        ) && contains_param_key(
            referents_params(created_by, associated, per_page, page),
            "web_page_id"@,
        )),
{
    let ps = referents_params(created_by, associated, per_page, page);
    reveal_strlit("text_format");
    reveal_strlit("created_by_id");
    reveal_strlit("song_id");
    reveal_strlit("web_page_id");
    reveal_strlit("per_page");
    reveal_strlit("page");
    assert("text_format"@.len() == 11);
    assert("created_by_id"@.len() == 13);
    assert("song_id"@.len() == 7);
    assert("web_page_id"@.len() == 11);
    assert("per_page"@.len() == 8);
    assert("page"@.len() == 4);
    assert("text_format"@[0] == 't');
    assert("web_page_id"@[0] == 'w');
    if !(associated matches Some(a) && a is SongId) {
        assert forall|i: int| 0 <= i < ps.len() implies ps[i].0 != "song_id"@ by {
            assert("text_format"@ != "song_id"@);
            assert("created_by_id"@ != "song_id"@);
            assert("web_page_id"@ != "song_id"@);
            assert("per_page"@ != "song_id"@);
            assert("page"@ != "song_id"@);
        }
        assert(!contains_param_key(ps, "song_id"@));
    }
    if !(associated matches Some(a) && a is WebPageId) {
        assert forall|i: int| 0 <= i < ps.len() implies ps[i].0 != "web_page_id"@ by {
            assert("text_format"@ != "web_page_id"@);
            assert("created_by_id"@ != "web_page_id"@);
            assert("song_id"@ != "web_page_id"@);
            assert("per_page"@ != "web_page_id"@);
            assert("page"@ != "web_page_id"@);
        }
        assert(!contains_param_key(ps, "web_page_id"@));
    }
}

/// When all three URL arguments of the web page lookup are unset, the
/// emitted parameter list is empty: no key appears in the query at all.
pub proof fn lemma_web_pages_unset_omitted()
    ensures
        web_pages_params(None, None, None).len() == 0,
        forall|k: Seq<char>| !contains_param_key(web_pages_params(None, None, None), k),
{
}

/// Whether a character may stand in an HTTP header value: horizontal tab,
/// or any character whose value is at least 32 and is not delete.
pub open spec fn header_char_ok(c: char) -> bool {
    (c as u32) == 9 || ((c as u32) >= 32 && (c as u32) != 127)
}

/// Whether a string may stand in an HTTP header value.
pub open spec fn header_value_ok(s: Seq<char>) -> bool {
    forall|i: int| 0 <= i < s.len() ==> header_char_ok(#[trigger] s[i])
}

/// The runtime test for [`header_value_ok`].
fn check_header_value(s: &str) -> (b: bool)
    ensures
        b == header_value_ok(s@),
{
    let n = s.unicode_len();
    let mut i: usize = 0;
    while i < n
        invariant
            n == s@.len(),
            i <= n,
            forall|m: int| 0 <= m < i ==> header_char_ok(#[trigger] s@[m]),
        decreases n - i,
    {
        let c = s.get_char(i);
        let cv = c as u32;
        if !(cv == 9 || (cv >= 32 && cv != 127)) {
            return false;
        }
        i = i + 1;
    }
    true
}

/// Errors that can occur during [`ClientBuilder::build`].
#[derive(Debug, PartialEq)]
pub enum ClientBuilderError {
    /// Missing auth token.
    MissingAuthToken,
    /// The underlying transport client could not be constructed; carried as
    /// the transport's message.
    ReqwestBuilder(String),
    /// Invalid value for the authorization header: the token holds a
    /// character that no header value may carry.
    AuthHeaderValue,
}

/// An API client: the bearer credential, validated at build time. The
/// transport duplicates this freely; the credential is immutable after
/// construction.
#[derive(Debug, Clone, PartialEq)]
pub struct Client {
    auth_token: String,
}

impl Client {
    /// The credential this client was built with.
    pub closed spec fn token(&self) -> Seq<char> {
        self.auth_token@
    }

    /// The value of the authorization header attached to every request.
    pub fn auth_header(&self) -> (h: String)
        ensures
            h@ == "Bearer "@ + self.token(),
    {
        let mut h = String::from_str("Bearer ");
        h.append(self.auth_token.as_str());
        h
    }
}

/// Builder for [`Client`]s.
#[derive(Debug, Clone)]
pub struct ClientBuilder {
    auth_token: Option<String>,
}

impl Default for ClientBuilder {
    /// A builder with no auth token set.
    fn default() -> (r: Self)
        ensures
            r.spec_token() is None,
    {
        ClientBuilder { auth_token: None }
    }
}

impl ClientBuilder {
    /// The token this builder carries, if one was set.
    pub closed spec fn spec_token(&self) -> Option<Seq<char>> {
        match self.auth_token {
            Option::Some(t) => Option::Some(t@),
            Option::None => Option::None,
        }
    }

    /// Create a new [`ClientBuilder`] with no auth token set.
    pub fn new() -> (r: Self)
        ensures
            r.spec_token() is None,
    {
        ClientBuilder { auth_token: None }
    }

    /// Set the auth token. This does not validate the token's characters;
    /// [`ClientBuilder::build`] does.
    pub fn auth_token(self, auth_token: &str) -> (r: Self)
        ensures
            r.spec_token() == Some(auth_token@),
    {
        ClientBuilder { auth_token: Some(auth_token.to_owned()) }
    }

    /// Build a [`Client`].
    ///
    /// Fails with a distinct error when no token was set, and with another
    /// when the token cannot stand in an authorization header value.
    pub fn build(self) -> (r: Result<Client, ClientBuilderError>)
        ensures
            self.spec_token() is None <==> r == Err::<Client, ClientBuilderError>(
                ClientBuilderError::MissingAuthToken,
            ),
            match self.spec_token() {
                Option::Some(t) => {
                    if header_value_ok("Bearer "@ + t) {
                        r matches Ok(c) && c.token() == t
                    } else {
                        r == Err::<Client, ClientBuilderError>(ClientBuilderError::AuthHeaderValue)
                    }
                },
                Option::None => true,
            },
    {
        match self.auth_token {
            Some(auth_token) => {
                let mut header_val = String::from_str("Bearer ");
                header_val.append(auth_token.as_str());
                if check_header_value(header_val.as_str()) {
                    Ok(Client { auth_token })
                } else {
                    Err(ClientBuilderError::AuthHeaderValue)
                }
            },
            None => Err(ClientBuilderError::MissingAuthToken),
        }
    }
}

} // verus!
