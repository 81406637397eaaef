//! Data models for web pages.

use vstd::prelude::*;

use crate::codec::{
    bag_ok, collect_extra, get_opt, get_req, opt_field, opt_shape, opt_str_json, opt_u32_json,
    req_field, req_shape, strays, JsonCodec, KnownKeys,
};
use crate::json::{
    has_key, lemma_lookup_some_iff_contains, obj_pairs, pairs_view, str_eq, Json, JsonV,
};

verus! {

/// A web page response.
#[derive(Debug, Clone, PartialEq)]
pub struct WebPageResponse {
    /// Web page data.
    pub web_page: WebPage,
}

impl JsonCodec for WebPageResponse {
    open spec fn shape(j: JsonV, catchall: bool) -> bool {
        req_shape::<WebPage>(j, "web_page"@, catchall)
    }

    open spec fn fields(j: JsonV, v: Self, catchall: bool) -> bool {
        req_field::<WebPage>(j, "web_page"@, v.web_page, catchall)
    }

    fn from_json(j: &Json, catchall: bool) -> (r: Option<Self>) {
        let web_page = get_req::<WebPage>(j, "web_page", catchall)?;
        Some(WebPageResponse { web_page })
    }
}

/// Web page data.
#[derive(Debug, Clone, PartialEq)]
pub struct WebPage {
    /// API path to the web page.
    pub api_path: Option<String>,
    /// Domain of the web page.
    pub domain: String,
    /// ID of the web page.
    pub id: Option<u32>,
    /// Normalized URL.
    pub normalized_url: String,
    /// Full URL.
    pub share_url: String,
    /// Page title.
    pub title: String,
    /// Full URL.
    pub url: String,
    /// Total number of annotations on this page.
    pub annotation_count: u32,
    /// Extra data: wire keys not otherwise modelled.
    pub extra: Vec<(String, Json)>,
}

impl KnownKeys for WebPage {
    open spec fn known(k: Seq<char>) -> bool {
        ||| k == "api_path"@
        ||| k == "domain"@
        ||| k == "id"@
        ||| k == "normalized_url"@
        ||| k == "share_url"@
        ||| k == "title"@
        ||| k == "url"@
        ||| k == "annotation_count"@
    }

    fn known_key(k: &str) -> (b: bool) {
        str_eq(k, "api_path") || str_eq(k, "domain") || str_eq(k, "id")
            || str_eq(k, "normalized_url") || str_eq(k, "share_url") || str_eq(k, "title")
            || str_eq(k, "url") || str_eq(k, "annotation_count")
    }
}

impl JsonCodec for WebPage {
    open spec fn shape(j: JsonV, catchall: bool) -> bool {
        &&& opt_shape::<String>(j, "api_path"@, catchall)
        &&& req_shape::<String>(j, "domain"@, catchall)
        &&& opt_shape::<u32>(j, "id"@, catchall)
        &&& req_shape::<String>(j, "normalized_url"@, catchall)
        &&& req_shape::<String>(j, "share_url"@, catchall)
        &&& req_shape::<String>(j, "title"@, catchall)
        &&& req_shape::<String>(j, "url"@, catchall)
        &&& req_shape::<u32>(j, "annotation_count"@, catchall)
    }

    open spec fn fields(j: JsonV, v: Self, catchall: bool) -> bool {
        &&& opt_field::<String>(j, "api_path"@, v.api_path, catchall)
        &&& req_field::<String>(j, "domain"@, v.domain, catchall)
        &&& opt_field::<u32>(j, "id"@, v.id, catchall)
        &&& req_field::<String>(j, "normalized_url"@, v.normalized_url, catchall)
        &&& req_field::<String>(j, "share_url"@, v.share_url, catchall)
        &&& req_field::<String>(j, "title"@, v.title, catchall)
        &&& req_field::<String>(j, "url"@, v.url, catchall)
        &&& req_field::<u32>(j, "annotation_count"@, v.annotation_count, catchall)
        &&& bag_ok(j, v.extra@, catchall, |k: Seq<char>| Self::known(k))
    }

    fn from_json(j: &Json, catchall: bool) -> (r: Option<Self>) {
        let api_path = get_opt::<String>(j, "api_path", catchall)?;
        let domain = get_req::<String>(j, "domain", catchall)?;
        let id = get_opt::<u32>(j, "id", catchall)?;
        let normalized_url = get_req::<String>(j, "normalized_url", catchall)?;
        let share_url = get_req::<String>(j, "share_url", catchall)?;
        let title = get_req::<String>(j, "title", catchall)?;
        let url = get_req::<String>(j, "url", catchall)?;
        let annotation_count = get_req::<u32>(j, "annotation_count", catchall)?;
        let extra = collect_extra::<WebPage>(j, catchall);
        Some(
            WebPage {
                api_path,
                domain,
                id,
                normalized_url,
                share_url,
                title,
                url,
                annotation_count,
                extra,
            },
        )
    }
}

impl WebPage {
    /// The canonical encoding of this record: every named field under its
    /// wire key (unset optional fields as `null`), then the catch-all pairs
    /// in the order they were kept.
    pub open spec fn spec_json(self) -> JsonV {
        JsonV::Obj(
            seq![
                ("api_path"@, opt_str_json(self.api_path)),
                ("domain"@, JsonV::Str(self.domain@)),
                ("id"@, opt_u32_json(self.id)),
                ("normalized_url"@, JsonV::Str(self.normalized_url@)),
                ("share_url"@, JsonV::Str(self.share_url@)),
                ("title"@, JsonV::Str(self.title@)),
                ("url"@, JsonV::Str(self.url@)),
                ("annotation_count"@, JsonV::Int(self.annotation_count as int)),
            ] + pairs_view(self.extra@),
        )
    }

    /// Encode this record back to one flat JSON object.
    pub fn to_json(&self) -> (r: Json)
        ensures
            r@ == self.spec_json(),
    {
        let ghost target = obj_pairs(self.spec_json());
        let mut ps: Vec<(String, Json)> = Vec::new();
        ps.push(
            (
                String::from_str("api_path"),
                match &self.api_path {
                    Some(s) => Json::Str(s.clone()),
                    None => Json::Null,
                },
            ),
        );
        ps.push((String::from_str("domain"), Json::Str(self.domain.clone())));
        ps.push(
            (
                String::from_str("id"),
                match self.id {
                    Some(n) => Json::Int(n as i64),
                    None => Json::Null,
                },
            ),
        );
        ps.push((String::from_str("normalized_url"), Json::Str(self.normalized_url.clone())));
        ps.push((String::from_str("share_url"), Json::Str(self.share_url.clone())));
        ps.push((String::from_str("title"), Json::Str(self.title.clone())));
        ps.push((String::from_str("url"), Json::Str(self.url.clone())));
        ps.push((String::from_str("annotation_count"), Json::Int(self.annotation_count as i64)));
        proof {
            assert(pairs_view(ps@) =~= target.take(8));
        }
        let mut i: usize = 0;
        while i < self.extra.len()
            invariant
                target == obj_pairs(self.spec_json()),
                target.len() == 8 + self.extra@.len(),
                i <= self.extra@.len(),
                ps@.len() == 8 + i,
                pairs_view(ps@) == target.take(8 + i as int),
            decreases self.extra@.len() - i,
        {
            let k = self.extra[i].0.clone();
            let v = self.extra[i].1.clone();
            ps.push((k, v));
            proof {
                assert(target[8 + i as int] == pairs_view(self.extra@)[i as int]);
                assert(pairs_view(ps@) =~= target.take(8 + i as int + 1));
            }
            i = i + 1;
        }
        let r = Json::Obj(ps);
        proof {
            assert(target.take(8 + self.extra@.len() as int) =~= target);
            assert(obj_pairs(r@) =~= pairs_view(ps@));
            assert(r@ =~= self.spec_json());
        }
        r
    }
}

/// Round trip under the catch-all extension: re-encoding a decoded web page
/// yields an object that carries every key of the original object, known
/// fields and extension bag alike, whatever order the original keys came
/// in.
pub proof fn lemma_webpage_roundtrip_keys(j: JsonV, v: WebPage, k: Seq<char>)
    requires
        WebPage::fields(j, v, true),
        has_key(j, k),
    ensures
        has_key(v.spec_json(), k),
{
    let target = obj_pairs(v.spec_json());
    let kn = |kk: Seq<char>| WebPage::known(kk);
    let pred = |p: (Seq<char>, JsonV)| !kn(p.0);
    lemma_lookup_some_iff_contains(obj_pairs(j), k);
    let i = choose|i: int| 0 <= i < obj_pairs(j).len() && obj_pairs(j)[i].0 == k;
    if kn(k) {
        assert(exists|m: int| 0 <= m < target.len() && target[m].0 == k) by {
            if k == "api_path"@ {
                assert(target[0].0 == k);
            } else if k == "domain"@ {
                assert(target[1].0 == k);
            } else if k == "id"@ {
                assert(target[2].0 == k);
            } else if k == "normalized_url"@ {
                assert(target[3].0 == k);
            } else if k == "share_url"@ {
                assert(target[4].0 == k);
            } else if k == "title"@ {
                assert(target[5].0 == k);
            } else if k == "url"@ {
                assert(target[6].0 == k);
            } else {
                assert(target[7].0 == k);
            }
        }
    } else {
        assert(pred(obj_pairs(j)[i]));
        obj_pairs(j).lemma_filter_contains(pred, i);
        assert(strays(j, kn).contains(obj_pairs(j)[i]));
        let m = choose|m: int|
            0 <= m < strays(j, kn).len() && strays(j, kn)[m] == obj_pairs(j)[i];
        assert(pairs_view(v.extra@) == strays(j, kn));
        assert(target[8 + m] == pairs_view(v.extra@)[m]);
        assert(target[8 + m].0 == k);
    }
    lemma_lookup_some_iff_contains(target, k);
}

} // verus!
