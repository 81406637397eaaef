//! Data models for the various metadata fields in other models.
//!
//! The decorator records ([`MetadataWithActions`], [`MetadataWithFeatures`],
//! [`MetadataWithRelationships`]) merge their extra block with an inner
//! metadata value at the wire level: the inner record's keys appear as
//! siblings of the outer ones in a single flat object.

use vstd::prelude::*;

use crate::codec::{
    get_numtext, get_opt, get_req, numtext_field, numtext_shape, opt_field, opt_shape, req_field,
    req_shape, JsonCodec, ToJson,
};
use crate::json::{
    has_key, jget, lemma_lookup_first, lemma_lookup_rest, lemma_lookup_some_iff_contains,
    arr_elems, obj_pairs, str_eq, Json, JsonV,
};

verus! {

/// Metadata.
#[derive(Debug, Clone, PartialEq)]
pub struct Metadata<I> {
    /// Permissions.
    pub permissions: Vec<String>,
    /// Excluded permissions.
    pub excluded_permissions: Vec<String>,
    /// Interactions.
    pub interactions: I,
}

impl<I: JsonCodec> JsonCodec for Metadata<I> {
    open spec fn shape(j: JsonV, catchall: bool) -> bool {
        &&& req_shape::<Vec<String>>(j, "permissions"@, false)
        &&& req_shape::<Vec<String>>(j, "excluded_permissions"@, false)
        &&& req_shape::<I>(j, "interactions"@, false)
    }

    open spec fn fields(j: JsonV, v: Self, catchall: bool) -> bool {
        &&& req_field::<Vec<String>>(j, "permissions"@, v.permissions, false)
        &&& req_field::<Vec<String>>(j, "excluded_permissions"@, v.excluded_permissions, false)
        &&& req_field::<I>(j, "interactions"@, v.interactions, false)
    }

    fn from_json(j: &Json, catchall: bool) -> (r: Option<Self>) {
        let permissions = get_req::<Vec<String>>(j, "permissions", false)?;
        let excluded_permissions = get_req::<Vec<String>>(j, "excluded_permissions", false)?;
        let interactions = get_req::<I>(j, "interactions", false)?;
        Some(Metadata { permissions, excluded_permissions, interactions })
    }
}

/// Metadata with actions; the inner metadata is flattened into the same
/// object on the wire.
#[derive(Debug, Clone, PartialEq)]
pub struct MetadataWithActions<A, M> {
    /// IQ actions.
    pub iq_by_action: A,
    /// Metadata.
    pub metadata: M,
}

impl<A: JsonCodec, M: JsonCodec> JsonCodec for MetadataWithActions<A, M> {
    open spec fn shape(j: JsonV, catchall: bool) -> bool {
        &&& req_shape::<A>(j, "iq_by_action"@, false)
        &&& M::shape(j, false)
    }

    open spec fn fields(j: JsonV, v: Self, catchall: bool) -> bool {
        &&& req_field::<A>(j, "iq_by_action"@, v.iq_by_action, false)
        &&& M::fields(j, v.metadata, false)
    }

    fn from_json(j: &Json, catchall: bool) -> (r: Option<Self>) {
        let iq_by_action = get_req::<A>(j, "iq_by_action", false)?;
        let metadata = M::from_json(j, false)?;
        Some(MetadataWithActions { iq_by_action, metadata })
    }
}

/// Metadata with features; the inner metadata is flattened into the same
/// object on the wire.
#[derive(Debug, Clone, PartialEq)]
pub struct MetadataWithFeatures<M> {
    /// Features.
    pub features: Vec<String>,
    /// Metadata.
    pub metadata: M,
}

impl<M: JsonCodec> JsonCodec for MetadataWithFeatures<M> {
    open spec fn shape(j: JsonV, catchall: bool) -> bool {
        &&& req_shape::<Vec<String>>(j, "features"@, false)
        &&& M::shape(j, false)
    }

    open spec fn fields(j: JsonV, v: Self, catchall: bool) -> bool {
        &&& req_field::<Vec<String>>(j, "features"@, v.features, false)
        &&& M::fields(j, v.metadata, false)
    }

    fn from_json(j: &Json, catchall: bool) -> (r: Option<Self>) {
        let features = get_req::<Vec<String>>(j, "features", false)?;
        let metadata = M::from_json(j, false)?;
        Some(MetadataWithFeatures { features, metadata })
    }
}

/// Metadata with relationships; the inner metadata is flattened into the
/// same object on the wire.
#[derive(Debug, Clone, PartialEq)]
pub struct MetadataWithRelationships<R, M> {
    /// Relationships.
    pub relationships: R,
    /// Metadata.
    pub metadata: M,
}

impl<R: JsonCodec, M: JsonCodec> JsonCodec for MetadataWithRelationships<R, M> {
    open spec fn shape(j: JsonV, catchall: bool) -> bool {
        &&& req_shape::<R>(j, "relationships"@, false)
        &&& M::shape(j, false)
    }

    open spec fn fields(j: JsonV, v: Self, catchall: bool) -> bool {
        &&& req_field::<R>(j, "relationships"@, v.relationships, false)
        &&& M::fields(j, v.metadata, false)
    }

    fn from_json(j: &Json, catchall: bool) -> (r: Option<Self>) {
        let relationships = get_req::<R>(j, "relationships", false)?;
        let metadata = M::from_json(j, false)?;
        Some(MetadataWithRelationships { relationships, metadata })
    }
}

/// Possible interactions with an annotation.
#[derive(Debug, Clone, Copy, PartialEq)]
pub struct AnnotationInteractions {
    /// Whether the user cosigned an annotation.
    pub cosign: bool,
    /// Whether the user pyonged an annotation.
    pub pyong: bool,
    /// The vote on an annotation.
    pub vote: Option<Vote>,
}

impl JsonCodec for AnnotationInteractions {
    open spec fn shape(j: JsonV, catchall: bool) -> bool {
        &&& req_shape::<bool>(j, "cosign"@, false)
        &&& req_shape::<bool>(j, "pyong"@, false)
        &&& opt_shape::<Vote>(j, "vote"@, false)
    }

    open spec fn fields(j: JsonV, v: Self, catchall: bool) -> bool {
        &&& req_field::<bool>(j, "cosign"@, v.cosign, false)
        &&& req_field::<bool>(j, "pyong"@, v.pyong, false)
        &&& opt_field::<Vote>(j, "vote"@, v.vote, false)
    }

    fn from_json(j: &Json, catchall: bool) -> (r: Option<Self>) {
        let cosign = get_req::<bool>(j, "cosign", false)?;
        let pyong = get_req::<bool>(j, "pyong", false)?;
        let vote = get_opt::<Vote>(j, "vote", false)?;
        Some(AnnotationInteractions { cosign, pyong, vote })
    }
}

/// User interactions.
#[derive(Debug, Clone, Copy, PartialEq)]
pub struct UserInteractions {
    /// If you are following the person.
    pub following: bool,
}

impl JsonCodec for UserInteractions {
    open spec fn shape(j: JsonV, catchall: bool) -> bool {
        req_shape::<bool>(j, "following"@, false)
    }

    open spec fn fields(j: JsonV, v: Self, catchall: bool) -> bool {
        req_field::<bool>(j, "following"@, v.following, false)
    }

    fn from_json(j: &Json, catchall: bool) -> (r: Option<Self>) {
        let following = get_req::<bool>(j, "following", false)?;
        Some(UserInteractions { following })
    }
}

/// Song interactions.
#[derive(Debug, Clone, Copy, PartialEq)]
pub struct SongInteractions {
    /// Whether the user follows a song.
    pub following: bool,
    /// Whether the user pyonged a song.
    pub pyong: bool,
}

impl JsonCodec for SongInteractions {
    open spec fn shape(j: JsonV, catchall: bool) -> bool {
        &&& req_shape::<bool>(j, "following"@, false)
        &&& req_shape::<bool>(j, "pyong"@, false)
    }

    open spec fn fields(j: JsonV, v: Self, catchall: bool) -> bool {
        &&& req_field::<bool>(j, "following"@, v.following, false)
        &&& req_field::<bool>(j, "pyong"@, v.pyong, false)
    }

    fn from_json(j: &Json, catchall: bool) -> (r: Option<Self>) {
        let following = get_req::<bool>(j, "following", false)?;
        let pyong = get_req::<bool>(j, "pyong", false)?;
        Some(SongInteractions { following, pyong })
    }
}

/// Annotation actions.
#[derive(Debug, Clone, PartialEq)]
pub struct AnnotationActions {
    /// Accept.
    pub accept: Option<PrimaryAction>,
    /// Reject.
    pub reject: Option<PrimaryAction>,
    /// Delete.
    pub delete: Option<PrimaryAction>,
}

impl JsonCodec for AnnotationActions {
    open spec fn shape(j: JsonV, catchall: bool) -> bool {
        &&& j is Obj
        &&& opt_shape::<PrimaryAction>(j, "accept"@, false)
        &&& opt_shape::<PrimaryAction>(j, "reject"@, false)
        &&& opt_shape::<PrimaryAction>(j, "delete"@, false)
    }

    open spec fn fields(j: JsonV, v: Self, catchall: bool) -> bool {
        &&& opt_field::<PrimaryAction>(j, "accept"@, v.accept, false)
        &&& opt_field::<PrimaryAction>(j, "reject"@, v.reject, false)
        &&& opt_field::<PrimaryAction>(j, "delete"@, v.delete, false)
    }

    fn from_json(j: &Json, catchall: bool) -> (r: Option<Self>) {
        if !j.is_obj() {
            return None;
        }
        let accept = get_opt::<PrimaryAction>(j, "accept", false)?;
        let reject = get_opt::<PrimaryAction>(j, "reject", false)?;
        let delete = get_opt::<PrimaryAction>(j, "delete", false)?;
        Some(AnnotationActions { accept, reject, delete })
    }
}

/// Song actions.
#[derive(Debug, Clone, PartialEq)]
pub struct SongActions {
    /// Editing metadata.
    pub edit_metadata: Option<PrimaryAction>,
    /// Answering a question.
    pub answer_question: Option<PrimaryAction>,
}

impl JsonCodec for SongActions {
    open spec fn shape(j: JsonV, catchall: bool) -> bool {
        &&& j is Obj
        &&& opt_shape::<PrimaryAction>(j, "edit_metadata"@, false)
        &&& opt_shape::<PrimaryAction>(j, "answer_question"@, false)
    }

    open spec fn fields(j: JsonV, v: Self, catchall: bool) -> bool {
        &&& opt_field::<PrimaryAction>(j, "edit_metadata"@, v.edit_metadata, false)
        &&& opt_field::<PrimaryAction>(j, "answer_question"@, v.answer_question, false)
    }

    fn from_json(j: &Json, catchall: bool) -> (r: Option<Self>) {
        if !j.is_obj() {
            return None;
        }
        let edit_metadata = get_opt::<PrimaryAction>(j, "edit_metadata", false)?;
        let answer_question = get_opt::<PrimaryAction>(j, "answer_question", false)?;
        Some(SongActions { edit_metadata, answer_question })
    }
}

/// Song relationships.
#[derive(Debug, Clone, PartialEq)]
pub struct SongRelationships {
    /// Pinned role.
    pub pinned_role: Option<String>,
}

impl JsonCodec for SongRelationships {
    open spec fn shape(j: JsonV, catchall: bool) -> bool {
        &&& j is Obj
        &&& opt_shape::<String>(j, "pinned_role"@, false)
    }

    open spec fn fields(j: JsonV, v: Self, catchall: bool) -> bool {
        opt_field::<String>(j, "pinned_role"@, v.pinned_role, false)
    }

    fn from_json(j: &Json, catchall: bool) -> (r: Option<Self>) {
        if !j.is_obj() {
            return None;
        }
        let pinned_role = get_opt::<String>(j, "pinned_role", false)?;
        Some(SongRelationships { pinned_role })
    }
}

/// A primary action.
#[derive(Debug, Clone, PartialEq)]
pub struct PrimaryAction {
    /// The action.
    pub primary: Action,
}

impl JsonCodec for PrimaryAction {
    open spec fn shape(j: JsonV, catchall: bool) -> bool {
        req_shape::<Action>(j, "primary"@, false)
    }

    open spec fn fields(j: JsonV, v: Self, catchall: bool) -> bool {
        req_field::<Action>(j, "primary"@, v.primary, false)
    }

    fn from_json(j: &Json, catchall: bool) -> (r: Option<Self>) {
        let primary = get_req::<Action>(j, "primary", false)?;
        Some(PrimaryAction { primary })
    }
}

/// An action.
#[derive(Debug, Clone, PartialEq)]
pub struct Action {
    /// Whether the action is applicable.
    pub applicable: bool,
    /// The base value: a numeric literal, kept as its decimal text because it
    /// can be fractional on the wire.
    pub base: String,
    /// The multiplier value.
    pub multiplier: u32,
}

impl JsonCodec for Action {
    open spec fn shape(j: JsonV, catchall: bool) -> bool {
        &&& req_shape::<bool>(j, "applicable"@, false)
        &&& numtext_shape(j, "base"@)
        &&& req_shape::<u32>(j, "multiplier"@, false)
    }

    open spec fn fields(j: JsonV, v: Self, catchall: bool) -> bool {
        &&& req_field::<bool>(j, "applicable"@, v.applicable, false)
        &&& numtext_field(j, "base"@, v.base@)
        &&& req_field::<u32>(j, "multiplier"@, v.multiplier, false)
    }

    fn from_json(j: &Json, catchall: bool) -> (r: Option<Self>) {
        let applicable = get_req::<bool>(j, "applicable", false)?;
        let base = get_numtext(j, "base")?;
        let multiplier = get_req::<u32>(j, "multiplier", false)?;
        Some(Action { applicable, base, multiplier })
    }
}

/// A vote.
#[derive(Debug, Clone, Copy, PartialEq, Eq, Structural)]
pub enum Vote {
    /// Upvote.
    Up,
    /// Downvote.
    Down,
}

impl JsonCodec for Vote {
    open spec fn shape(j: JsonV, catchall: bool) -> bool {
        j matches JsonV::Str(s) && (s == "up"@ || s == "down"@)
    }

    open spec fn fields(j: JsonV, v: Self, catchall: bool) -> bool {
        match v {
            Vote::Up => j == JsonV::Str("up"@),
            Vote::Down => j == JsonV::Str("down"@),
        }
    }

    fn from_json(j: &Json, catchall: bool) -> (r: Option<Self>) {
        match j {
            Json::Str(s) => {
                if str_eq(s.as_str(), "up") {
                    Some(Vote::Up)
                } else if str_eq(s.as_str(), "down") {
                    Some(Vote::Down)
                } else {
                    None
                }
            },
            _ => None,
        }
    }
}

impl ToJson for Vote {
    open spec fn spec_json(v: Self) -> JsonV {
        match v {
            Vote::Up => JsonV::Str("up"@),
            Vote::Down => JsonV::Str("down"@),
        }
    }

    fn to_json(&self) -> (r: Json) {
        match self {
            Vote::Up => Json::Str(String::from_str("up")),
            Vote::Down => Json::Str(String::from_str("down")),
        }
    }
}

impl ToJson for UserInteractions {
    open spec fn spec_json(v: Self) -> JsonV {
        JsonV::Obj(seq![("following"@, JsonV::Bool(v.following))])
    }

    fn to_json(&self) -> (r: Json) {
        let mut ps: Vec<(String, Json)> = Vec::new();
        ps.push((String::from_str("following"), Json::Bool(self.following)));
        let r = Json::Obj(ps);
        proof {
            assert(obj_pairs(r@).len() == 1);
            assert(ps@[0].0@ == "following"@ && ps@[0].1@ == JsonV::Bool(self.following));
            assert(obj_pairs(r@) =~= obj_pairs(Self::spec_json(*self)));
            assert(r@ =~= Self::spec_json(*self));
        }
        r
    }
}

impl ToJson for SongInteractions {
    open spec fn spec_json(v: Self) -> JsonV {
        JsonV::Obj(
            seq![("following"@, JsonV::Bool(v.following)), ("pyong"@, JsonV::Bool(v.pyong))],
        )
    }

    fn to_json(&self) -> (r: Json) {
        let mut ps: Vec<(String, Json)> = Vec::new();
        ps.push((String::from_str("following"), Json::Bool(self.following)));
        ps.push((String::from_str("pyong"), Json::Bool(self.pyong)));
        let r = Json::Obj(ps);
        proof {
            assert(obj_pairs(r@).len() == 2);
            assert(ps@[0].0@ == "following"@ && ps@[0].1@ == JsonV::Bool(self.following));
            assert(ps@[1].0@ == "pyong"@ && ps@[1].1@ == JsonV::Bool(self.pyong));
            assert(obj_pairs(r@) =~= obj_pairs(Self::spec_json(*self)));
            assert(r@ =~= Self::spec_json(*self));
        }
        r
    }
}

impl ToJson for AnnotationInteractions {
    open spec fn spec_json(v: Self) -> JsonV {
        JsonV::Obj(
            seq![
                ("cosign"@, JsonV::Bool(v.cosign)),
                ("pyong"@, JsonV::Bool(v.pyong)),
                (
                    "vote"@,
                    match v.vote {
                        Option::Some(w) => Vote::spec_json(w),
                        Option::None => JsonV::Null,
                    },
                ),
            ],
        )
    }

    fn to_json(&self) -> (r: Json) {
        let mut ps: Vec<(String, Json)> = Vec::new();
        ps.push((String::from_str("cosign"), Json::Bool(self.cosign)));
        ps.push((String::from_str("pyong"), Json::Bool(self.pyong)));
        let vote_json = match &self.vote {
            Some(w) => w.to_json(),
            None => Json::Null,
        };
        ps.push((String::from_str("vote"), vote_json));
        let r = Json::Obj(ps);
        proof {
            assert(obj_pairs(r@).len() == 3);
            assert(ps@[0].0@ == "cosign"@ && ps@[0].1@ == JsonV::Bool(self.cosign));
            assert(ps@[1].0@ == "pyong"@ && ps@[1].1@ == JsonV::Bool(self.pyong));
            assert(ps@[2].0@ == "vote"@);
            match &self.vote {
                Option::Some(w) => {
                    assert(ps@[2].1@ == Vote::spec_json(*w));
                },
                Option::None => {
                    assert(ps@[2].1@ == JsonV::Null);
                },
            }
            assert(obj_pairs(r@) =~= obj_pairs(Self::spec_json(*self)));
            assert(r@ =~= Self::spec_json(*self));
        }
        r
    }
}

impl ToJson for Action {
    /// A base decoded from an integer literal is re-emitted as its decimal
    /// text.
    open spec fn spec_json(v: Self) -> JsonV {
        JsonV::Obj(
            seq![
                ("applicable"@, JsonV::Bool(v.applicable)),
                ("base"@, JsonV::Num(v.base@)),
                ("multiplier"@, JsonV::Int(v.multiplier as int)),
            ],
        )
    }

    fn to_json(&self) -> (r: Json) {
        let mut ps: Vec<(String, Json)> = Vec::new();
        ps.push((String::from_str("applicable"), Json::Bool(self.applicable)));
        ps.push((String::from_str("base"), Json::Num(self.base.clone())));
        ps.push((String::from_str("multiplier"), Json::Int(self.multiplier as i64)));
        let r = Json::Obj(ps);
        proof {
            assert(obj_pairs(r@).len() == 3);
            assert(ps@[0].0@ == "applicable"@ && ps@[0].1@ == JsonV::Bool(self.applicable));
            assert(ps@[1].0@ == "base"@ && ps@[1].1@ == JsonV::Num(self.base@));
            assert(ps@[2].0@ == "multiplier"@ && ps@[2].1@ == JsonV::Int(self.multiplier as int));
            assert(obj_pairs(r@) =~= obj_pairs(Self::spec_json(*self)));
            assert(r@ =~= Self::spec_json(*self));
        }
        r
    }
}

impl ToJson for PrimaryAction {
    open spec fn spec_json(v: Self) -> JsonV {
        JsonV::Obj(seq![("primary"@, Action::spec_json(v.primary))])
    }

    fn to_json(&self) -> (r: Json) {
        let mut ps: Vec<(String, Json)> = Vec::new();
        ps.push((String::from_str("primary"), self.primary.to_json()));
        let r = Json::Obj(ps);
        proof {
            assert(obj_pairs(r@) =~= obj_pairs(Self::spec_json(*self)));
            assert(r@ =~= Self::spec_json(*self));
        }
        r
    }
}

impl ToJson for AnnotationActions {
    /// An unset action is omitted from the object entirely.
    open spec fn spec_json(v: Self) -> JsonV {
        let q0 = Seq::<(Seq<char>, JsonV)>::empty();
        let q1 = match v.accept {
            Option::Some(a) => q0.push(("accept"@, PrimaryAction::spec_json(a))),
            Option::None => q0,
        };
        let q2 = match v.reject {
            Option::Some(a) => q1.push(("reject"@, PrimaryAction::spec_json(a))),
            Option::None => q1,
        };
        let q3 = match v.delete {
            Option::Some(a) => q2.push(("delete"@, PrimaryAction::spec_json(a))),
            Option::None => q2,
        };
        JsonV::Obj(q3)
    }

    fn to_json(&self) -> (r: Json) {
        let mut ps: Vec<(String, Json)> = Vec::new();
        if let Some(a) = &self.accept {
            ps.push((String::from_str("accept"), a.to_json()));
        }
        if let Some(a) = &self.reject {
            ps.push((String::from_str("reject"), a.to_json()));
        }
        if let Some(a) = &self.delete {
            ps.push((String::from_str("delete"), a.to_json()));
        }
        let r = Json::Obj(ps);
        proof {
            assert(obj_pairs(r@) =~= obj_pairs(Self::spec_json(*self)));
            assert(r@ =~= Self::spec_json(*self));
        }
        r
    }
}

impl ToJson for SongActions {
    /// An unset action is omitted from the object entirely.
    open spec fn spec_json(v: Self) -> JsonV {
        let q0 = Seq::<(Seq<char>, JsonV)>::empty();
        let q1 = match v.edit_metadata {
            Option::Some(a) => q0.push(("edit_metadata"@, PrimaryAction::spec_json(a))),
            Option::None => q0,
        };
        let q2 = match v.answer_question {
            Option::Some(a) => q1.push(("answer_question"@, PrimaryAction::spec_json(a))),
            Option::None => q1,
        };
        JsonV::Obj(q2)
    }

    fn to_json(&self) -> (r: Json) {
        let mut ps: Vec<(String, Json)> = Vec::new();
        if let Some(a) = &self.edit_metadata {
            ps.push((String::from_str("edit_metadata"), a.to_json()));
        }
        if let Some(a) = &self.answer_question {
            ps.push((String::from_str("answer_question"), a.to_json()));
        }
        let r = Json::Obj(ps);
        proof {
            assert(obj_pairs(r@) =~= obj_pairs(Self::spec_json(*self)));
            assert(r@ =~= Self::spec_json(*self));
        }
        r
    }
}

impl ToJson for SongRelationships {
    /// An unset pinned role is omitted from the object entirely.
    open spec fn spec_json(v: Self) -> JsonV {
        match v.pinned_role {
            Option::Some(s) => JsonV::Obj(seq![("pinned_role"@, JsonV::Str(s@))]),
            Option::None => JsonV::Obj(Seq::empty()),
        }
    }

    fn to_json(&self) -> (r: Json) {
        let mut ps: Vec<(String, Json)> = Vec::new();
        if let Some(s) = &self.pinned_role {
            ps.push((String::from_str("pinned_role"), Json::Str(s.clone())));
        }
        let r = Json::Obj(ps);
        proof {
            match &self.pinned_role {
                Option::Some(sp) => {
                    assert(obj_pairs(r@).len() == 1);
                    assert(ps@[0].0@ == "pinned_role"@ && ps@[0].1@ == JsonV::Str(sp@));
                },
                Option::None => {
                    assert(obj_pairs(r@).len() == 0);
                },
            }
            assert(obj_pairs(r@) =~= obj_pairs(Self::spec_json(*self)));
            assert(r@ =~= Self::spec_json(*self));
        }
        r
    }
}

impl<I: ToJson> ToJson for Metadata<I> {
    open spec fn spec_json(v: Self) -> JsonV {
        JsonV::Obj(
            seq![
                ("permissions"@, <Vec<String> as ToJson>::spec_json(v.permissions)),
                ("excluded_permissions"@, <Vec<String> as ToJson>::spec_json(v.excluded_permissions)),
                ("interactions"@, I::spec_json(v.interactions)),
            ],
        )
    }

    fn to_json(&self) -> (r: Json) {
        let mut ps: Vec<(String, Json)> = Vec::new();
        ps.push((String::from_str("permissions"), self.permissions.to_json()));
        ps.push((String::from_str("excluded_permissions"), self.excluded_permissions.to_json()));
        ps.push((String::from_str("interactions"), self.interactions.to_json()));
        let r = Json::Obj(ps);
        proof {
            assert(obj_pairs(r@) =~= obj_pairs(Self::spec_json(*self)));
            assert(r@ =~= Self::spec_json(*self));
        }
        r
    }
}

impl<A: ToJson, M: ToJson> ToJson for MetadataWithActions<A, M> {
    /// The inner metadata's keys are merged back as siblings of the outer
    /// one: flattening is transparent on encode too.
    open spec fn spec_json(v: Self) -> JsonV {
        JsonV::Obj(
            seq![("iq_by_action"@, A::spec_json(v.iq_by_action))] + obj_pairs(
                M::spec_json(v.metadata),
            ),
        )
    }

    fn to_json(&self) -> (r: Json) {
        let mut ps: Vec<(String, Json)> = Vec::new();
        ps.push((String::from_str("iq_by_action"), self.iq_by_action.to_json()));
        match self.metadata.to_json() {
            Json::Obj(mut mps) => {
                ps.append(&mut mps);
            },
            _ => {},
        }
        let r = Json::Obj(ps);
        proof {
            assert(obj_pairs(r@) =~= obj_pairs(Self::spec_json(*self)));
            assert(r@ =~= Self::spec_json(*self));
        }
        r
    }
}

impl<M: ToJson> ToJson for MetadataWithFeatures<M> {
    /// The inner metadata's keys are merged back as siblings of the outer
    /// one: flattening is transparent on encode too.
    open spec fn spec_json(v: Self) -> JsonV {
        JsonV::Obj(
            seq![("features"@, <Vec<String> as ToJson>::spec_json(v.features))] + obj_pairs(
                M::spec_json(v.metadata),
            ),
        )
    }

    fn to_json(&self) -> (r: Json) {
        let mut ps: Vec<(String, Json)> = Vec::new();
        ps.push((String::from_str("features"), self.features.to_json()));
        match self.metadata.to_json() {
            Json::Obj(mut mps) => {
                ps.append(&mut mps);
            },
            _ => {},
        }
        let r = Json::Obj(ps);
        proof {
            assert(obj_pairs(r@) =~= obj_pairs(Self::spec_json(*self)));
            assert(r@ =~= Self::spec_json(*self));
        }
        r
    }
}

/// Flattening is transparent through a round trip of user metadata: a
/// value decoded from a flat object re-encodes to a flat object carrying
/// the features block and the inner metadata's keys as siblings, each under
/// the value the decode pinned, and no key beyond the family's own.
pub proof fn lemma_user_metadata_flatten_roundtrip(
    j: JsonV,
    v: MetadataWithFeatures<Metadata<UserInteractions>>,
)
    requires
        MetadataWithFeatures::<Metadata<UserInteractions>>::shape(j, false),
        MetadataWithFeatures::<Metadata<UserInteractions>>::fields(j, v, false),
    ensures
        jget(MetadataWithFeatures::<Metadata<UserInteractions>>::spec_json(v), "features"@)
            == jget(j, "features"@),
        jget(MetadataWithFeatures::<Metadata<UserInteractions>>::spec_json(v), "permissions"@)
            == jget(j, "permissions"@),
        jget(
            MetadataWithFeatures::<Metadata<UserInteractions>>::spec_json(v),
            "excluded_permissions"@,
        ) == jget(j, "excluded_permissions"@),
        (jget(MetadataWithFeatures::<Metadata<UserInteractions>>::spec_json(v), "interactions"@)
            matches Some(ei) && jget(j, "interactions"@) matches Some(ji) && jget(
            ei,
            "following"@,
        ) == jget(ji, "following"@)),
        forall|k: Seq<char>|
            has_key(MetadataWithFeatures::<Metadata<UserInteractions>>::spec_json(v), k) ==> (k
                == "features"@ || k == "permissions"@ || k == "excluded_permissions"@ || k
                == "interactions"@),
{
    let enc = MetadataWithFeatures::<Metadata<UserInteractions>>::spec_json(v);
    let ep = obj_pairs(enc);
    reveal_strlit("features");
    reveal_strlit("permissions");
    reveal_strlit("excluded_permissions");
    reveal_strlit("interactions");
    assert("features"@.len() == 8);
    assert("permissions"@.len() == 11);
    assert("excluded_permissions"@.len() == 20);
    assert("interactions"@.len() == 12);
    let fv = <Vec<String> as ToJson>::spec_json(v.features);
    let pv = <Vec<String> as ToJson>::spec_json(v.metadata.permissions);
    let ev = <Vec<String> as ToJson>::spec_json(v.metadata.excluded_permissions);
    let iv = UserInteractions::spec_json(v.metadata.interactions);
    assert(ep =~= seq![
        ("features"@, fv),
        ("permissions"@, pv),
        ("excluded_permissions"@, ev),
        ("interactions"@, iv),
    ]);
    let t1 = ep.skip(1);
    let t2 = ep.skip(2);
    let t3 = ep.skip(3);
    assert(t1 =~= seq![("permissions"@, pv), ("excluded_permissions"@, ev), ("interactions"@, iv)]);
    assert(t2 =~= seq![("excluded_permissions"@, ev), ("interactions"@, iv)]);
    assert(t3 =~= seq![("interactions"@, iv)]);
    assert(t1.skip(1) =~= t2);
    assert(t2.skip(1) =~= t3);
    lemma_lookup_first(ep, "features"@);
    lemma_lookup_rest(ep, "permissions"@);
    lemma_lookup_first(t1, "permissions"@);
    lemma_lookup_rest(ep, "excluded_permissions"@);
    lemma_lookup_rest(t1, "excluded_permissions"@);
    lemma_lookup_first(t2, "excluded_permissions"@);
    lemma_lookup_rest(ep, "interactions"@);
    lemma_lookup_rest(t1, "interactions"@);
    lemma_lookup_rest(t2, "interactions"@);
    lemma_lookup_first(t3, "interactions"@);
    assert(jget(enc, "features"@) == Some(fv));
    assert(jget(enc, "permissions"@) == Some(pv));
    assert(jget(enc, "excluded_permissions"@) == Some(ev));
    assert(jget(enc, "interactions"@) == Some(iv));
    match jget(j, "features"@) {
        Option::Some(xf) => {
            assert forall|i: int|
                0 <= i < arr_elems(xf).len() implies arr_elems(xf)[i] == arr_elems(fv)[i] by {
                assert(arr_elems(xf)[i] == JsonV::Str(v.features@[i]@));
            }
            assert(arr_elems(xf) =~= arr_elems(fv));
            assert(xf =~= fv);
        },
        Option::None => {
            assert(false);
        },
    }
    match jget(j, "permissions"@) {
        Option::Some(xp) => {
            assert forall|i: int|
                0 <= i < arr_elems(xp).len() implies arr_elems(xp)[i] == arr_elems(pv)[i] by {
                assert(arr_elems(xp)[i] == JsonV::Str(v.metadata.permissions@[i]@));
            }
            assert(arr_elems(xp) =~= arr_elems(pv));
            assert(xp =~= pv);
        },
        Option::None => {
            assert(false);
        },
    }
    match jget(j, "excluded_permissions"@) {
        Option::Some(xe) => {
            assert forall|i: int|
                0 <= i < arr_elems(xe).len() implies arr_elems(xe)[i] == arr_elems(ev)[i] by {
                assert(arr_elems(xe)[i] == JsonV::Str(v.metadata.excluded_permissions@[i]@));
            }
            assert(arr_elems(xe) =~= arr_elems(ev));
            assert(xe =~= ev);
        },
        Option::None => {
            assert(false);
        },
    }
    match jget(j, "interactions"@) {
        Option::Some(ji) => {
            assert(jget(ji, "following"@) == Some(
                JsonV::Bool(v.metadata.interactions.following),
            ));
            lemma_lookup_first(obj_pairs(iv), "following"@);
            assert(jget(iv, "following"@) == Some(
                JsonV::Bool(v.metadata.interactions.following),
            ));
        },
        Option::None => {
            assert(false);
        },
    }
    assert forall|k: Seq<char>|
        has_key(enc, k) implies (k == "features"@ || k == "permissions"@ || k
        == "excluded_permissions"@ || k == "interactions"@) by {
        lemma_lookup_some_iff_contains(ep, k);
        let i = choose|i: int| 0 <= i < ep.len() && ep[i].0 == k;
        assert(0 <= i < 4);
    }
}

impl<R: ToJson, M: ToJson> ToJson for MetadataWithRelationships<R, M> {
    /// The inner metadata's keys are merged back as siblings of the outer
    /// one: flattening is transparent on encode too.
    open spec fn spec_json(v: Self) -> JsonV {
        JsonV::Obj(
            seq![("relationships"@, R::spec_json(v.relationships))] + obj_pairs(
                M::spec_json(v.metadata),
            ),
        )
    }

    fn to_json(&self) -> (r: Json) {
        let mut ps: Vec<(String, Json)> = Vec::new();
        ps.push((String::from_str("relationships"), self.relationships.to_json()));
        match self.metadata.to_json() {
            Json::Obj(mut mps) => {
                ps.append(&mut mps);
            },
            _ => {},
        }
        let r = Json::Obj(ps);
        proof {
            assert(obj_pairs(r@) =~= obj_pairs(Self::spec_json(*self)));
            assert(r@ =~= Self::spec_json(*self));
        }
        r
    }
}

} // verus!
