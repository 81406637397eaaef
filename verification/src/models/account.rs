//! Data models for accounts.

use vstd::prelude::*;

use crate::codec::{
    bag_ok, collect_extra, get_req, req_field, req_shape, JsonCodec, KnownKeys,
};
use crate::json::{str_eq, Json, JsonV};
use crate::models::user::User;

verus! {

/// An account response.
#[derive(Debug, Clone, PartialEq)]
pub struct AccountResponse {
    /// User account data; the wire key is `user`.
    pub account: Account,
}

impl JsonCodec for AccountResponse {
    open spec fn shape(j: JsonV, catchall: bool) -> bool {
        req_shape::<Account>(j, "user"@, catchall)
    }

    open spec fn fields(j: JsonV, v: Self, catchall: bool) -> bool {
        req_field::<Account>(j, "user"@, v.account, catchall)
    }

    fn from_json(j: &Json, catchall: bool) -> (r: Option<Self>) {
        let account = get_req::<Account>(j, "user", catchall)?;
        Some(AccountResponse { account })
    }
}

/// Account data.
#[derive(Debug, Clone, PartialEq)]
pub struct Account {
    /// Email address.
    pub email: String,
    /// Number of unread items in groups inbox.
    pub unread_groups_inbox_count: u32,
    /// Number of unread items in main activity inbox.
    pub unread_main_activity_inbox_count: u32,
    /// Number of unread items in newsfeed inbox.
    pub unread_newsfeed_inbox_count: u32,
    /// Number of unread messages.
    pub unread_messages_count: u32,
    /// Core user account data, flattened into the same wire object.
    pub user: User,
    /// Extra data: wire keys not otherwise modelled.
    pub extra: Vec<(String, Json)>,
}

impl KnownKeys for Account {
    open spec fn known(k: Seq<char>) -> bool {
        ||| k == "email"@
        ||| k == "unread_groups_inbox_count"@
        ||| k == "unread_main_activity_inbox_count"@
        ||| k == "unread_newsfeed_inbox_count"@
        ||| k == "unread_messages_count"@
        ||| User::known(k)
    }

    fn known_key(k: &str) -> (b: bool) {
        str_eq(k, "email") || str_eq(k, "unread_groups_inbox_count")
            || str_eq(k, "unread_main_activity_inbox_count")
            || str_eq(k, "unread_newsfeed_inbox_count") || str_eq(k, "unread_messages_count")
            || User::known_key(k)
    }
}

impl JsonCodec for Account {
    open spec fn shape(j: JsonV, catchall: bool) -> bool {
        &&& req_shape::<String>(j, "email"@, catchall)
        &&& req_shape::<u32>(j, "unread_groups_inbox_count"@, catchall)
        &&& req_shape::<u32>(j, "unread_main_activity_inbox_count"@, catchall)
        &&& req_shape::<u32>(j, "unread_newsfeed_inbox_count"@, catchall)
        &&& req_shape::<u32>(j, "unread_messages_count"@, catchall)
        &&& User::shape(j, false)
    }

    open spec fn fields(j: JsonV, v: Self, catchall: bool) -> bool {
        &&& req_field::<String>(j, "email"@, v.email, catchall)
        &&& req_field::<u32>(j, "unread_groups_inbox_count"@, v.unread_groups_inbox_count, catchall)
        &&& req_field::<u32>(
            j,
            "unread_main_activity_inbox_count"@,
            v.unread_main_activity_inbox_count,
            catchall,
        )
        &&& req_field::<u32>(j, "unread_newsfeed_inbox_count"@, v.unread_newsfeed_inbox_count, catchall)
        &&& req_field::<u32>(j, "unread_messages_count"@, v.unread_messages_count, catchall)
        &&& User::fields(j, v.user, false)
        &&& bag_ok(j, v.extra@, catchall, |k: Seq<char>| Self::known(k))
    }

    fn from_json(j: &Json, catchall: bool) -> (r: Option<Self>) {
        let email = get_req::<String>(j, "email", catchall)?;
        let unread_groups_inbox_count = get_req::<u32>(j, "unread_groups_inbox_count", catchall)?;
        let unread_main_activity_inbox_count = get_req::<u32>(
            j,
            "unread_main_activity_inbox_count",
            catchall,
        )?;
        let unread_newsfeed_inbox_count = get_req::<u32>(
            j,
            "unread_newsfeed_inbox_count",
            catchall,
        )?;
        let unread_messages_count = get_req::<u32>(j, "unread_messages_count", catchall)?;
        let user = User::from_json(j, false)?;
        let extra = collect_extra::<Account>(j, catchall);
        Some(
            Account {
                email,
                unread_groups_inbox_count,
                unread_main_activity_inbox_count,
                unread_newsfeed_inbox_count,
                unread_messages_count,
                user,
                extra,
            },
        )
    }
}

} // verus!
