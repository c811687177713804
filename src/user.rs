//! The basic profile of the signed-in user.
use vstd::prelude::*;

use crate::query::QueryParams;
use crate::sendable::Sendable;

verus! {

/// The address of the user-info service.
pub const USERINFO_URL: &'static str = "https://www.googleapis.com/oauth2/v2/userinfo";

/// The signed-in user's basic profile.
#[derive(Default, Debug, Clone, PartialEq, Eq)]
pub struct UserInfo {
    pub id: String,
    pub email: String,
    pub verified_email: bool,
    pub picture: String,
    pub hd: Option<String>,
    pub query_string: QueryParams,
}

impl Sendable for UserInfo {
    open spec fn spec_base(&self) -> Seq<char> {
        USERINFO_URL@
    }

    open spec fn spec_path(&self, action: Option<Seq<char>>) -> Seq<char> {
        Seq::empty()
    }

    open spec fn spec_query(&self) -> Seq<(Seq<char>, Seq<char>)> {
        self.query_string@
    }

    fn base(&self) -> (r: &'static str) {
        USERINFO_URL
    }

    fn path(&self, action: Option<String>) -> (r: String) {
        String::new()
    }

    fn query(&self) -> (r: QueryParams) {
        self.query_string.duplicate()
    }
}

} // verus!
