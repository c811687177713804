//! The request descriptor: what any resource exposes to be sent, its path,
//! its query parameters and the address they resolve to.
use vstd::prelude::*;

use crate::error::ClientError;
use crate::query::{opt_view, pairs_view, QueryParams};

verus! {

/// The base address of the calendar service.
pub const BASE_URL: &'static str = "https://www.googleapis.com/calendar/v3";

/// What a resource exposes to be sent: the base address of its service, its
/// path below it (with an optional action segment), and its query parameters.
pub trait Sendable {
    /// The base address of the resource's service.
    spec fn spec_base(&self) -> Seq<char>;

    /// The resource's path for an optional action.
    spec fn spec_path(&self, action: Option<Seq<char>>) -> Seq<char>;

    /// The resource's query parameters, in ascending order of names.
    spec fn spec_query(&self) -> Seq<(Seq<char>, Seq<char>)>;

    /// The base address of the resource's service.
    fn base(&self) -> (r: &'static str)
        ensures
            r@ == self.spec_base(),
    ;

    /// The resource's path below the base, for an optional action.
    fn path(&self, action: Option<String>) -> (r: String)
        ensures
            r@ == self.spec_path(opt_view(action)),
    ;

    /// The resource's query parameters.
    fn query(&self) -> (r: QueryParams)
        ensures
            r@ == self.spec_query(),
    ;
}

/// The address that parsing `address` gives, with `pairs` appended as its
/// query in `application/x-www-form-urlencoded` form; `None` when `address`
/// does not parse.
pub uninterp spec fn url_with_params(
    address: Seq<char>,
    pairs: Seq<(Seq<char>, Seq<char>)>,
) -> Option<Seq<char>>;

/// The address of a resource before its query: base, `/`, path; the base
/// alone when the path is empty.
pub open spec fn resource_address(base: Seq<char>, path: Seq<char>) -> Seq<char> {
    if path.len() == 0 {
        base
    } else {
        base + seq!['/'] + path
    }
}

/// Relies on url's `Url::parse_with_params`, which parses `address` and
/// appends each pair to its query in order, and on `Url`'s text form.
#[verifier::external_body]
fn parse_with_params(address: &str, pairs: &Vec<(String, String)>) -> (r: Result<
    String,
    url::ParseError,
>)
    ensures
        r matches Ok(u) ==> url_with_params(address@, pairs_view(pairs@)) == Some(u@),
        r is Err ==> url_with_params(address@, pairs_view(pairs@)) is None,
{
    url::Url::parse_with_params(address, pairs.iter()).map(|u| u.to_string())
}

/// Relies on url's `Display` of `ParseError`: its description.
#[verifier::external_body]
fn parse_error_text(e: &url::ParseError) -> (r: String) {
    e.to_string()
}

/// The full address of `target` for `action`: its base, `/` and its path
/// (the base alone for an empty path), then
/// its query parameters in ascending order of names. Fails with
/// `UnknownError` exactly when that address does not parse.
pub fn resolve_url<T: Sendable>(target: &T, action: Option<String>) -> (r: Result<String, ClientError>)
    ensures
        ({
            let expected = url_with_params(
                resource_address(target.spec_base(), target.spec_path(opt_view(action))),
                target.spec_query(),
            );
            match r {
                Ok(u) => expected == Some(u@),
                Err(e) => expected is None && e is UnknownError,
            }
        }),
{
    let path = target.path(action);
    let query = target.query();
    let address = if path.as_str().unicode_len() == 0 {
        String::from_str(target.base())
    } else {
        String::from_str(target.base()).concat("/").concat(path.as_str())
    };
    proof {
        reveal_strlit("/");
    }
    assert(address@ =~= resource_address(target.spec_base(), target.spec_path(opt_view(action))));
    match parse_with_params(address.as_str(), query.pairs()) {
        Ok(u) => Ok(u),
        Err(e) => Err(ClientError::UnknownError(parse_error_text(&e))),
    }
}

#[verifier::external_type_specification]
#[verifier::external_body]
pub struct ExParseError(url::ParseError);

} // verus!
