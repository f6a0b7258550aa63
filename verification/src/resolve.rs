//! The channel-resolution stage: interpreting one lookup response as
//! either a channel identifier or a tagged failure.

use vstd::prelude::*;
use crate::failure::{ApiFailure, FailureModel};
use crate::records::{ResolverPage, ResolverModel};
use crate::parse::{spec_resolver_page, parse_resolver_page};

verus! {

/// Whether an HTTP status code signals success.
pub open spec fn spec_status_ok(status: u16) -> bool {
    200 <= status < 300
}

pub fn status_ok(status: u16) -> (r: bool)
    ensures
        r == spec_status_ok(status),
{
    200 <= status && status < 300
}

/// Mathematical image of a resolution outcome.
pub open spec fn outcome_model(r: Result<String, ApiFailure>) -> Result<Seq<char>, FailureModel> {
    match r {
        Ok(id) => Ok(id@),
        Err(f) => Err(f@),
    }
}

/// What resolution decides. A non-success status fails as a transport
/// error before the body is considered; a body that is not JSON of the
/// expected shape fails as a shape error; a body carrying an `error`
/// member fails with its rendered text; a body naming no channel fails
/// as channel-not-found; only a body carrying an identifier succeeds.
pub open spec fn spec_resolve(status: u16, page: Option<ResolverModel>) -> Result<
    Seq<char>,
    FailureModel,
> {
    if !spec_status_ok(status) {
        Err(FailureModel::Transport { status })
    } else {
        match page {
            None => Err(FailureModel::Shape),
            Some(p) => match p.error_message {
                Some(m) => Err(FailureModel::Api { message: m }),
                None => match p.first_channel_id {
                    Some(id) => Ok(id),
                    None => Err(FailureModel::ChannelNotFound),
                },
            },
        }
    }
}

/// Decides the outcome of channel resolution from the response status and
/// the decoded lookup body. A lookup that names no channel is never taken
/// for a success: it yields the channel-not-found failure.
pub fn decide_resolution(status: u16, page: Option<ResolverPage>) -> (r: Result<String, ApiFailure>)
    ensures
        outcome_model(r) == spec_resolve(status, page.deep_view()),
        (page matches Some(p) && spec_status_ok(status) && p@.error_message is None
            && p@.first_channel_id is None) ==> r == Err::<String, ApiFailure>(
            ApiFailure::ChannelNotFound,
        ),
{
    if !status_ok(status) {
        Err(ApiFailure::Transport { status })
    } else {
        match page {
            None => Err(ApiFailure::Shape),
            Some(p) => match p.error_message {
                Some(m) => Err(ApiFailure::Api { message: m }),
                None => match p.first_channel_id {
                    Some(id) => Ok(id),
                    None => Err(ApiFailure::ChannelNotFound),
                },
            },
        }
    }
}

/// Resolves a channel from one lookup response: decodes the body and
/// decides the outcome.
pub fn resolve_channel(status: u16, body: &str) -> (r: Result<String, ApiFailure>)
    ensures
        outcome_model(r) == spec_resolve(status, spec_resolver_page(body@)),
{
    let page = parse_resolver_page(body);
    decide_resolution(status, page)
}

} // verus!
