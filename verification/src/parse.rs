//! Verified decoding of response bodies into the crate's own data types.
//! The shape of each response is fixed here: which fields are read, from
//! which nested paths, and what happens when any of them is absent.

use vstd::prelude::*;
use crate::json_raw::{json_of, json_field, json_items, json_str, json_text};
use crate::json_raw::{parse_json, get_field, as_items, as_text, render};
use crate::records::{VideoRecord, RecordModel, ResolverPage, ResolverModel, SearchPage, PageModel};

verus! {

/// The rendered `error` member of a decoded body, when one is present.
pub open spec fn spec_error_message(v: serde_json::Value) -> Option<Seq<char>> {
    match json_field(v, "error"@) {
        Some(e) => Some(json_text(e)),
        None => None,
    }
}

/// The string found at the first position of the `items` array under its
/// `id` member, when every step of that path is present.
pub open spec fn spec_first_channel_id(v: serde_json::Value) -> Option<Seq<char>> {
    match json_field(v, "items"@) {
        Some(entries) => match json_items(entries) {
            Some(arr) => if arr.len() > 0 {
                match json_field(arr[0], "id"@) {
                    Some(idv) => json_str(idv),
                    None => None,
                }
            } else {
                None
            },
            None => None,
        },
        None => None,
    }
}

/// What decoding a channel-lookup body yields: nothing when the text is
/// not JSON, else the rendered `error` member and the first identifier.
pub open spec fn spec_resolver_page(s: Seq<char>) -> Option<ResolverModel> {
    match json_of(s) {
        Some(v) => Some(
            ResolverModel {
                error_message: spec_error_message(v),
                first_channel_id: spec_first_channel_id(v),
            },
        ),
        None => None,
    }
}

/// A string member of a decoded value, or the empty sequence when the
/// member is absent or not a string.
pub open spec fn spec_str_member(v: serde_json::Value, key: Seq<char>) -> Seq<char> {
    match json_field(v, key) {
        Some(f) => match json_str(f) {
            Some(s) => s,
            None => Seq::empty(),
        },
        None => Seq::empty(),
    }
}

/// The record extracted from one element of a search response's `items`
/// array: the identifier from `id.videoId`, and title, description and
/// publication timestamp from the `snippet` member; every absent field
/// defaults to the empty string.
pub open spec fn spec_item_record(v: serde_json::Value) -> RecordModel {
    RecordModel {
        video_id: match json_field(v, "id"@) {
            Some(idv) => spec_str_member(idv, "videoId"@),
            None => Seq::empty(),
        },
        title: match json_field(v, "snippet"@) {
            Some(sn) => spec_str_member(sn, "title"@),
            None => Seq::empty(),
        },
        description: match json_field(v, "snippet"@) {
            Some(sn) => spec_str_member(sn, "description"@),
            None => Seq::empty(),
        },
        published_at: match json_field(v, "snippet"@) {
            Some(sn) => spec_str_member(sn, "publishedAt"@),
            None => Seq::empty(),
        },
    }
}

/// The records of a decoded search body, in arrival order; a body whose
/// `items` member is absent or not an array contributes no records.
pub open spec fn spec_page_items(v: serde_json::Value) -> Seq<RecordModel> {
    match json_field(v, "items"@) {
        Some(entries) => match json_items(entries) {
            Some(arr) => arr.map_values(|e: serde_json::Value| spec_item_record(e)),
            None => Seq::empty(),
        },
        None => Seq::empty(),
    }
}

/// The continuation token of a decoded search body, when one is present
/// as a string member named `nextPageToken`.
pub open spec fn spec_next_token(v: serde_json::Value) -> Option<Seq<char>> {
    match json_field(v, "nextPageToken"@) {
        Some(t) => json_str(t),
        None => None,
    }
}

/// What decoding a search body yields: nothing when the text is not JSON,
/// else the rendered `error` member, the records in arrival order, and
/// the continuation token when one is present.
pub open spec fn spec_search_page(s: Seq<char>) -> Option<PageModel> {
    match json_of(s) {
        Some(v) => Some(
            PageModel {
                error_message: spec_error_message(v),
                items: spec_page_items(v),
                next_page_token: spec_next_token(v),
            },
        ),
        None => None,
    }
}

/// Decodes a channel-lookup body.
pub fn parse_resolver_page(body: &str) -> (r: Option<ResolverPage>)
    ensures
        r.deep_view() == spec_resolver_page(body@),
{
    match parse_json(body) {
        None => None,
        Some(v) => {
            let error_message: Option<String> = match get_field(&v, "error") {
                Some(e) => Some(render(e)),
                None => None,
            };
            let first_channel_id: Option<String> = match get_field(&v, "items") {
                Some(entries) => match as_items(entries) {
                    Some(arr) => if arr.len() > 0 {
                        match get_field(&arr[0], "id") {
                            Some(idv) => match as_text(idv) {
                                Some(s) => Some(s.to_owned()),
                                None => None,
                            },
                            None => None,
                        }
                    } else {
                        None
                    },
                    None => None,
                },
                None => None,
            };
            Some(ResolverPage { error_message, first_channel_id })
        },
    }
}

/// Extracts a string member, defaulting to the empty string when the
/// member is absent or not a string.
fn str_member(v: &serde_json::Value, key: &str) -> (r: String)
    ensures
        r@ == spec_str_member(*v, key@),
{
    match get_field(v, key) {
        Some(f) => match as_text(f) {
            Some(s) => s.to_owned(),
            None => String::new(),
        },
        None => String::new(),
    }
}

/// Extracts the four kept fields from one element of a search response's
/// `items` array.
fn extract_record(v: &serde_json::Value) -> (r: VideoRecord)
    ensures
        r@ == spec_item_record(*v),
{
    let video_id: String = match get_field(v, "id") {
        Some(idv) => str_member(idv, "videoId"),
        None => String::new(),
    };
    let (title, description, published_at): (String, String, String) = match get_field(v, "snippet") {
        Some(sn) => (str_member(sn, "title"), str_member(sn, "description"), str_member(sn, "publishedAt")),
        None => (String::new(), String::new(), String::new()),
    };
    VideoRecord { video_id, title, description, published_at }
}

/// Decodes a search body.
pub fn parse_search_page(body: &str) -> (r: Option<SearchPage>)
    ensures
        r.deep_view() == spec_search_page(body@),
{
    match parse_json(body) {
        None => None,
        Some(v) => {
            let error_message: Option<String> = match get_field(&v, "error") {
                Some(e) => Some(render(e)),
                None => None,
            };
            let mut items: Vec<VideoRecord> = Vec::new();
            match get_field(&v, "items") {
                Some(entries) => match as_items(entries) {
                    Some(arr) => {
                        let n = arr.len();
                        let mut i: usize = 0;
                        while i < n
                            invariant
                                i <= n,
                                n == arr@.len(),
                                items@.len() == i as int,
                                forall|j: int| 0 <= j < i as int ==> (#[trigger] items@[j])@ == spec_item_record(arr@[j]),
                            decreases n - i,
                        {
                            let rec = extract_record(&arr[i]);
                            items.push(rec);
                            i += 1;
                        }
                        proof {
                            assert(items.deep_view() =~= spec_page_items(v));
                        }
                    },
                    None => {
                        proof {
                            assert(items.deep_view() =~= spec_page_items(v));
                        }
                    },
                },
                None => {
                    proof {
                        assert(items.deep_view() =~= spec_page_items(v));
                    }
                },
            }
            let next_page_token: Option<String> = match get_field(&v, "nextPageToken") {
                Some(t) => match as_text(t) {
                    Some(s) => Some(s.to_owned()),
                    None => None,
                },
                None => None,
            };
            let page = SearchPage { error_message, items, next_page_token };
            proof {
                assert(page.deep_view() =~~= spec_search_page(body@)->Some_0);
            }
            Some(page)
        },
    }
}

} // verus!
