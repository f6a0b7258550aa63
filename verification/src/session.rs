//! The run itself, as a state machine. The caller owns the transport: it
//! asks for the next action, performs the one request or publication the
//! action names, and feeds each response body back. Every decision —
//! which request comes next, how a response moves the run forward, when
//! the run is finished or failed — is made and verified here.

use vstd::prelude::*;
use crate::failure::{ApiFailure, FailureModel};
use crate::records::{VideoRecord, RecordModel, ResolverModel, PageModel};
use crate::parse::{spec_resolver_page, spec_search_page, parse_search_page};
use crate::resolve::{spec_status_ok, status_ok, spec_resolve, resolve_channel};

verus! {

/// Where a run stands.
pub enum SessionState {
    /// The channel identifier is not known yet: the lookup comes next.
    Resolving,
    /// The identifier is known; pages are being fetched, continuing from
    /// `page_token` (`None` ahead of the first page).
    Listing { channel_id: String, page_token: Option<String> },
    /// Every page was consumed.
    Finished,
    /// A stage failed; the run stops and nothing is published.
    Failed { failure: ApiFailure },
}

/// Mathematical image of `SessionState`.
#[verifier::ext_equal]
pub ghost enum StateModel {
    Resolving,
    Listing { channel_id: Seq<char>, page_token: Option<Seq<char>> },
    Finished,
    Failed { failure: FailureModel },
}

impl View for SessionState {
    type V = StateModel;

    open spec fn view(&self) -> StateModel {
        match self {
            SessionState::Resolving => StateModel::Resolving,
            SessionState::Listing { channel_id, page_token } => StateModel::Listing {
                channel_id: channel_id@,
                page_token: page_token.deep_view(),
            },
            SessionState::Finished => StateModel::Finished,
            SessionState::Failed { failure } => StateModel::Failed { failure: failure@ },
        }
    }
}

/// What the caller must do next.
#[derive(Debug)]
pub enum Action {
    /// Issue the channel-lookup request for this handle and feed the
    /// response to `feed_lookup`.
    LookupChannel { handle: String },
    /// Issue one search request for this channel, continuing from this
    /// token, and feed the response to `feed_page`.
    FetchPage { channel_id: String, page_token: Option<String> },
    /// Every page was consumed: the collected records are ready.
    Publish,
    /// The run failed: report the failure; nothing is published.
    Abort { failure: ApiFailure },
}

/// Mathematical image of `Action`.
#[verifier::ext_equal]
pub ghost enum ActionModel {
    LookupChannel { handle: Seq<char> },
    FetchPage { channel_id: Seq<char>, page_token: Option<Seq<char>> },
    Publish,
    Abort { failure: FailureModel },
}

impl View for Action {
    type V = ActionModel;

    open spec fn view(&self) -> ActionModel {
        match self {
            Action::LookupChannel { handle } => ActionModel::LookupChannel { handle: handle@ },
            Action::FetchPage { channel_id, page_token } => ActionModel::FetchPage {
                channel_id: channel_id@,
                page_token: page_token.deep_view(),
            },
            Action::Publish => ActionModel::Publish,
            Action::Abort { failure } => ActionModel::Abort { failure: failure@ },
        }
    }
}

/// One run: the handle it serves, the records collected so far, where it
/// stands, and (for specification only) how many pages were requested.
pub struct Session {
    pub handle: String,
    pub videos: Vec<VideoRecord>,
    pub state: SessionState,
    pub pages_fetched: Ghost<nat>,
}

/// Mathematical image of `Session`.
#[verifier::ext_equal]
pub ghost struct SessionModel {
    pub handle: Seq<char>,
    pub videos: Seq<RecordModel>,
    pub state: StateModel,
    pub pages_fetched: nat,
}

impl View for Session {
    type V = SessionModel;

    open spec fn view(&self) -> SessionModel {
        SessionModel {
            handle: self.handle@,
            videos: self.videos.deep_view(),
            state: self.state@,
            pages_fetched: self.pages_fetched@,
        }
    }
}

/// A fresh run for a handle: no records, nothing fetched, lookup ahead.
pub open spec fn spec_start(handle: Seq<char>) -> SessionModel {
    SessionModel {
        handle,
        videos: Seq::empty(),
        state: StateModel::Resolving,
        pages_fetched: 0,
    }
}

/// The caller's next step, a function of the state alone.
pub open spec fn spec_next_action(m: SessionModel) -> ActionModel {
    match m.state {
        StateModel::Resolving => ActionModel::LookupChannel { handle: m.handle },
        StateModel::Listing { channel_id, page_token } => ActionModel::FetchPage {
            channel_id,
            page_token,
        },
        StateModel::Finished => ActionModel::Publish,
        StateModel::Failed { failure } => ActionModel::Abort { failure },
    }
}

/// How a lookup response moves the run: the resolution outcome either
/// opens the listing stage with the identifier and no token, or fails
/// the run.
pub open spec fn spec_lookup_step(
    m: SessionModel,
    status: u16,
    page: Option<ResolverModel>,
) -> SessionModel {
    match spec_resolve(status, page) {
        Ok(id) => SessionModel {
            state: StateModel::Listing { channel_id: id, page_token: None },
            ..m
        },
        Err(f) => SessionModel { state: StateModel::Failed { failure: f }, ..m },
    }
}

/// How one page response moves the run. Every response counts as one
/// request made. A non-success status, an undecodable body, or an `error`
/// member fails the run; otherwise the page's records are appended in
/// arrival order and the run continues from the page's token, or is
/// finished when the page carries none.
pub open spec fn spec_page_step(
    m: SessionModel,
    status: u16,
    page: Option<PageModel>,
) -> SessionModel
    recommends
        m.state is Listing,
{
    let channel_id = match m.state {
        StateModel::Listing { channel_id, .. } => channel_id,
        _ => Seq::empty(),
    };
    let counted = SessionModel { pages_fetched: m.pages_fetched + 1, ..m };
    if !spec_status_ok(status) {
        SessionModel {
            state: StateModel::Failed { failure: FailureModel::Transport { status } },
            ..counted
        }
    } else {
        match page {
            None => SessionModel {
                state: StateModel::Failed { failure: FailureModel::Shape },
                ..counted
            },
            Some(p) => match p.error_message {
                Some(message) => SessionModel {
                    state: StateModel::Failed { failure: FailureModel::Api { message } },
                    ..counted
                },
                None => match p.next_page_token {
                    Some(t) => SessionModel {
                        videos: m.videos + p.items,
                        state: StateModel::Listing { channel_id, page_token: Some(t) },
                        ..counted
                    },
                    None => SessionModel {
                        videos: m.videos + p.items,
                        state: StateModel::Finished,
                        ..counted
                    },
                },
            },
        }
    }
}

impl Session {
    /// Begins a run for a handle.
    pub fn new(handle: String) -> (s: Session)
        ensures
            s@ == spec_start(handle@),
    {
        let s = Session {
            handle,
            videos: Vec::new(),
            state: SessionState::Resolving,
            pages_fetched: Ghost(0),
        };
        proof {
            assert(s@ =~~= spec_start(s.handle@));
        }
        s
    }

    /// The caller's next step.
    pub fn next_action(&self) -> (a: Action)
        ensures
            a@ == spec_next_action(self@),
    {
        match &self.state {
            SessionState::Resolving => Action::LookupChannel { handle: self.handle.clone() },
            SessionState::Listing { channel_id, page_token } => Action::FetchPage {
                channel_id: channel_id.clone(),
                page_token: clone_token(page_token),
            },
            SessionState::Finished => Action::Publish,
            SessionState::Failed { failure } => Action::Abort { failure: failure.clone() },
        }
    }

    /// Feeds the channel-lookup response in.
    pub fn feed_lookup(&mut self, status: u16, body: &str)
        requires
            old(self).state is Resolving,
        ensures
            final(self)@ == spec_lookup_step(old(self)@, status, spec_resolver_page(body@)),
    {
        let outcome = resolve_channel(status, body);
        match outcome {
            Ok(id) => {
                self.state = SessionState::Listing { channel_id: id, page_token: None };
            },
            Err(f) => {
                self.state = SessionState::Failed { failure: f };
            },
        }
    }

    /// Feeds one search-page response in.
    pub fn feed_page(&mut self, status: u16, body: &str)
        requires
            old(self).state is Listing,
        ensures
            final(self)@ == spec_page_step(old(self)@, status, spec_search_page(body@)),
    {
        let channel_id = match &self.state {
            SessionState::Listing { channel_id, .. } => channel_id.clone(),
            _ => String::new(),
        };
        proof {
            self.pages_fetched@ = self.pages_fetched@ + 1;
        }
        if !status_ok(status) {
            self.state = SessionState::Failed { failure: ApiFailure::Transport { status } };
        } else {
            match parse_search_page(body) {
                None => {
                    self.state = SessionState::Failed { failure: ApiFailure::Shape };
                },
                Some(page) => {
                    match page.error_message {
                        Some(message) => {
                            self.state = SessionState::Failed {
                                failure: ApiFailure::Api { message },
                            };
                        },
                        None => {
                            let mut fresh = page.items;
                            self.videos.append(&mut fresh);
                            match page.next_page_token {
                                Some(t) => {
                                    self.state = SessionState::Listing {
                                        channel_id,
                                        page_token: Some(t),
                                    };
                                },
                                None => {
                                    self.state = SessionState::Finished;
                                },
                            }
                        },
                    }
                },
            }
        }
        proof {
            assert(self@ =~~= spec_page_step(old(self)@, status, spec_search_page(body@)));
        }
    }
}

/// Every page of the sequence is free of an `error` member.
pub open spec fn all_pages_ok(pages: Seq<PageModel>) -> bool {
    forall|i: int| 0 <= i < pages.len() ==> (#[trigger] pages[i]).error_message is None
}

/// Every page but the last carries a continuation token, and the last
/// carries none.
pub open spec fn chained(pages: Seq<PageModel>) -> bool {
    &&& forall|i: int|
        0 <= i < pages.len() - 1 ==> (#[trigger] pages[i]).next_page_token is Some
    &&& pages.len() > 0 ==> pages.last().next_page_token is None
}

/// The records of the pages, concatenated in arrival order.
pub open spec fn collected_items(pages: Seq<PageModel>) -> Seq<RecordModel>
    decreases pages.len(),
{
    if pages.len() == 0 {
        Seq::empty()
    } else {
        pages.first().items + collected_items(pages.drop_first())
    }
}

/// The run after each page of the sequence was fetched with a success
/// status and fed in turn.
pub open spec fn spec_feed_pages(m: SessionModel, pages: Seq<PageModel>) -> SessionModel
    decreases pages.len(),
{
    if pages.len() == 0 {
        m
    } else {
        spec_feed_pages(spec_page_step(m, 200, Some(pages.first())), pages.drop_first())
    }
}

/// Law of pagination: a listing run fed a token-chained sequence of
/// successful pages makes exactly one request per page, ends finished,
/// and collects every record of every page, in arrival order, with no
/// duplicates and no omissions beyond that concatenation.
pub proof fn lemma_pagination_collects_all(m: SessionModel, pages: Seq<PageModel>)
    requires
        m.state is Listing,
        pages.len() > 0,
        all_pages_ok(pages),
        chained(pages),
    ensures
        spec_feed_pages(m, pages).state is Finished,
        spec_feed_pages(m, pages).videos == m.videos + collected_items(pages),
        spec_feed_pages(m, pages).pages_fetched == m.pages_fetched + pages.len(),
    decreases pages.len(),
{
    let first = pages.first();
    let rest = pages.drop_first();
    let m1 = spec_page_step(m, 200, Some(first));
    assert(first == pages[0]);
    if pages.len() == 1 {
        assert(first.next_page_token is None);
        assert(collected_items(pages) =~= first.items + Seq::<RecordModel>::empty());
        assert(m1.videos =~= m.videos + collected_items(pages));
    } else {
        assert(first.next_page_token is Some);
        assert(m1.state is Listing);
        assert(all_pages_ok(rest)) by {
            assert forall|i: int| 0 <= i < rest.len() implies (#[trigger] rest[i]).error_message
                is None by {
                assert(rest[i] == pages[i + 1]);
            }
        }
        assert(chained(rest)) by {
            assert forall|i: int| 0 <= i < rest.len() - 1 implies (#[trigger] rest[i]).next_page_token
                is Some by {
                assert(rest[i] == pages[i + 1]);
            }
            assert(rest.last() == pages.last());
        }
        lemma_pagination_collects_all(m1, rest);
        assert(m1.videos + collected_items(rest) =~= m.videos + collected_items(pages));
    }
}

/// Law of early abort: when the lookup response carries a non-success
/// status, the run fails at once — whatever the body held — and its next
/// action is to abort, never a page request; no page has been fetched.
pub proof fn lemma_failed_lookup_aborts(m: SessionModel, status: u16, page: Option<ResolverModel>)
    requires
        m.state is Resolving,
        !spec_status_ok(status),
    ensures
        spec_lookup_step(m, status, page).state == (StateModel::Failed {
            failure: FailureModel::Transport { status },
        }),
        spec_next_action(spec_lookup_step(m, status, page)) == (ActionModel::Abort {
            failure: FailureModel::Transport { status },
        }),
        spec_lookup_step(m, status, page).pages_fetched == m.pages_fetched,
{
}

/// Law of abandoned progress: when any page response fails — by status,
/// by shape, or by an `error` member — the run fails and its next action
/// is to abort, so the records accumulated so far are never published.
pub proof fn lemma_page_failure_aborts(m: SessionModel, status: u16, page: Option<PageModel>)
    requires
        m.state is Listing,
        !spec_status_ok(status) || page is None || (page matches Some(p) && p.error_message
            is Some),
    ensures
        spec_page_step(m, status, page).state is Failed,
        spec_next_action(spec_page_step(m, status, page)) is Abort,
{
}

/// Clones a continuation token.
fn clone_token(t: &Option<String>) -> (r: Option<String>)
    ensures
        r.deep_view() == t.deep_view(),
{
    match t {
        Some(s) => Some(s.clone()),
        None => None,
    }
}

} // verus!
