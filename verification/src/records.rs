use vstd::prelude::*;

verus! {

/// The four metadata fields kept for one video, each a plain string and
/// each empty when the source response did not carry it.
#[derive(Debug, PartialEq, Eq)]
pub struct VideoRecord {
    pub video_id: String,
    pub title: String,
    pub description: String,
    pub published_at: String,
}

/// Mathematical image of `VideoRecord`: its fields as character sequences.
#[verifier::ext_equal]
pub ghost struct RecordModel {
    pub video_id: Seq<char>,
    pub title: Seq<char>,
    pub description: Seq<char>,
    pub published_at: Seq<char>,
}

impl View for VideoRecord {
    type V = RecordModel;

    open spec fn view(&self) -> RecordModel {
        RecordModel {
            video_id: self.video_id@,
            title: self.title@,
            description: self.description@,
            published_at: self.published_at@,
        }
    }
}

impl DeepView for VideoRecord {
    type V = RecordModel;

    open spec fn deep_view(&self) -> RecordModel {
        self.view()
    }
}

impl Clone for VideoRecord {
    fn clone(&self) -> (r: Self)
        ensures
            r@ == self@,
    {
        VideoRecord {
            video_id: self.video_id.clone(),
            title: self.title.clone(),
            description: self.description.clone(),
            published_at: self.published_at.clone(),
        }
    }
}

/// What the channel-lookup response carries once decoded: the rendered
/// `error` payload when one is present, and the identifier found at the
/// first position of the `items` array when one is present.
pub struct ResolverPage {
    pub error_message: Option<String>,
    pub first_channel_id: Option<String>,
}

/// Mathematical image of `ResolverPage`.
#[verifier::ext_equal]
pub ghost struct ResolverModel {
    pub error_message: Option<Seq<char>>,
    pub first_channel_id: Option<Seq<char>>,
}

impl View for ResolverPage {
    type V = ResolverModel;

    open spec fn view(&self) -> ResolverModel {
        ResolverModel {
            error_message: self.error_message.deep_view(),
            first_channel_id: self.first_channel_id.deep_view(),
        }
    }
}

impl DeepView for ResolverPage {
    type V = ResolverModel;

    open spec fn deep_view(&self) -> ResolverModel {
        self.view()
    }
}

/// One decoded page of a search response: the rendered `error` payload
/// when one is present, the records extracted from the `items` array in
/// arrival order, and the continuation token when one is present.
pub struct SearchPage {
    pub error_message: Option<String>,
    pub items: Vec<VideoRecord>,
    pub next_page_token: Option<String>,
}

/// Mathematical image of `SearchPage`.
#[verifier::ext_equal]
pub ghost struct PageModel {
    pub error_message: Option<Seq<char>>,
    pub items: Seq<RecordModel>,
    pub next_page_token: Option<Seq<char>>,
}

impl View for SearchPage {
    type V = PageModel;

    open spec fn view(&self) -> PageModel {
        PageModel {
            error_message: self.error_message.deep_view(),
            items: self.items.deep_view(),
            next_page_token: self.next_page_token.deep_view(),
        }
    }
}

impl DeepView for SearchPage {
    type V = PageModel;

    open spec fn deep_view(&self) -> PageModel {
        self.view()
    }
}

} // verus!
