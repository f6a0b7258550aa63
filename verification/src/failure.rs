use vstd::prelude::*;

verus! {

/// The ways a fetching stage can fail, as a closed set of tagged
/// variants so that callers can distinguish and test each path.
#[derive(Debug)]
pub enum ApiFailure {
    /// The HTTP response carried a non-success status.
    Transport { status: u16 },
    /// The response body was well-formed JSON carrying an `error` field;
    /// the field's rendered text is kept as the message.
    Api { message: String },
    /// The response body was not JSON of the expected shape.
    Shape,
    /// The lookup succeeded but named no channel.
    ChannelNotFound,
}

/// Mathematical image of `ApiFailure`: the message as a character sequence.
#[verifier::ext_equal]
pub ghost enum FailureModel {
    Transport { status: u16 },
    Api { message: Seq<char> },
    Shape,
    ChannelNotFound,
}

impl View for ApiFailure {
    type V = FailureModel;

    open spec fn view(&self) -> FailureModel {
        match self {
            ApiFailure::Transport { status } => FailureModel::Transport { status: *status },
            ApiFailure::Api { message } => FailureModel::Api { message: message@ },
            ApiFailure::Shape => FailureModel::Shape,
            ApiFailure::ChannelNotFound => FailureModel::ChannelNotFound,
        }
    }
}

impl Clone for ApiFailure {
    fn clone(&self) -> (r: Self)
        ensures
            r@ == self@,
    {
        match self {
            ApiFailure::Transport { status } => ApiFailure::Transport { status: *status },
            ApiFailure::Api { message } => ApiFailure::Api { message: message.clone() },
            ApiFailure::Shape => ApiFailure::Shape,
            ApiFailure::ChannelNotFound => ApiFailure::ChannelNotFound,
        }
    }
}

} // verus!
