use vstd::prelude::*;

verus! {

/// What went wrong while resolving a tracking number.
#[derive(Clone, PartialEq, Eq, Debug)]
pub enum TrackingError {
    /// The transport failed: timeout, bad status, connection or malformed response.
    RequestFailed(String),
    /// The number does not have the courier's format; holds a hint on the expected format.
    WrongTrackingNumber(String),
    /// The courier reports that it does not know the number.
    NotExistsTrackingNumber,
    /// The courier's response lacked something the parser relies on.
    ParsingError(String),
}

/// `TrackingError` with its texts as character sequences.
pub enum ErrorView {
    RequestFailed(Seq<char>),
    WrongTrackingNumber(Seq<char>),
    NotExistsTrackingNumber,
    ParsingError(Seq<char>),
}

impl View for TrackingError {
    type V = ErrorView;

    open spec fn view(&self) -> ErrorView {
        match self {
            TrackingError::RequestFailed(d) => ErrorView::RequestFailed(d@),
            TrackingError::WrongTrackingNumber(h) => ErrorView::WrongTrackingNumber(h@),
            TrackingError::NotExistsTrackingNumber => ErrorView::NotExistsTrackingNumber,
            TrackingError::ParsingError(d) => ErrorView::ParsingError(d@),
        }
    }
}

impl TrackingError {
    /// The status number that remote callers report for this error: 1 to 4 in
    /// the order of the variants (0 stands for success).
    pub fn status_code(&self) -> (r: u8)
        ensures
            r == match self {
                TrackingError::RequestFailed(_) => 1u8,
                TrackingError::WrongTrackingNumber(_) => 2u8,
                TrackingError::NotExistsTrackingNumber => 3u8,
                TrackingError::ParsingError(_) => 4u8,
            },
    {
        match self {
            TrackingError::RequestFailed(_) => 1,
            TrackingError::WrongTrackingNumber(_) => 2,
            TrackingError::NotExistsTrackingNumber => 3,
            TrackingError::ParsingError(_) => 4,
        }
    }
}

} // verus!
