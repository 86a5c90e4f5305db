use vstd::prelude::*;

verus! {

/// The JavaScript error class that a failure is thrown as.
#[derive(Clone, Copy, Debug, PartialEq, Eq, Structural)]
pub enum ErrorClass {
    /// A plain `Error`.
    Error,
    /// A `TypeError`.
    TypeError,
    /// A `ReferenceError`.
    ReferenceError,
}

/// Why a fetch did not produce a response.
#[derive(Debug)]
pub enum FetchError {
    /// A URL (the requested one or a redirect target) is not a valid URI;
    /// the text is the parser's description.
    InvalidUri(String),
    /// The request could not be assembled (an invalid header name or value);
    /// the text is the description of the failure.
    InvalidRequest(String),
    /// The `method` option names a method that fetch does not send.
    InvalidMethod(String),
    /// The `redirect` option is none of `follow`, `manual` and `error`.
    InvalidRedirect(String),
    /// Neither the resource nor the options give a URL.
    MissingUrl,
    /// A redirect response arrived while the `redirect` option is `error`.
    UnexpectedRedirect,
    /// Too many redirects were followed.
    MaxRetriesExceeded,
}

/// The model of a [`FetchError`].
pub enum FetchErrorView {
    InvalidUri(Seq<char>),
    InvalidRequest(Seq<char>),
    InvalidMethod(Seq<char>),
    InvalidRedirect(Seq<char>),
    MissingUrl,
    UnexpectedRedirect,
    MaxRetriesExceeded,
}

impl View for FetchError {
    type V = FetchErrorView;

    open spec fn view(&self) -> FetchErrorView {
        match self {
            FetchError::InvalidUri(m) => FetchErrorView::InvalidUri(m@),
            FetchError::InvalidRequest(m) => FetchErrorView::InvalidRequest(m@),
            FetchError::InvalidMethod(m) => FetchErrorView::InvalidMethod(m@),
            FetchError::InvalidRedirect(m) => FetchErrorView::InvalidRedirect(m@),
            FetchError::MissingUrl => FetchErrorView::MissingUrl,
            FetchError::UnexpectedRedirect => FetchErrorView::UnexpectedRedirect,
            FetchError::MaxRetriesExceeded => FetchErrorView::MaxRetriesExceeded,
        }
    }
}

/// The message that a failure is thrown with.
pub open spec fn spec_error_message(e: FetchError) -> Seq<char> {
    match e {
        FetchError::InvalidUri(m) => m@,
        FetchError::InvalidRequest(m) => m@,
        FetchError::InvalidMethod(name) => "Invalid HTTP method: "@ + name@,
        FetchError::InvalidRedirect(opt) => "Invalid redirect option: "@ + opt@,
        FetchError::MissingUrl => "Missing required url"@,
        FetchError::UnexpectedRedirect => "Unexpected redirect"@,
        FetchError::MaxRetriesExceeded => "Max retries exceeded"@,
    }
}

/// The class of error that a failure is thrown as.
pub open spec fn spec_error_class(e: FetchError) -> ErrorClass {
    match e {
        FetchError::InvalidMethod(_) => ErrorClass::TypeError,
        FetchError::InvalidRedirect(_) => ErrorClass::TypeError,
        FetchError::MissingUrl => ErrorClass::ReferenceError,
        _ => ErrorClass::Error,
    }
}

impl FetchError {
    /// The message that this failure is thrown with.
    pub fn message(&self) -> (r: String)
        ensures
            r@ == spec_error_message(*self),
    {
        match self {
            FetchError::InvalidUri(m) => m.clone(),
            FetchError::InvalidRequest(m) => m.clone(),
            FetchError::InvalidMethod(name) => {
                String::from_str("Invalid HTTP method: ").concat(name.as_str())
            },
            FetchError::InvalidRedirect(opt) => {
                String::from_str("Invalid redirect option: ").concat(opt.as_str())
            },
            FetchError::MissingUrl => String::from_str("Missing required url"),
            FetchError::UnexpectedRedirect => String::from_str("Unexpected redirect"),
            FetchError::MaxRetriesExceeded => String::from_str("Max retries exceeded"),
        }
    }

    /// The class of error that this failure is thrown as.
    pub fn class(&self) -> (r: ErrorClass)
        ensures
            r == spec_error_class(*self),
    {
        match self {
            FetchError::InvalidMethod(_) => ErrorClass::TypeError,
            FetchError::InvalidRedirect(_) => ErrorClass::TypeError,
            FetchError::MissingUrl => ErrorClass::ReferenceError,
            _ => ErrorClass::Error,
        }
    }
}

} // verus!
