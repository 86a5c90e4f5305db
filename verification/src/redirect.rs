use vstd::prelude::*;

use crate::error::{FetchError, FetchErrorView};
use crate::method::{spec_method_name, spec_should_change_method, HttpMethod};
use crate::request::{assembly_outcome, parsed_method, request_body, request_method, request_uri, build_request, plan_request, headers_view, spec_plan_request, HeaderPair, RequestPlan};
use crate::text::str_equals;
use crate::uri::{
    parse_uri, parse_uri_text, spec_parse_uri, uri_error_message, uri_value, ParsedUri, UriView,
};

verus! {

/// How many redirects a fetch follows at most before it gives up.
pub const MAX_REDIRECT_COUNT: u32 = 20;

/// What a fetch does with a redirect response (the `redirect` option).
#[derive(Clone, Copy, Debug, PartialEq, Eq, Structural)]
pub enum RedirectMode {
    /// Follow it (the default).
    Follow,
    /// Deliver it as the response.
    Manual,
    /// Fail.
    Error,
}

/// The mode that a `redirect` option names, if any.
pub open spec fn spec_redirect_mode_named(name: Seq<char>) -> Option<RedirectMode> {
    if name == "follow"@ {
        Some(RedirectMode::Follow)
    } else if name == "manual"@ {
        Some(RedirectMode::Manual)
    } else if name == "error"@ {
        Some(RedirectMode::Error)
    } else {
        None
    }
}

/// Reads the `redirect` option: `follow`, `manual` or `error`, or an
/// `InvalidRedirect` error that carries the text given.
pub fn parse_redirect_mode(name: &str) -> (r: Result<RedirectMode, FetchError>)
    ensures
        match spec_redirect_mode_named(name@) {
            Some(m) => r == Ok::<RedirectMode, FetchError>(m),
            None => r matches Err(e) && e@ == FetchErrorView::InvalidRedirect(name@),
        },
{
    if str_equals(name, "follow") {
        Ok(RedirectMode::Follow)
    } else if str_equals(name, "manual") {
        Ok(RedirectMode::Manual)
    } else if str_equals(name, "error") {
        Ok(RedirectMode::Error)
    } else {
        Err(FetchError::InvalidRedirect(String::from_str(name)))
    }
}

/// The `location` header of a response, as the response gives it.
pub enum LocationHeader {
    /// The response has none.
    Absent,
    /// The response has one whose value is not visible ASCII text.
    Unreadable,
    /// The response has one with this text.
    Text(String),
}

/// The `location` header of a response, once its text is parsed.
pub enum Location {
    /// The response has none: it is the final response.
    Absent,
    /// The response has one whose value is not text; the URI is kept.
    Unreadable,
    /// The text is not a URI; the parser's description.
    Invalid(String),
    /// The URI that the response redirects to.
    Target(ParsedUri),
}

/// The model of a [`Location`].
pub enum LocationView {
    Absent,
    Unreadable,
    Invalid(Seq<char>),
    Target(UriView),
}

impl View for Location {
    type V = LocationView;

    open spec fn view(&self) -> LocationView {
        match self {
            Location::Absent => LocationView::Absent,
            Location::Unreadable => LocationView::Unreadable,
            Location::Invalid(m) => LocationView::Invalid(m@),
            Location::Target(u) => LocationView::Target(u@),
        }
    }
}

/// The location that a `location` header gives, once parsed.
pub open spec fn spec_read_location(h: LocationHeader) -> LocationView {
    match h {
        LocationHeader::Absent => LocationView::Absent,
        LocationHeader::Unreadable => LocationView::Unreadable,
        LocationHeader::Text(t) => match spec_parse_uri(t@) {
            Some(u) => LocationView::Target(u),
            None => LocationView::Invalid(uri_error_message(t@)),
        },
    }
}

/// Parses the text of a `location` header.
pub fn read_location(h: LocationHeader) -> (r: Location)
    ensures
        r@ == spec_read_location(h),
{
    match h {
        LocationHeader::Absent => Location::Absent,
        LocationHeader::Unreadable => Location::Unreadable,
        LocationHeader::Text(t) => match parse_uri_text(t.as_str()) {
            Ok(u) => Location::Target(u),
            Err(m) => Location::Invalid(m),
        },
    }
}

/// What a fetch does next after a response.
pub enum RedirectAction {
    /// The response is the result; `redirected` tells whether a redirect
    /// was followed to get it.
    Deliver { redirected: bool },
    /// Send the next request, to the URI that the state now holds.
    Follow,
    /// The fetch fails.
    Fail(FetchError),
}

/// The model of a [`RedirectAction`].
pub enum RedirectActionView {
    Deliver { redirected: bool },
    Follow,
    Fail(FetchErrorView),
}

impl View for RedirectAction {
    type V = RedirectActionView;

    open spec fn view(&self) -> RedirectActionView {
        match self {
            RedirectAction::Deliver { redirected } => RedirectActionView::Deliver {
                redirected: *redirected,
            },
            RedirectAction::Follow => RedirectActionView::Follow,
            RedirectAction::Fail(e) => RedirectActionView::Fail(e@),
        }
    }
}

/// The decision taken on a response.
pub struct RedirectDecision {
    /// Whether the redirect target that the state now holds must pass the
    /// access check before the action is taken (a failed check fails the
    /// fetch first).
    pub check_access: bool,
    pub action: RedirectAction,
}

/// The model of a [`RedirectDecision`].
pub struct RedirectDecisionView {
    pub check_access: bool,
    pub action: RedirectActionView,
}

impl View for RedirectDecision {
    type V = RedirectDecisionView;

    open spec fn view(&self) -> RedirectDecisionView {
        RedirectDecisionView { check_access: self.check_access, action: self.action@ }
    }
}

/// Where a fetch stands between its requests.
#[derive(Debug)]
pub struct RedirectState {
    method: HttpMethod,
    mode: RedirectMode,
    initial_uri: ParsedUri,
    uri: ParsedUri,
    redirect_count: u32,
    prev_status: u16,
}

/// The model of a [`RedirectState`].
pub struct RedirectStateView {
    /// The method that the fetch asked for.
    pub method: HttpMethod,
    pub mode: RedirectMode,
    /// The URI of the first request.
    pub initial_uri: UriView,
    /// The URI of the next request (or of the delivered response).
    pub uri: UriView,
    /// How many redirects have been followed.
    pub redirect_count: u32,
    /// The status of the last response (0 before the first).
    pub prev_status: u16,
}

impl View for RedirectState {
    type V = RedirectStateView;

    closed spec fn view(&self) -> RedirectStateView {
        RedirectStateView {
            method: self.method,
            mode: self.mode,
            initial_uri: self.initial_uri@,
            uri: self.uri@,
            redirect_count: self.redirect_count,
            prev_status: self.prev_status,
        }
    }
}

/// The state of a fetch before its first request.
pub open spec fn spec_initial_state(
    method: HttpMethod,
    mode: RedirectMode,
    initial_uri: UriView,
) -> RedirectStateView {
    RedirectStateView {
        method,
        mode,
        initial_uri,
        uri: initial_uri,
        redirect_count: 0,
        prev_status: 0,
    }
}

/// The decision on a redirect response once the URI is settled, and the state after it.
pub open spec fn spec_on_redirect(s: RedirectStateView, status: u16, check_access: bool) -> (
    RedirectStateView,
    RedirectDecisionView,
) {
    match s.mode {
        RedirectMode::Manual => (
            s,
            RedirectDecisionView {
                check_access,
                action: RedirectActionView::Deliver { redirected: s.redirect_count != 0 },
            },
        ),
        RedirectMode::Error => (
            s,
            RedirectDecisionView {
                check_access,
                action: RedirectActionView::Fail(FetchErrorView::UnexpectedRedirect),
            },
        ),
        RedirectMode::Follow => if s.redirect_count + 1 >= MAX_REDIRECT_COUNT {
            (
                s,
                RedirectDecisionView {
                    check_access,
                    action: RedirectActionView::Fail(FetchErrorView::MaxRetriesExceeded),
                },
            )
        } else {
            (
                RedirectStateView {
                    redirect_count: (s.redirect_count + 1) as u32,
                    prev_status: status,
                    ..s
                },
                RedirectDecisionView { check_access, action: RedirectActionView::Follow },
            )
        },
    }
}

/// The decision on a response with status `status` and the given location,
/// and the state after it: no location delivers the response; a location
/// that is not a URI fails; a URI becomes the next request's URI (to be
/// access-checked); then the redirect mode decides, and following counts
/// the redirect and fails once `MAX_REDIRECT_COUNT` is reached.
pub open spec fn spec_on_response(s: RedirectStateView, status: u16, location: LocationView) -> (
    RedirectStateView,
    RedirectDecisionView,
) {
    match location {
        LocationView::Absent => (
            s,
            RedirectDecisionView {
                check_access: false,
                action: RedirectActionView::Deliver { redirected: s.redirect_count != 0 },
            },
        ),
        LocationView::Invalid(m) => (
            s,
            RedirectDecisionView {
                check_access: false,
                action: RedirectActionView::Fail(FetchErrorView::InvalidUri(m)),
            },
        ),
        LocationView::Unreadable => spec_on_redirect(s, status, false),
        LocationView::Target(u) => spec_on_redirect(RedirectStateView { uri: u, ..s }, status, true),
    }
}

impl RedirectState {
    #[verifier::type_invariant]
    closed spec fn inv(self) -> bool {
        self.redirect_count < MAX_REDIRECT_COUNT
    }

    /// The state of a fetch of `initial_uri` before its first request.
    pub fn new(method: HttpMethod, mode: RedirectMode, initial_uri: ParsedUri) -> (r: RedirectState)
        ensures
            r@ == spec_initial_state(method, mode, initial_uri@),
    {
        let uri = initial_uri.duplicate();
        RedirectState { method, mode, initial_uri, uri, redirect_count: 0, prev_status: 0 }
    }

    /// The URI of the next request, or of the delivered response.
    pub fn uri(&self) -> (r: &ParsedUri)
        ensures
            r@ == self@.uri,
    {
        &self.uri
    }

    /// How many redirects have been followed.
    pub fn redirect_count(&self) -> (r: u32)
        ensures
            r == self@.redirect_count,
            r < MAX_REDIRECT_COUNT,
    {
        proof {
            use_type_invariant(self);
        }
        self.redirect_count
    }

    /// Decides what the next request of the fetch carries.
    pub fn next_plan(&self, headers: &Vec<HeaderPair>, body: &Vec<u8>, version: &str) -> (r:
        RequestPlan)
        ensures
            r@ == spec_plan_request(
                self@.method,
                self@.uri,
                headers_view(headers@),
                body@,
                self@.prev_status,
                self@.initial_uri,
                version@,
            ),
    {
        plan_request(
            &self.method,
            &self.uri,
            headers,
            body,
            self.prev_status,
            &self.initial_uri,
            version,
        )
    }

    /// Builds the next request of the fetch.
    pub fn next_request(&self, headers: &Vec<HeaderPair>, body: &Vec<u8>, version: &str) -> (r:
        Result<hyper::Request<http_body_util::Full<bytes::Bytes>>, FetchError>)
        ensures
            assembly_outcome(
                spec_plan_request(
                    self@.method,
                    self@.uri,
                    headers_view(headers@),
                    body@,
                    self@.prev_status,
                    self@.initial_uri,
                    version@,
                ),
                r,
            ),
    {
        build_request(
            &self.method,
            &self.uri,
            headers,
            body,
            self.prev_status,
            &self.initial_uri,
            version,
        )
    }

    /// Takes the decision on a response with status `status` whose location
    /// header is already parsed.
    pub fn on_response(self, status: u16, location: Location) -> (r: (
        RedirectState,
        RedirectDecision,
    ))
        ensures
            (r.0@, r.1@) == spec_on_response(self@, status, location@),
            r.0@.redirect_count < MAX_REDIRECT_COUNT,
    {
        proof {
            use_type_invariant(&self);
        }
        match location {
            Location::Absent => {
                let redirected = self.redirect_count != 0;
                (
                    self,
                    RedirectDecision {
                        check_access: false,
                        action: RedirectAction::Deliver { redirected },
                    },
                )
            },
            Location::Invalid(m) => (
                self,
                RedirectDecision {
                    check_access: false,
                    action: RedirectAction::Fail(FetchError::InvalidUri(m)),
                },
            ),
            Location::Unreadable => self.on_redirect(status, false),
            Location::Target(u) => {
                let moved = RedirectState {
                    method: self.method,
                    mode: self.mode,
                    initial_uri: self.initial_uri,
                    uri: u,
                    redirect_count: self.redirect_count,
                    prev_status: self.prev_status,
                };
                moved.on_redirect(status, true)
            },
        }
    }

    fn on_redirect(self, status: u16, check_access: bool) -> (r: (RedirectState, RedirectDecision))
        ensures
            (r.0@, r.1@) == spec_on_redirect(self@, status, check_access),
            r.0@.redirect_count < MAX_REDIRECT_COUNT,
    {
        proof {
            use_type_invariant(&self);
        }
        match self.mode {
            RedirectMode::Manual => {
                let redirected = self.redirect_count != 0;
                (self, RedirectDecision { check_access, action: RedirectAction::Deliver { redirected } })
            },
            RedirectMode::Error => (
                self,
                RedirectDecision {
                    check_access,
                    action: RedirectAction::Fail(FetchError::UnexpectedRedirect),
                },
            ),
            RedirectMode::Follow => {
                let count = self.redirect_count + 1;
                if count >= MAX_REDIRECT_COUNT {
                    (
                        self,
                        RedirectDecision {
                            check_access,
                            action: RedirectAction::Fail(FetchError::MaxRetriesExceeded),
                        },
                    )
                } else {
                    let next = RedirectState {
                        method: self.method,
                        mode: self.mode,
                        initial_uri: self.initial_uri,
                        uri: self.uri,
                        redirect_count: count,
                        prev_status: status,
                    };
                    (next, RedirectDecision { check_access, action: RedirectAction::Follow })
                }
            },
        }
    }
}

/// Starts a fetch of `url`: parses it, and sets up the state before the
/// first request.
pub fn start_fetch(method: HttpMethod, mode: RedirectMode, url: &str) -> (r: Result<
    RedirectState,
    FetchError,
>)
    ensures
        match spec_parse_uri(url@) {
            Some(u) => r matches Ok(s) && s@ == spec_initial_state(method, mode, u),
            None => r matches Err(e) && e@ == FetchErrorView::InvalidUri(uri_error_message(url@)),
        },
{
    match parse_uri(url) {
        Ok(u) => Ok(RedirectState::new(method, mode, u)),
        Err(e) => Err(e),
    }
}

/// How many requests a fetch in state `s` sends when its responses come in
/// the order given (each a status and a parsed location): the pending one,
/// and one more for each redirect that it follows.
pub open spec fn spec_requests_sent(s: RedirectStateView, responses: Seq<(u16, LocationView)>) -> nat
    decreases responses.len(),
{
    if responses.len() == 0 {
        1
    } else {
        let (next, decision) = spec_on_response(s, responses[0].0, responses[0].1);
        if decision.action is Follow {
            1 + spec_requests_sent(next, responses.drop_first())
        } else {
            1
        }
    }
}

/// Each response leaves the fetch's method, mode and first URI as they were;
/// a fetch whose redirect mode is `manual` or `error` never follows a
/// redirect; following one counts it and remembers the status, and never
/// reaches `MAX_REDIRECT_COUNT`; a delivered response says it was redirected
/// exactly when a redirect was followed before it.
pub proof fn lemma_on_response_laws(s: RedirectStateView, status: u16, location: LocationView)
    requires
        s.redirect_count < MAX_REDIRECT_COUNT,
    ensures
        ({
            let (next, decision) = spec_on_response(s, status, location);
            &&& next.method == s.method
            &&& next.mode == s.mode
            &&& next.initial_uri == s.initial_uri
            &&& next.redirect_count < MAX_REDIRECT_COUNT
            &&& s.mode != RedirectMode::Follow ==> !(decision.action is Follow)
            &&& decision.action is Follow ==> {
                &&& next.redirect_count == s.redirect_count + 1
                &&& next.prev_status == status
            }
            &&& !(decision.action is Follow) ==> next.redirect_count == s.redirect_count
            &&& decision.action matches RedirectActionView::Deliver { redirected } ==> redirected
                == (s.redirect_count != 0)
        }),
{
}

/// A response whose `location` header parses as a URI moves the fetch to
/// exactly that URI, all of its parts, whatever the status and the redirect
/// mode, and asks for its access check; the URI is then the one of the next
/// request and of the delivered response. A response without a usable URI
/// in its `location` header leaves the URI as it was.
pub proof fn lemma_redirect_moves_to_location(
    s: RedirectStateView,
    status: u16,
    location: LocationHeader,
)
    ensures
        ({
            let (next, decision) = spec_on_response(s, status, spec_read_location(location));
            match location {
                LocationHeader::Text(t) => match spec_parse_uri(t@) {
                    Some(u) => next.uri == u && decision.check_access,
                    None => next.uri == s.uri && !decision.check_access,
                },
                _ => next.uri == s.uri && !decision.check_access,
            }
        }),
{
}

/// A fetch sends at most `MAX_REDIRECT_COUNT` requests, whatever its
/// responses: from a state that has followed `n` redirects, at most
/// `MAX_REDIRECT_COUNT - n` more.
pub proof fn lemma_requests_bounded(s: RedirectStateView, responses: Seq<(u16, LocationView)>)
    requires
        s.redirect_count < MAX_REDIRECT_COUNT,
    ensures
        spec_requests_sent(s, responses) <= MAX_REDIRECT_COUNT - s.redirect_count,
    decreases responses.len(),
{
    if responses.len() > 0 {
        let (next, decision) = spec_on_response(s, responses[0].0, responses[0].1);
        lemma_on_response_laws(s, responses[0].0, responses[0].1);
        if decision.action is Follow {
            lemma_requests_bounded(next, responses.drop_first());
        }
    }
}

/// A fetch that starts afresh sends at most `MAX_REDIRECT_COUNT` requests.
pub proof fn lemma_fetch_sends_at_most_max_requests(
    method: HttpMethod,
    mode: RedirectMode,
    initial_uri: UriView,
    responses: Seq<(u16, LocationView)>,
)
    ensures
        spec_requests_sent(spec_initial_state(method, mode, initial_uri), responses)
            <= MAX_REDIRECT_COUNT,
{
    lemma_requests_bounded(spec_initial_state(method, mode, initial_uri), responses);
}

/// After a response whose `location` header parses as a URI, when the fetch
/// follows it, its next request goes to that URI (the one that the header's
/// text parses to), with the method and body that the fetch asked for,
/// unless the response's status turns the request into a body-less `GET`.
pub proof fn lemma_follow_sends_to_location(
    s: RedirectStateView,
    status: u16,
    location: LocationHeader,
    headers: Seq<(Seq<char>, Seq<char>)>,
    body: Seq<u8>,
    version: Seq<char>,
    q: hyper::Request<http_body_util::Full<bytes::Bytes>>,
)
    requires
        location matches LocationHeader::Text(t) && spec_parse_uri(t@) is Some,
        spec_on_response(s, status, spec_read_location(location)).1.action is Follow,
        ({
            let next = spec_on_response(s, status, spec_read_location(location)).0;
            assembly_outcome(
                spec_plan_request(
                    next.method,
                    next.uri,
                    headers,
                    body,
                    next.prev_status,
                    next.initial_uri,
                    version,
                ),
                Ok(q),
            )
        }),
    ensures
        location matches LocationHeader::Text(t) && request_uri(q) == uri_value(t@),
        request_method(q) == parsed_method(
            spec_method_name(
                if spec_should_change_method(status, s.method) {
                    HttpMethod::Get
                } else {
                    s.method
                },
            ),
        ),
        request_body(q) == (if spec_should_change_method(status, s.method) {
            Seq::<u8>::empty()
        } else {
            body
        }),
{
}

} // verus!
