//! The built-in responder: it answers a small fixed set of paths with static
//! documents while the real backend cannot be reached.

use vstd::prelude::*;
use vstd::slice::slice_subrange;
use vstd::string::*;
use crate::text::{chars_of, has_prefix, is_whitespace, is_whitespace_char, same_text};
use crate::pages::{
    HOME_PAGE, HOST_DASHBOARD_PAGE, LOCAL_HOSTING_PAGE, SIGNIN_PAGE, SIGNUP_PAGE, STARTING_PAGE,
};

verus! {

/// The status a response carries.
#[derive(Clone, Copy, Debug, PartialEq, Eq, Structural)]
pub enum Status {
    Success,
    NotFound,
    InternalServerError,
}

/// The kind of document a response carries.
#[derive(Clone, Copy, Debug, PartialEq, Eq, Structural)]
pub enum ContentType {
    Html,
    PlainText,
}

/// Code and reason phrase of `status`, as they stand in a status line.
pub open spec fn status_text(status: Status) -> Seq<char> {
    match status {
        Status::Success => "200 OK"@,
        Status::NotFound => "404 Not Found"@,
        Status::InternalServerError => "500 Internal Server Error"@,
    }
}

/// The media type that announces `content_type`.
pub open spec fn content_type_text(content_type: ContentType) -> Seq<char> {
    match content_type {
        ContentType::Html => "text/html"@,
        ContentType::PlainText => "text/plain"@,
    }
}

/// A complete HTTP/1.1 message: status line, content type, the notice that
/// the connection closes after it, an empty line, and the body.
pub open spec fn http_message(
    status: Status,
    content_type: ContentType,
    body: Seq<char>,
) -> Seq<char> {
    "HTTP/1.1 "@ + status_text(status) + "\r\nContent-Type: "@ + content_type_text(content_type)
        + "\r\nConnection: close\r\n\r\n"@ + body
}

/// What is sent for a request the responder could not read: `error` names
/// the fault and stands in the document as it is.
pub open spec fn error_message(error: Seq<char>) -> Seq<char> {
    http_message(
        Status::InternalServerError,
        ContentType::Html,
        "<!DOCTYPE html><html><head><title>Server Error</title></head><body><h1>Server Error</h1><p>"@
            + error + "</p></body></html>"@,
    )
}

/// What is sent for any path under the asset prefix.
pub open spec fn asset_message() -> Seq<char> {
    http_message(Status::NotFound, ContentType::PlainText, "Asset not found"@)
}

/// Writes out the message with the given status, content type and body.
pub fn render(status: Status, content_type: ContentType, body: &str) -> (message: String)
    ensures
        message@ == http_message(status, content_type, body@),
{
    let mut message = "HTTP/1.1 ".to_string();
    match status {
        Status::Success => message.append("200 OK"),
        Status::NotFound => message.append("404 Not Found"),
        Status::InternalServerError => message.append("500 Internal Server Error"),
    }
    message.append("\r\nContent-Type: ");
    match content_type {
        ContentType::Html => message.append("text/html"),
        ContentType::PlainText => message.append("text/plain"),
    }
    message.append("\r\nConnection: close\r\n\r\n");
    message.append(body);
    message
}

/// The form that creates an account.
pub fn signup_form_response() -> (response: String)
    ensures
        response@ == http_message(Status::Success, ContentType::Html, SIGNUP_PAGE@),
{
    render(Status::Success, ContentType::Html, SIGNUP_PAGE)
}

/// The form that signs a user in.
pub fn signin_form_response() -> (response: String)
    ensures
        response@ == http_message(Status::Success, ContentType::Html, SIGNIN_PAGE@),
{
    render(Status::Success, ContentType::Html, SIGNIN_PAGE)
}

/// The answer to a request for an asset: there are none, whatever
/// `request_line` asks for.
pub fn serve_asset_response(request_line: &str) -> (response: String)
    ensures
        response@ == asset_message(),
{
    render(Status::NotFound, ContentType::PlainText, "Asset not found")
}

/// The page on local hosting.
pub fn local_hosting_response() -> (response: String)
    ensures
        response@ == http_message(Status::Success, ContentType::Html, LOCAL_HOSTING_PAGE@),
{
    render(Status::Success, ContentType::Html, LOCAL_HOSTING_PAGE)
}

/// The page on the host dashboard.
pub fn host_dashboard_response() -> (response: String)
    ensures
        response@ == http_message(Status::Success, ContentType::Html, HOST_DASHBOARD_PAGE@),
{
    render(Status::Success, ContentType::Html, HOST_DASHBOARD_PAGE)
}

/// The home page.
pub fn cipher_home_response() -> (response: String)
    ensures
        response@ == http_message(Status::Success, ContentType::Html, HOME_PAGE@),
{
    render(Status::Success, ContentType::Html, HOME_PAGE)
}

/// The page shown while the backend is still starting.
pub fn fallback_response() -> (response: String)
    ensures
        response@ == http_message(Status::Success, ContentType::Html, STARTING_PAGE@),
{
    render(Status::Success, ContentType::Html, STARTING_PAGE)
}

/// The answer to a request that could not be read; `error` says why.
pub fn error_response(error: &str) -> (response: String)
    ensures
        response@ == error_message(error@),
{
    let mut body =
        "<!DOCTYPE html><html><head><title>Server Error</title></head><body><h1>Server Error</h1><p>".to_string();
    body.append(error);
    body.append("</p></body></html>");
    render(Status::InternalServerError, ContentType::Html, body.as_str())
}

/// Why a request could not be read.
#[derive(Clone, Copy, Debug, PartialEq, Eq, Structural)]
pub enum RequestError {
    /// Nothing was received.
    Empty,
    /// The request line has no path.
    Malformed,
}

/// The document a path leads to.
#[derive(Clone, Copy, Debug, PartialEq, Eq, Structural)]
pub enum Route {
    Home,
    Signup,
    Signin,
    LocalHosting,
    HostDashboard,
    Asset,
}

/// Position of the first line feed of `text` at or after `from`; the length
/// of `text` where there is none.
pub open spec fn line_feed_from(text: Seq<char>, from: int) -> int
    decreases text.len() - from,
{
    if 0 <= from < text.len() && text[from] != '\n' {
        line_feed_from(text, from + 1)
    } else {
        from
    }
}

/// Length of the first line of `text`, its line ending left out: a line ends
/// before a line feed, or before a carriage return that a line feed follows.
pub open spec fn first_line_len(text: Seq<char>) -> int {
    let feed = line_feed_from(text, 0);
    if 0 < feed < text.len() && text[feed - 1] == '\r' {
        feed - 1
    } else {
        feed
    }
}

/// The first line of `text`; empty where `text` is.
pub open spec fn first_line(text: Seq<char>) -> Seq<char> {
    text.subrange(0, first_line_len(text))
}

/// Position of the first character of `text` at or after `from` that is not
/// white space; the length of `text` where there is none.
pub open spec fn skip_whitespace(text: Seq<char>, from: int) -> int
    decreases text.len() - from,
{
    if 0 <= from < text.len() && is_whitespace(text[from]) {
        skip_whitespace(text, from + 1)
    } else {
        from
    }
}

/// Position of the first white space of `text` at or after `from`; the
/// length of `text` where there is none.
pub open spec fn skip_word(text: Seq<char>, from: int) -> int
    decreases text.len() - from,
{
    if 0 <= from < text.len() && !is_whitespace(text[from]) {
        skip_word(text, from + 1)
    } else {
        from
    }
}

/// The words of `text` that begin at or after `from`, in order. A word is a
/// longest run of characters that are not white space.
pub open spec fn words_from(text: Seq<char>, from: int) -> Seq<Seq<char>>
    decreases text.len() - from,
{
    let start = skip_whitespace(text, from);
    let end = skip_word(text, start);
    if 0 <= from && start < end {
        proof {
            lemma_skip_whitespace_bounds(text, from);
            lemma_skip_word_bounds(text, start);
        }
        seq![text.subrange(start, end)] + words_from(text, end)
    } else {
        Seq::empty()
    }
}

/// The words of `text`: what is left between its runs of white space.
pub open spec fn words(text: Seq<char>) -> Seq<Seq<char>> {
    words_from(text, 0)
}

/// The path a request asks for: the second word of its first line.
pub open spec fn path_of(request: Seq<char>) -> Result<Seq<char>, RequestError> {
    let parts = words(first_line(request));
    if request.len() == 0 {
        Err(RequestError::Empty)
    } else if parts.len() < 2 {
        Err(RequestError::Malformed)
    } else {
        Ok(parts[1])
    }
}

/// Whether `path` is one of the paths that are answered by name.
pub open spec fn is_exact_route(path: Seq<char>) -> bool {
    ||| path == "/"@
    ||| path == "/users/new"@
    ||| path == "/users/sign_up"@
    ||| path == "/users/sign_in"@
    ||| path == "/users/local_hosting"@
    ||| path == "/users/host_dashboard"@
}

/// Whether `path` lies under the asset prefix.
pub open spec fn is_asset_path(path: Seq<char>) -> bool {
    "/assets/"@.is_prefix_of(path)
}

/// The routing table. A path that it does not hold leads home.
pub open spec fn route_of(path: Seq<char>) -> Route {
    if path == "/"@ {
        Route::Home
    } else if path == "/users/new"@ || path == "/users/sign_up"@ {
        Route::Signup
    } else if path == "/users/sign_in"@ {
        Route::Signin
    } else if path == "/users/local_hosting"@ {
        Route::LocalHosting
    } else if path == "/users/host_dashboard"@ {
        Route::HostDashboard
    } else if is_asset_path(path) {
        Route::Asset
    } else {
        Route::Home
    }
}

/// The message that answers a request for `route`.
pub open spec fn route_message(route: Route) -> Seq<char> {
    match route {
        Route::Home => http_message(Status::Success, ContentType::Html, HOME_PAGE@),
        Route::Signup => http_message(Status::Success, ContentType::Html, SIGNUP_PAGE@),
        Route::Signin => http_message(Status::Success, ContentType::Html, SIGNIN_PAGE@),
        Route::LocalHosting => http_message(
            Status::Success,
            ContentType::Html,
            LOCAL_HOSTING_PAGE@,
        ),
        Route::HostDashboard => http_message(
            Status::Success,
            ContentType::Html,
            HOST_DASHBOARD_PAGE@,
        ),
        Route::Asset => asset_message(),
    }
}

/// What names `error` in the answer.
pub open spec fn error_text(error: RequestError) -> Seq<char> {
    match error {
        RequestError::Empty => "Empty request"@,
        RequestError::Malformed => "Malformed request line"@,
    }
}

/// The answer to `request`.
pub open spec fn response_text(request: Seq<char>) -> Seq<char> {
    match path_of(request) {
        Ok(path) => route_message(route_of(path)),
        Err(error) => error_message(error_text(error)),
    }
}

/// The texts that `ranges` cut out of `text`.
pub open spec fn range_texts(text: Seq<char>, ranges: Seq<(usize, usize)>) -> Seq<Seq<char>> {
    Seq::new(ranges.len(), |k: int| text.subrange(ranges[k].0 as int, ranges[k].1 as int))
}

/// White space is skipped forwards, and not beyond the end of the text.
pub proof fn lemma_skip_whitespace_bounds(text: Seq<char>, from: int)
    ensures
        from <= skip_whitespace(text, from),
        0 <= from <= text.len() ==> skip_whitespace(text, from) <= text.len(),
    decreases text.len() - from,
{
    if 0 <= from < text.len() && is_whitespace(text[from]) {
        lemma_skip_whitespace_bounds(text, from + 1);
    }
}

/// A word is skipped forwards, and not beyond the end of the text.
pub proof fn lemma_skip_word_bounds(text: Seq<char>, from: int)
    ensures
        from <= skip_word(text, from),
        0 <= from <= text.len() ==> skip_word(text, from) <= text.len(),
    decreases text.len() - from,
{
    if 0 <= from < text.len() && !is_whitespace(text[from]) {
        lemma_skip_word_bounds(text, from + 1);
    }
}

/// Every word holds at least one character and no white space.
pub proof fn lemma_words_hold_no_whitespace(text: Seq<char>, from: int)
    ensures
        forall|k: int, at: int|
            0 <= k < words_from(text, from).len() && 0 <= at < words_from(text, from)[k].len()
                ==> !is_whitespace(#[trigger] words_from(text, from)[k][at]),
        forall|k: int|
            0 <= k < words_from(text, from).len() ==> (#[trigger] words_from(text, from)[k]).len()
                > 0,
    decreases text.len() - from,
{
    let start = skip_whitespace(text, from);
    let end = skip_word(text, start);
    if 0 <= from && start < end {
        lemma_skip_whitespace_bounds(text, from);
        lemma_skip_word_bounds(text, start);
        lemma_word_run(text, start);
        lemma_words_hold_no_whitespace(text, end);
        let first = text.subrange(start, end);
        let rest = words_from(text, end);
        assert(words_from(text, from) == seq![first] + rest);
        assert forall|k: int, at: int|
            0 <= k < words_from(text, from).len() && 0 <= at < words_from(
                text,
                from,
            )[k].len() implies !is_whitespace(#[trigger] words_from(text, from)[k][at]) by {
            if k == 0 {
                assert(first[at] == text[start + at]);
            } else {
                assert(words_from(text, from)[k] == rest[k - 1]);
            }
        }
        assert forall|k: int| 0 <= k < words_from(text, from).len() implies (
        #[trigger] words_from(text, from)[k]).len() > 0 by {
            if k > 0 {
                assert(words_from(text, from)[k] == rest[k - 1]);
            }
        }
    }
}

proof fn lemma_word_run(text: Seq<char>, from: int)
    requires
        0 <= from,
    ensures
        forall|at: int| from <= at < skip_word(text, from) ==> !is_whitespace(#[trigger] text[at]),
    decreases text.len() - from,
{
    if from < text.len() && !is_whitespace(text[from]) {
        lemma_word_run(text, from + 1);
    }
}

/// Length of the first line of `text`.
pub fn first_line_end(text: &[char]) -> (end: usize)
    ensures
        end == first_line_len(text@),
        end <= text.len(),
{
    let mut feed: usize = 0;
    while feed < text.len() && text[feed] != '\n'
        invariant
            feed <= text.len(),
            line_feed_from(text@, 0) == line_feed_from(text@, feed as int),
        decreases text.len() - feed,
    {
        feed += 1;
    }
    if 0 < feed && feed < text.len() && text[feed - 1] == '\r' {
        feed - 1
    } else {
        feed
    }
}

fn whitespace_end(text: &[char], from: usize) -> (at: usize)
    requires
        from <= text.len(),
    ensures
        at == skip_whitespace(text@, from as int),
        from <= at <= text.len(),
{
    let mut at: usize = from;
    while at < text.len() && is_whitespace_char(text[at])
        invariant
            from <= at <= text.len(),
            skip_whitespace(text@, from as int) == skip_whitespace(text@, at as int),
        decreases text.len() - at,
    {
        at += 1;
    }
    at
}

fn word_end(text: &[char], from: usize) -> (at: usize)
    requires
        from <= text.len(),
    ensures
        at == skip_word(text@, from as int),
        from <= at <= text.len(),
{
    let mut at: usize = from;
    while at < text.len() && !is_whitespace_char(text[at])
        invariant
            from <= at <= text.len(),
            skip_word(text@, from as int) == skip_word(text@, at as int),
        decreases text.len() - at,
    {
        at += 1;
    }
    at
}

/// Where the words of `text` begin and end.
pub fn word_ranges(text: &[char]) -> (ranges: Vec<(usize, usize)>)
    ensures
        range_texts(text@, ranges@) == words(text@),
        forall|k: int|
            0 <= k < ranges.len() ==> (#[trigger] ranges[k]).0 <= ranges[k].1 <= text.len(),
{
    let mut ranges: Vec<(usize, usize)> = Vec::new();
    let mut at: usize = 0;
    assert(range_texts(text@, ranges@) + words_from(text@, 0) == words(text@));
    loop
        invariant
            at <= text.len(),
            range_texts(text@, ranges@) + words_from(text@, at as int) == words(text@),
            forall|k: int|
                0 <= k < ranges.len() ==> (#[trigger] ranges[k]).0 <= ranges[k].1 <= text.len(),
        ensures
            range_texts(text@, ranges@) == words(text@),
            forall|k: int|
                0 <= k < ranges.len() ==> (#[trigger] ranges[k]).0 <= ranges[k].1 <= text.len(),
        decreases text.len() - at,
    {
        let start = whitespace_end(text, at);
        let end = word_end(text, start);
        if start == end {
            assert(words_from(text@, at as int) == Seq::<Seq<char>>::empty());
            assert(range_texts(text@, ranges@) + Seq::<Seq<char>>::empty() == range_texts(
                text@,
                ranges@,
            ));
            break ;
        }
        let ghost before = ranges@;
        ranges.push((start, end));
        proof {
            let word = text@.subrange(start as int, end as int);
            assert(words_from(text@, at as int) == seq![word] + words_from(text@, end as int));
            assert(range_texts(text@, ranges@) == range_texts(text@, before).push(word));
            assert(range_texts(text@, before) + (seq![word] + words_from(text@, end as int))
                == range_texts(text@, before).push(word) + words_from(text@, end as int));
        }
        at = end;
    }
    ranges
}

/// The first line of `request`, its line ending left out.
pub fn request_line(request: &str) -> (line: String)
    ensures
        line@ == first_line(request@),
{
    let chars = chars_of(request);
    let end = first_line_end(chars.as_slice());
    request.substring_char(0, end).to_string()
}

/// The path `request` asks for, or why it has none.
pub fn request_path(request: &str) -> (result: Result<String, RequestError>)
    ensures
        match result {
            Ok(path) => path_of(request@) == Ok::<Seq<char>, RequestError>(path@),
            Err(error) => path_of(request@) == Err::<Seq<char>, RequestError>(error),
        },
{
    let chars = chars_of(request);
    if chars.len() == 0 {
        return Err(RequestError::Empty);
    }
    let end = first_line_end(chars.as_slice());
    let line = slice_subrange(chars.as_slice(), 0, end);
    let ranges = word_ranges(line);
    if ranges.len() < 2 {
        return Err(RequestError::Malformed);
    }
    let (from, to) = ranges[1];
    assert(range_texts(line@, ranges@)[1] == line@.subrange(from as int, to as int));
    assert(line@.subrange(from as int, to as int) == request@.subrange(from as int, to as int));
    Ok(request.substring_char(from, to).to_string())
}

/// Looks `path` up in the routing table.
pub fn route_for(path: &str) -> (route: Route)
    ensures
        route == route_of(path@),
{
    let chars = chars_of(path);
    let given = chars.as_slice();
    if same_text(given, chars_of("/").as_slice()) {
        Route::Home
    } else if same_text(given, chars_of("/users/new").as_slice()) || same_text(
        given,
        chars_of("/users/sign_up").as_slice(),
    ) {
        Route::Signup
    } else if same_text(given, chars_of("/users/sign_in").as_slice()) {
        Route::Signin
    } else if same_text(given, chars_of("/users/local_hosting").as_slice()) {
        Route::LocalHosting
    } else if same_text(given, chars_of("/users/host_dashboard").as_slice()) {
        Route::HostDashboard
    } else if has_prefix(given, chars_of("/assets/").as_slice()) {
        Route::Asset
    } else {
        Route::Home
    }
}

impl RequestError {
    /// What names this fault in the answer.
    pub fn message(&self) -> (text: &'static str)
        ensures
            text@ == error_text(*self),
    {
        match self {
            RequestError::Empty => "Empty request",
            RequestError::Malformed => "Malformed request line",
        }
    }
}

/// Answers `request`: the document its path leads to, or an error page
/// where its first line names no path.
pub fn serve_cipher_interface(request: &str) -> (response: String)
    ensures
        response@ == response_text(request@),
{
    match request_path(request) {
        Err(error) => error_response(error.message()),
        Ok(path) => match route_for(path.as_str()) {
            Route::Home => cipher_home_response(),
            Route::Signup => signup_form_response(),
            Route::Signin => signin_form_response(),
            Route::LocalHosting => local_hosting_response(),
            Route::HostDashboard => host_dashboard_response(),
            Route::Asset => serve_asset_response(request_line(request).as_str()),
        },
    }
}

/// Whether `message` opens with the status line of `status`.
pub open spec fn has_status_line(message: Seq<char>, status: Status) -> bool {
    ("HTTP/1.1 "@ + status_text(status) + "\r\n"@).is_prefix_of(message)
}

/// Whether `message` is a complete message that announces the end of the
/// connection.
pub open spec fn is_closing_message(message: Seq<char>) -> bool {
    exists|status: Status, content_type: ContentType, body: Seq<char>|
        message == #[trigger] http_message(status, content_type, body)
}

/// Every message opens with the status line of its status.
pub proof fn lemma_message_status_line(status: Status, content_type: ContentType, body: Seq<char>)
    ensures
        has_status_line(http_message(status, content_type, body), status),
{
    reveal_strlit("\r\nContent-Type: ");
    reveal_strlit("\r\n");
    let head = "HTTP/1.1 "@ + status_text(status);
    let message = http_message(status, content_type, body);
    assert(message.subrange(0, (head.len() + 2) as int) =~= head + "\r\n"@);
}

/// A path that the routing table does not hold is answered as the home
/// path is: with the home page and the status line `200 OK`.
pub proof fn lemma_unmatched_path_leads_home(path: Seq<char>)
    requires
        !is_exact_route(path),
        !is_asset_path(path),
    ensures
        route_of(path) == Route::Home,
        route_message(route_of(path)) == route_message(route_of("/"@)),
        has_status_line(route_message(route_of(path)), Status::Success),
{
    lemma_message_status_line(Status::Success, ContentType::Html, HOME_PAGE@);
}

/// Every path under the asset prefix is answered with the status line
/// `404 Not Found`, whatever follows the prefix.
pub proof fn lemma_asset_path_not_found(path: Seq<char>)
    requires
        is_asset_path(path),
    ensures
        route_of(path) == Route::Asset,
        route_message(route_of(path)) == asset_message(),
        has_status_line(route_message(route_of(path)), Status::NotFound),
{
    reveal_strlit("/assets/");
    reveal_strlit("/");
    reveal_strlit("/users/new");
    reveal_strlit("/users/sign_up");
    reveal_strlit("/users/sign_in");
    reveal_strlit("/users/local_hosting");
    reveal_strlit("/users/host_dashboard");
    assert(path.subrange(0, 8)[1] == 'a');
    assert(path[1] == 'a');
    lemma_message_status_line(Status::NotFound, ContentType::PlainText, "Asset not found"@);
}

/// A request whose first line has fewer than two words is answered with
/// the status line `500 Internal Server Error` and a document that names
/// the fault.
pub proof fn lemma_short_request_line_is_error(request: Seq<char>)
    requires
        words(first_line(request)).len() < 2,
    ensures
        path_of(request) is Err,
        response_text(request) == error_message(error_text(path_of(request)->Err_0)),
        has_status_line(response_text(request), Status::InternalServerError),
        crate::text::contains_text(response_text(request), error_text(path_of(request)->Err_0)),
{
    let error = error_text(path_of(request)->Err_0);
    let open =
        "<!DOCTYPE html><html><head><title>Server Error</title></head><body><h1>Server Error</h1><p>"@;
    let body = open + error + "</p></body></html>"@;
    lemma_message_status_line(Status::InternalServerError, ContentType::Html, body);
    let message = response_text(request);
    let at: int = message.len() - body.len() + open.len();
    assert(message.subrange(at, at + error.len()) =~= error);
    assert(crate::text::occurs_at(message, error, at));
}

/// Whatever is received, the answer is a complete message that announces
/// the end of the connection.
pub proof fn lemma_every_answer_closes(request: Seq<char>)
    ensures
        is_closing_message(response_text(request)),
{
    match path_of(request) {
        Ok(path) => {
            match route_of(path) {
                Route::Home => {
                    assert(response_text(request) == http_message(
                        Status::Success,
                        ContentType::Html,
                        HOME_PAGE@,
                    ));
                },
                Route::Signup => {
                    assert(response_text(request) == http_message(
                        Status::Success,
                        ContentType::Html,
                        SIGNUP_PAGE@,
                    ));
                },
                Route::Signin => {
                    assert(response_text(request) == http_message(
                        Status::Success,
                        ContentType::Html,
                        SIGNIN_PAGE@,
                    ));
                },
                Route::LocalHosting => {
                    assert(response_text(request) == http_message(
                        Status::Success,
                        ContentType::Html,
                        LOCAL_HOSTING_PAGE@,
                    ));
                },
                Route::HostDashboard => {
                    assert(response_text(request) == http_message(
                        Status::Success,
                        ContentType::Html,
                        HOST_DASHBOARD_PAGE@,
                    ));
                },
                Route::Asset => {
                    assert(response_text(request) == http_message(
                        Status::NotFound,
                        ContentType::PlainText,
                        "Asset not found"@,
                    ));
                },
            }
        },
        Err(error) => {
            assert(response_text(request) == http_message(
                Status::InternalServerError,
                ContentType::Html,
                "<!DOCTYPE html><html><head><title>Server Error</title></head><body><h1>Server Error</h1><p>"@
                    + error_text(error) + "</p></body></html>"@,
            ));
        },
    }
}

/// Where the responder listens: the loopback address only.
pub const LISTEN_ADDRESS: &'static str = "127.0.0.1:3000";

/// How many bytes of a request are read at most; the request line is
/// expected within them.
pub const REQUEST_BUFFER_SIZE: usize = 1024;

/// The text that `String::from_utf8_lossy` makes of `bytes`.
pub uninterp spec fn lossy_text(bytes: Seq<u8>) -> Seq<char>;

/// Calls `String::from_utf8_lossy`, which reads `bytes` as UTF-8 and puts
/// U+FFFD in the place of what is not. Claimed of it: the text depends on
/// the bytes alone, and bytes that are valid UTF-8 give the text that they
/// encode.
#[verifier::external_body]
fn decode_lossy(bytes: &[u8]) -> (text: String)
    ensures
        text@ == lossy_text(bytes@),
        vstd::utf8::valid_utf8(bytes@) ==> text@ == vstd::utf8::decode_utf8(bytes@),
{
    String::from_utf8_lossy(bytes).into_owned()
}

/// The first line of what was received, for the log.
pub fn received_line(received: &[u8]) -> (line: String)
    ensures
        line@ == first_line(lossy_text(received@)),
        vstd::utf8::valid_utf8(received@) ==> line@ == first_line(
            vstd::utf8::decode_utf8(received@),
        ),
{
    let request = decode_lossy(received);
    request_line(request.as_str())
}

/// Answers what one connection sent: `received` holds the bytes read from
/// it, the result the bytes to write back before the connection is closed.
pub fn handle_request(received: &[u8]) -> (reply: Vec<u8>)
    ensures
        reply@ == vstd::utf8::encode_utf8(response_text(lossy_text(received@))),
        vstd::utf8::valid_utf8(received@) ==> reply@ == vstd::utf8::encode_utf8(
            response_text(vstd::utf8::decode_utf8(received@)),
        ),
{
    let request = decode_lossy(received);
    let response = serve_cipher_interface(request.as_str());
    response.as_str().as_bytes_vec()
}

} // verus!
