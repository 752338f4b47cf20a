//! What a request does next.
//!
//! A request arrives as the text of a chat message. Handling it means
//! sending messages, looking into the cache and, on a miss, rendering the
//! page. Sending and rendering are the caller's work: the functions here
//! answer each event with the next [`Action`] to perform, until the request
//! is done. The cache and the register of captures under way are shared by
//! all requests and are handed in with every call.
//!
//! The replies that matter to the user are the image and the error texts. A
//! request whose image cannot be delivered has failed. The note that a
//! capture is under way is a courtesy: if it cannot be sent, or cannot be
//! deleted afterwards, the request goes on all the same.

use crate::address::{canonical_url, normalize, InputError};
use crate::cache::{CaptureCache, CaptureResult, Rendering, Shelf};
use crate::capture::CaptureError;
use crate::in_flight::InFlight;
use vstd::prelude::*;
use vstd::string::*;

verus! {

/// The text that follows the first space of `text`, if it has a space.
pub open spec fn after_first_space(text: Seq<char>) -> Option<Seq<char>>
    decreases text.len(),
{
    if text.len() == 0 {
        None
    } else if text[0] == ' ' {
        Some(text.drop_first())
    } else {
        after_first_space(text.drop_first())
    }
}

/// Skipping characters that are no spaces does not change what follows the
/// first space.
proof fn lemma_skip_to_space(text: Seq<char>, at: int)
    requires
        0 <= at <= text.len(),
        forall|i: int| 0 <= i < at ==> text[i] != ' ',
    ensures
        after_first_space(text) == after_first_space(text.skip(at)),
    decreases at,
{
    if at == 0 {
        assert(text.skip(0) =~= text);
    } else {
        lemma_skip_to_space(text.drop_first(), at - 1);
        assert(text.drop_first().skip(at - 1) =~= text.skip(at));
    }
}

/// The argument of a command: what follows the first space of the message.
pub fn command_argument(text: &str) -> (argument: Option<&str>)
    ensures
        match argument {
            Some(argument) => after_first_space(text@) == Some(argument@),
            None => after_first_space(text@) is None,
        },
{
    let total = text.unicode_len();
    let mut at: usize = 0;
    for letter in letters: text.chars()
        invariant
            total == text@.len(),
            letters.seq() == text@,
            at == letters.index(),
            forall|i: int| 0 <= i < at ==> text@[i] != ' ',
    {
        if letter == ' ' {
            proof {
                lemma_skip_to_space(text@, at as int);
                assert(text@.skip(at as int).drop_first() =~= text@.subrange(
                    at + 1,
                    total as int,
                ));
            }
            return Some(text.substring_char(at + 1, total));
        }
        at += 1;
    }
    proof {
        lemma_skip_to_space(text@, total as int);
    }
    None
}

/// A request for an image of a page.
#[derive(Debug, PartialEq, Eq)]
pub struct CaptureRequest {
    /// The canonical URL of the page, which is the cache key.
    pub url: String,
    /// The number of the message that asked. The image goes out as a reply
    /// to it.
    pub reply_to: i32,
}

/// The view of a [`CaptureRequest`].
pub struct RequestView {
    pub url: Seq<char>,
    pub reply_to: i32,
}

impl View for CaptureRequest {
    type V = RequestView;

    open spec fn view(&self) -> RequestView {
        RequestView { url: self.url@, reply_to: self.reply_to }
    }
}

/// Why a request came to nothing.
#[derive(Debug, PartialEq, Eq)]
pub enum RequestError {
    /// The capture command came without a URL.
    NoUrl,
    /// The text is not an absolute URL.
    InvalidUrl(InputError),
    /// The page could not be rendered.
    Capture(CaptureError),
    /// The final reply could not be delivered.
    Delivery,
}

/// The view of a [`RequestError`].
pub enum RequestErrorView {
    NoUrl,
    InvalidUrl { reason: Seq<char> },
    Capture(CaptureError),
    Delivery,
}

impl View for RequestError {
    type V = RequestErrorView;

    open spec fn view(&self) -> RequestErrorView {
        match *self {
            RequestError::NoUrl => RequestErrorView::NoUrl,
            RequestError::InvalidUrl(error) => RequestErrorView::InvalidUrl {
                reason: error.reason@,
            },
            RequestError::Capture(error) => RequestErrorView::Capture(error),
            RequestError::Delivery => RequestErrorView::Delivery,
        }
    }
}

impl RequestErrorView {
    /// The error in words, for the log.
    pub open spec fn message(self) -> Seq<char> {
        match self {
            RequestErrorView::NoUrl => "No URL provided"@,
            RequestErrorView::InvalidUrl { reason } => reason,
            RequestErrorView::Capture(error) => error.spec_message(),
            RequestErrorView::Delivery => "Failed to deliver the reply"@,
        }
    }
}

impl RequestError {
    /// The error in words, for the log.
    pub fn message(&self) -> (text: String)
        ensures
            text@ == self@.message(),
    {
        match self {
            RequestError::NoUrl => String::from_str("No URL provided"),
            RequestError::InvalidUrl(error) => error.reason.clone(),
            RequestError::Capture(error) => error.message(),
            RequestError::Delivery => String::from_str("Failed to deliver the reply"),
        }
    }
}

/// The greeting that answers the start command.
pub open spec fn greeting() -> Seq<char> {
    "Hello! I am a website screenshot bot. Send me a URL and I will send you a screenshot of the website."@
}

/// The reply to a capture command that names no page.
pub open spec fn missing_url_text() -> Seq<char> {
    "Please provide a URL to capture a screenshot of the website."@
}

/// The reply to a text that is not an absolute URL.
pub open spec fn invalid_url_text(reason: Seq<char>) -> Seq<char> {
    "Invalid URL: "@ + reason
}

/// The note that the page under `key` is being rendered.
pub open spec fn capturing_text(key: Seq<char>) -> Seq<char> {
    "Capturing a screenshot of "@ + key + "..."@
}

/// The reply to a capture that failed.
pub open spec fn failure_text(error: CaptureError) -> Seq<char> {
    "Failed to capture a screenshot: "@ + error.spec_message()
}

/// The file name under which the image is sent.
pub open spec fn image_name() -> Seq<char> {
    "screenshot.jpg"@
}

/// What the caller is to do next.
#[derive(Debug, PartialEq, Eq)]
pub enum Action {
    /// Send a text to the chat. `link_preview` says whether the chat may
    /// show a preview of a link in it.
    SendText { text: String, link_preview: bool },
    /// Send the image to the chat, in reply to the message `reply_to`.
    SendPhoto { image: Vec<u8>, file_name: String, reply_to: i32 },
    /// Render the page and report the image or the failure.
    Capture { url: String },
    /// Wait until a capture that is under way for this page has ended.
    AwaitCapture { url: String },
    /// Delete a message that was sent before.
    DeleteMessage { message_id: i32 },
}

/// The view of an [`Action`].
pub enum ActionView {
    SendText { text: Seq<char>, link_preview: bool },
    SendPhoto { image: Seq<u8>, file_name: Seq<char>, reply_to: i32 },
    Capture { url: Seq<char> },
    AwaitCapture { url: Seq<char> },
    DeleteMessage { message_id: i32 },
}

impl View for Action {
    type V = ActionView;

    open spec fn view(&self) -> ActionView {
        match *self {
            Action::SendText { text, link_preview } => ActionView::SendText {
                text: text@,
                link_preview,
            },
            Action::SendPhoto { image, file_name, reply_to } => ActionView::SendPhoto {
                image: image@,
                file_name: file_name@,
                reply_to,
            },
            Action::Capture { url } => ActionView::Capture { url: url@ },
            Action::AwaitCapture { url } => ActionView::AwaitCapture { url: url@ },
            Action::DeleteMessage { message_id } => ActionView::DeleteMessage { message_id },
        }
    }
}

/// How the last action went.
#[derive(Debug, PartialEq, Eq)]
pub enum Event {
    /// The message was sent, and the chat knows it under this number.
    Sent { message_id: i32 },
    /// The page was rendered.
    Captured { image: Vec<u8> },
    /// The page could not be rendered.
    CaptureFailed { error: CaptureError },
    /// The action was carried out and has nothing to report.
    Done,
    /// The action failed.
    Failed,
}

/// The view of an [`Event`].
pub enum EventView {
    Sent { message_id: i32 },
    Captured { image: Seq<u8> },
    CaptureFailed { error: CaptureError },
    Done,
    Failed,
}

impl View for Event {
    type V = EventView;

    open spec fn view(&self) -> EventView {
        match *self {
            Event::Sent { message_id } => EventView::Sent { message_id },
            Event::Captured { image } => EventView::Captured { image: image@ },
            Event::CaptureFailed { error } => EventView::CaptureFailed { error },
            Event::Done => EventView::Done,
            Event::Failed => EventView::Failed,
        }
    }
}

impl EventView {
    /// The number of the message that was sent, where the event reports one.
    pub open spec fn message_id(self) -> Option<i32> {
        match self {
            EventView::Sent { message_id } => Some(message_id),
            _ => None,
        }
    }

    /// The failure that an event stands for when an image was expected.
    pub open spec fn capture_failure(self) -> CaptureError {
        match self {
            EventView::CaptureFailed { error } => error,
            _ => CaptureError::ProtocolError,
        }
    }
}

/// A request in the middle of being handled: what it is waiting for.
#[derive(Debug, PartialEq, Eq)]
pub enum Handling {
    /// An error text is on its way; the request fails with `error`.
    Refusing { error: RequestError },
    /// The final reply is on its way.
    Answering,
    /// Another request is rendering the page.
    Waiting { request: CaptureRequest },
    /// The note that the capture is under way is on its way.
    Announcing { request: CaptureRequest },
    /// The page is being rendered. `status` is the number of the note.
    Capturing { request: CaptureRequest, status: Option<i32> },
    /// The fresh image is on its way.
    Delivering { status: Option<i32> },
    /// The note is being deleted.
    Tidying,
}

/// The view of a [`Handling`].
pub enum HandlingView {
    Refusing { error: RequestErrorView },
    Answering,
    Waiting { request: RequestView },
    Announcing { request: RequestView },
    Capturing { request: RequestView, status: Option<i32> },
    Delivering { status: Option<i32> },
    Tidying,
}

impl View for Handling {
    type V = HandlingView;

    open spec fn view(&self) -> HandlingView {
        match *self {
            Handling::Refusing { error } => HandlingView::Refusing { error: error@ },
            Handling::Answering => HandlingView::Answering,
            Handling::Waiting { request } => HandlingView::Waiting { request: request@ },
            Handling::Announcing { request } => HandlingView::Announcing { request: request@ },
            Handling::Capturing { request, status } => HandlingView::Capturing {
                request: request@,
                status,
            },
            Handling::Delivering { status } => HandlingView::Delivering { status },
            Handling::Tidying => HandlingView::Tidying,
        }
    }
}

/// Where a request stands after a step.
#[derive(Debug, PartialEq, Eq)]
pub enum Progress {
    /// The request goes on once the action is performed.
    Next(Handling, Action),
    /// The request is done.
    Done(Result<(), RequestError>),
}

/// The view of a [`Progress`].
pub enum ProgressView {
    Next(HandlingView, ActionView),
    Done(Result<(), RequestErrorView>),
}

impl View for Progress {
    type V = ProgressView;

    open spec fn view(&self) -> ProgressView {
        match *self {
            Progress::Next(handling, action) => ProgressView::Next(handling@, action@),
            Progress::Done(Ok(_)) => ProgressView::Done(Ok(())),
            Progress::Done(Err(error)) => ProgressView::Done(Err(error@)),
        }
    }
}

/// A step of a request as the contracts state it: where the request
/// stands, and what the step made of the cache and of the register of
/// captures under way.
pub struct Turn {
    pub progress: ProgressView,
    pub cache: Shelf,
    pub claimed: Set<Seq<char>>,
}

/// The step that sends a final reply.
pub open spec fn answer(action: ActionView, cache: Shelf, claimed: Set<Seq<char>>) -> Turn {
    Turn { progress: ProgressView::Next(HandlingView::Answering, action), cache, claimed }
}

/// The step that refuses a request with an error text.
pub open spec fn refuse(
    error: RequestErrorView,
    text: Seq<char>,
    cache: Shelf,
    claimed: Set<Seq<char>>,
) -> Turn {
    Turn {
        progress: ProgressView::Next(
            HandlingView::Refusing { error },
            ActionView::SendText { text, link_preview: true },
        ),
        cache,
        claimed,
    }
}

/// The step that ends a request.
pub open spec fn done(
    result: Result<(), RequestErrorView>,
    cache: Shelf,
    claimed: Set<Seq<char>>,
) -> Turn {
    Turn { progress: ProgressView::Done(result), cache, claimed }
}

/// The image as the final reply to `request`.
pub open spec fn image_reply(image: Seq<u8>, request: RequestView) -> ActionView {
    ActionView::SendPhoto { image, file_name: image_name(), reply_to: request.reply_to }
}

/// The step of `request` at time `now`.
///
/// A fresh image in the cache is the reply. Without one, the request waits
/// if another is rendering the page, and else claims the page and announces
/// the capture.
pub open spec fn serve(
    request: RequestView,
    cache: Shelf,
    claimed: Set<Seq<char>>,
    now: u64,
) -> Turn {
    match cache.lookup(request.url, now) {
        Some(rendering) => answer(
            image_reply(rendering.image, request),
            cache.after_get(request.url, now),
            claimed,
        ),
        None => if claimed.contains(request.url) {
            Turn {
                progress: ProgressView::Next(
                    HandlingView::Waiting { request },
                    ActionView::AwaitCapture { url: request.url },
                ),
                cache: cache.after_get(request.url, now),
                claimed,
            }
        } else {
            Turn {
                progress: ProgressView::Next(
                    HandlingView::Announcing { request },
                    ActionView::SendText {
                        text: capturing_text(request.url),
                        link_preview: false,
                    },
                ),
                cache: cache.after_get(request.url, now),
                claimed: claimed.insert(request.url),
            }
        },
    }
}

/// The first step of a request whose text was parsed: to `Ok` of the
/// canonical URL, or to `Err` of the reason why it is none. `reply_to` is
/// the number of the message that asked.
pub open spec fn receive(
    parsed: Result<Seq<char>, Seq<char>>,
    reply_to: i32,
    cache: Shelf,
    claimed: Set<Seq<char>>,
    now: u64,
) -> Turn {
    match parsed {
        Ok(url) => serve(RequestView { url, reply_to }, cache, claimed, now),
        Err(reason) => refuse(
            RequestErrorView::InvalidUrl { reason },
            invalid_url_text(reason),
            cache,
            claimed,
        ),
    }
}

impl HandlingView {
    /// The step that a request takes when `event` reports on its last
    /// action, at time `now`.
    pub open spec fn next(
        self,
        event: EventView,
        cache: Shelf,
        claimed: Set<Seq<char>>,
        now: u64,
    ) -> Turn {
        match self {
            HandlingView::Refusing { error } => done(Err(error), cache, claimed),
            HandlingView::Answering => match event {
                EventView::Sent { .. } => done(Ok(()), cache, claimed),
                _ => done(Err(RequestErrorView::Delivery), cache, claimed),
            },
            HandlingView::Waiting { request } => serve(request, cache, claimed, now),
            HandlingView::Announcing { request } => Turn {
                progress: ProgressView::Next(
                    HandlingView::Capturing { request, status: event.message_id() },
                    ActionView::Capture { url: request.url },
                ),
                cache,
                claimed,
            },
            HandlingView::Capturing { request, status } => match event {
                EventView::Captured { image } => Turn {
                    progress: ProgressView::Next(
                        HandlingView::Delivering { status },
                        image_reply(image, request),
                    ),
                    cache: cache.after_put(request.url, Rendering { image, produced_at: now }),
                    claimed: claimed.remove(request.url),
                },
                _ => refuse(
                    RequestErrorView::Capture(event.capture_failure()),
                    failure_text(event.capture_failure()),
                    cache,
                    claimed.remove(request.url),
                ),
            },
            HandlingView::Delivering { status } => match event {
                EventView::Sent { .. } => match status {
                    Some(message_id) => Turn {
                        progress: ProgressView::Next(
                            HandlingView::Tidying,
                            ActionView::DeleteMessage { message_id },
                        ),
                        cache,
                        claimed,
                    },
                    None => done(Ok(()), cache, claimed),
                },
                _ => done(Err(RequestErrorView::Delivery), cache, claimed),
            },
            HandlingView::Tidying => done(Ok(()), cache, claimed),
        }
    }
}

/// Whether `progress` is the refusal of a text that is no absolute URL: the
/// user is told so, and the request will fail with the reason.
pub open spec fn rejects(progress: ProgressView) -> bool {
    progress matches ProgressView::Next(
        HandlingView::Refusing { error: RequestErrorView::InvalidUrl { reason } },
        ActionView::SendText { text, link_preview },
    ) && text == invalid_url_text(reason) && link_preview
}

/// The text of an optional message.
pub open spec fn message_text(text: Option<&str>) -> Option<Seq<char>> {
    match text {
        Some(text) => Some(text@),
        None => None,
    }
}

/// Whether `turn` takes up a request for the page that `text` names.
///
/// Where `text` is an absolute URL, the request is served under the
/// canonical form of the URL. Where it is none, it is refused, and the cache
/// and the register stay as they are.
pub open spec fn takes_up(
    text: Seq<char>,
    reply_to: i32,
    cache: Shelf,
    claimed: Set<Seq<char>>,
    now: u64,
    turn: Turn,
) -> bool {
    match canonical_url(text) {
        Some(url) => turn == serve(RequestView { url, reply_to }, cache, claimed, now),
        None => rejects(turn.progress) && turn.cache == cache && turn.claimed == claimed,
    }
}

/// Whether `turn` takes up a capture command whose message reads `text`.
///
/// The page is named by what follows the first space of the message. A
/// command without that is answered with a request for a URL and fails.
pub open spec fn takes_up_command(
    text: Option<Seq<char>>,
    reply_to: i32,
    cache: Shelf,
    claimed: Set<Seq<char>>,
    now: u64,
    turn: Turn,
) -> bool {
    match text {
        Some(text) => match after_first_space(text) {
            Some(argument) => takes_up(argument, reply_to, cache, claimed, now, turn),
            None => turn == refuse(RequestErrorView::NoUrl, missing_url_text(), cache, claimed),
        },
        None => turn == refuse(RequestErrorView::NoUrl, missing_url_text(), cache, claimed),
    }
}

/// Whether `turn` takes up a message from a private chat that reads `text`.
///
/// A message without text ends at once; any other names a page.
pub open spec fn takes_up_message(
    text: Option<Seq<char>>,
    reply_to: i32,
    cache: Shelf,
    claimed: Set<Seq<char>>,
    now: u64,
    turn: Turn,
) -> bool {
    match text {
        Some(text) => takes_up(text, reply_to, cache, claimed, now, turn),
        None => turn == done(Ok(()), cache, claimed),
    }
}

/// The step that answers the start command.
pub open spec fn greet(cache: Shelf, claimed: Set<Seq<char>>) -> Turn {
    answer(ActionView::SendText { text: greeting(), link_preview: true }, cache, claimed)
}

/// The step that answers the help command with `descriptions`.
pub open spec fn explain(descriptions: Seq<char>, cache: Shelf, claimed: Set<Seq<char>>) -> Turn {
    answer(ActionView::SendText { text: descriptions, link_preview: true }, cache, claimed)
}

impl HandlingView {
    /// Whether the request has claimed the page under `key` and is
    /// rendering it, or about to.
    pub open spec fn renders(self, key: Seq<char>) -> bool {
        match self {
            HandlingView::Announcing { request } => request.url == key,
            HandlingView::Capturing { request, .. } => request.url == key,
            _ => false,
        }
    }
}

/// The requests under way, each under a number of its own, and the register
/// agree: a key is claimed exactly where a request renders it, and no two
/// requests render the same key.
pub open spec fn orderly(requests: Map<int, HandlingView>, claimed: Set<Seq<char>>) -> bool {
    &&& forall|key: Seq<char>| #[trigger]
        claimed.contains(key) <==> exists|id: int|
            requests.dom().contains(id) && (#[trigger] requests[id]).renders(key)
    &&& forall|first: int, second: int, key: Seq<char>|
        requests.dom().contains(first) && requests.dom().contains(second) && first != second
            && #[trigger] requests[first].renders(key) ==> !(
        #[trigger] requests[second].renders(key))
}

/// Hit: once a request has rendered a page and filed the image, the next
/// request for the page is answered with that image straight from the cache
/// for as long as the image is fresh. The page is not rendered again.
pub proof fn rendered_page_is_served_from_cache(
    first: RequestView,
    status: Option<i32>,
    image: Seq<u8>,
    cache: Shelf,
    claimed: Set<Seq<char>>,
    rendered_at: u64,
    second: RequestView,
    now: u64,
)
    requires
        cache.well_formed(),
        cache.capacity > 0,
        second.url == first.url,
        (Rendering { image, produced_at: rendered_at }).fresh(now, cache.ttl),
    ensures
        ({
            let rendered = (HandlingView::Capturing { request: first, status }).next(
                EventView::Captured { image },
                cache,
                claimed,
                rendered_at,
            );
            serve(second, rendered.cache, rendered.claimed, now).progress
        }) == ProgressView::Next(HandlingView::Answering, image_reply(image, second)),
{
    cache.stored_is_found(first.url, Rendering { image, produced_at: rendered_at }, now);
}

/// A text that is no absolute URL is refused, and the cache and the
/// register stay as they are.
pub proof fn invalid_text_is_refused(
    reason: Seq<char>,
    reply_to: i32,
    cache: Shelf,
    claimed: Set<Seq<char>>,
    now: u64,
)
    ensures
        rejects(receive(Err(reason), reply_to, cache, claimed, now).progress),
        receive(Err(reason), reply_to, cache, claimed, now).cache == cache,
        receive(Err(reason), reply_to, cache, claimed, now).claimed == claimed,
{
}

/// A text that is no absolute URL is never rendered: its refusal asks for
/// a text to be sent, and whatever comes of that, the request is then done
/// with the error, the cache and the register untouched.
pub proof fn refused_text_is_never_rendered(
    progress: ProgressView,
    event: EventView,
    cache: Shelf,
    claimed: Set<Seq<char>>,
    now: u64,
)
    requires
        rejects(progress),
    ensures
        progress matches ProgressView::Next(handling, action) && {
            &&& !(action is Capture)
            &&& handling.next(event, cache, claimed, now).progress is Done
            &&& handling.next(event, cache, claimed, now).progress->Done_0 matches Err(
                RequestErrorView::InvalidUrl { .. },
            )
            &&& handling.next(event, cache, claimed, now).cache == cache
            &&& handling.next(event, cache, claimed, now).claimed == claimed
        },
{
}

/// The page is rendered only by a request that holds the claim on it:
/// the capture is asked for in one step only, the one that follows the
/// announcement, and for the key that was claimed.
pub proof fn capture_follows_claim(
    handling: HandlingView,
    event: EventView,
    cache: Shelf,
    claimed: Set<Seq<char>>,
    now: u64,
)
    ensures
        handling.next(event, cache, claimed, now).progress matches ProgressView::Next(
            after,
            ActionView::Capture { url },
        ) ==> handling.renders(url) && after.renders(url),
        forall|parsed: Result<Seq<char>, Seq<char>>, reply_to: i32|
            !(#[trigger] receive(parsed, reply_to, cache, claimed, now).progress
                matches ProgressView::Next(_, ActionView::Capture { .. })),
{
}

/// A capture that fails is told to the user before the request fails: the
/// failure of the capture asks for the error text to be sent, and whatever
/// comes of that, the request is then done with that failure. The claim on
/// the page is given up at once.
pub proof fn capture_failure_is_told(
    request: RequestView,
    status: Option<i32>,
    error: CaptureError,
    event: EventView,
    cache: Shelf,
    claimed: Set<Seq<char>>,
    now: u64,
    later: u64,
)
    ensures
        (HandlingView::Capturing { request, status }).next(
            EventView::CaptureFailed { error },
            cache,
            claimed,
            now,
        ) == refuse(
            RequestErrorView::Capture(error),
            failure_text(error),
            cache,
            claimed.remove(request.url),
        ),
        (HandlingView::Refusing { error: RequestErrorView::Capture(error) }).next(
            event,
            cache,
            claimed,
            later,
        ) == done(Err(RequestErrorView::Capture(error)), cache, claimed),
{
}

impl HandlingView {
    /// How often the request may still ask for the page to be rendered.
    pub open spec fn attempts_left(self) -> nat {
        match self {
            HandlingView::Waiting { .. } | HandlingView::Announcing { .. } => 1,
            _ => 0,
        }
    }
}

/// One attempt: a request asks for its page to be rendered at most once.
/// The step that asks uses up the one attempt that a request has, and no
/// step brings it back. So nothing is retried.
pub proof fn rendering_is_not_retried(
    handling: HandlingView,
    event: EventView,
    cache: Shelf,
    claimed: Set<Seq<char>>,
    now: u64,
)
    ensures
        match handling.next(event, cache, claimed, now).progress {
            ProgressView::Next(after, action) => after.attempts_left() + (if action is Capture {
                1nat
            } else {
                0nat
            }) <= handling.attempts_left(),
            ProgressView::Done(_) => true,
        },
{
}

impl HandlingView {
    /// The most actions that the request may still ask for once it is not
    /// kept waiting any more.
    pub open spec fn steps_left(self) -> nat {
        match self {
            HandlingView::Waiting { .. } => 5,
            HandlingView::Announcing { .. } => 4,
            HandlingView::Capturing { .. } => 3,
            HandlingView::Delivering { .. } => 2,
            HandlingView::Refusing { .. } | HandlingView::Answering | HandlingView::Tidying => 1,
        }
    }
}

/// A request ends: every step brings the end nearer, except that a request
/// may be kept waiting while another renders its page.
pub proof fn request_ends(
    handling: HandlingView,
    event: EventView,
    cache: Shelf,
    claimed: Set<Seq<char>>,
    now: u64,
)
    ensures
        match handling.next(event, cache, claimed, now).progress {
            ProgressView::Next(after, _) => after.steps_left() < handling.steps_left() || (
            handling is Waiting && after is Waiting),
            ProgressView::Done(_) => true,
        },
{
}

/// One capture per page: when a request arrives, the requests under way
/// and the register still agree. So a page that is being rendered is not
/// claimed a second time.
pub proof fn arrival_keeps_order(
    requests: Map<int, HandlingView>,
    id: int,
    parsed: Result<Seq<char>, Seq<char>>,
    reply_to: i32,
    cache: Shelf,
    claimed: Set<Seq<char>>,
    now: u64,
)
    requires
        orderly(requests, claimed),
        !requests.dom().contains(id),
    ensures
        match receive(parsed, reply_to, cache, claimed, now).progress {
            ProgressView::Next(handling, _) => orderly(
                requests.insert(id, handling),
                receive(parsed, reply_to, cache, claimed, now).claimed,
            ),
            ProgressView::Done(_) => orderly(
                requests,
                receive(parsed, reply_to, cache, claimed, now).claimed,
            ),
        },
{
    let turn = receive(parsed, reply_to, cache, claimed, now);
    match turn.progress {
        ProgressView::Next(handling, _) => {
            lemma_joining_keeps_order(requests, claimed, id, handling, turn.claimed);
        },
        ProgressView::Done(_) => {},
    }
}

/// One capture per page: when a request under way takes a step, the
/// requests under way and the register still agree.
pub proof fn step_keeps_order(
    requests: Map<int, HandlingView>,
    id: int,
    event: EventView,
    cache: Shelf,
    claimed: Set<Seq<char>>,
    now: u64,
)
    requires
        orderly(requests, claimed),
        requests.dom().contains(id),
    ensures
        match requests[id].next(event, cache, claimed, now).progress {
            ProgressView::Next(handling, _) => orderly(
                requests.insert(id, handling),
                requests[id].next(event, cache, claimed, now).claimed,
            ),
            ProgressView::Done(_) => orderly(
                requests.remove(id),
                requests[id].next(event, cache, claimed, now).claimed,
            ),
        },
{
    let turn = requests[id].next(event, cache, claimed, now);
    let rest = requests.remove(id);
    // Without the request that steps, the others agree with the register
    // less the key that it renders, if any.
    let before = match requests[id] {
        HandlingView::Announcing { request } => claimed.remove(request.url),
        HandlingView::Capturing { request, .. } => claimed.remove(request.url),
        _ => claimed,
    };
    assert(orderly(rest, before)) by {
        assert forall|key: Seq<char>| #[trigger]
            before.contains(key) <==> exists|other: int|
                rest.dom().contains(other) && (#[trigger] rest[other]).renders(key) by {
            if before.contains(key) {
                let other = choose|other: int|
                    requests.dom().contains(other) && (#[trigger] requests[other]).renders(key);
                assert(rest[other].renders(key));
            }
            if exists|other: int|
                rest.dom().contains(other) && (#[trigger] rest[other]).renders(key) {
                let other = choose|other: int|
                    rest.dom().contains(other) && (#[trigger] rest[other]).renders(key);
                assert(requests[other].renders(key));
            }
        }
    }
    match turn.progress {
        ProgressView::Next(handling, _) => {
            lemma_joining_keeps_order(rest, before, id, handling, turn.claimed);
            assert(rest.insert(id, handling) =~= requests.insert(id, handling));
        },
        ProgressView::Done(_) => {},
    }
}

/// A request that joins the others keeps the agreement, as long as it
/// renders a key exactly where it has just claimed one that was free.
proof fn lemma_joining_keeps_order(
    requests: Map<int, HandlingView>,
    claimed: Set<Seq<char>>,
    id: int,
    handling: HandlingView,
    after: Set<Seq<char>>,
)
    requires
        orderly(requests, claimed),
        !requests.dom().contains(id),
        forall|key: Seq<char>| #[trigger]
            after.contains(key) <==> claimed.contains(key) || handling.renders(key),
        forall|key: Seq<char>| #[trigger] handling.renders(key) ==> !claimed.contains(key),
    ensures
        orderly(requests.insert(id, handling), after),
{
    let joined = requests.insert(id, handling);
    assert forall|key: Seq<char>| #[trigger]
        after.contains(key) <==> exists|other: int|
            joined.dom().contains(other) && (#[trigger] joined[other]).renders(key) by {
        if after.contains(key) {
            if handling.renders(key) {
                assert(joined[id].renders(key));
            } else {
                let other = choose|other: int|
                    requests.dom().contains(other) && (#[trigger] requests[other]).renders(key);
                assert(joined[other].renders(key));
            }
        }
        if exists|other: int|
            joined.dom().contains(other) && (#[trigger] joined[other]).renders(key) {
            let other = choose|other: int|
                joined.dom().contains(other) && (#[trigger] joined[other]).renders(key);
            if other != id {
                assert(requests[other].renders(key));
                assert(claimed.contains(key));
            } else {
                assert(handling.renders(key));
            }
            assert(after.contains(key));
        }
    }
    assert forall|first: int, second: int, key: Seq<char>|
        joined.dom().contains(first) && joined.dom().contains(second) && first != second
            && #[trigger] joined[first].renders(key) implies !(
    #[trigger] joined[second].renders(key)) by {
        if first != id {
            assert(requests[first].renders(key));
        }
        if second != id && joined[second].renders(key) {
            assert(requests[second].renders(key));
        }
    }
}

/// Sends the image as the final reply to the message `reply_to`.
fn reply_with_image(image: Vec<u8>, reply_to: i32) -> (action: Action)
    ensures
        action@ == (ActionView::SendPhoto { image: image@, file_name: image_name(), reply_to }),
{
    Action::SendPhoto { image, file_name: String::from_str("screenshot.jpg"), reply_to }
}

/// Serves a request at time `now`: from the cache, or by rendering.
fn serve_request(
    request: CaptureRequest,
    cache: &mut CaptureCache,
    in_flight: &mut InFlight,
    now: u64,
) -> (progress: Progress)
    requires
        old(cache).wf(),
        old(in_flight).wf(),
    ensures
        final(cache).wf(),
        final(in_flight).wf(),
        (Turn { progress: progress@, cache: final(cache)@, claimed: final(in_flight)@ }) == serve(
            request@,
            old(cache)@,
            old(in_flight)@,
            now,
        ),
{
    match cache.get(&request.url, now) {
        Some(result) => Progress::Next(
            Handling::Answering,
            reply_with_image(result.image, request.reply_to),
        ),
        None => {
            if in_flight.contains(&request.url) {
                let url = request.url.clone();
                Progress::Next(Handling::Waiting { request }, Action::AwaitCapture { url })
            } else {
                in_flight.claim(request.url.clone());
                let text = String::from_str("Capturing a screenshot of ").concat(
                    request.url.as_str(),
                ).concat("...");
                Progress::Next(
                    Handling::Announcing { request },
                    Action::SendText { text, link_preview: false },
                )
            }
        },
    }
}

/// Takes up a request whose text has been parsed. `reply_to` is the
/// number of the message that asked.
///
/// A text that is no absolute URL is refused: the user is told why, and
/// nothing else happens. A URL is looked up in the cache under its
/// canonical form, and rendered if the cache has no fresh image of it.
pub fn receive_request(
    parsed: Result<String, InputError>,
    reply_to: i32,
    cache: &mut CaptureCache,
    in_flight: &mut InFlight,
    now: u64,
) -> (progress: Progress)
    requires
        old(cache).wf(),
        old(in_flight).wf(),
    ensures
        final(cache).wf(),
        final(in_flight).wf(),
        (Turn { progress: progress@, cache: final(cache)@, claimed: final(in_flight)@ }) == receive(
            match parsed {
                Ok(url) => Ok(url@),
                Err(error) => Err(error.reason@),
            },
            reply_to,
            old(cache)@,
            old(in_flight)@,
            now,
        ),
{
    match parsed {
        Ok(url) => serve_request(CaptureRequest { url, reply_to }, cache, in_flight, now),
        Err(error) => {
            let text = String::from_str("Invalid URL: ").concat(error.reason.as_str());
            Progress::Next(
                Handling::Refusing { error: RequestError::InvalidUrl(error) },
                Action::SendText { text, link_preview: true },
            )
        },
    }
}

/// Takes up a request for the page that `text` names. `reply_to` is the
/// number of the message that asked.
///
/// Where `text` is an absolute URL, the request is handled under its
/// canonical form. Where it is none, the request is refused with the
/// parser's reason, and the cache and the register stay as they are.
pub fn handle_request(
    text: &str,
    reply_to: i32,
    cache: &mut CaptureCache,
    in_flight: &mut InFlight,
    now: u64,
) -> (progress: Progress)
    requires
        old(cache).wf(),
        old(in_flight).wf(),
    ensures
        final(cache).wf(),
        final(in_flight).wf(),
        takes_up(
            text@,
            reply_to,
            old(cache)@,
            old(in_flight)@,
            now,
            Turn { progress: progress@, cache: final(cache)@, claimed: final(in_flight)@ },
        ),
{
    receive_request(normalize(text), reply_to, cache, in_flight, now)
}

/// The commands that the bot understands.
#[derive(Clone, Copy, Debug, PartialEq, Eq, Structural)]
pub enum Command {
    /// Show the help message.
    Help,
    /// Start the bot.
    Start,
    /// Capture a screenshot of a website.
    Capture,
}

/// Answers the start command with the greeting.
pub fn start_command_handler() -> (progress: Progress)
    ensures
        progress@ == ProgressView::Next(
            HandlingView::Answering,
            ActionView::SendText { text: greeting(), link_preview: true },
        ),
{
    let text = String::from_str(
        "Hello! I am a website screenshot bot. Send me a URL and I will send you a screenshot of the website.",
    );
    Progress::Next(Handling::Answering, Action::SendText { text, link_preview: true })
}

/// Answers the help command with the descriptions of the commands.
pub fn help_command_handler(descriptions: String) -> (progress: Progress)
    ensures
        progress@ == ProgressView::Next(
            HandlingView::Answering,
            ActionView::SendText { text: descriptions@, link_preview: true },
        ),
{
    Progress::Next(
        Handling::Answering,
        Action::SendText { text: descriptions, link_preview: true },
    )
}

/// Takes up the capture command.
///
/// `text` is the text of the message that carries the command, if it has
/// any, and `reply_to` its number. The page to render is named by what
/// follows the first space. A command without that is answered with a
/// request for a URL and fails.
pub fn capture_command_handler(
    text: Option<&str>,
    reply_to: i32,
    cache: &mut CaptureCache,
    in_flight: &mut InFlight,
    now: u64,
) -> (progress: Progress)
    requires
        old(cache).wf(),
        old(in_flight).wf(),
    ensures
        final(cache).wf(),
        final(in_flight).wf(),
        takes_up_command(
            message_text(text),
            reply_to,
            old(cache)@,
            old(in_flight)@,
            now,
            Turn { progress: progress@, cache: final(cache)@, claimed: final(in_flight)@ },
        ),
{
    let argument = match text {
        Some(text) => command_argument(text),
        None => None,
    };
    match argument {
        Some(argument) => handle_request(argument, reply_to, cache, in_flight, now),
        None => {
            let text = String::from_str(
                "Please provide a URL to capture a screenshot of the website.",
            );
            Progress::Next(
                Handling::Refusing { error: RequestError::NoUrl },
                Action::SendText { text, link_preview: true },
            )
        },
    }
}

/// Takes up a command: the greeting for `Start`, `descriptions` for `Help`,
/// and for `Capture` the page that the text of the message names. `reply_to`
/// is the number of the message.
pub fn command_handler(
    command: Command,
    text: Option<&str>,
    reply_to: i32,
    descriptions: String,
    cache: &mut CaptureCache,
    in_flight: &mut InFlight,
    now: u64,
) -> (progress: Progress)
    requires
        old(cache).wf(),
        old(in_flight).wf(),
    ensures
        final(cache).wf(),
        final(in_flight).wf(),
        match command {
            Command::Start => (Turn {
                progress: progress@,
                cache: final(cache)@,
                claimed: final(in_flight)@,
            }) == greet(old(cache)@, old(in_flight)@),
            Command::Help => (Turn {
                progress: progress@,
                cache: final(cache)@,
                claimed: final(in_flight)@,
            }) == explain(descriptions@, old(cache)@, old(in_flight)@),
            Command::Capture => takes_up_command(
                message_text(text),
                reply_to,
                old(cache)@,
                old(in_flight)@,
                now,
                Turn { progress: progress@, cache: final(cache)@, claimed: final(in_flight)@ },
            ),
        },
{
    match command {
        Command::Start => start_command_handler(),
        Command::Help => help_command_handler(descriptions),
        Command::Capture => capture_command_handler(text, reply_to, cache, in_flight, now),
    }
}

/// Takes up a message from a private chat.
///
/// `text` is the text of the message, and `reply_to` its number. A message
/// without text is none of this bot's business and is done at once. Any
/// other is read as a URL.
pub fn private_message_handler(
    text: Option<&str>,
    reply_to: i32,
    cache: &mut CaptureCache,
    in_flight: &mut InFlight,
    now: u64,
) -> (progress: Progress)
    requires
        old(cache).wf(),
        old(in_flight).wf(),
    ensures
        final(cache).wf(),
        final(in_flight).wf(),
        takes_up_message(
            message_text(text),
            reply_to,
            old(cache)@,
            old(in_flight)@,
            now,
            Turn { progress: progress@, cache: final(cache)@, claimed: final(in_flight)@ },
        ),
{
    match text {
        Some(text) => handle_request(text, reply_to, cache, in_flight, now),
        None => Progress::Done(Ok(())),
    }
}

impl Handling {
    /// Takes in how the last action went, at time `now`, and says what the
    /// request does next.
    pub fn advance(
        self,
        event: Event,
        cache: &mut CaptureCache,
        in_flight: &mut InFlight,
        now: u64,
    ) -> (progress: Progress)
        requires
            old(cache).wf(),
            old(in_flight).wf(),
        ensures
            final(cache).wf(),
            final(in_flight).wf(),
            (Turn { progress: progress@, cache: final(cache)@, claimed: final(in_flight)@ })
                == self@.next(event@, old(cache)@, old(in_flight)@, now),
    {
        match self {
            Handling::Refusing { error } => Progress::Done(Err(error)),
            Handling::Answering => match event {
                Event::Sent { .. } => Progress::Done(Ok(())),
                _ => Progress::Done(Err(RequestError::Delivery)),
            },
            Handling::Waiting { request } => serve_request(request, cache, in_flight, now),
            Handling::Announcing { request } => {
                let status = match event {
                    Event::Sent { message_id } => Some(message_id),
                    _ => None,
                };
                let url = request.url.clone();
                Progress::Next(Handling::Capturing { request, status }, Action::Capture { url })
            },
            Handling::Capturing { request, status } => {
                in_flight.release(&request.url);
                match event {
                    Event::Captured { image } => {
                        let kept = image.clone();
                        let reply_to = request.reply_to;
                        cache.put(request.url, CaptureResult { image: kept, produced_at: now });
                        Progress::Next(
                            Handling::Delivering { status },
                            reply_with_image(image, reply_to),
                        )
                    },
                    other => {
                        let error = match other {
                            Event::CaptureFailed { error } => error,
                            _ => CaptureError::ProtocolError,
                        };
                        let text = String::from_str("Failed to capture a screenshot: ").concat(
                            error.message().as_str(),
                        );
                        Progress::Next(
                            Handling::Refusing { error: RequestError::Capture(error) },
                            Action::SendText { text, link_preview: true },
                        )
                    },
                }
            },
            Handling::Delivering { status } => match event {
                Event::Sent { .. } => match status {
                    Some(message_id) => Progress::Next(
                        Handling::Tidying,
                        Action::DeleteMessage { message_id },
                    ),
                    None => Progress::Done(Ok(())),
                },
                _ => Progress::Done(Err(RequestError::Delivery)),
            },
            Handling::Tidying => Progress::Done(Ok(())),
        }
    }
}

} // verus!
