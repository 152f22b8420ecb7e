//! Looking through a channel's recent messages for media to work on.
//!
//! The channel is read a page of messages at a time, from the request
//! backwards. A message with a single attachment of a usable kind settles the
//! search, and so does a message with an embedded picture or video. An
//! embedded animation only points at a web page; the page is read piece by
//! piece until it shows the address of the animation. The search decides
//! what to read next and what was found; reading is left to its caller.

use crate::media_helpers::{media_type_of, Lead, MediaType, UrlAndMediaType};
use crate::text::same_text;
use vstd::prelude::*;
use vstd::string::StringExecFns;

verus! {

/// Number of messages asked for at a time.
pub const PAGE_SIZE: u8 = 5;

/// Number of messages after which the search gives up.
pub const READ_LIMIT: u32 = 50;

/// The line of a web page that gives the address of its animation.
pub const CONTENT_URL: &'static str = "<meta itemProp=\"contentUrl\" content=\"(?<url>[^\"]+)\">";

/// The group of `CONTENT_URL` that holds the address.
pub const CONTENT_URL_GROUP: &'static str = "url";

/// How a web page writes a slash inside a script.
pub const ESCAPED_SLASH: &'static str = "\\u002F";

/// A file that came with a message.
pub struct Attachment {
    pub content_type: Option<String>,
    pub url: String,
}

/// A preview that the platform put under a message.
pub struct Embed {
    pub kind: Option<String>,
    pub url: Option<String>,
}

/// What the search reads of a message.
pub struct Message {
    pub id: u64,
    pub attachments: Vec<Attachment>,
    pub embeds: Vec<Embed>,
}

/// What an embed shows, as far as the search cares.
#[derive(Debug, PartialEq, Eq, Clone, Copy, Structural)]
pub enum EmbedKind {
    Image,
    Video,
    /// An animation behind a web page.
    Gifv,
    Other,
}

/// Why a search was broken off.
#[derive(Debug, PartialEq, Eq, Clone, Copy, Structural)]
pub enum Fault {
    /// A single attachment without a content type, or an embedded picture,
    /// video or animation without an address.
    Malformed,
    /// The channel answered with no message at all.
    EmptyPage,
    /// The search was told of something that it had not asked for.
    OutOfTurn,
}

/// What an embed of the given kind shows.
pub open spec fn embed_kind(kind: Seq<char>) -> EmbedKind {
    if kind == "image"@ {
        EmbedKind::Image
    } else if kind == "video"@ {
        EmbedKind::Video
    } else if kind == "gifv"@ {
        EmbedKind::Gifv
    } else {
        EmbedKind::Other
    }
}

/// What an embed of the given kind shows.
pub fn classify_embed(kind: &str) -> (shows: EmbedKind)
    ensures
        shows == embed_kind(kind@),
{
    if same_text(kind, "image") {
        EmbedKind::Image
    } else if same_text(kind, "video") {
        EmbedKind::Video
    } else if same_text(kind, "gifv") {
        EmbedKind::Gifv
    } else {
        EmbedKind::Other
    }
}

/// Nothing found.
pub open spec fn nothing() -> Lead {
    Lead { url: Seq::empty(), media_type: MediaType::Unknown }
}

/// Where the look at one message's embeds ends.
pub enum EmbedScan {
    /// All embeds were looked at; this is what they showed.
    Done(Lead),
    /// The web page at `url` has to be read before the look can go on at
    /// embed number `embed`.
    Fetch { embed: int, url: Seq<char>, found: Lead },
    Malformed,
}

/// Where the look at a page of messages ends.
pub enum PageScan {
    Found(Lead),
    /// The web page at `url` has to be read before the look can go on in
    /// message number `message` at embed number `embed`.
    Fetch { message: int, embed: int, url: Seq<char>, found: Lead },
    /// No message of the page shows media.
    Nothing,
    Malformed,
}

/// The look at the embeds of one message from number `e` on, with `found`
/// in hand. Each embedded picture or video replaces what was found before
/// it; an embedded animation interrupts the look.
pub open spec fn scan_embeds(embeds: Seq<Embed>, e: int, found: Lead) -> EmbedScan
    decreases embeds.len() - e,
{
    if e < 0 || e >= embeds.len() {
        EmbedScan::Done(found)
    } else {
        match (embeds[e].kind, embeds[e].url) {
            (None, _) => scan_embeds(embeds, e + 1, found),
            (Some(kind), url) => match (embed_kind(kind@), url) {
                (EmbedKind::Other, _) => scan_embeds(embeds, e + 1, found),
                (_, None) => EmbedScan::Malformed,
                (EmbedKind::Image, Some(url)) => scan_embeds(
                    embeds,
                    e + 1,
                    Lead { url: url@, media_type: MediaType::Image },
                ),
                (EmbedKind::Video, Some(url)) => scan_embeds(
                    embeds,
                    e + 1,
                    Lead { url: url@, media_type: MediaType::Video },
                ),
                (EmbedKind::Gifv, Some(url)) => EmbedScan::Fetch { embed: e + 1, url: url@, found },
            },
        }
    }
}

/// The look at a page of messages from message number `m`, embed number `e`
/// on, with `found` in hand. A message with exactly one attachment is judged
/// by that attachment alone; every other message by its embeds.
pub open spec fn scan_messages(page: Seq<Message>, m: int, e: int, found: Lead) -> PageScan
    decreases page.len() - m,
{
    if m < 0 || m >= page.len() {
        PageScan::Nothing
    } else if e == 0 && page[m].attachments@.len() == 1 {
        let attachment = page[m].attachments@[0];
        match attachment.content_type {
            None => PageScan::Malformed,
            Some(content_type) => match media_type_of(content_type@) {
                Some(kind) => PageScan::Found(Lead { url: attachment.url@, media_type: kind }),
                None => scan_messages(page, m + 1, 0, nothing()),
            },
        }
    } else {
        match scan_embeds(page[m].embeds@, e, found) {
            EmbedScan::Done(lead) => if lead.media_type != MediaType::Unknown {
                PageScan::Found(lead)
            } else {
                scan_messages(page, m + 1, 0, nothing())
            },
            EmbedScan::Fetch { embed, url, found } => PageScan::Fetch {
                message: m,
                embed,
                url,
                found,
            },
            EmbedScan::Malformed => PageScan::Malformed,
        }
    }
}

/// Whatever a look at a page finds is media of a known kind.
pub proof fn lemma_found_is_usable(page: Seq<Message>, m: int, e: int, found: Lead)
    ensures
        scan_messages(page, m, e, found) matches PageScan::Found(lead) ==> lead.media_type
            != MediaType::Unknown,
    decreases page.len() - m,
{
    if 0 <= m < page.len() {
        lemma_found_is_usable(page, m + 1, 0, nothing());
    }
}

enum EmbedOutcome {
    Done(UrlAndMediaType),
    Fetch { embed: usize, url: String, found: UrlAndMediaType },
    Malformed,
}

impl View for EmbedOutcome {
    type V = EmbedScan;

    closed spec fn view(&self) -> EmbedScan {
        match self {
            EmbedOutcome::Done(lead) => EmbedScan::Done(lead@),
            EmbedOutcome::Fetch { embed, url, found } => EmbedScan::Fetch {
                embed: *embed as int,
                url: url@,
                found: found@,
            },
            EmbedOutcome::Malformed => EmbedScan::Malformed,
        }
    }
}

enum PageOutcome {
    Found(UrlAndMediaType),
    Fetch { message: usize, embed: usize, url: String, found: UrlAndMediaType },
    Nothing,
    Malformed,
}

impl View for PageOutcome {
    type V = PageScan;

    closed spec fn view(&self) -> PageScan {
        match self {
            PageOutcome::Found(lead) => PageScan::Found(lead@),
            PageOutcome::Fetch { message, embed, url, found } => PageScan::Fetch {
                message: *message as int,
                embed: *embed as int,
                url: url@,
                found: found@,
            },
            PageOutcome::Nothing => PageScan::Nothing,
            PageOutcome::Malformed => PageScan::Malformed,
        }
    }
}

fn look_at_embeds(embeds: &Vec<Embed>, from: usize, found: &UrlAndMediaType) -> (outcome:
    EmbedOutcome)
    ensures
        outcome@ == scan_embeds(embeds@, from as int, found@),
{
    let mut e = from;
    let mut lead = found.copy();
    while e < embeds.len()
        invariant
            scan_embeds(embeds@, e as int, lead@) == scan_embeds(embeds@, from as int, found@),
        decreases embeds.len() - e,
    {
        let embed = &embeds[e];
        match &embed.kind {
            None => {},
            Some(kind) => {
                let shows = classify_embed(kind.as_str());
                if shows != EmbedKind::Other {
                    match &embed.url {
                        None => {
                            return EmbedOutcome::Malformed;
                        },
                        Some(url) => {
                            if shows == EmbedKind::Gifv {
                                return EmbedOutcome::Fetch {
                                    embed: e + 1,
                                    url: url.clone(),
                                    found: lead,
                                };
                            } else if shows == EmbedKind::Image {
                                lead =
                                UrlAndMediaType { url: url.clone(), media_type: MediaType::Image };
                            } else {
                                lead =
                                UrlAndMediaType { url: url.clone(), media_type: MediaType::Video };
                            }
                        },
                    }
                }
            },
        }
        e = e + 1;
    }
    EmbedOutcome::Done(lead)
}

fn look_at_messages(page: &Vec<Message>, message: usize, embed: usize, found: &UrlAndMediaType) -> (outcome:
    PageOutcome)
    ensures
        outcome@ == scan_messages(page@, message as int, embed as int, found@),
{
    let mut m = message;
    let mut e = embed;
    let mut lead = found.copy();
    while m < page.len()
        invariant
            scan_messages(page@, m as int, e as int, lead@) == scan_messages(
                page@,
                message as int,
                embed as int,
                found@,
            ),
        decreases page.len() - m,
    {
        let current = &page[m];
        if e == 0 && current.attachments.len() == 1 {
            let attachment = &current.attachments[0];
            match &attachment.content_type {
                None => {
                    return PageOutcome::Malformed;
                },
                Some(content_type) => {
                    match MediaType::from(content_type.clone()) {
                        Some(kind) => {
                            return PageOutcome::Found(
                                UrlAndMediaType { url: attachment.url.clone(), media_type: kind },
                            );
                        },
                        None => {},
                    }
                },
            }
        } else {
            match look_at_embeds(&current.embeds, e, &lead) {
                EmbedOutcome::Done(shown) => {
                    if shown.media_type != MediaType::Unknown {
                        return PageOutcome::Found(shown);
                    }
                },
                EmbedOutcome::Fetch { embed, url, found } => {
                    return PageOutcome::Fetch { message: m, embed, url, found };
                },
                EmbedOutcome::Malformed => {
                    return PageOutcome::Malformed;
                },
            }
        }
        m = m + 1;
        e = 0;
        lead = UrlAndMediaType::default();
    }
    PageOutcome::Nothing
}

/// The text that `String::from_utf8_lossy` reads out of `bytes`.
pub uninterp spec fn utf8_lossy(bytes: Seq<u8>) -> Seq<char>;

/// The text that `str::replace` makes of `text` when it puts `to` in the
/// place of `from`.
pub uninterp spec fn replaced(text: Seq<char>, from: Seq<char>, to: Seq<char>) -> Seq<char>;

/// What the group `group` holds in the first match of `pattern` in `text`,
/// as `regex` finds it; `None` where `pattern` is no pattern, nothing
/// matches, or the match has no such group.
pub uninterp spec fn captured(pattern: Seq<char>, group: Seq<char>, text: Seq<char>) -> Option<Seq<char>>;

/// `String::from_utf8_lossy`: the bytes read as text, each stretch that is
/// no UTF-8 turned into the replacement character. The same bytes give the
/// same text.
#[verifier::external_body]
fn lossy_text(bytes: &[u8]) -> (text: String)
    ensures
        text@ == utf8_lossy(bytes@),
{
    String::from_utf8_lossy(bytes).into_owned()
}

/// `str::replace`: a new text in which every match of `from` is `to`. The
/// same arguments give the same text.
#[verifier::external_body]
fn replace_all(text: &str, from: &str, to: &str) -> (out: String)
    ensures
        out@ == replaced(text@, from@, to@),
{
    text.replace(from, to)
}

/// `regex::Regex::captures` for the pattern that `Regex::new` compiles from
/// `pattern`, and `Captures::name` for `group` in what it found. The same
/// arguments give the same answer.
#[verifier::external_body]
fn capture(pattern: &str, group: &str, text: &str) -> (found: Option<String>)
    ensures
        match found {
            Some(part) => captured(pattern@, group@, text@) == Some(part@),
            None => captured(pattern@, group@, text@) is None,
        },
{
    let regex = regex::Regex::new(pattern).ok()?;
    let captures = regex.captures(text)?;
    match captures.name(group) {
        Some(part) => Some(part.as_str().to_string()),
        None => None,
    }
}

/// What was read of a web page once `bytes` have been read behind `text`:
/// the bytes as text, every escaped slash written as a slash.
pub open spec fn page_text(text: Seq<char>, bytes: Seq<u8>) -> Seq<char> {
    text + replaced(utf8_lossy(bytes), ESCAPED_SLASH@, "/"@)
}

/// What the search asks its caller to do next.
pub enum Request {
    /// Read up to `limit` messages that came before message `before`, the
    /// newest first, and hand them to `on_messages`.
    Messages { before: u64, limit: u8 },
    /// Open the web page at `url` and hand its first piece to `on_chunk`, or
    /// call `on_end` if it has none.
    Page { url: String },
    /// Hand the next piece of the open page to `on_chunk`, or call `on_end`
    /// if there is none.
    Chunk,
    /// The search is over, with this result.
    Finish(Option<UrlAndMediaType>),
    /// The search cannot go on.
    Abort(Fault),
}

/// A `Request` in the model.
pub enum RequestView {
    Messages { before: u64, limit: u8 },
    Page { url: Seq<char> },
    Chunk,
    Finish(Option<Lead>),
    Abort(Fault),
}

impl View for Request {
    type V = RequestView;

    open spec fn view(&self) -> RequestView {
        match self {
            Request::Messages { before, limit } => RequestView::Messages {
                before: *before,
                limit: *limit,
            },
            Request::Page { url } => RequestView::Page { url: url@ },
            Request::Chunk => RequestView::Chunk,
            Request::Finish(Some(lead)) => RequestView::Finish(Some(lead@)),
            Request::Finish(None) => RequestView::Finish(None),
            Request::Abort(fault) => RequestView::Abort(*fault),
        }
    }
}

/// Where a search stands, in the model.
pub enum SearchView {
    /// Waiting for the messages before `before`; `checked` messages were
    /// looked at already.
    Messages { checked: int, before: u64 },
    /// Reading the web page of an animation embedded in message number
    /// `message` of `page`. `text` is what was read of it; `found` is what the
    /// message showed before, and `embed` is the embed to go on with.
    Chunks {
        checked: int,
        page: Seq<Message>,
        message: int,
        embed: int,
        found: Lead,
        text: Seq<char>,
    },
    /// Finished or broken off.
    Over,
}

/// How the search goes on from message number `message`, embed number
/// `embed` of `page` with `found` in hand: it ends where media shows, reads
/// a web page where an animation is embedded, and turns to the messages
/// before the page where the page shows nothing, unless the limit is
/// reached.
pub open spec fn settle(checked: int, page: Seq<Message>, message: int, embed: int, found: Lead) -> (
    SearchView,
    RequestView,
) {
    match scan_messages(page, message, embed, found) {
        PageScan::Found(lead) => (SearchView::Over, RequestView::Finish(Some(lead))),
        PageScan::Fetch { message, embed, url, found } => (
            SearchView::Chunks { checked, page, message, embed, found, text: Seq::empty() },
            RequestView::Page { url },
        ),
        PageScan::Malformed => (SearchView::Over, RequestView::Abort(Fault::Malformed)),
        PageScan::Nothing => if page.len() == 0 {
            (SearchView::Over, RequestView::Abort(Fault::EmptyPage))
        } else if checked + PAGE_SIZE >= READ_LIMIT {
            (SearchView::Over, RequestView::Finish(None))
        } else {
            (
                SearchView::Messages { checked: checked + PAGE_SIZE, before: page.last().id },
                RequestView::Messages { before: page.last().id, limit: PAGE_SIZE },
            )
        },
    }
}

/// A search reads the channel `PAGE_SIZE` messages at a time and stops
/// asking before `READ_LIMIT` messages were looked at: where it asks for
/// older messages, the count has grown by one page and is still under the
/// limit. Reading a web page in between does not count.
pub proof fn lemma_search_budget(
    checked: int,
    page: Seq<Message>,
    message: int,
    embed: int,
    found: Lead,
)
    ensures
        match settle(checked, page, message, embed, found) {
            (SearchView::Messages { checked: counted, before }, request) => {
                &&& counted == checked + PAGE_SIZE
                &&& counted < READ_LIMIT
                &&& request == (RequestView::Messages { before, limit: PAGE_SIZE })
            },
            (SearchView::Chunks { checked: counted, .. }, request) => {
                &&& counted == checked
                &&& request is Page
            },
            (SearchView::Over, request) => {
                &&& request is Finish || request is Abort
                &&& request matches RequestView::Finish(Some(lead)) ==> lead.media_type
                    != MediaType::Unknown
            },
        },
{
    lemma_found_is_usable(page, message, embed, found);
}

/// What the search does with a page of messages that it asked for.
pub open spec fn after_messages(search: SearchView, page: Seq<Message>) -> (SearchView, RequestView) {
    match search {
        SearchView::Messages { checked, before } => settle(checked, page, 0, 0, nothing()),
        _ => (search, RequestView::Abort(Fault::OutOfTurn)),
    }
}

/// What the search does with the next piece of the web page that it reads:
/// once the text read so far shows the address of the animation, that is
/// what the message shows, and the look at the message goes on.
pub open spec fn after_chunk(search: SearchView, bytes: Seq<u8>) -> (SearchView, RequestView) {
    match search {
        SearchView::Chunks { checked, page, message, embed, found, text } => {
            let text = page_text(text, bytes);
            match captured(CONTENT_URL@, CONTENT_URL_GROUP@, text) {
                Some(url) => settle(
                    checked,
                    page,
                    message,
                    embed,
                    Lead { url, media_type: MediaType::Gif },
                ),
                None => (
                    SearchView::Chunks { checked, page, message, embed, found, text },
                    RequestView::Chunk,
                ),
            }
        },
        _ => (search, RequestView::Abort(Fault::OutOfTurn)),
    }
}

/// What the search does when the web page that it reads has ended without
/// showing an address: the look at the message goes on with what was found
/// before.
pub open spec fn after_end(search: SearchView) -> (SearchView, RequestView) {
    match search {
        SearchView::Chunks { checked, page, message, embed, found, text } => settle(
            checked,
            page,
            message,
            embed,
            found,
        ),
        _ => (search, RequestView::Abort(Fault::OutOfTurn)),
    }
}

#[derive(Debug, PartialEq, Eq, Clone, Copy, Structural)]
enum Phase {
    Messages,
    Chunks,
    Over,
}

/// A search for media in the messages before a request.
pub struct Search {
    phase: Phase,
    checked: u32,
    before: u64,
    page: Vec<Message>,
    message: usize,
    embed: usize,
    found: UrlAndMediaType,
    text: String,
}

impl View for Search {
    type V = SearchView;

    closed spec fn view(&self) -> SearchView {
        match self.phase {
            Phase::Messages => SearchView::Messages {
                checked: self.checked as int,
                before: self.before,
            },
            Phase::Chunks => SearchView::Chunks {
                checked: self.checked as int,
                page: self.page@,
                message: self.message as int,
                embed: self.embed as int,
                found: self.found@,
                text: self.text@,
            },
            Phase::Over => SearchView::Over,
        }
    }
}

impl Search {
    /// A search through the messages before message `start`, and its first
    /// request.
    pub fn begin(start: u64) -> (opening: (Search, Request))
        ensures
            opening.0@ == (SearchView::Messages { checked: 0, before: start }),
            opening.1@ == (RequestView::Messages { before: start, limit: PAGE_SIZE }),
    {
        let search = Search {
            phase: Phase::Messages,
            checked: 0,
            before: start,
            page: Vec::new(),
            message: 0,
            embed: 0,
            found: UrlAndMediaType::default(),
            text: String::new(),
        };
        (search, Request::Messages { before: start, limit: PAGE_SIZE })
    }

    /// Whether the search has ended, with a result or without.
    pub fn is_over(&self) -> (over: bool)
        ensures
            over == (self@ is Over),
    {
        self.phase == Phase::Over
    }

    /// Goes on from where the fields point.
    fn go_on(&mut self) -> (request: Request)
        requires
            old(self).phase != Phase::Over,
        ensures
            (final(self)@, request@) == settle(
                old(self).checked as int,
                old(self).page@,
                old(self).message as int,
                old(self).embed as int,
                old(self).found@,
            ),
    {
        match look_at_messages(&self.page, self.message, self.embed, &self.found) {
            PageOutcome::Found(lead) => {
                self.phase = Phase::Over;
                Request::Finish(Some(lead))
            },
            PageOutcome::Fetch { message, embed, url, found } => {
                self.message = message;
                self.embed = embed;
                self.found = found;
                self.text = String::new();
                self.phase = Phase::Chunks;
                Request::Page { url }
            },
            PageOutcome::Malformed => {
                self.phase = Phase::Over;
                Request::Abort(Fault::Malformed)
            },
            PageOutcome::Nothing => {
                if self.page.len() == 0 {
                    self.phase = Phase::Over;
                    Request::Abort(Fault::EmptyPage)
                } else if self.checked >= READ_LIMIT - PAGE_SIZE as u32 {
                    self.phase = Phase::Over;
                    Request::Finish(None)
                } else {
                    let before = self.page[self.page.len() - 1].id;
                    self.checked = self.checked + PAGE_SIZE as u32;
                    self.before = before;
                    self.phase = Phase::Messages;
                    Request::Messages { before, limit: PAGE_SIZE }
                }
            },
        }
    }

    /// Takes the messages that the search asked for and says what to do
    /// next.
    pub fn on_messages(&mut self, page: Vec<Message>) -> (request: Request)
        ensures
            (final(self)@, request@) == after_messages(old(self)@, page@),
    {
        if self.phase != Phase::Messages {
            return Request::Abort(Fault::OutOfTurn);
        }
        self.page = page;
        self.message = 0;
        self.embed = 0;
        self.found = UrlAndMediaType::default();
        self.go_on()
    }

    /// Takes the next piece of the web page that the search asked for and
    /// says what to do next.
    pub fn on_chunk(&mut self, bytes: &[u8]) -> (request: Request)
        ensures
            (final(self)@, request@) == after_chunk(old(self)@, bytes@),
    {
        if self.phase != Phase::Chunks {
            return Request::Abort(Fault::OutOfTurn);
        }
        let piece = lossy_text(bytes);
        let piece = replace_all(piece.as_str(), ESCAPED_SLASH, "/");
        self.text.append(piece.as_str());
        match capture(CONTENT_URL, CONTENT_URL_GROUP, self.text.as_str()) {
            Some(url) => {
                self.found = UrlAndMediaType { url, media_type: MediaType::Gif };
                self.go_on()
            },
            None => Request::Chunk,
        }
    }

    /// Takes note that the web page has no further piece and says what to
    /// do next.
    pub fn on_end(&mut self) -> (request: Request)
        ensures
            (final(self)@, request@) == after_end(old(self)@),
    {
        if self.phase != Phase::Chunks {
            return Request::Abort(Fault::OutOfTurn);
        }
        self.go_on()
    }
}

} // verus!
