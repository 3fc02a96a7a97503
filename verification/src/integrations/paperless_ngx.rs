//! Paperless NGX: which requests list its documents, page by page, and how
//! a document is described.

use vstd::prelude::*;
use crate::text::{i32_text, int_text};

verus! {

/// Connection settings of a Paperless NGX instance.
#[derive(Clone, Debug)]
pub struct PaperlessIntegration {
    pub host: String,
    pub token: String,
}

/// Makes the settings for the Paperless NGX instance at `host`, which
/// accepts the API token `token`.
pub fn new(host: String, token: String) -> (res: PaperlessIntegration)
    ensures
        res.host == host,
        res.token == token,
{
    PaperlessIntegration { host, token }
}

/// A moment in UTC: seconds since the Unix epoch and the nanoseconds
/// within that second.
#[derive(Clone, Copy, Debug, PartialEq, Eq)]
pub struct Timestamp {
    pub seconds: i64,
    pub nanoseconds: u32,
}

/// One document as the Paperless NGX API lists it.
#[derive(Clone, Debug)]
pub struct APIDoc {
    pub id: i32,
    pub title: String,
    pub created: Timestamp,
}

/// One page of the document listing, and the link to the next page.
pub struct APIDocResponse {
    pub count: i32,
    pub next: Option<String>,
    pub results: Vec<APIDoc>,
}

/// One request for a page of the document listing.
pub struct PageRequest {
    pub url: String,
    /// Value of the `Authorization` header.
    pub authorization: String,
    /// Value of the `Content-Type` header.
    pub content_type: String,
    /// Value of the `Accept` header.
    pub accept: String,
}

/// Where a walk through the document listing stands: the page to request
/// next, if any, and (as ghost state) what the walk has seen so far.
pub struct DocumentPager {
    pub token: String,
    pub next_url: Option<String>,
    /// The `next` links of the pages taken in, in order.
    pub links: Ghost<Seq<Option<Seq<char>>>>,
    /// The documents of the pages taken in, page by page, in order.
    pub pages: Ghost<Seq<Seq<APIDoc>>>,
    /// The documents handed out so far, in order.
    pub handed_out: Ghost<Seq<APIDoc>>,
    /// Whether a page could not be fetched or read.
    pub failed: Ghost<bool>,
}

/// An optional link, as text.
pub open spec fn link_of(link: Option<String>) -> Option<Seq<char>> {
    match link {
        Some(u) => Some(u@),
        None => None,
    }
}

/// The documents of the given pages, one page after the other.
pub open spec fn concat_pages(pages: Seq<Seq<APIDoc>>) -> Seq<APIDoc>
    decreases pages.len(),
{
    if pages.len() == 0 {
        Seq::empty()
    } else {
        concat_pages(pages.drop_last()) + pages.last()
    }
}

/// The address of the first page of the document listing.
pub open spec fn documents_url(host: Seq<char>) -> Seq<char> {
    host + "/api/documents/"@
}

/// The `Authorization` header value for an API token.
pub open spec fn token_authorization(token: Seq<char>) -> Seq<char> {
    "Token "@ + token
}

/// The media type that the listing is requested in and sent as.
pub open spec fn json_media_type() -> Seq<char> {
    "application/json"@
}

/// The text of a document: its number, title and creation time, separated
/// by single spaces.
pub open spec fn document_text(id: int, title: Seq<char>, created: Seq<char>) -> Seq<char> {
    int_text(id) + " "@ + title + " "@ + created
}

/// How chrono writes, as a `DateTime<Utc>`, the moment `nanoseconds`
/// after `seconds` since the Unix epoch; `None` where chrono has no such
/// date and time.
pub uninterp spec fn chrono_utc_text(seconds: i64, nanoseconds: u32) -> Option<Seq<char>>;

/// Formats a moment with chrono: `DateTime::<Utc>::from_timestamp`, then
/// its `Display` impl (`to_string`). The text is named, not spelled out;
/// `None` exactly where chrono refuses the timestamp.
#[verifier::external_body]
fn utc_text(seconds: i64, nanoseconds: u32) -> (res: Option<String>)
    ensures
        match res {
            Some(s) => chrono_utc_text(seconds, nanoseconds) == Some(s@),
            None => chrono_utc_text(seconds, nanoseconds) is None,
        },
{
    chrono::DateTime::<chrono::Utc>::from_timestamp(seconds, nanoseconds).map(|t| t.to_string())
}

/// The text of a document whose creation time is already written out as
/// `created`.
pub fn document_display(id: i32, title: &str, created: &str) -> (res: String)
    ensures
        res@ == document_text(id as int, title@, created@),
{
    let mut out = i32_text(id);
    out.append(" ");
    out.append(title);
    out.append(" ");
    out.append(created);
    out
}

impl APIDoc {
    /// The text of the document: number, title and creation time (as
    /// chrono writes it). `None` where chrono cannot represent the
    /// creation time.
    pub fn to_display_string(&self) -> (res: Option<String>)
        ensures
            match chrono_utc_text(self.created.seconds, self.created.nanoseconds) {
                Some(t) => res matches Some(s) && s@ == document_text(
                    self.id as int,
                    self.title@,
                    t,
                ),
                None => res is None,
            },
    {
        match utc_text(self.created.seconds, self.created.nanoseconds) {
            Some(created) => Some(document_display(self.id, self.title.as_str(), created.as_str())),
            None => None,
        }
    }
}

impl PaperlessIntegration {
    /// The name under which this integration is shown.
    pub fn name(&self) -> (res: String)
        ensures
            res@ == "Paperless NGX"@,
    {
        String::from_str("Paperless NGX")
    }

    /// Starts a walk through the document listing at its first page.
    pub fn documents(&self) -> (res: DocumentPager)
        ensures
            res.wf(),
            res.token@ == self.token@,
            res.next_url matches Some(u) && u@ == documents_url(self.host@),
            res.links@ == Seq::<Option<Seq<char>>>::empty(),
            res.pages@ == Seq::<Seq<APIDoc>>::empty(),
            !res.failed@,
    {
        let mut url = self.host.clone();
        url.append("/api/documents/");
        DocumentPager {
            token: self.token.clone(),
            next_url: Some(url),
            links: Ghost(Seq::empty()),
            pages: Ghost(Seq::empty()),
            handed_out: Ghost(Seq::empty()),
            failed: Ghost(false),
        }
    }
}

impl DocumentPager {
    /// The walk's bookkeeping: the documents handed out are those of the
    /// pages taken in, in order; a failure ends the walk; otherwise the walk
    /// stands at the first page until a page comes in, and then at the last
    /// page's `next` link.
    pub open spec fn wf(&self) -> bool {
        &&& self.links@.len() == self.pages@.len()
        &&& self.handed_out@ == concat_pages(self.pages@)
        &&& if self.failed@ {
            self.next_url is None
        } else if self.links@.len() == 0 {
            self.next_url is Some
        } else {
            link_of(self.next_url) == self.links@.last()
        }
    }

    /// The request for the next page, or `None` once the listing is done.
    /// Every request carries the API token and asks for JSON.
    pub fn next_request(&self) -> (res: Option<PageRequest>)
        ensures
            match self.next_url {
                None => res is None,
                Some(u) => res matches Some(r) && {
                    &&& r.url@ == u@
                    &&& r.authorization@ == token_authorization(self.token@)
                    &&& r.content_type@ == json_media_type()
                    &&& r.accept@ == json_media_type()
                },
            },
    {
        match &self.next_url {
            None => None,
            Some(u) => {
                let mut authorization = String::from_str("Token ");
                authorization.append(self.token.as_str());
                Some(
                    PageRequest {
                        url: u.clone(),
                        authorization,
                        content_type: String::from_str("application/json"),
                        accept: String::from_str("application/json"),
                    },
                )
            },
        }
    }

    /// Takes in a page of the listing: the walk goes on at the page's
    /// `next` link (and ends where it has none); the page's documents are
    /// handed out in the order listed.
    pub fn receive(&mut self, page: APIDocResponse) -> (docs: Vec<APIDoc>)
        requires
            old(self).wf(),
            old(self).next_url is Some,
        ensures
            final(self).wf(),
            final(self).token == old(self).token,
            final(self).next_url == page.next,
            docs@ == page.results@,
            final(self).links@ == old(self).links@.push(link_of(page.next)),
            final(self).pages@ == old(self).pages@.push(page.results@),
            final(self).handed_out@ == old(self).handed_out@ + page.results@,
            final(self).failed@ == old(self).failed@,
    {
        proof {
            let pages = self.pages@.push(page.results@);
            assert(pages.drop_last() =~= self.pages@);
        }
        self.next_url = page.next;
        self.links = Ghost(self.links@.push(link_of(page.next)));
        self.pages = Ghost(self.pages@.push(page.results@));
        self.handed_out = Ghost(self.handed_out@ + page.results@);
        page.results
    }

    /// A page could not be fetched or read: the walk ends there, with no
    /// further request.
    pub fn fail(&mut self)
        requires
            old(self).wf(),
        ensures
            final(self).wf(),
            final(self).next_url is None,
            final(self).failed@,
            final(self).token == old(self).token,
            final(self).links@ == old(self).links@,
            final(self).pages@ == old(self).pages@,
            final(self).handed_out@ == old(self).handed_out@,
    {
        self.next_url = None;
        self.failed = Ghost(true);
    }

    /// Whether every page has been requested.
    pub fn is_finished(&self) -> (res: bool)
        ensures
            res == self.next_url is None,
    {
        self.next_url.is_none()
    }
}

/// A walk ends exactly when a page failed or the last page taken in has
/// no `next` link.
pub proof fn lemma_walk_ends(p: DocumentPager)
    requires
        p.wf(),
    ensures
        p.next_url is None <==> (p.failed@ || (p.links@.len() > 0 && p.links@.last() is None)),
{
}

/// Against a listing whose every page links a next page, a walk never ends
/// on its own: it ends only by a failure.
pub proof fn lemma_linked_walk_ends_only_on_failure(p: DocumentPager)
    requires
        p.wf(),
        forall|i: int| 0 <= i < p.links@.len() ==> (#[trigger] p.links@[i]) is Some,
    ensures
        p.next_url is None <==> p.failed@,
{
    if p.links@.len() > 0 {
        assert(p.links@[p.links@.len() - 1] is Some);
    }
}

/// What the integration does with one item of the document stream: a
/// fetched document is passed on, a failed fetch is dropped.
pub fn forward_fetched<E>(item: Result<APIDoc, E>) -> (res: Option<APIDoc>)
    ensures
        match item {
            Ok(d) => res == Some(d),
            Err(_) => res is None,
        },
{
    match item {
        Ok(d) => Some(d),
        Err(_) => None,
    }
}

/// The documents among fetch results (`None` standing for a failed
/// fetch), in order.
pub open spec fn fetched_documents(results: Seq<Option<APIDoc>>) -> Seq<APIDoc>
    decreases results.len(),
{
    if results.len() == 0 {
        Seq::empty()
    } else {
        match results.last() {
            Some(d) => fetched_documents(results.drop_last()).push(d),
            None => fetched_documents(results.drop_last()),
        }
    }
}

/// Passes on the documents of a stream of fetch results and drops the
/// failures, keeping (as ghost state) the results seen and the documents
/// passed on.
pub struct FetchedFilter {
    /// The results seen, in order; `None` for a failed fetch.
    pub seen: Ghost<Seq<Option<APIDoc>>>,
    /// The documents passed on, in order.
    pub passed: Ghost<Seq<APIDoc>>,
}

impl FetchedFilter {
    /// Every fetched document seen has been passed on, once, in the order
    /// seen, and nothing else.
    pub open spec fn wf(&self) -> bool {
        self.passed@ == fetched_documents(self.seen@)
    }

    /// A filter that has seen nothing yet.
    pub fn new() -> (res: FetchedFilter)
        ensures
            res.wf(),
            res.seen@ == Seq::<Option<APIDoc>>::empty(),
    {
        FetchedFilter { seen: Ghost(Seq::empty()), passed: Ghost(Seq::empty()) }
    }

    /// Takes the next fetch result: a fetched document is passed on, a
    /// failure is dropped.
    pub fn pass<E>(&mut self, item: Result<APIDoc, E>) -> (res: Option<APIDoc>)
        requires
            old(self).wf(),
        ensures
            final(self).wf(),
            match item {
                Ok(d) => res == Some(d),
                Err(_) => res is None,
            },
            final(self).seen@ == old(self).seen@.push(res),
            final(self).passed@ == match res {
                Some(d) => old(self).passed@.push(d),
                None => old(self).passed@,
            },
    {
        let res = forward_fetched(item);
        proof {
            let seen = self.seen@.push(res);
            assert(seen.drop_last() =~= self.seen@);
            assert(seen.last() == res);
        }
        let ghost passed = if res is Some {
            self.passed@.push(res->0)
        } else {
            self.passed@
        };
        self.seen = Ghost(self.seen@.push(res));
        self.passed = Ghost(passed);
        res
    }
}

/// The `Authorization` header carries the whole token, of any length,
/// after `Token `.
pub proof fn lemma_authorization_carries_whole_token(token: Seq<char>)
    ensures
        token_authorization(token).len() == token.len() + 6,
        token_authorization(token).take(6) == seq!['T', 'o', 'k', 'e', 'n', ' '],
        token_authorization(token).skip(6) == token,
{
    reveal_strlit("Token ");
    assert(token_authorization(token).take(6) =~= seq!['T', 'o', 'k', 'e', 'n', ' ']);
    assert(token_authorization(token).skip(6) =~= token);
}

/// The first page of the listing is at the whole host address followed by
/// `/api/documents/`.
pub proof fn lemma_documents_url_keeps_host(host: Seq<char>)
    ensures
        documents_url(host).take(host.len() as int) == host,
        documents_url(host).skip(host.len() as int) == seq![
            '/', 'a', 'p', 'i', '/', 'd', 'o', 'c', 'u', 'm', 'e', 'n', 't', 's', '/'
        ],
{
    reveal_strlit("/api/documents/");
    assert(documents_url(host).take(host.len() as int) =~= host);
    assert(documents_url(host).skip(host.len() as int) =~= seq![
        '/', 'a', 'p', 'i', '/', 'd', 'o', 'c', 'u', 'm', 'e', 'n', 't', 's', '/'
    ]);
}

/// The text of a document is its number (text that reads back as the
/// number), a space, the whole title, a space and the whole creation text:
/// taking away the number, the creation text and the two spaces leaves
/// exactly the title, for titles of any length.
pub proof fn lemma_document_text_parts(id: int, title: Seq<char>, created: Seq<char>)
    ensures
        ({
            let t = document_text(id, title, created);
            let n = int_text(id).len() as int;
            &&& t.len() == n + 1 + title.len() + 1 + created.len()
            &&& t.take(n) == int_text(id)
            &&& t[n] == ' '
            &&& t.subrange(n + 1, n + 1 + title.len()) == title
            &&& t[n + 1 + title.len()] == ' '
            &&& t.skip(n + 2 + title.len()) == created
        }),
{
    reveal_strlit(" ");
    let t = document_text(id, title, created);
    let n = int_text(id).len() as int;
    assert(t =~= int_text(id) + seq![' '] + title + seq![' '] + created);
    assert(t.take(n) =~= int_text(id));
    assert(t.subrange(n + 1, n + 1 + title.len()) =~= title);
    assert(t.skip(n + 2 + title.len()) =~= created);
}

} // verus!
