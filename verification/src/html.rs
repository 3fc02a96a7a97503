//! Server-side HTML rendering of the timeline pages.
//!
//! Every page is produced as a `String` of markup. Text that comes from
//! users or remote services is escaped with maud's escaper; the fixed
//! parts of each page are literal markup.

use vstd::prelude::*;
use crate::integrations::paperless_ngx::{APIDoc, Timestamp};

verus! {

/// The markup that replaces one character when text is escaped.
pub open spec fn escape_char(c: char) -> Seq<char> {
    if c == '&' {
        seq!['&', 'a', 'm', 'p', ';']
    } else if c == '<' {
        seq!['&', 'l', 't', ';']
    } else if c == '>' {
        seq!['&', 'g', 't', ';']
    } else if c == '"' {
        seq!['&', 'q', 'u', 'o', 't', ';']
    } else {
        seq![c]
    }
}

/// Text escaped for use inside HTML: each character replaced by `escape_char`.
pub open spec fn escape_html(s: Seq<char>) -> Seq<char>
    decreases s.len(),
{
    if s.len() == 0 {
        Seq::empty()
    } else {
        escape_html(s.drop_last()) + escape_char(s.last())
    }
}

/// Whether `c` is one of the characters that escaping replaces.
pub open spec fn is_special(c: char) -> bool {
    c == '&' || c == '<' || c == '>' || c == '"'
}

/// Escaped text holds no raw `<`, `>` or `"`: text spliced into a page can
/// neither open or close a tag nor end an attribute value.
pub proof fn lemma_escaped_has_no_markup(s: Seq<char>)
    ensures
        forall|i: int|
            0 <= i < escape_html(s).len() ==> {
                let c = #[trigger] escape_html(s)[i];
                c != '<' && c != '>' && c != '"'
            },
    decreases s.len(),
{
    if s.len() > 0 {
        lemma_escaped_has_no_markup(s.drop_last());
        let prefix = escape_html(s.drop_last());
        let tail = escape_char(s.last());
        assert forall|i: int| 0 <= i < escape_html(s).len() implies {
            let c = #[trigger] escape_html(s)[i];
            c != '<' && c != '>' && c != '"'
        } by {
            if i < prefix.len() {
                assert(escape_html(s)[i] == prefix[i]);
            } else {
                assert(escape_html(s)[i] == tail[i - prefix.len()]);
            }
        }
    }
}

/// Text without `&`, `<`, `>` and `"` is left as it is by escaping.
pub proof fn lemma_escape_plain_text(s: Seq<char>)
    requires
        forall|i: int| 0 <= i < s.len() ==> !is_special(#[trigger] s[i]),
    ensures
        escape_html(s) == s,
    decreases s.len(),
{
    if s.len() > 0 {
        assert(!is_special(s[s.len() - 1]));
        lemma_escape_plain_text(s.drop_last());
        assert(s.drop_last().push(s.last()) =~= s);
    }
}

/// Reads escaped text back: each of the entities `&amp;`, `&lt;`, `&gt;`
/// and `&quot;` becomes its character, every other character stays.
pub open spec fn unescape_html(s: Seq<char>) -> Seq<char>
    decreases s.len(),
{
    if s.len() == 0 {
        Seq::empty()
    } else if s.len() >= 5 && s.take(5) == seq!['&', 'a', 'm', 'p', ';'] {
        seq!['&'] + unescape_html(s.skip(5))
    } else if s.len() >= 4 && s.take(4) == seq!['&', 'l', 't', ';'] {
        seq!['<'] + unescape_html(s.skip(4))
    } else if s.len() >= 4 && s.take(4) == seq!['&', 'g', 't', ';'] {
        seq!['>'] + unescape_html(s.skip(4))
    } else if s.len() >= 6 && s.take(6) == seq!['&', 'q', 'u', 'o', 't', ';'] {
        seq!['"'] + unescape_html(s.skip(6))
    } else {
        seq![s[0]] + unescape_html(s.skip(1))
    }
}

/// Escaping two pieces of text one after the other escapes their
/// concatenation.
pub proof fn lemma_escape_concat(a: Seq<char>, b: Seq<char>)
    ensures
        escape_html(a + b) == escape_html(a) + escape_html(b),
    decreases b.len(),
{
    if b.len() == 0 {
        assert(a + b =~= a);
        assert(escape_html(a) + escape_html(b) =~= escape_html(a));
    } else {
        lemma_escape_concat(a, b.drop_last());
        assert((a + b).drop_last() =~= a + b.drop_last());
        assert((a + b).last() == b.last());
        assert(escape_html(a + b) == escape_html(a + b.drop_last()) + escape_char(b.last()));
        assert(escape_html(a) + escape_html(b) =~= escape_html(a) + escape_html(b.drop_last())
            + escape_char(b.last()));
    }
}

proof fn lemma_unescape_char(c: char, t: Seq<char>)
    ensures
        unescape_html(escape_char(c) + t) == seq![c] + unescape_html(t),
{
    let s = escape_char(c) + t;
    let n = escape_char(c).len();
    assert(s.take(n as int) =~= escape_char(c));
    assert(s.skip(n as int) =~= t);
    if !is_special(c) {
        assert(s[0] == c);
        assert(s.len() >= 5 ==> s.take(5)[0] == c);
        assert(s.len() >= 4 ==> s.take(4)[0] == c);
        assert(s.len() >= 6 ==> s.take(6)[0] == c);
        assert(escape_char('&')[0] == '&');
        assert(escape_char('<')[0] == '&');
        assert(escape_char('>')[0] == '&');
        assert(escape_char('"')[0] == '&');
    } else if c == '<' || c == '>' || c == '"' {
        assert(s.len() >= 5 ==> s.take(5)[1] != 'a');
        assert(escape_char('&')[1] == 'a');
        if c != '<' {
            assert(s.take(4)[1] != 'l');
            assert(escape_char('<')[1] == 'l');
        }
        if c == '"' {
            assert(s.take(4)[1] != 'g');
            assert(escape_char('>')[1] == 'g');
        }
    }
}

/// Escaping loses nothing: reading the escaped text back gives the text.
/// So two different texts never escape to the same markup.
pub proof fn lemma_unescape_escape(s: Seq<char>)
    ensures
        unescape_html(escape_html(s)) == s,
    decreases s.len(),
{
    if s.len() > 0 {
        let rest = s.skip(1);
        assert(s =~= seq![s[0]] + rest);
        lemma_escape_concat(seq![s[0]], rest);
        let one = seq![s[0]];
        assert(one.drop_last() =~= Seq::<char>::empty());
        assert(one.last() == s[0]);
        assert(escape_html(Seq::<char>::empty()) == Seq::<char>::empty());
        assert(escape_html(one) == escape_html(one.drop_last()) + escape_char(one.last()));
        assert(escape_html(one) =~= escape_char(s[0]));
        lemma_unescape_char(s[0], escape_html(rest));
        lemma_unescape_escape(rest);
    }
}

/// Different texts escape to different markup.
pub proof fn lemma_escape_injective(a: Seq<char>, b: Seq<char>)
    requires
        escape_html(a) == escape_html(b),
    ensures
        a == b,
{
    lemma_unescape_escape(a);
    lemma_unescape_escape(b);
}

/// Appends `text` to `out`, escaped, through maud's `Render` impl for `str`
/// (`maud::escape::escape_to_string`): `&`, `<`, `>` and `"` become
/// `&amp;`, `&lt;`, `&gt;` and `&quot;`; every other character is copied.
#[verifier::external_body]
fn push_escaped(out: &mut String, text: &str)
    ensures
        final(out)@ == old(out)@ + escape_html(text@),
{
    maud::Render::render_to(text, out);
}


/// One document as the timeline shows it: its title and the text that
/// describes when it was created.
pub struct DocEntry {
    pub title: String,
    pub created: String,
}

pub open spec fn doctype() -> Seq<char> {
    "<!DOCTYPE html>"@
}

pub open spec fn header_markup() -> Seq<char> {
    "<link rel=\"stylesheet\" href=\"static/tailwind.css\">"@
}

pub open spec fn nav_markup() -> Seq<char> {
    "<nav class=\"nav bg-gray-100\"><div class=\"flex lg:flex-1 m-3\"><a class=\"no-underline hover:no-underline font-extrabold m-3 text-2xl\" href=\"/\">Timeline</a></div></nav>"@
}

pub open spec fn body_open() -> Seq<char> {
    "<body>"@
}

pub open spec fn container_open() -> Seq<char> {
    "<div class=\"container w-full md:max-w-3xl mx-auto pt-20 place-content-center\"><div class=\"w-full px-4 md:px-6  leading-normal\"><div class=\"span8\">"@
}

pub open spec fn container_close() -> Seq<char> {
    "</div></div></div></body>"@
}

/// The `<body>` of a page around the given (already escaped) content.
pub open spec fn body_markup(content: Seq<char>) -> Seq<char> {
    body_open() + nav_markup() + container_open() + content + container_close()
}

/// A whole page around the given (already escaped) content.
pub open spec fn page_markup(content: Seq<char>) -> Seq<char> {
    doctype() + header_markup() + body_markup(content)
}

/// The stylesheet link in the head of every page.
pub fn maud_header() -> (res: String)
    ensures
        res@ == header_markup(),
{
    String::from_str("<link rel=\"stylesheet\" href=\"static/tailwind.css\">")
}

/// The navigation bar with the link back to the timeline.
pub fn maud_nav() -> (res: String)
    ensures
        res@ == nav_markup(),
{
    String::from_str(
        "<nav class=\"nav bg-gray-100\"><div class=\"flex lg:flex-1 m-3\"><a class=\"no-underline hover:no-underline font-extrabold m-3 text-2xl\" href=\"/\">Timeline</a></div></nav>",
    )
}

/// The body of a page: the navigation bar, then `content` inside the
/// centred container. `content` is markup and is copied as it is.
pub fn maud_body(content: &str) -> (res: String)
    ensures
        res@ == body_markup(content@),
{
    let mut out = String::from_str("<body>");
    let nav = maud_nav();
    out.append(nav.as_str());
    out.append(
        "<div class=\"container w-full md:max-w-3xl mx-auto pt-20 place-content-center\"><div class=\"w-full px-4 md:px-6  leading-normal\"><div class=\"span8\">",
    );
    out.append(content);
    out.append("</div></div></div></body>");
    out
}

/// A complete page: doctype, stylesheet link and body around `content`.
pub fn maud_page(content: &str) -> (res: String)
    ensures
        res@ == page_markup(content@),
{
    let mut out = String::from_str("<!DOCTYPE html>");
    let header = maud_header();
    out.append(header.as_str());
    let body = maud_body(content);
    out.append(body.as_str());
    out
}


/// How pretty_date describes the naive date and time `date` as seen at the
/// naive date and time `reference` (both given as seconds and nanoseconds
/// since 1970-01-01 00:00:00); `None` where chrono has no such date.
pub uninterp spec fn pretty_date_text(date: Timestamp, reference: Timestamp) -> Option<Seq<char>>;

/// The earliest reference time (seconds since 1970) that pretty_date
/// accepts: seven days after chrono's earliest date, 1 January of year
/// -262143 (262144 BCE), which is -8334601228800. Looking a day or a week
/// back from an earlier reference makes pretty_date panic.
pub const EARLIEST_REFERENCE: i64 = -8334600624000i64;

/// pretty_date's `format_pretty_with_reference` for `date` seen at
/// `reference`, both made into chrono `NaiveDateTime`s
/// (`DateTime::from_timestamp(..).naive_utc()`). The text is named, not
/// spelled out; `None` where chrono refuses either moment.
#[verifier::external_body]
fn pretty_date(date: Timestamp, reference: Timestamp) -> (res: Option<String>)
    requires
        reference.seconds >= EARLIEST_REFERENCE,
    ensures
        match res {
            Some(s) => pretty_date_text(date, reference) == Some(s@),
            None => pretty_date_text(date, reference) is None,
        },
{
    let d = chrono::DateTime::from_timestamp(date.seconds, date.nanoseconds)?.naive_utc();
    let r = chrono::DateTime::from_timestamp(reference.seconds, reference.nanoseconds)?.naive_utc();
    Some(pretty_date::pretty_date_formatter::PrettyDateFormatter::format_pretty_with_reference(&d, &r))
}

/// Whether `e` shows `doc` as seen at `now`.
pub open spec fn shows_document(e: DocEntry, doc: APIDoc, now: Timestamp) -> bool {
    e.title@ == doc.title@ && pretty_date_text(doc.created, now) == Some(e.created@)
}

/// The timeline entries of the documents, in order, their creation times
/// described as seen at `now`. `None` where some creation time (or `now`)
/// cannot be described.
pub fn timeline_entries(docs: &Vec<APIDoc>, now: Timestamp) -> (res: Option<Vec<DocEntry>>)
    requires
        now.seconds >= EARLIEST_REFERENCE,
    ensures
        res is Some <==> forall|k: int|
            0 <= k < docs.len() ==> (#[trigger] pretty_date_text(docs@[k].created, now)) is Some,
        res matches Some(v) ==> v.len() == docs.len() && forall|k: int|
            0 <= k < docs.len() ==> shows_document(#[trigger] v@[k], docs@[k], now),
{
    let mut entries: Vec<DocEntry> = Vec::new();
    let mut k: usize = 0;
    while k < docs.len()
        invariant
            now.seconds >= EARLIEST_REFERENCE,
            k <= docs.len(),
            entries.len() == k,
            forall|j: int| 0 <= j < k ==> (#[trigger] pretty_date_text(docs@[j].created, now)) is Some,
            forall|j: int| 0 <= j < k ==> shows_document(#[trigger] entries@[j], docs@[j], now),
        decreases docs.len() - k,
    {
        let doc = &docs[k];
        match pretty_date(doc.created, now) {
            Some(created) => {
                entries.push(DocEntry { title: doc.title.clone(), created });
            },
            None => {
                return None;
            },
        }
        k = k + 1;
    }
    Some(entries)
}

/// A list item of the timeline: the escaped title, a space, the escaped
/// creation text.
pub open spec fn document_item(e: DocEntry) -> Seq<char> {
    "<li>"@ + escape_html(e.title@) + " "@ + escape_html(e.created@) + "</li>"@
}

/// The list items of all documents, in order.
pub open spec fn document_items(entries: Seq<DocEntry>) -> Seq<char>
    decreases entries.len(),
{
    if entries.len() == 0 {
        Seq::empty()
    } else {
        document_items(entries.drop_last()) + document_item(entries.last())
    }
}

/// The content of the timeline page (inside the page frame).
pub open spec fn documents_content(entries: Seq<DocEntry>) -> Seq<char> {
    "<p>Paperless NGX Documents!</p>"@ + document_items(entries)
}

/// The content shown to a visitor who has not signed in.
pub open spec fn login_prompt_content() -> Seq<char> {
    "<p>Welcome! You need to login</p><a href=\"/oidc/login\">Login</a>"@
}

/// The timeline page: every document as a list item, in the given order.
pub fn documents_page(entries: &Vec<DocEntry>) -> (res: String)
    ensures
        res@ == page_markup(documents_content(entries@)),
{
    let mut content = String::from_str("<p>Paperless NGX Documents!</p>");
    let mut i: usize = 0;
    while i < entries.len()
        invariant
            i <= entries.len(),
            content@ == "<p>Paperless NGX Documents!</p>"@ + document_items(entries@.take(i as int)),
        decreases entries.len() - i,
    {
        let entry = &entries[i];
        content.append("<li>");
        push_escaped(&mut content, entry.title.as_str());
        content.append(" ");
        push_escaped(&mut content, entry.created.as_str());
        content.append("</li>");
        assert(entries@.take(i + 1).drop_last() =~= entries@.take(i as int));
        i = i + 1;
    }
    assert(entries@.take(entries.len() as int) =~= entries@);
    maud_page(content.as_str())
}

/// The page for a visitor who has not signed in: a link to the login.
pub fn login_prompt_page() -> (res: String)
    ensures
        res@ == page_markup(login_prompt_content()),
{
    maud_page("<p>Welcome! You need to login</p><a href=\"/oidc/login\">Login</a>")
}

/// What the timeline route does for a request.
pub enum DocsStep {
    /// Answer with this page.
    Respond(String),
    /// Load the documents and answer with the timeline page.
    LoadDocuments,
}

/// The timeline route: a signed-in user gets the documents, anyone else
/// the page with the login link.
pub fn docs_step(signed_in: bool) -> (res: DocsStep)
    ensures
        signed_in ==> res is LoadDocuments,
        !signed_in ==> (res matches DocsStep::Respond(p) && p@ == page_markup(login_prompt_content())),
{
    if signed_in {
        DocsStep::LoadDocuments
    } else {
        DocsStep::Respond(login_prompt_page())
    }
}

/// A list item of the plain document list: the escaped title directly
/// followed by the escaped creation text.
pub open spec fn plain_document_item(e: DocEntry) -> Seq<char> {
    "<li>"@ + escape_html(e.title@) + escape_html(e.created@) + "</li>"@
}

pub open spec fn plain_document_items(entries: Seq<DocEntry>) -> Seq<char>
    decreases entries.len(),
{
    if entries.len() == 0 {
        Seq::empty()
    } else {
        plain_document_items(entries.drop_last()) + plain_document_item(entries.last())
    }
}

/// The plain document list: a doctype, a greeting and one item per document.
pub open spec fn plain_documents_markup(entries: Seq<DocEntry>) -> Seq<char> {
    doctype() + "<p>Welcome!</p>"@ + plain_document_items(entries)
}

/// The plain document list page (without the page frame).
pub fn plain_documents_page(entries: &Vec<DocEntry>) -> (res: String)
    ensures
        res@ == plain_documents_markup(entries@),
{
    let mut out = String::from_str("<!DOCTYPE html>");
    out.append("<p>Welcome!</p>");
    let mut i: usize = 0;
    while i < entries.len()
        invariant
            i <= entries.len(),
            out@ == doctype() + "<p>Welcome!</p>"@ + plain_document_items(entries@.take(i as int)),
        decreases entries.len() - i,
    {
        let entry = &entries[i];
        out.append("<li>");
        push_escaped(&mut out, entry.title.as_str());
        push_escaped(&mut out, entry.created.as_str());
        out.append("</li>");
        assert(entries@.take(i + 1).drop_last() =~= entries@.take(i as int));
        i = i + 1;
    }
    assert(entries@.take(entries.len() as int) =~= entries@);
    out
}

pub open spec fn unauthorized_markup() -> Seq<char> {
    "<!DOCTYPE html><p>You are not authorized</p><a href=\"/login\">Restart</a>"@
}

/// The page answered when a login attempt fails.
pub fn unauthorized_page() -> (res: String)
    ensures
        res@ == unauthorized_markup(),
{
    String::from_str("<!DOCTYPE html><p>You are not authorized</p><a href=\"/login\">Restart</a>")
}

/// What is shown for a user without an e-mail address.
pub open spec fn email_placeholder() -> Seq<char> {
    "<not provided>"@
}

/// The e-mail text shown for a signed-in user.
pub open spec fn shown_email(email: Option<Seq<char>>) -> Seq<char> {
    match email {
        Some(e) => e,
        None => email_placeholder(),
    }
}

/// The page answered after a successful login.
pub open spec fn login_success_markup(subject: Seq<char>, email: Option<Seq<char>>) -> Seq<char> {
    "<!DOCTYPE html><p>User "@ + escape_html(subject) + " has authenticated successfully</p><p>Email: "@
        + escape_html(shown_email(email)) + "</p><a href=\"/login\">Restart</a>"@
}

/// The page answered after a successful login: the user's subject and
/// e-mail address, or a placeholder where the provider gave no address.
pub fn login_success_page(subject: &str, email: Option<&str>) -> (res: String)
    ensures
        res@ == login_success_markup(
            subject@,
            match email {
                Some(e) => Some(e@),
                None => None,
            },
        ),
{
    let mut out = String::from_str("<!DOCTYPE html><p>User ");
    push_escaped(&mut out, subject);
    out.append(" has authenticated successfully</p><p>Email: ");
    let shown: &str = match email {
        Some(e) => e,
        None => "<not provided>",
    };
    push_escaped(&mut out, shown);
    out.append("</p><a href=\"/login\">Restart</a>");
    out
}

/// Whether `s` holds none of `<`, `>` and `"`: spliced into a page it can
/// open or close no tag and end no attribute.
pub open spec fn holds_no_markup(s: Seq<char>) -> bool {
    forall|i: int| 0 <= i < s.len() ==> {
        let c = #[trigger] s[i];
        c != '<' && c != '>' && c != '"'
    }
}

proof fn lemma_escaped_text_reads_back(s: Seq<char>)
    ensures
        unescape_html(escape_html(s)) == s,
        holds_no_markup(escape_html(s)),
{
    lemma_unescape_escape(s);
    lemma_escaped_has_no_markup(s);
}

/// A timeline item shows its entry whole: `<li>`, text that reads back as
/// the whole title, a space, text that reads back as the whole creation
/// text, `</li>`; neither text holds markup.
pub proof fn lemma_document_item_shows_entry(e: DocEntry)
    ensures
        exists|t: Seq<char>, c: Seq<char>|
            #![trigger unescape_html(t), unescape_html(c)]
            document_item(e) == "<li>"@ + t + " "@ + c + "</li>"@ && unescape_html(t) == e.title@
                && unescape_html(c) == e.created@ && holds_no_markup(t) && holds_no_markup(c),
{
    lemma_escaped_text_reads_back(e.title@);
    lemma_escaped_text_reads_back(e.created@);
}

/// The timeline starts with its heading and nothing else.
pub proof fn lemma_documents_content_empty()
    ensures
        documents_content(Seq::empty()) == "<p>Paperless NGX Documents!</p>"@,
{
    assert(documents_content(Seq::empty()) =~= "<p>Paperless NGX Documents!</p>"@);
}

/// One more document adds exactly its own item at the end of the timeline,
/// whatever the documents before it (repeated titles included): the page
/// holds one item per document, in order.
pub proof fn lemma_documents_content_append(entries: Seq<DocEntry>, e: DocEntry)
    ensures
        documents_content(entries.push(e)) == documents_content(entries) + document_item(e),
{
    assert(entries.push(e).drop_last() =~= entries);
    assert(entries.push(e).last() == e);
    assert(documents_content(entries.push(e)) =~= documents_content(entries) + document_item(e));
}

/// An item of the plain list shows its entry whole: `<li>`, text that
/// reads back as the whole title, directly followed by text that reads
/// back as the whole creation text, `</li>`.
pub proof fn lemma_plain_item_shows_entry(e: DocEntry)
    ensures
        exists|t: Seq<char>, c: Seq<char>|
            #![trigger unescape_html(t), unescape_html(c)]
            plain_document_item(e) == "<li>"@ + t + c + "</li>"@ && unescape_html(t) == e.title@
                && unescape_html(c) == e.created@ && holds_no_markup(t) && holds_no_markup(c),
{
    lemma_escaped_text_reads_back(e.title@);
    lemma_escaped_text_reads_back(e.created@);
}

/// The plain list without documents is the doctype and the greeting.
pub proof fn lemma_plain_documents_empty()
    ensures
        plain_documents_markup(Seq::empty()) == "<!DOCTYPE html>"@ + "<p>Welcome!</p>"@,
{
    assert(plain_documents_markup(Seq::empty()) =~= "<!DOCTYPE html>"@ + "<p>Welcome!</p>"@);
}

/// One more document adds exactly its own item at the end of the plain
/// list, however many documents come before it.
pub proof fn lemma_plain_documents_append(entries: Seq<DocEntry>, e: DocEntry)
    ensures
        plain_documents_markup(entries.push(e)) == plain_documents_markup(entries)
            + plain_document_item(e),
{
    assert(entries.push(e).drop_last() =~= entries);
    assert(entries.push(e).last() == e);
    assert(plain_documents_markup(entries.push(e)) =~= plain_documents_markup(entries)
        + plain_document_item(e));
}

/// The login success page shows the whole subject and the whole e-mail
/// address (or `<not provided>` where there is none): each stands between
/// its fixed texts as markup-free text that reads back as it.
pub proof fn lemma_login_success_shows_user(subject: Seq<char>, email: Option<Seq<char>>)
    ensures
        exists|s: Seq<char>, m: Seq<char>|
            #![trigger unescape_html(s), unescape_html(m)]
            login_success_markup(subject, email) == "<!DOCTYPE html><p>User "@ + s
                + " has authenticated successfully</p><p>Email: "@ + m
                + "</p><a href=\"/login\">Restart</a>"@ && unescape_html(s) == subject
                && unescape_html(m) == (match email {
                Some(e) => e,
                None => "<not provided>"@,
            }) && holds_no_markup(s) && holds_no_markup(m),
{
    lemma_escaped_text_reads_back(subject);
    lemma_escaped_text_reads_back(shown_email(email));
}

/// The length of the page frame before the content.
pub open spec fn page_head_len() -> int {
    (doctype() + header_markup() + body_open() + nav_markup() + container_open()).len() as int
}

/// A page holds its content whole, at the same place for every content,
/// and is otherwise the same frame: only the content varies.
pub proof fn lemma_page_holds_content(content: Seq<char>)
    ensures
        page_markup(content).len() == page_markup(Seq::empty()).len() + content.len(),
        page_markup(content).subrange(page_head_len(), page_head_len() + content.len()) == content,
        page_markup(content).take(page_head_len()) == page_markup(Seq::empty()).take(page_head_len()),
        page_markup(content).skip(page_head_len() + content.len()) == page_markup(Seq::empty()).skip(
            page_head_len(),
        ),
{
    let head = doctype() + header_markup() + body_open() + nav_markup() + container_open();
    let tail = container_close();
    assert(page_markup(content) =~= head + content + tail);
    assert(page_markup(Seq::empty()) =~= head + tail);
    assert(page_markup(content).subrange(page_head_len(), page_head_len() + content.len()) =~= content);
    assert(page_markup(content).take(page_head_len()) =~= head);
    assert(page_markup(Seq::empty()).take(page_head_len()) =~= head);
    assert(page_markup(content).skip(page_head_len() + content.len()) =~= tail);
    assert(page_markup(Seq::empty()).skip(page_head_len()) =~= tail);
}

/// A body holds its content whole, after the navigation bar, and is
/// otherwise the same for every content.
pub proof fn lemma_body_holds_content(content: Seq<char>)
    ensures
        ({
            let h = (body_open() + nav_markup() + container_open()).len() as int;
            &&& body_markup(content).len() == body_markup(Seq::empty()).len() + content.len()
            &&& body_markup(content).subrange(h, h + content.len()) == content
            &&& body_markup(content).take(h) == body_markup(Seq::empty()).take(h)
            &&& body_markup(content).skip(h + content.len()) == body_markup(Seq::empty()).skip(h)
        }),
{
    let head = body_open() + nav_markup() + container_open();
    let h = head.len() as int;
    let tail = container_close();
    assert(body_markup(content) =~= head + content + tail);
    assert(body_markup(Seq::empty()) =~= head + tail);
    assert(body_markup(content).subrange(h, h + content.len()) =~= content);
    assert(body_markup(content).take(h) =~= head);
    assert(body_markup(Seq::empty()).take(h) =~= head);
    assert(body_markup(content).skip(h + content.len()) =~= tail);
    assert(body_markup(Seq::empty()).skip(h) =~= tail);
}

} // verus!
