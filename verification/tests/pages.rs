use timeline::html::{
    docs_step, documents_page, login_prompt_page, login_success_page, maud_body, maud_header,
    maud_nav, maud_page, plain_documents_page, unauthorized_page, DocEntry, DocsStep,
};

const NAV: &str = "<nav class=\"nav bg-gray-100\"><div class=\"flex lg:flex-1 m-3\"><a class=\"no-underline hover:no-underline font-extrabold m-3 text-2xl\" href=\"/\">Timeline</a></div></nav>";
const OPEN: &str = "<div class=\"container w-full md:max-w-3xl mx-auto pt-20 place-content-center\"><div class=\"w-full px-4 md:px-6  leading-normal\"><div class=\"span8\">";
const CLOSE: &str = "</div></div></div></body>";
const HEADER: &str = "<link rel=\"stylesheet\" href=\"static/tailwind.css\">";

fn entry(title: &str, created: &str) -> DocEntry {
    DocEntry { title: title.to_string(), created: created.to_string() }
}

fn framed(content: &str) -> String {
    format!("<!DOCTYPE html>{}<body>{}{}{}{}", HEADER, NAV, OPEN, content, CLOSE)
}

#[test]
fn header_links_the_stylesheet() {
    assert_eq!(maud_header(), HEADER);
}

#[test]
fn nav_links_home() {
    assert_eq!(maud_nav(), NAV);
}

#[test]
fn body_wraps_content_after_nav() {
    assert_eq!(maud_body("<p>x</p>"), format!("<body>{}{}<p>x</p>{}", NAV, OPEN, CLOSE));
}

#[test]
fn page_copies_markup_content_unescaped() {
    assert_eq!(maud_page("<b>&amp;</b>"), framed("<b>&amp;</b>"));
}

#[test]
fn documents_page_lists_entries_in_order_escaped() {
    let entries = vec![entry("Tax <2023>", "2 days ago"), entry("Rent & \"lease\"", "today")];
    let expected = framed(
        "<p>Paperless NGX Documents!</p><li>Tax &lt;2023&gt; 2 days ago</li><li>Rent &amp; &quot;lease&quot; today</li>",
    );
    assert_eq!(documents_page(&entries), expected);
}

#[test]
fn documents_page_without_documents() {
    assert_eq!(documents_page(&vec![]), framed("<p>Paperless NGX Documents!</p>"));
}

#[test]
fn login_prompt_links_to_login() {
    assert_eq!(
        login_prompt_page(),
        framed("<p>Welcome! You need to login</p><a href=\"/oidc/login\">Login</a>")
    );
}

#[test]
fn signed_out_visitor_gets_login_prompt() {
    match docs_step(false) {
        DocsStep::Respond(page) => assert_eq!(page, login_prompt_page()),
        DocsStep::LoadDocuments => panic!("signed-out visitor got the documents"),
    }
    assert!(matches!(docs_step(true), DocsStep::LoadDocuments));
}

#[test]
fn plain_documents_page_joins_title_and_date() {
    let entries = vec![entry("A<", "now"), entry("B", "")];
    assert_eq!(
        plain_documents_page(&entries),
        "<!DOCTYPE html><p>Welcome!</p><li>A&lt;now</li><li>B</li>"
    );
}

#[test]
fn unauthorized_page_offers_restart() {
    assert_eq!(
        unauthorized_page(),
        "<!DOCTYPE html><p>You are not authorized</p><a href=\"/login\">Restart</a>"
    );
}

#[test]
fn login_success_shows_subject_and_email() {
    assert_eq!(
        login_success_page("alice", Some("a@example.org")),
        "<!DOCTYPE html><p>User alice has authenticated successfully</p><p>Email: a@example.org</p><a href=\"/login\">Restart</a>"
    );
}

#[test]
fn login_success_without_email_escapes_placeholder() {
    assert_eq!(
        login_success_page("<bob>", None),
        "<!DOCTYPE html><p>User &lt;bob&gt; has authenticated successfully</p><p>Email: &lt;not provided&gt;</p><a href=\"/login\">Restart</a>"
    );
}

#[test]
fn escaped_text_holds_no_markup() {
    let page = documents_page(&vec![entry("<script>alert(\"x\")</script>", ">")]);
    let item = page.split("<li>").nth(1).unwrap().split("</li>").next().unwrap().to_string();
    assert!(!item.contains('<') && !item.contains('>') && !item.contains('"'));
}

#[test]
fn plain_text_is_not_changed_by_escaping() {
    let page = plain_documents_page(&vec![entry("Plain title 42", "yesterday")]);
    assert!(page.contains("<li>Plain title 42yesterday</li>"));
}

#[test]
fn different_titles_give_different_markup() {
    let a = plain_documents_page(&vec![entry("&lt;", "")]);
    let b = plain_documents_page(&vec![entry("<", "")]);
    assert_ne!(a, b);
    assert!(a.ends_with("<li>&amp;lt;</li>"));
    assert!(b.ends_with("<li>&lt;</li>"));
}
