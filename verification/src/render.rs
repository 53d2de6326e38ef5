//! The response renderer: fills the fixed two-placeholder HTML template
//! with a title and a content line, and pairs the page with its status
//! code and content type. The four page handlers live here too.
use vstd::prelude::*;
use crate::text::lemma_replace_absent;
use crate::text::lemma_replace_at_first_occurrence;
use crate::text::occurs_at;
use crate::text::replace_all;
use crate::text::spec_replace;

verus! {

/// The fixed HTML page template; `{title}` and `{content}` are its two
/// placeholders.
pub open spec fn spec_template() -> Seq<char> {
    "\n<!DOCTYPE html>\n<html>\n<head>\n    <title>{title}</title>\n</head>\n<body>\n    <h1>{content}</h1>\n</body>\n</html>\n"@
}

fn html_template() -> (r: &'static str)
    ensures
        r@ == spec_template(),
{
    "\n<!DOCTYPE html>\n<html>\n<head>\n    <title>{title}</title>\n</head>\n<body>\n    <h1>{content}</h1>\n</body>\n</html>\n"
}

/// The page body rendered for a title and a content line: the template with
/// `{title}` substituted first, then `{content}` substituted in the result.
pub open spec fn spec_rendered(title: Seq<char>, content: Seq<char>) -> Seq<char> {
    spec_replace(spec_replace(spec_template(), "{title}"@, title), "{content}"@, content)
}

/// The embedding law for the fixed template: for a title holding no brace
/// character, the rendered page is the template's opening, the title word
/// for word, the template's middle, the content word for word, and the
/// template's closing.
#[verifier::rlimit(100)]
pub proof fn lemma_rendered_embeds(title: Seq<char>, content: Seq<char>)
    requires
        forall|i: int| 0 <= i < title.len() ==> title[i] != '{',
    ensures
        spec_rendered(title, content) == "\n<!DOCTYPE html>\n<html>\n<head>\n    <title>"@ + title
            + "</title>\n</head>\n<body>\n    <h1>"@ + content + "</h1>\n</body>\n</html>\n"@,
{
    reveal_strlit(
        "\n<!DOCTYPE html>\n<html>\n<head>\n    <title>{title}</title>\n</head>\n<body>\n    <h1>{content}</h1>\n</body>\n</html>\n",
    );
    reveal_strlit("\n<!DOCTYPE html>\n<html>\n<head>\n    <title>");
    reveal_strlit("</title>\n</head>\n<body>\n    <h1>");
    reveal_strlit("</h1>\n</body>\n</html>\n");
    reveal_strlit("{title}");
    reveal_strlit("{content}");
    let a = "\n<!DOCTYPE html>\n<html>\n<head>\n    <title>"@;
    let b1 = "</title>\n</head>\n<body>\n    <h1>"@;
    let b2 = "</h1>\n</body>\n</html>\n"@;
    let pat1 = "{title}"@;
    let pat2 = "{content}"@;
    let b = b1 + pat2 + b2;
    assert(spec_template() =~= a + pat1 + b);
    assert forall|j: int| 0 <= j < a.len() implies a[j] != '{' by {}
    assert forall|j: int| 0 <= j < b1.len() implies b1[j] != '{' by {}
    assert forall|j: int| 0 <= j < b2.len() implies b2[j] != '{' by {}
    assert forall|j: int| 1 <= j < pat2.len() implies pat2[j] != '{' by {}

    // the first substitution matches at the single `{title}` occurrence
    assert forall|j: int| 0 <= j < a.len() implies !occurs_at(a + pat1 + b, pat1, j) by {
        if occurs_at(a + pat1 + b, pat1, j) {
            assert((a + pat1 + b).subrange(j, j + pat1.len() as int)[0] == (a + pat1 + b)[j]);
            assert(a[j] == '{');
        }
    };
    lemma_replace_at_first_occurrence(a, pat1, b, title);

    // `{title}` does not occur in the tail that follows it
    assert forall|j: int| 0 <= j < b.len() && j != b1.len() implies b[j] != '{' by {
        if j < b1.len() {
            assert(b[j] == b1[j]);
        } else if j < b1.len() + pat2.len() {
            assert(b[j] == pat2[j - b1.len()]);
        } else {
            assert(b[j] == b2[j - b1.len() - pat2.len()]);
        }
    };
    assert forall|j: int| !occurs_at(b, pat1, j) by {
        if occurs_at(b, pat1, j) {
            assert(b.subrange(j, j + pat1.len() as int)[0] == b[j]);
            assert(b[j] == '{');
            assert(j == b1.len());
            assert(b.subrange(j, j + pat1.len() as int)[1] == b[j + 1]);
            assert(b[j + 1] == pat2[1]);
        }
    };
    lemma_replace_absent(b, pat1, title);

    // the second substitution matches at the single `{content}` occurrence
    let p = a + title + b1;
    assert(a + title + b =~= p + pat2 + b2);
    assert forall|j: int| 0 <= j < p.len() implies p[j] != '{' by {
        if j < a.len() {
            assert(p[j] == a[j]);
        } else if j < a.len() + title.len() {
            assert(p[j] == title[j - a.len()]);
        } else {
            assert(p[j] == b1[j - a.len() - title.len()]);
        }
    };
    assert forall|j: int| 0 <= j < p.len() implies !occurs_at(p + pat2 + b2, pat2, j) by {
        if occurs_at(p + pat2 + b2, pat2, j) {
            assert((p + pat2 + b2).subrange(j, j + pat2.len() as int)[0] == (p + pat2 + b2)[j]);
            assert(p[j] == '{');
        }
    };
    lemma_replace_at_first_occurrence(p, pat2, b2, content);

    // `{content}` does not occur in the closing piece
    assert forall|j: int| !occurs_at(b2, pat2, j) by {
        if occurs_at(b2, pat2, j) {
            assert(b2.subrange(j, j + pat2.len() as int)[0] == b2[j]);
            assert(b2[j] == '{');
        }
    };
    lemma_replace_absent(b2, pat2, content);

    assert(spec_rendered(title, content) =~= a + title + b1 + content + b2);
}

/// Builds an HTML page from a title and a content line by literal substring
/// replacement (no escaping), and wraps it with the given status code and
/// the `text/html` content type.
pub fn create_response(title: &str, content: &str, status_code: u16) -> (r: (
    String,
    &'static str,
    u16,
))
    ensures
        r.0@ == spec_rendered(title@, content@),
        r.1@ == "text/html"@,
        r.2 == status_code,
{
    proof {
        reveal_strlit("{title}");
        reveal_strlit("{content}");
    }
    let with_title = replace_all(html_template(), "{title}", title);
    let body = replace_all(with_title.as_str(), "{content}", content);
    (body, "text/html", status_code)
}

/// The hello page: status 200.
pub fn handle_hello(_request: &str) -> (r: (String, &'static str, u16))
    ensures
        r.0@ == spec_rendered("Hello Page"@, "Hello, Rust HTTP Server!"@),
        r.1@ == "text/html"@,
        r.2 == 200,
{
    create_response("Hello Page", "Hello, Rust HTTP Server!", 200)
}

/// The goodbye page: status 200.
pub fn handle_goodbye(_request: &str) -> (r: (String, &'static str, u16))
    ensures
        r.0@ == spec_rendered("Goodbye Page"@, "Goodbye, Rust HTTP Server!"@),
        r.1@ == "text/html"@,
        r.2 == 200,
{
    create_response("Goodbye Page", "Goodbye, Rust HTTP Server!", 200)
}

/// The submission page: status 200.
pub fn handle_submit(_request: &str) -> (r: (String, &'static str, u16))
    ensures
        r.0@ == spec_rendered("Submission Page"@, "Data submitted successfully!"@),
        r.1@ == "text/html"@,
        r.2 == 200,
{
    create_response("Submission Page", "Data submitted successfully!", 200)
}

/// The fixed fallback page for requests that match no route: status 404.
pub fn handle_not_found(_request: &str) -> (r: (String, &'static str, u16))
    ensures
        r.0@ == spec_rendered("404 - Not Found"@, "Not Found"@),
        r.1@ == "text/html"@,
        r.2 == 404,
{
    create_response("404 - Not Found", "Not Found", 404)
}

} // verus!
