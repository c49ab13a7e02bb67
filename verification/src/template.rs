//! The page shell: one full HTML document around an inner content fragment.

use vstd::prelude::*;

use crate::escape::escape_html;
use crate::escape::escape_seq;

verus! {

/// What the page shell displays: the browser-tab title, the two headings,
/// and the already-rendered inner markup.
pub struct TemplateParams {
    /// Title of the browser tab; escaped when rendered.
    pub tab_title: String,
    /// Heading naming the game; escaped when rendered.
    pub game_name: String,
    /// Heading naming the server; escaped when rendered.
    pub server_name: String,
    /// Rendered markup placed in the body as it is, not escaped.
    pub content: String,
}

/// The full document the page shell renders: a head that loads the
/// client-side library and a font, then the two headings and the content.
pub open spec fn spec_base_template(
    tab_title: Seq<char>,
    game_name: Seq<char>,
    server_name: Seq<char>,
    content: Seq<char>,
) -> Seq<char> {
    "<!DOCTYPE html><html><head><title>"@ + escape_seq(tab_title)
        + "</title><script src=\"https://unpkg.com/htmx.org@1.9.10\"></script><link href=\"https://fonts.googleapis.com/css2?family=Poppins:wght@400;600&amp;display=swap\" rel=\"stylesheet\"></link></head><body><h1>"@
        + escape_seq(game_name) + "</h1><h2>"@ + escape_seq(server_name) + "</h2>"@ + content
        + "</body></html>"@
}

/// Render the page shell around the given content.
pub fn base_template(params: TemplateParams) -> (r: String)
    ensures
        r@ == spec_base_template(
            params.tab_title@,
            params.game_name@,
            params.server_name@,
            params.content@,
        ),
{
    let mut r = String::new();
    r.append("<!DOCTYPE html><html><head><title>");
    let tab_title = escape_html(params.tab_title.as_str());
    r.append(tab_title.as_str());
    r.append(
        "</title><script src=\"https://unpkg.com/htmx.org@1.9.10\"></script><link href=\"https://fonts.googleapis.com/css2?family=Poppins:wght@400;600&amp;display=swap\" rel=\"stylesheet\"></link></head><body><h1>",
    );
    let game_name = escape_html(params.game_name.as_str());
    r.append(game_name.as_str());
    r.append("</h1><h2>");
    let server_name = escape_html(params.server_name.as_str());
    r.append(server_name.as_str());
    r.append("</h2>");
    r.append(params.content.as_str());
    r.append("</body></html>");
    proof {
        assert(r@ =~= spec_base_template(
            params.tab_title@,
            params.game_name@,
            params.server_name@,
            params.content@,
        ));
    }
    r
}

} // verus!
