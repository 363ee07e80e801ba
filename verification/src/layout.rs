//! The layout composer: wraps already-rendered content in the navigation
//! menu and one of two shells.
//!
//! Policy: a boosted request (header `HX-Boosted: true`) gets the
//! lightweight shell — title element plus main region — and the navigation
//! menu is re-rendered inside it, exactly as in a full page; a plain
//! request gets the full document shell.

use crate::render::Renderable;
use crate::RenderError;
use vstd::prelude::*;
use vstd::string::StringExecFns;

verus! {

/// How a response is wrapped, derived once per request from the
/// `HX-Boosted` header.
pub enum LayoutMode {
    FullPage,
    BoostedFragment,
}

/// Derives the layout mode: boosted exactly when the header is present
/// with the literal value `true`.
pub fn layout_mode(header_value: Option<&str>) -> (m: LayoutMode)
    ensures
        (m is BoostedFragment) <==> (header_value matches Some(v) && v@ == "true"@),
{
    match header_value {
        Some(v) => {
            if crate::text::str_eq(v, "true") {
                LayoutMode::BoostedFragment
            } else {
                LayoutMode::FullPage
            }
        },
        None => LayoutMode::FullPage,
    }
}

/// The navigation menu, given the current request path so the client can
/// mark the active link.
pub open spec fn nav_html(path: Seq<char>) -> Seq<char> {
    "<nav data-path="@ + path
        + "><a href=/>Home</a><a href=/about>About</a><a href=/counter>Counter</a><a href=/fetchdata>Weather</a></nav>"@
}

/// The main region: navigation menu beside the content article.
pub open spec fn main_layout_html(nav: Seq<char>, article: Seq<char>) -> Seq<char> {
    "<main>"@ + nav + "<article>"@ + article + "</article></main>"@
}

/// The full document shell around the main region.
pub open spec fn shell_html(title: Seq<char>, main: Seq<char>) -> Seq<char> {
    "<!DOCTYPE html><html><head><title>"@ + title + "</title></head><body>"@ + main
        + "</body></html>"@
}

/// The boosted shell: only a title element and the main region.
pub open spec fn boosted_shell_html(title: Seq<char>, main: Seq<char>) -> Seq<char> {
    "<title>"@ + title + "</title>"@ + main
}

/// The whole page for one request: exactly one shell, chosen by the
/// boosted flag, around the navigation menu and the content.
pub open spec fn page_html(
    title: Seq<char>,
    path: Seq<char>,
    boosted: bool,
    article: Seq<char>,
) -> Seq<char> {
    if boosted {
        boosted_shell_html(title, main_layout_html(nav_html(path), article))
    } else {
        shell_html(title, main_layout_html(nav_html(path), article))
    }
}

fn render_nav(path: &str) -> (r: String)
    ensures
        r@ == nav_html(path@),
{
    let mut s = String::from_str("<nav data-path=");
    s.append(path);
    s.append(
        "><a href=/>Home</a><a href=/about>About</a><a href=/counter>Counter</a><a href=/fetchdata>Weather</a></nav>",
    );
    proof {
        assert(s@ =~= nav_html(path@));
    }
    s
}

/// Composes the page for one request: renders the content, wraps it in the
/// main region with the navigation menu, and in the shell the layout mode
/// selects. Succeeds exactly when the content renders.
pub fn render_main_layout_page<MA: Renderable>(
    title: &str,
    path: &str,
    mode: LayoutMode,
    main_article: &MA,
) -> (r: Result<String, RenderError>)
    ensures
        r is Ok <==> main_article.renders_ok(),
        r matches Ok(s) ==> s@ == page_html(
            title@,
            path@,
            mode is BoostedFragment,
            main_article.rendered(),
        ),
{
    let article = match main_article.render() {
        Ok(a) => a,
        Err(e) => {
            return Err(e);
        },
    };
    let nav = render_nav(path);
    let mut main_part = String::from_str("<main>");
    main_part.append(nav.as_str());
    main_part.append("<article>");
    main_part.append(article.as_str());
    main_part.append("</article></main>");
    proof {
        assert(main_part@ =~= main_layout_html(nav_html(path@), main_article.rendered()));
    }
    match mode {
        LayoutMode::BoostedFragment => {
            let mut s = String::from_str("<title>");
            s.append(title);
            s.append("</title>");
            s.append(main_part.as_str());
            proof {
                assert(s@ =~= page_html(title@, path@, true, main_article.rendered()));
            }
            Ok(s)
        },
        LayoutMode::FullPage => {
            let mut s = String::from_str("<!DOCTYPE html><html><head><title>");
            s.append(title);
            s.append("</title></head><body>");
            s.append(main_part.as_str());
            s.append("</body></html>");
            proof {
                assert(s@ =~= page_html(title@, path@, false, main_article.rendered()));
            }
            Ok(s)
        },
    }
}

/// For one and the same request — same title, path and content — the
/// boosted page and the full page are never the same text: the two shells
/// differ.
pub proof fn lemma_shells_differ(title: Seq<char>, path: Seq<char>, article: Seq<char>)
    ensures
        page_html(title, path, true, article) != page_html(title, path, false, article),
{
    reveal_strlit("<title>");
    reveal_strlit("<!DOCTYPE html><html><head><title>");
    let b = page_html(title, path, true, article);
    let f = page_html(title, path, false, article);
    assert(b[1] == 't');
    assert(f[1] == '!');
}

} // verus!
