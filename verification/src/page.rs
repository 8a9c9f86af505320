//! The page renderer: the full HTML document for the root route.
//!
//! Rendering is a pure function of the session counter: the document is a
//! fixed head and body with the counter's decimal form embedded in the
//! counter cell. The two script tags and the `hx-`/`sse-` attributes wire
//! the buttons and the live timer text up on the client; the span that is
//! the timer's swap target starts at "0".

use vstd::prelude::*;

use crate::decimal::{i32_to_decimal, signed_dec_rep};

verus! {

/// The document up to the counter cell's contents.
pub open spec fn page_before_count() -> Seq<char> {
    "<!DOCTYPE html><html><head><title>Hello, World!</title><link rel=\"stylesheet\" href=\"/public/style.css\"><script src=\"https://unpkg.com/htmx.org@2.0.3\" integrity=\"sha384-0895/pl2MU10Hqc6jd4RvrthNlDiE9U1tWmX7WRESftEDRosgxNsQG/Ze9YMRzHq\" crossorigin=\"anonymous\"></script><script src=\"https://unpkg.com/htmx-ext-sse@2.2.2/sse.js\"></script></head><body class=\"flex flex-col gap-2 p-4\" hx-ext=\"sse\" sse-connect=\"/timer\"><h1>Hello, World!</h1><p>Welcome to my website!</p><p><span sse-swap=\"timer\">0</span> seconds since the page was loaded.</p><div class=\"flex gap-2\"><button class=\"border rounded-md px-4 py-2 hover:bg-slate-100\" hx-post=\"/decrement\" hx-target=\"#counter\">-</button><div id=\"counter\" class=\"flex justify-center bg-slate-100 rounded-md px-4 py-2 w-16\">"@
}

/// The document after the counter cell's contents.
pub open spec fn page_after_count() -> Seq<char> {
    "</div><button class=\"border rounded-md px-4 py-2 hover:bg-slate-100\" hx-post=\"/increment\" hx-target=\"#counter\">+</button></div></body></html>"@
}

/// The whole document for a given counter value.
pub open spec fn page_html(count: int) -> Seq<char> {
    page_before_count() + signed_dec_rep(count) + page_after_count()
}

/// Renders the root page around the current session counter. Total over
/// all counter values; no side effect.
pub fn render_page(count: i32) -> (s: String)
    ensures
        s@ == page_html(count as int),
{
    let digits = i32_to_decimal(count);
    let mut s = String::new();
    s.append(
        "<!DOCTYPE html><html><head><title>Hello, World!</title><link rel=\"stylesheet\" href=\"/public/style.css\"><script src=\"https://unpkg.com/htmx.org@2.0.3\" integrity=\"sha384-0895/pl2MU10Hqc6jd4RvrthNlDiE9U1tWmX7WRESftEDRosgxNsQG/Ze9YMRzHq\" crossorigin=\"anonymous\"></script><script src=\"https://unpkg.com/htmx-ext-sse@2.2.2/sse.js\"></script></head><body class=\"flex flex-col gap-2 p-4\" hx-ext=\"sse\" sse-connect=\"/timer\"><h1>Hello, World!</h1><p>Welcome to my website!</p><p><span sse-swap=\"timer\">0</span> seconds since the page was loaded.</p><div class=\"flex gap-2\"><button class=\"border rounded-md px-4 py-2 hover:bg-slate-100\" hx-post=\"/decrement\" hx-target=\"#counter\">-</button><div id=\"counter\" class=\"flex justify-center bg-slate-100 rounded-md px-4 py-2 w-16\">",
    );
    s.append(digits.as_str());
    s.append(
        "</div><button class=\"border rounded-md px-4 py-2 hover:bg-slate-100\" hx-post=\"/increment\" hx-target=\"#counter\">+</button></div></body></html>",
    );
    proof {
        assert(s@ =~= page_html(count as int));
    }
    s
}

} // verus!
