use session_counter::page::render_page;

#[test]
fn fresh_page_shows_counter_zero() {
    let html = render_page(0);
    assert!(html.contains("w-16\">0</div>"));
}

#[test]
fn page_is_a_complete_document() {
    let html = render_page(0);
    assert!(html.starts_with("<!DOCTYPE html><html>"));
    assert!(html.ends_with("</body></html>"));
    assert!(html.contains("<title>Hello, World!</title>"));
    assert!(html.contains("<h1>Hello, World!</h1>"));
    assert!(html.contains("<p>Welcome to my website!</p>"));
}

#[test]
fn page_links_the_stylesheet_and_the_timer_stream() {
    let html = render_page(0);
    assert!(html.contains("href=\"/public/style.css\""));
    assert!(html.contains("sse-connect=\"/timer\""));
    assert!(html.contains("<span sse-swap=\"timer\">0</span>"));
}

#[test]
fn page_wires_both_buttons() {
    let html = render_page(0);
    assert!(html.contains("hx-post=\"/increment\""));
    assert!(html.contains("hx-post=\"/decrement\""));
}

#[test]
fn page_embeds_the_current_count() {
    assert!(render_page(5).contains("w-16\">5</div>"));
    assert!(render_page(-3).contains("w-16\">-3</div>"));
    assert!(render_page(2147483647).contains("w-16\">2147483647</div>"));
}
