use velocity::markdown::{apply_markdown, discord_markdown_to_html, html_escape, html_escape_char};

#[test]
fn plain_text_passes_through() {
    assert_eq!(discord_markdown_to_html("hello world"), "hello world");
}

#[test]
fn bold_text() {
    assert_eq!(
        discord_markdown_to_html("a **bold** word"),
        "a <strong style=\"font-weight:600;\">bold</strong> word"
    );
}

#[test]
fn bold_italic_text() {
    assert_eq!(
        discord_markdown_to_html("***x***"),
        "<strong><em>x</em></strong>"
    );
}

#[test]
fn italic_text() {
    assert_eq!(discord_markdown_to_html("*x*"), "<em>x</em>");
}

#[test]
fn code_span() {
    assert_eq!(
        discord_markdown_to_html("`let x`"),
        "<code style=\"background:rgba(255,255,255,0.1);padding:0.1em 0.3em;border-radius:4px;font-size:0.9em;\">let x</code>"
    );
}

#[test]
fn spoiler_span() {
    assert_eq!(
        discord_markdown_to_html("||secret||"),
        "<span style=\"background:#1a1a1a;color:#1a1a1a;border-radius:2px;\" class=\"spoiler\" title=\"Spoiler\">secret</span>"
    );
}

#[test]
fn unclosed_markers_stay_verbatim() {
    assert_eq!(discord_markdown_to_html("**x"), "**x");
    assert_eq!(discord_markdown_to_html("||x"), "||x");
    assert_eq!(discord_markdown_to_html("`x"), "`x");
}

#[test]
fn bold_contents_are_formatted_recursively() {
    assert_eq!(
        discord_markdown_to_html("**a *b* c**"),
        "<strong style=\"font-weight:600;\">a <em>b</em> c</strong>"
    );
}

#[test]
fn escaping_runs_before_and_inside_formatting() {
    assert_eq!(html_escape("<b>&\"x"), "&lt;b&gt;&amp;&quot;x");
    assert_eq!(html_escape_char('&'), "&amp;");
    assert_eq!(html_escape_char('z'), "z");
    assert_eq!(apply_markdown("a<b"), "a&lt;b");
    assert_eq!(discord_markdown_to_html("a & b"), "a &amp;amp; b");
    assert_eq!(
        discord_markdown_to_html("*<i>*"),
        "<em>&amp;lt;i&amp;gt;</em>"
    );
}

#[test]
fn empty_input_gives_empty_output() {
    assert_eq!(discord_markdown_to_html(""), "");
}

#[test]
fn multibyte_characters_survive() {
    assert_eq!(discord_markdown_to_html("héllo ☃"), "héllo ☃");
    assert_eq!(discord_markdown_to_html("**héllo ☃**"), "<strong style=\"font-weight:600;\">héllo ☃</strong>");
}
