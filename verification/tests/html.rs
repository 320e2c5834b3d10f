use kon::html::format_href_to_discord;
use kon::html::format_html_to_discord;
use kon::html::replace_tags_in;
use kon::html::Tag;
use regex::Regex;

fn html(input: &str) -> String {
    format_html_to_discord(input.to_string())
}

/// The same rewriting, written with regular expressions.
fn html_by_regex(input: &str) -> String {
    let mut output = input.to_string();
    output = Regex::new(r#"</?\s*p\s*>"#).unwrap().replace_all(&output, "\n").to_string();
    output = Regex::new(r#"<\s*br\s*/?\s*>"#).unwrap().replace_all(&output, "\n").to_string();
    output = Regex::new(r#"</?\s*strong\s*>"#).unwrap().replace_all(&output, "**").to_string();
    output = Regex::new(r#"</?\s*(var|small)\s*>"#).unwrap().replace_all(&output, "").to_string();
    output = href_by_regex(&output);
    Regex::new(r#"<[^>]+>"#).unwrap().replace_all(&output, "").to_string()
}

fn href_by_regex(input: &str) -> String {
    let re = Regex::new(r#"<a href="([^"]+)">([^<]+)</a>"#).unwrap();
    re.replace_all(input, r"[$2]($1)").to_string()
}

fn html_samples() -> Vec<&'static str> {
    vec![
        "",
        "plain text",
        "<p>one</p><p>two</p>",
        "<p><small>Jan <var data-var='date'>13</var>, <var data-var='time'>08:15</var> UTC</small><br><strong>Resolved</strong> - This incident has been resolved.</p>",
        "a<br>b<br/>c<br />d< br / >e",
        "<  p  >x</ p >y< /p>z",
        "<P>upper</P>",
        "<strong>bold</strong> and </strong >",
        "<var>x</var><small>y</small></small\t>",
        "<a href=\"https://example.com\">link</a>",
        "see <a href=\"u\">t</a> and <a href='v'>w</a>",
        "<<p>p>",
        "<<b>b>",
        "<>",
        "<><p>",
        "a < b and c > d",
        "a <b and c> d",
        "<",
        ">",
        "<<<<",
        ">>>>",
        "<p",
        "<p >",
        "<p\u{a0}>nbsp",
        "<\u{2003}br\u{3000}/\u{2028}>wide",
        "<p\u{200b}>zero width",
        "<br/ / >",
        "<br//>",
        "</br>",
        "<pre>code</pre>",
        "<span class=\"x\">y</span>",
        "<div>\n<p>multi\nline</p>\n</div>",
        "<!-- comment -->",
        "1 < 2 > 1",
        "<strong><p>nested</p></strong>",
        "<smal<small>l>",
        "<s<strong>trong>",
        "<va<var>r>x",
        "é<p>ü</p>ß",
        "\u{1f600}<br>\u{1f600}",
        "<a href=\"x\">",
        "<p><p><p>",
        "<b<r>",
        "<\n p \n>",
    ]
}

#[test]
fn html_paragraphs_become_new_lines() {
    assert_eq!(html("<p>one</p><p>two</p>"), "\none\n\ntwo\n");
}

#[test]
fn html_line_breaks_become_new_lines() {
    assert_eq!(html("a<br>b<br/>c<br />d"), "a\nb\nc\nd");
}

#[test]
fn html_strong_becomes_bold() {
    assert_eq!(html("<strong>Resolved</strong> - done"), "**Resolved** - done");
}

#[test]
fn html_var_and_small_are_dropped() {
    assert_eq!(html("<small>Jan <var>13</var>, <var>08:15</var> UTC</small>"), "Jan 13, 08:15 UTC");
}

#[test]
fn html_other_tags_are_dropped() {
    assert_eq!(html("<div class=\"x\"><span>text</span></div>"), "text");
}

#[test]
fn html_anchors_become_links() {
    assert_eq!(html("See <a href=\"https://x.io/a\">status page</a>"), "See [status page](https://x.io/a)");
    assert_eq!(html("see <a href=\"https://example.com\">here</a>"), "see [here](https://example.com)");
    assert_eq!(
        html("<p>Read <a href=\"u1\"><strong>this</strong></a> and <a href=\"u2\">that</a>.</p>"),
        "\nRead [**this**](u1) and [that](u2).\n"
    );
}

#[test]
fn html_anchors_of_another_shape_are_dropped() {
    assert_eq!(html("see <a class=\"x\" href=\"u\">here</a>"), "see here");
    assert_eq!(html("see <a href='u'>here</a>"), "see here");
    assert_eq!(html("see <a href=\"u\"><em>here</em></a>"), "see here");
}

#[test]
fn html_white_space_inside_tags_is_allowed() {
    assert_eq!(html("<  p  >x</ p >y"), "\nx\ny");
    assert_eq!(html("<p\u{a0}>x"), "\nx");
    assert_eq!(html("<\u{2003}br\u{3000}/\u{2028}>x"), "\nx");
}

#[test]
fn html_tag_names_are_case_sensitive() {
    assert_eq!(html("<P>x</P>"), "x");
    assert_eq!(html("<STRONG>x</STRONG>"), "x");
}

#[test]
fn html_empty_brackets_stay() {
    assert_eq!(html("<>"), "<>");
    assert_eq!(html("a < b"), "a < b");
    assert_eq!(html("a > b"), "a > b");
}

#[test]
fn html_status_page_entry() {
    let raw = "<p><small>Jan <var data-var='date'>13</var>, <var data-var='time'>08:15</var> UTC</small><br><strong>Resolved</strong> - This incident has been resolved.</p>";
    assert_eq!(html(raw), "\nJan 13, 08:15 UTC\n**Resolved** - This incident has been resolved.\n");
}

#[test]
fn html_agrees_with_regular_expressions() {
    for sample in html_samples() {
        assert_eq!(html(sample), html_by_regex(sample), "on {:?}", sample);
    }
}

#[test]
fn html_twice_is_html_once() {
    for sample in html_samples() {
        let once = html(sample);
        let twice = html(&once);
        assert_eq!(twice, once, "on {:?}", sample);
    }
}

#[test]
fn html_same_input_same_output() {
    for sample in html_samples() {
        assert_eq!(html(sample), html(sample));
    }
}

#[test]
fn href_becomes_markdown_link() {
    assert_eq!(
        format_href_to_discord("<a href=\"https://example.com/kb\">KB 1234</a>"),
        "[KB 1234](https://example.com/kb)"
    );
}

#[test]
fn href_keeps_the_rest() {
    assert_eq!(
        format_href_to_discord("Fixes: <a href=\"u1\">one</a>, <a href=\"u2\">two</a>."),
        "Fixes: [one](u1), [two](u2)."
    );
}

#[test]
fn href_needs_the_exact_opening() {
    assert_eq!(format_href_to_discord("<a  href=\"u\">t</a>"), "<a  href=\"u\">t</a>");
    assert_eq!(format_href_to_discord("<a href='u'>t</a>"), "<a href='u'>t</a>");
    assert_eq!(format_href_to_discord("<a href=\"u\" class=\"c\">t</a>"), "<a href=\"u\" class=\"c\">t</a>");
}

#[test]
fn href_needs_address_and_text() {
    assert_eq!(format_href_to_discord("<a href=\"\">t</a>"), "<a href=\"\">t</a>");
    assert_eq!(format_href_to_discord("<a href=\"u\"></a>"), "<a href=\"u\"></a>");
    assert_eq!(format_href_to_discord("<a href=\"u\">t"), "<a href=\"u\">t");
    assert_eq!(format_href_to_discord("<a href=\"u\">t<b>x</b></a>"), "<a href=\"u\">t<b>x</b></a>");
}

#[test]
fn href_agrees_with_regular_expressions() {
    let samples = vec![
        "",
        "<a href=\"u\">t</a>",
        "x<a href=\"u\">t</a>y<a href=\"v\">w</a>z",
        "<a href=\"<a href=\"x\">y</a>\">z</a>",
        "<a href=\"u\">t</a",
        "<a href=\"u\">t</A>",
        "<a href=\"u\n\">t\n</a>",
        "<a href=\"u>\">t></a>",
        "<a href=\"u\"><a href=\"v\">w</a>",
        "<a href=\"é\">ü</a>",
        "<a href=\"",
        "<a href=\"u",
        "<a href=\"u\"",
        "<a href=\"u\">",
        "<<a href=\"u\">t</a>>",
    ];
    for sample in samples {
        assert_eq!(format_href_to_discord(sample), href_by_regex(sample), "on {:?}", sample);
    }
}

#[test]
fn one_pass_replaces_one_kind() {
    let input: Vec<char> = "<p>a<br>b</p>".chars().collect();
    let paragraphs: String = replace_tags_in(Tag::Paragraph, &input).into_iter().collect();
    assert_eq!(paragraphs, "\na<br>b\n");
    let breaks: String = replace_tags_in(Tag::LineBreak, &input).into_iter().collect();
    assert_eq!(breaks, "<p>a\nb</p>");
    let strong: String = replace_tags_in(Tag::Strong, &input).into_iter().collect();
    assert_eq!(strong, "<p>a<br>b</p>");
    let other: String = replace_tags_in(Tag::Other, &input).into_iter().collect();
    assert_eq!(other, "ab");
}

#[test]
fn html_of_many_open_brackets_is_quick() {
    let input = "<".repeat(300_000);
    assert_eq!(html(&input), input);
    let input = "<p".repeat(150_000);
    assert_eq!(html(&input), input);
    let input = "<p>".repeat(100_000);
    assert_eq!(html(&input), "\n".repeat(100_000));
}

#[test]
fn href_of_many_openings_is_quick() {
    let input = "<a href=\"".repeat(40_000);
    assert_eq!(format_href_to_discord(&input), input);
    let input = "<a href=\"u\">".repeat(40_000);
    assert_eq!(format_href_to_discord(&input), input);
    let input = "<a href=\"u\">t</a>".repeat(20_000);
    assert_eq!(format_href_to_discord(&input), "[t](u)".repeat(20_000));
}

/// A small generator of texts that are rich in brackets and tag names.
fn html_noise(seed: &mut u64, length: usize) -> String {
    let pieces = [
        "<", ">", "/", "p", "br", "strong", "var", "small", " ", "\t", "\n", "\u{a0}", "a", " href=", "\"", "x", "<a href=\"",
        "\">", "</a>", "é", "<p>", "</", "s", "!",
    ];
    let mut out = String::new();
    for _ in 0..length {
        *seed = seed.wrapping_mul(6364136223846793005).wrapping_add(1442695040888963407);
        out.push_str(pieces[((*seed >> 33) % pieces.len() as u64) as usize]);
    }
    out
}

#[test]
fn html_agrees_with_regular_expressions_on_noise() {
    let p = Regex::new(r#"</?\s*p\s*>"#).unwrap();
    let br = Regex::new(r#"<\s*br\s*/?\s*>"#).unwrap();
    let strong = Regex::new(r#"</?\s*strong\s*>"#).unwrap();
    let silent = Regex::new(r#"</?\s*(var|small)\s*>"#).unwrap();
    let other = Regex::new(r#"<[^>]+>"#).unwrap();
    let href = Regex::new(r#"<a href="([^"]+)">([^<]+)</a>"#).unwrap();
    let mut seed = 7u64;
    for round in 0..4000 {
        let sample = html_noise(&mut seed, 1 + round % 24);
        let mut expected = p.replace_all(&sample, "\n").to_string();
        expected = br.replace_all(&expected, "\n").to_string();
        expected = strong.replace_all(&expected, "**").to_string();
        expected = silent.replace_all(&expected, "").to_string();
        expected = href.replace_all(&expected, r"[$2]($1)").to_string();
        expected = other.replace_all(&expected, "").to_string();
        assert_eq!(html(&sample), expected, "on {:?}", sample);
        assert_eq!(format_href_to_discord(&sample), href.replace_all(&sample, r"[$2]($1)"), "on {:?}", sample);
        let once = html(&sample);
        assert_eq!(html(&once), once, "on {:?}", sample);
    }
}
