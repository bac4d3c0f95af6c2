use dilbert_viewer::errors::{AppError, MinificationError};
use dilbert_viewer::document::count_tags;
use dilbert_viewer::minify::{
    minified_or_unchanged, minify_css, minify_html, MAX_MINIFIED_NESTING,
};

const SIMPLE_HTML: &str = r#"<!DOCTYPE html>
<html>
  <head>
    <title>  A simple page  </title>
  </head>
  <body>
    <p>   Hello,   world!   </p>
  </body>
</html>
"#;

const COMIC_HTML: &str = r#"<!DOCTYPE html>
<html lang="en">
  <head>
    <meta charset="utf-8">
    <title>Dilbert Viewer</title>
  </head>
  <body>
    <div class="comic">
      <span class="comic-title-name">   Rfp Process   </span>
      <img class="img-comic" width="900" height="280" src="https://assets.amuniversal.com/7c2789d004020138d860005056a9545d">
    </div>
  </body>
</html>
"#;

const MINIMIZED_HTML: &str = "<!doctype html><title>Minimized</title><p>Hello, world!";

/// Test whether HTML minification results in a parsable HTML.
///
/// # Arguments
/// * `html` - The HTML to be used for testing
fn check_minified_html_is_parsable(html: &str) {
    let result = minify_html(html.to_string()).expect("Error minifying HTML");
    assert!(result.len() <= html.len());
    // Only checks if the minified HTML is actually parsable.
    tl::parse(&result, tl::ParserOptions::default()).expect("Cannot parse minified HTML");
}

#[test]
// NOTE: This does *NOT* check if the minified HTML is equivalent, only that it's parsable.
fn test_minified_html_is_parsable() {
    // empty HTML
    check_minified_html_is_parsable("");
    // simple HTML
    check_minified_html_is_parsable(SIMPLE_HTML);
    // comic HTML
    check_minified_html_is_parsable(COMIC_HTML);
    // already minimized HTML
    check_minified_html_is_parsable(MINIMIZED_HTML);
}

#[test]
fn test_minify_html_drops_blanks() {
    assert_eq!(minify_html("<p>  Hello, world!  </p>".to_string()), Ok("<p>Hello, world!".to_string()));
    assert_eq!(minify_html(String::new()), Ok(String::new()));
}

#[test]
fn test_minify_html_keeps_the_text() {
    let minified = minify_html(COMIC_HTML.to_string()).expect("Error minifying HTML");
    assert!(minified.len() < COMIC_HTML.len());
    assert!(minified.contains("Rfp Process"));
    assert!(minified.contains("https://assets.amuniversal.com/7c2789d004020138d860005056a9545d"));
    assert!(!minified.contains("   Rfp Process   "));
}

#[test]
fn test_minify_html_fails_on_a_broken_page() {
    let result = minify_html("<p></div>".to_string());
    assert!(matches!(result, Err(AppError::Minify(MinificationError::Html(_)))));
    match result {
        Err(err) => assert!(err.message().starts_with("Minification error: Error minifying HTML: ")),
        Ok(_) => panic!("the page is broken"),
    }
}

#[test]
fn test_minified_or_unchanged() {
    assert_eq!(minified_or_unchanged("<p>  Hello, world!  </p>".to_string()), "<p>Hello, world!");
    // Minification fails, so the page is served as it is.
    assert_eq!(minified_or_unchanged("<p></div>".to_string()), "<p></div>");
    assert_eq!(minified_or_unchanged(String::new()), "");
}

#[test]
fn test_minify_css() {
    let css = b"\n    .foo > p {\n        color: red;\n    }";
    assert_eq!(minify_css(css), Ok(".foo>p{color:red;}".to_string()));
    assert_eq!(minify_css(b""), Ok(String::new()));
    let sheet = b"body {\n  margin: 0 auto;\n  font-family: sans-serif;\n}\n\n/* comment */\na:hover { color: blue }\n";
    let minified = minify_css(sheet).expect("Error minifying CSS");
    assert!(minified.len() < sheet.len());
    assert!(!minified.contains('\n'));
    // What was minified can be minified again.
    assert!(minify_css(minified.as_bytes()).is_ok());
}

#[test]
fn test_minify_css_that_is_no_text() {
    assert!(matches!(minify_css(&[b'a', 0xff, b'{', b'}']), Err(AppError::Utf8(_))));
    assert!(matches!(minify_css(&[0xc3, 0x28]), Err(AppError::Utf8(_))));
    match minify_css(&[0xff]) {
        Err(err) => assert!(err.message().starts_with("Error parsing UTF-8: ")),
        Ok(_) => panic!("the bytes are no text"),
    }
}

#[test]
fn test_minify_css_that_the_minifier_refuses() {
    // A string that is never closed.
    let result = minify_css(b"a { content: \"never closed }");
    match result {
        Err(AppError::Minify(MinificationError::Css(message))) => assert!(!message.is_empty()),
        other => panic!("the sheet is broken, but gave {other:?}"),
    }
}

/// A page of `depth` elements, each nested in the one before.
fn nested_divs(depth: usize) -> String {
    let mut html = String::new();
    for _ in 0..depth {
        html.push_str("<div>");
    }
    html.push('x');
    for _ in 0..depth {
        html.push_str("</div>");
    }
    html
}

#[test]
/// A page that nests as deep as a page may is minified, and comes back.
fn test_minify_html_at_the_bound_of_nesting() {
    let html = nested_divs(MAX_MINIFIED_NESTING);
    assert_eq!(count_tags(&html), MAX_MINIFIED_NESTING);
    let minified = minify_html(html.clone()).expect("the page is within the bound");
    assert!(minified.contains('x'));
    assert!(minified.len() <= html.len());
    assert_eq!(minified_or_unchanged(html), minified);
}

#[test]
/// A page that could nest deeper than the stack takes is not handed to the minifier.
fn test_minify_html_beyond_the_bound_of_nesting() {
    for depth in [MAX_MINIFIED_NESTING + 1, 64, 1_000, 100_000] {
        let html = nested_divs(depth);
        assert_eq!(
            minify_html(html.clone()),
            Err(AppError::Minify(MinificationError::Html(
                "The page holds too many tags to be minified".into()
            ))),
            "for {depth} nested tags"
        );
        assert_eq!(minified_or_unchanged(html.clone()), html);
    }
    // It is the tags that a page opens that count, nested or not.
    let flat = "<p>  a  </p>".repeat(MAX_MINIFIED_NESTING + 1);
    assert!(matches!(
        minify_html(flat.clone()),
        Err(AppError::Minify(MinificationError::Html(_)))
    ));
    assert_eq!(minified_or_unchanged(flat.clone()), flat);
}
