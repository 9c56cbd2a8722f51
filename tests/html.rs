use suika::html::minify_html;

#[test]
fn test_minify_html_basic() {
    let html = r#"
            <html>
                <head>
                    <title>Test</title>
                </head>
                <body>
                    <h1>Hello, World!</h1>
                </body>
            </html>
        "#;
    let expected =
        "<html><head><title>Test</title></head><body><h1>Hello, World!</h1></body></html>";
    let minified = minify_html(html);
    assert_eq!(minified, expected);
}

#[test]
fn test_minify_html_with_script() {
    let html = r#"
            <html>
                <head>
                    <title>Test</title>
                </head>
                <body>
                    <h1>Hello, World!</h1>
                    <script type="module">
                        console.log("Test");
                    </script>
                </body>
            </html>
        "#;
    let expected = r#"<html><head><title>Test</title></head><body><h1>Hello, World!</h1><script type="module">console.log("Test");</script></body></html>"#;
    let minified = minify_html(html);
    assert_eq!(minified, expected);
}

#[test]
fn test_minify_html_with_multiple_scripts() {
    let html = r#"
            <html>
                <head>
                    <title>Test</title>
                </head>
                <body>
                    <h1>Hello, World!</h1>
                    <script type="module">
                        console.log("Test 1");
                    </script>
                    <script type="module">
                        console.log("Test 2");
                    </script>
                </body>
            </html>
        "#;
    let expected = r#"<html><head><title>Test</title></head><body><h1>Hello, World!</h1><script type="module">console.log("Test 1");</script><script type="module">console.log("Test 2");</script></body></html>"#;
    let minified = minify_html(html);
    assert_eq!(minified, expected);
}

#[test]
fn minify_empty_and_blank() {
    assert_eq!(minify_html(""), "");
    assert_eq!(minify_html("   \n\t\n"), "");
    assert_eq!(minify_html("\u{3000}a b\u{a0}\r\n  c  "), "a bc");
}

#[test]
fn minify_drops_unclosed_script() {
    assert_eq!(minify_html("<p>x</p>\n<script>\nlet a = 1;\n"), "<p>x</p><script>");
}

#[test]
fn minify_single_line_script_holds_back_what_follows() {
    // A line that opens a script element is taken as opening it even when it
    // also closes it, so the lines after it are held back.
    assert_eq!(
        minify_html("  <script>go()</script>  \n<b>"),
        "<script>go()</script>"
    );
    assert_eq!(
        minify_html("<script>go()</script>\n<b>\n</body></script>"),
        "<script>go()</script><b></body></script>"
    );
}

#[test]
fn minify_close_without_open() {
    assert_eq!(minify_html("a\n</script>\nb"), "a</script>b");
}
