use xp_md2html::gfm::markdown_to_html;

#[test]
fn markdown_becomes_html() {
    assert_eq!(markdown_to_html("# Hi Mercury!"), Ok("<h1>Hi Mercury!</h1>".to_string()));
    assert_eq!(markdown_to_html(""), Ok(String::new()));
    assert_eq!(
        markdown_to_html("a *b* c"),
        Ok("<p>a <em>b</em> c</p>".to_string())
    );
}

#[test]
fn the_github_flavour_is_on() {
    assert_eq!(
        markdown_to_html("~Venus~Mars!"),
        Ok("<p><del>Venus</del>Mars!</p>".to_string())
    );
    let table = markdown_to_html("| a |\n| - |\n| b |").unwrap();
    assert!(table.starts_with("<table>"));
    assert!(table.contains("<td>b</td>"));
}

#[test]
fn raw_html_is_not_let_through() {
    assert_eq!(
        markdown_to_html("<i>x</i>"),
        Ok("<p>&lt;i&gt;x&lt;/i&gt;</p>".to_string())
    );
}
