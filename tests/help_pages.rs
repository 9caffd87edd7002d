use tlbview::text::{contains_lower_of, contains_seq, eq_lower};
use tlbview::docs::{find_doc_page, page_candidates, page_matches, parse_hhk};
use tlbview::html::{clean_description, param_text, parse_html, strip_html_tags, strip_tags_text, tidy};

#[test]
fn hhk_index_pairs_names_with_pages() {
    let content = "<UL>\r\n  <LI> <OBJECT type=\"text/sitemap\">\r\n    <param name=\"Name\" value=\"Open\">\r\n    <param name=\"Local\" value=\"html/open.htm\">\r\n  </OBJECT>\n<param name=\"Name\" value=\"Close\">\n<param name=\"Local\" value=\"html/close.htm\">\n<param name=\"Name\" value=\"Open\">\n<param name=\"Local\" value=\"html/open2.htm\">\n";
    let index = parse_hhk(content);
    assert_eq!(
        index,
        vec![
            ("Open".to_string(), "html/open2.htm".to_string()),
            ("Close".to_string(), "html/close.htm".to_string())
        ]
    );
}

#[test]
fn hhk_local_without_name_is_ignored() {
    let index = parse_hhk("<param name=\"Local\" value=\"a.htm\">\n<param name=\"Name\" value=\"X\">");
    assert!(index.is_empty());
    assert!(parse_hhk("").is_empty());
}

#[test]
fn doc_page_lookup_prefers_exact_match() {
    let index = vec![
        ("OpenAsync".to_string(), "async.htm".to_string()),
        ("open".to_string(), "open.htm".to_string()),
    ];
    assert_eq!(find_doc_page(&index, "Open"), Some("open.htm".to_string()));
    assert_eq!(find_doc_page(&index, "async"), Some("async.htm".to_string()));
    assert_eq!(find_doc_page(&index, "Close"), None);
}

#[test]
fn page_paths() {
    assert!(page_matches("/html/Document_Open.HTM", "open"));
    assert!(page_matches("html/open.html", "Open"));
    assert!(!page_matches("html/open.txt", "open"));
    assert!(!page_matches("open/index.htm", "open"));
    assert_eq!(page_candidates("a/b.htm"), vec!["a/b.htm".to_string(), "/a/b.htm".to_string()]);
}

#[test]
fn strip_html_removes_scripts_styles_and_tags() {
    let html = "<p>Hello <b>World</b></p>\n<script type=\"x\">var a = 1;</script>\n<style>p { }</style>\n   Next line  \n\n";
    assert_eq!(strip_html_tags(html), "Hello  World\nNext line");
}

#[test]
fn strip_tags_text_keeps_script_text() {
    assert_eq!(strip_tags_text("<script>x</script>"), "x");
    assert_eq!(tidy("  a \n\n b\r\n"), "a\nb");
}

#[test]
fn clean_description_drops_metadata_lines() {
    let raw = "Namespace: ETABSv1\nAssembly: ETABSv1 (in ETABSv1.dll)\nOpens a file.\nVersion: 1.0\nSecond line.";
    assert_eq!(clean_description(raw), "Opens a file.\nSecond line.");
}

#[test]
fn parse_html_summary_and_parameters() {
    let html = "<html><h1>Open Method</h1><div class=\"summary\">Opens the <b>document</b>.</div>\
<h4>Parameters</h4><dl><dt><span class=\"parameter\">FileName</span></dt><dd>Type: System.String<br />/ The file to open.</dd>\
<dt>Mode</dt><dd>How to open it.</dd></dl><div id=\"remarks\">r</div></html>";
    let doc = parse_html(html);
    assert_eq!(doc.description, "Opens the  document .");
    assert_eq!(doc.parameters.len(), 2);
    assert_eq!(doc.parameters[0].name, "FileName");
    assert_eq!(doc.parameters[0].description, "The file to open.");
    assert_eq!(doc.parameters[1].name, "Mode");
    assert_eq!(doc.parameters[1].description, "How to open it.");
}

#[test]
fn parse_html_title_fallback() {
    let html = "<h1>Close</h1>\n<p>Namespace: Lib</p>\n<p>Closes it.</p>\n<h2>Syntax</h2>";
    let doc = parse_html(html);
    assert_eq!(doc.description, "Closes it.");
    assert!(doc.parameters.is_empty());
    assert_eq!(parse_html("<p>nothing</p>").description, "");
}

#[test]
fn parse_html_separator_script_becomes_dot() {
    let html = "<div class=\"summary\">A<script>AddLanguageSpecificTextSet(\"x|nu=.\");</script>B</div>";
    assert_eq!(parse_html(html).description, "A.B");
}

#[test]
fn param_text_after_type_line() {
    assert_eq!(param_text("Type: Int<br/>// Count", Some(14)), "Count");
    assert_eq!(param_text("<i>plain</i>", None), "plain");
}

#[test]
fn lower_case_matching() {
    let s: Vec<char> = "ÉTAT".chars().collect();
    let q: Vec<char> = "ét".chars().collect();
    assert!(contains_lower_of(&s, &q));
    assert!(!contains_seq(&s, &q));
    assert!(eq_lower(&s, &"état".chars().collect()));
    assert!(page_matches("/HTML/État.HTM", "état"));
}
