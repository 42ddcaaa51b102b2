use ebook_crawler::html::{
    content_selector, discover_page_count, extract_content, option_selector, page_count_selector,
    page_text,
};

#[test]
fn page_text_trims_and_concatenates_text_nodes() {
    let html = "<html><body><div id=\"pageContent\"> hello <b> world </b></div></body></html>";
    assert_eq!(page_text(html, content_selector()), "helloworld");
}

#[test]
fn page_text_joins_across_matching_elements() {
    let html = "<div id=\"pageContent\">a </div><p>skip</p>";
    assert_eq!(page_text(html, "#pageContent"), "a");
}

#[test]
fn page_text_of_a_page_without_the_selector_is_empty() {
    let html = "<html><body><p>nothing here</p></body></html>";
    assert_eq!(page_text(html, content_selector()), "");
}

#[test]
fn extract_content_trims_each_node() {
    let nodes = vec![String::from("  a "), String::from("b  "), String::from("  ")];
    assert_eq!(extract_content(&nodes), "ab");
}

#[test]
fn extract_content_of_no_nodes_is_empty() {
    let nodes: Vec<String> = Vec::new();
    assert_eq!(extract_content(&nodes), "");
}

#[test]
fn discovers_the_option_count() {
    let html = "<select id=\"exampleFormControlSelect1\">\
                <option>1</option><option>2</option><option>3</option>\
                </select>";
    assert_eq!(discover_page_count(html, page_count_selector(), option_selector()), 3);
}

#[test]
fn discovers_zero_when_the_selector_is_absent() {
    let html = "<html><body><select id=\"other\"><option>1</option></select></body></html>";
    assert_eq!(discover_page_count(html, page_count_selector(), option_selector()), 0);
}

#[test]
fn discovery_counts_the_last_matching_element() {
    let html = "<select><option>1</option></select>\
                <select><option>1</option><option>2</option></select>";
    assert_eq!(discover_page_count(html, "select", "option"), 2);
}
