use ebook_crawler::html::{content_selector, page_text};
use ebook_crawler::merge::merge_contents;

fn run_over(bodies: &[&str]) -> (Vec<u8>, Option<usize>) {
    let pages: Vec<Option<Vec<u8>>> = bodies
        .iter()
        .map(|body| Some(page_text(body, content_selector()).into_bytes()))
        .collect();
    merge_contents(&pages)
}

#[test]
fn two_runs_over_unchanged_bodies_produce_identical_output() {
    let bodies = [
        "<div id=\"pageContent\">one </div>",
        "<div id=\"pageContent\"> two</div>",
    ];
    let (first, first_gap) = run_over(&bodies);
    let (second, second_gap) = run_over(&bodies);
    assert_eq!(first_gap, None);
    assert_eq!(second_gap, None);
    assert_eq!(first, second);
    assert_eq!(first, b"onetwo".to_vec());
}
