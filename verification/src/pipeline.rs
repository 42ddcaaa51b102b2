//! The whole run, modelled as a function of its inputs.
//!
//! Every stage of the pipeline is deterministic in the book id and the
//! bodies the site served: the paths written, each page file's bytes, and
//! the merged file's bytes are spec functions of those inputs alone. The
//! lemma below states the consequence: a second run over an unchanged
//! remote source lays down byte-identical files at the same paths.

use vstd::prelude::*;
use vstd::utf8::encode_utf8;
use crate::html::{concat_trimmed, text_nodes_of};
use crate::merge::concat_bytes;

verus! {

/// The bytes written to one page's file: the UTF-8 encoding of the page's
/// extracted text.
pub open spec fn page_file_bytes(html: Seq<char>, content_selector: Seq<char>) -> Seq<u8> {
    encode_utf8(concat_trimmed(text_nodes_of(html, content_selector)))
}

/// The bytes of the merged file once every page file was written: the page
/// files' bytes in page order, with no separators.
pub open spec fn merged_bytes(page_htmls: Seq<Seq<char>>, content_selector: Seq<char>) -> Seq<u8> {
    concat_bytes(page_htmls.map_values(|h: Seq<char>| page_file_bytes(h, content_selector)))
}

/// Idempotence on disk layout: two full runs over the same book id and an
/// unchanged remote source write the same page files, byte for byte, and
/// the same merged file. The paths written are [`crate::paths::page_file_spec`]
/// and [`crate::paths::merged_file_spec`], functions of the book id alone, so the second run
/// overwrites the first's files with identical contents.
pub proof fn lemma_run_idempotent(
    book_id: usize,
    first: Seq<Seq<char>>,
    second: Seq<Seq<char>>,
    content_selector: Seq<char>,
)
    requires
        first == second,
    ensures
        forall|p: int|
            0 <= p < first.len() ==> #[trigger] page_file_bytes(first[p], content_selector)
                == page_file_bytes(second[p], content_selector),
        merged_bytes(first, content_selector) == merged_bytes(second, content_selector),
{
}

} // verus!
