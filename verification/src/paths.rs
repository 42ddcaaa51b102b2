//! Page URLs and on-disk paths, pinned character by character.
//!
//! The site serves page `p` of book `b` at `<base>/content/<b>/<p>`; a
//! fetched page is stored under `data/<b>/pages/<p>.txt`, and the merged
//! book under `data/<b>/<b>.txt`.

use vstd::prelude::*;
use vstd::string::StringExecFns;
use crate::numeral::{dec_seq, usize_to_string};

verus! {

/// The URL that serves page `page` of book `book_id`.
pub open spec fn page_url_spec(book_id: usize, page: usize) -> Seq<char> {
    "https://www.haobook123.com/content/"@ + dec_seq(book_id as nat) + "/"@ + dec_seq(page as nat)
}

/// The directory that holds the per-page files of one book.
pub open spec fn pages_dir_spec(book_id: usize) -> Seq<char> {
    "data/"@ + dec_seq(book_id as nat) + "/pages"@
}

/// The file that holds the extracted text of one page.
pub open spec fn page_file_spec(book_id: usize, page: usize) -> Seq<char> {
    "data/"@ + dec_seq(book_id as nat) + "/pages/"@ + dec_seq(page as nat) + ".txt"@
}

/// The file that holds the merged book.
pub open spec fn merged_file_spec(book_id: usize) -> Seq<char> {
    "data/"@ + dec_seq(book_id as nat) + "/"@ + dec_seq(book_id as nat) + ".txt"@
}

pub fn page_url(book_id: usize, page: usize) -> (r: String)
    ensures
        r@ == page_url_spec(book_id, page),
{
    let mut r = String::from_str("https://www.haobook123.com/content/");
    let b = usize_to_string(book_id);
    r.append(b.as_str());
    r.append("/");
    let p = usize_to_string(page);
    r.append(p.as_str());
    proof {
        assert(r@ =~= page_url_spec(book_id, page));
    }
    r
}

pub fn pages_dir(book_id: usize) -> (r: String)
    ensures
        r@ == pages_dir_spec(book_id),
{
    let mut r = String::from_str("data/");
    let b = usize_to_string(book_id);
    r.append(b.as_str());
    r.append("/pages");
    proof {
        assert(r@ =~= pages_dir_spec(book_id));
    }
    r
}

pub fn page_file(book_id: usize, page: usize) -> (r: String)
    ensures
        r@ == page_file_spec(book_id, page),
{
    let mut r = String::from_str("data/");
    let b = usize_to_string(book_id);
    r.append(b.as_str());
    r.append("/pages/");
    let p = usize_to_string(page);
    r.append(p.as_str());
    r.append(".txt");
    proof {
        assert(r@ =~= page_file_spec(book_id, page));
    }
    r
}

pub fn merged_file(book_id: usize) -> (r: String)
    ensures
        r@ == merged_file_spec(book_id),
{
    let mut r = String::from_str("data/");
    let b = usize_to_string(book_id);
    r.append(b.as_str());
    r.append("/");
    r.append(b.as_str());
    r.append(".txt");
    proof {
        assert(r@ =~= merged_file_spec(book_id));
    }
    r
}

} // verus!
