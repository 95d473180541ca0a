//! The listing page: one block for each entry of the folder, in the order in
//! which the provider returned them.

use crate::percent::{encode_name, encoded_name};
use crate::record::{FileRecordView, ListingResult};
use vstd::prelude::*;
use vstd::string::*;

verus! {

/// The page up to the first block.
pub const PAGE_HEAD: &'static str = r#"
<!DOCTYPE html>
<html>
<head>
    <title>Drive Files</title>
    <style>
        body { font-family: Arial, sans-serif; margin: 40px; }
        .file { margin: 10px 0; padding: 10px; border: 1px solid #ddd; border-radius: 5px; }
        .file-name { font-weight: bold; }
        .file-type { color: #666; font-size: 0.9em; }
        a { text-decoration: none; color: #1976d2; }
        a:hover { text-decoration: underline; }
    </style>
</head>
<body>
    <h1>Files in Drive Folder</h1>
"#;

/// The page behind the last block.
pub const PAGE_FOOT: &'static str = "</body></html>";

/// A block up to the address of its link.
pub const BLOCK_OPEN: &'static str = r#"
    <div class="file">
        <div class="file-name">
            <a href="/files/"#;

/// Between the address of a link and its text.
pub const LINK_OPEN: &'static str = r#"">"#;

/// Between the text of a link and the content-type label.
pub const LINK_CLOSE: &'static str = r#"</a>
        </div>
        <div class="file-type">"#;

/// A block behind its content-type label.
pub const BLOCK_CLOSE: &'static str = r#"</div>
    </div>
"#;

/// The block of one entry: its name as a link to the address that serves it,
/// the name percent-encoded there, and its content-type label.
pub open spec fn file_block(file: FileRecordView) -> Seq<char> {
    BLOCK_OPEN@ + encoded_name(file.name) + LINK_OPEN@ + file.name + LINK_CLOSE@ + file.mime_type
        + BLOCK_CLOSE@
}

/// The blocks of a sequence of entries, one behind the other.
pub open spec fn file_blocks(files: Seq<FileRecordView>) -> Seq<char>
    decreases files.len(),
{
    if files.len() == 0 {
        seq![]
    } else {
        file_blocks(files.drop_last()) + file_block(files.last())
    }
}

/// The listing page of a sequence of entries.
pub open spec fn listing_page(files: Seq<FileRecordView>) -> Seq<char> {
    PAGE_HEAD@ + file_blocks(files) + PAGE_FOOT@
}

/// Renders the listing page. The blocks follow the order of `listing`; no
/// entry is left out, moved or written twice.
pub fn render_listing(listing: &ListingResult) -> (html: String)
    ensures
        html@ == listing_page(listing@),
{
    let mut html = String::from_str(PAGE_HEAD);
    let count = listing.files.len();
    let mut i: usize = 0;
    while i < count
        invariant
            count == listing.files.len(),
            i <= count,
            html@ == PAGE_HEAD@ + file_blocks(listing@.take(i as int)),
        decreases count - i,
    {
        let file = &listing.files[i];
        let encoded = encode_name(file.name.as_str());
        let ghost before = html@;
        html.append(BLOCK_OPEN);
        html.append(encoded.as_str());
        html.append(LINK_OPEN);
        html.append(file.name.as_str());
        html.append(LINK_CLOSE);
        html.append(file.mime_type.as_str());
        html.append(BLOCK_CLOSE);
        proof {
            let shown = listing@.take(i as int + 1);
            assert(shown.drop_last() =~= listing@.take(i as int));
            assert(shown.last() == file@);
            assert(html@ =~= before + file_block(file@));
            assert(html@ =~= PAGE_HEAD@ + file_blocks(shown));
        }
        i = i + 1;
    }
    proof {
        assert(listing@.take(count as int) =~= listing@);
    }
    html.append(PAGE_FOOT);
    html
}

/// A folder without entries gives the page with no block in it.
pub proof fn lemma_empty_listing_page()
    ensures
        listing_page(Seq::empty()) == PAGE_HEAD@ + PAGE_FOOT@,
{
    assert(PAGE_HEAD@ + Seq::<char>::empty() =~= PAGE_HEAD@);
}

/// One more entry at the end of a folder adds its block at the end of the
/// blocks, and changes nothing before it.
pub proof fn lemma_listing_page_push(files: Seq<FileRecordView>, file: FileRecordView)
    ensures
        listing_page(files.push(file)) == PAGE_HEAD@ + file_blocks(files) + file_block(file)
            + PAGE_FOOT@,
{
    assert(files.push(file).drop_last() =~= files);
    assert(PAGE_HEAD@ + (file_blocks(files) + file_block(file)) =~= PAGE_HEAD@ + file_blocks(files)
        + file_block(file));
}

} // verus!
