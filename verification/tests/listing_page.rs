use folder_gateway::listing::{render_listing, PAGE_FOOT, PAGE_HEAD};
use folder_gateway::record::{FileRecord, ListingResult, ShortcutReference};

fn entry(id: &str, name: &str, mime_type: &str) -> FileRecord {
    FileRecord {
        id: id.to_string(),
        name: name.to_string(),
        mime_type: mime_type.to_string(),
        web_view_link: None,
        web_content_link: None,
        shortcut_details: None,
    }
}

const EMPTY_PAGE: &str = "
<!DOCTYPE html>
<html>
<head>
    <title>Drive Files</title>
    <style>
        body { font-family: Arial, sans-serif; margin: 40px; }
        .file { margin: 10px 0; padding: 10px; border: 1px solid #ddd; border-radius: 5px; }
        .file-name { font-weight: bold; }
        .file-type { color: #666; font-size: 0.9em; }
        a { text-decoration: none; color: #1976d2; }
        a:hover { text-decoration: underline; }
    </style>
</head>
<body>
    <h1>Files in Drive Folder</h1>
</body></html>";

#[test]
fn empty_folder_gives_a_page_without_blocks() {
    let html = render_listing(&ListingResult { files: vec![] });
    assert_eq!(html, EMPTY_PAGE);
    assert_eq!(html, format!("{}{}", PAGE_HEAD, PAGE_FOOT));
    assert_eq!(html.matches("<div class=\"file\">").count(), 0);
    assert_eq!(html.matches("<a ").count(), 0);
    assert!(html.starts_with("\n<!DOCTYPE html>\n<html>\n"));
    assert!(html.ends_with("</body></html>"));
    assert_eq!(html.matches("<html>").count(), 1);
    assert_eq!(html.matches("</html>").count(), 1);
    assert_eq!(html.matches("<body>").count(), 1);
    assert_eq!(html.matches("</body>").count(), 1);
}

#[test]
fn one_entry_gives_one_block() {
    let html = render_listing(&ListingResult { files: vec![entry("1", "photo.png", "image/png")] });
    let block = "
    <div class=\"file\">
        <div class=\"file-name\">
            <a href=\"/files/photo.png\">photo.png</a>
        </div>
        <div class=\"file-type\">image/png</div>
    </div>
";
    assert_eq!(html, format!("{}{}{}", PAGE_HEAD, block, PAGE_FOOT));
    assert_eq!(html.matches("<div class=\"file\">").count(), 1);
}

#[test]
fn link_carries_the_encoded_name_and_text_the_plain_one() {
    let html = render_listing(&ListingResult {
        files: vec![entry("1", "my file (1).txt", "text/plain")],
    });
    assert!(html.contains("<a href=\"/files/my%20file%20%281%29.txt\">my file (1).txt</a>"));
    assert!(html.contains("<div class=\"file-type\">text/plain</div>"));
}

#[test]
fn blocks_follow_the_order_of_the_entries() {
    let files = vec![
        entry("3", "zebra.txt", "text/plain"),
        entry("1", "apple.txt", "text/plain"),
        entry("2", "mango.txt", "text/plain"),
        entry("4", "apple.txt", "text/html"),
    ];
    let html = render_listing(&ListingResult { files });
    assert_eq!(html.matches("<div class=\"file\">").count(), 4);
    let zebra = html.find(">zebra.txt<").unwrap();
    let apple = html.find(">apple.txt<").unwrap();
    let mango = html.find(">mango.txt<").unwrap();
    let second_apple = html.rfind(">apple.txt<").unwrap();
    assert!(zebra < apple);
    assert!(apple < mango);
    assert!(mango < second_apple);
}

#[test]
fn page_of_two_is_the_page_of_one_with_a_block_more() {
    let first = entry("1", "a.txt", "text/plain");
    let second = entry("2", "b c.txt", "text/plain");
    let one = render_listing(&ListingResult { files: vec![first.clone()] });
    let two = render_listing(&ListingResult { files: vec![first, second] });
    let body_of_one = one.strip_suffix(PAGE_FOOT).unwrap();
    assert!(two.starts_with(body_of_one));
    let block = &two[body_of_one.len()..two.len() - PAGE_FOOT.len()];
    assert_eq!(
        block,
        "
    <div class=\"file\">
        <div class=\"file-name\">
            <a href=\"/files/b%20c.txt\">b c.txt</a>
        </div>
        <div class=\"file-type\">text/plain</div>
    </div>
"
    );
}

#[test]
fn an_alias_is_listed_under_its_own_name() {
    let mut alias = entry("9", "link to photo", "application/vnd.google-apps.shortcut");
    alias.shortcut_details = Some(ShortcutReference { target_id: "1".to_string() });
    assert!(alias.is_shortcut());
    let html = render_listing(&ListingResult { files: vec![alias] });
    assert!(html.contains("<a href=\"/files/link%20to%20photo\">link to photo</a>"));
}

#[test]
fn first_match_is_the_first_entry() {
    let files = vec![entry("7", "dup.txt", "text/plain"), entry("8", "dup.txt", "text/html")];
    let first = ListingResult { files }.first_match();
    assert_eq!(first, Some(entry("7", "dup.txt", "text/plain")));
    assert_eq!(ListingResult { files: vec![] }.first_match(), None);
    assert!(!entry("7", "dup.txt", "text/plain").is_shortcut());
}
