use folder_gateway::query::{
    content_request, escape_quotes, list_request, metadata_request, search_request,
};

#[test]
fn single_quotes_get_a_backslash() {
    assert_eq!(escape_quotes("O'Brien.txt"), "O\\'Brien.txt");
    assert_eq!(escape_quotes("'"), "\\'");
    assert_eq!(escape_quotes("''"), "\\'\\'");
    assert_eq!(escape_quotes("it's 'quoted'"), "it\\'s \\'quoted\\'");
}

#[test]
fn names_without_single_quotes_are_unchanged() {
    assert_eq!(escape_quotes(""), "");
    assert_eq!(escape_quotes("photo.png"), "photo.png");
    assert_eq!(escape_quotes("a\\b \"c\""), "a\\b \"c\"");
    assert_eq!(escape_quotes("日本語"), "日本語");
}

#[test]
fn every_escaped_quote_follows_a_backslash() {
    for name in ["O'Brien.txt", "'", "a''b", "'start", "end'", "\\'"] {
        let escaped: Vec<char> = escape_quotes(name).chars().collect();
        for (i, c) in escaped.iter().enumerate() {
            if *c == '\'' {
                assert!(i > 0);
                assert_eq!(escaped[i - 1], '\\');
            }
        }
        let quotes = name.chars().filter(|c| *c == '\'').count();
        assert_eq!(escaped.len(), name.chars().count() + quotes);
    }
}

#[test]
fn listing_address() {
    assert_eq!(
        list_request("KEY", "FOLDER"),
        "https://www.googleapis.com/drive/v3/files?q='FOLDER'+in+parents&supportsAllDrives=true&includeItemsFromAllDrives=true&key=KEY"
    );
}

#[test]
fn search_address() {
    assert_eq!(
        search_request("KEY", "FOLDER", "photo.png"),
        "https://www.googleapis.com/drive/v3/files?q=name='photo.png'+and+'FOLDER'+in+parents&supportsAllDrives=true&includeItemsFromAllDrives=true&fields=files(id,name,mimeType,shortcutDetails)&key=KEY"
    );
}

#[test]
fn search_address_escapes_the_name() {
    assert_eq!(
        search_request("KEY", "FOLDER", "O'Brien.txt"),
        "https://www.googleapis.com/drive/v3/files?q=name='O\\'Brien.txt'+and+'FOLDER'+in+parents&supportsAllDrives=true&includeItemsFromAllDrives=true&fields=files(id,name,mimeType,shortcutDetails)&key=KEY"
    );
}

#[test]
fn metadata_address() {
    assert_eq!(
        metadata_request("KEY", "abc123"),
        "https://www.googleapis.com/drive/v3/files/abc123?supportsAllDrives=true&includeItemsFromAllDrives=true&key=KEY"
    );
}

#[test]
fn content_address() {
    assert_eq!(
        content_request("KEY", "abc123"),
        "https://www.googleapis.com/drive/v3/files/abc123?alt=media&supportsAllDrives=true&includeItemsFromAllDrives=true&key=KEY"
    );
}
