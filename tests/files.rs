use cushion_notify::commands::get_user_agent;
use cushion_notify::download::{
    choose_download_name, download_name_candidate, extract_filename_from_url, filename_for_url, typed_file_name,
};
use cushion_notify::links::UrlParts;
use cushion_notify::text::{decimal_text, text_after_last_slash};

#[test]
fn filename_from_plain_url() {
    assert_eq!(filename_for_url("https://example.com/files/report%20final.pdf"), Some("report final.pdf".to_string()));
    assert_eq!(filename_for_url("https://example.com/files/photo.png?size=2"), Some("photo.png".to_string()));
    assert_eq!(filename_for_url("https://example.com/files/"), None);
    assert_eq!(filename_for_url("https://example.com/files/README"), None);
    assert_eq!(filename_for_url("https://example.com"), None);
    assert_eq!(filename_for_url("data:text/plain,a.txt"), None);
    assert_eq!(filename_for_url("not a url"), None);
}

#[test]
fn filename_from_image_proxy_url() {
    assert_eq!(
        filename_for_url("https://app.cushion.so/_next/image?url=https%3A%2F%2Fcdn.example.com%2Fimg%2Fcat.jpg&w=640"),
        Some("cat.jpg".to_string())
    );
    assert_eq!(
        filename_for_url("https://app.cushion.so/_next/image?w=64&url=%2Fstatic%2Fmedia%2Flogo.svg"),
        Some("logo.svg".to_string())
    );
    assert_eq!(
        filename_for_url("https://app.cushion.so/_next/image?url=%2Fstatic%2Fmedia%2Flogo"),
        None
    );
    assert_eq!(
        filename_for_url("https://app.cushion.so/_next/image.png?url=https%3A%2F%2Fcdn.example.com%2F"),
        None
    );
    assert_eq!(filename_for_url("https://app.cushion.so/_next/image.png?w=2"), Some("image.png".to_string()));
}

#[test]
fn filename_from_parsed_parts() {
    let parts = UrlParts {
        scheme: "https".to_string(),
        host: Some("x".to_string()),
        path: "/a/b%2Bc.txt".to_string(),
        query: vec![("url".to_string(), "ignored.png".to_string())],
    };
    assert_eq!(extract_filename_from_url(&parts), Some("b+c.txt".to_string()));
    let relative = UrlParts {
        scheme: "https".to_string(),
        host: Some("x".to_string()),
        path: "/_next/image".to_string(),
        query: vec![("w".to_string(), "1".to_string()), ("url".to_string(), "/media/pic.webp".to_string())],
    };
    assert_eq!(extract_filename_from_url(&relative), Some("pic.webp".to_string()));
}

#[test]
fn numbered_download_names() {
    assert_eq!(download_name_candidate("photo.png", 0), Ok("photo.png".to_string()));
    assert_eq!(download_name_candidate("photo.png", 1), Ok("photo (1).png".to_string()));
    assert_eq!(download_name_candidate("archive.tar.gz", 12), Ok("archive.tar (12).gz".to_string()));
    assert_eq!(download_name_candidate("README", 3), Ok("README (3)".to_string()));
    assert_eq!(download_name_candidate(".bashrc", 2), Ok(".bashrc (2)".to_string()));
    assert_eq!(download_name_candidate("", 1), Ok("download (1)".to_string()));
    assert_eq!(download_name_candidate("photo.png", 1000), Ok("photo (1000).png".to_string()));
    assert_eq!(download_name_candidate("photo.png", 1001), Err("Too many files with same name".to_string()));
}

#[test]
fn offered_download_name() {
    assert_eq!(choose_download_name(Some("a.txt".to_string()), Some("b.txt".to_string()), Some(5)), "a.txt");
    assert_eq!(choose_download_name(None, Some("b.txt".to_string()), Some(5)), "b.txt");
    assert_eq!(choose_download_name(None, None, Some(1700000000)), "download-1700000000");
    assert_eq!(choose_download_name(None, None, None), "download-unknown");
}

#[test]
fn typed_names() {
    assert_eq!(typed_file_name("photo", "image/png"), "photo.png");
    assert_eq!(typed_file_name("clip", "video/quicktime"), "clip.mov");
    assert_eq!(typed_file_name("photo.jpeg", "image/png"), "photo.jpeg");
    assert_eq!(typed_file_name("notes", "text/plain"), "notes");
}

#[test]
fn decimals() {
    assert_eq!(decimal_text(0), "0");
    assert_eq!(decimal_text(7), "7");
    assert_eq!(decimal_text(10), "10");
    assert_eq!(decimal_text(1234567890), "1234567890");
    assert_eq!(decimal_text(u64::MAX), u64::MAX.to_string());
    assert_eq!(text_after_last_slash("a/b/c"), "c");
    assert_eq!(text_after_last_slash("abc"), "abc");
    assert_eq!(text_after_last_slash("a/"), "");
}

#[test]
fn user_agents() {
    let base = "Mozilla/5.0 (Macintosh; Intel Mac OS X 10_15_7) AppleWebKit/537.36 (KHTML, like Gecko) Chrome/120.0.0.0 Safari/537.36 ";
    assert_eq!(get_user_agent("so.cushion.app.dev"), format!("{}CushionDesktop/dev", base));
    assert_eq!(get_user_agent("so.cushion.app"), format!("{}CushionDesktop/prod", base));
    assert_eq!(get_user_agent("dev"), format!("{}CushionDesktop/prod", base));
}
