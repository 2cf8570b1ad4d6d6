use deep_link_gateway::validator::{
    filter_deep_links, filter_launch_args, is_forwardable_arg, is_valid_deep_link,
    starts_with_allowed_scheme,
};

fn strings(items: &[&str]) -> Vec<String> {
    items.iter().map(|s| s.to_string()).collect()
}

#[test]
fn accepts_mail_links() {
    assert!(is_valid_deep_link("mailto:a@b.com"));
    assert!(is_valid_deep_link("mailto:"));
}

#[test]
fn accepts_application_links() {
    assert!(is_valid_deep_link("forwardemail://open"));
    assert!(is_valid_deep_link("forwardemail:inbox"));
    assert!(is_valid_deep_link("forwardemail:"));
}

#[test]
fn rejects_other_schemes() {
    assert!(!is_valid_deep_link("http://example.com"));
    assert!(!is_valid_deep_link("https://example.com"));
    assert!(!is_valid_deep_link("file:///etc/passwd"));
    assert!(!is_valid_deep_link("javascript:alert(1)"));
    assert!(!is_valid_deep_link("ftp://mailto:"));
}

#[test]
fn rejects_empty_and_blank() {
    assert!(!is_valid_deep_link(""));
    assert!(!is_valid_deep_link("   "));
    assert!(!is_valid_deep_link("\t\n"));
}

#[test]
fn rejects_malformed_prefixes() {
    assert!(!is_valid_deep_link("mailto"));
    assert!(!is_valid_deep_link("forwardemail"));
    assert!(!is_valid_deep_link("xmailto:a@b.com"));
    assert!(!is_valid_deep_link("mail to:a@b.com"));
    assert!(!is_valid_deep_link("m ailto:a"));
}

#[test]
fn scheme_is_case_sensitive() {
    assert!(!is_valid_deep_link("MAILTO:a@b.com"));
    assert!(!is_valid_deep_link("Mailto:a@b.com"));
    assert!(!is_valid_deep_link("ForwardEmail://open"));
}

#[test]
fn surrounding_white_space_is_ignored() {
    assert!(is_valid_deep_link("  mailto:a@b.com"));
    assert!(is_valid_deep_link("mailto:a@b.com  "));
    assert!(is_valid_deep_link("\t forwardemail://open \r\n"));
    assert!(is_valid_deep_link("\u{a0}mailto:a@b.com\u{2003}"));
    assert!(!is_valid_deep_link("  http://x  "));
}

#[test]
fn inner_white_space_is_kept() {
    assert!(is_valid_deep_link("mailto:a b"));
    assert!(!is_valid_deep_link("mailto :a"));
}

#[test]
fn scheme_check_alone_does_not_trim() {
    assert!(starts_with_allowed_scheme("mailto:a@b.com"));
    assert!(starts_with_allowed_scheme("forwardemail:x"));
    assert!(!starts_with_allowed_scheme(" mailto:a@b.com"));
    assert!(!starts_with_allowed_scheme("http://x"));
    assert!(!starts_with_allowed_scheme(""));
}

#[test]
fn plain_arguments_are_forwardable() {
    assert!(is_forwardable_arg("--flag"));
    assert!(is_forwardable_arg("/usr/bin/app"));
    assert!(is_forwardable_arg(""));
    assert!(is_forwardable_arg("a:/b"));
    assert!(is_forwardable_arg("key=value"));
}

#[test]
fn url_like_arguments_are_scheme_checked() {
    assert!(is_forwardable_arg("forwardemail://open"));
    assert!(is_forwardable_arg("mailto://a"));
    assert!(is_forwardable_arg("  mailto:a?next=http://x"));
    assert!(!is_forwardable_arg("http://bad"));
    assert!(!is_forwardable_arg("--url=http://bad"));
    assert!(!is_forwardable_arg("://"));
    assert!(!is_forwardable_arg("x://"));
}

#[test]
fn deep_link_filter_keeps_valid_urls_in_order() {
    let urls = strings(&["mailto:a@b.com", "http://x"]);
    assert_eq!(filter_deep_links(&urls), strings(&["mailto:a@b.com"]));
    let urls = strings(&["forwardemail:2", "x", "mailto:1", "--flag", " mailto:3 "]);
    assert_eq!(
        filter_deep_links(&urls),
        strings(&["forwardemail:2", "mailto:1", " mailto:3 "])
    );
}

#[test]
fn deep_link_filter_keeps_duplicates_and_text() {
    let urls = strings(&["mailto:a", "mailto:a", " mailto:a"]);
    assert_eq!(filter_deep_links(&urls), urls);
}

#[test]
fn deep_link_filter_of_nothing_valid_is_empty() {
    let urls = strings(&["http://evil.test", "javascript:alert(1)"]);
    assert!(filter_deep_links(&urls).is_empty());
    assert!(filter_deep_links(&Vec::new()).is_empty());
}

#[test]
fn deep_link_filter_drops_plain_arguments() {
    let urls = strings(&["--flag", "mailto:a"]);
    assert_eq!(filter_deep_links(&urls), strings(&["mailto:a"]));
}

#[test]
fn launch_arg_filter_scenario() {
    let args = strings(&["--flag", "forwardemail://open", "http://bad"]);
    assert_eq!(
        filter_launch_args(&args),
        strings(&["--flag", "forwardemail://open"])
    );
}

#[test]
fn launch_arg_filter_of_empty_is_empty() {
    assert!(filter_launch_args(&Vec::new()).is_empty());
}

#[test]
fn launch_arg_filter_can_drop_everything() {
    let args = strings(&["http://a", "https://b", "file:///c"]);
    assert!(filter_launch_args(&args).is_empty());
}

#[test]
fn filters_are_idempotent_on_examples() {
    let args = strings(&["a", "http://b", "mailto:c", "d://e", ""]);
    let once = filter_launch_args(&args);
    assert_eq!(filter_launch_args(&once), once);
    let once = filter_deep_links(&args);
    assert_eq!(filter_deep_links(&once), once);
    assert_eq!(once, strings(&["mailto:c"]));
}
