use scroll_gallery::counter::GalleryCounter;
use scroll_gallery::direction::Direction;
use scroll_gallery::direction::parse_direction;
use scroll_gallery::numbers::i64_to_string;
use scroll_gallery::numbers::parse_i32;
use scroll_gallery::numbers::u64_to_string;
use scroll_gallery::refparse::RefError;
use scroll_gallery::refparse::parse_ref;
use scroll_gallery::render::app;
use scroll_gallery::render::image_item;
use scroll_gallery::render::image_list;
use scroll_gallery::render::indicator;
use scroll_gallery::render::modal;
use scroll_gallery::render::modal_response;

fn count_occ(haystack: &str, needle: &str) -> usize {
    haystack.matches(needle).count()
}

#[test]
fn direction_round_trip() {
    assert_eq!(Direction::from_str(Direction::Left.as_str()), Ok(Direction::Left));
    assert_eq!(Direction::from_str(Direction::Right.as_str()), Ok(Direction::Right));
    assert_eq!(Direction::Left.as_str(), "left");
    assert_eq!(Direction::Right.as_str(), "right");
}

#[test]
fn direction_default() {
    assert_eq!(parse_direction(None), None);
    assert_eq!(parse_direction(Some("")), None);
    assert_eq!(parse_direction(Some("up")), None);
    assert_eq!(parse_direction(Some("Left")), None);
    assert_eq!(parse_direction(Some("left")), Some(Direction::Left));
    assert_eq!(parse_direction(Some("right")), Some(Direction::Right));
}

#[test]
fn reference_split() {
    assert_eq!(parse_ref("images?42"), Ok(("images".to_string(), 42)));
    assert_eq!(parse_ref("a/b?0"), Ok(("a/b".to_string(), 0)));
}

#[test]
fn reference_split_first_separator() {
    // the split happens at the first '?', so a second one lands in the id
    assert_eq!(parse_ref("a?b?5"), Err(RefError::InvalidId));
    assert_eq!(parse_ref("?5"), Ok(("".to_string(), 5)));
    assert_eq!(parse_ref("images?007"), Ok(("images".to_string(), 7)));
    assert_eq!(parse_ref("images?-3"), Ok(("images".to_string(), -3)));
    assert_eq!(parse_ref("images?+9"), Ok(("images".to_string(), 9)));
}

#[test]
fn reference_failure() {
    assert_eq!(parse_ref("no-separator"), Err(RefError::MissingSeparator));
    assert_eq!(parse_ref("images?abc"), Err(RefError::InvalidId));
    assert_eq!(parse_ref("images?"), Err(RefError::InvalidId));
    assert_eq!(parse_ref("images?-"), Err(RefError::InvalidId));
    assert_eq!(parse_ref("images?4 2"), Err(RefError::InvalidId));
}

#[test]
fn reference_id_bounds() {
    assert_eq!(parse_ref("x?2147483647"), Ok(("x".to_string(), i32::MAX)));
    assert_eq!(parse_ref("x?2147483648"), Err(RefError::InvalidId));
    assert_eq!(parse_ref("x?-2147483648"), Ok(("x".to_string(), i32::MIN)));
    assert_eq!(parse_ref("x?-2147483649"), Err(RefError::InvalidId));
}

#[test]
fn reference_error_messages() {
    assert!(RefError::MissingSeparator.message().contains("separator"));
    assert!(RefError::InvalidId.message().contains("integer"));
}

#[test]
fn numeral_rendering() {
    assert_eq!(u64_to_string(0), "0");
    assert_eq!(u64_to_string(7), "7");
    assert_eq!(u64_to_string(10), "10");
    assert_eq!(u64_to_string(4096), "4096");
    assert_eq!(u64_to_string(u64::MAX), "18446744073709551615");
    assert_eq!(i64_to_string(0), "0");
    assert_eq!(i64_to_string(-1), "-1");
    assert_eq!(i64_to_string(-2147483649), "-2147483649");
}

#[test]
fn numeral_parsing() {
    assert_eq!(parse_i32("0"), Ok(0));
    assert_eq!(parse_i32("-0"), Ok(0));
    assert_eq!(parse_i32("+0"), Ok(0));
    assert_eq!(parse_i32("42"), Ok(42));
    assert_eq!(parse_i32(""), Err(()));
    assert_eq!(parse_i32("+"), Err(()));
    assert_eq!(parse_i32("4e2"), Err(()));
}

#[test]
fn counter_monotonicity() {
    let mut c = GalleryCounter::new();
    assert_eq!(c.count, 0);
    let mut urls: Vec<String> = Vec::new();
    for i in 1..=5u32 {
        let url = c.next_image_url();
        assert_eq!(url, format!("https://picsum.photos/800/800?{}", i));
        assert_eq!(c.count, i);
        assert!(!urls.contains(&url));
        urls.push(url);
    }
}

#[test]
fn item_embeds_fresh_url() {
    let mut c = GalleryCounter::new();
    let item = image_item(&mut c);
    assert_eq!(c.count, 1);
    assert!(item.contains("hx-get=\"/modal/open?url=https://picsum.photos/800/800?1\""));
    assert!(item.contains("src=\"https://picsum.photos/800/800?1\""));
    let item2 = image_item(&mut c);
    assert!(item2.contains("src=\"https://picsum.photos/800/800?2\""));
}

#[test]
fn indicator_markup() {
    let html = indicator();
    assert_eq!(count_occ(&html, "animate-bounce"), 3);
    assert!(html.starts_with("<div class=\"indicator"));
}

#[test]
fn list_cardinality() {
    let mut c = GalleryCounter::new();
    let html = image_list(&mut c);
    assert_eq!(count_occ(&html, "<img"), 16);
    assert_eq!(count_occ(&html, "indicator-container"), 1);
    assert_eq!(count_occ(&html, "hx-get=\"/more\""), 1);
    assert_eq!(c.count, 16);
    // a second rendering yields sixteen more, with fresh urls
    let html2 = image_list(&mut c);
    assert_eq!(count_occ(&html2, "<img"), 16);
    assert_eq!(count_occ(&html2, "indicator-container"), 1);
    assert_eq!(c.count, 32);
    assert!(html.contains("800/800?16\""));
    assert!(html2.contains("800/800?17\""));
    assert!(html2.contains("800/800?32\""));
    assert!(!html2.contains("800/800?16\""));
}

#[test]
fn app_shell() {
    let mut c = GalleryCounter::new();
    let html = app(&mut c);
    assert!(html.starts_with("<head>"));
    assert!(html.contains("<title>HTMX Infinite Scroll Gallery</title>"));
    assert!(html.contains("href=\"/static/output.css\""));
    assert!(html.contains("<ul id=\"images\""));
    assert!(html.contains("htmx.org"));
    assert_eq!(count_occ(&html, "<img"), 16);
    assert_eq!(c.count, 16);
}

#[test]
fn modal_navigation() {
    let html = modal("images?5", None).unwrap();
    assert!(html.contains("hx-get=\"/modal/open?dir=left&url=images?4\""));
    assert!(html.contains("hx-get=\"/modal/open?dir=right&url=images?6\""));
    assert!(html.contains("id=\"modal-content\""));
    assert!(!html.contains("id=\"modal-content-"));
    assert!(html.contains("src=\"images?5\""));
}

#[test]
fn modal_direction_variants() {
    let html = modal("images?10", Some(Direction::Left)).unwrap();
    assert!(html.contains("id=\"modal-content-left\""));
    assert!(html.contains("src=\"images?10\""));
    let html = modal("images?10", Some(Direction::Right)).unwrap();
    assert!(html.contains("id=\"modal-content-right\""));
}

#[test]
fn modal_open_request() {
    let html = modal_response("images?10", Some("left")).unwrap();
    assert!(html.contains("id=\"modal-content-left\""));
    assert!(html.contains("src=\"images?10\""));
    assert!(html.contains("url=images?9\""));
    assert!(html.contains("url=images?11\""));
}

#[test]
fn modal_missing_url() {
    // an absent url parameter arrives as the empty string and is rejected
    assert_eq!(modal_response("", None), Err(RefError::MissingSeparator));
}

#[test]
fn modal_bad_reference() {
    assert_eq!(modal_response("images?abc", Some("left")), Err(RefError::InvalidId));
    assert_eq!(modal_response("no-separator", Some("up")), Err(RefError::MissingSeparator));
}

#[test]
fn modal_at_id_bounds() {
    // navigation targets are computed without wrapping, one step past the
    // id range; such a target is then rejected when it comes back
    let html = modal("x?2147483647", None).unwrap();
    assert!(html.contains("url=x?2147483648\""));
    let html = modal("x?-2147483648", None).unwrap();
    assert!(html.contains("url=x?-2147483649\""));
}
