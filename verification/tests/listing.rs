use gallog_cleaner::error::{Error, Missing};
use gallog_cleaner::html::Element;
use gallog_cleaner::http::{Body, Method};
use gallog_cleaner::listing::{galleries_from, posts_from, GalleryInfo, Scraper};

fn element(attr: Option<&str>, text: &[&str]) -> Element {
    Element {
        attrs: vec![attr.map(|a| a.to_string())],
        text: text.iter().map(|t| t.to_string()).collect(),
    }
}

#[test]
fn get_posts_reads_the_identifier_of_every_item_in_page_order() {
    let page = "<html><body><ul class=\"cont_listbox\">\
        <li data-no=\"101\">a</li><li data-no=\"77\">b</li><li>none</li><li data-no=\"\">c</li>\
        </ul><ul><li data-no=\"999\">elsewhere</li></ul></body></html>";
    assert_eq!(
        Scraper::get_posts(page),
        Ok(vec!["101".to_string(), "77".to_string(), "".to_string()])
    );
}

#[test]
fn get_posts_of_a_page_without_items_is_empty() {
    assert_eq!(Scraper::get_posts("<html><body><p>nothing</p></body></html>"), Ok(Vec::new()));
    assert_eq!(Scraper::get_posts(""), Ok(Vec::new()));
}

#[test]
fn get_galleries_skips_empty_ids_and_trims_names() {
    let page = "<div class=\"option_sort gallog\"><div><ul>\
        <li data-value=\"\">전체</li>\
        <li data-value=\"prog\">\n  프로그래밍  </li>\
        <li data-value=\"game\">게임<b>!</b></li>\
        <li>none</li>\
        <li data-value=\"prog\">again</li>\
        </ul></div></div>";
    assert_eq!(
        Scraper::get_galleries(page),
        Ok(vec![
            GalleryInfo { id: "prog".to_string(), name: "프로그래밍".to_string() },
            GalleryInfo { id: "game".to_string(), name: "게임!".to_string() },
            GalleryInfo { id: "prog".to_string(), name: "again".to_string() },
        ])
    );
}

#[test]
fn get_galleries_wants_the_whole_structure() {
    let page = "<div class=\"option_sort\"><div><ul><li data-value=\"a\">A</li></ul></div></div>";
    assert_eq!(Scraper::get_galleries(page), Ok(Vec::new()));
}

#[test]
fn posts_from_takes_the_first_attribute_where_present() {
    let items = vec![
        element(Some("5"), &[]),
        element(None, &["x"]),
        Element { attrs: Vec::new(), text: Vec::new() },
        element(Some("6"), &[]),
    ];
    assert_eq!(posts_from(&items), vec!["5".to_string(), "6".to_string()]);
    assert_eq!(posts_from(&Vec::new()), Vec::<String>::new());
}

#[test]
fn galleries_from_joins_and_trims_the_text() {
    let entries = vec![
        element(Some("g1"), &[" 첫", "째 "]),
        element(Some(""), &["skipped"]),
        element(None, &["skipped"]),
        element(Some("g2"), &[]),
    ];
    assert_eq!(
        galleries_from(&entries),
        vec![
            GalleryInfo { id: "g1".to_string(), name: "첫째".to_string() },
            GalleryInfo { id: "g2".to_string(), name: "".to_string() },
        ]
    );
}

#[test]
fn posts_request_builds_the_listing_address() {
    let plain = Scraper::posts_request("me", "posting", None, 1);
    assert_eq!(plain.method, Method::Get);
    assert_eq!(plain.url, "https://gallog.dcinside.com/me/posting/index?p=1");
    assert!(plain.headers.is_empty());
    assert_eq!(plain.body, Body::Empty);
    let scoped = Scraper::posts_request("me", "comment", Some("prog"), 100);
    assert_eq!(scoped.url, "https://gallog.dcinside.com/me/comment/index?cno=prog&p=100");
}

#[test]
fn galleries_request_asks_for_the_profile_page() {
    let request = Scraper::galleries_request("me", "posting");
    assert_eq!(request.method, Method::Get);
    assert_eq!(request.url, "https://gallog.dcinside.com/me/posting");
    assert_eq!(request.body, Body::Empty);
}

#[test]
fn parse_errors_are_not_raised_for_the_fixed_selectors() {
    assert_ne!(Scraper::get_posts("<li>"), Err(Error::Parse(Missing::Selector)));
    assert_ne!(Scraper::get_galleries("<li>"), Err(Error::Parse(Missing::Selector)));
}
