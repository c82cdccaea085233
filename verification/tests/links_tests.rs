//! Tests of the resource-link builders and the number rendering they rest
//! on.

use proxer_rs::digits::{bool_to_string, i64_to_string, u64_to_string};
use proxer_rs::info::Industry;
use proxer_rs::manga::Chapter;
use proxer_rs::media::{HeaderList, RandomHeader};
use proxer_rs::models::Firma;
use proxer_rs::OldNotification;

#[test]
fn u64_rendering() {
    assert_eq!(u64_to_string(0), "0");
    assert_eq!(u64_to_string(5), "5");
    assert_eq!(u64_to_string(10), "10");
    assert_eq!(u64_to_string(12345), "12345");
    assert_eq!(u64_to_string(u64::MAX), "18446744073709551615");
}

#[test]
fn i64_rendering() {
    assert_eq!(i64_to_string(0), "0");
    assert_eq!(i64_to_string(42), "42");
    assert_eq!(i64_to_string(-1), "-1");
    assert_eq!(i64_to_string(-128), "-128");
    assert_eq!(i64_to_string(i64::MIN), "-9223372036854775808");
}

#[test]
fn bool_rendering() {
    assert_eq!(bool_to_string(true), "true");
    assert_eq!(bool_to_string(false), "false");
}

#[test]
fn old_notification_links() {
    let item = OldNotification {
        nid: 4162,
        time: 1485000000,
        description: "d".to_string(),
        image_id: 317253,
        image_style: String::new(),
        subject: "s".to_string(),
        hits: 1,
        thread: 388846,
        uid: 2,
        uname: "u".to_string(),
        posts: 3,
        catid: 63,
        catname: "c".to_string(),
    };
    assert_eq!(item.get_image(), "http://cdn.proxer.me/news/4162_317253.png");
    assert_eq!(item.get_news_link(), "http://proxer.me/forum/63/388846");
}

#[test]
fn industry_cover_link() {
    let industry = Industry {
        id: 215,
        industry_type: Firma::Studio,
        name: "n".to_string(),
        country: "jp".to_string(),
        link: String::new(),
        description: String::new(),
    };
    assert_eq!(industry.get_industry_cover(), "https://cdn.proxer.me/industry/215.jpg");
}

#[test]
fn chapter_link_points_at_page_directory() {
    let chapter = Chapter {
        cid: 391,
        eid: 7834,
        title: "t".to_string(),
        uploader: 1,
        username: "u".to_string(),
        timestamp: 1485000000,
        tid: 0,
        tname: String::new(),
        server: 2,
        pages: Vec::new(),
    };
    assert_eq!(chapter.get_chapter_link(), "https://manga2.proxer.me/f/7834/391/");
}

#[test]
fn header_picture_links() {
    let random = RandomHeader {
        gid: 1,
        catpath: "header/natsu".to_string(),
        imgfilename: "z.jpg".to_string(),
    };
    assert_eq!(
        random.get_picture_link(),
        "https://cdn.proxer.me/gallery/originals/header/natsu/z.jpg"
    );
    let listed = HeaderList {
        gid: 2,
        catpath: "header/fuyu".to_string(),
        imgfilename: "y.png".to_string(),
    };
    assert_eq!(
        listed.get_picture_link(),
        "https://cdn.proxer.me/gallery/originals/header/fuyu/y.png"
    );
}
