//! Tests of the endpoint request builders.

use proxer_rs::anime::Anime;
use proxer_rs::info::Info;
use proxer_rs::list::List;
use proxer_rs::manga::Manga;
use proxer_rs::media::Media;
use proxer_rs::messenger::Messenger;
use proxer_rs::models::{ConferenceOption, Kategorie, Language, Medium, SearchSort, Sort,
    WatchType};
use proxer_rs::notification::Notification;
use proxer_rs::request::build_url;
use proxer_rs::ucp::Ucp;
use proxer_rs::user::{Login, User};
use proxer_rs::{news_url, Proxer};

fn session() -> Proxer {
    Proxer::new("KEY").unwrap()
}

#[test]
fn url_is_base_version_class_function() {
    assert_eq!(build_url("anime", "streams"), "https://proxer.me/api/v1/anime/streams");
    assert_eq!(build_url("user", "login"), "https://proxer.me/api/v1/user/login");
}

#[test]
fn news_url_is_fixed() {
    assert_eq!(news_url(), "http://proxer.me/notifications?format=json&s=news&p=1");
}

#[test]
fn anime_streams_request() {
    let proxer = session();
    let anime = Anime::new(&proxer);
    let request = anime.get_streams(5, 2, Language::GerSub);
    assert_eq!(request.url, "https://proxer.me/api/v1/anime/streams");
    assert_eq!(request.body, "id=5&episode=2&language=gersub");
}

#[test]
fn anime_link_request() {
    let proxer = session();
    let anime = Anime::new(&proxer);
    let request = anime.get_link(3168);
    assert_eq!(request.url, "https://proxer.me/api/v1/anime/link");
    assert_eq!(request.body, "id=3168");
}

#[test]
fn info_entry_request_carries_api_key() {
    let proxer = session();
    let info = Info::new(&proxer);
    let request = info.get_entry(42);
    assert_eq!(request.url, "https://proxer.me/api/v1/info/entry");
    assert_eq!(request.body, "api_key=KEY&id=42");
}

#[test]
fn info_listinfo_request_skips_absent_pages() {
    let proxer = session();
    let info = Info::new(&proxer);
    let request = info.get_listinfo(42, None, None);
    assert_eq!(request.body, "api_key=KEY&id=42");
    let paged = info.get_listinfo(42, Some(0), Some(50));
    assert_eq!(paged.body, "api_key=KEY&id=42&p=0&limit=50");
}

#[test]
fn info_comments_request_renders_sort() {
    let proxer = session();
    let info = Info::new(&proxer);
    let request = info.get_comments(42, Some(1), None, Some(Sort::NameASC));
    assert_eq!(request.url, "https://proxer.me/api/v1/info/comments");
    assert_eq!(request.body, "api_key=KEY&id=42&p=1&sort=nameASC");
}

#[test]
fn info_set_userinfo_request() {
    let proxer = session();
    let info = Info::new(&proxer);
    let request = info.set_userinfo(42, WatchType::Favor);
    assert_eq!(request.url, "https://proxer.me/api/v1/info/setuserinfo");
    assert_eq!(request.body, "api_key=KEY&id=42&type=favor");
}

#[test]
fn list_entry_search_request() {
    let proxer = session();
    let list = List::new(&proxer);
    let request = list.entry_search(
        Some("Mushishi".to_string()),
        None,
        Some(Medium::Animeseries),
        None,
        None,
        None,
        Some(SearchSort::Clicks),
        Some(26),
        None,
        None,
        None,
        None,
        None,
        Some(0),
        Some(100),
    );
    assert_eq!(request.url, "https://proxer.me/api/v1/list/entrysearch");
    assert_eq!(
        request.body,
        "name=Mushishi&type=animeseries&sort=clicks&length=26&p=0&limit=100"
    );
}

#[test]
fn list_entrylist_request() {
    let proxer = session();
    let list = List::new(&proxer);
    let request = list.get_entrylist(
        Some(Kategorie::Manga),
        None,
        Some(false),
        Some("A".to_string()),
        None,
        None,
    );
    assert_eq!(request.url, "https://proxer.me/api/v1/list/entrylist");
    assert_eq!(request.body, "kat=manga&isH=false&start=A");
}

#[test]
fn list_group_projects_request_renders_negative_flag() {
    let proxer = session();
    let list = List::new(&proxer);
    let request = list.get_translatorgroups_projects(11, None, Some(-1), None, None);
    assert_eq!(request.url, "https://proxer.me/api/v1/list/translatorgroupprojects");
    assert_eq!(request.body, "id=11&isH=-1");
}

#[test]
fn manga_chapter_request() {
    let proxer = session();
    let manga = Manga::new(&proxer);
    let request = manga.get_chapter(7, 1, "de");
    assert_eq!(request.url, "https://proxer.me/api/v1/manga/chapter");
    assert_eq!(request.body, "api_key=KEY&id=7&episode=1&language=de");
}

#[test]
fn media_requests() {
    let proxer = session();
    let media = Media::new(&proxer);
    let random = media.get_randomheader(Some("gray".to_string()));
    assert_eq!(random.url, "https://proxer.me/api/v1/media/randomheader");
    assert_eq!(random.body, "style=gray");
    let headers = media.get_headerlist();
    assert_eq!(headers.url, "https://proxer.me/api/v1/media/headerlist");
    assert_eq!(headers.body, "");
}

#[test]
fn messenger_requests() {
    let proxer = session();
    let messenger = Messenger::new(&proxer);
    let conferences = messenger.get_conferences(Some(ConferenceOption::Favour), Some(2));
    assert_eq!(conferences.url, "https://proxer.me/api/v1/messenger/conferences");
    assert_eq!(conferences.body, "type=favor&p=2");
    let messages = messenger.get_messages(None, Some(9), Some(false));
    assert_eq!(messages.body, "message=9&read=false");
    let read = messenger.set_read(4);
    assert_eq!(read.url, "https://proxer.me/api/v1/messenger/setread");
    assert_eq!(read.body, "conference_id=4");
    let report = messenger.report("spam".to_string(), 4);
    assert_eq!(report.body, "text=spam&conference_id=4");
    let constants = messenger.get_constants();
    assert_eq!(constants.body, "");
}

#[test]
fn notification_requests() {
    let proxer = session();
    let notification = Notification::new(&proxer);
    let count = notification.get_count();
    assert_eq!(count.url, "https://proxer.me/api/v1/notifications/count");
    assert_eq!(count.body, "api_key=KEY");
    let news = notification.get_news_per_api(Some(0), Some(15));
    assert_eq!(news.body, "api_key=KEY&p=0&limit=15");
    let delete_all = notification.delete_notification(None);
    assert_eq!(delete_all.url, "https://proxer.me/api/v1/notifications/delete");
    assert_eq!(delete_all.body, "api_key=KEY");
}

#[test]
fn ucp_requests() {
    let proxer = session();
    let ucp = Ucp::new(&proxer);
    let list = ucp.get_list(Some(Kategorie::Anime), Some(0), Some(100), None, None,
        Some(Sort::StateNameASC));
    assert_eq!(list.url, "https://proxer.me/api/v1/ucp/list");
    assert_eq!(list.body, "kat=anime&p=0&limit=100&sort=stateNameASC");
    let topten = ucp.get_topten();
    assert_eq!(topten.body, "");
    let set = ucp.set_commentstate(12, 24);
    assert_eq!(set.url, "https://proxer.me/api/v1/ucp/setcommentstate");
    assert_eq!(set.body, "id=12&value=24");
    let delete = ucp.delte_vote(8);
    assert_eq!(delete.url, "https://proxer.me/api/v1/ucp/deletevote");
    assert_eq!(delete.body, "id=8");
}

#[test]
fn user_requests() {
    let proxer = session();
    let login_request = User::login(&proxer, "name", "secret");
    assert_eq!(login_request.url, "https://proxer.me/api/v1/user/login");
    assert_eq!(login_request.body, "username=name&password=secret");
    let login = Login { uid: 12, avatar: "a.jpg".to_string(), token: "tok".to_string() };
    let user = User::new(&proxer, login);
    assert_eq!(user.uid, 12);
    let info = user.get_userinfo();
    assert_eq!(info.body, "uid=12");
    let topten = user.get_topten(99, Some(Kategorie::Manga));
    assert_eq!(topten.body, "uid=99&kat=manga");
    let comments = user.get_latestcomments(None, None, Some(25), Some(300));
    assert_eq!(comments.body, "uid=12&limit=25&length=300");
    let logout = user.logout();
    assert_eq!(logout.url, "https://proxer.me/api/v1/user/logout");
    assert_eq!(logout.body, "");
}
