//! Client bindings for the Proxer REST API.
//!
//! Every call against the API follows one pipeline: an endpoint builds a
//! request (a fixed URL path plus a form-encoded parameter body), the
//! transport posts it, the JSON response is decoded into a generic envelope
//! `{error, message, code, data}`, and the envelope is classified into the
//! payload or a typed error.  The request building, the envelope
//! classification and the error-code table are verified; the network
//! transport and the typed payload decoding live outside this crate.

pub mod anime;
pub mod digits;
pub mod envelope;
pub mod error;
pub mod info;
pub mod json;
pub mod list;
pub mod manga;
pub mod media;
pub mod messenger;
pub mod models;
pub mod notification;
pub mod params;
pub mod request;
pub mod ucp;
pub mod user;

use vstd::prelude::*;
use vstd::string::StringExecFns;

use crate::digits::{dec_str, u64_to_string};
use crate::envelope::{check_data, empty_data_text};
use crate::error::Error;

verus! {

/// Session configuration shared by every call: the API key that the
/// transport sends with each request.  Immutable after construction.
pub struct Proxer {
    /// The API key issued for the application.
    pub api_key: String,
}

impl Proxer {
    /// Creates a session configuration holding the given API key.
    pub fn new(p_api_key: &str) -> (r: Result<Proxer, Error>)
        ensures
            r matches Ok(p) && p.api_key@ == p_api_key@,
    {
        Ok(Proxer { api_key: p_api_key.to_owned() })
    }
}

/// The envelope of the legacy news feed.
#[derive(Debug, Clone, PartialEq)]
pub struct OldNews {
    /// `0` on success, `1` when the server reports a failure.
    pub error: u64,
    /// The server's message, when the call failed.
    pub message: Option<String>,
    /// The news items, when the call succeeded.
    pub notifications: Option<Vec<OldNotification>>,
}

/// One news item of the legacy news feed.
#[derive(Debug, Clone, PartialEq)]
pub struct OldNotification {
    /// The id of the news item.
    pub nid: u64,
    /// When the news item was published, as a Unix timestamp.
    pub time: i64,
    /// The description of the news item.
    pub description: String,
    /// The id of the image.
    pub image_id: u64,
    /// Style directives positioning the image.
    pub image_style: String,
    /// The title of the news item.
    pub subject: String,
    /// How often the news item was opened.
    pub hits: u64,
    /// The id of the thread.
    pub thread: u64,
    /// The user id of the author.
    pub uid: u64,
    /// The name of the author.
    pub uname: String,
    /// The number of replies to the news item.
    pub posts: u64,
    /// The id of the category the news item is filed under.
    pub catid: u64,
    /// The name of that category.
    pub catname: String,
}

impl OldNotification {
    /// The link of the news item's thumbnail image.
    pub fn get_image(&self) -> (r: String)
        ensures
            r@ == "http://cdn.proxer.me/news/"@ + dec_str(self.nid as nat) + "_"@ + dec_str(
                self.image_id as nat,
            ) + ".png"@,
    {
        let mut s = String::from_str("http://cdn.proxer.me/news/");
        s.append(u64_to_string(self.nid).as_str());
        s.append("_");
        s.append(u64_to_string(self.image_id).as_str());
        s.append(".png");
        proof {
            assert(s@ =~= "http://cdn.proxer.me/news/"@ + dec_str(self.nid as nat) + "_"@
                + dec_str(self.image_id as nat) + ".png"@);
        }
        s
    }

    /// The link of the forum post behind the news item.
    pub fn get_news_link(&self) -> (r: String)
        ensures
            r@ == "http://proxer.me/forum/"@ + dec_str(self.catid as nat) + "/"@ + dec_str(
                self.thread as nat,
            ),
    {
        let mut s = String::from_str("http://proxer.me/forum/");
        s.append(u64_to_string(self.catid).as_str());
        s.append("/");
        s.append(u64_to_string(self.thread).as_str());
        proof {
            assert(s@ =~= "http://proxer.me/forum/"@ + dec_str(self.catid as nat) + "/"@
                + dec_str(self.thread as nat));
        }
        s
    }
}

/// The fixed URL of the legacy news feed; it always serves the first page.
pub fn news_url() -> (r: String)
    ensures
        r@ == "http://proxer.me/notifications?format=json&s=news&p=1"@,
{
    String::from_str("http://proxer.me/notifications?format=json&s=news&p=1")
}

/// The message of a legacy news envelope, empty when none was sent.
pub open spec fn old_news_message(message: Option<String>) -> Seq<char> {
    match message {
        Option::Some(s) => s@,
        Option::None => Seq::empty(),
    }
}

/// Classifies a legacy news envelope: a reported failure becomes a
/// `ProxerError` carrying code zero and the message, a success yields the
/// news items unchanged, and a success without them is a local failure.
pub fn check_old_news(data: OldNews) -> (r: Result<Vec<OldNotification>, Error>)
    ensures
        data.error == 1 ==> (r matches Err(e) && e matches Error::ProxerError(c, m) && c == 0
            && m@ == old_news_message(data.message)),
        data.error != 1 && data.notifications is Some ==> r is Ok && r->Ok_0
            == data.notifications->Some_0,
        data.error != 1 && data.notifications is None ==> (r matches Err(e) && e matches
            Error::Other(m) && m@ == empty_data_text()),
{
    let message = match data.message {
        Some(s) => s,
        None => String::new(),
    };
    if data.error == 1 {
        return Err(Error::ProxerError(0, message));
    }
    check_data(data.notifications)
}

} // verus!
