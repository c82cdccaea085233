//! The notification endpoints: counts, news pages and deletion.

use vstd::prelude::*;

use crate::digits::dec_str;
use crate::params::{encode_params, opt_map_view, param, param_opt_u64, params_view, Param};
use crate::request::{api_url, make_request, Request};
use crate::Proxer;

verus! {

/// One news item.
#[derive(Debug, Clone, PartialEq)]
pub struct News {
    /// The id of the news item.
    pub nid: u64,
    /// When the news item was published, as a Unix timestamp.
    pub time: i64,
    /// The id of the forum post of the news item.
    pub mid: u64,
    /// The description of the news item.
    pub description: String,
    /// The id of the image.
    pub image_id: String,
    /// Style directives positioning the image.
    pub image_style: String,
    /// The title of the forum post.
    pub subject: String,
    /// How often the forum post was opened.
    pub hits: u64,
    /// The id of the thread.
    pub thread: u64,
    /// The user id of the author.
    pub uid: u64,
    /// The name of the author.
    pub uname: String,
    /// The number of replies to the news item.
    pub posts: u64,
    /// The id of the category the news item is filed under.
    pub catid: u64,
    /// The name of that category.
    pub catname: String,
}

/// The notification resource class: builds the requests of its endpoints.
pub struct Notification<'notification> {
    /// The session the requests belong to.
    pub proxer: &'notification Proxer,
}

impl<'notification> Notification<'notification> {
    /// Binds the endpoints to a session.
    pub fn new(p_proxer: &'notification Proxer) -> (r: Notification<'notification>)
        ensures
            r.proxer == p_proxer,
    {
        Notification { proxer: p_proxer }
    }

    /// The request for the unread counts of each notification category.
    pub fn get_count(&self) -> (r: Request)
        ensures
            r.url@ == api_url("notifications"@, "count"@),
            r.body@ == encode_params(seq![("api_key"@, Some(self.proxer.api_key@))]),
    {
        let mut params: Vec<Param> = Vec::new();
        params.push(param("api_key", self.proxer.api_key.clone()));
        proof {
            assert(params_view(params@) =~= seq![("api_key"@, Some(self.proxer.api_key@))]);
        }
        make_request("notifications", "count", &params)
    }

    /// The request for one page of the news, the newest first.
    pub fn get_news_per_api(&self, p_page: Option<u64>, p_limit: Option<u64>) -> (r: Request)
        ensures
            r.url@ == api_url("notifications"@, "news"@),
            r.body@ == encode_params(
                seq![
                    ("api_key"@, Some(self.proxer.api_key@)),
                    ("p"@, opt_map_view(p_page, |v: u64| dec_str(v as nat))),
                    ("limit"@, opt_map_view(p_limit, |v: u64| dec_str(v as nat))),
                ],
            ),
    {
        let mut params: Vec<Param> = Vec::new();
        params.push(param("api_key", self.proxer.api_key.clone()));
        params.push(param_opt_u64("p", p_page));
        params.push(param_opt_u64("limit", p_limit));
        proof {
            assert(params_view(params@) =~= seq![
                ("api_key"@, Some(self.proxer.api_key@)),
                ("p"@, opt_map_view(p_page, |v: u64| dec_str(v as nat))),
                ("limit"@, opt_map_view(p_limit, |v: u64| dec_str(v as nat))),
            ]);
        }
        make_request("notifications", "news", &params)
    }

    /// The request that deletes one notification, or, when no id is given,
    /// every notification already marked read.
    pub fn delete_notification(&self, p_nid: Option<u64>) -> (r: Request)
        ensures
            r.url@ == api_url("notifications"@, "delete"@),
            r.body@ == encode_params(
                seq![
                    ("api_key"@, Some(self.proxer.api_key@)),
                    ("nid"@, opt_map_view(p_nid, |v: u64| dec_str(v as nat))),
                ],
            ),
    {
        let mut params: Vec<Param> = Vec::new();
        params.push(param("api_key", self.proxer.api_key.clone()));
        params.push(param_opt_u64("nid", p_nid));
        proof {
            assert(params_view(params@) =~= seq![
                ("api_key"@, Some(self.proxer.api_key@)),
                ("nid"@, opt_map_view(p_nid, |v: u64| dec_str(v as nat))),
            ]);
        }
        make_request("notifications", "delete", &params)
    }
}

} // verus!
