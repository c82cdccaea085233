//! The user endpoints: login and logout, and the public data, top ten,
//! entry lists and comments of a user.

use vstd::prelude::*;

use crate::digits::dec_str;
use crate::models::{Kategorie, Medium, Sort};
use crate::params::{encode_params, opt_map_view, opt_view, param, param_opt, param_opt_u64,
    param_u64, params_view, Param};
use crate::request::{api_url, make_request, Request};
use crate::Proxer;

verus! {

/// The payload of a successful login.
#[derive(Debug, Clone, PartialEq)]
pub struct Login {
    /// The id of the logged-in user.
    pub uid: u64,
    /// The avatar of the logged-in user.
    pub avatar: String,
    /// The login token; sending it with later calls replaces the
    /// cookie-based login.
    pub token: String,
}

/// The envelope of a logout call.
#[derive(Debug, Clone, PartialEq)]
pub struct Logout {
    /// `0` on success, `1` when the server reports a failure.
    pub error: u8,
    /// The server's message; empty on success.
    pub message: String,
}

/// The public data of one user.
#[derive(Debug, Clone, PartialEq)]
pub struct UserInfo {
    /// The id of the user.
    pub uid: u64,
    /// The name of the user.
    pub username: String,
    /// The avatar of the user.
    pub avatar: String,
    /// The status line of the user.
    pub status: String,
    /// When the status last changed, as a Unix timestamp.
    pub status_time: i64,
    /// The user's upload points.
    pub points_uploads: u64,
    /// The user's anime points.
    pub points_anime: u64,
    /// The user's manga points.
    pub points_manga: u64,
    /// The user's info points.
    pub points_info: u64,
    /// The user's forum points.
    pub points_forum: u64,
    /// The user's miscellaneous points.
    pub points_misc: u64,
}

/// One entry of a user's top ten.
#[derive(Debug, Clone, PartialEq)]
pub struct TopTen {
    /// The id of the entry.
    pub eid: u64,
    /// The name of the entry.
    pub name: String,
    /// Whether the entry is an anime or a manga.
    pub kat: Kategorie,
    /// The medium of the entry.
    pub medium: Medium,
}

/// One entry of a user's list.
#[derive(Debug, Clone, PartialEq)]
pub struct List {
    /// The id of the entry.
    pub id: u64,
    /// The name of the entry.
    pub name: String,
    /// The number of episodes or chapters, uploaded or not.
    pub count: u64,
    /// The medium of the entry.
    pub medium: String,
    /// The publication state of the entry.
    pub estate: u64,
    /// The id of the user's comment on the entry.
    pub cid: u64,
    /// The text of that comment.
    pub comment: String,
    /// The state of that comment.
    pub state: String,
    /// The episode the comment refers to.
    pub episode: u64,
    /// The data of that comment.
    pub data: String,
    /// The user's rating of the entry, from zero to ten.
    pub rating: i8,
    /// When the comment last changed, as a Unix timestamp.
    pub timestamp: i64,
}

/// One of a user's latest comments.
#[derive(Debug, Clone, PartialEq)]
pub struct LatestComment {
    /// The id of the comment.
    pub id: u64,
    /// The id of the entry.
    pub tid: u64,
    /// The watching state given with the comment.
    pub state: i8,
    /// Extra information stored with the comment.
    pub data: String,
    /// The text of the comment.
    pub comment: String,
    /// The rating given with the comment.
    pub rating: i8,
    /// The episode the author had seen when commenting.
    pub episode: u64,
    /// How many found the comment helpful.
    pub positive: u64,
    /// When the comment was written, as a Unix timestamp.
    pub timestamp: i64,
    /// The name of the author.
    pub username: String,
    /// The user id of the author.
    pub uid: u64,
    /// The avatar of the author.
    pub avatar: String,
}

/// The user resource class: carries the login data captured once at login
/// and builds the requests of its endpoints.
pub struct User<'user> {
    /// The id of the logged-in user.
    pub uid: u64,
    /// The avatar of the logged-in user.
    pub avatar: String,
    /// The login token captured at login.
    pub token: String,
    /// The session the requests belong to.
    pub proxer: &'user Proxer,
}

impl<'user> User<'user> {
    /// Binds a fresh login to a session: the handle carries the id, avatar
    /// and token that the login returned.
    pub fn new(p_proxer: &'user Proxer, p_login: Login) -> (r: User<'user>)
        ensures
            r.uid == p_login.uid,
            r.avatar == p_login.avatar,
            r.token == p_login.token,
            r.proxer == p_proxer,
    {
        User { uid: p_login.uid, avatar: p_login.avatar, token: p_login.token, proxer: p_proxer }
    }

    /// The request that logs a user in by name and password.
    pub fn login(p_proxer: &Proxer, p_username: &str, p_password: &str) -> (r: Request)
        ensures
            r.url@ == api_url("user"@, "login"@),
            r.body@ == encode_params(
                seq![("username"@, Some(p_username@)), ("password"@, Some(p_password@))],
            ),
    {
        let _ = p_proxer;
        let mut params: Vec<Param> = Vec::new();
        params.push(param("username", p_username.to_owned()));
        params.push(param("password", p_password.to_owned()));
        proof {
            assert(params_view(params@) =~= seq![
                ("username"@, Some(p_username@)),
                ("password"@, Some(p_password@)),
            ]);
        }
        make_request("user", "login", &params)
    }

    /// The request that logs the user out; the handle is consumed and must
    /// not be used afterwards.  The endpoint takes no parameters, so the
    /// body is empty.
    pub fn logout(self) -> (r: Request)
        ensures
            r.url@ == api_url("user"@, "logout"@),
            r.body@ == Seq::<char>::empty(),
    {
        let params: Vec<Param> = Vec::new();
        proof {
            assert(params_view(params@) =~= Seq::<(Seq<char>, Option<Seq<char>>)>::empty());
        }
        make_request("user", "logout", &params)
    }

    /// The request for the public data of the logged-in user.
    pub fn get_userinfo(&self) -> (r: Request)
        ensures
            r.url@ == api_url("user"@, "userinfo"@),
            r.body@ == encode_params(seq![("uid"@, Some(dec_str(self.uid as nat)))]),
    {
        let mut params: Vec<Param> = Vec::new();
        params.push(param_u64("uid", self.uid));
        proof {
            assert(params_view(params@) =~= seq![("uid"@, Some(dec_str(self.uid as nat)))]);
        }
        make_request("user", "userinfo", &params)
    }

    /// The request for the top ten of a user.
    pub fn get_topten(&self, p_uid: u64, p_kat: Option<Kategorie>) -> (r: Request)
        ensures
            r.url@ == api_url("user"@, "topten"@),
            r.body@ == encode_params(
                seq![
                    ("uid"@, Some(dec_str(p_uid as nat))),
                    ("kat"@, opt_map_view(p_kat, |k: Kategorie| k.spec_param())),
                ],
            ),
    {
        let kat_s: Option<String> = match p_kat {
            Some(k) => Some(k.to_param()),
            None => None,
        };
        let mut params: Vec<Param> = Vec::new();
        params.push(param_u64("uid", p_uid));
        params.push(param_opt("kat", kat_s));
        proof {
            assert(params_view(params@) =~= seq![
                ("uid"@, Some(dec_str(p_uid as nat))),
                ("kat"@, opt_map_view(p_kat, |k: Kategorie| k.spec_param())),
            ]);
        }
        make_request("user", "topten", &params)
    }

    /// The request for one page of a user's entry list.
    pub fn get_list(
        &self,
        p_uid: u64,
        p_kat: Option<Kategorie>,
        p_page: Option<u64>,
        p_limit: Option<u64>,
        p_search: Option<String>,
        p_search_start: Option<String>,
        p_sort: Option<Sort>,
    ) -> (r: Request)
        ensures
            r.url@ == api_url("user"@, "list"@),
            r.body@ == encode_params(
                seq![
                    ("uid"@, Some(dec_str(p_uid as nat))),
                    ("kat"@, opt_map_view(p_kat, |k: Kategorie| k.spec_param())),
                    ("p"@, opt_map_view(p_page, |v: u64| dec_str(v as nat))),
                    ("limit"@, opt_map_view(p_limit, |v: u64| dec_str(v as nat))),
                    ("search"@, opt_view(p_search)),
                    ("search_start"@, opt_view(p_search_start)),
                    ("sort"@, opt_map_view(p_sort, |s: Sort| s.spec_param())),
                ],
            ),
    {
        let kat_s: Option<String> = match p_kat {
            Some(k) => Some(k.to_param()),
            None => None,
        };
        let sort_s: Option<String> = match p_sort {
            Some(s) => Some(s.to_param()),
            None => None,
        };
        let mut params: Vec<Param> = Vec::new();
        params.push(param_u64("uid", p_uid));
        params.push(param_opt("kat", kat_s));
        params.push(param_opt_u64("p", p_page));
        params.push(param_opt_u64("limit", p_limit));
        params.push(param_opt("search", p_search));
        params.push(param_opt("search_start", p_search_start));
        params.push(param_opt("sort", sort_s));
        proof {
            assert(params_view(params@) =~= seq![
                ("uid"@, Some(dec_str(p_uid as nat))),
                ("kat"@, opt_map_view(p_kat, |k: Kategorie| k.spec_param())),
                ("p"@, opt_map_view(p_page, |v: u64| dec_str(v as nat))),
                ("limit"@, opt_map_view(p_limit, |v: u64| dec_str(v as nat))),
                ("search"@, opt_view(p_search)),
                ("search_start"@, opt_view(p_search_start)),
                ("sort"@, opt_map_view(p_sort, |s: Sort| s.spec_param())),
            ]);
        }
        make_request("user", "list", &params)
    }

    /// The request for one page of the logged-in user's latest comments.
    pub fn get_latestcomments(
        &self,
        p_kat: Option<Kategorie>,
        p_page: Option<u64>,
        p_limit: Option<u64>,
        p_length: Option<u64>,
    ) -> (r: Request)
        ensures
            r.url@ == api_url("user"@, "comments"@),
            r.body@ == encode_params(
                seq![
                    ("uid"@, Some(dec_str(self.uid as nat))),
                    ("kat"@, opt_map_view(p_kat, |k: Kategorie| k.spec_param())),
                    ("p"@, opt_map_view(p_page, |v: u64| dec_str(v as nat))),
                    ("limit"@, opt_map_view(p_limit, |v: u64| dec_str(v as nat))),
                    ("length"@, opt_map_view(p_length, |v: u64| dec_str(v as nat))),
                ],
            ),
    {
        let kat_s: Option<String> = match p_kat {
            Some(k) => Some(k.to_param()),
            None => None,
        };
        let mut params: Vec<Param> = Vec::new();
        params.push(param_u64("uid", self.uid));
        params.push(param_opt("kat", kat_s));
        params.push(param_opt_u64("p", p_page));
        params.push(param_opt_u64("limit", p_limit));
        params.push(param_opt_u64("length", p_length));
        proof {
            assert(params_view(params@) =~= seq![
                ("uid"@, Some(dec_str(self.uid as nat))),
                ("kat"@, opt_map_view(p_kat, |k: Kategorie| k.spec_param())),
                ("p"@, opt_map_view(p_page, |v: u64| dec_str(v as nat))),
                ("limit"@, opt_map_view(p_limit, |v: u64| dec_str(v as nat))),
                ("length"@, opt_map_view(p_length, |v: u64| dec_str(v as nat))),
            ]);
        }
        make_request("user", "comments", &params)
    }
}

} // verus!
