//! The user control panel endpoints: the user's lists, history, votes and
//! bookmarks, and the mutations on them.

use vstd::prelude::*;

use crate::digits::dec_str;
use crate::models::{Kategorie, Medium, Sort};
use crate::params::{encode_params, opt_map_view, opt_view, param_opt, param_opt_u64, param_u64,
    params_view, Param};
use crate::request::{api_url, make_request, Request};
use crate::Proxer;

verus! {

/// One entry of the user's history.
#[derive(Debug, Clone, PartialEq)]
pub struct History {
    /// The id of the entry.
    pub eid: u64,
    /// The name of the entry.
    pub name: String,
    /// The language the entry was consumed in.
    pub language: String,
    /// The medium of the entry.
    pub medium: Medium,
    /// Whether the entry is an anime or a manga.
    pub kat: Kategorie,
    /// The episode or chapter number.
    pub episode: u64,
    /// When the episode or chapter was opened.
    pub timestamp: i64,
}

/// One comment vote of the user.
#[derive(Debug, Clone, PartialEq)]
pub struct Vote {
    /// The id of the vote.
    pub id: u64,
    /// The name of the voted entry.
    pub name: String,
    /// The user id of the comment's author.
    pub uid: u64,
    /// The name of the comment's author.
    pub username: String,
    /// The id of the comment.
    pub kid: u64,
    /// The text of the comment.
    pub comment: String,
    /// The rating of the comment.
    pub rating: String,
    /// The kind of the vote.
    pub vote_type: String,
}

/// One bookmark of the user.
#[derive(Debug, Clone, PartialEq)]
pub struct Reminder {
    /// The id of the entry.
    pub eid: u64,
    /// Whether the entry is an anime or a manga.
    pub kat: Kategorie,
    /// The name of the entry.
    pub name: String,
    /// The episode or chapter the bookmark points at.
    pub episode: u64,
    /// The language of the bookmark.
    pub language: String,
    /// The medium of the entry.
    pub medium: Medium,
    /// The id of the bookmark.
    pub id: u64,
    /// The publication state of the entry.
    pub state: String,
}

/// The user control panel resource class: builds the requests of its
/// endpoints.  Every endpoint requires a logged-in user.
pub struct Ucp<'a> {
    /// The session the requests belong to.
    pub proxer: &'a Proxer,
}

impl<'a> Ucp<'a> {
    /// Binds the endpoints to a session.
    pub fn new(proxer: &'a Proxer) -> (r: Ucp<'a>)
        ensures
            r.proxer == proxer,
    {
        Ucp { proxer }
    }

    /// The request of a control panel endpoint that takes only a record
    /// id.
    fn id_request(&self, api_function: &str, id: u64) -> (r: Request)
        ensures
            r.url@ == api_url("ucp"@, api_function@),
            r.body@ == encode_params(seq![("id"@, Some(dec_str(id as nat)))]),
    {
        let mut params: Vec<Param> = Vec::new();
        params.push(param_u64("id", id));
        proof {
            assert(params_view(params@) =~= seq![("id"@, Some(dec_str(id as nat)))]);
        }
        make_request("ucp", api_function, &params)
    }

    /// The request of a control panel endpoint that sets a value on a
    /// record.
    fn id_value_request(&self, api_function: &str, id: u64, value: u64) -> (r: Request)
        ensures
            r.url@ == api_url("ucp"@, api_function@),
            r.body@ == encode_params(
                seq![
                    ("id"@, Some(dec_str(id as nat))),
                    ("value"@, Some(dec_str(value as nat))),
                ],
            ),
    {
        let mut params: Vec<Param> = Vec::new();
        params.push(param_u64("id", id));
        params.push(param_u64("value", value));
        proof {
            assert(params_view(params@) =~= seq![
                ("id"@, Some(dec_str(id as nat))),
                ("value"@, Some(dec_str(value as nat))),
            ]);
        }
        make_request("ucp", api_function, &params)
    }

    /// The request for one page of the user's entry list.
    pub fn get_list(
        &self,
        kat: Option<Kategorie>,
        page: Option<u64>,
        limit: Option<u64>,
        search: Option<String>,
        search_start: Option<String>,
        sort: Option<Sort>,
    ) -> (r: Request)
        ensures
            r.url@ == api_url("ucp"@, "list"@),
            r.body@ == encode_params(
                seq![
                    ("kat"@, opt_map_view(kat, |k: Kategorie| k.spec_param())),
                    ("p"@, opt_map_view(page, |v: u64| dec_str(v as nat))),
                    ("limit"@, opt_map_view(limit, |v: u64| dec_str(v as nat))),
                    ("search"@, opt_view(search)),
                    ("search_start"@, opt_view(search_start)),
                    ("sort"@, opt_map_view(sort, |s: Sort| s.spec_param())),
                ],
            ),
    {
        let kat_s: Option<String> = match kat {
            Some(k) => Some(k.to_param()),
            None => None,
        };
        let sort_s: Option<String> = match sort {
            Some(s) => Some(s.to_param()),
            None => None,
        };
        let mut params: Vec<Param> = Vec::new();
        params.push(param_opt("kat", kat_s));
        params.push(param_opt_u64("p", page));
        params.push(param_opt_u64("limit", limit));
        params.push(param_opt("search", search));
        params.push(param_opt("search_start", search_start));
        params.push(param_opt("sort", sort_s));
        proof {
            assert(params_view(params@) =~= seq![
                ("kat"@, opt_map_view(kat, |k: Kategorie| k.spec_param())),
                ("p"@, opt_map_view(page, |v: u64| dec_str(v as nat))),
                ("limit"@, opt_map_view(limit, |v: u64| dec_str(v as nat))),
                ("search"@, opt_view(search)),
                ("search_start"@, opt_view(search_start)),
                ("sort"@, opt_map_view(sort, |s: Sort| s.spec_param())),
            ]);
        }
        make_request("ucp", "list", &params)
    }

    /// The request for the sum of episodes or chapters the user has seen.
    pub fn get_listsum(&self, kat: Option<Kategorie>) -> (r: Request)
        ensures
            r.url@ == api_url("ucp"@, "listsum"@),
            r.body@ == encode_params(
                seq![("kat"@, opt_map_view(kat, |k: Kategorie| k.spec_param()))],
            ),
    {
        let kat_s: Option<String> = match kat {
            Some(k) => Some(k.to_param()),
            None => None,
        };
        let mut params: Vec<Param> = Vec::new();
        params.push(param_opt("kat", kat_s));
        proof {
            assert(params_view(params@) =~= seq![
                ("kat"@, opt_map_view(kat, |k: Kategorie| k.spec_param())),
            ]);
        }
        make_request("ucp", "listsum", &params)
    }

    /// The request for the user's top ten; it takes no parameters, so its
    /// body is empty.
    pub fn get_topten(&self) -> (r: Request)
        ensures
            r.url@ == api_url("ucp"@, "topten"@),
            r.body@ == Seq::<char>::empty(),
    {
        let params: Vec<Param> = Vec::new();
        proof {
            assert(params_view(params@) =~= Seq::<(Seq<char>, Option<Seq<char>>)>::empty());
        }
        make_request("ucp", "topten", &params)
    }

    /// The request for one page of the user's history.
    pub fn get_history(&self, limit: Option<u64>, page: Option<u64>) -> (r: Request)
        ensures
            r.url@ == api_url("ucp"@, "history"@),
            r.body@ == encode_params(
                seq![
                    ("limit"@, opt_map_view(limit, |v: u64| dec_str(v as nat))),
                    ("p"@, opt_map_view(page, |v: u64| dec_str(v as nat))),
                ],
            ),
    {
        let mut params: Vec<Param> = Vec::new();
        params.push(param_opt_u64("limit", limit));
        params.push(param_opt_u64("p", page));
        proof {
            assert(params_view(params@) =~= seq![
                ("limit"@, opt_map_view(limit, |v: u64| dec_str(v as nat))),
                ("p"@, opt_map_view(page, |v: u64| dec_str(v as nat))),
            ]);
        }
        make_request("ucp", "history", &params)
    }

    /// The request for the user's comment votes; it takes no parameters,
    /// so its body is empty.
    pub fn get_votes(&self) -> (r: Request)
        ensures
            r.url@ == api_url("ucp"@, "votes"@),
            r.body@ == Seq::<char>::empty(),
    {
        let params: Vec<Param> = Vec::new();
        proof {
            assert(params_view(params@) =~= Seq::<(Seq<char>, Option<Seq<char>>)>::empty());
        }
        make_request("ucp", "votes", &params)
    }

    /// The request for one page of the user's bookmarks.
    pub fn get_reminder(&self, kat: Option<Kategorie>, page: Option<u64>, limit: Option<u64>) -> (r:
        Request)
        ensures
            r.url@ == api_url("ucp"@, "reminder"@),
            r.body@ == encode_params(
                seq![
                    ("kat"@, opt_map_view(kat, |k: Kategorie| k.spec_param())),
                    ("p"@, opt_map_view(page, |v: u64| dec_str(v as nat))),
                    ("limit"@, opt_map_view(limit, |v: u64| dec_str(v as nat))),
                ],
            ),
    {
        let kat_s: Option<String> = match kat {
            Some(k) => Some(k.to_param()),
            None => None,
        };
        let mut params: Vec<Param> = Vec::new();
        params.push(param_opt("kat", kat_s));
        params.push(param_opt_u64("p", page));
        params.push(param_opt_u64("limit", limit));
        proof {
            assert(params_view(params@) =~= seq![
                ("kat"@, opt_map_view(kat, |k: Kategorie| k.spec_param())),
                ("p"@, opt_map_view(page, |v: u64| dec_str(v as nat))),
                ("limit"@, opt_map_view(limit, |v: u64| dec_str(v as nat))),
            ]);
        }
        make_request("ucp", "reminder", &params)
    }

    /// The request that deletes one bookmark.
    pub fn delete_reminder(&self, id: u64) -> (r: Request)
        ensures
            r.url@ == api_url("ucp"@, "deletereminder"@),
            r.body@ == encode_params(seq![("id"@, Some(dec_str(id as nat)))]),
    {
        self.id_request("deletereminder", id)
    }

    /// The request that deletes one top-ten entry.
    pub fn delte_favorite(&self, id: u64) -> (r: Request)
        ensures
            r.url@ == api_url("ucp"@, "deletefavorite"@),
            r.body@ == encode_params(seq![("id"@, Some(dec_str(id as nat)))]),
    {
        self.id_request("deletefavorite", id)
    }

    /// The request that deletes one comment vote.
    pub fn delte_vote(&self, id: u64) -> (r: Request)
        ensures
            r.url@ == api_url("ucp"@, "deletevote"@),
            r.body@ == encode_params(seq![("id"@, Some(dec_str(id as nat)))]),
    {
        self.id_request("deletevote", id)
    }

    /// The request that sets how far the user has seen or read one entry
    /// of their list.
    pub fn set_commentstate(&self, id: u64, value: u64) -> (r: Request)
        ensures
            r.url@ == api_url("ucp"@, "setcommentstate"@),
            r.body@ == encode_params(
                seq![
                    ("id"@, Some(dec_str(id as nat))),
                    ("value"@, Some(dec_str(value as nat))),
                ],
            ),
    {
        self.id_value_request("setcommentstate", id, value)
    }

    /// The request that places a bookmark on an episode or chapter.
    pub fn set_reminder(&self, id: u64, value: u64) -> (r: Request)
        ensures
            r.url@ == api_url("ucp"@, "setreminder"@),
            r.body@ == encode_params(
                seq![
                    ("id"@, Some(dec_str(id as nat))),
                    ("value"@, Some(dec_str(value as nat))),
                ],
            ),
    {
        self.id_value_request("setreminder", id, value)
    }
}

} // verus!
