//! The manga endpoint: the pages of one chapter.

use vstd::prelude::*;
use vstd::string::StringExecFns;

use crate::digits::{dec_str, u64_to_string};
use crate::params::{encode_params, param, param_u64, params_view, Param};
use crate::request::{api_url, make_request, Request};
use crate::Proxer;

verus! {

/// One chapter of a manga, with its pages in order.
#[derive(Debug, Clone, PartialEq)]
pub struct Chapter {
    /// The id of the chapter.
    pub cid: u64,
    /// The id of the entry.
    pub eid: u64,
    /// The title of the chapter.
    pub title: String,
    /// The id of the uploader.
    pub uploader: u64,
    /// The name of the uploader.
    pub username: String,
    /// When the chapter was uploaded, as a Unix timestamp.
    pub timestamp: i64,
    /// The id of the assigned scan group, zero when none.
    pub tid: u64,
    /// The name of the assigned scan group, empty when none.
    pub tname: String,
    /// The server that hosts the pages.
    pub server: u32,
    /// The pages in order; each page carries its file name key, height and
    /// width.
    pub pages: Vec<Vec<(i32, i32, i32)>>,
}

impl Chapter {
    /// The link under which the chapter's pages live: append a page's file
    /// name to address one page.
    pub fn get_chapter_link(&self) -> (r: String)
        ensures
            r@ == "https://manga"@ + dec_str(self.server as nat) + ".proxer.me/f/"@ + dec_str(
                self.eid as nat,
            ) + "/"@ + dec_str(self.cid as nat) + "/"@,
    {
        let mut s = String::from_str("https://manga");
        s.append(u64_to_string(self.server as u64).as_str());
        s.append(".proxer.me/f/");
        s.append(u64_to_string(self.eid).as_str());
        s.append("/");
        s.append(u64_to_string(self.cid).as_str());
        s.append("/");
        proof {
            assert(s@ =~= "https://manga"@ + dec_str(self.server as nat) + ".proxer.me/f/"@
                + dec_str(self.eid as nat) + "/"@ + dec_str(self.cid as nat) + "/"@);
        }
        s
    }
}

/// The manga resource class: builds the requests of its endpoints.
pub struct Manga<'manga> {
    /// The session the requests belong to.
    pub proxer: &'manga Proxer,
}

impl<'manga> Manga<'manga> {
    /// Binds the endpoints to a session.
    pub fn new(p_proxer: &'manga Proxer) -> (r: Manga<'manga>)
        ensures
            r.proxer == p_proxer,
    {
        Manga { proxer: p_proxer }
    }

    /// The request for one chapter of an entry in a given language.
    pub fn get_chapter(&self, p_id: u64, p_episode: u64, p_language: &str) -> (r: Request)
        ensures
            r.url@ == api_url("manga"@, "chapter"@),
            r.body@ == encode_params(
                seq![
                    ("api_key"@, Some(self.proxer.api_key@)),
                    ("id"@, Some(dec_str(p_id as nat))),
                    ("episode"@, Some(dec_str(p_episode as nat))),
                    ("language"@, Some(p_language@)),
                ],
            ),
    {
        let mut params: Vec<Param> = Vec::new();
        params.push(param("api_key", self.proxer.api_key.clone()));
        params.push(param_u64("id", p_id));
        params.push(param_u64("episode", p_episode));
        params.push(param("language", p_language.to_owned()));
        proof {
            assert(params_view(params@) =~= seq![
                ("api_key"@, Some(self.proxer.api_key@)),
                ("id"@, Some(dec_str(p_id as nat))),
                ("episode"@, Some(dec_str(p_episode as nat))),
                ("language"@, Some(p_language@)),
            ]);
        }
        make_request("manga", "chapter", &params)
    }
}

} // verus!
