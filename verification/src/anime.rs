//! The anime endpoints: the streams of an episode and the link of one
//! stream.

use vstd::prelude::*;

use crate::digits::dec_str;
use crate::models::Language;
use crate::params::{encode_params, param, param_u64, params_view, Param};
use crate::request::{api_url, make_request, Request};
use crate::Proxer;

verus! {

/// One stream of an episode, without the site's own player.
#[derive(Debug, Clone, PartialEq)]
pub struct Stream {
    /// The id of the stream.
    pub id: u64,
    /// The hoster the stream lives on.
    pub host_type: String,
    /// The hoster's display name.
    pub name: String,
    /// The hoster's display image.
    pub img: String,
    /// The id of the uploader.
    pub uploader: u64,
    /// The name of the uploader.
    pub username: String,
    /// When the stream was linked, as a Unix timestamp.
    pub timestamp: i64,
    /// The id of the assigned subtitle group, zero when none.
    pub tid: u64,
    /// The name of the assigned subtitle group, empty when none.
    pub tname: String,
    /// How the hoster embeds (iframe, embed, js, code, link).
    pub htype: String,
}

/// One stream of an episode, including the site's own player.
#[derive(Debug, Clone, PartialEq)]
pub struct ProxerStream {
    /// The id of the stream.
    pub id: u64,
    /// The hoster the stream lives on.
    pub host_type: String,
    /// The hoster's display name.
    pub name: String,
    /// The hoster's display image.
    pub img: String,
    /// The id of the uploader.
    pub uploader: u64,
    /// The name of the uploader.
    pub username: String,
    /// When the stream was linked, as a Unix timestamp.
    pub timestamp: i64,
    /// The id of the assigned subtitle group, empty when none.
    pub tid: String,
    /// The name of the assigned subtitle group, empty when none.
    pub tname: String,
    /// How the hoster embeds (iframe, embed, js, code, link).
    pub htype: String,
}

/// The anime resource class: builds the requests of its endpoints.
pub struct Anime<'a> {
    /// The session the requests belong to.
    pub proxer: &'a Proxer,
}

impl<'a> Anime<'a> {
    /// Binds the endpoints to a session.
    pub fn new(proxer: &'a Proxer) -> (r: Anime<'a>)
        ensures
            r.proxer == proxer,
    {
        Anime { proxer }
    }

    /// The request for the streams of one episode, without the site's own
    /// player.
    pub fn get_streams(&self, id: u64, episode: u64, language: Language) -> (r: Request)
        ensures
            r.url@ == api_url("anime"@, "streams"@),
            r.body@ == encode_params(
                seq![
                    ("id"@, Some(dec_str(id as nat))),
                    ("episode"@, Some(dec_str(episode as nat))),
                    ("language"@, Some(language.spec_param())),
                ],
            ),
    {
        let mut params: Vec<Param> = Vec::new();
        params.push(param_u64("id", id));
        params.push(param_u64("episode", episode));
        params.push(param("language", language.to_param()));
        proof {
            assert(params_view(params@) =~= seq![
                ("id"@, Some(dec_str(id as nat))),
                ("episode"@, Some(dec_str(episode as nat))),
                ("language"@, Some(language.spec_param())),
            ]);
        }
        make_request("anime", "streams", &params)
    }

    /// The request for the streams of one episode, including the site's
    /// own player.
    pub fn get_proxerstreams(&self, id: u64, episode: u64, language: Language) -> (r: Request)
        ensures
            r.url@ == api_url("anime"@, "proxerstreams"@),
            r.body@ == encode_params(
                seq![
                    ("id"@, Some(dec_str(id as nat))),
                    ("episode"@, Some(dec_str(episode as nat))),
                    ("language"@, Some(language.spec_param())),
                ],
            ),
    {
        let mut params: Vec<Param> = Vec::new();
        params.push(param_u64("id", id));
        params.push(param_u64("episode", episode));
        params.push(param("language", language.to_param()));
        proof {
            assert(params_view(params@) =~= seq![
                ("id"@, Some(dec_str(id as nat))),
                ("episode"@, Some(dec_str(episode as nat))),
                ("language"@, Some(language.spec_param())),
            ]);
        }
        make_request("anime", "proxerstreams", &params)
    }

    /// The request for the link of one stream; fetching it counts a view.
    pub fn get_link(&self, id: u64) -> (r: Request)
        ensures
            r.url@ == api_url("anime"@, "link"@),
            r.body@ == encode_params(seq![("id"@, Some(dec_str(id as nat)))]),
    {
        let mut params: Vec<Param> = Vec::new();
        params.push(param_u64("id", id));
        proof {
            assert(params_view(params@) =~= seq![("id"@, Some(dec_str(id as nat)))]);
        }
        make_request("anime", "link", &params)
    }
}

} // verus!
