//! The media endpoints: gallery headers.

use vstd::prelude::*;
use vstd::string::StringExecFns;

use crate::params::{encode_params, opt_view, param_opt, params_view, Param};
use crate::request::{api_url, make_request, Request};
use crate::Proxer;

verus! {

/// One randomly chosen gallery header.
#[derive(Debug, Clone, PartialEq)]
pub struct RandomHeader {
    /// The id of the header in the gallery.
    pub gid: u64,
    /// The path of the image inside the gallery.
    pub catpath: String,
    /// The file name of the image.
    pub imgfilename: String,
}

impl RandomHeader {
    /// The link of the header's image.
    pub fn get_picture_link(&self) -> (r: String)
        ensures
            r@ == "https://cdn.proxer.me/gallery/originals/"@ + self.catpath@ + "/"@
                + self.imgfilename@,
    {
        let mut s = String::from_str("https://cdn.proxer.me/gallery/originals/");
        s.append(self.catpath.as_str());
        s.append("/");
        s.append(self.imgfilename.as_str());
        proof {
            assert(s@ =~= "https://cdn.proxer.me/gallery/originals/"@ + self.catpath@ + "/"@
                + self.imgfilename@);
        }
        s
    }
}

/// One entry of the current header list.
#[derive(Debug, Clone, PartialEq)]
pub struct HeaderList {
    /// The id of the header in the gallery.
    pub gid: u64,
    /// The path of the image inside the gallery.
    pub catpath: String,
    /// The file name of the image.
    pub imgfilename: String,
}

impl HeaderList {
    /// The link of the header's image.
    pub fn get_picture_link(&self) -> (r: String)
        ensures
            r@ == "https://cdn.proxer.me/gallery/originals/"@ + self.catpath@ + "/"@
                + self.imgfilename@,
    {
        let mut s = String::from_str("https://cdn.proxer.me/gallery/originals/");
        s.append(self.catpath.as_str());
        s.append("/");
        s.append(self.imgfilename.as_str());
        proof {
            assert(s@ =~= "https://cdn.proxer.me/gallery/originals/"@ + self.catpath@ + "/"@
                + self.imgfilename@);
        }
        s
    }
}

/// The media resource class: builds the requests of its endpoints.
pub struct Media<'media> {
    /// The session the requests belong to.
    pub proxer: &'media Proxer,
}

impl<'media> Media<'media> {
    /// Binds the endpoints to a session.
    pub fn new(p_proxer: &'media Proxer) -> (r: Media<'media>)
        ensures
            r.proxer == p_proxer,
    {
        Media { proxer: p_proxer }
    }

    /// The request for a random header, optionally restricted to a style.
    pub fn get_randomheader(&self, p_style: Option<String>) -> (r: Request)
        ensures
            r.url@ == api_url("media"@, "randomheader"@),
            r.body@ == encode_params(seq![("style"@, opt_view(p_style))]),
    {
        let mut params: Vec<Param> = Vec::new();
        params.push(param_opt("style", p_style));
        proof {
            assert(params_view(params@) =~= seq![("style"@, opt_view(p_style))]);
        }
        make_request("media", "randomheader", &params)
    }

    /// The request for the list of all current headers; it takes no
    /// parameters, so its body is empty.
    pub fn get_headerlist(&self) -> (r: Request)
        ensures
            r.url@ == api_url("media"@, "headerlist"@),
            r.body@ == Seq::<char>::empty(),
    {
        let params: Vec<Param> = Vec::new();
        proof {
            assert(params_view(params@) =~= Seq::<(Seq<char>, Option<Seq<char>>)>::empty());
        }
        make_request("media", "headerlist", &params)
    }
}

} // verus!
