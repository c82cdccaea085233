//! The list endpoints: entry search, category listings, tag lookup, and
//! listings of groups, companies and their projects.

use vstd::prelude::*;

use crate::digits::{bool_str, dec_str, int_str};
use crate::models::{Firma, Kategorie, LengthLimit, Medium, SearchSort, SubType,
    TranslationStatus};
use crate::params::{encode_params, opt_map_view, opt_view, param, param_opt, param_opt_bool,
    param_opt_i8, param_opt_u64, param_u64, params_view, Param};
use crate::request::{api_url, make_request, Request};
use crate::Proxer;

verus! {

/// One hit of the entry search.
#[derive(Debug, Clone, PartialEq)]
pub struct EntrySearch {
    /// The id of the entry.
    pub id: u64,
    /// The matching name; the same entry may appear under several names.
    pub name: String,
    /// The genres of the entry.
    pub genre: Vec<String>,
    /// The medium of the entry.
    pub medium: Medium,
    /// The number of episodes or chapters, uploaded or not.
    pub count: u64,
    /// The publication state of the entry.
    pub state: u8,
    /// The sum of all ratings.
    pub rate_sum: u64,
    /// The number of ratings.
    pub rate_count: u64,
    /// The languages the entry is available in.
    pub language: Vec<String>,
}

/// One entry of a category listing.
#[derive(Debug, Clone, PartialEq)]
pub struct EntryList {
    /// The id of the entry.
    pub id: u64,
    /// The name of the entry; the same entry may appear under several
    /// names.
    pub name: String,
    /// The genres of the entry.
    pub genre: Vec<String>,
    /// The medium of the entry.
    pub medium: Medium,
    /// The number of episodes or chapters, uploaded or not.
    pub count: u64,
    /// The publication state of the entry.
    pub state: u64,
    /// The sum of all ratings.
    pub rate_sum: u64,
    /// The number of ratings.
    pub rate_count: u64,
    /// The languages the entry is available in.
    pub language: Vec<String>,
}

/// The tag ids extracted from a search string.
#[derive(Debug, Clone, PartialEq)]
pub struct TagIDs {
    /// The ids of the tags written without a minus.
    pub tags: Vec<String>,
    /// The ids of the tags written with a minus.
    pub notags: Vec<String>,
}

/// One tag of the tag listing.
#[derive(Debug, Clone, PartialEq)]
pub struct Tag {
    /// The id of the tag.
    pub id: u64,
    /// The kind of the tag.
    pub tag_type: String,
    /// The name of the tag.
    pub tag: String,
    /// The description of the tag.
    pub description: String,
    /// Whether the tag is blacklisted; listed tags always carry zero.
    pub blacklist: u8,
    /// The category the tag belongs to.
    pub subtype: Kategorie,
}

/// One group of the group listing.
#[derive(Debug, Clone, PartialEq)]
pub struct TranslatorGroup {
    /// The id of the group.
    pub id: u64,
    /// The name of the group.
    pub name: String,
    /// The language of the group.
    pub country: String,
    /// A link to an image of the group, when one is set.
    pub image: Option<String>,
}

/// One company of the company listing.
#[derive(Debug, Clone, PartialEq)]
pub struct Industry {
    /// The id of the company.
    pub id: u64,
    /// The role of the company.
    pub industry_type: Firma,
    /// The name of the company.
    pub name: String,
    /// The country of the company.
    pub country: String,
    /// A link to the company's cover image.
    pub link: String,
}

/// One project of a group.
#[derive(Debug, Clone, PartialEq)]
pub struct TranslatorGroupProject {
    /// The id of the entry.
    pub id: u64,
    /// The original name of the entry.
    pub name: String,
    /// The genres of the entry.
    pub genre: String,
    /// The hazard symbols of the entry.
    pub fsk: String,
    /// The medium of the entry.
    pub medium: Medium,
    /// The group's translation status for the entry.
    pub trans_group_type: String,
    /// The publication state of the entry.
    pub state: u8,
    /// The sum of all ratings.
    pub rate_sum: u64,
    /// The number of ratings.
    pub rate_count: u64,
}

/// One project of a company.
#[derive(Debug, Clone, PartialEq)]
pub struct IndustrysProject {
    /// The id of the entry.
    pub id: u64,
    /// The original name of the entry.
    pub name: String,
    /// The genres of the entry.
    pub genre: String,
    /// The hazard symbols of the entry.
    pub fsk: String,
    /// The medium of the entry.
    pub medium: Medium,
    /// The role the company has for the entry.
    pub industy_type: String,
    /// The publication state of the entry.
    pub state: u8,
    /// The sum of all ratings.
    pub rate_sum: u64,
    /// The number of ratings.
    pub rate_count: u64,
}

/// The list resource class: builds the requests of its endpoints.
pub struct List<'a> {
    /// The session the requests belong to.
    pub proxer: &'a Proxer,
}

impl<'a> List<'a> {
    /// Binds the endpoints to a session.
    pub fn new(proxer: &'a Proxer) -> (r: List<'a>)
        ensures
            r.proxer == proxer,
    {
        List { proxer }
    }

    /// The request of the extended entry search.
    pub fn entry_search(
        &self,
        name: Option<String>,
        language: Option<String>,
        medium_type: Option<Medium>,
        genre: Option<String>,
        nogenre: Option<String>,
        fsk: Option<String>,
        sort: Option<SearchSort>,
        length: Option<u64>,
        lengthlimit: Option<LengthLimit>,
        tags: Option<String>,
        notags: Option<String>,
        tagratefilter: Option<String>,
        tagspoilerfilter: Option<String>,
        page: Option<u64>,
        limit: Option<u64>,
    ) -> (r: Request)
        ensures
            r.url@ == api_url("list"@, "entrysearch"@),
            r.body@ == encode_params(
                seq![
                    ("name"@, opt_view(name)),
                    ("language"@, opt_view(language)),
                    ("type"@, opt_map_view(medium_type, |m: Medium| m.spec_param())),
                    ("genre"@, opt_view(genre)),
                    ("nogenre"@, opt_view(nogenre)),
                    ("fsk"@, opt_view(fsk)),
                    ("sort"@, opt_map_view(sort, |s: SearchSort| s.spec_param())),
                    ("length"@, opt_map_view(length, |v: u64| dec_str(v as nat))),
                    ("length-limit"@, opt_map_view(lengthlimit, |l: LengthLimit| l.spec_param())),
                    ("tags"@, opt_view(tags)),
                    ("notags"@, opt_view(notags)),
                    ("tagratefilter"@, opt_view(tagratefilter)),
                    ("tagspoilerfilter"@, opt_view(tagspoilerfilter)),
                    ("p"@, opt_map_view(page, |v: u64| dec_str(v as nat))),
                    ("limit"@, opt_map_view(limit, |v: u64| dec_str(v as nat))),
                ],
            ),
    {
        let medium_s: Option<String> = match medium_type {
            Some(m) => Some(m.to_param()),
            None => None,
        };
        let sort_s: Option<String> = match sort {
            Some(s) => Some(s.to_param()),
            None => None,
        };
        let lengthlimit_s: Option<String> = match lengthlimit {
            Some(l) => Some(l.to_param()),
            None => None,
        };
        let mut params: Vec<Param> = Vec::new();
        params.push(param_opt("name", name));
        params.push(param_opt("language", language));
        params.push(param_opt("type", medium_s));
        params.push(param_opt("genre", genre));
        params.push(param_opt("nogenre", nogenre));
        params.push(param_opt("fsk", fsk));
        params.push(param_opt("sort", sort_s));
        params.push(param_opt_u64("length", length));
        params.push(param_opt("length-limit", lengthlimit_s));
        params.push(param_opt("tags", tags));
        params.push(param_opt("notags", notags));
        params.push(param_opt("tagratefilter", tagratefilter));
        params.push(param_opt("tagspoilerfilter", tagspoilerfilter));
        params.push(param_opt_u64("p", page));
        params.push(param_opt_u64("limit", limit));
        proof {
            assert(params_view(params@) =~= seq![
                ("name"@, opt_view(name)),
                ("language"@, opt_view(language)),
                ("type"@, opt_map_view(medium_type, |m: Medium| m.spec_param())),
                ("genre"@, opt_view(genre)),
                ("nogenre"@, opt_view(nogenre)),
                ("fsk"@, opt_view(fsk)),
                ("sort"@, opt_map_view(sort, |s: SearchSort| s.spec_param())),
                ("length"@, opt_map_view(length, |v: u64| dec_str(v as nat))),
                ("length-limit"@, opt_map_view(lengthlimit, |l: LengthLimit| l.spec_param())),
                ("tags"@, opt_view(tags)),
                ("notags"@, opt_view(notags)),
                ("tagratefilter"@, opt_view(tagratefilter)),
                ("tagspoilerfilter"@, opt_view(tagspoilerfilter)),
                ("p"@, opt_map_view(page, |v: u64| dec_str(v as nat))),
                ("limit"@, opt_map_view(limit, |v: u64| dec_str(v as nat))),
            ]);
        }
        make_request("list", "entrysearch", &params)
    }

    /// The request for one page of a category's entry listing.
    pub fn get_entrylist(
        &self,
        kat: Option<Kategorie>,
        medium: Option<Medium>,
        is_h: Option<bool>,
        start: Option<String>,
        page: Option<u64>,
        limit: Option<u64>,
    ) -> (r: Request)
        ensures
            r.url@ == api_url("list"@, "entrylist"@),
            r.body@ == encode_params(
                seq![
                    ("kat"@, opt_map_view(kat, |k: Kategorie| k.spec_param())),
                    ("medium"@, opt_map_view(medium, |m: Medium| m.spec_param())),
                    ("isH"@, opt_map_view(is_h, |b: bool| bool_str(b))),
                    ("start"@, opt_view(start)),
                    ("p"@, opt_map_view(page, |v: u64| dec_str(v as nat))),
                    ("limit"@, opt_map_view(limit, |v: u64| dec_str(v as nat))),
                ],
            ),
    {
        let kat_s: Option<String> = match kat {
            Some(k) => Some(k.to_param()),
            None => None,
        };
        let medium_s: Option<String> = match medium {
            Some(m) => Some(m.to_param()),
            None => None,
        };
        let mut params: Vec<Param> = Vec::new();
        params.push(param_opt("kat", kat_s));
        params.push(param_opt("medium", medium_s));
        params.push(param_opt_bool("isH", is_h));
        params.push(param_opt("start", start));
        params.push(param_opt_u64("p", page));
        params.push(param_opt_u64("limit", limit));
        proof {
            assert(params_view(params@) =~= seq![
                ("kat"@, opt_map_view(kat, |k: Kategorie| k.spec_param())),
                ("medium"@, opt_map_view(medium, |m: Medium| m.spec_param())),
                ("isH"@, opt_map_view(is_h, |b: bool| bool_str(b))),
                ("start"@, opt_view(start)),
                ("p"@, opt_map_view(page, |v: u64| dec_str(v as nat))),
                ("limit"@, opt_map_view(limit, |v: u64| dec_str(v as nat))),
            ]);
        }
        make_request("list", "entrylist", &params)
    }

    /// The request that extracts the tag ids occurring in a search string.
    pub fn get_tag_ids(&self, search: String) -> (r: Request)
        ensures
            r.url@ == api_url("list"@, "tagids"@),
            r.body@ == encode_params(seq![("search"@, Some(search@))]),
    {
        let mut params: Vec<Param> = Vec::new();
        params.push(param("search", search));
        proof {
            assert(params_view(params@) =~= seq![("search"@, Some(search@))]);
        }
        make_request("list", "tagids", &params)
    }

    /// The request for one page of the tag listing.
    pub fn get_tags(
        &self,
        search: Option<String>,
        tag_type: Option<String>,
        sort: Option<String>,
        sort_type: Option<String>,
        sub_type: Option<SubType>,
    ) -> (r: Request)
        ensures
            r.url@ == api_url("list"@, "tags"@),
            r.body@ == encode_params(
                seq![
                    ("search"@, opt_view(search)),
                    ("type"@, opt_view(tag_type)),
                    ("sort"@, opt_view(sort)),
                    ("sort_type"@, opt_view(sort_type)),
                    ("sub_type"@, opt_map_view(sub_type, |s: SubType| s.spec_param())),
                ],
            ),
    {
        let sub_type_s: Option<String> = match sub_type {
            Some(s) => Some(s.to_param()),
            None => None,
        };
        let mut params: Vec<Param> = Vec::new();
        params.push(param_opt("search", search));
        params.push(param_opt("type", tag_type));
        params.push(param_opt("sort", sort));
        params.push(param_opt("sort_type", sort_type));
        params.push(param_opt("sub_type", sub_type_s));
        proof {
            assert(params_view(params@) =~= seq![
                ("search"@, opt_view(search)),
                ("type"@, opt_view(tag_type)),
                ("sort"@, opt_view(sort)),
                ("sort_type"@, opt_view(sort_type)),
                ("sub_type"@, opt_map_view(sub_type, |s: SubType| s.spec_param())),
            ]);
        }
        make_request("list", "tags", &params)
    }

    /// The request for one page of the group listing.
    pub fn get_translatorgroups(
        &self,
        start: Option<String>,
        contains: Option<String>,
        page: Option<u64>,
        limit: Option<u64>,
    ) -> (r: Request)
        ensures
            r.url@ == api_url("list"@, "translatorgroups"@),
            r.body@ == encode_params(
                seq![
                    ("start"@, opt_view(start)),
                    ("contains"@, opt_view(contains)),
                    ("p"@, opt_map_view(page, |v: u64| dec_str(v as nat))),
                    ("limit"@, opt_map_view(limit, |v: u64| dec_str(v as nat))),
                ],
            ),
    {
        let mut params: Vec<Param> = Vec::new();
        params.push(param_opt("start", start));
        params.push(param_opt("contains", contains));
        params.push(param_opt_u64("p", page));
        params.push(param_opt_u64("limit", limit));
        proof {
            assert(params_view(params@) =~= seq![
                ("start"@, opt_view(start)),
                ("contains"@, opt_view(contains)),
                ("p"@, opt_map_view(page, |v: u64| dec_str(v as nat))),
                ("limit"@, opt_map_view(limit, |v: u64| dec_str(v as nat))),
            ]);
        }
        make_request("list", "translatorgroups", &params)
    }

    /// The request for one page of the company listing.
    pub fn get_industrys(
        &self,
        start: Option<String>,
        contains: Option<String>,
        country: Option<String>,
        firma_type: Option<Firma>,
        page: Option<u64>,
        limit: Option<u64>,
    ) -> (r: Request)
        ensures
            r.url@ == api_url("list"@, "industrys"@),
            r.body@ == encode_params(
                seq![
                    ("start"@, opt_view(start)),
                    ("contains"@, opt_view(contains)),
                    ("country"@, opt_view(country)),
                    ("type"@, opt_map_view(firma_type, |f: Firma| f.spec_param())),
                    ("p"@, opt_map_view(page, |v: u64| dec_str(v as nat))),
                    ("limit"@, opt_map_view(limit, |v: u64| dec_str(v as nat))),
                ],
            ),
    {
        let firma_s: Option<String> = match firma_type {
            Some(f) => Some(f.to_param()),
            None => None,
        };
        let mut params: Vec<Param> = Vec::new();
        params.push(param_opt("start", start));
        params.push(param_opt("contains", contains));
        params.push(param_opt("country", country));
        params.push(param_opt("type", firma_s));
        params.push(param_opt_u64("p", page));
        params.push(param_opt_u64("limit", limit));
        proof {
            assert(params_view(params@) =~= seq![
                ("start"@, opt_view(start)),
                ("contains"@, opt_view(contains)),
                ("country"@, opt_view(country)),
                ("type"@, opt_map_view(firma_type, |f: Firma| f.spec_param())),
                ("p"@, opt_map_view(page, |v: u64| dec_str(v as nat))),
                ("limit"@, opt_map_view(limit, |v: u64| dec_str(v as nat))),
            ]);
        }
        make_request("list", "industrys", &params)
    }

    /// The request for one page of a group's project listing.
    pub fn get_translatorgroups_projects(
        &self,
        id: u64,
        status_type: Option<TranslationStatus>,
        is_h: Option<i8>,
        page: Option<u64>,
        limit: Option<u64>,
    ) -> (r: Request)
        ensures
            r.url@ == api_url("list"@, "translatorgroupprojects"@),
            r.body@ == encode_params(
                seq![
                    ("id"@, Some(dec_str(id as nat))),
                    ("type"@, opt_map_view(status_type, |t: TranslationStatus| t.spec_param())),
                    ("isH"@, opt_map_view(is_h, |v: i8| int_str(v as int))),
                    ("p"@, opt_map_view(page, |v: u64| dec_str(v as nat))),
                    ("limit"@, opt_map_view(limit, |v: u64| dec_str(v as nat))),
                ],
            ),
    {
        let status_s: Option<String> = match status_type {
            Some(t) => Some(t.to_param()),
            None => None,
        };
        let mut params: Vec<Param> = Vec::new();
        params.push(param_u64("id", id));
        params.push(param_opt("type", status_s));
        params.push(param_opt_i8("isH", is_h));
        params.push(param_opt_u64("p", page));
        params.push(param_opt_u64("limit", limit));
        proof {
            assert(params_view(params@) =~= seq![
                ("id"@, Some(dec_str(id as nat))),
                ("type"@, opt_map_view(status_type, |t: TranslationStatus| t.spec_param())),
                ("isH"@, opt_map_view(is_h, |v: i8| int_str(v as int))),
                ("p"@, opt_map_view(page, |v: u64| dec_str(v as nat))),
                ("limit"@, opt_map_view(limit, |v: u64| dec_str(v as nat))),
            ]);
        }
        make_request("list", "translatorgroupprojects", &params)
    }

    /// The request for one page of a company's project listing.
    pub fn get_industry_projects(
        &self,
        id: u64,
        firma_type: Option<Firma>,
        is_h: Option<i8>,
        page: Option<u64>,
        limit: Option<u64>,
    ) -> (r: Request)
        ensures
            r.url@ == api_url("list"@, "industryprojects"@),
            r.body@ == encode_params(
                seq![
                    ("id"@, Some(dec_str(id as nat))),
                    ("type"@, opt_map_view(firma_type, |f: Firma| f.spec_param())),
                    ("isH"@, opt_map_view(is_h, |v: i8| int_str(v as int))),
                    ("p"@, opt_map_view(page, |v: u64| dec_str(v as nat))),
                    ("limit"@, opt_map_view(limit, |v: u64| dec_str(v as nat))),
                ],
            ),
    {
        let firma_s: Option<String> = match firma_type {
            Some(f) => Some(f.to_param()),
            None => None,
        };
        let mut params: Vec<Param> = Vec::new();
        params.push(param_u64("id", id));
        params.push(param_opt("type", firma_s));
        params.push(param_opt_i8("isH", is_h));
        params.push(param_opt_u64("p", page));
        params.push(param_opt_u64("limit", limit));
        proof {
            assert(params_view(params@) =~= seq![
                ("id"@, Some(dec_str(id as nat))),
                ("type"@, opt_map_view(firma_type, |f: Firma| f.spec_param())),
                ("isH"@, opt_map_view(is_h, |v: i8| int_str(v as int))),
                ("p"@, opt_map_view(page, |v: u64| dec_str(v as nat))),
                ("limit"@, opt_map_view(limit, |v: u64| dec_str(v as nat))),
            ]);
        }
        make_request("list", "industryprojects", &params)
    }
}

} // verus!
