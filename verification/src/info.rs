//! The info endpoints: the data of single entries, their synonyms,
//! seasons, groups, publishers, episode listings, relations and tags, and
//! the groups and companies behind them.

use vstd::prelude::*;
use vstd::string::StringExecFns;

use crate::digits::{dec_str, u64_to_string};
use crate::models::{Firma, Kategorie, Medium, Sort, WatchType};
use crate::params::{encode_params, opt_map_view, param, param_opt, param_opt_u64, param_u64,
    params_view, Param};
use crate::request::{api_url, make_request, Request};
use crate::Proxer;

verus! {

/// All core and satellite data of one entry.
#[derive(Debug, Clone, PartialEq)]
pub struct FullEntry {
    /// The id of the entry.
    pub id: u64,
    /// The original title of the entry.
    pub name: String,
    /// The genres, one word each, separated by spaces.
    pub genre: String,
    /// The hazard symbols, one word each, separated by spaces.
    pub fsk: String,
    /// The description of the entry.
    pub description: String,
    /// The medium of the entry.
    pub medium: Medium,
    /// The number of episodes or chapters, uploaded or not.
    pub count: u64,
    /// The publication state of the entry.
    pub state: u8,
    /// The sum of all ratings.
    pub rate_sum: u64,
    /// The number of ratings.
    pub rate_count: u64,
    /// The clicks the entry received lately.
    pub clicks: u64,
    /// Whether the entry is an anime or a manga.
    pub kat: Kategorie,
    /// The licence state: unknown, not licensed, or licensed.
    pub license: u8,
    /// Whether the entry requires an adult check.
    pub gate: bool,
    /// The synonyms of the entry.
    pub names: Vec<String>,
    /// The languages the entry is available in.
    pub lang: Vec<String>,
    /// The seasons of the entry.
    pub seasons: Vec<FullEntryDataSeasons>,
    /// The subtitle groups working on the entry.
    pub groups: Vec<FullEntryDataGroups>,
    /// The companies behind the entry.
    pub publisher: Vec<FullEntryDataPublisher>,
    /// The tags of the entry.
    pub tags: Vec<FullEntryDataTags>,
}

/// One season record inside a full entry.
#[derive(Debug, Clone, PartialEq)]
pub struct FullEntryDataSeasons {
    /// The id of the record.
    pub id: u64,
    /// The kind of the record.
    pub entry_type: String,
    /// The year of the season.
    pub year: i32,
    /// The season within the year: none, winter, spring, summer or autumn.
    pub season: u8,
}

/// One group record inside a full entry.
#[derive(Debug, Clone, PartialEq)]
pub struct FullEntryDataGroups {
    /// The id of the group.
    pub id: u64,
    /// The name of the group.
    pub name: String,
    /// The language of the group.
    pub country: String,
}

/// One company record inside a full entry.
#[derive(Debug, Clone, PartialEq)]
pub struct FullEntryDataPublisher {
    /// The id of the company.
    pub id: u64,
    /// The name of the company.
    pub name: String,
    /// The role of the company.
    pub entry_type: String,
    /// The country of the company.
    pub country: String,
}

/// One tag record inside a full entry.
#[derive(Debug, Clone, PartialEq)]
pub struct FullEntryDataTags {
    /// The id of the link between tag and entry.
    pub id: u64,
    /// The id of the tag itself.
    pub tid: u64,
    /// When the tag was added to the entry.
    pub timestamp: String,
    /// Whether the tag fits the entry.
    pub rate_flag: u8,
    /// Whether the tag is a spoiler; undetermined tags also carry zero.
    pub spoiler_flag: u8,
    /// The name of the tag.
    pub tag: String,
    /// The description of the tag.
    pub description: String,
}

/// The core data of one entry.
#[derive(Debug, Clone, PartialEq)]
pub struct Entry {
    /// The id of the entry.
    pub id: u64,
    /// The original title of the entry.
    pub name: String,
    /// The genres, one word each, separated by spaces.
    pub genre: String,
    /// The hazard symbols, one word each, separated by spaces.
    pub fsk: String,
    /// The description of the entry.
    pub description: String,
    /// The medium of the entry.
    pub medium: Medium,
    /// The number of episodes or chapters, uploaded or not.
    pub count: u64,
    /// The publication state of the entry.
    pub state: u64,
    /// The sum of all ratings.
    pub rate_sum: u64,
    /// The number of ratings.
    pub rate_count: u64,
    /// The clicks the entry received lately.
    pub clicks: u64,
    /// Whether the entry is an anime or a manga.
    pub kat: Kategorie,
    /// The licence state: unknown, not licensed, or licensed.
    pub license: u8,
}

/// One synonym of an entry.
#[derive(Debug, Clone, PartialEq)]
pub struct Name {
    /// The id of the synonym.
    pub id: u64,
    /// The id of the entry.
    pub eid: u64,
    /// The kind of the synonym.
    pub name_type: String,
    /// The synonym itself.
    pub name: String,
}

/// One season an entry ran in.
#[derive(Debug, Clone, PartialEq)]
pub struct Season {
    /// The id of the record.
    pub id: u64,
    /// The id of the entry.
    pub eid: u64,
    /// The kind of the record.
    pub season_type: String,
    /// The year of the season.
    pub year: i32,
    /// The season within the year: none, winter, spring, summer or autumn.
    pub season: u8,
}

/// One subtitle group registered for an entry.
#[derive(Debug, Clone, PartialEq)]
pub struct Group {
    /// The id of the group.
    pub id: u64,
    /// The name of the group.
    pub name: String,
    /// The language of the group.
    pub country: String,
}

/// One company registered for an entry.
#[derive(Debug, Clone, PartialEq)]
pub struct Publisher {
    /// The id of the company.
    pub id: u64,
    /// The name of the company.
    pub name: String,
    /// The role of the company.
    pub publisher_type: String,
    /// The country of the company.
    pub country: String,
}

/// The episode or chapter listing of one entry.
#[derive(Debug, Clone, PartialEq)]
pub struct ListInfo {
    /// The number of the first chapter.
    pub start: u64,
    /// The number of the last chapter.
    pub end: u64,
    /// Whether the entry is an anime or a manga.
    pub kat: Kategorie,
    /// The languages the entry is available in.
    pub lang: String,
    /// The logged-in user's progress, zero when nobody is logged in.
    pub state: u64,
    /// The episodes or chapters, sorted by language, then number.
    pub episodes: Vec<ListInfoDataEpisode>,
}

/// One episode or chapter of a listing.
#[derive(Debug, Clone, PartialEq)]
pub struct ListInfoDataEpisode {
    /// The number of the episode or chapter.
    pub no: u64,
    /// The title of the chapter.
    pub title: Option<String>,
    /// The language of the episode or chapter.
    pub typ: String,
    /// The available hosters, comma-separated.
    pub types: Option<String>,
    /// The hosters' image links, comma-separated.
    pub typeimg: Option<String>,
}

/// One relation of an entry.
#[derive(Debug, Clone, PartialEq)]
pub struct Relation {
    /// The id of the related entry.
    pub id: u64,
    /// The original title of the related entry.
    pub name: String,
    /// The genres, one word each, separated by spaces.
    pub genre: String,
    /// The hazard symbols, one word each, separated by spaces.
    pub fsk: String,
    /// The description of the related entry.
    pub description: String,
    /// The medium of the related entry.
    pub medium: Medium,
    /// The number of episodes or chapters, uploaded or not.
    pub count: u64,
    /// The publication state of the related entry.
    pub state: u64,
    /// The sum of all ratings.
    pub rate_sum: u64,
    /// The number of ratings.
    pub rate_count: u64,
    /// The clicks the related entry received lately.
    pub clicks: u64,
    /// Whether the related entry is an anime or a manga.
    pub kat: Kategorie,
    /// The licence state: unknown, not licensed, or licensed.
    pub license: u8,
    /// The languages of the related entry, comma-separated.
    pub language: String,
    /// The year of the season.
    pub year: i32,
    /// The season within the year.
    pub season: u8,
}

/// One tag of an entry.
#[derive(Debug, Clone, PartialEq)]
pub struct EntryTag {
    /// The id of the link between tag and entry.
    pub id: u64,
    /// The id of the tag itself.
    pub tid: u64,
    /// When the tag was added to the entry, as a Unix timestamp.
    pub timestamp: i64,
    /// Whether the tag fits the entry.
    pub rate_flag: u8,
    /// Whether the tag is a spoiler; undetermined tags also carry zero.
    pub spoiler_flag: u8,
    /// The name of the tag.
    pub tag: String,
    /// The description of the tag.
    pub description: String,
}

/// All data of one subtitle or scanlation group.
#[derive(Debug, Clone, PartialEq)]
pub struct TranslatorGroup {
    /// The id of the group.
    pub id: u64,
    /// The name of the group.
    pub name: String,
    /// The link to the group's website.
    pub link: String,
    /// The language of the group.
    pub country: String,
    /// A link to an image of the group, when one is set.
    pub image: Option<String>,
    /// The description of the group.
    pub description: String,
    /// The number of the group's entries.
    pub count: String,
    /// The number of the group's completed projects.
    pub cprojects: String,
}

/// All data of one company.
#[derive(Debug, Clone, PartialEq)]
pub struct Industry {
    /// The id of the company.
    pub id: u64,
    /// The role of the company.
    pub industry_type: Firma,
    /// The name of the company.
    pub name: String,
    /// The country of the company.
    pub country: String,
    /// A link to the company's website.
    pub link: String,
    /// The description of the company.
    pub description: String,
}

impl Industry {
    /// The link of the company's cover image.
    pub fn get_industry_cover(&self) -> (r: String)
        ensures
            r@ == "https://cdn.proxer.me/industry/"@ + dec_str(self.id as nat) + ".jpg"@,
    {
        let mut s = String::from_str("https://cdn.proxer.me/industry/");
        s.append(u64_to_string(self.id).as_str());
        s.append(".jpg");
        proof {
            assert(s@ =~= "https://cdn.proxer.me/industry/"@ + dec_str(self.id as nat)
                + ".jpg"@);
        }
        s
    }
}

/// The info resource class: builds the requests of its endpoints.
pub struct Info<'info> {
    /// The session the requests belong to.
    pub proxer: &'info Proxer,
}

impl<'info> Info<'info> {
    /// Binds the endpoints to a session.
    pub fn new(p_proxer: &'info Proxer) -> (r: Info<'info>)
        ensures
            r.proxer == p_proxer,
    {
        Info { proxer: p_proxer }
    }

    /// The request of an info endpoint that takes only an entry id.
    fn id_request(&self, api_function: &str, p_id: u64) -> (r: Request)
        ensures
            r.url@ == api_url("info"@, api_function@),
            r.body@ == encode_params(
                seq![
                    ("api_key"@, Some(self.proxer.api_key@)),
                    ("id"@, Some(dec_str(p_id as nat))),
                ],
            ),
    {
        let mut params: Vec<Param> = Vec::new();
        params.push(param("api_key", self.proxer.api_key.clone()));
        params.push(param_u64("id", p_id));
        proof {
            assert(params_view(params@) =~= seq![
                ("api_key"@, Some(self.proxer.api_key@)),
                ("id"@, Some(dec_str(p_id as nat))),
            ]);
        }
        make_request("info", api_function, &params)
    }

    /// The request for all data of one entry.
    pub fn get_fullentry(&self, p_id: u64) -> (r: Request)
        ensures
            r.url@ == api_url("info"@, "fullentry"@),
            r.body@ == encode_params(
                seq![
                    ("api_key"@, Some(self.proxer.api_key@)),
                    ("id"@, Some(dec_str(p_id as nat))),
                ],
            ),
    {
        self.id_request("fullentry", p_id)
    }

    /// The request for the core data of one entry.
    pub fn get_entry(&self, p_id: u64) -> (r: Request)
        ensures
            r.url@ == api_url("info"@, "entry"@),
            r.body@ == encode_params(
                seq![
                    ("api_key"@, Some(self.proxer.api_key@)),
                    ("id"@, Some(dec_str(p_id as nat))),
                ],
            ),
    {
        self.id_request("entry", p_id)
    }

    /// The request for the synonyms of one entry.
    pub fn get_name(&self, p_id: u64) -> (r: Request)
        ensures
            r.url@ == api_url("info"@, "names"@),
            r.body@ == encode_params(
                seq![
                    ("api_key"@, Some(self.proxer.api_key@)),
                    ("id"@, Some(dec_str(p_id as nat))),
                ],
            ),
    {
        self.id_request("names", p_id)
    }

    /// The request for whether one entry requires an adult check.
    pub fn get_gate(&self, p_id: u64) -> (r: Request)
        ensures
            r.url@ == api_url("info"@, "gate"@),
            r.body@ == encode_params(
                seq![
                    ("api_key"@, Some(self.proxer.api_key@)),
                    ("id"@, Some(dec_str(p_id as nat))),
                ],
            ),
    {
        self.id_request("gate", p_id)
    }

    /// The request for the languages one entry is available in.
    pub fn get_language(&self, p_id: u64) -> (r: Request)
        ensures
            r.url@ == api_url("info"@, "lang"@),
            r.body@ == encode_params(
                seq![
                    ("api_key"@, Some(self.proxer.api_key@)),
                    ("id"@, Some(dec_str(p_id as nat))),
                ],
            ),
    {
        self.id_request("lang", p_id)
    }

    /// The request for the seasons of one entry.
    pub fn get_season(&self, p_id: u64) -> (r: Request)
        ensures
            r.url@ == api_url("info"@, "season"@),
            r.body@ == encode_params(
                seq![
                    ("api_key"@, Some(self.proxer.api_key@)),
                    ("id"@, Some(dec_str(p_id as nat))),
                ],
            ),
    {
        self.id_request("season", p_id)
    }

    /// The request for the subtitle groups of one entry.
    pub fn get_groups(&self, p_id: u64) -> (r: Request)
        ensures
            r.url@ == api_url("info"@, "groups"@),
            r.body@ == encode_params(
                seq![
                    ("api_key"@, Some(self.proxer.api_key@)),
                    ("id"@, Some(dec_str(p_id as nat))),
                ],
            ),
    {
        self.id_request("groups", p_id)
    }

    /// The request for the companies of one entry.
    pub fn get_publisher(&self, p_id: u64) -> (r: Request)
        ensures
            r.url@ == api_url("info"@, "publisher"@),
            r.body@ == encode_params(
                seq![
                    ("api_key"@, Some(self.proxer.api_key@)),
                    ("id"@, Some(dec_str(p_id as nat))),
                ],
            ),
    {
        self.id_request("publisher", p_id)
    }

    /// The request for one page of the episode listing of one entry.
    pub fn get_listinfo(&self, p_id: u64, p_page: Option<u64>, p_limit: Option<u64>) -> (r:
        Request)
        ensures
            r.url@ == api_url("info"@, "listinfo"@),
            r.body@ == encode_params(
                seq![
                    ("api_key"@, Some(self.proxer.api_key@)),
                    ("id"@, Some(dec_str(p_id as nat))),
                    ("p"@, opt_map_view(p_page, |v: u64| dec_str(v as nat))),
                    ("limit"@, opt_map_view(p_limit, |v: u64| dec_str(v as nat))),
                ],
            ),
    {
        let mut params: Vec<Param> = Vec::new();
        params.push(param("api_key", self.proxer.api_key.clone()));
        params.push(param_u64("id", p_id));
        params.push(param_opt_u64("p", p_page));
        params.push(param_opt_u64("limit", p_limit));
        proof {
            assert(params_view(params@) =~= seq![
                ("api_key"@, Some(self.proxer.api_key@)),
                ("id"@, Some(dec_str(p_id as nat))),
                ("p"@, opt_map_view(p_page, |v: u64| dec_str(v as nat))),
                ("limit"@, opt_map_view(p_limit, |v: u64| dec_str(v as nat))),
            ]);
        }
        make_request("info", "listinfo", &params)
    }

    /// The request for one page of the comments of one entry.
    pub fn get_comments(
        &self,
        p_id: u64,
        p_page: Option<u64>,
        p_limit: Option<u64>,
        p_sort: Option<Sort>,
    ) -> (r: Request)
        ensures
            r.url@ == api_url("info"@, "comments"@),
            r.body@ == encode_params(
                seq![
                    ("api_key"@, Some(self.proxer.api_key@)),
                    ("id"@, Some(dec_str(p_id as nat))),
                    ("p"@, opt_map_view(p_page, |v: u64| dec_str(v as nat))),
                    ("limit"@, opt_map_view(p_limit, |v: u64| dec_str(v as nat))),
                    ("sort"@, opt_map_view(p_sort, |s: Sort| s.spec_param())),
                ],
            ),
    {
        let sort_s: Option<String> = match p_sort {
            Some(s) => Some(s.to_param()),
            None => None,
        };
        let mut params: Vec<Param> = Vec::new();
        params.push(param("api_key", self.proxer.api_key.clone()));
        params.push(param_u64("id", p_id));
        params.push(param_opt_u64("p", p_page));
        params.push(param_opt_u64("limit", p_limit));
        params.push(param_opt("sort", sort_s));
        proof {
            assert(params_view(params@) =~= seq![
                ("api_key"@, Some(self.proxer.api_key@)),
                ("id"@, Some(dec_str(p_id as nat))),
                ("p"@, opt_map_view(p_page, |v: u64| dec_str(v as nat))),
                ("limit"@, opt_map_view(p_limit, |v: u64| dec_str(v as nat))),
                ("sort"@, opt_map_view(p_sort, |s: Sort| s.spec_param())),
            ]);
        }
        make_request("info", "comments", &params)
    }

    /// The request for the relations of one entry.
    pub fn get_relations(&self, p_id: u64) -> (r: Request)
        ensures
            r.url@ == api_url("info"@, "relations"@),
            r.body@ == encode_params(
                seq![
                    ("api_key"@, Some(self.proxer.api_key@)),
                    ("id"@, Some(dec_str(p_id as nat))),
                ],
            ),
    {
        self.id_request("relations", p_id)
    }

    /// The request for the tags of one entry.
    pub fn get_entrytag(&self, p_id: u64) -> (r: Request)
        ensures
            r.url@ == api_url("info"@, "entrytag"@),
            r.body@ == encode_params(
                seq![
                    ("api_key"@, Some(self.proxer.api_key@)),
                    ("id"@, Some(dec_str(p_id as nat))),
                ],
            ),
    {
        self.id_request("entrytag", p_id)
    }

    /// The request for the data of one subtitle or scanlation group.
    pub fn get_translatorgroup(&self, p_id: u64) -> (r: Request)
        ensures
            r.url@ == api_url("info"@, "translatorgroup"@),
            r.body@ == encode_params(
                seq![
                    ("api_key"@, Some(self.proxer.api_key@)),
                    ("id"@, Some(dec_str(p_id as nat))),
                ],
            ),
    {
        self.id_request("translatorgroup", p_id)
    }

    /// The request for the data of one company.
    pub fn get_industry(&self, p_id: u64) -> (r: Request)
        ensures
            r.url@ == api_url("info"@, "industry"@),
            r.body@ == encode_params(
                seq![
                    ("api_key"@, Some(self.proxer.api_key@)),
                    ("id"@, Some(dec_str(p_id as nat))),
                ],
            ),
    {
        self.id_request("industry", p_id)
    }

    /// The request that puts one entry on a list of the logged-in user.
    pub fn set_userinfo(&self, p_id: u64, p_type: WatchType) -> (r: Request)
        ensures
            r.url@ == api_url("info"@, "setuserinfo"@),
            r.body@ == encode_params(
                seq![
                    ("api_key"@, Some(self.proxer.api_key@)),
                    ("id"@, Some(dec_str(p_id as nat))),
                    ("type"@, Some(p_type.spec_param())),
                ],
            ),
    {
        let mut params: Vec<Param> = Vec::new();
        params.push(param("api_key", self.proxer.api_key.clone()));
        params.push(param_u64("id", p_id));
        params.push(param("type", p_type.to_param()));
        proof {
            assert(params_view(params@) =~= seq![
                ("api_key"@, Some(self.proxer.api_key@)),
                ("id"@, Some(dec_str(p_id as nat))),
                ("type"@, Some(p_type.spec_param())),
            ]);
        }
        make_request("info", "setuserinfo", &params)
    }
}

} // verus!
