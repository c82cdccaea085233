//! The messenger endpoints: conferences, their messages and their
//! management.

use vstd::prelude::*;

use crate::digits::{bool_str, dec_str};
use crate::models::ConferenceOption;
use crate::params::{encode_params, opt_map_view, opt_view, param, param_opt, param_opt_bool,
    param_opt_u64, param_u64, params_view, Param};
use crate::request::{api_url, make_request, Request};
use crate::Proxer;

verus! {

/// The messenger's limits; they change rarely and should be fetched once.
#[derive(Debug, Clone, PartialEq)]
pub struct Constants {
    /// The largest number of characters per message.
    pub text_count: u64,
    /// How many conferences one page of a listing carries at most.
    pub conference_limit: u64,
    /// How many messages one page of a listing carries at most.
    pub messages_limit: u64,
    /// The largest number of users per group conference.
    pub user_limit: u64,
    /// The largest number of characters of a conference topic.
    pub topic_count: u64,
}

/// One conference of the current listing.
#[derive(Debug, Clone, PartialEq)]
pub struct Conference {
    /// The id of the conference.
    pub id: u64,
    /// The title: the partner's name, or the topic of a group conference.
    pub topic: String,
    /// The title the user chose.
    pub topic_custom: String,
    /// The number of participants.
    pub count: u64,
    /// Whether this is a group conference.
    pub group: bool,
    /// When the last message arrived.
    pub timestamp_end: String,
    /// Whether the user read the last message.
    pub read: bool,
    /// The number of unread messages.
    pub read_count: u64,
    /// The id of the last read message.
    pub read_mid: u64,
    /// The image of the conference, as `kind:id`.
    pub image: String,
}

/// The details of one conference.
#[derive(Debug, Clone, PartialEq)]
pub struct ConferenceInfo {
    /// The conference itself.
    pub conference: ConferenceInfoDataConference,
    /// Its participants.
    pub users: Vec<ConferenceInfoDataUsers>,
}

/// The core data of one conference.
#[derive(Debug, Clone, PartialEq)]
pub struct ConferenceInfoDataConference {
    /// The topic of the conference.
    pub topic: String,
    /// The number of participants.
    pub count: u64,
    /// When the last message arrived, as a Unix timestamp.
    pub timestamp_end: i64,
    /// The user id of the conference leader.
    pub leader: u64,
}

/// One participant of a conference.
#[derive(Debug, Clone, PartialEq)]
pub struct ConferenceInfoDataUsers {
    /// The id of the user.
    pub uid: u64,
    /// The image id of the avatar, empty when none is set.
    pub avatar: String,
    /// The name of the user.
    pub username: String,
    /// The status line of the user.
    pub status: String,
}

/// The messenger's view of one user.
#[derive(Debug, Clone, PartialEq)]
pub struct UserInfo {
    /// The image id of the avatar, empty when none is set.
    pub avatar: String,
    /// The name of the user.
    pub username: String,
    /// The status line of the user.
    pub status: String,
}

/// One message of a conference or of the user's recent messages.
#[derive(Debug, Clone, PartialEq)]
pub struct Messages {
    /// The id of the message.
    pub message_id: u64,
    /// The id of the conference.
    pub conference_id: u64,
    /// The user id of the author.
    pub user_id: u64,
    /// The name of the author.
    pub username: String,
    /// The message text.
    pub message: String,
    /// The command, when the message is one.
    pub action: String,
    /// When the message was sent, as a Unix timestamp.
    pub timestamp: i64,
    /// The device or application the message was sent from.
    pub device: String,
}

/// The messenger resource class: builds the requests of its endpoints.
pub struct Messenger<'messenger> {
    /// The session the requests belong to.
    pub proxer: &'messenger Proxer,
}

impl<'messenger> Messenger<'messenger> {
    /// Binds the endpoints to a session.
    pub fn new(p_proxer: &'messenger Proxer) -> (r: Messenger<'messenger>)
        ensures
            r.proxer == p_proxer,
    {
        Messenger { proxer: p_proxer }
    }

    /// The request of a messenger endpoint that takes only a conference
    /// id.
    fn conference_request(&self, api_function: &str, p_conference_id: u64) -> (r: Request)
        ensures
            r.url@ == api_url("messenger"@, api_function@),
            r.body@ == encode_params(
                seq![("conference_id"@, Some(dec_str(p_conference_id as nat)))],
            ),
    {
        let mut params: Vec<Param> = Vec::new();
        params.push(param_u64("conference_id", p_conference_id));
        proof {
            assert(params_view(params@) =~= seq![
                ("conference_id"@, Some(dec_str(p_conference_id as nat))),
            ]);
        }
        make_request("messenger", api_function, &params)
    }

    /// The request for the messenger's limits; it takes no parameters, so
    /// its body is empty.
    pub fn get_constants(&self) -> (r: Request)
        ensures
            r.url@ == api_url("messenger"@, "constants"@),
            r.body@ == Seq::<char>::empty(),
    {
        let params: Vec<Param> = Vec::new();
        proof {
            assert(params_view(params@) =~= Seq::<(Seq<char>, Option<Seq<char>>)>::empty());
        }
        make_request("messenger", "constants", &params)
    }

    /// The request for one page of the conference listing.
    pub fn get_conferences(&self, p_type: Option<ConferenceOption>, p_page: Option<u64>) -> (r:
        Request)
        ensures
            r.url@ == api_url("messenger"@, "conferences"@),
            r.body@ == encode_params(
                seq![
                    ("type"@, opt_map_view(p_type, |t: ConferenceOption| t.spec_param())),
                    ("p"@, opt_map_view(p_page, |v: u64| dec_str(v as nat))),
                ],
            ),
    {
        let type_s: Option<String> = match p_type {
            Some(t) => Some(t.to_param()),
            None => None,
        };
        let mut params: Vec<Param> = Vec::new();
        params.push(param_opt("type", type_s));
        params.push(param_opt_u64("p", p_page));
        proof {
            assert(params_view(params@) =~= seq![
                ("type"@, opt_map_view(p_type, |t: ConferenceOption| t.spec_param())),
                ("p"@, opt_map_view(p_page, |v: u64| dec_str(v as nat))),
            ]);
        }
        make_request("messenger", "conferences", &params)
    }

    /// The request for the details of one conference.
    pub fn get_conference_info(&self, p_conference_id: u64) -> (r: Request)
        ensures
            r.url@ == api_url("messenger"@, "conferenceinfo"@),
            r.body@ == encode_params(
                seq![("conference_id"@, Some(dec_str(p_conference_id as nat)))],
            ),
    {
        self.conference_request("conferenceinfo", p_conference_id)
    }

    /// The request for the messenger's view of one user.
    pub fn get_user_info(&self, p_user_id: u64) -> (r: Request)
        ensures
            r.url@ == api_url("messenger"@, "userinfo"@),
            r.body@ == encode_params(seq![("user_id"@, Some(dec_str(p_user_id as nat)))]),
    {
        let mut params: Vec<Param> = Vec::new();
        params.push(param_u64("user_id", p_user_id));
        proof {
            assert(params_view(params@) =~= seq![
                ("user_id"@, Some(dec_str(p_user_id as nat))),
            ]);
        }
        make_request("messenger", "userinfo", &params)
    }

    /// The request for the latest messages of a conference or of the user.
    pub fn get_messages(
        &self,
        p_conference_id: Option<u64>,
        p_message: Option<u64>,
        p_read: Option<bool>,
    ) -> (r: Request)
        ensures
            r.url@ == api_url("messenger"@, "messages"@),
            r.body@ == encode_params(
                seq![
                    ("conference_id"@, opt_map_view(p_conference_id, |v: u64| dec_str(v as nat))),
                    ("message"@, opt_map_view(p_message, |v: u64| dec_str(v as nat))),
                    ("read"@, opt_map_view(p_read, |b: bool| bool_str(b))),
                ],
            ),
    {
        let mut params: Vec<Param> = Vec::new();
        params.push(param_opt_u64("conference_id", p_conference_id));
        params.push(param_opt_u64("message", p_message));
        params.push(param_opt_bool("read", p_read));
        proof {
            assert(params_view(params@) =~= seq![
                ("conference_id"@, opt_map_view(p_conference_id, |v: u64| dec_str(v as nat))),
                ("message"@, opt_map_view(p_message, |v: u64| dec_str(v as nat))),
                ("read"@, opt_map_view(p_read, |b: bool| bool_str(b))),
            ]);
        }
        make_request("messenger", "messages", &params)
    }

    /// The request that starts a conversation with one user, or appends a
    /// message to an existing one.
    pub fn new_conference(&self, p_text: String, p_username: String) -> (r: Request)
        ensures
            r.url@ == api_url("messenger"@, "newconference"@),
            r.body@ == encode_params(
                seq![("text"@, Some(p_text@)), ("username"@, Some(p_username@))],
            ),
    {
        let mut params: Vec<Param> = Vec::new();
        params.push(param("text", p_text));
        params.push(param("username", p_username));
        proof {
            assert(params_view(params@) =~= seq![
                ("text"@, Some(p_text@)),
                ("username"@, Some(p_username@)),
            ]);
        }
        make_request("messenger", "newconference", &params)
    }

    /// The request that starts a group conference.
    pub fn new_conferencegroup(
        &self,
        p_users: String,
        p_tropic: String,
        p_text: Option<String>,
    ) -> (r: Request)
        ensures
            r.url@ == api_url("messenger"@, "newconferencegroup"@),
            r.body@ == encode_params(
                seq![
                    ("users"@, Some(p_users@)),
                    ("tropic"@, Some(p_tropic@)),
                    ("text"@, opt_view(p_text)),
                ],
            ),
    {
        let mut params: Vec<Param> = Vec::new();
        params.push(param("users", p_users));
        params.push(param("tropic", p_tropic));
        params.push(param_opt("text", p_text));
        proof {
            assert(params_view(params@) =~= seq![
                ("users"@, Some(p_users@)),
                ("tropic"@, Some(p_tropic@)),
                ("text"@, opt_view(p_text)),
            ]);
        }
        make_request("messenger", "newconferencegroup", &params)
    }

    /// The request that reports a conference to the administration.
    pub fn report(&self, p_text: String, p_conference_id: u64) -> (r: Request)
        ensures
            r.url@ == api_url("messenger"@, "report"@),
            r.body@ == encode_params(
                seq![
                    ("text"@, Some(p_text@)),
                    ("conference_id"@, Some(dec_str(p_conference_id as nat))),
                ],
            ),
    {
        let mut params: Vec<Param> = Vec::new();
        params.push(param("text", p_text));
        params.push(param_u64("conference_id", p_conference_id));
        proof {
            assert(params_view(params@) =~= seq![
                ("text"@, Some(p_text@)),
                ("conference_id"@, Some(dec_str(p_conference_id as nat))),
            ]);
        }
        make_request("messenger", "report", &params)
    }

    /// The request that sends a message to a conference.
    pub fn set_message(&self, p_conference_id: u64, p_text: String) -> (r: Request)
        ensures
            r.url@ == api_url("messenger"@, "setmessage"@),
            r.body@ == encode_params(
                seq![
                    ("conference_id"@, Some(dec_str(p_conference_id as nat))),
                    ("text"@, Some(p_text@)),
                ],
            ),
    {
        let mut params: Vec<Param> = Vec::new();
        params.push(param_u64("conference_id", p_conference_id));
        params.push(param("text", p_text));
        proof {
            assert(params_view(params@) =~= seq![
                ("conference_id"@, Some(dec_str(p_conference_id as nat))),
                ("text"@, Some(p_text@)),
            ]);
        }
        make_request("messenger", "setmessage", &params)
    }

    /// The request that marks a conference as read.
    pub fn set_read(&self, p_conference_id: u64) -> (r: Request)
        ensures
            r.url@ == api_url("messenger"@, "setread"@),
            r.body@ == encode_params(
                seq![("conference_id"@, Some(dec_str(p_conference_id as nat)))],
            ),
    {
        self.conference_request("setread", p_conference_id)
    }

    /// The request that marks a conference as unread.
    pub fn set_unread(&self, p_conference_id: u64) -> (r: Request)
        ensures
            r.url@ == api_url("messenger"@, "setunread"@),
            r.body@ == encode_params(
                seq![("conference_id"@, Some(dec_str(p_conference_id as nat)))],
            ),
    {
        self.conference_request("setunread", p_conference_id)
    }

    /// The request that blocks a conference.
    pub fn set_block(&self, p_conference_id: u64) -> (r: Request)
        ensures
            r.url@ == api_url("messenger"@, "setblock"@),
            r.body@ == encode_params(
                seq![("conference_id"@, Some(dec_str(p_conference_id as nat)))],
            ),
    {
        self.conference_request("setblock", p_conference_id)
    }

    /// The request that unblocks a conference.
    pub fn set_unblock(&self, p_conference_id: u64) -> (r: Request)
        ensures
            r.url@ == api_url("messenger"@, "setunblock"@),
            r.body@ == encode_params(
                seq![("conference_id"@, Some(dec_str(p_conference_id as nat)))],
            ),
    {
        self.conference_request("setunblock", p_conference_id)
    }

    /// The request that marks a conference as a favourite.
    pub fn set_favour(&self, p_conference_id: u64) -> (r: Request)
        ensures
            r.url@ == api_url("messenger"@, "setfavour"@),
            r.body@ == encode_params(
                seq![("conference_id"@, Some(dec_str(p_conference_id as nat)))],
            ),
    {
        self.conference_request("setfavour", p_conference_id)
    }

    /// The request that removes the favourite mark of a conference.
    pub fn set_unfavour(&self, p_conference_id: u64) -> (r: Request)
        ensures
            r.url@ == api_url("messenger"@, "setunfavour"@),
            r.body@ == encode_params(
                seq![("conference_id"@, Some(dec_str(p_conference_id as nat)))],
            ),
    {
        self.conference_request("setunfavour", p_conference_id)
    }
}

} // verus!
