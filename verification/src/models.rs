//! Shared response shapes and enumerated parameter values.
//!
//! `Response` and `EmptyResponse` mirror the uniform JSON envelope that
//! every endpoint answers with.  The enums below are the closed sets of
//! values some parameters accept; each carries a pure mapping to its
//! canonical wire string, colocated with the variant definitions.

use vstd::prelude::*;
use vstd::string::StringExecFns;

verus! {

/// The uniform response envelope: an error flag, a message, an optional
/// numeric error code, and the optional payload.
#[derive(Debug, Clone, PartialEq)]
pub struct Response<T> {
    /// `0` on success, `1` when the server reports a failure.
    pub error: u8,
    /// The server's message; empty on success.
    pub message: String,
    /// The numeric error code, when the server reports a failure.
    pub code: Option<u16>,
    /// The payload, when the endpoint returns one and the call succeeded.
    pub data: Option<T>,
}

/// The envelope of a mutation endpoint, which never carries a payload.
#[derive(Debug, Clone, PartialEq)]
pub struct EmptyResponse {
    /// `0` on success, `1` when the server reports a failure.
    pub error: u8,
    /// The server's message; empty on success.
    pub message: String,
    /// The numeric error code, when the server reports a failure.
    pub code: Option<u16>,
}

/// Whether an entry is an anime or a manga.
#[derive(Debug, Clone, PartialEq)]
pub enum Kategorie {
    Anime,
    Manga,
}

impl Kategorie {
    /// The wire string of this category.
    pub open spec fn spec_param(&self) -> Seq<char> {
        match self {
            Kategorie::Anime => "anime"@,
            Kategorie::Manga => "manga"@,
        }
    }

    /// Renders this category as its wire string.
    pub fn to_param(&self) -> (r: String)
        ensures
            r@ == self.spec_param(),
    {
        match self {
            Kategorie::Anime => String::from_str("anime"),
            Kategorie::Manga => String::from_str("manga"),
        }
    }
}

/// The kind of medium an entry is.
#[derive(Debug, Clone, PartialEq)]
pub enum Medium {
    Animeseries,
    Movie,
    OVA,
    Hentai,
    Mangaseries,
    Oneshot,
    Doujin,
    Hmanga,
}

impl Medium {
    /// The wire string of this medium.
    pub open spec fn spec_param(&self) -> Seq<char> {
        match self {
            Medium::Animeseries => "animeseries"@,
            Medium::Movie => "movie"@,
            Medium::OVA => "ova"@,
            Medium::Hentai => "hentai"@,
            Medium::Mangaseries => "mangaseries"@,
            Medium::Oneshot => "onshot"@,
            Medium::Doujin => "doujin"@,
            Medium::Hmanga => "hmanga"@,
        }
    }

    /// Renders this medium as its wire string.
    pub fn to_param(&self) -> (r: String)
        ensures
            r@ == self.spec_param(),
    {
        match self {
            Medium::Animeseries => String::from_str("animeseries"),
            Medium::Movie => String::from_str("movie"),
            Medium::OVA => String::from_str("ova"),
            Medium::Hentai => String::from_str("hentai"),
            Medium::Mangaseries => String::from_str("mangaseries"),
            Medium::Oneshot => String::from_str("onshot"),
            Medium::Doujin => String::from_str("doujin"),
            Medium::Hmanga => String::from_str("hmanga"),
        }
    }
}

/// How a user list is sorted.
#[derive(Debug, Clone, PartialEq)]
pub enum Sort {
    NameASC,
    NameDESC,
    StateNameASC,
    StateNameDESC,
    ChangeDateASC,
    ChangeDateDESC,
    StateChangeDateASC,
    StateChangeDateDESC,
}

impl Sort {
    /// The wire string of this sort order.
    pub open spec fn spec_param(&self) -> Seq<char> {
        match self {
            Sort::NameASC => "nameASC"@,
            Sort::NameDESC => "nameDESC"@,
            Sort::StateNameASC => "stateNameASC"@,
            Sort::StateNameDESC => "stateNameDESC"@,
            Sort::ChangeDateASC => "changeDateASC"@,
            Sort::ChangeDateDESC => "changeDateDESC"@,
            Sort::StateChangeDateASC => "stateChangeDateASC"@,
            Sort::StateChangeDateDESC => "stateChangeDateDESC"@,
        }
    }

    /// Renders this sort order as its wire string.
    pub fn to_param(&self) -> (r: String)
        ensures
            r@ == self.spec_param(),
    {
        match self {
            Sort::NameASC => String::from_str("nameASC"),
            Sort::NameDESC => String::from_str("nameDESC"),
            Sort::StateNameASC => String::from_str("stateNameASC"),
            Sort::StateNameDESC => String::from_str("stateNameDESC"),
            Sort::ChangeDateASC => String::from_str("changeDateASC"),
            Sort::ChangeDateDESC => String::from_str("changeDateDESC"),
            Sort::StateChangeDateASC => String::from_str("stateChangeDateASC"),
            Sort::StateChangeDateDESC => String::from_str("stateChangeDateDESC"),
        }
    }
}

/// The role a company has for an entry.
#[derive(Debug, Clone, PartialEq)]
pub enum Firma {
    Publisher,
    Studio,
    Producer,
    RecordLabel,
    TalentAgent,
    Streaming,
}

impl Firma {
    /// The wire string of this company role.
    pub open spec fn spec_param(&self) -> Seq<char> {
        match self {
            Firma::Publisher => "publisher"@,
            Firma::Studio => "studio"@,
            Firma::Producer => "producer"@,
            Firma::RecordLabel => "record_label"@,
            Firma::TalentAgent => "talent_agent"@,
            Firma::Streaming => "streaming"@,
        }
    }

    /// Renders this company role as its wire string.
    pub fn to_param(&self) -> (r: String)
        ensures
            r@ == self.spec_param(),
    {
        match self {
            Firma::Publisher => String::from_str("publisher"),
            Firma::Studio => String::from_str("studio"),
            Firma::Producer => String::from_str("producer"),
            Firma::RecordLabel => String::from_str("record_label"),
            Firma::TalentAgent => String::from_str("talent_agent"),
            Firma::Streaming => String::from_str("streaming"),
        }
    }
}

/// The language of a stream or chapter, including how it is delivered.
#[derive(Debug, Clone, PartialEq)]
pub enum Language {
    GerSub,
    GerDub,
    EngSub,
    EngDub,
}

impl Language {
    /// The wire string of this language.
    pub open spec fn spec_param(&self) -> Seq<char> {
        match self {
            Language::GerSub => "gersub"@,
            Language::GerDub => "gerdub"@,
            Language::EngSub => "engsub"@,
            Language::EngDub => "engdub"@,
        }
    }

    /// Renders this language as its wire string.
    pub fn to_param(&self) -> (r: String)
        ensures
            r@ == self.spec_param(),
    {
        match self {
            Language::GerSub => String::from_str("gersub"),
            Language::GerDub => String::from_str("gerdub"),
            Language::EngSub => String::from_str("engsub"),
            Language::EngDub => String::from_str("engdub"),
        }
    }
}

/// Which of the user's lists an entry is placed on.
#[derive(Debug, Clone, PartialEq)]
pub enum WatchType {
    Note,
    Favor,
    Finish,
}

impl WatchType {
    /// The wire string of this list kind.
    pub open spec fn spec_param(&self) -> Seq<char> {
        match self {
            WatchType::Note => "note"@,
            WatchType::Favor => "favor"@,
            WatchType::Finish => "finish"@,
        }
    }

    /// Renders this list kind as its wire string.
    pub fn to_param(&self) -> (r: String)
        ensures
            r@ == self.spec_param(),
    {
        match self {
            WatchType::Note => String::from_str("note"),
            WatchType::Favor => String::from_str("favor"),
            WatchType::Finish => String::from_str("finish"),
        }
    }
}

/// How search results are sorted.
#[derive(Debug, Clone, PartialEq)]
pub enum SearchSort {
    Relevance,
    Clicks,
    Count,
    Name,
}

impl SearchSort {
    /// The wire string of this search sort order.
    pub open spec fn spec_param(&self) -> Seq<char> {
        match self {
            SearchSort::Relevance => "relevance"@,
            SearchSort::Clicks => "clicks"@,
            SearchSort::Count => "count"@,
            SearchSort::Name => "name"@,
        }
    }

    /// Renders this search sort order as its wire string.
    pub fn to_param(&self) -> (r: String)
        ensures
            r@ == self.spec_param(),
    {
        match self {
            SearchSort::Relevance => String::from_str("relevance"),
            SearchSort::Clicks => String::from_str("clicks"),
            SearchSort::Count => String::from_str("count"),
            SearchSort::Name => String::from_str("name"),
        }
    }
}

/// Whether a length bound is a minimum or a maximum.
#[derive(Debug, Clone, PartialEq)]
pub enum LengthLimit {
    Up,
    Down,
}

impl LengthLimit {
    /// The wire string of this bound direction.
    pub open spec fn spec_param(&self) -> Seq<char> {
        match self {
            LengthLimit::Up => "up"@,
            LengthLimit::Down => "down"@,
        }
    }

    /// Renders this bound direction as its wire string.
    pub fn to_param(&self) -> (r: String)
        ensures
            r@ == self.spec_param(),
    {
        match self {
            LengthLimit::Up => String::from_str("up"),
            LengthLimit::Down => String::from_str("down"),
        }
    }
}

/// The category a tag belongs to.
#[derive(Debug, Clone, PartialEq)]
pub enum SubType {
    Misc,
    Persoenlichkeiten,
    Gefuehle,
    Zeichungen,
    Uebernatuerliches,
    Sport,
    Menschen,
    Zukunft,
    Story,
    Protagonist,
}

impl SubType {
    /// The wire string of this tag category.
    pub open spec fn spec_param(&self) -> Seq<char> {
        match self {
            SubType::Misc => "misc"@,
            SubType::Persoenlichkeiten => "persoenlichkeiten"@,
            SubType::Gefuehle => "gefuehle"@,
            SubType::Zeichungen => "zeichnung"@,
            SubType::Uebernatuerliches => "uebernatuerliches"@,
            SubType::Sport => "sport"@,
            SubType::Menschen => "menschen"@,
            SubType::Zukunft => "zukunft"@,
            SubType::Story => "story"@,
            SubType::Protagonist => "prota"@,
        }
    }

    /// Renders this tag category as its wire string.
    pub fn to_param(&self) -> (r: String)
        ensures
            r@ == self.spec_param(),
    {
        match self {
            SubType::Misc => String::from_str("misc"),
            SubType::Persoenlichkeiten => String::from_str("persoenlichkeiten"),
            SubType::Gefuehle => String::from_str("gefuehle"),
            SubType::Zeichungen => String::from_str("zeichnung"),
            SubType::Uebernatuerliches => String::from_str("uebernatuerliches"),
            SubType::Sport => String::from_str("sport"),
            SubType::Menschen => String::from_str("menschen"),
            SubType::Zukunft => String::from_str("zukunft"),
            SubType::Story => String::from_str("story"),
            SubType::Protagonist => String::from_str("prota"),
        }
    }
}

/// The translation status of a group's project.
#[derive(Debug, Clone, PartialEq)]
pub enum TranslationStatus {
    Undefined,
    Abgeschlossen,
    AmLaufen,
    Geplant,
    Abgebrochen,
    Lizensiert,
}

impl TranslationStatus {
    /// The wire string of this status, a numeric code.
    pub open spec fn spec_param(&self) -> Seq<char> {
        match self {
            TranslationStatus::Undefined => "0"@,
            TranslationStatus::Abgeschlossen => "1"@,
            TranslationStatus::AmLaufen => "2"@,
            TranslationStatus::Geplant => "3"@,
            TranslationStatus::Abgebrochen => "4"@,
            TranslationStatus::Lizensiert => "5"@,
        }
    }

    /// Renders this status as its wire string.
    pub fn to_param(&self) -> (r: String)
        ensures
            r@ == self.spec_param(),
    {
        match self {
            TranslationStatus::Undefined => String::from_str("0"),
            TranslationStatus::Abgeschlossen => String::from_str("1"),
            TranslationStatus::AmLaufen => String::from_str("2"),
            TranslationStatus::Geplant => String::from_str("3"),
            TranslationStatus::Abgebrochen => String::from_str("4"),
            TranslationStatus::Lizensiert => String::from_str("5"),
        }
    }
}

/// Which kind of conferences a listing returns.
#[derive(Debug, Clone, PartialEq)]
pub enum ConferenceOption {
    Favour,
    Block,
    Group,
    Default,
}

impl ConferenceOption {
    /// The wire string of this conference filter.
    pub open spec fn spec_param(&self) -> Seq<char> {
        match self {
            ConferenceOption::Favour => "favor"@,
            ConferenceOption::Block => "block"@,
            ConferenceOption::Group => "group"@,
            ConferenceOption::Default => "default"@,
        }
    }

    /// Renders this conference filter as its wire string.
    pub fn to_param(&self) -> (r: String)
        ensures
            r@ == self.spec_param(),
    {
        match self {
            ConferenceOption::Favour => String::from_str("favor"),
            ConferenceOption::Block => String::from_str("block"),
            ConferenceOption::Group => String::from_str("group"),
            ConferenceOption::Default => String::from_str("default"),
        }
    }
}

} // verus!
