//! Tests of the enum-to-wire-string mappings, one value per variant.

use proxer_rs::models::{ConferenceOption, Firma, Kategorie, Language, LengthLimit, Medium,
    SearchSort, Sort, SubType, TranslationStatus, WatchType};

#[test]
fn kategorie_wire_strings() {
    assert_eq!(Kategorie::Anime.to_param(), "anime");
    assert_eq!(Kategorie::Manga.to_param(), "manga");
}

#[test]
fn medium_wire_strings() {
    assert_eq!(Medium::Animeseries.to_param(), "animeseries");
    assert_eq!(Medium::Movie.to_param(), "movie");
    assert_eq!(Medium::OVA.to_param(), "ova");
    assert_eq!(Medium::Hentai.to_param(), "hentai");
    assert_eq!(Medium::Mangaseries.to_param(), "mangaseries");
    assert_eq!(Medium::Oneshot.to_param(), "onshot");
    assert_eq!(Medium::Doujin.to_param(), "doujin");
    assert_eq!(Medium::Hmanga.to_param(), "hmanga");
}

#[test]
fn sort_wire_strings() {
    assert_eq!(Sort::NameASC.to_param(), "nameASC");
    assert_eq!(Sort::NameDESC.to_param(), "nameDESC");
    assert_eq!(Sort::StateNameASC.to_param(), "stateNameASC");
    assert_eq!(Sort::StateNameDESC.to_param(), "stateNameDESC");
    assert_eq!(Sort::ChangeDateASC.to_param(), "changeDateASC");
    assert_eq!(Sort::ChangeDateDESC.to_param(), "changeDateDESC");
    assert_eq!(Sort::StateChangeDateASC.to_param(), "stateChangeDateASC");
    assert_eq!(Sort::StateChangeDateDESC.to_param(), "stateChangeDateDESC");
}

#[test]
fn firma_wire_strings() {
    assert_eq!(Firma::Publisher.to_param(), "publisher");
    assert_eq!(Firma::Studio.to_param(), "studio");
    assert_eq!(Firma::Producer.to_param(), "producer");
    assert_eq!(Firma::RecordLabel.to_param(), "record_label");
    assert_eq!(Firma::TalentAgent.to_param(), "talent_agent");
    assert_eq!(Firma::Streaming.to_param(), "streaming");
}

#[test]
fn language_wire_strings() {
    assert_eq!(Language::GerSub.to_param(), "gersub");
    assert_eq!(Language::GerDub.to_param(), "gerdub");
    assert_eq!(Language::EngSub.to_param(), "engsub");
    assert_eq!(Language::EngDub.to_param(), "engdub");
}

#[test]
fn watch_type_wire_strings() {
    assert_eq!(WatchType::Note.to_param(), "note");
    assert_eq!(WatchType::Favor.to_param(), "favor");
    assert_eq!(WatchType::Finish.to_param(), "finish");
}

#[test]
fn search_sort_wire_strings() {
    assert_eq!(SearchSort::Relevance.to_param(), "relevance");
    assert_eq!(SearchSort::Clicks.to_param(), "clicks");
    assert_eq!(SearchSort::Count.to_param(), "count");
    assert_eq!(SearchSort::Name.to_param(), "name");
}

#[test]
fn length_limit_wire_strings() {
    assert_eq!(LengthLimit::Up.to_param(), "up");
    assert_eq!(LengthLimit::Down.to_param(), "down");
}

#[test]
fn sub_type_wire_strings() {
    assert_eq!(SubType::Misc.to_param(), "misc");
    assert_eq!(SubType::Persoenlichkeiten.to_param(), "persoenlichkeiten");
    assert_eq!(SubType::Gefuehle.to_param(), "gefuehle");
    assert_eq!(SubType::Zeichungen.to_param(), "zeichnung");
    assert_eq!(SubType::Uebernatuerliches.to_param(), "uebernatuerliches");
    assert_eq!(SubType::Sport.to_param(), "sport");
    assert_eq!(SubType::Menschen.to_param(), "menschen");
    assert_eq!(SubType::Zukunft.to_param(), "zukunft");
    assert_eq!(SubType::Story.to_param(), "story");
    assert_eq!(SubType::Protagonist.to_param(), "prota");
}

#[test]
fn translation_status_wire_strings() {
    assert_eq!(TranslationStatus::Undefined.to_param(), "0");
    assert_eq!(TranslationStatus::Abgeschlossen.to_param(), "1");
    assert_eq!(TranslationStatus::AmLaufen.to_param(), "2");
    assert_eq!(TranslationStatus::Geplant.to_param(), "3");
    assert_eq!(TranslationStatus::Abgebrochen.to_param(), "4");
    assert_eq!(TranslationStatus::Lizensiert.to_param(), "5");
}

#[test]
fn conference_option_wire_strings() {
    assert_eq!(ConferenceOption::Favour.to_param(), "favor");
    assert_eq!(ConferenceOption::Block.to_param(), "block");
    assert_eq!(ConferenceOption::Group.to_param(), "group");
    assert_eq!(ConferenceOption::Default.to_param(), "default");
}
