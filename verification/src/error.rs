//! The error type of the library and the table of API error codes.
//!
//! Every failure of a call is surfaced immediately as one `Error` value:
//! a transport failure, a malformed response, a failure the server reported
//! (with its numeric code and message preserved verbatim), or a response
//! that promised a payload and carried none.

use vstd::prelude::*;
use vstd::string::StringExecFns;

verus! {

/// A failure of one API call, surfaced unchanged to the caller.
#[derive(Debug, Clone, PartialEq)]
pub enum Error {
    /// The transport could not complete the request; carries the
    /// transport's own description of the problem.
    Hyper(String),
    /// The response body was not the expected JSON shape; carries the
    /// decoder's own description of the problem.
    SerdeError(String),
    /// Reading the response stream failed; carries the description.
    Io(String),
    /// The server reported a failure: the numeric code and the message
    /// exactly as the envelope carried them.
    ProxerError(u16, String),
    /// A local failure, such as a missing payload after a successful
    /// error check.
    Other(String),
}

impl From<(u16, String)> for Error {
    /// Wraps a server-reported code and message as a `ProxerError`.
    fn from(err: (u16, String)) -> (r: Error) {
        Error::ProxerError(err.0, err.1)
    }
}

impl vstd::std_specs::convert::FromSpecImpl<(u16, String)> for Error {
    open spec fn obeys_from_spec() -> bool {
        true
    }

    open spec fn from_spec(t: (u16, String)) -> Error {
        Error::ProxerError(t.0, t.1)
    }
}

impl From<String> for Error {
    /// Wraps a local failure description as an `Other` error.
    fn from(err: String) -> (r: Error) {
        Error::Other(err)
    }
}

impl vstd::std_specs::convert::FromSpecImpl<String> for Error {
    open spec fn obeys_from_spec() -> bool {
        true
    }

    open spec fn from_spec(t: String) -> Error {
        Error::Other(t)
    }
}

/// The fixed description for each known API error code.  Codes in the
/// 1000s concern the API itself, the 2000s access and firewall problems,
/// and the 3000s per-feature validation; every other code falls back to a
/// generic text.
pub open spec fn spec_decode(code: u16) -> Seq<char> {
    if code == 1000 {
        "API-Version existiert nicht."@
    } else if code == 1001 {
        "API-Version wurde entfernt."@
    } else if code == 1002 {
        "API-Klasse existiert nicht."@
    } else if code == 1003 {
        "API-Funktion existiert nicht."@
    } else if code == 1004 {
        "Der API-Schlüssel besitzt nicht ausreichend Rechte um diese Aktion durchzuführen."@
    } else if code == 1005 {
        "Es wurde ein ungültiges Login-Token verwendet."@
    } else if code == 1006 {
        "Die aufgerufene Funktion wurde gesperrt."@
    } else if code == 2000 {
        "IP von Firewall geblockt."@
    } else if code == 2001 {
        "News: Fehler bei der Abfrage der News."@
    } else if code == 3000 {
        "Login: Fehlende Login-Daten."@
    } else if code == 3001 {
        "Login: Ungültige Login-Daten."@
    } else if code == 3002 {
        "Notifications: User nicht eingeloggt."@
    } else if code == 3003 {
        "Userinfo: Userid existiert nicht."@
    } else if code == 3004 {
        "Ucp: User nicht eingeloggt."@
    } else if code == 3005 {
        "Ucp: Kategorie existiert nicht."@
    } else if code == 3006 {
        "Ucp: Ungültige ID."@
    } else if code == 3007 {
        "Info: Ungültige ID."@
    } else if code == 3008 {
        "Info: setUserInfo: Ungültiger Typ."@
    } else if code == 3009 {
        "Info: setUserInfo: User nicht eingeloggt."@
    } else if code == 3010 {
        "Info: setUserInfo: Werk bereits in Liste enthalten."@
    } else if code == 3011 {
        "Info: setUserInfo: Anzahl zulässiger Favoriten überschritten."@
    } else if code == 3012 {
        "Login: Der User ist bereits eingeloggt."@
    } else if code == 3013 {
        "Login: Ein anderer User ist bereits eingeloggt."@
    } else if code == 3014 {
        "User: Der Zugriff auf die gesuchte Information wurde verweigert (möglicherweise sollte ein User eingeloggt werden)."@
    } else if code == 3015 {
        "List: Kategorie existiert nicht."@
    } else if code == 3016 {
        "List: Medium existiert nicht."@
    } else if code == 3017 {
        "Media: Stil existiert nicht."@
    } else if code == 3018 {
        "Media: Eintrag existiert nicht."@
    } else if code == 3019 {
        "Manga: Kapitel existiert nicht (nicht hochgeladen)."@
    } else if code == 3020 {
        "Anime: Episode existiert nicht (keine Streams)."@
    } else if code == 3021 {
        "Anime: Stream existiert nicht."@
    } else if code == 3022 {
        "Ucp: Episode existiert nicht."@
    } else if code == 3023 {
        "Messages: Der User ist nicht eingeloggt."@
    } else if code == 3024 {
        "Messages: Ungültige Konferenz (fehlende Berechtigung oder fehlerhafte Konferenz-ID)."@
    } else if code == 3025 {
        "Messages: Ungültige/Fehlende Eingabe bei Meldegrund."@
    } else if code == 3026 {
        "Messages: Ungültige/Fehlende Nachricht."@
    } else if code == 3027 {
        "Messages: Ungültiger Benutzer."@
    } else if code == 3028 {
        "Messages: Die maximale Anzahl an Usern wurde erreicht."@
    } else if code == 3029 {
        "Messages: Ungültiges/Fehlendes Thema."@
    } else if code == 3030 {
        "Messages: Es muss mindestens ein Benutzer in einer Konferenz hinzugefügt werden."@
    } else if code == 3031 {
        "Chat: Ungültiger Raum."@
    } else if code == 3032 {
        "Chat: Keine Berechtigungen."@
    } else if code == 3033 {
        "Chat: Ungültige Nachricht."@
    } else if code == 3034 {
        "Chat: Nicht eingeloggt."@
    } else if code == 3035 {
        "List: Ungültige Sprache."@
    } else if code == 3036 {
        "List: Ungültiger Typ."@
    } else if code == 3037 {
        "List: Ungültige ID."@
    } else {
        "Unknown Code"@
    }
}

/// Translates a numeric API error code into its human-readable
/// description.
pub struct DecodeErrorCode;

impl DecodeErrorCode {
    /// Looks the given code up in the fixed table; unknown codes fall back
    /// to a generic text.
    pub fn decode(p_code: u16) -> (r: String)
        ensures
            r@ == spec_decode(p_code),
    {
        match p_code {
            1000 => String::from_str("API-Version existiert nicht."),
            1001 => String::from_str("API-Version wurde entfernt."),
            1002 => String::from_str("API-Klasse existiert nicht."),
            1003 => String::from_str("API-Funktion existiert nicht."),
            1004 => String::from_str(
                "Der API-Schlüssel besitzt nicht ausreichend Rechte um diese Aktion durchzuführen.",
            ),
            1005 => String::from_str("Es wurde ein ungültiges Login-Token verwendet."),
            1006 => String::from_str("Die aufgerufene Funktion wurde gesperrt."),
            2000 => String::from_str("IP von Firewall geblockt."),
            2001 => String::from_str("News: Fehler bei der Abfrage der News."),
            3000 => String::from_str("Login: Fehlende Login-Daten."),
            3001 => String::from_str("Login: Ungültige Login-Daten."),
            3002 => String::from_str("Notifications: User nicht eingeloggt."),
            3003 => String::from_str("Userinfo: Userid existiert nicht."),
            3004 => String::from_str("Ucp: User nicht eingeloggt."),
            3005 => String::from_str("Ucp: Kategorie existiert nicht."),
            3006 => String::from_str("Ucp: Ungültige ID."),
            3007 => String::from_str("Info: Ungültige ID."),
            3008 => String::from_str("Info: setUserInfo: Ungültiger Typ."),
            3009 => String::from_str("Info: setUserInfo: User nicht eingeloggt."),
            3010 => String::from_str("Info: setUserInfo: Werk bereits in Liste enthalten."),
            3011 => String::from_str(
                "Info: setUserInfo: Anzahl zulässiger Favoriten überschritten.",
            ),
            3012 => String::from_str("Login: Der User ist bereits eingeloggt."),
            3013 => String::from_str("Login: Ein anderer User ist bereits eingeloggt."),
            3014 => String::from_str(
                "User: Der Zugriff auf die gesuchte Information wurde verweigert (möglicherweise sollte ein User eingeloggt werden).",
            ),
            3015 => String::from_str("List: Kategorie existiert nicht."),
            3016 => String::from_str("List: Medium existiert nicht."),
            3017 => String::from_str("Media: Stil existiert nicht."),
            3018 => String::from_str("Media: Eintrag existiert nicht."),
            3019 => String::from_str("Manga: Kapitel existiert nicht (nicht hochgeladen)."),
            3020 => String::from_str("Anime: Episode existiert nicht (keine Streams)."),
            3021 => String::from_str("Anime: Stream existiert nicht."),
            3022 => String::from_str("Ucp: Episode existiert nicht."),
            3023 => String::from_str("Messages: Der User ist nicht eingeloggt."),
            3024 => String::from_str(
                "Messages: Ungültige Konferenz (fehlende Berechtigung oder fehlerhafte Konferenz-ID).",
            ),
            3025 => String::from_str("Messages: Ungültige/Fehlende Eingabe bei Meldegrund."),
            3026 => String::from_str("Messages: Ungültige/Fehlende Nachricht."),
            3027 => String::from_str("Messages: Ungültiger Benutzer."),
            3028 => String::from_str("Messages: Die maximale Anzahl an Usern wurde erreicht."),
            3029 => String::from_str("Messages: Ungültiges/Fehlendes Thema."),
            3030 => String::from_str(
                "Messages: Es muss mindestens ein Benutzer in einer Konferenz hinzugefügt werden.",
            ),
            3031 => String::from_str("Chat: Ungültiger Raum."),
            3032 => String::from_str("Chat: Keine Berechtigungen."),
            3033 => String::from_str("Chat: Ungültige Nachricht."),
            3034 => String::from_str("Chat: Nicht eingeloggt."),
            3035 => String::from_str("List: Ungültige Sprache."),
            3036 => String::from_str("List: Ungültiger Typ."),
            3037 => String::from_str("List: Ungültige ID."),
            _ => String::from_str("Unknown Code"),
        }
    }
}

} // verus!
