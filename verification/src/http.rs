//! The board's web page: the requests it forwards to the main loop, the answers it gets back,
//! and how the main loop answers each request.
use vstd::prelude::*;
use crate::settings::{PbGlobalSettings, settings_bytes_ok, settings_bytes_lang, settings_bytes};
use crate::lang::{Lang, lang_code};
use crate::text::{split_fields, split_bytes, ascii_chars, concat_str, append_bytes};
use crate::net::join_with;

verus! {

/// What the web server asks of the main loop.
#[derive(Debug)]
pub enum PbHttpServerCommands {
    GetLanguage,
    GetWifi,
    GetSettings,
    /// Set the network and the settings from a form `ws=...&wp=...&key=value...`.
    SetSettings(String),
}

/// What the main loop answers.
#[derive(Debug)]
pub enum PbHttpServerResponse {
    Language(u8),
    WifiList(Vec<String>),
    Settings(String),
    SetSettingsSuccess,
}

/// What can go wrong in the web server (with the text of the underlying error, where there
/// is one).
#[derive(Debug)]
pub enum PbHttpServerError {
    BoardIO(String),
    FsIO(String),
    Esp(String),
    ArcReclaim,
    MutexError(String),
    UseAfterReclaim,
    LockError,
    RecvError(String),
    BadResponse,
    ResponseError(String),
    CommandError(String),
}

/// The message of an error.
pub open spec fn error_message(e: PbHttpServerError) -> Seq<char> {
    match e {
        PbHttpServerError::BoardIO(s) => "HTTP: board IO error: "@ + s@,
        PbHttpServerError::FsIO(s) => "HTTP: LittleFS IO error: "@ + s@,
        PbHttpServerError::Esp(s) => "HTTP: Esp error: "@ + s@,
        PbHttpServerError::ArcReclaim => "HTTP: Arc containing settings data could not be reclaimed succesfully!"@,
        PbHttpServerError::MutexError(s) => "HTTP: Mutex Error: "@ + s@,
        PbHttpServerError::UseAfterReclaim => "HTTP: Attempted to access PB settings after settings struct has been reclaimed! Note: this should not be possible because callbacks shouldn't happen when HTTP server struct has been dropped."@,
        PbHttpServerError::LockError => "Could not lock the PB settings struct!"@,
        PbHttpServerError::RecvError(s) => "Receiver error: "@ + s@,
        PbHttpServerError::BadResponse => "Bad response received from command thread!"@,
        PbHttpServerError::ResponseError(s) => "Response Sender error: "@ + s@,
        PbHttpServerError::CommandError(s) => "Command Sender error: "@ + s@,
    }
}

impl PbHttpServerError {
    /// The message that describes the error.
    pub fn message(&self) -> (m: String)
        ensures
            m@ == error_message(*self),
    {
        match self {
            PbHttpServerError::BoardIO(s) => concat_str("HTTP: board IO error: ", s.as_str()),
            PbHttpServerError::FsIO(s) => concat_str("HTTP: LittleFS IO error: ", s.as_str()),
            PbHttpServerError::Esp(s) => concat_str("HTTP: Esp error: ", s.as_str()),
            PbHttpServerError::ArcReclaim => "HTTP: Arc containing settings data could not be reclaimed succesfully!".to_owned(),
            PbHttpServerError::MutexError(s) => concat_str("HTTP: Mutex Error: ", s.as_str()),
            PbHttpServerError::UseAfterReclaim => "HTTP: Attempted to access PB settings after settings struct has been reclaimed! Note: this should not be possible because callbacks shouldn't happen when HTTP server struct has been dropped.".to_owned(),
            PbHttpServerError::LockError => "Could not lock the PB settings struct!".to_owned(),
            PbHttpServerError::RecvError(s) => concat_str("Receiver error: ", s.as_str()),
            PbHttpServerError::BadResponse => "Bad response received from command thread!".to_owned(),
            PbHttpServerError::ResponseError(s) => concat_str("Response Sender error: ", s.as_str()),
            PbHttpServerError::CommandError(s) => concat_str("Command Sender error: ", s.as_str()),
        }
    }
}

/// How the main loop answers a request: the answer to send back, if any, and the network to
/// connect to (name and password as sent in the form), if any.
pub struct HttpUpdate {
    pub response: Option<PbHttpServerResponse>,
    pub connect: Option<(Vec<u8>, Vec<u8>)>,
}

/// `i` is at a character's start in `b`: the end, or a byte that does not continue a character.
pub open spec fn starts_char(b: Seq<u8>, i: int) -> bool {
    i == b.len() || !(128 <= b[i] < 192)
}

/// The fields of a form, split on `&`.
pub open spec fn form_fields(form: Seq<u8>) -> Seq<Seq<u8>> {
    split_fields(form, 38)
}

/// A form can be taken as the board takes it: if it has a network and a password, they are at
/// least as long as their keys `ws=` and `wp=` (and the value starts a character); if it has
/// more, the rest is a settings text.
pub open spec fn form_ok(form: Seq<u8>) -> bool {
    let f = form_fields(form);
    &&& f.len() >= 2 ==> (f[0].len() >= 3 && starts_char(f[0], 3) && f[1].len() >= 4 && starts_char(f[1], 4))
    &&& f.len() >= 3 ==> settings_bytes_ok(join_with(f.skip(2), 38))
}

/// The server that the web page talks to. Its requests and answers travel over channels that
/// the caller owns; this is where each request is answered.
pub struct PbHttpServer {}

impl PbHttpServer {
    pub fn new() -> (s: PbHttpServer) {
        PbHttpServer {}
    }

    /// Answers a request. `ssids` are the networks in reach and `connected` the name and the
    /// password of the network the board is on. The language is answered by its number; the
    /// settings as `name,password,` then the settings text; a form sets the network (asking to
    /// connect when the name after `ws=` or the password after `wp=` differs from the current
    /// ones) and then, if it holds more, the settings, and is answered with success.
    pub fn update(&self, cmd: &PbHttpServerCommands, settings: &mut PbGlobalSettings, ssids: Vec<String>, connected: (&str, &str)) -> (u: HttpUpdate)
        requires
            cmd matches PbHttpServerCommands::SetSettings(form) ==> form_ok(vstd::utf8::encode_utf8(form@)),
        ensures
            match *cmd {
                PbHttpServerCommands::GetLanguage =>
                    u.response == Some(PbHttpServerResponse::Language(lang_code(old(settings).lang)))
                    && u.connect is None && *final(settings) == *old(settings),
                PbHttpServerCommands::GetWifi =>
                    u.response == Some(PbHttpServerResponse::WifiList(ssids))
                    && u.connect is None && *final(settings) == *old(settings),
                PbHttpServerCommands::GetSettings =>
                    (u.response matches Some(PbHttpServerResponse::Settings(s))
                        && s@ == connected.0@ + ","@ + connected.1@ + ","@ + ascii_chars(settings_bytes(*old(settings))))
                    && u.connect is None && *final(settings) == *old(settings),
                PbHttpServerCommands::SetSettings(form) => {
                    let f = form_fields(vstd::utf8::encode_utf8(form@));
                    &&& (f.len() >= 2 && (f[0].skip(3) != vstd::utf8::encode_utf8(connected.0@) || f[1].skip(4) != vstd::utf8::encode_utf8(connected.1@)))
                        ==> (u.connect matches Some(c) && c.0@ == f[0] && c.1@ == f[1])
                    &&& !(f.len() >= 2 && (f[0].skip(3) != vstd::utf8::encode_utf8(connected.0@) || f[1].skip(4) != vstd::utf8::encode_utf8(connected.1@)))
                        ==> u.connect is None
                    &&& f.len() >= 3 ==> (u.response == Some(PbHttpServerResponse::SetSettingsSuccess)
                        && final(settings).lang == settings_bytes_lang(join_with(f.skip(2), 38))
                        && final(settings).theme == old(settings).theme)
                    &&& f.len() < 3 ==> (u.response is None && *final(settings) == *old(settings))
                },
            },
    {
        match cmd {
            PbHttpServerCommands::GetLanguage => HttpUpdate {
                response: Some(PbHttpServerResponse::Language(settings.lang.code())),
                connect: None,
            },
            PbHttpServerCommands::GetWifi => HttpUpdate {
                response: Some(PbHttpServerResponse::WifiList(ssids)),
                connect: None,
            },
            PbHttpServerCommands::GetSettings => {
                let a = concat_str(connected.0, ",");
                let b = concat_str(a.as_str(), connected.1);
                let c = concat_str(b.as_str(), ",");
                let st = settings.to_string();
                let d = concat_str(c.as_str(), st.as_str());
                HttpUpdate { response: Some(PbHttpServerResponse::Settings(d)), connect: None }
            },
            PbHttpServerCommands::SetSettings(form) => {
                let bytes = form.as_str().as_bytes();
                let fields = split_bytes(bytes, 38);
                let ghost f = form_fields(bytes@);
                let mut connect: Option<(Vec<u8>, Vec<u8>)> = None;
                if fields.len() >= 2 {
                    let differs = !tail_equals(&fields[0], 3, connected.0.as_bytes())
                        || !tail_equals(&fields[1], 4, connected.1.as_bytes());
                    if differs {
                        connect = Some((copy_vec(&fields[0]), copy_vec(&fields[1])));
                    }
                }
                if fields.len() >= 3 {
                    let rest = join_from(&fields, 2);
                    assert(fields@.skip(2).map_values(|p: Vec<u8>| p@) =~= f.skip(2));
                    settings.set_from_bytes(rest.as_slice());
                    HttpUpdate { response: Some(PbHttpServerResponse::SetSettingsSuccess), connect }
                } else {
                    HttpUpdate { response: None, connect }
                }
            },
        }
    }
}

/// A copy of the bytes.
fn copy_vec(v: &Vec<u8>) -> (c: Vec<u8>)
    ensures
        c@ == v@,
{
    let mut c: Vec<u8> = Vec::new();
    append_bytes(&mut c, v.as_slice());
    c
}

/// Whether `a` from byte `k` on is `b`.
fn tail_equals(a: &Vec<u8>, k: usize, b: &[u8]) -> (r: bool)
    requires
        k <= a@.len(),
    ensures
        r == (a@.skip(k as int) == b@),
{
    if a.len() - k != b.len() {
        assert(a@.skip(k as int).len() != b@.len());
        return false;
    }
    let alen = a.len();
    let mut i: usize = 0;
    while i < b.len()
        invariant
            alen == a@.len(),
            k <= a@.len(),
            a@.len() - k == b@.len(),
            i <= b@.len(),
            forall|j: int| 0 <= j < i ==> a@[k + j] == #[trigger] b@[j],
        decreases b@.len() - i,
    {
        if a[k + i] != b[i] {
            assert(a@.skip(k as int)[i as int] != b@[i as int]);
            return false;
        }
        i = i + 1;
    }
    assert(a@.skip(k as int) =~= b@);
    true
}

/// The pieces from `from` on, joined by `&`.
fn join_from(pieces: &Vec<Vec<u8>>, from: usize) -> (out: Vec<u8>)
    requires
        from < pieces@.len(),
    ensures
        out@ == join_with(pieces@.skip(from as int).map_values(|p: Vec<u8>| p@), 38),
{
    let ghost views = pieces@.map_values(|p: Vec<u8>| p@);
    let mut out: Vec<u8> = Vec::new();
    let mut i: usize = from;
    while i < pieces.len()
        invariant
            from <= i <= pieces@.len(),
            from < pieces@.len(),
            views == pieces@.map_values(|p: Vec<u8>| p@),
            out@ == join_with(views.subrange(from as int, i as int), 38),
        decreases pieces@.len() - i,
    {
        proof {
            assert(views.subrange(from as int, i + 1).drop_last() =~= views.subrange(from as int, i as int));
            assert(views.subrange(from as int, i + 1).last() == pieces@[i as int]@);
        }
        if i > from {
            out.push(38);
        } else {
            assert(views.subrange(from as int, i as int) =~= Seq::<Seq<u8>>::empty());
            assert(views.subrange(from as int, i + 1) =~= seq![pieces@[i as int]@]);
        }
        let ghost before = out@;
        append_bytes(&mut out, pieces[i].as_slice());
        proof {
            if i == from {
                assert(before =~= Seq::<u8>::empty());
                assert(out@ =~= pieces@[i as int]@);
            }
        }
        i = i + 1;
    }
    assert(views.subrange(from as int, pieces@.len() as int) =~= pieces@.skip(from as int).map_values(|p: Vec<u8>| p@));
    out
}

/// The status the board answers a form with when the main loop did not confirm it.
pub const SET_SETTINGS_FAILED_STATUS: u16 = 521;

/// What `String::from_utf8_lossy` makes of some bytes: the chars that valid UTF-8 encodes,
/// with each invalid sequence replaced by U+FFFD.
pub uninterp spec fn utf8_lossy(b: Seq<u8>) -> Seq<char>;

/// `String::from_utf8_lossy` of std, made an owned `String`. Its documentation states that
/// valid UTF-8 comes back as the chars it encodes; what an invalid sequence becomes is only
/// named here.
#[verifier::external_body]
fn lossy_string(b: &[u8]) -> (s: String)
    ensures
        s@ == utf8_lossy(b@),
        vstd::utf8::valid_utf8(b@) ==> s@ == vstd::utf8::decode_utf8(b@),
{
    String::from_utf8_lossy(b).into_owned()
}

/// The strings' UTF-8 encodings joined by `sep`.
pub open spec fn join_strings(ws: Seq<String>, sep: u8) -> Seq<u8> {
    join_with(ws.map_values(|w: String| vstd::utf8::encode_utf8(w@)), sep)
}

impl PbHttpServer {
    /// The body of the answer to `/get_language`: the language's number as one ASCII digit,
    /// or `BadResponse` when the main loop answered something else.
    pub fn get_language_handler(resp: PbHttpServerResponse) -> (r: Result<Vec<u8>, PbHttpServerError>)
        requires
            resp matches PbHttpServerResponse::Language(l) ==> l + 48 <= 255,
        ensures
            match resp {
                PbHttpServerResponse::Language(l) => r matches Ok(b) && b@ == seq![(l + 48) as u8],
                _ => r matches Err(PbHttpServerError::BadResponse),
            },
    {
        match resp {
            PbHttpServerResponse::Language(l) => {
                let mut b: Vec<u8> = Vec::new();
                b.push(l + 48);
                assert(b@ =~= seq![(l + 48) as u8]);
                Ok(b)
            },
            _ => Err(PbHttpServerError::BadResponse),
        }
    }

    /// The body of the answer to `/get_wifi`: the names of the networks in reach, separated by
    /// commas, or `BadResponse`.
    pub fn get_wifi_handler(resp: PbHttpServerResponse) -> (r: Result<Vec<u8>, PbHttpServerError>)
        ensures
            match resp {
                PbHttpServerResponse::WifiList(ws) => r matches Ok(b) && b@ == join_strings(ws@, 44),
                _ => r matches Err(PbHttpServerError::BadResponse),
            },
    {
        match resp {
            PbHttpServerResponse::WifiList(ws) => {
                let ghost views = ws@.map_values(|w: String| vstd::utf8::encode_utf8(w@));
                let mut out: Vec<u8> = Vec::new();
                let n = ws.len();
                let mut i: usize = 0;
                while i < n
                    invariant
                        n == ws@.len(),
                        i <= n,
                        views == ws@.map_values(|w: String| vstd::utf8::encode_utf8(w@)),
                        out@ == join_with(views.take(i as int), 44),
                    decreases n - i,
                {
                    proof {
                        assert(views.take(i + 1).drop_last() =~= views.take(i as int));
                        assert(views.take(i + 1).last() == vstd::utf8::encode_utf8(ws@[i as int]@));
                    }
                    if i > 0 {
                        out.push(44);
                    } else {
                        assert(views.take(0) =~= Seq::<Seq<u8>>::empty());
                        assert(views.take(1) =~= seq![views[0]]);
                    }
                    let ghost before = out@;
                    append_bytes(&mut out, ws[i].as_str().as_bytes());
                    proof {
                        if i == 0 {
                            assert(before =~= Seq::<u8>::empty());
                            assert(out@ =~= views[0]);
                        }
                    }
                    i = i + 1;
                }
                assert(views.take(n as int) =~= views);
                Ok(out)
            },
            _ => Err(PbHttpServerError::BadResponse),
        }
    }

    /// The body of the answer to `/get_settings`: the settings line as the main loop wrote it,
    /// or `BadResponse`.
    pub fn get_settings_handler(resp: PbHttpServerResponse) -> (r: Result<Vec<u8>, PbHttpServerError>)
        ensures
            match resp {
                PbHttpServerResponse::Settings(s) => r matches Ok(b) && b@ == vstd::utf8::encode_utf8(s@),
                _ => r matches Err(PbHttpServerError::BadResponse),
            },
    {
        match resp {
            PbHttpServerResponse::Settings(s) => {
                let mut out: Vec<u8> = Vec::new();
                append_bytes(&mut out, s.as_str().as_bytes());
                Ok(out)
            },
            _ => Err(PbHttpServerError::BadResponse),
        }
    }

    /// The request that a form posted to `/set_settings` makes of the main loop: its bytes,
    /// read as UTF-8 with invalid sequences replaced.
    pub fn set_settings_command(body: &[u8]) -> (c: PbHttpServerCommands)
        ensures
            c matches PbHttpServerCommands::SetSettings(s) && s@ == utf8_lossy(body@),
            vstd::utf8::valid_utf8(body@) ==> (c matches PbHttpServerCommands::SetSettings(s) && s@
                == vstd::utf8::decode_utf8(body@)),
    {
        PbHttpServerCommands::SetSettings(lossy_string(body))
    }

    /// The body of the answer to a form: `OK` when the main loop confirmed it, else
    /// `BadResponse` (the form is then answered with [`SET_SETTINGS_FAILED_STATUS`]).
    pub fn set_settings_handler(resp: PbHttpServerResponse) -> (r: Result<Vec<u8>, PbHttpServerError>)
        ensures
            match resp {
                PbHttpServerResponse::SetSettingsSuccess => r matches Ok(b) && b@ == seq![79u8, 75u8],
                _ => r matches Err(PbHttpServerError::BadResponse),
            },
    {
        match resp {
            PbHttpServerResponse::SetSettingsSuccess => {
                let mut b: Vec<u8> = Vec::new();
                b.push(79);
                b.push(75);
                assert(b@ =~= seq![79u8, 75u8]);
                Ok(b)
            },
            _ => Err(PbHttpServerError::BadResponse),
        }
    }
}

} // verus!
