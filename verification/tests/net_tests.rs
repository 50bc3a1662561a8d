use pumpbot::http::{HttpUpdate, PbHttpServer, PbHttpServerCommands, PbHttpServerError, PbHttpServerResponse, SET_SETTINGS_FAILED_STATUS};
use pumpbot::lang::Lang;
use pumpbot::net::{hex_u16, string_from_ip, IpAddress, ServerCommand, ServerConnection};
use pumpbot::settings::PbGlobalSettings;

#[test]
fn ipv4_is_dotted_decimal() {
    assert_eq!(string_from_ip(&IpAddress::Ipv4([192, 168, 0, 17])), "192.168.0.17");
    assert_eq!(string_from_ip(&IpAddress::Ipv4([0, 0, 0, 0])), "0.0.0.0");
}

#[test]
fn ipv6_groups_without_leading_zeros() {
    let mut o = [0u8; 16];
    o[0] = 0x20;
    o[1] = 0x01;
    o[2] = 0x0d;
    o[3] = 0xb8;
    o[15] = 0x01;
    assert_eq!(string_from_ip(&IpAddress::Ipv6(o)), "2001:db8:0:0:0:0:0:1");
}

#[test]
fn hex_digits() {
    assert_eq!(hex_u16(0), b"0".to_vec());
    assert_eq!(hex_u16(0xabcd), b"abcd".to_vec());
    assert_eq!(hex_u16(0x0f0), b"f0".to_vec());
}

#[test]
fn server_starts_unset() {
    let s = ServerConnection::new();
    assert_eq!(s.server_ip, IpAddress::Ipv4([0, 0, 0, 0]));
    assert_eq!(s.server_port, 0);
    assert_eq!(s.connect_command(), ServerCommand::Connect(IpAddress::Ipv4([0, 0, 0, 0]), 0));
}

fn settings() -> PbGlobalSettings {
    PbGlobalSettings::new()
}

#[test]
fn settings_string_holds_language_last() {
    let mut s = settings();
    assert_eq!(s.to_string(), "0,#000000,0,0,0,0,#000000,#000000,0,0");
    s.lang = Lang::De;
    assert_eq!(s.to_string(), "0,#000000,0,0,0,0,#000000,#000000,0,8");
}

#[test]
fn settings_from_form_fields() {
    let mut s = settings();
    s.set_from_string("t=0&tc=1&b=2&rb=3&rs=4&rm=5&rc=6&rc2=7&p=8&l=2".to_string());
    assert_eq!(s.lang, Lang::Fr);
}

#[test]
fn http_language_and_wifi() {
    let server = PbHttpServer::new();
    let mut s = settings();
    s.lang = Lang::Pt;
    let u = server.update(&PbHttpServerCommands::GetLanguage, &mut s, vec![], ("", ""));
    assert!(matches!(u.response, Some(PbHttpServerResponse::Language(4))));
    let u = server.update(&PbHttpServerCommands::GetWifi, &mut s, vec!["n1".to_string()], ("", ""));
    assert!(matches!(u.response, Some(PbHttpServerResponse::WifiList(ref l)) if l == &vec!["n1".to_string()]));
}

#[test]
fn http_settings_string() {
    let server = PbHttpServer::new();
    let mut s = settings();
    let u = server.update(&PbHttpServerCommands::GetSettings, &mut s, vec![], ("home", "pw"));
    assert!(matches!(u.response, Some(PbHttpServerResponse::Settings(ref x)) if x == "home,pw,0,#000000,0,0,0,0,#000000,#000000,0,0"));
    assert!(u.connect.is_none());
}

#[test]
fn http_set_settings_connects_and_sets() {
    let server = PbHttpServer::new();
    let mut s = settings();
    let form = "ws=other&wp=pass&t=0&tc=1&b=2&rb=3&rs=4&rm=5&rc=6&rc2=7&p=8&l=1".to_string();
    let u: HttpUpdate = server.update(&PbHttpServerCommands::SetSettings(form), &mut s, vec![], ("home", "pass"));
    assert_eq!(u.connect, Some((b"ws=other".to_vec(), b"wp=pass".to_vec())));
    assert!(matches!(u.response, Some(PbHttpServerResponse::SetSettingsSuccess)));
    assert_eq!(s.lang, Lang::Jp);
}

#[test]
fn http_set_settings_same_network() {
    let server = PbHttpServer::new();
    let mut s = settings();
    // the password is compared from its fifth byte on
    let u = server.update(&PbHttpServerCommands::SetSettings("ws=home&wp=pass".to_string()), &mut s, vec![], ("home", "ass"));
    assert!(u.connect.is_none());
    assert!(u.response.is_none());
    assert_eq!(s.lang, Lang::En);
}

#[test]
fn http_error_messages() {
    assert_eq!(PbHttpServerError::LockError.message(), "Could not lock the PB settings struct!");
    assert_eq!(PbHttpServerError::RecvError("closed".to_string()).message(), "Receiver error: closed");
    assert_eq!(PbHttpServerError::BoardIO("x".to_string()).message(), "HTTP: board IO error: x");
}

#[test]
fn http_answer_bodies() {
    assert_eq!(PbHttpServer::get_language_handler(PbHttpServerResponse::Language(3)).unwrap(), b"3".to_vec());
    assert!(matches!(
        PbHttpServer::get_language_handler(PbHttpServerResponse::SetSettingsSuccess),
        Err(PbHttpServerError::BadResponse)
    ));
    let list = PbHttpServerResponse::WifiList(vec!["home".to_string(), "café".to_string(), "x".to_string()]);
    assert_eq!(PbHttpServer::get_wifi_handler(list).unwrap(), "home,café,x".as_bytes().to_vec());
    assert_eq!(PbHttpServer::get_wifi_handler(PbHttpServerResponse::WifiList(vec![])).unwrap(), Vec::<u8>::new());
    assert!(matches!(PbHttpServer::get_wifi_handler(PbHttpServerResponse::Language(0)), Err(PbHttpServerError::BadResponse)));
    assert_eq!(
        PbHttpServer::get_settings_handler(PbHttpServerResponse::Settings("a,b,c".to_string())).unwrap(),
        b"a,b,c".to_vec()
    );
    assert!(matches!(
        PbHttpServer::get_settings_handler(PbHttpServerResponse::SetSettingsSuccess),
        Err(PbHttpServerError::BadResponse)
    ));
    assert_eq!(PbHttpServer::set_settings_handler(PbHttpServerResponse::SetSettingsSuccess).unwrap(), b"OK".to_vec());
    assert!(matches!(
        PbHttpServer::set_settings_handler(PbHttpServerResponse::Settings(String::new())),
        Err(PbHttpServerError::BadResponse)
    ));
    assert_eq!(SET_SETTINGS_FAILED_STATUS, 521);
}

#[test]
fn form_body_becomes_command() {
    match PbHttpServer::set_settings_command(b"ws=net&wp=pw") {
        PbHttpServerCommands::SetSettings(s) => assert_eq!(s, "ws=net&wp=pw"),
        _ => panic!("wrong command"),
    }
    match PbHttpServer::set_settings_command(&[0x61, 0xff, 0x62]) {
        PbHttpServerCommands::SetSettings(s) => assert_eq!(s, "a\u{fffd}b"),
        _ => panic!("wrong command"),
    }
}
