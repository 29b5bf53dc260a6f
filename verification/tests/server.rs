use blackjack::server::config::{ApplicationSettings, Environment, Settings};
use blackjack::server::socket::{
    ascii_lower, eq_ignore_ascii_case, is_ping, reply_to, Incoming, Reply,
};
use blackjack::server::ServerMessage;

#[test]
fn names_of_the_environments() {
    assert_eq!(Environment::Local.as_str(), "local");
    assert_eq!(Environment::Production.as_str(), "production");
}

#[test]
fn environments_are_read_in_any_case() {
    assert_eq!(
        Environment::try_from("local".to_string()),
        Ok(Environment::Local)
    );
    assert_eq!(
        Environment::try_from("LOCAL".to_string()),
        Ok(Environment::Local)
    );
    assert_eq!(
        Environment::try_from("Production".to_string()),
        Ok(Environment::Production)
    );
    assert_eq!(
        Environment::try_from("pRoDuCtIoN".to_string()),
        Ok(Environment::Production)
    );
}

#[test]
fn other_names_are_refused_in_lower_case() {
    assert_eq!(
        Environment::try_from("Staging".to_string()),
        Err("staging is not a valid environment".to_string())
    );
    assert_eq!(
        Environment::try_from(String::new()),
        Err(" is not a valid environment".to_string())
    );
    assert_eq!(
        Environment::try_from(" local".to_string()),
        Err(" local is not a valid environment".to_string())
    );
    assert_eq!(
        Environment::try_from("ÉTÉ".to_string()),
        Err("été is not a valid environment".to_string())
    );
}

#[test]
fn names_in_lower_case() {
    assert_eq!(Environment::from_lowercase("local"), Ok(Environment::Local));
    assert_eq!(
        Environment::from_lowercase("production"),
        Ok(Environment::Production)
    );
    assert_eq!(
        Environment::from_lowercase("Local"),
        Err("Local is not a valid environment".to_string())
    );
    assert_eq!(
        Environment::from_lowercase("prod"),
        Err("prod is not a valid environment".to_string())
    );
}

#[test]
fn settings_hold_host_and_port() {
    let settings = Settings {
        application: ApplicationSettings {
            host: "127.0.0.1".to_string(),
            port: 3000,
        },
    };
    assert_eq!(settings.application.host, "127.0.0.1");
    assert_eq!(settings.application.port, 3000);
}

#[test]
fn small_letters_of_ascii() {
    assert_eq!(ascii_lower(b'A'), b'a');
    assert_eq!(ascii_lower(b'Z'), b'z');
    assert_eq!(ascii_lower(b'a'), b'a');
    assert_eq!(ascii_lower(b'@'), b'@');
    assert_eq!(ascii_lower(b'['), b'[');
    assert_eq!(ascii_lower(0), 0);
    assert_eq!(ascii_lower(0xc9), 0xc9);
    for byte in 0..=255u8 {
        assert_eq!(ascii_lower(byte), byte.to_ascii_lowercase());
    }
}

#[test]
fn texts_compared_without_case() {
    assert!(eq_ignore_ascii_case(b"Ping", b"pING"));
    assert!(eq_ignore_ascii_case(b"", b""));
    assert!(!eq_ignore_ascii_case(b"ping", b"pin"));
    assert!(!eq_ignore_ascii_case(b"ping", b"pong"));
    assert!(!eq_ignore_ascii_case(b"pin", b"ping"));
}

#[test]
fn pings_in_words() {
    for text in ["ping", "PING", "Ping", "pInG"] {
        assert!(is_ping(text));
        assert!(text.eq_ignore_ascii_case("ping"));
    }
    for text in ["", "pin", "pings", " ping", "ping ", "pong", "pïng", "ｐing"] {
        assert!(!is_ping(text));
        assert!(!text.eq_ignore_ascii_case("ping"));
    }
}

#[test]
fn what_the_server_answers() {
    assert_eq!(
        reply_to(Incoming::Text("ping".to_string())),
        Reply::Send(ServerMessage::Pong)
    );
    assert_eq!(
        reply_to(Incoming::Text("PiNg".to_string())),
        Reply::Send(ServerMessage::Pong)
    );
    assert_eq!(reply_to(Incoming::Text("hello".to_string())), Reply::Ignore);
    assert_eq!(reply_to(Incoming::Text(String::new())), Reply::Ignore);
    assert_eq!(
        reply_to(Incoming::Ping(vec![1, 2, 3])),
        Reply::Pong(vec![1, 2, 3])
    );
    assert_eq!(reply_to(Incoming::Ping(vec![])), Reply::Pong(vec![]));
    assert_eq!(reply_to(Incoming::Close), Reply::Stop);
    assert_eq!(reply_to(Incoming::Other), Reply::Ignore);
}
