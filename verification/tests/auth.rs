use bot_config::auth::AuthType;

#[test]
fn names_are_lowercase() {
    assert_eq!(AuthType::User.to_string(), "user");
    assert_eq!(AuthType::Bot.to_string(), "bot");
    assert_eq!(AuthType::Server.to_string(), "server");
}

#[test]
fn borrowed_and_owned_names_agree() {
    for kind in [AuthType::User, AuthType::Bot, AuthType::Server] {
        assert_eq!(kind.as_str(), kind.to_string());
    }
}

#[test]
fn names_parse_back() {
    assert_eq!(AuthType::parse("user"), Some(AuthType::User));
    assert_eq!(AuthType::parse("bot"), Some(AuthType::Bot));
    assert_eq!(AuthType::parse("server"), Some(AuthType::Server));
    for kind in [AuthType::User, AuthType::Bot, AuthType::Server] {
        assert_eq!(AuthType::parse(kind.as_str()), Some(kind));
    }
}

#[test]
fn unknown_names_are_rejected() {
    assert_eq!(AuthType::parse(""), None);
    assert_eq!(AuthType::parse("User"), None);
    assert_eq!(AuthType::parse("BOT"), None);
    assert_eq!(AuthType::parse("servers"), None);
    assert_eq!(AuthType::parse(" user"), None);
    assert_eq!(AuthType::parse("admin"), None);
}

#[test]
fn kinds_are_plain_values() {
    let kind = AuthType::Bot;
    let copy = kind;
    assert_eq!(kind, copy);
    assert_ne!(AuthType::User, AuthType::Server);
    assert_eq!(format!("{:?}", AuthType::Server), "Server");
}
