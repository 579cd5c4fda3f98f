use analogue::config::AnalogueConfig;
use analogue::interactions::{
    build_guild_endpoint, build_response_endpoint, AllowedMentions, InteractionType, ResponseType,
};
use analogue::text::{sorted_names, u64_to_string};

#[test]
fn guild_endpoint_is_exact() {
    assert_eq!(
        build_guild_endpoint("app-1", "guild-2"),
        "https://discord.com/api/v8/applications/app-1/guilds/guild-2/commands"
    );
}

#[test]
fn response_endpoint_is_exact() {
    assert_eq!(
        build_response_endpoint("inter-3", "token-4"),
        "https://discord.com/api/v8/interactions/inter-3/token-4/callback"
    );
}

#[test]
fn allowed_mentions_shapes() {
    let e = AllowedMentions::everyone();
    assert_eq!(e.parse, vec!["everyone".to_string()]);
    assert!(e.roles.is_empty() && e.users.is_empty());
    assert!(!e.replied_user);

    let er = AllowedMentions::everyone_with_reply();
    assert_eq!(er.parse, vec!["everyone".to_string()]);
    assert!(er.replied_user);

    let r = AllowedMentions::reply();
    assert!(r.parse.is_empty());
    assert!(r.replied_user);

    let n = AllowedMentions::none();
    assert!(n.parse.is_empty() && n.roles.is_empty() && n.users.is_empty());
    assert!(!n.replied_user);
}

#[test]
fn wire_codes_match_the_protocol() {
    assert_eq!(InteractionType::Ping.code(), 1);
    assert_eq!(InteractionType::ApplicationCommand.code(), 2);
    assert_eq!(InteractionType::from_code(2), Some(InteractionType::ApplicationCommand));
    assert_eq!(InteractionType::from_code(7), None);

    assert_eq!(ResponseType::Pong.code(), 1);
    assert_eq!(ResponseType::Acknowledge.code(), 2);
    assert_eq!(ResponseType::ChannelMessage.code(), 3);
    assert_eq!(ResponseType::ChannelMessageWithSource.code(), 4);
    assert_eq!(ResponseType::ACKWithSource.code(), 5);
}

#[test]
fn decimal_rendering_is_exact() {
    assert_eq!(u64_to_string(0), "0");
    assert_eq!(u64_to_string(7), "7");
    assert_eq!(u64_to_string(907), "907");
    assert_eq!(u64_to_string(18446744073709551615), "18446744073709551615");
}

#[test]
fn sorted_names_orders_lexicographically_keeping_duplicates() {
    let names = vec!["b".to_string(), "a".to_string(), "b".to_string(), "A".to_string()];
    let sorted = sorted_names(names);
    assert_eq!(sorted, vec!["A", "a", "b", "b"]);
}

#[test]
fn config_membership_and_listing() {
    let cfg = AnalogueConfig::new(
        "cookie".to_string(),
        vec!["Gamer".to_string(), "Artist".to_string()],
        "token".to_string(),
    );
    assert!(cfg.role_allowed(&"Gamer".to_string()));
    assert!(!cfg.role_allowed(&"Admin".to_string()));
    assert_eq!(cfg.roles_listing(), "Artist\nGamer\n");
    assert_eq!(cfg.advent_session(), "cookie");
    assert_eq!(cfg.token(), "token");
    assert_eq!(cfg.roles(), vec!["Gamer", "Artist"]);
}
