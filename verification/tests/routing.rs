use analogue::advent::{Leaderboard, Member};
use analogue::cache::FetchFailure;
use analogue::config::AnalogueConfig;
use analogue::interactions::{
    DataOption, Interaction, InteractionData, InteractionGuildMember, InteractionType,
    InteractionUser, Response, ResponseType,
};
use analogue::registry::{HandlerKind, Registry, RegistryError};
use analogue::router::{
    advent_interaction, default_commands, dispatch, default_registry, help_text, AdventOutcome,
    Dispatched, RoleAction, RoleContext,
};

fn config(roles: Vec<&str>) -> AnalogueConfig {
    AnalogueConfig::new(
        "session-cookie".to_string(),
        roles.into_iter().map(|r| r.to_string()).collect(),
        "bot-token".to_string(),
    )
}

fn interaction(command: &str, options: Option<Vec<DataOption>>) -> Interaction {
    Interaction {
        id: "inter-1".to_string(),
        kind: InteractionType::ApplicationCommand,
        data: InteractionData {
            id: "cmd-1".to_string(),
            name: command.to_string(),
            options,
        },
        guild_id: "guild-1".to_string(),
        channel_id: "chan-1".to_string(),
        member: InteractionGuildMember {
            user: InteractionUser { id: "user-1".to_string() },
        },
        token: "reply-token".to_string(),
        version: 1,
    }
}

fn role_option(value: Option<&str>) -> Vec<DataOption> {
    vec![DataOption {
        name: "role".to_string(),
        value: value.map(|v| v.to_string()),
        options: None,
    }]
}

fn embed_description(r: &Response) -> String {
    r.data.as_ref().unwrap().embeds[0].description.clone()
}

#[test]
fn registry_rejects_duplicate_names() {
    let mut reg = Registry::new();
    assert!(reg.register("advent".to_string(), HandlerKind::Advent).is_ok());
    assert_eq!(
        reg.register("advent".to_string(), HandlerKind::Roles),
        Err(RegistryError::DuplicateCommand)
    );
    assert_eq!(reg.lookup(&"advent".to_string()), Some(HandlerKind::Advent));
}

#[test]
fn registry_lookup_of_unregistered_name_is_none() {
    let reg = default_registry();
    assert_eq!(reg.lookup(&"missing".to_string()), None);
    assert_eq!(reg.lookup(&"role".to_string()), Some(HandlerKind::Role));
    assert_eq!(reg.lookup(&"roles".to_string()), Some(HandlerKind::Roles));
}

#[test]
fn ping_gets_a_pong() {
    let reg = default_registry();
    let cfg = config(vec![]);
    let mut i = interaction("anything", None);
    i.kind = InteractionType::Ping;
    let ctx = RoleContext { resolved_name: None, member_has_role: false };
    match dispatch(&reg, &i, &cfg, &ctx) {
        Dispatched::Reply(r, RoleAction::Nothing) => {
            assert!(matches!(r.kind, ResponseType::Pong));
            assert!(r.data.is_none());
        }
        _ => panic!("a ping must get a bare pong"),
    }
}

#[test]
fn unknown_command_is_a_first_class_reply() {
    let reg = default_registry();
    let cfg = config(vec![]);
    let i = interaction("no-such-command", None);
    let ctx = RoleContext { resolved_name: None, member_has_role: false };
    match dispatch(&reg, &i, &cfg, &ctx) {
        Dispatched::Reply(r, RoleAction::Nothing) => {
            assert_eq!(embed_description(&r), "Unsupported command.");
        }
        _ => panic!("unknown commands must get the generic reply"),
    }
}

#[test]
fn advent_command_is_left_pending() {
    let reg = default_registry();
    let cfg = config(vec![]);
    let i = interaction("advent", None);
    let ctx = RoleContext { resolved_name: None, member_has_role: false };
    assert!(matches!(dispatch(&reg, &i, &cfg, &ctx), Dispatched::AdventPending));
}

#[test]
fn role_outside_allow_list_is_denied_without_mutation() {
    let reg = default_registry();
    let cfg = config(vec!["Gamer", "Coder"]);
    let i = interaction("role", Some(role_option(Some("123"))));
    let ctx = RoleContext {
        resolved_name: Some("Artist".to_string()),
        member_has_role: true,
    };
    match dispatch(&reg, &i, &cfg, &ctx) {
        Dispatched::Reply(r, action) => {
            assert!(embed_description(&r).contains("Permission denied"));
            assert!(matches!(action, RoleAction::Nothing));
        }
        _ => panic!("the role handler must reply immediately"),
    }
}

#[test]
fn role_without_options_lists_allowed_roles_sorted() {
    let reg = default_registry();
    let cfg = config(vec!["Gamer", "Artist", "Coder"]);
    let i = interaction("role", None);
    let ctx = RoleContext { resolved_name: None, member_has_role: false };
    match dispatch(&reg, &i, &cfg, &ctx) {
        Dispatched::Reply(r, RoleAction::Nothing) => {
            assert_eq!(embed_description(&r), "Artist\nCoder\nGamer\n");
        }
        _ => panic!("a bare role command must list the allow-list"),
    }
}

#[test]
fn roles_command_lists_allowed_roles_sorted() {
    let reg = default_registry();
    let cfg = config(vec!["b-role", "a-role"]);
    let i = interaction("roles", None);
    let ctx = RoleContext { resolved_name: None, member_has_role: false };
    match dispatch(&reg, &i, &cfg, &ctx) {
        Dispatched::Reply(r, RoleAction::Nothing) => {
            assert_eq!(embed_description(&r), "a-role\nb-role\n");
            assert_eq!(r.data.as_ref().unwrap().embeds[0].title, "Role Notification");
        }
        _ => panic!("the roles handler must reply immediately"),
    }
}

#[test]
fn held_role_is_removed() {
    let reg = default_registry();
    let cfg = config(vec!["Gamer"]);
    let i = interaction("role", Some(role_option(Some("123"))));
    let ctx = RoleContext {
        resolved_name: Some("Gamer".to_string()),
        member_has_role: true,
    };
    match dispatch(&reg, &i, &cfg, &ctx) {
        Dispatched::Reply(r, RoleAction::Remove(id)) => {
            assert_eq!(id, "123");
            assert_eq!(embed_description(&r), "The \"Gamer\" role has been removed.");
        }
        _ => panic!("a held allow-listed role must be removed"),
    }
}

#[test]
fn missing_role_is_added() {
    let reg = default_registry();
    let cfg = config(vec!["Gamer"]);
    let i = interaction("role", Some(role_option(Some("123"))));
    let ctx = RoleContext {
        resolved_name: Some("Gamer".to_string()),
        member_has_role: false,
    };
    match dispatch(&reg, &i, &cfg, &ctx) {
        Dispatched::Reply(r, RoleAction::Add(id)) => {
            assert_eq!(id, "123");
            assert_eq!(embed_description(&r), "The \"Gamer\" role has been added.");
        }
        _ => panic!("a missing allow-listed role must be added"),
    }
}

#[test]
fn unresolved_role_id_is_reported() {
    let reg = default_registry();
    let cfg = config(vec!["Gamer"]);
    let i = interaction("role", Some(role_option(None)));
    let ctx = RoleContext { resolved_name: None, member_has_role: false };
    match dispatch(&reg, &i, &cfg, &ctx) {
        Dispatched::Reply(r, RoleAction::Nothing) => {
            assert_eq!(embed_description(&r), "Unknown role given.");
        }
        _ => panic!("an unresolvable role must be reported"),
    }
}

#[test]
fn advent_report_renders_the_ranked_leaderboard() {
    let lb = Leaderboard::new(
        "2023".to_string(),
        vec![
            Member::new("1".to_string(), 5, "Low".to_string(), 2),
            Member::new("2".to_string(), 50, "High".to_string(), 20),
        ],
        "1".to_string(),
    );
    let r = advent_interaction(AdventOutcome::Report(lb, 1701388800));
    let d = r.data.as_ref().unwrap();
    assert_eq!(d.embeds[0].title, "Advent of Code Leaderboard");
    assert_eq!(d.embeds[0].description, "1. 50 High (20 stars)\n2. 5 Low (2 stars)\n");
    assert_eq!(d.embeds[0].timestamp.as_deref(), Some("2023-12-01T00:00:00+00:00"));
}

#[test]
fn command_surface_declares_the_three_commands() {
    let commands = default_commands();
    let names: Vec<&str> = commands.iter().map(|c| c.name.as_str()).collect();
    assert_eq!(names, vec!["advent", "role", "roles"]);
    assert_eq!(commands[1].options.len(), 1);
    assert_eq!(commands[1].options[0].name, "role");
    assert!(commands[1].options[0].required);
    assert_eq!(commands[1].options[0].kind, 8);
    assert!(commands[0].options.is_empty() && commands[2].options.is_empty());
}

#[test]
fn help_lists_the_commands() {
    let h = help_text();
    assert!(h.contains("`advent` - Shows the leaderboard for the Advent of Code"));
    assert!(h.contains("`role` - Used for self-assigning roles"));
    assert!(h.contains("/advent, /role, and /roles"));
}

#[test]
fn advent_out_of_season_notice() {
    let r = advent_interaction(AdventOutcome::OutOfSeason);
    assert_eq!(
        embed_description(&r),
        "This leaderboard is only available in the month of December!"
    );
}

#[test]
fn advent_unavailable_and_unparsable_notices() {
    let r = advent_interaction(AdventOutcome::Unavailable(FetchFailure::Status(503)));
    assert_eq!(
        embed_description(&r),
        "The leaderboard is currently unavailable. Please try again later."
    );
    let r = advent_interaction(AdventOutcome::Unparsable);
    assert_eq!(embed_description(&r), "The leaderboard data could not be parsed.");
}
