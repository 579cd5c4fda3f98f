//! The interaction router: resolves the command name through the
//! registry, runs the handler, and returns the reply together with the
//! role mutation the transport must perform. Handler-internal failures
//! become user-visible replies, never aborted interactions.
use crate::advent::{render, render_spec, sort_by_score, Leaderboard};
use crate::cache::FetchFailure;
use crate::config::AnalogueConfig;
use crate::interactions::{
    Command, CommandOption, Embed, Interaction, InteractionType, Response, EMBED_COLOR,
};
use crate::registry::{HandlerKind, Registry};
use crate::text::{lines_of, sort_lex};
use crate::time::{rfc3339_of, rfc3339_utc, MAX_TIMESTAMP};
use vstd::prelude::*;

verus! {

/// The role mutation a handler asks the transport to perform, by role
/// id.
pub enum RoleAction {
    Nothing,
    Add(String),
    Remove(String),
}

/// Facts about the requested role, resolved by the transport before
/// dispatch: the role's name when the requested id resolves in the
/// guild, and whether the invoking member currently holds that role.
pub struct RoleContext {
    pub resolved_name: Option<String>,
    pub member_has_role: bool,
}

/// What the advent workflow produced: refused out of season, fetch
/// failed, payload unparsable, or a parsed leaderboard with the expiry
/// instant of the payload it came from.
pub enum AdventOutcome {
    OutOfSeason,
    Unavailable(FetchFailure),
    Unparsable,
    Report(Leaderboard, u64),
}

/// What a dispatch decided: a finished reply plus the role action to
/// perform, or the advent workflow still to be run.
pub enum Dispatched {
    Reply(Response, RoleAction),
    AdventPending,
}

/// `r` is a ChannelMessageWithSource reply carrying exactly one embed
/// with this title, description, timestamp, the brand color, no text
/// content and no mentions.
pub open spec fn spec_embed_reply(
    r: Response,
    title: Seq<char>,
    desc: Seq<char>,
    ts: Option<Seq<char>>,
) -> bool {
    &&& r.kind is ChannelMessageWithSource
    &&& r.data matches Some(d) && {
        &&& d.tts == false
        &&& d.content@.len() == 0
        &&& d.allowed_mentions.parse@.len() == 0
        &&& d.allowed_mentions.roles@.len() == 0
        &&& d.allowed_mentions.users@.len() == 0
        &&& d.allowed_mentions.replied_user == false
        &&& d.embeds@.len() == 1
        &&& d.embeds@[0].title@ == title
        &&& d.embeds@[0].description@ == desc
        &&& d.embeds@[0].color == EMBED_COLOR
        &&& match ts {
            Some(t) => d.embeds@[0].timestamp matches Some(s) && s@ == t,
            None => d.embeds@[0].timestamp is None,
        }
    }
}

/// Builds the one embed reply shape used by every handler.
fn embed_reply_titled(title: &str, desc: String, timestamp: Option<String>) -> (r: Response)
    ensures
        spec_embed_reply(
            r,
            title@,
            desc@,
            match timestamp {
                Some(t) => Some(t@),
                None => None,
            },
        ),
{
    Response::embed_reply(
        Embed { title: String::from_str(title), description: desc, color: EMBED_COLOR, timestamp },
    )
}

/// The role request an interaction carries: `None` when no option was
/// supplied, `Some(None)` when the option carries no value, and
/// `Some(Some(id))` for a requested role id.
pub open spec fn spec_role_request(i: Interaction) -> Option<Option<Seq<char>>> {
    match i.data.options {
        Some(opts) => if opts@.len() == 0 {
            None
        } else {
            match opts@[0].value {
                Some(v) => Some(Some(v@)),
                None => Some(None),
            }
        },
        None => None,
    }
}

fn first_option_value(i: &Interaction) -> (r: Option<Option<String>>)
    ensures
        match r {
            None => spec_role_request(*i) is None,
            Some(None) => spec_role_request(*i) matches Some(None),
            Some(Some(v)) => spec_role_request(*i) matches Some(Some(s)) && s == v@,
        },
{
    match &i.data.options {
        None => None,
        Some(opts) => {
            if opts.len() == 0 {
                None
            } else {
                match &opts[0].value {
                    Some(v) => Some(Some(v.clone())),
                    None => Some(None),
                }
            }
        },
    }
}

/// The reply confirming a role removal.
pub open spec fn removed_msg(name: Seq<char>) -> Seq<char> {
    "The \""@ + name + "\" role has been removed."@
}

/// The reply confirming a role addition.
pub open spec fn added_msg(name: Seq<char>) -> Seq<char> {
    "The \""@ + name + "\" role has been added."@
}

/// The role-toggle policy: what the role handler replies and which
/// mutation it requests, given the request, the resolved role facts and
/// the allow-list.
pub open spec fn spec_role_reply(
    cfg: AnalogueConfig,
    i: Interaction,
    ctx: RoleContext,
    r: Response,
    a: RoleAction,
) -> bool {
    let req = spec_role_request(i);
    match req {
        None => a is Nothing && spec_embed_reply(
            r,
            "Role Notification"@,
            lines_of(sort_lex(cfg.spec_roles())),
            None,
        ),
        Some(None) => a is Nothing && spec_embed_reply(
            r,
            "Role Notification"@,
            "Unknown role given."@,
            None,
        ),
        Some(Some(id)) => match ctx.resolved_name {
            None => a is Nothing && spec_embed_reply(
                r,
                "Role Notification"@,
                "Unknown role given."@,
                None,
            ),
            Some(nm) => if !cfg.spec_roles().contains(nm@) {
                a is Nothing && spec_embed_reply(r, "Role Notification"@, "Permission denied."@, None)
            } else if ctx.member_has_role {
                (a matches RoleAction::Remove(x) && x@ == id) && spec_embed_reply(
                    r,
                    "Role Notification"@,
                    removed_msg(nm@),
                    None,
                )
            } else {
                (a matches RoleAction::Add(x) && x@ == id) && spec_embed_reply(
                    r,
                    "Role Notification"@,
                    added_msg(nm@),
                    None,
                )
            },
        },
    }
}

/// The `role` handler: toggles a self-service role. A role outside the
/// allow-list is refused with "Permission denied." and no mutation; a
/// request without a role lists the allow-listed names, sorted.
pub fn role_interaction(cfg: &AnalogueConfig, interaction: &Interaction, ctx: &RoleContext) -> (r: (
    Response,
    RoleAction,
))
    ensures
        spec_role_reply(*cfg, *interaction, *ctx, r.0, r.1),
{
    match first_option_value(interaction) {
        None => (
            embed_reply_titled("Role Notification", cfg.roles_listing(), None),
            RoleAction::Nothing,
        ),
        Some(None) => (
            embed_reply_titled("Role Notification", String::from_str("Unknown role given."), None),
            RoleAction::Nothing,
        ),
        Some(Some(id)) => match &ctx.resolved_name {
            None => (
                embed_reply_titled(
                    "Role Notification",
                    String::from_str("Unknown role given."),
                    None,
                ),
                RoleAction::Nothing,
            ),
            Some(nm) => {
                if !cfg.role_allowed(nm) {
                    (
                        embed_reply_titled(
                            "Role Notification",
                            String::from_str("Permission denied."),
                            None,
                        ),
                        RoleAction::Nothing,
                    )
                } else if ctx.member_has_role {
                    let mut desc = String::from_str("The \"");
                    desc.append(nm.as_str());
                    desc.append("\" role has been removed.");
                    (
                        embed_reply_titled("Role Notification", desc, None),
                        RoleAction::Remove(id),
                    )
                } else {
                    let mut desc = String::from_str("The \"");
                    desc.append(nm.as_str());
                    desc.append("\" role has been added.");
                    (embed_reply_titled("Role Notification", desc, None), RoleAction::Add(id))
                }
            },
        },
    }
}

/// The `roles` handler: lists the allow-listed role names,
/// lexicographically sorted, one per line.
pub fn roles_interaction(cfg: &AnalogueConfig) -> (r: Response)
    ensures
        spec_embed_reply(r, "Role Notification"@, lines_of(sort_lex(cfg.spec_roles())), None),
{
    embed_reply_titled("Role Notification", cfg.roles_listing(), None)
}

/// The `advent` handler's reply for each workflow outcome: the rendered
/// report of the ranked leaderboard, stamped with the payload's expiry,
/// or the out-of-season, unavailable or unparsable notice.
pub fn advent_interaction(outcome: AdventOutcome) -> (r: Response)
    requires
        outcome matches AdventOutcome::Report(lb, exp) ==> exp < MAX_TIMESTAMP as u64,
    ensures
        outcome is OutOfSeason ==> spec_embed_reply(
            r,
            "Advent of Code Leaderboard"@,
            "This leaderboard is only available in the month of December!"@,
            None,
        ),
        outcome is Unavailable ==> spec_embed_reply(
            r,
            "Advent of Code Leaderboard"@,
            "The leaderboard is currently unavailable. Please try again later."@,
            None,
        ),
        outcome is Unparsable ==> spec_embed_reply(
            r,
            "Advent of Code Leaderboard"@,
            "The leaderboard data could not be parsed."@,
            None,
        ),
        outcome matches AdventOutcome::Report(lb, exp) ==> spec_embed_reply(
            r,
            "Advent of Code Leaderboard"@,
            render_spec(sort_by_score(lb.members@)),
            Some(rfc3339_of(exp as int)),
        ),
{
    match outcome {
        AdventOutcome::OutOfSeason => embed_reply_titled(
            "Advent of Code Leaderboard",
            String::from_str("This leaderboard is only available in the month of December!"),
            None,
        ),
        AdventOutcome::Unavailable(_) => embed_reply_titled(
            "Advent of Code Leaderboard",
            String::from_str("The leaderboard is currently unavailable. Please try again later."),
            None,
        ),
        AdventOutcome::Unparsable => embed_reply_titled(
            "Advent of Code Leaderboard",
            String::from_str("The leaderboard data could not be parsed."),
            None,
        ),
        AdventOutcome::Report(lb, exp) => {
            let ranked = lb.rank();
            let desc = render(&ranked);
            let ts = rfc3339_utc(exp as i64);
            embed_reply_titled("Advent of Code Leaderboard", desc, Some(ts))
        },
    }
}

/// Routes one decoded interaction: Pings get a Pong; an unregistered
/// command name is a first-class unknown-command reply; the role and
/// roles handlers finish immediately; the advent handler is left
/// pending for the cache workflow.
pub fn dispatch(
    reg: &Registry,
    interaction: &Interaction,
    cfg: &AnalogueConfig,
    ctx: &RoleContext,
) -> (d: Dispatched)
    ensures
        interaction.kind is Ping ==> (d matches Dispatched::Reply(r, a) && r.kind is Pong
            && r.data is None && a is Nothing),
        interaction.kind is ApplicationCommand ==> match reg.spec_lookup(
            interaction.data.name@,
        ) {
            None => d matches Dispatched::Reply(r, a) && a is Nothing && spec_embed_reply(
                r,
                "Unknown Command"@,
                "Unsupported command."@,
                None,
            ),
            Some(HandlerKind::Advent) => d is AdventPending,
            Some(HandlerKind::Role) => d matches Dispatched::Reply(r, a) && spec_role_reply(
                *cfg,
                *interaction,
                *ctx,
                r,
                a,
            ),
            Some(HandlerKind::Roles) => d matches Dispatched::Reply(r, a) && a is Nothing
                && spec_embed_reply(
                r,
                "Role Notification"@,
                lines_of(sort_lex(cfg.spec_roles())),
                None,
            ),
        },
{
    match interaction.kind {
        InteractionType::Ping => Dispatched::Reply(Response::pong(), RoleAction::Nothing),
        InteractionType::ApplicationCommand => match reg.lookup(&interaction.data.name) {
            None => Dispatched::Reply(
                embed_reply_titled(
                    "Unknown Command",
                    String::from_str("Unsupported command."),
                    None,
                ),
                RoleAction::Nothing,
            ),
            Some(HandlerKind::Advent) => Dispatched::AdventPending,
            Some(HandlerKind::Role) => {
                let reply = role_interaction(cfg, interaction, ctx);
                Dispatched::Reply(reply.0, reply.1)
            },
            Some(HandlerKind::Roles) => Dispatched::Reply(
                roles_interaction(cfg),
                RoleAction::Nothing,
            ),
        },
    }
}

/// The registry the bot starts with: the three commands of the bot,
/// each under its name.
pub fn default_registry() -> (r: Registry)
    ensures
        r.spec_lookup("advent"@) == Some(HandlerKind::Advent),
        r.spec_lookup("role"@) == Some(HandlerKind::Role),
        r.spec_lookup("roles"@) == Some(HandlerKind::Roles),
{
    let mut r = Registry::new();
    proof {
        reveal_strlit("advent");
        reveal_strlit("role");
        reveal_strlit("roles");
        assert("advent"@.len() == 6 && "role"@.len() == 4 && "roles"@.len() == 5);
        assert("advent"@ != "role"@ && "advent"@ != "roles"@ && "role"@ != "roles"@);
    }
    let _ = r.register(String::from_str("advent"), HandlerKind::Advent);
    let _ = r.register(String::from_str("role"), HandlerKind::Role);
    let _ = r.register(String::from_str("roles"), HandlerKind::Roles);
    r
}

/// The command surface declared to the transport at startup: the three
/// commands, the role command carrying its one required role option.
pub fn default_commands() -> (r: Vec<Command>)
    ensures
        r@.len() == 3,
        r@[0].name@ == "advent"@ && r@[0].options@.len() == 0,
        r@[1].name@ == "role"@ && r@[1].options@.len() == 1 && r@[1].options@[0].name@ == "role"@
            && r@[1].options@[0].required == true && r@[1].options@[0].kind == 8,
        r@[2].name@ == "roles"@ && r@[2].options@.len() == 0,
{
    let mut role_options: Vec<CommandOption> = Vec::new();
    role_options.push(
        CommandOption {
            kind: 8,
            name: String::from_str("role"),
            description: String::from_str("The role to add/remove"),
            default: None,
            required: true,
            choices: None,
            options: None,
        },
    );
    let mut r: Vec<Command> = Vec::new();
    r.push(
        Command {
            name: String::from_str("advent"),
            description: String::from_str("Shows the leaderboard for the Advent of Code"),
            options: Vec::new(),
        },
    );
    r.push(
        Command {
            name: String::from_str("role"),
            description: String::from_str("Used for self-assigning roles"),
            options: role_options,
        },
    );
    r.push(
        Command {
            name: String::from_str("roles"),
            description: String::from_str("Display a list of roles that can be assigned"),
            options: Vec::new(),
        },
    );
    r
}

/// The help message listing the bot's commands.
pub fn help_text() -> (r: String)
    ensures
        r@
            == "`advent` - Shows the leaderboard for the Advent of Code\n`help` - Shows this lovely message\n`role` - Used for self-assigning roles\n\n*Note: These commands are also available as /advent, /role, and /roles*\n"@,
{
    String::from_str(
        "`advent` - Shows the leaderboard for the Advent of Code\n`help` - Shows this lovely message\n`role` - Used for self-assigning roles\n\n*Note: These commands are also available as /advent, /role, and /roles*\n",
    )
}

} // verus!
