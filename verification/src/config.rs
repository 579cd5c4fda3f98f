//! Startup configuration: the upstream session credential, the role
//! allow-list, and the bot token. Loaded once, read-only for the
//! lifetime of the process.
use crate::text::{join_lines, lines_of, sort_lex, sorted_names, views_of};
use vstd::prelude::*;

verus! {

/// The configuration values the bot runs with.
pub struct AnalogueConfig {
    pub advent_session: String,
    pub roles: Vec<String>,
    pub token: String,
}

impl AnalogueConfig {
    pub fn new(advent_session: String, roles: Vec<String>, token: String) -> (c: AnalogueConfig)
        ensures
            c.advent_session == advent_session,
            c.roles == roles,
            c.token == token,
    {
        AnalogueConfig { advent_session, roles, token }
    }

    /// The allow-list as character sequences.
    pub open spec fn spec_roles(&self) -> Seq<Seq<char>> {
        views_of(self.roles@)
    }

    /// The session credential for the upstream leaderboard fetch.
    pub fn advent_session(&self) -> (r: String)
        ensures
            r == self.advent_session,
    {
        self.advent_session.clone()
    }

    /// Whether `name` is in the role allow-list.
    pub fn role_allowed(&self, name: &String) -> (r: bool)
        ensures
            r == self.spec_roles().contains(name@),
    {
        let mut i: usize = 0;
        while i < self.roles.len()
            invariant
                i <= self.roles@.len(),
                forall|k: int| 0 <= k < i ==> self.roles@[k]@ != name@,
            decreases self.roles@.len() - i,
        {
            if self.roles[i] == *name {
                proof {
                    assert(self.spec_roles()[i as int] == self.roles@[i as int]@);
                }
                return true;
            }
            i = i + 1;
        }
        proof {
            assert forall|j: int| 0 <= j < self.spec_roles().len() implies self.spec_roles()[j]
                != name@ by {
                assert(self.spec_roles()[j] == self.roles@[j]@);
            }
        }
        false
    }

    /// The allow-listed role names, in their configured order.
    pub fn roles(&self) -> (r: Vec<String>)
        ensures
            r@ == self.roles@,
    {
        let mut r: Vec<String> = Vec::new();
        let mut i: usize = 0;
        while i < self.roles.len()
            invariant
                i <= self.roles@.len(),
                r@ =~= self.roles@.subrange(0, i as int),
            decreases self.roles@.len() - i,
        {
            r.push(self.roles[i].clone());
            i = i + 1;
        }
        proof {
            assert(r@ =~= self.roles@);
        }
        r
    }

    /// The bot token for the transport.
    pub fn token(&self) -> (r: String)
        ensures
            r == self.token,
    {
        self.token.clone()
    }

    /// All allow-listed role names, lexicographically sorted, one per
    /// newline-terminated line.
    pub fn roles_listing(&self) -> (r: String)
        ensures
            r@ == lines_of(sort_lex(self.spec_roles())),
    {
        let sorted = sorted_names(self.roles());
        join_lines(&sorted)
    }
}

} // verus!
