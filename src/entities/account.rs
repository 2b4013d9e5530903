//! The canonical account.
use vstd::prelude::*;
use crate::entities::{Emoji, Field, Source, Timestamp};

verus! {

/// An account, with the account it moved to, if any.
#[derive(Debug)]
pub struct Account {
    pub id: String,
    pub username: String,
    pub acct: String,
    pub display_name: String,
    pub locked: bool,
    pub discoverable: Option<bool>,
    pub group: Option<bool>,
    pub created_at: Timestamp,
    pub followers_count: u32,
    pub following_count: u32,
    pub statuses_count: u32,
    pub note: String,
    pub url: String,
    pub avatar: String,
    pub avatar_static: String,
    pub header: String,
    pub header_static: String,
    pub emojis: Vec<Emoji>,
    pub moved: Option<Box<Account>>,
    pub fields: Vec<Field>,
    pub bot: bool,
    pub source: Source,
}

/// The number of moves from `a` to the end of its chain.
pub open spec fn moved_len(a: Account) -> nat
    decreases a,
{
    match a.moved {
        Some(b) => 1 + moved_len(*b),
        None => 0,
    }
}

/// The account at the end of the chain of moves that starts at `a`.
pub open spec fn moved_target(a: Account) -> Account
    decreases a,
{
    match a.moved {
        Some(b) => moved_target(*b),
        None => a,
    }
}

impl Account {
    /// Follows the moves from this account to the account that did not move,
    /// taking at most `max_moves` of them; a longer chain gives `None`.
    pub fn resolve_moved(&self, max_moves: usize) -> (r: Option<&Account>)
        ensures
            r is Some <==> moved_len(*self) <= max_moves,
            r matches Some(t) ==> *t == moved_target(*self),
    {
        let mut cur: &Account = self;
        let mut i: usize = 0;
        loop
            invariant
                i <= max_moves,
                moved_len(*cur) + i == moved_len(*self),
                moved_target(*cur) == moved_target(*self),
            decreases max_moves - i,
        {
            match &cur.moved {
                None => {
                    return Some(cur);
                },
                Some(next) => {
                    if i == max_moves {
                        return None;
                    }
                    cur = next;
                    i = i + 1;
                },
            }
        }
    }
}

} // verus!
