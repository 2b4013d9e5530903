//! Megalodon: one client interface over several fediverse server flavors.
//!
//! The library holds the logic of the client: which flavor a server is, which
//! adapter serves it, what each request looks like, how a response envelope is
//! put together and how a streaming session moves between its states.
use vstd::prelude::*;
use vstd::string::*;

pub mod client;
pub mod detector;
pub mod entities;
pub mod error;
pub mod response;
pub mod streaming;
pub mod text;

pub use client::{generator, Client};
pub use response::Response;

verus! {

/// Which server flavor a client talks to.
#[derive(Debug, Clone, Copy, PartialEq, Eq, Structural)]
pub enum SNS {
    /// The server is Mastodon.
    Mastodon,
    /// The server is Pleroma.
    Pleroma,
    /// The server is Misskey.
    Misskey,
}

/// The canonical lowercase token of a flavor.
pub open spec fn sns_token(sns: SNS) -> Seq<char> {
    match sns {
        SNS::Mastodon => "mastodon"@,
        SNS::Pleroma => "pleroma"@,
        SNS::Misskey => "misskey"@,
    }
}

/// The flavor whose token is `s`, if any.
pub open spec fn sns_of_token(s: Seq<char>) -> Option<SNS> {
    if s == "mastodon"@ {
        Some(SNS::Mastodon)
    } else if s == "pleroma"@ {
        Some(SNS::Pleroma)
    } else if s == "misskey"@ {
        Some(SNS::Misskey)
    } else {
        None
    }
}

/// The message that comes with a token that names no flavor.
pub open spec fn unknown_sns_message(s: Seq<char>) -> Seq<char> {
    "Unknown sns: "@ + s
}

impl SNS {
    /// Renders the flavor as its canonical token.
    pub fn to_string(&self) -> (r: String)
        ensures
            r@ == sns_token(*self),
    {
        proof {
            reveal_strlit("mastodon");
            reveal_strlit("pleroma");
            reveal_strlit("misskey");
        }
        match self {
            SNS::Mastodon => "mastodon".to_owned(),
            SNS::Pleroma => "pleroma".to_owned(),
            SNS::Misskey => "misskey".to_owned(),
        }
    }

    /// Parses a canonical token; any other text is an error.
    pub fn from_token(s: &str) -> (r: Result<SNS, String>)
        ensures
            sns_of_token(s@) matches Some(k) ==> r == Ok::<SNS, String>(k),
            sns_of_token(s@) is None ==> (r matches Err(m) && m@ == unknown_sns_message(s@)),
    {
        if text::str_eq(s, "mastodon") {
            Ok(SNS::Mastodon)
        } else if text::str_eq(s, "pleroma") {
            Ok(SNS::Pleroma)
        } else if text::str_eq(s, "misskey") {
            Ok(SNS::Misskey)
        } else {
            let mut m = "Unknown sns: ".to_owned();
            m.append(s);
            Err(m)
        }
    }
}

/// Rendering a flavor and parsing the token gives the flavor back; a text
/// that parses is the token of the flavor it gives; and only the three
/// tokens parse.
pub proof fn token_round_trip(k: SNS, s: Seq<char>)
    ensures
        sns_of_token(sns_token(k)) == Some(k),
        sns_of_token(s) matches Some(j) ==> sns_token(j) == s,
        sns_of_token(s) is None <==> (s != "mastodon"@ && s != "pleroma"@ && s != "misskey"@),
{
    reveal_strlit("mastodon");
    reveal_strlit("pleroma");
    reveal_strlit("misskey");
    assert("mastodon"@ != "pleroma"@ && "mastodon"@ != "misskey"@ && "pleroma"@ != "misskey"@) by {
        assert("mastodon"@[0] != "pleroma"@[0]);
        assert("mastodon"@[1] != "misskey"@[1]);
        assert("pleroma"@[0] != "misskey"@[0]);
    }
}

impl std::str::FromStr for SNS {
    type Err = String;

    fn from_str(s: &str) -> (r: Result<SNS, String>)
        ensures
            sns_of_token(s@) matches Some(k) ==> r == Ok::<SNS, String>(k),
            sns_of_token(s@) is None ==> (r matches Err(m) && m@ == unknown_sns_message(s@)),
    {
        SNS::from_token(s)
    }
}

} // verus!
