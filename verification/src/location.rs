//! Where a visitor of the web front end stands, kept in a cookie as text.
use vstd::prelude::*;
use crate::error::ChatError;
use crate::text::{has_prefix, starts_with, slice, to_owned, join};

verus! {

/// A user of the chat, known by nickname.
#[derive(Debug, Clone, Default)]
pub struct User {
    pub nick: String,
}

/// The page a visitor is on.
#[derive(Debug, Clone, Default)]
pub enum Location {
    #[default]
    Login,
    WrongPassword,
    Chat(User),
}

/// A location seen as plain values: the chat location carries the nickname's characters.
pub enum LocationView {
    Login,
    WrongPassword,
    Chat(Seq<char>),
}

impl View for Location {
    type V = LocationView;

    open spec fn view(&self) -> LocationView {
        match self {
            Location::Login => LocationView::Login,
            Location::WrongPassword => LocationView::WrongPassword,
            Location::Chat(u) => LocationView::Chat(u.nick@),
        }
    }
}

/// The cookie text of a location: `Login`, `WrongPassword`, or `Chat ` followed by the
/// nickname.
pub open spec fn location_text(l: LocationView) -> Seq<char> {
    match l {
        LocationView::Login => "Login"@,
        LocationView::WrongPassword => "WrongPassword"@,
        LocationView::Chat(nick) => "Chat "@ + nick,
    }
}

/// What a cookie text reads as: the two fixed words, or anything that begins with `Chat`,
/// whose nickname is everything after those four letters; any other text is refused.
pub open spec fn parse_location(s: Seq<char>) -> Result<LocationView, ChatError> {
    if s == "Login"@ {
        Ok(LocationView::Login)
    } else if s == "WrongPassword"@ {
        Ok(LocationView::WrongPassword)
    } else if has_prefix(s, "Chat"@) {
        Ok(LocationView::Chat(s.subrange(4, s.len() as int)))
    } else {
        Err(ChatError::CookieIssue)
    }
}

impl Location {
    /// The cookie text of this location.
    pub fn to_string(&self) -> (r: String)
        ensures
            r@ == location_text(self@),
    {
        match self {
            Location::Login => to_owned("Login"),
            Location::WrongPassword => to_owned("WrongPassword"),
            Location::Chat(user) => join("Chat ", user.nick.as_str()),
        }
    }

    /// Reads a location from its cookie text.
    pub fn from_str(s: &str) -> (r: Result<Location, ChatError>)
        ensures
            match r {
                Ok(l) => parse_location(s@) == Ok::<LocationView, ChatError>(l@),
                Err(e) => parse_location(s@) == Err::<LocationView, ChatError>(e),
            },
    {
        let owned = to_owned(s);
        if owned == to_owned("Login") {
            Ok(Location::Login)
        } else if owned == to_owned("WrongPassword") {
            Ok(Location::WrongPassword)
        } else if starts_with(s, "Chat") {
            proof {
                reveal_strlit("Chat");
            }
            let n = s.unicode_len();
            let nick = slice(s, 4, n);
            Ok(Location::Chat(User { nick }))
        } else {
            Err(ChatError::CookieIssue)
        }
    }
}

/// Reading back the text of the login page or of the wrong-password page gives that page
/// again; reading back the text of a chat location gives the chat location of the same
/// nickname with a space in front, since the text puts a space after `Chat` and reading
/// takes everything after those four letters.
pub proof fn law_location_text_read_back(l: LocationView)
    ensures
        parse_location(location_text(l)) == match l {
            LocationView::Chat(nick) => Ok::<LocationView, ChatError>(LocationView::Chat(" "@ + nick)),
            other => Ok::<LocationView, ChatError>(other),
        },
{
    reveal_strlit("Login");
    reveal_strlit("WrongPassword");
    reveal_strlit("Chat");
    reveal_strlit("Chat ");
    reveal_strlit(" ");
    match l {
        LocationView::Login => {},
        LocationView::WrongPassword => {
            assert("WrongPassword"@ != "Login"@) by {
                assert("WrongPassword"@.len() != "Login"@.len());
            }
        },
        LocationView::Chat(nick) => {
            let t = "Chat "@ + nick;
            assert(t.len() >= 5);
            assert(t != "Login"@) by {
                assert(t[0] != "Login"@[0]);
            }
            assert(t != "WrongPassword"@) by {
                assert(t[0] != "WrongPassword"@[0]);
            }
            assert(t.subrange(0, 4) =~= "Chat"@);
            assert(t.subrange(4, t.len() as int) =~= " "@ + nick);
        },
    }
}

/// Reading a cookie text and writing the location back gives the same text for the two
/// fixed words, and for a text that begins with `Chat` it gives `Chat `, a space, then the
/// rest of the text.
pub proof fn law_location_read_then_text(s: Seq<char>)
    requires
        parse_location(s) is Ok,
    ensures
        location_text(parse_location(s)->Ok_0) == if s == "Login"@ || s == "WrongPassword"@ {
            s
        } else {
            "Chat "@ + s.subrange(4, s.len() as int)
        },
{
}

} // verus!
