//! Frames from a client to the server: their types and their skeletons.
use std::str::FromStr;
use vstd::prelude::*;
use vstd::string::*;

verus! {

/// Error if message has unknown message type
#[derive(Debug)]
pub struct InvalidMessageType;

impl InvalidMessageType {
    /// What the error says.
    pub fn message(&self) -> (r: String)
        ensures
            r@ == "Invalid message type"@,
    {
        "Invalid message type".to_owned()
    }
}

/// All known types of incoming messages
#[derive(Clone, Copy, Debug, PartialEq, Eq, Structural)]
pub enum Types {
    Raise,
    Lower,
    Instant,
    Elevate,
    Recede,
    Poll,
    PollOption,
    Vote,
    PollClose,
}

/// Get type of any message struct
pub trait GetMessageType {
    /// The type that the skeleton's member `type` names.
    fn get_type(&self) -> (r: Result<Types, InvalidMessageType>)
        ensures
            match r {
                Ok(t) => type_named(self.declared_type()) == Some(t),
                Err(_) => type_named(self.declared_type()) is None,
            },
    ;

    /// What the skeleton holds as member `type`.
    spec fn declared_type(&self) -> Seq<char>;
}

/// The type that a frame names in its member `type`.
pub open spec fn type_named(s: Seq<char>) -> Option<Types> {
    if s == "raise"@ {
        Some(Types::Raise)
    } else if s == "lower"@ {
        Some(Types::Lower)
    } else if s == "instant"@ {
        Some(Types::Instant)
    } else if s == "elevate"@ {
        Some(Types::Elevate)
    } else if s == "recede"@ {
        Some(Types::Recede)
    } else if s == "poll"@ {
        Some(Types::Poll)
    } else if s == "polloption"@ {
        Some(Types::PollOption)
    } else if s == "vote"@ {
        Some(Types::Vote)
    } else if s == "closepoll"@ {
        Some(Types::PollClose)
    } else {
        None
    }
}

/// Tells whether `s` spells the literal `name`.
fn spells(s: &String, name: &str) -> (r: bool)
    ensures
        r == (s@ == name@),
{
    *s == name.to_owned()
}

impl Types {
    /// Get type based on string literal
    pub fn named(s: &str) -> (r: Result<Types, InvalidMessageType>)
        ensures
            match r {
                Ok(t) => type_named(s@) == Some(t),
                Err(_) => type_named(s@) is None,
            },
    {
        let s = s.to_owned();
        if spells(&s, "raise") {
            Ok(Types::Raise)
        } else if spells(&s, "lower") {
            Ok(Types::Lower)
        } else if spells(&s, "instant") {
            Ok(Types::Instant)
        } else if spells(&s, "elevate") {
            Ok(Types::Elevate)
        } else if spells(&s, "recede") {
            Ok(Types::Recede)
        } else if spells(&s, "poll") {
            Ok(Types::Poll)
        } else if spells(&s, "polloption") {
            Ok(Types::PollOption)
        } else if spells(&s, "vote") {
            Ok(Types::Vote)
        } else if spells(&s, "closepoll") {
            Ok(Types::PollClose)
        } else {
            Err(InvalidMessageType {  })
        }
    }
}

impl FromStr for Types {
    type Err = InvalidMessageType;

    /// Get type based on string literal
    fn from_str(s: &str) -> (r: Result<Self, Self::Err>)
        ensures
            match r {
                Ok(t) => type_named(s@) == Some(t),
                Err(_) => type_named(s@) is None,
            },
    {
        Types::named(s)
    }
}

/// Inbound message skeleton: Arbitrary object. `object` is JSON text.
#[derive(Clone, Debug)]
pub struct ArbitraryObject {
    pub kind: String,
    pub object: String,
}

/// Inbound message skeleton: Unsigned integer object
#[derive(Clone, Debug)]
pub struct UsizeObject {
    pub kind: String,
    pub object: u64,
}

/// Inbound message skeleton: string members by key
#[derive(Clone, Debug)]
pub struct HashMapObject {
    pub kind: String,
    pub object: Vec<(String, String)>,
}

impl GetMessageType for ArbitraryObject {
    open spec fn declared_type(&self) -> Seq<char> {
        self.kind@
    }

    /// Get message type or error
    fn get_type(&self) -> (r: Result<Types, InvalidMessageType>) {
        Types::named(self.kind.as_str())
    }
}

impl GetMessageType for UsizeObject {
    open spec fn declared_type(&self) -> Seq<char> {
        self.kind@
    }

    /// Get message type or error
    fn get_type(&self) -> (r: Result<Types, InvalidMessageType>) {
        Types::named(self.kind.as_str())
    }
}

impl GetMessageType for HashMapObject {
    open spec fn declared_type(&self) -> Seq<char> {
        self.kind@
    }

    /// Get message type or error
    fn get_type(&self) -> (r: Result<Types, InvalidMessageType>) {
        Types::named(self.kind.as_str())
    }
}

} // verus!
