use vstd::prelude::*;
use crate::text::{join3, same_text};

verus! {

/// Whether a ticket moves money out of an account or into it.
#[derive(Clone, Copy, Debug, PartialEq, Eq, PartialOrd, Structural)]
pub enum TicketDirection {
    Out,
    In,
}

/// The message of a direction name that is not known.
pub open spec fn unknown_direction_message(value: Seq<char>) -> Seq<char> {
    "can't convert value '"@ + value + "' to TicketDirection"@
}

/// The two direction names are distinct.
proof fn lemma_direction_names_differ()
    ensures
        "in"@ != "out"@,
{
    reveal_strlit("in");
    reveal_strlit("out");
    assert("in"@.len() == 2);
    assert("out"@.len() == 3);
}

impl TicketDirection {
    /// Reads a direction from its lower-case name, `in` or `out`.
    pub fn parse(value: &str) -> (r: Result<TicketDirection, String>)
        ensures
            r == Ok::<TicketDirection, String>(TicketDirection::In) <==> value@ == "in"@,
            r == Ok::<TicketDirection, String>(TicketDirection::Out) <==> value@ == "out"@,
            r is Err <==> value@ != "in"@ && value@ != "out"@,
            r matches Err(msg) ==> msg@ == unknown_direction_message(value@),
    {
        proof {
            lemma_direction_names_differ();
        }
        if same_text(value, "in") {
            Ok(TicketDirection::In)
        } else if same_text(value, "out") {
            Ok(TicketDirection::Out)
        } else {
            Err(join3("can't convert value '", value, "' to TicketDirection"))
        }
    }

    /// The lower-case name of the direction.
    pub fn as_str(&self) -> (r: &'static str)
        ensures
            *self == TicketDirection::In ==> r@ == "in"@,
            *self == TicketDirection::Out ==> r@ == "out"@,
    {
        match self {
            TicketDirection::In => "in",
            TicketDirection::Out => "out",
        }
    }
}

impl<'a> TryFrom<&'a str> for TicketDirection {
    type Error = String;

    fn try_from(value: &'a str) -> (r: Result<Self, Self::Error>)
        ensures
            r == Ok::<TicketDirection, String>(TicketDirection::In) <==> value@ == "in"@,
            r == Ok::<TicketDirection, String>(TicketDirection::Out) <==> value@ == "out"@,
            r is Err <==> value@ != "in"@ && value@ != "out"@,
            r matches Err(msg) ==> msg@ == unknown_direction_message(value@),
    {
        proof {
            lemma_direction_names_differ();
        }
        TicketDirection::parse(value)
    }
}

impl<'a> vstd::std_specs::convert::TryFromSpecImpl<&'a str> for TicketDirection {
    open spec fn obeys_try_from_spec() -> bool {
        false
    }

    open spec fn try_from_spec(value: &'a str) -> Result<Self, Self::Error> {
        arbitrary()
    }
}

impl TryFrom<String> for TicketDirection {
    type Error = String;

    fn try_from(value: String) -> (r: Result<Self, Self::Error>)
        ensures
            r == Ok::<TicketDirection, String>(TicketDirection::In) <==> value@ == "in"@,
            r == Ok::<TicketDirection, String>(TicketDirection::Out) <==> value@ == "out"@,
            r is Err <==> value@ != "in"@ && value@ != "out"@,
            r matches Err(msg) ==> msg@ == unknown_direction_message(value@),
    {
        proof {
            lemma_direction_names_differ();
        }
        TicketDirection::parse(value.as_str())
    }
}

impl vstd::std_specs::convert::TryFromSpecImpl<String> for TicketDirection {
    open spec fn obeys_try_from_spec() -> bool {
        false
    }

    open spec fn try_from_spec(value: String) -> Result<Self, Self::Error> {
        arbitrary()
    }
}

} // verus!
