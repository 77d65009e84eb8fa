//! The role that a node plays in the network, and its name in configuration.
use std::str::FromStr;
use vstd::prelude::*;

verus! {

/// The role of a node.
#[derive(Clone, Copy, Debug, PartialEq, Eq, Structural)]
pub enum RoleType {
    Validator,
    FullNode,
}

/// The text that was given where the name of a role was expected.
#[derive(Debug)]
pub struct ParseRoleError(pub String);

/// The name of a role, as it is written in configuration.
pub open spec fn role_name(role: RoleType) -> Seq<char> {
    match role {
        RoleType::Validator => "validator"@,
        RoleType::FullNode => "full_node"@,
    }
}

/// The role that a text names, if it names one.
pub open spec fn parse_role(s: Seq<char>) -> Option<RoleType> {
    if s == "validator"@ {
        Some(RoleType::Validator)
    } else if s == "full_node"@ {
        Some(RoleType::FullNode)
    } else {
        None
    }
}

impl RoleType {
    pub fn is_validator(self) -> (r: bool)
        ensures
            r == (self == RoleType::Validator),
    {
        self == RoleType::Validator
    }

    pub fn as_str(self) -> (name: &'static str)
        ensures
            name@ == role_name(self),
    {
        match self {
            RoleType::Validator => "validator",
            RoleType::FullNode => "full_node",
        }
    }
}

impl FromStr for RoleType {
    type Err = ParseRoleError;

    /// Reads the name of a role. Any other text comes back in the error,
    /// unchanged.
    fn from_str(s: &str) -> (r: Result<Self, ParseRoleError>)
        ensures
            (match parse_role(s@) {
                Some(role) => r == Ok::<RoleType, ParseRoleError>(role),
                None => r.is_err() && r.unwrap_err().0@ == s@,
            }),
    {
        let given = s.to_owned();
        if given == "validator".to_owned() {
            Ok(RoleType::Validator)
        } else if given == "full_node".to_owned() {
            Ok(RoleType::FullNode)
        } else {
            Err(ParseRoleError(given))
        }
    }
}

/// The two names are different texts.
pub proof fn lemma_role_names_differ()
    ensures
        role_name(RoleType::Validator) != role_name(RoleType::FullNode),
{
    reveal_strlit("validator");
    reveal_strlit("full_node");
    assert("validator"@[0] == 'v');
    assert("full_node"@[0] == 'f');
}

/// Reading the name of a role gives that role back.
pub proof fn lemma_role_name_round_trip(role: RoleType)
    ensures
        parse_role(role_name(role)) == Some(role),
{
    lemma_role_names_differ();
}

/// A text is read as a role exactly when it is that role's name.
pub proof fn lemma_parse_role_inverts_name(s: Seq<char>, role: RoleType)
    ensures
        parse_role(s) == Some(role) <==> s == role_name(role),
{
    lemma_role_names_differ();
}

} // verus!
