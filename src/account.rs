use vstd::prelude::*;

verus! {

/// The service name under which both tokens are kept.
pub const TOKEN_SERVICE: &'static str = "com.bedou.secretdashboard.auth";

/// The two accounts of the credential store that this library uses.
#[derive(Clone, Copy, Debug, PartialEq, Eq, Structural)]
pub enum Account {
    Access,
    Refresh,
}

impl Account {
    /// The account name under which this token is kept.
    pub fn name(&self) -> (r: &'static str)
        ensures
            r@ == self.name_spec(),
    {
        match self {
            Account::Access => "access-token",
            Account::Refresh => "refresh-token",
        }
    }

    pub open spec fn name_spec(&self) -> Seq<char> {
        match self {
            Account::Access => "access-token"@,
            Account::Refresh => "refresh-token"@,
        }
    }
}

} // verus!
