use vstd::prelude::*;

verus! {

#[derive(Debug, Clone, Copy, PartialEq, Eq, Structural, Hash)]
pub struct AccountId(pub i32);

#[derive(Debug, Clone)]
pub struct Account {
    pub id: Option<AccountId>,
    pub email: String,
    pub password: String,
}

/// The capability of one request: the acting account and the validity window
/// of the token it was decoded from, as seconds since the Unix epoch (UTC).
/// The window is checked where the token is decoded, not here.
#[derive(Debug)]
pub struct Session {
    pub exp: i64,
    pub account_id: AccountId,
    pub nbf: i64,
}

/// An account as a mathematical value.
pub struct AccountView {
    pub id: Option<i32>,
    pub email: Seq<char>,
    pub password: Seq<char>,
}

impl View for Account {
    type V = AccountView;

    open spec fn view(&self) -> AccountView {
        AccountView {
            id: match self.id {
                Some(a) => Some(a.0),
                None => None,
            },
            email: self.email@,
            password: self.password@,
        }
    }
}

} // verus!
