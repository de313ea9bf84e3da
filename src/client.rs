use vstd::prelude::*;
use vstd::string::StringExecFns;

verus! {

/// The credentials of an API client. The account id in request URLs can be
/// changed apart from the one in the authorization header.
#[derive(Debug, Clone)]
pub struct Client {
    pub account_id: String,
    pub auth_user: String,
    pub auth_token: String,
}

impl Client {
    pub fn new(account_id: &str, auth_token: &str) -> (r: Client)
        ensures
            r.account_id@ == account_id@,
            r.auth_user@ == account_id@,
            r.auth_token@ == auth_token@,
    {
        Client {
            account_id: String::from_str(account_id),
            auth_user: String::from_str(account_id),
            auth_token: String::from_str(auth_token),
        }
    }

    /// For accounts that need a different SID in their URLs than in their
    /// authorization header: changes the SID in the URLs only.
    pub fn set_account_sid(&mut self, account_sid: String)
        ensures
            final(self).account_id == account_sid,
            final(self).auth_user == old(self).auth_user,
            final(self).auth_token == old(self).auth_token,
    {
        self.account_id = account_sid;
    }
}

} // verus!
