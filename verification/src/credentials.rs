//! Credentials for reaching an SMB share: the server host, the share name,
//! and an optional username and password.

use vstd::prelude::*;

verus! {

/// Credentials identifying an SMB share and the account used to reach it.
#[derive(Debug, Clone)]
pub struct SmbCredentials {
    /// Server host name or address.
    pub server: String,
    /// Name of the share on the server.
    pub share: String,
    /// Account name, if the share is not reached anonymously.
    pub username: Option<String>,
    /// Account password, if one is required.
    pub password: Option<String>,
}

impl SmbCredentials {
    /// Credentials for the given server and share, with no account yet.
    pub fn new(server: &str, share: &str) -> (r: Self)
        ensures
            r.server@ == server@,
            r.share@ == share@,
            r.username is None,
            r.password is None,
    {
        Self {
            server: String::from_str(server),
            share: String::from_str(share),
            username: None,
            password: None,
        }
    }

    /// The same credentials with the username set.
    pub fn username(self, username: &str) -> (r: Self)
        ensures
            r.server == self.server,
            r.share == self.share,
            r.username matches Some(u) && u@ == username@,
            r.password == self.password,
    {
        Self { username: Some(String::from_str(username)), ..self }
    }

    /// The UNC name of the share these credentials point at:
    /// `\\`, the server, `\`, and the share.
    pub fn remote_name(&self) -> (r: String)
        ensures
            r@ == seq!['\\', '\\'] + self.server@ + seq!['\\'] + self.share@,
    {
        proof {
            reveal_strlit("\\\\");
            reveal_strlit("\\");
        }
        let mut r = String::from_str("\\\\");
        r.append(self.server.as_str());
        r.append("\\");
        r.append(self.share.as_str());
        proof {
            assert(r@ =~= seq!['\\', '\\'] + self.server@ + seq!['\\'] + self.share@);
        }
        r
    }

    /// The same credentials with the password set.
    pub fn password(self, password: &str) -> (r: Self)
        ensures
            r.server == self.server,
            r.share == self.share,
            r.username == self.username,
            r.password matches Some(p) && p@ == password@,
    {
        Self { password: Some(String::from_str(password)), ..self }
    }
}

} // verus!
