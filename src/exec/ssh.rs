use vstd::prelude::*;

verus! {

/// How to reach and authenticate to a remote machine.
#[derive(Debug, PartialEq, Clone)]
pub struct SshCredentials {
    pub username: String,
    pub hostname: String,
    pub password: Option<String>,
    pub port: Option<u16>,
    pub private_key_file: Option<String>,
    pub public_key_file: Option<String>,
}

/// Collects the optional fields of a set of credentials, starting from the mandatory
/// username and hostname.
#[derive(Debug, Clone)]
pub struct SshCredentialsBuilder {
    creds: SshCredentials,
}

impl View for SshCredentialsBuilder {
    type V = SshCredentials;

    closed spec fn view(&self) -> SshCredentials {
        self.creds
    }
}

/// Credentials with the given username and hostname and no optional field set.
pub open spec fn bare_credentials(username: String, hostname: String) -> SshCredentials {
    SshCredentials {
        username,
        hostname,
        password: None,
        port: None,
        private_key_file: None,
        public_key_file: None,
    }
}

impl SshCredentials {
    pub fn builder(username: String, hostname: String) -> (r: SshCredentialsBuilder)
        ensures
            r@ == bare_credentials(username, hostname),
    {
        SshCredentialsBuilder {
            creds: SshCredentials {
                username,
                hostname,
                password: None,
                port: None,
                private_key_file: None,
                public_key_file: None,
            },
        }
    }
}

impl SshCredentialsBuilder {
    pub fn build(self) -> (r: SshCredentials)
        ensures
            r == self@,
    {
        self.creds
    }

    pub fn password(self, password: String) -> (r: Self)
        ensures
            r@ == (SshCredentials { password: Some(password), ..self@ }),
    {
        let mut creds = self.creds;
        creds.password = Some(password);
        SshCredentialsBuilder { creds }
    }

    pub fn private_key_file(self, private_key_file: String) -> (r: Self)
        ensures
            r@ == (SshCredentials { private_key_file: Some(private_key_file), ..self@ }),
    {
        let mut creds = self.creds;
        creds.private_key_file = Some(private_key_file);
        SshCredentialsBuilder { creds }
    }

    pub fn public_key_file(self, public_key_file: String) -> (r: Self)
        ensures
            r@ == (SshCredentials { public_key_file: Some(public_key_file), ..self@ }),
    {
        let mut creds = self.creds;
        creds.public_key_file = Some(public_key_file);
        SshCredentialsBuilder { creds }
    }

    pub fn port(self, port: u16) -> (r: Self)
        ensures
            r@ == (SshCredentials { port: Some(port), ..self@ }),
    {
        let mut creds = self.creds;
        creds.port = Some(port);
        SshCredentialsBuilder { creds }
    }
}

} // verus!
