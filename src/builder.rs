use vstd::prelude::*;

use crate::credential::{resolve, resolves, Config, ConfigError, Credential};
use crate::root::{normalize_root, normalized_root};

verus! {

/// The text of an optional string.
pub open spec fn opt_text(o: Option<String>) -> Option<Seq<char>> {
    match o {
        Some(s) => Some(s@),
        None => None,
    }
}

/// The value that the last pair named `key` in `entries` gives, if any.
pub open spec fn option_value(entries: Seq<(String, String)>, key: Seq<char>) -> Option<String>
    decreases entries.len(),
{
    if entries.len() == 0 {
        None
    } else if entries.last().0@ == key {
        Some(entries.last().1)
    } else {
        option_value(entries.drop_last(), key)
    }
}

/// The options a builder holds, as text.
pub struct BuilderOptions<C> {
    pub root: Option<Seq<char>>,
    pub access_token: Option<Seq<char>>,
    pub refresh_token: Option<Seq<char>>,
    pub client_id: Option<Seq<char>>,
    pub client_secret: Option<Seq<char>>,
    pub http_client: Option<C>,
}

/// The parts that a backend is made of: its root directory, the credential
/// it signs requests with, and the transport the user supplied, if any.
pub struct DropboxCore<C> {
    pub root: String,
    pub credential: Credential,
    pub client: Option<C>,
}

/// Collects the options of a Dropbox backend and checks them.
///
/// `C` is the HTTP transport the backend sends its requests through.
pub struct DropboxBuilder<C> {
    root: Option<String>,
    access_token: Option<String>,
    refresh_token: Option<String>,
    client_id: Option<String>,
    client_secret: Option<String>,
    http_client: Option<C>,
}

impl<C> View for DropboxBuilder<C> {
    type V = BuilderOptions<C>;

    open spec fn view(&self) -> BuilderOptions<C> {
        BuilderOptions {
            root: opt_text(self.spec_root()),
            access_token: opt_text(self.spec_config().access_token),
            refresh_token: opt_text(self.spec_config().refresh_token),
            client_id: opt_text(self.spec_config().client_id),
            client_secret: opt_text(self.spec_config().client_secret),
            http_client: self.spec_http_client(),
        }
    }
}

impl<C> DropboxBuilder<C> {
    /// The root directory as set.
    pub closed spec fn spec_root(&self) -> Option<String> {
        self.root
    }

    /// The credential options as one configuration.
    pub closed spec fn spec_config(&self) -> Config {
        Config {
            access_token: self.access_token,
            refresh_token: self.refresh_token,
            client_id: self.client_id,
            client_secret: self.client_secret,
        }
    }

    /// The transport as set.
    pub closed spec fn spec_http_client(&self) -> Option<C> {
        self.http_client
    }

    /// The root as given, or the empty path when it was not set.
    pub open spec fn spec_root_or_empty(&self) -> Seq<char> {
        match self@.root {
            Some(r) => r,
            None => Seq::empty(),
        }
    }

    /// A builder with no option set.
    pub open spec fn spec_is_empty(&self) -> bool {
        &&& self@.root is None
        &&& self@.access_token is None
        &&& self@.refresh_token is None
        &&& self@.client_id is None
        &&& self@.client_secret is None
        &&& self@.http_client is None
    }

    /// A builder with no option set.
    pub fn new() -> (r: Self)
        ensures
            r.spec_is_empty(),
    {
        DropboxBuilder {
            root: None,
            access_token: None,
            refresh_token: None,
            client_id: None,
            client_secret: None,
            http_client: None,
        }
    }

    /// Sets the root directory, which defaults to `/`.
    pub fn root(&mut self, root: &str) -> (r: &mut Self)
        ensures
            r@ == (BuilderOptions { root: Some(root@), ..old(self)@ }),
            *final(self) == *final(r),
    {
        self.root = Some(root.to_owned());
        self
    }

    /// Sets a short-lived access token; it is used as it is and never
    /// refreshed. It excludes `refresh_token`.
    pub fn access_token(&mut self, access_token: &str) -> (r: &mut Self)
        ensures
            r@ == (BuilderOptions { access_token: Some(access_token@), ..old(self)@ }),
            *final(self) == *final(r),
    {
        self.access_token = Some(access_token.to_owned());
        self
    }

    /// Sets the long-lived refresh token from which access tokens are
    /// obtained when needed. It needs `client_id` and `client_secret`.
    pub fn refresh_token(&mut self, refresh_token: &str) -> (r: &mut Self)
        ensures
            r@ == (BuilderOptions { refresh_token: Some(refresh_token@), ..old(self)@ }),
            *final(self) == *final(r),
    {
        self.refresh_token = Some(refresh_token.to_owned());
        self
    }

    /// Sets the client id used to refresh the access token.
    pub fn client_id(&mut self, client_id: &str) -> (r: &mut Self)
        ensures
            r@ == (BuilderOptions { client_id: Some(client_id@), ..old(self)@ }),
            *final(self) == *final(r),
    {
        self.client_id = Some(client_id.to_owned());
        self
    }

    /// Sets the client secret used to refresh the access token.
    pub fn client_secret(&mut self, client_secret: &str) -> (r: &mut Self)
        ensures
            r@ == (BuilderOptions { client_secret: Some(client_secret@), ..old(self)@ }),
            *final(self) == *final(r),
    {
        self.client_secret = Some(client_secret.to_owned());
        self
    }

    /// Sets the HTTP transport the backend uses.
    pub fn http_client(&mut self, http_client: C) -> (r: &mut Self)
        ensures
            r@ == (BuilderOptions { http_client: Some(http_client), ..old(self)@ }),
            *final(self) == *final(r),
    {
        self.http_client = Some(http_client);
        self
    }

    /// A builder from `(name, value)` option pairs: `root`, `access_token`,
    /// `refresh_token`, `client_id` and `client_secret`. Other names are
    /// ignored; of two pairs with one name, the later one counts.
    pub fn from_map(entries: &Vec<(String, String)>) -> (r: Self)
        ensures
            r.spec_root() == option_value(entries@, "root"@),
            r.spec_config() == (Config {
                access_token: option_value(entries@, "access_token"@),
                refresh_token: option_value(entries@, "refresh_token"@),
                client_id: option_value(entries@, "client_id"@),
                client_secret: option_value(entries@, "client_secret"@),
            }),
            (r.spec_http_client() is None),
    {
        let root_key = String::from_str("root");
        let access_token_key = String::from_str("access_token");
        let refresh_token_key = String::from_str("refresh_token");
        let client_id_key = String::from_str("client_id");
        let client_secret_key = String::from_str("client_secret");
        let mut b = DropboxBuilder::new();
        let mut i: usize = 0;
        while i < entries.len()
            invariant
                i <= entries@.len(),
                root_key@ == "root"@,
                access_token_key@ == "access_token"@,
                refresh_token_key@ == "refresh_token"@,
                client_id_key@ == "client_id"@,
                client_secret_key@ == "client_secret"@,
                b.root == option_value(entries@.subrange(0, i as int), "root"@),
                b.access_token == option_value(entries@.subrange(0, i as int), "access_token"@),
                b.refresh_token == option_value(entries@.subrange(0, i as int), "refresh_token"@),
                b.client_id == option_value(entries@.subrange(0, i as int), "client_id"@),
                b.client_secret == option_value(entries@.subrange(0, i as int), "client_secret"@),
                (b.http_client is None),
            decreases entries@.len() - i,
        {
            let ghost before = entries@.subrange(0, i as int);
            let ghost after = entries@.subrange(0, i + 1);
            assert(after.drop_last() =~= before);
            assert(after.last() == entries@[i as int]);
            let key = &entries[i].0;
            let value = &entries[i].1;
            if *key == root_key {
                b.root = Some(value.clone());
            }
            if *key == access_token_key {
                b.access_token = Some(value.clone());
            }
            if *key == refresh_token_key {
                b.refresh_token = Some(value.clone());
            }
            if *key == client_id_key {
                b.client_id = Some(value.clone());
            }
            if *key == client_secret_key {
                b.client_secret = Some(value.clone());
            }
            i = i + 1;
        }
        assert(entries@.subrange(0, entries@.len() as int) =~= entries@);
        b
    }

    /// Checks the options and assembles the backend's parts from them. The
    /// options are consumed: the builder is left empty.
    pub fn build(&mut self) -> (r: Result<DropboxCore<C>, ConfigError>)
        ensures
            final(self).spec_is_empty(),
            match r {
                Ok(core) => {
                    &&& resolves(old(self).spec_config(), Ok(core.credential))
                    &&& core.root@ == normalized_root(old(self).spec_root_or_empty())
                    &&& core.client == old(self).spec_http_client()
                },
                Err(e) => resolves(old(self).spec_config(), Err(e)),
            },
    {
        let root = match self.root.take() {
            Some(r) => normalize_root(r.as_str()),
            None => normalize_root(""),
        };
        let client = self.http_client.take();
        let config = Config {
            access_token: self.access_token.take(),
            refresh_token: self.refresh_token.take(),
            client_id: self.client_id.take(),
            client_secret: self.client_secret.take(),
        };
        proof {
            reveal_strlit("");
        }
        match resolve(config) {
            Ok(credential) => Ok(DropboxCore { root, credential, client }),
            Err(e) => Err(e),
        }
    }
}

impl<C> Default for DropboxBuilder<C> {
    /// A builder with no option set.
    fn default() -> (r: Self)
        ensures
            r.spec_is_empty(),
    {
        DropboxBuilder::new()
    }
}

} // verus!
