use vstd::prelude::*;

verus! {

/// Where the token collection lives and how to sign in to it.
#[derive(Debug, PartialEq, Eq)]
pub struct MongoConfig {
    /// Connection string of the server.
    pub address: String,
    pub username: String,
    pub password: String,
    /// The database that holds the credentials.
    pub auth_db: String,
    /// The database that holds the token collection.
    pub pw_db: String,
}

/// What a [`MongoConfig`] is, as plain values.
pub ghost struct MongoConfigView {
    pub address: Seq<char>,
    pub username: Seq<char>,
    pub password: Seq<char>,
    pub auth_db: Seq<char>,
    pub pw_db: Seq<char>,
}

impl View for MongoConfig {
    type V = MongoConfigView;

    open spec fn view(&self) -> MongoConfigView {
        MongoConfigView {
            address: self.address@,
            username: self.username@,
            password: self.password@,
            auth_db: self.auth_db@,
            pw_db: self.pw_db@,
        }
    }
}

impl MongoConfigView {
    /// The connection parameters used where the configuration names none.
    pub open spec fn standard() -> MongoConfigView {
        MongoConfigView {
            address: "mongodb://localhost:27017"@,
            username: "bob"@,
            password: "cratchit"@,
            auth_db: "admin"@,
            pw_db: "atomics"@,
        }
    }
}

impl Default for MongoConfig {
    fn default() -> (config: MongoConfig)
        ensures
            config@ == MongoConfigView::standard(),
    {
        MongoConfig {
            address: "mongodb://localhost:27017".to_string(),
            username: "bob".to_string(),
            password: "cratchit".to_string(),
            auth_db: "admin".to_string(),
            pw_db: "atomics".to_string(),
        }
    }
}

impl Clone for MongoConfig {
    fn clone(&self) -> (copy: MongoConfig)
        ensures
            copy@ == self@,
    {
        MongoConfig {
            address: self.address.clone(),
            username: self.username.clone(),
            password: self.password.clone(),
            auth_db: self.auth_db.clone(),
            pw_db: self.pw_db.clone(),
        }
    }
}

/// The port the service listens on where the configuration names none.
pub const DEFAULT_PORT: u16 = 8080;

/// The length of a generated identifier where the configuration names none.
pub const DEFAULT_TOKEN_LENGTH: usize = 64;

/// The number of tokens on one page where the configuration names none.
pub const DEFAULT_PAGE_SIZE: u64 = 10;

/// The settings of the service. The token manager reads `token_length` and
/// `page_size`; the rest is for the code that listens and connects.
#[derive(Debug, PartialEq, Eq)]
pub struct MasterConfig {
    pub port: u16,
    /// The length of every generated identifier, in characters.
    pub token_length: usize,
    /// The number of tokens on one page of a listing.
    pub page_size: u64,
    pub mongodb: MongoConfig,
}

/// What a [`MasterConfig`] is, as plain values.
pub ghost struct MasterConfigView {
    pub port: u16,
    pub token_length: usize,
    pub page_size: u64,
    pub mongodb: MongoConfigView,
}

impl View for MasterConfig {
    type V = MasterConfigView;

    open spec fn view(&self) -> MasterConfigView {
        MasterConfigView {
            port: self.port,
            token_length: self.token_length,
            page_size: self.page_size,
            mongodb: self.mongodb@,
        }
    }
}

impl MasterConfigView {
    /// The settings used where the configuration names none.
    pub open spec fn standard() -> MasterConfigView {
        MasterConfigView {
            port: DEFAULT_PORT,
            token_length: DEFAULT_TOKEN_LENGTH,
            page_size: DEFAULT_PAGE_SIZE,
            mongodb: MongoConfigView::standard(),
        }
    }
}

impl Default for MasterConfig {
    fn default() -> (config: MasterConfig)
        ensures
            config@ == MasterConfigView::standard(),
    {
        MasterConfig {
            port: DEFAULT_PORT,
            token_length: DEFAULT_TOKEN_LENGTH,
            page_size: DEFAULT_PAGE_SIZE,
            mongodb: MongoConfig::default(),
        }
    }
}

impl Clone for MasterConfig {
    fn clone(&self) -> (copy: MasterConfig)
        ensures
            copy@ == self@,
    {
        MasterConfig {
            port: self.port,
            token_length: self.token_length,
            page_size: self.page_size,
            mongodb: self.mongodb.clone(),
        }
    }
}

} // verus!
