//! The catalog client's credential handling.
//!
//! The client here carries what the logic reads: consumer key and secret and
//! the optional OAuth token pair.  The HTTP transport lives with the caller,
//! which pairs these credentials with its own connection; what is verified is
//! the builder's validation and the exact text of the authorization header.

use vstd::prelude::*;

use crate::util::{dec_digits, dec_string};

verus! {

/// How talking to the catalog fails.
#[derive(Debug, Clone, PartialEq, Eq)]
pub enum DiscogsError {
    DeserializeError(String),
    DiscogsApiError(String),
    NetworkError(String),
    AuthenticationRequired,
    ConsumerKeyRequired,
    ConsumerSecretRequired,
}

/// The message text of a catalog error.
pub open spec fn discogs_error_message(e: DiscogsError) -> Seq<char> {
    match e {
        DiscogsError::DeserializeError(s) => "Deserialize error: "@ + s@,
        DiscogsError::DiscogsApiError(s) => "Discogs API error: "@ + s@,
        DiscogsError::NetworkError(s) => "Network error: "@ + s@,
        DiscogsError::AuthenticationRequired => "Authentication required"@,
        DiscogsError::ConsumerKeyRequired => "Consumer key required"@,
        DiscogsError::ConsumerSecretRequired => "Consumer secret required"@,
    }
}

impl DiscogsError {
    pub fn message(&self) -> (r: String)
        ensures
            r@ == discogs_error_message(*self),
    {
        match self {
            DiscogsError::DeserializeError(s) => {
                let mut m = String::from_str("Deserialize error: ");
                m.append(s.as_str());
                m
            },
            DiscogsError::DiscogsApiError(s) => {
                let mut m = String::from_str("Discogs API error: ");
                m.append(s.as_str());
                m
            },
            DiscogsError::NetworkError(s) => {
                let mut m = String::from_str("Network error: ");
                m.append(s.as_str());
                m
            },
            DiscogsError::AuthenticationRequired => String::from_str("Authentication required"),
            DiscogsError::ConsumerKeyRequired => String::from_str("Consumer key required"),
            DiscogsError::ConsumerSecretRequired => String::from_str("Consumer secret required"),
        }
    }
}

/// A client-side failure, carried as its message text.
#[derive(Debug, Clone)]
pub struct DiscogsClientError {
    pub message: String,
}

impl DiscogsClientError {
    pub fn from_message(value: &str) -> (r: Self)
        ensures
            r.message@ == value@,
    {
        DiscogsClientError { message: value.to_owned() }
    }
}

/// The credentials of a catalog client.  The caller owns the transport and
/// asks this type for the URLs and headers of each request.
pub struct DiscogsClient {
    consumer_key: String,
    consumer_secret: String,
    oauth_token: Option<String>,
    oauth_token_secret: Option<String>,
}

/// The view of an optional string: its text, or empty when absent.
pub open spec fn opt_text(o: Option<String>) -> Seq<char> {
    match o {
        Option::Some(s) => s@,
        Option::None => Seq::empty(),
    }
}

/// The exact authorization header the catalog API expects: the PLAINTEXT
/// OAuth form over the four credentials, a timestamp and a nonce.
pub open spec fn auth_header_text(
    key: Seq<char>,
    secret: Seq<char>,
    token: Seq<char>,
    token_secret: Seq<char>,
    oauth_timestamp: nat,
    oauth_nonce: nat,
) -> Seq<char> {
    "OAuth oauth_consumer_key=\""@ + key + "\",oauth_token=\""@ + token + "\",oauth_signature=\""@
        + secret + "&"@ + token_secret
        + "\",oauth_signature_method=\"PLAINTEXT\",oauth_version=\"1.0\",oauth_timestamp=\""@
        + dec_digits(oauth_timestamp) + "\",oauth_nonce=\""@ + dec_digits(oauth_nonce) + "\""@
}

impl DiscogsClient {
    pub closed spec fn key_view(&self) -> Seq<char> {
        self.consumer_key@
    }

    pub closed spec fn secret_view(&self) -> Seq<char> {
        self.consumer_secret@
    }

    pub closed spec fn token_view(&self) -> Seq<char> {
        opt_text(self.oauth_token)
    }

    pub closed spec fn token_secret_view(&self) -> Seq<char> {
        opt_text(self.oauth_token_secret)
    }

    /// Whether both OAuth tokens are present.
    pub closed spec fn authed(&self) -> bool {
        self.oauth_token is Some && self.oauth_token_secret is Some
    }

    pub fn builder() -> (r: DiscogsClientBuilder)
        ensures
            r.spec_consumer_key() is None,
            r.spec_consumer_secret() is None,
            r.spec_oauth_token() is None,
            r.spec_oauth_token_secret() is None,
    {
        DiscogsClientBuilder::new()
    }

    /// The URL of an API path.
    pub fn build_url(&self, path: &str) -> (r: String)
        ensures
            r@ == "https://api.discogs.com"@ + path@,
    {
        let mut url = String::from_str("https://api.discogs.com");
        url.append(path);
        url
    }

    /// Whether requests can be authenticated: both OAuth tokens were given.
    pub fn is_auth(&self) -> (r: bool)
        ensures
            r == self.authed(),
    {
        if self.oauth_token.is_none() || self.oauth_token_secret.is_none() {
            return false;
        }
        true
    }

    /// The authorization header of one request, for a timestamp and a nonce
    /// the caller drew from its clock.
    pub fn auth_header(&self, oauth_timestamp: u128, oauth_nonce: u128) -> (r: String)
        requires
            self.authed(),
        ensures
            r@ == auth_header_text(
                self.key_view(),
                self.secret_view(),
                self.token_view(),
                self.token_secret_view(),
                oauth_timestamp as nat,
                oauth_nonce as nat,
            ),
    {
        let mut h = String::from_str("OAuth oauth_consumer_key=\"");
        h.append(self.consumer_key.as_str());
        h.append("\",oauth_token=\"");
        match &self.oauth_token {
            Some(t) => h.append(t.as_str()),
            None => {},
        }
        h.append("\",oauth_signature=\"");
        h.append(self.consumer_secret.as_str());
        h.append("&");
        match &self.oauth_token_secret {
            Some(t) => h.append(t.as_str()),
            None => {},
        }
        h.append("\",oauth_signature_method=\"PLAINTEXT\",oauth_version=\"1.0\",oauth_timestamp=\"");
        let ts = dec_string(oauth_timestamp);
        h.append(ts.as_str());
        h.append("\",oauth_nonce=\"");
        let nonce = dec_string(oauth_nonce);
        h.append(nonce.as_str());
        h.append("\"");
        proof {
            assert(h@ =~= auth_header_text(
                self.key_view(),
                self.secret_view(),
                self.token_view(),
                self.token_secret_view(),
                oauth_timestamp as nat,
                oauth_nonce as nat,
            ));
        }
        h
    }
}

/// Builds a [`DiscogsClient`], validating that the consumer key and secret
/// were supplied.
pub struct DiscogsClientBuilder {
    consumer_key: Option<String>,
    consumer_secret: Option<String>,
    oauth_token: Option<String>,
    oauth_token_secret: Option<String>,
}

impl DiscogsClientBuilder {
    pub closed spec fn spec_consumer_key(&self) -> Option<String> {
        self.consumer_key
    }

    pub closed spec fn spec_consumer_secret(&self) -> Option<String> {
        self.consumer_secret
    }

    pub closed spec fn spec_oauth_token(&self) -> Option<String> {
        self.oauth_token
    }

    pub closed spec fn spec_oauth_token_secret(&self) -> Option<String> {
        self.oauth_token_secret
    }

    pub fn new() -> (r: Self)
        ensures
            r.spec_consumer_key() is None,
            r.spec_consumer_secret() is None,
            r.spec_oauth_token() is None,
            r.spec_oauth_token_secret() is None,
    {
        Self { consumer_key: None, consumer_secret: None, oauth_token: None, oauth_token_secret: None }
    }

    pub fn consumer_key(self, key: String) -> (r: Self)
        ensures
            r.spec_consumer_key() == Some(key),
            r.spec_consumer_secret() == self.spec_consumer_secret(),
            r.spec_oauth_token() == self.spec_oauth_token(),
            r.spec_oauth_token_secret() == self.spec_oauth_token_secret(),
    {
        let mut s = self;
        s.consumer_key = Some(key);
        s
    }

    pub fn consumer_secret(self, secret: String) -> (r: Self)
        ensures
            r.spec_consumer_secret() == Some(secret),
            r.spec_consumer_key() == self.spec_consumer_key(),
            r.spec_oauth_token() == self.spec_oauth_token(),
            r.spec_oauth_token_secret() == self.spec_oauth_token_secret(),
    {
        let mut s = self;
        s.consumer_secret = Some(secret);
        s
    }

    pub fn oauth_token(self, token: String) -> (r: Self)
        ensures
            r.spec_oauth_token() == Some(token),
            r.spec_consumer_key() == self.spec_consumer_key(),
            r.spec_consumer_secret() == self.spec_consumer_secret(),
            r.spec_oauth_token_secret() == self.spec_oauth_token_secret(),
    {
        let mut s = self;
        s.oauth_token = Some(token);
        s
    }

    pub fn oauth_token_secret(self, secret: String) -> (r: Self)
        ensures
            r.spec_oauth_token_secret() == Some(secret),
            r.spec_consumer_key() == self.spec_consumer_key(),
            r.spec_consumer_secret() == self.spec_consumer_secret(),
            r.spec_oauth_token() == self.spec_oauth_token(),
    {
        let mut s = self;
        s.oauth_token_secret = Some(secret);
        s
    }

    /// Validates the credentials: a client comes back exactly when both the
    /// consumer key and the consumer secret were supplied, and the missing
    /// one is named otherwise (the key reported first).
    pub fn build(self) -> (r: Result<DiscogsClient, DiscogsError>)
        ensures
            r is Ok <==> (self.spec_consumer_key() is Some && self.spec_consumer_secret()
                is Some),
            (match r {
                Result::Ok(c) => {
                    &&& c.key_view() == opt_text(self.spec_consumer_key())
                    &&& c.secret_view() == opt_text(self.spec_consumer_secret())
                    &&& c.token_view() == opt_text(self.spec_oauth_token())
                    &&& c.token_secret_view() == opt_text(self.spec_oauth_token_secret())
                    &&& c.authed() == (self.spec_oauth_token() is Some
                        && self.spec_oauth_token_secret() is Some)
                },
                Result::Err(e) => e == (if self.spec_consumer_key() is None {
                    DiscogsError::ConsumerKeyRequired
                } else {
                    DiscogsError::ConsumerSecretRequired
                }),
            }),
    {
        let consumer_key = match self.consumer_key {
            Some(k) => k,
            None => {
                return Err(DiscogsError::ConsumerKeyRequired);
            },
        };
        let consumer_secret = match self.consumer_secret {
            Some(s) => s,
            None => {
                return Err(DiscogsError::ConsumerSecretRequired);
            },
        };
        Ok(
            DiscogsClient {
                consumer_key,
                consumer_secret,
                oauth_token: self.oauth_token,
                oauth_token_secret: self.oauth_token_secret,
            },
        )
    }
}

} // verus!
