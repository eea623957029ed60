//! Workflow auth definitions.

use vstd::prelude::*;

use crate::definition::common::Metadata;
use crate::error::Report;
use crate::validation::{
    child,
    child_path,
    check_min_len,
    check_opt_min_len,
    check_opt_vec_min_len,
    check_option,
    check_seq,
    check_seq_min_len,
    check_url,
    min_len_vio,
    option_vio,
    opt_min_len_vio,
    opt_vec_min_len_vio,
    seq_min_len_vio,
    seq_vio,
    url_vio,
    Validated,
};

verus! {

/// Auth definitions: either a URI to a resource containing them, or the
/// definitions written inline.
#[derive(Clone, Debug)]
pub enum Auth {
    /// URI to a resource containing auth definitions.
    Uri(String),
    /// Workflow auth definitions.
    Definitions(Vec<AuthDef>),
}

impl Validated for Auth {
    open spec fn violations(&self, path: Seq<char>) -> Seq<(Seq<char>, Seq<char>)> {
        match *self {
            Auth::Uri(s) => url_vio(path, s@),
            Auth::Definitions(defs) => seq_min_len_vio(path, defs@.len()) + seq_vio(path, defs@),
        }
    }

    fn validate_into(&self, path: &str, report: &mut Report) {
        match self {
            Auth::Uri(s) => {
                check_url(report, path.to_owned(), s.as_str());
            },
            Auth::Definitions(defs) => {
                check_seq_min_len(report, path.to_owned(), defs.len());
                check_seq(report, path, defs);
                proof {
                    assert(final(report)@ =~= old(report)@ + self.violations(path@));
                }
            },
        }
    }
}

/// Auth definition.
#[derive(Clone, Debug)]
pub struct AuthDef {
    /// Unique auth definition name.
    pub name: String,
    /// The auth scheme.
    pub scheme: Scheme,
    /// Auth properties.
    pub properties: AuthDefProperties,
}

impl Validated for AuthDef {
    open spec fn violations(&self, path: Seq<char>) -> Seq<(Seq<char>, Seq<char>)> {
        min_len_vio(child(path, "name"@), self.name@) + self.properties.violations(
            child(path, "properties"@),
        )
    }

    fn validate_into(&self, path: &str, report: &mut Report) {
        check_min_len(report, child_path(path, "name"), self.name.as_str());
        self.properties.validate_into(child_path(path, "properties").as_str(), report);
        proof {
            assert(final(report)@ =~= old(report)@ + self.violations(path@));
        }
    }
}

/// Auth definition properties.
#[derive(Clone, Debug)]
pub enum AuthDefProperties {
    /// Expression referencing a workflow secret that contains all needed
    /// auth information.
    Expression(String),
    /// Basic auth information.
    BasicAuth(BasicPropsDef),
    /// Bearer auth information.
    BearerAuth(BearerPropsDef),
    /// OAuth2 information.
    OAuth2Auth(OAuth2PropsDef),
}

impl Validated for AuthDefProperties {
    open spec fn violations(&self, path: Seq<char>) -> Seq<(Seq<char>, Seq<char>)> {
        match *self {
            AuthDefProperties::Expression(s) => Seq::<(Seq<char>, Seq<char>)>::empty(),
            AuthDefProperties::BasicAuth(p) => p.violations(path),
            AuthDefProperties::BearerAuth(p) => p.violations(path),
            AuthDefProperties::OAuth2Auth(p) => p.violations(path),
        }
    }

    fn validate_into(&self, path: &str, report: &mut Report) {
        match self {
            AuthDefProperties::Expression(s) => {
                proof {
                    assert(report@ =~= report@ + self.violations(path@));
                }
            },
            AuthDefProperties::BasicAuth(p) => {
                p.validate_into(path, report);
            },
            AuthDefProperties::BearerAuth(p) => {
                p.validate_into(path, report);
            },
            AuthDefProperties::OAuth2Auth(p) => {
                p.validate_into(path, report);
            },
        }
    }
}

/// Auth scheme.
#[derive(Clone, Copy, Debug, PartialEq, Eq, Structural)]
pub enum Scheme {
    /// Basic authentication.
    Basic,
    /// Authentication with a bearer token.
    Bearer,
    /// OAuth2 authentication.
    OAuth2,
}

/// Basic auth properties definition.
#[derive(Clone, Debug)]
pub enum BasicPropsDef {
    /// Expression referencing a workflow secret that contains all needed
    /// basic auth information.
    Secret(String),
    /// Basic auth information.
    AuthInfo(Box<BasicPropsDefAuthInfo>),
}

impl Validated for BasicPropsDef {
    open spec fn violations(&self, path: Seq<char>) -> Seq<(Seq<char>, Seq<char>)> {
        match *self {
            BasicPropsDef::Secret(s) => Seq::<(Seq<char>, Seq<char>)>::empty(),
            BasicPropsDef::AuthInfo(info) => info.violations(path),
        }
    }

    fn validate_into(&self, path: &str, report: &mut Report) {
        match self {
            BasicPropsDef::Secret(s) => {
                proof {
                    assert(report@ =~= report@ + self.violations(path@));
                }
            },
            BasicPropsDef::AuthInfo(info) => {
                info.validate_into(path, report);
            },
        }
    }
}

/// Basic auth information.
#[derive(Clone, Debug)]
pub struct BasicPropsDefAuthInfo {
    /// String or workflow expression containing the user name.
    pub username: String,
    /// String or workflow expression containing the user password.
    pub password: String,
    /// Auth metadata.
    pub metadata: Option<Metadata>,
}

impl Validated for BasicPropsDefAuthInfo {
    open spec fn violations(&self, path: Seq<char>) -> Seq<(Seq<char>, Seq<char>)> {
        min_len_vio(child(path, "username"@), self.username@) + min_len_vio(
            child(path, "password"@),
            self.password@,
        ) + option_vio(child(path, "metadata"@), self.metadata)
    }

    fn validate_into(&self, path: &str, report: &mut Report) {
        check_min_len(report, child_path(path, "username"), self.username.as_str());
        check_min_len(report, child_path(path, "password"), self.password.as_str());
        check_option(report, child_path(path, "metadata"), &self.metadata);
        proof {
            assert(final(report)@ =~= old(report)@ + self.violations(path@));
        }
    }
}

/// Bearer auth properties definition.
#[derive(Clone, Debug)]
pub enum BearerPropsDef {
    /// Expression referencing a workflow secret that contains all needed
    /// bearer auth information.
    Secret(String),
    /// Bearer auth information.
    AuthInfo(Box<BearerPropsDefAuthInfo>),
}

impl Validated for BearerPropsDef {
    open spec fn violations(&self, path: Seq<char>) -> Seq<(Seq<char>, Seq<char>)> {
        match *self {
            BearerPropsDef::Secret(s) => Seq::<(Seq<char>, Seq<char>)>::empty(),
            BearerPropsDef::AuthInfo(info) => info.violations(path),
        }
    }

    fn validate_into(&self, path: &str, report: &mut Report) {
        match self {
            BearerPropsDef::Secret(s) => {
                proof {
                    assert(report@ =~= report@ + self.violations(path@));
                }
            },
            BearerPropsDef::AuthInfo(info) => {
                info.validate_into(path, report);
            },
        }
    }
}

/// Bearer auth information.
#[derive(Clone, Debug)]
pub struct BearerPropsDefAuthInfo {
    /// String or workflow expression containing the token.
    pub token: String,
    /// Auth metadata.
    pub metadata: Option<Metadata>,
}

impl Validated for BearerPropsDefAuthInfo {
    open spec fn violations(&self, path: Seq<char>) -> Seq<(Seq<char>, Seq<char>)> {
        min_len_vio(child(path, "token"@), self.token@) + option_vio(
            child(path, "metadata"@),
            self.metadata,
        )
    }

    fn validate_into(&self, path: &str, report: &mut Report) {
        check_min_len(report, child_path(path, "token"), self.token.as_str());
        check_option(report, child_path(path, "metadata"), &self.metadata);
        proof {
            assert(final(report)@ =~= old(report)@ + self.violations(path@));
        }
    }
}

/// OAuth2 auth properties definition.
#[derive(Clone, Debug)]
pub enum OAuth2PropsDef {
    /// Expression referencing a workflow secret that contains all needed
    /// OAuth2 information.
    Secret(String),
    /// OAuth2 information.
    AuthInfo(Box<OAuth2PropsDefAuthInfo>),
}

impl Validated for OAuth2PropsDef {
    open spec fn violations(&self, path: Seq<char>) -> Seq<(Seq<char>, Seq<char>)> {
        match *self {
            OAuth2PropsDef::Secret(s) => Seq::<(Seq<char>, Seq<char>)>::empty(),
            OAuth2PropsDef::AuthInfo(info) => info.violations(path),
        }
    }

    fn validate_into(&self, path: &str, report: &mut Report) {
        match self {
            OAuth2PropsDef::Secret(s) => {
                proof {
                    assert(report@ =~= report@ + self.violations(path@));
                }
            },
            OAuth2PropsDef::AuthInfo(info) => {
                info.validate_into(path, report);
            },
        }
    }
}

/// OAuth2 information.
#[derive(Clone, Debug)]
pub struct OAuth2PropsDefAuthInfo {
    /// String or workflow expression containing the authority.
    pub authority: Option<String>,
    /// The grant type.
    pub grant_type: GrantType,
    /// String or workflow expression containing the client identifier.
    pub client_id: String,
    /// String or workflow expression containing the client secret.
    pub client_secret: Option<String>,
    /// OAuth2 scopes.
    pub scopes: Option<Vec<String>>,
    /// User name; used only for the password grant.
    pub username: Option<String>,
    /// User password; used only for the password grant.
    pub password: Option<String>,
    /// OAuth2 audiences.
    pub audiences: Option<Vec<String>>,
    /// Subject token.
    pub subject_token: Option<String>,
    /// Requested subject.
    pub requested_subject: Option<String>,
    /// Requested issuer.
    pub requested_issuer: Option<String>,
}

impl Validated for OAuth2PropsDefAuthInfo {
    open spec fn violations(&self, path: Seq<char>) -> Seq<(Seq<char>, Seq<char>)> {
        opt_min_len_vio(child(path, "authority"@), self.authority) + min_len_vio(
            child(path, "client_id"@),
            self.client_id@,
        ) + opt_min_len_vio(child(path, "client_secret"@), self.client_secret)
            + opt_vec_min_len_vio(child(path, "scopes"@), self.scopes) + opt_min_len_vio(
            child(path, "username"@),
            self.username,
        ) + opt_min_len_vio(child(path, "password"@), self.password) + opt_vec_min_len_vio(
            child(path, "audiences"@),
            self.audiences,
        ) + opt_min_len_vio(child(path, "subject_token"@), self.subject_token) + opt_min_len_vio(
            child(path, "requested_subject"@),
            self.requested_subject,
        ) + opt_min_len_vio(child(path, "requested_issuer"@), self.requested_issuer)
    }

    fn validate_into(&self, path: &str, report: &mut Report) {
        check_opt_min_len(report, child_path(path, "authority"), &self.authority);
        check_min_len(report, child_path(path, "client_id"), self.client_id.as_str());
        check_opt_min_len(report, child_path(path, "client_secret"), &self.client_secret);
        check_opt_vec_min_len(report, child_path(path, "scopes"), &self.scopes);
        check_opt_min_len(report, child_path(path, "username"), &self.username);
        check_opt_min_len(report, child_path(path, "password"), &self.password);
        check_opt_vec_min_len(report, child_path(path, "audiences"), &self.audiences);
        check_opt_min_len(report, child_path(path, "subject_token"), &self.subject_token);
        check_opt_min_len(report, child_path(path, "requested_subject"), &self.requested_subject);
        check_opt_min_len(report, child_path(path, "requested_issuer"), &self.requested_issuer);
        proof {
            assert(final(report)@ =~= old(report)@ + self.violations(path@));
        }
    }
}

/// OAuth2 grant type.
#[derive(Clone, Copy, Debug, PartialEq, Eq, Structural)]
pub enum GrantType {
    /// Password grant.
    Password,
    /// Client credentials grant.
    ClientCredentials,
    /// Token exchange grant.
    TokenExchange,
}

} // verus!
