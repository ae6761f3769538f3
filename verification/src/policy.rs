//! The cross-origin policy: which origins, methods and request headers a
//! service admits, and whether it admits credentials.
//!
//! A policy is checked once, when it is made. One that would pair
//! credentials with the wildcard origin is never made.

use crate::token::{
    all_conform, byte_strings, check_all, copy_list, holds_bytes, lower_cases, Grammar,
};
use vstd::prelude::*;
use vstd::slice::slice_to_vec;
use vstd::string::StringSliceAdditionalSpecFns;

verus! {

/// Why a policy could not be made.
#[derive(Clone, Copy, Debug, PartialEq, Eq, Structural)]
pub enum ConfigError {
    /// Credentials were asked for together with the wildcard origin.
    WildcardWithCredentials,
    /// An origin is no header field value, or is the wildcard marker itself.
    InvalidOrigin,
    /// A method is no method token.
    InvalidMethod,
    /// A header is no field name.
    InvalidHeader,
}

/// The origins a policy admits.
#[derive(Debug, PartialEq, Eq)]
pub enum AllowedOrigins {
    /// Every origin.
    Any,
    /// The listed origins and no other.
    Exact(Vec<Vec<u8>>),
}

/// The origins a policy admits, as byte strings.
pub enum OriginRule {
    /// Every origin.
    Any,
    /// The listed origins and no other.
    Exact(Seq<Seq<u8>>),
}

impl View for AllowedOrigins {
    type V = OriginRule;

    open spec fn view(&self) -> OriginRule {
        match self {
            AllowedOrigins::Any => OriginRule::Any,
            AllowedOrigins::Exact(list) => OriginRule::Exact(byte_strings(list@)),
        }
    }
}

impl Clone for AllowedOrigins {
    fn clone(&self) -> (copy: Self)
        ensures
            copy@ == self@,
    {
        match self {
            AllowedOrigins::Any => AllowedOrigins::Any,
            AllowedOrigins::Exact(list) => AllowedOrigins::Exact(copy_list(list)),
        }
    }
}

/// What a policy says.
pub struct PolicyView {
    pub origins: OriginRule,
    pub methods: Seq<Seq<u8>>,
    pub headers: Seq<Seq<u8>>,
    pub allow_credentials: bool,
}

impl PolicyView {
    /// The first thing wrong with these settings, if anything is: the
    /// wildcard origin with credentials, then an origin, a method or a
    /// header outside its grammar.
    pub open spec fn fault(self) -> Option<ConfigError> {
        if self.origins is Any && self.allow_credentials {
            Some(ConfigError::WildcardWithCredentials)
        } else if self.origins matches OriginRule::Exact(list) && !all_conform(
            Grammar::Origin,
            list,
        ) {
            Some(ConfigError::InvalidOrigin)
        } else if !all_conform(Grammar::MethodToken, self.methods) {
            Some(ConfigError::InvalidMethod)
        } else if !all_conform(Grammar::FieldName, self.headers) {
            Some(ConfigError::InvalidHeader)
        } else {
            None
        }
    }

    /// Settings that make a policy.
    pub open spec fn well_formed(self) -> bool {
        self.fault() is None
    }

    /// An origin is admitted if it is listed, or if every origin is.
    pub open spec fn permits_origin(self, origin: Seq<u8>) -> bool {
        match self.origins {
            OriginRule::Any => true,
            OriginRule::Exact(list) => list.contains(origin),
        }
    }

    /// An origin may send credentials if the policy admits credentials and
    /// admits the origin.
    pub open spec fn grants_credentials(self, origin: Seq<u8>) -> bool {
        self.allow_credentials && self.permits_origin(origin)
    }

    /// A method is admitted if it is listed, letter for letter.
    pub open spec fn permits_method(self, method: Seq<u8>) -> bool {
        self.methods.contains(method)
    }

    /// The same settings with the header names in lower case.
    pub open spec fn normalized(self) -> PolicyView {
        PolicyView { headers: lower_cases(self.headers), ..self }
    }
}

/// What a policy made of the given settings says.
pub open spec fn settings(
    origins: AllowedOrigins,
    methods: Vec<Vec<u8>>,
    headers: Vec<Vec<u8>>,
    allow_credentials: bool,
) -> PolicyView {
    PolicyView {
        origins: origins@,
        methods: byte_strings(methods@),
        headers: byte_strings(headers@),
        allow_credentials,
    }
}

/// The standard settings: one origin, four methods, two request headers,
/// credentials admitted.
pub open spec fn standard_policy() -> PolicyView {
    PolicyView {
        origins: OriginRule::Exact(seq!["http://localhost:3000".spec_bytes()]),
        methods: seq![
            "GET".spec_bytes(),
            "POST".spec_bytes(),
            "PUT".spec_bytes(),
            "DELETE".spec_bytes(),
        ],
        headers: seq!["Content-Type".spec_bytes(), "Authorization".spec_bytes()],
        allow_credentials: true,
    }
}

/// A cross-origin policy. Every value of this type is well formed.
#[derive(Debug)]
pub struct CorsPolicy {
    origins: AllowedOrigins,
    methods: Vec<Vec<u8>>,
    headers: Vec<Vec<u8>>,
    allow_credentials: bool,
}

impl View for CorsPolicy {
    type V = PolicyView;

    closed spec fn view(&self) -> PolicyView {
        PolicyView {
            origins: self.origins@,
            methods: byte_strings(self.methods@),
            headers: byte_strings(self.headers@),
            allow_credentials: self.allow_credentials,
        }
    }
}

impl Clone for CorsPolicy {
    fn clone(&self) -> (copy: Self)
        ensures
            copy@ == self@,
    {
        proof {
            use_type_invariant(self);
        }
        CorsPolicy {
            origins: self.origins.clone(),
            methods: copy_list(&self.methods),
            headers: copy_list(&self.headers),
            allow_credentials: self.allow_credentials,
        }
    }
}

fn bytes_of(text: &str) -> (bytes: Vec<u8>)
    ensures
        bytes@ == text.spec_bytes(),
{
    slice_to_vec(text.as_bytes())
}

impl CorsPolicy {
    #[verifier::type_invariant]
    spec fn checked(self) -> bool {
        self@.well_formed()
    }

    /// Makes a policy, or says what is wrong with the settings: the first
    /// fault, where there is one. The wildcard origin together with
    /// credentials is always refused.
    pub fn new(
        origins: AllowedOrigins,
        methods: Vec<Vec<u8>>,
        headers: Vec<Vec<u8>>,
        allow_credentials: bool,
    ) -> (made: Result<CorsPolicy, ConfigError>)
        ensures
            origins@ is Any && allow_credentials ==> made is Err && made->Err_0
                == ConfigError::WildcardWithCredentials,
            match made {
                Ok(policy) => policy@ == settings(origins, methods, headers, allow_credentials)
                    && policy@.well_formed(),
                Err(error) => settings(origins, methods, headers, allow_credentials).fault()
                    == Some(error),
            },
    {
        match &origins {
            AllowedOrigins::Any => {
                if allow_credentials {
                    return Err(ConfigError::WildcardWithCredentials);
                }
            },
            AllowedOrigins::Exact(list) => {
                if !check_all(Grammar::Origin, list) {
                    return Err(ConfigError::InvalidOrigin);
                }
            },
        }
        if !check_all(Grammar::MethodToken, &methods) {
            return Err(ConfigError::InvalidMethod);
        }
        if !check_all(Grammar::FieldName, &headers) {
            return Err(ConfigError::InvalidHeader);
        }
        Ok(CorsPolicy { origins, methods, headers, allow_credentials })
    }

    /// The standard policy.
    pub fn standard() -> (policy: CorsPolicy)
        ensures
            policy@ == standard_policy(),
    {
        broadcast use vstd::string::group_string_axioms;

        let mut origins: Vec<Vec<u8>> = Vec::new();
        origins.push(bytes_of("http://localhost:3000"));
        let mut methods: Vec<Vec<u8>> = Vec::new();
        methods.push(bytes_of("GET"));
        methods.push(bytes_of("POST"));
        methods.push(bytes_of("PUT"));
        methods.push(bytes_of("DELETE"));
        let mut headers: Vec<Vec<u8>> = Vec::new();
        headers.push(bytes_of("Content-Type"));
        headers.push(bytes_of("Authorization"));
        proof {
            lemma_standard_well_formed();
            assert(byte_strings(origins@) =~= seq!["http://localhost:3000".spec_bytes()]);
            assert(byte_strings(methods@) =~= standard_policy().methods);
            assert(byte_strings(headers@) =~= standard_policy().headers);
        }
        CorsPolicy {
            origins: AllowedOrigins::Exact(origins),
            methods,
            headers,
            allow_credentials: true,
        }
    }

    /// The origins that the policy admits.
    pub fn origins(&self) -> (origins: &AllowedOrigins)
        ensures
            origins@ == self@.origins,
            self@.well_formed(),
    {
        proof {
            use_type_invariant(self);
        }
        &self.origins
    }

    /// The methods that the policy admits.
    pub fn methods(&self) -> (methods: &Vec<Vec<u8>>)
        ensures
            byte_strings(methods@) == self@.methods,
            self@.well_formed(),
    {
        proof {
            use_type_invariant(self);
        }
        &self.methods
    }

    /// The request headers that the policy admits.
    pub fn headers(&self) -> (headers: &Vec<Vec<u8>>)
        ensures
            byte_strings(headers@) == self@.headers,
            self@.well_formed(),
    {
        proof {
            use_type_invariant(self);
        }
        &self.headers
    }

    /// Whether the policy admits credentials. If it does, it does not admit
    /// every origin.
    pub fn allow_credentials(&self) -> (allowed: bool)
        ensures
            allowed == self@.allow_credentials,
            allowed ==> self@.origins is Exact,
            self@.well_formed(),
    {
        proof {
            use_type_invariant(self);
        }
        self.allow_credentials
    }

    /// Whether the policy admits an origin.
    pub fn permits_origin(&self, origin: &[u8]) -> (permitted: bool)
        ensures
            permitted == self@.permits_origin(origin@),
    {
        match &self.origins {
            AllowedOrigins::Any => true,
            AllowedOrigins::Exact(list) => holds_bytes(list, origin),
        }
    }

    /// Whether an origin may send credentials.
    pub fn grants_credentials(&self, origin: &[u8]) -> (granted: bool)
        ensures
            granted == self@.grants_credentials(origin@),
    {
        self.allow_credentials && self.permits_origin(origin)
    }

    /// Whether the policy admits a method.
    pub fn permits_method(&self, method: &[u8]) -> (permitted: bool)
        ensures
            permitted == self@.permits_method(method@),
    {
        holds_bytes(&self.methods, method)
    }
}

/// The standard settings make a policy.
pub proof fn lemma_standard_well_formed()
    ensures
        standard_policy().well_formed(),
{
    broadcast use vstd::string::group_string_axioms;

    reveal_strlit("http://localhost:3000");
    reveal_strlit("GET");
    reveal_strlit("POST");
    reveal_strlit("PUT");
    reveal_strlit("DELETE");
    reveal_strlit("Content-Type");
    reveal_strlit("Authorization");
    assert(vstd::string::is_ascii("http://localhost:3000"));
    assert(vstd::string::is_ascii("GET"));
    assert(vstd::string::is_ascii("POST"));
    assert(vstd::string::is_ascii("PUT"));
    assert(vstd::string::is_ascii("DELETE"));
    assert(vstd::string::is_ascii("Content-Type"));
    assert(vstd::string::is_ascii("Authorization"));
}

/// Settings that pair the wildcard origin with credentials make no policy,
/// whatever their methods and headers.
pub proof fn lemma_wildcard_with_credentials_is_refused(policy: PolicyView)
    requires
        policy.origins is Any,
        policy.allow_credentials,
    ensures
        policy.fault() == Some(ConfigError::WildcardWithCredentials),
        !policy.well_formed(),
{
}

/// Credentials never go with the wildcard: where well-formed settings let
/// an origin send credentials, they list that very origin.
pub proof fn lemma_credentials_need_listed_origin(policy: PolicyView, origin: Seq<u8>)
    requires
        policy.well_formed(),
        policy.grants_credentials(origin),
    ensures
        policy.origins matches OriginRule::Exact(list) && list.contains(origin),
{
}

} // verus!
