//! Selection of the credentials presented to the registry.
use vstd::prelude::*;

verus! {

/// Authentication information for the OCI registry.
#[derive(Clone, Debug, PartialEq, Eq, Hash)]
pub enum Authentication {
    /// No authentication information was provided.
    Anonymous,
    /// Basic username/password authentication.
    Basic(String, String),
}

/// Mathematical model of an [`Authentication`].
pub enum AuthenticationView {
    Anonymous,
    Basic(Seq<char>, Seq<char>),
}

impl View for Authentication {
    type V = AuthenticationView;

    open spec fn view(&self) -> AuthenticationView {
        match self {
            Authentication::Anonymous => AuthenticationView::Anonymous,
            Authentication::Basic(u, p) => AuthenticationView::Basic(u@, p@),
        }
    }
}

pub open spec fn opt_view(s: Option<String>) -> Option<Seq<char>> {
    match s {
        Option::Some(v) => Option::Some(v@),
        Option::None => Option::None,
    }
}

/// The credentials chosen for an optional username and password: none when both are
/// absent, otherwise basic authentication with an empty string for a missing half.
pub open spec fn select_spec(
    username: Option<Seq<char>>,
    password: Option<Seq<char>>,
) -> AuthenticationView {
    match (username, password) {
        (Option::None, Option::None) => AuthenticationView::Anonymous,
        (Option::Some(u), Option::Some(p)) => AuthenticationView::Basic(u, p),
        (Option::Some(u), Option::None) => AuthenticationView::Basic(u, Seq::empty()),
        (Option::None, Option::Some(p)) => AuthenticationView::Basic(Seq::empty(), p),
    }
}

impl Authentication {
    /// Create a new instance with the provided values.
    pub fn new(username: Option<String>, password: Option<String>) -> (r: Self)
        ensures
            r@ == select_spec(opt_view(username), opt_view(password)),
    {
        match (username, password) {
            (Option::None, Option::None) => Authentication::Anonymous,
            (Option::Some(username), Option::Some(password)) => Authentication::Basic(
                username,
                password,
            ),
            (Option::None, Option::Some(password)) => {
                Authentication::Basic(String::new(), password)
            },
            (Option::Some(username), Option::None) => {
                Authentication::Basic(username, String::new())
            },
        }
    }
}

/// The credential modes of the registry client: its public variants are read as they stand.
#[verifier::external_type_specification]
pub struct ExRegistryAuth(oci_client::secrets::RegistryAuth);

impl Authentication {
    /// The credentials in the form the registry client takes: anonymous access, or HTTP
    /// basic authentication with the same username and password.
    pub fn to_registry_auth(&self) -> (r: oci_client::secrets::RegistryAuth)
        ensures
            match self {
                Authentication::Anonymous => r == oci_client::secrets::RegistryAuth::Anonymous,
                Authentication::Basic(u, p) => r matches oci_client::secrets::RegistryAuth::Basic(
                    ru,
                    rp,
                ) && ru@ == u@ && rp@ == p@,
            },
    {
        match self {
            Authentication::Anonymous => oci_client::secrets::RegistryAuth::Anonymous,
            Authentication::Basic(u, p) => oci_client::secrets::RegistryAuth::Basic(
                u.clone(),
                p.clone(),
            ),
        }
    }
}

impl Default for Authentication {
    fn default() -> (r: Self)
        ensures
            r == Authentication::Anonymous,
    {
        Authentication::Anonymous
    }
}

} // verus!
