//! Storage credentials and their validation.

use std::sync::Arc;
use vstd::prelude::*;
use crate::error::{BridgeError, ErrorView, invalid_credentials_error};
use crate::host::{HostValue, argument_text, argument_opt_text};
use crate::share::share;

verus! {

/// A static credential for an object store: key id, secret and an
/// optional temporary token.
#[derive(Clone, Debug, PartialEq, Eq)]
pub struct AwsCredential {
    pub key_id: String,
    pub secret_key: String,
    pub token: Option<String>,
}

/// The mathematical value of an [`AwsCredential`].
pub struct AwsCredentialView {
    pub key_id: Seq<char>,
    pub secret_key: Seq<char>,
    pub token: Option<Seq<char>>,
}

impl View for AwsCredential {
    type V = AwsCredentialView;

    open spec fn view(&self) -> AwsCredentialView {
        AwsCredentialView {
            key_id: self.key_id@,
            secret_key: self.secret_key@,
            token: self.token.deep_view(),
        }
    }
}

impl DeepView for AwsCredential {
    type V = AwsCredentialView;

    open spec fn deep_view(&self) -> AwsCredentialView {
        self@
    }
}

/// The rule for credential arguments.
///
/// A key id and a secret together make a credential, with or without a
/// token. Without key id and secret there is no credential. A key id
/// alone or a secret alone is rejected.
pub open spec fn credentials_of(
    key_id: Option<Seq<char>>,
    secret_key: Option<Seq<char>>,
    token: Option<Seq<char>>,
) -> Result<Option<AwsCredentialView>, ErrorView> {
    match (key_id, secret_key) {
        (Some(k), Some(s)) => Ok(Some(AwsCredentialView { key_id: k, secret_key: s, token })),
        (None, None) => Ok(None),
        _ => Err(invalid_credentials_error()),
    }
}

/// The credential rule, case by case: a key id without a secret and a
/// secret without a key id are invalid arguments; with neither there is
/// no credential; with both there is one, and it holds the three values
/// as they were given. The token never decides.
pub proof fn credential_rule(
    key_id: Option<Seq<char>>,
    secret_key: Option<Seq<char>>,
    token: Option<Seq<char>>,
)
    ensures
        credentials_of(key_id, secret_key, token) is Err <==> (key_id is Some) != (
        secret_key is Some),
        credentials_of(key_id, secret_key, token) is Err ==> credentials_of(
            key_id,
            secret_key,
            token,
        )->Err_0 == invalid_credentials_error(),
        key_id is None && secret_key is None <==> credentials_of(key_id, secret_key, token) == Ok::<
            Option<AwsCredentialView>,
            ErrorView,
        >(None),
        key_id is Some && secret_key is Some ==> credentials_of(key_id, secret_key, token) == Ok::<
            Option<AwsCredentialView>,
            ErrorView,
        >(Some(AwsCredentialView { key_id: key_id->0, secret_key: secret_key->0, token })),
{
}

/// Whether an executable validation result stands for the given
/// mathematical one.
pub open spec fn credentials_match(
    res: Result<Option<AwsCredential>, BridgeError>,
    expected: Result<Option<AwsCredentialView>, ErrorView>,
) -> bool {
    match expected {
        Ok(Some(c)) => res matches Ok(Some(got)) && got@ == c,
        Ok(None) => res matches Ok(None),
        Err(e) => res matches Err(got) && got@ == e,
    }
}

/// Validates the three credential values of a call.
pub fn aws_creds_from(
    key_id: Option<String>,
    secret_key: Option<String>,
    token: Option<String>,
) -> (res: Result<Option<AwsCredential>, BridgeError>)
    ensures
        credentials_match(
            res,
            credentials_of(key_id.deep_view(), secret_key.deep_view(), token.deep_view()),
        ),
{
    match (key_id, secret_key) {
        (Some(key_id), Some(secret_key)) => Ok(Some(AwsCredential { key_id, secret_key, token })),
        (None, None) => Ok(None),
        _ => Err(BridgeError::invalid_credentials()),
    }
}

/// Reads the credential of a host call from three consecutive arguments:
/// key id, secret and temporary token, starting at
/// `arg_starting_location`.
pub fn get_aws_creds(args: &[HostValue], arg_starting_location: i32) -> (res: Result<
    Option<AwsCredential>,
    BridgeError,
>)
    requires
        arg_starting_location <= i32::MAX - 2,
    ensures
        credentials_match(res, credentials_at(args@, arg_starting_location as int)),
{
    let key_id = argument_opt_text(args, arg_starting_location);
    let secret_key = argument_opt_text(args, arg_starting_location + 1);
    let token = argument_opt_text(args, arg_starting_location + 2);
    aws_creds_from(key_id, secret_key, token)
}

/// The credential rule applied to the three arguments found from
/// position `at` on.
pub open spec fn credentials_at(args: Seq<HostValue>, at: int) -> Result<
    Option<AwsCredentialView>,
    ErrorView,
> {
    credentials_of(
        argument_text(args, at),
        argument_text(args, at + 1),
        argument_text(args, at + 2),
    )
}

/// Reads the optional region of a host call from the argument at
/// `arg_location`.
pub fn get_aws_region(args: &[HostValue], arg_location: i32) -> (region: Option<String>)
    ensures
        region.deep_view() == argument_text(args@, arg_location as int),
{
    argument_opt_text(args, arg_location)
}

/// A credential provider that hands out one fixed credential.
#[derive(Debug, PartialEq, Eq)]
pub struct StaticCredentialProvider<T> {
    credential: Arc<T>,
}

impl<T> View for StaticCredentialProvider<T> {
    type V = T;

    /// The credential that the provider was made with.
    closed spec fn view(&self) -> T {
        *self.credential
    }
}

impl<T> StaticCredentialProvider<T> {
    /// A provider for `credential`.
    pub fn new(credential: T) -> (provider: Self)
        ensures
            provider@ == credential,
    {
        Self { credential: Arc::new(credential) }
    }

    /// Supplies the credential. Every call supplies the one that the
    /// provider was made with.
    pub fn get_credential(&self) -> (credential: Arc<T>)
        ensures
            *credential == self@,
    {
        share(&self.credential)
    }
}

/// Reads the credential of a host call as [`get_aws_creds`] does and
/// wraps it, when present, in a shared static provider.
pub fn get_aws_credential_provider(args: &[HostValue], arg_starting_location: i32) -> (res: Result<
    Option<Arc<StaticCredentialProvider<AwsCredential>>>,
    BridgeError,
>)
    requires
        arg_starting_location <= i32::MAX - 2,
    ensures
        match credentials_at(args@, arg_starting_location as int) {
            Ok(Some(c)) => res matches Ok(Some(provider)) && provider@@ == c,
            Ok(None) => res matches Ok(None),
            Err(e) => res matches Err(got) && got@ == e,
        },
{
    match get_aws_creds(args, arg_starting_location) {
        Ok(Some(credential)) => Ok(Some(Arc::new(StaticCredentialProvider::new(credential)))),
        Ok(None) => Ok(None),
        Err(e) => Err(e),
    }
}

} // verus!
