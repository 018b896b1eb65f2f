//! Key localization: a passphrase and an agent's engine identifier turned into a
//! key for the chosen digest, as RFC 3414 describes.
use vstd::prelude::*;
use snmp_usm::{LocalizedKey, Md5, Sha1};
use crate::error::SnmpError;
use crate::params::AuthTypeArgs;

verus! {

#[verifier::external_type_specification]
#[verifier::external_body]
pub struct ExMd5(Md5);

#[verifier::external_type_specification]
#[verifier::external_body]
pub struct ExSha1(Sha1);

#[verifier::external_type_specification]
#[verifier::external_body]
#[verifier::reject_recursive_types(D)]
pub struct ExLocalizedKey<'a, D>(LocalizedKey<'a, D>);

/// Relies on snmp_usm's `LocalizedKey::<Md5>::new`, the password-to-key algorithm
/// over MD5; it panics on an empty password, which `requires` leaves out.
#[verifier::external_body]
fn localized_md5_key(passwd: &[u8], engine_id: &[u8]) -> LocalizedKey<'static, Md5>
    requires
        passwd@.len() > 0,
{
    LocalizedKey::<Md5>::new(passwd, engine_id)
}

/// Relies on snmp_usm's `LocalizedKey::<Sha1>::new`, the password-to-key algorithm
/// over SHA-1; it panics on an empty password, which `requires` leaves out.
#[verifier::external_body]
fn localized_sha1_key(passwd: &[u8], engine_id: &[u8]) -> LocalizedKey<'static, Sha1>
    requires
        passwd@.len() > 0,
{
    LocalizedKey::<Sha1>::new(passwd, engine_id)
}

/// A key localized for one agent, with the digest it was made with.
#[derive(Debug)]
pub enum LocalizedAuthKey {
    Md5(LocalizedKey<'static, Md5>),
    Sha1(LocalizedKey<'static, Sha1>),
}

/// Localizes `passphrase` for the engine `engine_id` with the digest `digest`. Fails
/// with `InvalidInput` exactly where the passphrase is empty or no digest is chosen.
pub fn localize(passphrase: &[u8], engine_id: &[u8], digest: AuthTypeArgs) -> (r: Result<
    LocalizedAuthKey,
    SnmpError,
>)
    ensures
        r is Ok <==> passphrase@.len() > 0 && digest != AuthTypeArgs::NoAuth,
        r matches Ok(k) ==> (k is Md5 <==> digest == AuthTypeArgs::Md5Digest),
        r matches Err(e) ==> e == SnmpError::InvalidInput,
{
    if passphrase.len() == 0 {
        return Err(SnmpError::InvalidInput);
    }
    match digest {
        AuthTypeArgs::Md5Digest => Ok(LocalizedAuthKey::Md5(localized_md5_key(passphrase, engine_id))),
        AuthTypeArgs::Sha1Digest => Ok(
            LocalizedAuthKey::Sha1(localized_sha1_key(passphrase, engine_id)),
        ),
        AuthTypeArgs::NoAuth => Err(SnmpError::InvalidInput),
    }
}

} // verus!
