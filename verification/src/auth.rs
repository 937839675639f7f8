//! The claims of a bearer token, and where the signing secret comes from.

use vstd::prelude::*;

verus! {

/// The claims a token carries.
pub struct Claims {
    pub aud: Option<String>,
    pub exp: usize,
    pub sub: String,
    pub role: Option<String>,
}

/// The secret that `stored` and `fallback` yield: the stored secret where
/// the vault has a row for it and the row holds a value, else the fallback.
pub open spec fn chosen_secret(
    stored: Option<Option<Seq<char>>>,
    fallback: Option<Seq<char>>,
) -> Option<Seq<char>> {
    match stored {
        Some(Some(secret)) => Some(secret),
        _ => fallback,
    }
}

/// Chooses the signing secret. `stored` is the vault's answer: the row, if
/// there is one, and in it the secret, if it is set. `fallback` is the
/// secret configured outside the vault, if there is one. Fails with
/// `JWT Secret not found` exactly where neither yields a secret.
pub fn get_jwt_secret(stored: Option<Option<String>>, fallback: Option<String>) -> (r: Result<
    String,
    String,
>)
    ensures
        match r {
            Ok(secret) => Some(secret@) == chosen_secret(
                match stored {
                    Some(Some(s)) => Some(Some(s@)),
                    Some(None) => Some(None),
                    None => None,
                },
                match fallback {
                    Some(f) => Some(f@),
                    None => None,
                },
            ),
            Err(message) => !(stored matches Some(Some(_))) && fallback is None && message@
                == "JWT Secret not found"@,
        },
{
    match stored {
        Some(Some(secret)) => Ok(secret),
        _ => match fallback {
            Some(secret) => Ok(secret),
            None => Err("JWT Secret not found".to_owned()),
        },
    }
}

} // verus!
