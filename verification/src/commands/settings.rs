use vstd::prelude::*;

verus! {

/// Whether settings stored earlier under the id are deleted before the new ones are
/// stored: exactly when the lookup succeeded and found some.
pub fn replaces_stored_settings<D, E>(found: &Result<Option<D>, E>) -> (r: bool)
    ensures
        r == (found matches Ok(Some(_))),
{
    match found {
        Ok(Some(_)) => true,
        _ => false,
    }
}

/// The answer to storing settings: a failed insert yields `Could not insert settings`.
pub fn post_settings<E>(inserted: Result<(), E>) -> (r: Result<(), String>)
    ensures
        inserted is Ok ==> r is Ok,
        inserted is Err ==> (r matches Err(m) && m@ == "Could not insert settings"@),
{
    match inserted {
        Ok(()) => Ok(()),
        Err(_) => Err(String::from_str("Could not insert settings")),
    }
}

/// The answer to reading settings: the stored document; a failed lookup yields
/// `Could not get settings`, a missing one `Settings not found`.
pub fn get_settings<D, E>(found: Result<Option<D>, E>) -> (r: Result<D, String>)
    ensures
        match found {
            Ok(Some(d)) => r == Ok::<D, String>(d),
            Ok(None) => r matches Err(m) && m@ == "Settings not found"@,
            Err(_) => r matches Err(m) && m@ == "Could not get settings"@,
        },
{
    match found {
        Ok(Some(d)) => Ok(d),
        Ok(None) => Err(String::from_str("Settings not found")),
        Err(_) => Err(String::from_str("Could not get settings")),
    }
}

} // verus!
