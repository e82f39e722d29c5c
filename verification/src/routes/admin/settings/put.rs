//! Saving settings: every blacklist entry must compile and no egg may have
//! two overrides.
use vstd::prelude::*;
use crate::blacklist::{blacklist_errors, invalid_entry_messages, views};
use crate::ids::{uuid_chars, uuid_text};
use crate::settings::ExtensionSettingsData;
use crate::text::{chars_of, extend_chars, string_of};

verus! {

/// Why new settings are refused.
#[derive(Clone, Debug)]
pub enum SettingsRejection {
    /// Blacklist entries that are not valid regexes, one message each.
    InvalidPatterns(Vec<String>),
    /// Two overrides for the same egg.
    DuplicateEgg(u128),
}

impl SettingsRejection {
    /// The message of a duplicate override.
    pub fn duplicate_message(egg: u128) -> (res: String)
        ensures
            res@ == "duplicate egg override for egg "@ + uuid_text(egg),
    {
        let mut text = chars_of("duplicate egg override for egg ");
        extend_chars(&mut text, &uuid_chars(egg));
        string_of(&text)
    }
}

/// Checks settings before they are saved: every blacklist entry must compile
/// as a regex, then no egg may have two overrides. (Field lengths and ranges
/// are checked when the payload is read.)
pub fn check_settings(data: &ExtensionSettingsData) -> (res: Result<(), SettingsRejection>)
    ensures
        invalid_entry_messages(views(data.blacklist@)).len() > 0 ==> (res matches Err(
            SettingsRejection::InvalidPatterns(m),
        ) && views(m@) == invalid_entry_messages(views(data.blacklist@))),
        invalid_entry_messages(views(data.blacklist@)).len() == 0 ==> match res {
            Ok(()) => forall|j: int, k: int|
                0 <= j < k < data.egg_records@.len() ==> data.egg_records@[j].egg_uuid
                    != data.egg_records@[k].egg_uuid,
            Err(SettingsRejection::DuplicateEgg(egg)) => exists|j: int, k: int|
                0 <= j < k < data.egg_records@.len() && data.egg_records@[j].egg_uuid == egg
                    && data.egg_records@[k].egg_uuid == egg && forall|k2: int, j2: int|
                    0 <= j2 < k2 < k ==> data.egg_records@[j2].egg_uuid
                        != data.egg_records@[k2].egg_uuid,
            Err(SettingsRejection::InvalidPatterns(_)) => false,
        },
{
    let invalid = blacklist_errors(data.blacklist.as_slice());
    if invalid.len() > 0 {
        return Err(SettingsRejection::InvalidPatterns(invalid));
    }
    let overrides = &data.egg_records;
    assert(views(invalid@).len() == invalid@.len());
    let mut k: usize = 0;
    while k < overrides.len()
        invariant
            invalid_entry_messages(views(data.blacklist@)).len() == 0,
            overrides@ == data.egg_records@,
            k <= overrides@.len(),
            forall|k2: int, j2: int| 0 <= j2 < k2 < k ==> overrides@[j2].egg_uuid != overrides@[k2].egg_uuid,
        decreases overrides@.len() - k,
    {
        let mut j: usize = 0;
        while j < k
            invariant
                invalid_entry_messages(views(data.blacklist@)).len() == 0,
                overrides@ == data.egg_records@,
                forall|k2: int, j2: int| 0 <= j2 < k2 < k ==> overrides@[j2].egg_uuid != overrides@[k2].egg_uuid,
                j <= k < overrides@.len(),
                forall|j2: int| 0 <= j2 < j ==> overrides@[j2].egg_uuid != overrides@[k as int].egg_uuid,
            decreases k - j,
        {
            if overrides[j].egg_uuid == overrides[k].egg_uuid {
                assert(0 <= j < k < data.egg_records@.len() && data.egg_records@[j as int].egg_uuid
                    == overrides@[k as int].egg_uuid);
                return Err(SettingsRejection::DuplicateEgg(overrides[k].egg_uuid));
            }
            j = j + 1;
        }
        k = k + 1;
    }
    Ok(())
}

} // verus!
