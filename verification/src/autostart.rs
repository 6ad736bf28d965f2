//! Login-item attribution: the launch agent that starts the app at login
//! names the app's bundle, so the system shows the app (not a bare script)
//! in its login-item settings.

use vstd::prelude::*;

use crate::paths::{path_join, spec_path_join};

verus! {

#[verifier::external_type_specification]
#[verifier::external_body]
pub struct ExPlistValue(plist::Value);

/// The key under which a launch agent lists the bundles it belongs to.
pub const ASSOCIATED_BUNDLE_IDENTIFIERS: &'static str = "AssociatedBundleIdentifiers";

/// The error for a launch agent file whose top level is not a dictionary.
pub const NOT_A_DICTIONARY: &'static str = "autostart launch agent is not a plist dictionary";

/// The directory under the home directory that holds per-user launch agents.
pub const LAUNCH_AGENTS_DIR: &'static str = "Library/LaunchAgents";

/// What a plist value holds, as far as attribution reads it: `None` when the
/// value is not a dictionary; else, for each key of the dictionary, the
/// strings of its entry when that entry is an array of strings only, and
/// `None` for an entry of any other shape.
pub uninterp spec fn plist_string_lists(v: plist::Value) -> Option<Map<Seq<char>, Option<Seq<Seq<char>>>>>;

/// Calls `plist::Value::as_dictionary`. Claims that it succeeds exactly on
/// a dictionary.
#[verifier::external_body]
fn plist_is_dictionary(v: &plist::Value) -> (r: bool)
    ensures
        r == plist_string_lists(*v) is Some,
{
    v.as_dictionary().is_some()
}

/// Compares, with plist's `==`, the dictionary entry under `key` with an
/// array holding the one string `item`. Claims that they are equal exactly
/// when the entry exists and is an array of strings whose only string is
/// `item`, as `plist::Value`'s derived equality compares variant by variant.
#[verifier::external_body]
fn plist_entry_is_single_string(v: &plist::Value, key: &str, item: &str) -> (r: bool)
    requires
        plist_string_lists(*v) is Some,
    ensures
        r == (plist_string_lists(*v)->0.contains_key(key@) && plist_string_lists(*v)->0[key@] == Some(
            seq![item@],
        )),
{
    match v.as_dictionary() {
        Some(dictionary) => dictionary.get(key) == Some(&plist::Value::Array(vec![plist::Value::String(item.to_string())])),
        None => false,
    }
}

/// Calls `plist::Dictionary::insert` with an array holding the one string
/// `item`. Claims what its documentation says: the entry under `key` is
/// replaced or added, and every other entry stays.
#[verifier::external_body]
fn plist_insert_single_string(v: &mut plist::Value, key: &str, item: &str)
    requires
        plist_string_lists(*old(v)) is Some,
    ensures
        plist_string_lists(*final(v)) == Some(plist_string_lists(*old(v))->0.insert(key@, Some(seq![item@]))),
{
    if let Some(dictionary) = v.as_dictionary_mut() {
        dictionary.insert(key.to_string(), plist::Value::Array(vec![plist::Value::String(item.to_string())]));
    }
}

/// The outcome of attributing a launch agent with contents `m` to
/// `bundle_id`: an error when it is not a dictionary; `false` when it
/// already names exactly that bundle; else `true`, with the association
/// set.
pub open spec fn attribution_spec(
    m: Option<Map<Seq<char>, Option<Seq<Seq<char>>>>>,
    bundle_id: Seq<char>,
) -> (Result<bool, ()>, Option<Map<Seq<char>, Option<Seq<Seq<char>>>>>) {
    let key = ASSOCIATED_BUNDLE_IDENTIFIERS@;
    match m {
        None => (Err(()), m),
        Some(d) => if d.contains_key(key) && d[key] == Some(seq![bundle_id]) {
            (Ok(false), m)
        } else {
            (Ok(true), Some(d.insert(key, Some(seq![bundle_id]))))
        },
    }
}

/// Makes the launch agent name `bundle_id` as the one bundle it belongs to.
/// Returns whether it changed; refuses a launch agent that is not a
/// dictionary, which it then leaves as it was.
pub fn set_attribution(launch_agent: &mut plist::Value, bundle_id: &str) -> (r: Result<bool, String>)
    ensures
        ({
            let (outcome, after) = attribution_spec(plist_string_lists(*old(launch_agent)), bundle_id@);
            &&& plist_string_lists(*final(launch_agent)) == after
            &&& match outcome {
                Ok(changed) => r == Ok::<bool, String>(changed),
                Err(_) => r matches Err(e) && e@ == NOT_A_DICTIONARY@,
            }
        }),
        r == Ok::<bool, String>(false) ==> *final(launch_agent) == *old(launch_agent),
        r is Err ==> *final(launch_agent) == *old(launch_agent),
{
    if !plist_is_dictionary(launch_agent) {
        return Err(String::from_str(NOT_A_DICTIONARY));
    }
    if plist_entry_is_single_string(launch_agent, ASSOCIATED_BUNDLE_IDENTIFIERS, bundle_id) {
        return Ok(false);
    }
    plist_insert_single_string(launch_agent, ASSOCIATED_BUNDLE_IDENTIFIERS, bundle_id);
    Ok(true)
}

/// Attribution is idempotent: once it has succeeded, attributing to the same
/// bundle again changes nothing and reports no change.
pub proof fn lemma_attribution_is_idempotent(m: Option<Map<Seq<char>, Option<Seq<Seq<char>>>>>, bundle_id: Seq<char>)
    requires
        attribution_spec(m, bundle_id).0 is Ok,
    ensures
        ({
            let after = attribution_spec(m, bundle_id).1;
            &&& attribution_spec(after, bundle_id).0 == Ok::<bool, ()>(false)
            &&& attribution_spec(after, bundle_id).1 == after
        }),
{
}

/// The launch agent file of the app called `app_name` under the home
/// directory `home`: `<home>/Library/LaunchAgents/<app_name>.plist`.
pub fn launch_agent_path(home: &str, app_name: &str) -> (r: String)
    ensures
        r@ == spec_path_join(spec_path_join(home@, LAUNCH_AGENTS_DIR@), app_name@ + ".plist"@),
{
    let dir = path_join(home, LAUNCH_AGENTS_DIR);
    let file_name = String::from_str(app_name).concat(".plist");
    path_join(dir.as_str(), file_name.as_str())
}

} // verus!
