//! The installed sound-pack list and the paths stored in the app's
//! configuration.

use vstd::prelude::*;

use crate::paths::{path_join, path_strip_prefix, spec_path_join, spec_path_strip_prefix};
use crate::text::str_eq;

verus! {

/// An installed sound pack: its display name and its directory.
#[derive(Debug)]
pub struct SoundOption {
    pub name: String,
    pub value: String,
}

/// The model of a `SoundOption`.
pub ghost struct SoundOptionView {
    pub name: Seq<char>,
    pub value: Seq<char>,
}

impl View for SoundOption {
    type V = SoundOptionView;

    open spec fn view(&self) -> SoundOptionView {
        SoundOptionView { name: self.name@, value: self.value@ }
    }
}

pub open spec fn options_view(v: Seq<SoundOption>) -> Seq<SoundOptionView> {
    v.map_values(|o: SoundOption| o@)
}

impl SoundOption {
    /// A copy of this option.
    pub fn duplicate(&self) -> (r: SoundOption)
        ensures
            r@ == self@,
    {
        SoundOption { name: self.name.clone(), value: self.value.clone() }
    }
}

/// Keys of the persisted sound-pack settings.
#[derive(Debug, Clone, Copy, PartialEq, Eq, Structural)]
pub enum ConfigKey {
    Volume,
    Sounds,
    CurrentSound,
}

pub open spec fn config_key_name(k: ConfigKey) -> Seq<char> {
    match k {
        ConfigKey::Volume => "volume"@,
        ConfigKey::Sounds => "sounds"@,
        ConfigKey::CurrentSound => "currentSound"@,
    }
}

impl ConfigKey {
    /// The key's name in the settings file (camel case).
    pub fn as_str(&self) -> (r: &'static str)
        ensures
            r@ == config_key_name(*self),
    {
        match self {
            ConfigKey::Volume => "volume",
            ConfigKey::Sounds => "sounds",
            ConfigKey::CurrentSound => "currentSound",
        }
    }
}

/// Whether some option in `sounds` is named `name`.
pub open spec fn has_name(sounds: Seq<SoundOptionView>, name: Seq<char>) -> bool {
    exists|i: int| 0 <= i < sounds.len() && (#[trigger] sounds[i]).name == name
}

/// The list after inserting `sound`: unchanged when a pack of that name is
/// already listed, else `sound` appended.
pub open spec fn insert_sound_spec(sounds: Seq<SoundOptionView>, sound: SoundOptionView) -> Seq<SoundOptionView> {
    if has_name(sounds, sound.name) {
        sounds
    } else {
        sounds.push(sound)
    }
}

/// No two options share a name.
pub open spec fn names_unique(sounds: Seq<SoundOptionView>) -> bool {
    forall|i: int, j: int| 0 <= i < sounds.len() && 0 <= j < sounds.len() && i != j
        ==> (#[trigger] sounds[i]).name != (#[trigger] sounds[j]).name
}

/// Adds `sound` unless a pack of the same name is listed; says whether the
/// list changed (and so must be saved).
pub fn insert_sound_option(sounds: &mut Vec<SoundOption>, sound: SoundOption) -> (inserted: bool)
    ensures
        options_view(final(sounds)@) == insert_sound_spec(options_view(old(sounds)@), sound@),
        inserted == !has_name(options_view(old(sounds)@), sound@.name),
{
    let ghost before = options_view(sounds@);
    let mut i: usize = 0;
    while i < sounds.len()
        invariant
            before == options_view(sounds@),
            i <= sounds@.len(),
            forall|j: int| 0 <= j < i ==> (#[trigger] before[j]).name != sound@.name,
        decreases sounds@.len() - i,
    {
        if str_eq(sounds[i].name.as_str(), sound.name.as_str()) {
            assert(before[i as int].name == sound@.name);
            return false;
        }
        i += 1;
    }
    sounds.push(sound);
    assert(options_view(sounds@) =~= before.push(sound@));
    true
}

/// Inserting keeps names unique.
pub proof fn lemma_insert_keeps_names_unique(sounds: Seq<SoundOptionView>, sound: SoundOptionView)
    requires
        names_unique(sounds),
    ensures
        names_unique(insert_sound_spec(sounds, sound)),
{
    let r = insert_sound_spec(sounds, sound);
    if !has_name(sounds, sound.name) {
        assert forall|i: int, j: int| 0 <= i < r.len() && 0 <= j < r.len() && i != j
            implies (#[trigger] r[i]).name != (#[trigger] r[j]).name by {
            if i == sounds.len() {
                assert(r[j] == sounds[j]);
            } else if j == sounds.len() {
                assert(r[i] == sounds[i]);
            } else {
                assert(r[i] == sounds[i] && r[j] == sounds[j]);
            }
        }
    }
}

/// Inserting the same pack twice is the same as inserting it once.
pub proof fn lemma_insert_is_idempotent(sounds: Seq<SoundOptionView>, sound: SoundOptionView)
    ensures
        insert_sound_spec(insert_sound_spec(sounds, sound), sound) == insert_sound_spec(sounds, sound),
{
    let once = insert_sound_spec(sounds, sound);
    if !has_name(sounds, sound.name) {
        assert(once[sounds.len() as int].name == sound.name);
    }
}

/// A path moved from under `old_root` to under `new_root`; paths not under
/// `old_root` stay as they are.
pub open spec fn rebase_path_spec(value: Seq<char>, old_root: Seq<char>, new_root: Seq<char>) -> Seq<char> {
    match spec_path_strip_prefix(value, old_root) {
        Some(rel) => spec_path_join(new_root, rel),
        None => value,
    }
}

/// Moves `value` from under `old_root` to under `new_root`.
pub fn rebase_path(value: &mut String, old_root: &str, new_root: &str)
    ensures
        final(value)@ == rebase_path_spec(old(value)@, old_root@, new_root@),
{
    let relative = match path_strip_prefix(value.as_str(), old_root) {
        Some(r) => r,
        None => return,
    };
    *value = path_join(new_root, relative.as_str());
}

/// Moves every pack directory, and the selected pack, from under `old_root`
/// to under `new_root`; names are kept.
pub fn rebase_sound_paths(
    sounds: &mut Vec<SoundOption>,
    current_sound: &mut Option<String>,
    old_root: &str,
    new_root: &str,
)
    ensures
        final(sounds)@.len() == old(sounds)@.len(),
        forall|i: int| 0 <= i < old(sounds)@.len() ==> {
            &&& (#[trigger] final(sounds)@[i])@.name == old(sounds)@[i]@.name
            &&& final(sounds)@[i]@.value == rebase_path_spec(old(sounds)@[i]@.value, old_root@, new_root@)
        },
        match *old(current_sound) {
            Some(c) => *final(current_sound) matches Some(n) && n@ == rebase_path_spec(c@, old_root@, new_root@),
            None => *final(current_sound) is None,
        },
{
    let ghost before = sounds@;
    let mut i: usize = 0;
    while i < sounds.len()
        invariant
            sounds@.len() == before.len(),
            i <= sounds@.len(),
            forall|j: int| 0 <= j < i ==> {
                &&& (#[trigger] sounds@[j])@.name == before[j]@.name
                &&& sounds@[j]@.value == rebase_path_spec(before[j]@.value, old_root@, new_root@)
            },
            forall|j: int| i <= j < sounds@.len() ==> #[trigger] sounds@[j] == before[j],
        decreases sounds@.len() - i,
    {
        let mut value = sounds[i].value.clone();
        rebase_path(&mut value, old_root, new_root);
        let name = sounds[i].name.clone();
        sounds.set(i, SoundOption { name, value });
        i += 1;
    }
    if let Some(c) = current_sound {
        rebase_path(c, old_root, new_root);
    }
}

} // verus!
