//! Named serial settings, and the store that keeps them.

use vstd::prelude::*;
use vstd::string::StringExecFns;
use crate::serial::{SerialConfig, config_of, default_raw};
use crate::text::{opt_view, str_eq};

verus! {

/// Serial settings under a name.
#[derive(Debug)]
pub struct SerialProfile {
    pub name: String,
    pub config: SerialConfig,
}

/// Mathematical model of a [`SerialProfile`].
pub struct ProfileView {
    pub name: Seq<char>,
    pub config: SerialConfig,
}

impl View for SerialProfile {
    type V = ProfileView;

    open spec fn view(&self) -> ProfileView {
        ProfileView { name: self.name@, config: self.config }
    }
}

impl Clone for SerialProfile {
    fn clone(&self) -> (copy: SerialProfile)
        ensures
            copy@ == self@,
    {
        SerialProfile { name: self.name.clone(), config: self.config }
    }
}

impl SerialProfile {
    /// The settings `config` under the name `name`.
    pub fn new(name: &str, config: SerialConfig) -> (profile: SerialProfile)
        ensures
            profile@ == (ProfileView { name: name@, config }),
    {
        SerialProfile { name: String::from_str(name), config }
    }
}

/// The profiles of a user, in the order in which they were added, and the
/// name of the one in use.
#[derive(Clone, Debug)]
pub struct ProfileStore {
    pub profiles: Vec<SerialProfile>,
    pub active: Option<String>,
}

/// Mathematical model of a [`ProfileStore`].
pub struct StoreView {
    pub profiles: Seq<ProfileView>,
    pub active: Option<Seq<char>>,
}

/// The views of a sequence of profiles.
pub open spec fn profile_views(profiles: Seq<SerialProfile>) -> Seq<ProfileView> {
    profiles.map_values(|profile: SerialProfile| profile@)
}

impl View for ProfileStore {
    type V = StoreView;

    open spec fn view(&self) -> StoreView {
        StoreView { profiles: profile_views(self.profiles@), active: opt_view(self.active) }
    }
}

/// The name of the profile that an empty store is given.
pub open spec fn default_name() -> Seq<char> {
    "Default"@
}

/// The place of the first profile named `name`, or the number of profiles
/// where none has that name.
pub open spec fn position(profiles: Seq<ProfileView>, name: Seq<char>) -> int
    decreases profiles.len(),
{
    if profiles.len() == 0 {
        0
    } else if profiles[0].name == name {
        0
    } else {
        1 + position(profiles.drop_first(), name)
    }
}

/// Whether a profile is named `name`.
pub open spec fn has_name(profiles: Seq<ProfileView>, name: Seq<char>) -> bool {
    exists|i: int| 0 <= i < profiles.len() && (#[trigger] profiles[i]).name == name
}

/// The test of a profile for having another name than `name`.
pub open spec fn named_otherwise(name: Seq<char>) -> spec_fn(ProfileView) -> bool {
    |profile: ProfileView| profile.name != name
}

/// The store with an empty list of profiles filled: it then holds the
/// default settings under the default name, and has them in use. A store
/// that holds a profile stays as it is.
pub open spec fn with_default(store: StoreView) -> StoreView {
    if store.profiles.len() == 0 {
        StoreView {
            profiles: seq![ProfileView { name: default_name(), config: config_of(default_raw()) }],
            active: Some(default_name()),
        }
    } else {
        store
    }
}

/// The profile in use: the first one that has the active name.
pub open spec fn active_profile(store: StoreView) -> Option<ProfileView> {
    match store.active {
        Some(name) => if has_name(store.profiles, name) {
            Some(store.profiles[position(store.profiles, name)])
        } else {
            None
        },
        None => None,
    }
}

/// The store with `name` in use, where a profile has that name; the store
/// as it is where none has.
pub open spec fn with_active(store: StoreView, name: Seq<char>) -> StoreView {
    if has_name(store.profiles, name) {
        StoreView { active: Some(name), ..store }
    } else {
        store
    }
}

/// The store with `profile` in it: in place of the first profile of the
/// same name, or at the end where there is none.
pub open spec fn with_profile(store: StoreView, profile: ProfileView) -> StoreView {
    if has_name(store.profiles, profile.name) {
        StoreView {
            profiles: store.profiles.update(position(store.profiles, profile.name), profile),
            ..store
        }
    } else {
        StoreView { profiles: store.profiles.push(profile), ..store }
    }
}

/// The store without the profiles named `name`. Where that name was in use,
/// the first profile that is left is in use afterwards, or none.
pub open spec fn without(store: StoreView, name: Seq<char>) -> StoreView {
    let left = store.profiles.filter(named_otherwise(name));
    StoreView {
        profiles: left,
        active: if store.active == Some(name) {
            if left.len() > 0 {
                Some(left[0].name)
            } else {
                None
            }
        } else {
            store.active
        },
    }
}

/// The first profile named `name` stands at `position`, which is a place
/// of the sequence exactly when some profile has the name.
pub proof fn lemma_position(profiles: Seq<ProfileView>, name: Seq<char>)
    ensures
        0 <= position(profiles, name) <= profiles.len(),
        has_name(profiles, name) <==> position(profiles, name) < profiles.len(),
        position(profiles, name) < profiles.len() ==> profiles[position(profiles, name)].name
            == name,
        forall|i: int| 0 <= i < position(profiles, name) ==> (#[trigger] profiles[i]).name != name,
    decreases profiles.len(),
{
    if profiles.len() == 0 {
    } else if profiles[0].name == name {
    } else {
        let rest = profiles.drop_first();
        lemma_position(rest, name);
        assert forall|i: int| 0 <= i < position(profiles, name) implies (#[trigger] profiles[i]).name
            != name by {
            if i > 0 {
                assert(profiles[i] == rest[i - 1]);
            }
        }
        if has_name(profiles, name) {
            let i = choose|i: int| 0 <= i < profiles.len() && (#[trigger] profiles[i]).name == name;
            assert(rest[i - 1] == profiles[i]);
        }
    }
}

/// The place found by a search that met no profile named `name` before `at`
/// and one at `at`, or none at all when `at` is the number of profiles.
proof fn lemma_position_found(profiles: Seq<ProfileView>, name: Seq<char>, at: int)
    requires
        0 <= at <= profiles.len(),
        forall|i: int| 0 <= i < at ==> (#[trigger] profiles[i]).name != name,
        at < profiles.len() ==> profiles[at].name == name,
    ensures
        position(profiles, name) == at,
        has_name(profiles, name) <==> at < profiles.len(),
{
    lemma_position(profiles, name);
}

impl Default for ProfileStore {
    fn default() -> (store: ProfileStore)
        ensures
            store@ == (StoreView { profiles: Seq::empty(), active: None }),
    {
        let store = ProfileStore { profiles: Vec::new(), active: None };
        assert(store@.profiles =~= Seq::empty());
        store
    }
}

impl ProfileStore {
    /// The place of the first profile named `name`, or the number of
    /// profiles where none has that name.
    pub fn find(&self, name: &str) -> (at: usize)
        ensures
            at == position(self@.profiles, name@),
            at <= self.profiles.len(),
            has_name(self@.profiles, name@) <==> at < self.profiles.len(),
    {
        let mut i: usize = 0;
        while i < self.profiles.len()
            invariant
                i <= self.profiles.len(),
                forall|j: int| 0 <= j < i ==> (#[trigger] self@.profiles[j]).name != name@,
            decreases self.profiles.len() - i,
        {
            if str_eq(self.profiles[i].name.as_str(), name) {
                proof {
                    lemma_position_found(self@.profiles, name@, i as int);
                }
                return i;
            }
            i += 1;
        }
        proof {
            lemma_position_found(self@.profiles, name@, i as int);
        }
        i
    }

    /// Gives an empty store the default profile, and puts it in use.
    pub fn ensure_default(&mut self)
        ensures
            final(self)@ == with_default(old(self)@),
    {
        if self.profiles.len() == 0 {
            self.profiles.push(SerialProfile::new("Default", SerialConfig::default()));
            self.active = Some(String::from_str("Default"));
            assert(self@.profiles =~= with_default(old(self)@).profiles);
        }
    }

    /// The profile in use: the first one that has the active name.
    pub fn get_active(&self) -> (found: Option<&SerialProfile>)
        ensures
            match found {
                Some(profile) => active_profile(self@) == Some(profile@),
                None => active_profile(self@) is None,
            },
    {
        match &self.active {
            Some(name) => {
                let at = self.find(name.as_str());
                if at < self.profiles.len() {
                    Some(&self.profiles[at])
                } else {
                    None
                }
            },
            None => None,
        }
    }

    /// Puts the profile named `name` in use, if there is one.
    pub fn set_active(&mut self, name: &str)
        ensures
            final(self)@ == with_active(old(self)@, name@),
    {
        if self.find(name) < self.profiles.len() {
            self.active = Some(String::from_str(name));
        }
    }

    /// Puts `profile` in the store: in place of the first profile of its
    /// name, or at the end where there is none.
    pub fn upsert(&mut self, profile: SerialProfile)
        ensures
            final(self)@ == with_profile(old(self)@, profile@),
    {
        let at = self.find(profile.name.as_str());
        if at < self.profiles.len() {
            self.profiles.set(at, profile);
            assert(self@.profiles =~= old(self)@.profiles.update(at as int, profile@));
        } else {
            self.profiles.push(profile);
            assert(self@.profiles =~= old(self)@.profiles.push(profile@));
        }
    }

    /// Removes every profile named `name`. Where that name was in use, the
    /// first profile that is left is in use afterwards.
    pub fn delete(&mut self, name: &str)
        ensures
            final(self)@ == without(old(self)@, name@),
    {
        let mut kept: Vec<SerialProfile> = Vec::new();
        let mut i: usize = 0;
        while i < self.profiles.len()
            invariant
                *self == *old(self),
                i <= self.profiles.len(),
                profile_views(kept@) == self@.profiles.take(i as int).filter(
                    named_otherwise(name@),
                ),
            decreases self.profiles.len() - i,
        {
            let profile = &self.profiles[i];
            let ghost seen = self@.profiles.take(i as int);
            proof {
                assert(self@.profiles.take(i + 1) =~= seen.push(profile@));
                seen.lemma_filter_push(profile@, named_otherwise(name@));
            }
            if !str_eq(profile.name.as_str(), name) {
                kept.push(profile.clone());
            }
            i += 1;
        }
        assert(self@.profiles.take(self.profiles.len() as int) =~= self@.profiles);
        let was_active = match &self.active {
            Some(active) => str_eq(active.as_str(), name),
            None => false,
        };
        self.profiles = kept;
        if was_active {
            if self.profiles.len() > 0 {
                self.active = Some(self.profiles[0].name.clone());
            } else {
                self.active = None;
            }
        }
    }
}

} // verus!
