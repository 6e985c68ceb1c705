//! The power settings that the user has marked as liked.

use crate::text::str_eq;
use vstd::prelude::*;

verus! {

/// Names one power setting by its subgroup and its own id.
#[derive(Debug)]
pub struct PowerSettingIdentifier {
    pub subgroup_guid: String,
    pub setting_guid: String,
}

impl View for PowerSettingIdentifier {
    type V = (Seq<char>, Seq<char>);

    open spec fn view(&self) -> (Seq<char>, Seq<char>) {
        (self.subgroup_guid@, self.setting_guid@)
    }
}

impl PowerSettingIdentifier {
    /// A copy of the identifier.
    pub fn copy(&self) -> (r: Self)
        ensures
            r@ == self@,
    {
        PowerSettingIdentifier {
            subgroup_guid: self.subgroup_guid.clone(),
            setting_guid: self.setting_guid.clone(),
        }
    }
}

/// A copy of a list of identifiers.
pub fn copy_identifiers(list: &Vec<PowerSettingIdentifier>) -> (r: Vec<PowerSettingIdentifier>)
    ensures
        r@.len() == list@.len(),
        forall|k: int| 0 <= k < r@.len() ==> (#[trigger] r@[k])@ == list@[k]@,
{
    let mut r: Vec<PowerSettingIdentifier> = Vec::new();
    let mut i: usize = 0;
    while i < list.len()
        invariant
            i <= list@.len(),
            r@.len() == i,
            forall|k: int| 0 <= k < i ==> (#[trigger] r@[k])@ == list@[k]@,
        decreases list@.len() - i,
    {
        r.push(list[i].copy());
        i += 1;
    }
    r
}

/// The set of liked settings. No setting is held twice.
pub struct PowerSettingsPreferences {
    liked_settings: Vec<PowerSettingIdentifier>,
}

/// The settings that a list names.
pub open spec fn named_settings(list: Seq<PowerSettingIdentifier>) -> Set<(Seq<char>, Seq<char>)> {
    Set::new(
        |id: (Seq<char>, Seq<char>)| exists|i: int| 0 <= i < list.len() && (#[trigger] list[i])@ == id,
    )
}

impl View for PowerSettingsPreferences {
    type V = Set<(Seq<char>, Seq<char>)>;

    closed spec fn view(&self) -> Set<(Seq<char>, Seq<char>)> {
        named_settings(self.liked_settings@)
    }
}

impl Default for PowerSettingsPreferences {
    fn default() -> (r: Self)
        ensures
            r@ == Set::<(Seq<char>, Seq<char>)>::empty(),
    {
        let r = PowerSettingsPreferences { liked_settings: Vec::new() };
        r
    }
}

impl PowerSettingsPreferences {
    #[verifier::type_invariant]
    spec fn no_setting_twice(&self) -> bool {
        forall|i: int, j: int|
            0 <= i < j < self.liked_settings@.len() ==> (#[trigger] self.liked_settings@[i])@ != (
            #[trigger] self.liked_settings@[j])@
    }

    /// Where in the list the setting stands, if it is liked.
    fn position(&self, subgroup_guid: &str, setting_guid: &str) -> (r: Option<usize>)
        ensures
            match r {
                Some(i) => i < self.liked_settings@.len() && self.liked_settings@[i as int]@ == (
                    subgroup_guid@,
                    setting_guid@,
                ),
                None => !self@.contains((subgroup_guid@, setting_guid@)),
            },
    {
        let mut i: usize = 0;
        while i < self.liked_settings.len()
            invariant
                i <= self.liked_settings@.len(),
                forall|k: int|
                    0 <= k < i ==> (#[trigger] self.liked_settings@[k])@ != (
                        subgroup_guid@,
                        setting_guid@,
                    ),
            decreases self.liked_settings@.len() - i,
        {
            if str_eq(self.liked_settings[i].subgroup_guid.as_str(), subgroup_guid) && str_eq(
                self.liked_settings[i].setting_guid.as_str(),
                setting_guid,
            ) {
                return Some(i);
            }
            i += 1;
        }
        None
    }

    /// The preferences that a stored list stands for: its settings, each
    /// once.
    pub fn load(stored: &Vec<PowerSettingIdentifier>) -> (r: Self)
        ensures
            r@ == named_settings(stored@),
    {
        let mut r = PowerSettingsPreferences::default();
        let mut i: usize = 0;
        while i < stored.len()
            invariant
                i <= stored@.len(),
                r@ == named_settings(stored@.take(i as int)),
            decreases stored@.len() - i,
        {
            r.toggle_setting_liked(
                stored[i].subgroup_guid.as_str(),
                stored[i].setting_guid.as_str(),
                true,
            );
            proof {
                let longer = stored@.take(i + 1);
                assert(longer[i as int] == stored@[i as int]);
            }
            i += 1;
        }
        assert(stored@.take(i as int) =~= stored@);
        r
    }

    /// The liked settings as a list, for storing: each once.
    pub fn liked_settings(&self) -> (list: Vec<PowerSettingIdentifier>)
        ensures
            named_settings(list@) == self@,
            forall|i: int, j: int|
                0 <= i < j < list@.len() ==> (#[trigger] list@[i])@ != (#[trigger] list@[j])@,
    {
        proof {
            use_type_invariant(self);
        }
        let list = copy_identifiers(&self.liked_settings);
        proof {
            assert forall|id: (Seq<char>, Seq<char>)|
                named_settings(list@).contains(id) <==> self@.contains(id) by {
                if self@.contains(id) {
                    let k = choose|k: int|
                        0 <= k < self.liked_settings@.len() && (
                        #[trigger] self.liked_settings@[k])@ == id;
                    assert(list@[k]@ == id);
                }
            }
        }
        list
    }

    /// Marks a setting as liked, or takes the mark away.
    pub fn toggle_setting_liked(&mut self, subgroup_guid: &str, setting_guid: &str, is_liked: bool)
        ensures
            final(self)@ == (if is_liked {
                old(self)@.insert((subgroup_guid@, setting_guid@))
            } else {
                old(self)@.remove((subgroup_guid@, setting_guid@))
            }),
    {
        proof {
            use_type_invariant(&*self);
        }
        let ghost id = (subgroup_guid@, setting_guid@);
        let ghost before = self.liked_settings@;
        let found = self.position(subgroup_guid, setting_guid);
        if is_liked {
            match found {
                Some(_) => {},
                None => {
                    let mut list = copy_identifiers(&self.liked_settings);
                    list.push(
                        PowerSettingIdentifier {
                            subgroup_guid: subgroup_guid.to_owned(),
                            setting_guid: setting_guid.to_owned(),
                        },
                    );
                    self.liked_settings = list;
                    proof {
                        let after = self.liked_settings@;
                        assert(after[after.len() - 1]@ == id);
                        assert forall|other: (Seq<char>, Seq<char>)|
                            named_settings(after).contains(other) <==> named_settings(
                                before,
                            ).insert(id).contains(other) by {
                            if named_settings(before).contains(other) {
                                let k = choose|k: int|
                                    0 <= k < before.len() && (#[trigger] before[k])@ == other;
                                assert(after[k]@ == other);
                            }
                        }
                    }
                },
            }
        } else {
            match found {
                Some(i) => {
                    let mut list = copy_identifiers(&self.liked_settings);
                    list.remove(i);
                    self.liked_settings = list;
                    proof {
                        let after = self.liked_settings@;
                        assert forall|other: (Seq<char>, Seq<char>)|
                            named_settings(after).contains(other) <==> named_settings(
                                before,
                            ).remove(id).contains(other) by {
                            if named_settings(before).remove(id).contains(other) {
                                let k = choose|k: int|
                                    0 <= k < before.len() && (#[trigger] before[k])@ == other;
                                if k < i {
                                    assert(after[k]@ == other);
                                } else {
                                    assert(after[k - 1]@ == other);
                                }
                            }
                        }
                    }
                },
                None => {},
            }
        }
    }

    /// Whether a setting is marked as liked.
    pub fn is_setting_liked(&self, subgroup_guid: &str, setting_guid: &str) -> (r: bool)
        ensures
            r == self@.contains((subgroup_guid@, setting_guid@)),
    {
        match self.position(subgroup_guid, setting_guid) {
            Some(i) => {
                true
            },
            None => false,
        }
    }
}

} // verus!
