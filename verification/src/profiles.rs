//! TV profiles: the persisted record of a preferred HDMI output and audio
//! sink, the in-memory store operations, and the matcher that picks a
//! profile for the currently connected outputs.

use vstd::prelude::*;

use crate::text::contains_seq;
use crate::text::contains_substr;
use crate::text::str_eq;

verus! {

/// One saved TV profile.
pub struct TvProfile {
    pub name: String,
    pub hdmi_output: Option<String>,
    pub audio_sink: Option<String>,
}

/// The mathematical value of a [`TvProfile`].
pub struct TvProfileView {
    pub name: Seq<char>,
    pub hdmi_output: Option<Seq<char>>,
    pub audio_sink: Option<Seq<char>>,
}

impl View for TvProfile {
    type V = TvProfileView;

    open spec fn view(&self) -> TvProfileView {
        TvProfileView {
            name: self.name@,
            hdmi_output: match self.hdmi_output {
                Some(ref s) => Some(s@),
                None => None,
            },
            audio_sink: match self.audio_sink {
                Some(ref s) => Some(s@),
                None => None,
            },
        }
    }
}

impl Clone for TvProfile {
    fn clone(&self) -> (r: Self)
        ensures
            r@ == self@,
    {
        TvProfile {
            name: self.name.clone(),
            hdmi_output: match &self.hdmi_output {
                Some(s) => Some(s.clone()),
                None => None,
            },
            audio_sink: match &self.audio_sink {
                Some(s) => Some(s.clone()),
                None => None,
            },
        }
    }
}

/// The views of a sequence of profiles.
pub open spec fn profile_views(v: Seq<TvProfile>) -> Seq<TvProfileView> {
    Seq::new(v.len(), |i: int| v[i]@)
}

/// Every saved profile, in saved order.
pub struct ProfileCollection {
    pub profiles: Vec<TvProfile>,
}

/// Index of the first profile at or after `i` named `name`, else `pv.len()`.
pub open spec fn find_profile_idx(pv: Seq<TvProfileView>, name: Seq<char>, i: int) -> int
    decreases pv.len() - i,
{
    if i < 0 || i >= pv.len() {
        pv.len() as int
    } else if pv[i].name == name {
        i
    } else {
        find_profile_idx(pv, name, i + 1)
    }
}

/// Saving into a collection: the first profile with the same name is
/// replaced, else the new profile is appended.
pub open spec fn upsert_spec(pv: Seq<TvProfileView>, p: TvProfileView) -> Seq<TvProfileView> {
    let k = find_profile_idx(pv, p.name, 0);
    if k < pv.len() {
        pv.update(k, p)
    } else {
        pv.push(p)
    }
}

/// The in-memory profile store: the collection that the external profile
/// file holds. Reading and writing that file is the surrounding
/// application's work; the store owns the collection between the two.
pub struct ProfileStore {
    pub collection: ProfileCollection,
}

impl ProfileStore {
    /// A store over an already-loaded collection.
    pub fn new(collection: ProfileCollection) -> (r: ProfileStore)
        ensures
            r.collection == collection,
    {
        ProfileStore { collection }
    }

    /// Save a profile: the first existing profile with the same name is
    /// replaced, else the profile is appended.
    #[verifier::loop_isolation(false)]
    pub fn save_profile(&mut self, profile: TvProfile)
        ensures
            profile_views(final(self).collection.profiles@) == upsert_spec(
                profile_views(old(self).collection.profiles@),
                profile@,
            ),
    {
        let ghost pv = profile_views(old(self).collection.profiles@);
        let n = self.collection.profiles.len();
        let mut i: usize = 0;
        while i < n
            invariant
                0 <= i <= n,
                n == self.collection.profiles@.len(),
                pv == profile_views(self.collection.profiles@),
                find_profile_idx(pv, profile@.name, 0) == find_profile_idx(
                    pv,
                    profile@.name,
                    i as int,
                ),
            decreases n - i,
        {
            if str_eq(self.collection.profiles[i].name.as_str(), profile.name.as_str()) {
                let ghost prof_view = profile@;
                self.collection.profiles[i] = profile;
                proof {
                    assert(pv[i as int].name == prof_view.name);
                    assert(find_profile_idx(pv, prof_view.name, i as int) == i);
                    assert(profile_views(self.collection.profiles@) =~= pv.update(
                        i as int,
                        prof_view,
                    ));
                    assert(profile_views(self.collection.profiles@) == upsert_spec(pv, prof_view));
                }
                return ;
            }
            i += 1;
        }
        let ghost prof_view = profile@;
        self.collection.profiles.push(profile);
        proof {
            assert(profile_views(self.collection.profiles@) =~= pv.push(prof_view));
            assert(profile_views(self.collection.profiles@) == upsert_spec(pv, prof_view));
        }
    }

    /// Load the first profile with the given name, if any.
    pub fn load_profile(&self, name: &str) -> (r: Option<TvProfile>)
        ensures
            ({
                let pv = profile_views(self.collection.profiles@);
                let k = find_profile_idx(pv, name@, 0);
                match r {
                    Some(p) => k < pv.len() && p@ == pv[k],
                    None => k == pv.len(),
                }
            }),
    {
        let ghost pv = profile_views(self.collection.profiles@);
        let n = self.collection.profiles.len();
        let mut i: usize = 0;
        while i < n
            invariant
                0 <= i <= n,
                n == self.collection.profiles@.len(),
                pv == profile_views(self.collection.profiles@),
                find_profile_idx(pv, name@, 0) == find_profile_idx(pv, name@, i as int),
            decreases n - i,
        {
            if str_eq(self.collection.profiles[i].name.as_str(), name) {
                return Some(self.collection.profiles[i].clone());
            }
            i += 1;
        }
        None
    }
}

// ---------------------------------------------------------------------------
// Profile matching
// ---------------------------------------------------------------------------

/// A profile matches the connected outputs when it names an HDMI output and
/// some output line contains that name.
pub open spec fn profile_matches(p: TvProfileView, outs: Seq<Seq<char>>) -> bool {
    match p.hdmi_output {
        Some(needle) => exists|i: int| 0 <= i < outs.len() && contains_seq(outs[i], needle),
        None => false,
    }
}

/// Index of the first matching profile at or after `i`, else `pv.len()`.
pub open spec fn first_match_idx(pv: Seq<TvProfileView>, outs: Seq<Seq<char>>, i: int) -> int
    decreases pv.len() - i,
{
    if i < 0 || i >= pv.len() {
        pv.len() as int
    } else if profile_matches(pv[i], outs) {
        i
    } else {
        first_match_idx(pv, outs, i + 1)
    }
}

fn any_output_contains(outputs: &[String], needle: &str) -> (r: bool)
    ensures
        r == exists|i: int|
            0 <= i < outputs@.len() && contains_seq(outputs@[i]@, needle@),
{
    let n = outputs.len();
    let mut i: usize = 0;
    while i < n
        invariant
            0 <= i <= n,
            n == outputs@.len(),
            forall|k: int| 0 <= k < i ==> !contains_seq(outputs@[k]@, needle@),
        decreases n - i,
    {
        if contains_substr(outputs[i].as_str(), needle) {
            return true;
        }
        i += 1;
    }
    false
}

/// Pick the first saved profile whose preferred HDMI output is mentioned by
/// one of the connected output lines.
pub fn choose_profile_for_outputs<'a>(profiles: &'a [TvProfile], outputs: &[String]) -> (r: Option<
    &'a TvProfile,
>)
    ensures
        ({
            let pv = profile_views(profiles@);
            let ov = crate::text::string_views(outputs@);
            let k = first_match_idx(pv, ov, 0);
            match r {
                Some(p) => k < pv.len() && p@ == pv[k],
                None => k == pv.len(),
            }
        }),
{
    let ghost pv = profile_views(profiles@);
    let ghost ov = crate::text::string_views(outputs@);
    let n = profiles.len();
    let mut i: usize = 0;
    while i < n
        invariant
            0 <= i <= n,
            n == profiles@.len(),
            pv == profile_views(profiles@),
            ov == crate::text::string_views(outputs@),
            first_match_idx(pv, ov, 0) == first_match_idx(pv, ov, i as int),
        decreases n - i,
    {
        let matched: bool = match &profiles[i].hdmi_output {
            Some(needle) => {
                let m = any_output_contains(outputs, needle.as_str());
                proof {
                    assert(pv[i as int].hdmi_output == Some(needle@));
                    if m {
                        let k = choose|k: int|
                            0 <= k < outputs@.len() && contains_seq(outputs@[k]@, needle@);
                        assert(ov[k] == outputs@[k]@);
                        assert(profile_matches(pv[i as int], ov));
                    } else {
                        assert forall|k: int|
                            0 <= k < ov.len() implies !contains_seq(ov[k], needle@) by {
                            assert(ov[k] == outputs@[k]@);
                        }
                        assert(!profile_matches(pv[i as int], ov));
                    }
                }
                m
            },
            None => false,
        };
        proof {
            assert(matched == profile_matches(pv[i as int], ov));
        }
        if matched {
            return Some(&profiles[i]);
        }
        i += 1;
    }
    None
}

} // verus!
