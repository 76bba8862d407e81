use vstd::prelude::*;
use crate::loaders::{loader_name, make_profile_id, minecraft, profile_id, LoaderVersion};
use crate::text::{chars_of, extend_chars, string_of};

verus! {

/// The launcher's registry of installable profiles: entries keyed by profile
/// id, opaque settings, and a schema version. `V` is the document type that
/// holds an entry.
pub struct LaunchProfiles<V> {
    pub profiles: Vec<(String, V)>,
    pub settings: V,
    pub version: u32,
}

/// No two entries share an id.
pub open spec fn unique_ids<V>(ps: Seq<(String, V)>) -> bool {
    forall|i: int, j: int| 0 <= i < j < ps.len() ==> (#[trigger] ps[i]).0@ != (#[trigger] ps[j]).0@
}

pub open spec fn has_id<V>(ps: Seq<(String, V)>, id: Seq<char>, i: int) -> bool {
    0 <= i < ps.len() && ps[i].0@ == id
}

/// The entries after `id` is set to `entry`: the entry with that id is
/// overwritten in place, or, where there is none, the pair is added at the end.
pub open spec fn with_profile<V>(ps: Seq<(String, V)>, id: String, entry: V) -> Seq<(String, V)> {
    if exists|i: int| has_id(ps, id@, i) {
        ps.update(choose|i: int| has_id(ps, id@, i), (id, entry))
    } else {
        ps.push((id, entry))
    }
}

impl<V> LaunchProfiles<V> {
    pub open spec fn wf(&self) -> bool {
        unique_ids(self.profiles@)
    }

    /// Sets the entry of `id`, overwriting an earlier one; nothing else changes.
    pub fn insert_profile(&mut self, id: String, entry: V)
        requires
            old(self).wf(),
        ensures
            final(self).wf(),
            final(self).profiles@ == with_profile(old(self).profiles@, id, entry),
            final(self).settings == old(self).settings,
            final(self).version == old(self).version,
    {
        let ghost ps = self.profiles@;
        let mut i: usize = 0;
        while i < self.profiles.len()
            invariant
                self.profiles@ == ps,
                self.settings == old(self).settings,
                self.version == old(self).version,
                ps == old(self).profiles@,
                unique_ids(ps),
                i <= ps.len(),
                forall|j: int| 0 <= j < i ==> !has_id(ps, id@, j),
            decreases ps.len() - i,
        {
            if self.profiles[i].0 == id {
                proof {
                    assert(ps[i as int].0@ == id@);
                    assert(has_id(ps, id@, i as int));
                    let k = choose|k: int| has_id(ps, id@, k);
                    if k != i {
                        assert(ps[k].0@ == ps[i as int].0@);
                    }
                }
                self.profiles.set(i, (id, entry));
                proof {
                    let n = self.profiles@;
                    assert forall|a: int, b: int| 0 <= a < b < n.len() implies (#[trigger] n[a]).0@
                        != (#[trigger] n[b]).0@ by {
                        if a != i && b != i {
                            assert(n[a] == ps[a] && n[b] == ps[b]);
                        } else if a == i {
                            assert(n[b] == ps[b]);
                        } else {
                            assert(n[a] == ps[a]);
                        }
                    }
                }
                return;
            }
            i = i + 1;
        }
        self.profiles.push((id, entry));
        proof {
            let n = self.profiles@;
            assert forall|a: int, b: int| 0 <= a < b < n.len() implies (#[trigger] n[a]).0@
                != (#[trigger] n[b]).0@ by {
                if b == ps.len() {
                    assert(!has_id(ps, id@, a));
                } else {
                    assert(n[a] == ps[a] && n[b] == ps[b]);
                }
            }
        }
    }
}

/// Setting a profile in a registry of N entries gives N + 1 entries when the id
/// is new, the new one last, and N entries when it is not, that one overwritten
/// in place; every other entry stays as it was, and ids stay unique.
pub proof fn lemma_registry_patch<V>(ps: Seq<(String, V)>, id: String, entry: V)
    requires
        unique_ids(ps),
    ensures
        (forall|i: int| 0 <= i < ps.len() ==> ps[i].0@ != id@) ==> {
            &&& with_profile(ps, id, entry).len() == ps.len() + 1
            &&& with_profile(ps, id, entry)[ps.len() as int] == (id, entry)
            &&& forall|i: int| 0 <= i < ps.len() ==> #[trigger] with_profile(ps, id, entry)[i] == ps[i]
        },
        forall|k: int|
            0 <= k < ps.len() && (#[trigger] ps[k]).0@ == id@ ==> {
                &&& with_profile(ps, id, entry).len() == ps.len()
                &&& with_profile(ps, id, entry)[k] == (id, entry)
                &&& forall|i: int| 0 <= i < ps.len() && i != k ==> #[trigger] with_profile(ps, id, entry)[i] == ps[i]
            },
{
    if exists|i: int| has_id(ps, id@, i) {
        let c = choose|i: int| has_id(ps, id@, i);
        assert forall|k: int| 0 <= k < ps.len() && ps[k].0@ == id@ implies k == c by {
            if k < c {
                assert(ps[k].0@ != ps[c].0@);
            } else if c < k {
                assert(ps[c].0@ != ps[k].0@);
            }
        }
    } else {
        assert forall|i: int| 0 <= i < ps.len() implies ps[i].0@ != id@ by {
            assert(!has_id(ps, id@, i));
        }
    }
}

/// The base64 text (standard alphabet, with padding) of a byte string.
pub uninterp spec fn base64_of(b: Seq<u8>) -> Seq<char>;

/// Relies on base64::encode: the standard, padded encoding of the bytes.
#[verifier::external_body]
fn base64_encode(b: &[u8]) -> (r: String)
    ensures
        r@ == base64_of(b@),
{
    base64::encode(b)
}

/// Relies on chrono::Utc::now, written in its ISO-8601 debug form: the date, a
/// `T`, the time, and the offset `Z`. Which instant it shows is not known.
#[verifier::external_body]
fn timestamp_now() -> (r: String)
    ensures
        r@.contains('T'),
        r@.len() > 0 && r@.last() == 'Z',
{
    format!("{:?}", chrono::Utc::now())
}

/// The type tag of profiles this installer writes.
pub const CUSTOM_PROFILE: &'static str = "custom";

/// Prefix of an inline PNG image.
pub const PNG_DATA_URI: &'static str = "data:image/png;base64,";

/// A registry entry for an installed profile.
#[derive(Debug, Clone)]
pub struct ProfileDescriptor {
    pub name: String,
    pub kind: String,
    pub created: String,
    pub last_version_id: String,
    pub icon: String,
}

/// Whether `d` describes the profile of `version` for `game`, created at
/// `created`, with the PNG image `icon_png` as its icon.
pub open spec fn describes(
    d: ProfileDescriptor,
    version: LoaderVersion,
    game: Seq<char>,
    icon_png: Seq<u8>,
) -> bool {
    &&& d.name@ == loader_name(version.kind()) + seq!['-'] + game
    &&& d.kind@ == CUSTOM_PROFILE@
    &&& d.last_version_id@ == profile_id(version, game)
    &&& d.icon@ == PNG_DATA_URI@ + base64_of(icon_png)
}

impl ProfileDescriptor {
    /// The entry for `version` on `minecraft`, stamped `created`, showing `icon_png`.
    pub fn new(
        version: &LoaderVersion,
        minecraft: &minecraft::Version,
        created: String,
        icon_png: &[u8],
    ) -> (r: ProfileDescriptor)
        ensures
            describes(r, *version, minecraft.version@, icon_png@),
            r.created == created,
    {
        let mut name = chars_of(version.name());
        name.push('-');
        extend_chars(&mut name, minecraft.version.as_str());
        let mut icon = chars_of(PNG_DATA_URI);
        let encoded = base64_encode(icon_png);
        extend_chars(&mut icon, encoded.as_str());
        let r = ProfileDescriptor {
            name: string_of(&name),
            kind: CUSTOM_PROFILE.to_string(),
            created,
            last_version_id: make_profile_id(version, minecraft),
            icon: string_of(&icon),
        };
        assert(r.name@ == loader_name(version.kind()) + seq!['-'] + minecraft.version@);
        assert(r.kind@ == CUSTOM_PROFILE@);
        assert(r.icon@ == PNG_DATA_URI@ + base64_of(icon_png@));
        r
    }

    /// The entry for `version` on `minecraft`, stamped with the current time.
    pub fn now(version: &LoaderVersion, minecraft: &minecraft::Version, icon_png: &[u8]) -> (r:
        ProfileDescriptor)
        ensures
            describes(r, *version, minecraft.version@, icon_png@),
            r.created@.contains('T'),
            r.created@.len() > 0 && r.created@.last() == 'Z',
    {
        ProfileDescriptor::new(version, minecraft, timestamp_now(), icon_png)
    }
}

} // verus!
