use vstd::prelude::*;
use crate::attribution::OwnerInfo;
use crate::models::AppSettings;

verus! {

/// The Unicode lowercase form of a string.
pub uninterp spec fn lower_of(s: Seq<char>) -> Seq<char>;

/// Relies on `str::to_lowercase`: the lowercase form depends on the characters alone.
#[verifier::external_body]
fn lowercase(s: &str) -> (r: String)
    ensures
        r@ == lower_of(s@),
{
    s.to_lowercase()
}

/// Whether `name` matches an entry of `apps` ignoring case.
pub open spec fn listed(apps: Seq<String>, name: Seq<char>) -> bool {
    exists|i: int| 0 <= i < apps.len() && lower_of(#[trigger] apps[i]@) == lower_of(name)
}

/// Whether `name` matches one of the ignored applications, ignoring case.
pub fn is_ignored(ignored_apps: &Vec<String>, name: &str) -> (r: bool)
    ensures
        r == listed(ignored_apps@, name@),
{
    let target = lowercase(name);
    let mut i: usize = 0;
    while i < ignored_apps.len()
        invariant
            i <= ignored_apps@.len(),
            target@ == lower_of(name@),
            forall|j: int| 0 <= j < i ==> lower_of(#[trigger] ignored_apps@[j]@) != lower_of(name@),
        decreases ignored_apps@.len() - i,
    {
        let candidate = lowercase(ignored_apps[i].as_str());
        if candidate == target {
            return true;
        }
        i = i + 1;
    }
    false
}

/// The two gates: a guessed owner is dropped when ghost clips are ignored, and an
/// owner whose path or identifier is listed as ignored is dropped.
pub open spec fn policy_allows(ignore_ghost_clips: bool, apps: Seq<String>, owner: OwnerInfo) -> bool {
    &&& !(ignore_ghost_clips && !owner.is_explicit)
    &&& !(owner.full_path matches Some(p) && listed(apps, p@))
    &&& !(owner.identifier matches Some(e) && listed(apps, e@))
}

/// Whether a clip from `owner` may be stored under `settings`.
pub fn passes_policy(settings: &AppSettings, owner: &OwnerInfo) -> (r: bool)
    ensures
        r == policy_allows(settings.ignore_ghost_clips, settings.ignored_apps@, *owner),
{
    if settings.ignore_ghost_clips && !owner.is_explicit {
        return false;
    }
    if let Some(path) = &owner.full_path {
        if is_ignored(&settings.ignored_apps, path.as_str()) {
            return false;
        }
    }
    if let Some(exe) = &owner.identifier {
        if is_ignored(&settings.ignored_apps, exe.as_str()) {
            return false;
        }
    }
    true
}

/// An owner whose path or identifier matches an ignored application, ignoring
/// case, never passes the policy, whatever the ghost-clip setting.
pub proof fn lemma_ignored_owner_is_refused(ignore_ghost_clips: bool, apps: Seq<String>, owner: OwnerInfo, i: int)
    requires
        0 <= i < apps.len(),
        (owner.full_path matches Some(p) && lower_of(apps[i]@) == lower_of(p@))
            || (owner.identifier matches Some(e) && lower_of(apps[i]@) == lower_of(e@)),
    ensures
        !policy_allows(ignore_ghost_clips, apps, owner),
{
}

} // verus!
