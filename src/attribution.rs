use vstd::prelude::*;
use vstd::string::*;

verus! {

/// Bundle identifier of this application.
pub const OWN_BUNDLE_ID: &'static str = "me.xueshi.pastepaw";

/// Display name of this application.
pub const OWN_APP_NAME: &'static str = "PastePaw";

/// Who owned the clipboard when a change was observed.
#[derive(Debug, Clone)]
pub struct OwnerInfo {
    /// Name shown to the user.
    pub display_name: Option<String>,
    /// Base64-encoded PNG icon.
    pub icon: Option<String>,
    /// Executable name or bundle identifier.
    pub identifier: Option<String>,
    /// Full path of the executable, or the bundle identifier.
    pub full_path: Option<String>,
    /// Whether the owner was reported explicitly rather than guessed from focus.
    pub is_explicit: bool,
}

/// The owner when nothing could be resolved.
pub open spec fn unknown_owner(r: OwnerInfo) -> bool {
    &&& r.display_name is None
    &&& r.icon is None
    &&& r.identifier is None
    &&& r.full_path is None
    &&& !r.is_explicit
}

pub fn unknown() -> (r: OwnerInfo)
    ensures
        unknown_owner(r),
{
    OwnerInfo { display_name: None, icon: None, identifier: None, full_path: None, is_explicit: false }
}

/// ASCII case folding of one character's code point.
pub open spec fn ascii_fold(c: char) -> u32 {
    if 65 <= c as u32 && c as u32 <= 90 {
        (c as u32 + 32) as u32
    } else {
        c as u32
    }
}

/// Equality up to ASCII case.
pub open spec fn eq_ignore_ascii_case(a: Seq<char>, b: Seq<char>) -> bool {
    a.len() == b.len() && forall|i: int| 0 <= i < a.len() ==> ascii_fold(#[trigger] a[i]) == ascii_fold(b[i])
}

fn fold_char(c: char) -> (r: u32)
    ensures
        r == ascii_fold(c),
{
    let u = c as u32;
    if 65 <= u && u <= 90 {
        u + 32
    } else {
        u
    }
}

/// Compares two strings, ignoring the case of ASCII letters.
pub fn text_eq_ignore_ascii_case(a: &str, b: &str) -> (r: bool)
    ensures
        r == eq_ignore_ascii_case(a@, b@),
{
    let n = a.unicode_len();
    if n != b.unicode_len() {
        return false;
    }
    let mut i: usize = 0;
    while i < n
        invariant
            n == a@.len(),
            n == b@.len(),
            i <= n,
            forall|j: int| 0 <= j < i ==> ascii_fold(#[trigger] a@[j]) == ascii_fold(b@[j]),
        decreases n - i,
    {
        if fold_char(a.get_char(i)) != fold_char(b.get_char(i)) {
            return false;
        }
        i = i + 1;
    }
    true
}

/// Whether an application is this one: its bundle identifier matches up to
/// ASCII case, or its name matches exactly.
pub open spec fn is_own_app_spec(name: Option<Seq<char>>, bundle_id: Option<Seq<char>>) -> bool {
    (bundle_id matches Some(b) && eq_ignore_ascii_case(b, OWN_BUNDLE_ID@))
    || (name matches Some(n) && n == OWN_APP_NAME@)
}

pub open spec fn opt_view(s: Option<String>) -> Option<Seq<char>> {
    match s {
        Some(x) => Some(x@),
        None => None,
    }
}

/// Whether the named application is this clipboard manager itself.
pub fn is_own_app(name: &Option<String>, bundle_id: &Option<String>) -> (r: bool)
    ensures
        r == is_own_app_spec(opt_view(*name), opt_view(*bundle_id)),
{
    if let Some(bid) = bundle_id {
        if text_eq_ignore_ascii_case(bid.as_str(), OWN_BUNDLE_ID) {
            return true;
        }
    }
    if let Some(n) = name {
        let own = OWN_APP_NAME.to_owned();
        if *n == own {
            return true;
        }
    }
    false
}

/// An application as the workspace reports it.
#[derive(Debug, Clone)]
pub struct AppSnapshot {
    pub name: Option<String>,
    pub bundle_id: Option<String>,
    /// Base64-encoded PNG icon.
    pub icon: Option<String>,
}

/// The owner attributed to an application: it is named by its bundle
/// identifier, which serves as both identifier and path.
pub open spec fn owner_of_app(r: OwnerInfo, a: AppSnapshot) -> bool {
    &&& r.display_name == a.name
    &&& r.icon == a.icon
    &&& r.identifier == a.bundle_id
    &&& r.full_path == a.bundle_id
    &&& r.is_explicit
}

pub open spec fn is_own_snapshot(a: AppSnapshot) -> bool {
    is_own_app_spec(opt_view(a.name), opt_view(a.bundle_id))
}

fn owner_from_app(a: &AppSnapshot) -> (r: OwnerInfo)
    ensures
        owner_of_app(r, *a),
{
    OwnerInfo {
        display_name: a.name.clone(),
        icon: a.icon.clone(),
        identifier: a.bundle_id.clone(),
        full_path: a.bundle_id.clone(),
        is_explicit: true,
    }
}

/// Remembers the last application other than this one that came to the front.
pub struct FrontmostTracker {
    pub last_foreign: Option<AppSnapshot>,
}

impl FrontmostTracker {
    pub fn new() -> (r: FrontmostTracker)
        ensures
            r.last_foreign is None,
    {
        FrontmostTracker { last_foreign: None }
    }

    /// Handles an activation notice: remembers `app` unless it is this application.
    pub fn remember_activated_app(&mut self, app: AppSnapshot)
        ensures
            is_own_snapshot(app) ==> final(self).last_foreign == old(self).last_foreign,
            !is_own_snapshot(app) ==> final(self).last_foreign == Some(app),
    {
        if !is_own_app(&app.name, &app.bundle_id) {
            self.last_foreign = Some(app);
        }
    }
}

/// Attribution on the workspace-notification platform: the frontmost
/// application, or, when that is this application itself, the last other
/// application seen in front.
pub fn get_frontmost_app_info(front: &Option<AppSnapshot>, tracker: &FrontmostTracker) -> (r: OwnerInfo)
    ensures
        *front is None ==> unknown_owner(r),
        *front matches Some(a) ==> {
            if !is_own_snapshot(a) {
                owner_of_app(r, a)
            } else {
                match tracker.last_foreign {
                    Some(c) => owner_of_app(r, c),
                    None => unknown_owner(r),
                }
            }
        },
{
    match front {
        None => unknown(),
        Some(a) => {
            if !is_own_app(&a.name, &a.bundle_id) {
                owner_from_app(a)
            } else {
                match &tracker.last_foreign {
                    Some(c) => owner_from_app(c),
                    None => unknown(),
                }
            }
        },
    }
}

/// What the owner-handle platform reports about the process behind a window.
#[derive(Debug, Clone)]
pub struct ProcessProbe {
    /// Base name of the main module; empty when it could not be read.
    pub exe_name: String,
    /// Full path of the main module.
    pub full_path: Option<String>,
    /// Localized description from the module's version resource.
    pub description: Option<String>,
    /// Base64-encoded PNG icon of the module.
    pub icon: Option<String>,
}

/// What the owner-handle platform reports at a clipboard change.
#[derive(Debug, Clone)]
pub struct OwnerProbe {
    /// Whether the window came from the clipboard owner rather than the
    /// foreground-window fallback.
    pub is_explicit: bool,
    /// The window's process, when a window, its process id and a handle to it
    /// could all be had.
    pub process: Option<ProcessProbe>,
}

pub open spec fn nonempty(s: String) -> Option<String> {
    if s@.len() == 0 { None } else { Some(s) }
}

/// Attribution on the owner-handle platform: the module's description, else its
/// executable name, as display name; icon and path only when the path is known.
pub fn get_clipboard_owner_app_info(probe: &OwnerProbe) -> (r: OwnerInfo)
    ensures
        probe.process is None ==> unknown_owner(r),
        probe.process matches Some(p) ==> {
            &&& r.is_explicit == probe.is_explicit
            &&& r.identifier == nonempty(p.exe_name)
            &&& r.full_path == p.full_path
            &&& if p.full_path is Some {
                &&& r.icon == p.icon
                &&& r.display_name == if p.description is Some { p.description } else { nonempty(p.exe_name) }
            } else {
                &&& r.icon is None
                &&& r.display_name == nonempty(p.exe_name)
            }
        },
{
    match &probe.process {
        None => unknown(),
        Some(p) => {
            let exe_val = if p.exe_name.unicode_len() == 0 {
                None
            } else {
                Some(p.exe_name.clone())
            };
            let (name, icon) = if p.full_path.is_some() {
                let name = match &p.description {
                    Some(d) => Some(d.clone()),
                    None => exe_val.clone(),
                };
                (name, p.icon.clone())
            } else {
                (exe_val.clone(), None)
            };
            OwnerInfo {
                display_name: name,
                icon,
                identifier: exe_val,
                full_path: p.full_path.clone(),
                is_explicit: probe.is_explicit,
            }
        },
    }
}

} // verus!
