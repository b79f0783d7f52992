use vstd::prelude::*;
use vstd::string::StringExecFns;

use crate::challenge::ChallengeType;

verus! {

/// One evidence record: the resolved file path and the freshness flag.
/// `state == true` means the file is currently believed to hold usable
/// content. The file-watch subscription that belongs to the record lives
/// with the unverified plumbing that drives this registry.
pub struct Har {
    pub path: String,
    pub state: bool,
}

/// Where the evidence file of a challenge type lives when no explicit
/// path was configured: the fixed file name under the home directory.
pub open spec fn resolved_default_path(home: Seq<char>, filename: Seq<char>) -> Seq<char> {
    home + "/"@ + filename
}

/// Bootstrap freshness: an explicitly configured path is trusted as
/// fresh without inspection; a default path is fresh exactly when the
/// file pre-existed with non-empty content.
pub open spec fn bootstrap_fresh(explicit: bool, exists: bool, non_empty: bool) -> bool {
    explicit || (exists && non_empty)
}

/// Bootstrap creation: a default evidence file that does not pre-exist
/// must be created (empty); an explicitly configured path never is.
pub open spec fn bootstrap_creates(explicit: bool, exists: bool) -> bool {
    !explicit && !exists
}

/// Resolve one evidence record from the configured path override and the
/// observed state of the default file (`exists`, `non_empty`), which is
/// only meaningful when no override is given. Returns the record and
/// whether the caller must create the file (empty) at the resolved path.
pub fn init_har(
    configured: &Option<String>,
    home_dir: &str,
    default_filename: &str,
    exists: bool,
    non_empty: bool,
) -> (r: (Har, bool))
    ensures
        configured matches Some(p) ==> r.0.path@ == p@,
        configured is None ==> r.0.path@ == resolved_default_path(home_dir@, default_filename@),
        r.0.state == bootstrap_fresh(configured is Some, exists, non_empty),
        r.1 == bootstrap_creates(configured is Some, exists),
{
    match configured {
        Some(p) => (Har { path: p.clone(), state: true }, false),
        None => {
            let path = home_dir.to_owned().concat("/").concat(default_filename);
            (Har { path, state: exists && non_empty }, !exists)
        },
    }
}

/// The registry of evidence records, one per challenge type.
pub struct HarRegistry {
    pub chat3: Har,
    pub chat4: Har,
    pub auth0: Har,
    pub platform: Har,
}

impl HarRegistry {
    /// The record that belongs to a challenge type.
    pub open spec fn record(self, t: ChallengeType) -> Har {
        match t {
            ChallengeType::Chat3 => self.chat3,
            ChallengeType::Chat4 => self.chat4,
            ChallengeType::Auth0 => self.auth0,
            ChallengeType::Platform => self.platform,
        }
    }

    pub fn new(chat3: Har, chat4: Har, auth0: Har, platform: Har) -> (r: HarRegistry)
        ensures
            r.chat3 == chat3,
            r.chat4 == chat4,
            r.auth0 == auth0,
            r.platform == platform,
    {
        HarRegistry { chat3, chat4, auth0, platform }
    }

    /// Shared read access: a copy of (freshness, path) for one type.
    /// Pure in-memory work; never touches the file itself.
    pub fn path_for(&self, t: &ChallengeType) -> (r: (bool, String))
        ensures
            r.0 == self.record(*t).state,
            r.1@ == self.record(*t).path@,
    {
        match t {
            ChallengeType::Chat3 => (self.chat3.state, self.chat3.path.clone()),
            ChallengeType::Chat4 => (self.chat4.state, self.chat4.path.clone()),
            ChallengeType::Auth0 => (self.auth0.state, self.auth0.path.clone()),
            ChallengeType::Platform => (self.platform.state, self.platform.path.clone()),
        }
    }

    /// The decision the watch dispatcher applies when it observes an
    /// event on the evidence file of type `t`: on a modification, flip
    /// that type's freshness to true, leave every other record alone,
    /// and hand back the changed path so the caller can invalidate any
    /// artifacts derived from the stale content. A non-modification
    /// event changes nothing.
    pub fn handle_watch_event(&mut self, t: &ChallengeType, is_modify: bool) -> (r: Option<String>)
        ensures
            is_modify ==> ({
                &&& final(self).record(*t).state
                &&& final(self).record(*t).path == old(self).record(*t).path
                &&& forall|u: ChallengeType| u != *t ==> final(self).record(u) == old(self).record(u)
                &&& r matches Some(p) && p@ == old(self).record(*t).path@
            }),
            !is_modify ==> *final(self) == *old(self) && r is None,
    {
        if !is_modify {
            return None;
        }
        match t {
            ChallengeType::Chat3 => {
                self.chat3.state = true;
                Some(self.chat3.path.clone())
            },
            ChallengeType::Chat4 => {
                self.chat4.state = true;
                Some(self.chat4.path.clone())
            },
            ChallengeType::Auth0 => {
                self.auth0.state = true;
                Some(self.auth0.path.clone())
            },
            ChallengeType::Platform => {
                self.platform.state = true;
                Some(self.platform.path.clone())
            },
        }
    }
}

} // verus!
