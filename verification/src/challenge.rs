use vstd::prelude::*;

verus! {

/// The upstream surface that a captured evidence file corresponds to.
/// Closed enumeration, stable for the process lifetime; the key of the
/// evidence registry.
#[derive(Clone, Copy, PartialEq, Eq, Structural, Debug, Hash)]
pub enum ChallengeType {
    Chat3,
    Chat4,
    Auth0,
    Platform,
}

impl ChallengeType {
    /// The fixed file name that the evidence file of this challenge type
    /// takes under the home directory when no path is configured.
    pub open spec fn spec_default_filename(self) -> Seq<char> {
        match self {
            ChallengeType::Chat3 => ".chat3.openai.com.har"@,
            ChallengeType::Chat4 => ".chat4.openai.com.har"@,
            ChallengeType::Auth0 => ".auth.openai.com.har"@,
            ChallengeType::Platform => ".platform.openai.com.har"@,
        }
    }

    pub fn default_filename(&self) -> (r: &'static str)
        ensures
            r@ == self.spec_default_filename(),
    {
        match self {
            ChallengeType::Chat3 => ".chat3.openai.com.har",
            ChallengeType::Chat4 => ".chat4.openai.com.har",
            ChallengeType::Auth0 => ".auth.openai.com.har",
            ChallengeType::Platform => ".platform.openai.com.har",
        }
    }
}

} // verus!
