use vstd::prelude::*;

verus! {

/// How the process runs: as the bootstrap step of a worker, as the manager of
/// `NuOperator` resources, as a worker that only runs mapped scripts, or running
/// every script it finds.
#[derive(Debug, PartialEq, Eq, Structural, Clone, Copy)]
pub enum NuopMode {
    Init,
    Manager,
    Managed,
    Standard,
}

/// `s` in lowercase.
pub uninterp spec fn lower_of(s: Seq<char>) -> Seq<char>;

/// Relies on `str::to_lowercase`, whose result depends on the characters alone.
#[verifier::external_body]
fn lowercase(s: &str) -> (r: String)
    ensures
        r@ == lower_of(s@),
{
    s.to_lowercase()
}

/// The mode that a lowercase setting names: `manager`, `managed`, `init`, or else
/// standard.
pub open spec fn mode_of(s: Seq<char>) -> NuopMode {
    if s == "init"@ {
        NuopMode::Init
    } else if s == "manager"@ {
        NuopMode::Manager
    } else if s == "managed"@ {
        NuopMode::Managed
    } else {
        NuopMode::Standard
    }
}

impl NuopMode {
    /// The mode that a setting already in lowercase names.
    pub fn from_lowercase(s: &str) -> (r: NuopMode)
        ensures
            r == mode_of(s@),
    {
        proof {
            reveal_strlit("init");
            reveal_strlit("manager");
            reveal_strlit("managed");
        }
        let t = s.to_owned();
        if t == "init".to_owned() {
            NuopMode::Init
        } else if t == "manager".to_owned() {
            NuopMode::Manager
        } else if t == "managed".to_owned() {
            NuopMode::Managed
        } else {
            NuopMode::Standard
        }
    }

    /// The mode that a setting names, whatever its case.
    pub fn from_value(value: &str) -> (r: NuopMode)
        ensures
            r == mode_of(lower_of(value@)),
    {
        let lowered = lowercase(value);
        NuopMode::from_lowercase(lowered.as_str())
    }

    /// The mode of a process whose setting is `value`, or standard where it has none.
    pub fn from_setting(value: Option<&str>) -> (r: NuopMode)
        ensures
            value is None ==> r == NuopMode::Standard,
            value is Some ==> r == mode_of(lower_of(value->0@)),
    {
        match value {
            Some(v) => NuopMode::from_value(v),
            None => NuopMode::Standard,
        }
    }

    /// The mode's name, as the `NUOP_MODE` setting writes it.
    pub fn as_str(&self) -> (r: &'static str)
        ensures
            *self == NuopMode::Init ==> r@ == "init"@,
            *self == NuopMode::Manager ==> r@ == "manager"@,
            *self == NuopMode::Managed ==> r@ == "managed"@,
            *self == NuopMode::Standard ==> r@ == "standard"@,
    {
        proof {
            reveal_strlit("init");
            reveal_strlit("manager");
            reveal_strlit("managed");
            reveal_strlit("standard");
        }
        match self {
            NuopMode::Init => "init",
            NuopMode::Manager => "manager",
            NuopMode::Managed => "managed",
            NuopMode::Standard => "standard",
        }
    }
}

} // verus!
