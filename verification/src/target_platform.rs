use crate::text::eq_ignore_case;
use crate::text::spec_eq_ignore_case;
use vstd::prelude::*;

verus! {

/// The target architecture of a compilation run: a closed set of three
/// members with one designated default. Immutable once selected; threaded
/// read-only through every phase that needs architecture-specific arguments.
#[derive(Copy, Clone, Debug, PartialEq, Eq, PartialOrd, Ord, Structural)]
pub enum TargetPlatform {
    /// Parachute Transputer emulator (the default).
    Transputer,
    /// Psion EPOC16 (v20) architecture.
    EPOC16,
    /// x86_64 architecture.
    X86_64,
}

/// The canonical display name of a platform. This exact string is passed to
/// the backend compiler's architecture flag and is what
/// [`TargetPlatform::from_name`] recognises.
pub open spec fn spec_canonical_name(t: TargetPlatform) -> Seq<char> {
    match t {
        TargetPlatform::Transputer => "Transputer"@,
        TargetPlatform::EPOC16 => "EPOC16"@,
        TargetPlatform::X86_64 => "X86_64"@,
    }
}

impl TargetPlatform {
    /// All members of the closed platform set, in declaration order.
    pub fn value_variants() -> (r: Vec<TargetPlatform>)
        ensures
            r@ == seq![
                TargetPlatform::Transputer,
                TargetPlatform::EPOC16,
                TargetPlatform::X86_64,
            ],
    {
        let mut v: Vec<TargetPlatform> = Vec::new();
        v.push(TargetPlatform::Transputer);
        v.push(TargetPlatform::EPOC16);
        v.push(TargetPlatform::X86_64);
        proof {
            assert(v@ =~= seq![
                TargetPlatform::Transputer,
                TargetPlatform::EPOC16,
                TargetPlatform::X86_64,
            ]);
        }
        v
    }

    /// The canonical display name as an owned string.
    pub fn canonical_name(&self) -> (r: String)
        ensures
            r@ == spec_canonical_name(*self),
    {
        match self {
            TargetPlatform::Transputer => "Transputer".to_owned(),
            TargetPlatform::EPOC16 => "EPOC16".to_owned(),
            TargetPlatform::X86_64 => "X86_64".to_owned(),
        }
    }

    /// What parsing a platform name yields: the member whose canonical name
    /// matches ASCII-case-insensitively, or `None`.
    pub open spec fn spec_from_name(s: Seq<char>) -> Option<TargetPlatform> {
        if spec_eq_ignore_case(s, "Transputer"@) {
            Some(TargetPlatform::Transputer)
        } else if spec_eq_ignore_case(s, "EPOC16"@) {
            Some(TargetPlatform::EPOC16)
        } else if spec_eq_ignore_case(s, "X86_64"@) {
            Some(TargetPlatform::X86_64)
        } else {
            None
        }
    }

    /// Parses a platform from its canonical name, matched
    /// ASCII-case-insensitively.
    pub fn from_name(s: &str) -> (r: Option<TargetPlatform>)
        ensures
            r == Self::spec_from_name(s@),
    {
        if eq_ignore_case(s, "Transputer") {
            Some(TargetPlatform::Transputer)
        } else if eq_ignore_case(s, "EPOC16") {
            Some(TargetPlatform::EPOC16)
        } else if eq_ignore_case(s, "X86_64") {
            Some(TargetPlatform::X86_64)
        } else {
            None
        }
    }
}

impl Default for TargetPlatform {
    /// The designated default architecture.
    fn default() -> (r: Self)
        ensures
            r == TargetPlatform::Transputer,
    {
        TargetPlatform::Transputer
    }
}

/// Display and parse forms round-trip: parsing a platform's canonical name
/// yields that platform back.
pub proof fn lemma_name_round_trip(t: TargetPlatform)
    ensures
        TargetPlatform::spec_from_name(spec_canonical_name(t)) == Some(t),
{
    reveal_strlit("Transputer");
    reveal_strlit("EPOC16");
    reveal_strlit("X86_64");
    match t {
        TargetPlatform::Transputer => {
        },
        TargetPlatform::EPOC16 => {
            assert(!spec_eq_ignore_case("EPOC16"@, "Transputer"@));
        },
        TargetPlatform::X86_64 => {
            assert(!spec_eq_ignore_case("X86_64"@, "Transputer"@));
            assert(crate::text::spec_lower_char("X86_64"@[0]) != crate::text::spec_lower_char(
                "EPOC16"@[0],
            ));
            assert(!spec_eq_ignore_case("X86_64"@, "EPOC16"@));
        },
    }
}

} // verus!
