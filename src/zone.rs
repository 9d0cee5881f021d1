use vstd::prelude::*;
use vstd::string::StringExecFns;

verus! {

/// A compute zone. Each zone has two written forms: a short wire code, used
/// in path segments, and its variant name, used where the base URL is formed.
#[derive(Debug, Default, Clone, Copy, PartialEq, Eq, Structural, Hash)]
pub enum Zone {
    #[default]
    Tokyo1,
    Tokyo2,
    Ishikari1,
    Ishikari2,
}

/// The short wire code of a zone.
pub open spec fn zone_code(z: Zone) -> Seq<char> {
    match z {
        Zone::Tokyo1 => "tk1a"@,
        Zone::Tokyo2 => "tk1b"@,
        Zone::Ishikari1 => "is1a"@,
        Zone::Ishikari2 => "is1b"@,
    }
}

/// The variant name of a zone.
pub open spec fn zone_name(z: Zone) -> Seq<char> {
    match z {
        Zone::Tokyo1 => "Tokyo1"@,
        Zone::Tokyo2 => "Tokyo2"@,
        Zone::Ishikari1 => "Ishikari1"@,
        Zone::Ishikari2 => "Ishikari2"@,
    }
}

impl Zone {
    /// The short wire code, as it appears in path segments.
    pub fn code(&self) -> (r: String)
        ensures
            r@ == zone_code(*self),
    {
        match self {
            Zone::Tokyo1 => String::from_str("tk1a"),
            Zone::Tokyo2 => String::from_str("tk1b"),
            Zone::Ishikari1 => String::from_str("is1a"),
            Zone::Ishikari2 => String::from_str("is1b"),
        }
    }

    /// The variant name, as it appears in the base part of a request URL.
    pub fn name(&self) -> (r: String)
        ensures
            r@ == zone_name(*self),
    {
        match self {
            Zone::Tokyo1 => String::from_str("Tokyo1"),
            Zone::Tokyo2 => String::from_str("Tokyo2"),
            Zone::Ishikari1 => String::from_str("Ishikari1"),
            Zone::Ishikari2 => String::from_str("Ishikari2"),
        }
    }
}

/// The two written forms of a zone never coincide: a wire code has four
/// characters, a variant name at least six.
pub proof fn lemma_code_differs_from_name(z: Zone)
    ensures
        zone_code(z) != zone_name(z),
        zone_code(z).len() == 4,
        zone_name(z).len() >= 6,
{
    reveal_strlit("tk1a");
    reveal_strlit("tk1b");
    reveal_strlit("is1a");
    reveal_strlit("is1b");
    reveal_strlit("Tokyo1");
    reveal_strlit("Tokyo2");
    reveal_strlit("Ishikari1");
    reveal_strlit("Ishikari2");
    assert(zone_code(z).len() != zone_name(z).len());
}

} // verus!
