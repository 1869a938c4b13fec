//! Task records' own vocabulary.
use vstd::prelude::*;

verus! {

/// How often a task comes back.
#[derive(Clone, Copy, Debug, PartialEq, Eq, Structural)]
pub enum Frequency {
    Daily,
    Weekly,
    Monthly,
}

pub open spec fn frequency_name(f: Frequency) -> Seq<char> {
    match f {
        Frequency::Daily => "daily"@,
        Frequency::Weekly => "weekly"@,
        Frequency::Monthly => "monthly"@,
    }
}

impl Frequency {
    /// The stored and serialised name: the variant in lowercase.
    pub fn name(&self) -> (r: &'static str)
        ensures
            r@ == frequency_name(*self),
    {
        match self {
            Frequency::Daily => "daily",
            Frequency::Weekly => "weekly",
            Frequency::Monthly => "monthly",
        }
    }
}

} // verus!
