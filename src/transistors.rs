//! The closed set of transistor kinds.
use vstd::prelude::*;
use vstd::string::*;

verus! {

/// A kind of transistor.
#[allow(non_camel_case_types, clippy::upper_case_acronyms)]
#[derive(Debug, Clone, Copy, PartialEq, Eq, Structural)]
pub enum TransistorType {
    BJT,
    FET,
    MOSFET,
}

/// The name of a transistor kind.
pub open spec fn kind_name(t: TransistorType) -> Seq<char> {
    match t {
        TransistorType::BJT => "BJT"@,
        TransistorType::FET => "FET"@,
        TransistorType::MOSFET => "MOSFET"@,
    }
}

impl TransistorType {
    /// The kind's name: `BJT`, `FET` or `MOSFET`.
    pub fn label(&self) -> (r: String)
        ensures
            r@ == kind_name(*self),
    {
        match self {
            TransistorType::BJT => String::from_str("BJT"),
            TransistorType::FET => String::from_str("FET"),
            TransistorType::MOSFET => String::from_str("MOSFET"),
        }
    }
}

} // verus!
