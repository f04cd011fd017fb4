//! Carrier codes and their fixed descriptions.
//!
//! The index stores a small integer 1..=8 per entry; it maps to one of eight
//! fixed operator descriptions, and any other value is a corruption error.

use vstd::prelude::*;

use crate::errors::ErrorKind;

verus! {

/// The telecom operator a prefix belongs to, including virtual (reseller)
/// operators.
#[derive(Debug, Clone, Copy, PartialEq, Eq, Structural)]
pub enum CardType {
    Cmcc,
    Cucc,
    Ctcc,
    CtccV,
    CuccV,
    CmccV,
    Cbcc,
    CbccV,
}

/// The carrier that a stored code 1..=8 denotes.
pub open spec fn card_of(code: u8) -> CardType
    recommends
        1 <= code <= 8,
{
    if code == 1 {
        CardType::Cmcc
    } else if code == 2 {
        CardType::Cucc
    } else if code == 3 {
        CardType::Ctcc
    } else if code == 4 {
        CardType::CtccV
    } else if code == 5 {
        CardType::CuccV
    } else if code == 6 {
        CardType::CmccV
    } else if code == 7 {
        CardType::Cbcc
    } else {
        CardType::CbccV
    }
}

/// The fixed description of a carrier.
pub open spec fn card_description(card: CardType) -> Seq<char> {
    match card {
        CardType::Cmcc => "中国移动"@,
        CardType::Cucc => "中国联通"@,
        CardType::Ctcc => "中国电信"@,
        CardType::CtccV => "中国电信虚拟运营商"@,
        CardType::CuccV => "中国联通虚拟运营商"@,
        CardType::CmccV => "中国移动虚拟运营商"@,
        CardType::Cbcc => "中国广电"@,
        CardType::CbccV => "中国广电虚拟运营商"@,
    }
}

/// The description that a stored carrier code resolves to.
pub open spec fn carrier_text(code: u8) -> Seq<char>
    recommends
        1 <= code <= 8,
{
    card_description(card_of(code))
}

impl CardType {
    /// Decode a stored carrier code; codes outside 1..=8 are invalid.
    pub fn from_u8(i: u8) -> (r: Result<CardType, ErrorKind>)
        ensures
            1 <= i <= 8 ==> (r matches Ok(c) && c == card_of(i)),
            !(1 <= i <= 8) ==> (r matches Err(e) && e is InvalidOpNo),
    {
        match i {
            1 => Ok(CardType::Cmcc),
            2 => Ok(CardType::Cucc),
            3 => Ok(CardType::Ctcc),
            4 => Ok(CardType::CtccV),
            5 => Ok(CardType::CuccV),
            6 => Ok(CardType::CmccV),
            7 => Ok(CardType::Cbcc),
            8 => Ok(CardType::CbccV),
            _ => Err(ErrorKind::InvalidOpNo),
        }
    }

    /// The human-readable operator description.
    pub fn get_description(&self) -> (r: &'static str)
        ensures
            r@ == card_description(*self),
    {
        match self {
            CardType::Cmcc => "中国移动",
            CardType::Cucc => "中国联通",
            CardType::Ctcc => "中国电信",
            CardType::CtccV => "中国电信虚拟运营商",
            CardType::CuccV => "中国联通虚拟运营商",
            CardType::CmccV => "中国移动虚拟运营商",
            CardType::Cbcc => "中国广电",
            CardType::CbccV => "中国广电虚拟运营商",
        }
    }
}

} // verus!
