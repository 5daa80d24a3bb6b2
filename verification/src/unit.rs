//! The quantity type attached to a remedy: a closed tagged union over six
//! units, each carrying a signed amount, with total encoding into a
//! `(tag, amount)` pair and decoding back that rejects unknown tags.

use vstd::prelude::*;

verus! {

/// A typed quantity: how much of a remedy. The unit set is closed; every
/// variant carries a signed amount.
#[derive(Debug, Clone, Copy, PartialEq, Eq, Structural)]
pub enum Unit {
    Times(i32),
    Rakah(i32),
    Minutes(i32),
    Hours(i32),
    Days(i32),
    Taka(i32),
}

/// Why a quantity could not be decoded from the wire.
#[derive(Debug, Clone, Copy, PartialEq, Eq, Structural)]
pub enum DecodeError {
    /// The tag string is not one of the six recognized unit names.
    UnknownUnit,
    /// The wire sequence has fewer than two elements.
    MalformedQuantity,
    /// The first element is not text, or the second is not an integer.
    TypeMismatch,
}

/// The literal name of a unit's tag.
pub open spec fn spec_unit_name(u: Unit) -> Seq<char> {
    match u {
        Unit::Times(_) => "Times"@,
        Unit::Rakah(_) => "Rakah"@,
        Unit::Minutes(_) => "Minutes"@,
        Unit::Hours(_) => "Hours"@,
        Unit::Days(_) => "Days"@,
        Unit::Taka(_) => "Taka"@,
    }
}

/// The amount a unit carries.
pub open spec fn spec_unit_amount(u: Unit) -> i32 {
    match u {
        Unit::Times(n) => n,
        Unit::Rakah(n) => n,
        Unit::Minutes(n) => n,
        Unit::Hours(n) => n,
        Unit::Days(n) => n,
        Unit::Taka(n) => n,
    }
}

/// The unit a `(tag, amount)` pair decodes to, or `None` for a tag outside
/// the six recognized names.
pub open spec fn spec_decode(tag: Seq<char>, n: i32) -> Option<Unit> {
    if tag == "Times"@ {
        Some(Unit::Times(n))
    } else if tag == "Rakah"@ {
        Some(Unit::Rakah(n))
    } else if tag == "Minutes"@ {
        Some(Unit::Minutes(n))
    } else if tag == "Hours"@ {
        Some(Unit::Hours(n))
    } else if tag == "Days"@ {
        Some(Unit::Days(n))
    } else if tag == "Taka"@ {
        Some(Unit::Taka(n))
    } else {
        None
    }
}

/// One element of a wire-level ordered sequence, reduced to what quantity
/// decoding reads of it: text, an integer, or anything else.
#[derive(Debug, Clone)]
pub enum WireValue {
    Text(String),
    Integer(i64),
    Other,
}

/// What a wire-level sequence decodes to: a quantity serializes as the
/// ordered pair `[tag, amount]`, so decoding demands at least two elements,
/// text then integer, and then a recognized tag. A wider integer amount is
/// truncated to the carried width.
pub open spec fn spec_decode_wire(data: Seq<WireValue>) -> Result<Unit, DecodeError> {
    if data.len() < 2 {
        Err(DecodeError::MalformedQuantity)
    } else {
        match (data[0], data[1]) {
            (WireValue::Text(s), WireValue::Integer(n)) => match spec_decode(s@, n as i32) {
                Some(u) => Ok(u),
                None => Err(DecodeError::UnknownUnit),
            },
            _ => Err(DecodeError::TypeMismatch),
        }
    }
}

/// Decode a quantity from a wire-level ordered sequence: fails with
/// `MalformedQuantity` on fewer than two elements, with `TypeMismatch` when
/// element 0 is not text or element 1 is not an integer, and with
/// `UnknownUnit` on an unrecognized tag.
pub fn decode_wire(data: &Vec<WireValue>) -> (r: Result<Unit, DecodeError>)
    ensures
        r == spec_decode_wire(data@),
{
    if data.len() < 2 {
        return Err(DecodeError::MalformedQuantity);
    }
    let tag = match &data[0] {
        WireValue::Text(s) => s,
        _ => {
            return Err(DecodeError::TypeMismatch);
        },
    };
    let n: i64 = match &data[1] {
        WireValue::Integer(n) => *n,
        _ => {
            return Err(DecodeError::TypeMismatch);
        },
    };
    let amount: i32 = #[verifier::truncate] (n as i32);
    match Unit::decode(tag, amount) {
        Ok(u) => Ok(u),
        Err(e) => Err(e),
    }
}

impl Unit {
    /// The tag string of this unit, its variant's literal name.
    pub fn name(&self) -> (r: &'static str)
        ensures
            r@ == spec_unit_name(*self),
    {
        match self {
            Unit::Times(_) => "Times",
            Unit::Rakah(_) => "Rakah",
            Unit::Minutes(_) => "Minutes",
            Unit::Hours(_) => "Hours",
            Unit::Days(_) => "Days",
            Unit::Taka(_) => "Taka",
        }
    }

    /// The amount this unit carries.
    pub fn amount(&self) -> (r: i32)
        ensures
            r == spec_unit_amount(*self),
    {
        match self {
            Unit::Times(n) => *n,
            Unit::Rakah(n) => *n,
            Unit::Minutes(n) => *n,
            Unit::Hours(n) => *n,
            Unit::Days(n) => *n,
            Unit::Taka(n) => *n,
        }
    }

    /// Total encoding of a unit into its `(tag, amount)` pair.
    pub fn encode(&self) -> (r: (String, i32))
        ensures
            r.0@ == spec_unit_name(*self),
            r.1 == spec_unit_amount(*self),
    {
        (String::from_str(self.name()), self.amount())
    }

    /// Decoding of a `(tag, amount)` pair; rejects every tag outside the six
    /// recognized names with `UnknownUnit`.
    pub fn decode(tag: &String, n: i32) -> (r: Result<Unit, DecodeError>)
        ensures
            match spec_decode(tag@, n) {
                Some(u) => r == Ok::<Unit, DecodeError>(u),
                None => r == Err::<Unit, DecodeError>(DecodeError::UnknownUnit),
            },
    {
        if *tag == String::from_str("Times") {
            Ok(Unit::Times(n))
        } else if *tag == String::from_str("Rakah") {
            Ok(Unit::Rakah(n))
        } else if *tag == String::from_str("Minutes") {
            Ok(Unit::Minutes(n))
        } else if *tag == String::from_str("Hours") {
            Ok(Unit::Hours(n))
        } else if *tag == String::from_str("Days") {
            Ok(Unit::Days(n))
        } else if *tag == String::from_str("Taka") {
            Ok(Unit::Taka(n))
        } else {
            Err(DecodeError::UnknownUnit)
        }
    }
}

/// Round trip: decoding a unit's own encoding gives back the same unit, for
/// every unit and every amount.
pub proof fn lemma_encode_decode_round_trip(u: Unit)
    ensures
        spec_decode(spec_unit_name(u), spec_unit_amount(u)) == Some(u),
{
    reveal_strlit("Times");
    reveal_strlit("Rakah");
    reveal_strlit("Minutes");
    reveal_strlit("Hours");
    reveal_strlit("Days");
    reveal_strlit("Taka");
    assert("Rakah"@[0] != "Times"@[0]);
    assert("Minutes"@.len() != "Times"@.len());
    assert("Minutes"@[0] != "Rakah"@[0]);
    assert("Hours"@[0] != "Times"@[0]);
    assert("Hours"@[0] != "Rakah"@[0]);
    assert("Hours"@.len() != "Minutes"@.len());
    assert("Days"@[0] != "Times"@[0]);
    assert("Days"@[0] != "Rakah"@[0]);
    assert("Days"@.len() != "Minutes"@.len());
    assert("Days"@[0] != "Hours"@[0]);
    assert("Taka"@.len() != "Times"@.len());
    assert("Taka"@[0] != "Rakah"@[0]);
    assert("Taka"@.len() != "Minutes"@.len());
    assert("Taka"@[0] != "Hours"@[0]);
    assert("Taka"@[0] != "Days"@[0]);
}

} // verus!
