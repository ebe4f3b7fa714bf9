use vstd::prelude::*;

verus! {

/// The direction of a UTC offset.
#[derive(Clone, Debug, PartialEq, Eq, Structural)]
pub enum Sign {
    Plus,
    Minus,
}

impl Sign {
    /// The character representation of this sign: `+` or `-`.
    pub open spec fn char_rep(self) -> char {
        match self {
            Sign::Plus => '+',
            Sign::Minus => '-',
        }
    }

    /// Return the `Sign` as a char, `+` or `-`.
    pub fn as_char(&self) -> (c: char)
        ensures
            c == self.char_rep(),
    {
        match self {
            Sign::Plus => '+',
            Sign::Minus => '-',
        }
    }

    /// Return `true` if the sign is `Plus`.
    pub fn is_plus(&self) -> (b: bool)
        ensures
            b == (self is Plus),
    {
        match self {
            Sign::Plus => true,
            Sign::Minus => false,
        }
    }

    /// Return `true` if the sign is `Minus`.
    pub fn is_minus(&self) -> (b: bool)
        ensures
            b == (self is Minus),
    {
        match self {
            Sign::Plus => false,
            Sign::Minus => true,
        }
    }
}

/// The mathematical content of one timezone record: the abbreviation and
/// name as character sequences, together with the fixed UTC offset.
pub ghost struct AbbreviationModel {
    pub abbr: Seq<char>,
    pub name: Seq<char>,
    pub sign: Sign,
    pub hour_offset: u8,
    pub minute_offset: u8,
}

/// One concrete timezone that a given abbreviation may refer to.
#[derive(Clone, Debug, Eq)]
pub struct Abbreviation {
    /// The abbreviation itself, in the canonical (upper) case.
    pub abbr: String,
    /// The full human-readable name of the timezone.
    pub name: String,
    /// The direction of the UTC offset.
    pub sign: Sign,
    /// The whole hours of the UTC offset.
    pub hour_offset: u8,
    /// The remaining minutes of the UTC offset.
    pub minute_offset: u8,
}

impl View for Abbreviation {
    type V = AbbreviationModel;

    open spec fn view(&self) -> AbbreviationModel {
        AbbreviationModel {
            abbr: self.abbr@,
            name: self.name@,
            sign: self.sign,
            hour_offset: self.hour_offset,
            minute_offset: self.minute_offset,
        }
    }
}

impl PartialEq for Abbreviation {
    fn eq(&self, other: &Abbreviation) -> (r: bool) {
        self.abbr == other.abbr && self.name == other.name && self.sign == other.sign
            && self.hour_offset == other.hour_offset && self.minute_offset == other.minute_offset
    }
}

impl vstd::std_specs::cmp::PartialEqSpecImpl for Abbreviation {
    open spec fn obeys_eq_spec() -> bool {
        true
    }

    open spec fn eq_spec(&self, other: &Abbreviation) -> bool {
        self@ == other@
    }
}

impl Abbreviation {
    /// Build one record; every field is exactly the argument it came from.
    pub(crate) fn new(
        abbr: String,
        name: String,
        sign: Sign,
        hour_offset: u8,
        minute_offset: u8,
    ) -> (r: Abbreviation)
        ensures
            r@ == (AbbreviationModel {
                abbr: abbr@,
                name: name@,
                sign: sign,
                hour_offset: hour_offset,
                minute_offset: minute_offset,
            }),
    {
        Abbreviation { abbr, name, sign, hour_offset, minute_offset }
    }
}

} // verus!
