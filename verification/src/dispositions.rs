//! The disposition of a part: a closed set of named values, and an escape that keeps any
//! other code as it came.

use vstd::prelude::*;
use vstd::std_specs::cmp::PartialEqSpecImpl;
use vstd::std_specs::convert::FromSpecImpl;

verus! {

/// The dispositions that have a name.
#[derive(Debug, Clone, Copy, PartialEq, Eq)]
pub enum BaseDispos {
    Unspecified,
    Render,
    Reaction,
    Profile,
    Inline,
    Icon,
    Attachment,
    Session,
    Preview,
}

impl BaseDispos {
    /// The number a named disposition is written as.
    pub open spec fn code(self) -> u8 {
        match self {
            BaseDispos::Unspecified => 0,
            BaseDispos::Render => 1,
            BaseDispos::Reaction => 2,
            BaseDispos::Profile => 3,
            BaseDispos::Inline => 4,
            BaseDispos::Icon => 5,
            BaseDispos::Attachment => 6,
            BaseDispos::Session => 7,
            BaseDispos::Preview => 8,
        }
    }

    /// The number this named disposition is written as.
    pub fn to_code(self) -> (code: u8)
        ensures
            code == self.code(),
    {
        match self {
            BaseDispos::Unspecified => 0,
            BaseDispos::Render => 1,
            BaseDispos::Reaction => 2,
            BaseDispos::Profile => 3,
            BaseDispos::Inline => 4,
            BaseDispos::Icon => 5,
            BaseDispos::Attachment => 6,
            BaseDispos::Session => 7,
            BaseDispos::Preview => 8,
        }
    }
}

impl Default for BaseDispos {
    fn default() -> (d: Self)
        ensures
            d == BaseDispos::Unspecified,
    {
        BaseDispos::Unspecified
    }
}

/// How a part is to be treated: a named disposition, or any other code kept as it came.
#[derive(Debug, Clone, Copy, PartialEq, Eq)]
pub enum Disposition {
    Base(BaseDispos),
    Ext(u8),
}

impl Disposition {
    /// The disposition that a code stands for: the named one where the code has a name,
    /// the code itself otherwise.
    pub open spec fn of_code(code: u8) -> Disposition {
        match code {
            0 => Disposition::Base(BaseDispos::Unspecified),
            1 => Disposition::Base(BaseDispos::Render),
            2 => Disposition::Base(BaseDispos::Reaction),
            3 => Disposition::Base(BaseDispos::Profile),
            4 => Disposition::Base(BaseDispos::Inline),
            5 => Disposition::Base(BaseDispos::Icon),
            6 => Disposition::Base(BaseDispos::Attachment),
            7 => Disposition::Base(BaseDispos::Session),
            8 => Disposition::Base(BaseDispos::Preview),
            _ => Disposition::Ext(code),
        }
    }

    /// The number a disposition is written as.
    pub open spec fn code(self) -> u8 {
        match self {
            Disposition::Base(base) => base.code(),
            Disposition::Ext(code) => code,
        }
    }

    /// The disposition that a code stands for.
    pub fn from_code(code: u8) -> (d: Self)
        ensures
            d == Disposition::of_code(code),
    {
        match code {
            0 => Disposition::Base(BaseDispos::Unspecified),
            1 => Disposition::Base(BaseDispos::Render),
            2 => Disposition::Base(BaseDispos::Reaction),
            3 => Disposition::Base(BaseDispos::Profile),
            4 => Disposition::Base(BaseDispos::Inline),
            5 => Disposition::Base(BaseDispos::Icon),
            6 => Disposition::Base(BaseDispos::Attachment),
            7 => Disposition::Base(BaseDispos::Session),
            8 => Disposition::Base(BaseDispos::Preview),
            _ => Disposition::Ext(code),
        }
    }

    /// The number this disposition is written as.
    pub fn to_code(self) -> (code: u8)
        ensures
            code == self.code(),
    {
        match self {
            Disposition::Base(base_dispo) => base_dispo.to_code(),
            Disposition::Ext(ext_dispo) => ext_dispo,
        }
    }
}

/// A disposition is seen through its code: two dispositions with one code are written alike.
impl View for Disposition {
    type V = u8;

    open spec fn view(&self) -> u8 {
        self.code()
    }
}

impl Default for Disposition {
    fn default() -> (d: Self)
        ensures
            d == Disposition::Base(BaseDispos::Unspecified),
    {
        Disposition::Base(BaseDispos::default())
    }
}

impl From<u8> for Disposition {
    fn from(value: u8) -> (d: Self)
        ensures
            d == Disposition::of_code(value),
    {
        Disposition::from_code(value)
    }
}

impl FromSpecImpl<u8> for Disposition {
    open spec fn obeys_from_spec() -> bool {
        true
    }

    open spec fn from_spec(v: u8) -> Self {
        Disposition::of_code(v)
    }
}

impl From<BaseDispos> for u8 {
    fn from(value: BaseDispos) -> (code: u8)
        ensures
            code == value.code(),
    {
        value.to_code()
    }
}

impl FromSpecImpl<BaseDispos> for u8 {
    open spec fn obeys_from_spec() -> bool {
        true
    }

    open spec fn from_spec(v: BaseDispos) -> u8 {
        v.code()
    }
}

impl From<Disposition> for u8 {
    fn from(value: Disposition) -> (code: u8)
        ensures
            code == value.code(),
    {
        value.to_code()
    }
}

impl FromSpecImpl<Disposition> for u8 {
    open spec fn obeys_from_spec() -> bool {
        true
    }

    open spec fn from_spec(v: Disposition) -> u8 {
        v.code()
    }
}

impl PartialEq<u8> for Disposition {
    fn eq(&self, other: &u8) -> (r: bool) {
        self.to_code() == *other
    }
}

impl PartialEqSpecImpl<u8> for Disposition {
    open spec fn obeys_eq_spec() -> bool {
        true
    }

    open spec fn eq_spec(&self, other: &u8) -> bool {
        self.code() == *other
    }
}

impl PartialEq<u8> for BaseDispos {
    fn eq(&self, other: &u8) -> (r: bool) {
        self.to_code() == *other
    }
}

impl PartialEqSpecImpl<u8> for BaseDispos {
    open spec fn obeys_eq_spec() -> bool {
        true
    }

    open spec fn eq_spec(&self, other: &u8) -> bool {
        self.code() == *other
    }
}

/// Every code, taken to its disposition and back, comes out unchanged; a code with a name
/// becomes the named disposition, any other is kept in `Ext`.
pub proof fn disposition_code_round_trip(code: u8)
    ensures
        Disposition::of_code(code).code() == code,
        code <= 8 ==> (Disposition::of_code(code) matches Disposition::Base(base) && base.code()
            == code),
        code > 8 ==> Disposition::of_code(code) == Disposition::Ext(code),
{
}

/// A disposition, taken to its code and back, comes out unchanged unless it keeps in `Ext`
/// a code that has a name.
pub proof fn disposition_round_trip(d: Disposition)
    ensures
        Disposition::of_code(d.code()) == d <==> !(d matches Disposition::Ext(code) && code <= 8),
{
}

} // verus!
