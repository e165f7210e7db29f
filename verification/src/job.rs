//! The print job record and its attribute enums.
use vstd::prelude::*;

verus! {

/// Black & white or colour printing.
#[derive(Debug, Clone, Copy, PartialEq, Eq, Structural)]
pub enum Color {
    BW,
    COLOR,
}

/// Page orientation.
#[derive(Debug, Clone, Copy, PartialEq, Eq, Structural)]
pub enum Orientation {
    PORTRAIT,
    LANDSCAPE,
}

/// Simplex or duplex printing.
#[derive(Debug, Clone, Copy, PartialEq, Eq, Structural)]
#[allow(non_camel_case_types)]
pub enum Duplex {
    /// One-sided printing.
    SIMPLEX,
    /// Two-sided, flipped on the short edge.
    DUPLEX_SHORT_EDGE,
    /// Two-sided, flipped on the long edge.
    DUPLEX_LONG_EDGE,
}

/// Paper size.
#[derive(Debug, Clone, Copy, PartialEq, Eq, Structural)]
pub enum Size {
    A3,
    A4,
}

/// The paper id the printing service uses for a size.
pub open spec fn paper_id(s: Size) -> i16 {
    match s {
        Size::A3 => 8,
        Size::A4 => 9,
    }
}

impl From<Size> for i16 {
    fn from(val: Size) -> (r: i16) {
        match val {
            Size::A3 => 8,
            Size::A4 => 9,
        }
    }
}

impl vstd::std_specs::convert::FromSpecImpl<Size> for i16 {
    open spec fn obeys_from_spec() -> bool {
        true
    }

    open spec fn from_spec(v: Size) -> i16 {
        paper_id(v)
    }
}


/// What `Size::try_from` gives for a DEVMODE paper-size code.
pub open spec fn size_from_code(v: i16) -> Result<Size, &'static str> {
    if v == 8 {
        Ok(Size::A3)
    } else if v == 9 {
        Ok(Size::A4)
    } else {
        Err("Size Error")
    }
}

impl TryFrom<i16> for Size {
    type Error = &'static str;

    fn try_from(value: i16) -> (r: Result<Self, Self::Error>) {
        match value {
            8 => Ok(Self::A3),
            9 => Ok(Self::A4),
            _ => Err("Size Error"),
        }
    }
}

impl vstd::std_specs::convert::TryFromSpecImpl<i16> for Size {
    open spec fn obeys_try_from_spec() -> bool {
        true
    }

    open spec fn try_from_spec(v: i16) -> Result<Size, &'static str> {
        size_from_code(v)
    }
}

/// What `Color::try_from` gives for a DEVMODE colour code.
pub open spec fn color_from_code(v: i16) -> Result<Color, &'static str> {
    if v == 1 {
        Ok(Color::BW)
    } else if v == 2 {
        Ok(Color::COLOR)
    } else {
        Err("Size Error")
    }
}

impl TryFrom<i16> for Color {
    type Error = &'static str;

    fn try_from(value: i16) -> (r: Result<Self, Self::Error>) {
        match value {
            1 => Ok(Self::BW),
            2 => Ok(Self::COLOR),
            _ => Err("Size Error"),
        }
    }
}

impl vstd::std_specs::convert::TryFromSpecImpl<i16> for Color {
    open spec fn obeys_try_from_spec() -> bool {
        true
    }

    open spec fn try_from_spec(v: i16) -> Result<Color, &'static str> {
        color_from_code(v)
    }
}

/// What `Orientation::try_from` gives for a DEVMODE orientation code.
pub open spec fn orientation_from_code(v: i16) -> Result<Orientation, &'static str> {
    if v == 1 {
        Ok(Orientation::PORTRAIT)
    } else if v == 2 {
        Ok(Orientation::LANDSCAPE)
    } else {
        Err("Size Error")
    }
}

impl TryFrom<i16> for Orientation {
    type Error = &'static str;

    fn try_from(value: i16) -> (r: Result<Self, Self::Error>) {
        match value {
            1 => Ok(Self::PORTRAIT),
            2 => Ok(Self::LANDSCAPE),
            _ => Err("Size Error"),
        }
    }
}

impl vstd::std_specs::convert::TryFromSpecImpl<i16> for Orientation {
    open spec fn obeys_try_from_spec() -> bool {
        true
    }

    open spec fn try_from_spec(v: i16) -> Result<Orientation, &'static str> {
        orientation_from_code(v)
    }
}

/// The DEVMODE duplex code for one-sided printing.
pub const DMDUP_SIMPLEX: i16 = 1;

/// The DEVMODE duplex code for two-sided printing flipped on the long edge.
pub const DMDUP_VERTICAL: i16 = 2;

/// The DEVMODE duplex code for two-sided printing flipped on the short edge.
pub const DMDUP_HORIZONTAL: i16 = 3;

/// What `Duplex::try_from` gives for a DEVMODE duplex code.
pub open spec fn duplex_from_code(v: i16) -> Result<Duplex, &'static str> {
    if v == DMDUP_SIMPLEX {
        Ok(Duplex::SIMPLEX)
    } else if v == DMDUP_HORIZONTAL {
        Ok(Duplex::DUPLEX_SHORT_EDGE)
    } else if v == DMDUP_VERTICAL {
        Ok(Duplex::DUPLEX_LONG_EDGE)
    } else {
        Err("Duplex Error")
    }
}

impl TryFrom<i16> for Duplex {
    type Error = &'static str;

    fn try_from(value: i16) -> (r: Result<Self, Self::Error>) {
        if value == DMDUP_SIMPLEX {
            Ok(Self::SIMPLEX)
        } else if value == DMDUP_HORIZONTAL {
            Ok(Self::DUPLEX_SHORT_EDGE)
        } else if value == DMDUP_VERTICAL {
            Ok(Self::DUPLEX_LONG_EDGE)
        } else {
            Err("Duplex Error")
        }
    }
}

impl vstd::std_specs::convert::TryFromSpecImpl<i16> for Duplex {
    open spec fn obeys_try_from_spec() -> bool {
        true
    }

    open spec fn try_from_spec(v: i16) -> Result<Duplex, &'static str> {
        duplex_from_code(v)
    }
}

/// Converting a size to its paper id and back gives the size again.
pub proof fn law_size_code_roundtrip(s: Size)
    ensures
        size_from_code(paper_id(s)) == Ok::<Size, &'static str>(s),
{
}

/// A paper id that converts to a size is that size's paper id.
pub proof fn law_code_size_roundtrip(v: i16)
    ensures
        size_from_code(v) matches Ok(s) ==> paper_id(s) == v,
{
}

/// A print job as the service sees it.
#[derive(Debug, Clone, PartialEq)]
pub struct Job {
    /// Job id.
    pub id: u32,
    /// Job name (file name).
    pub name: String,
    /// Black & white or colour.
    pub color: Color,
    pub bw_pages: u32,
    pub color_pages: u32,
    /// One character per page: `1` for a colour page, `0` otherwise.
    pub color_map: String,
    /// How many pages.
    pub number: u32,
    pub copies: u32,
    /// A3 / A4.
    pub paper_size: Size,
    /// Portrait / landscape.
    pub direction: Orientation,
    pub duplex: Duplex,
}

impl Job {
    /// The empty job: zero counts, empty strings, and the first variant of
    /// each attribute.
    pub open spec fn is_default(self) -> bool {
        &&& self.id == 0
        &&& self.name@ == Seq::<char>::empty()
        &&& self.color == Color::BW
        &&& self.bw_pages == 0
        &&& self.color_pages == 0
        &&& self.color_map@ == Seq::<char>::empty()
        &&& self.number == 0
        &&& self.copies == 0
        &&& self.paper_size == Size::A3
        &&& self.direction == Orientation::PORTRAIT
        &&& self.duplex == Duplex::SIMPLEX
    }
}

impl Default for Job {
    fn default() -> (r: Self)
        ensures
            r.is_default(),
    {
        Job {
            id: 0,
            name: String::new(),
            color: Color::BW,
            bw_pages: 0,
            color_pages: 0,
            color_map: String::new(),
            number: 0,
            copies: 0,
            paper_size: Size::A3,
            direction: Orientation::PORTRAIT,
            duplex: Duplex::SIMPLEX,
        }
    }
}

} // verus!
