//! The length class of a basic token.

use vstd::prelude::*;

verus! {

/// The size a basic token is asked to have. There are exactly two classes,
/// named after the number of characters of a token built with the default
/// client id.
#[derive(Debug, Clone, Copy, PartialEq, Eq, Structural)]
pub enum BasicTokenLength {
    /// The short class; its nominal size is 112.
    Basic112,
    /// The long class; its nominal size is 156.
    Basic156,
}

impl BasicTokenLength {
    /// The nominal size of the class.
    pub open spec fn nominal_size(self) -> nat {
        match self {
            BasicTokenLength::Basic112 => 112,
            BasicTokenLength::Basic156 => 156,
        }
    }

    /// The class whose nominal size is `n`, if there is one.
    pub open spec fn classify(n: int) -> Option<BasicTokenLength> {
        if n == 112 {
            Some(BasicTokenLength::Basic112)
        } else if n == 156 {
            Some(BasicTokenLength::Basic156)
        } else {
            None
        }
    }

    /// The nominal size of the class, as a number.
    pub fn nominal(self) -> (n: usize)
        ensures
            n == self.nominal_size(),
            Self::classify(n as int) == Some(self),
    {
        match self {
            BasicTokenLength::Basic112 => 112,
            BasicTokenLength::Basic156 => 156,
        }
    }

    /// Classifying the nominal size of a class gives the class back, and a
    /// number that is classified is the nominal size of its class.
    pub proof fn lemma_classify_nominal(self, n: int)
        ensures
            Self::classify(self.nominal_size() as int) == Some(self),
            Self::classify(n) == Some(self) <==> n == self.nominal_size(),
            Self::classify(n) is Some <==> (n == 112 || n == 156),
    {
    }
}

impl TryFrom<usize> for BasicTokenLength {
    type Error = ();

    /// Accepts 112 and 156 and nothing else.
    fn try_from(value: usize) -> (r: Result<Self, ()>)
        ensures
            value == 112 ==> r == Ok::<Self, ()>(BasicTokenLength::Basic112),
            value == 156 ==> r == Ok::<Self, ()>(BasicTokenLength::Basic156),
            value != 112 && value != 156 ==> r == Err::<Self, ()>(()),
            r is Ok <==> Self::classify(value as int) is Some,
    {
        match value {
            112 => Ok(BasicTokenLength::Basic112),
            156 => Ok(BasicTokenLength::Basic156),
            _ => Err(()),
        }
    }
}

impl vstd::std_specs::convert::TryFromSpecImpl<usize> for BasicTokenLength {
    open spec fn obeys_try_from_spec() -> bool {
        true
    }

    open spec fn try_from_spec(v: usize) -> Result<Self, ()> {
        match Self::classify(v as int) {
            Some(length) => Ok(length),
            None => Err(()),
        }
    }
}

} // verus!
