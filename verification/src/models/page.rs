//! Page numbers and page sizes.

use core::cmp::Ordering;
use core::ops::{Add, AddAssign, Mul, Sub};
use vstd::prelude::*;
use vstd::std_specs::cmp::{PartialEqSpecImpl, PartialOrdSpecImpl};
use vstd::std_specs::convert::{FromSpecImpl, TryFromSpecImpl};
use vstd::std_specs::ops::{AddSpecImpl, MulSpecImpl, SubSpecImpl};

verus! {

/// The largest page size that the server accepts.
pub const MAX_PER_PAGE: usize = 50;

/// The page size that the server uses when a request names none.
pub const DEFAULT_PER_PAGE: usize = 25;

/// Controls the current page of the response, if the response is paginated.
/// Pages are counted from one, and every `Page` holds a number of at least one.
#[derive(Debug, Clone, Copy)]
pub struct Page(usize);

impl View for Page {
    type V = nat;

    closed spec fn view(&self) -> nat {
        self.0 as nat
    }
}

impl Page {
    #[verifier::type_invariant]
    spec fn positive(self) -> bool {
        self.0 >= 1
    }

    /// The page number.
    pub fn get(self) -> (n: usize)
        ensures
            n == self@,
            n >= 1,
    {
        proof {
            use_type_invariant(self);
        }
        self.0
    }
}

impl Default for Page {
    /// The first page.
    fn default() -> (page: Page)
        ensures
            page@ == 1,
    {
        Page(1)
    }
}

impl PartialEq<usize> for Page {
    fn eq(&self, other: &usize) -> (r: bool)
        ensures
            r == (self@ == *other),
    {
        self.0 == *other
    }
}

impl PartialEqSpecImpl<usize> for Page {
    open spec fn obeys_eq_spec() -> bool {
        true
    }

    open spec fn eq_spec(&self, other: &usize) -> bool {
        self@ == *other
    }
}

impl PartialOrd<usize> for Page {
    fn partial_cmp(&self, other: &usize) -> (r: Option<Ordering>)
        ensures
            self@ < *other ==> r == Some(Ordering::Less),
            self@ == *other ==> r == Some(Ordering::Equal),
            self@ > *other ==> r == Some(Ordering::Greater),
    {
        if self.0 < *other {
            Some(Ordering::Less)
        } else if self.0 == *other {
            Some(Ordering::Equal)
        } else {
            Some(Ordering::Greater)
        }
    }
}

impl PartialOrdSpecImpl<usize> for Page {
    open spec fn obeys_partial_cmp_spec() -> bool {
        true
    }

    open spec fn partial_cmp_spec(&self, other: &usize) -> Option<Ordering> {
        if self@ < *other {
            Some(Ordering::Less)
        } else if self@ == *other {
            Some(Ordering::Equal)
        } else {
            Some(Ordering::Greater)
        }
    }
}

impl Sub<usize> for Page {
    type Output = usize;

    /// How far this page lies behind `rhs` pages back; `rhs` may not exceed the
    /// page number.
    fn sub(self, rhs: usize) -> (r: usize)
        ensures
            r == self@ - rhs,
    {
        self.0 - rhs
    }
}

impl SubSpecImpl<usize> for Page {
    open spec fn obeys_sub_spec() -> bool {
        true
    }

    open spec fn sub_req(self, rhs: usize) -> bool {
        rhs <= self@
    }

    open spec fn sub_spec(self, rhs: usize) -> usize {
        (self@ - rhs) as usize
    }
}

impl Add<usize> for Page {
    type Output = usize;

    /// The number of the page `rhs` pages further on, where it fits in `usize`.
    fn add(self, rhs: usize) -> (r: usize)
        ensures
            r == self@ + rhs,
    {
        self.0 + rhs
    }
}

impl AddSpecImpl<usize> for Page {
    open spec fn obeys_add_spec() -> bool {
        true
    }

    open spec fn add_req(self, rhs: usize) -> bool {
        self@ + rhs <= usize::MAX
    }

    open spec fn add_spec(self, rhs: usize) -> usize {
        (self@ + rhs) as usize
    }
}

impl AddAssign<usize> for Page {
    /// Moves `rhs` pages further on, where that page number fits in `usize`.
    fn add_assign(&mut self, rhs: usize)
        requires
            old(self)@ + rhs <= usize::MAX,
        ensures
            final(self)@ == old(self)@ + rhs,
    {
        proof {
            use_type_invariant(&*self);
        }
        self.0 += rhs;
    }
}

/// Controls the number of results per page, if the response is paginated.
/// Every `PerPage` holds a size between 1 and 50.
#[derive(Debug, Clone, Copy)]
pub struct PerPage(usize);

impl View for PerPage {
    type V = nat;

    closed spec fn view(&self) -> nat {
        self.0 as nat
    }
}

impl PerPage {
    #[verifier::type_invariant]
    spec fn in_range(self) -> bool {
        1 <= self.0 <= MAX_PER_PAGE
    }

    /// A page size is valid when it lies between 1 and 50.
    pub open spec fn valid(value: nat) -> bool {
        1 <= value <= MAX_PER_PAGE
    }

    /// The largest page size that the server accepts.
    pub fn maximum() -> (size: PerPage)
        ensures
            size@ == MAX_PER_PAGE,
    {
        PerPage(MAX_PER_PAGE)
    }

    /// The page size.
    pub fn get(self) -> (n: usize)
        ensures
            n == self@,
            PerPage::valid(self@),
    {
        proof {
            use_type_invariant(self);
        }
        self.0
    }
}

impl Default for PerPage {
    /// The server's own default of 25 results per page.
    fn default() -> (size: PerPage)
        ensures
            size@ == DEFAULT_PER_PAGE,
    {
        PerPage(DEFAULT_PER_PAGE)
    }
}

impl Mul<PerPage> for Page {
    type Output = usize;

    /// The number of results on all pages up to and including this one.
    fn mul(self, rhs: PerPage) -> (r: usize)
        ensures
            r == self@ * rhs@,
    {
        self.0 * rhs.0
    }
}

impl MulSpecImpl<PerPage> for Page {
    open spec fn obeys_mul_spec() -> bool {
        true
    }

    open spec fn mul_req(self, rhs: PerPage) -> bool {
        self@ * rhs@ <= usize::MAX
    }

    open spec fn mul_spec(self, rhs: PerPage) -> usize {
        (self@ * rhs@) as usize
    }
}

impl Mul<PerPage> for usize {
    type Output = usize;

    /// The number of results on `self` full pages.
    fn mul(self, rhs: PerPage) -> (r: usize)
        ensures
            r == self * rhs@,
    {
        self * rhs.0
    }
}

impl MulSpecImpl<PerPage> for usize {
    open spec fn obeys_mul_spec() -> bool {
        true
    }

    open spec fn mul_req(self, rhs: PerPage) -> bool {
        self * rhs@ <= usize::MAX
    }

    open spec fn mul_spec(self, rhs: PerPage) -> usize {
        (self * rhs@) as usize
    }
}

/// The error of a page size outside the range from 1 to 50.
#[derive(Debug)]
pub struct PerPageError;

impl PerPageError {
    /// The error's name, as it is shown to a user.
    pub fn message(&self) -> (text: String)
        ensures
            text@ == "PerPageError"@,
    {
        String::from_str("PerPageError")
    }
}

impl TryFrom<usize> for PerPage {
    type Error = PerPageError;

    /// Accepts a page size between 1 and 50, and no other.
    fn try_from(value: usize) -> (r: Result<PerPage, PerPageError>)
        ensures
            PerPage::valid(value as nat) ==> (r matches Ok(size) && size@ == value),
            !PerPage::valid(value as nat) ==> r is Err,
    {
        if 1 <= value && value <= MAX_PER_PAGE {
            Ok(PerPage(value))
        } else {
            Err(PerPageError)
        }
    }
}

impl TryFromSpecImpl<usize> for PerPage {
    open spec fn obeys_try_from_spec() -> bool {
        true
    }

    closed spec fn try_from_spec(value: usize) -> Result<PerPage, PerPageError> {
        if PerPage::valid(value as nat) {
            Ok(PerPage(value))
        } else {
            Err(PerPageError)
        }
    }
}

impl From<PerPage> for usize {
    fn from(value: PerPage) -> (n: usize)
        ensures
            n == value@,
            PerPage::valid(value@),
    {
        proof {
            use_type_invariant(value);
        }
        value.0
    }
}

impl FromSpecImpl<PerPage> for usize {
    open spec fn obeys_from_spec() -> bool {
        true
    }

    open spec fn from_spec(value: PerPage) -> usize {
        value@ as usize
    }
}

} // verus!
