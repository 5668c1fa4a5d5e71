use vstd::prelude::*;

verus! {

/// A named regular, promoted out of the anonymous「お客様」so that rumors can
/// be attributed to a specific speaker. An index into the regulars (see
/// `customer`); only indices below `CUSTOMER_COUNT` name someone.
#[derive(Clone, Copy, PartialEq, Eq, Debug, Structural)]
pub struct CustomerId(pub u8);

/// One regular. A name is all the rumors need to attribute a line.
pub struct Customer {
    pub name: &'static str,
}

/// How many regulars there are.
pub const CUSTOMER_COUNT: u8 = 5;

/// The regulars' names, in order.
pub open spec fn customer_name(i: nat) -> Seq<char> {
    if i == 0 {
        "サユリ"@
    } else if i == 1 {
        "カズ"@
    } else if i == 2 {
        "ミチル"@
    } else if i == 3 {
        "トウジ"@
    } else {
        "アリス"@
    }
}

/// The `i`-th regular.
pub fn customer(i: u8) -> (res: Customer)
    requires
        i < CUSTOMER_COUNT,
    ensures
        res.name@ == customer_name(i as nat),
{
    if i == 0 {
        Customer { name: "サユリ" }
    } else if i == 1 {
        Customer { name: "カズ" }
    } else if i == 2 {
        Customer { name: "ミチル" }
    } else if i == 3 {
        Customer { name: "トウジ" }
    } else {
        Customer { name: "アリス" }
    }
}

impl CustomerId {
    /// The regular's name.
    pub fn name(self) -> (res: &'static str)
        requires
            self.0 < CUSTOMER_COUNT,
        ensures
            res@ == customer_name(self.0 as nat),
    {
        customer(self.0).name
    }
}

} // verus!
