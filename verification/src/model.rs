//! The business records: a party (`Instance`), a billable line item
//! (`Position`), and the `Invoice` that ties them together.

use crate::date::Date;
use vstd::prelude::*;
use vstd::string::StringExecFns;

verus! {

/// A party on an invoice: the address block used for sender and receiver.
pub struct Instance {
    pub name: String,
    pub street: String,
    pub postal_code: String,
    pub city: String,
}

/// The one-line form of an address block: name, street, then postal code and
/// city, joined in this fixed order.
pub open spec fn oneliner_spec(
    name: Seq<char>,
    street: Seq<char>,
    postal_code: Seq<char>,
    city: Seq<char>,
) -> Seq<char> {
    name + " - "@ + street + " - "@ + postal_code + " "@ + city
}

impl Instance {
    /// The address as a single line: `name - street - postal_code city`.
    pub fn oneliner(&self) -> (r: String)
        ensures
            r@ == oneliner_spec(self.name@, self.street@, self.postal_code@, self.city@),
    {
        let mut r = self.name.clone();
        r.append(" - ");
        r.append(self.street.as_str());
        r.append(" - ");
        r.append(self.postal_code.as_str());
        r.append(" ");
        r.append(self.city.as_str());
        r
    }

    /// The lines of the multi-line address block, top to bottom: name, street,
    /// city.
    pub fn layout_lines(&self) -> (r: Vec<String>)
        ensures
            r@.len() == 3,
            r@[0]@ == self.name@,
            r@[1]@ == self.street@,
            r@[2]@ == self.city@,
    {
        let mut lines: Vec<String> = Vec::new();
        lines.push(self.name.clone());
        lines.push(self.street.clone());
        lines.push(self.city.clone());
        lines
    }

    /// The short display form of a party: its name alone.
    pub fn display_name(&self) -> (r: String)
        ensures
            r@ == self.name@,
    {
        self.name.clone()
    }
}

impl Clone for Instance {
    /// A clone keeps every field of the party.
    fn clone(&self) -> (r: Self)
        ensures
            r == *self,
    {
        Instance {
            name: self.name.clone(),
            street: self.street.clone(),
            postal_code: self.postal_code.clone(),
            city: self.city.clone(),
        }
    }
}

/// One billable entry: what is sold, how many, and the price of one unit in
/// the smallest currency unit.
pub struct Position {
    pub name: String,
    pub quantity: u32,
    pub unit_price: u32,
}

impl Position {
    /// The full price of the line: quantity times unit price. The result is
    /// wide enough that no pair of inputs overflows it.
    pub fn calculate_full_price(&self) -> (r: u64)
        ensures
            r == self.quantity as int * self.unit_price as int,
    {
        proof {
            assert((self.quantity as int) * (self.unit_price as int) <= 0xffff_ffff * 0xffff_ffff)
                by (nonlinear_arith)
                requires
                    0 <= self.quantity as int <= 0xffff_ffff,
                    0 <= self.unit_price as int <= 0xffff_ffff,
            ;
        }
        (self.quantity as u64) * (self.unit_price as u64)
    }
}

/// An invoice: the two parties, an identifier, its dates, and the billed line
/// items in order.
pub struct Invoice {
    pub sender: Instance,
    pub receiver: Instance,
    pub invoice_id: i32,
    pub invoice_date: Date,
    pub output_date: Date,
    pub positions: Vec<Position>,
}

} // verus!
