//! The two numbers that name a kind of USB device.

use crate::text::{push_decimal, push_hexadecimal};
use vstd::prelude::*;
use vstd::string::StringExecFns;

verus! {

/// The vendor of a USB device.
#[derive(Debug, PartialEq, Clone, Copy)]
pub struct VendorId(pub u16);

/// The product number that a vendor gave a USB device.
#[derive(Debug, PartialEq, Clone, Copy)]
pub struct ProductId(pub u16);

/// An identifier that is made from its 16-bit number.
pub trait Id: Sized {
    fn new(id: u16) -> Self;
}

impl Id for VendorId {
    fn new(id: u16) -> (r: Self)
        ensures
            r.0 == id,
    {
        VendorId(id)
    }
}

impl Id for ProductId {
    fn new(id: u16) -> (r: Self)
        ensures
            r.0 == id,
    {
        ProductId(id)
    }
}

impl vstd::std_specs::convert::FromSpecImpl<u16> for VendorId {
    open spec fn obeys_from_spec() -> bool {
        true
    }

    open spec fn from_spec(id: u16) -> Self {
        VendorId(id)
    }
}

impl From<u16> for VendorId {
    fn from(id: u16) -> (r: Self) {
        VendorId(id)
    }
}

impl vstd::std_specs::convert::FromSpecImpl<u16> for ProductId {
    open spec fn obeys_from_spec() -> bool {
        true
    }

    open spec fn from_spec(id: u16) -> Self {
        ProductId(id)
    }
}

impl From<u16> for ProductId {
    fn from(id: u16) -> (r: Self) {
        ProductId(id)
    }
}

impl vstd::std_specs::convert::FromSpecImpl<VendorId> for u16 {
    open spec fn obeys_from_spec() -> bool {
        true
    }

    open spec fn from_spec(id: VendorId) -> Self {
        id.0
    }
}

impl From<VendorId> for u16 {
    fn from(id: VendorId) -> (r: Self) {
        id.0
    }
}

impl vstd::std_specs::convert::FromSpecImpl<ProductId> for u16 {
    open spec fn obeys_from_spec() -> bool {
        true
    }

    open spec fn from_spec(id: ProductId) -> Self {
        id.0
    }
}

impl From<ProductId> for u16 {
    fn from(id: ProductId) -> (r: Self) {
        id.0
    }
}

impl VendorId {
    /// The identifier as it is shown to people: four hexadecimal digits
    /// behind `0x`.
    pub open spec fn display(self) -> Seq<char> {
        crate::text::hexadecimal(self.0)
    }

    /// The identifier as it appears inside an error: `VendorId(5824)`.
    pub open spec fn rendering(self) -> Seq<char> {
        "VendorId("@ + crate::text::decimal(self.0 as nat) + ")"@
    }

    pub fn to_string(&self) -> (text: String)
        ensures
            text@ == self.display(),
    {
        let mut text = String::new();
        push_hexadecimal(&mut text, self.0);
        text
    }

    /// Appends [`Self::rendering`] to `text`.
    pub fn render_into(&self, text: &mut String)
        ensures
            final(text)@ == old(text)@ + self.rendering(),
    {
        text.append("VendorId(");
        push_decimal(text, self.0 as u64);
        text.append(")");
    }
}

impl ProductId {
    /// The identifier as it is shown to people: four hexadecimal digits
    /// behind `0x`.
    pub open spec fn display(self) -> Seq<char> {
        crate::text::hexadecimal(self.0)
    }

    /// The identifier as it appears inside an error: `ProductId(10203)`.
    pub open spec fn rendering(self) -> Seq<char> {
        "ProductId("@ + crate::text::decimal(self.0 as nat) + ")"@
    }

    pub fn to_string(&self) -> (text: String)
        ensures
            text@ == self.display(),
    {
        let mut text = String::new();
        push_hexadecimal(&mut text, self.0);
        text
    }

    /// Appends [`Self::rendering`] to `text`.
    pub fn render_into(&self, text: &mut String)
        ensures
            final(text)@ == old(text)@ + self.rendering(),
    {
        text.append("ProductId(");
        push_decimal(text, self.0 as u64);
        text.append(")");
    }
}

} // verus!
