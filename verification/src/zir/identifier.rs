//! Names that expressions refer to.

use crate::field::slices_equal;
use vstd::prelude::*;
use vstd::std_specs::convert::FromSpecImpl;
use vstd::string::StringSliceAdditionalSpecFns;
use vstd::utf8::encode_utf8_decode_utf8;

verus! {

/// A reference by name to a variable of the program. It borrows the name and
/// owns nothing: the variable itself lives in the symbol environment.
#[derive(Debug, Clone, Copy, Hash)]
pub struct Identifier<'ast> {
    pub id: &'ast str,
}

impl<'ast> View for Identifier<'ast> {
    type V = Seq<char>;

    /// The characters of the name.
    open spec fn view(&self) -> Seq<char> {
        self.id@
    }
}

impl<'ast> FromSpecImpl<&'ast str> for Identifier<'ast> {
    open spec fn obeys_from_spec() -> bool {
        true
    }

    open spec fn from_spec(id: &'ast str) -> Identifier<'ast> {
        Identifier { id }
    }
}

impl<'ast> From<&'ast str> for Identifier<'ast> {
    fn from(id: &'ast str) -> (r: Identifier<'ast>) {
        Identifier { id }
    }
}

impl<'ast> PartialEq for Identifier<'ast> {
    /// Two identifiers are equal when their names have the same characters.
    fn eq(&self, other: &Self) -> (r: bool) {
        proof {
            encode_utf8_decode_utf8(self.id@);
            encode_utf8_decode_utf8(other.id@);
        }
        slices_equal(self.id.as_bytes(), other.id.as_bytes())
    }
}

impl<'ast> vstd::std_specs::cmp::PartialEqSpecImpl for Identifier<'ast> {
    open spec fn obeys_eq_spec() -> bool {
        true
    }

    open spec fn eq_spec(&self, other: &Self) -> bool {
        self@ == other@
    }
}

impl<'ast> Eq for Identifier<'ast> {

}

} // verus!
