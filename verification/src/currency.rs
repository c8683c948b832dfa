use vstd::prelude::*;

verus! {

/// An ISO-4217-style currency code: three ASCII letters, such as `EUR`.
///
/// The code doubles as the canonical name of the currency's quote series:
/// FX quotes for a currency are stored under a series named by this code.
#[derive(Clone, Copy, Debug)]
pub struct Currency {
    /// The three letters of the code.
    pub code: [u8; 3],
}

impl View for Currency {
    type V = Seq<u8>;

    open spec fn view(&self) -> Seq<u8> {
        self.code@
    }
}

impl Currency {
    pub fn new(code: [u8; 3]) -> (c: Currency)
        ensures
            c@ == code@,
    {
        Currency { code }
    }

    /// The three bytes of the code, for rendering the canonical string form.
    pub fn bytes(&self) -> (r: [u8; 3])
        ensures
            r@ == self@,
    {
        self.code
    }

    /// Whether two currencies are the same currency.
    pub fn same(&self, other: &Currency) -> (r: bool)
        ensures
            r == (self@ == other@),
    {
        let r = self.code[0] == other.code[0] && self.code[1] == other.code[1] && self.code[2]
            == other.code[2];
        proof {
            if r {
                assert(self@ =~= other@);
            }
        }
        r
    }
}

} // verus!
