//! Display names for mask and pattern functions that were given none.
use vstd::prelude::*;

verus! {

/// The decimal digit `d`, for `d < 10`.
pub open spec fn digit_char(d: nat) -> char {
    seq!['0', '1', '2', '3', '4', '5', '6', '7', '8', '9'][d as int]
}

/// The decimal representation of `n`, without leading zeros.
pub open spec fn decimal(n: nat) -> Seq<char>
    decreases n,
{
    if n < 10 {
        seq![digit_char(n)]
    } else {
        decimal(n / 10).push(digit_char(n % 10))
    }
}

/// Relies on `format!` with `{}` on a `&str` and a `u32`: the text followed by
/// the number in decimal.
#[verifier::external_body]
fn numbered(prefix: &str, n: u32) -> (r: String)
    ensures
        r@ == prefix@ + decimal(n as nat),
{
    format!("{}{}", prefix, n)
}

/// Hands out the serial numbers that tell unnamed functions apart. It counts up
/// from zero and is never reset.
pub struct NameCounter {
    pub next: u32,
}

impl NameCounter {
    pub fn new() -> (r: NameCounter)
        ensures
            r.next == 0,
    {
        NameCounter { next: 0 }
    }

    /// Takes the next serial number.
    pub fn take(&mut self) -> (r: u32)
        requires
            old(self).next < u32::MAX,
        ensures
            r == old(self).next,
            final(self).next == old(self).next + 1,
    {
        let r = self.next;
        self.next = self.next + 1;
        r
    }

    /// Takes the next serial number and returns `name`, or, where there is none,
    /// `prefix` followed by that number.
    pub fn name_or_numbered(&mut self, name: Option<String>, prefix: &str) -> (r: String)
        requires
            old(self).next < u32::MAX,
        ensures
            final(self).next == old(self).next + 1,
            r@ == (match name {
                Some(n) => n@,
                None => prefix@ + decimal(old(self).next as nat),
            }),
    {
        let num = self.take();
        match name {
            Some(n) => n,
            None => numbered(prefix, num),
        }
    }
}

} // verus!
