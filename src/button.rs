//! A small interface exported across the boundary, with one native
//! implementation.
use std::sync::Arc;
use vstd::prelude::*;
use vstd::string::StringExecFns;

verus! {

/// The decimal digits of `n`, most significant first, without sign or padding.
pub open spec fn decimal_digits(n: nat) -> Seq<char>
    decreases n,
{
    let d = seq![((n % 10) + ('0' as nat)) as char];
    if n < 10 {
        d
    } else {
        decimal_digits(n / 10) + d
    }
}

/// The text that a `BackButton` returns for a record holding `num`.
pub open spec fn back_name(num: u32) -> Seq<char> {
    seq!['b', 'a', 'c', 'k'] + decimal_digits(num as nat)
}

/// Relies on `u32`'s `Display` (through `ToString::to_string`): plain decimal
/// digits, no sign, no leading zeros.
#[verifier::external_body]
fn decimal(n: u32) -> (r: String)
    ensures
        r@ == decimal_digits(n as nat),
{
    n.to_string()
}

/// A record passed by reference into interface methods.
pub struct Other {
    pub num: u32,
}

/// An interface that both native code and foreign callers may implement.
pub trait ByrefButton: Send + Sync {
    /// What `name` returns for a record holding `num`.
    spec fn name_of(&self, num: u32) -> Seq<char>;

    fn name(&self, byref: &Other) -> (r: String)
        ensures
            r@ == self.name_of(byref.num),
    ;
}

/// The native implementation of `ByrefButton`.
pub struct BackButton {}

impl BackButton {
    pub fn new() -> (r: Arc<BackButton>)
        ensures
            forall|n: u32| (*r).name_of(n) == back_name(n),
    {
        Arc::new(BackButton {  })
    }
}

impl ByrefButton for BackButton {
    open spec fn name_of(&self, num: u32) -> Seq<char> {
        back_name(num)
    }

    fn name(&self, byref: &Other) -> (r: String) {
        let digits = decimal(byref.num);
        let r = String::from_str("back").concat(digits.as_str());
        proof {
            reveal_strlit("back");
        }
        r
    }
}

} // verus!
