use vstd::prelude::*;

verus! {

pub const VERSION: &'static str = "0.1.0";

pub const USER_AGENT: &'static str = "threescalers/0.1.0";

} // verus!
