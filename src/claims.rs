use vstd::prelude::*;

verus! {

/// The facts that a token asserts: who it was issued to and when it is valid.
#[derive(Debug)]
pub struct Claims {
    /// The principal the token was issued to.
    pub sub: String,
    /// Issue time, in seconds since the epoch.
    pub iat: u64,
    /// Expiry time, in seconds since the epoch.
    pub exp: u64,
}

impl Claims {
    /// A token's validity window is never empty.
    pub open spec fn wf(&self) -> bool {
        self.exp > self.iat
    }

    /// The claims as plain values: subject, issue time, expiry time.
    pub open spec fn spec_view(&self) -> (Seq<char>, u64, u64) {
        (self.sub@, self.iat, self.exp)
    }
}

/// The claims fields as read back from a token's payload; each is absent when
/// the payload lacks it or holds a value of another type.
#[derive(Debug)]
pub struct PayloadFields {
    pub sub: Option<String>,
    pub iat: Option<u64>,
    pub exp: Option<u64>,
}

impl PayloadFields {
    pub open spec fn spec_view(&self) -> (Option<Seq<char>>, Option<u64>, Option<u64>) {
        (
            match self.sub {
                Some(s) => Some(s@),
                None => None,
            },
            self.iat,
            self.exp,
        )
    }
}

} // verus!
