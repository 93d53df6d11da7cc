use vstd::prelude::*;
use crate::duration::{
    current_timestamp_sec, duration_seconds, instant_after, timestamp_after, DurationError,
};

verus! {

/// The claims of a token: who it is for, whom it is about, and the seconds
/// since the epoch at which it was issued and at which it expires.
pub struct Claims {
    pub aud: Option<String>,
    pub sub: Option<String>,
    pub exp: i64,
    pub iat: i64,
}

impl Claims {
    pub fn new(aud: Option<String>, sub: Option<String>, exp: i64, iat: i64) -> (claims: Self)
        ensures
            claims.aud == aud,
            claims.sub == sub,
            claims.exp == exp,
            claims.iat == iat,
    {
        Self { aud, exp, sub, iat }
    }

    /// The claims of a token issued at the instant `iat` that expires the
    /// duration `lifetime` after the instant `now`.
    pub fn issued_at(
        aud: Option<String>,
        sub: Option<String>,
        lifetime: &str,
        iat: i64,
        now: i64,
    ) -> (r: Result<Self, DurationError>)
        ensures
            match r {
                Ok(claims) => claims.aud == aud && claims.sub == sub && claims.iat == iat
                    && instant_after(now as int, lifetime@) == Ok::<int, DurationError>(
                    claims.exp as int,
                ),
                Err(e) => instant_after(now as int, lifetime@) == Err::<int, DurationError>(e),
            },
    {
        match timestamp_after(now, lifetime) {
            Ok(exp) => Ok(Claims::new(aud, sub, exp, iat)),
            Err(e) => Err(e),
        }
    }

    /// The claims of a token issued now that expires after the duration
    /// `lifetime`. The clock is read once for the time of issue and once
    /// more for the expiry: the expiry lies the lifetime after some reading
    /// of the clock. A lifetime that cannot be read fails as
    /// `duration_seconds` says, whatever the time; one that can be read fails
    /// only where the expiry is beyond `i64`.
    pub fn issue(aud: Option<String>, sub: Option<String>, lifetime: &str) -> (r: Result<
        Self,
        DurationError,
    >)
        ensures
            match r {
                Ok(claims) => claims.aud == aud && claims.sub == sub && exists|now: int|
                    i64::MIN <= now <= i64::MAX && #[trigger] instant_after(now, lifetime@) == Ok::<
                        int,
                        DurationError,
                    >(claims.exp as int),
                Err(e) => exists|now: int|
                    i64::MIN <= now <= i64::MAX && #[trigger] instant_after(now, lifetime@) == Err::<
                        int,
                        DurationError,
                    >(e),
            },
            duration_seconds(lifetime@) is Err ==> r is Err && r->Err_0 == duration_seconds(
                lifetime@,
            )->Err_0,
            duration_seconds(lifetime@) is Ok ==> r is Ok || r->Err_0 == DurationError::OutOfRange,
    {
        let iat = current_timestamp_sec();
        let now = current_timestamp_sec();
        let r = Self::issued_at(aud, sub, lifetime, iat, now);
        assert(instant_after(now as int, lifetime@) is Ok ==> r is Ok);
        r
    }

    /// Whether the token is still good at the instant `now`: it is, until
    /// the second of its expiry has come.
    pub fn outlives(&self, now: i64) -> (live: bool)
        ensures
            live == (self.exp > now),
    {
        self.exp > now
    }
}

} // verus!
