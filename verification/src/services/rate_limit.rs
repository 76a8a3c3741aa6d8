use crate::helpers::InternalError;
use crate::kvs::{after, answer, created, MemoryKvs, SetIfAbsent, SetIfAbsentView};
use vstd::prelude::*;

verus! {

/// A gate that lets each key through once per window.
pub struct RateLimitService {}

impl RateLimitService {
    pub fn new() -> RateLimitService {
        RateLimitService {  }
    }

    /// The request that claims `key` for `ttl` seconds: one atomic "set if
    /// absent", with the key as its own value.
    pub fn check_rate_limit(&self, key: &str, ttl: u64) -> (request: SetIfAbsent)
        ensures
            request@ == (SetIfAbsentView { key: key@, value: key@, ttl }),
    {
        SetIfAbsent { key: key.to_owned(), value: key.to_owned(), ttl }
    }

    /// Claims `key` for `ttl` seconds in a store in memory at the time `now`:
    /// `true` where the caller is within its rate, `false` where the key is
    /// still claimed.
    pub fn check_rate_limit_in(&self, store: &mut MemoryKvs, key: &str, ttl: u64, now: u64) -> (first:
        bool)
        requires
            old(store).well_formed(),
        ensures
            final(store).well_formed(),
            final(store)@ == after(
                old(store)@,
                SetIfAbsentView { key: key@, value: key@, ttl },
                now as int,
            ),
            first == answer(
                old(store)@,
                SetIfAbsentView { key: key@, value: key@, ttl },
                now as int,
            ),
    {
        let request = self.check_rate_limit(key, ttl);
        let reply = store.set_if_absent(&request, now);
        created(&reply)
    }

    /// Reads the store's answer to that request: `true` where the caller is
    /// within its rate, `false` where the key was claimed already.
    pub fn within_rate(&self, reply: Result<Option<String>, InternalError>) -> (result: Result<
        bool,
        InternalError,
    >)
        ensures
            match reply {
                Ok(answer) => result matches Ok(first) && first == answer.is_some(),
                Err(error) => result matches Err(same) && same == error,
            },
    {
        match reply {
            Ok(answer) => Ok(created(&answer)),
            Err(error) => Err(error),
        }
    }
}

} // verus!
