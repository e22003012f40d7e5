//! The refresh-and-retry-once protocol for the anti-forgery token.
//!
//! An authenticated operation is sent with the stored token. Where the
//! answer is a 403 carrying a fresh token, the token is installed and the
//! operation is sent once more; whatever the second answer is, it is final.
//! The caller runs the operation and hands each result to
//! `RobloxApi::after_attempt`, which decides.
use vstd::prelude::*;

use crate::client::{RobloxApi, SessionState};
use crate::error::RobloxError;

verus! {

/// Which sending of an operation a result belongs to.
#[derive(Debug, Clone, Copy, PartialEq, Eq)]
pub enum Attempt {
    First,
    Retry,
}

/// What to do after an attempt: send the operation again with the stored
/// token, or hand the result to the caller.
#[derive(Debug)]
pub enum Step<T> {
    Again,
    Done(Result<T, RobloxError>),
}

/// The session and the step after an attempt of the given kind ended in
/// `result`.
pub open spec fn spec_after_attempt<T>(
    s: SessionState,
    attempt: Attempt,
    result: Result<T, RobloxError>,
) -> (SessionState, Step<T>) {
    match (attempt, result) {
        (Attempt::First, Err(RobloxError::InvalidXcsrf(token))) => (
            s.with_xcsrf(token@),
            Step::Again,
        ),
        _ => (s, Step::Done(result)),
    }
}

impl RobloxApi {
    /// Decides what follows an attempt. After the first attempt a fresh
    /// token is installed, so that the retry is sent with it; any other
    /// result, and every result of the retry, goes to the caller unchanged.
    pub fn after_attempt<T>(&mut self, attempt: Attempt, result: Result<T, RobloxError>) -> (r:
        Step<T>)
        ensures
            (final(self)@, r) == spec_after_attempt(old(self)@, attempt, result),
    {
        match attempt {
            Attempt::First => match result {
                Err(RobloxError::InvalidXcsrf(token)) => {
                    self.set_xcsrf(token);
                    Step::Again
                },
                _ => Step::Done(result),
            },
            Attempt::Retry => Step::Done(result),
        }
    }
}

/// A whole run of the protocol against an operation whose successive
/// results are `results`: the session afterwards, the token that each
/// sending of the operation was made with, and the result handed to the
/// caller (`None` where `results` ran out first).
pub open spec fn run_protocol<T>(
    s: SessionState,
    attempt: Attempt,
    results: Seq<Result<T, RobloxError>>,
) -> (SessionState, Seq<Seq<char>>, Option<Result<T, RobloxError>>)
    decreases results.len(),
{
    if results.len() == 0 {
        (s, Seq::empty(), None)
    } else {
        let (next, step) = spec_after_attempt(s, attempt, results[0]);
        match step {
            Step::Done(r) => (next, seq![s.xcsrf], Some(r)),
            Step::Again => {
                let (last, seen, out) = run_protocol(next, Attempt::Retry, results.drop_first());
                (last, seq![s.xcsrf] + seen, out)
            },
        }
    }
}

pub open spec fn is_stale_token<T>(r: Result<T, RobloxError>) -> bool {
    r matches Err(RobloxError::InvalidXcsrf(_))
}

/// Whatever an operation returns, it is sent at most twice per call; and
/// where it keeps answering with a stale-token failure it is sent exactly
/// twice, the second failure going to the caller as it is.
pub proof fn lemma_at_most_one_retry<T>(s: SessionState, results: Seq<Result<T, RobloxError>>)
    ensures
        run_protocol(s, Attempt::First, results).1.len() <= 2,
        results.len() >= 2 && (forall|i: int| 0 <= i < results.len() ==> is_stale_token(
            #[trigger] results[i],
        )) ==> run_protocol(s, Attempt::First, results).1.len() == 2 && run_protocol(
            s,
            Attempt::First,
            results,
        ).2 == Some(results[1]),
{
    if results.len() > 0 {
        let (next, step) = spec_after_attempt(s, Attempt::First, results[0]);
        if step is Again {
            let rest = results.drop_first();
            if rest.len() > 0 {
                assert(rest[0] == results[1]);
                let (n2, st2) = spec_after_attempt(next, Attempt::Retry, rest[0]);
                assert(st2 is Done);
                assert(run_protocol(next, Attempt::Retry, rest).1 =~= seq![next.xcsrf]);
            } else {
                assert(run_protocol(next, Attempt::Retry, rest).1 =~= Seq::<Seq<char>>::empty());
            }
            assert(run_protocol(s, Attempt::First, results).1 == seq![s.xcsrf] + run_protocol(
                next,
                Attempt::Retry,
                rest,
            ).1);
        } else {
            assert(run_protocol(s, Attempt::First, results).1 =~= seq![s.xcsrf]);
        }
    }
    if results.len() >= 2 && (forall|i: int| 0 <= i < results.len() ==> is_stale_token(
        #[trigger] results[i],
    )) {
        assert(is_stale_token(results[0]));
        assert(results.drop_first()[0] == results[1]);
    }
}

/// Where the first attempt ends in a stale-token failure carrying `token`,
/// the operation is sent a second time, that sending uses `token`, its
/// result goes to the caller, and the store keeps `token`.
pub proof fn lemma_retry_uses_new_token<T>(
    s: SessionState,
    token: String,
    results: Seq<Result<T, RobloxError>>,
)
    requires
        results.len() >= 2,
        results[0] == Err::<T, RobloxError>(RobloxError::InvalidXcsrf(token)),
    ensures
        run_protocol(s, Attempt::First, results).1.len() == 2,
        run_protocol(s, Attempt::First, results).1[0] == s.xcsrf,
        run_protocol(s, Attempt::First, results).1[1] == token@,
        run_protocol(s, Attempt::First, results).2 == Some(results[1]),
        run_protocol(s, Attempt::First, results).0 == s.with_xcsrf(token@),
{
    let rest = results.drop_first();
    assert(rest[0] == results[1]);
    let next = s.with_xcsrf(token@);
    assert(run_protocol(next, Attempt::Retry, rest).1 =~= seq![token@]);
}

/// The protocol decides from the results alone: whatever token other
/// callers have stored meanwhile, a call sends its operation as many times
/// and hands back the same result, so concurrent callers each stay within
/// one retry.
pub proof fn lemma_decision_ignores_store<T>(
    s1: SessionState,
    s2: SessionState,
    results: Seq<Result<T, RobloxError>>,
)
    ensures
        run_protocol(s1, Attempt::First, results).1.len() == run_protocol(
            s2,
            Attempt::First,
            results,
        ).1.len(),
        run_protocol(s1, Attempt::First, results).2 == run_protocol(s2, Attempt::First, results).2,
{
    if results.len() > 0 {
        let (n1, st1) = spec_after_attempt(s1, Attempt::First, results[0]);
        let (n2, st2) = spec_after_attempt(s2, Attempt::First, results[0]);
        if st1 is Again {
            let rest = results.drop_first();
            if rest.len() > 0 {
                assert(run_protocol(n1, Attempt::Retry, rest).1 =~= seq![n1.xcsrf]);
                assert(run_protocol(n2, Attempt::Retry, rest).1 =~= seq![n2.xcsrf]);
            } else {
                assert(run_protocol(n1, Attempt::Retry, rest).1 =~= Seq::<Seq<char>>::empty());
                assert(run_protocol(n2, Attempt::Retry, rest).1 =~= Seq::<Seq<char>>::empty());
            }
        } else {
            assert(run_protocol(s1, Attempt::First, results).1 =~= seq![s1.xcsrf]);
            assert(run_protocol(s2, Attempt::First, results).1 =~= seq![s2.xcsrf]);
        }
    }
}

} // verus!
