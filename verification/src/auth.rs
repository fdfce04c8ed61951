//! The decisions of the Microsoft / Xbox / Minecraft sign-in: what a token
//! poll answer means, the tokens each step sends, and the messages of the
//! failures it explains.
use vstd::prelude::*;
use crate::text::{concat, contains, spec_contains};

verus! {

/// What an answer of the token endpoint means.
pub enum PollDecision {
    /// The sign-in is complete: the body holds the tokens.
    ParseToken,
    /// The user has not confirmed yet: poll again.
    Pending,
    /// The sign-in failed with this message.
    Failed(String),
}

/// The meaning of a token poll answer: success carries the tokens; an error
/// mentioning "authorization_pending" means wait; any other error fails.
pub fn poll_decision(success: bool, body: &str) -> (r: PollDecision)
    ensures
        success ==> r is ParseToken,
        !success && spec_contains(body@, "authorization_pending"@) ==> r is Pending,
        !success && !spec_contains(body@, "authorization_pending"@) ==> (r matches PollDecision::Failed(
            m,
        ) && m@ == "Error polling token: "@ + body@),
{
    if success {
        PollDecision::ParseToken
    } else if contains(body, "authorization_pending") {
        PollDecision::Pending
    } else {
        PollDecision::Failed(concat("Error polling token: ", body))
    }
}

/// The RPS ticket sent to Xbox Live for a Microsoft access token.
pub fn rps_ticket(ms_access_token: &str) -> (r: String)
    ensures
        r@ == "d="@ + ms_access_token@,
{
    concat("d=", ms_access_token)
}

/// The identity token sent to Minecraft services.
pub fn identity_token(user_hash: &str, xsts_token: &str) -> (r: String)
    ensures
        r@ == "XBL3.0 x="@ + user_hash@ + ";"@ + xsts_token@,
{
    let s = concat("XBL3.0 x=", user_hash);
    let s = concat(s.as_str(), ";");
    concat(s.as_str(), xsts_token)
}

/// The user hash of an Xbox Live answer: its first claim.
pub fn first_user_hash(claims: &Vec<String>) -> (r: Result<String, String>)
    ensures
        claims@.len() > 0 ==> r == Ok::<String, String>(claims@[0]),
        claims@.len() == 0 ==> (r matches Err(e) && e@ == "No user hash found in Xbox Live response"@),
{
    if claims.len() > 0 {
        Ok(claims[0].clone())
    } else {
        Err(String::from_str("No user hash found in Xbox Live response"))
    }
}

/// The message for a refused XSTS request: the two Xbox error codes that
/// have an explanation get it; any other answer is quoted.
pub fn xsts_failure_message(body: &str) -> (r: String)
    ensures
        spec_contains(body@, "2148916233"@) ==> r@
            == "Microsoft account does not have an Xbox Live profile. Please create one on xbox.com."@,
        !spec_contains(body@, "2148916233"@) && spec_contains(body@, "2148916238"@) ==> r@
            == "Account belongs to a minor and requires parental consent on Xbox."@,
        !spec_contains(body@, "2148916233"@) && !spec_contains(body@, "2148916238"@) ==> r@
            == "XSTS token request failed: "@ + body@,
{
    if contains(body, "2148916233") {
        String::from_str(
            "Microsoft account does not have an Xbox Live profile. Please create one on xbox.com.",
        )
    } else if contains(body, "2148916238") {
        String::from_str("Account belongs to a minor and requires parental consent on Xbox.")
    } else {
        concat("XSTS token request failed: ", body)
    }
}

/// A profile request answered 404 means the account has no Java Edition.
pub fn profile_status_check(status: u16) -> (r: Result<(), String>)
    ensures
        status == 404 ==> (r matches Err(e) && e@
            == "User does not own Minecraft Java Edition on this account."@),
        status != 404 ==> r is Ok,
{
    if status == 404 {
        Err(String::from_str("User does not own Minecraft Java Edition on this account."))
    } else {
        Ok(())
    }
}

/// The countdown of a device-code sign-in: how long the code stays valid
/// and how long to wait between polls (at least a second).
pub struct PollClock {
    pub interval: u64,
    pub remaining: u64,
}

impl PollClock {
    pub fn new(interval: u64, expires_in: u64) -> (r: PollClock)
        ensures
            r.interval == (if interval > 1 {
                interval
            } else {
                1
            }),
            r.remaining == expires_in,
    {
        PollClock {
            interval: if interval > 1 {
                interval
            } else {
                1
            },
            remaining: expires_in,
        }
    }

    /// The command-line wait: while time remains, wait one interval and poll
    /// (the remaining time counts down, not below zero).
    pub fn step_cli(&mut self) -> (r: bool)
        ensures
            r == (old(self).remaining > 0),
            final(self).interval == old(self).interval,
            r ==> final(self).remaining == (if old(self).remaining > old(self).interval {
                old(self).remaining - old(self).interval
            } else {
                0
            }),
            !r ==> final(self).remaining == old(self).remaining,
    {
        if self.remaining == 0 {
            return false;
        }
        self.remaining = if self.remaining > self.interval {
            self.remaining - self.interval
        } else {
            0
        };
        true
    }

    /// The interface's wait: after each interval, poll again only if a whole
    /// interval of validity was left; otherwise the sign-in has timed out.
    pub fn step_tui(&mut self) -> (r: bool)
        ensures
            r == (old(self).remaining >= old(self).interval),
            final(self).interval == old(self).interval,
            r ==> final(self).remaining == old(self).remaining - old(self).interval,
            !r ==> final(self).remaining == old(self).remaining,
    {
        if self.remaining < self.interval {
            return false;
        }
        self.remaining = self.remaining - self.interval;
        true
    }
}

/// Every poll the command line makes uses up time, so the polling ends.
pub proof fn lemma_cli_polling_ends(before: PollClock, after: PollClock)
    requires
        before.interval >= 1,
        before.remaining > 0,
        after.interval == before.interval,
        after.remaining == (if before.remaining > before.interval {
            before.remaining - before.interval
        } else {
            0
        }),
    ensures
        after.remaining < before.remaining,
{
}

/// How many polls the interface makes before giving up, starting with
/// `remaining` seconds of validity: each poll needs a whole interval left
/// and uses it up (what `PollClock::step_tui` does).
pub open spec fn tui_polls(remaining: u64, interval: u64) -> nat
    decreases remaining,
{
    if interval >= 1 && remaining >= interval {
        1 + tui_polls((remaining - interval) as u64, interval)
    } else {
        0
    }
}

/// The interface polls a device code floor(expires_in / interval) times
/// before it reports a time-out.
pub proof fn lemma_tui_poll_count(remaining: u64, interval: u64)
    requires
        interval >= 1,
    ensures
        tui_polls(remaining, interval) == remaining / interval,
    decreases remaining,
{
    if remaining >= interval {
        let r = (remaining - interval) as u64;
        lemma_tui_poll_count(r, interval);
        assert((remaining as int - interval as int) / (interval as int) + 1 == (remaining as int) / (interval as int))
            by (nonlinear_arith)
            requires
                remaining >= interval,
                interval >= 1,
        ;
    } else {
        assert((remaining as int) / (interval as int) == 0) by (nonlinear_arith)
            requires
                remaining < interval,
                interval >= 1,
        ;
    }
}

} // verus!
