//! Properties of the limiter, the block records and the login sequence,
//! stated over the same spec functions as the operations' contracts.
use vstd::prelude::*;
use crate::limiter::{auto_block_reason, block_expiry, cutoff, ratio, sat_add, LimiterConfig};
use crate::login::login_verdict;
use crate::store::{
    auto_blocked, block_status, block_written, check_outcome, cleared, lemma_live_count_bound, live_count, unblocked,
    Attempt, BlockedIpInfo, CounterStore,
};

verus! {

/// No entry of `key` counts when all of them are older than `from`.
proof fn lemma_count_zero(log: Seq<Attempt>, key: Seq<char>, from: u64)
    requires
        forall|i: int| 0 <= i < log.len() && (#[trigger] log[i]).key@ == key ==> log[i].at < from,
    ensures
        live_count(log, key, from) == 0,
    decreases log.len(),
{
    if log.len() > 0 {
        let rest = log.drop_last();
        assert forall|i: int| 0 <= i < rest.len() && (#[trigger] rest[i]).key@ == key implies rest[i].at < from by {
            assert(rest[i] == log[i]);
        }
        lemma_count_zero(rest, key, from);
        assert(log.last() == log[log.len() - 1]);
    }
}

proof fn lemma_unblocked_status(blocks: Seq<BlockedIpInfo>, ip: Seq<char>, t: u64)
    ensures
        block_status(unblocked(blocks, ip), ip, t) is None,
    decreases blocks.len(),
{
    if blocks.len() > 0 {
        lemma_unblocked_status(blocks.drop_last(), ip, t);
        let rest = unblocked(blocks.drop_last(), ip);
        if blocks.last().ip@ != ip {
            assert(rest.push(blocks.last()).drop_last() =~= rest);
        }
    }
}

/// Once the IP axis holds at least `ip_limit` attempts inside its window, a
/// check rejects; so does a check once the username axis holds at least
/// `user_limit`, whatever the other axis holds.
pub proof fn lemma_either_axis_rejects(
    cfg: LimiterConfig,
    s: CounterStore,
    ip: Seq<char>,
    user: Seq<char>,
    now: u64,
)
    requires
        s.ip_attempts@.len() <= usize::MAX,
        s.user_attempts@.len() <= usize::MAX,
        live_count(s.ip_attempts@, ip, cutoff(now, cfg.ip_window_seconds)) >= cfg.ip_limit
            || live_count(s.user_attempts@, user, cutoff(now, cfg.user_window_seconds)) >= cfg.user_limit,
    ensures
        !check_outcome(cfg, s, ip, Some(user), now).allowed,
{
    lemma_live_count_bound(s.ip_attempts@, ip, cutoff(now, cfg.ip_window_seconds));
    lemma_live_count_bound(s.user_attempts@, user, cutoff(now, cfg.user_window_seconds));
}

/// Once every recorded attempt of the IP and of the username is older than
/// its axis's window, an IP that is not blocked is let through.
pub proof fn lemma_window_elapsed_allows(
    cfg: LimiterConfig,
    s: CounterStore,
    ip: Seq<char>,
    user: Seq<char>,
    last: u64,
    now: u64,
)
    requires
        cfg.ip_limit > 0,
        cfg.user_limit > 0,
        block_status(s.blocks@, ip, now) is None,
        forall|i: int| 0 <= i < s.ip_attempts@.len() && (#[trigger] s.ip_attempts@[i]).key@ == ip
            ==> s.ip_attempts@[i].at <= last,
        forall|i: int| 0 <= i < s.user_attempts@.len() && (#[trigger] s.user_attempts@[i]).key@ == user
            ==> s.user_attempts@[i].at <= last,
        now > last + cfg.ip_window_seconds,
        now > last + cfg.user_window_seconds,
    ensures
        check_outcome(cfg, s, ip, Some(user), now).allowed,
{
    lemma_count_zero(s.ip_attempts@, ip, cutoff(now, cfg.ip_window_seconds));
    lemma_count_zero(s.user_attempts@, user, cutoff(now, cfg.user_window_seconds));
}

/// After the entries of a key are cleared, its count is zero, and each later
/// failure adds exactly one.
pub proof fn lemma_clear_restarts_count(log: Seq<Attempt>, key: Seq<char>, from: u64, a: Attempt)
    requires
        a.key@ == key,
        a.at >= from,
    ensures
        live_count(cleared(log, key), key, from) == 0,
        live_count(cleared(log, key).push(a), key, from) == 1,
    decreases log.len(),
{
    if log.len() > 0 {
        lemma_clear_restarts_count(log.drop_last(), key, from, a);
        let rest = cleared(log.drop_last(), key);
        if log.last().key@ != key {
            assert(rest.push(log.last()).drop_last() =~= rest);
        }
    }
    let c = cleared(log, key);
    assert(c.push(a).drop_last() =~= c);
    assert(c.push(a).last() == a);
    assert(live_count(c.push(a), key, from) == live_count(c, key, from) + 1);
}

/// A blocked IP is rejected by every check, whatever its counts, and every
/// login attempt from it ends blocked, whatever the credentials.
pub proof fn lemma_block_precedence(
    cfg: LimiterConfig,
    s: CounterStore,
    ip: Seq<char>,
    user: Option<Seq<char>>,
    username: Seq<char>,
    credentials_valid: bool,
    now: u64,
)
    requires
        s.available,
        block_status(s.blocks@, ip, now) is Some,
    ensures
        !check_outcome(cfg, s, ip, user, now).allowed,
        login_verdict(cfg, s, ip, username, credentials_valid, now) is Blocked,
{
}

/// A freshly written block record decides the IP's status alone: it holds
/// until its expiry, for good where it has none, and nothing holds after.
pub proof fn lemma_block_record_status(
    before: Seq<BlockedIpInfo>,
    after: Seq<BlockedIpInfo>,
    ip: Seq<char>,
    reason: Seq<char>,
    n: u64,
    expires_at: Option<u64>,
    now: u64,
    t: u64,
)
    requires
        block_written(before, after, ip, reason, n, expires_at, now),
    ensures
        expires_at is None ==> block_status(after, ip, t) == Some(true),
        expires_at matches Some(e) && t < e ==> block_status(after, ip, t) == Some(false),
        expires_at matches Some(e) && t >= e ==> block_status(after, ip, t) is None,
{
    lemma_unblocked_status(before, ip, t);
    assert(after.drop_last() == unblocked(before, ip));
}

/// `block(ip, reason, permanent = true)` leaves the IP blocked at every later
/// moment; `permanent = false` with a 24-hour duration leaves it blocked for
/// 24 hours and unblocked from then on.
pub proof fn lemma_permanent_vs_temporary(
    cfg: LimiterConfig,
    before: Seq<BlockedIpInfo>,
    after: Seq<BlockedIpInfo>,
    ip: Seq<char>,
    reason: Seq<char>,
    n: u64,
    permanent: bool,
    now: u64,
    t: u64,
)
    requires
        block_written(before, after, ip, reason, n, block_expiry(cfg, permanent, now), now),
        now + 86400 <= u64::MAX,
    ensures
        permanent ==> block_status(after, ip, t) == Some(true),
        !permanent && cfg.block_duration_hours == 24 && now <= t < now + 86400 ==> block_status(after, ip, t)
            == Some(false),
        !permanent && cfg.block_duration_hours == 24 && t >= now + 86400 ==> block_status(after, ip, t) is None,
{
    lemma_block_record_status(before, after, ip, reason, n, block_expiry(cfg, permanent, now), now, t);
}

/// With the store unreachable, good credentials still log in and bad ones
/// are still rejected as bad credentials.
pub proof fn lemma_fail_open(
    cfg: LimiterConfig,
    s: CounterStore,
    ip: Seq<char>,
    username: Seq<char>,
    credentials_valid: bool,
    now: u64,
)
    requires
        !s.available,
    ensures
        credentials_valid ==> login_verdict(cfg, s, ip, username, credentials_valid, now) is Granted,
        !credentials_valid ==> login_verdict(cfg, s, ip, username, credentials_valid, now) is Rejected,
{
}

/// Failures recorded for a key inside the window each add one to its count:
/// after `extra` is appended, the count has grown by `extra`'s length.
pub proof fn lemma_failures_accumulate(log: Seq<Attempt>, extra: Seq<Attempt>, key: Seq<char>, from: u64)
    requires
        forall|i: int| 0 <= i < extra.len() ==> (#[trigger] extra[i]).key@ == key && extra[i].at >= from,
    ensures
        live_count(log + extra, key, from) == live_count(log, key, from) + extra.len(),
    decreases extra.len(),
{
    if extra.len() == 0 {
        assert(log + extra =~= log);
    } else {
        let rest = extra.drop_last();
        assert forall|i: int| 0 <= i < rest.len() implies (#[trigger] rest[i]).key@ == key && rest[i].at >= from by {
            assert(rest[i] == extra[i]);
        }
        lemma_failures_accumulate(log, rest, key, from);
        assert((log + extra).drop_last() =~= log + rest);
        assert((log + extra).last() == extra[extra.len() - 1]);
    }
}

/// An IP over its limit with a username under its own is rejected for the
/// IP alone: the reason names the IP axis with its count, and the lockout is
/// the IP window.
pub proof fn lemma_ip_axis_named(cfg: LimiterConfig, s: CounterStore, ip: Seq<char>, user: Seq<char>, now: u64)
    requires
        s.ip_attempts@.len() <= usize::MAX,
        s.user_attempts@.len() <= usize::MAX,
        block_status(s.blocks@, ip, now) is None,
        live_count(s.ip_attempts@, ip, cutoff(now, cfg.ip_window_seconds)) >= cfg.ip_limit,
        live_count(s.user_attempts@, user, cutoff(now, cfg.user_window_seconds)) < cfg.user_limit,
    ensures
        ({
            let out = check_outcome(cfg, s, ip, Some(user), now);
            &&& !out.allowed
            &&& out.reason == Some(
                "Too many login attempts from this IP "@ + ratio(
                    live_count(s.ip_attempts@, ip, cutoff(now, cfg.ip_window_seconds)) as u64,
                    cfg.ip_limit,
                ),
            )
            &&& out.lockout_seconds == Some(cfg.ip_window_seconds)
            &&& out.reset_time == sat_add(now, cfg.ip_window_seconds)
        }),
{
    lemma_live_count_bound(s.ip_attempts@, ip, cutoff(now, cfg.ip_window_seconds));
    lemma_live_count_bound(s.user_attempts@, user, cutoff(now, cfg.user_window_seconds));
}

/// The failure that brings the IP axis to the block threshold blocks the IP
/// with a temporary record: it names the count, and it holds from `now` for
/// the configured duration and no longer.
pub proof fn lemma_threshold_blocks(
    cfg: LimiterConfig,
    before: Seq<BlockedIpInfo>,
    after: Seq<BlockedIpInfo>,
    log: Seq<Attempt>,
    ip: Seq<char>,
    now: u64,
    t: u64,
)
    requires
        auto_blocked(cfg, before, after, log, ip, now),
        log.len() <= usize::MAX,
        live_count(log, ip, cutoff(now, cfg.ip_window_seconds)) >= cfg.block_threshold,
        cfg.block_duration_hours > 0,
        now + cfg.block_duration_hours * 3600 <= u64::MAX,
    ensures
        ({
            let n = live_count(log, ip, cutoff(now, cfg.ip_window_seconds)) as u64;
            &&& after.last().reason@ == auto_block_reason(n)
            &&& after.last().attempt_count == n
            &&& after.last().expires_at == Some((now + cfg.block_duration_hours * 3600) as u64)
        }),
        now <= t < now + cfg.block_duration_hours * 3600 ==> block_status(after, ip, t) == Some(false),
        t >= now + cfg.block_duration_hours * 3600 ==> block_status(after, ip, t) is None,
{
    lemma_live_count_bound(log, ip, cutoff(now, cfg.ip_window_seconds));
    let n = live_count(log, ip, cutoff(now, cfg.ip_window_seconds)) as u64;
    lemma_block_record_status(before, after, ip, auto_block_reason(n), n, block_expiry(cfg, false, now), now, t);
}

/// After a successful login clears a key, the failures recorded next are all
/// that count: `k` of them inside the window give a count of exactly `k`.
pub proof fn lemma_count_after_clear(log: Seq<Attempt>, extra: Seq<Attempt>, key: Seq<char>, from: u64)
    requires
        forall|i: int| 0 <= i < extra.len() ==> (#[trigger] extra[i]).key@ == key && extra[i].at >= from,
    ensures
        live_count(cleared(log, key) + extra, key, from) == extra.len(),
{
    lemma_failures_accumulate(cleared(log, key), extra, key, from);
    lemma_cleared_zero(log, key, from);
}

proof fn lemma_cleared_zero(log: Seq<Attempt>, key: Seq<char>, from: u64)
    ensures
        live_count(cleared(log, key), key, from) == 0,
    decreases log.len(),
{
    if log.len() > 0 {
        lemma_cleared_zero(log.drop_last(), key, from);
        let rest = cleared(log.drop_last(), key);
        if log.last().key@ != key {
            assert(rest.push(log.last()).drop_last() =~= rest);
        }
    }
}

} // verus!
