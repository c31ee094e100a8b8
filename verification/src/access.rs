use crate::error::IndrasError;
use crate::keys::{key_eq, Key};
use vstd::prelude::*;

verus! {

/// `Ok(())` when no check failed, else the first failure.
pub open spec fn outcome(err: Option<IndrasError>) -> Result<(), IndrasError> {
    match err {
        Some(e) => Err(e),
        None => Ok(()),
    }
}

/// A member's role record: whose it is and which permission bits it grants.
#[derive(Clone, Copy, Debug)]
pub struct MemberRole {
    pub member: Key,
    pub role_mask: u64,
}

impl MemberRole {
    pub open spec fn grants(self, permission: u64) -> bool {
        self.role_mask & permission != 0
    }

    /// Whether the role grants the permission bit.
    pub fn has_permission(&self, permission: u64) -> (b: bool)
        ensures
            b == self.grants(permission),
    {
        self.role_mask & permission != 0
    }
}

/// Whether `user` holds `permission` through `role` (the role must be the
/// user's own and must grant the bit).
pub open spec fn role_allows(role: Option<MemberRole>, user: Key, permission: u64) -> bool {
    match role {
        Some(r) => r.member == user && r.grants(permission),
        None => false,
    }
}

/// Checks a role record for a user and a permission.
pub fn assert_role(role: &Option<MemberRole>, user: &Key, permission: u64) -> (r: Result<
    (),
    IndrasError,
>)
    ensures
        r == (if role_allows(*role, *user, permission) {
            Ok::<(), IndrasError>(())
        } else {
            Err(IndrasError::Unauthorized)
        }),
{
    match role {
        Some(rl) => {
            if key_eq(&rl.member, user) && rl.has_permission(permission) {
                Ok(())
            } else {
                Err(IndrasError::Unauthorized)
            }
        },
        None => Err(IndrasError::Unauthorized),
    }
}

/// The DAO configuration (current layout).
#[derive(Debug)]
pub struct DaoConfig {
    pub schema_version: u8,
    pub authority: Key,
    pub name: String,
    pub description: String,
    pub is_active: bool,
    pub dev_mode: bool,
    pub is_paused: bool,
    pub last_operation_timestamp: Option<i64>,
    pub operation_count: u64,
    pub execution_delay_seconds: i64,
    pub adaptive_security_enabled: bool,
    pub progressive_unlock_enabled: bool,
    pub behavioral_analysis_enabled: bool,
    pub created_at: i64,
    pub updated_at: Option<i64>,
    pub deactivated_at: Option<i64>,
    pub reactivated_at: Option<i64>,
    pub authority_transferred_at: Option<i64>,
    pub security_enhancement_count: u64,
    pub bump: u8,
}

/// Per-user rate limit record for one kind of operation.
#[derive(Debug)]
pub struct RateLimitTracker {
    pub user: Key,
    pub operation_type: String,
    pub last_operation_at: i64,
    pub operation_count: u64,
    pub window_start: i64,
    pub bump: u8,
}

impl RateLimitTracker {
    /// An operation at `now` is refused when an earlier one happened less
    /// than `window` seconds before.
    pub open spec fn too_soon(self, now: i64, window: i64) -> bool {
        self.last_operation_at != 0 && now - self.last_operation_at < window
    }

    /// The tracker after an operation at `now` was let through.
    pub open spec fn recorded(self, now: i64) -> RateLimitTracker {
        RateLimitTracker {
            last_operation_at: now,
            operation_count: if self.operation_count == u64::MAX {
                u64::MAX
            } else {
                (self.operation_count + 1) as u64
            },
            ..self
        }
    }

}

/// Whether the address is the all-zero default address.
pub open spec fn is_zero_key(k: Key) -> bool {
    forall|j: int| 0 <= j < 32 ==> k.bytes@[j] == 0u8
}

/// A tracker that was never used (its user is the zero address) is first
/// set up for `user` and this kind of operation.
pub open spec fn prepared_tracker(t: RateLimitTracker, user: Key, op: Seq<char>, now: i64) -> RateLimitTracker {
    if is_zero_key(t.user) {
        RateLimitTracker {
            user: user,
            operation_type: t.operation_type,
            last_operation_at: 0,
            operation_count: 0,
            window_start: now,
            bump: t.bump,
        }
    } else {
        t
    }
}

/// The operation-type text the prepared tracker carries.
pub open spec fn prepared_op_type(t: RateLimitTracker, op: Seq<char>) -> Seq<char> {
    if is_zero_key(t.user) {
        op
    } else {
        t.operation_type@
    }
}

/// The rate-limit decision for an operation by `user` at `now`: with a
/// tracker, at most one operation per window (the tracker after it is
/// returned); without one, only in dev mode.
pub open spec fn rate_limit_error(
    tracker: Option<&RateLimitTracker>,
    dev_mode: bool,
    user: Key,
    now: i64,
    window: i64,
) -> Option<IndrasError> {
    match tracker {
        Some(t) => if prepared_tracker(*t, user, Seq::empty(), now).too_soon(now, window) {
            Some(IndrasError::RateLimitExceeded)
        } else {
            None
        },
        None => if dev_mode {
            None
        } else {
            Some(IndrasError::AccountNotFound)
        },
    }
}

/// The tracker after an operation that passed the rate limit.
pub open spec fn tracker_after(t: RateLimitTracker, user: Key, now: i64) -> RateLimitTracker {
    prepared_tracker(t, user, Seq::empty(), now).recorded(now)
}

/// Applies the rate limit for an operation of kind `op` by `user` at `now`.
/// On success returns the tracker as it stands after the operation.
pub fn rate_limit_step(
    tracker: Option<&RateLimitTracker>,
    dev_mode: bool,
    user: &Key,
    op: &str,
    now: i64,
    window: i64,
) -> (r: Result<Option<RateLimitTracker>, IndrasError>)
    ensures
        r is Err <==> rate_limit_error(tracker, dev_mode, *user, now, window) is Some,
        r is Err ==> r == Err::<Option<RateLimitTracker>, IndrasError>(
            rate_limit_error(tracker, dev_mode, *user, now, window)->0,
        ),
        r matches Ok(n) ==> match tracker {
            None => n is None,
            Some(t) => n is Some && {
                let a = tracker_after(*t, *user, now);
                let b = n->0;
                &&& b.user == a.user
                &&& b.last_operation_at == a.last_operation_at
                &&& b.operation_count == a.operation_count
                &&& b.window_start == a.window_start
                &&& b.bump == a.bump
                &&& b.operation_type@ == prepared_op_type(*t, op@)
            },
        },
{
    match tracker {
        None => {
            if dev_mode {
                Ok(None)
            } else {
                Err(IndrasError::AccountNotFound)
            }
        },
        Some(t) => {
            let fresh = crate::keys::all_zero(&t.user.bytes);
            let (u, op_type, last, count, start) = if fresh {
                (*user, op.to_owned(), 0i64, 0u64, now)
            } else {
                (t.user, t.operation_type.clone(), t.last_operation_at, t.operation_count, t.window_start)
            };
            if last != 0 && (now as i128) - (last as i128) < (window as i128) {
                return Err(IndrasError::RateLimitExceeded);
            }
            Ok(
                Some(
                    RateLimitTracker {
                        user: u,
                        operation_type: op_type,
                        last_operation_at: now,
                        operation_count: count.saturating_add(1),
                        window_start: start,
                        bump: t.bump,
                    },
                ),
            )
        },
    }
}

/// At most one operation per window: once an operation by `user` at `now`
/// passed the rate limit, another by the same user less than `window`
/// seconds later (and after `now`) is refused.
pub proof fn second_operation_within_window_refused(
    t: RateLimitTracker,
    dev_mode: bool,
    user: Key,
    now: i64,
    later: i64,
    window: i64,
)
    requires
        rate_limit_error(Some(&t), dev_mode, user, now, window) is None,
        !is_zero_key(user),
        now != 0,
        now <= later,
        later - now < window,
    ensures
        rate_limit_error(Some(&tracker_after(t, user, now)), dev_mode, user, later, window)
            == Some(IndrasError::RateLimitExceeded),
{
    let a = tracker_after(t, user, now);
    assert(!is_zero_key(a.user));
    assert(prepared_tracker(a, user, Seq::empty(), later) == a);
}

} // verus!
