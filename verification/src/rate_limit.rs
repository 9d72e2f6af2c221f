//! Rate limiting by sliding windows: a count per caller and kind of
//! operation, and a count per kind of operation for all callers together.

use vstd::prelude::*;
use crate::address::Address;
use crate::registry::{stored, Registry};

verus! {

#[derive(Clone, Copy, PartialEq, Eq, Debug, Structural)]
pub enum FunctionType {
    Deposit,
    Release,
    Refund,
    Remittance,
    Invoice,
}

/// A limit of `max_count` calls in any window of `interval`.
#[derive(Clone, Copy, PartialEq, Eq, Debug, Structural)]
pub struct RateLimitConfig {
    pub enabled: bool,
    pub max_count: u32,
    pub interval: u64,
}

/// The calls counted in the window that began at `window_start`.
#[derive(Clone, Copy, PartialEq, Eq, Debug, Structural)]
pub struct RateLimitEntry {
    pub last_call_time: u64,
    pub count: u32,
    pub window_start: u64,
}

/// The number of kinds of operation.
pub const FUNCTION_TYPES: usize = 5;

/// The limits in force and the calls counted so far. `user_limits` and
/// `global_counts` hold one entry for each kind of operation, in the order
/// of `FunctionType`.
#[derive(Clone, Debug, PartialEq, Eq)]
pub struct RateLimiter {
    pub config: Option<RateLimitConfig>,
    pub global_config: Option<RateLimitConfig>,
    pub exempt: Registry<Address, bool>,
    pub user_limits: Vec<Registry<Address, RateLimitEntry>>,
    pub global_counts: Vec<Option<RateLimitEntry>>,
}

/// The limiter as a value: each table as a map.
pub struct LimiterView {
    pub config: Option<RateLimitConfig>,
    pub global_config: Option<RateLimitConfig>,
    pub exempt: Map<Seq<char>, bool>,
    pub user_limits: Seq<Map<Seq<char>, RateLimitEntry>>,
    pub global_counts: Seq<Option<RateLimitEntry>>,
}

/// The place of a kind of operation in the lists of a limiter.
pub open spec fn place_of(function_type: FunctionType) -> int {
    match function_type {
        FunctionType::Deposit => 0,
        FunctionType::Release => 1,
        FunctionType::Refund => 2,
        FunctionType::Remittance => 3,
        FunctionType::Invoice => 4,
    }
}

/// The place of a kind of operation in the lists of a limiter.
pub fn function_index(function_type: FunctionType) -> (at: usize)
    ensures
        at == place_of(function_type),
        at < 5,
{
    match function_type {
        FunctionType::Deposit => 0,
        FunctionType::Release => 1,
        FunctionType::Refund => 2,
        FunctionType::Remittance => 3,
        FunctionType::Invoice => 4,
    }
}

/// The first call of a window that begins at `now`.
pub open spec fn first_call(now: u64) -> RateLimitEntry {
    RateLimitEntry { last_call_time: now, count: 1, window_start: now }
}

/// Whether the window of `entry` is over at `now`.
pub open spec fn window_over(entry: RateLimitEntry, config: RateLimitConfig, now: u64) -> bool {
    (if now >= entry.window_start {
        now - entry.window_start
    } else {
        0
    }) >= config.interval
}

/// The entry after a call at `now`, or `None` where the call is over the
/// limit: a first call, or a call after the window is over, opens a window;
/// a call within the window is counted unless the count has reached the
/// limit.
pub open spec fn counted(
    entry: Option<RateLimitEntry>,
    config: RateLimitConfig,
    now: u64,
) -> Option<
    RateLimitEntry,
> {
    match entry {
        None => Some(first_call(now)),
        Some(e) => if window_over(e, config, now) {
            Some(first_call(now))
        } else if e.count >= config.max_count {
            None
        } else {
            Some(RateLimitEntry { last_call_time: now, count: (e.count + 1) as u32, ..e })
        },
    }
}

/// Counts a call at `now` against `config`; `None` where it is over the
/// limit.
pub fn count_call(entry: Option<&RateLimitEntry>, config: &RateLimitConfig, now: u64) -> (r: Option<
    RateLimitEntry,
>)
    ensures
        r == counted(
            match entry {
                Some(e) => Some(*e),
                None => None,
            },
            *config,
            now,
        ),
{
    match entry {
        None => Some(RateLimitEntry { last_call_time: now, count: 1, window_start: now }),
        Some(e) => {
            if now.saturating_sub(e.window_start) >= config.interval {
                Some(RateLimitEntry { last_call_time: now, count: 1, window_start: now })
            } else if e.count >= config.max_count {
                None
            } else {
                Some(
                    RateLimitEntry {
                        last_call_time: now,
                        count: e.count + 1,
                        window_start: e.window_start,
                    },
                )
            }
        },
    }
}

impl LimiterView {
    /// Whether calls of `caller` are counted: a limit is configured and
    /// enabled, and `caller` is neither `admin` nor exempt.
    pub open spec fn limits(self, caller: Seq<char>, admin: Seq<char>) -> bool {
        &&& self.config matches Some(config) && config.enabled
        &&& caller != admin
        &&& stored(self.exempt, caller) != Some(true)
    }

    /// Whether a limit for all callers together is configured and enabled.
    pub open spec fn limits_globally(self) -> bool {
        self.global_config matches Some(config) && config.enabled
    }

    /// The limiter with `entry` counted for `caller` and `function_type`.
    pub open spec fn with_user_entry(
        self,
        caller: Seq<char>,
        function_type: FunctionType,
        entry: RateLimitEntry,
    ) -> LimiterView {
        LimiterView {
            user_limits: self.user_limits.update(
                place_of(function_type),
                self.user_limits[place_of(function_type)].insert(caller, entry),
            ),
            ..self
        }
    }

    /// The limiter with `entry` counted for `function_type` and all callers
    /// together.
    pub open spec fn with_global_entry(
        self,
        function_type: FunctionType,
        entry: RateLimitEntry,
    ) -> LimiterView {
        LimiterView {
            global_counts: self.global_counts.update(place_of(function_type), Some(entry)),
            ..self
        }
    }

    /// The entry counted for `caller` and `function_type` after a call at
    /// `now`, or `None` where the call is over the caller's limit.
    pub open spec fn user_step(
        self,
        caller: Seq<char>,
        function_type: FunctionType,
        now: u64,
    ) -> Option<
        RateLimitEntry,
    > {
        counted(
            stored(self.user_limits[place_of(function_type)], caller),
            self.config->0,
            now,
        )
    }

    /// The entry counted for `function_type` and all callers together after
    /// a call at `now`, or `None` where the call is over the global limit.
    pub open spec fn global_step(self, function_type: FunctionType, now: u64) -> Option<
        RateLimitEntry,
    > {
        counted(self.global_counts[place_of(function_type)], self.global_config->0, now)
    }

    /// Whether a call of `caller` at `now` is allowed.
    ///
    /// A caller whose calls are not counted is allowed. A counted call is
    /// refused where it is over the caller's limit, and then where it is
    /// over the global limit, if one is enabled.
    pub open spec fn allows(
        self,
        caller: Seq<char>,
        function_type: FunctionType,
        admin: Seq<char>,
        now: u64,
    ) -> bool {
        !self.limits(caller, admin) || (self.user_step(caller, function_type, now) is Some && (
        !self.limits_globally() || self.global_step(function_type, now) is Some))
    }

    /// The limiter after a call of `caller` at `now`.
    ///
    /// A call that is not counted, or that is over the caller's limit,
    /// leaves it as it was. Any other call is counted for the caller, and,
    /// unless it is over the global limit, for all callers together where a
    /// global limit is enabled.
    pub open spec fn after_call(
        self,
        caller: Seq<char>,
        function_type: FunctionType,
        admin: Seq<char>,
        now: u64,
    ) -> LimiterView {
        if !self.limits(caller, admin) {
            self
        } else {
            match self.user_step(caller, function_type, now) {
                None => self,
                Some(entry) => {
                    let counted = self.with_user_entry(caller, function_type, entry);
                    if !self.limits_globally() {
                        counted
                    } else {
                        match self.global_step(function_type, now) {
                            None => counted,
                            Some(global) => counted.with_global_entry(function_type, global),
                        }
                    }
                },
            }
        }
    }
}

impl View for RateLimiter {
    type V = LimiterView;

    open spec fn view(&self) -> LimiterView {
        LimiterView {
            config: self.config,
            global_config: self.global_config,
            exempt: self.exempt@,
            user_limits: self.user_limits@.map_values(
                |table: Registry<Address, RateLimitEntry>| table@,
            ),
            global_counts: self.global_counts@,
        }
    }
}

impl RateLimiter {
    /// Both lists hold an entry for each kind of operation, and every table
    /// is in order.
    pub open spec fn wf(&self) -> bool {
        &&& self.user_limits@.len() == 5
        &&& self.global_counts@.len() == 5
        &&& self.exempt.wf()
        &&& forall|i: int| 0 <= i < 5 ==> (#[trigger] self.user_limits@[i]).wf()
    }

    /// Whether the limiter is in order.
    pub fn is_well_formed(&self) -> (ok: bool)
        ensures
            ok == self.wf(),
    {
        if self.user_limits.len() != FUNCTION_TYPES || self.global_counts.len() != FUNCTION_TYPES
            || !self.exempt.is_well_formed() {
            return false;
        }
        let mut i: usize = 0;
        while i < FUNCTION_TYPES
            invariant
                i <= 5,
                self.user_limits@.len() == 5,
                forall|j: int| 0 <= j < i ==> (#[trigger] self.user_limits@[j]).wf(),
            decreases 5 - i,
        {
            if !self.user_limits[i].is_well_formed() {
                return false;
            }
            i = i + 1;
        }
        true
    }

    /// A limiter with no limits, no exemptions and no calls counted.
    pub fn new() -> (limiter: RateLimiter)
        ensures
            limiter.wf(),
            limiter.config is None,
            limiter.global_config is None,
            limiter.exempt@ == Map::<Seq<char>, bool>::empty(),
            forall|i: int|
                0 <= i < 5 ==> #[trigger] limiter@.user_limits[i] == Map::<
                    Seq<char>,
                    RateLimitEntry,
                >::empty(),
            forall|i: int| 0 <= i < 5 ==> #[trigger] limiter@.global_counts[i] is None,
    {
        let mut user_limits: Vec<Registry<Address, RateLimitEntry>> = Vec::new();
        let mut global_counts: Vec<Option<RateLimitEntry>> = Vec::new();
        let mut i: usize = 0;
        while i < FUNCTION_TYPES
            invariant
                i <= 5,
                user_limits@.len() == i,
                global_counts@.len() == i,
                forall|j: int|
                    0 <= j < i ==> (#[trigger] user_limits@[j]).wf() && user_limits@[j]@ == Map::<
                        Seq<char>,
                        RateLimitEntry,
                    >::empty(),
                forall|j: int| 0 <= j < i ==> #[trigger] global_counts@[j] is None,
            decreases 5 - i,
        {
            user_limits.push(Registry::new());
            global_counts.push(None);
            i = i + 1;
        }
        RateLimiter {
            config: None,
            global_config: None,
            exempt: Registry::new(),
            user_limits,
            global_counts,
        }
    }
}

/// Decides whether a call of `caller` at `now` is allowed, and counts it.
pub fn check_rate_limit(
    limiter: &mut RateLimiter,
    caller: &Address,
    function_type: FunctionType,
    admin: &Address,
    now: u64,
) -> (allowed: bool)
    requires
        old(limiter).wf(),
    ensures
        final(limiter).wf(),
        allowed == old(limiter)@.allows(caller@, function_type, admin@, now),
        final(limiter)@ == old(limiter)@.after_call(caller@, function_type, admin@, now),
{
    let config = match limiter.config {
        Some(config) => config,
        None => {
            return true;
        },
    };
    if !config.enabled {
        return true;
    }
    if caller.same_as(admin) {
        return true;
    }
    let exempt = match limiter.exempt.get(caller) {
        Some(flag) => *flag,
        None => false,
    };
    if exempt {
        return true;
    }
    let at = function_index(function_type);
    let ghost before = limiter@;
    let entry = match count_call(limiter.user_limits[at].get(caller), &config, now) {
        Some(entry) => entry,
        None => {
            return false;
        },
    };
    limiter.user_limits[at].set(caller.duplicate(), entry);
    proof {
        assert(limiter@.user_limits =~= before.with_user_entry(
            caller@,
            function_type,
            entry,
        ).user_limits);
    }
    match limiter.global_config {
        Some(global_config) => {
            if global_config.enabled {
                let counted = count_call(limiter.global_counts[at].as_ref(), &global_config, now);
                let global = match counted {
                    Some(global) => global,
                    None => {
                        return false;
                    },
                };
                limiter.global_counts[at] = Some(global);
                proof {
                    assert(limiter@.global_counts =~= before.with_user_entry(
                        caller@,
                        function_type,
                        entry,
                    ).with_global_entry(function_type, global).global_counts);
                }
            }
        },
        None => {},
    }
    true
}

/// Sets the limit for each caller.
pub fn set_config(limiter: &mut RateLimiter, config: RateLimitConfig)
    ensures
        final(limiter)@ == (LimiterView { config: Some(config), ..old(limiter)@ }),
        old(limiter).wf() ==> final(limiter).wf(),
{
    limiter.config = Some(config);
}

/// The limit for each caller, if one is set.
pub fn get_config(limiter: &RateLimiter) -> (config: Option<RateLimitConfig>)
    ensures
        config == limiter.config,
{
    limiter.config
}

/// Sets the limit for all callers together.
pub fn set_global_config(limiter: &mut RateLimiter, config: RateLimitConfig)
    ensures
        final(limiter)@ == (LimiterView { global_config: Some(config), ..old(limiter)@ }),
        old(limiter).wf() ==> final(limiter).wf(),
{
    limiter.global_config = Some(config);
}

/// The limit for all callers together, if one is set.
pub fn get_global_config(limiter: &RateLimiter) -> (config: Option<RateLimitConfig>)
    ensures
        config == limiter.global_config,
{
    limiter.global_config
}

/// Records whether `address` is exempt from rate limiting.
pub fn set_exemption(limiter: &mut RateLimiter, address: &Address, exempt: bool)
    requires
        old(limiter).wf(),
    ensures
        final(limiter).wf(),
        final(limiter)@ == (LimiterView {
            exempt: old(limiter)@.exempt.insert(address@, exempt),
            ..old(limiter)@
        }),
{
    limiter.exempt.set(address.duplicate(), exempt);
}

/// Whether `address` is exempt from rate limiting.
pub fn is_exempt(limiter: &RateLimiter, address: &Address) -> (exempt: bool)
    requires
        limiter.wf(),
    ensures
        exempt == (stored(limiter@.exempt, address@) == Some(true)),
{
    match limiter.exempt.get(address) {
        Some(flag) => *flag,
        None => false,
    }
}

} // verus!
