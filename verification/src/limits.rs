//! Memory and time limits of a user worker, and the heap-pressure bridge.

use vstd::prelude::*;

verus! {

/// Number of bytes in one mebibyte.
pub const BYTES_PER_MIB: u64 = 1_048_576;

/// Heap size, in mebibytes, that a user worker's engine starts with.
pub const INITIAL_HEAP_MIB: u64 = 1;

/// The number of bytes in `mib` mebibytes.
pub open spec fn mib_as_bytes(mib: int) -> int {
    mib * 1_048_576
}

/// The soft heap target, in mebibytes, granted once a worker has reached a
/// cap of `limit_mb`: the cap plus a quarter of it, rounded down.
pub open spec fn grace_mib(limit_mb: int) -> int {
    limit_mb + limit_mb / 4
}

/// Whether every byte count derived from a cap of `limit_mb` mebibytes fits
/// in 64 bits.
pub open spec fn limit_representable(limit_mb: int) -> bool {
    0 <= limit_mb && mib_as_bytes(grace_mib(limit_mb)) <= u64::MAX
}

/// Converts mebibytes to bytes.
pub fn mib_to_bytes(mib: u64) -> (bytes: u64)
    requires
        mib_as_bytes(mib as int) <= u64::MAX,
    ensures
        bytes == mib_as_bytes(mib as int),
{
    mib * BYTES_PER_MIB
}

/// Resource caps of a user worker.
#[derive(Clone, Copy, Debug, PartialEq, Eq, Structural)]
pub struct EdgeUserRuntimeOpts {
    /// Memory ceiling in mebibytes.
    pub memory_limit_mb: u64,
    /// Wall-clock limit in milliseconds; zero means no time limit.
    pub worker_timeout_ms: u64,
}

impl EdgeUserRuntimeOpts {
    /// The caps are usable when the memory ceiling and its grace allowance
    /// can be written as byte counts.
    pub open spec fn representable(&self) -> bool {
        limit_representable(self.memory_limit_mb as int)
    }

    /// Tests `representable`.
    pub fn is_representable(&self) -> (ok: bool)
        ensures
            ok == self.representable(),
    {
        let grace: u64 = match self.memory_limit_mb.checked_add(self.memory_limit_mb / 4) {
            Some(g) => g,
            None => { return false; },
        };
        grace <= u64::MAX / BYTES_PER_MIB
    }
}

/// Heap sizes that the engine of a user worker is created with.
#[derive(Clone, Copy, Debug, PartialEq, Eq, Structural)]
pub struct HeapLimits {
    /// Heap size at start, in bytes.
    pub initial_bytes: u64,
    /// Hard ceiling that the engine enforces by itself, in bytes.
    pub max_bytes: u64,
}

impl EdgeUserRuntimeOpts {
    /// The heap sizes that these caps ask for: one mebibyte at start, the
    /// configured cap as ceiling.
    pub open spec fn heap_limits_spec(&self) -> HeapLimits {
        HeapLimits {
            initial_bytes: mib_as_bytes(INITIAL_HEAP_MIB as int) as u64,
            max_bytes: mib_as_bytes(self.memory_limit_mb as int) as u64,
        }
    }

    /// Computes `heap_limits_spec`.
    pub fn heap_limits(&self) -> (limits: HeapLimits)
        requires
            self.representable(),
        ensures
            limits == self.heap_limits_spec(),
            limits.initial_bytes == 1_048_576,
            limits.max_bytes == self.memory_limit_mb * 1_048_576,
    {
        HeapLimits {
            initial_bytes: mib_to_bytes(INITIAL_HEAP_MIB),
            max_bytes: mib_to_bytes(self.memory_limit_mb),
        }
    }
}

/// What the heap-pressure bridge answers when the engine calls it.
#[derive(Clone, Copy, Debug, PartialEq, Eq, Structural)]
pub struct HeapPressureResponse {
    /// Byte count to send to the resource controller: the configured cap.
    pub notification_bytes: u64,
    /// Soft heap target to hand back to the engine.
    pub new_soft_limit_bytes: u64,
}

/// The engine's near-heap-limit callback of one user worker, as a function.
///
/// The bridge never halts anything. Each call raises the alarm and asks for
/// short-term headroom, so that the script can unwind while the resource
/// controller ends the run.
#[derive(Clone, Copy, Debug, PartialEq, Eq)]
pub struct HeapPressureBridge {
    memory_limit_mb: u64,
}

impl HeapPressureBridge {
    #[verifier::type_invariant]
    spec fn cap_is_representable(&self) -> bool {
        limit_representable(self.memory_limit_mb as int)
    }

    /// The bridge of a worker capped at `memory_limit_mb` mebibytes.
    pub closed spec fn with_limit(memory_limit_mb: u64) -> Self {
        HeapPressureBridge { memory_limit_mb }
    }

    /// The cap, in mebibytes, that the bridge was made for.
    pub closed spec fn limit_mb(&self) -> u64 {
        self.memory_limit_mb
    }

    /// What the bridge answers, whatever the engine reports.
    pub open spec fn response(&self) -> HeapPressureResponse {
        HeapPressureResponse {
            notification_bytes: mib_as_bytes(self.limit_mb() as int) as u64,
            new_soft_limit_bytes: mib_as_bytes(grace_mib(self.limit_mb() as int)) as u64,
        }
    }

    /// For a cap that can be written in bytes, the bridge notifies with the
    /// cap and grants the cap and a quarter, which is no less than the cap.
    pub proof fn lemma_response_for(memory_limit_mb: u64)
        requires
            limit_representable(memory_limit_mb as int),
        ensures
            Self::with_limit(memory_limit_mb).response().notification_bytes == memory_limit_mb
                * 1_048_576,
            Self::with_limit(memory_limit_mb).response().new_soft_limit_bytes == (memory_limit_mb
                + memory_limit_mb / 4) * 1_048_576,
            Self::with_limit(memory_limit_mb).response().new_soft_limit_bytes >= Self::with_limit(
                memory_limit_mb,
            ).response().notification_bytes,
    {
    }

    /// Makes the bridge of a worker capped at `memory_limit_mb` mebibytes.
    pub fn new(memory_limit_mb: u64) -> (bridge: Self)
        requires
            limit_representable(memory_limit_mb as int),
        ensures
            bridge == Self::with_limit(memory_limit_mb),
            bridge.limit_mb() == memory_limit_mb,
    {
        HeapPressureBridge { memory_limit_mb }
    }

    /// The cap that the bridge was made for, in mebibytes.
    pub fn memory_limit_mb(&self) -> (mb: u64)
        ensures
            mb == self.limit_mb(),
    {
        self.memory_limit_mb
    }

    /// Answers one call by the engine, which reports the heap size in use
    /// and the heap size it started with. The answer does not depend on
    /// either: the notification carries the configured cap in bytes, and the
    /// new soft target is the cap plus a quarter of it, the quarter taken in
    /// whole mebibytes.
    pub fn on_near_heap_limit(&self, current_bytes: u64, initial_bytes: u64) -> (answer:
        HeapPressureResponse)
        ensures
            answer == self.response(),
            answer.notification_bytes == self.limit_mb() * 1_048_576,
            answer.new_soft_limit_bytes == (self.limit_mb() + self.limit_mb() / 4) * 1_048_576,
            answer.new_soft_limit_bytes >= answer.notification_bytes,
    {
        proof {
            use_type_invariant(self);
        }
        let cap: u64 = self.memory_limit_mb;
        HeapPressureResponse {
            notification_bytes: mib_to_bytes(cap),
            new_soft_limit_bytes: mib_to_bytes(cap + cap / 4),
        }
    }
}

} // verus!
