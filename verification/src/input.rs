use vstd::prelude::*;

verus! {

/// Largest magnitude of a single scroll-wheel event, in milli
/// (1000 zoom units per event).
pub const SCROLL_EVENT_MAX: i64 = 1_000_000;

/// Largest number of scroll-wheel events a single frame can carry.
pub const SCROLL_COUNT_MAX: usize = 1_000_000;

/// Largest magnitude of a frame's summed scroll delta:
/// `SCROLL_COUNT_MAX * SCROLL_EVENT_MAX`, in milli.
pub const SCROLL_TOTAL_MAX: i64 = 1_000_000_000_000;

/// Snapshot of the fixed key set consulted each frame: the four direction
/// keys, the sprint modifier and the exit key. Absent input devices are a
/// snapshot with every key released.
#[derive(Clone, Copy, Debug, PartialEq, Eq, Structural)]
pub struct KeyState {
    pub left: bool,
    pub right: bool,
    pub up: bool,
    pub down: bool,
    pub sprint: bool,
    pub exit: bool,
}

impl KeyState {
    /// The neutral snapshot: no key held.
    pub fn released() -> (k: KeyState)
        ensures
            k == (KeyState { left: false, right: false, up: false, down: false, sprint: false, exit: false }),
    {
        KeyState { left: false, right: false, up: false, down: false, sprint: false, exit: false }
    }
}

/// Normalized per-frame input: recomputed from scratch every tick, consumed
/// by the same tick, never accumulated across frames.
#[derive(Clone, Copy, Debug, PartialEq, Eq, Structural)]
pub struct InputIntent {
    /// Horizontal heading, in {-1, 0, +1}.
    pub dir_x: i8,
    /// Vertical heading, in {-1, 0, +1}; positive is up.
    pub dir_y: i8,
    /// The sprint modifier is held this frame.
    pub sprint: bool,
    /// Sum of the frame's scroll-wheel events, in milli.
    pub scroll_delta_milli: i64,
    /// The exit key is held; the lifecycle collaborator should stop the loop.
    pub exit_requested: bool,
}

impl InputIntent {
    /// Both headings are unit axis values.
    pub open spec fn wf(self) -> bool {
        -1 <= self.dir_x <= 1 && -1 <= self.dir_y <= 1
    }
}

/// Heading of one axis from its two keys. Each key is read by its own
/// conditional, the negative key first, so when both keys are held the
/// positive key overrides: an artifact of the sequential reads, preserved
/// as observed behavior.
pub open spec fn axis_value(negative: bool, positive: bool) -> i8 {
    if positive {
        1i8
    } else if negative {
        -1i8
    } else {
        0i8
    }
}

/// Sum of a frame's scroll-wheel events, in milli.
pub open spec fn sum_scroll(s: Seq<i64>) -> int
    decreases s.len(),
{
    if s.len() == 0 {
        0
    } else {
        sum_scroll(s.drop_last()) + s.last()
    }
}

/// Input mapper: turn the frame's key snapshot and scroll events into one
/// normalized intent. Direction axes follow the positive-key-overrides rule
/// of `axis_value`; the scroll delta is the sum of every event received since
/// the previous frame (there may be zero, one, or many); sprint and exit are
/// re-read every frame, never latched.
pub fn map_input(keys: &KeyState, scrolls: &Vec<i64>) -> (intent: InputIntent)
    requires
        scrolls@.len() <= SCROLL_COUNT_MAX,
        forall|i: int| 0 <= i < scrolls@.len()
            ==> -SCROLL_EVENT_MAX <= #[trigger] scrolls@[i] <= SCROLL_EVENT_MAX,
    ensures
        intent.dir_x == axis_value(keys.left, keys.right),
        intent.dir_y == axis_value(keys.down, keys.up),
        intent.sprint == keys.sprint,
        intent.exit_requested == keys.exit,
        intent.scroll_delta_milli == sum_scroll(scrolls@),
        -SCROLL_TOTAL_MAX <= intent.scroll_delta_milli <= SCROLL_TOTAL_MAX,
        intent.wf(),
{
    let mut dir_x: i8 = 0;
    let mut dir_y: i8 = 0;
    if keys.left {
        dir_x = -1;
    }
    if keys.right {
        dir_x = 1;
    }
    if keys.down {
        dir_y = -1;
    }
    if keys.up {
        dir_y = 1;
    }

    let mut total: i64 = 0;
    let mut idx: usize = 0;
    while idx < scrolls.len()
        invariant
            idx <= scrolls@.len(),
            scrolls@.len() <= SCROLL_COUNT_MAX,
            forall|i: int| 0 <= i < scrolls@.len()
                ==> -SCROLL_EVENT_MAX <= #[trigger] scrolls@[i] <= SCROLL_EVENT_MAX,
            total == sum_scroll(scrolls@.subrange(0, idx as int)),
            -(idx as int) * SCROLL_EVENT_MAX <= total <= (idx as int) * SCROLL_EVENT_MAX,
        decreases scrolls@.len() - idx,
    {
        proof {
            let s = scrolls@;
            assert(s.subrange(0, idx as int + 1).drop_last() =~= s.subrange(0, idx as int));
        }
        total = total + scrolls[idx];
        idx = idx + 1;
    }
    proof {
        assert(scrolls@.subrange(0, scrolls@.len() as int) =~= scrolls@);
    }

    InputIntent {
        dir_x,
        dir_y,
        sprint: keys.sprint,
        scroll_delta_milli: total,
        exit_requested: keys.exit,
    }
}

} // verus!
