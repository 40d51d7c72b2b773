use vstd::prelude::*;

verus! {

/// How many times in a row the panic loop sets (or clears) the LED before it
/// switches.
pub const BLINK_HALF_PERIOD: u32 = 1_000_000;

/// What the panic loop does to the LED in one step (each step is followed by
/// a `nop`).
#[derive(PartialEq, Eq, Structural, Clone, Copy, Debug)]
pub enum LedAction {
    TurnOn,
    TurnOff,
}

/// Where the panic loop stands: in the run that sets the LED (`lit`) or in
/// the run that clears it, with `count` steps of that run done.
#[derive(PartialEq, Eq, Structural, Clone, Copy, Debug)]
pub struct BlinkState {
    pub lit: bool,
    pub count: u32,
}

impl BlinkState {
    /// A run never holds more steps than `BLINK_HALF_PERIOD`.
    pub open spec fn wf(&self) -> bool {
        self.count < BLINK_HALF_PERIOD
    }
}

/// The state of the panic loop before its first step.
pub open spec fn blink_initial() -> BlinkState {
    BlinkState { lit: true, count: 0 }
}

/// One step of the panic loop: set the LED during the first run, clear it
/// during the second; after `BLINK_HALF_PERIOD` steps a run gives way to the
/// other.
pub open spec fn blink_next(s: BlinkState) -> (BlinkState, LedAction) {
    let action = if s.lit { LedAction::TurnOn } else { LedAction::TurnOff };
    if s.count + 1 == BLINK_HALF_PERIOD {
        (BlinkState { lit: !s.lit, count: 0 }, action)
    } else {
        (BlinkState { lit: s.lit, count: (s.count + 1) as u32 }, action)
    }
}

/// The state of the panic loop after `t` steps.
pub open spec fn blink_state_at(t: nat) -> BlinkState
    decreases t,
{
    if t == 0 {
        blink_initial()
    } else {
        blink_next(blink_state_at((t - 1) as nat)).0
    }
}

/// The state of the panic loop before its first step.
pub fn blink_start() -> (s: BlinkState)
    ensures
        s == blink_initial(),
        s.wf(),
{
    BlinkState { lit: true, count: 0 }
}

/// One step of the panic loop: what to do to the LED, and the state after.
pub fn blink_step(s: BlinkState) -> (r: (BlinkState, LedAction))
    requires
        s.wf(),
    ensures
        r == blink_next(s),
        r.0.wf(),
{
    let action = if s.lit {
        LedAction::TurnOn
    } else {
        LedAction::TurnOff
    };
    if s.count + 1 == BLINK_HALF_PERIOD {
        (BlinkState { lit: !s.lit, count: 0 }, action)
    } else {
        (BlinkState { lit: s.lit, count: s.count + 1 }, action)
    }
}

/// The panic loop blinks with a period of twice `BLINK_HALF_PERIOD` steps:
/// step `t` sets the LED exactly when `t` falls in the first half of its
/// period.
pub proof fn lemma_blink_schedule(t: nat)
    ensures
        blink_state_at(t) == (BlinkState {
            lit: t % (2 * BLINK_HALF_PERIOD as nat) < BLINK_HALF_PERIOD,
            count: (t % (BLINK_HALF_PERIOD as nat)) as u32,
        }),
        blink_next(blink_state_at(t)).1 == (if t % (2 * BLINK_HALF_PERIOD as nat)
            < BLINK_HALF_PERIOD {
            LedAction::TurnOn
        } else {
            LedAction::TurnOff
        }),
    decreases t,
{
    if t > 0 {
        lemma_blink_schedule((t - 1) as nat);
        let u = (t - 1) as int;
        let h = BLINK_HALF_PERIOD as int;
        let r = u % (2 * h);
        assert(u == (2 * h) * (u / (2 * h)) + r) by {
            vstd::arithmetic::div_mod::lemma_fundamental_div_mod(u, 2 * h);
        }
        assert(u % h == (if r < h { r } else { r - h })) by {
            vstd::arithmetic::div_mod::lemma_fundamental_div_mod(u, h);
        }
        assert((t as int) % (2 * h) == (if r + 1 == 2 * h { 0 } else { r + 1 })) by {
            vstd::arithmetic::div_mod::lemma_fundamental_div_mod(t as int, 2 * h);
        }
        assert((t as int) % h == (if r < h {
            if r + 1 == h { 0 } else { r + 1 }
        } else {
            if r + 1 == 2 * h { 0 } else { r + 1 - h }
        })) by {
            vstd::arithmetic::div_mod::lemma_fundamental_div_mod(t as int, h);
        }
    }
}

} // verus!
