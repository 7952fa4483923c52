//! Command classification and the single-event scheduling state machine.
//!
//! A command carries one signed double-precision delay value. The library
//! never touches floating-point arithmetic: a delay is represented by its
//! IEEE 754 binary64 bit pattern, a plain `u64`, from which the three
//! command classes (cancel, schedule, invalid) are decided exactly.

use vstd::prelude::*;
use vstd::string::StringExecFns;

verus! {

/// Bit pattern of the IEEE 754 binary64 value -1.0, the cancel sentinel.
/// No other bit pattern compares equal to -1.0.
pub const CANCEL_BITS: u64 = 0xBFF0_0000_0000_0000;

/// Bit pattern of the IEEE 754 binary64 value -0.0, which satisfies
/// `-0.0 >= 0.0` despite its sign bit being set.
pub const NEG_ZERO_BITS: u64 = 0x8000_0000_0000_0000;

/// A binary64 value is NaN when its exponent field is all ones and its
/// mantissa field is nonzero.
pub open spec fn spec_is_nan(bits: u64) -> bool {
    (bits >> 52) & 0x7FF == 0x7FF && bits & 0x000F_FFFF_FFFF_FFFF != 0
}

/// A binary64 value compares `>= 0.0` exactly when it is not NaN and
/// either its sign bit is clear or it is negative zero.
pub open spec fn spec_is_nonnegative(bits: u64) -> bool {
    !spec_is_nan(bits) && (bits >> 63 == 0 || bits == NEG_ZERO_BITS)
}

/// The three semantic classes of a delay value.
#[derive(PartialEq, Eq, Structural, Clone, Copy, Debug)]
pub enum Classification {
    /// The delay is exactly -1.0: cancel any pending fire event.
    Cancel,
    /// The delay compares `>= 0.0`: schedule a fire event.
    Schedule,
    /// Any other delay (negative and not exactly -1.0, or NaN): rejected.
    Invalid,
}

/// How a delay value, given by its bit pattern, is classified.
pub open spec fn class_of(bits: u64) -> Classification {
    if bits == CANCEL_BITS {
        Classification::Cancel
    } else if spec_is_nonnegative(bits) {
        Classification::Schedule
    } else {
        Classification::Invalid
    }
}

/// Decides whether a binary64 bit pattern denotes a value `>= 0.0`.
pub fn is_nonnegative(bits: u64) -> (r: bool)
    ensures
        r == spec_is_nonnegative(bits),
{
    let nan = (bits >> 52) & 0x7FF == 0x7FF && bits & 0x000F_FFFF_FFFF_FFFF != 0;
    !nan && (bits >> 63 == 0 || bits == NEG_ZERO_BITS)
}

/// Classifies a delay value given by its binary64 bit pattern.
pub fn classify(bits: u64) -> (c: Classification)
    ensures
        c == class_of(bits),
{
    if bits == CANCEL_BITS {
        Classification::Cancel
    } else if is_nonnegative(bits) {
        Classification::Schedule
    } else {
        Classification::Invalid
    }
}

/// A command received over the wire: one delay value, held as the bit
/// pattern of the IEEE 754 binary64 number the sender wrote.
#[derive(PartialEq, Eq, Structural, Clone, Copy, Debug)]
pub struct Command(pub u64);

/// The scheduler's state: either no pending fire event, or one armed
/// deadline, an absolute monotonic-clock instant in nanoseconds.
#[derive(PartialEq, Eq, Structural, Clone, Copy, Debug)]
pub enum SchedState {
    Idle,
    Armed(u64),
}

/// One telemetry message: a short tag and a human-readable payload.
pub struct TelemetryMsg {
    pub tag: String,
    pub payload: String,
}

impl View for TelemetryMsg {
    type V = (Seq<char>, Seq<char>);

    open spec fn view(&self) -> (Seq<char>, Seq<char>) {
        (self.tag@, self.payload@)
    }
}

/// The message emitted when a pending fire event is cancelled.
pub open spec fn cancel_msg() -> (Seq<char>, Seq<char>) {
    ("cancelled"@, "Cancelled fire command"@)
}

/// The message emitted when a fire event is scheduled; `rendered` is the
/// delay written with two decimal places.
pub open spec fn scheduled_msg(rendered: Seq<char>) -> (Seq<char>, Seq<char>) {
    ("scheduled"@, "Scheduled fire in "@ + rendered + "s"@)
}

/// The message emitted when a delay value is rejected; `rendered` is the
/// rejected value written out literally.
pub open spec fn invalid_msg(rendered: Seq<char>) -> (Seq<char>, Seq<char>) {
    ("invalid"@, "Invalid delay value: "@ + rendered)
}

/// The message emitted when an armed deadline is reached.
pub open spec fn fired_msg() -> (Seq<char>, Seq<char>) {
    ("fired"@, "Firing propulsion now!"@)
}

/// Addition on `u64` that stops at the largest representable value, used
/// to turn "now plus delay" into an absolute deadline.
pub open spec fn sat_add(a: u64, b: u64) -> u64 {
    if a + b > u64::MAX {
        u64::MAX
    } else {
        (a + b) as u64
    }
}

/// Everything a single command brings to the state machine besides the
/// scheduler's own state: the delay's bit pattern, the clock reading at
/// arrival, the delay converted to nanoseconds, and the delay's two text
/// renderings (two decimal places, and the literal value).
pub ghost struct CmdInput {
    pub bits: u64,
    pub now: u64,
    pub delay_nanos: u64,
    pub rendered_two: Seq<char>,
    pub rendered_plain: Seq<char>,
}

/// The state machine's transition for one command: the successor state and
/// the one telemetry message the transition emits.
pub open spec fn handle_transition(s: SchedState, c: CmdInput) -> (SchedState, (Seq<char>, Seq<char>)) {
    match class_of(c.bits) {
        Classification::Cancel => (SchedState::Idle, cancel_msg()),
        Classification::Schedule => (
            SchedState::Armed(sat_add(c.now, c.delay_nanos)),
            scheduled_msg(c.rendered_two),
        ),
        Classification::Invalid => (s, invalid_msg(c.rendered_plain)),
    }
}

/// The evaluator's transition for one tick at clock reading `now`: fires
/// exactly when a deadline is armed and has been reached.
pub open spec fn tick_transition(s: SchedState, now: u64) -> (SchedState, Option<(Seq<char>, Seq<char>)>) {
    match s {
        SchedState::Armed(deadline) => {
            if now >= deadline {
                (SchedState::Idle, Some(fired_msg()))
            } else {
                (s, None)
            }
        },
        SchedState::Idle => (s, None),
    }
}

/// Processes commands and evaluator ticks, tracking the one optional
/// scheduled fire deadline.
pub struct CommandProcessor {
    /// The monotonic-clock instant, in nanoseconds, at which the propulsion
    /// is scheduled to fire, if any.
    scheduled_fire: Option<u64>,
}

impl CommandProcessor {
    /// The abstract state-machine state this processor is in.
    pub closed spec fn state(&self) -> SchedState {
        match self.scheduled_fire {
            None => SchedState::Idle,
            Some(deadline) => SchedState::Armed(deadline),
        }
    }

    /// The pending fire deadline in nanoseconds, if one is armed.
    pub fn current_deadline(&self) -> (r: Option<u64>)
        ensures
            r is None <==> self.state() == SchedState::Idle,
            r matches Some(deadline) ==> self.state() == SchedState::Armed(deadline),
    {
        self.scheduled_fire
    }

    /// Creates a new processor with no pending fire event.
    pub fn new() -> (p: CommandProcessor)
        ensures
            p.state() == SchedState::Idle,
    {
        CommandProcessor { scheduled_fire: None }
    }

    /// Cancels any scheduled propulsion event; a redundant cancel is not an
    /// error and emits the same message.
    pub fn cancel(&mut self) -> (msg: TelemetryMsg)
        ensures
            final(self).state() == SchedState::Idle,
            msg@ == cancel_msg(),
    {
        self.scheduled_fire = None;
        TelemetryMsg { tag: "cancelled".to_owned(), payload: "Cancelled fire command".to_owned() }
    }

    /// Arms the fire deadline `delay_nanos` nanoseconds after `now_nanos`,
    /// discarding any prior deadline. `rendered_two` is the delay written
    /// with two decimal places, quoted in the emitted message.
    pub fn schedule(&mut self, now_nanos: u64, delay_nanos: u64, rendered_two: &str) -> (msg: TelemetryMsg)
        ensures
            final(self).state() == SchedState::Armed(sat_add(now_nanos, delay_nanos)),
            msg@ == scheduled_msg(rendered_two@),
    {
        let when = if delay_nanos <= u64::MAX - now_nanos {
            now_nanos + delay_nanos
        } else {
            u64::MAX
        };
        self.scheduled_fire = Some(when);
        let mut payload = "Scheduled fire in ".to_owned();
        payload.append(rendered_two);
        payload.append("s");
        TelemetryMsg { tag: "scheduled".to_owned(), payload }
    }

    /// Reports a rejected delay value without touching the state.
    /// `rendered_plain` is the rejected value written out literally.
    pub fn invalid(&self, rendered_plain: &str) -> (msg: TelemetryMsg)
        ensures
            msg@ == invalid_msg(rendered_plain@),
    {
        let mut payload = "Invalid delay value: ".to_owned();
        payload.append(rendered_plain);
        TelemetryMsg { tag: "invalid".to_owned(), payload }
    }

    /// Handles one incoming command: cancels, schedules or rejects it
    /// according to the delay's class, and returns the one telemetry
    /// message the transition emits.
    ///
    /// The caller supplies the clock reading `now_nanos`, the delay
    /// converted to nanoseconds (meaningful only for a scheduling command),
    /// and the delay's two text renderings.
    pub fn handle(
        &mut self,
        cmd: Command,
        now_nanos: u64,
        delay_nanos: u64,
        rendered_two: &str,
        rendered_plain: &str,
    ) -> (msg: TelemetryMsg)
        ensures
            ({
                let c = CmdInput {
                    bits: cmd.0,
                    now: now_nanos,
                    delay_nanos,
                    rendered_two: rendered_two@,
                    rendered_plain: rendered_plain@,
                };
                final(self).state() == handle_transition(old(self).state(), c).0
                    && msg@ == handle_transition(old(self).state(), c).1
            }),
    {
        match classify(cmd.0) {
            Classification::Cancel => self.cancel(),
            Classification::Schedule => self.schedule(now_nanos, delay_nanos, rendered_two),
            Classification::Invalid => self.invalid(rendered_plain),
        }
    }

    /// One evaluator tick: if a deadline is armed and `now_nanos` has
    /// reached it, disarms and returns the fire message; otherwise returns
    /// nothing and leaves the state unchanged. Disarming and firing are one
    /// step, so a deadline fires at most once.
    pub fn tick(&mut self, now_nanos: u64) -> (msg: Option<TelemetryMsg>)
        ensures
            final(self).state() == tick_transition(old(self).state(), now_nanos).0,
            msg matches Some(m) ==> tick_transition(old(self).state(), now_nanos).1 == Some(m@),
            msg is None ==> tick_transition(old(self).state(), now_nanos).1 is None,
    {
        match self.scheduled_fire {
            Some(when) => {
                if now_nanos >= when {
                    self.scheduled_fire = None;
                    Some(TelemetryMsg {
                        tag: "fired".to_owned(),
                        payload: "Firing propulsion now!".to_owned(),
                    })
                } else {
                    None
                }
            },
            None => None,
        }
    }
}

/// A cancel command always lands in `Idle` and emits exactly the one
/// "cancelled" message, whatever the prior state; and a second cancel from
/// there does the same, so a redundant cancel is not an error.
pub proof fn lemma_cancel_idempotent(s: SchedState, c1: CmdInput, c2: CmdInput)
    requires
        class_of(c1.bits) == Classification::Cancel,
        class_of(c2.bits) == Classification::Cancel,
    ensures
        handle_transition(s, c1) == (SchedState::Idle, cancel_msg()),
        handle_transition(handle_transition(s, c1).0, c2) == (SchedState::Idle, cancel_msg()),
{
}

/// A scheduling command always lands in `Armed` at `now` plus the delay,
/// superseding any prior deadline, and emits exactly the one "scheduled"
/// message quoting the delay rendered to two decimal places.
pub proof fn lemma_schedule(s: SchedState, c: CmdInput)
    requires
        class_of(c.bits) == Classification::Schedule,
    ensures
        handle_transition(s, c) == (
            SchedState::Armed(sat_add(c.now, c.delay_nanos)),
            scheduled_msg(c.rendered_two),
        ),
{
}

/// A rejected command leaves the state untouched and emits exactly the one
/// "invalid" message quoting the rejected value.
pub proof fn lemma_invalid(s: SchedState, c: CmdInput)
    requires
        class_of(c.bits) == Classification::Invalid,
    ensures
        handle_transition(s, c) == (s, invalid_msg(c.rendered_plain)),
{
}

/// Once armed, a tick at or past the deadline fires exactly once: it emits
/// the "fired" message and disarms, and every later tick, at any clock
/// reading, emits nothing more.
pub proof fn lemma_fire_once(deadline: u64, now: u64, later: u64)
    requires
        now >= deadline,
    ensures
        tick_transition(SchedState::Armed(deadline), now) == (
            SchedState::Idle,
            Some(fired_msg()),
        ),
        tick_transition(SchedState::Idle, later) == (SchedState::Idle, None::<(Seq<char>, Seq<char>)>),
{
}

/// Scheduling twice in a row supersedes: only the second deadline remains
/// armed, and a tick fires exactly when that second deadline is reached,
/// regardless of the first command's delay.
pub proof fn lemma_supersession(s: SchedState, c1: CmdInput, c2: CmdInput, now: u64)
    requires
        class_of(c1.bits) == Classification::Schedule,
        class_of(c2.bits) == Classification::Schedule,
    ensures
        ({
            let armed = handle_transition(handle_transition(s, c1).0, c2).0;
            armed == SchedState::Armed(sat_add(c2.now, c2.delay_nanos))
                && (tick_transition(armed, now).1 is Some <==> now >= sat_add(
                c2.now,
                c2.delay_nanos,
            ))
        }),
{
}

/// The state after running a whole sequence of commands, first to last.
pub open spec fn run_state(s: SchedState, cmds: Seq<CmdInput>) -> SchedState
    decreases cmds.len(),
{
    if cmds.len() == 0 {
        s
    } else {
        run_state(handle_transition(s, cmds[0]).0, cmds.drop_first())
    }
}

/// The telemetry messages emitted by a whole sequence of commands, in the
/// order the commands are handled.
pub open spec fn run_msgs(s: SchedState, cmds: Seq<CmdInput>) -> Seq<(Seq<char>, Seq<char>)>
    decreases cmds.len(),
{
    if cmds.len() == 0 {
        Seq::empty()
    } else {
        seq![handle_transition(s, cmds[0]).1] + run_msgs(
            handle_transition(s, cmds[0]).0,
            cmds.drop_first(),
        )
    }
}

/// One call into the state machine: either a command arriving or an
/// evaluator tick at some clock reading.
pub ghost enum Op {
    Command(CmdInput),
    Tick(u64),
}

/// The transition for one call: the successor state and the messages the
/// call emits — exactly one for a command, one for a tick that fires,
/// none for a tick that does not.
pub open spec fn op_transition(s: SchedState, op: Op) -> (SchedState, Seq<(Seq<char>, Seq<char>)>) {
    match op {
        Op::Command(c) => (handle_transition(s, c).0, seq![handle_transition(s, c).1]),
        Op::Tick(now) => match tick_transition(s, now).1 {
            Some(m) => (tick_transition(s, now).0, seq![m]),
            None => (tick_transition(s, now).0, Seq::empty()),
        },
    }
}

/// The state after a whole sequence of calls, commands and ticks
/// interleaved, first to last.
pub open spec fn run_ops_state(s: SchedState, ops: Seq<Op>) -> SchedState
    decreases ops.len(),
{
    if ops.len() == 0 {
        s
    } else {
        run_ops_state(op_transition(s, ops[0]).0, ops.drop_first())
    }
}

/// The telemetry messages a whole sequence of calls emits, in call order.
pub open spec fn run_ops_msgs(s: SchedState, ops: Seq<Op>) -> Seq<(Seq<char>, Seq<char>)>
    decreases ops.len(),
{
    if ops.len() == 0 {
        Seq::empty()
    } else {
        op_transition(s, ops[0]).1 + run_ops_msgs(op_transition(s, ops[0]).0, ops.drop_first())
    }
}

/// Telemetry order matches call order across commands and ticks alike:
/// one further call appends exactly its own messages after everything the
/// earlier calls emitted, so the line sequence an observer receives is the
/// concatenation, in call order, of each transition's messages.
pub proof fn lemma_ops_telemetry_order(s: SchedState, ops: Seq<Op>, op: Op)
    ensures
        run_ops_msgs(s, ops.push(op)) == run_ops_msgs(s, ops) + op_transition(
            run_ops_state(s, ops),
            op,
        ).1,
    decreases ops.len(),
{
    if ops.len() == 0 {
        assert(ops.push(op)[0] == op);
        assert(ops.push(op).drop_first().len() == 0);
        let tail = run_ops_msgs(op_transition(s, op).0, ops.push(op).drop_first());
        assert(tail == Seq::<(Seq<char>, Seq<char>)>::empty());
        assert(run_ops_msgs(s, ops.push(op)) == op_transition(s, op).1 + tail);
        assert(run_ops_msgs(s, ops) == Seq::<(Seq<char>, Seq<char>)>::empty());
        assert(run_ops_state(s, ops) == s);
        assert(op_transition(s, op).1 + tail =~= Seq::<(Seq<char>, Seq<char>)>::empty()
            + op_transition(s, op).1);
    } else {
        let s1 = op_transition(s, ops[0]).0;
        assert(ops.push(op)[0] == ops[0]);
        assert(ops.push(op).drop_first() =~= ops.drop_first().push(op));
        lemma_ops_telemetry_order(s1, ops.drop_first(), op);
        assert(run_ops_msgs(s, ops.push(op)) == op_transition(s, ops[0]).1 + run_ops_msgs(
            s1,
            ops.drop_first().push(op),
        ));
        assert(run_ops_msgs(s, ops.push(op)) =~= run_ops_msgs(s, ops) + op_transition(
            run_ops_state(s, ops),
            op,
        ).1);
    }
}

/// Telemetry order matches call order: every sequence of commands emits
/// one message per command, and the i-th message is exactly the message of
/// the i-th transition, taken from the state the first i commands produced.
pub proof fn lemma_telemetry_order(s: SchedState, cmds: Seq<CmdInput>)
    ensures
        run_msgs(s, cmds).len() == cmds.len(),
        forall|i: int|
            0 <= i < cmds.len() ==> run_msgs(s, cmds)[i] == handle_transition(
                run_state(s, cmds.take(i)),
                cmds[i],
            ).1,
    decreases cmds.len(),
{
    if cmds.len() > 0 {
        let s1 = handle_transition(s, cmds[0]).0;
        lemma_telemetry_order(s1, cmds.drop_first());
        assert(cmds.take(0) =~= Seq::<CmdInput>::empty());
        assert forall|i: int| 0 < i < cmds.len() implies run_msgs(s, cmds)[i] == handle_transition(
            run_state(s, cmds.take(i)),
            cmds[i],
        ).1 by {
            assert(cmds.drop_first().take(i - 1) =~= cmds.take(i).drop_first());
            assert(run_state(s, cmds.take(i)) == run_state(s1, cmds.drop_first().take(i - 1)));
            assert(run_msgs(s, cmds)[i] == run_msgs(s1, cmds.drop_first())[i - 1]);
            assert(cmds.drop_first()[i - 1] == cmds[i]);
        }
    }
}

} // verus!
