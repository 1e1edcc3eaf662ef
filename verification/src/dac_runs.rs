//! Laws over runs of the DAC task: what a sequence of events makes of it.

use vstd::prelude::*;
use crate::commands::Commands;
use crate::dac::{Address, ClearCode, Configuration, PowerDownMode};
use crate::dac_task::{
    command_phase, pending_of, phase_ready, power_all, spec_next, DacAction, DacEvent, DacPhase, SCAN_FIRST,
    SCAN_LAST,
};

verus! {

/// Whether the task is busy with a command in `phase`: from the command's
/// arrival up to its answer.
pub open spec fn handling<V>(phase: DacPhase<V>) -> bool {
    phase is Read || phase is Write || phase is Zero || phase is Power || phase is Send
}

/// The task serving from `phase` with the DACs `found` on `events`: the phase and
/// found addresses where it stops handling a command (or where it stands after
/// the last event), and the number of answers it sent on the way.
pub open spec fn serve<V>(phase: DacPhase<V>, found: Seq<u8>, events: Seq<DacEvent<V>>) -> (
    DacPhase<V>,
    Seq<u8>,
    nat,
)
    decreases events.len(),
{
    if events.len() == 0 || !handling(phase) {
        (phase, found, 0nat)
    } else {
        let next = spec_next(phase, found, events[0]);
        let rest = serve(next.0, next.1, events.drop_first());
        let sent: nat = if phase is Send && events[0] is Sent {
            1
        } else {
            0
        };
        (rest.0, rest.1, rest.2 + sent)
    }
}

proof fn lemma_serve<V>(phase: DacPhase<V>, found: Seq<u8>, events: Seq<DacEvent<V>>)
    requires
        handling(phase),
    ensures
        handling(serve(phase, found, events).0) ==> serve(phase, found, events).2 == 0,
        !handling(serve(phase, found, events).0) ==> serve(phase, found, events).2 == 1 && (
        (serve(phase, found, events).0 == DacPhase::<V>::Receive && serve(phase, found, events).1
            == found) || (serve(phase, found, events).0 == DacPhase::<V>::Scan(SCAN_FIRST) && serve(
            phase,
            found,
            events,
        ).1.len() == 0)),
    decreases events.len(),
{
    if events.len() > 0 {
        let next = spec_next(phase, found, events[0]);
        if handling(next.0) {
            lemma_serve(next.0, next.1, events.drop_first());
        } else {
            assert(serve(next.0, next.1, events.drop_first()) == (next.0, next.1, 0nat));
        }
    }
}

/// Every command is answered exactly once. From the phase that a command leads
/// to, the task is busy with it and sends nothing until it sends one answer;
/// events that do not answer the pending action change nothing meanwhile. Once
/// the answer is sent, the task waits for the next command with the same DACs,
/// or, after a failed transfer, starts over with a scan.
pub proof fn lemma_one_answer_per_command<V>(
    cmd: Commands<V>,
    found: Seq<u8>,
    events: Seq<DacEvent<V>>,
)
    ensures
        handling(command_phase(cmd, found)),
        handling(serve(command_phase(cmd, found), found, events).0) ==> serve(
            command_phase(cmd, found),
            found,
            events,
        ).2 == 0,
        !handling(serve(command_phase(cmd, found), found, events).0) ==> serve(
            command_phase(cmd, found),
            found,
            events,
        ).2 == 1 && ((serve(command_phase(cmd, found), found, events).0 == DacPhase::<V>::Receive
            && serve(command_phase(cmd, found), found, events).1 == found) || (serve(
            command_phase(cmd, found),
            found,
            events,
        ).0 == DacPhase::<V>::Scan(SCAN_FIRST) && serve(command_phase(cmd, found), found, events).1.len()
            == 0)),
{
    lemma_serve(command_phase(cmd, found), found, events);
}

/// The states that the task passes through from its start on `events`: first
/// the start, then what each event makes of the state before it.
pub open spec fn trace<V>(events: Seq<DacEvent<V>>) -> Seq<(DacPhase<V>, Seq<u8>)>
    decreases events.len(),
{
    if events.len() == 0 {
        seq![(DacPhase::<V>::Scan(SCAN_FIRST), Seq::<u8>::empty())]
    } else {
        let before = trace(events.drop_last());
        before.push(spec_next(before.last().0, before.last().1, events.last()))
    }
}

/// Whether `event` is what comes of `action`.
pub open spec fn answers_action<V>(action: DacAction<V>, event: DacEvent<V>) -> bool {
    match action {
        DacAction::Probe(_) => event is Probed,
        DacAction::WaitTick => event is Ticked,
        DacAction::Reset(_) => event is ResetDone,
        DacAction::ConfigureAll(_) => event is Configured,
        DacAction::ClearCommands => event is Cleared,
        DacAction::Receive => event is Command,
        DacAction::Read { .. } => event is ReadDone,
        DacAction::WriteAndUpdate { .. } => event is WriteDone,
        DacAction::ZeroChannels(_) => event is Zeroed,
        DacAction::SetOutputs { .. } => event is OutputsSet,
        DacAction::Respond(_) => event is Sent,
    }
}

/// Whether each of `events` is what came of the action that the task asked for
/// when it arrived.
pub open spec fn faithful<V>(events: Seq<DacEvent<V>>) -> bool {
    forall|i: int|
        0 <= i < events.len() ==> answers_action(
            pending_of(trace(events)[i].0, trace(events)[i].1),
            #[trigger] events[i],
        )
}

/// A scan from index `k` of the run (`events`, states `t`): the task starts a scan
/// at `k`, the `count` events from `k` on answer the probes of the addresses in
/// turn, and `found` holds exactly the probed addresses that answered and that an
/// ADDR0 strapping selects, and no more entries than there were probes.
pub open spec fn probes_from<V>(
    events: Seq<DacEvent<V>>,
    t: Seq<(DacPhase<V>, Seq<u8>)>,
    k: int,
    count: int,
    found: Seq<u8>,
) -> bool {
    &&& 0 <= k
    &&& 0 <= count
    &&& k + count <= events.len()
    &&& t[k].0 == DacPhase::<V>::Scan(SCAN_FIRST)
    &&& t[k].1.len() == 0
    &&& found.len() <= count
    &&& forall|j: int|
        k <= j < k + count ==> (#[trigger] t[j]).0 == DacPhase::<V>::Scan((SCAN_FIRST + (j - k)) as u8)
            && events[j] is Probed
    &&& forall|x: u8|
        #[trigger] found.contains(x) <==> (SCAN_FIRST <= x < SCAN_FIRST + count && events[k + (x
            - SCAN_FIRST)] == DacEvent::<V>::Probed(true) && Address::spec_from_code(x) is Some)
}

/// A scan from index `k` that found the DACs `found`, at least one, followed by
/// the tick and the first `done` resets, each of which succeeded.
pub open spec fn resets_from<V>(
    events: Seq<DacEvent<V>>,
    t: Seq<(DacPhase<V>, Seq<u8>)>,
    k: int,
    found: Seq<u8>,
    done: int,
) -> bool {
    &&& probes_from(events, t, k, 5, found)
    &&& found.len() > 0
    &&& 0 <= done <= found.len()
    &&& k + 6 + done <= events.len()
    &&& t[k + 5] == (DacPhase::<V>::Tick, found)
    &&& events[k + 5] == DacEvent::<V>::Ticked
    &&& forall|j: int|
        k + 6 <= j < k + 6 + done ==> #[trigger] t[j] == (DacPhase::<V>::Reset((j - k - 6) as usize), found)
            && events[j] == DacEvent::<V>::ResetDone(true)
}

/// The whole start-up from index `k`: a scan that found the DACs `found`, the tick,
/// a successful reset of each found DAC in turn, and the mid-scale clear code and
/// the high-impedance power-down sent to all, after which the task announces
/// readiness and drops the queued commands.
pub open spec fn start_up_from<V>(
    events: Seq<DacEvent<V>>,
    t: Seq<(DacPhase<V>, Seq<u8>)>,
    k: int,
    found: Seq<u8>,
) -> bool {
    let m = found.len() as int;
    &&& resets_from(events, t, k, found, m)
    &&& k + 8 + m <= events.len()
    &&& t[k + 6 + m] == (DacPhase::<V>::SetClearCode, found)
    &&& events[k + 6 + m] == DacEvent::<V>::Configured
    &&& t[k + 7 + m] == (DacPhase::<V>::PowerDownAll, found)
    &&& events[k + 7 + m] == DacEvent::<V>::Configured
    &&& t[k + 8 + m] == (DacPhase::<V>::Flush, found)
}

/// The start-up from index `k` found the DACs `found`, and the task has stood
/// ready with them from its readiness announcement on.
pub open spec fn ready_since<V>(
    events: Seq<DacEvent<V>>,
    t: Seq<(DacPhase<V>, Seq<u8>)>,
    k: int,
    found: Seq<u8>,
) -> bool {
    &&& start_up_from(events, t, k, found)
    &&& forall|j: int|
        k + 8 + found.len() <= j <= events.len() ==> phase_ready((#[trigger] t[j]).0) && t[j].1 == found
}

/// What the run so far shows of the phase it has reached.
spec fn history<V>(events: Seq<DacEvent<V>>, t: Seq<(DacPhase<V>, Seq<u8>)>) -> bool {
    let n = events.len() as int;
    let f = t[n].1;
    let m = f.len() as int;
    match t[n].0 {
        DacPhase::Scan(a) => SCAN_FIRST <= a <= SCAN_LAST && probes_from(
            events,
            t,
            n - (a - SCAN_FIRST),
            a - SCAN_FIRST,
            f,
        ),
        DacPhase::Tick => probes_from(events, t, n - 5, 5, f),
        DacPhase::Reset(i) => i < m && resets_from(events, t, n - 6 - i, f, i as int),
        DacPhase::SetClearCode => resets_from(events, t, n - 6 - m, f, m),
        DacPhase::PowerDownAll => resets_from(events, t, n - 7 - m, f, m) && t[n - 1] == (
            DacPhase::<V>::SetClearCode,
            f,
        ) && events[n - 1] == DacEvent::<V>::Configured,
        _ => exists|k: int| ready_since(events, t, k, f),
    }
}

proof fn lemma_trace<V>(events: Seq<DacEvent<V>>)
    ensures
        trace(events).len() == events.len() + 1,
        events.len() > 0 ==> forall|i: int|
            0 <= i < events.len() ==> #[trigger] trace(events)[i] == trace(events.drop_last())[i],
        events.len() > 0 ==> trace(events)[events.len() as int] == spec_next(
            trace(events.drop_last())[events.len() - 1].0,
            trace(events.drop_last())[events.len() - 1].1,
            events[events.len() - 1],
        ),
    decreases events.len(),
{
    if events.len() > 0 {
        lemma_trace(events.drop_last());
    }
}

/// A scan seen on a run stays seen on any longer run that agrees with it.
proof fn lemma_probes_extend<V>(
    e1: Seq<DacEvent<V>>,
    t1: Seq<(DacPhase<V>, Seq<u8>)>,
    e2: Seq<DacEvent<V>>,
    t2: Seq<(DacPhase<V>, Seq<u8>)>,
    k: int,
    count: int,
    found: Seq<u8>,
)
    requires
        probes_from(e1, t1, k, count, found),
        e1.len() <= e2.len(),
        t1.len() == e1.len() + 1,
        forall|i: int| 0 <= i < e1.len() ==> e2[i] == e1[i],
        forall|i: int| 0 <= i <= e1.len() ==> t2[i] == t1[i],
    ensures
        probes_from(e2, t2, k, count, found),
{
    assert forall|j: int| k <= j < k + count implies (#[trigger] t2[j]).0 == DacPhase::<V>::Scan(
        (SCAN_FIRST + (j - k)) as u8,
    ) && e2[j] is Probed by {
        assert(t1[j] == t2[j]);
        assert(e1[j] == e2[j]);
    }
    assert forall|x: u8| #[trigger] found.contains(x) <==> (SCAN_FIRST <= x < SCAN_FIRST + count
        && e2[k + (x - SCAN_FIRST)] == DacEvent::<V>::Probed(true) && Address::spec_from_code(x) is Some) by {
        if SCAN_FIRST <= x < SCAN_FIRST + count {
            assert(e2[k + (x - SCAN_FIRST)] == e1[k + (x - SCAN_FIRST)]);
        }
    }
    assert(t2[k] == t1[k]);
}

proof fn lemma_resets_extend<V>(
    e1: Seq<DacEvent<V>>,
    t1: Seq<(DacPhase<V>, Seq<u8>)>,
    e2: Seq<DacEvent<V>>,
    t2: Seq<(DacPhase<V>, Seq<u8>)>,
    k: int,
    found: Seq<u8>,
    done: int,
)
    requires
        resets_from(e1, t1, k, found, done),
        e1.len() <= e2.len(),
        t1.len() == e1.len() + 1,
        forall|i: int| 0 <= i < e1.len() ==> e2[i] == e1[i],
        forall|i: int| 0 <= i <= e1.len() ==> t2[i] == t1[i],
    ensures
        resets_from(e2, t2, k, found, done),
{
    lemma_probes_extend(e1, t1, e2, t2, k, 5, found);
    assert forall|j: int| k + 6 <= j < k + 6 + done implies #[trigger] t2[j] == (
        DacPhase::<V>::Reset((j - k - 6) as usize),
        found,
    ) && e2[j] == DacEvent::<V>::ResetDone(true) by {
        assert(t1[j] == t2[j]);
        assert(e1[j] == e2[j]);
    }
    assert(t2[k + 5] == t1[k + 5]);
    assert(e2[k + 5] == e1[k + 5]);
}

proof fn lemma_start_up_extend<V>(
    e1: Seq<DacEvent<V>>,
    t1: Seq<(DacPhase<V>, Seq<u8>)>,
    e2: Seq<DacEvent<V>>,
    t2: Seq<(DacPhase<V>, Seq<u8>)>,
    k: int,
    found: Seq<u8>,
)
    requires
        start_up_from(e1, t1, k, found),
        e1.len() <= e2.len(),
        t1.len() == e1.len() + 1,
        forall|i: int| 0 <= i < e1.len() ==> e2[i] == e1[i],
        forall|i: int| 0 <= i <= e1.len() ==> t2[i] == t1[i],
    ensures
        start_up_from(e2, t2, k, found),
{
    let m = found.len() as int;
    lemma_resets_extend(e1, t1, e2, t2, k, found, m);
    assert(t2[k + 6 + m] == t1[k + 6 + m]);
    assert(t2[k + 7 + m] == t1[k + 7 + m]);
    assert(t2[k + 8 + m] == t1[k + 8 + m]);
    assert(e2[k + 6 + m] == e1[k + 6 + m]);
    assert(e2[k + 7 + m] == e1[k + 7 + m]);
}

/// One more probe, of the address `a`, seen on a run whose scan has probed the
/// `count` addresses before it.
proof fn lemma_probe_step<V>(
    events: Seq<DacEvent<V>>,
    t: Seq<(DacPhase<V>, Seq<u8>)>,
    k: int,
    count: int,
    found: Seq<u8>,
    a: u8,
    ok: bool,
    next: Seq<u8>,
)
    requires
        probes_from(events, t, k, count, found),
        k + count == events.len() - 1,
        0 <= count < 5,
        a == SCAN_FIRST + count,
        t[k + count].0 == DacPhase::<V>::Scan(a),
        events[k + count] == DacEvent::<V>::Probed(ok),
        next == (if ok && Address::spec_from_code(a) is Some {
            found.push(a)
        } else {
            found
        }),
    ensures
        probes_from(events, t, k, count + 1, next),
{
    assert forall|j: int| k <= j < k + count + 1 implies (#[trigger] t[j]).0 == DacPhase::<V>::Scan(
        (SCAN_FIRST + (j - k)) as u8,
    ) && events[j] is Probed by {
        if j < k + count {
            assert(t[j].0 == DacPhase::<V>::Scan((SCAN_FIRST + (j - k)) as u8));
        }
    }
    assert forall|x: u8| #[trigger] next.contains(x) <==> (SCAN_FIRST <= x < SCAN_FIRST + count + 1
        && events[k + (x - SCAN_FIRST)] == DacEvent::<V>::Probed(true) && Address::spec_from_code(x) is Some) by {
        if x == a {
            if ok && Address::spec_from_code(a) is Some {
                assert(next[found.len() as int] == a);
            } else {
                assert(!found.contains(a));
            }
        } else {
            if found.contains(x) {
                let i = choose|i: int| 0 <= i < found.len() && found[i] == x;
                if ok && Address::spec_from_code(a) is Some {
                    assert(next[i] == x);
                }
            }
            if next.contains(x) {
                let i = choose|i: int| 0 <= i < next.len() && next[i] == x;
                assert(found[i] == x);
            }
        }
    }
}

/// One more successful reset seen on a run.
proof fn lemma_reset_step<V>(
    events: Seq<DacEvent<V>>,
    t: Seq<(DacPhase<V>, Seq<u8>)>,
    k: int,
    found: Seq<u8>,
    done: int,
)
    requires
        resets_from(events, t, k, found, done),
        k + 6 + done == events.len() - 1,
        done < found.len(),
        t[k + 6 + done] == (DacPhase::<V>::Reset(done as usize), found),
        events[k + 6 + done] == DacEvent::<V>::ResetDone(true),
    ensures
        resets_from(events, t, k, found, done + 1),
{
    assert forall|j: int| k + 6 <= j < k + 6 + done + 1 implies #[trigger] t[j] == (
        DacPhase::<V>::Reset((j - k - 6) as usize),
        found,
    ) && events[j] == DacEvent::<V>::ResetDone(true) by {
        if j < k + 6 + done {
            assert(t[j] == (DacPhase::<V>::Reset((j - k - 6) as usize), found));
        } else {
            assert(j - k - 6 == done);
        }
    }
    assert(done + 1 <= found.len());
    assert(k + 6 + done + 1 <= events.len());
}

/// `events` and its states `t` extend the run `e1` with states `t1` by one
/// event, which answers the action pending at the end of `e1`.
spec fn extends<V>(
    e1: Seq<DacEvent<V>>,
    t1: Seq<(DacPhase<V>, Seq<u8>)>,
    events: Seq<DacEvent<V>>,
    t: Seq<(DacPhase<V>, Seq<u8>)>,
) -> bool {
    let n = events.len() as int;
    &&& n == e1.len() + 1
    &&& t1.len() == n
    &&& t.len() == n + 1
    &&& forall|i: int| 0 <= i < n - 1 ==> events[i] == e1[i]
    &&& forall|i: int| 0 <= i < n ==> t[i] == t1[i]
    &&& t[n] == spec_next(t1[n - 1].0, t1[n - 1].1, events[n - 1])
    &&& answers_action(pending_of(t1[n - 1].0, t1[n - 1].1), events[n - 1])
}

proof fn lemma_step_scan<V>(
    e1: Seq<DacEvent<V>>,
    t1: Seq<(DacPhase<V>, Seq<u8>)>,
    events: Seq<DacEvent<V>>,
    t: Seq<(DacPhase<V>, Seq<u8>)>,
)
    requires
        extends(e1, t1, events, t),
        history(e1, t1),
        t1[e1.len() as int].0 is Scan,
    ensures
        history(events, t),
{
    let n = events.len() as int;
    let f = t1[n - 1].1;
    let a = t1[n - 1].0->Scan_0;
    let count = a - SCAN_FIRST;
    let k = (n - 1) - count;
    lemma_probes_extend(e1, t1, events, t, k, count, f);
    let e = events[n - 1];
    let ok = match e {
        DacEvent::Probed(ok) => ok,
        _ => false,
    };
    assert(e == DacEvent::<V>::Probed(ok));
    assert(t[n - 1] == t1[n - 1]);
    lemma_probe_step(events, t, k, count, f, a, ok, t[n].1);
}

proof fn lemma_step_reset<V>(
    e1: Seq<DacEvent<V>>,
    t1: Seq<(DacPhase<V>, Seq<u8>)>,
    events: Seq<DacEvent<V>>,
    t: Seq<(DacPhase<V>, Seq<u8>)>,
)
    requires
        extends(e1, t1, events, t),
        history(e1, t1),
        t1[e1.len() as int].0 is Tick || t1[e1.len() as int].0 is Reset,
    ensures
        history(events, t),
{
    let n = events.len() as int;
    let f = t1[n - 1].1;
    let m = f.len() as int;
    let e = events[n - 1];
    assert(t[n - 1] == t1[n - 1]);
    if t1[n - 1].0 is Tick {
        lemma_probes_extend(e1, t1, events, t, n - 6, 5, f);
        if m == 0 {
            assert(t[n].0 == DacPhase::<V>::Scan(SCAN_FIRST));
            assert(probes_from(events, t, n, 0, t[n].1));
            assert(history(events, t));
        } else {
            assert(t[n] == (DacPhase::<V>::Reset(0), f));
            assert(resets_from(events, t, n - 6, f, 0));
            assert(history(events, t));
        }
    } else {
        let i = t1[n - 1].0->Reset_0;
        let k = (n - 1) - 6 - i;
        lemma_resets_extend(e1, t1, events, t, k, f, i as int);
        if e == DacEvent::<V>::ResetDone(true) {
            lemma_reset_step(events, t, k, f, i as int);
            if i + 1 < m {
                assert(t[n] == (DacPhase::<V>::Reset((i + 1) as usize), f));
                assert(history(events, t));
            } else {
                assert(t[n] == (DacPhase::<V>::SetClearCode, f));
                assert(history(events, t));
            }
        } else {
            assert(t[n].0 == DacPhase::<V>::Scan(SCAN_FIRST));
            assert(probes_from(events, t, n, 0, t[n].1));
            assert(history(events, t));
        }
    }
}

proof fn lemma_step_configure<V>(
    e1: Seq<DacEvent<V>>,
    t1: Seq<(DacPhase<V>, Seq<u8>)>,
    events: Seq<DacEvent<V>>,
    t: Seq<(DacPhase<V>, Seq<u8>)>,
)
    requires
        extends(e1, t1, events, t),
        history(e1, t1),
        t1[e1.len() as int].0 is SetClearCode || t1[e1.len() as int].0 is PowerDownAll,
    ensures
        history(events, t),
{
    let n = events.len() as int;
    let f = t1[n - 1].1;
    let m = f.len() as int;
    assert(t[n - 1] == t1[n - 1]);
    if t1[n - 1].0 is SetClearCode {
        lemma_resets_extend(e1, t1, events, t, n - 7 - m, f, m);
    } else {
        let k = n - 8 - m;
        lemma_resets_extend(e1, t1, events, t, k, f, m);
        assert(t[n - 2] == t1[n - 2]);
        assert(events[n - 2] == e1[n - 2]);
        assert(start_up_from(events, t, k, f));
        assert(ready_since(events, t, k, f));
    }
}

proof fn lemma_step_ready<V>(
    e1: Seq<DacEvent<V>>,
    t1: Seq<(DacPhase<V>, Seq<u8>)>,
    events: Seq<DacEvent<V>>,
    t: Seq<(DacPhase<V>, Seq<u8>)>,
)
    requires
        extends(e1, t1, events, t),
        history(e1, t1),
        phase_ready(t1[e1.len() as int].0),
    ensures
        history(events, t),
{
    let n = events.len() as int;
    let f = t1[n - 1].1;
    let k = choose|k: int| ready_since(e1, t1, k, f);
    lemma_start_up_extend(e1, t1, events, t, k, f);
    if t[n].0 is Scan {
        assert(probes_from(events, t, n, 0, t[n].1));
    } else {
        assert(phase_ready(t[n].0) && t[n].1 == f);
        assert forall|j: int| k + 8 + f.len() <= j <= events.len() implies phase_ready(
            (#[trigger] t[j]).0,
        ) && t[j].1 == f by {
            if j < n {
                assert(t[j] == t1[j]);
            }
        }
        assert(ready_since(events, t, k, f));
    }
}

proof fn lemma_history<V>(events: Seq<DacEvent<V>>)
    requires
        faithful(events),
    ensures
        trace(events).len() == events.len() + 1,
        history(events, trace(events)),
    decreases events.len(),
{
    lemma_trace(events);
    let n = events.len() as int;
    let t = trace(events);
    if n == 0 {
        assert(probes_from(events, t, 0, 0, t[0].1));
    } else {
        let e1 = events.drop_last();
        let t1 = trace(e1);
        lemma_trace(e1);
        assert forall|i: int| 0 <= i < e1.len() implies answers_action(
            pending_of(trace(e1)[i].0, trace(e1)[i].1),
            #[trigger] e1[i],
        ) by {
            assert(t[i] == t1[i]);
            assert(events[i] == e1[i]);
        }
        lemma_history(e1);
        assert(t[n - 1] == t1[n - 1]);
        assert(answers_action(pending_of(t[n - 1].0, t[n - 1].1), events[n - 1]));
        assert(extends(e1, t1, events, t));
        let p = t1[n - 1].0;
        if p is Scan {
            lemma_step_scan(e1, t1, events, t);
        } else if p is Tick || p is Reset {
            lemma_step_reset(e1, t1, events, t);
        } else if p is SetClearCode || p is PowerDownAll {
            lemma_step_configure(e1, t1, events, t);
        } else {
            lemma_step_ready(e1, t1, events, t);
        }
    }
}

/// The DACs count as ready only after a full start-up. On any run in which each
/// event is what came of the action that the task asked for, whenever the task
/// stands ready, the run holds, from some index `k` on: a scan of the bus whose
/// answering addresses are exactly the DACs that the task now holds, at least
/// one; the tick; a successful reset of each of those DACs in turn; the mid-scale
/// clear code and the high-impedance power-down sent to all; then the readiness
/// announcement, which drops the queued commands, and the task has stood ready
/// with the same DACs from there on.
pub proof fn lemma_ready_only_after_start_up<V>(events: Seq<DacEvent<V>>)
    requires
        faithful(events),
    ensures
        trace(events).len() == events.len() + 1,
        phase_ready(trace(events)[events.len() as int].0) ==> exists|k: int|
            ready_since(events, trace(events), k, trace(events)[events.len() as int].1),
{
    lemma_history(events);
}

/// What the task asks for along a start-up: the scan probes the addresses in
/// turn and then waits for the tick, each found DAC is reset at its own address,
/// the configurations sent to all are the mid-scale clear code and the
/// high-impedance power-down of every channel, and the readiness announcement
/// drops the queued commands.
pub proof fn lemma_start_up_actions<V>(
    events: Seq<DacEvent<V>>,
    t: Seq<(DacPhase<V>, Seq<u8>)>,
    k: int,
    found: Seq<u8>,
)
    requires
        start_up_from(events, t, k, found),
    ensures
        forall|j: int|
            k <= j < k + 5 ==> pending_of((#[trigger] t[j]).0, t[j].1) == DacAction::<V>::Probe(
                (SCAN_FIRST + (j - k)) as u8,
            ),
        pending_of(t[k + 5].0, t[k + 5].1) == DacAction::<V>::WaitTick,
        forall|j: int|
            k + 6 <= j < k + 6 + found.len() ==> pending_of((#[trigger] t[j]).0, t[j].1)
                == DacAction::<V>::Reset(found[j - k - 6]),
        pending_of(t[k + 6 + found.len()].0, t[k + 6 + found.len()].1) == DacAction::<V>::ConfigureAll(
            Configuration::ClearCode(ClearCode::MidScale),
        ),
        pending_of(t[k + 7 + found.len()].0, t[k + 7 + found.len()].1) == DacAction::<V>::ConfigureAll(
            power_all(PowerDownMode::HighZ),
        ),
        pending_of(t[k + 8 + found.len()].0, t[k + 8 + found.len()].1) == DacAction::<V>::ClearCommands,
{
}

} // verus!
