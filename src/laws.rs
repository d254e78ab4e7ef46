use vstd::prelude::*;
use crate::error::DaemonError;
use crate::lifecycle::{fail, initial, killed, next, run, Action, Event, Machine, Op, Target, Verdict};
use crate::naming::Channel;
use crate::pid::pid_of;

verus! {

/// Running a machine on one report and then on the rest.
pub proof fn lemma_run_unfold(m: Machine, e: Event, rest: Seq<Event>)
    ensures
        run(m, seq![e] + rest) == seq![next(m, e)] + run(
            Machine { op: m.op, pending: next(m, e) },
            rest,
        ),
{
    let events = seq![e] + rest;
    assert(events[0] == e);
    assert(events.drop_first() =~= rest);
}

/// An operation that has finished asks for nothing more, whatever it is told.
pub proof fn lemma_finished_stays_finished(op: Op, v: Verdict, events: Seq<Event>)
    ensures
        forall|i: int|
            0 <= i < events.len() ==> #[trigger] run(Machine { op, pending: Action::Finish(v) }, events)[i]
                == Action::Finish(v),
        run(Machine { op, pending: Action::Finish(v) }, events).len() == events.len(),
    decreases events.len(),
{
    if events.len() > 0 {
        lemma_finished_stays_finished(op, v, events.drop_first());
        let m = Machine { op, pending: Action::Finish(v) };
        assert forall|i: int| 0 <= i < events.len() implies #[trigger] run(m, events)[i]
            == Action::Finish(v) by {
            if i > 0 {
                assert(run(m, events)[i] == run(m, events.drop_first())[i - 1]);
            }
        }
    }
}

/// Without a PID file, every operation but `create` fails with `UnknownDaemon`
/// at once: it signals nothing, writes nothing, reads no channel and removes
/// nothing.
pub proof fn lemma_no_record_fails_unknown(op: Op, events: Seq<Event>)
    requires
        op != Op::Create,
        events.len() > 0,
        events[0] == Event::Exists(false),
    ensures
        run(initial(op), events).len() == events.len(),
        forall|i: int|
            0 <= i < events.len() ==> #[trigger] run(initial(op), events)[i] == fail(
                DaemonError::UnknownDaemon,
            ),
{
    let v = Verdict::Failure(DaemonError::UnknownDaemon);
    let rest = events.drop_first();
    assert(events =~= seq![events[0]] + rest);
    lemma_run_unfold(initial(op), events[0], rest);
    lemma_finished_stays_finished(op, v, rest);
    assert forall|i: int| 0 <= i < events.len() implies #[trigger] run(initial(op), events)[i]
        == fail(DaemonError::UnknownDaemon) by {
        if i > 0 {
            assert(run(initial(op), events)[i] == run(Machine { op, pending: Action::Finish(v) }, rest)[i - 1]);
        }
    }
}

/// A daemon whose PID file records a live process: `write` probes it, sends the
/// line and succeeds.
pub proof fn lemma_write_reaches_stdin(t: String)
    requires
        pid_of(t@) is Some,
    ensures
        run(
            initial(Op::Write),
            seq![Event::Exists(true), Event::Text(t), Event::Alive(true), Event::Done],
        ) == seq![
            Action::ReadPidFile,
            Action::Probe(pid_of(t@)->Some_0),
            Action::SendLine,
            Action::Finish(Verdict::Success),
        ],
{
    let p = pid_of(t@)->Some_0;
    let op = Op::Write;
    lemma_run_unfold(Machine { op, pending: Action::SendLine }, Event::Done, seq![]);
    lemma_run_unfold(Machine { op, pending: Action::Probe(p) }, Event::Alive(true), seq![Event::Done]);
    lemma_run_unfold(Machine { op, pending: Action::ReadPidFile }, Event::Text(t), seq![Event::Alive(true), Event::Done]);
    lemma_run_unfold(initial(op), Event::Exists(true), seq![Event::Text(t), Event::Alive(true), Event::Done]);
    assert(seq![Event::Done] =~= seq![Event::Done] + Seq::<Event>::empty());
    assert(seq![Event::Alive(true), Event::Done] =~= seq![Event::Alive(true)] + seq![Event::Done]);
    assert(seq![Event::Text(t), Event::Alive(true), Event::Done] =~= seq![Event::Text(t)] + seq![Event::Alive(true), Event::Done]);
    assert(seq![Event::Exists(true), Event::Text(t), Event::Alive(true), Event::Done] =~= seq![Event::Exists(true)] + seq![Event::Text(t), Event::Alive(true), Event::Done]);
    assert(run(
        initial(op),
        seq![Event::Exists(true), Event::Text(t), Event::Alive(true), Event::Done],
    ) =~= seq![
        Action::ReadPidFile,
        Action::Probe(p),
        Action::SendLine,
        Action::Finish(Verdict::Success),
    ]);
}

/// A daemon whose PID file records a live process: reading a channel probes it,
/// drains the FIFO once and succeeds with whatever text the drain gave, the empty
/// text included.
pub proof fn lemma_read_drains_once(op: Op, t: String, out: String)
    requires
        op == Op::ReadStdout || op == Op::ReadStderr,
        pid_of(t@) is Some,
    ensures
        run(
            initial(op),
            seq![Event::Exists(true), Event::Text(t), Event::Alive(true), Event::Text(out)],
        ) == seq![
            Action::ReadPidFile,
            Action::Probe(pid_of(t@)->Some_0),
            Action::Drain(if op == Op::ReadStdout { Channel::Stdout } else { Channel::Stderr }),
            Action::Finish(Verdict::Success),
        ],
{
    let p = pid_of(t@)->Some_0;
    let c = if op == Op::ReadStdout { Channel::Stdout } else { Channel::Stderr };
    let e3 = Event::Text(out);
    lemma_run_unfold(Machine { op, pending: Action::Drain(c) }, e3, seq![]);
    lemma_run_unfold(Machine { op, pending: Action::Probe(p) }, Event::Alive(true), seq![e3]);
    lemma_run_unfold(Machine { op, pending: Action::ReadPidFile }, Event::Text(t), seq![Event::Alive(true), e3]);
    lemma_run_unfold(initial(op), Event::Exists(true), seq![Event::Text(t), Event::Alive(true), e3]);
    assert(seq![e3] =~= seq![e3] + Seq::<Event>::empty());
    assert(seq![Event::Alive(true), e3] =~= seq![Event::Alive(true)] + seq![e3]);
    assert(seq![Event::Text(t), Event::Alive(true), e3] =~= seq![Event::Text(t)] + seq![Event::Alive(true), e3]);
    assert(seq![Event::Exists(true), Event::Text(t), Event::Alive(true), e3] =~= seq![Event::Exists(true)] + seq![Event::Text(t), Event::Alive(true), e3]);
    assert(run(
        initial(op),
        seq![Event::Exists(true), Event::Text(t), Event::Alive(true), e3],
    ) =~= seq![
        Action::ReadPidFile,
        Action::Probe(p),
        Action::Drain(c),
        Action::Finish(Verdict::Success),
    ]);
}

/// A PID file whose process does not answer the probe: `write` and the reads fail
/// with `NotRunning` and touch no channel.
pub proof fn lemma_dead_process_not_running(op: Op, t: String, e: Event)
    requires
        op != Op::Create && op != Op::Kill,
        pid_of(t@) is Some,
        e != Event::Alive(true),
    ensures
        next(Machine { op, pending: Action::ReadPidFile }, Event::Text(t)) == Action::Probe(
            pid_of(t@)->Some_0,
        ),
        next(Machine { op, pending: Action::Probe(pid_of(t@)->Some_0) }, e) == fail(
            DaemonError::NotRunning,
        ),
{
}

/// `kill` on a PID file that records a process: it sends the termination signal,
/// then removes the PID file and the three FIFOs, and succeeds. What the signal's
/// delivery reported (a process that is already gone) changes nothing.
pub proof fn lemma_kill_removes_record(t: String, signal_report: Event)
    requires
        pid_of(t@) is Some,
    ensures
        run(
            initial(Op::Kill),
            seq![Event::Exists(true), Event::Text(t), signal_report, Event::Done, Event::Done, Event::Done, Event::Done],
        ) == seq![
            Action::ReadPidFile,
            Action::Terminate(pid_of(t@)->Some_0),
            Action::Remove(Target::PidFile),
            Action::Remove(Target::Fifo(Channel::Stdin)),
            Action::Remove(Target::Fifo(Channel::Stdout)),
            Action::Remove(Target::Fifo(Channel::Stderr)),
            Action::Finish(Verdict::Success),
        ],
{
    let p = pid_of(t@)->Some_0;
    let op = Op::Kill;
    let d = Event::Done;
    let m = |a: Action| Machine { op, pending: a };
    lemma_run_unfold(m(Action::Remove(Target::Fifo(Channel::Stderr))), d, seq![]);
    lemma_run_unfold(m(Action::Remove(Target::Fifo(Channel::Stdout))), d, seq![d]);
    lemma_run_unfold(m(Action::Remove(Target::Fifo(Channel::Stdin))), d, seq![d, d]);
    lemma_run_unfold(m(Action::Remove(Target::PidFile)), d, seq![d, d, d]);
    lemma_run_unfold(m(Action::Terminate(p)), signal_report, seq![d, d, d, d]);
    lemma_run_unfold(m(Action::ReadPidFile), Event::Text(t), seq![signal_report, d, d, d, d]);
    lemma_run_unfold(initial(op), Event::Exists(true), seq![Event::Text(t), signal_report, d, d, d, d]);
    assert(seq![d] =~= seq![d] + Seq::<Event>::empty());
    assert(seq![d, d] =~= seq![d] + seq![d]);
    assert(seq![d, d, d] =~= seq![d] + seq![d, d]);
    assert(seq![d, d, d, d] =~= seq![d] + seq![d, d, d]);
    assert(seq![signal_report, d, d, d, d] =~= seq![signal_report] + seq![d, d, d, d]);
    assert(seq![Event::Text(t), signal_report, d, d, d, d] =~= seq![Event::Text(t)] + seq![signal_report, d, d, d, d]);
    assert(seq![Event::Exists(true), Event::Text(t), signal_report, d, d, d, d] =~= seq![Event::Exists(true)] + seq![Event::Text(t), signal_report, d, d, d, d]);
    assert(run(
        initial(op),
        seq![Event::Exists(true), Event::Text(t), signal_report, d, d, d, d],
    ) =~= seq![
        Action::ReadPidFile,
        Action::Terminate(p),
        Action::Remove(Target::PidFile),
        Action::Remove(Target::Fifo(Channel::Stdin)),
        Action::Remove(Target::Fifo(Channel::Stdout)),
        Action::Remove(Target::Fifo(Channel::Stderr)),
        Action::Finish(Verdict::Success),
    ]);
}

/// `create` makes the base directory and all three FIFOs, and opens them, before
/// it launches the command; it succeeds once the launch does.
pub proof fn lemma_create_channels_before_launch()
    ensures
        run(initial(Op::Create), seq![Event::Done, Event::Done, Event::Done, Event::Done, Event::Done, Event::Done])
            == seq![
            Action::MakeFifo(Channel::Stdin),
            Action::MakeFifo(Channel::Stdout),
            Action::MakeFifo(Channel::Stderr),
            Action::OpenChannels,
            Action::Launch,
            Action::Finish(Verdict::Success),
        ],
{
    let op = Op::Create;
    let d = Event::Done;
    let m = |a: Action| Machine { op, pending: a };
    lemma_run_unfold(m(Action::Launch), d, seq![]);
    lemma_run_unfold(m(Action::OpenChannels), d, seq![d]);
    lemma_run_unfold(m(Action::MakeFifo(Channel::Stderr)), d, seq![d, d]);
    lemma_run_unfold(m(Action::MakeFifo(Channel::Stdout)), d, seq![d, d, d]);
    lemma_run_unfold(m(Action::MakeFifo(Channel::Stdin)), d, seq![d, d, d, d]);
    lemma_run_unfold(initial(op), d, seq![d, d, d, d, d]);
    assert(seq![d] =~= seq![d] + Seq::<Event>::empty());
    assert(seq![d, d] =~= seq![d] + seq![d]);
    assert(seq![d, d, d] =~= seq![d] + seq![d, d]);
    assert(seq![d, d, d, d] =~= seq![d] + seq![d, d, d]);
    assert(seq![d, d, d, d, d] =~= seq![d] + seq![d, d, d, d]);
    assert(seq![d, d, d, d, d, d] =~= seq![d] + seq![d, d, d, d, d]);
    assert(run(initial(op), seq![d, d, d, d, d, d]) =~= seq![
        Action::MakeFifo(Channel::Stdin),
        Action::MakeFifo(Channel::Stdout),
        Action::MakeFifo(Channel::Stderr),
        Action::OpenChannels,
        Action::Launch,
        Action::Finish(Verdict::Success),
    ]);
}

/// Killing every daemon: each one whose kill succeeded is reported, whatever
/// happened to the others, and only those are.
pub proof fn lemma_kill_all_isolates_failures(names: Seq<Seq<char>>, verdicts: Seq<Verdict>)
    requires
        names.len() == verdicts.len(),
    ensures
        forall|i: int|
            0 <= i < names.len() && verdicts[i] == Verdict::Success ==> killed(
                names,
                verdicts,
            ).contains(#[trigger] names[i]),
        forall|n: Seq<char>|
            #[trigger] killed(names, verdicts).contains(n) ==> exists|i: int|
                0 <= i < names.len() && names[i] == n && verdicts[i] == Verdict::Success,
    decreases names.len(),
{
    if names.len() > 0 {
        let (ns, vs) = (names.drop_last(), verdicts.drop_last());
        lemma_kill_all_isolates_failures(ns, vs);
        let rest = killed(ns, vs);
        let last = names.len() - 1;
        assert forall|i: int|
            0 <= i < names.len() && verdicts[i] == Verdict::Success implies killed(
                names,
                verdicts,
            ).contains(#[trigger] names[i]) by {
            if i < last {
                assert(ns[i] == names[i] && vs[i] == verdicts[i]);
                let k = choose|k: int| 0 <= k < rest.len() && rest[k] == ns[i];
                if verdicts.last() == Verdict::Success {
                    assert(killed(names, verdicts)[k] == names[i]);
                }
            } else {
                assert(killed(names, verdicts)[rest.len() as int] == names[i]);
            }
        }
        assert forall|n: Seq<char>| #[trigger] killed(names, verdicts).contains(n) implies exists|i: int|
            0 <= i < names.len() && names[i] == n && verdicts[i] == Verdict::Success by {
            let k = choose|k: int| 0 <= k < killed(names, verdicts).len() && killed(names, verdicts)[k] == n;
            if k < rest.len() {
                assert(killed(names, verdicts)[k] == rest[k]);
                assert(rest.contains(n));
                let i = choose|i: int| 0 <= i < ns.len() && ns[i] == n && vs[i] == Verdict::Success;
                assert(names[i] == n && verdicts[i] == Verdict::Success);
            } else {
                assert(names[last] == n && verdicts[last] == Verdict::Success);
            }
        }
    }
}

} // verus!
