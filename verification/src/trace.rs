//! Runs of the lifecycle machine as a whole: the sequence of commands a run
//! issues for a given sequence of driver results, and the release guarantees
//! that hold of every such run.
//!
//! A run is described by its start state and the events fed into
//! [`spec_step`] one after the other. [`run_trace`] collects the commands
//! the machine hands out, [`run_end`] is the state it arrives at. The proof
//! functions here state the lifecycle guarantees over these: they hold of
//! every driver behaviour, success or failure at any step.

use vstd::prelude::*;

use crate::errors::PicmlxError;
use crate::errors::PiplxError;
use crate::orchestrate::CleanupWarning;
use crate::orchestrate::Command;
use crate::orchestrate::DriverEventModel;
use crate::orchestrate::OrchestratorModel;
use crate::orchestrate::Phase;
use crate::orchestrate::RunError;
use crate::orchestrate::SessionHandle;
use crate::orchestrate::event_matches;
use crate::orchestrate::spec_step;
use crate::text::spec_text_before_nul;

verus! {

/// Whether `es` is a sequence of driver results the machine can be fed from
/// state `m`: each event answers the command pending at that point.
pub open spec fn valid_events(m: OrchestratorModel, es: Seq<DriverEventModel>) -> bool
    decreases es.len(),
{
    es.len() == 0 || {
        &&& event_matches(m.phase, es[0])
        &&& valid_events(spec_step(m, es[0]).0, es.skip(1))
    }
}

/// The commands the machine issues, in order, when fed `es` from state `m`.
pub open spec fn run_trace(m: OrchestratorModel, es: Seq<DriverEventModel>) -> Seq<Command>
    decreases es.len(),
{
    if es.len() == 0 {
        Seq::empty()
    } else {
        seq![spec_step(m, es[0]).1] + run_trace(spec_step(m, es[0]).0, es.skip(1))
    }
}

/// The state the machine stands in after being fed `es` from state `m`.
pub open spec fn run_end(m: OrchestratorModel, es: Seq<DriverEventModel>) -> OrchestratorModel
    decreases es.len(),
{
    if es.len() == 0 {
        m
    } else {
        run_end(spec_step(m, es[0]).0, es.skip(1))
    }
}

/// Whether the events `es` carry the run from `m` all the way to its end.
pub open spec fn completes(m: OrchestratorModel, es: Seq<DriverEventModel>) -> bool {
    run_end(m, es).phase is Complete
}

/// How many disconnect commands a trace holds.
pub open spec fn disconnect_count(tr: Seq<Command>) -> nat
    decreases tr.len(),
{
    if tr.len() == 0 {
        0
    } else {
        (if tr[0] is Disconnect {
            1nat
        } else {
            0nat
        }) + disconnect_count(tr.skip(1))
    }
}

/// How many close-card commands a trace holds.
pub open spec fn close_count(tr: Seq<Command>) -> nat
    decreases tr.len(),
{
    if tr.len() == 0 {
        0
    } else {
        (if tr[0] is CloseCard {
            1nat
        } else {
            0nat
        }) + close_count(tr.skip(1))
    }
}

proof fn lemma_counts_cons(c: Command, tr: Seq<Command>)
    ensures
        disconnect_count(seq![c] + tr) == (if c is Disconnect {
            1nat
        } else {
            0nat
        }) + disconnect_count(tr),
        close_count(seq![c] + tr) == (if c is CloseCard {
            1nat
        } else {
            0nat
        }) + close_count(tr),
{
    let s = seq![c] + tr;
    assert(s[0] == c);
    assert(s.skip(1) =~= tr);
}

/// How many release commands of each kind a run may still issue from phase
/// `p`: one before the respective release command has gone out, none after.
spec fn disconnect_budget(p: Phase) -> nat {
    match p {
        Phase::Connecting => 1,
        Phase::Opening { .. } => 1,
        Phase::Identifying { .. } => 1,
        Phase::Closing { .. } => 1,
        Phase::Disconnecting { .. } => 0,
        Phase::Complete => 0,
    }
}

spec fn close_budget(p: Phase) -> nat {
    match p {
        Phase::Connecting => 1,
        Phase::Opening { .. } => 1,
        Phase::Identifying { .. } => 1,
        Phase::Closing { .. } => 0,
        Phase::Disconnecting { .. } => 0,
        Phase::Complete => 0,
    }
}

proof fn lemma_release_budget(m: OrchestratorModel, es: Seq<DriverEventModel>)
    requires
        valid_events(m, es),
    ensures
        disconnect_count(run_trace(m, es)) <= disconnect_budget(m.phase),
        close_count(run_trace(m, es)) <= close_budget(m.phase),
    decreases es.len(),
{
    if es.len() > 0 {
        let stepped = spec_step(m, es[0]);
        lemma_release_budget(stepped.0, es.skip(1));
        lemma_counts_cons(stepped.1, run_trace(stepped.0, es.skip(1)));
    }
}

proof fn lemma_nothing_after_complete(m: OrchestratorModel, es: Seq<DriverEventModel>)
    requires
        m.phase is Complete,
        valid_events(m, es),
    ensures
        es.len() == 0,
        run_trace(m, es) == Seq::<Command>::empty(),
        run_end(m, es) == m,
{
    if es.len() > 0 {
        assert(event_matches(m.phase, es[0]));
    }
}

/// Law: a failed connect is terminal and leaves nothing to clean up. The
/// run ends at once with the connect failure as its primary outcome, and no
/// open-card, close-card or disconnect command is ever issued.
pub proof fn lemma_connect_failure_run(m: OrchestratorModel, es: Seq<DriverEventModel>)
    requires
        m.phase is Connecting,
        valid_events(m, es),
        completes(m, es),
        es.len() >= 1,
        es[0] matches DriverEventModel::ConnectDone { code, .. } && code != 0,
    ensures
        es.len() == 1,
        run_trace(m, es) == seq![Command::Finished],
        run_end(m, es).failure == Some(
            RunError::Connect(PicmlxError { err_num: es[0]->ConnectDone_code }),
        ),
        run_end(m, es).card_id == m.card_id,
        run_end(m, es).warnings == m.warnings,
{
    let stepped = spec_step(m, es[0]);
    lemma_nothing_after_complete(stepped.0, es.skip(1));
    assert(run_trace(m, es) =~= seq![Command::Finished]);
}

/// Law: an open-card failure never leaks the session. The run still issues
/// disconnect on the session that the successful connect returned, reports
/// the open-card failure as its primary outcome, and records a disconnect
/// failure, if any, only as a warning.
pub proof fn lemma_open_failure_run(m: OrchestratorModel, es: Seq<DriverEventModel>)
    requires
        m.phase is Connecting,
        valid_events(m, es),
        completes(m, es),
        es.len() >= 2,
        es[0] matches DriverEventModel::ConnectDone { code, .. } && code == 0,
        es[1] matches DriverEventModel::OpenDone { code, .. } && code != 0,
    ensures
        es.len() == 3,
        es[2] is DisconnectDone,
        run_trace(m, es) == seq![
            Command::OpenCard { sid: es[0]->ConnectDone_sid, bus: m.bus, slot: m.slot },
            Command::Disconnect { sid: es[0]->ConnectDone_sid },
            Command::Finished,
        ],
        run_trace(m, es).contains(Command::Disconnect { sid: es[0]->ConnectDone_sid }),
        run_end(m, es).failure == Some(
            RunError::OpenCard(PiplxError { err_num: es[1]->OpenDone_code }),
        ),
        run_end(m, es).card_id == m.card_id,
        run_end(m, es).warnings == m.warnings + (if es[2]->DisconnectDone_code != 0 {
            seq![CleanupWarning::Disconnect(PicmlxError { err_num: es[2]->DisconnectDone_code })]
        } else {
            Seq::<CleanupWarning>::empty()
        }),
{
    let sid = es[0]->ConnectDone_sid;
    let s1 = spec_step(m, es[0]).0;
    let es1 = es.skip(1);
    assert(s1.phase == (Phase::Opening { session: SessionHandle { sid } }));
    assert(es1[0] == es[1]);
    assert(valid_events(s1, es1));
    assert(run_end(m, es) == run_end(s1, es1));
    assert(es1.len() >= 1) by {
        if es1.len() == 0 {
            assert(run_end(s1, es1) == s1);
        }
    }
    let s2 = spec_step(s1, es1[0]).0;
    let es2 = es1.skip(1);
    assert(es2 =~= es.skip(2));
    assert(s2.phase == (Phase::Disconnecting { session: SessionHandle { sid } }));
    assert(valid_events(s2, es2));
    assert(run_end(s1, es1) == run_end(s2, es2));
    assert(es2.len() >= 1) by {
        if es2.len() == 0 {
            assert(run_end(s2, es2) == s2);
        }
    }
    assert(es2[0] == es[2]);
    assert(event_matches(s2.phase, es2[0]));
    let s3 = spec_step(s2, es2[0]).0;
    let es3 = es2.skip(1);
    assert(s3.phase is Complete);
    assert(valid_events(s3, es3));
    lemma_nothing_after_complete(s3, es3);
    assert(es.len() == 3);
    let tr = run_trace(m, es);
    assert(tr == seq![spec_step(m, es[0]).1] + run_trace(s1, es1));
    assert(run_trace(s1, es1) == seq![spec_step(s1, es1[0]).1] + run_trace(s2, es2));
    assert(run_trace(s2, es2) == seq![spec_step(s2, es2[0]).1] + run_trace(s3, es3));
    assert(spec_step(m, es[0]).1 == (Command::OpenCard { sid, bus: m.bus, slot: m.slot }));
    assert(spec_step(s1, es1[0]).1 == (Command::Disconnect { sid }));
    assert(spec_step(s2, es2[0]).1 == Command::Finished);
    assert(tr =~= seq![
        Command::OpenCard { sid, bus: m.bus, slot: m.slot },
        Command::Disconnect { sid },
        Command::Finished,
    ]);
    assert(tr.contains(Command::Disconnect { sid })) by {
        assert(tr[1] == (Command::Disconnect { sid }));
    }
    assert(run_end(m, es) == s3);
    if es[2]->DisconnectDone_code != 0 {
        assert(s3.warnings =~= m.warnings + seq![
            CleanupWarning::Disconnect(PicmlxError { err_num: es[2]->DisconnectDone_code }),
        ]);
    } else {
        assert(s3.warnings =~= m.warnings + Seq::<CleanupWarning>::empty());
    }
}

/// Law: once connect and open-card have succeeded, the run issues identify,
/// close-card and disconnect, in that order, on exactly the session and
/// card the driver returned — whatever identify, close-card and disconnect
/// themselves return. The primary outcome stays untouched: an identify
/// failure and any cleanup failure are recorded as warnings only, and the
/// release order (card before session) is the trace itself.
pub proof fn lemma_full_run(m: OrchestratorModel, es: Seq<DriverEventModel>)
    requires
        m.phase is Connecting,
        valid_events(m, es),
        completes(m, es),
        es.len() >= 2,
        es[0] matches DriverEventModel::ConnectDone { code, .. } && code == 0,
        es[1] matches DriverEventModel::OpenDone { code, .. } && code == 0,
    ensures
        es.len() == 5,
        es[2] is IdentifyDone,
        es[3] is CloseDone,
        es[4] is DisconnectDone,
        run_trace(m, es) == seq![
            Command::OpenCard { sid: es[0]->ConnectDone_sid, bus: m.bus, slot: m.slot },
            Command::Identify {
                sid: es[0]->ConnectDone_sid,
                card_num: es[1]->OpenDone_card_num,
            },
            Command::CloseCard {
                sid: es[0]->ConnectDone_sid,
                card_num: es[1]->OpenDone_card_num,
            },
            Command::Disconnect { sid: es[0]->ConnectDone_sid },
            Command::Finished,
        ],
        run_end(m, es).failure == m.failure,
        run_end(m, es).card_id == (if es[2]->IdentifyDone_code == 0 {
            Some(spec_text_before_nul(es[2]->IdentifyDone_buffer))
        } else {
            m.card_id
        }),
        run_end(m, es).warnings == m.warnings + (if es[2]->IdentifyDone_code != 0 {
            seq![CleanupWarning::Identify(PiplxError { err_num: es[2]->IdentifyDone_code })]
        } else {
            Seq::<CleanupWarning>::empty()
        }) + (if es[3]->CloseDone_code != 0 {
            seq![CleanupWarning::CloseCard(PiplxError { err_num: es[3]->CloseDone_code })]
        } else {
            Seq::<CleanupWarning>::empty()
        }) + (if es[4]->DisconnectDone_code != 0 {
            seq![CleanupWarning::Disconnect(PicmlxError { err_num: es[4]->DisconnectDone_code })]
        } else {
            Seq::<CleanupWarning>::empty()
        }),
{
    let sid = es[0]->ConnectDone_sid;
    let card_num = es[1]->OpenDone_card_num;
    let s1 = spec_step(m, es[0]).0;
    let es1 = es.skip(1);
    assert(es1[0] == es[1]);
    assert(valid_events(s1, es1));
    assert(run_end(m, es) == run_end(s1, es1));
    assert(es1.len() >= 1);
    let s2 = spec_step(s1, es1[0]).0;
    let es2 = es1.skip(1);
    assert(es2 =~= es.skip(2));
    assert(valid_events(s2, es2));
    assert(run_end(s1, es1) == run_end(s2, es2));
    assert(s2.phase matches Phase::Identifying { session, card } && session.sid == sid
        && card.card_num == card_num);
    assert(es2.len() >= 1) by {
        if es2.len() == 0 {
            assert(run_end(s2, es2) == s2);
        }
    }
    assert(es2[0] == es[2]);
    let s3 = spec_step(s2, es2[0]).0;
    let es3 = es2.skip(1);
    assert(es3 =~= es.skip(3));
    assert(valid_events(s3, es3));
    assert(run_end(s2, es2) == run_end(s3, es3));
    assert(s3.phase matches Phase::Closing { session, card } && session.sid == sid
        && card.card_num == card_num);
    assert(es3.len() >= 1) by {
        if es3.len() == 0 {
            assert(run_end(s3, es3) == s3);
        }
    }
    assert(es3[0] == es[3]);
    let s4 = spec_step(s3, es3[0]).0;
    let es4 = es3.skip(1);
    assert(es4 =~= es.skip(4));
    assert(valid_events(s4, es4));
    assert(run_end(s3, es3) == run_end(s4, es4));
    assert(s4.phase matches Phase::Disconnecting { session } && session.sid == sid);
    assert(es4.len() >= 1) by {
        if es4.len() == 0 {
            assert(run_end(s4, es4) == s4);
        }
    }
    assert(es4[0] == es[4]);
    let s5 = spec_step(s4, es4[0]).0;
    let es5 = es4.skip(1);
    assert(s5.phase is Complete);
    assert(valid_events(s5, es5));
    lemma_nothing_after_complete(s5, es5);
    assert(es.len() == 5);
    assert(run_end(s4, es4) == s5);
    let tr = run_trace(m, es);
    assert(tr == seq![spec_step(m, es[0]).1] + run_trace(s1, es1));
    assert(run_trace(s1, es1) == seq![spec_step(s1, es1[0]).1] + run_trace(s2, es2));
    assert(run_trace(s2, es2) == seq![spec_step(s2, es2[0]).1] + run_trace(s3, es3));
    assert(run_trace(s3, es3) == seq![spec_step(s3, es3[0]).1] + run_trace(s4, es4));
    assert(run_trace(s4, es4) == seq![spec_step(s4, es4[0]).1] + run_trace(s5, es5));
    assert(spec_step(m, es[0]).1 == (Command::OpenCard { sid, bus: m.bus, slot: m.slot }));
    assert(spec_step(s1, es1[0]).1 == (Command::Identify { sid, card_num }));
    assert(spec_step(s2, es2[0]).1 == (Command::CloseCard { sid, card_num }));
    assert(spec_step(s3, es3[0]).1 == (Command::Disconnect { sid }));
    assert(spec_step(s4, es4[0]).1 == Command::Finished);
    assert(tr =~= seq![
        Command::OpenCard { sid, bus: m.bus, slot: m.slot },
        Command::Identify { sid, card_num },
        Command::CloseCard { sid, card_num },
        Command::Disconnect { sid },
        Command::Finished,
    ]);
    let iw = if es[2]->IdentifyDone_code != 0 {
        seq![CleanupWarning::Identify(PiplxError { err_num: es[2]->IdentifyDone_code })]
    } else {
        Seq::<CleanupWarning>::empty()
    };
    let cw = if es[3]->CloseDone_code != 0 {
        seq![CleanupWarning::CloseCard(PiplxError { err_num: es[3]->CloseDone_code })]
    } else {
        Seq::<CleanupWarning>::empty()
    };
    let dw = if es[4]->DisconnectDone_code != 0 {
        seq![CleanupWarning::Disconnect(PicmlxError { err_num: es[4]->DisconnectDone_code })]
    } else {
        Seq::<CleanupWarning>::empty()
    };
    assert(s5.warnings =~= m.warnings + iw + cw + dw);
}

proof fn lemma_counts_singleton(c: Command)
    ensures
        disconnect_count(seq![c]) == (if c is Disconnect {
            1nat
        } else {
            0nat
        }),
        close_count(seq![c]) == (if c is CloseCard {
            1nat
        } else {
            0nat
        }),
{
    assert(seq![c].skip(1) =~= Seq::<Command>::empty());
    assert(disconnect_count(Seq::<Command>::empty()) == 0);
    assert(close_count(Seq::<Command>::empty()) == 0);
}

/// Law: every successfully connected session is disconnected exactly once,
/// and never before the card derived from it is closed. Whatever the later
/// calls return, a completed run's trace holds exactly one disconnect
/// command, it names the session id the connect returned, and every
/// close-card command comes before it.
pub proof fn lemma_session_released_exactly_once(m: OrchestratorModel, es: Seq<DriverEventModel>)
    requires
        m.phase is Connecting,
        valid_events(m, es),
        completes(m, es),
        es.len() >= 1,
        es[0] matches DriverEventModel::ConnectDone { code, .. } && code == 0,
    ensures
        disconnect_count(run_trace(m, es)) == 1,
        run_trace(m, es).contains(Command::Disconnect { sid: es[0]->ConnectDone_sid }),
        forall|i: int, j: int|
            0 <= i < run_trace(m, es).len() && 0 <= j < run_trace(m, es).len() && run_trace(
                m,
                es,
            )[i] is CloseCard && run_trace(m, es)[j] is Disconnect ==> i < j,
{
    let sid = es[0]->ConnectDone_sid;
    let s1 = spec_step(m, es[0]).0;
    let es1 = es.skip(1);
    assert(valid_events(s1, es1));
    assert(run_end(m, es) == run_end(s1, es1));
    assert(es1.len() >= 1) by {
        if es1.len() == 0 {
            assert(run_end(s1, es1) == s1);
        }
    }
    assert(es1[0] == es[1]);
    assert(event_matches(s1.phase, es1[0]));
    let tr = run_trace(m, es);
    if es[1]->OpenDone_code != 0 {
        lemma_open_failure_run(m, es);
        let t0 = Command::OpenCard { sid, bus: m.bus, slot: m.slot };
        let t1 = Command::Disconnect { sid };
        let t2 = Command::Finished;
        assert(tr =~= seq![t0] + seq![t1, t2]);
        lemma_counts_cons(t0, seq![t1, t2]);
        assert(seq![t1, t2] =~= seq![t1] + seq![t2]);
        lemma_counts_cons(t1, seq![t2]);
        lemma_counts_singleton(t2);
        assert(forall|i: int| 0 <= i < tr.len() ==> !(tr[i] is CloseCard)) by {
            assert(tr[0] == t0 && tr[1] == t1 && tr[2] == t2);
        }
    } else {
        lemma_full_run(m, es);
        let card_num = es[1]->OpenDone_card_num;
        let t0 = Command::OpenCard { sid, bus: m.bus, slot: m.slot };
        let t1 = Command::Identify { sid, card_num };
        let t2 = Command::CloseCard { sid, card_num };
        let t3 = Command::Disconnect { sid };
        let t4 = Command::Finished;
        assert(tr =~= seq![t0] + seq![t1, t2, t3, t4]);
        lemma_counts_cons(t0, seq![t1, t2, t3, t4]);
        assert(seq![t1, t2, t3, t4] =~= seq![t1] + seq![t2, t3, t4]);
        lemma_counts_cons(t1, seq![t2, t3, t4]);
        assert(seq![t2, t3, t4] =~= seq![t2] + seq![t3, t4]);
        lemma_counts_cons(t2, seq![t3, t4]);
        assert(seq![t3, t4] =~= seq![t3] + seq![t4]);
        lemma_counts_cons(t3, seq![t4]);
        lemma_counts_singleton(t4);
        assert(tr.contains(Command::Disconnect { sid })) by {
            assert(tr[3] == t3);
        }
        assert(forall|i: int| 0 <= i < tr.len() && tr[i] is CloseCard ==> i == 2) by {
            assert(tr[0] == t0 && tr[1] == t1 && tr[2] == t2 && tr[3] == t3 && tr[4] == t4);
        }
        assert(forall|j: int| 0 <= j < tr.len() && tr[j] is Disconnect ==> j == 3) by {
            assert(tr[0] == t0 && tr[1] == t1 && tr[2] == t2 && tr[3] == t3 && tr[4] == t4);
        }
    }
}

/// Law: the machine never attempts a second release of the same kind. Over
/// any sequence of driver results, however it ends, a run issues at most
/// one disconnect and at most one close-card command: release is never
/// retried, not even after a failed close or disconnect.
pub proof fn lemma_release_never_repeated(m: OrchestratorModel, es: Seq<DriverEventModel>)
    requires
        m.phase is Connecting,
        valid_events(m, es),
    ensures
        disconnect_count(run_trace(m, es)) <= 1,
        close_count(run_trace(m, es)) <= 1,
{
    lemma_release_budget(m, es);
}

} // verus!
