use vstd::prelude::*;
use crate::worker::{Call, Command, call_for, connected_after, run};

verus! {

/// No command of `cmds` is a `Connect`.
pub open spec fn never_connects(cmds: Seq<Command>) -> bool {
    forall|i: int| 0 <= i < cmds.len() ==> !(#[trigger] cmds[i] is Connect)
}

/// Commands are applied one at a time, in the order given: applying `a`
/// followed by `b` is applying `a` and then, from where it left the
/// connection, applying `b`; the external calls are those of `a` followed
/// by those of `b`.
pub proof fn lemma_run_in_order(
    connected: bool,
    a: Seq<Command>,
    b: Seq<Command>,
    oa: Seq<bool>,
    ob: Seq<bool>,
)
    requires
        oa.len() == a.len(),
    ensures
        run(connected, a + b, oa + ob) == (
            run(run(connected, a, oa).0, b, ob).0,
            run(connected, a, oa).1 + run(run(connected, a, oa).0, b, ob).1,
        ),
    decreases a.len(),
{
    if a.len() == 0 {
        assert(a + b =~= b);
        assert(oa + ob =~= ob);
        assert(run(connected, a, oa).1 + run(connected, b, ob).1 =~= run(connected, b, ob).1);
    } else {
        let next = connected_after(connected, a[0], oa[0]);
        assert((a + b).drop_first() =~= a.drop_first() + b);
        assert((oa + ob).drop_first() =~= oa.drop_first() + ob);
        assert((a + b)[0] == a[0]);
        assert((oa + ob)[0] == oa[0]);
        lemma_run_in_order(next, a.drop_first(), b, oa.drop_first(), ob);
        let ra = run(next, a.drop_first(), oa.drop_first());
        let rb = run(ra.0, b, ob);
        match call_for(connected, a[0]) {
            Some(c) => {
                assert(seq![c] + (ra.1 + rb.1) =~= (seq![c] + ra.1) + rb.1);
            },
            None => {},
        }
    }
}

/// A second `Connect` right after one that opened a session makes no
/// external call: from no session, the pair makes exactly one connect
/// attempt, with the first id; from an open session, none.
pub proof fn lemma_connect_twice(connected: bool, first: String, second: String, ok: bool)
    ensures
        run(
            connected,
            seq![Command::Connect { client_id: first }, Command::Connect { client_id: second }],
            seq![true, ok],
        ) == (true, if connected {
            Seq::<Call>::empty()
        } else {
            seq![Call::Connect(first@)]
        }),
{
    let cmds = seq![Command::Connect { client_id: first }, Command::Connect { client_id: second }];
    let oks = seq![true, ok];
    let tail = cmds.drop_first();
    assert(tail[0] == Command::Connect { client_id: second });
    assert(tail.drop_first().len() == 0);
    assert(run(true, tail.drop_first(), oks.drop_first().drop_first()) == (
        true,
        Seq::<Call>::empty(),
    ));
    assert(run(true, tail, oks.drop_first()) == (true, Seq::<Call>::empty()));
    if !connected {
        assert(seq![Call::Connect(first@)] + Seq::<Call>::empty() =~= seq![Call::Connect(first@)]);
    }
}

/// Without a session, commands other than `Connect` make no external call
/// and open no session, whatever outcomes the outside would report.
pub proof fn lemma_quiet_while_disconnected(cmds: Seq<Command>, oks: Seq<bool>)
    requires
        never_connects(cmds),
    ensures
        run(false, cmds, oks) == (false, Seq::<Call>::empty()),
    decreases cmds.len(),
{
    if cmds.len() > 0 {
        assert(!(cmds[0] is Connect));
        assert forall|i: int| 0 <= i < cmds.drop_first().len() implies !(
        #[trigger] cmds.drop_first()[i] is Connect) by {
            assert(cmds.drop_first()[i] == cmds[i + 1]);
        }
        lemma_quiet_while_disconnected(cmds.drop_first(), oks.drop_first());
    }
}

/// A publish or clear call that fails ends the session: the commands after
/// it that are not `Connect` make no external call, and only a `Connect`
/// that succeeds opens a session again.
pub proof fn lemma_failure_resets(
    failed: Command,
    rest: Seq<Command>,
    oks: Seq<bool>,
    client_id: String,
)
    requires
        !(failed is Connect),
        never_connects(rest),
        oks.len() == rest.len(),
    ensures
        run(true, seq![failed], seq![false]) == (false, seq![call_for(true, failed)->0]),
        run(false, rest, oks) == (false, Seq::<Call>::empty()),
        run(false, seq![Command::Connect { client_id }], seq![true]) == (
            true,
            seq![Call::Connect(client_id@)],
        ),
        run(
            true,
            seq![failed] + rest + seq![Command::Connect { client_id }],
            seq![false] + oks + seq![true],
        ) == (true, seq![call_for(true, failed)->0, Call::Connect(client_id@)]),
{
    let one = seq![failed];
    let last = seq![Command::Connect { client_id }];
    assert(one.drop_first().len() == 0);
    assert(last.drop_first().len() == 0);
    assert(run(false, one.drop_first(), seq![false].drop_first()) == (false, Seq::<Call>::empty()));
    assert(run(true, last.drop_first(), seq![true].drop_first()) == (true, Seq::<Call>::empty()));
    let c1 = call_for(true, failed)->0;
    assert(seq![c1] + Seq::<Call>::empty() =~= seq![c1]);
    let cc = Call::Connect(client_id@);
    assert(seq![cc] + Seq::<Call>::empty() =~= seq![cc]);
    lemma_quiet_while_disconnected(rest, oks);
    lemma_run_in_order(true, one, rest, seq![false], oks);
    lemma_run_in_order(true, one + rest, last, seq![false] + oks, seq![true]);
    assert(seq![c1] + Seq::<Call>::empty() + seq![cc] =~= seq![c1, cc]);
}

} // verus!
