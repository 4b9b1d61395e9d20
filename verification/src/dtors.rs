//! Destructor registries.
//!
//! The runtime keeps two kinds of ordered destructor lists: one per thread,
//! drained when that thread exits, and one per process, drained when the
//! process exits. Both are append-only while the program runs and are
//! drained last-in-first-out, and both permit re-entrant registration: a
//! destructor may register further destructors, which must then also run
//! before the drain completes.
//!
//! A destructor here is named by an index into a table that records, for
//! each destructor, which destructors its body registers when it runs; the
//! drain below is the runtime's drain loop over such a registry, and its
//! contract pins the exact execution order.

use vstd::prelude::*;

verus! {

/// Every name in `s` is an index into a table of `n` destructors.
pub open spec fn ids_ok(s: Seq<usize>, n: int) -> bool {
    forall|i: int| 0 <= i < s.len() ==> (#[trigger] s[i]) < n
}

/// Every destructor registers only destructors that the table describes.
pub open spec fn table_ok(table: Seq<Seq<usize>>) -> bool {
    forall|i: int| 0 <= i < table.len() ==> ids_ok(#[trigger] table[i], table.len() as int)
}

/// The drain loop, in specification form: pop the most recently registered
/// destructor, run it (which appends whatever it registers), and repeat
/// until the registry is empty or `fuel` runs out. Returns the order in
/// which destructors ran and whatever the registry still holds.
pub open spec fn drain_order(reg: Seq<usize>, table: Seq<Seq<usize>>, fuel: nat) -> (Seq<usize>,
    Seq<usize>)
    decreases fuel,
{
    if fuel == 0 || reg.len() == 0 {
        (Seq::empty(), reg)
    } else {
        let id = reg.last();
        let reg2 = reg.drop_last() + table[id as int];
        let rest = drain_order(reg2, table, (fuel - 1) as nat);
        (seq![id] + rest.0, rest.1)
    }
}

/// Register one destructor: append it to the registry.
pub fn register(reg: &mut Vec<usize>, id: usize)
    ensures
        final(reg)@ == old(reg)@.push(id),
{
    reg.push(id);
}

/// Drain the registry last-in-first-out, re-checking the list after each
/// call so that re-entrant registrations also run, and report the order in
/// which the destructors ran. `fuel` bounds the number of calls, since a
/// destructor that keeps registering new work never lets the drain finish;
/// the registry is empty afterwards whenever the fuel sufficed.
pub fn drain(reg: &mut Vec<usize>, table: &Vec<Vec<usize>>, fuel: usize) -> (order: Vec<usize>)
    requires
        ids_ok(old(reg)@, table@.len() as int),
        table_ok(table@.map_values(|v: Vec<usize>| v@)),
    ensures
        order@ == drain_order(old(reg)@, table@.map_values(|v: Vec<usize>| v@), fuel as nat).0,
        final(reg)@ == drain_order(old(reg)@, table@.map_values(|v: Vec<usize>| v@), fuel as nat).1,
{
    let ghost table_view = table@.map_values(|v: Vec<usize>| v@);
    let ghost goal = drain_order(old(reg)@, table_view, fuel as nat);
    let mut order: Vec<usize> = Vec::new();
    let mut fuel_left: usize = fuel;
    while fuel_left > 0 && reg.len() > 0
        invariant
            ids_ok(reg@, table_view.len() as int),
            table_ok(table_view),
            table_view == table@.map_values(|v: Vec<usize>| v@),
            goal.0 == order@ + drain_order(reg@, table_view, fuel_left as nat).0,
            goal.1 == drain_order(reg@, table_view, fuel_left as nat).1,
        decreases fuel_left,
    {
        let ghost reg_before = reg@;
        let id = reg.pop().unwrap();
        order.push(id);
        let body = &table[id];
        let mut k: usize = 0;
        while k < body.len()
            invariant
                k <= body.len(),
                body@ == table_view[id as int],
                reg@ == reg_before.drop_last() + body@.take(k as int),
            decreases body.len() - k,
        {
            reg.push(body[k]);
            k += 1;
            proof {
                assert(body@.take(k as int) == body@.take(k as int - 1).push(body@[k as int - 1]));
            }
        }
        proof {
            assert(body@.take(body@.len() as int) == body@);
            assert(reg@ == reg_before.drop_last() + table_view[id as int]);
        }
        fuel_left -= 1;
        proof {
            assert(goal.0 == order@ + drain_order(reg@, table_view, fuel_left as nat).0) by {
                assert(order@.drop_last() + (seq![id] + drain_order(reg@, table_view,
                    fuel_left as nat).0) == order@ + drain_order(reg@, table_view,
                    fuel_left as nat).0);
            }
        }
    }
    order
}

/// Last-in first-out: with work left to do, the drain always runs the
/// most recently registered destructor first.
pub proof fn lemma_last_registered_runs_first(
    reg: Seq<usize>,
    table: Seq<Seq<usize>>,
    d: usize,
    fuel: nat,
)
    requires
        fuel > 0,
    ensures
        drain_order(reg.push(d), table, fuel).0[0] == d,
{
    assert(reg.push(d).last() == d);
}

/// Re-entrant registration runs before the drain completes: a destructor
/// whose body registers one further destructor sees that registration run
/// immediately after it, before anything registered earlier.
pub proof fn lemma_reentrant_registration_runs_next(
    reg: Seq<usize>,
    table: Seq<Seq<usize>>,
    d: usize,
    e: usize,
    fuel: nat,
)
    requires
        fuel >= 2,
        d < table.len(),
        e < table.len(),
        table[d as int] == seq![e],
        table[e as int] == Seq::<usize>::empty(),
    ensures
        drain_order(reg.push(d), table, fuel).0.take(2) == seq![d, e],
        drain_order(reg.push(d), table, fuel).1 == drain_order(reg, table, (fuel - 2) as nat).1,
{
    let reg1 = reg.push(d);
    assert(reg1.last() == d);
    assert(reg1.drop_last() == reg);
    let reg2 = reg + table[d as int];
    assert(reg2.last() == e);
    assert(reg2.drop_last() =~= reg);
    assert(reg2.drop_last() + table[e as int] =~= reg);
    let rest = drain_order(reg, table, (fuel - 2) as nat);
    assert(drain_order(reg2, table, (fuel - 1) as nat).0 == seq![e] + rest.0);
    assert(drain_order(reg1, table, fuel).0 == seq![d] + (seq![e] + rest.0));
    assert((seq![d] + (seq![e] + rest.0)).take(2) =~= seq![d, e]);
}

} // verus!
