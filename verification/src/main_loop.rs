//! The decisions of the game loop: the order in which layers are updated
//! and rendered, where an event goes after a layer has seen it, what the
//! engine itself does with an event, and how the layer stack changes
//! between frames.
use crate::input::{InputState, KeyState};
use crate::window::Event;
use vstd::prelude::*;

verus! {

/// The result of a layer processing an event
#[derive(Debug, PartialEq, Eq, Structural, Hash, Clone, Copy)]
pub enum EventResult {
    /// The game loop should quit, e.g. if the close button is clicked
    Exit,
    /// This even has been handled and should no longer be processed further
    Handled,
    /// This event was ignored and should be passed to the next layer
    Ignored,
}

/// The ordering that a layer should be updated or rendered in
#[derive(Debug, PartialEq, Eq, Structural, Hash, Clone, Copy)]
pub enum CallOrder {
    /// This render or update should be defered until after its child states
    Deferred,
    /// This render or update should be performed immediately
    Standard,
}

// ========== //
// call order //
// ========== //

/// The indices below `n` whose order is `want`, ascending.
pub open spec fn indices_with(orders: Seq<CallOrder>, want: CallOrder, n: int) -> Seq<usize>
    decreases n,
{
    if n <= 0 {
        Seq::empty()
    } else {
        let prev = indices_with(orders, want, n - 1);
        if orders[n - 1] == want {
            prev.push((n - 1) as usize)
        } else {
            prev
        }
    }
}

/// The order layers are called in: the standard ones first, bottom of the
/// stack first, then the deferred ones, top of the stack first.
pub open spec fn spec_call_order(orders: Seq<CallOrder>) -> Seq<usize> {
    indices_with(orders, CallOrder::Standard, orders.len() as int) + indices_with(
        orders,
        CallOrder::Deferred,
        orders.len() as int,
    ).reverse()
}

/// The order layers are called in, from the order each asks for: the
/// standard ones first, bottom of the stack first, then the deferred ones,
/// top of the stack first.
pub fn call_order(orders: &Vec<CallOrder>) -> (r: Vec<usize>)
    ensures
        r@ == spec_call_order(orders@),
{
    let n = orders.len();
    let mut standard: Vec<usize> = Vec::new();
    let mut deferred: Vec<usize> = Vec::new();
    let mut i: usize = 0;
    while i < n
        invariant
            n == orders@.len(),
            i <= n,
            standard@ == indices_with(orders@, CallOrder::Standard, i as int),
            deferred@ == indices_with(orders@, CallOrder::Deferred, i as int),
        decreases n - i,
    {
        if orders[i] == CallOrder::Deferred {
            deferred.push(i);
        } else {
            standard.push(i);
        }
        i = i + 1;
    }
    let m = deferred.len();
    let mut j: usize = 0;
    let ghost st = standard@;
    while j < m
        invariant
            m == deferred@.len(),
            j <= m,
            standard@ == st + deferred@.reverse().take(j as int),
        decreases m - j,
    {
        standard.push(deferred[m - 1 - j]);
        proof {
            assert(deferred@.reverse()[j as int] == deferred@[m - 1 - j]);
            assert(standard@ =~= st + deferred@.reverse().take(j + 1));
        }
        j = j + 1;
    }
    proof {
        assert(deferred@.reverse().take(m as int) =~= deferred@.reverse());
    }
    standard
}

proof fn lemma_indices_with_props(orders: Seq<CallOrder>, want: CallOrder, n: int)
    requires
        0 <= n <= orders.len(),
        orders.len() <= usize::MAX,
    ensures
        forall|k: int|
            0 <= k < indices_with(orders, want, n).len() ==> {
                let x = #[trigger] indices_with(orders, want, n)[k];
                0 <= x < n && orders[x as int] == want
            },
        forall|k: int, l: int|
            0 <= k < l < indices_with(orders, want, n).len() ==> indices_with(orders, want, n)[k]
                < indices_with(orders, want, n)[l],
        forall|x: usize|
            x < n && orders[x as int] == want ==> #[trigger] indices_with(orders, want, n).contains(x),
    decreases n,
{
    if n > 0 {
        lemma_indices_with_props(orders, want, n - 1);
        let prev = indices_with(orders, want, n - 1);
        let cur = indices_with(orders, want, n);
        if orders[n - 1] == want {
            assert(cur == prev.push((n - 1) as usize));
            assert(prev.push((n - 1) as usize)[prev.len() as int] == (n - 1) as usize);
            assert forall|k: int| 0 <= k < cur.len() implies {
                let x = #[trigger] cur[k];
                0 <= x < n && orders[x as int] == want
            } by {
                if k < prev.len() {
                    assert(cur[k] == prev[k]);
                }
            }
            assert forall|k: int, l: int| 0 <= k < l < cur.len() implies cur[k] < cur[l] by {
                assert(cur[k] == prev[k]);
                if l < prev.len() {
                    assert(cur[l] == prev[l]);
                }
            }
            assert forall|x: usize| x < n && orders[x as int] == want implies #[trigger] indices_with(
                orders,
                want,
                n,
            ).contains(x) by {
                if x < n - 1 {
                    assert(prev.contains(x));
                    let k = choose|k: int| 0 <= k < prev.len() && prev[k] == x;
                    assert(indices_with(orders, want, n)[k] == x);
                } else {
                    assert(indices_with(orders, want, n)[prev.len() as int] == x);
                }
            }
        }
    }
}

/// Every layer is called exactly once: the call order holds each index of
/// the stack once, and nothing else.
pub proof fn lemma_call_order_is_permutation(orders: Seq<CallOrder>)
    requires
        orders.len() <= usize::MAX,
    ensures
        spec_call_order(orders).len() == orders.len(),
        forall|k: int|
            0 <= k < spec_call_order(orders).len() ==> #[trigger] spec_call_order(orders)[k]
                < orders.len(),
        forall|k: int, l: int|
            0 <= k < l < spec_call_order(orders).len() ==> spec_call_order(orders)[k]
                != spec_call_order(orders)[l],
        forall|x: usize| x < orders.len() ==> #[trigger] spec_call_order(orders).contains(x),
{
    let n = orders.len() as int;
    let s = indices_with(orders, CallOrder::Standard, n);
    let d = indices_with(orders, CallOrder::Deferred, n);
    lemma_indices_with_props(orders, CallOrder::Standard, n);
    lemma_indices_with_props(orders, CallOrder::Deferred, n);
    lemma_indices_with_len(orders, n);
    let r = spec_call_order(orders);
    assert(r =~= s + d.reverse());
    assert forall|k: int, l: int| 0 <= k < l < r.len() implies r[k] != r[l] by {
        if l < s.len() {
            assert(s[k] < s[l]);
        } else if k >= s.len() {
            let k2 = d.len() - 1 - (k - s.len());
            let l2 = d.len() - 1 - (l - s.len());
            assert(r[k] == d[k2]);
            assert(r[l] == d[l2]);
            assert(d[l2] < d[k2]);
        } else {
            let l2 = d.len() - 1 - (l - s.len());
            assert(r[l] == d[l2]);
            assert(orders[r[k] as int] == CallOrder::Standard);
            assert(orders[r[l] as int] == CallOrder::Deferred);
        }
    }
    assert forall|k: int| 0 <= k < r.len() implies #[trigger] r[k] < orders.len() by {
        if k >= s.len() {
            let k2 = d.len() - 1 - (k - s.len());
            assert(r[k] == d[k2]);
        }
    }
    assert forall|x: usize| x < orders.len() implies #[trigger] r.contains(x) by {
        if orders[x as int] == CallOrder::Standard {
            assert(s.contains(x));
            let k = choose|k: int| 0 <= k < s.len() && s[k] == x;
            assert(r[k] == x);
        } else {
            assert(d.contains(x));
            let k = choose|k: int| 0 <= k < d.len() && d[k] == x;
            assert(r[s.len() + (d.len() - 1 - k)] == x);
        }
    }
}

proof fn lemma_indices_with_len(orders: Seq<CallOrder>, n: int)
    requires
        0 <= n <= orders.len(),
    ensures
        indices_with(orders, CallOrder::Standard, n).len() + indices_with(
            orders,
            CallOrder::Deferred,
            n,
        ).len() == n,
    decreases n,
{
    if n > 0 {
        lemma_indices_with_len(orders, n - 1);
    }
}

// ====== //
// events //
// ====== //

/// Where an event goes once a layer has answered it.
#[derive(Debug, PartialEq, Eq, Structural, Clone, Copy)]
pub enum EventRoute {
    /// On to the next layer, and at the end to the engine
    NextLayer,
    /// The event is done with; take the next event
    NextEvent,
    /// Leave the game loop
    Quit,
}

/// Where an event goes once a layer has answered it: a handled event goes
/// no further, an exit ends the loop, and an ignored event goes on.
pub fn route_event(res: EventResult) -> (r: EventRoute)
    ensures
        r == match res {
            EventResult::Handled => EventRoute::NextEvent,
            EventResult::Exit => EventRoute::Quit,
            EventResult::Ignored => EventRoute::NextLayer,
        },
{
    match res {
        EventResult::Handled => EventRoute::NextEvent,
        EventResult::Exit => EventRoute::Quit,
        EventResult::Ignored => EventRoute::NextLayer,
    }
}

/// What the engine does with an event no layer handled: a quit ends the
/// loop; a key press or release sets the key's state; a scroll sets the
/// wheel's movement for the frame and moves the wheel by it.  Only a quit
/// is not ignored.
pub fn default_event_handler(inputs: &mut InputState, event: &Event) -> (r: EventResult)
    requires
        *event matches Event::Scroll { x, y } ==> i32::MIN <= old(inputs).mouse().wheel_x + x
            <= i32::MAX && i32::MIN <= old(inputs).mouse().wheel_y + y <= i32::MAX,
    ensures
        r == if *event == Event::Quit {
            EventResult::Exit
        } else {
            EventResult::Ignored
        },
        match *event {
            Event::KeyDown { key } => final(inputs).keys() == old(inputs).keys().insert(
                key,
                KeyState::Down,
            ) && final(inputs).mouse() == old(inputs).mouse(),
            Event::KeyUp { key } => final(inputs).keys() == old(inputs).keys().insert(
                key,
                KeyState::Up,
            ) && final(inputs).mouse() == old(inputs).mouse(),
            Event::Scroll { x, y } => final(inputs).keys() == old(inputs).keys()
                && final(inputs).mouse() == (crate::input::MouseView {
                wheel_delta_x: x,
                wheel_delta_y: y,
                wheel_x: (old(inputs).mouse().wheel_x + x) as i32,
                wheel_y: (old(inputs).mouse().wheel_y + y) as i32,
                ..old(inputs).mouse()
            }),
            _ => final(inputs).keys() == old(inputs).keys() && final(inputs).mouse() == old(
                inputs,
            ).mouse(),
        },
{
    match *event {
        Event::Quit => return EventResult::Exit,
        Event::KeyDown { key } => {
            inputs.set_key_state(key, KeyState::Down);
        },
        Event::KeyUp { key } => {
            inputs.set_key_state(key, KeyState::Up);
        },
        Event::Scroll { x: dx, y: dy } => {
            inputs.set_wheel_delta(dx, dy);
            let (x, y) = inputs.wheel_position();
            inputs.set_wheel_position(x + dx, y + dy);
        },
        _ => {},
    }
    EventResult::Ignored
}

// =========== //
// layer stack //
// =========== //

/// Sorted from largest to smallest.
pub open spec fn sorted_desc(q: Seq<usize>) -> bool {
    forall|i: int, j: int| 0 <= i < j < q.len() ==> q[i] >= q[j]
}

/// `s` with the elements at positions `q[0]`, `q[1]`, ... removed, one
/// after another.
pub open spec fn remove_each<T>(s: Seq<T>, q: Seq<usize>) -> Seq<T>
    decreases q.len(),
{
    if q.len() == 0 {
        s
    } else {
        remove_each(s.remove(q[0] as int), q.drop_first())
    }
}

/// Each removal is in range: the `k`-th leaves `len - k` elements to pick
/// from.
pub open spec fn removable(len: int, q: Seq<usize>) -> bool {
    forall|k: int| 0 <= k < q.len() ==> q[k] + k < len
}

/// `q` is the popped positions, sorted from the top of the stack down.
pub open spec fn pop_order(pop: Seq<usize>, q: Seq<usize>) -> bool {
    sorted_desc(q) && q.to_multiset() == pop.to_multiset()
}

/// Sort positions from largest to smallest.
fn sort_desc(v: &Vec<usize>) -> (r: Vec<usize>)
    ensures
        sorted_desc(r@),
        r@.to_multiset() == v@.to_multiset(),
{
    broadcast use vstd::seq_lib::group_to_multiset_ensures;

    let mut r: Vec<usize> = Vec::new();
    let n = v.len();
    let mut i: usize = 0;
    while i < n
        invariant
            n == v@.len(),
            i <= n,
            sorted_desc(r@),
            r@.to_multiset() == v@.take(i as int).to_multiset(),
        decreases n - i,
    {
        let x = v[i];
        let mut p: usize = 0;
        while p < r.len() && r[p] >= x
            invariant
                p <= r@.len(),
                sorted_desc(r@),
                forall|k: int| 0 <= k < p ==> r@[k] >= x,
            decreases r@.len() - p,
        {
            p = p + 1;
        }
        let ghost before = r@;
        r.insert(p, x);
        proof {
            vstd::seq_lib::to_multiset_insert(before, p as int, x);
            assert(v@.take(i + 1) =~= v@.take(i as int).push(x));
            vstd::seq_lib::to_multiset_build(v@.take(i as int), x);
            assert forall|a: int, b: int| 0 <= a < b < r@.len() implies r@[a] >= r@[b] by {
                if b < p {
                } else if a < p && b == p {
                } else if a < p && b > p {
                    assert(r@[b] == before[b - 1]);
                    if p < before.len() {
                        assert(before[p as int] < x);
                        assert(before[p as int] >= before[b - 1]);
                    }
                } else if a == p {
                    assert(r@[b] == before[b - 1]);
                    if p < before.len() {
                        assert(before[p as int] < x);
                        assert(before[p as int] >= before[b - 1]);
                    }
                } else {
                    assert(r@[a] == before[a - 1]);
                    assert(r@[b] == before[b - 1]);
                }
            }
        }
        i = i + 1;
    }
    proof {
        assert(v@.take(n as int) =~= v@);
    }
    r
}

/// Change the layer stack between frames: remove the popped layers, from
/// the top of the stack down, then put the pushed layers on top in the
/// order they were pushed.  Both requests are emptied.
pub fn apply_layer_changes<T>(layers: &mut Vec<T>, pop: &mut Vec<usize>, push: &mut Vec<T>)
    requires
        forall|q: Seq<usize>| pop_order(old(pop)@, q) ==> removable(old(layers)@.len() as int, q),
    ensures
        exists|q: Seq<usize>|
            pop_order(old(pop)@, q) && final(layers)@ == remove_each(old(layers)@, q) + old(push)@,
        final(pop)@.len() == 0,
        final(push)@.len() == 0,
{
    let q = sort_desc(pop);
    assert(pop_order(old(pop)@, q@));
    assert(removable(old(layers)@.len() as int, q@));
    let n = q.len();
    let mut k: usize = 0;
    proof {
        assert(q@.skip(0) =~= q@);
    }
    while k < n
        invariant
            n == q@.len(),
            k <= n,
            removable(old(layers)@.len() as int, q@),
            layers@.len() == old(layers)@.len() - k,
            remove_each(layers@, q@.skip(k as int)) == remove_each(old(layers)@, q@),
        decreases n - k,
    {
        proof {
            assert(q@.skip(k as int).drop_first() =~= q@.skip(k + 1));
            assert(q@.skip(k as int)[0] == q@[k as int]);
        }
        layers.remove(q[k]);
        k = k + 1;
    }
    proof {
        assert(q@.skip(n as int) =~= Seq::<usize>::empty());
    }
    layers.append(push);
    pop.clear();
}

} // verus!
