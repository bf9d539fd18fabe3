//! Changing the order of a player's queue through its server.

use vstd::prelude::*;

use crate::playback::plex::{
    find_item, item_index, item_of, plex_occurrence, PlexError, PlexQueueItem, PlexQueueWindow,
    QueueReorderTarget, Timeline,
};

verus! {

/// The keys in portions of at most `window`, in order.
pub open spec fn portions(keys: Seq<String>, window: nat) -> Seq<Seq<String>>
    decreases keys.len(),
{
    if keys.len() == 0 || window == 0 {
        seq![]
    } else if keys.len() <= window {
        seq![keys]
    } else {
        seq![keys.take(window as int)] + portions(keys.skip(window as int), window)
    }
}

/// The lists one behind the other.
pub open spec fn all_of(lists: Seq<Seq<String>>) -> Seq<String>
    decreases lists.len(),
{
    if lists.len() == 0 {
        seq![]
    } else {
        lists[0] + all_of(lists.drop_first())
    }
}

pub open spec fn lists_of(lists: Seq<Vec<String>>) -> Seq<Seq<String>> {
    lists.map_values(|list: Vec<String>| list@)
}

/// The portions hold every key once, in order.
pub proof fn portions_hold_all_keys(keys: Seq<String>, window: nat)
    requires
        window > 0,
    ensures
        all_of(portions(keys, window)) == keys,
    decreases keys.len(),
{
    reveal_with_fuel(all_of, 2);
    if keys.len() == 0 {
        assert(all_of(portions(keys, window)) =~= keys);
    } else if keys.len() <= window {
        let lists = seq![keys];
        assert(lists.drop_first() =~= Seq::<Seq<String>>::empty());
        assert(all_of(lists) =~= keys);
    } else {
        let rest = portions(keys.skip(window as int), window);
        let lists = seq![keys.take(window as int)] + rest;
        portions_hold_all_keys(keys.skip(window as int), window);
        assert(lists.drop_first() =~= rest);
        assert(all_of(lists) =~= keys);
    }
}

fn copy_part(keys: &Vec<String>, from: usize, to: usize) -> (result: Vec<String>)
    requires
        from <= to <= keys@.len(),
    ensures
        result@ == keys@.subrange(from as int, to as int),
{
    let mut result: Vec<String> = Vec::new();
    let mut i: usize = from;
    while i < to
        invariant
            from <= i <= to <= keys@.len(),
            result@ =~= keys@.subrange(from as int, i as int),
        decreases to - i,
    {
        result.push(keys[i].clone());
        i += 1;
    }
    result
}

/// The portions in which keys are written to a queue: in order where each goes to the end, and the
/// last one first where each goes to the same place inside the queue.
pub fn write_batches(keys: &Vec<String>, window: usize, at_end: bool) -> (result: Vec<Vec<String>>)
    requires
        window > 0,
    ensures
        lists_of(result@) == if at_end {
            portions(keys@, window as nat)
        } else {
            portions(keys@, window as nat).reverse()
        },
{
    let mut lists: Vec<Vec<String>> = Vec::new();
    let mut from: usize = 0;
    let length: usize = keys.len();
    let ghost all = portions(keys@, window as nat);
    assert(keys@.skip(0) =~= keys@);
    assert(lists_of(lists@) + portions(keys@, window as nat) =~= all);
    while from < length
        invariant
            from <= length == keys@.len(),
            window > 0,
            lists_of(lists@) + portions(keys@.skip(from as int), window as nat) == all,
        decreases length - from,
    {
        let to: usize = if length - from <= window {
            length
        } else {
            from + window
        };
        let list = copy_part(keys, from, to);
        let ghost rest = keys@.skip(from as int);
        let ghost held = lists_of(lists@);
        proof {
            assert(list@ =~= rest.take(to - from));
            assert(rest.skip(to - from) =~= keys@.skip(to as int));
            if rest.len() <= window {
                assert(rest.take(to - from) =~= rest);
                assert(keys@.skip(to as int) =~= Seq::<String>::empty());
                assert(portions(rest, window as nat) =~= seq![list@] + portions(
                    keys@.skip(to as int),
                    window as nat,
                ));
            }
        }
        let ghost added = list@;
        lists.push(list);
        proof {
            assert(lists_of(lists@) =~= held.push(added));
            assert(lists_of(lists@) + portions(keys@.skip(to as int), window as nat) =~= held
                + portions(rest, window as nat));
        }
        from = to;
    }
    proof {
        assert(keys@.skip(from as int) =~= Seq::<String>::empty());
        assert(lists_of(lists@) =~= all);
    }
    if at_end {
        return lists;
    }
    let mut reversed: Vec<Vec<String>> = Vec::new();
    let mut i: usize = lists.len();
    while i > 0
        invariant
            i <= lists@.len(),
            lists_of(lists@) == all,
            lists_of(reversed@) =~= all.reverse().take(lists@.len() - i),
        decreases i,
    {
        i -= 1;
        let count: usize = lists[i].len();
        let copy = copy_part(&lists[i], 0, count);
        proof {
            assert(copy@ =~= lists@[i as int]@);
            assert(all[i as int] == lists@[i as int]@);
            assert(all.reverse()[lists@.len() - 1 - i] == all[i as int]);
        }
        let ghost held = lists_of(reversed@);
        let ghost added = copy@;
        reversed.push(copy);
        proof {
            let k = lists@.len() - 1 - i;
            assert(lists_of(reversed@) =~= held.push(added));
            assert(all.reverse().take(k + 1) =~= all.reverse().take(k).push(added));
        }
    }
    assert(all.reverse().take(lists@.len() as int) =~= all.reverse());
    reversed
}

/// A queue with a list put in at a place.
pub open spec fn put_in(queue: Seq<String>, at: int, list: Seq<String>) -> Seq<String> {
    queue.take(at) + list + queue.skip(at)
}

/// A queue after lists were put in at the same place, one after the other.
pub open spec fn put_each(queue: Seq<String>, at: int, lists: Seq<Seq<String>>) -> Seq<String>
    decreases lists.len(),
{
    if lists.len() == 0 {
        queue
    } else {
        put_in(put_each(queue, at, lists.drop_last()), at, lists.last())
    }
}

/// A queue after lists were put at its end, one after the other.
pub open spec fn put_at_end(queue: Seq<String>, lists: Seq<Seq<String>>) -> Seq<String>
    decreases lists.len(),
{
    if lists.len() == 0 {
        queue
    } else {
        put_at_end(queue, lists.drop_last()) + lists.last()
    }
}

proof fn put_each_reversed(queue: Seq<String>, at: int, lists: Seq<Seq<String>>)
    requires
        0 <= at <= queue.len(),
    ensures
        put_each(queue, at, lists.reverse()) == put_in(queue, at, all_of(lists)),
    decreases lists.len(),
{
    if lists.len() == 0 {
        assert(lists.reverse() =~= Seq::<Seq<String>>::empty());
        assert(put_in(queue, at, all_of(lists)) =~= queue);
    } else {
        let rest = lists.drop_first();
        put_each_reversed(queue, at, rest);
        assert(lists.reverse().drop_last() =~= rest.reverse());
        assert(lists.reverse().last() == lists[0]);
        let inner = put_in(queue, at, all_of(rest));
        assert(inner.take(at) =~= queue.take(at));
        assert(inner.skip(at) =~= all_of(rest) + queue.skip(at));
        assert(put_in(inner, at, lists[0]) =~= put_in(queue, at, all_of(lists)));
    }
}

proof fn all_of_push(lists: Seq<Seq<String>>, last: Seq<String>)
    ensures
        all_of(lists.push(last)) == all_of(lists) + last,
    decreases lists.len(),
{
    let longer = lists.push(last);
    if lists.len() == 0 {
        assert(longer.drop_first() =~= Seq::<Seq<String>>::empty());
        reveal_with_fuel(all_of, 2);
        assert(all_of(longer) =~= all_of(lists) + last);
    } else {
        assert(longer.drop_first() =~= lists.drop_first().push(last));
        all_of_push(lists.drop_first(), last);
        assert(all_of(longer) =~= all_of(lists) + last);
    }
}

proof fn put_at_end_all(queue: Seq<String>, lists: Seq<Seq<String>>)
    ensures
        put_at_end(queue, lists) == queue + all_of(lists),
    decreases lists.len(),
{
    if lists.len() == 0 {
        assert(put_at_end(queue, lists) =~= queue + all_of(lists));
    } else {
        let init = lists.drop_last();
        put_at_end_all(queue, init);
        all_of_push(init, lists.last());
        assert(init.push(lists.last()) =~= lists);
        assert(put_at_end(queue, lists) =~= queue + all_of(lists));
    }
}

/// However many portions it takes, keys stand in the queue in their order when all are written: at
/// the place where each portion was put in, or at the end.
pub proof fn batches_keep_the_order(queue: Seq<String>, at: int, keys: Seq<String>, window: nat)
    requires
        window > 0,
        0 <= at <= queue.len(),
    ensures
        put_each(queue, at, portions(keys, window).reverse()) == put_in(queue, at, keys),
        put_at_end(queue, portions(keys, window)) == queue + keys,
{
    portions_hold_all_keys(keys, window);
    put_each_reversed(queue, at, portions(keys, window));
    put_at_end_all(queue, portions(keys, window));
}

/// One move in a server's queue: an entry goes behind another, or to the front.
#[derive(Clone, Copy, Debug, PartialEq, Eq, Structural)]
pub struct Move {
    pub occurrence_id: u64,
    pub after: Option<u64>,
}

/// The identities of the entries.
pub open spec fn ids_of(items: Seq<PlexQueueItem>) -> Seq<u64> {
    items.map_values(|item: PlexQueueItem| item.occurrence_id)
}

/// The moves that bring a portion to the front, last entry first.
pub open spec fn front_moves(ids: Seq<u64>) -> Seq<Move> {
    ids.reverse().map_values(|id: u64| Move { occurrence_id: id, after: None })
}

/// The moves that bring the first `count` of some entries before all others.
pub fn moves_to_front(inserted: &Vec<PlexQueueItem>, count: usize) -> (result: Vec<Move>)
    ensures
        ({
            let n = if count < inserted@.len() { count as int } else { inserted@.len() as int };
            result@ == front_moves(ids_of(inserted@).take(n))
        }),
{
    let mut result: Vec<Move> = Vec::new();
    let mut i: usize = if count < inserted.len() {
        count
    } else {
        inserted.len()
    };
    let ghost n = i as int;
    let ghost ids = ids_of(inserted@).take(n);
    while i > 0
        invariant
            i <= n <= inserted@.len(),
            ids == ids_of(inserted@).take(n),
            result@ =~= front_moves(ids).take(n - i),
        decreases i,
    {
        i -= 1;
        assert(front_moves(ids)[n - 1 - i] == (Move { occurrence_id: ids[i as int], after: None }));
        assert(ids[i as int] == inserted@[i as int].occurrence_id);
        result.push(Move { occurrence_id: inserted[i].occurrence_id, after: None });
    }
    assert(front_moves(ids).take(n) =~= front_moves(ids));
    result
}

/// A queue without an entry.
pub open spec fn minus(queue: Seq<u64>, id: u64) -> Seq<u64>
    decreases queue.len(),
{
    if queue.len() == 0 {
        seq![]
    } else if queue.last() == id {
        minus(queue.drop_last(), id)
    } else {
        minus(queue.drop_last(), id).push(queue.last())
    }
}

/// The first place of an entry.
pub open spec fn place_in(queue: Seq<u64>, id: u64) -> int
    decreases queue.len(),
{
    if queue.len() == 0 || queue[0] == id {
        0
    } else {
        1 + place_in(queue.drop_first(), id)
    }
}

/// A queue with a block put behind an entry, or at the front.
pub open spec fn put_behind(queue: Seq<u64>, after: Option<u64>, block: Seq<u64>) -> Seq<u64> {
    match after {
        None => block + queue,
        Some(id) => {
            let i = place_in(queue, id);
            queue.take(i + 1) + block + queue.skip(i + 1)
        },
    }
}

/// A queue after a move.
pub open spec fn moved(queue: Seq<u64>, step: Move) -> Seq<u64> {
    put_behind(minus(queue, step.occurrence_id), step.after, seq![step.occurrence_id])
}

/// A queue after moves, one after the other.
pub open spec fn all_moved(queue: Seq<u64>, moves: Seq<Move>) -> Seq<u64>
    decreases moves.len(),
{
    if moves.len() == 0 {
        queue
    } else {
        moved(all_moved(queue, moves.drop_last()), moves.last())
    }
}

/// A queue without some entries.
pub open spec fn minus_all(queue: Seq<u64>, ids: Seq<u64>) -> Seq<u64>
    decreases ids.len(),
{
    if ids.len() == 0 {
        queue
    } else {
        minus(minus_all(queue, ids.drop_last()), ids.last())
    }
}

proof fn minus_joined(a: Seq<u64>, b: Seq<u64>, id: u64)
    ensures
        minus(a + b, id) == minus(a, id) + minus(b, id),
    decreases b.len(),
{
    if b.len() == 0 {
        assert(a + b =~= a);
        assert(minus(a, id) + minus(b, id) =~= minus(a, id));
    } else {
        minus_joined(a, b.drop_last(), id);
        assert((a + b).drop_last() =~= a + b.drop_last());
        assert((a + b).last() == b.last());
        assert(minus(a + b, id) =~= minus(a, id) + minus(b, id));
    }
}

proof fn minus_members(queue: Seq<u64>, id: u64)
    ensures
        !minus(queue, id).contains(id),
        forall|x: u64| x != id ==> (minus(queue, id).contains(x) <==> queue.contains(x)),
        !queue.contains(id) ==> minus(queue, id) == queue,
    decreases queue.len(),
{
    if queue.len() > 0 {
        let init = queue.drop_last();
        let last = queue.last();
        minus_members(init, id);
        assert(queue =~= init.push(last));
        let rest = minus(init, id);
        assert forall|x: u64| init.push(last).contains(x) <==> init.contains(x) || x == last by {
            if init.contains(x) {
                let i = choose|i: int| 0 <= i < init.len() && init[i] == x;
                assert(init.push(last)[i] == x);
            }
            assert(init.push(last)[init.len() as int] == last);
        }
        assert forall|x: u64| rest.push(last).contains(x) <==> rest.contains(x) || x == last by {
            if rest.contains(x) {
                let i = choose|i: int| 0 <= i < rest.len() && rest[i] == x;
                assert(rest.push(last)[i] == x);
            }
            assert(rest.push(last)[rest.len() as int] == last);
        }
        assert forall|x: u64| x != id implies (minus(queue, id).contains(x) <==> queue.contains(
            x,
        )) by {
            assert(init.push(last).contains(x) <==> init.contains(x) || x == last);
            assert(rest.push(last).contains(x) <==> rest.contains(x) || x == last);
        }
        if !queue.contains(id) {
            assert(queue.contains(queue[queue.len() - 1]));
            assert(init.push(last).contains(id) <==> init.contains(id) || id == last);
        }
    }
}

proof fn place_behind(a: Seq<u64>, id: u64, b: Seq<u64>)
    requires
        !a.contains(id),
    ensures
        place_in(a + seq![id] + b, id) == a.len(),
    decreases a.len(),
{
    let q = a + seq![id] + b;
    if a.len() > 0 {
        assert(q[0] == a[0]);
        assert(a.contains(a[0]));
        let rest = a.drop_first();
        assert forall|i: int| 0 <= i < rest.len() implies rest[i] != id by {
            assert(a[i + 1] == rest[i]);
        }
        place_behind(rest, id, b);
        assert(q.drop_first() =~= rest + seq![id] + b);
    }
}

proof fn split_at_place(queue: Seq<u64>, id: u64)
    requires
        queue.contains(id),
    ensures
        0 <= place_in(queue, id) < queue.len(),
        !queue.take(place_in(queue, id)).contains(id),
        queue == queue.take(place_in(queue, id)) + seq![id] + queue.skip(place_in(queue, id) + 1),
    decreases queue.len(),
{
    let i = place_in(queue, id);
    if queue[0] != id {
        let rest = queue.drop_first();
        let j = choose|j: int| 0 <= j < queue.len() && queue[j] == id;
        assert(rest[j - 1] == id);
        split_at_place(rest, id);
        assert forall|k: int| 0 <= k < i implies queue.take(i)[k] != id by {
            if k > 0 {
                assert(rest.take(i - 1)[k - 1] == queue[k]);
                assert(rest.take(i - 1).contains(rest.take(i - 1)[k - 1]));
            }
        }
        assert(queue[i] == id) by {
            assert((rest.take(i - 1) + seq![id] + rest.skip(i))[i - 1] == id);
        }
    }
    assert(queue =~= queue.take(i) + seq![id] + queue.skip(i + 1));
}

proof fn minus_all_members(queue: Seq<u64>, ids: Seq<u64>)
    ensures
        forall|x: u64|
            minus_all(queue, ids).contains(x) <==> queue.contains(x) && !ids.contains(x),
    decreases ids.len(),
{
    if ids.len() > 0 {
        let init = ids.drop_last();
        minus_all_members(queue, init);
        minus_members(minus_all(queue, init), ids.last());
        assert(ids =~= init.push(ids.last()));
        assert forall|x: u64| ids.contains(x) <==> init.contains(x) || x == ids.last() by {
            if init.contains(x) {
                let i = choose|i: int| 0 <= i < init.len() && init[i] == x;
                assert(ids[i] == x);
            }
            assert(ids[ids.len() - 1] == ids.last());
        }
    }
}

/// The moves that bring entries behind another one: each goes behind the one before it.
pub open spec fn chain(ids: Seq<u64>, after: Option<u64>) -> Seq<Move> {
    Seq::new(
        ids.len(),
        |i: int|
            Move {
                occurrence_id: ids[i],
                after: if i == 0 {
                    after
                } else {
                    Some(ids[i - 1])
                },
            },
    )
}

/// Moving entries one behind the other puts them, in their order, behind the entry that was meant,
/// and leaves all others in their order.
pub proof fn chains_move_a_block(queue: Seq<u64>, ids: Seq<u64>, after: Option<u64>)
    requires
        ids.no_duplicates(),
        after matches Some(id) ==> queue.contains(id) && !ids.contains(id),
    ensures
        all_moved(queue, chain(ids, after)) == put_behind(minus_all(queue, ids), after, ids),
    decreases ids.len(),
{
    let moves = chain(ids, after);
    if ids.len() == 0 {
        match after {
            None => {
                assert(put_behind(queue, after, ids) =~= queue);
            },
            Some(id) => {
                split_at_place(queue, id);
                assert(put_behind(queue, after, ids) =~= queue);
            },
        }
    } else {
        let p = ids.drop_last();
        let x = ids.last();
        assert(moves.drop_last() =~= chain(p, after));
        assert(p.no_duplicates());
        assert forall|i: int| 0 <= i < p.len() implies p[i] != x by {
            assert(ids[i] == p[i] && ids[ids.len() - 1] == x);
        }
        if let Some(id) = after {
            assert forall|i: int| 0 <= i < p.len() implies p[i] != id by {
                assert(ids[i] == p[i]);
                assert(ids.contains(ids[i]));
            }
            assert(ids.contains(ids[ids.len() - 1]));
        }
        chains_move_a_block(queue, p, after);
        minus_all_members(queue, p);
        let r = minus_all(queue, p);
        let s = minus(r, x);
        let q = put_behind(r, after, p);
        minus_members(p, x);
        minus_members(r, x);
        assert(ids =~= p.push(x));
        let last = moves.last();
        if p.len() > 0 {
            let prev = p.last();
            assert(last == (Move { occurrence_id: x, after: Some(prev) }));
            let head = p.drop_last();
            assert(p =~= head + seq![prev]);
            assert forall|i: int| 0 <= i < head.len() implies head[i] != prev by {
                assert(p[i] == head[i] && p[p.len() - 1] == prev);
            }
            assert(p.contains(p[p.len() - 1]));
            match after {
                None => {
                    minus_joined(p, r, x);
                    assert(minus(q, x) == p + s);
                    assert(p + s =~= head + seq![prev] + s);
                    place_behind(head, prev, s);
                    assert(moved(q, last) =~= put_behind(s, after, ids));
                },
                Some(id) => {
                    split_at_place(r, id);
                    let i = place_in(r, id);
                    let a = r.take(i);
                    let b = r.skip(i + 1);
                    let ma = minus(a, x);
                    let mb = minus(b, x);
                    minus_members(a, x);
                    minus_members(b, x);
                    minus_members(seq![id], x);
                    assert(!seq![id].contains(x));
                    assert(q =~= a + seq![id] + p + b);
                    minus_joined(a + seq![id] + p, b, x);
                    minus_joined(a + seq![id], p, x);
                    minus_joined(a, seq![id], x);
                    assert(minus(q, x) == ma + seq![id] + p + mb);
                    minus_joined(a + seq![id], b, x);
                    assert(s == ma + seq![id] + mb);
                    let front = ma + seq![id] + head;
                    assert forall|k: int| 0 <= k < front.len() implies front[k] != prev by {
                        if k < ma.len() {
                            assert(ma.contains(ma[k]));
                            assert(a.contains(ma[k]) || ma[k] == x);
                            if a.contains(prev) {
                                let m = choose|m: int| 0 <= m < a.len() && a[m] == prev;
                                assert(r[m] == prev);
                                assert(r.contains(prev));
                            }
                        } else if k == ma.len() {
                        } else {
                            assert(front[k] == head[k - ma.len() - 1]);
                        }
                    }
                    assert(minus(q, x) =~= front + seq![prev] + mb);
                    place_behind(front, prev, mb);
                    assert(!ma.contains(id));
                    place_behind(ma, id, mb);
                    assert(moved(q, last) =~= ma + seq![id] + ids + mb);
                    assert(put_behind(s, after, ids) =~= ma + seq![id] + ids + mb);
                },
            }
        } else {
            assert(last == (Move { occurrence_id: x, after }));
            assert(r == queue);
            assert(all_moved(queue, moves.drop_last()) == queue);
            assert(ids =~= seq![x]);
        }
    }
}

/// The moves of a portion to the front leave it there in its order.
pub proof fn front_moves_keep_the_order(queue: Seq<u64>, ids: Seq<u64>)
    requires
        ids.no_duplicates(),
    ensures
        all_moved(queue, front_moves(ids)).len() >= ids.len(),
        all_moved(queue, front_moves(ids)).take(ids.len() as int) == ids,
    decreases ids.len(),
{
    let moves = front_moves(ids);
    if ids.len() == 0 {
        assert(moves =~= Seq::<Move>::empty());
        assert(queue.take(0) =~= ids);
    } else {
        let rest = ids.drop_first();
        let x = ids[0];
        assert(moves.drop_last() =~= front_moves(rest));
        assert(moves.last() == (Move { occurrence_id: x, after: None }));
        front_moves_keep_the_order(queue, rest);
        let q = all_moved(queue, front_moves(rest));
        let tail = q.skip(rest.len() as int);
        assert(q =~= rest + tail);
        assert forall|i: int| 0 <= i < rest.len() implies rest[i] != x by {
            assert(ids[i + 1] == rest[i]);
        }
        minus_members(rest, x);
        minus_joined(rest, tail, x);
        let after = all_moved(queue, moves);
        assert(after =~= seq![x] + rest + minus(tail, x));
        assert(after.take(ids.len() as int) =~= ids);
    }
}

/// An entry is one of those that are moved.
pub open spec fn is_moved(ids: Seq<String>, item: u64) -> bool {
    exists|i: int| 0 <= i < ids.len() && item_of(#[trigger] ids[i]@) == Some(item as nat)
}

fn moves_item(ids: &Vec<String>, item: u64) -> (result: bool)
    ensures
        result == is_moved(ids@, item),
{
    let mut i: usize = 0;
    while i < ids.len()
        invariant
            i <= ids@.len(),
            forall|j: int| 0 <= j < i ==> item_of(#[trigger] ids@[j]@) != Some(item as nat),
        decreases ids@.len() - i,
    {
        if let Some(own) = plex_occurrence(ids[i].as_str()) {
            if own == item {
                return true;
            }
        }
        i += 1;
    }
    false
}

/// The last of the first `upto` entries that is not moved itself.
pub open spec fn last_unmoved(items: Seq<PlexQueueItem>, upto: int, ids: Seq<String>) -> Option<u64>
    decreases upto,
{
    if upto <= 0 || upto > items.len() {
        None
    } else if is_moved(ids, items[upto - 1].occurrence_id) {
        last_unmoved(items, upto - 1, ids)
    } else {
        Some(items[upto - 1].occurrence_id)
    }
}

fn find_unmoved(items: &Vec<PlexQueueItem>, upto: usize, ids: &Vec<String>) -> (result: Option<u64>)
    requires
        upto <= items@.len(),
    ensures
        result == last_unmoved(items@, upto as int, ids@),
{
    let mut i: usize = upto;
    while i > 0
        invariant
            i <= upto <= items@.len(),
            last_unmoved(items@, upto as int, ids@) == last_unmoved(items@, i as int, ids@),
        decreases i,
    {
        let item: u64 = items[i - 1].occurrence_id;
        if !moves_item(ids, item) {
            return Some(item);
        }
        i -= 1;
    }
    None
}

/// The entry behind which moved entries go, or none for the front.
pub open spec fn reorder_after(
    ids: Seq<String>,
    target: QueueReorderTarget,
    items: Seq<PlexQueueItem>,
) -> Result<Option<u64>, PlexError> {
    match target {
        QueueReorderTarget::After(id) => Ok(
            match item_of(id@) {
                Some(item) => Some(item as u64),
                None => None,
            },
        ),
        QueueReorderTarget::Before(id) => match item_of(id@) {
            None => Err(PlexError::TargetOccurrenceGone),
            Some(item) => match item_index(items, item as u64, 0) {
                None => Err(PlexError::TargetOccurrenceGone),
                Some(index) => Ok(last_unmoved(items, index, ids)),
            },
        },
        QueueReorderTarget::End => Ok(last_unmoved(items, items.len() as int, ids)),
    }
}

/// The entries that identities name, up to the first that names none.
pub open spec fn named_items(ids: Seq<String>) -> Seq<u64>
    decreases ids.len(),
{
    if ids.len() == 0 {
        seq![]
    } else {
        match item_of(ids[0]@) {
            Some(item) => seq![item as u64] + named_items(ids.drop_first()),
            None => seq![],
        }
    }
}

/// The entries that identities name. What stands before one that names none is still done; then
/// the failure is reported.
pub fn name_items(ids: &Vec<String>) -> (result: (Vec<u64>, Option<PlexError>))
    ensures
        result.0@ == named_items(ids@),
        result.1 == if named_items(ids@).len() == ids@.len() {
            None
        } else {
            Some(PlexError::OccurrenceGone)
        },
{
    let mut items: Vec<u64> = Vec::new();
    let mut i: usize = 0;
    assert(ids@.skip(0) =~= ids@);
    assert(items@ + named_items(ids@) =~= named_items(ids@));
    while i < ids.len()
        invariant
            i <= ids@.len(),
            items@.len() == i,
            items@ + named_items(ids@.skip(i as int)) == named_items(ids@),
        decreases ids@.len() - i,
    {
        let ghost rest = ids@.skip(i as int);
        let ghost held = items@;
        assert(rest.drop_first() =~= ids@.skip(i + 1));
        match plex_occurrence(ids[i].as_str()) {
            Some(item) => {
                items.push(item);
                assert(items@ + named_items(ids@.skip(i + 1)) =~= held + named_items(rest));
            },
            None => {
                assert(items@ =~= named_items(ids@));
                return (items, Some(PlexError::OccurrenceGone));
            },
        }
        i += 1;
    }
    assert(ids@.skip(i as int) =~= Seq::<String>::empty());
    assert(items@ =~= named_items(ids@));
    (items, None)
}

/// The moves of a reordering, and the failure after them where an identity names no entry.
pub struct Reordering {
    pub moves: Vec<Move>,
    pub failure: Option<PlexError>,
}

/// Plans a reordering of a player's queue. `items` is the whole queue.
pub fn reorder(ids: &Vec<String>, target: &QueueReorderTarget, items: &Vec<PlexQueueItem>) -> (result:
    Result<Reordering, PlexError>)
    ensures
        match (result, reorder_after(ids@, *target, items@)) {
            (Ok(plan), Ok(after)) => {
                &&& plan.moves@ == chain(named_items(ids@), after)
                &&& plan.failure == if named_items(ids@).len() == ids@.len() {
                    None
                } else {
                    Some(PlexError::OccurrenceGone)
                }
            },
            (Err(error), Err(expected)) => error == expected,
            _ => false,
        },
{
    let after: Option<u64> = match target {
        QueueReorderTarget::After(id) => plex_occurrence(id.as_str()),
        QueueReorderTarget::Before(id) => match plex_occurrence(id.as_str()) {
            None => {
                return Err(PlexError::TargetOccurrenceGone);
            },
            Some(item) => match find_item(items, item) {
                None => {
                    return Err(PlexError::TargetOccurrenceGone);
                },
                Some(index) => find_unmoved(items, index, ids),
            },
        },
        QueueReorderTarget::End => find_unmoved(items, items.len(), ids),
    };
    let (named, failure) = name_items(ids);
    let mut moves: Vec<Move> = Vec::new();
    let mut i: usize = 0;
    while i < named.len()
        invariant
            i <= named@.len(),
            moves@ =~= chain(named@, after).take(i as int),
        decreases named@.len() - i,
    {
        let behind: Option<u64> = if i == 0 {
            after
        } else {
            Some(named[i - 1])
        };
        moves.push(Move { occurrence_id: named[i], after: behind });
        i += 1;
    }
    assert(chain(named@, after).take(i as int) =~= chain(named@, after));
    Ok(Reordering { moves, failure })
}

proof fn unmoved_is_not_moved(items: Seq<PlexQueueItem>, upto: int, ids: Seq<String>)
    requires
        0 <= upto <= items.len(),
    ensures
        last_unmoved(items, upto, ids) matches Some(item) ==> !is_moved(ids, item) && ids_of(
            items,
        ).contains(item),
    decreases upto,
{
    if upto > 0 {
        if is_moved(ids, items[upto - 1].occurrence_id) {
            unmoved_is_not_moved(items, upto - 1, ids);
        } else {
            assert(ids_of(items)[upto - 1] == items[upto - 1].occurrence_id);
        }
    }
}

proof fn named_items_are_moved(ids: Seq<String>)
    ensures
        forall|i: int|
            0 <= i < named_items(ids).len() ==> is_moved(ids, #[trigger] named_items(ids)[i]),
    decreases ids.len(),
{
    if ids.len() > 0 && item_of(ids[0]@) is Some {
        let rest = ids.drop_first();
        named_items_are_moved(rest);
        assert forall|i: int| 0 <= i < named_items(ids).len() implies is_moved(
            ids,
            #[trigger] named_items(ids)[i],
        ) by {
            if i == 0 {
                plex_item_fits(ids[0]@);
                assert(item_of(ids[0]@) == Some(named_items(ids)[0] as nat));
            } else {
                assert(named_items(ids)[i] == named_items(rest)[i - 1]);
                let j = choose|j: int|
                    0 <= j < rest.len() && item_of(#[trigger] rest[j]@) == Some(
                        named_items(rest)[i - 1] as nat,
                    );
                assert(ids[j + 1]@ == rest[j]@);
            }
        }
    }
}

proof fn plex_item_fits(id: Seq<char>)
    ensures
        item_of(id) matches Some(item) ==> item <= u64::MAX,
{
}

/// Entries that go before another, or to the end, stand together in their order behind the last
/// entry that stays, and all entries that stay keep their order.
pub proof fn reordering_keeps_the_others(
    items: Seq<PlexQueueItem>,
    ids: Seq<String>,
    target: QueueReorderTarget,
    after: Option<u64>,
)
    requires
        !(target is After),
        reorder_after(ids, target, items) == Ok::<Option<u64>, PlexError>(after),
        named_items(ids).no_duplicates(),
    ensures
        all_moved(ids_of(items), chain(named_items(ids), after)) == put_behind(
            minus_all(ids_of(items), named_items(ids)),
            after,
            named_items(ids),
        ),
{
    let upto = match target {
        QueueReorderTarget::Before(id) => item_index(items, item_of(id@)->0 as u64, 0)->0,
        _ => items.len() as int,
    };
    if let QueueReorderTarget::Before(id) = target {
        crate::playback::plex::item_index_is_first(items, item_of(id@)->0 as u64, 0);
    }
    unmoved_is_not_moved(items, upto, ids);
    named_items_are_moved(ids);
    if let Some(item) = after {
        assert(!named_items(ids).contains(item));
    }
    chains_move_a_block(ids_of(items), named_items(ids), after);
}

/// Whether a part of a queue that was read before is still the one that a player reports.
pub fn window_current(window: &PlexQueueWindow, timeline: &Timeline) -> (result: bool)
    ensures
        result == (timeline.play_queue_id == Some(window.id) && timeline.play_queue_version == Some(
            window.version,
        )),
{
    timeline.play_queue_id == Some(window.id) && timeline.play_queue_version == Some(window.version)
}

/// Where all entries of a queue come from: the part at hand, or the server's list of them.
pub fn window_complete(window: &PlexQueueWindow) -> (result: bool)
    ensures
        result == (window.items@.len() == window.total),
{
    window.items.len() == window.total
}

/// The server's list must be of the queue that was asked for, and complete.
pub fn check_membership(window_version: u64, membership: &PlexQueueWindow) -> (result: Result<
    (),
    PlexError,
>)
    ensures
        result == if membership.version != window_version {
            Err::<(), PlexError>(PlexError::QueueChanged)
        } else if membership.items@.len() != membership.total {
            Err(PlexError::QueueIncomplete)
        } else {
            Ok(())
        },
{
    if membership.version != window_version {
        Err(PlexError::QueueChanged)
    } else if membership.items.len() != membership.total {
        Err(PlexError::QueueIncomplete)
    } else {
        Ok(())
    }
}

} // verus!
