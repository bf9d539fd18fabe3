//! What holds of redacted secrets: a second redaction finds nothing more to hide.

use vstd::prelude::*;
use vstd::seq_lib::*;
use vstd::string::*;

use crate::redaction::{
    all_replaced, is_ordered, ordered, ordering_keeps_the_ranges, precedes, ranges_replaced,
    secret_after, secret_ranges, secret_value, secrets_named, secrets_redacted,
};
use crate::redaction_laws::first_behind;
use crate::text::{
    first, first_is_least, found, found_is_least, is_white, lower, lowered, matches_at, CharClass,
};

verus! {

/// The names whose values are hidden.
pub open spec fn is_secret_name(name: Seq<char>) -> bool {
    ||| name == "authorization"@
    ||| name == "password"@
    ||| name == "api_key"@
    ||| name == "apikey"@
    ||| name == "cookie"@
    ||| name == "secret"@
    ||| name == "token"@
}

/// The text gives the range to the name that stands at `at`.
pub open spec fn claims(s: Seq<char>, name: Seq<char>, at: int, range: (int, int)) -> bool {
    &&& 0 <= at
    &&& matches_at(lowered(s), at, name)
    &&& secret_after(s, at + name.len()) == seq![range]
}

pub open spec fn is_quote(c: char) -> bool {
    c == '"' || c == '\''
}

pub open spec fn is_assignment(c: char) -> bool {
    c == '=' || c == ':'
}

spec fn marker() -> Seq<char> {
    "<redacted>"@
}

proof fn reveal_names()
    ensures
        forall|name: Seq<char>| #[trigger]
            is_secret_name(name) ==> 5 <= name.len() <= 13 && forall|i: int|
                0 <= i < name.len() ==> ('a' <= #[trigger] name[i] <= 'z' || name[i] == '_'),
        marker().len() == 10,
        marker() =~= seq!['<', 'r', 'e', 'd', 'a', 'c', 't', 'e', 'd', '>'],
{
    reveal_strlit("authorization");
    reveal_strlit("password");
    reveal_strlit("api_key");
    reveal_strlit("apikey");
    reveal_strlit("cookie");
    reveal_strlit("secret");
    reveal_strlit("token");
    reveal_strlit("<redacted>");
}

/// No name of a secret stands in a text twice with common characters.
proof fn names_stand_apart(s: Seq<char>, name: Seq<char>, i: int, j: int)
    requires
        is_secret_name(name),
        matches_at(s, i, name),
        matches_at(s, j, name),
        i < j,
    ensures
        i + name.len() <= j,
{
    reveal_strlit("authorization");
    reveal_strlit("password");
    reveal_strlit("api_key");
    reveal_strlit("apikey");
    reveal_strlit("cookie");
    reveal_strlit("secret");
    reveal_strlit("token");
    if j < i + name.len() {
        let d = j - i;
        let a = s.subrange(i, i + name.len());
        let b = s.subrange(j, j + name.len());
        assert(a[d] == b[0]);
        assert(name[d] == name[0]);
        if d + 1 < name.len() {
            assert(a[d + 1] == b[1]);
            assert(name[d + 1] == name[1]);
        }
    }
}

proof fn named_ranges_are_claimed(s: Seq<char>, name: Seq<char>, from: int, i: int)
    requires
        0 <= from,
        name.len() > 0,
        0 <= i < secrets_named(s, name, from).len(),
    ensures
        exists|at: int| claims(s, name, at, secrets_named(s, name, from)[i]),
    decreases s.len() - from,
{
    found_is_least(lowered(s), from, name);
    let at = found(lowered(s), from, name)->0;
    let after = at + name.len();
    let here = secret_after(s, after);
    let range = secrets_named(s, name, from)[i];
    if i < here.len() {
        assert(here =~= seq![range]);
        assert(claims(s, name, at, range));
    } else {
        named_ranges_are_claimed(s, name, after, i - here.len());
    }
}

proof fn claimed_ranges_are_named(
    s: Seq<char>,
    name: Seq<char>,
    from: int,
    at: int,
    range: (int, int),
)
    requires
        0 <= from <= at,
        is_secret_name(name),
        claims(s, name, at, range),
    ensures
        secrets_named(s, name, from).contains(range),
    decreases s.len() - from,
{
    reveal_names();
    let low = lowered(s);
    found_is_least(low, from, name);
    let here = found(low, from, name)->0;
    let after = here + name.len();
    let list = secrets_named(s, name, from);
    let rest = secrets_named(s, name, after);
    if here == at {
        assert(list[0] == range);
    } else {
        names_stand_apart(low, name, here, at);
        assert(low.subrange(at, at + name.len())[0] == low[at]);
        assert(low[at] == lower(s[at]));
        assert(!is_white(s[at]));
        first_is_least(s, after, CharClass::White, false);
        assert(first(s, after, CharClass::White, false) <= at);
        claimed_ranges_are_named(s, name, after, at, range);
        let k = choose|k: int| 0 <= k < rest.len() && rest[k] == range;
        assert(list == secret_after(s, after) + rest);
        assert(list[secret_after(s, after).len() + k] == range);
    }
}

proof fn named_range(s: Seq<char>, name: Seq<char>, i: int, j: int)
    requires
        is_secret_name(name),
        0 <= j < secrets_named(s, name, 0).len(),
        secret_ranges(s)[i] == secrets_named(s, name, 0)[j],
    ensures
        exists|name: Seq<char>, at: int|
            is_secret_name(name) && claims(s, name, at, secret_ranges(s)[i]),
{
    reveal_names();
    named_ranges_are_claimed(s, name, 0, j);
    let at = choose|at: int| claims(s, name, at, secrets_named(s, name, 0)[j]);
    assert(claims(s, name, at, secret_ranges(s)[i]));
}

proof fn ranges_are_claimed(s: Seq<char>, i: int)
    requires
        0 <= i < secret_ranges(s).len(),
    ensures
        exists|name: Seq<char>, at: int|
            is_secret_name(name) && claims(s, name, at, secret_ranges(s)[i]),
{
    reveal_names();
    let a = secrets_named(s, "authorization"@, 0);
    let b = a + secrets_named(s, "password"@, 0);
    let c = b + secrets_named(s, "api_key"@, 0);
    let d = c + secrets_named(s, "apikey"@, 0);
    let e = d + secrets_named(s, "cookie"@, 0);
    let f = e + secrets_named(s, "secret"@, 0);
    assert(is_secret_name("authorization"@) && is_secret_name("password"@) && is_secret_name(
        "api_key"@,
    ) && is_secret_name("apikey"@) && is_secret_name("cookie"@) && is_secret_name("secret"@)
        && is_secret_name("token"@));
    if i < a.len() {
        named_range(s, "authorization"@, i, i);
    } else if i < b.len() {
        named_range(s, "password"@, i, i - a.len());
    } else if i < c.len() {
        named_range(s, "api_key"@, i, i - b.len());
    } else if i < d.len() {
        named_range(s, "apikey"@, i, i - c.len());
    } else if i < e.len() {
        named_range(s, "cookie"@, i, i - d.len());
    } else if i < f.len() {
        named_range(s, "secret"@, i, i - e.len());
    } else {
        named_range(s, "token"@, i, i - f.len());
    }
}

proof fn claims_are_ranges(s: Seq<char>, name: Seq<char>, at: int, range: (int, int))
    requires
        is_secret_name(name),
        claims(s, name, at, range),
    ensures
        secret_ranges(s).contains(range),
{
    claimed_ranges_are_named(s, name, 0, at, range);
    let own = secrets_named(s, name, 0);
    let k = choose|k: int| 0 <= k < own.len() && own[k] == range;
    let a = secrets_named(s, "authorization"@, 0);
    let b = a + secrets_named(s, "password"@, 0);
    let c = b + secrets_named(s, "api_key"@, 0);
    let d = c + secrets_named(s, "apikey"@, 0);
    let e = d + secrets_named(s, "cookie"@, 0);
    let f = e + secrets_named(s, "secret"@, 0);
    let all = secret_ranges(s);
    if name == "authorization"@ {
        assert(all[k] == range);
    } else if name == "password"@ {
        assert(all[a.len() + k] == range);
    } else if name == "api_key"@ {
        assert(all[b.len() + k] == range);
    } else if name == "apikey"@ {
        assert(all[c.len() + k] == range);
    } else if name == "cookie"@ {
        assert(all[d.len() + k] == range);
    } else if name == "secret"@ {
        assert(all[e.len() + k] == range);
    } else {
        assert(all[f.len() + k] == range);
    }
}

/// What a range that is claimed looks like: the content of quotes, or a word behind an assignment.
spec fn is_value(s: Seq<char>, range: (int, int)) -> bool {
    &&& 0 < range.0 < range.1 <= s.len()
    &&& {
        ||| is_quote(s[range.0 - 1]) && range.1 == first(
            s,
            range.0,
            CharClass::Only(s[range.0 - 1]),
            true,
        )
        ||| (is_white(s[range.0 - 1]) || is_assignment(s[range.0 - 1])) && !is_white(s[range.0])
            && !is_quote(s[range.0]) && range.1 == first(s, range.0, CharClass::SecretEnd, true)
    }
}

proof fn claimed_ranges_are_values(s: Seq<char>, name: Seq<char>, at: int, range: (int, int))
    requires
        claims(s, name, at, range),
    ensures
        is_value(s, range),
{
    let after = at + name.len();
    first_is_least(s, after as int, CharClass::White, false);
    let sep = first(s, after as int, CharClass::White, false);
    assert(secret_after(s, after as int)[0] == range);
    assert(range == secret_value(s, sep));
    first_is_least(s, sep + 1, CharClass::White, false);
    let start = first(s, sep + 1, CharClass::White, false);
    if start < s.len() && is_quote(s[start]) {
        first_is_least(s, start + 1, CharClass::Only(s[start]), true);
    } else {
        first_is_least(s, start, CharClass::SecretEnd, true);
        if start > sep + 1 {
            assert(CharClass::White.has(s[start - 1]));
        }
    }
}

/// The ranges that are replaced, of ranges in order, from `cursor` on.
pub open spec fn taken(list: Seq<(int, int)>, cursor: int) -> Seq<(int, int)>
    decreases list.len(),
{
    if list.len() == 0 {
        seq![]
    } else if list[0].0 < cursor {
        taken(list.drop_first(), cursor)
    } else {
        seq![list[0]] + taken(list.drop_first(), list[0].1)
    }
}

/// Each range is not empty and ends before the next one begins.
spec fn is_chain(list: Seq<(int, int)>, cursor: int, length: int) -> bool {
    &&& forall|i: int|
        0 <= i < list.len() ==> cursor <= (#[trigger] list[i]).0 < list[i].1 <= length
    &&& forall|i: int, j: int|
        0 <= i < j < list.len() ==> (#[trigger] list[i]).1 <= (#[trigger] list[j]).0
}

proof fn taken_ranges_are_a_chain(s: Seq<char>, list: Seq<(int, int)>, cursor: int, marker: Seq<char>)
    requires
        is_ordered(list),
        forall|i: int| 0 <= i < list.len() ==> (#[trigger] list[i]).0 < list[i].1 <= s.len(),
    ensures
        is_chain(taken(list, cursor), cursor, s.len() as int),
        ranges_replaced(s, list, cursor, marker) == all_replaced(
            s,
            taken(list, cursor),
            cursor,
            marker,
        ),
        forall|i: int|
            0 <= i < taken(list, cursor).len() ==> list.contains(#[trigger] taken(list, cursor)[i]),
        forall|k: int|
            0 <= k < list.len() && (#[trigger] list[k]).0 >= cursor ==> is_covered(
                taken(list, cursor),
                list[k].0,
            ),
    decreases list.len(),
{
    if list.len() > 0 {
        let rest = list.drop_first();
        let result = taken(list, cursor);
        assert forall|i: int, j: int| 0 <= i < j < rest.len() implies #[trigger] precedes(
            rest[i],
            rest[j],
        ) by {
            assert(precedes(list[i + 1], list[j + 1]));
        }
        assert forall|i: int| 0 <= i < rest.len() implies (#[trigger] rest[i]).0 < rest[i].1
            <= s.len() by {
            assert(rest[i] == list[i + 1]);
        }
        if list[0].0 < cursor {
            taken_ranges_are_a_chain(s, rest, cursor, marker);
            assert forall|i: int| 0 <= i < result.len() implies list.contains(
                #[trigger] result[i],
            ) by {
                let m = choose|m: int| 0 <= m < rest.len() && rest[m] == result[i];
                assert(list[m + 1] == result[i]);
            }
            assert forall|k: int| 0 <= k < list.len() && (#[trigger] list[k]).0
                >= cursor implies is_covered(result, list[k].0) by {
                assert(rest[k - 1] == list[k]);
            }
        } else {
            let next = list[0].1;
            taken_ranges_are_a_chain(s, rest, next, marker);
            let more = taken(rest, next);
            assert(result == seq![list[0]] + more);
            assert(result.drop_first() =~= more);
            assert(result[0] == list[0]);
            assert forall|i: int| 0 <= i < result.len() implies cursor <= (#[trigger] result[i]).0
                < result[i].1 <= s.len() by {
                if i > 0 {
                    assert(result[i] == more[i - 1]);
                }
            }
            assert forall|i: int, j: int| 0 <= i < j < result.len() implies (
            #[trigger] result[i]).1 <= (#[trigger] result[j]).0 by {
                assert(result[j] == more[j - 1]);
                if i > 0 {
                    assert(result[i] == more[i - 1]);
                }
            }
            assert forall|i: int| 0 <= i < result.len() implies list.contains(
                #[trigger] result[i],
            ) by {
                if i > 0 {
                    assert(result[i] == more[i - 1]);
                    let m = choose|m: int| 0 <= m < rest.len() && rest[m] == more[i - 1];
                    assert(list[m + 1] == result[i]);
                }
            }
            assert forall|k: int| 0 <= k < list.len() && (#[trigger] list[k]).0
                >= cursor implies is_covered(result, list[k].0) by {
                if k == 0 {
                    assert(result[0].0 <= list[k].0 < result[0].1);
                } else {
                    assert(precedes(list[0], list[k]));
                    assert(rest[k - 1] == list[k]);
                    if list[k].0 < next {
                        assert(result[0].0 <= list[k].0 < result[0].1);
                    } else {
                        assert(is_covered(more, list[k].0));
                        let m = choose|m: int|
                            0 <= m < more.len() && (#[trigger] more[m]).0 <= list[k].0 < more[m].1;
                        assert(result[m + 1] == more[m]);
                    }
                }
            }
        }
    }
}

/// The position lies in one of the ranges.
pub open spec fn is_covered(list: Seq<(int, int)>, at: int) -> bool {
    exists|m: int| 0 <= m < list.len() && (#[trigger] list[m]).0 <= at < list[m].1
}

/// The values of a text that are replaced.
pub open spec fn hidden(s: Seq<char>) -> Seq<(int, int)> {
    taken(ordered(secret_ranges(s)), 0)
}

/// What is known of the replaced values.
spec fn is_hidden_list(s: Seq<char>, list: Seq<(int, int)>) -> bool {
    &&& is_chain(list, 0, s.len() as int)
    &&& forall|i: int| 0 <= i < list.len() ==> is_value(s, #[trigger] list[i])
    &&& forall|name: Seq<char>, at: int, range: (int, int)|
        is_secret_name(name) && #[trigger] claims(s, name, at, range) ==> is_covered(list, range.0)
}

proof fn ordered_ranges_are_values(s: Seq<char>)
    ensures
        forall|i: int|
            0 <= i < ordered(secret_ranges(s)).len() ==> is_value(
                s,
                #[trigger] ordered(secret_ranges(s))[i],
            ) && secret_ranges(s).contains(ordered(secret_ranges(s))[i]),
{
    broadcast use group_to_multiset_ensures;

    let all = secret_ranges(s);
    let list = ordered(all);
    ordering_keeps_the_ranges(all);
    assert forall|i: int| 0 <= i < list.len() implies is_value(s, #[trigger] list[i])
        && all.contains(list[i]) by {
        assert(list.contains(list[i]));
        assert(all.to_multiset().count(list[i]) > 0);
        let k = choose|k: int| 0 <= k < all.len() && all[k] == list[i];
        ranges_are_claimed(s, k);
        let (name, at) = choose|name: Seq<char>, at: int|
            is_secret_name(name) && claims(s, name, at, all[k]);
        claimed_ranges_are_values(s, name, at, all[k]);
    }
}

proof fn hidden_values(s: Seq<char>)
    ensures
        is_hidden_list(s, hidden(s)),
        secrets_redacted(s) == all_replaced(s, hidden(s), 0, marker()),
{
    broadcast use group_to_multiset_ensures;

    let all = secret_ranges(s);
    let list = ordered(all);
    ordering_keeps_the_ranges(all);
    ordered_ranges_are_values(s);
    taken_ranges_are_a_chain(s, list, 0, marker());
    let result = hidden(s);
    assert forall|i: int| 0 <= i < result.len() implies is_value(s, #[trigger] result[i]) by {
        let m = choose|m: int| 0 <= m < list.len() && list[m] == result[i];
        assert(is_value(s, list[m]));
    }
    assert forall|name: Seq<char>, at: int, range: (int, int)|
        is_secret_name(name) && #[trigger] claims(s, name, at, range) implies is_covered(
        result,
        range.0,
    ) by {
        claims_are_ranges(s, name, at, range);
        assert(all.to_multiset().count(range) > 0);
        assert(list.to_multiset().count(range) > 0);
        assert(list.contains(range));
        let k = choose|k: int| 0 <= k < list.len() && list[k] == range;
        assert(is_value(s, list[k]));
        assert(list[k].0 >= 0);
    }
}

/// Where nothing is given to the name of a secret, the text stays as it is.
pub proof fn texts_without_secrets_are_kept(s: Seq<char>)
    requires
        forall|name: Seq<char>, at: int, range: (int, int)|
            is_secret_name(name) ==> !#[trigger] claims(s, name, at, range),
    ensures
        secrets_redacted(s) == s,
{
    let all = secret_ranges(s);
    if all.len() > 0 {
        ranges_are_claimed(s, 0);
    }
    assert(all =~= seq![]);
    assert(s.skip(0) =~= s);
}

proof fn markers_hold_no_name(a: Seq<char>, b: Seq<char>, at: int, name: Seq<char>)
    requires
        is_secret_name(name),
        matches_at(lowered(a + marker() + b), at, name),
    ensures
        at + name.len() <= a.len() || a.len() + 10 <= at,
{
    reveal_names();
    let s = a + marker() + b;
    let low = lowered(s);
    let here = low.subrange(at, at + name.len());
    if at + name.len() > a.len() && at < a.len() + 10 {
        assert forall|i: int| 0 <= i < 10 implies #[trigger] s[a.len() + i] == marker()[i] by {}
        assert forall|k: int| 0 <= k < name.len() implies #[trigger] name[k] == lower(
            s[at + k],
        ) by {
            assert(here[k] == low[at + k]);
        }
        if at <= a.len() {
            let k = a.len() - at;
            assert(s[a.len() as int] == '<');
            assert(name[k] == lower(s[at + k]));
        } else if at + name.len() > a.len() + 9 {
            let k = a.len() + 9 - at;
            assert(s[a.len() + 9int] == '>');
            assert(name[k] == lower(s[at + k]));
        } else {
            reveal_strlit("authorization");
            reveal_strlit("password");
            reveal_strlit("api_key");
            reveal_strlit("apikey");
            reveal_strlit("cookie");
            reveal_strlit("secret");
            reveal_strlit("token");
            let d = at - a.len();
            assert(name[0] == lower(s[at]));
            assert(name[1] == lower(s[at + 1]));
            assert(s[a.len() + d] == marker()[d]);
            assert(s[a.len() + (d + 1)] == marker()[d + 1]);
            assert(1 <= d <= 4);
        }
    }
}

proof fn lowered_behind(a: Seq<char>, b: Seq<char>, at: int, name: Seq<char>)
    requires
        0 <= at,
    ensures
        matches_at(lowered(a + b), a.len() + at, name) == matches_at(lowered(b), at, name),
{
    let whole = lowered(a + b);
    let part = lowered(b);
    if at + name.len() <= b.len() {
        assert(whole.subrange(a.len() + at, a.len() + at + name.len()) =~= part.subrange(
            at,
            at + name.len(),
        ));
    }
}

proof fn chain_behind(list: Seq<(int, int)>, cursor: int, length: int)
    requires
        is_chain(list, cursor, length),
        list.len() > 0,
    ensures
        is_chain(list.drop_first(), list[0].1, length),
{
    let rest = list.drop_first();
    assert forall|i: int| 0 <= i < rest.len() implies list[0].1 <= (#[trigger] rest[i]).0
        < rest[i].1 <= length by {
        assert(rest[i] == list[i + 1]);
        assert(list[0].1 <= list[i + 1].0);
    }
    assert forall|i: int, j: int| 0 <= i < j < rest.len() implies (#[trigger] rest[i]).1 <= (
    #[trigger] rest[j]).0 by {
        assert(rest[i] == list[i + 1] && rest[j] == list[j + 1]);
    }
}

/// A name in the redacted text stands in the text itself, outside all replaced values, and what
/// follows it is the redacted rest.
proof fn names_are_kept(
    s: Seq<char>,
    list: Seq<(int, int)>,
    cursor: int,
    at: int,
    name: Seq<char>,
) -> (kept: (int, int))
    requires
        0 <= cursor <= s.len(),
        0 <= at,
        is_chain(list, cursor, s.len() as int),
        is_secret_name(name),
        matches_at(lowered(all_replaced(s, list, cursor, marker())), at, name),
    ensures
        ({
            let (k, p) = kept;
            &&& 0 <= k <= list.len()
            &&& cursor <= p
            &&& p + name.len() <= s.len()
            &&& matches_at(lowered(s), p, name)
            &&& k < list.len() ==> p + name.len() <= list[k].0
            &&& k > 0 ==> list[k - 1].1 <= p
            &&& all_replaced(s, list, cursor, marker()).skip(at + name.len()) == all_replaced(
                s,
                list.skip(k),
                p + name.len(),
                marker(),
            )
        }),
    decreases list.len(),
{
    reveal_names();
    let w = all_replaced(s, list, cursor, marker());
    let size = name.len() as int;
    assert(list.skip(0) =~= list);
    if list.len() == 0 {
        let front = s.take(cursor);
        assert(s =~= front + w);
        lowered_behind(front, w, at, name);
        assert(w.skip(at + size) =~= s.skip(cursor + at + size));
        (0, cursor + at)
    } else {
        let range = list[0];
        let a = s.subrange(cursor, range.0);
        let rest = list.drop_first();
        let tail = all_replaced(s, rest, range.1, marker());
        assert(w =~= a + marker() + tail);
        markers_hold_no_name(a, tail, at, name);
        if at + size <= a.len() {
            let low = lowered(s);
            assert(low.subrange(cursor + at, cursor + at + size) =~= lowered(w).subrange(
                at,
                at + size,
            ));
            let next = s.subrange(cursor + at + size, range.0);
            assert(w.skip(at + size) =~= next + marker() + tail);
            (0, cursor + at)
        } else {
            let front = a + marker();
            assert(w =~= front + tail);
            let inner = at - front.len();
            lowered_behind(front, tail, inner, name);
            chain_behind(list, cursor, s.len() as int);
            let (k, p) = names_are_kept(s, rest, range.1, inner, name);
            assert(w.skip(at + size) =~= tail.skip(inner + size));
            assert(rest.skip(k) =~= list.skip(k + 1));
            if k < rest.len() {
                assert(rest[k] == list[k + 1]);
            }
            if k > 0 {
                assert(rest[k - 1] == list[k]);
            }
            (k + 1, p)
        }
    }
}

/// Behind a character that is no quote, white space is kept: no value starts in it.
proof fn white_space_is_kept(s: Seq<char>, list: Seq<(int, int)>, from: int)
    requires
        0 < from <= s.len(),
        !is_quote(s[from - 1]),
        is_chain(list, from, s.len() as int),
        forall|i: int| 0 <= i < list.len() ==> is_value(s, #[trigger] list[i]),
    ensures
        ({
            let until = first(s, from, CharClass::White, false);
            let w = all_replaced(s, list, from, marker());
            &&& from <= until <= s.len()
            &&& list.len() > 0 ==> until <= list[0].0
            &&& first(w, 0, CharClass::White, false) == until - from
            &&& w.len() >= until - from
            &&& w.skip(until - from) == all_replaced(s, list, until, marker())
        }),
{
    reveal_names();
    let until = first(s, from, CharClass::White, false);
    first_is_least(s, from, CharClass::White, false);
    let w = all_replaced(s, list, from, marker());
    if list.len() > 0 {
        let range = list[0];
        assert(is_value(s, range));
        if range.0 < until {
            assert(CharClass::White.has(s[range.0]));
            if range.0 > from {
                assert(CharClass::White.has(s[range.0 - 1]));
            }
        }
        let tail = all_replaced(s, list.drop_first(), range.1, marker());
        assert(w =~= s.subrange(from, range.0) + marker() + tail);
        assert(w.skip(until - from) =~= s.subrange(until, range.0) + marker() + tail);
        if until == range.0 {
            assert(w[until - from] == '<');
        } else {
            assert(w[until - from] == s[until]);
        }
        assert forall|i: int| 0 <= i < until - from implies w[i] == s[from + i] by {}
    } else {
        assert(w.skip(until - from) =~= s.skip(until));
    }
    first_is_least(w, 0, CharClass::White, false);
    let found = first(w, 0, CharClass::White, false);
    if found < until - from {
        assert(w[found] == s[from + found]);
        assert(CharClass::White.has(s[from + found]));
    }
    if found > until - from {
        assert(CharClass::White.has(w[until - from]));
    }
}

/// Values that touch: the second begins where the first ends, so that the first, once both are
/// replaced, reads on into the second.
pub open spec fn reads_on(s: Seq<char>) -> bool {
    exists|name: Seq<char>, at: int, k: int|
        {
            &&& is_secret_name(name)
            &&& 0 <= k < hidden(s).len() - 1
            &&& #[trigger] claims(s, name, at, #[trigger] hidden(s)[k])
            &&& !is_covered(hidden(s), at)
            &&& hidden(s)[k].1 == hidden(s)[k + 1].0
        }
}

/// A replaced value is followed by what ended it.
proof fn markers_end(s: Seq<char>, list: Seq<(int, int)>, end: CharClass)
    requires
        list.len() > 0,
        is_chain(list, list[0].0, s.len() as int),
        0 <= list[0].0,
        list.len() > 1 ==> list[0].1 != list[1].0,
        list[0].1 == first(s, list[0].0, end, true),
        forall|i: int| 0 <= i < 10 ==> !end.has(#[trigger] marker()[i]),
    ensures
        ({
            let w = all_replaced(s, list, list[0].0, marker());
            &&& first(w, 0, end, true) == 10
            &&& w.len() >= 10
            &&& w.subrange(0, 10) == marker()
        }),
{
    reveal_names();
    let range = list[0];
    let rest = list.drop_first();
    let tail = all_replaced(s, rest, range.1, marker());
    let w = all_replaced(s, list, range.0, marker());
    assert(s.subrange(range.0, range.0) =~= Seq::<char>::empty());
    assert(w =~= marker() + tail);
    assert(w.subrange(0, 10) =~= marker());
    first_is_least(s, range.0, end, true);
    if range.1 < s.len() {
        assert(end.has(s[range.1]));
        if rest.len() > 0 {
            assert(rest[0] == list[1]);
            assert(list[0].1 <= list[1].0);
            assert(tail =~= s.subrange(range.1, list[1].0) + marker() + all_replaced(
                s,
                rest.drop_first(),
                list[1].1,
                marker(),
            ));
        }
        assert(tail[0] == s[range.1]);
        assert(w[10] == s[range.1]);
    } else {
        if rest.len() > 0 {
            assert(list[0].1 <= list[1].0 < list[1].1 <= s.len());
        }
        assert(tail =~= Seq::<char>::empty());
    }
    first_is_least(w, 0, end, true);
    let found = first(w, 0, end, true);
    if found < 10 {
        assert(w[found] == marker()[found]);
    }
    if found > 10 {
        assert(end.has(w[10]));
        assert(!end.has(w[10]));
    }
}

proof fn first_from(s: Seq<char>, from: int, class: CharClass, inside: bool)
    requires
        0 <= from <= s.len(),
    ensures
        first(s, from, class, inside) == from + first(s.skip(from), 0, class, inside),
{
    assert(s =~= s.take(from) + s.skip(from));
    first_behind(s.take(from), s.skip(from), 0, class, inside);
}

proof fn chain_from(list: Seq<(int, int)>, k: int, cursor: int, length: int)
    requires
        is_chain(list, 0, length),
        0 <= k <= list.len(),
        k < list.len() ==> cursor <= list[k].0,
    ensures
        is_chain(list.skip(k), cursor, length),
{
    let rest = list.skip(k);
    assert forall|i: int| 0 <= i < rest.len() implies cursor <= (#[trigger] rest[i]).0 < rest[i].1
        <= length by {
        assert(rest[i] == list[k + i]);
        if i > 0 {
            assert(list[k].1 <= list[k + i].0);
        }
        assert(list[k].0 < list[k].1);
    }
    assert forall|i: int, j: int| 0 <= i < j < rest.len() implies (#[trigger] rest[i]).1 <= (
    #[trigger] rest[j]).0 by {
        assert(rest[i] == list[k + i] && rest[j] == list[k + j]);
    }
}

/// The values that the name at `p`, with `k` replaced values before it, could claim.
spec fn stands_between(s: Seq<char>, list: Seq<(int, int)>, k: int, p: int, name: Seq<char>) -> bool {
    &&& is_secret_name(name)
    &&& is_hidden_list(s, list)
    &&& 0 <= p
    &&& p + name.len() <= s.len()
    &&& matches_at(lowered(s), p, name)
    &&& 0 <= k <= list.len()
    &&& k < list.len() ==> p + name.len() <= list[k].0
    &&& k > 0 ==> list[k - 1].1 <= p
}

proof fn names_between_are_uncovered(
    s: Seq<char>,
    list: Seq<(int, int)>,
    k: int,
    p: int,
    name: Seq<char>,
)
    requires
        stands_between(s, list, k, p, name),
    ensures
        !is_covered(list, p),
{
    reveal_names();
    if is_covered(list, p) {
        let m = choose|m: int| 0 <= m < list.len() && (#[trigger] list[m]).0 <= p < list[m].1;
        if m < k - 1 {
            assert(list[m].1 <= list[k - 1].0);
            assert(list[k - 1].0 < list[k - 1].1);
        } else if m > k {
            assert(list[k].1 <= list[m].0);
            assert(list[k].0 < list[k].1);
        }
    }
}

/// A value that the name claims is replaced: a replaced value starts no later, behind the name.
proof fn claimed_starts_are_replaced(
    s: Seq<char>,
    list: Seq<(int, int)>,
    k: int,
    p: int,
    name: Seq<char>,
    range: (int, int),
)
    requires
        stands_between(s, list, k, p, name),
        claims(s, name, p, range),
        p < range.0,
    ensures
        k < list.len(),
        list[k].0 <= range.0,
{
    assert(is_covered(list, range.0));
    let m = choose|m: int| 0 <= m < list.len() && (#[trigger] list[m]).0 <= range.0 < list[m].1;
    if m < k - 1 {
        assert(list[m].1 <= list[k - 1].0);
        assert(list[k - 1].0 < list[k - 1].1);
    } else if m > k {
        assert(list[k].1 <= list[m].0);
        assert(list[k].0 < list[k].1);
    }
}

/// Where a name that is kept is given a value in the redacted text, the value is the marker.
proof fn values_are_markers(
    s: Seq<char>,
    k: int,
    p: int,
    name: Seq<char>,
    range: (int, int),
)
    requires
        !reads_on(s),
        stands_between(s, hidden(s), k, p, name),
        secret_after(all_replaced(s, hidden(s).skip(k), p + name.len(), marker()), 0) == seq![
            range,
        ],
    ensures
        ({
            let w = all_replaced(s, hidden(s).skip(k), p + name.len(), marker());
            0 <= range.0 <= range.1 <= w.len() && w.subrange(range.0, range.1) == marker()
        }),
{
    reveal_names();
    let all = hidden(s);
    let list = all.skip(k);
    let e = p + name.len();
    let w = all_replaced(s, list, e, marker());
    let length = s.len() as int;
    chain_from(all, k, e, length);
    assert forall|i: int| 0 <= i < list.len() implies is_value(s, #[trigger] list[i]) by {
        assert(list[i] == all[k + i]);
    }
    names_between_are_uncovered(s, all, k, p, name);
    let low = lowered(s);
    assert(low.subrange(p, e)[name.len() - 1] == low[e - 1]);
    assert(low[e - 1] == lower(s[e - 1]));
    assert(!is_quote(s[e - 1]));
    // Behind the name, up to the assignment.
    white_space_is_kept(s, list, e);
    let sep = first(s, e, CharClass::White, false);
    let wsep = first(w, 0, CharClass::White, false);
    assert(secret_after(w, 0)[0] == range);
    assert(wsep < w.len() && is_assignment(w[wsep]) && range == secret_value(w, wsep) && range.0
        < range.1);
    assert(w.skip(wsep)[0] == w[wsep]);
    if list.len() > 0 && list[0].0 == sep {
        assert(s.subrange(sep, sep) =~= Seq::<char>::empty());
        assert(w.skip(wsep)[0] == '<');
    }
    assert(sep < length && s[sep] == w[wsep]) by {
        if list.len() > 0 {
            assert(s.subrange(sep, list[0].0)[0] == s[sep]);
        }
    }
    chain_from(all, k, sep + 1, length);
    let v = all_replaced(s, list, sep + 1, marker());
    assert(w.skip(wsep + 1) =~= v) by {
        if list.len() > 0 {
            assert(s.subrange(sep, list[0].0) =~= seq![s[sep]] + s.subrange(sep + 1, list[0].0));
        }
        assert(w.skip(wsep + 1) =~= w.skip(wsep).skip(1));
    }
    // Behind the assignment, up to the value.
    white_space_is_kept(s, list, sep + 1);
    let start = first(s, sep + 1, CharClass::White, false);
    first_is_least(s, sep + 1, CharClass::White, false);
    first_from(w, wsep + 1, CharClass::White, false);
    let wstart = first(w, wsep + 1, CharClass::White, false);
    assert(wstart == start - e);
    chain_from(all, k, start, length);
    let x = all_replaced(s, list, start, marker());
    assert(w.skip(wstart) =~= x) by {
        assert(w.skip(wstart) =~= w.skip(wsep + 1).skip(start - sep - 1));
    }
    assert(wstart < w.len() ==> w[wstart] == x[0]);
    assert(is_white(s[start - 1]) || is_assignment(s[start - 1])) by {
        if start > sep + 1 {
            assert(CharClass::White.has(s[start - 1]));
        }
    }
    if list.len() > 0 && list[0].0 == start {
        // A replaced word.
        assert(is_value(s, list[0]));
        assert(all[k] == list[0]);
        assert(secret_value(s, sep) == list[0]);
        assert(secret_after(s, e) =~= seq![list[0]]);
        assert(claims(s, name, p, all[k]));
        if list.len() > 1 {
            assert(list[1] == all[k + 1]);
            assert(all[k].1 != all[k + 1].0);
        }
        markers_end(s, list, CharClass::SecretEnd);
        assert(x[0] == '<') by {
            assert(x.subrange(0, 10)[0] == x[0]);
        }
        first_from(w, wstart, CharClass::SecretEnd, true);
        assert(range == (wstart, wstart + 10));
        assert(w.subrange(wstart, wstart + 10) =~= x.subrange(0, 10));
    } else if start < length && is_quote(s[start]) {
        let q = s[start];
        assert(x[0] == q) by {
            if list.len() > 0 {
                assert(s.subrange(start, list[0].0)[0] == q);
            }
        }
        chain_from(all, k, start + 1, length);
        let y = all_replaced(s, list, start + 1, marker());
        assert(w.skip(wstart + 1) =~= y) by {
            if list.len() > 0 {
                assert(s.subrange(start, list[0].0) =~= seq![q] + s.subrange(
                    start + 1,
                    list[0].0,
                ));
            }
            assert(w.skip(wstart + 1) =~= w.skip(wstart).skip(1));
        }
        first_from(w, wstart + 1, CharClass::Only(q), true);
        let end = first(s, start + 1, CharClass::Only(q), true);
        first_is_least(s, start + 1, CharClass::Only(q), true);
        assert(range == (wstart + 1, wstart + 1 + first(y, 0, CharClass::Only(q), true)));
        if start + 1 < end {
            let own = (start + 1, end);
            assert(secret_value(s, sep) == own);
            assert(secret_after(s, e) =~= seq![own]);
            claimed_starts_are_replaced(s, all, k, p, name, own);
            assert(list[0] == all[k]);
            assert(list[0].0 == start + 1);
            assert(is_value(s, list[0]));
            assert(list[0] == own);
            if list.len() > 1 {
                assert(list[1] == all[k + 1]);
                assert(claims(s, name, p, all[k]));
                assert(all[k].1 != all[k + 1].0);
            }
            markers_end(s, list, CharClass::Only(q));
            assert(w.subrange(wstart + 1, wstart + 11) =~= y.subrange(0, 10));
        } else {
            if list.len() > 0 && list[0].0 == start + 1 {
                assert(is_value(s, list[0]));
            }
            if start + 1 < length {
                assert(s[start + 1] == q);
                assert(y[0] == q) by {
                    if list.len() > 0 {
                        assert(s.subrange(start + 1, list[0].0)[0] == q);
                    }
                }
            } else {
                assert(list.len() == 0) by {
                    if list.len() > 0 {
                        assert(start < list[0].0 < list[0].1 <= length);
                    }
                }
                assert(y =~= Seq::<char>::empty());
            }
            assert(false);
        }
    } else if start < length {
        assert(x[0] == s[start]) by {
            if list.len() > 0 {
                assert(s.subrange(start, list[0].0)[0] == s[start]);
            }
        }
        let end = first(s, start, CharClass::SecretEnd, true);
        first_is_least(s, start, CharClass::SecretEnd, true);
        if start < end {
            let own = (start, end);
            assert(secret_value(s, sep) == own);
            assert(secret_after(s, e) =~= seq![own]);
            claimed_starts_are_replaced(s, all, k, p, name, own);
            assert(list[0] == all[k]);
            assert(false);
        } else {
            assert(CharClass::SecretEnd.has(x[0]));
            assert(false);
        }
    } else {
        assert(list.len() == 0) by {
            if list.len() > 0 {
                assert(start <= list[0].0 < list[0].1 <= length);
            }
        }
        assert(x =~= Seq::<char>::empty());
        assert(wstart == w.len());
        assert(false);
    }
}

proof fn secrets_behind(a: Seq<char>, b: Seq<char>, from: int)
    requires
        0 <= from <= b.len(),
    ensures
        secret_after(a + b, a.len() + from).len() == secret_after(b, from).len(),
        secret_after(b, from).len() > 0 ==> secret_after(a + b, a.len() + from)[0] == (
            a.len() + secret_after(b, from)[0].0,
            a.len() + secret_after(b, from)[0].1,
        ),
{
    let s = a + b;
    let by = a.len() as int;
    first_behind(a, b, from, CharClass::White, false);
    first_is_least(b, from, CharClass::White, false);
    let sep = first(b, from, CharClass::White, false);
    if sep < b.len() {
        assert(s[by + sep] == b[sep]);
        first_behind(a, b, sep + 1, CharClass::White, false);
        let start = first(b, sep + 1, CharClass::White, false);
        first_is_least(b, sep + 1, CharClass::White, false);
        if start < b.len() {
            assert(s[by + start] == b[start]);
            first_behind(a, b, start + 1, CharClass::Only(b[start]), true);
        }
        first_behind(a, b, start, CharClass::SecretEnd, true);
    }
}

proof fn replacing_markers_changes_nothing(s: Seq<char>, list: Seq<(int, int)>, cursor: int)
    requires
        is_chain(list, cursor, s.len() as int),
        0 <= cursor <= s.len(),
        forall|i: int|
            0 <= i < list.len() ==> s.subrange((#[trigger] list[i]).0, list[i].1) == marker(),
    ensures
        all_replaced(s, list, cursor, marker()) == s.skip(cursor),
    decreases list.len(),
{
    if list.len() > 0 {
        let rest = list.drop_first();
        chain_behind(list, cursor, s.len() as int);
        assert forall|i: int| 0 <= i < rest.len() implies s.subrange(
            (#[trigger] rest[i]).0,
            rest[i].1,
        ) == marker() by {
            assert(rest[i] == list[i + 1]);
        }
        replacing_markers_changes_nothing(s, rest, list[0].1);
        assert(s.skip(cursor) =~= s.subrange(cursor, list[0].0) + s.subrange(list[0].0, list[0].1)
            + s.skip(list[0].1));
    }
}

/// A second redaction changes nothing, unless a value reads on into the next one.
pub proof fn redacting_twice_is_redacting_once(s: Seq<char>)
    requires
        !reads_on(s),
    ensures
        secrets_redacted(secrets_redacted(s)) == secrets_redacted(s),
{
    let once = secrets_redacted(s);
    hidden_values(s);
    hidden_values(once);
    let list = hidden(once);
    assert forall|i: int| 0 <= i < list.len() implies once.subrange(
        (#[trigger] list[i]).0,
        list[i].1,
    ) == marker() by {
        hidden_values_are_claimed(once, i);
        let (name, at) = choose|name: Seq<char>, at: int|
            is_secret_name(name) && claims(once, name, at, list[i]);
        reveal_names();
        let (k, p) = names_are_kept(s, hidden(s), 0, at, name);
        let e = at + name.len();
        let front = once.take(e);
        let rest = once.skip(e);
        assert(once =~= front + rest);
        secrets_behind(front, rest, 0);
        assert(secret_after(once, e)[0] == list[i]);
        let own = secret_after(rest, 0)[0];
        assert(secret_after(rest, 0) =~= seq![own]);
        values_are_markers(s, k, p, name, own);
        assert(once.subrange(list[i].0, list[i].1) =~= rest.subrange(own.0, own.1));
    }
    replacing_markers_changes_nothing(once, list, 0);
    assert(once.skip(0) =~= once);
}

proof fn hidden_values_are_claimed(s: Seq<char>, i: int)
    requires
        0 <= i < hidden(s).len(),
    ensures
        exists|name: Seq<char>, at: int| is_secret_name(name) && claims(s, name, at, hidden(s)[i]),
{
    let all = secret_ranges(s);
    let list = ordered(all);
    ordering_keeps_the_ranges(all);
    ordered_ranges_are_values(s);
    taken_ranges_are_a_chain(s, list, 0, marker());
    assert(list.contains(hidden(s)[i]));
    let j = choose|j: int| 0 <= j < list.len() && list[j] == hidden(s)[i];
    assert(all.contains(list[j]));
    let k = choose|k: int| 0 <= k < all.len() && all[k] == list[j];
    ranges_are_claimed(s, k);
    let (name, at) = choose|name: Seq<char>, at: int|
        is_secret_name(name) && claims(s, name, at, all[k]);
    assert(claims(s, name, at, hidden(s)[i]));
}

} // verus!
