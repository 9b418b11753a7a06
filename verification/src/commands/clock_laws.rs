//! What the commands promise of the time they run at: each reads the time
//! of the database, which never goes back, so that a key is seen by a
//! command with the deadline it was given before.
use vstd::prelude::*;

use super::sets::sismember::sismember_reply;
use super::strings::get::get_reply;
use super::strings::{apply, modification_outcome, Modification};
use crate::database::dump::{snapshot_text, ttl_number};
use crate::database::{deadline_outcome, touched, Database, KeySpace, TypeSavedView};
use crate::native_types::redis_type::{bulk_encoding, integer_encoding, nil_text};
use crate::native_types::ErrorStruct;
use crate::string_map::lemma_key_at;
use crate::text::int_to_decimal;
use crate::time_expiration::expire_info::{deadline_after, expired, seconds_left, ttl_spec, NANOS_PER_SEC};

verus! {

/// A key given a time to live of `timeout` seconds (`set_ttl`, which leaves
/// the database `mid`) and then saved (SAVE, which writes the dump `dump`
/// at a time `now` no earlier than the time of the database) is written
/// with at most `timeout` seconds left; with exactly `timeout` when the
/// save comes at the very time the time to live was set.
pub proof fn law_save_after_set_ttl(
    before: KeySpace,
    key: Seq<char>,
    timeout: u64,
    mid: Database,
    r: Result<(), ErrorStruct>,
    now: u64,
    dump: Seq<char>,
)
    requires
        mid.wf(),
        timeout <= isize::MAX,
        deadline_outcome(touched(before, key, mid.time), key, deadline_after(timeout, mid.time), mid@, r),
        r is Ok,
        now >= mid.time,
        dump == snapshot_text(mid.elements.entries@, now),
    ensures
        mid@.contains_key(key),
        mid@[key].0 == Some((mid.time + timeout * NANOS_PER_SEC) as u64),
        forall|i: int|
            0 <= i < mid.elements.entries@.len() && #[trigger] mid.elements.entries@[i].0@ == key ==> {
                let deadline = mid.elements.entries@[i].1.0.deadline;
                &&& deadline == mid@[key].0
                &&& !expired(deadline, now) ==> 0 <= ttl_number(deadline, now) <= timeout
                &&& now == mid.time && timeout > 0 ==> !expired(deadline, now) && ttl_number(deadline, now)
                    == timeout
            },
{
    let d = (mid.time + timeout * NANOS_PER_SEC) as u64;
    assert(deadline_after(timeout, mid.time) == Some(d));
    assert forall|i: int|
        0 <= i < mid.elements.entries@.len() && #[trigger] mid.elements.entries@[i].0@ == key implies {
            let deadline = mid.elements.entries@[i].1.0.deadline;
            &&& deadline == mid@[key].0
            &&& !expired(deadline, now) ==> 0 <= ttl_number(deadline, now) <= timeout
            &&& now == mid.time && timeout > 0 ==> !expired(deadline, now) && ttl_number(deadline, now)
                == timeout
        } by {
        lemma_key_at(mid.elements.entries@, i);
        let deadline = mid.elements.entries@[i].1.0.deadline;
        assert(deadline == mid@[key].0);
        assert(deadline == Some(d));
        if now < d {
            let left: int = (d - now) / (NANOS_PER_SEC as int);
            assert(seconds_left(d, now) == left);
            assert(0 <= left <= timeout) by (nonlinear_arith)
                requires
                    left == (d - now) / 1000000000int,
                    0 < d - now <= timeout * 1000000000int,
            ;
            assert(ttl_spec(deadline, now) == Some(left as u64));
            assert(ttl_number(deadline, now) == left);
            if now == mid.time {
                assert(left == timeout) by (nonlinear_arith)
                    requires
                        left == (d - now) / 1000000000int,
                        d - now == timeout * 1000000000int,
                ;
            }
        }
        if now == mid.time && timeout > 0 {
            assert(timeout * NANOS_PER_SEC > 0) by (nonlinear_arith)
                requires
                    timeout > 0,
            ;
            assert(now < d);
        }
    }
}

/// A key whose deadline had already passed for the database when INCRBY or
/// DECRBY ran counts as missing: it is set to the amount (its opposite for
/// DECRBY), with no expiration, and that is the reply.
pub proof fn law_modification_of_expired_key(
    before: Database,
    key: Seq<char>,
    amount: int,
    op: Modification,
    after: Database,
    reply: Result<Seq<char>, (Seq<char>, Seq<char>)>,
)
    requires
        after.time >= before.time,
        modification_outcome(touched(before@, key, after.time), key, amount, op, after@, reply),
        before@.contains_key(key),
        before@[key].0 matches Some(d) && d <= before.time,
    ensures
        reply == Ok::<Seq<char>, (Seq<char>, Seq<char>)>(integer_encoding(apply(op, 0, amount))),
        after@ == before@.remove(key).insert(
            key,
            (None, TypeSavedView::String(int_to_decimal(apply(op, 0, amount)))),
        ),
{
    assert(touched(before@, key, after.time) == before@.remove(key));
}

/// SISMEMBER on a set whose deadline had already passed for the database
/// when it ran replies 0 and leaves the key removed.
pub proof fn law_sismember_of_expired_key(
    before: Database,
    key: Seq<char>,
    member: Seq<char>,
    after: Database,
    reply: Result<Seq<char>, (Seq<char>, Seq<char>)>,
)
    requires
        after.time >= before.time,
        after@ == touched(before@, key, after.time),
        reply == sismember_reply(after@, key, member),
        before@.contains_key(key),
        before@[key].0 matches Some(d) && d <= before.time,
    ensures
        reply == Ok::<Seq<char>, (Seq<char>, Seq<char>)>(integer_encoding(0)),
        !after@.contains_key(key),
{
}

/// GET on a key whose deadline had already passed for the database when it
/// ran gives the missing bulk string and leaves the key removed.
pub proof fn law_get_of_expired_key(
    before: Database,
    key: Seq<char>,
    after: Database,
    reply: Result<Seq<char>, (Seq<char>, Seq<char>)>,
)
    requires
        after.time >= before.time,
        after@ == touched(before@, key, after.time),
        reply == get_reply(after@, key),
        before@.contains_key(key),
        before@[key].0 matches Some(d) && d <= before.time,
    ensures
        reply == Ok::<Seq<char>, (Seq<char>, Seq<char>)>(bulk_encoding(nil_text())),
        !after@.contains_key(key),
{
}

/// GET on a key whose deadline is still to come for the database when it
/// ran, whatever the time it ran at, gives the string the key holds.
pub proof fn law_get_of_live_key(
    before: Database,
    key: Seq<char>,
    after: Database,
    reply: Result<Seq<char>, (Seq<char>, Seq<char>)>,
    value: Seq<char>,
)
    requires
        after@ == touched(before@, key, after.time),
        reply == get_reply(after@, key),
        before@.contains_key(key),
        before@[key].1 == TypeSavedView::String(value),
        before@[key].0 matches Some(d) ==> after.time < d,
    ensures
        reply == Ok::<Seq<char>, (Seq<char>, Seq<char>)>(bulk_encoding(value)),
{
}

} // verus!
