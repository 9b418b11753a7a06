//! What the commands promise of one another: what a later command sees of
//! what a command before it did.
use vstd::prelude::*;

use super::server::config_get::config_get_reply;
use super::server::config_set_db_file_name::set_dbfilename_outcome;
use super::server::config_set_log_fle::set_logfile_outcome;
use super::sets::sadd::sadd_outcome;
use super::sets::sismember::sismember_reply;
use super::strings::append::append_outcome;
use super::strings::get::get_reply;
use super::strings::getset::getset_outcome;
use super::strings::mset::pairs_inserted;
use super::strings::strlen::strlen_reply;
use super::strings::{apply, fits_isize, modification_outcome, Modification};
use crate::database::{touched, KeySpace, TypeSavedView};
use crate::native_types::redis_type::{array_encoding, bulk_encoding, integer_encoding, nil_text};
use crate::server_redis_attributes::ServerRedisAttributes;
use crate::text::{int_to_decimal, lemma_parse_isize_of_decimal, parse_isize_spec};

verus! {

/// A string set by SET is what GET gives back, whenever it is asked: SET
/// leaves the key with no expiration.
pub proof fn law_set_then_get(m: KeySpace, key: Seq<char>, value: Seq<char>, now: u64)
    ensures
        get_reply(touched(m.insert(key, (None, TypeSavedView::String(value))), key, now), key) == Ok::<
            Seq<char>,
            (Seq<char>, Seq<char>),
        >(bulk_encoding(value)),
{
}

/// After GETSET, GET gives the string that was set.
pub proof fn law_getset_then_get(
    t: KeySpace,
    key: Seq<char>,
    value: Seq<char>,
    after: KeySpace,
    reply: Result<Seq<char>, (Seq<char>, Seq<char>)>,
)
    requires
        getset_outcome(t, key, value, after, reply),
        reply is Ok,
    ensures
        get_reply(after, key) == Ok::<Seq<char>, (Seq<char>, Seq<char>)>(bulk_encoding(value)),
{
}

/// After a key is removed (DEL, GETDEL), GET gives the missing value.
pub proof fn law_removed_then_get(m: KeySpace, key: Seq<char>)
    ensures
        get_reply(m.remove(key), key) == Ok::<Seq<char>, (Seq<char>, Seq<char>)>(bulk_encoding(nil_text())),
{
}

/// The length that APPEND replies is the length that STRLEN then gives.
pub proof fn law_append_then_strlen(
    t: KeySpace,
    key: Seq<char>,
    value: Seq<char>,
    after: KeySpace,
    reply: Result<Seq<char>, (Seq<char>, Seq<char>)>,
)
    requires
        append_outcome(t, key, value, after, reply),
        reply is Ok,
    ensures
        strlen_reply(after, key) == reply,
{
}

/// Every member that SADD added is then a member for SISMEMBER.
pub proof fn law_sadd_then_sismember(
    t: KeySpace,
    key: Seq<char>,
    members: Set<Seq<char>>,
    after: KeySpace,
    reply: Result<Seq<char>, (Seq<char>, Seq<char>)>,
    member: Seq<char>,
)
    requires
        sadd_outcome(t, key, members, after, reply),
        reply is Ok,
        members.contains(member),
    ensures
        sismember_reply(after, key, member) == Ok::<Seq<char>, (Seq<char>, Seq<char>)>(integer_encoding(1)),
{
}

/// INCRBY then DECRBY of the same amount leaves the number the key held,
/// written in decimal, and DECRBY replies it.
pub proof fn law_increment_then_decrement(
    t: KeySpace,
    key: Seq<char>,
    amount: int,
    mid: KeySpace,
    first: Result<Seq<char>, (Seq<char>, Seq<char>)>,
    after: KeySpace,
    second: Result<Seq<char>, (Seq<char>, Seq<char>)>,
)
    requires
        modification_outcome(t, key, amount, Modification::Increment, mid, first),
        first is Ok,
        modification_outcome(mid, key, amount, Modification::Decrement, after, second),
        fits_isize(apply(
            Modification::Increment,
            if t.contains_key(key) {
                parse_isize_spec(t[key].1->String_0)->Some_0
            } else {
                0
            },
            amount,
        )),
    ensures
        ({
            let before: int = if t.contains_key(key) {
                parse_isize_spec(t[key].1->String_0)->Some_0
            } else {
                0
            };
            &&& after == t.insert(key, (None, TypeSavedView::String(int_to_decimal(before))))
            &&& second == Ok::<Seq<char>, (Seq<char>, Seq<char>)>(integer_encoding(before))
        }),
{
    let before: int = if t.contains_key(key) {
        parse_isize_spec(t[key].1->String_0)->Some_0
    } else {
        0
    };
    lemma_parse_isize_of_decimal(before + amount);
    assert(mid[key].1 == TypeSavedView::String(int_to_decimal(before + amount)));
    assert(after =~= t.insert(key, (None, TypeSavedView::String(int_to_decimal(before)))));
}

/// The log file that CONFIG SET LOGFILE sets is the one CONFIG GET LOGFILE
/// then gives.
pub proof fn law_config_set_then_get_logfile(
    args: Seq<Seq<char>>,
    before: ServerRedisAttributes,
    after: ServerRedisAttributes,
    reply: Result<Seq<char>, (Seq<char>, Seq<char>)>,
)
    requires
        set_logfile_outcome(args, before, after, reply),
        args.len() > 0,
    ensures
        config_get_reply(seq!["logfile"@], after) == Ok::<Seq<char>, (Seq<char>, Seq<char>)>(
            array_encoding(seq!["logfile"@, args[0]]),
        ),
{
    reveal_strlit("logfile");
    reveal_strlit("port");
    reveal_strlit("timeout");
    assert("logfile"@ != "port"@) by {
        assert("logfile"@.len() != "port"@.len());
    }
    assert("logfile"@ != "timeout"@) by {
        assert("logfile"@[0] != "timeout"@[0]);
    }
}

/// The dump file that CONFIG SET DBFILENAME sets is the one CONFIG GET
/// DBFILENAME then gives.
pub proof fn law_config_set_then_get_dbfilename(
    args: Seq<Seq<char>>,
    before: ServerRedisAttributes,
    after: ServerRedisAttributes,
    reply: Result<Seq<char>, (Seq<char>, Seq<char>)>,
)
    requires
        set_dbfilename_outcome(args, before, after, reply),
        args.len() > 0,
    ensures
        config_get_reply(seq!["dbfilename"@], after) == Ok::<Seq<char>, (Seq<char>, Seq<char>)>(
            array_encoding(seq!["dbfilename"@, args[0]]),
        ),
{
    reveal_strlit("dbfilename");
    reveal_strlit("logfile");
    reveal_strlit("port");
    reveal_strlit("timeout");
    assert("dbfilename"@ != "port"@) by {
        assert("dbfilename"@.len() != "port"@.len());
    }
    assert("dbfilename"@ != "timeout"@) by {
        assert("dbfilename"@.len() != "timeout"@.len());
    }
    assert("dbfilename"@ != "logfile"@) by {
        assert("dbfilename"@.len() != "logfile"@.len());
    }
}


/// Setting pairs whose keys are all other than `k` leaves `k` as it was.
pub proof fn lemma_pairs_keep(m: KeySpace, args: Seq<Seq<char>>, k: Seq<char>)
    requires
        forall|j: int| 0 <= j < args.len() && j % 2 == 0 ==> args[j] != k,
    ensures
        pairs_inserted(m, args).contains_key(k) == m.contains_key(k),
        m.contains_key(k) ==> pairs_inserted(m, args)[k] == m[k],
    decreases args.len(),
{
    if args.len() >= 2 {
        let rest = args.skip(2);
        assert forall|j: int| 0 <= j < rest.len() && j % 2 == 0 implies rest[j] != k by {
            assert(rest[j] == args[j + 2]);
        }
        lemma_pairs_keep(m.insert(args[0], (None, TypeSavedView::String(args[1]))), rest, k);
    }
}

/// After MSET, each key holds, with no expiration, the string of the last
/// pair that names it.
pub proof fn law_mset_then_get(m: KeySpace, args: Seq<Seq<char>>, i: int)
    requires
        args.len() % 2 == 0,
        0 <= i < args.len(),
        i % 2 == 0,
        forall|j: int| i < j < args.len() && j % 2 == 0 ==> #[trigger] args[j] != args[i],
    ensures
        pairs_inserted(m, args).contains_key(args[i]),
        pairs_inserted(m, args)[args[i]] == (None::<u64>, TypeSavedView::String(args[i + 1])),
    decreases args.len(),
{
    let rest = args.skip(2);
    let m1 = m.insert(args[0], (None, TypeSavedView::String(args[1])));
    if i == 0 {
        assert forall|j: int| 0 <= j < rest.len() && j % 2 == 0 implies rest[j] != args[0] by {
            assert(rest[j] == args[j + 2]);
        }
        lemma_pairs_keep(m1, rest, args[0]);
    } else {
        assert forall|j: int| i - 2 < j < rest.len() && j % 2 == 0 implies #[trigger] rest[j] != rest[i - 2] by {
            assert(rest[j] == args[j + 2]);
        }
        law_mset_then_get(m1, rest, i - 2);
        assert(rest[i - 2] == args[i]);
        assert(rest[i - 1] == args[i + 1]);
    }
}

} // verus!
