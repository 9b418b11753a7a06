//! The key space of the server: each key holds a string, a list or a set,
//! and may expire.
use rand::seq::IteratorRandom;
use std::collections::VecDeque;
use vstd::prelude::*;

use crate::commands::server::info_formatter::info_db_formatter;
use crate::messages::redis_messages;
use crate::native_types::ErrorStruct;
use crate::redis_config::RedisConfig;
use crate::string_map::{StringMap, StringSet};
use crate::text::nat_to_decimal;
use crate::time_expiration::expire_info::{
    deadline_after, deadline_at, expired, now_nanos, ttl_spec, ExpireInfo,
};

pub mod dump;

verus! {

/// A value of the key space.
#[derive(Debug, PartialEq)]
pub enum TypeSaved {
    String(String),
    List(VecDeque<String>),
    Sets(StringSet),
}

/// What a value of the key space holds.
pub enum TypeSavedView {
    String(Seq<char>),
    List(Seq<Seq<char>>),
    Sets(Set<Seq<char>>),
}

impl View for TypeSaved {
    type V = TypeSavedView;

    open spec fn view(&self) -> TypeSavedView {
        match self {
            TypeSaved::String(s) => TypeSavedView::String(s@),
            TypeSaved::List(l) => TypeSavedView::List(l@.map_values(|s: String| s@)),
            TypeSaved::Sets(s) => TypeSavedView::Sets(s@),
        }
    }
}

impl TypeSaved {
    /// A set value holds no member twice.
    pub open spec fn wf(&self) -> bool {
        match self {
            TypeSaved::Sets(s) => s.wf(),
            _ => true,
        }
    }
}

/// What an entry of the key space holds: its deadline and its value.
pub open spec fn entry_view(e: (ExpireInfo, TypeSaved)) -> (Option<u64>, TypeSavedView) {
    (e.0.deadline, e.1@)
}

/// The key space: for each key, its deadline and its value.
pub type KeySpace = Map<Seq<char>, (Option<u64>, TypeSavedView)>;

/// The key space after a touch of `key` at the time `now`: the key is gone
/// if it has expired.
pub open spec fn touched(m: KeySpace, key: Seq<char>, now: u64) -> KeySpace {
    if m.contains_key(key) && expired(m[key].0, now) {
        m.remove(key)
    } else {
        m
    }
}

/// What a touch of `key` can leave, whatever the time: the key space as it
/// was, or without `key` if `key` was to expire.
pub open spec fn touched_somewhen(before: KeySpace, key: Seq<char>, after: KeySpace) -> bool {
    after == before || (before.contains_key(key) && before[key].0 is Some && after == before.remove(
        key,
    ))
}

pub struct Database {
    pub elements: StringMap<(ExpireInfo, TypeSaved)>,
    pub redis_config: Option<RedisConfig>,
    /// The latest time, in nanoseconds since the Unix epoch, at which the
    /// database read the clock; what it takes for now never goes below it.
    pub time: u64,
}

impl View for Database {
    type V = KeySpace;

    open spec fn view(&self) -> KeySpace {
        self.elements@.map_values(|e: (ExpireInfo, TypeSaved)| entry_view(e))
    }
}

impl Database {
    /// No key occurs twice and no set holds a member twice.
    pub open spec fn wf(&self) -> bool {
        &&& self.elements.wf()
        &&& forall|k: Seq<char>| #[trigger] self.elements@.contains_key(k) ==> self.elements@[k].1.wf()
    }

    /// An empty database.
    pub fn new() -> (d: Self)
        ensures
            d.wf(),
            d@ == KeySpace::empty(),
            d.redis_config is None,
            d.time == 0,
    {
        let d = Database { elements: StringMap::new(), redis_config: None, time: 0 };
        assert(d@ =~= KeySpace::empty());
        d
    }

    /// The time now, in nanoseconds since the Unix epoch: what the clock
    /// reads, or the latest time the database has seen when the clock reads
    /// less, so that time never goes back for the database.
    pub fn clock_now(&self) -> (now: u64)
        ensures
            now >= self.time,
    {
        let reading = now_nanos();
        if reading > self.time {
            reading
        } else {
            self.time
        }
    }

    /// The time now (see `clock_now`), kept as the latest time seen.
    pub fn tick(&mut self) -> (now: u64)
        ensures
            now == final(self).time,
            now >= old(self).time,
            final(self)@ == old(self)@,
            final(self).elements == old(self).elements,
            final(self).redis_config == old(self).redis_config,
    {
        let now = self.clock_now();
        self.time = now;
        now
    }

    /// Database Redis Config setter.
    pub fn set_redis_config(&mut self, redis_config: RedisConfig)
        ensures
            final(self).time == old(self).time,
            final(self).elements == old(self).elements,
            final(self).redis_config == Some(redis_config),
    {
        self.redis_config = Some(redis_config);
    }

    /// A title for the database and its number of keys.
    pub fn info(&self) -> (r: Result<Vec<String>, ErrorStruct>)
        requires
            self.wf(),
        ensures
            r matches Ok(lines) && lines@.len() == 2 && lines@[0]@ == "DATABASE:"@ && lines@[1]@
                == "Number of keys: "@ + nat_to_decimal(self@.len()),
    {
        let mut lines = Vec::new();
        lines.push(info_db_formatter::title());
        lines.push(info_db_formatter::number_of_keys(self.size()));
        Ok(lines)
    }

    /// The number of keys.
    pub fn size(&self) -> (n: usize)
        requires
            self.wf(),
        ensures
            n == self@.len(),
    {
        let n = self.elements.len();
        assert(self@.dom() =~= self.elements@.dom());
        n
    }

    /// Removes `key`; returns its value.
    pub fn remove(&mut self, key: &str) -> (r: Option<TypeSaved>)
        requires
            old(self).wf(),
        ensures
            final(self).time == old(self).time,
            final(self).wf(),
            final(self)@ == old(self)@.remove(key@),
            final(self).redis_config == old(self).redis_config,
            match r {
                Some(v) => old(self)@.contains_key(key@) && v@ == old(self)@[key@].1,
                None => !old(self)@.contains_key(key@),
            },
    {
        let r = match self.elements.remove(key) {
            Some((_, value)) => Some(value),
            None => None,
        };
        assert(self@ =~= old(self)@.remove(key@));
        r
    }

    /// Sets `key` to `value`, with no expiration; returns the value it
    /// replaces.
    pub fn insert(&mut self, key: String, value: TypeSaved) -> (r: Option<TypeSaved>)
        requires
            old(self).wf(),
            value.wf(),
        ensures
            final(self).time == old(self).time,
            final(self).wf(),
            final(self)@ == old(self)@.insert(key@, (None, value@)),
            final(self).redis_config == old(self).redis_config,
            match r {
                Some(v) => old(self)@.contains_key(key@) && v@ == old(self)@[key@].1,
                None => !old(self)@.contains_key(key@),
            },
    {
        let ghost value_view = value@;
        let r = match self.elements.insert(key, (ExpireInfo::new(), value)) {
            Some((_, old_value)) => Some(old_value),
            None => None,
        };
        assert(self@ =~= old(self)@.insert(key@, (None, value_view)));
        r
    }

    /// Sets `key` to `value`, with the expiration `info`.
    pub fn insert_entry(&mut self, key: String, info: ExpireInfo, value: TypeSaved)
        requires
            old(self).wf(),
            value.wf(),
        ensures
            final(self).time == old(self).time,
            final(self).wf(),
            final(self)@ == old(self)@.insert(key@, (info.deadline, value@)),
            final(self).redis_config == old(self).redis_config,
    {
        let ghost entry = (info.deadline, value@);
        self.elements.insert(key, (info, value));
        assert(self@ =~= old(self)@.insert(key@, entry));
    }

    /// Removes `key` if it has expired at the time `now`; `Ok(true)` when it
    /// was removed, `Ok(false)` when it stays, an error when it is not a key.
    pub fn touch_at(&mut self, key: &str, now: u64) -> (r: Result<bool, ErrorStruct>)
        requires
            old(self).wf(),
        ensures
            final(self).time == old(self).time,
            final(self).wf(),
            final(self)@ == touched(old(self)@, key@, now),
            final(self).redis_config == old(self).redis_config,
            match r {
                Ok(removed) => old(self)@.contains_key(key@) && removed == expired(
                    old(self)@[key@].0,
                    now,
                ),
                Err(e) => !old(self)@.contains_key(key@) && e.prefix@ == "KEYNOTFOUND"@
                    && e.message@ == "Session does not exist or has timed out"@,
            },
    {
        let expired_now = match self.elements.get(key) {
            Some(entry) => entry.0.is_expired(now),
            None => {
                return Err(ErrorStruct::from(redis_messages::key_not_found()));
            },
        };
        if expired_now {
            self.elements.remove(key);
            assert(self@ =~= old(self)@.remove(key@));
            Ok(true)
        } else {
            Ok(false)
        }
    }

    /// Removes `key` if it has expired; `Ok(true)` when it was removed,
    /// `Ok(false)` when it stays, an error when it is not a key.
    pub fn touch(&mut self, key: &str) -> (r: Result<bool, ErrorStruct>)
        requires
            old(self).wf(),
        ensures
            final(self).time >= old(self).time,
            final(self)@ == touched(old(self)@, key@, final(self).time),
            r matches Ok(removed) ==> removed == expired(old(self)@[key@].0, final(self).time),
            final(self).wf(),
            touched_somewhen(old(self)@, key@, final(self)@),
            final(self).redis_config == old(self).redis_config,
            match r {
                Ok(removed) => old(self)@.contains_key(key@) && (removed <==> final(self)@
                    != old(self)@),
                Err(e) => !old(self)@.contains_key(key@) && final(self)@ == old(self)@,
            },
    {
        let now = self.tick();
        self.touch_at(key, now)
    }

    /// The value of `key` after a touch at the time `now`.
    pub fn get_at(&mut self, key: &str, now: u64) -> (r: Option<&TypeSaved>)
        requires
            old(self).wf(),
        ensures
            final(self).time == old(self).time,
            final(self).wf(),
            final(self)@ == touched(old(self)@, key@, now),
            final(self).redis_config == old(self).redis_config,
            match r {
                Some(v) => final(self)@.contains_key(key@) && v@ == final(self)@[key@].1 && v.wf(),
                None => !final(self)@.contains_key(key@),
            },
    {
        let _ = self.touch_at(key, now);
        match self.elements.get(key) {
            Some(entry) => Some(&entry.1),
            None => None,
        }
    }

    /// The value of `key`. Performs a touch: an expired key is removed.
    pub fn get(&mut self, key: &str) -> (r: Option<&TypeSaved>)
        requires
            old(self).wf(),
        ensures
            final(self).time >= old(self).time,
            final(self)@ == touched(old(self)@, key@, final(self).time),
            final(self).wf(),
            touched_somewhen(old(self)@, key@, final(self)@),
            final(self).redis_config == old(self).redis_config,
            match r {
                Some(v) => final(self)@.contains_key(key@) && v@ == final(self)@[key@].1 && v.wf(),
                None => !final(self)@.contains_key(key@),
            },
    {
        let now = self.tick();
        self.get_at(key, now)
    }

    /// The value of `key` for update, after a touch at the time `now`.
    pub fn get_mut_at(&mut self, key: &str, now: u64) -> (r: Option<&mut TypeSaved>)
        requires
            old(self).wf(),
        ensures
            final(self).time == old(self).time,
            match r {
                Some(v) => {
                    let t = touched(old(self)@, key@, now);
                    &&& t.contains_key(key@)
                    &&& v@ == t[key@].1
                    &&& v.wf()
                    &&& final(self)@ == t.insert(key@, (t[key@].0, final(v)@))
                    &&& final(v).wf() ==> final(self).wf()
                },
                None => final(self).wf() && final(self)@ == touched(old(self)@, key@, now)
                    && !final(self)@.contains_key(key@),
            },
            final(self).redis_config == old(self).redis_config,
    {
        let _ = self.touch_at(key, now);
        match self.elements.get_mut(key) {
            Some(entry) => Some(&mut entry.1),
            None => None,
        }
    }

    /// The value of `key` for update. Performs a touch: an expired key is
    /// removed.
    pub fn get_mut(&mut self, key: &str) -> (r: Option<&mut TypeSaved>)
        requires
            old(self).wf(),
        ensures
            final(self).time >= old(self).time,
            r matches Some(v) ==> ({
                let t = touched(old(self)@, key@, final(self).time);
                &&& t.contains_key(key@)
                &&& v@ == t[key@].1
                &&& final(self)@ == t.insert(key@, (t[key@].0, final(v)@))
            }),
            r is None ==> final(self)@ == touched(old(self)@, key@, final(self).time),
            match r {
                Some(v) => exists|t: KeySpace|
                    {
                        &&& touched_somewhen(old(self)@, key@, t)
                        &&& t.contains_key(key@)
                        &&& v@ == t[key@].1
                        &&& final(self)@ == t.insert(key@, (t[key@].0, final(v)@))
                    },
                None => final(self).wf() && touched_somewhen(old(self)@, key@, final(self)@)
                    && !final(self)@.contains_key(key@),
            },
            r matches Some(v) ==> v.wf() && (final(v).wf() ==> final(self).wf()),
            final(self).redis_config == old(self).redis_config,
    {
        let now = self.tick();
        let r = self.get_mut_at(key, now);
        proof {
            let t = touched(old(self)@, key@, now);
            assert(touched_somewhen(old(self)@, key@, t));
        }
        r
    }

    /// Whether `key` is a key after a touch at the time `now`.
    pub fn contains_key_at(&mut self, key: &str, now: u64) -> (b: bool)
        requires
            old(self).wf(),
        ensures
            final(self).time == old(self).time,
            final(self).wf(),
            final(self)@ == touched(old(self)@, key@, now),
            final(self).redis_config == old(self).redis_config,
            b == final(self)@.contains_key(key@),
    {
        let _ = self.touch_at(key, now);
        self.elements.contains_key(key)
    }

    /// Whether `key` is a key. Performs a touch: an expired key is removed.
    pub fn contains_key(&mut self, key: &str) -> (b: bool)
        requires
            old(self).wf(),
        ensures
            final(self).time >= old(self).time,
            final(self)@ == touched(old(self)@, key@, final(self).time),
            final(self).wf(),
            touched_somewhen(old(self)@, key@, final(self)@),
            final(self).redis_config == old(self).redis_config,
            b == final(self)@.contains_key(key@),
    {
        let now = self.tick();
        self.contains_key_at(key, now)
    }

    /// Removes every key.
    pub fn clear(&mut self)
        ensures
            final(self).time == old(self).time,
            final(self).wf(),
            final(self)@ == KeySpace::empty(),
            final(self).redis_config == old(self).redis_config,
    {
        self.elements.clear();
        assert(self@ =~= KeySpace::empty());
    }

    /// The seconds before `key` expires, after a touch at the time `now`;
    /// `None` when it is not a key or never expires.
    pub fn ttl_at(&mut self, key: &str, now: u64) -> (r: Option<u64>)
        requires
            old(self).wf(),
        ensures
            final(self).time == old(self).time,
            final(self).wf(),
            final(self)@ == touched(old(self)@, key@, now),
            final(self).redis_config == old(self).redis_config,
            r == (if final(self)@.contains_key(key@) {
                ttl_spec(final(self)@[key@].0, now)
            } else {
                None
            }),
    {
        let _ = self.touch_at(key, now);
        match self.elements.get(key) {
            Some(entry) => entry.0.ttl(now),
            None => None,
        }
    }

    /// The seconds before `key` expires; `None` when it is not a key or
    /// never expires. Performs a touch: an expired key is removed.
    pub fn ttl(&mut self, key: &str) -> (r: Option<u64>)
        requires
            old(self).wf(),
        ensures
            final(self).time >= old(self).time,
            final(self)@ == touched(old(self)@, key@, final(self).time),
            r == (if final(self)@.contains_key(key@) {
                ttl_spec(final(self)@[key@].0, final(self).time)
            } else {
                None
            }),
            final(self).wf(),
            touched_somewhen(old(self)@, key@, final(self)@),
            final(self).redis_config == old(self).redis_config,
            exists|now: u64|
                #![trigger touched(old(self)@, key@, now)]
                final(self)@ == touched(old(self)@, key@, now) && r == (if final(self)@.contains_key(key@) {
                    ttl_spec(final(self)@[key@].0, now)
                } else {
                    None
                }),
    {
        let now = self.tick();
        self.ttl_at(key, now)
    }

    /// Makes `key` expire `timeout` seconds after `now`, after a touch at
    /// the time `now`.
    pub fn set_ttl_at(&mut self, key: &str, timeout: u64, now: u64) -> (r: Result<(), ErrorStruct>)
        requires
            old(self).wf(),
        ensures
            final(self).time == old(self).time,
            final(self).wf(),
            final(self).redis_config == old(self).redis_config,
            deadline_outcome(touched(old(self)@, key@, now), key@, deadline_after(timeout, now), final(self)@, r),
    {
        let _ = self.touch_at(key, now);
        let ghost mid = self@;
        match self.elements.get_mut(key) {
            Some(entry) => {
                let ghost before = entry.0;
                let r = entry.0.set_timeout(timeout, now);
                assert(self@ =~= mid.insert(key@, (entry_view(*entry).0, mid[key@].1)));
                proof {
                    if r is Err {
                        assert(entry.0 == before);
                        assert(mid.insert(key@, (entry_view(*entry).0, mid[key@].1)) =~= mid);
                    }
                }
                r
            },
            None => Err(ErrorStruct::from(redis_messages::key_not_found())),
        }
    }

    /// Makes `key` expire `timeout` seconds from now. Performs a touch: an
    /// expired key is removed.
    pub fn set_ttl(&mut self, key: &str, timeout: u64) -> (r: Result<(), ErrorStruct>)
        requires
            old(self).wf(),
        ensures
            final(self).time >= old(self).time,
            deadline_outcome(
                touched(old(self)@, key@, final(self).time),
                key@,
                deadline_after(timeout, final(self).time),
                final(self)@,
                r,
            ),
            final(self).wf(),
            final(self).redis_config == old(self).redis_config,
            exists|now: u64|
                #![trigger touched(old(self)@, key@, now)]
                deadline_outcome(touched(old(self)@, key@, now), key@, deadline_after(timeout, now), final(self)@, r),
    {
        let now = self.tick();
        let r = self.set_ttl_at(key, timeout, now);
        assert(deadline_outcome(touched(old(self)@, key@, now), key@, deadline_after(timeout, now), self@, r));
        r
    }

    /// Makes `key` expire at `timeout` seconds since the Unix epoch, after
    /// a touch at the time `now`.
    pub fn set_ttl_unix_timestamp_at(&mut self, key: &str, timeout: u64, now: u64) -> (r: Result<(), ErrorStruct>)
        requires
            old(self).wf(),
        ensures
            final(self).time == old(self).time,
            final(self).wf(),
            final(self).redis_config == old(self).redis_config,
            deadline_outcome(touched(old(self)@, key@, now), key@, deadline_at(timeout), final(self)@, r),
    {
        let _ = self.touch_at(key, now);
        let ghost mid = self@;
        match self.elements.get_mut(key) {
            Some(entry) => {
                let ghost before = entry.0;
                let r = entry.0.set_timeout_unix_timestamp(timeout);
                assert(self@ =~= mid.insert(key@, (entry_view(*entry).0, mid[key@].1)));
                proof {
                    if r is Err {
                        assert(entry.0 == before);
                        assert(mid.insert(key@, (entry_view(*entry).0, mid[key@].1)) =~= mid);
                    }
                }
                r
            },
            None => Err(ErrorStruct::from(redis_messages::key_not_found())),
        }
    }

    /// Makes `key` expire at `timeout` seconds since the Unix epoch.
    /// Performs a touch: an expired key is removed.
    pub fn set_ttl_unix_timestamp(&mut self, key: &str, timeout: u64) -> (r: Result<(), ErrorStruct>)
        requires
            old(self).wf(),
        ensures
            final(self).time >= old(self).time,
            deadline_outcome(touched(old(self)@, key@, final(self).time), key@, deadline_at(timeout), final(self)@, r),
            final(self).wf(),
            final(self).redis_config == old(self).redis_config,
            exists|now: u64|
                #![trigger touched(old(self)@, key@, now)]
                deadline_outcome(touched(old(self)@, key@, now), key@, deadline_at(timeout), final(self)@, r),
    {
        let now = self.tick();
        let r = self.set_ttl_unix_timestamp_at(key, timeout, now);
        assert(deadline_outcome(touched(old(self)@, key@, now), key@, deadline_at(timeout), self@, r));
        r
    }

    /// Makes `key` never expire, after a touch at the time `now`; returns
    /// the seconds that were left, if it was to expire.
    pub fn persist_at(&mut self, key: &str, now: u64) -> (r: Option<u64>)
        requires
            old(self).wf(),
        ensures
            final(self).time == old(self).time,
            final(self).wf(),
            final(self).redis_config == old(self).redis_config,
            persist_outcome(touched(old(self)@, key@, now), key@, now, final(self)@, r),
    {
        let _ = self.touch_at(key, now);
        let ghost mid = self@;
        match self.elements.get_mut(key) {
            Some(entry) => {
                let r = entry.0.persist(now);
                assert(self@ =~= mid.insert(key@, (None, mid[key@].1)));
                r
            },
            None => None,
        }
    }

    /// Makes `key` never expire; returns the seconds that were left, if it
    /// was to expire. Performs a touch: an expired key is removed.
    pub fn persist(&mut self, key: &str) -> (r: Option<u64>)
        requires
            old(self).wf(),
        ensures
            final(self).time >= old(self).time,
            persist_outcome(touched(old(self)@, key@, final(self).time), key@, final(self).time, final(self)@, r),
            final(self).wf(),
            final(self).redis_config == old(self).redis_config,
            exists|now: u64|
                #![trigger touched(old(self)@, key@, now)]
                persist_outcome(touched(old(self)@, key@, now), key@, now, final(self)@, r),
    {
        let now = self.tick();
        let r = self.persist_at(key, now);
        assert(persist_outcome(touched(old(self)@, key@, now), key@, now, self@, r));
        r
    }
}

/// A position below `len` picked at random: rand's
/// `IteratorRandom::choose` on the range `0..len`, with the generator of the
/// thread. It gives none when `len` is 0 and one below `len` otherwise;
/// which one is left to chance.
#[verifier::external_body]
fn choose_index(len: usize) -> (r: Option<usize>)
    ensures
        r is None <==> len == 0,
        r matches Some(i) ==> i < len,
{
    (0..len).choose(&mut rand::thread_rng())
}

impl Database {
    /// A key picked at random; none when there is no key.
    pub fn random_key(&mut self) -> (r: Option<String>)
        requires
            old(self).wf(),
        ensures
            *final(self) == *old(self),
            r is None <==> old(self)@.len() == 0,
            r matches Some(k) ==> old(self)@.contains_key(k@),
    {
        let count = self.elements.len();
        assert(self@.dom() =~= self.elements@.dom());
        match choose_index(count) {
            Some(i) => {
                proof {
                    crate::string_map::lemma_key_at(self.elements.entries@, i as int);
                }
                Some(self.elements.entries[i].0.clone())
            },
            None => None,
        }
    }
}

/// What giving `key` the deadline `deadline` does, on the key space `t` left
/// by a touch: a missing key is an error, and so is a deadline past what the
/// clock can hold.
pub open spec fn deadline_outcome(
    t: KeySpace,
    key: Seq<char>,
    deadline: Option<u64>,
    after: KeySpace,
    r: Result<(), ErrorStruct>,
) -> bool {
    if !t.contains_key(key) {
        &&& after == t
        &&& r matches Err(e) && e.prefix@ == "KEYNOTFOUND"@ && e.message@
            == "Session does not exist or has timed out"@
    } else {
        match deadline {
            Some(d) => after == t.insert(key, (Some(d), t[key].1)) && r is Ok,
            None => after == t && (r matches Err(e) && e.prefix@ == "TTL"@ && e.message@
                == "an error occurred with the epoch expiration"@),
        }
    }
}

/// What making `key` never expire does at the time `now`, on the key space
/// `t` left by a touch: the reply is the seconds that were left, if any.
pub open spec fn persist_outcome(t: KeySpace, key: Seq<char>, now: u64, after: KeySpace, r: Option<u64>) -> bool {
    if t.contains_key(key) {
        r == ttl_spec(t[key].0, now) && after == t.insert(key, (None, t[key].1))
    } else {
        r is None && after == t
    }
}


/// A touch at any time leaves one of the states that `touched_somewhen`
/// allows.
pub proof fn lemma_touched_somewhen(m: KeySpace, key: Seq<char>, now: u64)
    ensures
        touched_somewhen(m, key, touched(m, key, now)),
{
}

} // verus!
