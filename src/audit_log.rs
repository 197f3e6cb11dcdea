use std::collections::HashMap;
use vstd::prelude::*;

use crate::config::str_eq;
use crate::session::copy_bytes;

verus! {

broadcast use vstd::std_specs::hash::group_hash_axioms;

/// One record of the audit log.
#[derive(Debug)]
pub struct Entry {
    pub topic: String,
    pub ref_id: u64,
    pub data: Vec<u8>,
    pub ts: u64,
}

/// The value of an `Entry`.
pub struct EntryView {
    pub topic: Seq<char>,
    pub ref_id: u64,
    pub data: Seq<u8>,
    pub ts: u64,
}

impl View for Entry {
    type V = EntryView;

    open spec fn view(&self) -> EntryView {
        EntryView { topic: self.topic@, ref_id: self.ref_id, data: self.data@, ts: self.ts }
    }
}

impl Entry {
    /// A copy of the entry.
    pub fn duplicate(&self) -> (r: Entry)
        ensures
            r@ == self@,
    {
        Entry {
            topic: self.topic.clone(),
            ref_id: self.ref_id,
            data: copy_bytes(self.data.as_slice()),
            ts: self.ts,
        }
    }
}

#[derive(Clone, Copy, Debug, PartialEq, Eq, Structural)]
pub enum AuditError {
    NotInitialized,
    AlreadyInitialized,
    Unauthorized,
    EntryNotFound,
}

/// An append-only log that the administrator and the writers it names add to.
pub struct AuditLogContract {
    admin: Option<u64>,
    writers: HashMap<u64, bool>,
    entries: Vec<Entry>,
}

/// The abstract state of the audit log.
pub struct AuditLogView {
    pub admin: Option<u64>,
    pub writers: Set<u64>,
    pub entries: Seq<EntryView>,
}

/// The values of a sequence of entries.
pub open spec fn entries_view(s: Seq<Entry>) -> Seq<EntryView> {
    s.map_values(|e: Entry| e@)
}

impl View for AuditLogContract {
    type V = AuditLogView;

    closed spec fn view(&self) -> AuditLogView {
        AuditLogView {
            admin: self.admin,
            writers: Set::new(|w: u64| self.writers@.contains_key(w) && self.writers@[w]),
            entries: entries_view(self.entries@),
        }
    }
}

/// Whether `addr` may append: the administrator or a named writer.
pub open spec fn may_write(v: AuditLogView, addr: u64) -> bool {
    v.admin == Some(addr) || v.writers.contains(addr)
}

/// The entries with topic `topic`, in log order.
pub open spec fn with_topic(s: Seq<EntryView>, topic: Seq<char>) -> Seq<EntryView>
    decreases s.len(),
{
    if s.len() == 0 {
        Seq::empty()
    } else if s.last().topic == topic {
        with_topic(s.drop_last(), topic).push(s.last())
    } else {
        with_topic(s.drop_last(), topic)
    }
}

/// The entries from position `start` up to `end`, clipped to the sequence.
pub open spec fn window(s: Seq<EntryView>, start: int, end: int) -> Seq<EntryView> {
    let e = if end < s.len() {
        end
    } else {
        s.len() as int
    };
    if start < e {
        s.subrange(start, e)
    } else {
        Seq::empty()
    }
}

impl AuditLogContract {
    /// An empty log with no administrator.
    pub fn new() -> (r: AuditLogContract)
        ensures
            r@.admin is None,
            r@.writers == Set::<u64>::empty(),
            r@.entries == Seq::<EntryView>::empty(),
    {
        let r = AuditLogContract { admin: None, writers: HashMap::new(), entries: Vec::new() };
        assert(r@.writers =~= Set::<u64>::empty());
        assert(r@.entries =~= Seq::<EntryView>::empty());
        r
    }

    /// Sets the administrator, once.
    pub fn init(&mut self, admin: u64) -> (r: Result<(), AuditError>)
        ensures
            old(self)@.admin is Some ==> r == Err::<(), AuditError>(AuditError::AlreadyInitialized)
                && final(self)@ == old(self)@,
            old(self)@.admin is None ==> r is Ok && final(self)@ == (AuditLogView {
                admin: Some(admin),
                ..old(self)@
            }),
    {
        if self.admin.is_some() {
            return Err(AuditError::AlreadyInitialized);
        }
        self.admin = Some(admin);
        assert(self@.writers =~= old(self)@.writers);
        Ok(())
    }

    fn set_writer(&mut self, caller: u64, writer: u64, allowed: bool) -> (r: Result<(), AuditError>)
        ensures
            old(self)@.admin is None ==> r == Err::<(), AuditError>(AuditError::NotInitialized),
            old(self)@.admin matches Some(a) && a != caller ==> r == Err::<(), AuditError>(
                AuditError::Unauthorized,
            ),
            old(self)@.admin == Some(caller) ==> r is Ok && final(self)@ == (AuditLogView {
                writers: if allowed {
                    old(self)@.writers.insert(writer)
                } else {
                    old(self)@.writers.remove(writer)
                },
                ..old(self)@
            }),
            r is Err ==> final(self)@ == old(self)@,
    {
        match self.admin {
            None => return Err(AuditError::NotInitialized),
            Some(a) => {
                if a != caller {
                    return Err(AuditError::Unauthorized);
                }
            },
        }
        self.writers.insert(writer, allowed);
        if allowed {
            assert(self@.writers =~= old(self)@.writers.insert(writer));
        } else {
            assert(self@.writers =~= old(self)@.writers.remove(writer));
        }
        assert(self@.entries =~= old(self)@.entries);
        Ok(())
    }

    /// Lets `writer` append; only the administrator may.
    pub fn add_writer(&mut self, caller: u64, writer: u64) -> (r: Result<(), AuditError>)
        ensures
            old(self)@.admin is None ==> r == Err::<(), AuditError>(AuditError::NotInitialized),
            old(self)@.admin matches Some(a) && a != caller ==> r == Err::<(), AuditError>(
                AuditError::Unauthorized,
            ),
            old(self)@.admin == Some(caller) ==> r is Ok && final(self)@ == (AuditLogView {
                writers: old(self)@.writers.insert(writer),
                ..old(self)@
            }),
            r is Err ==> final(self)@ == old(self)@,
    {
        self.set_writer(caller, writer, true)
    }

    /// Stops `writer` from appending; only the administrator may.
    pub fn remove_writer(&mut self, caller: u64, writer: u64) -> (r: Result<(), AuditError>)
        ensures
            old(self)@.admin is None ==> r == Err::<(), AuditError>(AuditError::NotInitialized),
            old(self)@.admin matches Some(a) && a != caller ==> r == Err::<(), AuditError>(
                AuditError::Unauthorized,
            ),
            old(self)@.admin == Some(caller) ==> r is Ok && final(self)@ == (AuditLogView {
                writers: old(self)@.writers.remove(writer),
                ..old(self)@
            }),
            r is Err ==> final(self)@ == old(self)@,
    {
        self.set_writer(caller, writer, false)
    }

    /// Whether `addr` may append.
    pub fn is_writer(&self, addr: u64) -> (r: bool)
        ensures
            r == may_write(self@, addr),
    {
        if let Some(a) = self.admin {
            if a == addr {
                return true;
            }
        }
        match self.writers.get(&addr) {
            Some(w) => *w,
            None => false,
        }
    }

    /// Appends an entry stamped `now` and returns its index.
    pub fn append(&mut self, caller: u64, topic: String, ref_id: u64, data: Vec<u8>, now: u64) -> (r:
        Result<u64, AuditError>)
        requires
            old(self)@.entries.len() < u64::MAX,
        ensures
            !may_write(old(self)@, caller) ==> r == Err::<u64, AuditError>(AuditError::Unauthorized),
            may_write(old(self)@, caller) && old(self)@.admin is None ==> r == Err::<u64, AuditError>(
                AuditError::NotInitialized,
            ),
            may_write(old(self)@, caller) && old(self)@.admin is Some ==> r == Ok::<u64, AuditError>(
                old(self)@.entries.len() as u64,
            ) && final(self)@ == (AuditLogView {
                entries: old(self)@.entries.push(
                    EntryView { topic: topic@, ref_id, data: data@, ts: now },
                ),
                ..old(self)@
            }),
            r is Err ==> final(self)@ == old(self)@,
    {
        if !self.is_writer(caller) {
            return Err(AuditError::Unauthorized);
        }
        if self.admin.is_none() {
            return Err(AuditError::NotInitialized);
        }
        let idx = self.entries.len() as u64;
        let ghost before = self.entries@;
        let entry = Entry { topic, ref_id, data, ts: now };
        let ghost ev = entry@;
        self.entries.push(entry);
        assert(self@.entries =~= old(self)@.entries.push(ev)) by {
            assert(self.entries@ == before.push(entry));
        }
        assert(self@.writers =~= old(self)@.writers);
        Ok(idx)
    }

    /// The entry at `idx`.
    pub fn get(&self, idx: u64) -> (r: Result<Entry, AuditError>)
        ensures
            idx >= self@.entries.len() ==> r matches Err(AuditError::EntryNotFound),
            idx < self@.entries.len() ==> (r matches Ok(e) && e@ == self@.entries[idx as int]),
    {
        if idx as u128 >= self.entries.len() as u128 {
            return Err(AuditError::EntryNotFound);
        }
        Ok(self.entries[idx as usize].duplicate())
    }

    /// The number of entries.
    pub fn count(&self) -> (r: u64)
        requires
            self@.entries.len() <= u64::MAX,
        ensures
            r == self@.entries.len(),
    {
        self.entries.len() as u64
    }

    /// Up to `limit` entries from index `start`.
    pub fn range(&self, start: u64, limit: u64) -> (r: Vec<Entry>)
        requires
            start + limit <= u64::MAX,
        ensures
            entries_view(r@) == window(self@.entries, start as int, start + limit),
    {
        let mut r: Vec<Entry> = Vec::new();
        let ghost v = self@.entries;
        let end = start + limit;
        if start as u128 >= self.entries.len() as u128 {
            assert(entries_view(r@) =~= window(v, start as int, end as int));
            return r;
        }
        let n: usize = if (end as u128) < (self.entries.len() as u128) {
            end as usize
        } else {
            self.entries.len()
        };
        let mut i: usize = start as usize;
        while i < n
            invariant
                start <= i <= n,
                n <= v.len(),
                v == self@.entries,
                entries_view(r@) == v.subrange(start as int, i as int),
            decreases n - i,
        {
            let e = self.entries[i].duplicate();
            let ghost prev = r@;
            assert(v[i as int] == e@);
            r.push(e);
            assert forall|k: int| 0 <= k < r@.len() implies #[trigger] entries_view(r@)[k]
                == v.subrange(start as int, i + 1)[k] by {
                assert(entries_view(prev).len() == prev.len());
                if k < prev.len() {
                    assert(r@[k] == prev[k]);
                    assert(entries_view(prev)[k] == v.subrange(start as int, i as int)[k]);
                }
            }
            assert(entries_view(prev).len() == prev.len());
            assert(entries_view(r@).len() == r@.len());
            i = i + 1;
            assert(entries_view(r@) =~= v.subrange(start as int, i as int));
        }
        assert(entries_view(r@) =~= window(v, start as int, end as int));
        r
    }

    /// Page `page` of the entries with topic `topic`, `limit` per page, in log order.
    pub fn by_topic(&self, topic: &str, page: u64, limit: u64) -> (r: Vec<Entry>)
        requires
            page * limit + limit <= u64::MAX,
        ensures
            entries_view(r@) == window(
                with_topic(self@.entries, topic@),
                page * limit,
                page * limit + limit,
            ),
    {
        proof {
            assert(0 <= page * limit) by (nonlinear_arith);
        }
        let start = page * limit;
        let end = start + limit;
        let ghost v = self@.entries;
        let mut r: Vec<Entry> = Vec::new();
        let mut seen: u64 = 0;
        let mut i: usize = 0;
        while i < self.entries.len()
            invariant
                0 <= i <= v.len(),
                v == self@.entries,
                start + limit == end,
                end <= u64::MAX,
                seen == with_topic(v.subrange(0, i as int), topic@).len(),
                entries_view(r@) == window(
                    with_topic(v.subrange(0, i as int), topic@),
                    start as int,
                    end as int,
                ),
            decreases v.len() - i,
        {
            let ghost pre = v.subrange(0, i as int);
            let ghost post = v.subrange(0, i + 1);
            assert(post.drop_last() =~= pre);
            assert(post.last() == v[i as int]);
            proof {
                lemma_with_topic_len(pre, topic@);
            }
            if str_eq(self.entries[i].topic.as_str(), topic) {
                let ghost w = with_topic(pre, topic@);
                assert(with_topic(post, topic@) == w.push(v[i as int]));
                if start <= seen && seen < end {
                    let e = self.entries[i].duplicate();
                    let ghost prev = r@;
                    r.push(e);
                    assert(entries_view(prev).len() == prev.len());
                    assert(entries_view(r@).len() == r@.len());
                    assert(entries_view(r@) =~= window(w.push(v[i as int]), start as int, end as int)) by {
                        assert forall|k: int| 0 <= k < r@.len() implies #[trigger] entries_view(r@)[k]
                            == window(w.push(v[i as int]), start as int, end as int)[k] by {
                            if k < prev.len() {
                                assert(r@[k] == prev[k]);
                                assert(entries_view(prev)[k] == window(w, start as int, end as int)[k]);
                            }
                        }
                    }
                } else {
                    assert(window(w.push(v[i as int]), start as int, end as int) =~= window(
                        w,
                        start as int,
                        end as int,
                    ));
                }
                seen = seen + 1;
            } else {
                assert(with_topic(post, topic@) == with_topic(pre, topic@));
            }
            i = i + 1;
        }
        assert(v.subrange(0, v.len() as int) =~= v);
        r
    }

    /// The administrator.
    pub fn get_admin(&self) -> (r: Result<u64, AuditError>)
        ensures
            self@.admin matches Some(a) ==> r == Ok::<u64, AuditError>(a),
            self@.admin is None ==> r == Err::<u64, AuditError>(AuditError::NotInitialized),
    {
        match self.admin {
            Some(a) => Ok(a),
            None => Err(AuditError::NotInitialized),
        }
    }
}

/// A sequence has at least as many entries as those of one topic.
pub proof fn lemma_with_topic_len(s: Seq<EntryView>, topic: Seq<char>)
    ensures
        with_topic(s, topic).len() <= s.len(),
    decreases s.len(),
{
    if s.len() > 0 {
        lemma_with_topic_len(s.drop_last(), topic);
    }
}

} // verus!
