use vstd::prelude::*;

use crate::config::str_eq;

verus! {

/// A notice that `name` now points at `addr`.
#[derive(Debug)]
pub struct RegistryUpdatedEvent {
    pub name: String,
    pub addr: u64,
}

#[derive(Clone, Copy, Debug, PartialEq, Eq, Structural)]
pub enum RegistryError {
    NotInitialized,
    AlreadyInitialized,
    NotFound,
    Unauthorized,
}

/// Named pointers to accounts, kept in the order in which names were first set.
pub struct RegistryContract {
    admin: Option<u64>,
    entries: Vec<(String, u64)>,
}

/// The abstract state: the administrator and the entries in order.
pub struct RegistryView {
    pub admin: Option<u64>,
    pub entries: Seq<(Seq<char>, u64)>,
}

impl View for RegistryContract {
    type V = RegistryView;

    closed spec fn view(&self) -> RegistryView {
        RegistryView {
            admin: self.admin,
            entries: entries_view(self.entries@),
        }
    }
}

/// The names and addresses of a sequence of entries.
pub open spec fn entries_view(s: Seq<(String, u64)>) -> Seq<(Seq<char>, u64)> {
    s.map_values(|e: (String, u64)| (e.0@, e.1))
}

/// No name occurs twice.
pub open spec fn names_unique(s: Seq<(Seq<char>, u64)>) -> bool {
    forall|i: int, j: int| 0 <= i < j < s.len() ==> s[i].0 != s[j].0
}

/// Whether `name` has an entry.
pub open spec fn has_name(s: Seq<(Seq<char>, u64)>, name: Seq<char>) -> bool {
    exists|i: int| 0 <= i < s.len() && #[trigger] s[i].0 == name
}

impl RegistryContract {
    pub closed spec fn wf(&self) -> bool {
        names_unique(self@.entries)
    }

    /// An empty registry with no administrator.
    pub fn new() -> (r: RegistryContract)
        ensures
            r.wf(),
            r@.admin is None,
            r@.entries == Seq::<(Seq<char>, u64)>::empty(),
    {
        let r = RegistryContract { admin: None, entries: Vec::new() };
        assert(r@.entries =~= Seq::<(Seq<char>, u64)>::empty());
        r
    }

    /// Sets the administrator, once.
    pub fn init(&mut self, admin: u64) -> (r: Result<(), RegistryError>)
        requires
            old(self).wf(),
        ensures
            final(self).wf(),
            old(self)@.admin is Some ==> r == Err::<(), RegistryError>(
                RegistryError::AlreadyInitialized,
            ) && final(self)@ == old(self)@,
            old(self)@.admin is None ==> r is Ok && final(self)@ == (RegistryView {
                admin: Some(admin),
                ..old(self)@
            }),
    {
        if self.admin.is_some() {
            return Err(RegistryError::AlreadyInitialized);
        }
        self.admin = Some(admin);
        assert(self@.entries =~= old(self)@.entries);
        Ok(())
    }

    fn find(&self, name: &str) -> (r: Option<usize>)
        ensures
            r is None ==> !has_name(self@.entries, name@),
            r matches Some(i) ==> i < self@.entries.len() && self@.entries[i as int].0 == name@,
    {
        let mut i: usize = 0;
        while i < self.entries.len()
            invariant
                0 <= i <= self.entries@.len(),
                forall|j: int| 0 <= j < i ==> self@.entries[j].0 != name@,
            decreases self.entries@.len() - i,
        {
            if str_eq(self.entries[i].0.as_str(), name) {
                return Some(i);
            }
            i = i + 1;
        }
        None
    }

    /// Points `name` at `addr`; only the administrator may. A new name is appended, a known one
    /// keeps its place.
    pub fn set(&mut self, caller: u64, name: String, addr: u64) -> (r: Result<
        RegistryUpdatedEvent,
        RegistryError,
    >)
        requires
            old(self).wf(),
        ensures
            final(self).wf(),
            old(self)@.admin is None ==> r matches Err(RegistryError::NotInitialized),
            old(self)@.admin matches Some(a) && a != caller ==> r matches Err(
                RegistryError::Unauthorized,
            ),
            old(self)@.admin == Some(caller) ==> (r matches Ok(e) && e.name@ == name@ && e.addr
                == addr),
            old(self)@.admin == Some(caller) ==> final(self)@.admin == old(self)@.admin,
            old(self)@.admin == Some(caller) && !has_name(old(self)@.entries, name@)
                ==> final(self)@.entries == old(self)@.entries.push((name@, addr)),
            old(self)@.admin == Some(caller) ==> forall|i: int|
                0 <= i < old(self)@.entries.len() && old(self)@.entries[i].0 == name@
                    ==> final(self)@.entries == old(self)@.entries.update(i, (name@, addr)),
            r is Err ==> final(self)@ == old(self)@,
    {
        match self.admin {
            None => return Err(RegistryError::NotInitialized),
            Some(a) => {
                if a != caller {
                    return Err(RegistryError::Unauthorized);
                }
            },
        }
        let ghost before = self@.entries;
        let event = RegistryUpdatedEvent { name: name.clone(), addr };
        match self.find(name.as_str()) {
            Some(i) => {
                self.entries.set(i, (name, addr));
                assert(self@.entries =~= before.update(i as int, (event.name@, addr)));
                assert forall|j: int|
                    0 <= j < before.len() && before[j].0 == event.name@ implies j == i by {
                    if j != i {
                        if j < i {
                            assert(before[j].0 != before[i as int].0);
                        } else {
                            assert(before[i as int].0 != before[j].0);
                        }
                    }
                }
            },
            None => {
                self.entries.push((name, addr));
                assert(self@.entries =~= before.push((event.name@, addr)));
            },
        }
        Ok(event)
    }

    /// The account that `name` points at.
    pub fn get(&self, name: &str) -> (r: Result<u64, RegistryError>)
        requires
            self.wf(),
        ensures
            !has_name(self@.entries, name@) ==> r == Err::<u64, RegistryError>(
                RegistryError::NotFound,
            ),
            forall|i: int|
                0 <= i < self@.entries.len() && self@.entries[i].0 == name@ ==> r == Ok::<
                    u64,
                    RegistryError,
                >(self@.entries[i].1),
    {
        match self.find(name) {
            Some(i) => {
                let ghost e = self@.entries;
                assert forall|j: int| 0 <= j < e.len() && e[j].0 == name@ implies j == i by {
                    if j < i {
                        assert(e[j].0 != e[i as int].0);
                    } else if j > i {
                        assert(e[i as int].0 != e[j].0);
                    }
                }
                Ok(self.entries[i].1)
            },
            None => Err(RegistryError::NotFound),
        }
    }

    /// Every entry, in the order in which names were first set.
    pub fn all(&self) -> (r: Vec<(String, u64)>)
        ensures
            entries_view(r@) == self@.entries,
    {
        let mut r: Vec<(String, u64)> = Vec::new();
        let mut i: usize = 0;
        while i < self.entries.len()
            invariant
                0 <= i <= self.entries@.len(),
                entries_view(r@) == self@.entries.subrange(0, i as int),
            decreases self.entries@.len() - i,
        {
            let name = self.entries[i].0.clone();
            let addr = self.entries[i].1;
            let ghost prev = r@;
            assert(self@.entries[i as int] == (name@, addr));
            r.push((name, addr));
            assert(r@ == prev.push((name, addr)));
            assert forall|k: int| 0 <= k < r@.len() implies #[trigger] entries_view(r@)[k]
                == self@.entries[k] by {
                assert(entries_view(prev).len() == prev.len());
                assert(prev.len() == i);
                if k < prev.len() {
                    assert(r@[k] == prev[k]);
                    assert(entries_view(prev)[k] == self@.entries.subrange(0, i as int)[k]);
                } else {
                    assert(k == i);
                    assert(r@[k].0@ == self@.entries[k].0);
                }
            }
            i = i + 1;
            assert(entries_view(r@) =~= self@.entries.subrange(
                0,
                i as int,
            ));
        }
        assert(self@.entries.subrange(0, i as int) =~= self@.entries);
        r
    }

    /// The administrator.
    pub fn get_admin(&self) -> (r: Result<u64, RegistryError>)
        ensures
            self@.admin matches Some(a) ==> r == Ok::<u64, RegistryError>(a),
            self@.admin is None ==> r == Err::<u64, RegistryError>(RegistryError::NotInitialized),
    {
        match self.admin {
            Some(a) => Ok(a),
            None => Err(RegistryError::NotInitialized),
        }
    }
}

} // verus!
