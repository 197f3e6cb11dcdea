use vstd::prelude::*;

use crate::config::str_eq;

verus! {

/// A taxonomy of skills: slugs with display names, listed in pages.
pub struct SkillsTaxonomy {
    admin: Option<u64>,
    skills: Vec<(String, String)>,
}

/// The abstract state: the administrator and the (slug, name) pairs in listing order.
pub struct SkillsView {
    pub admin: Option<u64>,
    pub skills: Seq<(Seq<char>, Seq<char>)>,
}

/// The slugs and names of a sequence of skills.
pub open spec fn skills_view(s: Seq<(String, String)>) -> Seq<(Seq<char>, Seq<char>)> {
    s.map_values(|e: (String, String)| (e.0@, e.1@))
}

impl View for SkillsTaxonomy {
    type V = SkillsView;

    closed spec fn view(&self) -> SkillsView {
        SkillsView { admin: self.admin, skills: skills_view(self.skills@) }
    }
}

/// Whether `slug` is listed.
pub open spec fn has_slug(s: Seq<(Seq<char>, Seq<char>)>, slug: Seq<char>) -> bool {
    exists|i: int| 0 <= i < s.len() && #[trigger] s[i].0 == slug
}

/// The listing order after removing position `i`: the last skill takes its place.
pub open spec fn swap_removed<T>(s: Seq<T>, i: int) -> Seq<T> {
    s.update(i, s.last()).drop_last()
}

/// The page `page` of `limit` skills.
pub open spec fn skill_page(s: Seq<(Seq<char>, Seq<char>)>, page: u64, limit: u64) -> Seq<
    (Seq<char>, Seq<char>),
> {
    let start = page * limit;
    let end = if start + limit < s.len() {
        start + limit
    } else {
        s.len() as int
    };
    if start < end {
        s.subrange(start, end)
    } else {
        Seq::empty()
    }
}

impl SkillsTaxonomy {
    /// No slug is listed twice.
    pub closed spec fn wf(&self) -> bool {
        forall|i: int, j: int|
            0 <= i < j < self@.skills.len() ==> self@.skills[i].0 != self@.skills[j].0
    }

    /// An empty taxonomy with no administrator.
    pub fn new() -> (r: SkillsTaxonomy)
        ensures
            r.wf(),
            r@.admin is None,
            r@.skills == Seq::<(Seq<char>, Seq<char>)>::empty(),
    {
        let r = SkillsTaxonomy { admin: None, skills: Vec::new() };
        assert(r@.skills =~= Seq::<(Seq<char>, Seq<char>)>::empty());
        r
    }

    /// Whether the administrator is set.
    pub fn is_initialized(&self) -> (r: bool)
        ensures
            r == self@.admin is Some,
    {
        self.admin.is_some()
    }

    /// Sets the administrator, once.
    pub fn initialize(&mut self, admin: u64)
        requires
            old(self).wf(),
            old(self)@.admin is None,
        ensures
            final(self).wf(),
            final(self)@ == (SkillsView { admin: Some(admin), ..old(self)@ }),
    {
        self.admin = Some(admin);
    }

    fn find(&self, slug: &str) -> (r: Option<usize>)
        ensures
            r is None ==> !has_slug(self@.skills, slug@),
            r matches Some(i) ==> i < self@.skills.len() && self@.skills[i as int].0 == slug@,
    {
        let mut i: usize = 0;
        while i < self.skills.len()
            invariant
                0 <= i <= self.skills@.len(),
                forall|j: int| 0 <= j < i ==> self@.skills[j].0 != slug@,
            decreases self.skills@.len() - i,
        {
            if str_eq(self.skills[i].0.as_str(), slug) {
                return Some(i);
            }
            i = i + 1;
        }
        None
    }

    /// Whether `slug` is listed.
    pub fn contains(&self, slug: &str) -> (r: bool)
        ensures
            r == has_slug(self@.skills, slug@),
    {
        self.find(slug).is_some()
    }

    /// Lists a new skill at the end; only the administrator may.
    pub fn add_skill(&mut self, caller: u64, slug: String, name: String)
        requires
            old(self).wf(),
            old(self)@.admin == Some(caller),
            !has_slug(old(self)@.skills, slug@),
        ensures
            final(self).wf(),
            final(self)@ == (SkillsView {
                skills: old(self)@.skills.push((slug@, name@)),
                ..old(self)@
            }),
    {
        let ghost before = self.skills@;
        self.skills.push((slug, name));
        assert(self@.skills =~= old(self)@.skills.push((slug@, name@))) by {
            assert(self.skills@ == before.push((slug, name)));
        }
    }

    /// Removes a listed skill; the last skill takes its place in the listing. Only the
    /// administrator may.
    pub fn remove_skill(&mut self, caller: u64, slug: &str)
        requires
            old(self).wf(),
            old(self)@.admin == Some(caller),
            has_slug(old(self)@.skills, slug@),
        ensures
            final(self).wf(),
            final(self)@.admin == old(self)@.admin,
            exists|i: int|
                0 <= i < old(self)@.skills.len() && old(self)@.skills[i].0 == slug@
                    && final(self)@.skills == swap_removed(old(self)@.skills, i),
    {
        let i = match self.find(slug) {
            Some(i) => i,
            None => return,
        };
        let ghost before = self.skills@;
        let ghost vb = self@.skills;
        self.skills.swap_remove(i);
        assert(self@.skills =~= swap_removed(vb, i as int)) by {
            assert(self.skills@ == before.update(i as int, before.last()).drop_last());
        }
        assert forall|a: int, b: int|
            0 <= a < b < self@.skills.len() implies self@.skills[a].0 != self@.skills[b].0 by {
            let last = vb.len() - 1;
            let a0 = if a == i { last } else { a };
            let b0 = if b == i { last } else { b };
            assert(self@.skills[a] == vb[a0]);
            assert(self@.skills[b] == vb[b0]);
        }
    }

    /// Gives a listed skill a new name; only the administrator may.
    pub fn rename_skill(&mut self, caller: u64, slug: &str, new_name: String)
        requires
            old(self).wf(),
            old(self)@.admin == Some(caller),
            has_slug(old(self)@.skills, slug@),
        ensures
            final(self).wf(),
            final(self)@.admin == old(self)@.admin,
            forall|i: int|
                0 <= i < old(self)@.skills.len() && old(self)@.skills[i].0 == slug@
                    ==> final(self)@.skills == old(self)@.skills.update(i, (slug@, new_name@)),
    {
        let i = match self.find(slug) {
            Some(i) => i,
            None => return,
        };
        let ghost vb = self@.skills;
        let ghost before = self.skills@;
        let ghost nv = new_name@;
        let s = self.skills[i].0.clone();
        self.skills.set(i, (s, new_name));
        assert(self@.skills =~= vb.update(i as int, (slug@, nv)));
        assert forall|j: int|
            0 <= j < vb.len() && vb[j].0 == slug@ implies j == i by {
            if j < i {
                assert(vb[j].0 != vb[i as int].0);
            } else if j > i {
                assert(vb[i as int].0 != vb[j].0);
            }
        }
        assert forall|a: int, b: int|
            0 <= a < b < self@.skills.len() implies self@.skills[a].0 != self@.skills[b].0 by {
            assert(self@.skills[a].0 == vb[a].0);
            assert(self@.skills[b].0 == vb[b].0);
        }
    }

    /// The name of `slug`, if it is listed.
    pub fn get_skill(&self, slug: &str) -> (r: Option<String>)
        requires
            self.wf(),
        ensures
            !has_slug(self@.skills, slug@) ==> r is None,
            forall|i: int|
                0 <= i < self@.skills.len() && self@.skills[i].0 == slug@ ==> (r matches Some(n)
                    && n@ == self@.skills[i].1),
    {
        match self.find(slug) {
            Some(i) => {
                let ghost v = self@.skills;
                assert forall|j: int| 0 <= j < v.len() && v[j].0 == slug@ implies j == i by {
                    if j < i {
                        assert(v[j].0 != v[i as int].0);
                    } else if j > i {
                        assert(v[i as int].0 != v[j].0);
                    }
                }
                Some(self.skills[i].1.clone())
            },
            None => None,
        }
    }

    /// Page `page` of the listing, `limit` skills per page.
    pub fn list(&self, page: u64, limit: u64) -> (r: Vec<(String, String)>)
        requires
            page * limit + limit <= u64::MAX,
        ensures
            skills_view(r@) == skill_page(self@.skills, page, limit),
    {
        let mut r: Vec<(String, String)> = Vec::new();
        proof {
            assert(0 <= page * limit) by (nonlinear_arith);
        }
        let start = page * limit;
        let end = start + limit;
        let ghost v = self@.skills;
        if start as u128 >= self.skills.len() as u128 {
            assert(skills_view(r@) =~= skill_page(v, page, limit));
            return r;
        }
        let n: usize = if (end as u128) < (self.skills.len() as u128) {
            end as usize
        } else {
            self.skills.len()
        };
        let mut i: usize = start as usize;
        while i < n
            invariant
                start <= i <= n,
                n <= v.len(),
                v == self@.skills,
                skills_view(r@) == v.subrange(start as int, i as int),
            decreases n - i,
        {
            let slug = self.skills[i].0.clone();
            let name = self.skills[i].1.clone();
            let ghost prev = r@;
            assert(v[i as int] == (slug@, name@));
            r.push((slug, name));
            assert(r@ == prev.push((slug, name)));
            assert forall|k: int| 0 <= k < r@.len() implies #[trigger] skills_view(r@)[k]
                == v.subrange(start as int, i + 1)[k] by {
                assert(skills_view(prev).len() == prev.len());
                if k < prev.len() {
                    assert(r@[k] == prev[k]);
                    assert(skills_view(prev)[k] == v.subrange(start as int, i as int)[k]);
                } else {
                    assert(r@[k].0@ == v[i as int].0);
                }
            }
            assert(skills_view(prev).len() == prev.len());
            assert(skills_view(r@).len() == r@.len());
            i = i + 1;
            assert(skills_view(r@) =~= v.subrange(start as int, i as int));
        }
        assert(skills_view(r@) =~= skill_page(v, page, limit));
        r
    }
}

} // verus!
