//! An in-memory analytical sink: the store's two write operations, each an
//! upsert keyed by the record's identity, so a retried write adds nothing.

use vstd::prelude::*;
use crate::clickhouse::{CommonAlert, TypeSpecificRecord};
use crate::text::same_text;

verus! {

/// The key of a common record: its synthetic identity.
pub open spec fn common_key(r: CommonAlert) -> Seq<char> {
    r.id@
}

/// The key of a type-specific record: its kind and its identity.
pub open spec fn specific_key(r: TypeSpecificRecord) -> (bool, Seq<char>) {
    match r {
        TypeSpecificRecord::Edr(row) => (true, row.id@),
        TypeSpecificRecord::Ngav(row) => (false, row.id@),
    }
}

/// Records kept in memory, in the order of their first write.
pub struct MemorySink {
    common: Vec<CommonAlert>,
    specific: Vec<TypeSpecificRecord>,
}

/// No two common records share an identity.
pub open spec fn distinct_commons(s: Seq<CommonAlert>) -> bool {
    forall|i: int, j: int| 0 <= i < j < s.len() ==> common_key(s[i]) != common_key(s[j])
}

/// No two type-specific records share a kind and identity.
pub open spec fn distinct_specifics(s: Seq<TypeSpecificRecord>) -> bool {
    forall|i: int, j: int| 0 <= i < j < s.len() ==> specific_key(s[i]) != specific_key(s[j])
}

/// `s` with `r` written: in place of the record with the same identity, else appended.
pub open spec fn upsert_common(s: Seq<CommonAlert>, r: CommonAlert) -> Seq<CommonAlert> {
    if exists|i: int| 0 <= i < s.len() && common_key(s[i]) == common_key(r) {
        s.update(choose|i: int| 0 <= i < s.len() && common_key(s[i]) == common_key(r), r)
    } else {
        s.push(r)
    }
}

/// `s` with `r` written: in place of the record with the same kind and identity, else appended.
pub open spec fn upsert_specific(s: Seq<TypeSpecificRecord>, r: TypeSpecificRecord) -> Seq<TypeSpecificRecord> {
    if exists|i: int| 0 <= i < s.len() && specific_key(s[i]) == specific_key(r) {
        s.update(choose|i: int| 0 <= i < s.len() && specific_key(s[i]) == specific_key(r), r)
    } else {
        s.push(r)
    }
}

/// Storing the same common record twice creates no duplicate: the second
/// write leaves what the first left.
pub proof fn law_store_common_idempotent(s: Seq<CommonAlert>, r: CommonAlert)
    requires
        distinct_commons(s),
    ensures
        upsert_common(upsert_common(s, r), r) == upsert_common(s, r),
        distinct_commons(upsert_common(s, r)),
{
    let s1 = upsert_common(s, r);
    if exists|i: int| 0 <= i < s.len() && common_key(s[i]) == common_key(r) {
        let i0 = choose|i: int| 0 <= i < s.len() && common_key(s[i]) == common_key(r);
        assert(s1[i0] == r);
        assert(0 <= i0 < s1.len() && common_key(s1[i0]) == common_key(r));
        let j = choose|i: int| 0 <= i < s1.len() && common_key(s1[i]) == common_key(r);
        if j != i0 {
            assert(s1[j] == s[j]);
            if j < i0 {
                assert(common_key(s[j]) != common_key(s[i0]));
            } else {
                assert(common_key(s[i0]) != common_key(s[j]));
            }
        }
        assert(s1.update(i0, r) =~= s1);
    } else {
        let n = s.len() as int;
        assert(s1[n] == r);
        assert(0 <= n < s1.len() && common_key(s1[n]) == common_key(r));
        let j = choose|i: int| 0 <= i < s1.len() && common_key(s1[i]) == common_key(r);
        if j < n {
            assert(s1[j] == s[j]);
        }
        assert(s1.update(n, r) =~= s1);
    }
}

/// Storing the same type-specific record twice creates no duplicate either.
pub proof fn law_store_type_specific_idempotent(s: Seq<TypeSpecificRecord>, r: TypeSpecificRecord)
    requires
        distinct_specifics(s),
    ensures
        upsert_specific(upsert_specific(s, r), r) == upsert_specific(s, r),
        distinct_specifics(upsert_specific(s, r)),
{
    let s1 = upsert_specific(s, r);
    if exists|i: int| 0 <= i < s.len() && specific_key(s[i]) == specific_key(r) {
        let i0 = choose|i: int| 0 <= i < s.len() && specific_key(s[i]) == specific_key(r);
        assert(s1[i0] == r);
        assert(0 <= i0 < s1.len() && specific_key(s1[i0]) == specific_key(r));
        let j = choose|i: int| 0 <= i < s1.len() && specific_key(s1[i]) == specific_key(r);
        if j != i0 {
            assert(s1[j] == s[j]);
            if j < i0 {
                assert(specific_key(s[j]) != specific_key(s[i0]));
            } else {
                assert(specific_key(s[i0]) != specific_key(s[j]));
            }
        }
        assert(s1.update(i0, r) =~= s1);
    } else {
        let n = s.len() as int;
        assert(s1[n] == r);
        assert(0 <= n < s1.len() && specific_key(s1[n]) == specific_key(r));
        let j = choose|i: int| 0 <= i < s1.len() && specific_key(s1[i]) == specific_key(r);
        if j < n {
            assert(s1[j] == s[j]);
        }
        assert(s1.update(n, r) =~= s1);
    }
}

impl MemorySink {
    /// The common records held.
    pub closed spec fn commons(&self) -> Seq<CommonAlert> {
        self.common@
    }

    /// The type-specific records held.
    pub closed spec fn specifics(&self) -> Seq<TypeSpecificRecord> {
        self.specific@
    }

    /// No key is held twice.
    pub open spec fn wf(&self) -> bool {
        &&& distinct_commons(self.commons())
        &&& distinct_specifics(self.specifics())
    }

    /// An empty sink.
    pub fn new() -> (r: MemorySink)
        ensures
            r.wf(),
            r.commons() == Seq::<CommonAlert>::empty(),
            r.specifics() == Seq::<TypeSpecificRecord>::empty(),
    {
        MemorySink { common: Vec::new(), specific: Vec::new() }
    }

    /// The number of common records held.
    pub fn common_count(&self) -> (r: usize)
        ensures
            r == self.commons().len(),
    {
        self.common.len()
    }

    /// The number of type-specific records held.
    pub fn specific_count(&self) -> (r: usize)
        ensures
            r == self.specifics().len(),
    {
        self.specific.len()
    }

    /// Writes a common record, replacing the one with the same identity.
    pub fn store_common(&mut self, record: CommonAlert)
        requires
            old(self).wf(),
        ensures
            final(self).wf(),
            final(self).commons() == upsert_common(old(self).commons(), record),
            final(self).specifics() == old(self).specifics(),
    {
        proof {
            law_store_common_idempotent(self.common@, record);
        }
        let mut i: usize = 0;
        while i < self.common.len()
            invariant
                i <= self.common@.len(),
                self.common@ == old(self).common@,
                self.specific@ == old(self).specific@,
                forall|k: int| 0 <= k < i ==> common_key(#[trigger] self.common@[k]) != common_key(record),
                distinct_commons(self.common@),
                distinct_commons(upsert_common(self.common@, record)),
                distinct_specifics(self.specific@),
            decreases self.common@.len() - i,
        {
            if same_text(self.common[i].id.as_str(), record.id.as_str()) {
                let ghost before = self.common@;
                assert(common_key(before[i as int]) == common_key(record));
                assert((choose|k: int| 0 <= k < before.len() && common_key(before[k]) == common_key(record)) == i) by {
                    let c = choose|k: int| 0 <= k < before.len() && common_key(before[k]) == common_key(record);
                    if c != i as int {
                        if c < i {
                        } else {
                            assert(common_key(before[i as int]) != common_key(before[c]));
                        }
                    }
                }
                self.common.remove(i);
                self.common.insert(i, record);
                assert(self.common@ =~= before.update(i as int, record));
                assert(self.common@ == upsert_common(before, record));
                return;
            }
            i = i + 1;
        }
        self.common.push(record);
    }

    /// Writes a type-specific record, replacing the one of the same kind and identity.
    pub fn store_type_specific(&mut self, record: TypeSpecificRecord)
        requires
            old(self).wf(),
        ensures
            final(self).wf(),
            final(self).specifics() == upsert_specific(old(self).specifics(), record),
            final(self).commons() == old(self).commons(),
    {
        proof {
            law_store_type_specific_idempotent(self.specific@, record);
        }
        let mut i: usize = 0;
        while i < self.specific.len()
            invariant
                i <= self.specific@.len(),
                self.common@ == old(self).common@,
                self.specific@ == old(self).specific@,
                forall|k: int| 0 <= k < i ==> specific_key(#[trigger] self.specific@[k]) != specific_key(record),
                distinct_specifics(self.specific@),
                distinct_specifics(upsert_specific(self.specific@, record)),
                distinct_commons(self.common@),
            decreases self.specific@.len() - i,
        {
            let same = match (&self.specific[i], &record) {
                (TypeSpecificRecord::Edr(a), TypeSpecificRecord::Edr(b)) => same_text(a.id.as_str(), b.id.as_str()),
                (TypeSpecificRecord::Ngav(a), TypeSpecificRecord::Ngav(b)) => same_text(a.id.as_str(), b.id.as_str()),
                _ => false,
            };
            if same {
                let ghost before = self.specific@;
                assert(specific_key(before[i as int]) == specific_key(record));
                assert((choose|k: int| 0 <= k < before.len() && specific_key(before[k]) == specific_key(record)) == i) by {
                    let c = choose|k: int| 0 <= k < before.len() && specific_key(before[k]) == specific_key(record);
                    if c != i as int {
                        if c < i {
                        } else {
                            assert(specific_key(before[i as int]) != specific_key(before[c]));
                        }
                    }
                }
                self.specific.remove(i);
                self.specific.insert(i, record);
                assert(self.specific@ =~= before.update(i as int, record));
                assert(self.specific@ == upsert_specific(before, record));
                return;
            }
            i = i + 1;
        }
        self.specific.push(record);
    }
}

} // verus!
