use vstd::prelude::*;

use crate::record::{fresh_at, opt_chars, ProfileRecord, RecordModel};
use crate::text::str_eq;

verus! {

/// Model of a sequence of stored rows.
pub open spec fn row_models(rows: Seq<ProfileRecord>) -> Seq<RecordModel> {
    rows.map(|i: int, r: ProfileRecord| r@)
}

/// The record stored under `id`, if any: the first row whose key matches.
pub open spec fn lookup(s: Seq<RecordModel>, id: Seq<char>) -> Option<RecordModel>
    decreases s.len(),
{
    if s.len() == 0 {
        None
    } else if s[0].id == id {
        Some(s[0])
    } else {
        lookup(s.drop_first(), id)
    }
}

/// Each key identifies at most one stored row.
pub open spec fn keys_unique(s: Seq<RecordModel>) -> bool {
    forall|i: int, j: int| 0 <= i < j < s.len() ==> s[i].id != s[j].id
}

/// The freshness-aware read: the stored record under `id`, provided its age
/// at `now` is strictly below the freshness window.
pub open spec fn fresh_lookup(s: Seq<RecordModel>, id: Seq<char>, now: int) -> Option<RecordModel> {
    match lookup(s, id) {
        Some(m) => if fresh_at(m.captured_at, now) {
            Some(m)
        } else {
            None
        },
        None => None,
    }
}

/// The model a record takes when it is written at time `t`.
pub open spec fn stamped(m: RecordModel, t: int) -> RecordModel {
    RecordModel {
        id: m.id,
        display_name: m.display_name,
        username: m.username,
        accent_color: m.accent_color,
        avatar_ref: m.avatar_ref,
        bio: m.bio,
        captured_at: t,
    }
}

pub proof fn lemma_lookup_present(s: Seq<RecordModel>, id: Seq<char>, k: int)
    requires
        0 <= k < s.len(),
        s[k].id == id,
        forall|j: int| 0 <= j < k ==> s[j].id != id,
    ensures
        lookup(s, id) == Some(s[k]),
    decreases k,
{
    if k > 0 {
        lemma_lookup_present(s.drop_first(), id, k - 1);
    }
}

pub proof fn lemma_lookup_absent(s: Seq<RecordModel>, id: Seq<char>)
    requires
        forall|j: int| 0 <= j < s.len() ==> s[j].id != id,
    ensures
        lookup(s, id) is None,
    decreases s.len(),
{
    if s.len() > 0 {
        lemma_lookup_absent(s.drop_first(), id);
    }
}

/// Two row sequences that agree everywhere except at one position whose key
/// is not the one looked up, resolve every other key alike.
pub proof fn lemma_lookup_agree_except(
    s1: Seq<RecordModel>,
    s2: Seq<RecordModel>,
    i: int,
    x: Seq<char>,
)
    requires
        s1.len() == s2.len(),
        0 <= i < s1.len(),
        forall|j: int| 0 <= j < s1.len() && j != i ==> s1[j] == s2[j],
        s1[i].id != x,
        s2[i].id != x,
    ensures
        lookup(s1, x) == lookup(s2, x),
    decreases s1.len(),
{
    if i == 0 {
        assert(s1.drop_first() =~= s2.drop_first());
    } else {
        if s1[0].id == x {
        } else {
            lemma_lookup_agree_except(s1.drop_first(), s2.drop_first(), i - 1, x);
        }
    }
}

pub proof fn lemma_lookup_push(s: Seq<RecordModel>, m: RecordModel, x: Seq<char>)
    ensures
        lookup(s.push(m), x) == (if lookup(s, x) is Some {
            lookup(s, x)
        } else if m.id == x {
            Some(m)
        } else {
            None
        }),
    decreases s.len(),
{
    if s.len() == 0 {
        assert(s.push(m).drop_first() =~= Seq::<RecordModel>::empty());
    } else {
        assert(s.push(m).drop_first() =~= s.drop_first().push(m));
        lemma_lookup_push(s.drop_first(), m, x);
    }
}

/// Keyed storage for profile snapshots: at most one row per identifier, read
/// through a freshness-aware lookup, written by wholesale replacement.
pub struct ProfileStore {
    pub rows: Vec<ProfileRecord>,
}

impl View for ProfileStore {
    type V = Seq<RecordModel>;

    open spec fn view(&self) -> Seq<RecordModel> {
        row_models(self.rows@)
    }
}

impl ProfileStore {
    /// Each identifier keys at most one row.
    pub open spec fn wf(&self) -> bool {
        keys_unique(self@)
    }

    /// Creating a fresh empty store is a valid, successful outcome.
    pub fn new() -> (r: ProfileStore)
        ensures
            r.wf(),
            r@ == Seq::<RecordModel>::empty(),
            forall|x: Seq<char>| lookup(r@, x) is None,
    {
        let r = ProfileStore { rows: Vec::new() };
        proof {
            assert(r@ =~= Seq::<RecordModel>::empty());
            assert forall|x: Seq<char>| lookup(r@, x) is None by {
                lemma_lookup_absent(r@, x);
            }
        }
        r
    }

    pub fn len(&self) -> (n: usize)
        ensures
            n == self@.len(),
    {
        self.rows.len()
    }

    /// The stored record under `id`, fresh or not.
    pub fn get_record(&self, id: &str) -> (r: Option<ProfileRecord>)
        ensures
            r matches Some(rec) ==> lookup(self@, id@) == Some(rec@),
            r is None ==> lookup(self@, id@) is None,
    {
        let n = self.rows.len();
        let mut i: usize = 0;
        while i < n
            invariant
                n == self.rows.len(),
                i <= n,
                self@.len() == n,
                forall|j: int| 0 <= j < i ==> self@[j].id != id@,
            decreases n - i,
        {
            if str_eq(self.rows[i].id.as_str(), id) {
                let rec = self.rows[i].clone();
                proof {
                    lemma_lookup_present(self@, id@, i as int);
                }
                return Some(rec);
            }
            i += 1;
        }
        proof {
            lemma_lookup_absent(self@, id@);
        }
        None
    }

    /// The freshness-aware read: returns the stored record for `id` only if
    /// its age at `now` is strictly below `freshness window`; nothing if the
    /// record is absent or stale. Read-only.
    pub fn get_if_fresh(&self, id: &str, now: i64) -> (r: Option<ProfileRecord>)
        ensures
            r matches Some(rec) ==> fresh_lookup(self@, id@, now as int) == Some(rec@),
            r is None ==> fresh_lookup(self@, id@, now as int) is None,
    {
        match self.get_record(id) {
            Some(rec) => {
                if crate::record::is_fresh(rec.captured_at, now) {
                    Some(rec)
                } else {
                    None
                }
            },
            None => None,
        }
    }

    /// Upserts by `id`: replaces the row under the record's identifier, or
    /// appends a new one, setting `captured_at` to the write time `now`.
    /// Every other key resolves exactly as before.
    pub fn put(&mut self, record: ProfileRecord, now: i64)
        requires
            old(self).wf(),
        ensures
            final(self).wf(),
            lookup(final(self)@, record@.id) == Some(stamped(record@, now as int)),
            forall|x: Seq<char>| x != record@.id ==> lookup(final(self)@, x) == lookup(
                old(self)@,
                x,
            ),
    {
        let mut rec = record;
        rec.captured_at = now;
        let ghost m = stamped(record@, now as int);
        proof {
            assert(rec@ =~= m);
        }
        let n = self.rows.len();
        let mut i: usize = 0;
        while i < n
            invariant
                n == self.rows.len(),
                i <= n,
                self@.len() == n,
                self.wf(),
                rec@ == m,
                m == stamped(record@, now as int),
                m.id == record@.id,
                self == old(self),
                forall|j: int| 0 <= j < i ==> self@[j].id != m.id,
            decreases n - i,
        {
            if str_eq(self.rows[i].id.as_str(), rec.id.as_str()) {
                let ghost before = self@;
                self.rows[i] = rec;
                proof {
                    assert(self@ =~= before.update(i as int, m));
                    assert forall|j: int, k: int| 0 <= j < k < self@.len() implies self@[j].id
                        != self@[k].id by {
                        assert(before[j].id != before[k].id);
                    }
                    lemma_lookup_present(self@, m.id, i as int);
                    assert forall|x: Seq<char>| x != m.id implies lookup(self@, x) == lookup(
                        before,
                        x,
                    ) by {
                        lemma_lookup_agree_except(self@, before, i as int, x);
                    }
                }
                return ;
            }
            i += 1;
        }
        let ghost before = self@;
        self.rows.push(rec);
        proof {
            assert(self@ =~= before.push(m));
            assert forall|j: int, k: int| 0 <= j < k < self@.len() implies self@[j].id
                != self@[k].id by {
                if k < before.len() {
                    assert(before[j].id != before[k].id);
                } else {
                    assert(self@[k] == m);
                    assert(before[j].id != m.id);
                }
            }
            lemma_lookup_absent(before, m.id);
            lemma_lookup_push(before, m, m.id);
            assert forall|x: Seq<char>| x != m.id implies lookup(self@, x) == lookup(
                before,
                x,
            ) by {
                lemma_lookup_push(before, m, x);
            }
        }
    }
}

} // verus!
