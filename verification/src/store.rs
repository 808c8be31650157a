use vstd::prelude::*;

use crate::strutil::str_equal;

verus! {

/// One persisted single-use record: exactly one exists per outstanding
/// refresh credential, keyed by its `jti`.
pub struct RefreshRecord {
    pub jti: String,
    pub subject: String,
    pub expires_at: i64,
}

/// What a record contributes to the store's map: the subject and the expiry.
pub ghost struct RecordData {
    pub subject: Seq<char>,
    pub expires_at: int,
}

pub open spec fn record_data(r: RefreshRecord) -> RecordData {
    RecordData { subject: r.subject@, expires_at: r.expires_at as int }
}

/// The map that a sequence of records denotes; later records win on a
/// repeated key, though the store's invariant rules repetition out.
pub open spec fn record_map(s: Seq<RefreshRecord>) -> Map<Seq<char>, RecordData>
    decreases s.len(),
{
    if s.len() == 0 {
        Map::empty()
    } else {
        record_map(s.drop_last()).insert(s.last().jti@, record_data(s.last()))
    }
}

/// No two records share a `jti`.
pub open spec fn unique_jtis(s: Seq<RefreshRecord>) -> bool {
    forall|i: int, j: int| 0 <= i < j < s.len() ==> s[i].jti@ != s[j].jti@
}

proof fn lemma_record_map_dom(s: Seq<RefreshRecord>, k: Seq<char>)
    ensures
        record_map(s).contains_key(k) <==> exists|i: int| 0 <= i < s.len() && s[i].jti@ == k,
    decreases s.len(),
{
    if s.len() > 0 {
        lemma_record_map_dom(s.drop_last(), k);
        if s.last().jti@ == k {
            assert(s[s.len() - 1].jti@ == k);
        } else if record_map(s).contains_key(k) {
            let i = choose|i: int| 0 <= i < s.drop_last().len() && s.drop_last()[i].jti@ == k;
            assert(s[i].jti@ == k);
        } else if exists|i: int| 0 <= i < s.len() && s[i].jti@ == k {
            let i = choose|i: int| 0 <= i < s.len() && s[i].jti@ == k;
            assert(s.drop_last()[i].jti@ == k);
        }
    }
}

proof fn lemma_record_map_get(s: Seq<RefreshRecord>, i: int)
    requires
        unique_jtis(s),
        0 <= i < s.len(),
    ensures
        record_map(s).contains_key(s[i].jti@),
        record_map(s)[s[i].jti@] == record_data(s[i]),
    decreases s.len(),
{
    if i < s.len() - 1 {
        assert(unique_jtis(s.drop_last())) by {
            assert(forall|p: int, q: int|
                0 <= p < q < s.drop_last().len() ==> s.drop_last()[p].jti@ != s.drop_last()[q].jti@);
        }
        lemma_record_map_get(s.drop_last(), i);
        assert(s[i].jti@ != s.last().jti@);
    }
}

proof fn lemma_unique_drop_last(s: Seq<RefreshRecord>)
    requires
        unique_jtis(s),
        s.len() > 0,
    ensures
        unique_jtis(s.drop_last()),
{
}

proof fn lemma_record_map_remove(s: Seq<RefreshRecord>, i: int)
    requires
        unique_jtis(s),
        0 <= i < s.len(),
    ensures
        record_map(s.remove(i)) == record_map(s).remove(s[i].jti@),
    decreases s.len(),
{
    let k = s[i].jti@;
    if i == s.len() - 1 {
        assert(s.remove(i) =~= s.drop_last());
        lemma_record_map_dom(s.drop_last(), k);
        assert(forall|j: int| 0 <= j < s.drop_last().len() ==> s.drop_last()[j].jti@ != k);
        assert(!record_map(s.drop_last()).contains_key(k));
        assert(record_map(s).remove(k) =~= record_map(s.drop_last()));
    } else {
        lemma_unique_drop_last(s);
        lemma_record_map_remove(s.drop_last(), i);
        let t = s.remove(i);
        assert(t.len() == s.len() - 1);
        assert(t.last() == s.last());
        assert(t.drop_last() =~= s.drop_last().remove(i));
        assert(record_map(t) == record_map(s.drop_last()).remove(k).insert(
            s.last().jti@,
            record_data(s.last()),
        ));
        assert(s[i].jti@ != s.last().jti@);
        assert(record_map(s.drop_last()).remove(k).insert(s.last().jti@, record_data(s.last()))
            =~= record_map(s).remove(k));
    }
}

/// The persisted single-use store of refresh records, modelled as a map from
/// `jti` to record data. At most one record exists per `jti`.
pub struct TokenStore {
    records: Vec<RefreshRecord>,
}

impl View for TokenStore {
    type V = Map<Seq<char>, RecordData>;

    closed spec fn view(&self) -> Map<Seq<char>, RecordData> {
        record_map(self.records@)
    }
}

impl TokenStore {
    /// Well-formedness: the record sequence never repeats a `jti`.
    pub closed spec fn inv(&self) -> bool {
        unique_jtis(self.records@)
    }

    /// An empty store, holding no outstanding record.
    pub fn new() -> (r: TokenStore)
        ensures
            r.inv(),
            r@ == Map::<Seq<char>, RecordData>::empty(),
    {
        TokenStore { records: Vec::new() }
    }

    fn find_index(&self, jti: &str) -> (r: Option<usize>)
        ensures
            r matches Some(i) ==> i < self.records@.len() && self.records@[i as int].jti@ == jti@,
            r is None ==> forall|i: int|
                0 <= i < self.records@.len() ==> self.records@[i].jti@ != jti@,
    {
        let n = self.records.len();
        for i in 0..n
            invariant
                n == self.records@.len(),
                forall|j: int| 0 <= j < i ==> self.records@[j].jti@ != jti@,
        {
            if str_equal(self.records[i].jti.as_str(), jti) {
                return Some(i);
            }
        }
        None
    }

    /// Whether an outstanding record exists for `jti`.
    pub fn contains(&self, jti: &str) -> (r: bool)
        requires
            self.inv(),
        ensures
            r == self@.contains_key(jti@),
    {
        match self.find_index(jti) {
            Some(i) => {
                proof {
                    lemma_record_map_get(self.records@, i as int);
                }
                true
            },
            None => {
                proof {
                    lemma_record_map_dom(self.records@, jti@);
                }
                false
            },
        }
    }

    /// Atomic single-use consumption: deletes the record for `jti` and
    /// reports whether one existed. Exactly one of two racing callers for the
    /// same `jti` can observe `true`, because the observation and the
    /// deletion are one step.
    pub fn consume(&mut self, jti: &str) -> (r: bool)
        requires
            old(self).inv(),
        ensures
            final(self).inv(),
            r == old(self)@.contains_key(jti@),
            final(self)@ == old(self)@.remove(jti@),
    {
        match self.find_index(jti) {
            Some(i) => {
                proof {
                    lemma_record_map_get(self.records@, i as int);
                    lemma_record_map_remove(self.records@, i as int);
                    assert(forall|p: int, q: int|
                        0 <= p < q < self.records@.remove(i as int).len()
                            ==> self.records@.remove(i as int)[p].jti@
                            != self.records@.remove(i as int)[q].jti@);
                }
                self.records.remove(i);
                true
            },
            None => {
                proof {
                    lemma_record_map_dom(self.records@, jti@);
                    assert(old(self)@.remove(jti@) =~= old(self)@);
                }
                false
            },
        }
    }

    /// Idempotent upsert: after the call exactly one record exists for
    /// `jti`, carrying the given subject and expiry.
    pub fn persist(&mut self, jti: &str, subject: &str, expires_at: i64)
        requires
            old(self).inv(),
        ensures
            final(self).inv(),
            final(self)@ == old(self)@.insert(
                jti@,
                RecordData { subject: subject@, expires_at: expires_at as int },
            ),
    {
        self.consume(jti);
        proof {
            lemma_record_map_dom(self.records@, jti@);
        }
        let record = RefreshRecord {
            jti: jti.to_owned(),
            subject: subject.to_owned(),
            expires_at,
        };
        let ghost before = self.records@;
        self.records.push(record);
        proof {
            assert(self.records@.drop_last() =~= before);
            assert(forall|p: int, q: int|
                0 <= p < q < self.records@.len() ==> self.records@[p].jti@
                    != self.records@[q].jti@);
            assert(old(self)@.remove(jti@).insert(
                jti@,
                RecordData { subject: subject@, expires_at: expires_at as int },
            ) =~= old(self)@.insert(
                jti@,
                RecordData { subject: subject@, expires_at: expires_at as int },
            ));
        }
    }
}

} // verus!
