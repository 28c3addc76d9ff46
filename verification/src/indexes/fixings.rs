//! The history of past index fixings, by index name and date.
use vstd::prelude::*;

use crate::time::date::Date;
use vstd::string::StringSliceAdditionalSpecFns;
use vstd::utf8::encode_utf8;

verus! {

/// A byte of a name, with an ASCII lower-case letter taken as upper case.
pub open spec fn fold_byte(b: u8) -> u8 {
    if 97 <= b <= 122 {
        (b - 32) as u8
    } else {
        b
    }
}

/// The key a name is filed under: its bytes, without regard to ASCII case.
pub open spec fn name_key(name: Seq<char>) -> Seq<u8> {
    encode_utf8(name).map_values(|b: u8| fold_byte(b))
}

/// The key `name` is filed under.
pub fn key_of(name: &str) -> (r: Vec<u8>)
    ensures
        r@ == name_key(name@),
{
    let bytes = name.as_bytes();
    let mut r: Vec<u8> = Vec::new();
    let mut i: usize = 0;
    while i < bytes.len()
        invariant
            i <= bytes@.len(),
            bytes@ == name.spec_bytes(),
            r@ == bytes@.subrange(0, i as int).map_values(|b: u8| fold_byte(b)),
        decreases bytes.len() - i,
    {
        let b = bytes[i];
        let folded = if 97 <= b && b <= 122 {
            b - 32
        } else {
            b
        };
        r.push(folded);
        i = i + 1;
        assert(r@ =~= bytes@.subrange(0, i as int).map_values(|b: u8| fold_byte(b)));
    }
    assert(bytes@.subrange(0, bytes@.len() as int) =~= bytes@);
    r
}

/// Whether two keys are the same.
fn same_key(a: &Vec<u8>, b: &Vec<u8>) -> (r: bool)
    ensures
        r == (a@ == b@),
{
    if a.len() != b.len() {
        return false;
    }
    let mut i: usize = 0;
    while i < a.len()
        invariant
            i <= a.len(),
            a.len() == b.len(),
            forall|k: int| 0 <= k < i ==> a@[k] == b@[k],
        decreases a.len() - i,
    {
        if a[i] != b[i] {
            return false;
        }
        i = i + 1;
    }
    assert(a@ =~= b@);
    true
}

/// One stored fixing: the key of the index it belongs to, its date and its
/// value.
pub struct StoredFixing<R> {
    key: Vec<u8>,
    date: Date,
    value: R,
}

/// The fixings recorded for every index, one value per index and date.
///
/// Index names are matched without regard to ASCII case. Values are carried
/// as the caller represents them.
pub struct FixingStore<R> {
    entries: Vec<StoredFixing<R>>,
}

impl<R> FixingStore<R> {
    /// Whether the entry at `i` is filed under `key` on the date of serial
    /// `date`.
    pub closed spec fn files(&self, i: int, key: Seq<u8>, date: int) -> bool {
        &&& 0 <= i < self.entries@.len()
        &&& self.entries@[i].key@ == key
        &&& self.entries@[i].date@ == date
    }

    /// No index has two entries on one date.
    #[verifier::type_invariant]
    spec fn inv(self) -> bool {
        forall|i: int, j: int|
            0 <= i < self.entries@.len() && 0 <= j < self.entries@.len() && i != j ==> !(
            #[trigger] self.entries@[i].key@ == #[trigger] self.entries@[j].key@
                && self.entries@[i].date@ == self.entries@[j].date@)
    }

    /// The value recorded under `key` on the date of serial `date`, if any.
    pub closed spec fn fixing_spec(&self, key: Seq<u8>, date: int) -> Option<R> {
        if exists|i: int| self.files(i, key, date) {
            Some(self.entries@[choose|i: int| self.files(i, key, date)].value)
        } else {
            None
        }
    }

    /// Whether anything is recorded under `key`.
    pub closed spec fn has_history(&self, key: Seq<u8>) -> bool {
        exists|i: int, d: int| self.files(i, key, d)
    }

    /// Whether `d` is the latest date recorded under `key`.
    pub open spec fn is_last_date(&self, key: Seq<u8>, d: int) -> bool {
        &&& self.fixing_spec(key, d) is Some
        &&& forall|e: int| #[trigger] self.fixing_spec(key, e) is Some ==> e <= d
    }

    /// A value recorded under a key and date is the one `fixing_spec` gives.
    proof fn lemma_files(&self, i: int, key: Seq<u8>, date: int)
        requires
            self.inv(),
            self.files(i, key, date),
        ensures
            self.fixing_spec(key, date) == Some(self.entries@[i].value),
    {
        let j = choose|j: int| self.files(j, key, date);
        if i != j {
            assert(self.entries@[i].key@ == self.entries@[j].key@);
        }
    }
}

impl<R: Copy> FixingStore<R> {
    /// A store with nothing recorded.
    pub fn new() -> (r: FixingStore<R>)
        ensures
            forall|key: Seq<u8>, date: int| r.fixing_spec(key, date) is None,
            forall|key: Seq<u8>| !r.has_history(key),
    {
        FixingStore { entries: Vec::new() }
    }

    /// The position of the entry filed under `key` on `date`, if any.
    fn position(&self, key: &Vec<u8>, date: Date) -> (r: Option<usize>)
        ensures
            match r {
                Some(i) => self.files(i as int, key@, date@),
                None => forall|i: int| !self.files(i, key@, date@),
            },
    {
        let mut i: usize = 0;
        while i < self.entries.len()
            invariant
                i <= self.entries@.len(),
                forall|k: int| 0 <= k < i ==> !self.files(k, key@, date@),
            decreases self.entries.len() - i,
        {
            if same_key(&self.entries[i].key, key)
                && self.entries[i].date.serial_number() == date.serial_number() {
                return Some(i);
            }
            i = i + 1;
        }
        None
    }

    /// Records `value` for the index named `name` on `date`, in place of
    /// any value recorded there before; nothing else changes.
    pub fn add_fixing(&mut self, name: &str, date: Date, value: R)
        ensures
            final(self).fixing_spec(name_key(name@), date@) == Some(value),
            forall|key: Seq<u8>, d: int|
                !(key == name_key(name@) && d == date@) ==> final(self).fixing_spec(key, d)
                    == old(self).fixing_spec(key, d),
    {
        let key = key_of(name);
        proof {
            use_type_invariant(&*self);
        }
        let ghost before = *self;
        let position = self.position(&key, date);
        let mut entries: Vec<StoredFixing<R>> = Vec::new();
        std::mem::swap(&mut entries, &mut self.entries);
        assert(entries@ == before.entries@);
        match position {
            Some(i) => {
                let stored_key = key_of(name);
                let entry = StoredFixing { key: stored_key, date, value };
                entries.set(i, entry);
                assert forall|a: int, b: int|
                    0 <= a < entries@.len() && 0 <= b < entries@.len() && a != b implies !(
                    #[trigger] entries@[a].key@ == #[trigger] entries@[b].key@
                        && entries@[a].date@ == entries@[b].date@) by {
                    assert(before.inv());
                    if a != i && b != i {
                        assert(entries@[a] == before.entries@[a]);
                        assert(entries@[b] == before.entries@[b]);
                    } else if a == i {
                        assert(entries@[b] == before.entries@[b]);
                        assert(before.files(i as int, key@, date@));
                    } else {
                        assert(entries@[a] == before.entries@[a]);
                        assert(before.files(i as int, key@, date@));
                    }
                }
            },
            None => {
                let entry = StoredFixing { key, date, value };
                entries.push(entry);
                assert forall|a: int, b: int|
                    0 <= a < entries@.len() && 0 <= b < entries@.len() && a != b implies !(
                    #[trigger] entries@[a].key@ == #[trigger] entries@[b].key@
                        && entries@[a].date@ == entries@[b].date@) by {
                    assert(before.inv());
                    let n = before.entries@.len() as int;
                    if a < n && b < n {
                        assert(entries@[a] == before.entries@[a]);
                        assert(entries@[b] == before.entries@[b]);
                    } else if a == n {
                        assert(entries@[b] == before.entries@[b]);
                        assert(!before.files(b, key@, date@));
                    } else {
                        assert(entries@[a] == before.entries@[a]);
                        assert(!before.files(a, key@, date@));
                    }
                }
            },
        }
        self.entries = entries;
        proof {
            use_type_invariant(&*self);
            let j0 = match position {
                Some(i) => i as int,
                None => before.entries@.len() as int,
            };
            assert(self.files(j0, key@, date@));
            self.lemma_files(j0, key@, date@);
            assert forall|k: Seq<u8>, d: int|
                !(k == key@ && d == date@) implies self.fixing_spec(k, d) == before.fixing_spec(k, d) by {
                assert forall|j: int| self.files(j, k, d) <==> before.files(j, k, d) by {
                    if j != j0 && 0 <= j < before.entries@.len() {
                        assert(self.entries@[j] == before.entries@[j]);
                    } else if j == j0 {
                        assert(!self.files(j, k, d));
                        if position is Some {
                            assert(before.files(j0, key@, date@));
                            assert(!before.files(j, k, d));
                        }
                    }
                }
                if exists|j: int| before.files(j, k, d) {
                    let j = choose|j: int| before.files(j, k, d);
                    assert(self.files(j, k, d));
                    assert(j != j0);
                    assert(self.entries@[j] == before.entries@[j]);
                    before.lemma_files(j, k, d);
                    self.lemma_files(j, k, d);
                } else {
                    assert forall|j: int| !self.files(j, k, d) by {
                        if self.files(j, k, d) {
                            assert(before.files(j, k, d));
                        }
                    }
                }
            }
        }
    }

    /// The value recorded for the index named `name` on `date`, if any.
    pub fn fixing(&self, name: &str, date: Date) -> (r: Option<R>)
        ensures
            r == self.fixing_spec(name_key(name@), date@),
    {
        let key = key_of(name);
        match self.position(&key, date) {
            Some(i) => {
                proof {
                    use_type_invariant(self);
                    self.lemma_files(i as int, key@, date@);
                }
                Some(self.entries[i].value)
            },
            None => None,
        }
    }

    /// Whether a value is recorded for the index named `name` on `date`.
    pub fn has_fixing(&self, name: &str, date: Date) -> (r: bool)
        ensures
            r == (self.fixing_spec(name_key(name@), date@) is Some),
    {
        self.fixing(name, date).is_some()
    }

    /// The latest date a value is recorded on for the index named `name`,
    /// if any.
    pub fn last_fixing_date(&self, name: &str) -> (r: Option<Date>)
        ensures
            match r {
                Some(d) => self.is_last_date(name_key(name@), d@),
                None => forall|e: int| self.fixing_spec(name_key(name@), e) is None,
            },
    {
        let key = key_of(name);
        let mut last: Option<Date> = None;
        let mut i: usize = 0;
        while i < self.entries.len()
            invariant
                i <= self.entries@.len(),
                forall|k: int, e: int| 0 <= k < i && #[trigger] self.files(k, key@, e) ==> (last matches Some(d) && e <= d@),
                last matches Some(d) ==> exists|k: int| 0 <= k < i && self.files(k, key@, d@),
            decreases self.entries.len() - i,
        {
            if same_key(&self.entries[i].key, &key) {
                let d = self.entries[i].date;
                assert(self.files(i as int, key@, d@));
                match last {
                    None => {
                        last = Some(d);
                    },
                    Some(l) => {
                        if l.is_before(&d) {
                            last = Some(d);
                        }
                    },
                }
            }
            assert forall|k: int, e: int| 0 <= k < i + 1 && #[trigger] self.files(k, key@, e) implies (last matches Some(d) && e <= d@) by {
                if k == i {
                    assert(self.entries@[k].key@ == key@);
                }
            }
            i = i + 1;
        }
        proof {
            use_type_invariant(self);
            assert forall|e: int| #[trigger] self.fixing_spec(key@, e) is Some implies (last matches Some(d) && e <= d@) by {
                let k = choose|k: int| self.files(k, key@, e);
            }
            match last {
                Some(d) => {
                    let k = choose|k: int| 0 <= k < i && self.files(k, key@, d@);
                    self.lemma_files(k, key@, d@);
                },
                None => {},
            }
        }
        last
    }
}

} // verus!
