//! The execution tokens a compiler records for the words it defines, keyed by
//! the bytes of the word's name. Redefining a name replaces its token.
use vstd::prelude::*;
use vstd::string::StringSliceAdditionalSpecFns;

verus! {

/// `a` and `b` hold the same bytes.
pub fn bytes_equal(a: &[u8], b: &[u8]) -> (r: bool)
    ensures
        r == (a@ == b@),
{
    if a.len() != b.len() {
        return false;
    }
    let mut i: usize = 0;
    while i < a.len()
        invariant
            a@.len() == b@.len(),
            i <= a@.len(),
            forall|j: int| 0 <= j < i ==> a@[j] == b@[j],
        decreases a@.len() - i,
    {
        if a[i] != b[i] {
            return false;
        }
        i = i + 1;
    }
    assert(a@ =~= b@);
    true
}

/// A copy of the bytes of `a`.
pub fn copy_bytes(a: &[u8]) -> (r: Vec<u8>)
    ensures
        r@ == a@,
{
    let mut r: Vec<u8> = Vec::new();
    let mut i: usize = 0;
    while i < a.len()
        invariant
            i <= a@.len(),
            r@ == a@.subrange(0, i as int),
        decreases a@.len() - i,
    {
        r.push(a[i]);
        i = i + 1;
    }
    assert(a@.subrange(0, i as int) =~= a@);
    r
}

/// Execution tokens by name, in the order the names were first defined.
pub struct TokenTable {
    names: Vec<Vec<u8>>,
    labels: Vec<String>,
    tokens: Vec<i32>,
}

impl TokenTable {
    /// The names, in the order they were first defined.
    pub closed spec fn names(&self) -> Seq<Seq<u8>> {
        self.names@.map_values(|n: Vec<u8>| n@)
    }

    /// The names as text, in the order they were first defined.
    pub closed spec fn labels(&self) -> Seq<Seq<char>> {
        self.labels@.map_values(|n: String| n@)
    }

    /// The token of each name.
    pub closed spec fn map(&self) -> Map<Seq<u8>, i32> {
        Map::new(
            |k: Seq<u8>| self.names().contains(k),
            |k: Seq<u8>| self.tokens@[self.names().index_of(k)],
        )
    }

    /// Names and tokens line up and no name is recorded twice.
    pub closed spec fn wf(&self) -> bool {
        &&& self.names@.len() == self.tokens@.len()
        &&& self.labels@.len() == self.tokens@.len()
        &&& forall|i: int|
            0 <= i < self.names().len() ==> vstd::utf8::encode_utf8(#[trigger] self.labels()[i])
                == self.names()[i]
        &&& self.names().no_duplicates()
    }

    /// An empty table.
    pub fn new() -> (r: TokenTable)
        ensures
            r.wf(),
            r.map() == Map::<Seq<u8>, i32>::empty(),
            r.names() == Seq::<Seq<u8>>::empty(),
            r.labels() == Seq::<Seq<char>>::empty(),
    {
        let r = TokenTable { names: Vec::new(), labels: Vec::new(), tokens: Vec::new() };
        assert(r.names() =~= Seq::<Seq<u8>>::empty());
        assert(r.labels() =~= Seq::<Seq<char>>::empty());
        assert(r.map() =~= Map::<Seq<u8>, i32>::empty());
        r
    }

    /// The position of `name` among the recorded names.
    fn position(&self, name: &[u8]) -> (r: Option<usize>)
        requires
            self.wf(),
        ensures
            match r {
                Some(i) => i < self.names().len() && self.names()[i as int] == name@,
                None => !self.names().contains(name@),
            },
    {
        let mut i: usize = 0;
        while i < self.names.len()
            invariant
                self.wf(),
                i <= self.names@.len(),
                forall|j: int| 0 <= j < i ==> self.names()[j] != name@,
            decreases self.names@.len() - i,
        {
            if bytes_equal(self.names[i].as_slice(), name) {
                return Some(i);
            }
            i = i + 1;
        }
        None
    }

    /// The token recorded for `name`, if any.
    pub fn get(&self, name: &[u8]) -> (r: Option<i32>)
        requires
            self.wf(),
        ensures
            r == (if self.map().contains_key(name@) {
                Some(self.map()[name@])
            } else {
                None::<i32>
            }),
    {
        match self.position(name) {
            Some(i) => {
                proof {
                    assert(self.names().contains(name@));
                    let p = self.names().index_of(name@);
                    if p != i {
                        assert(self.names()[p] == name@);
                    }
                }
                Some(self.tokens[i])
            },
            None => None,
        }
    }

    /// Records `token` for `name`, replacing any earlier token for it; a new
    /// name goes after all recorded names.
    pub fn insert(&mut self, name: &str, token: i32)
        requires
            old(self).wf(),
        ensures
            final(self).wf(),
            final(self).map() == old(self).map().insert(name.spec_bytes(), token),
            final(self).names() == (if old(self).names().contains(name.spec_bytes()) {
                old(self).names()
            } else {
                old(self).names().push(name.spec_bytes())
            }),
            final(self).labels() == (if old(self).names().contains(name.spec_bytes()) {
                old(self).labels()
            } else {
                old(self).labels().push(name@)
            }),
    {
        let text = name;
        let name = text.as_bytes();
        match self.position(name) {
            Some(i) => {
                self.tokens.set(i, token);
                proof {
                    assert(self.names() == old(self).names());
                    assert(self.labels() == old(self).labels());
                    assert forall|k: Seq<u8>| #[trigger] self.names().contains(k) implies self.map()[k]
                        == old(self).map().insert(name@, token)[k] by {
                        let p = self.names().index_of(k);
                        assert(self.names()[p] == k);
                        if k == name@ {
                            assert(self.names()[i as int] == name@);
                            if p != i {
                                assert(self.names()[p] == self.names()[i as int]);
                            }
                        }
                    }
                    assert(self.map() =~= old(self).map().insert(name@, token));
                }
            },
            None => {
                let copy = copy_bytes(name);
                self.names.push(copy);
                self.labels.push(text.to_owned());
                self.tokens.push(token);
                proof {
                    let old_names = old(self).names();
                    assert(self.labels() =~= old(self).labels().push(text@));
                    assert forall|j: int| 0 <= j < self.names().len() implies vstd::utf8::encode_utf8(
                        #[trigger] self.labels()[j],
                    ) == self.names()[j] by {
                        if j < old_names.len() {
                            assert(vstd::utf8::encode_utf8(old(self).labels()[j]) == old_names[j]);
                        } else {
                            assert(self.labels()[j] == text@);
                            assert(self.names()[j] == text.spec_bytes());
                        }
                    }
                    assert(self.names() =~= old_names.push(name@));
                    assert forall|a: int, b: int|
                        0 <= a < self.names().len() && 0 <= b < self.names().len() && a != b
                            implies self.names()[a] != self.names()[b] by {
                        if a < old_names.len() && b < old_names.len() {
                        } else if a == old_names.len() {
                            assert(old_names.contains(old_names[b]));
                        } else {
                            assert(old_names.contains(old_names[a]));
                        }
                    }
                    assert forall|k: Seq<u8>| #[trigger] self.names().contains(k) implies self.map()[k]
                        == old(self).map().insert(name@, token)[k] by {
                        let p = self.names().index_of(k);
                        assert(self.names()[p] == k);
                        if k == name@ {
                            if p != old_names.len() {
                                assert(old_names.contains(k));
                            }
                        } else {
                            assert(old_names.contains(k));
                            let q = old_names.index_of(k);
                            assert(old_names[q] == k);
                            if p != q {
                                assert(self.names()[p] == self.names()[q]);
                            }
                        }
                    }
                    assert forall|k: Seq<u8>|
                        #[trigger] old(self).map().insert(name@, token).contains_key(k) implies self.names().contains(k) by {
                        if k != name@ {
                            let q = old_names.index_of(k);
                            assert(old_names[q] == k);
                            assert(self.names()[q] == k);
                        } else {
                            assert(self.names()[old_names.len() as int] == k);
                        }
                    }
                    assert(self.map() =~= old(self).map().insert(name@, token));
                }
            },
        }
    }

    /// Names and their text line up.
    pub proof fn lemma_labels(&self)
        requires
            self.wf(),
        ensures
            self.labels().len() == self.names().len(),
    {
    }

    /// The number of recorded names.
    pub fn len(&self) -> (r: usize)
        requires
            self.wf(),
        ensures
            r == self.names().len(),
    {
        self.names.len()
    }

    /// The `i`-th recorded name and its token.
    pub fn entry(&self, i: usize) -> (r: (&String, i32))
        requires
            self.wf(),
            i < self.names().len(),
        ensures
            vstd::utf8::encode_utf8(r.0@) == self.names()[i as int],
            r.0@ == self.labels()[i as int],
            r.1 == self.map()[self.names()[i as int]],
    {
        proof {
            assert(vstd::utf8::encode_utf8(self.labels()[i as int]) == self.names()[i as int]);
            assert(self.names().contains(self.names()[i as int]));
            let p = self.names().index_of(self.names()[i as int]);
            if p != i {
                assert(self.names()[p] == self.names()[i as int]);
            }
        }
        (&self.labels[i], self.tokens[i])
    }
}

} // verus!
