//! The gallery of enrolled identities.
//!
//! A gallery maps keys to records, a record being a name and an encoding.
//! Keys are handed out in increasing order and never reused. A query is
//! matched by measuring its distance to every stored encoding and choosing
//! the nearest record, the one with the lowest key among equals, provided
//! that it lies within the gallery's tolerance.
//!
//! The gallery does not compute distances: a caller supplies the measure, a
//! function from two encodings to the bit pattern of a double.

use crate::binary64;
use crate::face_encoding::encoding::FaceEncoding;
use std::collections::HashMap;
use vstd::prelude::*;

verus! {

broadcast use vstd::std_specs::hash::group_hash_axioms;

/// What the gallery holds under one key.
pub struct Record {
    pub name: Seq<char>,
    pub encoding: FaceEncoding,
}

/// A record's key with the distance measured from a query to its encoding.
#[derive(Copy, Clone, Debug, PartialEq, Eq, Structural)]
pub struct Candidate {
    pub key: usize,
    pub distance: u64,
}

/// `a` is no farther than `b`, and has the lower key where both are equally
/// far.
pub open spec fn precedes(a: Candidate, b: Candidate) -> bool {
    ||| binary64::rank(a.distance) < binary64::rank(b.distance)
    ||| (binary64::rank(a.distance) == binary64::rank(b.distance) && a.key <= b.key)
}

/// Candidate `i` has a distance that is a number, and precedes every one of
/// the first `upto` candidates whose distance is a number.
pub open spec fn leads(candidates: Seq<Candidate>, upto: int, i: int) -> bool {
    &&& 0 <= i < upto <= candidates.len()
    &&& !binary64::is_nan(candidates[i].distance)
    &&& forall|j: int|
        0 <= j < upto && !binary64::is_nan(#[trigger] candidates[j].distance) ==> precedes(
            candidates[i],
            candidates[j],
        )
}

/// Candidate `i` is the nearest of all.
pub open spec fn is_nearest(candidates: Seq<Candidate>, i: int) -> bool {
    leads(candidates, candidates.len() as int, i)
}

/// `found` is the answer to a query with these candidates: the key of the
/// nearest candidate where that one lies within the tolerance, and nothing
/// where no candidate does. A NaN distance is never within the tolerance.
pub open spec fn chosen(candidates: Seq<Candidate>, tolerance: u64, found: Option<usize>) -> bool {
    match found {
        Some(key) => exists|i: int|
            is_nearest(candidates, i) && (#[trigger] candidates[i]).key == key && binary64::at_most(
                candidates[i].distance,
                tolerance,
            ),
        None => forall|j: int|
            0 <= j < candidates.len() ==> !binary64::at_most(
                #[trigger] candidates[j].distance,
                tolerance,
            ),
    }
}

/// The candidates list every record once, by ascending key, each with a
/// distance that `distance` may return for the record's encoding and `face`.
pub open spec fn measured<F: Fn(&FaceEncoding, &FaceEncoding) -> u64>(
    records: Map<usize, Record>,
    face: FaceEncoding,
    distance: F,
    candidates: Seq<Candidate>,
) -> bool {
    &&& forall|i: int|
        0 <= i < candidates.len() ==> records.contains_key((#[trigger] candidates[i]).key)
            && call_ensures(
            distance,
            (&records[candidates[i].key].encoding, &face),
            candidates[i].distance,
        )
    &&& forall|i: int, j: int|
        0 <= i < j < candidates.len() ==> (#[trigger] candidates[i]).key < (
        #[trigger] candidates[j]).key
    &&& forall|key: usize| #[trigger]
        records.contains_key(key) ==> exists|i: int|
            0 <= i < candidates.len() && (#[trigger] candidates[i]).key == key
}

/// `found` answers the query `face`: it is chosen among candidates that
/// were measured with `distance` on these records.
pub open spec fn answers<F: Fn(&FaceEncoding, &FaceEncoding) -> u64>(
    records: Map<usize, Record>,
    tolerance: u64,
    face: FaceEncoding,
    distance: F,
    found: Option<usize>,
) -> bool {
    exists|candidates: Seq<Candidate>| #[trigger]
        measured(records, face, distance, candidates) && chosen(candidates, tolerance, found)
}

/// The records that do not carry `name`.
pub open spec fn without_name(records: Map<usize, Record>, name: Seq<char>) -> Map<usize, Record> {
    Map::new(
        |key: usize| records.contains_key(key) && records[key].name != name,
        |key: usize| records[key],
    )
}

/// The answer to a query among measured candidates.
pub fn nearest_within(candidates: &Vec<Candidate>, tolerance: u64) -> (found: Option<usize>)
    ensures
        chosen(candidates@, tolerance, found),
{
    let mut best: Option<usize> = None;
    let mut i: usize = 0;
    while i < candidates.len()
        invariant
            i <= candidates@.len(),
            match best {
                Some(b) => leads(candidates@, i as int, b as int),
                None => forall|j: int| 0 <= j < i ==> binary64::is_nan(candidates@[j].distance),
            },
        decreases candidates@.len() - i,
    {
        let candidate = candidates[i];
        if !binary64::encodes_nan(candidate.distance) {
            match best {
                None => {
                    best = Some(i);
                },
                Some(b) => {
                    let leader = candidates[b];
                    let near = binary64::rank_of(candidate.distance);
                    let least = binary64::rank_of(leader.distance);
                    if near < least || (near == least && candidate.key < leader.key) {
                        best = Some(i);
                    }
                },
            }
        }
        i += 1;
    }
    match best {
        Some(b) => {
            let leader = candidates[b];
            if binary64::is_at_most(leader.distance, tolerance) {
                assert(is_nearest(candidates@, b as int));
                Some(leader.key)
            } else {
                assert forall|j: int| 0 <= j < candidates@.len() implies !binary64::at_most(
                    #[trigger] candidates@[j].distance,
                    tolerance,
                ) by {
                    if !binary64::is_nan(candidates@[j].distance) {
                        assert(precedes(candidates@[b as int], candidates@[j]));
                    }
                }
                None
            }
        },
        None => None,
    }
}

/// A gallery of named encodings.
pub struct FaceComparer {
    seed: usize,
    tolerance: u64,
    names: HashMap<usize, String>,
    values: HashMap<usize, FaceEncoding>,
}

impl View for FaceComparer {
    type V = Map<usize, Record>;

    /// The records by key.
    closed spec fn view(&self) -> Map<usize, Record> {
        Map::new(
            |key: usize| self.names@.contains_key(key),
            |key: usize| (Record { name: self.names@[key]@, encoding: self.values@[key] }),
        )
    }
}

impl FaceComparer {
    /// The two stores hold the same keys, every one of them below the next
    /// key. Every constructor establishes this and every method keeps it.
    pub closed spec fn wf(&self) -> bool {
        &&& self.names@.dom() =~= self.values@.dom()
        &&& forall|key: usize| self.names@.contains_key(key) ==> key < self.seed
    }

    /// The key that the next inserted record gets.
    pub closed spec fn spec_next_key(&self) -> usize {
        self.seed
    }

    /// The largest distance, as a bit pattern, at which a record matches.
    pub closed spec fn spec_tolerance(&self) -> u64 {
        self.tolerance
    }

    /// The key that the next inserted record gets.
    #[verifier::when_used_as_spec(spec_next_key)]
    pub fn next_key(&self) -> (key: usize)
        ensures
            key == self.spec_next_key(),
    {
        self.seed
    }

    /// The largest distance, as a bit pattern, at which a record matches.
    #[verifier::when_used_as_spec(spec_tolerance)]
    pub fn tolerance(&self) -> (tolerance: u64)
        ensures
            tolerance == self.spec_tolerance(),
    {
        self.tolerance
    }

    /// An empty gallery with the customary tolerance of 0.6.
    pub fn new() -> (gallery: Self)
        ensures
            gallery.wf(),
            gallery@ == Map::<usize, Record>::empty(),
            gallery.next_key() == 0,
            gallery.tolerance() == binary64::TOLERANCE,
    {
        Self::with_tolerance(binary64::TOLERANCE)
    }

    /// An empty gallery with a tolerance of its own, given as the bit
    /// pattern of a double.
    pub fn with_tolerance(tolerance: u64) -> (gallery: Self)
        ensures
            gallery.wf(),
            gallery@ == Map::<usize, Record>::empty(),
            gallery.next_key() == 0,
            gallery.tolerance() == tolerance,
    {
        let gallery = Self { seed: 0, tolerance, names: HashMap::new(), values: HashMap::new() };
        assert(gallery@ =~= Map::<usize, Record>::empty());
        gallery
    }

    /// Enrols `value` under `name` as a new record with the next key. A name
    /// that is already enrolled gets a second record.
    pub fn insert(&mut self, name: String, value: FaceEncoding)
        requires
            old(self).wf(),
            old(self).next_key() < usize::MAX,
        ensures
            final(self).wf(),
            !old(self)@.contains_key(old(self).next_key()),
            final(self)@ == old(self)@.insert(
                old(self).next_key(),
                (Record { name: name@, encoding: value }),
            ),
            final(self).next_key() == old(self).next_key() + 1,
            final(self).tolerance() == old(self).tolerance(),
    {
        let key = self.seed;
        let ghost name_view = name@;
        self.names.insert(key, name);
        self.values.insert(key, value);
        self.seed = key + 1;
        assert(self@ =~= old(self)@.insert(key, (Record { name: name_view, encoding: value })));
    }

    /// The distance from `face` to every stored encoding, by ascending key.
    pub fn measure<F: Fn(&FaceEncoding, &FaceEncoding) -> u64>(
        &self,
        face: &FaceEncoding,
        distance: &F,
    ) -> (candidates: Vec<Candidate>)
        requires
            self.wf(),
            forall|key: usize| #[trigger]
                self@.contains_key(key) ==> call_requires(*distance, (&self@[key].encoding, face)),
        ensures
            measured(self@, *face, *distance, candidates@),
    {
        let mut candidates: Vec<Candidate> = Vec::new();
        let mut key: usize = 0;
        while key < self.seed
            invariant
                self.wf(),
                key <= self.seed,
                forall|k: usize| #[trigger]
                    self@.contains_key(k) ==> call_requires(*distance, (&self@[k].encoding, face)),
                forall|i: int|
                    0 <= i < candidates@.len() ==> self@.contains_key(
                        (#[trigger] candidates@[i]).key,
                    ) && candidates@[i].key < key && call_ensures(
                        *distance,
                        (&self@[candidates@[i].key].encoding, face),
                        candidates@[i].distance,
                    ),
                forall|i: int, j: int|
                    0 <= i < j < candidates@.len() ==> (#[trigger] candidates@[i]).key < (
                    #[trigger] candidates@[j]).key,
                forall|k: usize| #[trigger]
                    self@.contains_key(k) && k < key ==> exists|i: int|
                        0 <= i < candidates@.len() && (#[trigger] candidates@[i]).key == k,
            decreases self.seed - key,
        {
            match self.values.get(&key) {
                Some(stored) => {
                    assert(self@.contains_key(key));
                    let d = distance(stored, face);
                    let ghost before = candidates@;
                    candidates.push(Candidate { key, distance: d });
                    assert forall|k: usize| #[trigger]
                        self@.contains_key(k) && k < key + 1 implies exists|i: int|
                        0 <= i < candidates@.len() && (#[trigger] candidates@[i]).key == k by {
                        if k < key {
                            let i = choose|i: int|
                                0 <= i < before.len() && (#[trigger] before[i]).key == k;
                            assert(candidates@[i].key == k);
                        } else {
                            assert(candidates@[before.len() as int].key == k);
                        }
                    }
                },
                None => {
                    assert(!self@.contains_key(key));
                },
            }
            key += 1;
        }
        candidates
    }

    /// The key of the record nearest to `face`, the lowest key among equals,
    /// where that record is within the tolerance; `None` where no record is.
    /// A record whose distance is no number is left out of the search.
    pub fn find<F: Fn(&FaceEncoding, &FaceEncoding) -> u64>(
        &self,
        face: &FaceEncoding,
        distance: &F,
    ) -> (found: Option<usize>)
        requires
            self.wf(),
            forall|key: usize| #[trigger]
                self@.contains_key(key) ==> call_requires(*distance, (&self@[key].encoding, face)),
        ensures
            answers(self@, self.tolerance(), *face, *distance, found),
            found matches Some(key) ==> self@.contains_key(key),
    {
        let candidates = self.measure(face, distance);
        nearest_within(&candidates, self.tolerance)
    }

    /// Whether a record is enrolled under `key`.
    pub fn contains_key(&self, key: &usize) -> (present: bool)
        requires
            self.wf(),
        ensures
            present == self@.contains_key(*key),
    {
        self.names.contains_key(key)
    }

    /// The name enrolled under `key`.
    pub fn get_name_unchecked(&self, key: &usize) -> (name: &str)
        requires
            self.wf(),
            self@.contains_key(*key),
        ensures
            name@ == self@[*key].name,
    {
        self.names.get(key).unwrap().as_str()
    }

    /// Removes the record under `key`, if there is one.
    pub fn remove_key(&mut self, key: &usize)
        requires
            old(self).wf(),
        ensures
            final(self).wf(),
            final(self)@ == old(self)@.remove(*key),
            final(self).next_key() == old(self).next_key(),
            final(self).tolerance() == old(self).tolerance(),
    {
        self.names.remove(key);
        self.values.remove(key);
        assert(self@ =~= old(self)@.remove(*key));
    }

    /// Removes every record enrolled under `name`.
    pub fn remove_name(&mut self, name: &str)
        requires
            old(self).wf(),
        ensures
            final(self).wf(),
            final(self)@ == without_name(old(self)@, name@),
            final(self).next_key() == old(self).next_key(),
            final(self).tolerance() == old(self).tolerance(),
    {
        let wanted = name.to_owned();
        let mut key: usize = 0;
        while key < self.seed
            invariant
                self.wf(),
                wanted@ == name@,
                key <= self.seed,
                self.seed == old(self).seed,
                self.tolerance == old(self).tolerance,
                self@ =~= Map::new(
                    |k: usize|
                        old(self)@.contains_key(k) && (k >= key || old(self)@[k].name != name@),
                    |k: usize| old(self)@[k],
                ),
            decreases self.seed - key,
        {
            let ghost before = self@;
            let enrolled = match self.names.get(&key) {
                Some(stored) => *stored == wanted,
                None => false,
            };
            assert(enrolled == (before.contains_key(key) && before[key].name == name@));
            if enrolled {
                self.names.remove(&key);
                self.values.remove(&key);
                assert(self@ =~= before.remove(key));
            }
            key += 1;
        }
        assert(self@ =~= without_name(old(self)@, name@));
    }

    /// The number of enrolled records.
    pub fn len(&self) -> (count: usize)
        requires
            self.wf(),
        ensures
            count == self@.dom().len(),
    {
        assert(self@.dom() =~= self.names@.dom());
        self.names.len()
    }
}

impl Default for FaceComparer {
    fn default() -> (gallery: Self)
        ensures
            gallery.wf(),
            gallery@ == Map::<usize, Record>::empty(),
            gallery.next_key() == 0,
            gallery.tolerance() == binary64::TOLERANCE,
    {
        Self::new()
    }
}

/// A well-formed gallery holds no record under its next key or above it: an
/// inserted record never replaces another.
pub proof fn lemma_keys_are_below_next(gallery: FaceComparer)
    requires
        gallery.wf(),
    ensures
        forall|key: usize| #[trigger] gallery@.contains_key(key) ==> key < gallery.next_key(),
        gallery@.dom().finite(),
{
    assert(gallery@.dom() =~= gallery.names@.dom());
}

/// A query has one answer: with the same candidates and tolerance, two
/// answers are the same.
pub proof fn lemma_answer_is_unique(
    candidates: Seq<Candidate>,
    tolerance: u64,
    first: Option<usize>,
    second: Option<usize>,
)
    requires
        chosen(candidates, tolerance, first),
        chosen(candidates, tolerance, second),
    ensures
        first == second,
{
    match (first, second) {
        (Some(a), Some(b)) => {
            let i = choose|i: int|
                is_nearest(candidates, i) && (#[trigger] candidates[i]).key == a
                    && binary64::at_most(candidates[i].distance, tolerance);
            let j = choose|j: int|
                is_nearest(candidates, j) && (#[trigger] candidates[j]).key == b
                    && binary64::at_most(candidates[j].distance, tolerance);
            assert(precedes(candidates[i], candidates[j]));
            assert(precedes(candidates[j], candidates[i]));
        },
        (Some(a), None) => {
            let i = choose|i: int|
                is_nearest(candidates, i) && (#[trigger] candidates[i]).key == a
                    && binary64::at_most(candidates[i].distance, tolerance);
            assert(!binary64::at_most(candidates[i].distance, tolerance));
        },
        (None, Some(b)) => {
            let j = choose|j: int|
                is_nearest(candidates, j) && (#[trigger] candidates[j]).key == b
                    && binary64::at_most(candidates[j].distance, tolerance);
            assert(!binary64::at_most(candidates[j].distance, tolerance));
        },
        (None, None) => {},
    }
}

/// An empty gallery matches no query, whatever the measure and the tolerance.
pub proof fn lemma_empty_gallery_matches_nothing<F: Fn(&FaceEncoding, &FaceEncoding) -> u64>(
    tolerance: u64,
    face: FaceEncoding,
    distance: F,
    found: Option<usize>,
)
    requires
        answers(Map::<usize, Record>::empty(), tolerance, face, distance, found),
    ensures
        found is None,
{
    let candidates = choose|candidates: Seq<Candidate>| #[trigger]
        measured(Map::<usize, Record>::empty(), face, distance, candidates) && chosen(
            candidates,
            tolerance,
            found,
        );
    if candidates.len() > 0 {
        assert(Map::<usize, Record>::empty().contains_key(candidates[0].key));
    }
}

/// A face that was just enrolled is found under its own key and name when
/// the query is the same face: provided that the measure gives zero from the
/// enrolled encoding to the query and more than zero, or no number, from
/// every other record, and that zero is within the tolerance.
pub proof fn lemma_enrolled_face_is_found<F: Fn(&FaceEncoding, &FaceEncoding) -> u64>(
    records: Map<usize, Record>,
    tolerance: u64,
    key: usize,
    name: Seq<char>,
    enrolled: FaceEncoding,
    face: FaceEncoding,
    distance: F,
    found: Option<usize>,
)
    requires
        !records.contains_key(key),
        enrolled@ == face@,
        forall|d: u64| #[trigger]
            call_ensures(distance, (&enrolled, &face), d) ==> binary64::same_value(
                d,
                binary64::ZERO,
            ),
        forall|other: usize, d: u64|
            records.contains_key(other) && #[trigger] call_ensures(
                distance,
                (&records[other].encoding, &face),
                d,
            ) ==> binary64::is_nan(d) || binary64::rank(d) > 0,
        binary64::at_most(binary64::ZERO, tolerance),
        answers(
            records.insert(key, (Record { name: name, encoding: enrolled })),
            tolerance,
            face,
            distance,
            found,
        ),
    ensures
        found == Some(key),
        records.insert(key, (Record { name: name, encoding: enrolled }))[key].name == name,
{
    let after = records.insert(key, (Record { name: name, encoding: enrolled }));
    let candidates = choose|candidates: Seq<Candidate>| #[trigger]
        measured(after, face, distance, candidates) && chosen(candidates, tolerance, found);
    assert(after.contains_key(key));
    let own = choose|i: int| 0 <= i < candidates.len() && (#[trigger] candidates[i]).key == key;
    assert(after[candidates[own].key].encoding == enrolled);
    assert(binary64::same_value(candidates[own].distance, binary64::ZERO));
    assert forall|j: int| 0 <= j < candidates.len() && j != own implies binary64::is_nan(
        (#[trigger] candidates[j]).distance,
    ) || binary64::rank(candidates[j].distance) > 0 by {
        let other = candidates[j].key;
        if j < own {
            assert(candidates[j].key < candidates[own].key);
        } else {
            assert(candidates[own].key < candidates[j].key);
        }
        assert(after.contains_key(other));
        assert(records.contains_key(other));
        assert(after[other] == records[other]);
    }
    assert(is_nearest(candidates, own));
    assert(chosen(candidates, tolerance, Some(key)));
    lemma_answer_is_unique(candidates, tolerance, found, Some(key));
}

/// After the records under a name are removed, no query is answered with a
/// record of that name.
pub proof fn lemma_removed_name_is_not_found<F: Fn(&FaceEncoding, &FaceEncoding) -> u64>(
    records: Map<usize, Record>,
    tolerance: u64,
    name: Seq<char>,
    face: FaceEncoding,
    distance: F,
    found: Option<usize>,
)
    requires
        answers(without_name(records, name), tolerance, face, distance, found),
    ensures
        found matches Some(key) ==> records.contains_key(key) && records[key].name != name,
{
    let candidates = choose|candidates: Seq<Candidate>| #[trigger]
        measured(without_name(records, name), face, distance, candidates) && chosen(
            candidates,
            tolerance,
            found,
        );
    if let Some(key) = found {
        let i = choose|i: int|
            is_nearest(candidates, i) && (#[trigger] candidates[i]).key == key
                && binary64::at_most(candidates[i].distance, tolerance);
        assert(without_name(records, name).contains_key(candidates[i].key));
    }
}

/// Enrolling a face under a name and then removing that name leaves the
/// gallery as removing the name alone does; where the gallery held nothing
/// under another name, no query is matched afterwards.
pub proof fn lemma_enrol_then_remove_matches_nothing<F: Fn(&FaceEncoding, &FaceEncoding) -> u64>(
    records: Map<usize, Record>,
    tolerance: u64,
    key: usize,
    name: Seq<char>,
    enrolled: FaceEncoding,
    face: FaceEncoding,
    distance: F,
    found: Option<usize>,
)
    requires
        !records.contains_key(key),
        answers(
            without_name(records.insert(key, (Record { name: name, encoding: enrolled })), name),
            tolerance,
            face,
            distance,
            found,
        ),
    ensures
        without_name(records.insert(key, (Record { name: name, encoding: enrolled })), name)
            == without_name(records, name),
        (forall|other: usize| #[trigger]
            records.contains_key(other) ==> records[other].name == name) ==> found is None,
{
    let after = records.insert(key, (Record { name: name, encoding: enrolled }));
    assert(without_name(after, name) =~= without_name(records, name));
    lemma_removed_name_is_not_found(records, tolerance, name, face, distance, found);
}

} // verus!
