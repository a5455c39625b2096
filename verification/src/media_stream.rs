//! The registry of custom data streams that the player reads through the
//! native bridge, and the lazily opened reader of each stream.
use vstd::prelude::*;
use std::collections::HashMap;
use vstd::string::StringExecFns;
use crate::error::DataSourceError;
use crate::playback_error_code;

verus! {

broadcast use vstd::std_specs::hash::group_hash_axioms;

/// The number of distinct stream identifiers (all values of `i32`).
pub open spec fn id_space() -> int {
    0x1_0000_0000
}

/// The identifier `k` steps after `start`, counting upwards and wrapping
/// from `i32::MAX` to `i32::MIN` (meaningful for `0 <= k < id_space()`).
pub open spec fn id_after(start: i32, k: int) -> i32 {
    if start + k > i32::MAX {
        (start + k - id_space()) as i32
    } else {
        (start + k) as i32
    }
}

/// `id` is the first identifier, counting upwards from `start` and wrapping,
/// that `used` does not contain.
pub open spec fn first_free_id(used: Set<i32>, start: i32, id: i32) -> bool {
    exists|k: int|
        0 <= k < id_space() && id == id_after(start, k) && !used.contains(id) && (forall|j: int|
            0 <= j < k ==> used.contains(#[trigger] id_after(start, j)))
}

/// The message of the error for a stream identifier that is not registered.
pub open spec fn missing_stream_message() -> Seq<char> {
    "Missing stream"@
}

/// The streams currently registered, by identifier, and the identifier from
/// which the search for a free one starts.
pub struct MediaStreams<S> {
    map: HashMap<i32, S>,
    next_id: i32,
}

proof fn lemma_id_after_injective(start: i32, j: int, k: int)
    requires
        0 <= j < k < id_space(),
    ensures
        id_after(start, j) != id_after(start, k),
{
}

proof fn lemma_id_after_step(start: i32, k: int)
    requires
        0 <= k,
        k + 1 < id_space(),
    ensures
        id_after(start, k + 1) == id_after(start, k).wrapping_add(1),
{
}

impl<S> MediaStreams<S> {
    /// The registered streams, by identifier.
    pub closed spec fn streams(&self) -> Map<i32, S> {
        self.map@
    }

    /// The identifier from which the next search for a free one starts.
    pub closed spec fn next_id(&self) -> i32 {
        self.next_id
    }

    /// Only finitely many streams are ever registered.
    pub proof fn lemma_streams_finite(&self)
        ensures
            self.streams().dom().finite(),
    {
    }

    /// The number of registered streams.
    pub fn len(&self) -> (n: usize)
        ensures
            n == self.streams().dom().len(),
    {
        self.map.len()
    }

    /// An empty registry whose first identifier is `0`.
    pub fn new() -> (r: Self)
        ensures
            r.streams() == Map::<i32, S>::empty(),
            r.next_id() == 0,
    {
        MediaStreams { map: HashMap::new(), next_id: 0 }
    }

    /// Registers a stream and returns its identifier: the first identifier,
    /// counting upwards from `next_id` and wrapping, that is not in use.
    /// The search then continues after that identifier.
    pub fn add(&mut self, stream: S) -> (id: i32)
        requires
            old(self).streams().dom().len() < id_space(),
        ensures
            first_free_id(old(self).streams().dom(), old(self).next_id(), id),
            final(self).streams() == old(self).streams().insert(id, stream),
            final(self).next_id() == id.wrapping_add(1),
    {
        let ghost start = self.next_id;
        let ghost dom = self.map@.dom();
        let ghost mut k: int = 0;
        let ghost mut visited: Set<i32> = Set::empty();
        let mut id = self.next_id;
        self.next_id = self.next_id.wrapping_add(1);
        assert(dom.finite());
        while self.map.contains_key(&id)
            invariant
                self.map@ == old(self).map@,
                dom == old(self).map@.dom(),
                dom.finite(),
                dom.len() < id_space(),
                0 <= k < id_space(),
                id == id_after(start, k),
                self.next_id == id.wrapping_add(1),
                visited.finite(),
                visited.len() == k,
                visited.subset_of(dom),
                forall|x: i32| visited.contains(x) ==> exists|j: int| 0 <= j < k && x == #[trigger] id_after(start, j),
                forall|j: int| 0 <= j < k ==> dom.contains(#[trigger] id_after(start, j)),
            decreases dom.len() - k,
        {
            proof {
                assert(!visited.contains(id)) by {
                    if visited.contains(id) {
                        let j = choose|j: int| 0 <= j < k && id == #[trigger] id_after(start, j);
                        lemma_id_after_injective(start, j, k);
                    }
                }
                let new_visited = visited.insert(id);
                assert(new_visited.subset_of(dom));
                vstd::set_lib::lemma_len_subset(new_visited, dom);
                assert(k + 1 <= dom.len());
                assert forall|x: i32| new_visited.contains(x) implies exists|j: int| 0 <= j < k + 1 && x == #[trigger] id_after(start, j) by {
                    if x == id {
                        assert(x == id_after(start, k));
                    } else {
                        let j = choose|j: int| 0 <= j < k && x == #[trigger] id_after(start, j);
                        assert(0 <= j < k + 1 && x == id_after(start, j));
                    }
                }
                lemma_id_after_step(start, k);
                visited = new_visited;
                k = k + 1;
            }
            id = self.next_id;
            self.next_id = self.next_id.wrapping_add(1);
        }
        self.map.insert(id, stream);
        proof {
            assert(first_free_id(dom, start, id)) by {
                assert(0 <= k < id_space() && id == id_after(start, k) && !dom.contains(id));
            }
        }
        id
    }

    /// Removes the streams with the given identifiers; identifiers that are
    /// not registered are ignored.
    pub fn close(&mut self, stream_ids: &Vec<i32>)
        ensures
            final(self).streams() == old(self).streams().remove_keys(stream_ids@.to_set()),
            final(self).next_id() == old(self).next_id(),
    {
        let ghost before = self.map@;
        let n = stream_ids.len();
        let mut i: usize = 0;
        while i < n
            invariant
                n == stream_ids@.len(),
                i <= n,
                self.next_id == old(self).next_id,
                before == old(self).map@,
                forall|key: i32|
                    #![trigger self.map@.dom().contains(key)]
                    self.map@.dom().contains(key) <==> (before.dom().contains(key)
                        && !stream_ids@.take(i as int).contains(key)),
                forall|key: i32| #[trigger] self.map@.dom().contains(key) ==> self.map@[key] == before[key],
            decreases n - i,
        {
            let id = stream_ids[i];
            self.map.remove(&id);
            proof {
                assert(stream_ids@.take(i as int + 1) =~= stream_ids@.take(i as int).push(id));
                assert forall|key: i32| self.map@.dom().contains(key) <==> (before.dom().contains(key)
                    && !stream_ids@.take(i as int + 1).contains(key)) by {
                    if stream_ids@.take(i as int + 1).contains(key) && key != id {
                        let m = choose|m: int| 0 <= m < i + 1 && #[trigger] stream_ids@.take(i as int + 1)[m] == key;
                        assert(stream_ids@.take(i as int)[m] == key);
                    }
                    if stream_ids@.take(i as int).contains(key) {
                        let m = choose|m: int| 0 <= m < i && #[trigger] stream_ids@.take(i as int)[m] == key;
                        assert(stream_ids@.take(i as int + 1)[m] == key);
                    }
                    assert(stream_ids@.take(i as int + 1)[i as int] == id);
                }
            }
            i = i + 1;
        }
        proof {
            assert(stream_ids@.take(n as int) =~= stream_ids@);
            assert(self.map@ =~= before.remove_keys(stream_ids@.to_set()));
        }
    }

    /// The stream registered under `stream_id`, or an `IO_UNSPECIFIED` error
    /// "Missing stream" when there is none.
    pub fn get_stream(&self, stream_id: i32) -> (r: Result<&S, DataSourceError>)
        ensures
            match r {
                Ok(s) => self.streams().dom().contains(stream_id) && *s == self.streams()[stream_id],
                Err(e) => !self.streams().dom().contains(stream_id) && e@ == (
                    playback_error_code::IO_UNSPECIFIED,
                    seq![missing_stream_message()],
                ),
            },
    {
        match self.map.get(&stream_id) {
            Some(s) => Ok(s),
            None => {
                proof {
                    reveal_strlit("Missing stream");
                }
                Err(DataSourceError::io_unspecified_message(String::from_str("Missing stream")))
            },
        }
    }
}


/// One custom data stream: the function that opens its reader, and the
/// reader while it is open.
pub struct MediaStream<O, R> {
    opener: O,
    reader: Option<R>,
}

/// `use_reader` has to (re)open the reader: the lock guarding the stream was
/// poisoned, or no reader is open.
pub open spec fn needs_opening<R>(reader: Option<R>, poisoned: bool) -> bool {
    poisoned || reader is None
}

impl<O, R> MediaStream<O, R> {
    /// The function that opens the reader.
    pub closed spec fn opener(&self) -> O {
        self.opener
    }

    /// The open reader, if any.
    pub closed spec fn reader(&self) -> Option<R> {
        self.reader
    }

    /// A stream with no open reader.
    pub fn new(opener: O) -> (s: Self)
        ensures
            s.opener() == opener,
            s.reader() is None,
    {
        MediaStream { opener, reader: None }
    }

    /// Whether a reader is open.
    pub fn has_reader(&self) -> (b: bool)
        ensures
            b == self.reader() is Some,
    {
        self.reader.is_some()
    }

    /// Drops the open reader, if any; the next use opens it again.
    pub fn deactivate(&mut self)
        ensures
            final(self).reader() is None,
            final(self).opener() == old(self).opener(),
    {
        self.reader = None;
    }

    /// Runs `f` on the reader of this stream. When the guarding lock was
    /// poisoned, the reader, which may be broken, is dropped first; when no
    /// reader is open, the opener is called, and its error is returned as is.
    pub fn use_reader<F, T>(&mut self, poisoned: bool, f: F) -> (r: Result<T, DataSourceError>) where
        O: FnMut() -> Result<R, DataSourceError>,
        F: FnOnce(&mut R) -> Result<T, DataSourceError>,

        requires
            needs_opening(old(self).reader(), poisoned) ==> call_requires(old(self).opener(), ()),
            forall|rd: &mut R| call_requires(f, (rd,)),
        ensures
            final(self).opener() == old(self).opener(),
            !needs_opening(old(self).reader(), poisoned) ==> exists|rd: &mut R|
                {
                    &&& *rd == old(self).reader()->Some_0
                    &&& #[trigger] call_ensures(f, (rd,), r)
                    &&& final(self).reader() == Some(*final(rd))
                },
            needs_opening(old(self).reader(), poisoned) ==> exists|opened: Result<R, DataSourceError>|
                {
                    &&& #[trigger] call_ensures(old(self).opener(), (), opened)
                    &&& match opened {
                        Err(e) => r == Err::<T, DataSourceError>(e) && final(self).reader() is None,
                        Ok(o) => exists|rd: &mut R|
                            {
                                &&& *rd == o
                                &&& #[trigger] call_ensures(f, (rd,), r)
                                &&& final(self).reader() == Some(*final(rd))
                            },
                    }
                },
    {
        if poisoned {
            self.reader = None;
        }
        if self.reader.is_none() {
            let opened = (self.opener)();
            match opened {
                Ok(rd) => {
                    self.reader = Some(rd);
                },
                Err(e) => {
                    return Err(e);
                },
            }
        }
        let reader = self.reader.as_mut().unwrap();
        f(reader)
    }
}

} // verus!
