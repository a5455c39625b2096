//! Media sources handed to the player, the data-source interface that custom
//! providers implement, and the request that describes the sources to the
//! player.
use vstd::prelude::*;
use vstd::string::StringExecFns;
use crate::error::DataSourceError;
use crate::media_stream::{MediaStreams, first_free_id, id_space};
use crate::text::{signed_decimal, signed_to_string};

verus! {

/// Content data read by the player through the native bridge.
///
/// Implementations are called on a dedicated thread for blocking
/// operations.
pub trait DataSource: Send + 'static {
    /// `r` is a possible outcome of a read at `offset` into a buffer that
    /// held `before`, after which the buffer holds `after`. A verified
    /// implementation may narrow it down (the one for `Box` forwards to the
    /// boxed source); by default any outcome is possible.
    open spec fn read_outcome(
        &self,
        offset: u64,
        before: Seq<u8>,
        after: Seq<u8>,
        r: Result<usize, DataSourceError>,
    ) -> bool {
        true
    }

    /// `r` is a possible outcome of a length request. A verified
    /// implementation may narrow it down (the one for `Box` forwards to the
    /// boxed source); by default any outcome is possible.
    open spec fn len_outcome(&self, r: Result<Option<u64>, DataSourceError>) -> bool {
        true
    }

    /// Reads up to `buf.len()` bytes of the content data beginning at
    /// `offset` into `buf` and returns the number of bytes read.
    ///
    /// Note that `offset` is an offset into the entire content data, **not**
    /// into `buf`.
    ///
    /// Returns `Ok(0)` if the end of the data has been reached or if
    /// `offset` is out of range. Otherwise, this method must read at least
    /// one byte (an empty `buf` is never passed) or return an error.
    fn read(&mut self, offset: u64, buf: &mut [u8]) -> (r: Result<usize, DataSourceError>)
        ensures
            old(self).read_outcome(offset, old(buf)@, final(buf)@, r),
            final(buf)@.len() == old(buf)@.len(),
            r matches Ok(n) ==> n <= old(buf)@.len(),
    ;

    /// Returns the total length of this media source in bytes, or `Ok(None)`
    /// if the length is unknown.
    fn len(&mut self) -> (r: Result<Option<u64>, DataSourceError>)
        ensures
            old(self).len_outcome(r),
    ;
}

/// A boxed data source reads as the source it holds.
impl<D: DataSource + ?Sized> DataSource for Box<D> {
    open spec fn read_outcome(
        &self,
        offset: u64,
        before: Seq<u8>,
        after: Seq<u8>,
        r: Result<usize, DataSourceError>,
    ) -> bool {
        (**self).read_outcome(offset, before, after, r)
    }

    open spec fn len_outcome(&self, r: Result<Option<u64>, DataSourceError>) -> bool {
        (**self).len_outcome(r)
    }

    fn read(&mut self, offset: u64, buf: &mut [u8]) -> (r: Result<usize, DataSourceError>) {
        (**self).read(offset, buf)
    }

    fn len(&mut self) -> (r: Result<Option<u64>, DataSourceError>) {
        (**self).len()
    }
}

/// Where the content of a media source comes from.
pub enum MediaSourceRepr<O> {
    /// A URI, such as an HTTP(S) URL or an Android content URI.
    Uri(String),
    /// An absolute file path.
    Path(String),
    /// A function that opens a data source; it may be called several times.
    CustomProvider(O),
}

/// A path of the tauri filesystem plugin: a URL (such as an Android content
/// URI) or a file path.
pub enum FilePath {
    Url(String),
    Path(String),
}

/// The media source of a tauri filesystem path: a URL is used as a URI, a
/// file path as a path.
pub open spec fn fs_path_repr<O>(path: FilePath) -> MediaSourceRepr<O> {
    match path {
        FilePath::Url(url) => MediaSourceRepr::Uri(url),
        FilePath::Path(p) => MediaSourceRepr::Path(p),
    }
}

/// The media content to be played.
pub struct MediaSource<O> {
    pub repr: MediaSourceRepr<O>,
}

impl<O> MediaSource<O> {
    fn new(repr: MediaSourceRepr<O>) -> (s: Self)
        ensures
            s.repr == repr,
    {
        MediaSource { repr }
    }

    /// Creates a media source from a tauri filesystem path: a URL is used as
    /// a URI, a file path as a path.
    pub fn from_tauri_fs_path(path: FilePath) -> (s: Self)
        ensures
            s.repr == fs_path_repr::<O>(path),
            path matches FilePath::Url(u) ==> s.repr == MediaSourceRepr::<O>::Uri(u),
            path matches FilePath::Path(p) ==> s.repr == MediaSourceRepr::<O>::Path(p),
    {
        match path {
            FilePath::Url(url) => Self::new(MediaSourceRepr::Uri(url)),
            FilePath::Path(path) => Self::new(MediaSourceRepr::Path(path)),
        }
    }

    /// Creates a media source from a URI, such as an HTTP(S) URL or an
    /// Android content URI.
    pub fn from_uri(uri: String) -> (s: Self)
        ensures
            s.repr == MediaSourceRepr::<O>::Uri(uri),
    {
        Self::new(MediaSourceRepr::Uri(uri))
    }

    /// Creates a media source from an absolute file path.
    pub fn from_path(path: String) -> (s: Self)
        ensures
            s.repr == MediaSourceRepr::<O>::Path(path),
    {
        Self::new(MediaSourceRepr::Path(path))
    }

    /// Creates a media source from a function that opens a [`DataSource`].
    ///
    /// The opener must support being called multiple times: when the player
    /// switches away from a source, the source may be closed and opened again
    /// later.
    pub fn from_data_source_opener<D: DataSource>(opener: O) -> (s: Self) where
        O: FnMut() -> Result<D, DataSourceError>,

        ensures
            s.repr == MediaSourceRepr::<O>::CustomProvider(opener),
    {
        Self::new(MediaSourceRepr::CustomProvider(opener))
    }
}

impl<O> From<FilePath> for MediaSource<O> {
    fn from(path: FilePath) -> (s: Self) {
        Self::from_tauri_fs_path(path)
    }
}

impl<O> vstd::std_specs::convert::FromSpecImpl<FilePath> for MediaSource<O> {
    open spec fn obeys_from_spec() -> bool {
        true
    }

    open spec fn from_spec(path: FilePath) -> Self {
        MediaSource { repr: fs_path_repr(path) }
    }
}

/// The source list of a player request: one entry and one type tag per
/// media source, and the identifiers of the streams registered for the
/// custom providers, in order.
#[derive(Debug)]
pub struct PlayerSources {
    pub src: Vec<String>,
    pub src_type: Vec<String>,
    pub stream_ids: Vec<i32>,
}

/// The number of custom providers among the first `n` sources.
pub open spec fn custom_count<O>(sources: Seq<MediaSource<O>>, n: int) -> nat
    decreases n,
{
    if n <= 0 {
        0
    } else {
        custom_count(sources, n - 1) + if sources[n - 1].repr is CustomProvider {
            1nat
        } else {
            0nat
        }
    }
}

/// The entry and type tag that the player receives for source `i`, where
/// `ids` are the stream identifiers assigned to the custom providers.
pub open spec fn source_entry<O>(sources: Seq<MediaSource<O>>, ids: Seq<i32>, i: int) -> (
    Seq<char>,
    Seq<char>,
) {
    match sources[i].repr {
        MediaSourceRepr::Uri(uri) => (uri@, "Uri"@),
        MediaSourceRepr::Path(path) => (path@, "Path"@),
        MediaSourceRepr::CustomProvider(_) => (
            signed_decimal(ids[custom_count(sources, i) as int] as int),
            "StreamId"@,
        ),
    }
}

/// The identifier from which the search for a free one starts after the
/// identifiers `ids` were handed out, starting from `start`.
pub open spec fn next_search_start(start: i32, ids: Seq<i32>) -> i32 {
    if ids.len() == 0 {
        start
    } else {
        ids.last().wrapping_add(1)
    }
}

/// `ids` are what successive `add`s hand out, starting at `start` with the
/// identifiers `used` in use: each is the first free one after the previous.
pub open spec fn allocated_in_order(used: Set<i32>, start: i32, ids: Seq<i32>) -> bool {
    forall|j: int|
        0 <= j < ids.len() ==> first_free_id(
            used + ids.take(j).to_set(),
            next_search_start(start, ids.take(j)),
            #[trigger] ids[j],
        )
}

proof fn lemma_custom_count_step<O>(sources: Seq<MediaSource<O>>, n: int)
    requires
        0 <= n,
    ensures
        custom_count(sources, n + 1) == custom_count(sources, n) + if sources[n].repr is CustomProvider {
            1nat
        } else {
            0nat
        },
{
}

proof fn lemma_custom_count_mono<O>(sources: Seq<MediaSource<O>>, a: int, b: int)
    requires
        0 <= a <= b,
    ensures
        custom_count(sources, a) <= custom_count(sources, b),
    decreases b - a,
{
    if a < b {
        lemma_custom_count_mono(sources, a, b - 1);
    }
}

proof fn lemma_custom_count_bound<O>(sources: Seq<MediaSource<O>>, n: int)
    requires
        0 <= n,
    ensures
        custom_count(sources, n) <= n,
    decreases n,
{
    if n > 0 {
        lemma_custom_count_bound(sources, n - 1);
    }
}

/// Describes the media sources to the player: a URI or a path is passed as
/// is, and each custom provider is registered as a stream, made by
/// `make_stream` from its opener, and passed by its identifier.
pub fn prepare_sources<O, S, F>(
    sources: Vec<MediaSource<O>>,
    streams: &mut MediaStreams<S>,
    make_stream: F,
) -> (r: PlayerSources) where F: FnMut(O) -> S
    requires
        forall|o: O| call_requires(make_stream, (o,)),
        old(streams).streams().dom().len() + custom_count(sources@, sources@.len() as int)
            < id_space(),
    ensures
        r.src@.len() == sources@.len(),
        r.src_type@.len() == sources@.len(),
        r.stream_ids@.len() == custom_count(sources@, sources@.len() as int),
        forall|i: int|
            0 <= i < sources@.len() ==> match (#[trigger] sources@[i]).repr {
                MediaSourceRepr::Uri(u) => r.src@[i]@ == u@ && r.src_type@[i]@ == "Uri"@,
                MediaSourceRepr::Path(p) => r.src@[i]@ == p@ && r.src_type@[i]@ == "Path"@,
                MediaSourceRepr::CustomProvider(_) => r.src_type@[i]@ == "StreamId"@ && r.src@[i]@
                    == signed_decimal(r.stream_ids@[custom_count(sources@, i) as int] as int),
            },
        forall|i: int|
            0 <= i < sources@.len() ==> (#[trigger] r.src@[i])@ == source_entry(
                sources@,
                r.stream_ids@,
                i,
            ).0 && r.src_type@[i]@ == source_entry(sources@, r.stream_ids@, i).1,
        forall|j: int|
            0 <= j < r.stream_ids@.len() ==> !old(streams).streams().dom().contains(
                #[trigger] r.stream_ids@[j],
            ) && final(streams).streams().dom().contains(r.stream_ids@[j]),
        forall|i: int|
            0 <= i < sources@.len() && (#[trigger] sources@[i]).repr is CustomProvider ==> call_ensures(
                make_stream,
                (sources@[i].repr->CustomProvider_0,),
                final(streams).streams()[r.stream_ids@[custom_count(sources@, i) as int]],
            ),
        allocated_in_order(old(streams).streams().dom(), old(streams).next_id(), r.stream_ids@),
        final(streams).next_id() == next_search_start(old(streams).next_id(), r.stream_ids@),
        r.stream_ids@.no_duplicates(),
        final(streams).streams().dom() == old(streams).streams().dom() + r.stream_ids@.to_set(),
        forall|id: i32|
            #[trigger] old(streams).streams().dom().contains(id) ==> final(streams).streams()[id]
                == old(streams).streams()[id],
{
    let ghost srcs = sources@;
    let ghost total = custom_count(srcs, srcs.len() as int);
    let ghost make = make_stream;
    let mut make_stream = make_stream;
    let mut src: Vec<String> = Vec::new();
    let mut src_type: Vec<String> = Vec::new();
    let mut stream_ids: Vec<i32> = Vec::new();
    let mut sources = sources;
    let n = sources.len();
    let mut i: usize = 0;
    proof {
        reveal_strlit("Uri");
        reveal_strlit("Path");
        reveal_strlit("StreamId");
        lemma_custom_count_bound(srcs, srcs.len() as int);
    }
    while i < n
        invariant
            n == srcs.len(),
            i <= n,
            sources@ == srcs.skip(i as int),
            forall|o: O| call_requires(make_stream, (o,)),
            total == custom_count(srcs, srcs.len() as int),
            old(streams).streams().dom().len() + total < id_space(),
            src@.len() == i,
            src_type@.len() == i,
            stream_ids@.len() == custom_count(srcs, i as int),
            custom_count(srcs, i as int) <= total,
            forall|k: int|
                0 <= k < i ==> (#[trigger] src@[k])@ == source_entry(srcs, stream_ids@, k).0
                    && src_type@[k]@ == source_entry(srcs, stream_ids@, k).1,
            forall|j: int|
                0 <= j < stream_ids@.len() ==> !old(streams).streams().dom().contains(
                    #[trigger] stream_ids@[j],
                ),
            make_stream == make,
            forall|k: int|
                0 <= k < i && (#[trigger] srcs[k]).repr is CustomProvider ==> call_ensures(
                    make,
                    (srcs[k].repr->CustomProvider_0,),
                    streams.streams()[stream_ids@[custom_count(srcs, k) as int]],
                ),
            allocated_in_order(old(streams).streams().dom(), old(streams).next_id(), stream_ids@),
            streams.next_id() == next_search_start(old(streams).next_id(), stream_ids@),
            stream_ids@.no_duplicates(),
            streams.streams().dom() == old(streams).streams().dom() + stream_ids@.to_set(),
            streams.streams().dom().len() == old(streams).streams().dom().len() + stream_ids@.len(),
            forall|id: i32|
                #[trigger] old(streams).streams().dom().contains(id) ==> streams.streams()[id]
                    == old(streams).streams()[id],
        decreases n - i,
    {
        let ghost src_before = src@;
        let ghost type_before = src_type@;
        let ghost ids_prev = stream_ids@;
        let source = sources.remove(0);
        proof {
            assert(source == srcs[i as int]);
            assert(sources@ =~= srcs.skip(i as int + 1));
            lemma_custom_count_step(srcs, i as int);
            lemma_custom_count_bound(srcs, i as int + 1);
            lemma_custom_count_mono(srcs, i as int + 1, srcs.len() as int);
        }
        match source.repr {
            MediaSourceRepr::Uri(uri) => {
                src.push(uri);
                src_type.push(String::from_str("Uri"));
            },
            MediaSourceRepr::Path(path) => {
                src.push(path);
                src_type.push(String::from_str("Path"));
            },
            MediaSourceRepr::CustomProvider(opener) => {
                let stream = make_stream(opener);
                let ghost ids_before = stream_ids@;
                let ghost dom_before = streams.streams().dom();
                proof {
                    streams.lemma_streams_finite();
                }
                let id = streams.add(stream);
                proof {
                    streams.lemma_streams_finite();
                    assert(!dom_before.contains(id));
                    assert(streams.streams().dom() =~= dom_before.insert(id));
                    ids_before.lemma_push_to_set_commute(id);
                    assert(!ids_before.contains(id)) by {
                        if ids_before.contains(id) {
                            assert(ids_before.to_set().contains(id));
                        }
                    }
                    let ids_now = ids_before.push(id);
                    assert(ids_now.take(ids_before.len() as int) =~= ids_before);
                    assert forall|j: int| 0 <= j < ids_now.len() implies first_free_id(
                        old(streams).streams().dom() + ids_now.take(j).to_set(),
                        next_search_start(old(streams).next_id(), ids_now.take(j)),
                        #[trigger] ids_now[j],
                    ) by {
                        if j < ids_before.len() {
                            assert(ids_now.take(j) =~= ids_before.take(j));
                        }
                    }
                    assert forall|a: int, b: int| 0 <= a < b < ids_before.len() + 1 implies ids_before.push(id)[a]
                        != ids_before.push(id)[b] by {
                        if b == ids_before.len() {
                            assert(ids_before.contains(ids_before[a]));
                        }
                    }
                }
                src.push(signed_to_string(id as i64));
                src_type.push(String::from_str("StreamId"));
                stream_ids.push(id);
            },
        }
        proof {
            assert forall|k: int| 0 <= k < i && (#[trigger] srcs[k]).repr is CustomProvider implies call_ensures(
                make,
                (srcs[k].repr->CustomProvider_0,),
                streams.streams()[stream_ids@[custom_count(srcs, k) as int]],
            ) by {
                lemma_custom_count_step(srcs, k);
                lemma_custom_count_mono(srcs, k + 1, i as int);
                assert(stream_ids@[custom_count(srcs, k) as int] == ids_prev[custom_count(srcs, k) as int]);
            }
            assert forall|k: int| 0 <= k < i implies source_entry(srcs, stream_ids@, k)
                == source_entry(srcs, ids_prev, k) by {
                if srcs[k].repr is CustomProvider {
                    lemma_custom_count_step(srcs, k);
                    lemma_custom_count_mono(srcs, k + 1, i as int);
                }
            }
            assert forall|k: int| 0 <= k < i + 1 implies (#[trigger] src@[k])@ == source_entry(
                srcs,
                stream_ids@,
                k,
            ).0 && src_type@[k]@ == source_entry(srcs, stream_ids@, k).1 by {
                if k < i {
                    assert(src@[k] == src_before[k]);
                    assert(src_type@[k] == type_before[k]);
                }
            }
        }
        i = i + 1;
    }
    let r = PlayerSources { src, src_type, stream_ids };
    proof {
        assert forall|i: int| 0 <= i < srcs.len() implies match (#[trigger] srcs[i]).repr {
            MediaSourceRepr::Uri(u) => r.src@[i]@ == u@ && r.src_type@[i]@ == "Uri"@,
            MediaSourceRepr::Path(p) => r.src@[i]@ == p@ && r.src_type@[i]@ == "Path"@,
            MediaSourceRepr::CustomProvider(_) => r.src_type@[i]@ == "StreamId"@ && r.src@[i]@
                == signed_decimal(r.stream_ids@[custom_count(srcs, i) as int] as int),
        } by {
            assert(r.src@[i]@ == source_entry(srcs, r.stream_ids@, i).0);
        }
    }
    r
}

} // verus!
