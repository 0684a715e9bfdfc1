//! The effect of the chunk protocol on the target directory, and the proof that
//! a well-formed sequence of chunks assembles the file.
//!
//! A directory is modelled as a map from names to contents. One chunk request,
//! as the caller carries it out: the first chunk truncates the temp file and
//! sizes it to the total; a later one opens the existing temp file (and fails
//! when there is none); the payload is written at the chunk's start; the last
//! chunk replaces whatever stands at the final name by the temp file.

use vstd::prelude::*;
use crate::download::{lemma_whole_file_download, offers_gzip, plan_matches, served, DownloadPlan};
use crate::range::range_outcome;
use crate::upload::ChunkRequest;

verus! {

pub open spec fn zeros(n: nat) -> Seq<u8> {
    Seq::new(n, |i: int| 0u8)
}

/// A file after writing `d` at offset `off`; a gap past the old end reads as zeros.
pub open spec fn write_at(f: Seq<u8>, off: nat, d: Seq<u8>) -> Seq<u8> {
    let base = if off <= f.len() {
        f
    } else {
        f + zeros((off - f.len()) as nat)
    };
    let end = off + d.len();
    base.subrange(0, off as int) + d + if end < base.len() {
        base.subrange(end as int, base.len() as int)
    } else {
        Seq::empty()
    }
}

/// The directory after one chunk request with payload `body`; `None` when it fails.
pub open spec fn chunk_step(files: Map<Seq<char>, Seq<u8>>, c: ChunkRequest, body: Seq<u8>) -> Option<
    Map<Seq<char>, Seq<u8>>,
> {
    let temp = c.temp_name@;
    let before = if c.chunk_index == 0 {
        Some(zeros(c.total_size as nat))
    } else if files.contains_key(temp) {
        Some(files[temp])
    } else {
        None
    };
    match before {
        None => None,
        Some(f) => {
            let written = write_at(f, c.chunk_start as nat, body);
            if c.spec_finalizes() {
                Some(files.remove(temp).insert(c.filename@, written))
            } else {
                Some(files.insert(temp, written))
            }
        },
    }
}

/// The directory after the requests in order, each with its payload.
pub open spec fn run_chunks(
    files: Map<Seq<char>, Seq<u8>>,
    reqs: Seq<ChunkRequest>,
    bodies: Seq<Seq<u8>>,
) -> Option<Map<Seq<char>, Seq<u8>>>
    decreases reqs.len(),
{
    if reqs.len() == 0 || bodies.len() != reqs.len() {
        Some(files)
    } else {
        match run_chunks(files, reqs.drop_last(), bodies.drop_last()) {
            None => None,
            Some(m) => chunk_step(m, reqs.last(), bodies.last()),
        }
    }
}

/// The payloads one after the other.
pub open spec fn joined(bodies: Seq<Seq<u8>>) -> Seq<u8>
    decreases bodies.len(),
{
    if bodies.len() == 0 {
        Seq::empty()
    } else {
        joined(bodies.drop_last()) + bodies.last()
    }
}

/// The requests of one transfer of `n` chunks, in index order, each starting
/// where the previous payload ended, the payloads filling the declared size.
pub open spec fn well_formed_transfer(reqs: Seq<ChunkRequest>, bodies: Seq<Seq<u8>>) -> bool {
    let n = reqs.len();
    &&& n >= 1
    &&& bodies.len() == n
    &&& forall|i: int| 0 <= i < n ==> (#[trigger] reqs[i]).wf()
    &&& forall|i: int| 0 <= i < n ==> (#[trigger] reqs[i]).chunk_index == i
    &&& forall|i: int| 0 <= i < n ==> (#[trigger] reqs[i]).total_chunks == n
    &&& forall|i: int| 0 <= i < n ==> (#[trigger] reqs[i]).temp_name@ == reqs[0].temp_name@
    &&& forall|i: int| 0 <= i < n ==> (#[trigger] reqs[i]).filename@ == reqs[0].filename@
    &&& forall|i: int| 0 <= i < n ==> (#[trigger] reqs[i]).total_size == reqs[0].total_size
    &&& forall|i: int|
        0 <= i < n ==> (#[trigger] reqs[i]).chunk_start == joined(bodies.subrange(0, i)).len()
    &&& joined(bodies).len() == reqs[0].total_size
}

proof fn lemma_joined_prefix(bodies: Seq<Seq<u8>>, k: int)
    requires
        0 <= k < bodies.len(),
    ensures
        joined(bodies.subrange(0, k + 1)) == joined(bodies.subrange(0, k)) + bodies[k],
        joined(bodies.subrange(0, k)).len() + bodies[k].len() <= joined(bodies).len(),
    decreases bodies.len(),
{
    let p = bodies.subrange(0, k + 1);
    assert(p.drop_last() =~= bodies.subrange(0, k));
    if k + 1 < bodies.len() {
        lemma_joined_prefix(bodies.drop_last(), k);
        assert(bodies.drop_last().subrange(0, k + 1) =~= p);
        assert(bodies.drop_last().subrange(0, k) =~= bodies.subrange(0, k));
    } else {
        assert(p =~= bodies);
    }
}

proof fn lemma_write_into_zeros(j: Seq<u8>, d: Seq<u8>, total: nat)
    requires
        j.len() + d.len() <= total,
    ensures
        write_at(j + zeros((total - j.len()) as nat), j.len(), d) == j + d + zeros(
            (total - j.len() - d.len()) as nat,
        ),
{
    let f = j + zeros((total - j.len()) as nat);
    let end = j.len() + d.len();
    assert(f.subrange(0, j.len() as int) =~= j);
    if end < f.len() {
        assert(f.subrange(end as int, f.len() as int) =~= zeros((total - j.len() - d.len()) as nat));
    }
    assert(write_at(f, j.len(), d) =~= j + d + zeros((total - j.len() - d.len()) as nat));
}

/// After the first `k < n` chunks the temp file holds their payloads followed
/// by zeros up to the declared size.
proof fn lemma_partial_run(
    files: Map<Seq<char>, Seq<u8>>,
    reqs: Seq<ChunkRequest>,
    bodies: Seq<Seq<u8>>,
    k: int,
)
    requires
        well_formed_transfer(reqs, bodies),
        1 <= k < reqs.len(),
    ensures
        run_chunks(files, reqs.subrange(0, k), bodies.subrange(0, k)) matches Some(m) && m.contains_key(
            reqs[0].temp_name@,
        ) && m[reqs[0].temp_name@] == joined(bodies.subrange(0, k)) + zeros(
            (reqs[0].total_size - joined(bodies.subrange(0, k)).len()) as nat,
        ),
    decreases k,
{
    let rs = reqs.subrange(0, k);
    let bs = bodies.subrange(0, k);
    let c = reqs[k - 1];
    let b = bodies[k - 1];
    let total = reqs[0].total_size as nat;
    let temp = reqs[0].temp_name@;
    let jp = joined(bodies.subrange(0, k - 1));
    assert(rs.last() == c);
    assert(bs.last() == b);
    assert(rs.drop_last() =~= reqs.subrange(0, k - 1));
    assert(bs.drop_last() =~= bodies.subrange(0, k - 1));
    lemma_joined_prefix(bodies, k - 1);
    assert(c.chunk_index == k - 1);
    assert(c.temp_name@ == temp);
    assert(c.total_size == total);
    assert(c.chunk_start == jp.len());
    assert(!c.spec_finalizes());
    let prev = run_chunks(files, reqs.subrange(0, k - 1), bodies.subrange(0, k - 1));
    assert(run_chunks(files, rs, bs) == match prev {
        None => None,
        Some(m) => chunk_step(m, c, b),
    });
    if k == 1 {
        assert(reqs.subrange(0, 0) =~= Seq::<ChunkRequest>::empty());
        assert(bodies.subrange(0, 0) =~= Seq::<Seq<u8>>::empty());
        assert(prev == Some(files));
        assert(jp =~= Seq::<u8>::empty());
        lemma_write_into_zeros(jp, b, total);
        assert(jp + zeros(total) =~= zeros(total));
        let written = write_at(zeros(total), 0, b);
        assert(chunk_step(files, c, b) == Some(files.insert(temp, written)));
    } else {
        lemma_partial_run(files, reqs, bodies, k - 1);
        let m = prev->Some_0;
        assert(m.contains_key(temp));
        assert(m[temp] == jp + zeros((total - jp.len()) as nat));
        lemma_write_into_zeros(jp, b, total);
        let written = write_at(m[temp], jp.len(), b);
        assert(chunk_step(m, c, b) == Some(m.insert(temp, written)));
    }
}

/// A well-formed chunked transfer leaves the final file holding exactly the
/// payloads in index order, and no temp file behind.
pub proof fn lemma_chunked_upload_assembles(
    files: Map<Seq<char>, Seq<u8>>,
    reqs: Seq<ChunkRequest>,
    bodies: Seq<Seq<u8>>,
)
    requires
        well_formed_transfer(reqs, bodies),
    ensures
        run_chunks(files, reqs, bodies) matches Some(m) && m.contains_key(reqs[0].filename@)
            && m[reqs[0].filename@] == joined(bodies) && !m.contains_key(reqs[0].temp_name@),
{
    let n = reqs.len() as int;
    let c = reqs[n - 1];
    let b = bodies[n - 1];
    let total = reqs[0].total_size as nat;
    let temp = reqs[0].temp_name@;
    let name = reqs[0].filename@;
    let jp = joined(bodies.subrange(0, n - 1));
    lemma_joined_prefix(bodies, n - 1);
    assert(bodies.subrange(0, n) =~= bodies);
    assert(c.chunk_index == n - 1);
    assert(c.spec_finalizes());
    assert(c.wf());
    assert(c.temp_name@ == temp);
    assert(c.filename@ == name);
    assert(c.total_size == total);
    assert(c.chunk_start == jp.len());
    assert(reqs.drop_last() =~= reqs.subrange(0, n - 1));
    assert(bodies.drop_last() =~= bodies.subrange(0, n - 1));
    let prev = run_chunks(files, reqs.subrange(0, n - 1), bodies.subrange(0, n - 1));
    assert(run_chunks(files, reqs, bodies) == match prev {
        None => None,
        Some(m) => chunk_step(m, c, b),
    });
    lemma_write_into_zeros(jp, b, total);
    assert(jp + b + zeros(0) =~= joined(bodies));
    if n == 1 {
        assert(reqs.subrange(0, 0) =~= Seq::<ChunkRequest>::empty());
        assert(bodies.subrange(0, 0) =~= Seq::<Seq<u8>>::empty());
        assert(prev == Some(files));
        assert(jp =~= Seq::<u8>::empty());
        assert(jp + zeros(total) =~= zeros(total));
        let written = write_at(zeros(total), 0, b);
        assert(written == joined(bodies));
        assert(chunk_step(files, c, b) == Some(files.remove(temp).insert(name, written)));
    } else {
        lemma_partial_run(files, reqs, bodies, n - 1);
        let m = prev->Some_0;
        assert(m.contains_key(temp));
        let written = write_at(m[temp], jp.len(), b);
        assert(written == joined(bodies));
        assert(chunk_step(m, c, b) == Some(m.remove(temp).insert(name, written)));
    }
}

/// The directory after a whole-file upload stores `content` under `name`: the
/// destination is truncated and receives the part's bytes.
pub open spec fn store_part(files: Map<Seq<char>, Seq<u8>>, name: Seq<char>, content: Seq<u8>) -> Map<
    Seq<char>,
    Seq<u8>,
> {
    files.insert(name, content)
}

/// Uploading `content` as a whole file and then downloading the stored file
/// without a `Range` header answers 200 with exactly `content`, and an
/// uncompressed response declares its length.
pub proof fn lemma_upload_round_trip(
    files: Map<Seq<char>, Seq<u8>>,
    name: Seq<char>,
    content: Seq<u8>,
    accept_encoding: Option<Seq<u8>>,
    p: DownloadPlan,
)
    requires
        content.len() <= u64::MAX,
        plan_matches(
            p,
            range_outcome(None, store_part(files, name, content)[name].len() as u64),
            store_part(files, name, content)[name].len() as u64,
            offers_gzip(accept_encoding),
        ),
    ensures
        p.status == 200,
        served(store_part(files, name, content)[name], p.transport) == content,
        !offers_gzip(accept_encoding) ==> p.content_length == Some(content.len() as u64),
{
    lemma_whole_file_download(content, accept_encoding, p);
}

} // verus!
