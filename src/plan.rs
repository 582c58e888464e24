//! The order of the calls that upload a resource's files.
//!
//! For each file in turn: for each part from 1 to the file's part count, the
//! request for the part's presigned URL, then the storage of the part; then
//! the completion of the file. A transfer ends with its finalization.

use vstd::prelude::*;

verus! {

/// One call of an upload, naming the file by its index.
#[derive(PartialEq, Eq, Structural, Clone, Copy, Debug)]
pub enum Call {
    UploadUrl { file: usize, part: u64 },
    UploadChunk { file: usize, part: u64 },
    Complete { file: usize },
    Finalize,
}

/// The calls for parts 1 to `n` of one file.
pub open spec fn part_calls(file: usize, n: nat) -> Seq<Call>
    decreases n,
{
    if n == 0 {
        Seq::empty()
    } else {
        part_calls(file, (n - 1) as nat) + seq![
            Call::UploadUrl { file, part: n as u64 },
            Call::UploadChunk { file, part: n as u64 },
        ]
    }
}

/// The calls for one file of `n` parts.
pub open spec fn file_calls(file: usize, n: nat) -> Seq<Call> {
    part_calls(file, n).push(Call::Complete { file })
}

/// The calls for files whose part counts are `parts`, in order.
pub open spec fn files_calls(parts: Seq<u64>) -> Seq<Call>
    decreases parts.len(),
{
    if parts.len() == 0 {
        Seq::empty()
    } else {
        files_calls(parts.drop_last()) + file_calls((parts.len() - 1) as usize, parts.last() as nat)
    }
}

/// All calls of an upload; `finalize` adds the finalization at the end.
pub open spec fn upload_plan(parts: Seq<u64>, finalize: bool) -> Seq<Call> {
    if finalize {
        files_calls(parts).push(Call::Finalize)
    } else {
        files_calls(parts)
    }
}

/// Where the calls of file `i` begin: after 2n + 1 calls for each earlier
/// file of n parts.
pub open spec fn file_offset(parts: Seq<u64>, i: int) -> int
    decreases i,
{
    if i <= 0 || i > parts.len() {
        0
    } else {
        file_offset(parts, i - 1) + 2 * parts[i - 1] + 1
    }
}

/// Call number `k` among the calls of one file of `n` parts.
pub open spec fn file_call_at(file: usize, n: nat, k: int) -> Call {
    if k < 2 * n {
        if k % 2 == 0 {
            Call::UploadUrl { file, part: (k / 2 + 1) as u64 }
        } else {
            Call::UploadChunk { file, part: ((k - 1) / 2 + 1) as u64 }
        }
    } else {
        Call::Complete { file }
    }
}

proof fn lemma_part_calls_at(file: usize, n: nat)
    ensures
        part_calls(file, n).len() == 2 * n,
        forall|k: int| 0 <= k < 2 * n ==> #[trigger] part_calls(file, n)[k] == file_call_at(file, n, k),
    decreases n,
{
    if n > 0 {
        let m = (n - 1) as nat;
        lemma_part_calls_at(file, m);
        assert forall|k: int| 0 <= k < 2 * n implies #[trigger] part_calls(file, n)[k] == file_call_at(file, n, k) by {
            if k < 2 * m {
                assert(part_calls(file, n)[k] == part_calls(file, m)[k]);
            }
        }
    }
}

proof fn lemma_file_calls_at(file: usize, n: nat)
    ensures
        file_calls(file, n).len() == 2 * n + 1,
        forall|k: int| 0 <= k <= 2 * n ==> #[trigger] file_calls(file, n)[k] == file_call_at(file, n, k),
{
    lemma_part_calls_at(file, n);
    assert forall|k: int| 0 <= k <= 2 * n implies #[trigger] file_calls(file, n)[k] == file_call_at(file, n, k) by {
        if k < 2 * n {
            assert(file_calls(file, n)[k] == part_calls(file, n)[k]);
        }
    }
}

proof fn lemma_file_offset_prefix(parts: Seq<u64>, i: int)
    requires
        0 <= i < parts.len(),
    ensures
        file_offset(parts.drop_last(), i) == file_offset(parts, i),
    decreases i,
{
    if i > 0 {
        lemma_file_offset_prefix(parts, i - 1);
    }
}

proof fn lemma_file_offset_monotonic(parts: Seq<u64>, i: int, j: int)
    requires
        0 <= i <= j <= parts.len(),
    ensures
        file_offset(parts, i) <= file_offset(parts, j),
        i < j ==> file_offset(parts, i) + 2 * parts[i] + 1 <= file_offset(parts, j),
    decreases j - i,
{
    if i < j {
        lemma_file_offset_monotonic(parts, i, j - 1);
    }
}

proof fn lemma_files_calls_len(parts: Seq<u64>)
    ensures
        files_calls(parts).len() == file_offset(parts, parts.len() as int),
    decreases parts.len(),
{
    if parts.len() > 0 {
        let prefix = parts.drop_last();
        let last = (parts.len() - 1) as int;
        lemma_files_calls_len(prefix);
        lemma_file_calls_at(last as usize, parts[last] as nat);
        lemma_file_offset_prefix(parts, last);
    }
}

/// Call `k` of file `i` stands at the file's offset plus `k`.
proof fn lemma_files_calls_block(parts: Seq<u64>, i: int, k: int)
    requires
        parts.len() <= usize::MAX,
        0 <= i < parts.len(),
        0 <= k <= 2 * parts[i],
    ensures
        0 <= file_offset(parts, i),
        file_offset(parts, i) + k < files_calls(parts).len(),
        files_calls(parts)[file_offset(parts, i) + k] == file_call_at(i as usize, parts[i] as nat, k),
    decreases parts.len(),
{
    let prefix = parts.drop_last();
    let last = (parts.len() - 1) as int;
    lemma_file_offset_monotonic(parts, 0, i);
    lemma_files_calls_len(prefix);
    lemma_file_calls_at(last as usize, parts[last] as nat);
    lemma_file_offset_prefix(parts, last);
    let a = files_calls(prefix);
    let b = file_calls(last as usize, parts[last] as nat);
    assert(files_calls(parts) == a + b);
    if i < last {
        lemma_files_calls_block(prefix, i, k);
        lemma_file_offset_prefix(parts, i);
        assert((a + b)[file_offset(parts, i) + k] == a[file_offset(parts, i) + k]);
    } else {
        assert((a + b)[file_offset(parts, i) + k] == b[k]);
    }
}

/// Every call of the files' calls lies in the block of one file.
proof fn lemma_files_calls_decode(parts: Seq<u64>, q: int) -> (i: int)
    requires
        parts.len() <= usize::MAX,
        0 <= q < files_calls(parts).len(),
    ensures
        0 <= i < parts.len(),
        file_offset(parts, i) <= q <= file_offset(parts, i) + 2 * parts[i],
        files_calls(parts)[q] == file_call_at(i as usize, parts[i] as nat, q - file_offset(parts, i)),
    decreases parts.len(),
{
    lemma_files_calls_len(parts);
    let prefix = parts.drop_last();
    let last = (parts.len() - 1) as int;
    lemma_files_calls_len(prefix);
    lemma_file_offset_prefix(parts, last);
    if q < file_offset(parts, last) {
        let i = lemma_files_calls_decode(prefix, q);
        lemma_file_offset_prefix(parts, i);
        assert(prefix[i] == parts[i]);
        lemma_files_calls_block(parts, i, q - file_offset(parts, i));
        i
    } else {
        lemma_files_calls_block(parts, last, q - file_offset(parts, last));
        last
    }
}

/// Where the request for the URL of part `p` of file `i` stands.
pub open spec fn url_position(parts: Seq<u64>, i: int, p: int) -> int {
    file_offset(parts, i) + 2 * (p - 1)
}

/// Where the storage of part `p` of file `i` stands.
pub open spec fn chunk_position(parts: Seq<u64>, i: int, p: int) -> int {
    file_offset(parts, i) + 2 * p - 1
}

/// Where the completion of file `i` stands.
pub open spec fn complete_position(parts: Seq<u64>, i: int) -> int {
    file_offset(parts, i) + 2 * parts[i]
}

/// The order of an upload's calls. For each file `i` of `n` parts in turn,
/// and each part `p` from 1 to `n`, the request for part `p`'s URL stands
/// right before the storage of part `p`; the completion of file `i` follows
/// its last part; a transfer's finalization comes last. Every call of the
/// plan is one of these, at its one position.
pub proof fn lemma_upload_order(parts: Seq<u64>, finalize: bool)
    requires
        parts.len() <= usize::MAX,
    ensures
        upload_plan(parts, finalize).len() == file_offset(parts, parts.len() as int) + if finalize {
            1int
        } else {
            0int
        },
        forall|i: int, p: int|
            0 <= i < parts.len() && 1 <= p <= parts[i] ==> upload_plan(parts, finalize)[#[trigger] url_position(parts, i, p)]
                == (Call::UploadUrl { file: i as usize, part: p as u64 }),
        forall|i: int, p: int|
            0 <= i < parts.len() && 1 <= p <= parts[i] ==> upload_plan(parts, finalize)[#[trigger] chunk_position(parts, i, p)]
                == (Call::UploadChunk { file: i as usize, part: p as u64 }),
        forall|i: int|
            0 <= i < parts.len() ==> upload_plan(parts, finalize)[#[trigger] complete_position(parts, i)] == (Call::Complete {
                file: i as usize,
            }),
        finalize ==> upload_plan(parts, finalize).last() == Call::Finalize,
        forall|q: int|
            0 <= q < upload_plan(parts, finalize).len() ==> match #[trigger] upload_plan(parts, finalize)[q] {
                Call::UploadUrl { file, part } => file < parts.len() && 1 <= part <= parts[file as int] && q
                    == url_position(parts, file as int, part as int),
                Call::UploadChunk { file, part } => file < parts.len() && 1 <= part <= parts[file as int] && q
                    == chunk_position(parts, file as int, part as int),
                Call::Complete { file } => file < parts.len() && q == complete_position(parts, file as int),
                Call::Finalize => finalize && q == upload_plan(parts, finalize).len() - 1,
            },
{
    lemma_files_calls_len(parts);
    let plan = upload_plan(parts, finalize);
    let f = files_calls(parts);
    assert forall|q: int| 0 <= q < f.len() implies #[trigger] plan[q] == f[q] by {
        if finalize {
            assert(f.push(Call::Finalize)[q] == f[q]);
        }
    }
    assert forall|i: int, p: int| 0 <= i < parts.len() && 1 <= p <= parts[i] implies plan[#[trigger] url_position(parts, i, p)]
        == (Call::UploadUrl { file: i as usize, part: p as u64 }) by {
        lemma_files_calls_block(parts, i, 2 * (p - 1));
        assert(plan[url_position(parts, i, p)] == f[file_offset(parts, i) + 2 * (p - 1)]);
    }
    assert forall|i: int, p: int| 0 <= i < parts.len() && 1 <= p <= parts[i] implies plan[#[trigger] chunk_position(parts, i, p)]
        == (Call::UploadChunk { file: i as usize, part: p as u64 }) by {
        lemma_files_calls_block(parts, i, 2 * p - 1);
        assert(plan[chunk_position(parts, i, p)] == f[file_offset(parts, i) + (2 * p - 1)]);
    }
    assert forall|i: int| 0 <= i < parts.len() implies plan[#[trigger] complete_position(parts, i)] == (Call::Complete {
        file: i as usize,
    }) by {
        lemma_files_calls_block(parts, i, 2 * parts[i]);
        assert(plan[complete_position(parts, i)] == f[file_offset(parts, i) + 2 * parts[i]]);
    }
    assert forall|q: int| 0 <= q < plan.len() implies match #[trigger] plan[q] {
        Call::UploadUrl { file, part } => file < parts.len() && 1 <= part <= parts[file as int] && q
            == url_position(parts, file as int, part as int),
        Call::UploadChunk { file, part } => file < parts.len() && 1 <= part <= parts[file as int] && q
            == chunk_position(parts, file as int, part as int),
        Call::Complete { file } => file < parts.len() && q == complete_position(parts, file as int),
        Call::Finalize => finalize && q == plan.len() - 1,
    } by {
        if q < f.len() {
            let j = lemma_files_calls_decode(parts, q);
            assert((j as usize) as int == j);
        }
    }
}

/// The calls up to the storage of part `k` of file `i`: parts of earlier
/// files or of file `i` up to part `k`, and completions of earlier files.
/// Neither the completion of file `i`, nor a call of a later file, nor the
/// finalization is among them. An upload that fails there makes no other call.
pub proof fn lemma_calls_before_chunk(parts: Seq<u64>, finalize: bool, i: int, k: int)
    requires
        parts.len() <= usize::MAX,
        0 <= i < parts.len(),
        1 <= k <= parts[i],
    ensures
        0 <= chunk_position(parts, i, k) < upload_plan(parts, finalize).len(),
        upload_plan(parts, finalize)[chunk_position(parts, i, k)] == (Call::UploadChunk { file: i as usize, part: k as u64 }),
        forall|q: int|
            0 <= q <= chunk_position(parts, i, k) ==> match #[trigger] upload_plan(parts, finalize)[q] {
                Call::UploadUrl { file, part } => file < i || (file == i && part <= k),
                Call::UploadChunk { file, part } => file < i || (file == i && part <= k),
                Call::Complete { file } => file < i,
                Call::Finalize => false,
            },
{
    lemma_upload_order(parts, finalize);
    lemma_files_calls_block(parts, i, 2 * k - 1);
    let plan = upload_plan(parts, finalize);
    assert(chunk_position(parts, i, k) < plan.len());
    assert forall|q: int| 0 <= q <= chunk_position(parts, i, k) implies match #[trigger] plan[q] {
        Call::UploadUrl { file, part } => file < i || (file == i && part <= k),
        Call::UploadChunk { file, part } => file < i || (file == i && part <= k),
        Call::Complete { file } => file < i,
        Call::Finalize => false,
    } by {
        match plan[q] {
            Call::UploadUrl { file, part } => {
                if file > i {
                    lemma_file_offset_monotonic(parts, i, file as int);
                }
            },
            Call::UploadChunk { file, part } => {
                if file > i {
                    lemma_file_offset_monotonic(parts, i, file as int);
                }
            },
            Call::Complete { file } => {
                if file > i {
                    lemma_file_offset_monotonic(parts, i, file as int);
                }
            },
            Call::Finalize => {
                lemma_file_offset_monotonic(parts, i, parts.len() as int);
            },
        }
    }
}

/// The calls that upload files with the given part counts, in order.
pub fn build_plan(parts: &Vec<u64>, finalize: bool) -> (plan: Vec<Call>)
    ensures
        plan@ == upload_plan(parts@, finalize),
{
    let mut plan: Vec<Call> = Vec::new();
    let mut i: usize = 0;
    while i < parts.len()
        invariant
            i <= parts.len(),
            plan@ == files_calls(parts@.take(i as int)),
        decreases parts.len() - i,
    {
        let n = parts[i];
        let mut p: u64 = 0;
        while p < n
            invariant
                p <= n,
                n == parts@[i as int],
                i < parts.len(),
                plan@ == files_calls(parts@.take(i as int)) + part_calls(i, p as nat),
            decreases n - p,
        {
            p = p + 1;
            plan.push(Call::UploadUrl { file: i, part: p });
            plan.push(Call::UploadChunk { file: i, part: p });
            assert(plan@ =~= files_calls(parts@.take(i as int)) + part_calls(i, p as nat));
        }
        plan.push(Call::Complete { file: i });
        assert(parts@.take(i + 1).drop_last() =~= parts@.take(i as int));
        assert(plan@ =~= files_calls(parts@.take(i + 1)));
        i = i + 1;
    }
    assert(parts@.take(parts.len() as int) =~= parts@);
    if finalize {
        plan.push(Call::Finalize);
    }
    plan
}

} // verus!
