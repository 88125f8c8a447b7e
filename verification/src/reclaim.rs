//! Taking a record back: the release of exactly the blocks that its transfer
//! made, in the order in which the record is walked.

use vstd::prelude::*;
use crate::heap::{Heap, Memory, NULL};
use crate::layout::{cells, is_record, reclaimed};
use crate::reader::{field_record, file_record, form_record};
use crate::record::FormData;

verus! {

/// Where the cells of the files begin among the cells of a record: after
/// two cells for each field and one for the array of fields, unless it is
/// null.
pub open spec fn files_start(fd: FormData) -> int {
    2 * fd.field_count + if fd.fields == NULL {
        0int
    } else {
        1int
    }
}

/// Releasing the next cell of a list without repetitions, after the cells
/// before it, leaves the memory without the cells up to and including it.
proof fn lemma_release_next(m: Memory, cs: Seq<usize>, k: int)
    requires
        0 <= k < cs.len(),
        cs.no_duplicates(),
    ensures
        forall|j: int| k <= j < cs.len() ==> !cs.take(k).to_set().contains(#[trigger] cs[j]),
        m.remove_keys(cs.take(k).to_set()).remove(cs[k]) == m.remove_keys(
            cs.take(k + 1).to_set(),
        ),
{
    let shorter = cs.take(k);
    let longer = cs.take(k + 1);
    assert forall|a: usize|
        longer.to_set().contains(a) <==> shorter.to_set().contains(a) || a == cs[k] by {
        if a == cs[k] {
            assert(longer[k] == a);
        }
    }
    assert(m.remove_keys(cs.take(k).to_set()).remove(cs[k]) =~= m.remove_keys(
        cs.take(k + 1).to_set(),
    ));
}

/// Releases the `k`-th cell of a record after the cells before it.
fn release_cell(
    heap: &mut Heap,
    addr: usize,
    h0: Ghost<Memory>,
    cs: Ghost<Seq<usize>>,
    k: Ghost<int>,
)
    requires
        0 <= k@ < cs@.len(),
        cs@.no_duplicates(),
        cs@[k@] == addr,
        h0@.dom().contains(addr),
        old(heap)@ == h0@.remove_keys(cs@.take(k@).to_set()),
    ensures
        final(heap)@ == h0@.remove_keys(cs@.take(k@ + 1).to_set()),
        final(heap).top() == old(heap).top(),
{
    proof {
        lemma_release_next(h0@, cs@, k@);
    }
    let _ = heap.release(addr);
}

/// Takes the record at `root` back: walks the array of fields by its stated
/// length and releases name and value of each, then the array; walks the
/// array of files in the same way and releases file name, media type, field
/// name and content of each, then the array; and at last releases the record.
/// The null address is taken back by doing nothing. A caller hands in the
/// address of a record that is whole, so each record is taken back once:
/// afterwards its address is no record any more.
pub fn reclaim(heap: &mut Heap, root: usize)
    requires
        root == NULL || is_record(old(heap)@, root),
    ensures
        root == NULL ==> final(heap)@ == old(heap)@,
        root != NULL ==> reclaimed(old(heap)@, final(heap)@, root),
        final(heap).top() == old(heap).top(),
{
    if root == NULL {
        return ;
    }
    let ghost h0 = heap@;
    let ghost cs = cells(h0, root);
    let fd = form_record(heap, root);
    let ghost o = files_start(fd);
    let mut i: usize = 0;
    while i < fd.field_count
        invariant
            i <= fd.field_count,
            is_record(h0, root),
            fd == h0[root]->Form_0,
            cs == cells(h0, root),
            heap.top() == old(heap).top(),
            heap@ == h0.remove_keys(cs.take(2 * i).to_set()),
        decreases fd.field_count - i,
    {
        let f = field_record(heap, fd.fields, i);
        release_cell(heap, f.name, Ghost(h0), Ghost(cs), Ghost(2 * i));
        release_cell(heap, f.value, Ghost(h0), Ghost(cs), Ghost(2 * i + 1));
        i += 1;
    }
    if fd.fields != NULL {
        release_cell(heap, fd.fields, Ghost(h0), Ghost(cs), Ghost(2 * fd.field_count));
    }
    let mut j: usize = 0;
    while j < fd.file_count
        invariant
            j <= fd.file_count,
            is_record(h0, root),
            fd == h0[root]->Form_0,
            cs == cells(h0, root),
            o == files_start(fd),
            heap.top() == old(heap).top(),
            heap@ == h0.remove_keys(cs.take(o + 4 * j).to_set()),
        decreases fd.file_count - j,
    {
        let f = file_record(heap, fd.files, j);
        release_cell(heap, f.filename, Ghost(h0), Ghost(cs), Ghost(o + 4 * j));
        release_cell(heap, f.content_type, Ghost(h0), Ghost(cs), Ghost(o + 4 * j + 1));
        release_cell(heap, f.field_name, Ghost(h0), Ghost(cs), Ghost(o + 4 * j + 2));
        release_cell(heap, f.content, Ghost(h0), Ghost(cs), Ghost(o + 4 * j + 3));
        j += 1;
    }
    if fd.files != NULL {
        release_cell(heap, fd.files, Ghost(h0), Ghost(cs), Ghost(o + 4 * fd.file_count));
    }
    release_cell(heap, root, Ghost(h0), Ghost(cs), Ghost(cs.len() - 1));
    proof {
        assert(cs.take(cs.len() as int) =~= cs);
    }
}

} // verus!
