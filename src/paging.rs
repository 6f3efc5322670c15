use vstd::prelude::*;

verus! {

/// Rows handed out by one fetch, at most.
pub const PAGE_SIZE: usize = 2048;

/// How many rows a fetch at `offset` hands out.
pub open spec fn page_len(offset: int, total: int, page_size: int) -> int {
    if offset >= total {
        0
    } else if total - offset < page_size {
        total - offset
    } else {
        page_size
    }
}

/// The row indices that `k` successive fetches hand out, starting at `offset`.
pub open spec fn fetched_indices(offset: int, total: int, page_size: int, k: nat) -> Seq<int>
    decreases k,
{
    if k == 0 {
        Seq::empty()
    } else {
        let n = page_len(offset, total, page_size);
        Seq::new(n as nat, |i: int| offset + i) + fetched_indices(offset + n, total, page_size, (k - 1) as nat)
    }
}

/// The rows `[start, start + len)` of a row set.
pub struct Page {
    pub start: usize,
    pub len: usize,
}

/// The shared read position into a row set of `total` rows.
pub struct Cursor {
    offset: usize,
    total: usize,
    page_size: usize,
}

impl Cursor {
    pub closed spec fn pos(&self) -> int {
        self.offset as int
    }

    pub closed spec fn total(&self) -> int {
        self.total as int
    }

    pub closed spec fn page_size(&self) -> int {
        self.page_size as int
    }

    pub closed spec fn wf(&self) -> bool {
        self.offset <= self.total && self.page_size >= 1
    }

    /// A cursor at the first of `total` rows, handing out `PAGE_SIZE` rows a fetch.
    pub fn new(total: usize) -> (c: Cursor)
        ensures
            c.wf(),
            c.pos() == 0,
            c.total() == total,
            c.page_size() == PAGE_SIZE,
    {
        Cursor { offset: 0, total, page_size: PAGE_SIZE }
    }

    /// A cursor at the first of `total` rows, handing out `page_size` rows a fetch.
    pub fn with_page_size(total: usize, page_size: usize) -> (c: Cursor)
        requires
            page_size >= 1,
        ensures
            c.wf(),
            c.pos() == 0,
            c.total() == total,
            c.page_size() == page_size,
    {
        Cursor { offset: 0, total, page_size }
    }

    pub fn offset(&self) -> (r: usize)
        ensures
            r == self.pos(),
    {
        self.offset
    }

    /// Whether every row has been handed out.
    pub fn is_exhausted(&self) -> (r: bool)
        ensures
            r == (self.pos() >= self.total()),
    {
        self.offset >= self.total
    }

    /// Hands out the next page: the rows from the current position on, up to
    /// the page size, and moves past them. Once every row is out, the page is
    /// empty and the cursor stays where it is.
    pub fn fetch_page(&mut self) -> (p: Page)
        requires
            old(self).wf(),
        ensures
            final(self).wf(),
            final(self).total() == old(self).total(),
            final(self).page_size() == old(self).page_size(),
            p.start == old(self).pos(),
            p.len == page_len(old(self).pos(), old(self).total(), old(self).page_size()),
            final(self).pos() == old(self).pos() + p.len,
    {
        let start = self.offset;
        if start >= self.total {
            return Page { start, len: 0 };
        }
        let remaining = self.total - start;
        let len = if remaining < self.page_size {
            remaining
        } else {
            self.page_size
        };
        self.offset = start + len;
        Page { start, len }
    }
}

/// Successive fetches hand out every row exactly once, in order: `k` fetches
/// from `offset` hand out the indices from `offset` on, as many as `k` pages
/// hold, and all that remain once `k` pages can hold them.
pub proof fn lemma_pages_partition_rows(offset: int, total: int, page_size: int, k: nat)
    requires
        0 <= offset <= total,
        page_size >= 1,
    ensures
        fetched_indices(offset, total, page_size, k) == Seq::new(
            (if k * page_size <= total - offset {
                k * page_size
            } else {
                total - offset
            }) as nat,
            |i: int| offset + i,
        ),
        k * page_size >= total - offset ==> fetched_indices(offset, total, page_size, k)
            == Seq::new((total - offset) as nat, |i: int| offset + i),
    decreases k,
{
    if k > 0 {
        let n = page_len(offset, total, page_size);
        let k1 = (k - 1) as nat;
        lemma_pages_partition_rows(offset + n, total, page_size, k1);
        assert(k * page_size == k1 * page_size + page_size) by (nonlinear_arith)
            requires
                k1 == k - 1,
        ;
        assert(k1 * page_size >= 0) by (nonlinear_arith)
            requires
                page_size >= 1,
        ;
        let m = if k1 * page_size <= total - offset - n {
            k1 * page_size
        } else {
            total - offset - n
        };
        let whole = if k * page_size <= total - offset {
            k * page_size
        } else {
            total - offset
        };
        assert(whole == n + m);
        assert(fetched_indices(offset, total, page_size, k) =~= Seq::new(
            whole as nat,
            |i: int| offset + i,
        ));
    } else {
        assert(k * page_size == 0) by (nonlinear_arith)
            requires
                k == 0,
        ;
        assert(fetched_indices(offset, total, page_size, k) =~= Seq::new(0, |i: int| offset + i));
    }
}

/// Once every row is out, fetching hands out nothing, however often.
pub proof fn lemma_exhausted_stays_empty(total: int, page_size: int, k: nat)
    requires
        page_size >= 1,
    ensures
        fetched_indices(total, total, page_size, k) == Seq::<int>::empty(),
    decreases k,
{
    if k > 0 {
        lemma_exhausted_stays_empty(total, page_size, (k - 1) as nat);
        assert(fetched_indices(total, total, page_size, k) =~= Seq::<int>::empty());
    }
}

} // verus!
