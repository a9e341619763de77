use vstd::prelude::*;

verus! {

/// A bank window set: the address range `0..span` is cut into windows of
/// `window` bytes, and each window shows one page of `memory`.
pub struct Banks {
    size: usize,
    window: usize,
    banks: Vec<usize>,
    pages: usize,
    memory: Vec<u8>,
    writeable: bool,
}

pub open spec fn span_of(size: int) -> int {
    size + 1
}

/// The page after `a`, taken modulo `m`, does not depend on whether `a` was
/// reduced first.
pub proof fn lemma_next_page(a: int, m: int)
    requires
        m > 0,
    ensures
        ((a % m) + 1) % m == (a + 1) % m,
{
    vstd::arithmetic::div_mod::lemma_add_mod_noop_right(1, a, m);
}

impl Banks {
    pub closed spec fn wf(&self) -> bool {
        &&& self.window > 0
        &&& self.size < usize::MAX
        &&& self.memory@.len() <= usize::MAX
        &&& self.banks@.len() <= usize::MAX
        &&& self.pages >= 1
        &&& self.memory@.len() == self.pages * self.window
        &&& self.banks@.len() * self.window == self.size + 1
        &&& self.banks@.len() >= 1
        &&& forall|i: int| 0 <= i < self.banks@.len() ==> self.banks@[i] < self.pages
    }

    pub closed spec fn window_size(&self) -> nat {
        self.window as nat
    }

    pub closed spec fn page_count(&self) -> nat {
        self.pages as nat
    }

    pub closed spec fn slot_count(&self) -> nat {
        self.banks@.len()
    }

    pub closed spec fn span(&self) -> nat {
        (self.size + 1) as nat
    }

    pub closed spec fn is_writeable(&self) -> bool {
        self.writeable
    }

    /// The page shown in window `slot`.
    pub closed spec fn page(&self, slot: int) -> int {
        self.banks@[slot] as int
    }

    /// The bytes behind the windows.
    pub closed spec fn bytes(&self) -> Seq<u8> {
        self.memory@
    }

    /// The window that `addr` falls in.
    pub open spec fn slot_of(&self, addr: u16) -> int {
        (addr as int % self.span() as int) / self.window_size() as int
    }

    /// Index into the memory that `addr` reaches through the current pages.
    pub open spec fn translate_spec(&self, addr: u16) -> int {
        self.page(self.slot_of(addr)) * self.window_size() as int + addr as int % self.window_size() as int
    }

    /// `f` is this window set after storing `val` through address `addr`:
    /// the same windows and pages, and the byte stored when writeable.
    pub open spec fn written(&self, f: &Banks, addr: u16, val: u8) -> bool {
        &&& f.window_size() == self.window_size()
        &&& f.page_count() == self.page_count()
        &&& f.slot_count() == self.slot_count()
        &&& f.span() == self.span()
        &&& f.is_writeable() == self.is_writeable()
        &&& forall|i: int| 0 <= i < self.slot_count() ==> f.page(i) == self.page(i)
        &&& f.bytes() == if self.is_writeable() {
            self.bytes().update(self.translate_spec(addr), val)
        } else {
            self.bytes()
        }
    }

    /// A well-formed window set has at least one page and one window.
    pub proof fn lemma_nonempty(&self)
        requires
            self.wf(),
        ensures
            self.page_count() >= 1,
            self.window_size() > 0,
            self.slot_count() >= 1,
            self.bytes().len() == self.page_count() * self.window_size(),
    {
    }

    proof fn lemma_translate_in_range(&self, addr: u16)
        requires
            self.wf(),
        ensures
            0 <= self.slot_of(addr) < self.slot_count(),
            0 <= self.translate_spec(addr) < self.bytes().len(),
    {
        let w = self.window as int;
        let sp = self.size as int + 1;
        let a = addr as int;
        let n = self.banks@.len() as int;
        assert(0 <= a % sp < sp);
        assert(0 <= (a % sp) / w < n) by (nonlinear_arith)
            requires 0 <= a % sp < sp, n * w == sp, w > 0;
        let p = self.banks@[(a % sp) / w] as int;
        let np = self.pages as int;
        assert(0 <= p < np);
        assert(0 <= a % w < w);
        assert(0 <= p * w + a % w < np * w) by (nonlinear_arith)
            requires 0 <= p < np, 0 <= a % w < w, w > 0;
    }

    /// A window set over `start..=end` with windows of `window` bytes; window
    /// `i` starts out on page `i` (taken modulo the number of pages).
    pub fn new(start: usize, end: usize, window: usize, memory: Vec<u8>, writeable: bool) -> (r: Banks)
        requires
            start <= end < usize::MAX,
            0 < window <= end - start + 1,
            (end - start + 1) % (window as int) == 0,
            memory@.len() >= window,
            memory@.len() % (window as nat) == 0,
        ensures
            r.wf(),
            r.window_size() == window,
            r.span() == end - start + 1,
            r.slot_count() * window == end - start + 1,
            r.page_count() == memory@.len() / (window as nat),
            r.bytes() == memory@,
            r.is_writeable() == writeable,
            forall|i: int| 0 <= i < r.slot_count() ==> r.page(i) == i % (r.page_count() as int),
    {
        let size = end - start;
        let count = (size + 1) / window;
        let n = memory.len();
        let pages = n / window;
        proof {
            let w = window as int;
            let m = memory@.len() as int;
            assert(count * w == size + 1) by (nonlinear_arith)
                requires (size + 1) % w == 0, w > 0, count == (size + 1) / w;
            assert(pages * w == m) by (nonlinear_arith)
                requires m % w == 0, w > 0, pages == m / w;
            assert(pages >= 1) by (nonlinear_arith)
                requires m >= w, w > 0, pages == m / w;
            assert(count >= 1) by (nonlinear_arith)
                requires (size + 1) >= w, w > 0, count == (size + 1) / w;
            assert(forall|j: int| 0 <= j < count ==> #[trigger] (j % (pages as int)) < pages);
        }
        let mut banks: Vec<usize> = Vec::new();
        let mut i: usize = 0;
        while i < count
            invariant
                i <= count,
                pages >= 1,
                banks@.len() == i,
                forall|j: int| 0 <= j < i ==> banks@[j] == j % (pages as int),
            decreases count - i,
        {
            banks.push(i % pages);
            i = i + 1;
        }
        Banks { size, window, banks, pages, memory, writeable }
    }

    /// Shows consecutive pages from `bank` on in windows `start..=end`
    /// (wrapping around the number of pages).
    pub fn set_range(&mut self, start: usize, end: usize, bank: usize)
        requires
            old(self).wf(),
            start <= end < old(self).slot_count(),
        ensures
            final(self).wf(),
            final(self).window_size() == old(self).window_size(),
            final(self).page_count() == old(self).page_count(),
            final(self).slot_count() == old(self).slot_count(),
            final(self).span() == old(self).span(),
            final(self).bytes() == old(self).bytes(),
            final(self).is_writeable() == old(self).is_writeable(),
            final(self).page(start as int) == bank as int % old(self).page_count() as int,
            forall|i: int| 0 <= i < old(self).slot_count() ==>
                final(self).page(i) == if start <= i <= end {
                    ((bank as int % old(self).page_count() as int) + (i - start)) % old(self).page_count() as int
                } else {
                    old(self).page(i)
                },
    {
        let first = bank % self.pages;
        let mut slot = start;
        while slot <= end
            invariant
                self.wf(),
                start <= slot <= end + 1,
                end < self.banks@.len(),
                first == bank % self.pages,
                self.window == old(self).window,
                self.pages == old(self).pages,
                self.size == old(self).size,
                self.memory@ == old(self).memory@,
                self.writeable == old(self).writeable,
                self.banks@.len() == old(self).banks@.len(),
                forall|i: int| 0 <= i < self.banks@.len() ==>
                    self.banks@[i] == if start <= i < slot {
                        ((first as int) + (i - start)) % self.pages as int
                    } else {
                        old(self).banks@[i] as int
                    },
            decreases end + 1 - slot,
        {
            let off = (slot - start) % self.pages;
            let page = if off < self.pages - first { first + off } else { off - (self.pages - first) };
            proof {
                let p = self.pages as int;
                let k = (slot - start) as int;
                assert(page == (first as int + k) % p) by (nonlinear_arith)
                    requires
                        p > 0, 0 <= first < p, off == k % p, k >= 0,
                        page == if off < p - first { first + off } else { off - (p - first) };
            }
            self.banks[slot] = page;
            slot = slot + 1;
        }
        proof {
            vstd::arithmetic::div_mod::lemma_mod_twice(bank as int, self.pages as int);
        }
    }

    /// Shows page `bank` (modulo the number of pages) in window `slot`.
    pub fn set(&mut self, slot: usize, bank: usize)
        requires
            old(self).wf(),
            slot < old(self).slot_count(),
        ensures
            final(self).wf(),
            final(self).window_size() == old(self).window_size(),
            final(self).page_count() == old(self).page_count(),
            final(self).slot_count() == old(self).slot_count(),
            final(self).span() == old(self).span(),
            final(self).bytes() == old(self).bytes(),
            final(self).is_writeable() == old(self).is_writeable(),
            forall|i: int| 0 <= i < old(self).slot_count() ==>
                final(self).page(i) == if i == slot {
                    bank as int % old(self).page_count() as int
                } else {
                    old(self).page(i)
                },
    {
        self.set_range(slot, slot, bank);
        proof {
            let p = self.pages as int;
            vstd::arithmetic::div_mod::lemma_mod_twice(bank as int, p);
        }
    }

    /// The last page.
    pub fn last(&self) -> (r: usize)
        requires
            self.wf(),
        ensures
            r == self.page_count() - 1,
    {
        self.pages - 1
    }

    /// Index into the memory that `addr` reaches.
    pub fn translate(&self, addr: u16) -> (r: usize)
        requires
            self.wf(),
        ensures
            r == self.translate_spec(addr),
            r < self.bytes().len(),
    {
        proof { self.lemma_translate_in_range(addr); }
        let slot = ((addr as usize) % (self.size + 1)) / self.window;
        let page = self.banks[slot];
        proof {
            let w = self.window as int;
            assert(page * w + (addr as int % w) < self.memory@.len());
        }
        page * self.window + (addr as usize) % self.window
    }

    pub fn read(&self, addr: u16) -> (r: u8)
        requires
            self.wf(),
        ensures
            r == self.bytes()[self.translate_spec(addr)],
    {
        let i = self.translate(addr);
        self.memory[i]
    }

    /// Stores `val` through the windows when the memory is writeable.
    pub fn write(&mut self, addr: u16, val: u8)
        requires
            old(self).wf(),
        ensures
            final(self).wf(),
            old(self).written(final(self), addr, val),
    {
        if self.writeable {
            let i = self.translate(addr);
            self.memory[i] = val;
        }
    }

    pub fn capacity(&self) -> (r: usize)
        ensures
            r == self.bytes().len(),
    {
        self.memory.len()
    }
}

} // verus!
