//! Packet memory area (PMA): the peripheral's dedicated dual-port buffer
//! memory, addressed at halfword granularity, whose first words form the
//! buffer descriptor table, plus the receive-size encoding and the downward
//! bump allocator for transfer buffers.

use vstd::prelude::*;

verus! {

/// Index of one of the eight endpoints.
pub type EndpointIndex = u8;

/// A halfword index into the packet memory area.
pub type PmaAddress = u16;

/// Number of halfword slots in the packet memory area.
pub const PMA_SIZE: u16 = 512;

/// Number of endpoints, and of entries in the buffer descriptor table.
pub const ENDPOINTS: u8 = 8;

/// First slot past the buffer descriptor table: its eight entries of eight
/// slots each.
pub const BDT_END: u16 = 64;

/// Lowest slot a transfer buffer may occupy. It leaves one entry's width of
/// margin above the buffer descriptor table.
pub const ALLOC_FLOOR: u16 = 72;

/// The packet memory area as seen by the processor. The peripheral's 256
/// halfwords appear spread over 512 slots of which every other one is used,
/// so each buffer descriptor table entry occupies eight slots.
pub struct PMA {
    words: Vec<u16>,
}

impl View for PMA {
    type V = Seq<u16>;

    closed spec fn view(&self) -> Seq<u16> {
        self.words@
    }
}

impl PMA {
    /// The memory holds exactly `PMA_SIZE` halfword slots.
    pub open spec fn wf(self) -> bool {
        self@.len() == PMA_SIZE
    }

    /// A packet memory area with every slot zero: no buffer allocated for
    /// any endpoint or direction.
    pub fn new() -> (r: PMA)
        ensures
            r.wf(),
            forall|i: int| 0 <= i < PMA_SIZE ==> r@[i] == 0,
    {
        let mut words: Vec<u16> = Vec::new();
        let mut i: u16 = 0;
        while i < PMA_SIZE
            invariant
                i <= PMA_SIZE,
                words@.len() == i,
                forall|j: int| 0 <= j < i ==> words@[j] == 0,
            decreases PMA_SIZE - i,
        {
            words.push(0);
            i = i + 1;
        }
        PMA { words }
    }

    /// Read the halfword at `offset`.
    pub fn get_u16(&self, offset: PmaAddress) -> (r: u16)
        requires
            self.wf(),
            offset < PMA_SIZE,
        ensures
            r == self@[offset as int],
    {
        self.words[offset as usize]
    }

    /// Write the halfword at `offset`.
    pub fn set_u16(&mut self, offset: PmaAddress, val: u16)
        requires
            old(self).wf(),
            offset < PMA_SIZE,
        ensures
            final(self).wf(),
            final(self)@ == old(self)@.update(offset as int, val),
    {
        self.words.set(offset as usize, val);
    }

    /// First slot of the buffer descriptor table entry for endpoint `ep`.
    fn offset(ep: EndpointIndex) -> (r: PmaAddress)
        requires
            ep < ENDPOINTS,
        ensures
            r == entry_offset(ep as int),
    {
        ep as u16 * 8
    }

    /// Read the transmit-buffer address of endpoint `ep`.
    pub fn get_txaddr(&self, ep: EndpointIndex) -> (r: u16)
        requires
            self.wf(),
            ep < ENDPOINTS,
        ensures
            r == self@[entry_offset(ep as int)],
    {
        self.get_u16(PMA::offset(ep))
    }

    /// Set the transmit-buffer address of endpoint `ep`.
    pub fn set_txaddr(&mut self, ep: EndpointIndex, val: u16)
        requires
            old(self).wf(),
            ep < ENDPOINTS,
        ensures
            final(self).wf(),
            final(self)@ == old(self)@.update(entry_offset(ep as int), val),
    {
        self.set_u16(PMA::offset(ep), val)
    }

    /// Read the transmit byte count of endpoint `ep`.
    pub fn get_txcount(&self, ep: EndpointIndex) -> (r: u16)
        requires
            self.wf(),
            ep < ENDPOINTS,
        ensures
            r == self@[entry_offset(ep as int) + 2],
    {
        self.get_u16(PMA::offset(ep) + 2)
    }

    /// Set the transmit byte count of endpoint `ep`.
    pub fn set_txcount(&mut self, ep: EndpointIndex, val: u16)
        requires
            old(self).wf(),
            ep < ENDPOINTS,
        ensures
            final(self).wf(),
            final(self)@ == old(self)@.update(entry_offset(ep as int) + 2, val),
    {
        self.set_u16(PMA::offset(ep) + 2, val)
    }

    /// Read the receive-buffer address of endpoint `ep`.
    pub fn get_rxaddr(&self, ep: EndpointIndex) -> (r: u16)
        requires
            self.wf(),
            ep < ENDPOINTS,
        ensures
            r == self@[entry_offset(ep as int) + 4],
    {
        self.get_u16(PMA::offset(ep) + 4)
    }

    /// Set the receive-buffer address of endpoint `ep`.
    pub fn set_rxaddr(&mut self, ep: EndpointIndex, val: u16)
        requires
            old(self).wf(),
            ep < ENDPOINTS,
        ensures
            final(self).wf(),
            final(self)@ == old(self)@.update(entry_offset(ep as int) + 4, val),
    {
        self.set_u16(PMA::offset(ep) + 4, val)
    }

    /// Read the received byte count of endpoint `ep`: only the count field,
    /// with the block-size and block-count bits masked off.
    pub fn get_rxcount(&self, ep: EndpointIndex) -> (r: u16)
        requires
            self.wf(),
            ep < ENDPOINTS,
        ensures
            r == self@[entry_offset(ep as int) + 6] & 0x3FF,
    {
        self.get_u16(PMA::offset(ep) + 6) & 0x3FF
    }

    /// Program the receive-buffer capacity of endpoint `ep` with the
    /// two-scheme hardware size encoding.
    pub fn set_rxcount(&mut self, ep: EndpointIndex, val: u16)
        requires
            old(self).wf(),
            ep < ENDPOINTS,
            valid_rx_size(val),
        ensures
            final(self).wf(),
            final(self)@ == old(self)@.update(
                entry_offset(ep as int) + 6,
                rx_size_encoding(val),
            ),
    {
        let encoded = PMA::calc_rxcount(val);
        self.set_u16(PMA::offset(ep) + 6, encoded)
    }

    /// Encode a receive-buffer capacity into the hardware size field.
    /// Capacities above 62 bytes use block-of-32 mode with bit 15 set;
    /// smaller ones use block-of-2 mode with bit 15 clear.
    pub fn calc_rxcount(val: u16) -> (r: u16)
        requires
            valid_rx_size(val),
        ensures
            r == rx_size_encoding(val),
    {
        if val > 62 {
            let blocks: u16 = val >> 5;
            proof {
                assert(val >> 5 == val / 32 && 2 <= val >> 5 <= 16) by (bit_vector)
                    requires
                        62 < val <= 512 && val % 32 == 0,
                ;
            }
            let blocks_less_one: u16 = blocks - 1;
            let r: u16 = (blocks_less_one << 10) | 0x8000;
            proof {
                assert((blocks_less_one << 10) | 0x8000 == blocks_less_one * 1024 + 0x8000)
                    by (bit_vector)
                    requires
                        blocks_less_one <= 15,
                ;
            }
            r
        } else {
            let half: u16 = val >> 1;
            proof {
                assert(val >> 1 == val / 2 && (val <= 62 ==> val >> 1 <= 31)) by (bit_vector);
            }
            let r: u16 = half << 10;
            proof {
                assert(half << 10 == half * 1024) by (bit_vector)
                    requires
                        half <= 31,
                ;
            }
            r
        }
    }

    /// Check a receive-buffer capacity and encode it, or report the fatal
    /// configuration error: `None` exactly on the capacities the hardware
    /// cannot express (odd ones up to 62, those above 62 that are not a
    /// multiple of 32, and anything above 512).
    pub fn try_calc_rxcount(val: u16) -> (r: Option<u16>)
        ensures
            r is Some <==> valid_rx_size(val),
            valid_rx_size(val) ==> r == Some(rx_size_encoding(val)),
    {
        if val > 62 {
            if val <= 512 && val % 32 == 0 {
                Some(PMA::calc_rxcount(val))
            } else {
                None
            }
        } else {
            if val % 2 == 0 {
                Some(PMA::calc_rxcount(val))
            } else {
                None
            }
        }
    }

    /// Copy a halfword sequence into the memory starting at `base`, one
    /// value every other slot as the peripheral's layout demands. The
    /// caller guarantees the destination range was previously allocated.
    pub fn write_buffer(&mut self, base: PmaAddress, buf: &[u16])
        requires
            old(self).wf(),
            buf@.len() == 0 || base as int + 2 * (buf@.len() - 1) < PMA_SIZE,
        ensures
            final(self).wf(),
            forall|i: int|
                0 <= i < buf@.len() ==> final(self)@[base as int + 2 * i] == buf@[i],
            forall|j: int|
                0 <= j < PMA_SIZE && (j < base || j >= base as int + 2 * buf@.len() || (j
                    - base as int) % 2 != 0) ==> final(self)@[j] == old(self)@[j],
    {
        let mut ofs: usize = 0;
        while ofs < buf.len()
            invariant
                self.wf(),
                old(self).wf(),
                ofs <= buf@.len(),
                buf@.len() == 0 || base as int + 2 * (buf@.len() - 1) < PMA_SIZE,
                forall|i: int| 0 <= i < ofs ==> self@[base as int + 2 * i] == buf@[i],
                forall|j: int|
                    0 <= j < PMA_SIZE && (j < base || j >= base as int + 2 * ofs || (j
                        - base as int) % 2 != 0) ==> self@[j] == old(self)@[j],
            decreases buf@.len() - ofs,
        {
            self.set_u16(base + (ofs as u16) * 2, buf[ofs]);
            ofs = ofs + 1;
        }
    }

    /// The lowest nonzero buffer address recorded in the buffer descriptor
    /// table, or the arena size if none is allocated yet.
    fn lowest_allocated(&self) -> (r: u16)
        requires
            self.wf(),
        ensures
            r == lowest_buffer_addr(self@, ENDPOINTS as int),
    {
        let mut result: u16 = PMA_SIZE;
        let mut i: u8 = 0;
        while i < ENDPOINTS
            invariant
                self.wf(),
                i <= ENDPOINTS,
                result == lowest_buffer_addr(self@, i as int),
            decreases ENDPOINTS - i,
        {
            result = min_non_zero(min_non_zero(result, self.get_txaddr(i)), self.get_rxaddr(i));
            i = i + 1;
        }
        result
    }

    /// Claim the next free buffer of `size` halfwords from the downward
    /// bump allocator: the region directly below every buffer recorded in
    /// the descriptor table, whose top the result's recording will become.
    pub fn get_next_buffer(&self, size: PmaAddress) -> (r: PmaAddress)
        requires
            self.wf(),
            lowest_buffer_addr(self@, ENDPOINTS as int) >= size + ALLOC_FLOOR,
        ensures
            r == lowest_buffer_addr(self@, ENDPOINTS as int) - size,
            r >= ALLOC_FLOOR,
    {
        let low = self.lowest_allocated();
        low - size
    }

    /// Claim the next free buffer, or report the fatal exhaustion error:
    /// `None` exactly when fewer than `size` halfwords remain between the
    /// allocation floor and the lowest buffer already recorded.
    pub fn try_get_next_buffer(&self, size: PmaAddress) -> (r: Option<PmaAddress>)
        requires
            self.wf(),
        ensures
            r is Some <==> lowest_buffer_addr(self@, ENDPOINTS as int) >= size + ALLOC_FLOOR,
            r is Some ==> r == Some(
                (lowest_buffer_addr(self@, ENDPOINTS as int) - size) as u16,
            ),
    {
        let low = self.lowest_allocated();
        if (low as u32) < (size as u32) + (ALLOC_FLOOR as u32) {
            None
        } else {
            Some(low - size)
        }
    }
}

/// The running minimum of the allocator's scan: an address of zero means
/// "unallocated" and is passed over.
pub open spec fn spec_min_non_zero(result: u16, addr: u16) -> u16 {
    if addr == 0 || result < addr {
        result
    } else {
        addr
    }
}

/// Fold of the allocator's scan over the first `n` descriptor table
/// entries, both directions each.
pub open spec fn lowest_buffer_addr(words: Seq<u16>, n: int) -> u16
    decreases n,
{
    if n <= 0 {
        PMA_SIZE
    } else {
        spec_min_non_zero(
            spec_min_non_zero(lowest_buffer_addr(words, n - 1), words[entry_offset(n - 1)]),
            words[entry_offset(n - 1) + 4],
        )
    }
}

/// Keep `result`, unless `addr` is a smaller allocated address: zero means
/// "unallocated" and never wins.
pub fn min_non_zero(result: PmaAddress, addr: PmaAddress) -> (r: PmaAddress)
    ensures
        r == spec_min_non_zero(result, addr),
{
    if addr == 0 || result < addr {
        result
    } else {
        addr
    }
}

/// The scan's fold never exceeds the arena size, and is bounded by every
/// nonzero address recorded in the entries it has covered.
pub proof fn lemma_lowest_le_allocated(words: Seq<u16>, n: int)
    requires
        0 <= n <= ENDPOINTS,
    ensures
        lowest_buffer_addr(words, n) <= PMA_SIZE,
        forall|ep: int|
            0 <= ep < n && words[entry_offset(ep)] != 0 ==> lowest_buffer_addr(words, n)
                <= words[entry_offset(ep)],
        forall|ep: int|
            0 <= ep < n && words[entry_offset(ep) + 4] != 0 ==> lowest_buffer_addr(words, n)
                <= words[entry_offset(ep) + 4],
    decreases n,
{
    if n > 0 {
        lemma_lowest_le_allocated(words, n - 1);
    }
}

/// Allocator disjointness: a successful allocation of `size` halfwords
/// yields the range from `lowest_buffer_addr - size` up to
/// `lowest_buffer_addr`, which lies wholly above the buffer descriptor
/// table and ends at or below every buffer address already recorded in
/// it. Since every buffer extends upward from its recorded address, each
/// new buffer is disjoint from all earlier ones and from the table.
pub proof fn lemma_allocation_disjoint(words: Seq<u16>, size: u16)
    requires
        lowest_buffer_addr(words, ENDPOINTS as int) >= size + ALLOC_FLOOR,
    ensures
        BDT_END <= ALLOC_FLOOR <= lowest_buffer_addr(words, ENDPOINTS as int) - size,
        forall|ep: int|
            0 <= ep < ENDPOINTS && words[entry_offset(ep)] != 0 ==> lowest_buffer_addr(
                words,
                ENDPOINTS as int,
            ) <= words[entry_offset(ep)],
        forall|ep: int|
            0 <= ep < ENDPOINTS && words[entry_offset(ep) + 4] != 0 ==> lowest_buffer_addr(
                words,
                ENDPOINTS as int,
            ) <= words[entry_offset(ep) + 4],
{
    lemma_lowest_le_allocated(words, ENDPOINTS as int);
}

/// Allocator idempotence over a session: recording a successful
/// allocation and then allocating again yields ranges that cannot
/// overlap. `first` is the address a first allocation of `size_first`
/// halfwords returned, recorded in address slot `slot` of the descriptor
/// table; the second allocation, of `size_second` halfwords from the
/// updated table, fits the arena, lies above the table, and ends at or
/// below the start of the first range. Applied once per step, this covers
/// any fixed allocation order at setup time.
pub proof fn lemma_successive_allocations_disjoint(
    words: Seq<u16>,
    slot: int,
    size_first: u16,
    size_second: u16,
)
    requires
        words.len() == PMA_SIZE,
        exists|ep: int|
            0 <= ep < ENDPOINTS && (slot == entry_offset(ep) || slot == entry_offset(ep)
                + 4),
        lowest_buffer_addr(words, ENDPOINTS as int) >= size_first + ALLOC_FLOOR,
        lowest_buffer_addr(
            words.update(slot, (lowest_buffer_addr(words, ENDPOINTS as int) - size_first) as u16),
            ENDPOINTS as int,
        ) >= size_second + ALLOC_FLOOR,
    ensures
        ({
            let first = lowest_buffer_addr(words, ENDPOINTS as int) - size_first;
            let updated = words.update(slot, first as u16);
            let second = lowest_buffer_addr(updated, ENDPOINTS as int) - size_second;
            &&& BDT_END <= ALLOC_FLOOR <= second
            &&& second + size_second <= first
            &&& first + size_first <= PMA_SIZE
        }),
{
    let first = lowest_buffer_addr(words, ENDPOINTS as int) - size_first;
    let updated = words.update(slot, first as u16);
    lemma_lowest_le_allocated(words, ENDPOINTS as int);
    lemma_lowest_le_allocated(updated, ENDPOINTS as int);
    let ep = choose|ep: int|
        0 <= ep < ENDPOINTS && (slot == entry_offset(ep) || slot == entry_offset(ep) + 4);
    assert(slot == entry_offset(ep) || slot == entry_offset(ep) + 4);
    assert(updated[slot] == first);
    assert(lowest_buffer_addr(updated, ENDPOINTS as int) <= first);
}

/// A table with no buffer recorded — as after a bus reset — leaves the
/// allocator's whole arena free: its scan comes back with the arena size.
pub proof fn lemma_unallocated_table_scans_to_top(words: Seq<u16>, n: int)
    requires
        0 <= n <= ENDPOINTS,
        forall|ep: int|
            0 <= ep < n ==> words[entry_offset(ep)] == 0 && words[entry_offset(ep) + 4]
                == 0,
    ensures
        lowest_buffer_addr(words, n) == PMA_SIZE,
    decreases n,
{
    if n > 0 {
        lemma_unallocated_table_scans_to_top(words, n - 1);
    }
}

/// First slot of the buffer descriptor table entry for endpoint `ep`: each
/// entry takes eight slots, in the order transmit address, transmit count,
/// receive address, receive count.
pub open spec fn entry_offset(ep: int) -> int {
    ep * 8
}

/// The capacities the receive-size encoding can express: above 62 bytes a
/// multiple of 32 up to 512, otherwise any even value.
pub open spec fn valid_rx_size(size: u16) -> bool {
    if size > 62 {
        size <= 512 && size % 32 == 0
    } else {
        size % 2 == 0
    }
}

/// The encoded receive-size field: `(size/32 - 1)` blocks of 32 with bit 15
/// set above 62 bytes, `size/2` blocks of 2 with bit 15 clear otherwise.
pub open spec fn rx_size_encoding(size: u16) -> u16
    recommends
        valid_rx_size(size),
{
    if size > 62 {
        ((size / 32 - 1) * 1024 + 0x8000) as u16
    } else {
        ((size / 2) * 1024) as u16
    }
}

/// The two encoding modes written out: the block-of-2 form equals the
/// halved size shifted into the count field and always leaves bit 15
/// clear; the block-of-32 form equals the block count less one shifted
/// into the count field with bit 15 set.
pub proof fn lemma_rx_size_encoding_modes(size: u16)
    requires
        valid_rx_size(size),
    ensures
        size <= 62 ==> rx_size_encoding(size) == (size / 2) * 1024,
        size <= 62 ==> rx_size_encoding(size) == (size >> 1) << 10,
        size <= 62 ==> rx_size_encoding(size) & 0x8000 == 0,
        size > 62 ==> rx_size_encoding(size) == (size / 32 - 1) * 1024 + 0x8000,
        size > 62 ==> rx_size_encoding(size) == (vstd::prelude::sub(size >> 5, 1) << 10)
            | 0x8000,
        size > 62 ==> rx_size_encoding(size) & 0x8000 != 0,
{
    if size <= 62 {
        assert((size / 2) * 1024 == (size >> 1) << 10 && ((size >> 1) << 10) < 0x8000
            && (size / 2) * 1024 < 0x10000 && ((size >> 1) << 10) & 0x8000 == 0)
            by (bit_vector)
            requires
                size <= 62,
        ;
    } else {
        assert((size / 32 - 1) * 1024 + 0x8000 == (vstd::prelude::sub(size >> 5, 1) << 10)
            | 0x8000 && (size / 32 - 1) * 1024 + 0x8000 < 0x10000
            && ((vstd::prelude::sub(size >> 5, 1) << 10) | 0x8000) & 0x8000 != 0)
            by (bit_vector)
            requires
                62 < size <= 512 && size % 32 == 0,
        ;
    }
}

} // verus!
