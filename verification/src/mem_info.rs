//! The kernel's memory report (`/proc/meminfo`) and the firmware's memory device
//! table (`dmidecode --type 17`), read into plain values.

use vstd::prelude::*;
use crate::text::{chars_of, line_end, lines, parse_unsigned, parse_unsigned_at, next_word, seq_equals, word_or_empty, words};

verus! {

/// Number of `/proc/meminfo` entries that a `MemInfo` holds.
pub const MEMINFO_FIELD_COUNT: usize = 56;

/// The kernel's memory report, in bytes (the `HugePages_*` entries are page counts).
#[derive(Debug, Clone, Copy, PartialEq, Eq, Structural)]
pub struct MemInfo {
    pub mem_total: usize,
    pub mem_free: usize,
    pub mem_available: usize,
    pub buffers: usize,
    pub cached: usize,
    pub swap_cached: usize,
    pub active: usize,
    pub inactive: usize,
    pub active_anon: usize,
    pub inactive_anon: usize,
    pub active_file: usize,
    pub inactive_file: usize,
    pub unevictable: usize,
    pub m_locked: usize,
    pub swap_total: usize,
    pub swap_free: usize,
    pub zswap: usize,
    pub zswapped: usize,
    pub dirty: usize,
    pub writeback: usize,
    pub anon_pages: usize,
    pub mapped: usize,
    pub sh_mem: usize,
    pub k_reclaimable: usize,
    pub slab: usize,
    pub s_reclaimable: usize,
    pub s_unreclaim: usize,
    pub kernel_stack: usize,
    pub page_tables: usize,
    pub sec_page_tables: usize,
    pub nfs_unstable: usize,
    pub bounce: usize,
    pub writeback_tmp: usize,
    pub commit_limit: usize,
    pub committed_as: usize,
    pub vmalloc_total: usize,
    pub vmalloc_used: usize,
    pub vmalloc_chunk: usize,
    pub percpu: usize,
    pub hardware_corrupted: usize,
    pub anon_huge_pages: usize,
    pub shmem_huge_pages: usize,
    pub shmem_pmd_mapped: usize,
    pub file_huge_pages: usize,
    pub file_pmd_mapped: usize,
    pub cma_total: usize,
    pub cma_free: usize,
    pub huge_pages_total: usize,
    pub huge_pages_free: usize,
    pub huge_pages_rsvd: usize,
    pub huge_pages_surp: usize,
    pub hugepagesize: usize,
    pub hugetlb: usize,
    pub direct_map4k: usize,
    pub direct_map2m: usize,
    pub direct_map1g: usize,
}

impl MemInfo {
    /// The report with every entry at zero.
    pub open spec fn zeroed() -> MemInfo {
        MemInfo {
            mem_total: 0,
            mem_free: 0,
            mem_available: 0,
            buffers: 0,
            cached: 0,
            swap_cached: 0,
            active: 0,
            inactive: 0,
            active_anon: 0,
            inactive_anon: 0,
            active_file: 0,
            inactive_file: 0,
            unevictable: 0,
            m_locked: 0,
            swap_total: 0,
            swap_free: 0,
            zswap: 0,
            zswapped: 0,
            dirty: 0,
            writeback: 0,
            anon_pages: 0,
            mapped: 0,
            sh_mem: 0,
            k_reclaimable: 0,
            slab: 0,
            s_reclaimable: 0,
            s_unreclaim: 0,
            kernel_stack: 0,
            page_tables: 0,
            sec_page_tables: 0,
            nfs_unstable: 0,
            bounce: 0,
            writeback_tmp: 0,
            commit_limit: 0,
            committed_as: 0,
            vmalloc_total: 0,
            vmalloc_used: 0,
            vmalloc_chunk: 0,
            percpu: 0,
            hardware_corrupted: 0,
            anon_huge_pages: 0,
            shmem_huge_pages: 0,
            shmem_pmd_mapped: 0,
            file_huge_pages: 0,
            file_pmd_mapped: 0,
            cma_total: 0,
            cma_free: 0,
            huge_pages_total: 0,
            huge_pages_free: 0,
            huge_pages_rsvd: 0,
            huge_pages_surp: 0,
            hugepagesize: 0,
            hugetlb: 0,
            direct_map4k: 0,
            direct_map2m: 0,
            direct_map1g: 0,
        }
    }

    /// The entry at position `i`, in the order of the struct's fields.
    pub open spec fn field(self, i: int) -> usize {
        if i == 0 {
            self.mem_total
        }
        else if i == 1 {
            self.mem_free
        }
        else if i == 2 {
            self.mem_available
        }
        else if i == 3 {
            self.buffers
        }
        else if i == 4 {
            self.cached
        }
        else if i == 5 {
            self.swap_cached
        }
        else if i == 6 {
            self.active
        }
        else if i == 7 {
            self.inactive
        }
        else if i == 8 {
            self.active_anon
        }
        else if i == 9 {
            self.inactive_anon
        }
        else if i == 10 {
            self.active_file
        }
        else if i == 11 {
            self.inactive_file
        }
        else if i == 12 {
            self.unevictable
        }
        else if i == 13 {
            self.m_locked
        }
        else if i == 14 {
            self.swap_total
        }
        else if i == 15 {
            self.swap_free
        }
        else if i == 16 {
            self.zswap
        }
        else if i == 17 {
            self.zswapped
        }
        else if i == 18 {
            self.dirty
        }
        else if i == 19 {
            self.writeback
        }
        else if i == 20 {
            self.anon_pages
        }
        else if i == 21 {
            self.mapped
        }
        else if i == 22 {
            self.sh_mem
        }
        else if i == 23 {
            self.k_reclaimable
        }
        else if i == 24 {
            self.slab
        }
        else if i == 25 {
            self.s_reclaimable
        }
        else if i == 26 {
            self.s_unreclaim
        }
        else if i == 27 {
            self.kernel_stack
        }
        else if i == 28 {
            self.page_tables
        }
        else if i == 29 {
            self.sec_page_tables
        }
        else if i == 30 {
            self.nfs_unstable
        }
        else if i == 31 {
            self.bounce
        }
        else if i == 32 {
            self.writeback_tmp
        }
        else if i == 33 {
            self.commit_limit
        }
        else if i == 34 {
            self.committed_as
        }
        else if i == 35 {
            self.vmalloc_total
        }
        else if i == 36 {
            self.vmalloc_used
        }
        else if i == 37 {
            self.vmalloc_chunk
        }
        else if i == 38 {
            self.percpu
        }
        else if i == 39 {
            self.hardware_corrupted
        }
        else if i == 40 {
            self.anon_huge_pages
        }
        else if i == 41 {
            self.shmem_huge_pages
        }
        else if i == 42 {
            self.shmem_pmd_mapped
        }
        else if i == 43 {
            self.file_huge_pages
        }
        else if i == 44 {
            self.file_pmd_mapped
        }
        else if i == 45 {
            self.cma_total
        }
        else if i == 46 {
            self.cma_free
        }
        else if i == 47 {
            self.huge_pages_total
        }
        else if i == 48 {
            self.huge_pages_free
        }
        else if i == 49 {
            self.huge_pages_rsvd
        }
        else if i == 50 {
            self.huge_pages_surp
        }
        else if i == 51 {
            self.hugepagesize
        }
        else if i == 52 {
            self.hugetlb
        }
        else if i == 53 {
            self.direct_map4k
        }
        else if i == 54 {
            self.direct_map2m
        }
        else if i == 55 {
            self.direct_map1g
        }
        else {
            0
        }
    }

    /// The report with the entry at position `i` replaced by `v`.
    pub open spec fn with_field(self, i: int, v: usize) -> MemInfo {
        if i == 0 {
            MemInfo { mem_total: v, ..self }
        }
        else if i == 1 {
            MemInfo { mem_free: v, ..self }
        }
        else if i == 2 {
            MemInfo { mem_available: v, ..self }
        }
        else if i == 3 {
            MemInfo { buffers: v, ..self }
        }
        else if i == 4 {
            MemInfo { cached: v, ..self }
        }
        else if i == 5 {
            MemInfo { swap_cached: v, ..self }
        }
        else if i == 6 {
            MemInfo { active: v, ..self }
        }
        else if i == 7 {
            MemInfo { inactive: v, ..self }
        }
        else if i == 8 {
            MemInfo { active_anon: v, ..self }
        }
        else if i == 9 {
            MemInfo { inactive_anon: v, ..self }
        }
        else if i == 10 {
            MemInfo { active_file: v, ..self }
        }
        else if i == 11 {
            MemInfo { inactive_file: v, ..self }
        }
        else if i == 12 {
            MemInfo { unevictable: v, ..self }
        }
        else if i == 13 {
            MemInfo { m_locked: v, ..self }
        }
        else if i == 14 {
            MemInfo { swap_total: v, ..self }
        }
        else if i == 15 {
            MemInfo { swap_free: v, ..self }
        }
        else if i == 16 {
            MemInfo { zswap: v, ..self }
        }
        else if i == 17 {
            MemInfo { zswapped: v, ..self }
        }
        else if i == 18 {
            MemInfo { dirty: v, ..self }
        }
        else if i == 19 {
            MemInfo { writeback: v, ..self }
        }
        else if i == 20 {
            MemInfo { anon_pages: v, ..self }
        }
        else if i == 21 {
            MemInfo { mapped: v, ..self }
        }
        else if i == 22 {
            MemInfo { sh_mem: v, ..self }
        }
        else if i == 23 {
            MemInfo { k_reclaimable: v, ..self }
        }
        else if i == 24 {
            MemInfo { slab: v, ..self }
        }
        else if i == 25 {
            MemInfo { s_reclaimable: v, ..self }
        }
        else if i == 26 {
            MemInfo { s_unreclaim: v, ..self }
        }
        else if i == 27 {
            MemInfo { kernel_stack: v, ..self }
        }
        else if i == 28 {
            MemInfo { page_tables: v, ..self }
        }
        else if i == 29 {
            MemInfo { sec_page_tables: v, ..self }
        }
        else if i == 30 {
            MemInfo { nfs_unstable: v, ..self }
        }
        else if i == 31 {
            MemInfo { bounce: v, ..self }
        }
        else if i == 32 {
            MemInfo { writeback_tmp: v, ..self }
        }
        else if i == 33 {
            MemInfo { commit_limit: v, ..self }
        }
        else if i == 34 {
            MemInfo { committed_as: v, ..self }
        }
        else if i == 35 {
            MemInfo { vmalloc_total: v, ..self }
        }
        else if i == 36 {
            MemInfo { vmalloc_used: v, ..self }
        }
        else if i == 37 {
            MemInfo { vmalloc_chunk: v, ..self }
        }
        else if i == 38 {
            MemInfo { percpu: v, ..self }
        }
        else if i == 39 {
            MemInfo { hardware_corrupted: v, ..self }
        }
        else if i == 40 {
            MemInfo { anon_huge_pages: v, ..self }
        }
        else if i == 41 {
            MemInfo { shmem_huge_pages: v, ..self }
        }
        else if i == 42 {
            MemInfo { shmem_pmd_mapped: v, ..self }
        }
        else if i == 43 {
            MemInfo { file_huge_pages: v, ..self }
        }
        else if i == 44 {
            MemInfo { file_pmd_mapped: v, ..self }
        }
        else if i == 45 {
            MemInfo { cma_total: v, ..self }
        }
        else if i == 46 {
            MemInfo { cma_free: v, ..self }
        }
        else if i == 47 {
            MemInfo { huge_pages_total: v, ..self }
        }
        else if i == 48 {
            MemInfo { huge_pages_free: v, ..self }
        }
        else if i == 49 {
            MemInfo { huge_pages_rsvd: v, ..self }
        }
        else if i == 50 {
            MemInfo { huge_pages_surp: v, ..self }
        }
        else if i == 51 {
            MemInfo { hugepagesize: v, ..self }
        }
        else if i == 52 {
            MemInfo { hugetlb: v, ..self }
        }
        else if i == 53 {
            MemInfo { direct_map4k: v, ..self }
        }
        else if i == 54 {
            MemInfo { direct_map2m: v, ..self }
        }
        else if i == 55 {
            MemInfo { direct_map1g: v, ..self }
        }
        else {
            self
        }
    }

    fn set_field(&mut self, i: usize, v: usize)
        requires
            i < MEMINFO_FIELD_COUNT,
        ensures
            *final(self) == old(self).with_field(i as int, v),
    {
        match i {
            0 => self.mem_total = v,
            1 => self.mem_free = v,
            2 => self.mem_available = v,
            3 => self.buffers = v,
            4 => self.cached = v,
            5 => self.swap_cached = v,
            6 => self.active = v,
            7 => self.inactive = v,
            8 => self.active_anon = v,
            9 => self.inactive_anon = v,
            10 => self.active_file = v,
            11 => self.inactive_file = v,
            12 => self.unevictable = v,
            13 => self.m_locked = v,
            14 => self.swap_total = v,
            15 => self.swap_free = v,
            16 => self.zswap = v,
            17 => self.zswapped = v,
            18 => self.dirty = v,
            19 => self.writeback = v,
            20 => self.anon_pages = v,
            21 => self.mapped = v,
            22 => self.sh_mem = v,
            23 => self.k_reclaimable = v,
            24 => self.slab = v,
            25 => self.s_reclaimable = v,
            26 => self.s_unreclaim = v,
            27 => self.kernel_stack = v,
            28 => self.page_tables = v,
            29 => self.sec_page_tables = v,
            30 => self.nfs_unstable = v,
            31 => self.bounce = v,
            32 => self.writeback_tmp = v,
            33 => self.commit_limit = v,
            34 => self.committed_as = v,
            35 => self.vmalloc_total = v,
            36 => self.vmalloc_used = v,
            37 => self.vmalloc_chunk = v,
            38 => self.percpu = v,
            39 => self.hardware_corrupted = v,
            40 => self.anon_huge_pages = v,
            41 => self.shmem_huge_pages = v,
            42 => self.shmem_pmd_mapped = v,
            43 => self.file_huge_pages = v,
            44 => self.file_pmd_mapped = v,
            45 => self.cma_total = v,
            46 => self.cma_free = v,
            47 => self.huge_pages_total = v,
            48 => self.huge_pages_free = v,
            49 => self.huge_pages_rsvd = v,
            50 => self.huge_pages_surp = v,
            51 => self.hugepagesize = v,
            52 => self.hugetlb = v,
            53 => self.direct_map4k = v,
            54 => self.direct_map2m = v,
            55 => self.direct_map1g = v,
            _ => {},
        }
    }
}

/// The `/proc/meminfo` key of the entry at position `i`.
pub open spec fn meminfo_key(i: int) -> Seq<char> {
    if i == 0 {
        "MemTotal:"@
    }
    else if i == 1 {
        "MemFree:"@
    }
    else if i == 2 {
        "MemAvailable:"@
    }
    else if i == 3 {
        "Buffers:"@
    }
    else if i == 4 {
        "Cached:"@
    }
    else if i == 5 {
        "SwapCached:"@
    }
    else if i == 6 {
        "Active:"@
    }
    else if i == 7 {
        "Inactive:"@
    }
    else if i == 8 {
        "Active(anon):"@
    }
    else if i == 9 {
        "Inactive(anon):"@
    }
    else if i == 10 {
        "Active(file):"@
    }
    else if i == 11 {
        "Inactive(file):"@
    }
    else if i == 12 {
        "Unevictable:"@
    }
    else if i == 13 {
        "Mlocked:"@
    }
    else if i == 14 {
        "SwapTotal:"@
    }
    else if i == 15 {
        "SwapFree:"@
    }
    else if i == 16 {
        "ZSwap:"@
    }
    else if i == 17 {
        "ZSwapTotal:"@
    }
    else if i == 18 {
        "Dirty:"@
    }
    else if i == 19 {
        "Writeback:"@
    }
    else if i == 20 {
        "AnonPages:"@
    }
    else if i == 21 {
        "Mapped:"@
    }
    else if i == 22 {
        "Shmem:"@
    }
    else if i == 23 {
        "KReclaimable:"@
    }
    else if i == 24 {
        "Slab:"@
    }
    else if i == 25 {
        "SReclaimable:"@
    }
    else if i == 26 {
        "SUnreclaim:"@
    }
    else if i == 27 {
        "KernelStack:"@
    }
    else if i == 28 {
        "PageTables:"@
    }
    else if i == 29 {
        "SecMemTables:"@
    }
    else if i == 30 {
        "NFS_Unstable:"@
    }
    else if i == 31 {
        "Bounce:"@
    }
    else if i == 32 {
        "WritebackTmp:"@
    }
    else if i == 33 {
        "CommitLimit:"@
    }
    else if i == 34 {
        "Committed_AS:"@
    }
    else if i == 35 {
        "VmallocTotal:"@
    }
    else if i == 36 {
        "VmallocUsed:"@
    }
    else if i == 37 {
        "VmallocChunk:"@
    }
    else if i == 38 {
        "Percpu:"@
    }
    else if i == 39 {
        "HardwareCorrupted:"@
    }
    else if i == 40 {
        "AnonHugePages:"@
    }
    else if i == 41 {
        "ShmemHugePages:"@
    }
    else if i == 42 {
        "ShmemPmdMapped:"@
    }
    else if i == 43 {
        "FileHugePages:"@
    }
    else if i == 44 {
        "FilePmdMapped:"@
    }
    else if i == 45 {
        "CmaTotal:"@
    }
    else if i == 46 {
        "CmaFree:"@
    }
    else if i == 47 {
        "HugePages_Total:"@
    }
    else if i == 48 {
        "HugePages_Free:"@
    }
    else if i == 49 {
        "HugePages_Rsvd:"@
    }
    else if i == 50 {
        "HugePages_Surp:"@
    }
    else if i == 51 {
        "Hugepagesize:"@
    }
    else if i == 52 {
        "Hugetlb:"@
    }
    else if i == 53 {
        "DirectMap4k:"@
    }
    else if i == 54 {
        "DirectMap2M:"@
    }
    else if i == 55 {
        "DirectMap1G:"@
    }
    else {
        Seq::empty()
    }
}

fn meminfo_key_str(i: usize) -> (s: &'static str)
    requires
        i < MEMINFO_FIELD_COUNT,
    ensures
        s@ == meminfo_key(i as int),
{
    match i {
        0 => "MemTotal:",
        1 => "MemFree:",
        2 => "MemAvailable:",
        3 => "Buffers:",
        4 => "Cached:",
        5 => "SwapCached:",
        6 => "Active:",
        7 => "Inactive:",
        8 => "Active(anon):",
        9 => "Inactive(anon):",
        10 => "Active(file):",
        11 => "Inactive(file):",
        12 => "Unevictable:",
        13 => "Mlocked:",
        14 => "SwapTotal:",
        15 => "SwapFree:",
        16 => "ZSwap:",
        17 => "ZSwapTotal:",
        18 => "Dirty:",
        19 => "Writeback:",
        20 => "AnonPages:",
        21 => "Mapped:",
        22 => "Shmem:",
        23 => "KReclaimable:",
        24 => "Slab:",
        25 => "SReclaimable:",
        26 => "SUnreclaim:",
        27 => "KernelStack:",
        28 => "PageTables:",
        29 => "SecMemTables:",
        30 => "NFS_Unstable:",
        31 => "Bounce:",
        32 => "WritebackTmp:",
        33 => "CommitLimit:",
        34 => "Committed_AS:",
        35 => "VmallocTotal:",
        36 => "VmallocUsed:",
        37 => "VmallocChunk:",
        38 => "Percpu:",
        39 => "HardwareCorrupted:",
        40 => "AnonHugePages:",
        41 => "ShmemHugePages:",
        42 => "ShmemPmdMapped:",
        43 => "FileHugePages:",
        44 => "FilePmdMapped:",
        45 => "CmaTotal:",
        46 => "CmaFree:",
        47 => "HugePages_Total:",
        48 => "HugePages_Free:",
        49 => "HugePages_Rsvd:",
        50 => "HugePages_Surp:",
        51 => "Hugepagesize:",
        52 => "Hugetlb:",
        53 => "DirectMap4k:",
        54 => "DirectMap2M:",
        55 => "DirectMap1G:",
        _ => "",
    }
}

/// The entries that `/proc/meminfo` gives as page counts, not kibibytes.
pub open spec fn is_page_count(i: int) -> bool {
    47 <= i <= 50
}


/// Position of the first entry, from position `i` on, whose key is `key`: the arm
/// of the key `match` that a line with this key takes.
pub open spec fn meminfo_key_index_from(key: Seq<char>, i: int) -> Option<int>
    decreases MEMINFO_FIELD_COUNT - i,
{
    if i < 0 || i >= MEMINFO_FIELD_COUNT {
        None
    } else if key == meminfo_key(i) {
        Some(i)
    } else {
        meminfo_key_index_from(key, i + 1)
    }
}

pub open spec fn meminfo_key_index(key: Seq<char>) -> Option<int> {
    meminfo_key_index_from(key, 0)
}

/// The number on a line of `/proc/meminfo`: its second word read as a `usize`,
/// or 0 where there is none or it does not read as one.
pub open spec fn meminfo_line_number(line: Seq<char>) -> nat {
    match parse_unsigned(word_or_empty(line, 1), usize::MAX as nat) {
        Some(v) => v,
        None => 0,
    }
}

/// The line's number, taken as kibibytes, can be written in bytes as a `usize`.
pub open spec fn meminfo_line_fits(line: Seq<char>) -> bool {
    meminfo_line_number(line) * 1024 <= usize::MAX
}

/// Every line of the report fits (each line's number is scaled to bytes before
/// its key is looked at).
pub open spec fn meminfo_fits(text: Seq<char>) -> bool {
    forall|i: int| 0 <= i < lines(text).len() ==> meminfo_line_fits(#[trigger] lines(text)[i])
}

/// What a line gives the entry at position `f`: its number in bytes, or for the
/// huge page counts the number itself.
pub open spec fn meminfo_entry_value(f: int, line: Seq<char>) -> usize {
    if is_page_count(f) {
        meminfo_line_number(line) as usize
    } else {
        (meminfo_line_number(line) * 1024) as usize
    }
}

/// The report after reading one line: the entry whose key is the line's first
/// word takes the line's value; a line with any other first word changes nothing.
pub open spec fn meminfo_apply_line(m: MemInfo, line: Seq<char>) -> MemInfo {
    match meminfo_key_index(word_or_empty(line, 0)) {
        Some(f) => m.with_field(f, meminfo_entry_value(f, line)),
        None => m,
    }
}

/// The report after reading the lines `ls` in order.
pub open spec fn meminfo_apply_lines(m: MemInfo, ls: Seq<Seq<char>>) -> MemInfo
    decreases ls.len(),
{
    if ls.len() == 0 {
        m
    } else {
        meminfo_apply_line(meminfo_apply_lines(m, ls.drop_last()), ls.last())
    }
}

fn meminfo_key_table() -> (t: Vec<Vec<char>>)
    ensures
        t.len() == MEMINFO_FIELD_COUNT,
        forall|i: int| 0 <= i < MEMINFO_FIELD_COUNT ==> #[trigger] t[i]@ == meminfo_key(i),
{
    let mut t: Vec<Vec<char>> = Vec::new();
    let mut i: usize = 0;
    while i < MEMINFO_FIELD_COUNT
        invariant
            i <= MEMINFO_FIELD_COUNT,
            t.len() == i,
            forall|j: int| 0 <= j < i ==> #[trigger] t[j]@ == meminfo_key(j),
        decreases MEMINFO_FIELD_COUNT - i,
    {
        t.push(chars_of(meminfo_key_str(i)));
        i = i + 1;
    }
    t
}

/// The first two words of the line `cs[a..b]`, as bounds.
fn first_two_words(cs: &Vec<char>, a: usize, b: usize) -> (r: (usize, usize, usize, usize))
    requires
        a <= b <= cs.len(),
    ensures
        a <= r.0 <= r.1 <= b,
        r.1 <= r.2 <= r.3 <= b,
        word_or_empty(cs@.subrange(a as int, b as int), 0) == cs@.subrange(r.0 as int, r.1 as int),
        word_or_empty(cs@.subrange(a as int, b as int), 1) == cs@.subrange(r.2 as int, r.3 as int),
        words(cs@.subrange(a as int, b as int)).len() >= 2 ==> words(
            cs@.subrange(r.3 as int, b as int),
        ) == words(cs@.subrange(a as int, b as int)).skip(2),
        words(cs@.subrange(a as int, b as int)).len() < 2 ==> r.3 == b,
{
    let (k0, k1) = next_word(cs, a, b);
    let (v0, v1) = next_word(cs, k1, b);
    proof {
        let line = cs@.subrange(a as int, b as int);
        let rest = cs@.subrange(k1 as int, b as int);
        if k0 == k1 {
            assert(cs@.subrange(k0 as int, k1 as int) =~= Seq::<char>::empty());
            assert(cs@.subrange(v0 as int, v1 as int) =~= Seq::<char>::empty());
        } else {
            assert(words(line)[0] == cs@.subrange(k0 as int, k1 as int));
            if v0 == v1 {
                assert(cs@.subrange(v0 as int, v1 as int) =~= Seq::<char>::empty());
                assert(words(line).len() == 1);
            } else {
                assert(words(line)[1] == cs@.subrange(v0 as int, v1 as int));
                assert(words(line).skip(2) =~= words(cs@.subrange(v1 as int, b as int)));
            }
        }
    }
    (k0, k1, v0, v1)
}

/// The number on the line `cs[a..b]`.
fn meminfo_line_number_at(cs: &Vec<char>, a: usize, b: usize) -> (r: usize)
    requires
        a <= b <= cs.len(),
    ensures
        r == meminfo_line_number(cs@.subrange(a as int, b as int)),
{
    let (_k0, _k1, v0, v1) = first_two_words(cs, a, b);
    match parse_unsigned_at(cs, v0, v1, usize::MAX) {
        Some(v) => v,
        None => 0,
    }
}

impl MemInfo {
    fn apply_line(&mut self, cs: &Vec<char>, a: usize, b: usize, keys: &Vec<Vec<char>>)
        requires
            a <= b <= cs.len(),
            keys.len() == MEMINFO_FIELD_COUNT,
            forall|i: int| 0 <= i < MEMINFO_FIELD_COUNT ==> #[trigger] keys[i]@ == meminfo_key(i),
            meminfo_line_fits(cs@.subrange(a as int, b as int)),
        ensures
            *final(self) == meminfo_apply_line(*old(self), cs@.subrange(a as int, b as int)),
    {
        let ghost line = cs@.subrange(a as int, b as int);
        let (k0, k1, _v0, _v1) = first_two_words(cs, a, b);
        let number = meminfo_line_number_at(cs, a, b);
        let bytes = number * 1024;
        let ghost key = word_or_empty(line, 0);
        let mut i: usize = 0;
        while i < MEMINFO_FIELD_COUNT
            invariant
                i <= MEMINFO_FIELD_COUNT,
                k0 <= k1 <= cs.len(),
                key == cs@.subrange(k0 as int, k1 as int),
                keys.len() == MEMINFO_FIELD_COUNT,
                forall|j: int| 0 <= j < MEMINFO_FIELD_COUNT ==> #[trigger] keys[j]@ == meminfo_key(j),
                meminfo_key_index(key) == meminfo_key_index_from(key, i as int),
                *self == *old(self),
                line == cs@.subrange(a as int, b as int),
                key == word_or_empty(line, 0),
                number == meminfo_line_number(line),
                meminfo_line_fits(line),
                bytes == number * 1024,
            decreases MEMINFO_FIELD_COUNT - i,
        {
            if seq_equals(cs, k0, k1, &keys[i]) {
                let v = if 47 <= i && i <= 50 {
                    number
                } else {
                    bytes
                };
                proof {
                    assert(key == meminfo_key(i as int));
                    assert(meminfo_key_index(key) == Some(i as int));
                    assert(v == meminfo_entry_value(i as int, line));
                }
                self.set_field(i, v);
                return;
            }
            i = i + 1;
        }
    }

    /// Reads the report `meminfo` (the text of `/proc/meminfo`) into this value,
    /// line by line: each line whose first word is a known key sets that entry.
    pub fn refresh(&mut self, meminfo: &str)
        requires
            meminfo_fits(meminfo@),
        ensures
            *final(self) == meminfo_apply_lines(*old(self), lines(meminfo@)),
    {
        let cs = chars_of(meminfo);
        let keys = meminfo_key_table();
        let mut pos: usize = 0;
        let ghost mut done: Seq<Seq<char>> = seq![];
        proof {
            assert(cs@.subrange(0, cs.len() as int) =~= cs@);
        }
        loop
            invariant
                pos <= cs.len(),
                cs@ == meminfo@,
                meminfo_fits(meminfo@),
                keys.len() == MEMINFO_FIELD_COUNT,
                forall|j: int| 0 <= j < MEMINFO_FIELD_COUNT ==> #[trigger] keys[j]@ == meminfo_key(j),
                lines(cs@) == done + lines(cs@.subrange(pos as int, cs.len() as int)),
                *self == meminfo_apply_lines(*old(self), done),
            decreases cs.len() - pos,
        {
            let e = line_end(&cs, pos);
            let ghost line = cs@.subrange(pos as int, e as int);
            proof {
                assert(lines(cs@)[done.len() as int] == line);
            }
            self.apply_line(&cs, pos, e, &keys);
            proof {
                assert(done.push(line).drop_last() =~= done);
                done = done.push(line);
            }
            if e == cs.len() {
                proof {
                    assert(lines(cs@) =~= done);
                }
                return;
            }
            proof {
                assert(lines(cs@) =~= done + lines(cs@.subrange(e + 1, cs.len() as int)));
            }
            pos = e + 1;
        }
    }

    /// Tells whether `refresh` can read `meminfo`: whether every line's number fits
    /// in a `usize` once scaled to bytes.
    pub fn refresh_fits(meminfo: &str) -> (r: bool)
        ensures
            r == meminfo_fits(meminfo@),
    {
        let cs = chars_of(meminfo);
        let mut pos: usize = 0;
        let ghost mut done: Seq<Seq<char>> = seq![];
        proof {
            assert(cs@.subrange(0, cs.len() as int) =~= cs@);
        }
        loop
            invariant
                pos <= cs.len(),
                cs@ == meminfo@,
                lines(cs@) == done + lines(cs@.subrange(pos as int, cs.len() as int)),
                forall|i: int| 0 <= i < done.len() ==> meminfo_line_fits(#[trigger] done[i]),
            decreases cs.len() - pos,
        {
            let e = line_end(&cs, pos);
            let ghost line = cs@.subrange(pos as int, e as int);
            proof {
                assert(lines(cs@)[done.len() as int] == line);
            }
            let number = meminfo_line_number_at(&cs, pos, e);
            if number as u128 * 1024 > usize::MAX as u128 {
                return false;
            }
            proof {
                done = done.push(line);
            }
            if e == cs.len() {
                proof {
                    assert(lines(cs@) =~= done);
                }
                return true;
            }
            proof {
                assert(lines(cs@) =~= done + lines(cs@.subrange(e + 1, cs.len() as int)));
            }
            pos = e + 1;
        }
    }

    /// Reads the report `meminfo` into a value whose entries start at zero.
    pub fn new(meminfo: &str) -> (r: Self)
        requires
            meminfo_fits(meminfo@),
        ensures
            r == meminfo_apply_lines(MemInfo::zeroed(), lines(meminfo@)),
    {
        let mut this = MemInfo::default();
        this.refresh(meminfo);
        this
    }
}

impl Default for MemInfo {
    fn default() -> (r: Self)
        ensures
            r == MemInfo::zeroed(),
    {
        MemInfo {
            mem_total: 0,
            mem_free: 0,
            mem_available: 0,
            buffers: 0,
            cached: 0,
            swap_cached: 0,
            active: 0,
            inactive: 0,
            active_anon: 0,
            inactive_anon: 0,
            active_file: 0,
            inactive_file: 0,
            unevictable: 0,
            m_locked: 0,
            swap_total: 0,
            swap_free: 0,
            zswap: 0,
            zswapped: 0,
            dirty: 0,
            writeback: 0,
            anon_pages: 0,
            mapped: 0,
            sh_mem: 0,
            k_reclaimable: 0,
            slab: 0,
            s_reclaimable: 0,
            s_unreclaim: 0,
            kernel_stack: 0,
            page_tables: 0,
            sec_page_tables: 0,
            nfs_unstable: 0,
            bounce: 0,
            writeback_tmp: 0,
            commit_limit: 0,
            committed_as: 0,
            vmalloc_total: 0,
            vmalloc_used: 0,
            vmalloc_chunk: 0,
            percpu: 0,
            hardware_corrupted: 0,
            anon_huge_pages: 0,
            shmem_huge_pages: 0,
            shmem_pmd_mapped: 0,
            file_huge_pages: 0,
            file_pmd_mapped: 0,
            cma_total: 0,
            cma_free: 0,
            huge_pages_total: 0,
            huge_pages_free: 0,
            huge_pages_rsvd: 0,
            huge_pages_surp: 0,
            hugepagesize: 0,
            hugetlb: 0,
            direct_map4k: 0,
            direct_map2m: 0,
            direct_map1g: 0,
        }
    }
}


/// The line `line` sets the entry at position `f`.
pub open spec fn line_sets(line: Seq<char>, f: int) -> bool {
    meminfo_key_index(word_or_empty(line, 0)) == Some(f)
}

proof fn lemma_key_index_range(key: Seq<char>, i: int)
    requires
        0 <= i,
    ensures
        meminfo_key_index_from(key, i) matches Some(g) ==> i <= g < MEMINFO_FIELD_COUNT,
    decreases MEMINFO_FIELD_COUNT - i,
{
    if i < MEMINFO_FIELD_COUNT && key != meminfo_key(i) {
        lemma_key_index_range(key, i + 1);
    }
}

#[verifier::rlimit(50)]
proof fn lemma_with_field(m: MemInfo, g: int, v: usize, f: int)
    requires
        0 <= g < MEMINFO_FIELD_COUNT,
        0 <= f < MEMINFO_FIELD_COUNT,
    ensures
        m.with_field(g, v).field(f) == (if f == g {
            v
        } else {
            m.field(f)
        }),
{
    if g == 0 {
        assert(m.with_field(g, v) == (MemInfo { mem_total: v, ..m }));
    } else if g == 1 {
        assert(m.with_field(g, v) == (MemInfo { mem_free: v, ..m }));
    } else if g == 2 {
        assert(m.with_field(g, v) == (MemInfo { mem_available: v, ..m }));
    } else if g == 3 {
        assert(m.with_field(g, v) == (MemInfo { buffers: v, ..m }));
    } else if g == 4 {
        assert(m.with_field(g, v) == (MemInfo { cached: v, ..m }));
    } else if g == 5 {
        assert(m.with_field(g, v) == (MemInfo { swap_cached: v, ..m }));
    } else if g == 6 {
        assert(m.with_field(g, v) == (MemInfo { active: v, ..m }));
    } else if g == 7 {
        assert(m.with_field(g, v) == (MemInfo { inactive: v, ..m }));
    } else if g == 8 {
        assert(m.with_field(g, v) == (MemInfo { active_anon: v, ..m }));
    } else if g == 9 {
        assert(m.with_field(g, v) == (MemInfo { inactive_anon: v, ..m }));
    } else if g == 10 {
        assert(m.with_field(g, v) == (MemInfo { active_file: v, ..m }));
    } else if g == 11 {
        assert(m.with_field(g, v) == (MemInfo { inactive_file: v, ..m }));
    } else if g == 12 {
        assert(m.with_field(g, v) == (MemInfo { unevictable: v, ..m }));
    } else if g == 13 {
        assert(m.with_field(g, v) == (MemInfo { m_locked: v, ..m }));
    } else if g == 14 {
        assert(m.with_field(g, v) == (MemInfo { swap_total: v, ..m }));
    } else if g == 15 {
        assert(m.with_field(g, v) == (MemInfo { swap_free: v, ..m }));
    } else if g == 16 {
        assert(m.with_field(g, v) == (MemInfo { zswap: v, ..m }));
    } else if g == 17 {
        assert(m.with_field(g, v) == (MemInfo { zswapped: v, ..m }));
    } else if g == 18 {
        assert(m.with_field(g, v) == (MemInfo { dirty: v, ..m }));
    } else if g == 19 {
        assert(m.with_field(g, v) == (MemInfo { writeback: v, ..m }));
    } else if g == 20 {
        assert(m.with_field(g, v) == (MemInfo { anon_pages: v, ..m }));
    } else if g == 21 {
        assert(m.with_field(g, v) == (MemInfo { mapped: v, ..m }));
    } else if g == 22 {
        assert(m.with_field(g, v) == (MemInfo { sh_mem: v, ..m }));
    } else if g == 23 {
        assert(m.with_field(g, v) == (MemInfo { k_reclaimable: v, ..m }));
    } else if g == 24 {
        assert(m.with_field(g, v) == (MemInfo { slab: v, ..m }));
    } else if g == 25 {
        assert(m.with_field(g, v) == (MemInfo { s_reclaimable: v, ..m }));
    } else if g == 26 {
        assert(m.with_field(g, v) == (MemInfo { s_unreclaim: v, ..m }));
    } else if g == 27 {
        assert(m.with_field(g, v) == (MemInfo { kernel_stack: v, ..m }));
    } else if g == 28 {
        assert(m.with_field(g, v) == (MemInfo { page_tables: v, ..m }));
    } else if g == 29 {
        assert(m.with_field(g, v) == (MemInfo { sec_page_tables: v, ..m }));
    } else if g == 30 {
        assert(m.with_field(g, v) == (MemInfo { nfs_unstable: v, ..m }));
    } else if g == 31 {
        assert(m.with_field(g, v) == (MemInfo { bounce: v, ..m }));
    } else if g == 32 {
        assert(m.with_field(g, v) == (MemInfo { writeback_tmp: v, ..m }));
    } else if g == 33 {
        assert(m.with_field(g, v) == (MemInfo { commit_limit: v, ..m }));
    } else if g == 34 {
        assert(m.with_field(g, v) == (MemInfo { committed_as: v, ..m }));
    } else if g == 35 {
        assert(m.with_field(g, v) == (MemInfo { vmalloc_total: v, ..m }));
    } else if g == 36 {
        assert(m.with_field(g, v) == (MemInfo { vmalloc_used: v, ..m }));
    } else if g == 37 {
        assert(m.with_field(g, v) == (MemInfo { vmalloc_chunk: v, ..m }));
    } else if g == 38 {
        assert(m.with_field(g, v) == (MemInfo { percpu: v, ..m }));
    } else if g == 39 {
        assert(m.with_field(g, v) == (MemInfo { hardware_corrupted: v, ..m }));
    } else if g == 40 {
        assert(m.with_field(g, v) == (MemInfo { anon_huge_pages: v, ..m }));
    } else if g == 41 {
        assert(m.with_field(g, v) == (MemInfo { shmem_huge_pages: v, ..m }));
    } else if g == 42 {
        assert(m.with_field(g, v) == (MemInfo { shmem_pmd_mapped: v, ..m }));
    } else if g == 43 {
        assert(m.with_field(g, v) == (MemInfo { file_huge_pages: v, ..m }));
    } else if g == 44 {
        assert(m.with_field(g, v) == (MemInfo { file_pmd_mapped: v, ..m }));
    } else if g == 45 {
        assert(m.with_field(g, v) == (MemInfo { cma_total: v, ..m }));
    } else if g == 46 {
        assert(m.with_field(g, v) == (MemInfo { cma_free: v, ..m }));
    } else if g == 47 {
        assert(m.with_field(g, v) == (MemInfo { huge_pages_total: v, ..m }));
    } else if g == 48 {
        assert(m.with_field(g, v) == (MemInfo { huge_pages_free: v, ..m }));
    } else if g == 49 {
        assert(m.with_field(g, v) == (MemInfo { huge_pages_rsvd: v, ..m }));
    } else if g == 50 {
        assert(m.with_field(g, v) == (MemInfo { huge_pages_surp: v, ..m }));
    } else if g == 51 {
        assert(m.with_field(g, v) == (MemInfo { hugepagesize: v, ..m }));
    } else if g == 52 {
        assert(m.with_field(g, v) == (MemInfo { hugetlb: v, ..m }));
    } else if g == 53 {
        assert(m.with_field(g, v) == (MemInfo { direct_map4k: v, ..m }));
    } else if g == 54 {
        assert(m.with_field(g, v) == (MemInfo { direct_map2m: v, ..m }));
    } else if g == 55 {
        assert(m.with_field(g, v) == (MemInfo { direct_map1g: v, ..m }));
    }
}

proof fn lemma_fields_equal(a: MemInfo, b: MemInfo)
    requires
        forall|f: int| 0 <= f < MEMINFO_FIELD_COUNT ==> #[trigger] a.field(f) == b.field(f),
    ensures
        a == b,
{
    assert(a.field(0) == b.field(0));
    assert(a.field(1) == b.field(1));
    assert(a.field(2) == b.field(2));
    assert(a.field(3) == b.field(3));
    assert(a.field(4) == b.field(4));
    assert(a.field(5) == b.field(5));
    assert(a.field(6) == b.field(6));
    assert(a.field(7) == b.field(7));
    assert(a.field(8) == b.field(8));
    assert(a.field(9) == b.field(9));
    assert(a.field(10) == b.field(10));
    assert(a.field(11) == b.field(11));
    assert(a.field(12) == b.field(12));
    assert(a.field(13) == b.field(13));
    assert(a.field(14) == b.field(14));
    assert(a.field(15) == b.field(15));
    assert(a.field(16) == b.field(16));
    assert(a.field(17) == b.field(17));
    assert(a.field(18) == b.field(18));
    assert(a.field(19) == b.field(19));
    assert(a.field(20) == b.field(20));
    assert(a.field(21) == b.field(21));
    assert(a.field(22) == b.field(22));
    assert(a.field(23) == b.field(23));
    assert(a.field(24) == b.field(24));
    assert(a.field(25) == b.field(25));
    assert(a.field(26) == b.field(26));
    assert(a.field(27) == b.field(27));
    assert(a.field(28) == b.field(28));
    assert(a.field(29) == b.field(29));
    assert(a.field(30) == b.field(30));
    assert(a.field(31) == b.field(31));
    assert(a.field(32) == b.field(32));
    assert(a.field(33) == b.field(33));
    assert(a.field(34) == b.field(34));
    assert(a.field(35) == b.field(35));
    assert(a.field(36) == b.field(36));
    assert(a.field(37) == b.field(37));
    assert(a.field(38) == b.field(38));
    assert(a.field(39) == b.field(39));
    assert(a.field(40) == b.field(40));
    assert(a.field(41) == b.field(41));
    assert(a.field(42) == b.field(42));
    assert(a.field(43) == b.field(43));
    assert(a.field(44) == b.field(44));
    assert(a.field(45) == b.field(45));
    assert(a.field(46) == b.field(46));
    assert(a.field(47) == b.field(47));
    assert(a.field(48) == b.field(48));
    assert(a.field(49) == b.field(49));
    assert(a.field(50) == b.field(50));
    assert(a.field(51) == b.field(51));
    assert(a.field(52) == b.field(52));
    assert(a.field(53) == b.field(53));
    assert(a.field(54) == b.field(54));
    assert(a.field(55) == b.field(55));
}

/// Law: each entry of the report is decided by the last line that sets it; an
/// entry that no line sets keeps its value.
pub proof fn lemma_entry_from_last_line(m: MemInfo, ls: Seq<Seq<char>>, f: int)
    requires
        0 <= f < MEMINFO_FIELD_COUNT,
    ensures
        (forall|i: int| 0 <= i < ls.len() ==> !line_sets(#[trigger] ls[i], f)) ==> meminfo_apply_lines(
            m,
            ls,
        ).field(f) == m.field(f),
        forall|i: int|
            0 <= i < ls.len() && line_sets(ls[i], f) && (forall|j: int|
                i < j < ls.len() ==> !line_sets(#[trigger] ls[j], f)) ==> meminfo_apply_lines(
                m,
                ls,
            ).field(f) == meminfo_entry_value(f, #[trigger] ls[i]),
    decreases ls.len(),
{
    if ls.len() > 0 {
        let prev = ls.drop_last();
        let l = ls.last();
        lemma_entry_from_last_line(m, prev, f);
        let before = meminfo_apply_lines(m, prev);
        lemma_key_index_range(word_or_empty(l, 0), 0);
        match meminfo_key_index(word_or_empty(l, 0)) {
            Some(g) => {
                lemma_with_field(before, g, meminfo_entry_value(g, l), f);
            },
            None => {},
        }
        assert forall|i: int|
            0 <= i < ls.len() && line_sets(ls[i], f) && (forall|j: int|
                i < j < ls.len() ==> !line_sets(#[trigger] ls[j], f)) implies meminfo_apply_lines(
            m,
            ls,
        ).field(f) == meminfo_entry_value(f, #[trigger] ls[i]) by {
            if i < ls.len() - 1 {
                assert(!line_sets(ls[ls.len() - 1], f));
                assert(prev[i] == ls[i]);
                assert forall|j: int| i < j < prev.len() implies !line_sets(#[trigger] prev[j], f) by {
                    assert(prev[j] == ls[j]);
                }
            }
        }
        if forall|i: int| 0 <= i < ls.len() ==> !line_sets(#[trigger] ls[i], f) {
            assert(!line_sets(ls[ls.len() - 1], f));
            assert forall|i: int| 0 <= i < prev.len() implies !line_sets(#[trigger] prev[i], f) by {
                assert(prev[i] == ls[i]);
            }
        }
    }
}

/// Law: reading the same report twice gives what reading it once gives.
pub proof fn lemma_refresh_idempotent(m: MemInfo, ls: Seq<Seq<char>>)
    ensures
        meminfo_apply_lines(meminfo_apply_lines(m, ls), ls) == meminfo_apply_lines(m, ls),
{
    let once = meminfo_apply_lines(m, ls);
    let twice = meminfo_apply_lines(once, ls);
    assert forall|f: int| 0 <= f < MEMINFO_FIELD_COUNT implies #[trigger] twice.field(f)
        == once.field(f) by {
        lemma_entry_from_last_line(m, ls, f);
        lemma_entry_from_last_line(once, ls, f);
        if exists|i: int| 0 <= i < ls.len() && line_sets(ls[i], f) {
            let i = last_setting_line(ls, f);
            assert(line_sets(ls[i], f));
        }
    }
    lemma_fields_equal(twice, once);
}

/// The last position of a line that sets the entry at `f`, where there is one.
proof fn last_setting_line(ls: Seq<Seq<char>>, f: int) -> (i: int)
    requires
        exists|i: int| 0 <= i < ls.len() && line_sets(ls[i], f),
    ensures
        0 <= i < ls.len(),
        line_sets(ls[i], f),
        forall|j: int| i < j < ls.len() ==> !line_sets(#[trigger] ls[j], f),
    decreases ls.len(),
{
    if line_sets(ls[ls.len() - 1], f) {
        (ls.len() - 1) as int
    } else {
        let prev = ls.drop_last();
        let w = choose|i: int| 0 <= i < ls.len() && line_sets(ls[i], f);
        assert(prev[w] == ls[w]);
        let i = last_setting_line(prev, f);
        assert forall|j: int| i < j < ls.len() implies !line_sets(#[trigger] ls[j], f) by {
            if j < ls.len() - 1 {
                assert(prev[j] == ls[j]);
            }
        }
        i
    }
}


proof fn lemma_key_position_0()
    ensures
        meminfo_key_index("MemTotal:"@) == Some(0int),
{
    reveal_strlit("MemTotal:");
    assert(meminfo_key_index_from("MemTotal:"@, 0) == Some(0int));
}

proof fn lemma_key_position_1()
    ensures
        meminfo_key_index("MemFree:"@) == Some(1int),
{
    reveal_strlit("MemTotal:");
    reveal_strlit("MemFree:");
    assert("MemTotal:"@.len() == 9 && "MemFree:"@.len() == 8);
    assert(meminfo_key_index_from("MemFree:"@, 1) == Some(1int));
    assert(meminfo_key_index_from("MemFree:"@, 0) == Some(1int));
}

proof fn lemma_key_position_2()
    ensures
        meminfo_key_index("MemAvailable:"@) == Some(2int),
{
    reveal_strlit("MemTotal:");
    reveal_strlit("MemFree:");
    reveal_strlit("MemAvailable:");
    assert("MemTotal:"@.len() == 9 && "MemAvailable:"@.len() == 13);
    assert("MemFree:"@.len() == 8 && "MemAvailable:"@.len() == 13);
    assert(meminfo_key_index_from("MemAvailable:"@, 2) == Some(2int));
    assert(meminfo_key_index_from("MemAvailable:"@, 1) == Some(2int));
    assert(meminfo_key_index_from("MemAvailable:"@, 0) == Some(2int));
}

proof fn lemma_key_position_3()
    ensures
        meminfo_key_index("Buffers:"@) == Some(3int),
{
    reveal_strlit("MemTotal:");
    reveal_strlit("MemFree:");
    reveal_strlit("MemAvailable:");
    reveal_strlit("Buffers:");
    assert("MemTotal:"@.len() == 9 && "Buffers:"@.len() == 8);
    assert("MemFree:"@[0] == 'M' && "Buffers:"@[0] == 'B');
    assert("MemAvailable:"@.len() == 13 && "Buffers:"@.len() == 8);
    assert(meminfo_key_index_from("Buffers:"@, 3) == Some(3int));
    assert(meminfo_key_index_from("Buffers:"@, 2) == Some(3int));
    assert(meminfo_key_index_from("Buffers:"@, 1) == Some(3int));
    assert(meminfo_key_index_from("Buffers:"@, 0) == Some(3int));
}

proof fn lemma_key_position_4()
    ensures
        meminfo_key_index("Cached:"@) == Some(4int),
{
    reveal_strlit("MemTotal:");
    reveal_strlit("MemFree:");
    reveal_strlit("MemAvailable:");
    reveal_strlit("Buffers:");
    reveal_strlit("Cached:");
    assert("MemTotal:"@.len() == 9 && "Cached:"@.len() == 7);
    assert("MemFree:"@.len() == 8 && "Cached:"@.len() == 7);
    assert("MemAvailable:"@.len() == 13 && "Cached:"@.len() == 7);
    assert("Buffers:"@.len() == 8 && "Cached:"@.len() == 7);
    assert(meminfo_key_index_from("Cached:"@, 4) == Some(4int));
    assert(meminfo_key_index_from("Cached:"@, 3) == Some(4int));
    assert(meminfo_key_index_from("Cached:"@, 2) == Some(4int));
    assert(meminfo_key_index_from("Cached:"@, 1) == Some(4int));
    assert(meminfo_key_index_from("Cached:"@, 0) == Some(4int));
}

proof fn lemma_key_position_5()
    ensures
        meminfo_key_index("SwapCached:"@) == Some(5int),
{
    reveal_strlit("MemTotal:");
    reveal_strlit("MemFree:");
    reveal_strlit("MemAvailable:");
    reveal_strlit("Buffers:");
    reveal_strlit("Cached:");
    reveal_strlit("SwapCached:");
    assert("MemTotal:"@.len() == 9 && "SwapCached:"@.len() == 11);
    assert("MemFree:"@.len() == 8 && "SwapCached:"@.len() == 11);
    assert("MemAvailable:"@.len() == 13 && "SwapCached:"@.len() == 11);
    assert("Buffers:"@.len() == 8 && "SwapCached:"@.len() == 11);
    assert("Cached:"@.len() == 7 && "SwapCached:"@.len() == 11);
    assert(meminfo_key_index_from("SwapCached:"@, 5) == Some(5int));
    assert(meminfo_key_index_from("SwapCached:"@, 4) == Some(5int));
    assert(meminfo_key_index_from("SwapCached:"@, 3) == Some(5int));
    assert(meminfo_key_index_from("SwapCached:"@, 2) == Some(5int));
    assert(meminfo_key_index_from("SwapCached:"@, 1) == Some(5int));
    assert(meminfo_key_index_from("SwapCached:"@, 0) == Some(5int));
}

proof fn lemma_key_position_6()
    ensures
        meminfo_key_index("Active:"@) == Some(6int),
{
    reveal_strlit("MemTotal:");
    reveal_strlit("MemFree:");
    reveal_strlit("MemAvailable:");
    reveal_strlit("Buffers:");
    reveal_strlit("Cached:");
    reveal_strlit("SwapCached:");
    reveal_strlit("Active:");
    assert("MemTotal:"@.len() == 9 && "Active:"@.len() == 7);
    assert("MemFree:"@.len() == 8 && "Active:"@.len() == 7);
    assert("MemAvailable:"@.len() == 13 && "Active:"@.len() == 7);
    assert("Buffers:"@.len() == 8 && "Active:"@.len() == 7);
    assert("Cached:"@[0] == 'C' && "Active:"@[0] == 'A');
    assert("SwapCached:"@.len() == 11 && "Active:"@.len() == 7);
    assert(meminfo_key_index_from("Active:"@, 6) == Some(6int));
    assert(meminfo_key_index_from("Active:"@, 5) == Some(6int));
    assert(meminfo_key_index_from("Active:"@, 4) == Some(6int));
    assert(meminfo_key_index_from("Active:"@, 3) == Some(6int));
    assert(meminfo_key_index_from("Active:"@, 2) == Some(6int));
    assert(meminfo_key_index_from("Active:"@, 1) == Some(6int));
    assert(meminfo_key_index_from("Active:"@, 0) == Some(6int));
}

proof fn lemma_key_position_7()
    ensures
        meminfo_key_index("Inactive:"@) == Some(7int),
{
    reveal_strlit("MemTotal:");
    reveal_strlit("MemFree:");
    reveal_strlit("MemAvailable:");
    reveal_strlit("Buffers:");
    reveal_strlit("Cached:");
    reveal_strlit("SwapCached:");
    reveal_strlit("Active:");
    reveal_strlit("Inactive:");
    assert("MemTotal:"@[0] == 'M' && "Inactive:"@[0] == 'I');
    assert("MemFree:"@.len() == 8 && "Inactive:"@.len() == 9);
    assert("MemAvailable:"@.len() == 13 && "Inactive:"@.len() == 9);
    assert("Buffers:"@.len() == 8 && "Inactive:"@.len() == 9);
    assert("Cached:"@.len() == 7 && "Inactive:"@.len() == 9);
    assert("SwapCached:"@.len() == 11 && "Inactive:"@.len() == 9);
    assert("Active:"@.len() == 7 && "Inactive:"@.len() == 9);
    assert(meminfo_key_index_from("Inactive:"@, 7) == Some(7int));
    assert(meminfo_key_index_from("Inactive:"@, 6) == Some(7int));
    assert(meminfo_key_index_from("Inactive:"@, 5) == Some(7int));
    assert(meminfo_key_index_from("Inactive:"@, 4) == Some(7int));
    assert(meminfo_key_index_from("Inactive:"@, 3) == Some(7int));
    assert(meminfo_key_index_from("Inactive:"@, 2) == Some(7int));
    assert(meminfo_key_index_from("Inactive:"@, 1) == Some(7int));
    assert(meminfo_key_index_from("Inactive:"@, 0) == Some(7int));
}

proof fn lemma_key_position_8()
    ensures
        meminfo_key_index("Active(anon):"@) == Some(8int),
{
    reveal_strlit("MemTotal:");
    reveal_strlit("MemFree:");
    reveal_strlit("MemAvailable:");
    reveal_strlit("Buffers:");
    reveal_strlit("Cached:");
    reveal_strlit("SwapCached:");
    reveal_strlit("Active:");
    reveal_strlit("Inactive:");
    reveal_strlit("Active(anon):");
    assert("MemTotal:"@.len() == 9 && "Active(anon):"@.len() == 13);
    assert("MemFree:"@.len() == 8 && "Active(anon):"@.len() == 13);
    assert("MemAvailable:"@[0] == 'M' && "Active(anon):"@[0] == 'A');
    assert("Buffers:"@.len() == 8 && "Active(anon):"@.len() == 13);
    assert("Cached:"@.len() == 7 && "Active(anon):"@.len() == 13);
    assert("SwapCached:"@.len() == 11 && "Active(anon):"@.len() == 13);
    assert("Active:"@.len() == 7 && "Active(anon):"@.len() == 13);
    assert("Inactive:"@.len() == 9 && "Active(anon):"@.len() == 13);
    assert(meminfo_key_index_from("Active(anon):"@, 8) == Some(8int));
    assert(meminfo_key_index_from("Active(anon):"@, 7) == Some(8int));
    assert(meminfo_key_index_from("Active(anon):"@, 6) == Some(8int));
    assert(meminfo_key_index_from("Active(anon):"@, 5) == Some(8int));
    assert(meminfo_key_index_from("Active(anon):"@, 4) == Some(8int));
    assert(meminfo_key_index_from("Active(anon):"@, 3) == Some(8int));
    assert(meminfo_key_index_from("Active(anon):"@, 2) == Some(8int));
    assert(meminfo_key_index_from("Active(anon):"@, 1) == Some(8int));
    assert(meminfo_key_index_from("Active(anon):"@, 0) == Some(8int));
}

proof fn lemma_key_position_9()
    ensures
        meminfo_key_index("Inactive(anon):"@) == Some(9int),
{
    reveal_strlit("MemTotal:");
    reveal_strlit("MemFree:");
    reveal_strlit("MemAvailable:");
    reveal_strlit("Buffers:");
    reveal_strlit("Cached:");
    reveal_strlit("SwapCached:");
    reveal_strlit("Active:");
    reveal_strlit("Inactive:");
    reveal_strlit("Active(anon):");
    reveal_strlit("Inactive(anon):");
    assert("MemTotal:"@.len() == 9 && "Inactive(anon):"@.len() == 15);
    assert("MemFree:"@.len() == 8 && "Inactive(anon):"@.len() == 15);
    assert("MemAvailable:"@.len() == 13 && "Inactive(anon):"@.len() == 15);
    assert("Buffers:"@.len() == 8 && "Inactive(anon):"@.len() == 15);
    assert("Cached:"@.len() == 7 && "Inactive(anon):"@.len() == 15);
    assert("SwapCached:"@.len() == 11 && "Inactive(anon):"@.len() == 15);
    assert("Active:"@.len() == 7 && "Inactive(anon):"@.len() == 15);
    assert("Inactive:"@.len() == 9 && "Inactive(anon):"@.len() == 15);
    assert("Active(anon):"@.len() == 13 && "Inactive(anon):"@.len() == 15);
    assert(meminfo_key_index_from("Inactive(anon):"@, 9) == Some(9int));
    assert(meminfo_key_index_from("Inactive(anon):"@, 8) == Some(9int));
    assert(meminfo_key_index_from("Inactive(anon):"@, 7) == Some(9int));
    assert(meminfo_key_index_from("Inactive(anon):"@, 6) == Some(9int));
    assert(meminfo_key_index_from("Inactive(anon):"@, 5) == Some(9int));
    assert(meminfo_key_index_from("Inactive(anon):"@, 4) == Some(9int));
    assert(meminfo_key_index_from("Inactive(anon):"@, 3) == Some(9int));
    assert(meminfo_key_index_from("Inactive(anon):"@, 2) == Some(9int));
    assert(meminfo_key_index_from("Inactive(anon):"@, 1) == Some(9int));
    assert(meminfo_key_index_from("Inactive(anon):"@, 0) == Some(9int));
}

proof fn lemma_key_position_10()
    ensures
        meminfo_key_index("Active(file):"@) == Some(10int),
{
    reveal_strlit("MemTotal:");
    reveal_strlit("MemFree:");
    reveal_strlit("MemAvailable:");
    reveal_strlit("Buffers:");
    reveal_strlit("Cached:");
    reveal_strlit("SwapCached:");
    reveal_strlit("Active:");
    reveal_strlit("Inactive:");
    reveal_strlit("Active(anon):");
    reveal_strlit("Inactive(anon):");
    reveal_strlit("Active(file):");
    assert("MemTotal:"@.len() == 9 && "Active(file):"@.len() == 13);
    assert("MemFree:"@.len() == 8 && "Active(file):"@.len() == 13);
    assert("MemAvailable:"@[0] == 'M' && "Active(file):"@[0] == 'A');
    assert("Buffers:"@.len() == 8 && "Active(file):"@.len() == 13);
    assert("Cached:"@.len() == 7 && "Active(file):"@.len() == 13);
    assert("SwapCached:"@.len() == 11 && "Active(file):"@.len() == 13);
    assert("Active:"@.len() == 7 && "Active(file):"@.len() == 13);
    assert("Inactive:"@.len() == 9 && "Active(file):"@.len() == 13);
    assert("Active(anon):"@[7] == 'a' && "Active(file):"@[7] == 'f');
    assert("Inactive(anon):"@.len() == 15 && "Active(file):"@.len() == 13);
    assert(meminfo_key_index_from("Active(file):"@, 10) == Some(10int));
    assert(meminfo_key_index_from("Active(file):"@, 9) == Some(10int));
    assert(meminfo_key_index_from("Active(file):"@, 8) == Some(10int));
    assert(meminfo_key_index_from("Active(file):"@, 7) == Some(10int));
    assert(meminfo_key_index_from("Active(file):"@, 6) == Some(10int));
    assert(meminfo_key_index_from("Active(file):"@, 5) == Some(10int));
    assert(meminfo_key_index_from("Active(file):"@, 4) == Some(10int));
    assert(meminfo_key_index_from("Active(file):"@, 3) == Some(10int));
    assert(meminfo_key_index_from("Active(file):"@, 2) == Some(10int));
    assert(meminfo_key_index_from("Active(file):"@, 1) == Some(10int));
    assert(meminfo_key_index_from("Active(file):"@, 0) == Some(10int));
}

proof fn lemma_key_position_11()
    ensures
        meminfo_key_index("Inactive(file):"@) == Some(11int),
{
    reveal_strlit("MemTotal:");
    reveal_strlit("MemFree:");
    reveal_strlit("MemAvailable:");
    reveal_strlit("Buffers:");
    reveal_strlit("Cached:");
    reveal_strlit("SwapCached:");
    reveal_strlit("Active:");
    reveal_strlit("Inactive:");
    reveal_strlit("Active(anon):");
    reveal_strlit("Inactive(anon):");
    reveal_strlit("Active(file):");
    reveal_strlit("Inactive(file):");
    assert("MemTotal:"@.len() == 9 && "Inactive(file):"@.len() == 15);
    assert("MemFree:"@.len() == 8 && "Inactive(file):"@.len() == 15);
    assert("MemAvailable:"@.len() == 13 && "Inactive(file):"@.len() == 15);
    assert("Buffers:"@.len() == 8 && "Inactive(file):"@.len() == 15);
    assert("Cached:"@.len() == 7 && "Inactive(file):"@.len() == 15);
    assert("SwapCached:"@.len() == 11 && "Inactive(file):"@.len() == 15);
    assert("Active:"@.len() == 7 && "Inactive(file):"@.len() == 15);
    assert("Inactive:"@.len() == 9 && "Inactive(file):"@.len() == 15);
    assert("Active(anon):"@.len() == 13 && "Inactive(file):"@.len() == 15);
    assert("Inactive(anon):"@[9] == 'a' && "Inactive(file):"@[9] == 'f');
    assert("Active(file):"@.len() == 13 && "Inactive(file):"@.len() == 15);
    assert(meminfo_key_index_from("Inactive(file):"@, 11) == Some(11int));
    assert(meminfo_key_index_from("Inactive(file):"@, 10) == Some(11int));
    assert(meminfo_key_index_from("Inactive(file):"@, 9) == Some(11int));
    assert(meminfo_key_index_from("Inactive(file):"@, 8) == Some(11int));
    assert(meminfo_key_index_from("Inactive(file):"@, 7) == Some(11int));
    assert(meminfo_key_index_from("Inactive(file):"@, 6) == Some(11int));
    assert(meminfo_key_index_from("Inactive(file):"@, 5) == Some(11int));
    assert(meminfo_key_index_from("Inactive(file):"@, 4) == Some(11int));
    assert(meminfo_key_index_from("Inactive(file):"@, 3) == Some(11int));
    assert(meminfo_key_index_from("Inactive(file):"@, 2) == Some(11int));
    assert(meminfo_key_index_from("Inactive(file):"@, 1) == Some(11int));
    assert(meminfo_key_index_from("Inactive(file):"@, 0) == Some(11int));
}

proof fn lemma_key_position_12()
    ensures
        meminfo_key_index("Unevictable:"@) == Some(12int),
{
    reveal_strlit("MemTotal:");
    reveal_strlit("MemFree:");
    reveal_strlit("MemAvailable:");
    reveal_strlit("Buffers:");
    reveal_strlit("Cached:");
    reveal_strlit("SwapCached:");
    reveal_strlit("Active:");
    reveal_strlit("Inactive:");
    reveal_strlit("Active(anon):");
    reveal_strlit("Inactive(anon):");
    reveal_strlit("Active(file):");
    reveal_strlit("Inactive(file):");
    reveal_strlit("Unevictable:");
    assert("MemTotal:"@.len() == 9 && "Unevictable:"@.len() == 12);
    assert("MemFree:"@.len() == 8 && "Unevictable:"@.len() == 12);
    assert("MemAvailable:"@.len() == 13 && "Unevictable:"@.len() == 12);
    assert("Buffers:"@.len() == 8 && "Unevictable:"@.len() == 12);
    assert("Cached:"@.len() == 7 && "Unevictable:"@.len() == 12);
    assert("SwapCached:"@.len() == 11 && "Unevictable:"@.len() == 12);
    assert("Active:"@.len() == 7 && "Unevictable:"@.len() == 12);
    assert("Inactive:"@.len() == 9 && "Unevictable:"@.len() == 12);
    assert("Active(anon):"@.len() == 13 && "Unevictable:"@.len() == 12);
    assert("Inactive(anon):"@.len() == 15 && "Unevictable:"@.len() == 12);
    assert("Active(file):"@.len() == 13 && "Unevictable:"@.len() == 12);
    assert("Inactive(file):"@.len() == 15 && "Unevictable:"@.len() == 12);
    assert(meminfo_key_index_from("Unevictable:"@, 12) == Some(12int));
    assert(meminfo_key_index_from("Unevictable:"@, 11) == Some(12int));
    assert(meminfo_key_index_from("Unevictable:"@, 10) == Some(12int));
    assert(meminfo_key_index_from("Unevictable:"@, 9) == Some(12int));
    assert(meminfo_key_index_from("Unevictable:"@, 8) == Some(12int));
    assert(meminfo_key_index_from("Unevictable:"@, 7) == Some(12int));
    assert(meminfo_key_index_from("Unevictable:"@, 6) == Some(12int));
    assert(meminfo_key_index_from("Unevictable:"@, 5) == Some(12int));
    assert(meminfo_key_index_from("Unevictable:"@, 4) == Some(12int));
    assert(meminfo_key_index_from("Unevictable:"@, 3) == Some(12int));
    assert(meminfo_key_index_from("Unevictable:"@, 2) == Some(12int));
    assert(meminfo_key_index_from("Unevictable:"@, 1) == Some(12int));
    assert(meminfo_key_index_from("Unevictable:"@, 0) == Some(12int));
}

proof fn lemma_key_position_13()
    ensures
        meminfo_key_index("Mlocked:"@) == Some(13int),
{
    reveal_strlit("MemTotal:");
    reveal_strlit("MemFree:");
    reveal_strlit("MemAvailable:");
    reveal_strlit("Buffers:");
    reveal_strlit("Cached:");
    reveal_strlit("SwapCached:");
    reveal_strlit("Active:");
    reveal_strlit("Inactive:");
    reveal_strlit("Active(anon):");
    reveal_strlit("Inactive(anon):");
    reveal_strlit("Active(file):");
    reveal_strlit("Inactive(file):");
    reveal_strlit("Unevictable:");
    reveal_strlit("Mlocked:");
    assert("MemTotal:"@.len() == 9 && "Mlocked:"@.len() == 8);
    assert("MemFree:"@[1] == 'e' && "Mlocked:"@[1] == 'l');
    assert("MemAvailable:"@.len() == 13 && "Mlocked:"@.len() == 8);
    assert("Buffers:"@[0] == 'B' && "Mlocked:"@[0] == 'M');
    assert("Cached:"@.len() == 7 && "Mlocked:"@.len() == 8);
    assert("SwapCached:"@.len() == 11 && "Mlocked:"@.len() == 8);
    assert("Active:"@.len() == 7 && "Mlocked:"@.len() == 8);
    assert("Inactive:"@.len() == 9 && "Mlocked:"@.len() == 8);
    assert("Active(anon):"@.len() == 13 && "Mlocked:"@.len() == 8);
    assert("Inactive(anon):"@.len() == 15 && "Mlocked:"@.len() == 8);
    assert("Active(file):"@.len() == 13 && "Mlocked:"@.len() == 8);
    assert("Inactive(file):"@.len() == 15 && "Mlocked:"@.len() == 8);
    assert("Unevictable:"@.len() == 12 && "Mlocked:"@.len() == 8);
    assert(meminfo_key_index_from("Mlocked:"@, 13) == Some(13int));
    assert(meminfo_key_index_from("Mlocked:"@, 12) == Some(13int));
    assert(meminfo_key_index_from("Mlocked:"@, 11) == Some(13int));
    assert(meminfo_key_index_from("Mlocked:"@, 10) == Some(13int));
    assert(meminfo_key_index_from("Mlocked:"@, 9) == Some(13int));
    assert(meminfo_key_index_from("Mlocked:"@, 8) == Some(13int));
    assert(meminfo_key_index_from("Mlocked:"@, 7) == Some(13int));
    assert(meminfo_key_index_from("Mlocked:"@, 6) == Some(13int));
    assert(meminfo_key_index_from("Mlocked:"@, 5) == Some(13int));
    assert(meminfo_key_index_from("Mlocked:"@, 4) == Some(13int));
    assert(meminfo_key_index_from("Mlocked:"@, 3) == Some(13int));
    assert(meminfo_key_index_from("Mlocked:"@, 2) == Some(13int));
    assert(meminfo_key_index_from("Mlocked:"@, 1) == Some(13int));
    assert(meminfo_key_index_from("Mlocked:"@, 0) == Some(13int));
}

proof fn lemma_key_position_14()
    ensures
        meminfo_key_index("SwapTotal:"@) == Some(14int),
{
    reveal_strlit("MemTotal:");
    reveal_strlit("MemFree:");
    reveal_strlit("MemAvailable:");
    reveal_strlit("Buffers:");
    reveal_strlit("Cached:");
    reveal_strlit("SwapCached:");
    reveal_strlit("Active:");
    reveal_strlit("Inactive:");
    reveal_strlit("Active(anon):");
    reveal_strlit("Inactive(anon):");
    reveal_strlit("Active(file):");
    reveal_strlit("Inactive(file):");
    reveal_strlit("Unevictable:");
    reveal_strlit("Mlocked:");
    reveal_strlit("SwapTotal:");
    assert("MemTotal:"@.len() == 9 && "SwapTotal:"@.len() == 10);
    assert("MemFree:"@.len() == 8 && "SwapTotal:"@.len() == 10);
    assert("MemAvailable:"@.len() == 13 && "SwapTotal:"@.len() == 10);
    assert("Buffers:"@.len() == 8 && "SwapTotal:"@.len() == 10);
    assert("Cached:"@.len() == 7 && "SwapTotal:"@.len() == 10);
    assert("SwapCached:"@.len() == 11 && "SwapTotal:"@.len() == 10);
    assert("Active:"@.len() == 7 && "SwapTotal:"@.len() == 10);
    assert("Inactive:"@.len() == 9 && "SwapTotal:"@.len() == 10);
    assert("Active(anon):"@.len() == 13 && "SwapTotal:"@.len() == 10);
    assert("Inactive(anon):"@.len() == 15 && "SwapTotal:"@.len() == 10);
    assert("Active(file):"@.len() == 13 && "SwapTotal:"@.len() == 10);
    assert("Inactive(file):"@.len() == 15 && "SwapTotal:"@.len() == 10);
    assert("Unevictable:"@.len() == 12 && "SwapTotal:"@.len() == 10);
    assert("Mlocked:"@.len() == 8 && "SwapTotal:"@.len() == 10);
    assert(meminfo_key_index_from("SwapTotal:"@, 14) == Some(14int));
    assert(meminfo_key_index_from("SwapTotal:"@, 13) == Some(14int));
    assert(meminfo_key_index_from("SwapTotal:"@, 12) == Some(14int));
    assert(meminfo_key_index_from("SwapTotal:"@, 11) == Some(14int));
    assert(meminfo_key_index_from("SwapTotal:"@, 10) == Some(14int));
    assert(meminfo_key_index_from("SwapTotal:"@, 9) == Some(14int));
    assert(meminfo_key_index_from("SwapTotal:"@, 8) == Some(14int));
    assert(meminfo_key_index_from("SwapTotal:"@, 7) == Some(14int));
    assert(meminfo_key_index_from("SwapTotal:"@, 6) == Some(14int));
    assert(meminfo_key_index_from("SwapTotal:"@, 5) == Some(14int));
    assert(meminfo_key_index_from("SwapTotal:"@, 4) == Some(14int));
    assert(meminfo_key_index_from("SwapTotal:"@, 3) == Some(14int));
    assert(meminfo_key_index_from("SwapTotal:"@, 2) == Some(14int));
    assert(meminfo_key_index_from("SwapTotal:"@, 1) == Some(14int));
    assert(meminfo_key_index_from("SwapTotal:"@, 0) == Some(14int));
}

proof fn lemma_key_position_15()
    ensures
        meminfo_key_index("SwapFree:"@) == Some(15int),
{
    reveal_strlit("MemTotal:");
    reveal_strlit("MemFree:");
    reveal_strlit("MemAvailable:");
    reveal_strlit("Buffers:");
    reveal_strlit("Cached:");
    reveal_strlit("SwapCached:");
    reveal_strlit("Active:");
    reveal_strlit("Inactive:");
    reveal_strlit("Active(anon):");
    reveal_strlit("Inactive(anon):");
    reveal_strlit("Active(file):");
    reveal_strlit("Inactive(file):");
    reveal_strlit("Unevictable:");
    reveal_strlit("Mlocked:");
    reveal_strlit("SwapTotal:");
    reveal_strlit("SwapFree:");
    assert("MemTotal:"@[0] == 'M' && "SwapFree:"@[0] == 'S');
    assert("MemFree:"@.len() == 8 && "SwapFree:"@.len() == 9);
    assert("MemAvailable:"@.len() == 13 && "SwapFree:"@.len() == 9);
    assert("Buffers:"@.len() == 8 && "SwapFree:"@.len() == 9);
    assert("Cached:"@.len() == 7 && "SwapFree:"@.len() == 9);
    assert("SwapCached:"@.len() == 11 && "SwapFree:"@.len() == 9);
    assert("Active:"@.len() == 7 && "SwapFree:"@.len() == 9);
    assert("Inactive:"@[0] == 'I' && "SwapFree:"@[0] == 'S');
    assert("Active(anon):"@.len() == 13 && "SwapFree:"@.len() == 9);
    assert("Inactive(anon):"@.len() == 15 && "SwapFree:"@.len() == 9);
    assert("Active(file):"@.len() == 13 && "SwapFree:"@.len() == 9);
    assert("Inactive(file):"@.len() == 15 && "SwapFree:"@.len() == 9);
    assert("Unevictable:"@.len() == 12 && "SwapFree:"@.len() == 9);
    assert("Mlocked:"@.len() == 8 && "SwapFree:"@.len() == 9);
    assert("SwapTotal:"@.len() == 10 && "SwapFree:"@.len() == 9);
    assert(meminfo_key_index_from("SwapFree:"@, 15) == Some(15int));
    assert(meminfo_key_index_from("SwapFree:"@, 14) == Some(15int));
    assert(meminfo_key_index_from("SwapFree:"@, 13) == Some(15int));
    assert(meminfo_key_index_from("SwapFree:"@, 12) == Some(15int));
    assert(meminfo_key_index_from("SwapFree:"@, 11) == Some(15int));
    assert(meminfo_key_index_from("SwapFree:"@, 10) == Some(15int));
    assert(meminfo_key_index_from("SwapFree:"@, 9) == Some(15int));
    assert(meminfo_key_index_from("SwapFree:"@, 8) == Some(15int));
    assert(meminfo_key_index_from("SwapFree:"@, 7) == Some(15int));
    assert(meminfo_key_index_from("SwapFree:"@, 6) == Some(15int));
    assert(meminfo_key_index_from("SwapFree:"@, 5) == Some(15int));
    assert(meminfo_key_index_from("SwapFree:"@, 4) == Some(15int));
    assert(meminfo_key_index_from("SwapFree:"@, 3) == Some(15int));
    assert(meminfo_key_index_from("SwapFree:"@, 2) == Some(15int));
    assert(meminfo_key_index_from("SwapFree:"@, 1) == Some(15int));
    assert(meminfo_key_index_from("SwapFree:"@, 0) == Some(15int));
}

proof fn lemma_key_position_16()
    ensures
        meminfo_key_index("ZSwap:"@) == Some(16int),
{
    reveal_strlit("MemTotal:");
    reveal_strlit("MemFree:");
    reveal_strlit("MemAvailable:");
    reveal_strlit("Buffers:");
    reveal_strlit("Cached:");
    reveal_strlit("SwapCached:");
    reveal_strlit("Active:");
    reveal_strlit("Inactive:");
    reveal_strlit("Active(anon):");
    reveal_strlit("Inactive(anon):");
    reveal_strlit("Active(file):");
    reveal_strlit("Inactive(file):");
    reveal_strlit("Unevictable:");
    reveal_strlit("Mlocked:");
    reveal_strlit("SwapTotal:");
    reveal_strlit("SwapFree:");
    reveal_strlit("ZSwap:");
    assert("MemTotal:"@.len() == 9 && "ZSwap:"@.len() == 6);
    assert("MemFree:"@.len() == 8 && "ZSwap:"@.len() == 6);
    assert("MemAvailable:"@.len() == 13 && "ZSwap:"@.len() == 6);
    assert("Buffers:"@.len() == 8 && "ZSwap:"@.len() == 6);
    assert("Cached:"@.len() == 7 && "ZSwap:"@.len() == 6);
    assert("SwapCached:"@.len() == 11 && "ZSwap:"@.len() == 6);
    assert("Active:"@.len() == 7 && "ZSwap:"@.len() == 6);
    assert("Inactive:"@.len() == 9 && "ZSwap:"@.len() == 6);
    assert("Active(anon):"@.len() == 13 && "ZSwap:"@.len() == 6);
    assert("Inactive(anon):"@.len() == 15 && "ZSwap:"@.len() == 6);
    assert("Active(file):"@.len() == 13 && "ZSwap:"@.len() == 6);
    assert("Inactive(file):"@.len() == 15 && "ZSwap:"@.len() == 6);
    assert("Unevictable:"@.len() == 12 && "ZSwap:"@.len() == 6);
    assert("Mlocked:"@.len() == 8 && "ZSwap:"@.len() == 6);
    assert("SwapTotal:"@.len() == 10 && "ZSwap:"@.len() == 6);
    assert("SwapFree:"@.len() == 9 && "ZSwap:"@.len() == 6);
    assert(meminfo_key_index_from("ZSwap:"@, 16) == Some(16int));
    assert(meminfo_key_index_from("ZSwap:"@, 15) == Some(16int));
    assert(meminfo_key_index_from("ZSwap:"@, 14) == Some(16int));
    assert(meminfo_key_index_from("ZSwap:"@, 13) == Some(16int));
    assert(meminfo_key_index_from("ZSwap:"@, 12) == Some(16int));
    assert(meminfo_key_index_from("ZSwap:"@, 11) == Some(16int));
    assert(meminfo_key_index_from("ZSwap:"@, 10) == Some(16int));
    assert(meminfo_key_index_from("ZSwap:"@, 9) == Some(16int));
    assert(meminfo_key_index_from("ZSwap:"@, 8) == Some(16int));
    assert(meminfo_key_index_from("ZSwap:"@, 7) == Some(16int));
    assert(meminfo_key_index_from("ZSwap:"@, 6) == Some(16int));
    assert(meminfo_key_index_from("ZSwap:"@, 5) == Some(16int));
    assert(meminfo_key_index_from("ZSwap:"@, 4) == Some(16int));
    assert(meminfo_key_index_from("ZSwap:"@, 3) == Some(16int));
    assert(meminfo_key_index_from("ZSwap:"@, 2) == Some(16int));
    assert(meminfo_key_index_from("ZSwap:"@, 1) == Some(16int));
    assert(meminfo_key_index_from("ZSwap:"@, 0) == Some(16int));
}

proof fn lemma_key_position_17()
    ensures
        meminfo_key_index("ZSwapTotal:"@) == Some(17int),
{
    reveal_strlit("MemTotal:");
    reveal_strlit("MemFree:");
    reveal_strlit("MemAvailable:");
    reveal_strlit("Buffers:");
    reveal_strlit("Cached:");
    reveal_strlit("SwapCached:");
    reveal_strlit("Active:");
    reveal_strlit("Inactive:");
    reveal_strlit("Active(anon):");
    reveal_strlit("Inactive(anon):");
    reveal_strlit("Active(file):");
    reveal_strlit("Inactive(file):");
    reveal_strlit("Unevictable:");
    reveal_strlit("Mlocked:");
    reveal_strlit("SwapTotal:");
    reveal_strlit("SwapFree:");
    reveal_strlit("ZSwap:");
    reveal_strlit("ZSwapTotal:");
    assert("MemTotal:"@.len() == 9 && "ZSwapTotal:"@.len() == 11);
    assert("MemFree:"@.len() == 8 && "ZSwapTotal:"@.len() == 11);
    assert("MemAvailable:"@.len() == 13 && "ZSwapTotal:"@.len() == 11);
    assert("Buffers:"@.len() == 8 && "ZSwapTotal:"@.len() == 11);
    assert("Cached:"@.len() == 7 && "ZSwapTotal:"@.len() == 11);
    assert("SwapCached:"@[0] == 'S' && "ZSwapTotal:"@[0] == 'Z');
    assert("Active:"@.len() == 7 && "ZSwapTotal:"@.len() == 11);
    assert("Inactive:"@.len() == 9 && "ZSwapTotal:"@.len() == 11);
    assert("Active(anon):"@.len() == 13 && "ZSwapTotal:"@.len() == 11);
    assert("Inactive(anon):"@.len() == 15 && "ZSwapTotal:"@.len() == 11);
    assert("Active(file):"@.len() == 13 && "ZSwapTotal:"@.len() == 11);
    assert("Inactive(file):"@.len() == 15 && "ZSwapTotal:"@.len() == 11);
    assert("Unevictable:"@.len() == 12 && "ZSwapTotal:"@.len() == 11);
    assert("Mlocked:"@.len() == 8 && "ZSwapTotal:"@.len() == 11);
    assert("SwapTotal:"@.len() == 10 && "ZSwapTotal:"@.len() == 11);
    assert("SwapFree:"@.len() == 9 && "ZSwapTotal:"@.len() == 11);
    assert("ZSwap:"@.len() == 6 && "ZSwapTotal:"@.len() == 11);
    assert(meminfo_key_index_from("ZSwapTotal:"@, 17) == Some(17int));
    assert(meminfo_key_index_from("ZSwapTotal:"@, 16) == Some(17int));
    assert(meminfo_key_index_from("ZSwapTotal:"@, 15) == Some(17int));
    assert(meminfo_key_index_from("ZSwapTotal:"@, 14) == Some(17int));
    assert(meminfo_key_index_from("ZSwapTotal:"@, 13) == Some(17int));
    assert(meminfo_key_index_from("ZSwapTotal:"@, 12) == Some(17int));
    assert(meminfo_key_index_from("ZSwapTotal:"@, 11) == Some(17int));
    assert(meminfo_key_index_from("ZSwapTotal:"@, 10) == Some(17int));
    assert(meminfo_key_index_from("ZSwapTotal:"@, 9) == Some(17int));
    assert(meminfo_key_index_from("ZSwapTotal:"@, 8) == Some(17int));
    assert(meminfo_key_index_from("ZSwapTotal:"@, 7) == Some(17int));
    assert(meminfo_key_index_from("ZSwapTotal:"@, 6) == Some(17int));
    assert(meminfo_key_index_from("ZSwapTotal:"@, 5) == Some(17int));
    assert(meminfo_key_index_from("ZSwapTotal:"@, 4) == Some(17int));
    assert(meminfo_key_index_from("ZSwapTotal:"@, 3) == Some(17int));
    assert(meminfo_key_index_from("ZSwapTotal:"@, 2) == Some(17int));
    assert(meminfo_key_index_from("ZSwapTotal:"@, 1) == Some(17int));
    assert(meminfo_key_index_from("ZSwapTotal:"@, 0) == Some(17int));
}

proof fn lemma_key_position_18()
    ensures
        meminfo_key_index("Dirty:"@) == Some(18int),
{
    reveal_strlit("MemTotal:");
    reveal_strlit("MemFree:");
    reveal_strlit("MemAvailable:");
    reveal_strlit("Buffers:");
    reveal_strlit("Cached:");
    reveal_strlit("SwapCached:");
    reveal_strlit("Active:");
    reveal_strlit("Inactive:");
    reveal_strlit("Active(anon):");
    reveal_strlit("Inactive(anon):");
    reveal_strlit("Active(file):");
    reveal_strlit("Inactive(file):");
    reveal_strlit("Unevictable:");
    reveal_strlit("Mlocked:");
    reveal_strlit("SwapTotal:");
    reveal_strlit("SwapFree:");
    reveal_strlit("ZSwap:");
    reveal_strlit("ZSwapTotal:");
    reveal_strlit("Dirty:");
    assert("MemTotal:"@.len() == 9 && "Dirty:"@.len() == 6);
    assert("MemFree:"@.len() == 8 && "Dirty:"@.len() == 6);
    assert("MemAvailable:"@.len() == 13 && "Dirty:"@.len() == 6);
    assert("Buffers:"@.len() == 8 && "Dirty:"@.len() == 6);
    assert("Cached:"@.len() == 7 && "Dirty:"@.len() == 6);
    assert("SwapCached:"@.len() == 11 && "Dirty:"@.len() == 6);
    assert("Active:"@.len() == 7 && "Dirty:"@.len() == 6);
    assert("Inactive:"@.len() == 9 && "Dirty:"@.len() == 6);
    assert("Active(anon):"@.len() == 13 && "Dirty:"@.len() == 6);
    assert("Inactive(anon):"@.len() == 15 && "Dirty:"@.len() == 6);
    assert("Active(file):"@.len() == 13 && "Dirty:"@.len() == 6);
    assert("Inactive(file):"@.len() == 15 && "Dirty:"@.len() == 6);
    assert("Unevictable:"@.len() == 12 && "Dirty:"@.len() == 6);
    assert("Mlocked:"@.len() == 8 && "Dirty:"@.len() == 6);
    assert("SwapTotal:"@.len() == 10 && "Dirty:"@.len() == 6);
    assert("SwapFree:"@.len() == 9 && "Dirty:"@.len() == 6);
    assert("ZSwap:"@[0] == 'Z' && "Dirty:"@[0] == 'D');
    assert("ZSwapTotal:"@.len() == 11 && "Dirty:"@.len() == 6);
    assert(meminfo_key_index_from("Dirty:"@, 18) == Some(18int));
    assert(meminfo_key_index_from("Dirty:"@, 17) == Some(18int));
    assert(meminfo_key_index_from("Dirty:"@, 16) == Some(18int));
    assert(meminfo_key_index_from("Dirty:"@, 15) == Some(18int));
    assert(meminfo_key_index_from("Dirty:"@, 14) == Some(18int));
    assert(meminfo_key_index_from("Dirty:"@, 13) == Some(18int));
    assert(meminfo_key_index_from("Dirty:"@, 12) == Some(18int));
    assert(meminfo_key_index_from("Dirty:"@, 11) == Some(18int));
    assert(meminfo_key_index_from("Dirty:"@, 10) == Some(18int));
    assert(meminfo_key_index_from("Dirty:"@, 9) == Some(18int));
    assert(meminfo_key_index_from("Dirty:"@, 8) == Some(18int));
    assert(meminfo_key_index_from("Dirty:"@, 7) == Some(18int));
    assert(meminfo_key_index_from("Dirty:"@, 6) == Some(18int));
    assert(meminfo_key_index_from("Dirty:"@, 5) == Some(18int));
    assert(meminfo_key_index_from("Dirty:"@, 4) == Some(18int));
    assert(meminfo_key_index_from("Dirty:"@, 3) == Some(18int));
    assert(meminfo_key_index_from("Dirty:"@, 2) == Some(18int));
    assert(meminfo_key_index_from("Dirty:"@, 1) == Some(18int));
    assert(meminfo_key_index_from("Dirty:"@, 0) == Some(18int));
}

proof fn lemma_key_position_19()
    ensures
        meminfo_key_index("Writeback:"@) == Some(19int),
{
    reveal_strlit("MemTotal:");
    reveal_strlit("MemFree:");
    reveal_strlit("MemAvailable:");
    reveal_strlit("Buffers:");
    reveal_strlit("Cached:");
    reveal_strlit("SwapCached:");
    reveal_strlit("Active:");
    reveal_strlit("Inactive:");
    reveal_strlit("Active(anon):");
    reveal_strlit("Inactive(anon):");
    reveal_strlit("Active(file):");
    reveal_strlit("Inactive(file):");
    reveal_strlit("Unevictable:");
    reveal_strlit("Mlocked:");
    reveal_strlit("SwapTotal:");
    reveal_strlit("SwapFree:");
    reveal_strlit("ZSwap:");
    reveal_strlit("ZSwapTotal:");
    reveal_strlit("Dirty:");
    reveal_strlit("Writeback:");
    assert("MemTotal:"@.len() == 9 && "Writeback:"@.len() == 10);
    assert("MemFree:"@.len() == 8 && "Writeback:"@.len() == 10);
    assert("MemAvailable:"@.len() == 13 && "Writeback:"@.len() == 10);
    assert("Buffers:"@.len() == 8 && "Writeback:"@.len() == 10);
    assert("Cached:"@.len() == 7 && "Writeback:"@.len() == 10);
    assert("SwapCached:"@.len() == 11 && "Writeback:"@.len() == 10);
    assert("Active:"@.len() == 7 && "Writeback:"@.len() == 10);
    assert("Inactive:"@.len() == 9 && "Writeback:"@.len() == 10);
    assert("Active(anon):"@.len() == 13 && "Writeback:"@.len() == 10);
    assert("Inactive(anon):"@.len() == 15 && "Writeback:"@.len() == 10);
    assert("Active(file):"@.len() == 13 && "Writeback:"@.len() == 10);
    assert("Inactive(file):"@.len() == 15 && "Writeback:"@.len() == 10);
    assert("Unevictable:"@.len() == 12 && "Writeback:"@.len() == 10);
    assert("Mlocked:"@.len() == 8 && "Writeback:"@.len() == 10);
    assert("SwapTotal:"@[0] == 'S' && "Writeback:"@[0] == 'W');
    assert("SwapFree:"@.len() == 9 && "Writeback:"@.len() == 10);
    assert("ZSwap:"@.len() == 6 && "Writeback:"@.len() == 10);
    assert("ZSwapTotal:"@.len() == 11 && "Writeback:"@.len() == 10);
    assert("Dirty:"@.len() == 6 && "Writeback:"@.len() == 10);
    assert(meminfo_key_index_from("Writeback:"@, 19) == Some(19int));
    assert(meminfo_key_index_from("Writeback:"@, 18) == Some(19int));
    assert(meminfo_key_index_from("Writeback:"@, 17) == Some(19int));
    assert(meminfo_key_index_from("Writeback:"@, 16) == Some(19int));
    assert(meminfo_key_index_from("Writeback:"@, 15) == Some(19int));
    assert(meminfo_key_index_from("Writeback:"@, 14) == Some(19int));
    assert(meminfo_key_index_from("Writeback:"@, 13) == Some(19int));
    assert(meminfo_key_index_from("Writeback:"@, 12) == Some(19int));
    assert(meminfo_key_index_from("Writeback:"@, 11) == Some(19int));
    assert(meminfo_key_index_from("Writeback:"@, 10) == Some(19int));
    assert(meminfo_key_index_from("Writeback:"@, 9) == Some(19int));
    assert(meminfo_key_index_from("Writeback:"@, 8) == Some(19int));
    assert(meminfo_key_index_from("Writeback:"@, 7) == Some(19int));
    assert(meminfo_key_index_from("Writeback:"@, 6) == Some(19int));
    assert(meminfo_key_index_from("Writeback:"@, 5) == Some(19int));
    assert(meminfo_key_index_from("Writeback:"@, 4) == Some(19int));
    assert(meminfo_key_index_from("Writeback:"@, 3) == Some(19int));
    assert(meminfo_key_index_from("Writeback:"@, 2) == Some(19int));
    assert(meminfo_key_index_from("Writeback:"@, 1) == Some(19int));
    assert(meminfo_key_index_from("Writeback:"@, 0) == Some(19int));
}

proof fn lemma_key_position_20()
    ensures
        meminfo_key_index("AnonPages:"@) == Some(20int),
{
    reveal_strlit("MemTotal:");
    reveal_strlit("MemFree:");
    reveal_strlit("MemAvailable:");
    reveal_strlit("Buffers:");
    reveal_strlit("Cached:");
    reveal_strlit("SwapCached:");
    reveal_strlit("Active:");
    reveal_strlit("Inactive:");
    reveal_strlit("Active(anon):");
    reveal_strlit("Inactive(anon):");
    reveal_strlit("Active(file):");
    reveal_strlit("Inactive(file):");
    reveal_strlit("Unevictable:");
    reveal_strlit("Mlocked:");
    reveal_strlit("SwapTotal:");
    reveal_strlit("SwapFree:");
    reveal_strlit("ZSwap:");
    reveal_strlit("ZSwapTotal:");
    reveal_strlit("Dirty:");
    reveal_strlit("Writeback:");
    reveal_strlit("AnonPages:");
    assert("MemTotal:"@.len() == 9 && "AnonPages:"@.len() == 10);
    assert("MemFree:"@.len() == 8 && "AnonPages:"@.len() == 10);
    assert("MemAvailable:"@.len() == 13 && "AnonPages:"@.len() == 10);
    assert("Buffers:"@.len() == 8 && "AnonPages:"@.len() == 10);
    assert("Cached:"@.len() == 7 && "AnonPages:"@.len() == 10);
    assert("SwapCached:"@.len() == 11 && "AnonPages:"@.len() == 10);
    assert("Active:"@.len() == 7 && "AnonPages:"@.len() == 10);
    assert("Inactive:"@.len() == 9 && "AnonPages:"@.len() == 10);
    assert("Active(anon):"@.len() == 13 && "AnonPages:"@.len() == 10);
    assert("Inactive(anon):"@.len() == 15 && "AnonPages:"@.len() == 10);
    assert("Active(file):"@.len() == 13 && "AnonPages:"@.len() == 10);
    assert("Inactive(file):"@.len() == 15 && "AnonPages:"@.len() == 10);
    assert("Unevictable:"@.len() == 12 && "AnonPages:"@.len() == 10);
    assert("Mlocked:"@.len() == 8 && "AnonPages:"@.len() == 10);
    assert("SwapTotal:"@[0] == 'S' && "AnonPages:"@[0] == 'A');
    assert("SwapFree:"@.len() == 9 && "AnonPages:"@.len() == 10);
    assert("ZSwap:"@.len() == 6 && "AnonPages:"@.len() == 10);
    assert("ZSwapTotal:"@.len() == 11 && "AnonPages:"@.len() == 10);
    assert("Dirty:"@.len() == 6 && "AnonPages:"@.len() == 10);
    assert("Writeback:"@[0] == 'W' && "AnonPages:"@[0] == 'A');
    assert(meminfo_key_index_from("AnonPages:"@, 20) == Some(20int));
    assert(meminfo_key_index_from("AnonPages:"@, 19) == Some(20int));
    assert(meminfo_key_index_from("AnonPages:"@, 18) == Some(20int));
    assert(meminfo_key_index_from("AnonPages:"@, 17) == Some(20int));
    assert(meminfo_key_index_from("AnonPages:"@, 16) == Some(20int));
    assert(meminfo_key_index_from("AnonPages:"@, 15) == Some(20int));
    assert(meminfo_key_index_from("AnonPages:"@, 14) == Some(20int));
    assert(meminfo_key_index_from("AnonPages:"@, 13) == Some(20int));
    assert(meminfo_key_index_from("AnonPages:"@, 12) == Some(20int));
    assert(meminfo_key_index_from("AnonPages:"@, 11) == Some(20int));
    assert(meminfo_key_index_from("AnonPages:"@, 10) == Some(20int));
    assert(meminfo_key_index_from("AnonPages:"@, 9) == Some(20int));
    assert(meminfo_key_index_from("AnonPages:"@, 8) == Some(20int));
    assert(meminfo_key_index_from("AnonPages:"@, 7) == Some(20int));
    assert(meminfo_key_index_from("AnonPages:"@, 6) == Some(20int));
    assert(meminfo_key_index_from("AnonPages:"@, 5) == Some(20int));
    assert(meminfo_key_index_from("AnonPages:"@, 4) == Some(20int));
    assert(meminfo_key_index_from("AnonPages:"@, 3) == Some(20int));
    assert(meminfo_key_index_from("AnonPages:"@, 2) == Some(20int));
    assert(meminfo_key_index_from("AnonPages:"@, 1) == Some(20int));
    assert(meminfo_key_index_from("AnonPages:"@, 0) == Some(20int));
}

proof fn lemma_key_position_21()
    ensures
        meminfo_key_index("Mapped:"@) == Some(21int),
{
    reveal_strlit("MemTotal:");
    reveal_strlit("MemFree:");
    reveal_strlit("MemAvailable:");
    reveal_strlit("Buffers:");
    reveal_strlit("Cached:");
    reveal_strlit("SwapCached:");
    reveal_strlit("Active:");
    reveal_strlit("Inactive:");
    reveal_strlit("Active(anon):");
    reveal_strlit("Inactive(anon):");
    reveal_strlit("Active(file):");
    reveal_strlit("Inactive(file):");
    reveal_strlit("Unevictable:");
    reveal_strlit("Mlocked:");
    reveal_strlit("SwapTotal:");
    reveal_strlit("SwapFree:");
    reveal_strlit("ZSwap:");
    reveal_strlit("ZSwapTotal:");
    reveal_strlit("Dirty:");
    reveal_strlit("Writeback:");
    reveal_strlit("AnonPages:");
    reveal_strlit("Mapped:");
    assert("MemTotal:"@.len() == 9 && "Mapped:"@.len() == 7);
    assert("MemFree:"@.len() == 8 && "Mapped:"@.len() == 7);
    assert("MemAvailable:"@.len() == 13 && "Mapped:"@.len() == 7);
    assert("Buffers:"@.len() == 8 && "Mapped:"@.len() == 7);
    assert("Cached:"@[0] == 'C' && "Mapped:"@[0] == 'M');
    assert("SwapCached:"@.len() == 11 && "Mapped:"@.len() == 7);
    assert("Active:"@[0] == 'A' && "Mapped:"@[0] == 'M');
    assert("Inactive:"@.len() == 9 && "Mapped:"@.len() == 7);
    assert("Active(anon):"@.len() == 13 && "Mapped:"@.len() == 7);
    assert("Inactive(anon):"@.len() == 15 && "Mapped:"@.len() == 7);
    assert("Active(file):"@.len() == 13 && "Mapped:"@.len() == 7);
    assert("Inactive(file):"@.len() == 15 && "Mapped:"@.len() == 7);
    assert("Unevictable:"@.len() == 12 && "Mapped:"@.len() == 7);
    assert("Mlocked:"@.len() == 8 && "Mapped:"@.len() == 7);
    assert("SwapTotal:"@.len() == 10 && "Mapped:"@.len() == 7);
    assert("SwapFree:"@.len() == 9 && "Mapped:"@.len() == 7);
    assert("ZSwap:"@.len() == 6 && "Mapped:"@.len() == 7);
    assert("ZSwapTotal:"@.len() == 11 && "Mapped:"@.len() == 7);
    assert("Dirty:"@.len() == 6 && "Mapped:"@.len() == 7);
    assert("Writeback:"@.len() == 10 && "Mapped:"@.len() == 7);
    assert("AnonPages:"@.len() == 10 && "Mapped:"@.len() == 7);
    assert(meminfo_key_index_from("Mapped:"@, 21) == Some(21int));
    assert(meminfo_key_index_from("Mapped:"@, 20) == Some(21int));
    assert(meminfo_key_index_from("Mapped:"@, 19) == Some(21int));
    assert(meminfo_key_index_from("Mapped:"@, 18) == Some(21int));
    assert(meminfo_key_index_from("Mapped:"@, 17) == Some(21int));
    assert(meminfo_key_index_from("Mapped:"@, 16) == Some(21int));
    assert(meminfo_key_index_from("Mapped:"@, 15) == Some(21int));
    assert(meminfo_key_index_from("Mapped:"@, 14) == Some(21int));
    assert(meminfo_key_index_from("Mapped:"@, 13) == Some(21int));
    assert(meminfo_key_index_from("Mapped:"@, 12) == Some(21int));
    assert(meminfo_key_index_from("Mapped:"@, 11) == Some(21int));
    assert(meminfo_key_index_from("Mapped:"@, 10) == Some(21int));
    assert(meminfo_key_index_from("Mapped:"@, 9) == Some(21int));
    assert(meminfo_key_index_from("Mapped:"@, 8) == Some(21int));
    assert(meminfo_key_index_from("Mapped:"@, 7) == Some(21int));
    assert(meminfo_key_index_from("Mapped:"@, 6) == Some(21int));
    assert(meminfo_key_index_from("Mapped:"@, 5) == Some(21int));
    assert(meminfo_key_index_from("Mapped:"@, 4) == Some(21int));
    assert(meminfo_key_index_from("Mapped:"@, 3) == Some(21int));
    assert(meminfo_key_index_from("Mapped:"@, 2) == Some(21int));
    assert(meminfo_key_index_from("Mapped:"@, 1) == Some(21int));
    assert(meminfo_key_index_from("Mapped:"@, 0) == Some(21int));
}

proof fn lemma_key_position_22()
    ensures
        meminfo_key_index("Shmem:"@) == Some(22int),
{
    reveal_strlit("MemTotal:");
    reveal_strlit("MemFree:");
    reveal_strlit("MemAvailable:");
    reveal_strlit("Buffers:");
    reveal_strlit("Cached:");
    reveal_strlit("SwapCached:");
    reveal_strlit("Active:");
    reveal_strlit("Inactive:");
    reveal_strlit("Active(anon):");
    reveal_strlit("Inactive(anon):");
    reveal_strlit("Active(file):");
    reveal_strlit("Inactive(file):");
    reveal_strlit("Unevictable:");
    reveal_strlit("Mlocked:");
    reveal_strlit("SwapTotal:");
    reveal_strlit("SwapFree:");
    reveal_strlit("ZSwap:");
    reveal_strlit("ZSwapTotal:");
    reveal_strlit("Dirty:");
    reveal_strlit("Writeback:");
    reveal_strlit("AnonPages:");
    reveal_strlit("Mapped:");
    reveal_strlit("Shmem:");
    assert("MemTotal:"@.len() == 9 && "Shmem:"@.len() == 6);
    assert("MemFree:"@.len() == 8 && "Shmem:"@.len() == 6);
    assert("MemAvailable:"@.len() == 13 && "Shmem:"@.len() == 6);
    assert("Buffers:"@.len() == 8 && "Shmem:"@.len() == 6);
    assert("Cached:"@.len() == 7 && "Shmem:"@.len() == 6);
    assert("SwapCached:"@.len() == 11 && "Shmem:"@.len() == 6);
    assert("Active:"@.len() == 7 && "Shmem:"@.len() == 6);
    assert("Inactive:"@.len() == 9 && "Shmem:"@.len() == 6);
    assert("Active(anon):"@.len() == 13 && "Shmem:"@.len() == 6);
    assert("Inactive(anon):"@.len() == 15 && "Shmem:"@.len() == 6);
    assert("Active(file):"@.len() == 13 && "Shmem:"@.len() == 6);
    assert("Inactive(file):"@.len() == 15 && "Shmem:"@.len() == 6);
    assert("Unevictable:"@.len() == 12 && "Shmem:"@.len() == 6);
    assert("Mlocked:"@.len() == 8 && "Shmem:"@.len() == 6);
    assert("SwapTotal:"@.len() == 10 && "Shmem:"@.len() == 6);
    assert("SwapFree:"@.len() == 9 && "Shmem:"@.len() == 6);
    assert("ZSwap:"@[0] == 'Z' && "Shmem:"@[0] == 'S');
    assert("ZSwapTotal:"@.len() == 11 && "Shmem:"@.len() == 6);
    assert("Dirty:"@[0] == 'D' && "Shmem:"@[0] == 'S');
    assert("Writeback:"@.len() == 10 && "Shmem:"@.len() == 6);
    assert("AnonPages:"@.len() == 10 && "Shmem:"@.len() == 6);
    assert("Mapped:"@.len() == 7 && "Shmem:"@.len() == 6);
    assert(meminfo_key_index_from("Shmem:"@, 22) == Some(22int));
    assert(meminfo_key_index_from("Shmem:"@, 21) == Some(22int));
    assert(meminfo_key_index_from("Shmem:"@, 20) == Some(22int));
    assert(meminfo_key_index_from("Shmem:"@, 19) == Some(22int));
    assert(meminfo_key_index_from("Shmem:"@, 18) == Some(22int));
    assert(meminfo_key_index_from("Shmem:"@, 17) == Some(22int));
    assert(meminfo_key_index_from("Shmem:"@, 16) == Some(22int));
    assert(meminfo_key_index_from("Shmem:"@, 15) == Some(22int));
    assert(meminfo_key_index_from("Shmem:"@, 14) == Some(22int));
    assert(meminfo_key_index_from("Shmem:"@, 13) == Some(22int));
    assert(meminfo_key_index_from("Shmem:"@, 12) == Some(22int));
    assert(meminfo_key_index_from("Shmem:"@, 11) == Some(22int));
    assert(meminfo_key_index_from("Shmem:"@, 10) == Some(22int));
    assert(meminfo_key_index_from("Shmem:"@, 9) == Some(22int));
    assert(meminfo_key_index_from("Shmem:"@, 8) == Some(22int));
    assert(meminfo_key_index_from("Shmem:"@, 7) == Some(22int));
    assert(meminfo_key_index_from("Shmem:"@, 6) == Some(22int));
    assert(meminfo_key_index_from("Shmem:"@, 5) == Some(22int));
    assert(meminfo_key_index_from("Shmem:"@, 4) == Some(22int));
    assert(meminfo_key_index_from("Shmem:"@, 3) == Some(22int));
    assert(meminfo_key_index_from("Shmem:"@, 2) == Some(22int));
    assert(meminfo_key_index_from("Shmem:"@, 1) == Some(22int));
    assert(meminfo_key_index_from("Shmem:"@, 0) == Some(22int));
}

proof fn lemma_key_position_23()
    ensures
        meminfo_key_index("KReclaimable:"@) == Some(23int),
{
    reveal_strlit("MemTotal:");
    reveal_strlit("MemFree:");
    reveal_strlit("MemAvailable:");
    reveal_strlit("Buffers:");
    reveal_strlit("Cached:");
    reveal_strlit("SwapCached:");
    reveal_strlit("Active:");
    reveal_strlit("Inactive:");
    reveal_strlit("Active(anon):");
    reveal_strlit("Inactive(anon):");
    reveal_strlit("Active(file):");
    reveal_strlit("Inactive(file):");
    reveal_strlit("Unevictable:");
    reveal_strlit("Mlocked:");
    reveal_strlit("SwapTotal:");
    reveal_strlit("SwapFree:");
    reveal_strlit("ZSwap:");
    reveal_strlit("ZSwapTotal:");
    reveal_strlit("Dirty:");
    reveal_strlit("Writeback:");
    reveal_strlit("AnonPages:");
    reveal_strlit("Mapped:");
    reveal_strlit("Shmem:");
    reveal_strlit("KReclaimable:");
    assert("MemTotal:"@.len() == 9 && "KReclaimable:"@.len() == 13);
    assert("MemFree:"@.len() == 8 && "KReclaimable:"@.len() == 13);
    assert("MemAvailable:"@[0] == 'M' && "KReclaimable:"@[0] == 'K');
    assert("Buffers:"@.len() == 8 && "KReclaimable:"@.len() == 13);
    assert("Cached:"@.len() == 7 && "KReclaimable:"@.len() == 13);
    assert("SwapCached:"@.len() == 11 && "KReclaimable:"@.len() == 13);
    assert("Active:"@.len() == 7 && "KReclaimable:"@.len() == 13);
    assert("Inactive:"@.len() == 9 && "KReclaimable:"@.len() == 13);
    assert("Active(anon):"@[0] == 'A' && "KReclaimable:"@[0] == 'K');
    assert("Inactive(anon):"@.len() == 15 && "KReclaimable:"@.len() == 13);
    assert("Active(file):"@[0] == 'A' && "KReclaimable:"@[0] == 'K');
    assert("Inactive(file):"@.len() == 15 && "KReclaimable:"@.len() == 13);
    assert("Unevictable:"@.len() == 12 && "KReclaimable:"@.len() == 13);
    assert("Mlocked:"@.len() == 8 && "KReclaimable:"@.len() == 13);
    assert("SwapTotal:"@.len() == 10 && "KReclaimable:"@.len() == 13);
    assert("SwapFree:"@.len() == 9 && "KReclaimable:"@.len() == 13);
    assert("ZSwap:"@.len() == 6 && "KReclaimable:"@.len() == 13);
    assert("ZSwapTotal:"@.len() == 11 && "KReclaimable:"@.len() == 13);
    assert("Dirty:"@.len() == 6 && "KReclaimable:"@.len() == 13);
    assert("Writeback:"@.len() == 10 && "KReclaimable:"@.len() == 13);
    assert("AnonPages:"@.len() == 10 && "KReclaimable:"@.len() == 13);
    assert("Mapped:"@.len() == 7 && "KReclaimable:"@.len() == 13);
    assert("Shmem:"@.len() == 6 && "KReclaimable:"@.len() == 13);
    assert(meminfo_key_index_from("KReclaimable:"@, 23) == Some(23int));
    assert(meminfo_key_index_from("KReclaimable:"@, 22) == Some(23int));
    assert(meminfo_key_index_from("KReclaimable:"@, 21) == Some(23int));
    assert(meminfo_key_index_from("KReclaimable:"@, 20) == Some(23int));
    assert(meminfo_key_index_from("KReclaimable:"@, 19) == Some(23int));
    assert(meminfo_key_index_from("KReclaimable:"@, 18) == Some(23int));
    assert(meminfo_key_index_from("KReclaimable:"@, 17) == Some(23int));
    assert(meminfo_key_index_from("KReclaimable:"@, 16) == Some(23int));
    assert(meminfo_key_index_from("KReclaimable:"@, 15) == Some(23int));
    assert(meminfo_key_index_from("KReclaimable:"@, 14) == Some(23int));
    assert(meminfo_key_index_from("KReclaimable:"@, 13) == Some(23int));
    assert(meminfo_key_index_from("KReclaimable:"@, 12) == Some(23int));
    assert(meminfo_key_index_from("KReclaimable:"@, 11) == Some(23int));
    assert(meminfo_key_index_from("KReclaimable:"@, 10) == Some(23int));
    assert(meminfo_key_index_from("KReclaimable:"@, 9) == Some(23int));
    assert(meminfo_key_index_from("KReclaimable:"@, 8) == Some(23int));
    assert(meminfo_key_index_from("KReclaimable:"@, 7) == Some(23int));
    assert(meminfo_key_index_from("KReclaimable:"@, 6) == Some(23int));
    assert(meminfo_key_index_from("KReclaimable:"@, 5) == Some(23int));
    assert(meminfo_key_index_from("KReclaimable:"@, 4) == Some(23int));
    assert(meminfo_key_index_from("KReclaimable:"@, 3) == Some(23int));
    assert(meminfo_key_index_from("KReclaimable:"@, 2) == Some(23int));
    assert(meminfo_key_index_from("KReclaimable:"@, 1) == Some(23int));
    assert(meminfo_key_index_from("KReclaimable:"@, 0) == Some(23int));
}

proof fn lemma_key_position_24()
    ensures
        meminfo_key_index("Slab:"@) == Some(24int),
{
    reveal_strlit("MemTotal:");
    reveal_strlit("MemFree:");
    reveal_strlit("MemAvailable:");
    reveal_strlit("Buffers:");
    reveal_strlit("Cached:");
    reveal_strlit("SwapCached:");
    reveal_strlit("Active:");
    reveal_strlit("Inactive:");
    reveal_strlit("Active(anon):");
    reveal_strlit("Inactive(anon):");
    reveal_strlit("Active(file):");
    reveal_strlit("Inactive(file):");
    reveal_strlit("Unevictable:");
    reveal_strlit("Mlocked:");
    reveal_strlit("SwapTotal:");
    reveal_strlit("SwapFree:");
    reveal_strlit("ZSwap:");
    reveal_strlit("ZSwapTotal:");
    reveal_strlit("Dirty:");
    reveal_strlit("Writeback:");
    reveal_strlit("AnonPages:");
    reveal_strlit("Mapped:");
    reveal_strlit("Shmem:");
    reveal_strlit("KReclaimable:");
    reveal_strlit("Slab:");
    assert("MemTotal:"@.len() == 9 && "Slab:"@.len() == 5);
    assert("MemFree:"@.len() == 8 && "Slab:"@.len() == 5);
    assert("MemAvailable:"@.len() == 13 && "Slab:"@.len() == 5);
    assert("Buffers:"@.len() == 8 && "Slab:"@.len() == 5);
    assert("Cached:"@.len() == 7 && "Slab:"@.len() == 5);
    assert("SwapCached:"@.len() == 11 && "Slab:"@.len() == 5);
    assert("Active:"@.len() == 7 && "Slab:"@.len() == 5);
    assert("Inactive:"@.len() == 9 && "Slab:"@.len() == 5);
    assert("Active(anon):"@.len() == 13 && "Slab:"@.len() == 5);
    assert("Inactive(anon):"@.len() == 15 && "Slab:"@.len() == 5);
    assert("Active(file):"@.len() == 13 && "Slab:"@.len() == 5);
    assert("Inactive(file):"@.len() == 15 && "Slab:"@.len() == 5);
    assert("Unevictable:"@.len() == 12 && "Slab:"@.len() == 5);
    assert("Mlocked:"@.len() == 8 && "Slab:"@.len() == 5);
    assert("SwapTotal:"@.len() == 10 && "Slab:"@.len() == 5);
    assert("SwapFree:"@.len() == 9 && "Slab:"@.len() == 5);
    assert("ZSwap:"@.len() == 6 && "Slab:"@.len() == 5);
    assert("ZSwapTotal:"@.len() == 11 && "Slab:"@.len() == 5);
    assert("Dirty:"@.len() == 6 && "Slab:"@.len() == 5);
    assert("Writeback:"@.len() == 10 && "Slab:"@.len() == 5);
    assert("AnonPages:"@.len() == 10 && "Slab:"@.len() == 5);
    assert("Mapped:"@.len() == 7 && "Slab:"@.len() == 5);
    assert("Shmem:"@.len() == 6 && "Slab:"@.len() == 5);
    assert("KReclaimable:"@.len() == 13 && "Slab:"@.len() == 5);
    assert(meminfo_key_index_from("Slab:"@, 24) == Some(24int));
    assert(meminfo_key_index_from("Slab:"@, 23) == Some(24int));
    assert(meminfo_key_index_from("Slab:"@, 22) == Some(24int));
    assert(meminfo_key_index_from("Slab:"@, 21) == Some(24int));
    assert(meminfo_key_index_from("Slab:"@, 20) == Some(24int));
    assert(meminfo_key_index_from("Slab:"@, 19) == Some(24int));
    assert(meminfo_key_index_from("Slab:"@, 18) == Some(24int));
    assert(meminfo_key_index_from("Slab:"@, 17) == Some(24int));
    assert(meminfo_key_index_from("Slab:"@, 16) == Some(24int));
    assert(meminfo_key_index_from("Slab:"@, 15) == Some(24int));
    assert(meminfo_key_index_from("Slab:"@, 14) == Some(24int));
    assert(meminfo_key_index_from("Slab:"@, 13) == Some(24int));
    assert(meminfo_key_index_from("Slab:"@, 12) == Some(24int));
    assert(meminfo_key_index_from("Slab:"@, 11) == Some(24int));
    assert(meminfo_key_index_from("Slab:"@, 10) == Some(24int));
    assert(meminfo_key_index_from("Slab:"@, 9) == Some(24int));
    assert(meminfo_key_index_from("Slab:"@, 8) == Some(24int));
    assert(meminfo_key_index_from("Slab:"@, 7) == Some(24int));
    assert(meminfo_key_index_from("Slab:"@, 6) == Some(24int));
    assert(meminfo_key_index_from("Slab:"@, 5) == Some(24int));
    assert(meminfo_key_index_from("Slab:"@, 4) == Some(24int));
    assert(meminfo_key_index_from("Slab:"@, 3) == Some(24int));
    assert(meminfo_key_index_from("Slab:"@, 2) == Some(24int));
    assert(meminfo_key_index_from("Slab:"@, 1) == Some(24int));
    assert(meminfo_key_index_from("Slab:"@, 0) == Some(24int));
}

proof fn lemma_key_position_25()
    ensures
        meminfo_key_index("SReclaimable:"@) == Some(25int),
{
    reveal_strlit("MemTotal:");
    reveal_strlit("MemFree:");
    reveal_strlit("MemAvailable:");
    reveal_strlit("Buffers:");
    reveal_strlit("Cached:");
    reveal_strlit("SwapCached:");
    reveal_strlit("Active:");
    reveal_strlit("Inactive:");
    reveal_strlit("Active(anon):");
    reveal_strlit("Inactive(anon):");
    reveal_strlit("Active(file):");
    reveal_strlit("Inactive(file):");
    reveal_strlit("Unevictable:");
    reveal_strlit("Mlocked:");
    reveal_strlit("SwapTotal:");
    reveal_strlit("SwapFree:");
    reveal_strlit("ZSwap:");
    reveal_strlit("ZSwapTotal:");
    reveal_strlit("Dirty:");
    reveal_strlit("Writeback:");
    reveal_strlit("AnonPages:");
    reveal_strlit("Mapped:");
    reveal_strlit("Shmem:");
    reveal_strlit("KReclaimable:");
    reveal_strlit("Slab:");
    reveal_strlit("SReclaimable:");
    assert("MemTotal:"@.len() == 9 && "SReclaimable:"@.len() == 13);
    assert("MemFree:"@.len() == 8 && "SReclaimable:"@.len() == 13);
    assert("MemAvailable:"@[0] == 'M' && "SReclaimable:"@[0] == 'S');
    assert("Buffers:"@.len() == 8 && "SReclaimable:"@.len() == 13);
    assert("Cached:"@.len() == 7 && "SReclaimable:"@.len() == 13);
    assert("SwapCached:"@.len() == 11 && "SReclaimable:"@.len() == 13);
    assert("Active:"@.len() == 7 && "SReclaimable:"@.len() == 13);
    assert("Inactive:"@.len() == 9 && "SReclaimable:"@.len() == 13);
    assert("Active(anon):"@[0] == 'A' && "SReclaimable:"@[0] == 'S');
    assert("Inactive(anon):"@.len() == 15 && "SReclaimable:"@.len() == 13);
    assert("Active(file):"@[0] == 'A' && "SReclaimable:"@[0] == 'S');
    assert("Inactive(file):"@.len() == 15 && "SReclaimable:"@.len() == 13);
    assert("Unevictable:"@.len() == 12 && "SReclaimable:"@.len() == 13);
    assert("Mlocked:"@.len() == 8 && "SReclaimable:"@.len() == 13);
    assert("SwapTotal:"@.len() == 10 && "SReclaimable:"@.len() == 13);
    assert("SwapFree:"@.len() == 9 && "SReclaimable:"@.len() == 13);
    assert("ZSwap:"@.len() == 6 && "SReclaimable:"@.len() == 13);
    assert("ZSwapTotal:"@.len() == 11 && "SReclaimable:"@.len() == 13);
    assert("Dirty:"@.len() == 6 && "SReclaimable:"@.len() == 13);
    assert("Writeback:"@.len() == 10 && "SReclaimable:"@.len() == 13);
    assert("AnonPages:"@.len() == 10 && "SReclaimable:"@.len() == 13);
    assert("Mapped:"@.len() == 7 && "SReclaimable:"@.len() == 13);
    assert("Shmem:"@.len() == 6 && "SReclaimable:"@.len() == 13);
    assert("KReclaimable:"@[0] == 'K' && "SReclaimable:"@[0] == 'S');
    assert("Slab:"@.len() == 5 && "SReclaimable:"@.len() == 13);
    assert(meminfo_key_index_from("SReclaimable:"@, 25) == Some(25int));
    assert(meminfo_key_index_from("SReclaimable:"@, 24) == Some(25int));
    assert(meminfo_key_index_from("SReclaimable:"@, 23) == Some(25int));
    assert(meminfo_key_index_from("SReclaimable:"@, 22) == Some(25int));
    assert(meminfo_key_index_from("SReclaimable:"@, 21) == Some(25int));
    assert(meminfo_key_index_from("SReclaimable:"@, 20) == Some(25int));
    assert(meminfo_key_index_from("SReclaimable:"@, 19) == Some(25int));
    assert(meminfo_key_index_from("SReclaimable:"@, 18) == Some(25int));
    assert(meminfo_key_index_from("SReclaimable:"@, 17) == Some(25int));
    assert(meminfo_key_index_from("SReclaimable:"@, 16) == Some(25int));
    assert(meminfo_key_index_from("SReclaimable:"@, 15) == Some(25int));
    assert(meminfo_key_index_from("SReclaimable:"@, 14) == Some(25int));
    assert(meminfo_key_index_from("SReclaimable:"@, 13) == Some(25int));
    assert(meminfo_key_index_from("SReclaimable:"@, 12) == Some(25int));
    assert(meminfo_key_index_from("SReclaimable:"@, 11) == Some(25int));
    assert(meminfo_key_index_from("SReclaimable:"@, 10) == Some(25int));
    assert(meminfo_key_index_from("SReclaimable:"@, 9) == Some(25int));
    assert(meminfo_key_index_from("SReclaimable:"@, 8) == Some(25int));
    assert(meminfo_key_index_from("SReclaimable:"@, 7) == Some(25int));
    assert(meminfo_key_index_from("SReclaimable:"@, 6) == Some(25int));
    assert(meminfo_key_index_from("SReclaimable:"@, 5) == Some(25int));
    assert(meminfo_key_index_from("SReclaimable:"@, 4) == Some(25int));
    assert(meminfo_key_index_from("SReclaimable:"@, 3) == Some(25int));
    assert(meminfo_key_index_from("SReclaimable:"@, 2) == Some(25int));
    assert(meminfo_key_index_from("SReclaimable:"@, 1) == Some(25int));
    assert(meminfo_key_index_from("SReclaimable:"@, 0) == Some(25int));
}

proof fn lemma_key_position_26()
    ensures
        meminfo_key_index("SUnreclaim:"@) == Some(26int),
{
    reveal_strlit("MemTotal:");
    reveal_strlit("MemFree:");
    reveal_strlit("MemAvailable:");
    reveal_strlit("Buffers:");
    reveal_strlit("Cached:");
    reveal_strlit("SwapCached:");
    reveal_strlit("Active:");
    reveal_strlit("Inactive:");
    reveal_strlit("Active(anon):");
    reveal_strlit("Inactive(anon):");
    reveal_strlit("Active(file):");
    reveal_strlit("Inactive(file):");
    reveal_strlit("Unevictable:");
    reveal_strlit("Mlocked:");
    reveal_strlit("SwapTotal:");
    reveal_strlit("SwapFree:");
    reveal_strlit("ZSwap:");
    reveal_strlit("ZSwapTotal:");
    reveal_strlit("Dirty:");
    reveal_strlit("Writeback:");
    reveal_strlit("AnonPages:");
    reveal_strlit("Mapped:");
    reveal_strlit("Shmem:");
    reveal_strlit("KReclaimable:");
    reveal_strlit("Slab:");
    reveal_strlit("SReclaimable:");
    reveal_strlit("SUnreclaim:");
    assert("MemTotal:"@.len() == 9 && "SUnreclaim:"@.len() == 11);
    assert("MemFree:"@.len() == 8 && "SUnreclaim:"@.len() == 11);
    assert("MemAvailable:"@.len() == 13 && "SUnreclaim:"@.len() == 11);
    assert("Buffers:"@.len() == 8 && "SUnreclaim:"@.len() == 11);
    assert("Cached:"@.len() == 7 && "SUnreclaim:"@.len() == 11);
    assert("SwapCached:"@[1] == 'w' && "SUnreclaim:"@[1] == 'U');
    assert("Active:"@.len() == 7 && "SUnreclaim:"@.len() == 11);
    assert("Inactive:"@.len() == 9 && "SUnreclaim:"@.len() == 11);
    assert("Active(anon):"@.len() == 13 && "SUnreclaim:"@.len() == 11);
    assert("Inactive(anon):"@.len() == 15 && "SUnreclaim:"@.len() == 11);
    assert("Active(file):"@.len() == 13 && "SUnreclaim:"@.len() == 11);
    assert("Inactive(file):"@.len() == 15 && "SUnreclaim:"@.len() == 11);
    assert("Unevictable:"@.len() == 12 && "SUnreclaim:"@.len() == 11);
    assert("Mlocked:"@.len() == 8 && "SUnreclaim:"@.len() == 11);
    assert("SwapTotal:"@.len() == 10 && "SUnreclaim:"@.len() == 11);
    assert("SwapFree:"@.len() == 9 && "SUnreclaim:"@.len() == 11);
    assert("ZSwap:"@.len() == 6 && "SUnreclaim:"@.len() == 11);
    assert("ZSwapTotal:"@[0] == 'Z' && "SUnreclaim:"@[0] == 'S');
    assert("Dirty:"@.len() == 6 && "SUnreclaim:"@.len() == 11);
    assert("Writeback:"@.len() == 10 && "SUnreclaim:"@.len() == 11);
    assert("AnonPages:"@.len() == 10 && "SUnreclaim:"@.len() == 11);
    assert("Mapped:"@.len() == 7 && "SUnreclaim:"@.len() == 11);
    assert("Shmem:"@.len() == 6 && "SUnreclaim:"@.len() == 11);
    assert("KReclaimable:"@.len() == 13 && "SUnreclaim:"@.len() == 11);
    assert("Slab:"@.len() == 5 && "SUnreclaim:"@.len() == 11);
    assert("SReclaimable:"@.len() == 13 && "SUnreclaim:"@.len() == 11);
    assert(meminfo_key_index_from("SUnreclaim:"@, 26) == Some(26int));
    assert(meminfo_key_index_from("SUnreclaim:"@, 25) == Some(26int));
    assert(meminfo_key_index_from("SUnreclaim:"@, 24) == Some(26int));
    assert(meminfo_key_index_from("SUnreclaim:"@, 23) == Some(26int));
    assert(meminfo_key_index_from("SUnreclaim:"@, 22) == Some(26int));
    assert(meminfo_key_index_from("SUnreclaim:"@, 21) == Some(26int));
    assert(meminfo_key_index_from("SUnreclaim:"@, 20) == Some(26int));
    assert(meminfo_key_index_from("SUnreclaim:"@, 19) == Some(26int));
    assert(meminfo_key_index_from("SUnreclaim:"@, 18) == Some(26int));
    assert(meminfo_key_index_from("SUnreclaim:"@, 17) == Some(26int));
    assert(meminfo_key_index_from("SUnreclaim:"@, 16) == Some(26int));
    assert(meminfo_key_index_from("SUnreclaim:"@, 15) == Some(26int));
    assert(meminfo_key_index_from("SUnreclaim:"@, 14) == Some(26int));
    assert(meminfo_key_index_from("SUnreclaim:"@, 13) == Some(26int));
    assert(meminfo_key_index_from("SUnreclaim:"@, 12) == Some(26int));
    assert(meminfo_key_index_from("SUnreclaim:"@, 11) == Some(26int));
    assert(meminfo_key_index_from("SUnreclaim:"@, 10) == Some(26int));
    assert(meminfo_key_index_from("SUnreclaim:"@, 9) == Some(26int));
    assert(meminfo_key_index_from("SUnreclaim:"@, 8) == Some(26int));
    assert(meminfo_key_index_from("SUnreclaim:"@, 7) == Some(26int));
    assert(meminfo_key_index_from("SUnreclaim:"@, 6) == Some(26int));
    assert(meminfo_key_index_from("SUnreclaim:"@, 5) == Some(26int));
    assert(meminfo_key_index_from("SUnreclaim:"@, 4) == Some(26int));
    assert(meminfo_key_index_from("SUnreclaim:"@, 3) == Some(26int));
    assert(meminfo_key_index_from("SUnreclaim:"@, 2) == Some(26int));
    assert(meminfo_key_index_from("SUnreclaim:"@, 1) == Some(26int));
    assert(meminfo_key_index_from("SUnreclaim:"@, 0) == Some(26int));
}

proof fn lemma_key_position_27()
    ensures
        meminfo_key_index("KernelStack:"@) == Some(27int),
{
    reveal_strlit("MemTotal:");
    reveal_strlit("MemFree:");
    reveal_strlit("MemAvailable:");
    reveal_strlit("Buffers:");
    reveal_strlit("Cached:");
    reveal_strlit("SwapCached:");
    reveal_strlit("Active:");
    reveal_strlit("Inactive:");
    reveal_strlit("Active(anon):");
    reveal_strlit("Inactive(anon):");
    reveal_strlit("Active(file):");
    reveal_strlit("Inactive(file):");
    reveal_strlit("Unevictable:");
    reveal_strlit("Mlocked:");
    reveal_strlit("SwapTotal:");
    reveal_strlit("SwapFree:");
    reveal_strlit("ZSwap:");
    reveal_strlit("ZSwapTotal:");
    reveal_strlit("Dirty:");
    reveal_strlit("Writeback:");
    reveal_strlit("AnonPages:");
    reveal_strlit("Mapped:");
    reveal_strlit("Shmem:");
    reveal_strlit("KReclaimable:");
    reveal_strlit("Slab:");
    reveal_strlit("SReclaimable:");
    reveal_strlit("SUnreclaim:");
    reveal_strlit("KernelStack:");
    assert("MemTotal:"@.len() == 9 && "KernelStack:"@.len() == 12);
    assert("MemFree:"@.len() == 8 && "KernelStack:"@.len() == 12);
    assert("MemAvailable:"@.len() == 13 && "KernelStack:"@.len() == 12);
    assert("Buffers:"@.len() == 8 && "KernelStack:"@.len() == 12);
    assert("Cached:"@.len() == 7 && "KernelStack:"@.len() == 12);
    assert("SwapCached:"@.len() == 11 && "KernelStack:"@.len() == 12);
    assert("Active:"@.len() == 7 && "KernelStack:"@.len() == 12);
    assert("Inactive:"@.len() == 9 && "KernelStack:"@.len() == 12);
    assert("Active(anon):"@.len() == 13 && "KernelStack:"@.len() == 12);
    assert("Inactive(anon):"@.len() == 15 && "KernelStack:"@.len() == 12);
    assert("Active(file):"@.len() == 13 && "KernelStack:"@.len() == 12);
    assert("Inactive(file):"@.len() == 15 && "KernelStack:"@.len() == 12);
    assert("Unevictable:"@[0] == 'U' && "KernelStack:"@[0] == 'K');
    assert("Mlocked:"@.len() == 8 && "KernelStack:"@.len() == 12);
    assert("SwapTotal:"@.len() == 10 && "KernelStack:"@.len() == 12);
    assert("SwapFree:"@.len() == 9 && "KernelStack:"@.len() == 12);
    assert("ZSwap:"@.len() == 6 && "KernelStack:"@.len() == 12);
    assert("ZSwapTotal:"@.len() == 11 && "KernelStack:"@.len() == 12);
    assert("Dirty:"@.len() == 6 && "KernelStack:"@.len() == 12);
    assert("Writeback:"@.len() == 10 && "KernelStack:"@.len() == 12);
    assert("AnonPages:"@.len() == 10 && "KernelStack:"@.len() == 12);
    assert("Mapped:"@.len() == 7 && "KernelStack:"@.len() == 12);
    assert("Shmem:"@.len() == 6 && "KernelStack:"@.len() == 12);
    assert("KReclaimable:"@.len() == 13 && "KernelStack:"@.len() == 12);
    assert("Slab:"@.len() == 5 && "KernelStack:"@.len() == 12);
    assert("SReclaimable:"@.len() == 13 && "KernelStack:"@.len() == 12);
    assert("SUnreclaim:"@.len() == 11 && "KernelStack:"@.len() == 12);
    assert(meminfo_key_index_from("KernelStack:"@, 27) == Some(27int));
    assert(meminfo_key_index_from("KernelStack:"@, 26) == Some(27int));
    assert(meminfo_key_index_from("KernelStack:"@, 25) == Some(27int));
    assert(meminfo_key_index_from("KernelStack:"@, 24) == Some(27int));
    assert(meminfo_key_index_from("KernelStack:"@, 23) == Some(27int));
    assert(meminfo_key_index_from("KernelStack:"@, 22) == Some(27int));
    assert(meminfo_key_index_from("KernelStack:"@, 21) == Some(27int));
    assert(meminfo_key_index_from("KernelStack:"@, 20) == Some(27int));
    assert(meminfo_key_index_from("KernelStack:"@, 19) == Some(27int));
    assert(meminfo_key_index_from("KernelStack:"@, 18) == Some(27int));
    assert(meminfo_key_index_from("KernelStack:"@, 17) == Some(27int));
    assert(meminfo_key_index_from("KernelStack:"@, 16) == Some(27int));
    assert(meminfo_key_index_from("KernelStack:"@, 15) == Some(27int));
    assert(meminfo_key_index_from("KernelStack:"@, 14) == Some(27int));
    assert(meminfo_key_index_from("KernelStack:"@, 13) == Some(27int));
    assert(meminfo_key_index_from("KernelStack:"@, 12) == Some(27int));
    assert(meminfo_key_index_from("KernelStack:"@, 11) == Some(27int));
    assert(meminfo_key_index_from("KernelStack:"@, 10) == Some(27int));
    assert(meminfo_key_index_from("KernelStack:"@, 9) == Some(27int));
    assert(meminfo_key_index_from("KernelStack:"@, 8) == Some(27int));
    assert(meminfo_key_index_from("KernelStack:"@, 7) == Some(27int));
    assert(meminfo_key_index_from("KernelStack:"@, 6) == Some(27int));
    assert(meminfo_key_index_from("KernelStack:"@, 5) == Some(27int));
    assert(meminfo_key_index_from("KernelStack:"@, 4) == Some(27int));
    assert(meminfo_key_index_from("KernelStack:"@, 3) == Some(27int));
    assert(meminfo_key_index_from("KernelStack:"@, 2) == Some(27int));
    assert(meminfo_key_index_from("KernelStack:"@, 1) == Some(27int));
    assert(meminfo_key_index_from("KernelStack:"@, 0) == Some(27int));
}

proof fn lemma_key_position_28()
    ensures
        meminfo_key_index("PageTables:"@) == Some(28int),
{
    reveal_strlit("MemTotal:");
    reveal_strlit("MemFree:");
    reveal_strlit("MemAvailable:");
    reveal_strlit("Buffers:");
    reveal_strlit("Cached:");
    reveal_strlit("SwapCached:");
    reveal_strlit("Active:");
    reveal_strlit("Inactive:");
    reveal_strlit("Active(anon):");
    reveal_strlit("Inactive(anon):");
    reveal_strlit("Active(file):");
    reveal_strlit("Inactive(file):");
    reveal_strlit("Unevictable:");
    reveal_strlit("Mlocked:");
    reveal_strlit("SwapTotal:");
    reveal_strlit("SwapFree:");
    reveal_strlit("ZSwap:");
    reveal_strlit("ZSwapTotal:");
    reveal_strlit("Dirty:");
    reveal_strlit("Writeback:");
    reveal_strlit("AnonPages:");
    reveal_strlit("Mapped:");
    reveal_strlit("Shmem:");
    reveal_strlit("KReclaimable:");
    reveal_strlit("Slab:");
    reveal_strlit("SReclaimable:");
    reveal_strlit("SUnreclaim:");
    reveal_strlit("KernelStack:");
    reveal_strlit("PageTables:");
    assert("MemTotal:"@.len() == 9 && "PageTables:"@.len() == 11);
    assert("MemFree:"@.len() == 8 && "PageTables:"@.len() == 11);
    assert("MemAvailable:"@.len() == 13 && "PageTables:"@.len() == 11);
    assert("Buffers:"@.len() == 8 && "PageTables:"@.len() == 11);
    assert("Cached:"@.len() == 7 && "PageTables:"@.len() == 11);
    assert("SwapCached:"@[0] == 'S' && "PageTables:"@[0] == 'P');
    assert("Active:"@.len() == 7 && "PageTables:"@.len() == 11);
    assert("Inactive:"@.len() == 9 && "PageTables:"@.len() == 11);
    assert("Active(anon):"@.len() == 13 && "PageTables:"@.len() == 11);
    assert("Inactive(anon):"@.len() == 15 && "PageTables:"@.len() == 11);
    assert("Active(file):"@.len() == 13 && "PageTables:"@.len() == 11);
    assert("Inactive(file):"@.len() == 15 && "PageTables:"@.len() == 11);
    assert("Unevictable:"@.len() == 12 && "PageTables:"@.len() == 11);
    assert("Mlocked:"@.len() == 8 && "PageTables:"@.len() == 11);
    assert("SwapTotal:"@.len() == 10 && "PageTables:"@.len() == 11);
    assert("SwapFree:"@.len() == 9 && "PageTables:"@.len() == 11);
    assert("ZSwap:"@.len() == 6 && "PageTables:"@.len() == 11);
    assert("ZSwapTotal:"@[0] == 'Z' && "PageTables:"@[0] == 'P');
    assert("Dirty:"@.len() == 6 && "PageTables:"@.len() == 11);
    assert("Writeback:"@.len() == 10 && "PageTables:"@.len() == 11);
    assert("AnonPages:"@.len() == 10 && "PageTables:"@.len() == 11);
    assert("Mapped:"@.len() == 7 && "PageTables:"@.len() == 11);
    assert("Shmem:"@.len() == 6 && "PageTables:"@.len() == 11);
    assert("KReclaimable:"@.len() == 13 && "PageTables:"@.len() == 11);
    assert("Slab:"@.len() == 5 && "PageTables:"@.len() == 11);
    assert("SReclaimable:"@.len() == 13 && "PageTables:"@.len() == 11);
    assert("SUnreclaim:"@[0] == 'S' && "PageTables:"@[0] == 'P');
    assert("KernelStack:"@.len() == 12 && "PageTables:"@.len() == 11);
    assert(meminfo_key_index_from("PageTables:"@, 28) == Some(28int));
    assert(meminfo_key_index_from("PageTables:"@, 27) == Some(28int));
    assert(meminfo_key_index_from("PageTables:"@, 26) == Some(28int));
    assert(meminfo_key_index_from("PageTables:"@, 25) == Some(28int));
    assert(meminfo_key_index_from("PageTables:"@, 24) == Some(28int));
    assert(meminfo_key_index_from("PageTables:"@, 23) == Some(28int));
    assert(meminfo_key_index_from("PageTables:"@, 22) == Some(28int));
    assert(meminfo_key_index_from("PageTables:"@, 21) == Some(28int));
    assert(meminfo_key_index_from("PageTables:"@, 20) == Some(28int));
    assert(meminfo_key_index_from("PageTables:"@, 19) == Some(28int));
    assert(meminfo_key_index_from("PageTables:"@, 18) == Some(28int));
    assert(meminfo_key_index_from("PageTables:"@, 17) == Some(28int));
    assert(meminfo_key_index_from("PageTables:"@, 16) == Some(28int));
    assert(meminfo_key_index_from("PageTables:"@, 15) == Some(28int));
    assert(meminfo_key_index_from("PageTables:"@, 14) == Some(28int));
    assert(meminfo_key_index_from("PageTables:"@, 13) == Some(28int));
    assert(meminfo_key_index_from("PageTables:"@, 12) == Some(28int));
    assert(meminfo_key_index_from("PageTables:"@, 11) == Some(28int));
    assert(meminfo_key_index_from("PageTables:"@, 10) == Some(28int));
    assert(meminfo_key_index_from("PageTables:"@, 9) == Some(28int));
    assert(meminfo_key_index_from("PageTables:"@, 8) == Some(28int));
    assert(meminfo_key_index_from("PageTables:"@, 7) == Some(28int));
    assert(meminfo_key_index_from("PageTables:"@, 6) == Some(28int));
    assert(meminfo_key_index_from("PageTables:"@, 5) == Some(28int));
    assert(meminfo_key_index_from("PageTables:"@, 4) == Some(28int));
    assert(meminfo_key_index_from("PageTables:"@, 3) == Some(28int));
    assert(meminfo_key_index_from("PageTables:"@, 2) == Some(28int));
    assert(meminfo_key_index_from("PageTables:"@, 1) == Some(28int));
    assert(meminfo_key_index_from("PageTables:"@, 0) == Some(28int));
}

proof fn lemma_key_position_29()
    ensures
        meminfo_key_index("SecMemTables:"@) == Some(29int),
{
    reveal_strlit("MemTotal:");
    reveal_strlit("MemFree:");
    reveal_strlit("MemAvailable:");
    reveal_strlit("Buffers:");
    reveal_strlit("Cached:");
    reveal_strlit("SwapCached:");
    reveal_strlit("Active:");
    reveal_strlit("Inactive:");
    reveal_strlit("Active(anon):");
    reveal_strlit("Inactive(anon):");
    reveal_strlit("Active(file):");
    reveal_strlit("Inactive(file):");
    reveal_strlit("Unevictable:");
    reveal_strlit("Mlocked:");
    reveal_strlit("SwapTotal:");
    reveal_strlit("SwapFree:");
    reveal_strlit("ZSwap:");
    reveal_strlit("ZSwapTotal:");
    reveal_strlit("Dirty:");
    reveal_strlit("Writeback:");
    reveal_strlit("AnonPages:");
    reveal_strlit("Mapped:");
    reveal_strlit("Shmem:");
    reveal_strlit("KReclaimable:");
    reveal_strlit("Slab:");
    reveal_strlit("SReclaimable:");
    reveal_strlit("SUnreclaim:");
    reveal_strlit("KernelStack:");
    reveal_strlit("PageTables:");
    reveal_strlit("SecMemTables:");
    assert("MemTotal:"@.len() == 9 && "SecMemTables:"@.len() == 13);
    assert("MemFree:"@.len() == 8 && "SecMemTables:"@.len() == 13);
    assert("MemAvailable:"@[0] == 'M' && "SecMemTables:"@[0] == 'S');
    assert("Buffers:"@.len() == 8 && "SecMemTables:"@.len() == 13);
    assert("Cached:"@.len() == 7 && "SecMemTables:"@.len() == 13);
    assert("SwapCached:"@.len() == 11 && "SecMemTables:"@.len() == 13);
    assert("Active:"@.len() == 7 && "SecMemTables:"@.len() == 13);
    assert("Inactive:"@.len() == 9 && "SecMemTables:"@.len() == 13);
    assert("Active(anon):"@[0] == 'A' && "SecMemTables:"@[0] == 'S');
    assert("Inactive(anon):"@.len() == 15 && "SecMemTables:"@.len() == 13);
    assert("Active(file):"@[0] == 'A' && "SecMemTables:"@[0] == 'S');
    assert("Inactive(file):"@.len() == 15 && "SecMemTables:"@.len() == 13);
    assert("Unevictable:"@.len() == 12 && "SecMemTables:"@.len() == 13);
    assert("Mlocked:"@.len() == 8 && "SecMemTables:"@.len() == 13);
    assert("SwapTotal:"@.len() == 10 && "SecMemTables:"@.len() == 13);
    assert("SwapFree:"@.len() == 9 && "SecMemTables:"@.len() == 13);
    assert("ZSwap:"@.len() == 6 && "SecMemTables:"@.len() == 13);
    assert("ZSwapTotal:"@.len() == 11 && "SecMemTables:"@.len() == 13);
    assert("Dirty:"@.len() == 6 && "SecMemTables:"@.len() == 13);
    assert("Writeback:"@.len() == 10 && "SecMemTables:"@.len() == 13);
    assert("AnonPages:"@.len() == 10 && "SecMemTables:"@.len() == 13);
    assert("Mapped:"@.len() == 7 && "SecMemTables:"@.len() == 13);
    assert("Shmem:"@.len() == 6 && "SecMemTables:"@.len() == 13);
    assert("KReclaimable:"@[0] == 'K' && "SecMemTables:"@[0] == 'S');
    assert("Slab:"@.len() == 5 && "SecMemTables:"@.len() == 13);
    assert("SReclaimable:"@[1] == 'R' && "SecMemTables:"@[1] == 'e');
    assert("SUnreclaim:"@.len() == 11 && "SecMemTables:"@.len() == 13);
    assert("KernelStack:"@.len() == 12 && "SecMemTables:"@.len() == 13);
    assert("PageTables:"@.len() == 11 && "SecMemTables:"@.len() == 13);
    assert(meminfo_key_index_from("SecMemTables:"@, 29) == Some(29int));
    assert(meminfo_key_index_from("SecMemTables:"@, 28) == Some(29int));
    assert(meminfo_key_index_from("SecMemTables:"@, 27) == Some(29int));
    assert(meminfo_key_index_from("SecMemTables:"@, 26) == Some(29int));
    assert(meminfo_key_index_from("SecMemTables:"@, 25) == Some(29int));
    assert(meminfo_key_index_from("SecMemTables:"@, 24) == Some(29int));
    assert(meminfo_key_index_from("SecMemTables:"@, 23) == Some(29int));
    assert(meminfo_key_index_from("SecMemTables:"@, 22) == Some(29int));
    assert(meminfo_key_index_from("SecMemTables:"@, 21) == Some(29int));
    assert(meminfo_key_index_from("SecMemTables:"@, 20) == Some(29int));
    assert(meminfo_key_index_from("SecMemTables:"@, 19) == Some(29int));
    assert(meminfo_key_index_from("SecMemTables:"@, 18) == Some(29int));
    assert(meminfo_key_index_from("SecMemTables:"@, 17) == Some(29int));
    assert(meminfo_key_index_from("SecMemTables:"@, 16) == Some(29int));
    assert(meminfo_key_index_from("SecMemTables:"@, 15) == Some(29int));
    assert(meminfo_key_index_from("SecMemTables:"@, 14) == Some(29int));
    assert(meminfo_key_index_from("SecMemTables:"@, 13) == Some(29int));
    assert(meminfo_key_index_from("SecMemTables:"@, 12) == Some(29int));
    assert(meminfo_key_index_from("SecMemTables:"@, 11) == Some(29int));
    assert(meminfo_key_index_from("SecMemTables:"@, 10) == Some(29int));
    assert(meminfo_key_index_from("SecMemTables:"@, 9) == Some(29int));
    assert(meminfo_key_index_from("SecMemTables:"@, 8) == Some(29int));
    assert(meminfo_key_index_from("SecMemTables:"@, 7) == Some(29int));
    assert(meminfo_key_index_from("SecMemTables:"@, 6) == Some(29int));
    assert(meminfo_key_index_from("SecMemTables:"@, 5) == Some(29int));
    assert(meminfo_key_index_from("SecMemTables:"@, 4) == Some(29int));
    assert(meminfo_key_index_from("SecMemTables:"@, 3) == Some(29int));
    assert(meminfo_key_index_from("SecMemTables:"@, 2) == Some(29int));
    assert(meminfo_key_index_from("SecMemTables:"@, 1) == Some(29int));
    assert(meminfo_key_index_from("SecMemTables:"@, 0) == Some(29int));
}

proof fn lemma_key_position_30()
    ensures
        meminfo_key_index("NFS_Unstable:"@) == Some(30int),
{
    reveal_strlit("MemTotal:");
    reveal_strlit("MemFree:");
    reveal_strlit("MemAvailable:");
    reveal_strlit("Buffers:");
    reveal_strlit("Cached:");
    reveal_strlit("SwapCached:");
    reveal_strlit("Active:");
    reveal_strlit("Inactive:");
    reveal_strlit("Active(anon):");
    reveal_strlit("Inactive(anon):");
    reveal_strlit("Active(file):");
    reveal_strlit("Inactive(file):");
    reveal_strlit("Unevictable:");
    reveal_strlit("Mlocked:");
    reveal_strlit("SwapTotal:");
    reveal_strlit("SwapFree:");
    reveal_strlit("ZSwap:");
    reveal_strlit("ZSwapTotal:");
    reveal_strlit("Dirty:");
    reveal_strlit("Writeback:");
    reveal_strlit("AnonPages:");
    reveal_strlit("Mapped:");
    reveal_strlit("Shmem:");
    reveal_strlit("KReclaimable:");
    reveal_strlit("Slab:");
    reveal_strlit("SReclaimable:");
    reveal_strlit("SUnreclaim:");
    reveal_strlit("KernelStack:");
    reveal_strlit("PageTables:");
    reveal_strlit("SecMemTables:");
    reveal_strlit("NFS_Unstable:");
    assert("MemTotal:"@.len() == 9 && "NFS_Unstable:"@.len() == 13);
    assert("MemFree:"@.len() == 8 && "NFS_Unstable:"@.len() == 13);
    assert("MemAvailable:"@[0] == 'M' && "NFS_Unstable:"@[0] == 'N');
    assert("Buffers:"@.len() == 8 && "NFS_Unstable:"@.len() == 13);
    assert("Cached:"@.len() == 7 && "NFS_Unstable:"@.len() == 13);
    assert("SwapCached:"@.len() == 11 && "NFS_Unstable:"@.len() == 13);
    assert("Active:"@.len() == 7 && "NFS_Unstable:"@.len() == 13);
    assert("Inactive:"@.len() == 9 && "NFS_Unstable:"@.len() == 13);
    assert("Active(anon):"@[0] == 'A' && "NFS_Unstable:"@[0] == 'N');
    assert("Inactive(anon):"@.len() == 15 && "NFS_Unstable:"@.len() == 13);
    assert("Active(file):"@[0] == 'A' && "NFS_Unstable:"@[0] == 'N');
    assert("Inactive(file):"@.len() == 15 && "NFS_Unstable:"@.len() == 13);
    assert("Unevictable:"@.len() == 12 && "NFS_Unstable:"@.len() == 13);
    assert("Mlocked:"@.len() == 8 && "NFS_Unstable:"@.len() == 13);
    assert("SwapTotal:"@.len() == 10 && "NFS_Unstable:"@.len() == 13);
    assert("SwapFree:"@.len() == 9 && "NFS_Unstable:"@.len() == 13);
    assert("ZSwap:"@.len() == 6 && "NFS_Unstable:"@.len() == 13);
    assert("ZSwapTotal:"@.len() == 11 && "NFS_Unstable:"@.len() == 13);
    assert("Dirty:"@.len() == 6 && "NFS_Unstable:"@.len() == 13);
    assert("Writeback:"@.len() == 10 && "NFS_Unstable:"@.len() == 13);
    assert("AnonPages:"@.len() == 10 && "NFS_Unstable:"@.len() == 13);
    assert("Mapped:"@.len() == 7 && "NFS_Unstable:"@.len() == 13);
    assert("Shmem:"@.len() == 6 && "NFS_Unstable:"@.len() == 13);
    assert("KReclaimable:"@[0] == 'K' && "NFS_Unstable:"@[0] == 'N');
    assert("Slab:"@.len() == 5 && "NFS_Unstable:"@.len() == 13);
    assert("SReclaimable:"@[0] == 'S' && "NFS_Unstable:"@[0] == 'N');
    assert("SUnreclaim:"@.len() == 11 && "NFS_Unstable:"@.len() == 13);
    assert("KernelStack:"@.len() == 12 && "NFS_Unstable:"@.len() == 13);
    assert("PageTables:"@.len() == 11 && "NFS_Unstable:"@.len() == 13);
    assert("SecMemTables:"@[0] == 'S' && "NFS_Unstable:"@[0] == 'N');
    assert(meminfo_key_index_from("NFS_Unstable:"@, 30) == Some(30int));
    assert(meminfo_key_index_from("NFS_Unstable:"@, 29) == Some(30int));
    assert(meminfo_key_index_from("NFS_Unstable:"@, 28) == Some(30int));
    assert(meminfo_key_index_from("NFS_Unstable:"@, 27) == Some(30int));
    assert(meminfo_key_index_from("NFS_Unstable:"@, 26) == Some(30int));
    assert(meminfo_key_index_from("NFS_Unstable:"@, 25) == Some(30int));
    assert(meminfo_key_index_from("NFS_Unstable:"@, 24) == Some(30int));
    assert(meminfo_key_index_from("NFS_Unstable:"@, 23) == Some(30int));
    assert(meminfo_key_index_from("NFS_Unstable:"@, 22) == Some(30int));
    assert(meminfo_key_index_from("NFS_Unstable:"@, 21) == Some(30int));
    assert(meminfo_key_index_from("NFS_Unstable:"@, 20) == Some(30int));
    assert(meminfo_key_index_from("NFS_Unstable:"@, 19) == Some(30int));
    assert(meminfo_key_index_from("NFS_Unstable:"@, 18) == Some(30int));
    assert(meminfo_key_index_from("NFS_Unstable:"@, 17) == Some(30int));
    assert(meminfo_key_index_from("NFS_Unstable:"@, 16) == Some(30int));
    assert(meminfo_key_index_from("NFS_Unstable:"@, 15) == Some(30int));
    assert(meminfo_key_index_from("NFS_Unstable:"@, 14) == Some(30int));
    assert(meminfo_key_index_from("NFS_Unstable:"@, 13) == Some(30int));
    assert(meminfo_key_index_from("NFS_Unstable:"@, 12) == Some(30int));
    assert(meminfo_key_index_from("NFS_Unstable:"@, 11) == Some(30int));
    assert(meminfo_key_index_from("NFS_Unstable:"@, 10) == Some(30int));
    assert(meminfo_key_index_from("NFS_Unstable:"@, 9) == Some(30int));
    assert(meminfo_key_index_from("NFS_Unstable:"@, 8) == Some(30int));
    assert(meminfo_key_index_from("NFS_Unstable:"@, 7) == Some(30int));
    assert(meminfo_key_index_from("NFS_Unstable:"@, 6) == Some(30int));
    assert(meminfo_key_index_from("NFS_Unstable:"@, 5) == Some(30int));
    assert(meminfo_key_index_from("NFS_Unstable:"@, 4) == Some(30int));
    assert(meminfo_key_index_from("NFS_Unstable:"@, 3) == Some(30int));
    assert(meminfo_key_index_from("NFS_Unstable:"@, 2) == Some(30int));
    assert(meminfo_key_index_from("NFS_Unstable:"@, 1) == Some(30int));
    assert(meminfo_key_index_from("NFS_Unstable:"@, 0) == Some(30int));
}

proof fn lemma_key_position_31()
    ensures
        meminfo_key_index("Bounce:"@) == Some(31int),
{
    reveal_strlit("MemTotal:");
    reveal_strlit("MemFree:");
    reveal_strlit("MemAvailable:");
    reveal_strlit("Buffers:");
    reveal_strlit("Cached:");
    reveal_strlit("SwapCached:");
    reveal_strlit("Active:");
    reveal_strlit("Inactive:");
    reveal_strlit("Active(anon):");
    reveal_strlit("Inactive(anon):");
    reveal_strlit("Active(file):");
    reveal_strlit("Inactive(file):");
    reveal_strlit("Unevictable:");
    reveal_strlit("Mlocked:");
    reveal_strlit("SwapTotal:");
    reveal_strlit("SwapFree:");
    reveal_strlit("ZSwap:");
    reveal_strlit("ZSwapTotal:");
    reveal_strlit("Dirty:");
    reveal_strlit("Writeback:");
    reveal_strlit("AnonPages:");
    reveal_strlit("Mapped:");
    reveal_strlit("Shmem:");
    reveal_strlit("KReclaimable:");
    reveal_strlit("Slab:");
    reveal_strlit("SReclaimable:");
    reveal_strlit("SUnreclaim:");
    reveal_strlit("KernelStack:");
    reveal_strlit("PageTables:");
    reveal_strlit("SecMemTables:");
    reveal_strlit("NFS_Unstable:");
    reveal_strlit("Bounce:");
    assert("MemTotal:"@.len() == 9 && "Bounce:"@.len() == 7);
    assert("MemFree:"@.len() == 8 && "Bounce:"@.len() == 7);
    assert("MemAvailable:"@.len() == 13 && "Bounce:"@.len() == 7);
    assert("Buffers:"@.len() == 8 && "Bounce:"@.len() == 7);
    assert("Cached:"@[0] == 'C' && "Bounce:"@[0] == 'B');
    assert("SwapCached:"@.len() == 11 && "Bounce:"@.len() == 7);
    assert("Active:"@[0] == 'A' && "Bounce:"@[0] == 'B');
    assert("Inactive:"@.len() == 9 && "Bounce:"@.len() == 7);
    assert("Active(anon):"@.len() == 13 && "Bounce:"@.len() == 7);
    assert("Inactive(anon):"@.len() == 15 && "Bounce:"@.len() == 7);
    assert("Active(file):"@.len() == 13 && "Bounce:"@.len() == 7);
    assert("Inactive(file):"@.len() == 15 && "Bounce:"@.len() == 7);
    assert("Unevictable:"@.len() == 12 && "Bounce:"@.len() == 7);
    assert("Mlocked:"@.len() == 8 && "Bounce:"@.len() == 7);
    assert("SwapTotal:"@.len() == 10 && "Bounce:"@.len() == 7);
    assert("SwapFree:"@.len() == 9 && "Bounce:"@.len() == 7);
    assert("ZSwap:"@.len() == 6 && "Bounce:"@.len() == 7);
    assert("ZSwapTotal:"@.len() == 11 && "Bounce:"@.len() == 7);
    assert("Dirty:"@.len() == 6 && "Bounce:"@.len() == 7);
    assert("Writeback:"@.len() == 10 && "Bounce:"@.len() == 7);
    assert("AnonPages:"@.len() == 10 && "Bounce:"@.len() == 7);
    assert("Mapped:"@[0] == 'M' && "Bounce:"@[0] == 'B');
    assert("Shmem:"@.len() == 6 && "Bounce:"@.len() == 7);
    assert("KReclaimable:"@.len() == 13 && "Bounce:"@.len() == 7);
    assert("Slab:"@.len() == 5 && "Bounce:"@.len() == 7);
    assert("SReclaimable:"@.len() == 13 && "Bounce:"@.len() == 7);
    assert("SUnreclaim:"@.len() == 11 && "Bounce:"@.len() == 7);
    assert("KernelStack:"@.len() == 12 && "Bounce:"@.len() == 7);
    assert("PageTables:"@.len() == 11 && "Bounce:"@.len() == 7);
    assert("SecMemTables:"@.len() == 13 && "Bounce:"@.len() == 7);
    assert("NFS_Unstable:"@.len() == 13 && "Bounce:"@.len() == 7);
    assert(meminfo_key_index_from("Bounce:"@, 31) == Some(31int));
    assert(meminfo_key_index_from("Bounce:"@, 30) == Some(31int));
    assert(meminfo_key_index_from("Bounce:"@, 29) == Some(31int));
    assert(meminfo_key_index_from("Bounce:"@, 28) == Some(31int));
    assert(meminfo_key_index_from("Bounce:"@, 27) == Some(31int));
    assert(meminfo_key_index_from("Bounce:"@, 26) == Some(31int));
    assert(meminfo_key_index_from("Bounce:"@, 25) == Some(31int));
    assert(meminfo_key_index_from("Bounce:"@, 24) == Some(31int));
    assert(meminfo_key_index_from("Bounce:"@, 23) == Some(31int));
    assert(meminfo_key_index_from("Bounce:"@, 22) == Some(31int));
    assert(meminfo_key_index_from("Bounce:"@, 21) == Some(31int));
    assert(meminfo_key_index_from("Bounce:"@, 20) == Some(31int));
    assert(meminfo_key_index_from("Bounce:"@, 19) == Some(31int));
    assert(meminfo_key_index_from("Bounce:"@, 18) == Some(31int));
    assert(meminfo_key_index_from("Bounce:"@, 17) == Some(31int));
    assert(meminfo_key_index_from("Bounce:"@, 16) == Some(31int));
    assert(meminfo_key_index_from("Bounce:"@, 15) == Some(31int));
    assert(meminfo_key_index_from("Bounce:"@, 14) == Some(31int));
    assert(meminfo_key_index_from("Bounce:"@, 13) == Some(31int));
    assert(meminfo_key_index_from("Bounce:"@, 12) == Some(31int));
    assert(meminfo_key_index_from("Bounce:"@, 11) == Some(31int));
    assert(meminfo_key_index_from("Bounce:"@, 10) == Some(31int));
    assert(meminfo_key_index_from("Bounce:"@, 9) == Some(31int));
    assert(meminfo_key_index_from("Bounce:"@, 8) == Some(31int));
    assert(meminfo_key_index_from("Bounce:"@, 7) == Some(31int));
    assert(meminfo_key_index_from("Bounce:"@, 6) == Some(31int));
    assert(meminfo_key_index_from("Bounce:"@, 5) == Some(31int));
    assert(meminfo_key_index_from("Bounce:"@, 4) == Some(31int));
    assert(meminfo_key_index_from("Bounce:"@, 3) == Some(31int));
    assert(meminfo_key_index_from("Bounce:"@, 2) == Some(31int));
    assert(meminfo_key_index_from("Bounce:"@, 1) == Some(31int));
    assert(meminfo_key_index_from("Bounce:"@, 0) == Some(31int));
}

proof fn lemma_key_position_32()
    ensures
        meminfo_key_index("WritebackTmp:"@) == Some(32int),
{
    reveal_strlit("MemTotal:");
    reveal_strlit("MemFree:");
    reveal_strlit("MemAvailable:");
    reveal_strlit("Buffers:");
    reveal_strlit("Cached:");
    reveal_strlit("SwapCached:");
    reveal_strlit("Active:");
    reveal_strlit("Inactive:");
    reveal_strlit("Active(anon):");
    reveal_strlit("Inactive(anon):");
    reveal_strlit("Active(file):");
    reveal_strlit("Inactive(file):");
    reveal_strlit("Unevictable:");
    reveal_strlit("Mlocked:");
    reveal_strlit("SwapTotal:");
    reveal_strlit("SwapFree:");
    reveal_strlit("ZSwap:");
    reveal_strlit("ZSwapTotal:");
    reveal_strlit("Dirty:");
    reveal_strlit("Writeback:");
    reveal_strlit("AnonPages:");
    reveal_strlit("Mapped:");
    reveal_strlit("Shmem:");
    reveal_strlit("KReclaimable:");
    reveal_strlit("Slab:");
    reveal_strlit("SReclaimable:");
    reveal_strlit("SUnreclaim:");
    reveal_strlit("KernelStack:");
    reveal_strlit("PageTables:");
    reveal_strlit("SecMemTables:");
    reveal_strlit("NFS_Unstable:");
    reveal_strlit("Bounce:");
    reveal_strlit("WritebackTmp:");
    assert("MemTotal:"@.len() == 9 && "WritebackTmp:"@.len() == 13);
    assert("MemFree:"@.len() == 8 && "WritebackTmp:"@.len() == 13);
    assert("MemAvailable:"@[0] == 'M' && "WritebackTmp:"@[0] == 'W');
    assert("Buffers:"@.len() == 8 && "WritebackTmp:"@.len() == 13);
    assert("Cached:"@.len() == 7 && "WritebackTmp:"@.len() == 13);
    assert("SwapCached:"@.len() == 11 && "WritebackTmp:"@.len() == 13);
    assert("Active:"@.len() == 7 && "WritebackTmp:"@.len() == 13);
    assert("Inactive:"@.len() == 9 && "WritebackTmp:"@.len() == 13);
    assert("Active(anon):"@[0] == 'A' && "WritebackTmp:"@[0] == 'W');
    assert("Inactive(anon):"@.len() == 15 && "WritebackTmp:"@.len() == 13);
    assert("Active(file):"@[0] == 'A' && "WritebackTmp:"@[0] == 'W');
    assert("Inactive(file):"@.len() == 15 && "WritebackTmp:"@.len() == 13);
    assert("Unevictable:"@.len() == 12 && "WritebackTmp:"@.len() == 13);
    assert("Mlocked:"@.len() == 8 && "WritebackTmp:"@.len() == 13);
    assert("SwapTotal:"@.len() == 10 && "WritebackTmp:"@.len() == 13);
    assert("SwapFree:"@.len() == 9 && "WritebackTmp:"@.len() == 13);
    assert("ZSwap:"@.len() == 6 && "WritebackTmp:"@.len() == 13);
    assert("ZSwapTotal:"@.len() == 11 && "WritebackTmp:"@.len() == 13);
    assert("Dirty:"@.len() == 6 && "WritebackTmp:"@.len() == 13);
    assert("Writeback:"@.len() == 10 && "WritebackTmp:"@.len() == 13);
    assert("AnonPages:"@.len() == 10 && "WritebackTmp:"@.len() == 13);
    assert("Mapped:"@.len() == 7 && "WritebackTmp:"@.len() == 13);
    assert("Shmem:"@.len() == 6 && "WritebackTmp:"@.len() == 13);
    assert("KReclaimable:"@[0] == 'K' && "WritebackTmp:"@[0] == 'W');
    assert("Slab:"@.len() == 5 && "WritebackTmp:"@.len() == 13);
    assert("SReclaimable:"@[0] == 'S' && "WritebackTmp:"@[0] == 'W');
    assert("SUnreclaim:"@.len() == 11 && "WritebackTmp:"@.len() == 13);
    assert("KernelStack:"@.len() == 12 && "WritebackTmp:"@.len() == 13);
    assert("PageTables:"@.len() == 11 && "WritebackTmp:"@.len() == 13);
    assert("SecMemTables:"@[0] == 'S' && "WritebackTmp:"@[0] == 'W');
    assert("NFS_Unstable:"@[0] == 'N' && "WritebackTmp:"@[0] == 'W');
    assert("Bounce:"@.len() == 7 && "WritebackTmp:"@.len() == 13);
    assert(meminfo_key_index_from("WritebackTmp:"@, 32) == Some(32int));
    assert(meminfo_key_index_from("WritebackTmp:"@, 31) == Some(32int));
    assert(meminfo_key_index_from("WritebackTmp:"@, 30) == Some(32int));
    assert(meminfo_key_index_from("WritebackTmp:"@, 29) == Some(32int));
    assert(meminfo_key_index_from("WritebackTmp:"@, 28) == Some(32int));
    assert(meminfo_key_index_from("WritebackTmp:"@, 27) == Some(32int));
    assert(meminfo_key_index_from("WritebackTmp:"@, 26) == Some(32int));
    assert(meminfo_key_index_from("WritebackTmp:"@, 25) == Some(32int));
    assert(meminfo_key_index_from("WritebackTmp:"@, 24) == Some(32int));
    assert(meminfo_key_index_from("WritebackTmp:"@, 23) == Some(32int));
    assert(meminfo_key_index_from("WritebackTmp:"@, 22) == Some(32int));
    assert(meminfo_key_index_from("WritebackTmp:"@, 21) == Some(32int));
    assert(meminfo_key_index_from("WritebackTmp:"@, 20) == Some(32int));
    assert(meminfo_key_index_from("WritebackTmp:"@, 19) == Some(32int));
    assert(meminfo_key_index_from("WritebackTmp:"@, 18) == Some(32int));
    assert(meminfo_key_index_from("WritebackTmp:"@, 17) == Some(32int));
    assert(meminfo_key_index_from("WritebackTmp:"@, 16) == Some(32int));
    assert(meminfo_key_index_from("WritebackTmp:"@, 15) == Some(32int));
    assert(meminfo_key_index_from("WritebackTmp:"@, 14) == Some(32int));
    assert(meminfo_key_index_from("WritebackTmp:"@, 13) == Some(32int));
    assert(meminfo_key_index_from("WritebackTmp:"@, 12) == Some(32int));
    assert(meminfo_key_index_from("WritebackTmp:"@, 11) == Some(32int));
    assert(meminfo_key_index_from("WritebackTmp:"@, 10) == Some(32int));
    assert(meminfo_key_index_from("WritebackTmp:"@, 9) == Some(32int));
    assert(meminfo_key_index_from("WritebackTmp:"@, 8) == Some(32int));
    assert(meminfo_key_index_from("WritebackTmp:"@, 7) == Some(32int));
    assert(meminfo_key_index_from("WritebackTmp:"@, 6) == Some(32int));
    assert(meminfo_key_index_from("WritebackTmp:"@, 5) == Some(32int));
    assert(meminfo_key_index_from("WritebackTmp:"@, 4) == Some(32int));
    assert(meminfo_key_index_from("WritebackTmp:"@, 3) == Some(32int));
    assert(meminfo_key_index_from("WritebackTmp:"@, 2) == Some(32int));
    assert(meminfo_key_index_from("WritebackTmp:"@, 1) == Some(32int));
    assert(meminfo_key_index_from("WritebackTmp:"@, 0) == Some(32int));
}

proof fn lemma_key_position_33()
    ensures
        meminfo_key_index("CommitLimit:"@) == Some(33int),
{
    reveal_strlit("MemTotal:");
    reveal_strlit("MemFree:");
    reveal_strlit("MemAvailable:");
    reveal_strlit("Buffers:");
    reveal_strlit("Cached:");
    reveal_strlit("SwapCached:");
    reveal_strlit("Active:");
    reveal_strlit("Inactive:");
    reveal_strlit("Active(anon):");
    reveal_strlit("Inactive(anon):");
    reveal_strlit("Active(file):");
    reveal_strlit("Inactive(file):");
    reveal_strlit("Unevictable:");
    reveal_strlit("Mlocked:");
    reveal_strlit("SwapTotal:");
    reveal_strlit("SwapFree:");
    reveal_strlit("ZSwap:");
    reveal_strlit("ZSwapTotal:");
    reveal_strlit("Dirty:");
    reveal_strlit("Writeback:");
    reveal_strlit("AnonPages:");
    reveal_strlit("Mapped:");
    reveal_strlit("Shmem:");
    reveal_strlit("KReclaimable:");
    reveal_strlit("Slab:");
    reveal_strlit("SReclaimable:");
    reveal_strlit("SUnreclaim:");
    reveal_strlit("KernelStack:");
    reveal_strlit("PageTables:");
    reveal_strlit("SecMemTables:");
    reveal_strlit("NFS_Unstable:");
    reveal_strlit("Bounce:");
    reveal_strlit("WritebackTmp:");
    reveal_strlit("CommitLimit:");
    assert("MemTotal:"@.len() == 9 && "CommitLimit:"@.len() == 12);
    assert("MemFree:"@.len() == 8 && "CommitLimit:"@.len() == 12);
    assert("MemAvailable:"@.len() == 13 && "CommitLimit:"@.len() == 12);
    assert("Buffers:"@.len() == 8 && "CommitLimit:"@.len() == 12);
    assert("Cached:"@.len() == 7 && "CommitLimit:"@.len() == 12);
    assert("SwapCached:"@.len() == 11 && "CommitLimit:"@.len() == 12);
    assert("Active:"@.len() == 7 && "CommitLimit:"@.len() == 12);
    assert("Inactive:"@.len() == 9 && "CommitLimit:"@.len() == 12);
    assert("Active(anon):"@.len() == 13 && "CommitLimit:"@.len() == 12);
    assert("Inactive(anon):"@.len() == 15 && "CommitLimit:"@.len() == 12);
    assert("Active(file):"@.len() == 13 && "CommitLimit:"@.len() == 12);
    assert("Inactive(file):"@.len() == 15 && "CommitLimit:"@.len() == 12);
    assert("Unevictable:"@[0] == 'U' && "CommitLimit:"@[0] == 'C');
    assert("Mlocked:"@.len() == 8 && "CommitLimit:"@.len() == 12);
    assert("SwapTotal:"@.len() == 10 && "CommitLimit:"@.len() == 12);
    assert("SwapFree:"@.len() == 9 && "CommitLimit:"@.len() == 12);
    assert("ZSwap:"@.len() == 6 && "CommitLimit:"@.len() == 12);
    assert("ZSwapTotal:"@.len() == 11 && "CommitLimit:"@.len() == 12);
    assert("Dirty:"@.len() == 6 && "CommitLimit:"@.len() == 12);
    assert("Writeback:"@.len() == 10 && "CommitLimit:"@.len() == 12);
    assert("AnonPages:"@.len() == 10 && "CommitLimit:"@.len() == 12);
    assert("Mapped:"@.len() == 7 && "CommitLimit:"@.len() == 12);
    assert("Shmem:"@.len() == 6 && "CommitLimit:"@.len() == 12);
    assert("KReclaimable:"@.len() == 13 && "CommitLimit:"@.len() == 12);
    assert("Slab:"@.len() == 5 && "CommitLimit:"@.len() == 12);
    assert("SReclaimable:"@.len() == 13 && "CommitLimit:"@.len() == 12);
    assert("SUnreclaim:"@.len() == 11 && "CommitLimit:"@.len() == 12);
    assert("KernelStack:"@[0] == 'K' && "CommitLimit:"@[0] == 'C');
    assert("PageTables:"@.len() == 11 && "CommitLimit:"@.len() == 12);
    assert("SecMemTables:"@.len() == 13 && "CommitLimit:"@.len() == 12);
    assert("NFS_Unstable:"@.len() == 13 && "CommitLimit:"@.len() == 12);
    assert("Bounce:"@.len() == 7 && "CommitLimit:"@.len() == 12);
    assert("WritebackTmp:"@.len() == 13 && "CommitLimit:"@.len() == 12);
    assert(meminfo_key_index_from("CommitLimit:"@, 33) == Some(33int));
    assert(meminfo_key_index_from("CommitLimit:"@, 32) == Some(33int));
    assert(meminfo_key_index_from("CommitLimit:"@, 31) == Some(33int));
    assert(meminfo_key_index_from("CommitLimit:"@, 30) == Some(33int));
    assert(meminfo_key_index_from("CommitLimit:"@, 29) == Some(33int));
    assert(meminfo_key_index_from("CommitLimit:"@, 28) == Some(33int));
    assert(meminfo_key_index_from("CommitLimit:"@, 27) == Some(33int));
    assert(meminfo_key_index_from("CommitLimit:"@, 26) == Some(33int));
    assert(meminfo_key_index_from("CommitLimit:"@, 25) == Some(33int));
    assert(meminfo_key_index_from("CommitLimit:"@, 24) == Some(33int));
    assert(meminfo_key_index_from("CommitLimit:"@, 23) == Some(33int));
    assert(meminfo_key_index_from("CommitLimit:"@, 22) == Some(33int));
    assert(meminfo_key_index_from("CommitLimit:"@, 21) == Some(33int));
    assert(meminfo_key_index_from("CommitLimit:"@, 20) == Some(33int));
    assert(meminfo_key_index_from("CommitLimit:"@, 19) == Some(33int));
    assert(meminfo_key_index_from("CommitLimit:"@, 18) == Some(33int));
    assert(meminfo_key_index_from("CommitLimit:"@, 17) == Some(33int));
    assert(meminfo_key_index_from("CommitLimit:"@, 16) == Some(33int));
    assert(meminfo_key_index_from("CommitLimit:"@, 15) == Some(33int));
    assert(meminfo_key_index_from("CommitLimit:"@, 14) == Some(33int));
    assert(meminfo_key_index_from("CommitLimit:"@, 13) == Some(33int));
    assert(meminfo_key_index_from("CommitLimit:"@, 12) == Some(33int));
    assert(meminfo_key_index_from("CommitLimit:"@, 11) == Some(33int));
    assert(meminfo_key_index_from("CommitLimit:"@, 10) == Some(33int));
    assert(meminfo_key_index_from("CommitLimit:"@, 9) == Some(33int));
    assert(meminfo_key_index_from("CommitLimit:"@, 8) == Some(33int));
    assert(meminfo_key_index_from("CommitLimit:"@, 7) == Some(33int));
    assert(meminfo_key_index_from("CommitLimit:"@, 6) == Some(33int));
    assert(meminfo_key_index_from("CommitLimit:"@, 5) == Some(33int));
    assert(meminfo_key_index_from("CommitLimit:"@, 4) == Some(33int));
    assert(meminfo_key_index_from("CommitLimit:"@, 3) == Some(33int));
    assert(meminfo_key_index_from("CommitLimit:"@, 2) == Some(33int));
    assert(meminfo_key_index_from("CommitLimit:"@, 1) == Some(33int));
    assert(meminfo_key_index_from("CommitLimit:"@, 0) == Some(33int));
}

proof fn lemma_key_position_34()
    ensures
        meminfo_key_index("Committed_AS:"@) == Some(34int),
{
    reveal_strlit("MemTotal:");
    reveal_strlit("MemFree:");
    reveal_strlit("MemAvailable:");
    reveal_strlit("Buffers:");
    reveal_strlit("Cached:");
    reveal_strlit("SwapCached:");
    reveal_strlit("Active:");
    reveal_strlit("Inactive:");
    reveal_strlit("Active(anon):");
    reveal_strlit("Inactive(anon):");
    reveal_strlit("Active(file):");
    reveal_strlit("Inactive(file):");
    reveal_strlit("Unevictable:");
    reveal_strlit("Mlocked:");
    reveal_strlit("SwapTotal:");
    reveal_strlit("SwapFree:");
    reveal_strlit("ZSwap:");
    reveal_strlit("ZSwapTotal:");
    reveal_strlit("Dirty:");
    reveal_strlit("Writeback:");
    reveal_strlit("AnonPages:");
    reveal_strlit("Mapped:");
    reveal_strlit("Shmem:");
    reveal_strlit("KReclaimable:");
    reveal_strlit("Slab:");
    reveal_strlit("SReclaimable:");
    reveal_strlit("SUnreclaim:");
    reveal_strlit("KernelStack:");
    reveal_strlit("PageTables:");
    reveal_strlit("SecMemTables:");
    reveal_strlit("NFS_Unstable:");
    reveal_strlit("Bounce:");
    reveal_strlit("WritebackTmp:");
    reveal_strlit("CommitLimit:");
    reveal_strlit("Committed_AS:");
    assert("MemTotal:"@.len() == 9 && "Committed_AS:"@.len() == 13);
    assert("MemFree:"@.len() == 8 && "Committed_AS:"@.len() == 13);
    assert("MemAvailable:"@[0] == 'M' && "Committed_AS:"@[0] == 'C');
    assert("Buffers:"@.len() == 8 && "Committed_AS:"@.len() == 13);
    assert("Cached:"@.len() == 7 && "Committed_AS:"@.len() == 13);
    assert("SwapCached:"@.len() == 11 && "Committed_AS:"@.len() == 13);
    assert("Active:"@.len() == 7 && "Committed_AS:"@.len() == 13);
    assert("Inactive:"@.len() == 9 && "Committed_AS:"@.len() == 13);
    assert("Active(anon):"@[0] == 'A' && "Committed_AS:"@[0] == 'C');
    assert("Inactive(anon):"@.len() == 15 && "Committed_AS:"@.len() == 13);
    assert("Active(file):"@[0] == 'A' && "Committed_AS:"@[0] == 'C');
    assert("Inactive(file):"@.len() == 15 && "Committed_AS:"@.len() == 13);
    assert("Unevictable:"@.len() == 12 && "Committed_AS:"@.len() == 13);
    assert("Mlocked:"@.len() == 8 && "Committed_AS:"@.len() == 13);
    assert("SwapTotal:"@.len() == 10 && "Committed_AS:"@.len() == 13);
    assert("SwapFree:"@.len() == 9 && "Committed_AS:"@.len() == 13);
    assert("ZSwap:"@.len() == 6 && "Committed_AS:"@.len() == 13);
    assert("ZSwapTotal:"@.len() == 11 && "Committed_AS:"@.len() == 13);
    assert("Dirty:"@.len() == 6 && "Committed_AS:"@.len() == 13);
    assert("Writeback:"@.len() == 10 && "Committed_AS:"@.len() == 13);
    assert("AnonPages:"@.len() == 10 && "Committed_AS:"@.len() == 13);
    assert("Mapped:"@.len() == 7 && "Committed_AS:"@.len() == 13);
    assert("Shmem:"@.len() == 6 && "Committed_AS:"@.len() == 13);
    assert("KReclaimable:"@[0] == 'K' && "Committed_AS:"@[0] == 'C');
    assert("Slab:"@.len() == 5 && "Committed_AS:"@.len() == 13);
    assert("SReclaimable:"@[0] == 'S' && "Committed_AS:"@[0] == 'C');
    assert("SUnreclaim:"@.len() == 11 && "Committed_AS:"@.len() == 13);
    assert("KernelStack:"@.len() == 12 && "Committed_AS:"@.len() == 13);
    assert("PageTables:"@.len() == 11 && "Committed_AS:"@.len() == 13);
    assert("SecMemTables:"@[0] == 'S' && "Committed_AS:"@[0] == 'C');
    assert("NFS_Unstable:"@[0] == 'N' && "Committed_AS:"@[0] == 'C');
    assert("Bounce:"@.len() == 7 && "Committed_AS:"@.len() == 13);
    assert("WritebackTmp:"@[0] == 'W' && "Committed_AS:"@[0] == 'C');
    assert("CommitLimit:"@.len() == 12 && "Committed_AS:"@.len() == 13);
    assert(meminfo_key_index_from("Committed_AS:"@, 34) == Some(34int));
    assert(meminfo_key_index_from("Committed_AS:"@, 33) == Some(34int));
    assert(meminfo_key_index_from("Committed_AS:"@, 32) == Some(34int));
    assert(meminfo_key_index_from("Committed_AS:"@, 31) == Some(34int));
    assert(meminfo_key_index_from("Committed_AS:"@, 30) == Some(34int));
    assert(meminfo_key_index_from("Committed_AS:"@, 29) == Some(34int));
    assert(meminfo_key_index_from("Committed_AS:"@, 28) == Some(34int));
    assert(meminfo_key_index_from("Committed_AS:"@, 27) == Some(34int));
    assert(meminfo_key_index_from("Committed_AS:"@, 26) == Some(34int));
    assert(meminfo_key_index_from("Committed_AS:"@, 25) == Some(34int));
    assert(meminfo_key_index_from("Committed_AS:"@, 24) == Some(34int));
    assert(meminfo_key_index_from("Committed_AS:"@, 23) == Some(34int));
    assert(meminfo_key_index_from("Committed_AS:"@, 22) == Some(34int));
    assert(meminfo_key_index_from("Committed_AS:"@, 21) == Some(34int));
    assert(meminfo_key_index_from("Committed_AS:"@, 20) == Some(34int));
    assert(meminfo_key_index_from("Committed_AS:"@, 19) == Some(34int));
    assert(meminfo_key_index_from("Committed_AS:"@, 18) == Some(34int));
    assert(meminfo_key_index_from("Committed_AS:"@, 17) == Some(34int));
    assert(meminfo_key_index_from("Committed_AS:"@, 16) == Some(34int));
    assert(meminfo_key_index_from("Committed_AS:"@, 15) == Some(34int));
    assert(meminfo_key_index_from("Committed_AS:"@, 14) == Some(34int));
    assert(meminfo_key_index_from("Committed_AS:"@, 13) == Some(34int));
    assert(meminfo_key_index_from("Committed_AS:"@, 12) == Some(34int));
    assert(meminfo_key_index_from("Committed_AS:"@, 11) == Some(34int));
    assert(meminfo_key_index_from("Committed_AS:"@, 10) == Some(34int));
    assert(meminfo_key_index_from("Committed_AS:"@, 9) == Some(34int));
    assert(meminfo_key_index_from("Committed_AS:"@, 8) == Some(34int));
    assert(meminfo_key_index_from("Committed_AS:"@, 7) == Some(34int));
    assert(meminfo_key_index_from("Committed_AS:"@, 6) == Some(34int));
    assert(meminfo_key_index_from("Committed_AS:"@, 5) == Some(34int));
    assert(meminfo_key_index_from("Committed_AS:"@, 4) == Some(34int));
    assert(meminfo_key_index_from("Committed_AS:"@, 3) == Some(34int));
    assert(meminfo_key_index_from("Committed_AS:"@, 2) == Some(34int));
    assert(meminfo_key_index_from("Committed_AS:"@, 1) == Some(34int));
    assert(meminfo_key_index_from("Committed_AS:"@, 0) == Some(34int));
}

proof fn lemma_key_position_35()
    ensures
        meminfo_key_index("VmallocTotal:"@) == Some(35int),
{
    reveal_strlit("MemTotal:");
    reveal_strlit("MemFree:");
    reveal_strlit("MemAvailable:");
    reveal_strlit("Buffers:");
    reveal_strlit("Cached:");
    reveal_strlit("SwapCached:");
    reveal_strlit("Active:");
    reveal_strlit("Inactive:");
    reveal_strlit("Active(anon):");
    reveal_strlit("Inactive(anon):");
    reveal_strlit("Active(file):");
    reveal_strlit("Inactive(file):");
    reveal_strlit("Unevictable:");
    reveal_strlit("Mlocked:");
    reveal_strlit("SwapTotal:");
    reveal_strlit("SwapFree:");
    reveal_strlit("ZSwap:");
    reveal_strlit("ZSwapTotal:");
    reveal_strlit("Dirty:");
    reveal_strlit("Writeback:");
    reveal_strlit("AnonPages:");
    reveal_strlit("Mapped:");
    reveal_strlit("Shmem:");
    reveal_strlit("KReclaimable:");
    reveal_strlit("Slab:");
    reveal_strlit("SReclaimable:");
    reveal_strlit("SUnreclaim:");
    reveal_strlit("KernelStack:");
    reveal_strlit("PageTables:");
    reveal_strlit("SecMemTables:");
    reveal_strlit("NFS_Unstable:");
    reveal_strlit("Bounce:");
    reveal_strlit("WritebackTmp:");
    reveal_strlit("CommitLimit:");
    reveal_strlit("Committed_AS:");
    reveal_strlit("VmallocTotal:");
    assert("MemTotal:"@.len() == 9 && "VmallocTotal:"@.len() == 13);
    assert("MemFree:"@.len() == 8 && "VmallocTotal:"@.len() == 13);
    assert("MemAvailable:"@[0] == 'M' && "VmallocTotal:"@[0] == 'V');
    assert("Buffers:"@.len() == 8 && "VmallocTotal:"@.len() == 13);
    assert("Cached:"@.len() == 7 && "VmallocTotal:"@.len() == 13);
    assert("SwapCached:"@.len() == 11 && "VmallocTotal:"@.len() == 13);
    assert("Active:"@.len() == 7 && "VmallocTotal:"@.len() == 13);
    assert("Inactive:"@.len() == 9 && "VmallocTotal:"@.len() == 13);
    assert("Active(anon):"@[0] == 'A' && "VmallocTotal:"@[0] == 'V');
    assert("Inactive(anon):"@.len() == 15 && "VmallocTotal:"@.len() == 13);
    assert("Active(file):"@[0] == 'A' && "VmallocTotal:"@[0] == 'V');
    assert("Inactive(file):"@.len() == 15 && "VmallocTotal:"@.len() == 13);
    assert("Unevictable:"@.len() == 12 && "VmallocTotal:"@.len() == 13);
    assert("Mlocked:"@.len() == 8 && "VmallocTotal:"@.len() == 13);
    assert("SwapTotal:"@.len() == 10 && "VmallocTotal:"@.len() == 13);
    assert("SwapFree:"@.len() == 9 && "VmallocTotal:"@.len() == 13);
    assert("ZSwap:"@.len() == 6 && "VmallocTotal:"@.len() == 13);
    assert("ZSwapTotal:"@.len() == 11 && "VmallocTotal:"@.len() == 13);
    assert("Dirty:"@.len() == 6 && "VmallocTotal:"@.len() == 13);
    assert("Writeback:"@.len() == 10 && "VmallocTotal:"@.len() == 13);
    assert("AnonPages:"@.len() == 10 && "VmallocTotal:"@.len() == 13);
    assert("Mapped:"@.len() == 7 && "VmallocTotal:"@.len() == 13);
    assert("Shmem:"@.len() == 6 && "VmallocTotal:"@.len() == 13);
    assert("KReclaimable:"@[0] == 'K' && "VmallocTotal:"@[0] == 'V');
    assert("Slab:"@.len() == 5 && "VmallocTotal:"@.len() == 13);
    assert("SReclaimable:"@[0] == 'S' && "VmallocTotal:"@[0] == 'V');
    assert("SUnreclaim:"@.len() == 11 && "VmallocTotal:"@.len() == 13);
    assert("KernelStack:"@.len() == 12 && "VmallocTotal:"@.len() == 13);
    assert("PageTables:"@.len() == 11 && "VmallocTotal:"@.len() == 13);
    assert("SecMemTables:"@[0] == 'S' && "VmallocTotal:"@[0] == 'V');
    assert("NFS_Unstable:"@[0] == 'N' && "VmallocTotal:"@[0] == 'V');
    assert("Bounce:"@.len() == 7 && "VmallocTotal:"@.len() == 13);
    assert("WritebackTmp:"@[0] == 'W' && "VmallocTotal:"@[0] == 'V');
    assert("CommitLimit:"@.len() == 12 && "VmallocTotal:"@.len() == 13);
    assert("Committed_AS:"@[0] == 'C' && "VmallocTotal:"@[0] == 'V');
    assert(meminfo_key_index_from("VmallocTotal:"@, 35) == Some(35int));
    assert(meminfo_key_index_from("VmallocTotal:"@, 34) == Some(35int));
    assert(meminfo_key_index_from("VmallocTotal:"@, 33) == Some(35int));
    assert(meminfo_key_index_from("VmallocTotal:"@, 32) == Some(35int));
    assert(meminfo_key_index_from("VmallocTotal:"@, 31) == Some(35int));
    assert(meminfo_key_index_from("VmallocTotal:"@, 30) == Some(35int));
    assert(meminfo_key_index_from("VmallocTotal:"@, 29) == Some(35int));
    assert(meminfo_key_index_from("VmallocTotal:"@, 28) == Some(35int));
    assert(meminfo_key_index_from("VmallocTotal:"@, 27) == Some(35int));
    assert(meminfo_key_index_from("VmallocTotal:"@, 26) == Some(35int));
    assert(meminfo_key_index_from("VmallocTotal:"@, 25) == Some(35int));
    assert(meminfo_key_index_from("VmallocTotal:"@, 24) == Some(35int));
    assert(meminfo_key_index_from("VmallocTotal:"@, 23) == Some(35int));
    assert(meminfo_key_index_from("VmallocTotal:"@, 22) == Some(35int));
    assert(meminfo_key_index_from("VmallocTotal:"@, 21) == Some(35int));
    assert(meminfo_key_index_from("VmallocTotal:"@, 20) == Some(35int));
    assert(meminfo_key_index_from("VmallocTotal:"@, 19) == Some(35int));
    assert(meminfo_key_index_from("VmallocTotal:"@, 18) == Some(35int));
    assert(meminfo_key_index_from("VmallocTotal:"@, 17) == Some(35int));
    assert(meminfo_key_index_from("VmallocTotal:"@, 16) == Some(35int));
    assert(meminfo_key_index_from("VmallocTotal:"@, 15) == Some(35int));
    assert(meminfo_key_index_from("VmallocTotal:"@, 14) == Some(35int));
    assert(meminfo_key_index_from("VmallocTotal:"@, 13) == Some(35int));
    assert(meminfo_key_index_from("VmallocTotal:"@, 12) == Some(35int));
    assert(meminfo_key_index_from("VmallocTotal:"@, 11) == Some(35int));
    assert(meminfo_key_index_from("VmallocTotal:"@, 10) == Some(35int));
    assert(meminfo_key_index_from("VmallocTotal:"@, 9) == Some(35int));
    assert(meminfo_key_index_from("VmallocTotal:"@, 8) == Some(35int));
    assert(meminfo_key_index_from("VmallocTotal:"@, 7) == Some(35int));
    assert(meminfo_key_index_from("VmallocTotal:"@, 6) == Some(35int));
    assert(meminfo_key_index_from("VmallocTotal:"@, 5) == Some(35int));
    assert(meminfo_key_index_from("VmallocTotal:"@, 4) == Some(35int));
    assert(meminfo_key_index_from("VmallocTotal:"@, 3) == Some(35int));
    assert(meminfo_key_index_from("VmallocTotal:"@, 2) == Some(35int));
    assert(meminfo_key_index_from("VmallocTotal:"@, 1) == Some(35int));
    assert(meminfo_key_index_from("VmallocTotal:"@, 0) == Some(35int));
}

proof fn lemma_key_position_36()
    ensures
        meminfo_key_index("VmallocUsed:"@) == Some(36int),
{
    reveal_strlit("MemTotal:");
    reveal_strlit("MemFree:");
    reveal_strlit("MemAvailable:");
    reveal_strlit("Buffers:");
    reveal_strlit("Cached:");
    reveal_strlit("SwapCached:");
    reveal_strlit("Active:");
    reveal_strlit("Inactive:");
    reveal_strlit("Active(anon):");
    reveal_strlit("Inactive(anon):");
    reveal_strlit("Active(file):");
    reveal_strlit("Inactive(file):");
    reveal_strlit("Unevictable:");
    reveal_strlit("Mlocked:");
    reveal_strlit("SwapTotal:");
    reveal_strlit("SwapFree:");
    reveal_strlit("ZSwap:");
    reveal_strlit("ZSwapTotal:");
    reveal_strlit("Dirty:");
    reveal_strlit("Writeback:");
    reveal_strlit("AnonPages:");
    reveal_strlit("Mapped:");
    reveal_strlit("Shmem:");
    reveal_strlit("KReclaimable:");
    reveal_strlit("Slab:");
    reveal_strlit("SReclaimable:");
    reveal_strlit("SUnreclaim:");
    reveal_strlit("KernelStack:");
    reveal_strlit("PageTables:");
    reveal_strlit("SecMemTables:");
    reveal_strlit("NFS_Unstable:");
    reveal_strlit("Bounce:");
    reveal_strlit("WritebackTmp:");
    reveal_strlit("CommitLimit:");
    reveal_strlit("Committed_AS:");
    reveal_strlit("VmallocTotal:");
    reveal_strlit("VmallocUsed:");
    assert("MemTotal:"@.len() == 9 && "VmallocUsed:"@.len() == 12);
    assert("MemFree:"@.len() == 8 && "VmallocUsed:"@.len() == 12);
    assert("MemAvailable:"@.len() == 13 && "VmallocUsed:"@.len() == 12);
    assert("Buffers:"@.len() == 8 && "VmallocUsed:"@.len() == 12);
    assert("Cached:"@.len() == 7 && "VmallocUsed:"@.len() == 12);
    assert("SwapCached:"@.len() == 11 && "VmallocUsed:"@.len() == 12);
    assert("Active:"@.len() == 7 && "VmallocUsed:"@.len() == 12);
    assert("Inactive:"@.len() == 9 && "VmallocUsed:"@.len() == 12);
    assert("Active(anon):"@.len() == 13 && "VmallocUsed:"@.len() == 12);
    assert("Inactive(anon):"@.len() == 15 && "VmallocUsed:"@.len() == 12);
    assert("Active(file):"@.len() == 13 && "VmallocUsed:"@.len() == 12);
    assert("Inactive(file):"@.len() == 15 && "VmallocUsed:"@.len() == 12);
    assert("Unevictable:"@[0] == 'U' && "VmallocUsed:"@[0] == 'V');
    assert("Mlocked:"@.len() == 8 && "VmallocUsed:"@.len() == 12);
    assert("SwapTotal:"@.len() == 10 && "VmallocUsed:"@.len() == 12);
    assert("SwapFree:"@.len() == 9 && "VmallocUsed:"@.len() == 12);
    assert("ZSwap:"@.len() == 6 && "VmallocUsed:"@.len() == 12);
    assert("ZSwapTotal:"@.len() == 11 && "VmallocUsed:"@.len() == 12);
    assert("Dirty:"@.len() == 6 && "VmallocUsed:"@.len() == 12);
    assert("Writeback:"@.len() == 10 && "VmallocUsed:"@.len() == 12);
    assert("AnonPages:"@.len() == 10 && "VmallocUsed:"@.len() == 12);
    assert("Mapped:"@.len() == 7 && "VmallocUsed:"@.len() == 12);
    assert("Shmem:"@.len() == 6 && "VmallocUsed:"@.len() == 12);
    assert("KReclaimable:"@.len() == 13 && "VmallocUsed:"@.len() == 12);
    assert("Slab:"@.len() == 5 && "VmallocUsed:"@.len() == 12);
    assert("SReclaimable:"@.len() == 13 && "VmallocUsed:"@.len() == 12);
    assert("SUnreclaim:"@.len() == 11 && "VmallocUsed:"@.len() == 12);
    assert("KernelStack:"@[0] == 'K' && "VmallocUsed:"@[0] == 'V');
    assert("PageTables:"@.len() == 11 && "VmallocUsed:"@.len() == 12);
    assert("SecMemTables:"@.len() == 13 && "VmallocUsed:"@.len() == 12);
    assert("NFS_Unstable:"@.len() == 13 && "VmallocUsed:"@.len() == 12);
    assert("Bounce:"@.len() == 7 && "VmallocUsed:"@.len() == 12);
    assert("WritebackTmp:"@.len() == 13 && "VmallocUsed:"@.len() == 12);
    assert("CommitLimit:"@[0] == 'C' && "VmallocUsed:"@[0] == 'V');
    assert("Committed_AS:"@.len() == 13 && "VmallocUsed:"@.len() == 12);
    assert("VmallocTotal:"@.len() == 13 && "VmallocUsed:"@.len() == 12);
    assert(meminfo_key_index_from("VmallocUsed:"@, 36) == Some(36int));
    assert(meminfo_key_index_from("VmallocUsed:"@, 35) == Some(36int));
    assert(meminfo_key_index_from("VmallocUsed:"@, 34) == Some(36int));
    assert(meminfo_key_index_from("VmallocUsed:"@, 33) == Some(36int));
    assert(meminfo_key_index_from("VmallocUsed:"@, 32) == Some(36int));
    assert(meminfo_key_index_from("VmallocUsed:"@, 31) == Some(36int));
    assert(meminfo_key_index_from("VmallocUsed:"@, 30) == Some(36int));
    assert(meminfo_key_index_from("VmallocUsed:"@, 29) == Some(36int));
    assert(meminfo_key_index_from("VmallocUsed:"@, 28) == Some(36int));
    assert(meminfo_key_index_from("VmallocUsed:"@, 27) == Some(36int));
    assert(meminfo_key_index_from("VmallocUsed:"@, 26) == Some(36int));
    assert(meminfo_key_index_from("VmallocUsed:"@, 25) == Some(36int));
    assert(meminfo_key_index_from("VmallocUsed:"@, 24) == Some(36int));
    assert(meminfo_key_index_from("VmallocUsed:"@, 23) == Some(36int));
    assert(meminfo_key_index_from("VmallocUsed:"@, 22) == Some(36int));
    assert(meminfo_key_index_from("VmallocUsed:"@, 21) == Some(36int));
    assert(meminfo_key_index_from("VmallocUsed:"@, 20) == Some(36int));
    assert(meminfo_key_index_from("VmallocUsed:"@, 19) == Some(36int));
    assert(meminfo_key_index_from("VmallocUsed:"@, 18) == Some(36int));
    assert(meminfo_key_index_from("VmallocUsed:"@, 17) == Some(36int));
    assert(meminfo_key_index_from("VmallocUsed:"@, 16) == Some(36int));
    assert(meminfo_key_index_from("VmallocUsed:"@, 15) == Some(36int));
    assert(meminfo_key_index_from("VmallocUsed:"@, 14) == Some(36int));
    assert(meminfo_key_index_from("VmallocUsed:"@, 13) == Some(36int));
    assert(meminfo_key_index_from("VmallocUsed:"@, 12) == Some(36int));
    assert(meminfo_key_index_from("VmallocUsed:"@, 11) == Some(36int));
    assert(meminfo_key_index_from("VmallocUsed:"@, 10) == Some(36int));
    assert(meminfo_key_index_from("VmallocUsed:"@, 9) == Some(36int));
    assert(meminfo_key_index_from("VmallocUsed:"@, 8) == Some(36int));
    assert(meminfo_key_index_from("VmallocUsed:"@, 7) == Some(36int));
    assert(meminfo_key_index_from("VmallocUsed:"@, 6) == Some(36int));
    assert(meminfo_key_index_from("VmallocUsed:"@, 5) == Some(36int));
    assert(meminfo_key_index_from("VmallocUsed:"@, 4) == Some(36int));
    assert(meminfo_key_index_from("VmallocUsed:"@, 3) == Some(36int));
    assert(meminfo_key_index_from("VmallocUsed:"@, 2) == Some(36int));
    assert(meminfo_key_index_from("VmallocUsed:"@, 1) == Some(36int));
    assert(meminfo_key_index_from("VmallocUsed:"@, 0) == Some(36int));
}

proof fn lemma_key_position_37()
    ensures
        meminfo_key_index("VmallocChunk:"@) == Some(37int),
{
    reveal_strlit("MemTotal:");
    reveal_strlit("MemFree:");
    reveal_strlit("MemAvailable:");
    reveal_strlit("Buffers:");
    reveal_strlit("Cached:");
    reveal_strlit("SwapCached:");
    reveal_strlit("Active:");
    reveal_strlit("Inactive:");
    reveal_strlit("Active(anon):");
    reveal_strlit("Inactive(anon):");
    reveal_strlit("Active(file):");
    reveal_strlit("Inactive(file):");
    reveal_strlit("Unevictable:");
    reveal_strlit("Mlocked:");
    reveal_strlit("SwapTotal:");
    reveal_strlit("SwapFree:");
    reveal_strlit("ZSwap:");
    reveal_strlit("ZSwapTotal:");
    reveal_strlit("Dirty:");
    reveal_strlit("Writeback:");
    reveal_strlit("AnonPages:");
    reveal_strlit("Mapped:");
    reveal_strlit("Shmem:");
    reveal_strlit("KReclaimable:");
    reveal_strlit("Slab:");
    reveal_strlit("SReclaimable:");
    reveal_strlit("SUnreclaim:");
    reveal_strlit("KernelStack:");
    reveal_strlit("PageTables:");
    reveal_strlit("SecMemTables:");
    reveal_strlit("NFS_Unstable:");
    reveal_strlit("Bounce:");
    reveal_strlit("WritebackTmp:");
    reveal_strlit("CommitLimit:");
    reveal_strlit("Committed_AS:");
    reveal_strlit("VmallocTotal:");
    reveal_strlit("VmallocUsed:");
    reveal_strlit("VmallocChunk:");
    assert("MemTotal:"@.len() == 9 && "VmallocChunk:"@.len() == 13);
    assert("MemFree:"@.len() == 8 && "VmallocChunk:"@.len() == 13);
    assert("MemAvailable:"@[0] == 'M' && "VmallocChunk:"@[0] == 'V');
    assert("Buffers:"@.len() == 8 && "VmallocChunk:"@.len() == 13);
    assert("Cached:"@.len() == 7 && "VmallocChunk:"@.len() == 13);
    assert("SwapCached:"@.len() == 11 && "VmallocChunk:"@.len() == 13);
    assert("Active:"@.len() == 7 && "VmallocChunk:"@.len() == 13);
    assert("Inactive:"@.len() == 9 && "VmallocChunk:"@.len() == 13);
    assert("Active(anon):"@[0] == 'A' && "VmallocChunk:"@[0] == 'V');
    assert("Inactive(anon):"@.len() == 15 && "VmallocChunk:"@.len() == 13);
    assert("Active(file):"@[0] == 'A' && "VmallocChunk:"@[0] == 'V');
    assert("Inactive(file):"@.len() == 15 && "VmallocChunk:"@.len() == 13);
    assert("Unevictable:"@.len() == 12 && "VmallocChunk:"@.len() == 13);
    assert("Mlocked:"@.len() == 8 && "VmallocChunk:"@.len() == 13);
    assert("SwapTotal:"@.len() == 10 && "VmallocChunk:"@.len() == 13);
    assert("SwapFree:"@.len() == 9 && "VmallocChunk:"@.len() == 13);
    assert("ZSwap:"@.len() == 6 && "VmallocChunk:"@.len() == 13);
    assert("ZSwapTotal:"@.len() == 11 && "VmallocChunk:"@.len() == 13);
    assert("Dirty:"@.len() == 6 && "VmallocChunk:"@.len() == 13);
    assert("Writeback:"@.len() == 10 && "VmallocChunk:"@.len() == 13);
    assert("AnonPages:"@.len() == 10 && "VmallocChunk:"@.len() == 13);
    assert("Mapped:"@.len() == 7 && "VmallocChunk:"@.len() == 13);
    assert("Shmem:"@.len() == 6 && "VmallocChunk:"@.len() == 13);
    assert("KReclaimable:"@[0] == 'K' && "VmallocChunk:"@[0] == 'V');
    assert("Slab:"@.len() == 5 && "VmallocChunk:"@.len() == 13);
    assert("SReclaimable:"@[0] == 'S' && "VmallocChunk:"@[0] == 'V');
    assert("SUnreclaim:"@.len() == 11 && "VmallocChunk:"@.len() == 13);
    assert("KernelStack:"@.len() == 12 && "VmallocChunk:"@.len() == 13);
    assert("PageTables:"@.len() == 11 && "VmallocChunk:"@.len() == 13);
    assert("SecMemTables:"@[0] == 'S' && "VmallocChunk:"@[0] == 'V');
    assert("NFS_Unstable:"@[0] == 'N' && "VmallocChunk:"@[0] == 'V');
    assert("Bounce:"@.len() == 7 && "VmallocChunk:"@.len() == 13);
    assert("WritebackTmp:"@[0] == 'W' && "VmallocChunk:"@[0] == 'V');
    assert("CommitLimit:"@.len() == 12 && "VmallocChunk:"@.len() == 13);
    assert("Committed_AS:"@[0] == 'C' && "VmallocChunk:"@[0] == 'V');
    assert("VmallocTotal:"@[7] == 'T' && "VmallocChunk:"@[7] == 'C');
    assert("VmallocUsed:"@.len() == 12 && "VmallocChunk:"@.len() == 13);
    assert(meminfo_key_index_from("VmallocChunk:"@, 37) == Some(37int));
    assert(meminfo_key_index_from("VmallocChunk:"@, 36) == Some(37int));
    assert(meminfo_key_index_from("VmallocChunk:"@, 35) == Some(37int));
    assert(meminfo_key_index_from("VmallocChunk:"@, 34) == Some(37int));
    assert(meminfo_key_index_from("VmallocChunk:"@, 33) == Some(37int));
    assert(meminfo_key_index_from("VmallocChunk:"@, 32) == Some(37int));
    assert(meminfo_key_index_from("VmallocChunk:"@, 31) == Some(37int));
    assert(meminfo_key_index_from("VmallocChunk:"@, 30) == Some(37int));
    assert(meminfo_key_index_from("VmallocChunk:"@, 29) == Some(37int));
    assert(meminfo_key_index_from("VmallocChunk:"@, 28) == Some(37int));
    assert(meminfo_key_index_from("VmallocChunk:"@, 27) == Some(37int));
    assert(meminfo_key_index_from("VmallocChunk:"@, 26) == Some(37int));
    assert(meminfo_key_index_from("VmallocChunk:"@, 25) == Some(37int));
    assert(meminfo_key_index_from("VmallocChunk:"@, 24) == Some(37int));
    assert(meminfo_key_index_from("VmallocChunk:"@, 23) == Some(37int));
    assert(meminfo_key_index_from("VmallocChunk:"@, 22) == Some(37int));
    assert(meminfo_key_index_from("VmallocChunk:"@, 21) == Some(37int));
    assert(meminfo_key_index_from("VmallocChunk:"@, 20) == Some(37int));
    assert(meminfo_key_index_from("VmallocChunk:"@, 19) == Some(37int));
    assert(meminfo_key_index_from("VmallocChunk:"@, 18) == Some(37int));
    assert(meminfo_key_index_from("VmallocChunk:"@, 17) == Some(37int));
    assert(meminfo_key_index_from("VmallocChunk:"@, 16) == Some(37int));
    assert(meminfo_key_index_from("VmallocChunk:"@, 15) == Some(37int));
    assert(meminfo_key_index_from("VmallocChunk:"@, 14) == Some(37int));
    assert(meminfo_key_index_from("VmallocChunk:"@, 13) == Some(37int));
    assert(meminfo_key_index_from("VmallocChunk:"@, 12) == Some(37int));
    assert(meminfo_key_index_from("VmallocChunk:"@, 11) == Some(37int));
    assert(meminfo_key_index_from("VmallocChunk:"@, 10) == Some(37int));
    assert(meminfo_key_index_from("VmallocChunk:"@, 9) == Some(37int));
    assert(meminfo_key_index_from("VmallocChunk:"@, 8) == Some(37int));
    assert(meminfo_key_index_from("VmallocChunk:"@, 7) == Some(37int));
    assert(meminfo_key_index_from("VmallocChunk:"@, 6) == Some(37int));
    assert(meminfo_key_index_from("VmallocChunk:"@, 5) == Some(37int));
    assert(meminfo_key_index_from("VmallocChunk:"@, 4) == Some(37int));
    assert(meminfo_key_index_from("VmallocChunk:"@, 3) == Some(37int));
    assert(meminfo_key_index_from("VmallocChunk:"@, 2) == Some(37int));
    assert(meminfo_key_index_from("VmallocChunk:"@, 1) == Some(37int));
    assert(meminfo_key_index_from("VmallocChunk:"@, 0) == Some(37int));
}

proof fn lemma_key_position_38()
    ensures
        meminfo_key_index("Percpu:"@) == Some(38int),
{
    reveal_strlit("MemTotal:");
    reveal_strlit("MemFree:");
    reveal_strlit("MemAvailable:");
    reveal_strlit("Buffers:");
    reveal_strlit("Cached:");
    reveal_strlit("SwapCached:");
    reveal_strlit("Active:");
    reveal_strlit("Inactive:");
    reveal_strlit("Active(anon):");
    reveal_strlit("Inactive(anon):");
    reveal_strlit("Active(file):");
    reveal_strlit("Inactive(file):");
    reveal_strlit("Unevictable:");
    reveal_strlit("Mlocked:");
    reveal_strlit("SwapTotal:");
    reveal_strlit("SwapFree:");
    reveal_strlit("ZSwap:");
    reveal_strlit("ZSwapTotal:");
    reveal_strlit("Dirty:");
    reveal_strlit("Writeback:");
    reveal_strlit("AnonPages:");
    reveal_strlit("Mapped:");
    reveal_strlit("Shmem:");
    reveal_strlit("KReclaimable:");
    reveal_strlit("Slab:");
    reveal_strlit("SReclaimable:");
    reveal_strlit("SUnreclaim:");
    reveal_strlit("KernelStack:");
    reveal_strlit("PageTables:");
    reveal_strlit("SecMemTables:");
    reveal_strlit("NFS_Unstable:");
    reveal_strlit("Bounce:");
    reveal_strlit("WritebackTmp:");
    reveal_strlit("CommitLimit:");
    reveal_strlit("Committed_AS:");
    reveal_strlit("VmallocTotal:");
    reveal_strlit("VmallocUsed:");
    reveal_strlit("VmallocChunk:");
    reveal_strlit("Percpu:");
    assert("MemTotal:"@.len() == 9 && "Percpu:"@.len() == 7);
    assert("MemFree:"@.len() == 8 && "Percpu:"@.len() == 7);
    assert("MemAvailable:"@.len() == 13 && "Percpu:"@.len() == 7);
    assert("Buffers:"@.len() == 8 && "Percpu:"@.len() == 7);
    assert("Cached:"@[0] == 'C' && "Percpu:"@[0] == 'P');
    assert("SwapCached:"@.len() == 11 && "Percpu:"@.len() == 7);
    assert("Active:"@[0] == 'A' && "Percpu:"@[0] == 'P');
    assert("Inactive:"@.len() == 9 && "Percpu:"@.len() == 7);
    assert("Active(anon):"@.len() == 13 && "Percpu:"@.len() == 7);
    assert("Inactive(anon):"@.len() == 15 && "Percpu:"@.len() == 7);
    assert("Active(file):"@.len() == 13 && "Percpu:"@.len() == 7);
    assert("Inactive(file):"@.len() == 15 && "Percpu:"@.len() == 7);
    assert("Unevictable:"@.len() == 12 && "Percpu:"@.len() == 7);
    assert("Mlocked:"@.len() == 8 && "Percpu:"@.len() == 7);
    assert("SwapTotal:"@.len() == 10 && "Percpu:"@.len() == 7);
    assert("SwapFree:"@.len() == 9 && "Percpu:"@.len() == 7);
    assert("ZSwap:"@.len() == 6 && "Percpu:"@.len() == 7);
    assert("ZSwapTotal:"@.len() == 11 && "Percpu:"@.len() == 7);
    assert("Dirty:"@.len() == 6 && "Percpu:"@.len() == 7);
    assert("Writeback:"@.len() == 10 && "Percpu:"@.len() == 7);
    assert("AnonPages:"@.len() == 10 && "Percpu:"@.len() == 7);
    assert("Mapped:"@[0] == 'M' && "Percpu:"@[0] == 'P');
    assert("Shmem:"@.len() == 6 && "Percpu:"@.len() == 7);
    assert("KReclaimable:"@.len() == 13 && "Percpu:"@.len() == 7);
    assert("Slab:"@.len() == 5 && "Percpu:"@.len() == 7);
    assert("SReclaimable:"@.len() == 13 && "Percpu:"@.len() == 7);
    assert("SUnreclaim:"@.len() == 11 && "Percpu:"@.len() == 7);
    assert("KernelStack:"@.len() == 12 && "Percpu:"@.len() == 7);
    assert("PageTables:"@.len() == 11 && "Percpu:"@.len() == 7);
    assert("SecMemTables:"@.len() == 13 && "Percpu:"@.len() == 7);
    assert("NFS_Unstable:"@.len() == 13 && "Percpu:"@.len() == 7);
    assert("Bounce:"@[0] == 'B' && "Percpu:"@[0] == 'P');
    assert("WritebackTmp:"@.len() == 13 && "Percpu:"@.len() == 7);
    assert("CommitLimit:"@.len() == 12 && "Percpu:"@.len() == 7);
    assert("Committed_AS:"@.len() == 13 && "Percpu:"@.len() == 7);
    assert("VmallocTotal:"@.len() == 13 && "Percpu:"@.len() == 7);
    assert("VmallocUsed:"@.len() == 12 && "Percpu:"@.len() == 7);
    assert("VmallocChunk:"@.len() == 13 && "Percpu:"@.len() == 7);
    assert(meminfo_key_index_from("Percpu:"@, 38) == Some(38int));
    assert(meminfo_key_index_from("Percpu:"@, 37) == Some(38int));
    assert(meminfo_key_index_from("Percpu:"@, 36) == Some(38int));
    assert(meminfo_key_index_from("Percpu:"@, 35) == Some(38int));
    assert(meminfo_key_index_from("Percpu:"@, 34) == Some(38int));
    assert(meminfo_key_index_from("Percpu:"@, 33) == Some(38int));
    assert(meminfo_key_index_from("Percpu:"@, 32) == Some(38int));
    assert(meminfo_key_index_from("Percpu:"@, 31) == Some(38int));
    assert(meminfo_key_index_from("Percpu:"@, 30) == Some(38int));
    assert(meminfo_key_index_from("Percpu:"@, 29) == Some(38int));
    assert(meminfo_key_index_from("Percpu:"@, 28) == Some(38int));
    assert(meminfo_key_index_from("Percpu:"@, 27) == Some(38int));
    assert(meminfo_key_index_from("Percpu:"@, 26) == Some(38int));
    assert(meminfo_key_index_from("Percpu:"@, 25) == Some(38int));
    assert(meminfo_key_index_from("Percpu:"@, 24) == Some(38int));
    assert(meminfo_key_index_from("Percpu:"@, 23) == Some(38int));
    assert(meminfo_key_index_from("Percpu:"@, 22) == Some(38int));
    assert(meminfo_key_index_from("Percpu:"@, 21) == Some(38int));
    assert(meminfo_key_index_from("Percpu:"@, 20) == Some(38int));
    assert(meminfo_key_index_from("Percpu:"@, 19) == Some(38int));
    assert(meminfo_key_index_from("Percpu:"@, 18) == Some(38int));
    assert(meminfo_key_index_from("Percpu:"@, 17) == Some(38int));
    assert(meminfo_key_index_from("Percpu:"@, 16) == Some(38int));
    assert(meminfo_key_index_from("Percpu:"@, 15) == Some(38int));
    assert(meminfo_key_index_from("Percpu:"@, 14) == Some(38int));
    assert(meminfo_key_index_from("Percpu:"@, 13) == Some(38int));
    assert(meminfo_key_index_from("Percpu:"@, 12) == Some(38int));
    assert(meminfo_key_index_from("Percpu:"@, 11) == Some(38int));
    assert(meminfo_key_index_from("Percpu:"@, 10) == Some(38int));
    assert(meminfo_key_index_from("Percpu:"@, 9) == Some(38int));
    assert(meminfo_key_index_from("Percpu:"@, 8) == Some(38int));
    assert(meminfo_key_index_from("Percpu:"@, 7) == Some(38int));
    assert(meminfo_key_index_from("Percpu:"@, 6) == Some(38int));
    assert(meminfo_key_index_from("Percpu:"@, 5) == Some(38int));
    assert(meminfo_key_index_from("Percpu:"@, 4) == Some(38int));
    assert(meminfo_key_index_from("Percpu:"@, 3) == Some(38int));
    assert(meminfo_key_index_from("Percpu:"@, 2) == Some(38int));
    assert(meminfo_key_index_from("Percpu:"@, 1) == Some(38int));
    assert(meminfo_key_index_from("Percpu:"@, 0) == Some(38int));
}

proof fn lemma_key_position_39()
    ensures
        meminfo_key_index("HardwareCorrupted:"@) == Some(39int),
{
    reveal_strlit("MemTotal:");
    reveal_strlit("MemFree:");
    reveal_strlit("MemAvailable:");
    reveal_strlit("Buffers:");
    reveal_strlit("Cached:");
    reveal_strlit("SwapCached:");
    reveal_strlit("Active:");
    reveal_strlit("Inactive:");
    reveal_strlit("Active(anon):");
    reveal_strlit("Inactive(anon):");
    reveal_strlit("Active(file):");
    reveal_strlit("Inactive(file):");
    reveal_strlit("Unevictable:");
    reveal_strlit("Mlocked:");
    reveal_strlit("SwapTotal:");
    reveal_strlit("SwapFree:");
    reveal_strlit("ZSwap:");
    reveal_strlit("ZSwapTotal:");
    reveal_strlit("Dirty:");
    reveal_strlit("Writeback:");
    reveal_strlit("AnonPages:");
    reveal_strlit("Mapped:");
    reveal_strlit("Shmem:");
    reveal_strlit("KReclaimable:");
    reveal_strlit("Slab:");
    reveal_strlit("SReclaimable:");
    reveal_strlit("SUnreclaim:");
    reveal_strlit("KernelStack:");
    reveal_strlit("PageTables:");
    reveal_strlit("SecMemTables:");
    reveal_strlit("NFS_Unstable:");
    reveal_strlit("Bounce:");
    reveal_strlit("WritebackTmp:");
    reveal_strlit("CommitLimit:");
    reveal_strlit("Committed_AS:");
    reveal_strlit("VmallocTotal:");
    reveal_strlit("VmallocUsed:");
    reveal_strlit("VmallocChunk:");
    reveal_strlit("Percpu:");
    reveal_strlit("HardwareCorrupted:");
    assert("MemTotal:"@.len() == 9 && "HardwareCorrupted:"@.len() == 18);
    assert("MemFree:"@.len() == 8 && "HardwareCorrupted:"@.len() == 18);
    assert("MemAvailable:"@.len() == 13 && "HardwareCorrupted:"@.len() == 18);
    assert("Buffers:"@.len() == 8 && "HardwareCorrupted:"@.len() == 18);
    assert("Cached:"@.len() == 7 && "HardwareCorrupted:"@.len() == 18);
    assert("SwapCached:"@.len() == 11 && "HardwareCorrupted:"@.len() == 18);
    assert("Active:"@.len() == 7 && "HardwareCorrupted:"@.len() == 18);
    assert("Inactive:"@.len() == 9 && "HardwareCorrupted:"@.len() == 18);
    assert("Active(anon):"@.len() == 13 && "HardwareCorrupted:"@.len() == 18);
    assert("Inactive(anon):"@.len() == 15 && "HardwareCorrupted:"@.len() == 18);
    assert("Active(file):"@.len() == 13 && "HardwareCorrupted:"@.len() == 18);
    assert("Inactive(file):"@.len() == 15 && "HardwareCorrupted:"@.len() == 18);
    assert("Unevictable:"@.len() == 12 && "HardwareCorrupted:"@.len() == 18);
    assert("Mlocked:"@.len() == 8 && "HardwareCorrupted:"@.len() == 18);
    assert("SwapTotal:"@.len() == 10 && "HardwareCorrupted:"@.len() == 18);
    assert("SwapFree:"@.len() == 9 && "HardwareCorrupted:"@.len() == 18);
    assert("ZSwap:"@.len() == 6 && "HardwareCorrupted:"@.len() == 18);
    assert("ZSwapTotal:"@.len() == 11 && "HardwareCorrupted:"@.len() == 18);
    assert("Dirty:"@.len() == 6 && "HardwareCorrupted:"@.len() == 18);
    assert("Writeback:"@.len() == 10 && "HardwareCorrupted:"@.len() == 18);
    assert("AnonPages:"@.len() == 10 && "HardwareCorrupted:"@.len() == 18);
    assert("Mapped:"@.len() == 7 && "HardwareCorrupted:"@.len() == 18);
    assert("Shmem:"@.len() == 6 && "HardwareCorrupted:"@.len() == 18);
    assert("KReclaimable:"@.len() == 13 && "HardwareCorrupted:"@.len() == 18);
    assert("Slab:"@.len() == 5 && "HardwareCorrupted:"@.len() == 18);
    assert("SReclaimable:"@.len() == 13 && "HardwareCorrupted:"@.len() == 18);
    assert("SUnreclaim:"@.len() == 11 && "HardwareCorrupted:"@.len() == 18);
    assert("KernelStack:"@.len() == 12 && "HardwareCorrupted:"@.len() == 18);
    assert("PageTables:"@.len() == 11 && "HardwareCorrupted:"@.len() == 18);
    assert("SecMemTables:"@.len() == 13 && "HardwareCorrupted:"@.len() == 18);
    assert("NFS_Unstable:"@.len() == 13 && "HardwareCorrupted:"@.len() == 18);
    assert("Bounce:"@.len() == 7 && "HardwareCorrupted:"@.len() == 18);
    assert("WritebackTmp:"@.len() == 13 && "HardwareCorrupted:"@.len() == 18);
    assert("CommitLimit:"@.len() == 12 && "HardwareCorrupted:"@.len() == 18);
    assert("Committed_AS:"@.len() == 13 && "HardwareCorrupted:"@.len() == 18);
    assert("VmallocTotal:"@.len() == 13 && "HardwareCorrupted:"@.len() == 18);
    assert("VmallocUsed:"@.len() == 12 && "HardwareCorrupted:"@.len() == 18);
    assert("VmallocChunk:"@.len() == 13 && "HardwareCorrupted:"@.len() == 18);
    assert("Percpu:"@.len() == 7 && "HardwareCorrupted:"@.len() == 18);
    assert(meminfo_key_index_from("HardwareCorrupted:"@, 39) == Some(39int));
    assert(meminfo_key_index_from("HardwareCorrupted:"@, 38) == Some(39int));
    assert(meminfo_key_index_from("HardwareCorrupted:"@, 37) == Some(39int));
    assert(meminfo_key_index_from("HardwareCorrupted:"@, 36) == Some(39int));
    assert(meminfo_key_index_from("HardwareCorrupted:"@, 35) == Some(39int));
    assert(meminfo_key_index_from("HardwareCorrupted:"@, 34) == Some(39int));
    assert(meminfo_key_index_from("HardwareCorrupted:"@, 33) == Some(39int));
    assert(meminfo_key_index_from("HardwareCorrupted:"@, 32) == Some(39int));
    assert(meminfo_key_index_from("HardwareCorrupted:"@, 31) == Some(39int));
    assert(meminfo_key_index_from("HardwareCorrupted:"@, 30) == Some(39int));
    assert(meminfo_key_index_from("HardwareCorrupted:"@, 29) == Some(39int));
    assert(meminfo_key_index_from("HardwareCorrupted:"@, 28) == Some(39int));
    assert(meminfo_key_index_from("HardwareCorrupted:"@, 27) == Some(39int));
    assert(meminfo_key_index_from("HardwareCorrupted:"@, 26) == Some(39int));
    assert(meminfo_key_index_from("HardwareCorrupted:"@, 25) == Some(39int));
    assert(meminfo_key_index_from("HardwareCorrupted:"@, 24) == Some(39int));
    assert(meminfo_key_index_from("HardwareCorrupted:"@, 23) == Some(39int));
    assert(meminfo_key_index_from("HardwareCorrupted:"@, 22) == Some(39int));
    assert(meminfo_key_index_from("HardwareCorrupted:"@, 21) == Some(39int));
    assert(meminfo_key_index_from("HardwareCorrupted:"@, 20) == Some(39int));
    assert(meminfo_key_index_from("HardwareCorrupted:"@, 19) == Some(39int));
    assert(meminfo_key_index_from("HardwareCorrupted:"@, 18) == Some(39int));
    assert(meminfo_key_index_from("HardwareCorrupted:"@, 17) == Some(39int));
    assert(meminfo_key_index_from("HardwareCorrupted:"@, 16) == Some(39int));
    assert(meminfo_key_index_from("HardwareCorrupted:"@, 15) == Some(39int));
    assert(meminfo_key_index_from("HardwareCorrupted:"@, 14) == Some(39int));
    assert(meminfo_key_index_from("HardwareCorrupted:"@, 13) == Some(39int));
    assert(meminfo_key_index_from("HardwareCorrupted:"@, 12) == Some(39int));
    assert(meminfo_key_index_from("HardwareCorrupted:"@, 11) == Some(39int));
    assert(meminfo_key_index_from("HardwareCorrupted:"@, 10) == Some(39int));
    assert(meminfo_key_index_from("HardwareCorrupted:"@, 9) == Some(39int));
    assert(meminfo_key_index_from("HardwareCorrupted:"@, 8) == Some(39int));
    assert(meminfo_key_index_from("HardwareCorrupted:"@, 7) == Some(39int));
    assert(meminfo_key_index_from("HardwareCorrupted:"@, 6) == Some(39int));
    assert(meminfo_key_index_from("HardwareCorrupted:"@, 5) == Some(39int));
    assert(meminfo_key_index_from("HardwareCorrupted:"@, 4) == Some(39int));
    assert(meminfo_key_index_from("HardwareCorrupted:"@, 3) == Some(39int));
    assert(meminfo_key_index_from("HardwareCorrupted:"@, 2) == Some(39int));
    assert(meminfo_key_index_from("HardwareCorrupted:"@, 1) == Some(39int));
    assert(meminfo_key_index_from("HardwareCorrupted:"@, 0) == Some(39int));
}

proof fn lemma_key_position_40()
    ensures
        meminfo_key_index("AnonHugePages:"@) == Some(40int),
{
    reveal_strlit("MemTotal:");
    reveal_strlit("MemFree:");
    reveal_strlit("MemAvailable:");
    reveal_strlit("Buffers:");
    reveal_strlit("Cached:");
    reveal_strlit("SwapCached:");
    reveal_strlit("Active:");
    reveal_strlit("Inactive:");
    reveal_strlit("Active(anon):");
    reveal_strlit("Inactive(anon):");
    reveal_strlit("Active(file):");
    reveal_strlit("Inactive(file):");
    reveal_strlit("Unevictable:");
    reveal_strlit("Mlocked:");
    reveal_strlit("SwapTotal:");
    reveal_strlit("SwapFree:");
    reveal_strlit("ZSwap:");
    reveal_strlit("ZSwapTotal:");
    reveal_strlit("Dirty:");
    reveal_strlit("Writeback:");
    reveal_strlit("AnonPages:");
    reveal_strlit("Mapped:");
    reveal_strlit("Shmem:");
    reveal_strlit("KReclaimable:");
    reveal_strlit("Slab:");
    reveal_strlit("SReclaimable:");
    reveal_strlit("SUnreclaim:");
    reveal_strlit("KernelStack:");
    reveal_strlit("PageTables:");
    reveal_strlit("SecMemTables:");
    reveal_strlit("NFS_Unstable:");
    reveal_strlit("Bounce:");
    reveal_strlit("WritebackTmp:");
    reveal_strlit("CommitLimit:");
    reveal_strlit("Committed_AS:");
    reveal_strlit("VmallocTotal:");
    reveal_strlit("VmallocUsed:");
    reveal_strlit("VmallocChunk:");
    reveal_strlit("Percpu:");
    reveal_strlit("HardwareCorrupted:");
    reveal_strlit("AnonHugePages:");
    assert("MemTotal:"@.len() == 9 && "AnonHugePages:"@.len() == 14);
    assert("MemFree:"@.len() == 8 && "AnonHugePages:"@.len() == 14);
    assert("MemAvailable:"@.len() == 13 && "AnonHugePages:"@.len() == 14);
    assert("Buffers:"@.len() == 8 && "AnonHugePages:"@.len() == 14);
    assert("Cached:"@.len() == 7 && "AnonHugePages:"@.len() == 14);
    assert("SwapCached:"@.len() == 11 && "AnonHugePages:"@.len() == 14);
    assert("Active:"@.len() == 7 && "AnonHugePages:"@.len() == 14);
    assert("Inactive:"@.len() == 9 && "AnonHugePages:"@.len() == 14);
    assert("Active(anon):"@.len() == 13 && "AnonHugePages:"@.len() == 14);
    assert("Inactive(anon):"@.len() == 15 && "AnonHugePages:"@.len() == 14);
    assert("Active(file):"@.len() == 13 && "AnonHugePages:"@.len() == 14);
    assert("Inactive(file):"@.len() == 15 && "AnonHugePages:"@.len() == 14);
    assert("Unevictable:"@.len() == 12 && "AnonHugePages:"@.len() == 14);
    assert("Mlocked:"@.len() == 8 && "AnonHugePages:"@.len() == 14);
    assert("SwapTotal:"@.len() == 10 && "AnonHugePages:"@.len() == 14);
    assert("SwapFree:"@.len() == 9 && "AnonHugePages:"@.len() == 14);
    assert("ZSwap:"@.len() == 6 && "AnonHugePages:"@.len() == 14);
    assert("ZSwapTotal:"@.len() == 11 && "AnonHugePages:"@.len() == 14);
    assert("Dirty:"@.len() == 6 && "AnonHugePages:"@.len() == 14);
    assert("Writeback:"@.len() == 10 && "AnonHugePages:"@.len() == 14);
    assert("AnonPages:"@.len() == 10 && "AnonHugePages:"@.len() == 14);
    assert("Mapped:"@.len() == 7 && "AnonHugePages:"@.len() == 14);
    assert("Shmem:"@.len() == 6 && "AnonHugePages:"@.len() == 14);
    assert("KReclaimable:"@.len() == 13 && "AnonHugePages:"@.len() == 14);
    assert("Slab:"@.len() == 5 && "AnonHugePages:"@.len() == 14);
    assert("SReclaimable:"@.len() == 13 && "AnonHugePages:"@.len() == 14);
    assert("SUnreclaim:"@.len() == 11 && "AnonHugePages:"@.len() == 14);
    assert("KernelStack:"@.len() == 12 && "AnonHugePages:"@.len() == 14);
    assert("PageTables:"@.len() == 11 && "AnonHugePages:"@.len() == 14);
    assert("SecMemTables:"@.len() == 13 && "AnonHugePages:"@.len() == 14);
    assert("NFS_Unstable:"@.len() == 13 && "AnonHugePages:"@.len() == 14);
    assert("Bounce:"@.len() == 7 && "AnonHugePages:"@.len() == 14);
    assert("WritebackTmp:"@.len() == 13 && "AnonHugePages:"@.len() == 14);
    assert("CommitLimit:"@.len() == 12 && "AnonHugePages:"@.len() == 14);
    assert("Committed_AS:"@.len() == 13 && "AnonHugePages:"@.len() == 14);
    assert("VmallocTotal:"@.len() == 13 && "AnonHugePages:"@.len() == 14);
    assert("VmallocUsed:"@.len() == 12 && "AnonHugePages:"@.len() == 14);
    assert("VmallocChunk:"@.len() == 13 && "AnonHugePages:"@.len() == 14);
    assert("Percpu:"@.len() == 7 && "AnonHugePages:"@.len() == 14);
    assert("HardwareCorrupted:"@.len() == 18 && "AnonHugePages:"@.len() == 14);
    assert(meminfo_key_index_from("AnonHugePages:"@, 40) == Some(40int));
    assert(meminfo_key_index_from("AnonHugePages:"@, 39) == Some(40int));
    assert(meminfo_key_index_from("AnonHugePages:"@, 38) == Some(40int));
    assert(meminfo_key_index_from("AnonHugePages:"@, 37) == Some(40int));
    assert(meminfo_key_index_from("AnonHugePages:"@, 36) == Some(40int));
    assert(meminfo_key_index_from("AnonHugePages:"@, 35) == Some(40int));
    assert(meminfo_key_index_from("AnonHugePages:"@, 34) == Some(40int));
    assert(meminfo_key_index_from("AnonHugePages:"@, 33) == Some(40int));
    assert(meminfo_key_index_from("AnonHugePages:"@, 32) == Some(40int));
    assert(meminfo_key_index_from("AnonHugePages:"@, 31) == Some(40int));
    assert(meminfo_key_index_from("AnonHugePages:"@, 30) == Some(40int));
    assert(meminfo_key_index_from("AnonHugePages:"@, 29) == Some(40int));
    assert(meminfo_key_index_from("AnonHugePages:"@, 28) == Some(40int));
    assert(meminfo_key_index_from("AnonHugePages:"@, 27) == Some(40int));
    assert(meminfo_key_index_from("AnonHugePages:"@, 26) == Some(40int));
    assert(meminfo_key_index_from("AnonHugePages:"@, 25) == Some(40int));
    assert(meminfo_key_index_from("AnonHugePages:"@, 24) == Some(40int));
    assert(meminfo_key_index_from("AnonHugePages:"@, 23) == Some(40int));
    assert(meminfo_key_index_from("AnonHugePages:"@, 22) == Some(40int));
    assert(meminfo_key_index_from("AnonHugePages:"@, 21) == Some(40int));
    assert(meminfo_key_index_from("AnonHugePages:"@, 20) == Some(40int));
    assert(meminfo_key_index_from("AnonHugePages:"@, 19) == Some(40int));
    assert(meminfo_key_index_from("AnonHugePages:"@, 18) == Some(40int));
    assert(meminfo_key_index_from("AnonHugePages:"@, 17) == Some(40int));
    assert(meminfo_key_index_from("AnonHugePages:"@, 16) == Some(40int));
    assert(meminfo_key_index_from("AnonHugePages:"@, 15) == Some(40int));
    assert(meminfo_key_index_from("AnonHugePages:"@, 14) == Some(40int));
    assert(meminfo_key_index_from("AnonHugePages:"@, 13) == Some(40int));
    assert(meminfo_key_index_from("AnonHugePages:"@, 12) == Some(40int));
    assert(meminfo_key_index_from("AnonHugePages:"@, 11) == Some(40int));
    assert(meminfo_key_index_from("AnonHugePages:"@, 10) == Some(40int));
    assert(meminfo_key_index_from("AnonHugePages:"@, 9) == Some(40int));
    assert(meminfo_key_index_from("AnonHugePages:"@, 8) == Some(40int));
    assert(meminfo_key_index_from("AnonHugePages:"@, 7) == Some(40int));
    assert(meminfo_key_index_from("AnonHugePages:"@, 6) == Some(40int));
    assert(meminfo_key_index_from("AnonHugePages:"@, 5) == Some(40int));
    assert(meminfo_key_index_from("AnonHugePages:"@, 4) == Some(40int));
    assert(meminfo_key_index_from("AnonHugePages:"@, 3) == Some(40int));
    assert(meminfo_key_index_from("AnonHugePages:"@, 2) == Some(40int));
    assert(meminfo_key_index_from("AnonHugePages:"@, 1) == Some(40int));
    assert(meminfo_key_index_from("AnonHugePages:"@, 0) == Some(40int));
}

proof fn lemma_key_position_41()
    ensures
        meminfo_key_index("ShmemHugePages:"@) == Some(41int),
{
    reveal_strlit("MemTotal:");
    reveal_strlit("MemFree:");
    reveal_strlit("MemAvailable:");
    reveal_strlit("Buffers:");
    reveal_strlit("Cached:");
    reveal_strlit("SwapCached:");
    reveal_strlit("Active:");
    reveal_strlit("Inactive:");
    reveal_strlit("Active(anon):");
    reveal_strlit("Inactive(anon):");
    reveal_strlit("Active(file):");
    reveal_strlit("Inactive(file):");
    reveal_strlit("Unevictable:");
    reveal_strlit("Mlocked:");
    reveal_strlit("SwapTotal:");
    reveal_strlit("SwapFree:");
    reveal_strlit("ZSwap:");
    reveal_strlit("ZSwapTotal:");
    reveal_strlit("Dirty:");
    reveal_strlit("Writeback:");
    reveal_strlit("AnonPages:");
    reveal_strlit("Mapped:");
    reveal_strlit("Shmem:");
    reveal_strlit("KReclaimable:");
    reveal_strlit("Slab:");
    reveal_strlit("SReclaimable:");
    reveal_strlit("SUnreclaim:");
    reveal_strlit("KernelStack:");
    reveal_strlit("PageTables:");
    reveal_strlit("SecMemTables:");
    reveal_strlit("NFS_Unstable:");
    reveal_strlit("Bounce:");
    reveal_strlit("WritebackTmp:");
    reveal_strlit("CommitLimit:");
    reveal_strlit("Committed_AS:");
    reveal_strlit("VmallocTotal:");
    reveal_strlit("VmallocUsed:");
    reveal_strlit("VmallocChunk:");
    reveal_strlit("Percpu:");
    reveal_strlit("HardwareCorrupted:");
    reveal_strlit("AnonHugePages:");
    reveal_strlit("ShmemHugePages:");
    assert("MemTotal:"@.len() == 9 && "ShmemHugePages:"@.len() == 15);
    assert("MemFree:"@.len() == 8 && "ShmemHugePages:"@.len() == 15);
    assert("MemAvailable:"@.len() == 13 && "ShmemHugePages:"@.len() == 15);
    assert("Buffers:"@.len() == 8 && "ShmemHugePages:"@.len() == 15);
    assert("Cached:"@.len() == 7 && "ShmemHugePages:"@.len() == 15);
    assert("SwapCached:"@.len() == 11 && "ShmemHugePages:"@.len() == 15);
    assert("Active:"@.len() == 7 && "ShmemHugePages:"@.len() == 15);
    assert("Inactive:"@.len() == 9 && "ShmemHugePages:"@.len() == 15);
    assert("Active(anon):"@.len() == 13 && "ShmemHugePages:"@.len() == 15);
    assert("Inactive(anon):"@[0] == 'I' && "ShmemHugePages:"@[0] == 'S');
    assert("Active(file):"@.len() == 13 && "ShmemHugePages:"@.len() == 15);
    assert("Inactive(file):"@[0] == 'I' && "ShmemHugePages:"@[0] == 'S');
    assert("Unevictable:"@.len() == 12 && "ShmemHugePages:"@.len() == 15);
    assert("Mlocked:"@.len() == 8 && "ShmemHugePages:"@.len() == 15);
    assert("SwapTotal:"@.len() == 10 && "ShmemHugePages:"@.len() == 15);
    assert("SwapFree:"@.len() == 9 && "ShmemHugePages:"@.len() == 15);
    assert("ZSwap:"@.len() == 6 && "ShmemHugePages:"@.len() == 15);
    assert("ZSwapTotal:"@.len() == 11 && "ShmemHugePages:"@.len() == 15);
    assert("Dirty:"@.len() == 6 && "ShmemHugePages:"@.len() == 15);
    assert("Writeback:"@.len() == 10 && "ShmemHugePages:"@.len() == 15);
    assert("AnonPages:"@.len() == 10 && "ShmemHugePages:"@.len() == 15);
    assert("Mapped:"@.len() == 7 && "ShmemHugePages:"@.len() == 15);
    assert("Shmem:"@.len() == 6 && "ShmemHugePages:"@.len() == 15);
    assert("KReclaimable:"@.len() == 13 && "ShmemHugePages:"@.len() == 15);
    assert("Slab:"@.len() == 5 && "ShmemHugePages:"@.len() == 15);
    assert("SReclaimable:"@.len() == 13 && "ShmemHugePages:"@.len() == 15);
    assert("SUnreclaim:"@.len() == 11 && "ShmemHugePages:"@.len() == 15);
    assert("KernelStack:"@.len() == 12 && "ShmemHugePages:"@.len() == 15);
    assert("PageTables:"@.len() == 11 && "ShmemHugePages:"@.len() == 15);
    assert("SecMemTables:"@.len() == 13 && "ShmemHugePages:"@.len() == 15);
    assert("NFS_Unstable:"@.len() == 13 && "ShmemHugePages:"@.len() == 15);
    assert("Bounce:"@.len() == 7 && "ShmemHugePages:"@.len() == 15);
    assert("WritebackTmp:"@.len() == 13 && "ShmemHugePages:"@.len() == 15);
    assert("CommitLimit:"@.len() == 12 && "ShmemHugePages:"@.len() == 15);
    assert("Committed_AS:"@.len() == 13 && "ShmemHugePages:"@.len() == 15);
    assert("VmallocTotal:"@.len() == 13 && "ShmemHugePages:"@.len() == 15);
    assert("VmallocUsed:"@.len() == 12 && "ShmemHugePages:"@.len() == 15);
    assert("VmallocChunk:"@.len() == 13 && "ShmemHugePages:"@.len() == 15);
    assert("Percpu:"@.len() == 7 && "ShmemHugePages:"@.len() == 15);
    assert("HardwareCorrupted:"@.len() == 18 && "ShmemHugePages:"@.len() == 15);
    assert("AnonHugePages:"@.len() == 14 && "ShmemHugePages:"@.len() == 15);
    assert(meminfo_key_index_from("ShmemHugePages:"@, 41) == Some(41int));
    assert(meminfo_key_index_from("ShmemHugePages:"@, 40) == Some(41int));
    assert(meminfo_key_index_from("ShmemHugePages:"@, 39) == Some(41int));
    assert(meminfo_key_index_from("ShmemHugePages:"@, 38) == Some(41int));
    assert(meminfo_key_index_from("ShmemHugePages:"@, 37) == Some(41int));
    assert(meminfo_key_index_from("ShmemHugePages:"@, 36) == Some(41int));
    assert(meminfo_key_index_from("ShmemHugePages:"@, 35) == Some(41int));
    assert(meminfo_key_index_from("ShmemHugePages:"@, 34) == Some(41int));
    assert(meminfo_key_index_from("ShmemHugePages:"@, 33) == Some(41int));
    assert(meminfo_key_index_from("ShmemHugePages:"@, 32) == Some(41int));
    assert(meminfo_key_index_from("ShmemHugePages:"@, 31) == Some(41int));
    assert(meminfo_key_index_from("ShmemHugePages:"@, 30) == Some(41int));
    assert(meminfo_key_index_from("ShmemHugePages:"@, 29) == Some(41int));
    assert(meminfo_key_index_from("ShmemHugePages:"@, 28) == Some(41int));
    assert(meminfo_key_index_from("ShmemHugePages:"@, 27) == Some(41int));
    assert(meminfo_key_index_from("ShmemHugePages:"@, 26) == Some(41int));
    assert(meminfo_key_index_from("ShmemHugePages:"@, 25) == Some(41int));
    assert(meminfo_key_index_from("ShmemHugePages:"@, 24) == Some(41int));
    assert(meminfo_key_index_from("ShmemHugePages:"@, 23) == Some(41int));
    assert(meminfo_key_index_from("ShmemHugePages:"@, 22) == Some(41int));
    assert(meminfo_key_index_from("ShmemHugePages:"@, 21) == Some(41int));
    assert(meminfo_key_index_from("ShmemHugePages:"@, 20) == Some(41int));
    assert(meminfo_key_index_from("ShmemHugePages:"@, 19) == Some(41int));
    assert(meminfo_key_index_from("ShmemHugePages:"@, 18) == Some(41int));
    assert(meminfo_key_index_from("ShmemHugePages:"@, 17) == Some(41int));
    assert(meminfo_key_index_from("ShmemHugePages:"@, 16) == Some(41int));
    assert(meminfo_key_index_from("ShmemHugePages:"@, 15) == Some(41int));
    assert(meminfo_key_index_from("ShmemHugePages:"@, 14) == Some(41int));
    assert(meminfo_key_index_from("ShmemHugePages:"@, 13) == Some(41int));
    assert(meminfo_key_index_from("ShmemHugePages:"@, 12) == Some(41int));
    assert(meminfo_key_index_from("ShmemHugePages:"@, 11) == Some(41int));
    assert(meminfo_key_index_from("ShmemHugePages:"@, 10) == Some(41int));
    assert(meminfo_key_index_from("ShmemHugePages:"@, 9) == Some(41int));
    assert(meminfo_key_index_from("ShmemHugePages:"@, 8) == Some(41int));
    assert(meminfo_key_index_from("ShmemHugePages:"@, 7) == Some(41int));
    assert(meminfo_key_index_from("ShmemHugePages:"@, 6) == Some(41int));
    assert(meminfo_key_index_from("ShmemHugePages:"@, 5) == Some(41int));
    assert(meminfo_key_index_from("ShmemHugePages:"@, 4) == Some(41int));
    assert(meminfo_key_index_from("ShmemHugePages:"@, 3) == Some(41int));
    assert(meminfo_key_index_from("ShmemHugePages:"@, 2) == Some(41int));
    assert(meminfo_key_index_from("ShmemHugePages:"@, 1) == Some(41int));
    assert(meminfo_key_index_from("ShmemHugePages:"@, 0) == Some(41int));
}

proof fn lemma_key_position_42()
    ensures
        meminfo_key_index("ShmemPmdMapped:"@) == Some(42int),
{
    reveal_strlit("MemTotal:");
    reveal_strlit("MemFree:");
    reveal_strlit("MemAvailable:");
    reveal_strlit("Buffers:");
    reveal_strlit("Cached:");
    reveal_strlit("SwapCached:");
    reveal_strlit("Active:");
    reveal_strlit("Inactive:");
    reveal_strlit("Active(anon):");
    reveal_strlit("Inactive(anon):");
    reveal_strlit("Active(file):");
    reveal_strlit("Inactive(file):");
    reveal_strlit("Unevictable:");
    reveal_strlit("Mlocked:");
    reveal_strlit("SwapTotal:");
    reveal_strlit("SwapFree:");
    reveal_strlit("ZSwap:");
    reveal_strlit("ZSwapTotal:");
    reveal_strlit("Dirty:");
    reveal_strlit("Writeback:");
    reveal_strlit("AnonPages:");
    reveal_strlit("Mapped:");
    reveal_strlit("Shmem:");
    reveal_strlit("KReclaimable:");
    reveal_strlit("Slab:");
    reveal_strlit("SReclaimable:");
    reveal_strlit("SUnreclaim:");
    reveal_strlit("KernelStack:");
    reveal_strlit("PageTables:");
    reveal_strlit("SecMemTables:");
    reveal_strlit("NFS_Unstable:");
    reveal_strlit("Bounce:");
    reveal_strlit("WritebackTmp:");
    reveal_strlit("CommitLimit:");
    reveal_strlit("Committed_AS:");
    reveal_strlit("VmallocTotal:");
    reveal_strlit("VmallocUsed:");
    reveal_strlit("VmallocChunk:");
    reveal_strlit("Percpu:");
    reveal_strlit("HardwareCorrupted:");
    reveal_strlit("AnonHugePages:");
    reveal_strlit("ShmemHugePages:");
    reveal_strlit("ShmemPmdMapped:");
    assert("MemTotal:"@.len() == 9 && "ShmemPmdMapped:"@.len() == 15);
    assert("MemFree:"@.len() == 8 && "ShmemPmdMapped:"@.len() == 15);
    assert("MemAvailable:"@.len() == 13 && "ShmemPmdMapped:"@.len() == 15);
    assert("Buffers:"@.len() == 8 && "ShmemPmdMapped:"@.len() == 15);
    assert("Cached:"@.len() == 7 && "ShmemPmdMapped:"@.len() == 15);
    assert("SwapCached:"@.len() == 11 && "ShmemPmdMapped:"@.len() == 15);
    assert("Active:"@.len() == 7 && "ShmemPmdMapped:"@.len() == 15);
    assert("Inactive:"@.len() == 9 && "ShmemPmdMapped:"@.len() == 15);
    assert("Active(anon):"@.len() == 13 && "ShmemPmdMapped:"@.len() == 15);
    assert("Inactive(anon):"@[0] == 'I' && "ShmemPmdMapped:"@[0] == 'S');
    assert("Active(file):"@.len() == 13 && "ShmemPmdMapped:"@.len() == 15);
    assert("Inactive(file):"@[0] == 'I' && "ShmemPmdMapped:"@[0] == 'S');
    assert("Unevictable:"@.len() == 12 && "ShmemPmdMapped:"@.len() == 15);
    assert("Mlocked:"@.len() == 8 && "ShmemPmdMapped:"@.len() == 15);
    assert("SwapTotal:"@.len() == 10 && "ShmemPmdMapped:"@.len() == 15);
    assert("SwapFree:"@.len() == 9 && "ShmemPmdMapped:"@.len() == 15);
    assert("ZSwap:"@.len() == 6 && "ShmemPmdMapped:"@.len() == 15);
    assert("ZSwapTotal:"@.len() == 11 && "ShmemPmdMapped:"@.len() == 15);
    assert("Dirty:"@.len() == 6 && "ShmemPmdMapped:"@.len() == 15);
    assert("Writeback:"@.len() == 10 && "ShmemPmdMapped:"@.len() == 15);
    assert("AnonPages:"@.len() == 10 && "ShmemPmdMapped:"@.len() == 15);
    assert("Mapped:"@.len() == 7 && "ShmemPmdMapped:"@.len() == 15);
    assert("Shmem:"@.len() == 6 && "ShmemPmdMapped:"@.len() == 15);
    assert("KReclaimable:"@.len() == 13 && "ShmemPmdMapped:"@.len() == 15);
    assert("Slab:"@.len() == 5 && "ShmemPmdMapped:"@.len() == 15);
    assert("SReclaimable:"@.len() == 13 && "ShmemPmdMapped:"@.len() == 15);
    assert("SUnreclaim:"@.len() == 11 && "ShmemPmdMapped:"@.len() == 15);
    assert("KernelStack:"@.len() == 12 && "ShmemPmdMapped:"@.len() == 15);
    assert("PageTables:"@.len() == 11 && "ShmemPmdMapped:"@.len() == 15);
    assert("SecMemTables:"@.len() == 13 && "ShmemPmdMapped:"@.len() == 15);
    assert("NFS_Unstable:"@.len() == 13 && "ShmemPmdMapped:"@.len() == 15);
    assert("Bounce:"@.len() == 7 && "ShmemPmdMapped:"@.len() == 15);
    assert("WritebackTmp:"@.len() == 13 && "ShmemPmdMapped:"@.len() == 15);
    assert("CommitLimit:"@.len() == 12 && "ShmemPmdMapped:"@.len() == 15);
    assert("Committed_AS:"@.len() == 13 && "ShmemPmdMapped:"@.len() == 15);
    assert("VmallocTotal:"@.len() == 13 && "ShmemPmdMapped:"@.len() == 15);
    assert("VmallocUsed:"@.len() == 12 && "ShmemPmdMapped:"@.len() == 15);
    assert("VmallocChunk:"@.len() == 13 && "ShmemPmdMapped:"@.len() == 15);
    assert("Percpu:"@.len() == 7 && "ShmemPmdMapped:"@.len() == 15);
    assert("HardwareCorrupted:"@.len() == 18 && "ShmemPmdMapped:"@.len() == 15);
    assert("AnonHugePages:"@.len() == 14 && "ShmemPmdMapped:"@.len() == 15);
    assert("ShmemHugePages:"@[5] == 'H' && "ShmemPmdMapped:"@[5] == 'P');
    assert(meminfo_key_index_from("ShmemPmdMapped:"@, 42) == Some(42int));
    assert(meminfo_key_index_from("ShmemPmdMapped:"@, 41) == Some(42int));
    assert(meminfo_key_index_from("ShmemPmdMapped:"@, 40) == Some(42int));
    assert(meminfo_key_index_from("ShmemPmdMapped:"@, 39) == Some(42int));
    assert(meminfo_key_index_from("ShmemPmdMapped:"@, 38) == Some(42int));
    assert(meminfo_key_index_from("ShmemPmdMapped:"@, 37) == Some(42int));
    assert(meminfo_key_index_from("ShmemPmdMapped:"@, 36) == Some(42int));
    assert(meminfo_key_index_from("ShmemPmdMapped:"@, 35) == Some(42int));
    assert(meminfo_key_index_from("ShmemPmdMapped:"@, 34) == Some(42int));
    assert(meminfo_key_index_from("ShmemPmdMapped:"@, 33) == Some(42int));
    assert(meminfo_key_index_from("ShmemPmdMapped:"@, 32) == Some(42int));
    assert(meminfo_key_index_from("ShmemPmdMapped:"@, 31) == Some(42int));
    assert(meminfo_key_index_from("ShmemPmdMapped:"@, 30) == Some(42int));
    assert(meminfo_key_index_from("ShmemPmdMapped:"@, 29) == Some(42int));
    assert(meminfo_key_index_from("ShmemPmdMapped:"@, 28) == Some(42int));
    assert(meminfo_key_index_from("ShmemPmdMapped:"@, 27) == Some(42int));
    assert(meminfo_key_index_from("ShmemPmdMapped:"@, 26) == Some(42int));
    assert(meminfo_key_index_from("ShmemPmdMapped:"@, 25) == Some(42int));
    assert(meminfo_key_index_from("ShmemPmdMapped:"@, 24) == Some(42int));
    assert(meminfo_key_index_from("ShmemPmdMapped:"@, 23) == Some(42int));
    assert(meminfo_key_index_from("ShmemPmdMapped:"@, 22) == Some(42int));
    assert(meminfo_key_index_from("ShmemPmdMapped:"@, 21) == Some(42int));
    assert(meminfo_key_index_from("ShmemPmdMapped:"@, 20) == Some(42int));
    assert(meminfo_key_index_from("ShmemPmdMapped:"@, 19) == Some(42int));
    assert(meminfo_key_index_from("ShmemPmdMapped:"@, 18) == Some(42int));
    assert(meminfo_key_index_from("ShmemPmdMapped:"@, 17) == Some(42int));
    assert(meminfo_key_index_from("ShmemPmdMapped:"@, 16) == Some(42int));
    assert(meminfo_key_index_from("ShmemPmdMapped:"@, 15) == Some(42int));
    assert(meminfo_key_index_from("ShmemPmdMapped:"@, 14) == Some(42int));
    assert(meminfo_key_index_from("ShmemPmdMapped:"@, 13) == Some(42int));
    assert(meminfo_key_index_from("ShmemPmdMapped:"@, 12) == Some(42int));
    assert(meminfo_key_index_from("ShmemPmdMapped:"@, 11) == Some(42int));
    assert(meminfo_key_index_from("ShmemPmdMapped:"@, 10) == Some(42int));
    assert(meminfo_key_index_from("ShmemPmdMapped:"@, 9) == Some(42int));
    assert(meminfo_key_index_from("ShmemPmdMapped:"@, 8) == Some(42int));
    assert(meminfo_key_index_from("ShmemPmdMapped:"@, 7) == Some(42int));
    assert(meminfo_key_index_from("ShmemPmdMapped:"@, 6) == Some(42int));
    assert(meminfo_key_index_from("ShmemPmdMapped:"@, 5) == Some(42int));
    assert(meminfo_key_index_from("ShmemPmdMapped:"@, 4) == Some(42int));
    assert(meminfo_key_index_from("ShmemPmdMapped:"@, 3) == Some(42int));
    assert(meminfo_key_index_from("ShmemPmdMapped:"@, 2) == Some(42int));
    assert(meminfo_key_index_from("ShmemPmdMapped:"@, 1) == Some(42int));
    assert(meminfo_key_index_from("ShmemPmdMapped:"@, 0) == Some(42int));
}

proof fn lemma_key_position_43()
    ensures
        meminfo_key_index("FileHugePages:"@) == Some(43int),
{
    reveal_strlit("MemTotal:");
    reveal_strlit("MemFree:");
    reveal_strlit("MemAvailable:");
    reveal_strlit("Buffers:");
    reveal_strlit("Cached:");
    reveal_strlit("SwapCached:");
    reveal_strlit("Active:");
    reveal_strlit("Inactive:");
    reveal_strlit("Active(anon):");
    reveal_strlit("Inactive(anon):");
    reveal_strlit("Active(file):");
    reveal_strlit("Inactive(file):");
    reveal_strlit("Unevictable:");
    reveal_strlit("Mlocked:");
    reveal_strlit("SwapTotal:");
    reveal_strlit("SwapFree:");
    reveal_strlit("ZSwap:");
    reveal_strlit("ZSwapTotal:");
    reveal_strlit("Dirty:");
    reveal_strlit("Writeback:");
    reveal_strlit("AnonPages:");
    reveal_strlit("Mapped:");
    reveal_strlit("Shmem:");
    reveal_strlit("KReclaimable:");
    reveal_strlit("Slab:");
    reveal_strlit("SReclaimable:");
    reveal_strlit("SUnreclaim:");
    reveal_strlit("KernelStack:");
    reveal_strlit("PageTables:");
    reveal_strlit("SecMemTables:");
    reveal_strlit("NFS_Unstable:");
    reveal_strlit("Bounce:");
    reveal_strlit("WritebackTmp:");
    reveal_strlit("CommitLimit:");
    reveal_strlit("Committed_AS:");
    reveal_strlit("VmallocTotal:");
    reveal_strlit("VmallocUsed:");
    reveal_strlit("VmallocChunk:");
    reveal_strlit("Percpu:");
    reveal_strlit("HardwareCorrupted:");
    reveal_strlit("AnonHugePages:");
    reveal_strlit("ShmemHugePages:");
    reveal_strlit("ShmemPmdMapped:");
    reveal_strlit("FileHugePages:");
    assert("MemTotal:"@.len() == 9 && "FileHugePages:"@.len() == 14);
    assert("MemFree:"@.len() == 8 && "FileHugePages:"@.len() == 14);
    assert("MemAvailable:"@.len() == 13 && "FileHugePages:"@.len() == 14);
    assert("Buffers:"@.len() == 8 && "FileHugePages:"@.len() == 14);
    assert("Cached:"@.len() == 7 && "FileHugePages:"@.len() == 14);
    assert("SwapCached:"@.len() == 11 && "FileHugePages:"@.len() == 14);
    assert("Active:"@.len() == 7 && "FileHugePages:"@.len() == 14);
    assert("Inactive:"@.len() == 9 && "FileHugePages:"@.len() == 14);
    assert("Active(anon):"@.len() == 13 && "FileHugePages:"@.len() == 14);
    assert("Inactive(anon):"@.len() == 15 && "FileHugePages:"@.len() == 14);
    assert("Active(file):"@.len() == 13 && "FileHugePages:"@.len() == 14);
    assert("Inactive(file):"@.len() == 15 && "FileHugePages:"@.len() == 14);
    assert("Unevictable:"@.len() == 12 && "FileHugePages:"@.len() == 14);
    assert("Mlocked:"@.len() == 8 && "FileHugePages:"@.len() == 14);
    assert("SwapTotal:"@.len() == 10 && "FileHugePages:"@.len() == 14);
    assert("SwapFree:"@.len() == 9 && "FileHugePages:"@.len() == 14);
    assert("ZSwap:"@.len() == 6 && "FileHugePages:"@.len() == 14);
    assert("ZSwapTotal:"@.len() == 11 && "FileHugePages:"@.len() == 14);
    assert("Dirty:"@.len() == 6 && "FileHugePages:"@.len() == 14);
    assert("Writeback:"@.len() == 10 && "FileHugePages:"@.len() == 14);
    assert("AnonPages:"@.len() == 10 && "FileHugePages:"@.len() == 14);
    assert("Mapped:"@.len() == 7 && "FileHugePages:"@.len() == 14);
    assert("Shmem:"@.len() == 6 && "FileHugePages:"@.len() == 14);
    assert("KReclaimable:"@.len() == 13 && "FileHugePages:"@.len() == 14);
    assert("Slab:"@.len() == 5 && "FileHugePages:"@.len() == 14);
    assert("SReclaimable:"@.len() == 13 && "FileHugePages:"@.len() == 14);
    assert("SUnreclaim:"@.len() == 11 && "FileHugePages:"@.len() == 14);
    assert("KernelStack:"@.len() == 12 && "FileHugePages:"@.len() == 14);
    assert("PageTables:"@.len() == 11 && "FileHugePages:"@.len() == 14);
    assert("SecMemTables:"@.len() == 13 && "FileHugePages:"@.len() == 14);
    assert("NFS_Unstable:"@.len() == 13 && "FileHugePages:"@.len() == 14);
    assert("Bounce:"@.len() == 7 && "FileHugePages:"@.len() == 14);
    assert("WritebackTmp:"@.len() == 13 && "FileHugePages:"@.len() == 14);
    assert("CommitLimit:"@.len() == 12 && "FileHugePages:"@.len() == 14);
    assert("Committed_AS:"@.len() == 13 && "FileHugePages:"@.len() == 14);
    assert("VmallocTotal:"@.len() == 13 && "FileHugePages:"@.len() == 14);
    assert("VmallocUsed:"@.len() == 12 && "FileHugePages:"@.len() == 14);
    assert("VmallocChunk:"@.len() == 13 && "FileHugePages:"@.len() == 14);
    assert("Percpu:"@.len() == 7 && "FileHugePages:"@.len() == 14);
    assert("HardwareCorrupted:"@.len() == 18 && "FileHugePages:"@.len() == 14);
    assert("AnonHugePages:"@[0] == 'A' && "FileHugePages:"@[0] == 'F');
    assert("ShmemHugePages:"@.len() == 15 && "FileHugePages:"@.len() == 14);
    assert("ShmemPmdMapped:"@.len() == 15 && "FileHugePages:"@.len() == 14);
    assert(meminfo_key_index_from("FileHugePages:"@, 43) == Some(43int));
    assert(meminfo_key_index_from("FileHugePages:"@, 42) == Some(43int));
    assert(meminfo_key_index_from("FileHugePages:"@, 41) == Some(43int));
    assert(meminfo_key_index_from("FileHugePages:"@, 40) == Some(43int));
    assert(meminfo_key_index_from("FileHugePages:"@, 39) == Some(43int));
    assert(meminfo_key_index_from("FileHugePages:"@, 38) == Some(43int));
    assert(meminfo_key_index_from("FileHugePages:"@, 37) == Some(43int));
    assert(meminfo_key_index_from("FileHugePages:"@, 36) == Some(43int));
    assert(meminfo_key_index_from("FileHugePages:"@, 35) == Some(43int));
    assert(meminfo_key_index_from("FileHugePages:"@, 34) == Some(43int));
    assert(meminfo_key_index_from("FileHugePages:"@, 33) == Some(43int));
    assert(meminfo_key_index_from("FileHugePages:"@, 32) == Some(43int));
    assert(meminfo_key_index_from("FileHugePages:"@, 31) == Some(43int));
    assert(meminfo_key_index_from("FileHugePages:"@, 30) == Some(43int));
    assert(meminfo_key_index_from("FileHugePages:"@, 29) == Some(43int));
    assert(meminfo_key_index_from("FileHugePages:"@, 28) == Some(43int));
    assert(meminfo_key_index_from("FileHugePages:"@, 27) == Some(43int));
    assert(meminfo_key_index_from("FileHugePages:"@, 26) == Some(43int));
    assert(meminfo_key_index_from("FileHugePages:"@, 25) == Some(43int));
    assert(meminfo_key_index_from("FileHugePages:"@, 24) == Some(43int));
    assert(meminfo_key_index_from("FileHugePages:"@, 23) == Some(43int));
    assert(meminfo_key_index_from("FileHugePages:"@, 22) == Some(43int));
    assert(meminfo_key_index_from("FileHugePages:"@, 21) == Some(43int));
    assert(meminfo_key_index_from("FileHugePages:"@, 20) == Some(43int));
    assert(meminfo_key_index_from("FileHugePages:"@, 19) == Some(43int));
    assert(meminfo_key_index_from("FileHugePages:"@, 18) == Some(43int));
    assert(meminfo_key_index_from("FileHugePages:"@, 17) == Some(43int));
    assert(meminfo_key_index_from("FileHugePages:"@, 16) == Some(43int));
    assert(meminfo_key_index_from("FileHugePages:"@, 15) == Some(43int));
    assert(meminfo_key_index_from("FileHugePages:"@, 14) == Some(43int));
    assert(meminfo_key_index_from("FileHugePages:"@, 13) == Some(43int));
    assert(meminfo_key_index_from("FileHugePages:"@, 12) == Some(43int));
    assert(meminfo_key_index_from("FileHugePages:"@, 11) == Some(43int));
    assert(meminfo_key_index_from("FileHugePages:"@, 10) == Some(43int));
    assert(meminfo_key_index_from("FileHugePages:"@, 9) == Some(43int));
    assert(meminfo_key_index_from("FileHugePages:"@, 8) == Some(43int));
    assert(meminfo_key_index_from("FileHugePages:"@, 7) == Some(43int));
    assert(meminfo_key_index_from("FileHugePages:"@, 6) == Some(43int));
    assert(meminfo_key_index_from("FileHugePages:"@, 5) == Some(43int));
    assert(meminfo_key_index_from("FileHugePages:"@, 4) == Some(43int));
    assert(meminfo_key_index_from("FileHugePages:"@, 3) == Some(43int));
    assert(meminfo_key_index_from("FileHugePages:"@, 2) == Some(43int));
    assert(meminfo_key_index_from("FileHugePages:"@, 1) == Some(43int));
    assert(meminfo_key_index_from("FileHugePages:"@, 0) == Some(43int));
}

proof fn lemma_key_position_44()
    ensures
        meminfo_key_index("FilePmdMapped:"@) == Some(44int),
{
    reveal_strlit("MemTotal:");
    reveal_strlit("MemFree:");
    reveal_strlit("MemAvailable:");
    reveal_strlit("Buffers:");
    reveal_strlit("Cached:");
    reveal_strlit("SwapCached:");
    reveal_strlit("Active:");
    reveal_strlit("Inactive:");
    reveal_strlit("Active(anon):");
    reveal_strlit("Inactive(anon):");
    reveal_strlit("Active(file):");
    reveal_strlit("Inactive(file):");
    reveal_strlit("Unevictable:");
    reveal_strlit("Mlocked:");
    reveal_strlit("SwapTotal:");
    reveal_strlit("SwapFree:");
    reveal_strlit("ZSwap:");
    reveal_strlit("ZSwapTotal:");
    reveal_strlit("Dirty:");
    reveal_strlit("Writeback:");
    reveal_strlit("AnonPages:");
    reveal_strlit("Mapped:");
    reveal_strlit("Shmem:");
    reveal_strlit("KReclaimable:");
    reveal_strlit("Slab:");
    reveal_strlit("SReclaimable:");
    reveal_strlit("SUnreclaim:");
    reveal_strlit("KernelStack:");
    reveal_strlit("PageTables:");
    reveal_strlit("SecMemTables:");
    reveal_strlit("NFS_Unstable:");
    reveal_strlit("Bounce:");
    reveal_strlit("WritebackTmp:");
    reveal_strlit("CommitLimit:");
    reveal_strlit("Committed_AS:");
    reveal_strlit("VmallocTotal:");
    reveal_strlit("VmallocUsed:");
    reveal_strlit("VmallocChunk:");
    reveal_strlit("Percpu:");
    reveal_strlit("HardwareCorrupted:");
    reveal_strlit("AnonHugePages:");
    reveal_strlit("ShmemHugePages:");
    reveal_strlit("ShmemPmdMapped:");
    reveal_strlit("FileHugePages:");
    reveal_strlit("FilePmdMapped:");
    assert("MemTotal:"@.len() == 9 && "FilePmdMapped:"@.len() == 14);
    assert("MemFree:"@.len() == 8 && "FilePmdMapped:"@.len() == 14);
    assert("MemAvailable:"@.len() == 13 && "FilePmdMapped:"@.len() == 14);
    assert("Buffers:"@.len() == 8 && "FilePmdMapped:"@.len() == 14);
    assert("Cached:"@.len() == 7 && "FilePmdMapped:"@.len() == 14);
    assert("SwapCached:"@.len() == 11 && "FilePmdMapped:"@.len() == 14);
    assert("Active:"@.len() == 7 && "FilePmdMapped:"@.len() == 14);
    assert("Inactive:"@.len() == 9 && "FilePmdMapped:"@.len() == 14);
    assert("Active(anon):"@.len() == 13 && "FilePmdMapped:"@.len() == 14);
    assert("Inactive(anon):"@.len() == 15 && "FilePmdMapped:"@.len() == 14);
    assert("Active(file):"@.len() == 13 && "FilePmdMapped:"@.len() == 14);
    assert("Inactive(file):"@.len() == 15 && "FilePmdMapped:"@.len() == 14);
    assert("Unevictable:"@.len() == 12 && "FilePmdMapped:"@.len() == 14);
    assert("Mlocked:"@.len() == 8 && "FilePmdMapped:"@.len() == 14);
    assert("SwapTotal:"@.len() == 10 && "FilePmdMapped:"@.len() == 14);
    assert("SwapFree:"@.len() == 9 && "FilePmdMapped:"@.len() == 14);
    assert("ZSwap:"@.len() == 6 && "FilePmdMapped:"@.len() == 14);
    assert("ZSwapTotal:"@.len() == 11 && "FilePmdMapped:"@.len() == 14);
    assert("Dirty:"@.len() == 6 && "FilePmdMapped:"@.len() == 14);
    assert("Writeback:"@.len() == 10 && "FilePmdMapped:"@.len() == 14);
    assert("AnonPages:"@.len() == 10 && "FilePmdMapped:"@.len() == 14);
    assert("Mapped:"@.len() == 7 && "FilePmdMapped:"@.len() == 14);
    assert("Shmem:"@.len() == 6 && "FilePmdMapped:"@.len() == 14);
    assert("KReclaimable:"@.len() == 13 && "FilePmdMapped:"@.len() == 14);
    assert("Slab:"@.len() == 5 && "FilePmdMapped:"@.len() == 14);
    assert("SReclaimable:"@.len() == 13 && "FilePmdMapped:"@.len() == 14);
    assert("SUnreclaim:"@.len() == 11 && "FilePmdMapped:"@.len() == 14);
    assert("KernelStack:"@.len() == 12 && "FilePmdMapped:"@.len() == 14);
    assert("PageTables:"@.len() == 11 && "FilePmdMapped:"@.len() == 14);
    assert("SecMemTables:"@.len() == 13 && "FilePmdMapped:"@.len() == 14);
    assert("NFS_Unstable:"@.len() == 13 && "FilePmdMapped:"@.len() == 14);
    assert("Bounce:"@.len() == 7 && "FilePmdMapped:"@.len() == 14);
    assert("WritebackTmp:"@.len() == 13 && "FilePmdMapped:"@.len() == 14);
    assert("CommitLimit:"@.len() == 12 && "FilePmdMapped:"@.len() == 14);
    assert("Committed_AS:"@.len() == 13 && "FilePmdMapped:"@.len() == 14);
    assert("VmallocTotal:"@.len() == 13 && "FilePmdMapped:"@.len() == 14);
    assert("VmallocUsed:"@.len() == 12 && "FilePmdMapped:"@.len() == 14);
    assert("VmallocChunk:"@.len() == 13 && "FilePmdMapped:"@.len() == 14);
    assert("Percpu:"@.len() == 7 && "FilePmdMapped:"@.len() == 14);
    assert("HardwareCorrupted:"@.len() == 18 && "FilePmdMapped:"@.len() == 14);
    assert("AnonHugePages:"@[0] == 'A' && "FilePmdMapped:"@[0] == 'F');
    assert("ShmemHugePages:"@.len() == 15 && "FilePmdMapped:"@.len() == 14);
    assert("ShmemPmdMapped:"@.len() == 15 && "FilePmdMapped:"@.len() == 14);
    assert("FileHugePages:"@[4] == 'H' && "FilePmdMapped:"@[4] == 'P');
    assert(meminfo_key_index_from("FilePmdMapped:"@, 44) == Some(44int));
    assert(meminfo_key_index_from("FilePmdMapped:"@, 43) == Some(44int));
    assert(meminfo_key_index_from("FilePmdMapped:"@, 42) == Some(44int));
    assert(meminfo_key_index_from("FilePmdMapped:"@, 41) == Some(44int));
    assert(meminfo_key_index_from("FilePmdMapped:"@, 40) == Some(44int));
    assert(meminfo_key_index_from("FilePmdMapped:"@, 39) == Some(44int));
    assert(meminfo_key_index_from("FilePmdMapped:"@, 38) == Some(44int));
    assert(meminfo_key_index_from("FilePmdMapped:"@, 37) == Some(44int));
    assert(meminfo_key_index_from("FilePmdMapped:"@, 36) == Some(44int));
    assert(meminfo_key_index_from("FilePmdMapped:"@, 35) == Some(44int));
    assert(meminfo_key_index_from("FilePmdMapped:"@, 34) == Some(44int));
    assert(meminfo_key_index_from("FilePmdMapped:"@, 33) == Some(44int));
    assert(meminfo_key_index_from("FilePmdMapped:"@, 32) == Some(44int));
    assert(meminfo_key_index_from("FilePmdMapped:"@, 31) == Some(44int));
    assert(meminfo_key_index_from("FilePmdMapped:"@, 30) == Some(44int));
    assert(meminfo_key_index_from("FilePmdMapped:"@, 29) == Some(44int));
    assert(meminfo_key_index_from("FilePmdMapped:"@, 28) == Some(44int));
    assert(meminfo_key_index_from("FilePmdMapped:"@, 27) == Some(44int));
    assert(meminfo_key_index_from("FilePmdMapped:"@, 26) == Some(44int));
    assert(meminfo_key_index_from("FilePmdMapped:"@, 25) == Some(44int));
    assert(meminfo_key_index_from("FilePmdMapped:"@, 24) == Some(44int));
    assert(meminfo_key_index_from("FilePmdMapped:"@, 23) == Some(44int));
    assert(meminfo_key_index_from("FilePmdMapped:"@, 22) == Some(44int));
    assert(meminfo_key_index_from("FilePmdMapped:"@, 21) == Some(44int));
    assert(meminfo_key_index_from("FilePmdMapped:"@, 20) == Some(44int));
    assert(meminfo_key_index_from("FilePmdMapped:"@, 19) == Some(44int));
    assert(meminfo_key_index_from("FilePmdMapped:"@, 18) == Some(44int));
    assert(meminfo_key_index_from("FilePmdMapped:"@, 17) == Some(44int));
    assert(meminfo_key_index_from("FilePmdMapped:"@, 16) == Some(44int));
    assert(meminfo_key_index_from("FilePmdMapped:"@, 15) == Some(44int));
    assert(meminfo_key_index_from("FilePmdMapped:"@, 14) == Some(44int));
    assert(meminfo_key_index_from("FilePmdMapped:"@, 13) == Some(44int));
    assert(meminfo_key_index_from("FilePmdMapped:"@, 12) == Some(44int));
    assert(meminfo_key_index_from("FilePmdMapped:"@, 11) == Some(44int));
    assert(meminfo_key_index_from("FilePmdMapped:"@, 10) == Some(44int));
    assert(meminfo_key_index_from("FilePmdMapped:"@, 9) == Some(44int));
    assert(meminfo_key_index_from("FilePmdMapped:"@, 8) == Some(44int));
    assert(meminfo_key_index_from("FilePmdMapped:"@, 7) == Some(44int));
    assert(meminfo_key_index_from("FilePmdMapped:"@, 6) == Some(44int));
    assert(meminfo_key_index_from("FilePmdMapped:"@, 5) == Some(44int));
    assert(meminfo_key_index_from("FilePmdMapped:"@, 4) == Some(44int));
    assert(meminfo_key_index_from("FilePmdMapped:"@, 3) == Some(44int));
    assert(meminfo_key_index_from("FilePmdMapped:"@, 2) == Some(44int));
    assert(meminfo_key_index_from("FilePmdMapped:"@, 1) == Some(44int));
    assert(meminfo_key_index_from("FilePmdMapped:"@, 0) == Some(44int));
}

proof fn lemma_key_position_45()
    ensures
        meminfo_key_index("CmaTotal:"@) == Some(45int),
{
    reveal_strlit("MemTotal:");
    reveal_strlit("MemFree:");
    reveal_strlit("MemAvailable:");
    reveal_strlit("Buffers:");
    reveal_strlit("Cached:");
    reveal_strlit("SwapCached:");
    reveal_strlit("Active:");
    reveal_strlit("Inactive:");
    reveal_strlit("Active(anon):");
    reveal_strlit("Inactive(anon):");
    reveal_strlit("Active(file):");
    reveal_strlit("Inactive(file):");
    reveal_strlit("Unevictable:");
    reveal_strlit("Mlocked:");
    reveal_strlit("SwapTotal:");
    reveal_strlit("SwapFree:");
    reveal_strlit("ZSwap:");
    reveal_strlit("ZSwapTotal:");
    reveal_strlit("Dirty:");
    reveal_strlit("Writeback:");
    reveal_strlit("AnonPages:");
    reveal_strlit("Mapped:");
    reveal_strlit("Shmem:");
    reveal_strlit("KReclaimable:");
    reveal_strlit("Slab:");
    reveal_strlit("SReclaimable:");
    reveal_strlit("SUnreclaim:");
    reveal_strlit("KernelStack:");
    reveal_strlit("PageTables:");
    reveal_strlit("SecMemTables:");
    reveal_strlit("NFS_Unstable:");
    reveal_strlit("Bounce:");
    reveal_strlit("WritebackTmp:");
    reveal_strlit("CommitLimit:");
    reveal_strlit("Committed_AS:");
    reveal_strlit("VmallocTotal:");
    reveal_strlit("VmallocUsed:");
    reveal_strlit("VmallocChunk:");
    reveal_strlit("Percpu:");
    reveal_strlit("HardwareCorrupted:");
    reveal_strlit("AnonHugePages:");
    reveal_strlit("ShmemHugePages:");
    reveal_strlit("ShmemPmdMapped:");
    reveal_strlit("FileHugePages:");
    reveal_strlit("FilePmdMapped:");
    reveal_strlit("CmaTotal:");
    assert("MemTotal:"@[0] == 'M' && "CmaTotal:"@[0] == 'C');
    assert("MemFree:"@.len() == 8 && "CmaTotal:"@.len() == 9);
    assert("MemAvailable:"@.len() == 13 && "CmaTotal:"@.len() == 9);
    assert("Buffers:"@.len() == 8 && "CmaTotal:"@.len() == 9);
    assert("Cached:"@.len() == 7 && "CmaTotal:"@.len() == 9);
    assert("SwapCached:"@.len() == 11 && "CmaTotal:"@.len() == 9);
    assert("Active:"@.len() == 7 && "CmaTotal:"@.len() == 9);
    assert("Inactive:"@[0] == 'I' && "CmaTotal:"@[0] == 'C');
    assert("Active(anon):"@.len() == 13 && "CmaTotal:"@.len() == 9);
    assert("Inactive(anon):"@.len() == 15 && "CmaTotal:"@.len() == 9);
    assert("Active(file):"@.len() == 13 && "CmaTotal:"@.len() == 9);
    assert("Inactive(file):"@.len() == 15 && "CmaTotal:"@.len() == 9);
    assert("Unevictable:"@.len() == 12 && "CmaTotal:"@.len() == 9);
    assert("Mlocked:"@.len() == 8 && "CmaTotal:"@.len() == 9);
    assert("SwapTotal:"@.len() == 10 && "CmaTotal:"@.len() == 9);
    assert("SwapFree:"@[0] == 'S' && "CmaTotal:"@[0] == 'C');
    assert("ZSwap:"@.len() == 6 && "CmaTotal:"@.len() == 9);
    assert("ZSwapTotal:"@.len() == 11 && "CmaTotal:"@.len() == 9);
    assert("Dirty:"@.len() == 6 && "CmaTotal:"@.len() == 9);
    assert("Writeback:"@.len() == 10 && "CmaTotal:"@.len() == 9);
    assert("AnonPages:"@.len() == 10 && "CmaTotal:"@.len() == 9);
    assert("Mapped:"@.len() == 7 && "CmaTotal:"@.len() == 9);
    assert("Shmem:"@.len() == 6 && "CmaTotal:"@.len() == 9);
    assert("KReclaimable:"@.len() == 13 && "CmaTotal:"@.len() == 9);
    assert("Slab:"@.len() == 5 && "CmaTotal:"@.len() == 9);
    assert("SReclaimable:"@.len() == 13 && "CmaTotal:"@.len() == 9);
    assert("SUnreclaim:"@.len() == 11 && "CmaTotal:"@.len() == 9);
    assert("KernelStack:"@.len() == 12 && "CmaTotal:"@.len() == 9);
    assert("PageTables:"@.len() == 11 && "CmaTotal:"@.len() == 9);
    assert("SecMemTables:"@.len() == 13 && "CmaTotal:"@.len() == 9);
    assert("NFS_Unstable:"@.len() == 13 && "CmaTotal:"@.len() == 9);
    assert("Bounce:"@.len() == 7 && "CmaTotal:"@.len() == 9);
    assert("WritebackTmp:"@.len() == 13 && "CmaTotal:"@.len() == 9);
    assert("CommitLimit:"@.len() == 12 && "CmaTotal:"@.len() == 9);
    assert("Committed_AS:"@.len() == 13 && "CmaTotal:"@.len() == 9);
    assert("VmallocTotal:"@.len() == 13 && "CmaTotal:"@.len() == 9);
    assert("VmallocUsed:"@.len() == 12 && "CmaTotal:"@.len() == 9);
    assert("VmallocChunk:"@.len() == 13 && "CmaTotal:"@.len() == 9);
    assert("Percpu:"@.len() == 7 && "CmaTotal:"@.len() == 9);
    assert("HardwareCorrupted:"@.len() == 18 && "CmaTotal:"@.len() == 9);
    assert("AnonHugePages:"@.len() == 14 && "CmaTotal:"@.len() == 9);
    assert("ShmemHugePages:"@.len() == 15 && "CmaTotal:"@.len() == 9);
    assert("ShmemPmdMapped:"@.len() == 15 && "CmaTotal:"@.len() == 9);
    assert("FileHugePages:"@.len() == 14 && "CmaTotal:"@.len() == 9);
    assert("FilePmdMapped:"@.len() == 14 && "CmaTotal:"@.len() == 9);
    assert(meminfo_key_index_from("CmaTotal:"@, 45) == Some(45int));
    assert(meminfo_key_index_from("CmaTotal:"@, 44) == Some(45int));
    assert(meminfo_key_index_from("CmaTotal:"@, 43) == Some(45int));
    assert(meminfo_key_index_from("CmaTotal:"@, 42) == Some(45int));
    assert(meminfo_key_index_from("CmaTotal:"@, 41) == Some(45int));
    assert(meminfo_key_index_from("CmaTotal:"@, 40) == Some(45int));
    assert(meminfo_key_index_from("CmaTotal:"@, 39) == Some(45int));
    assert(meminfo_key_index_from("CmaTotal:"@, 38) == Some(45int));
    assert(meminfo_key_index_from("CmaTotal:"@, 37) == Some(45int));
    assert(meminfo_key_index_from("CmaTotal:"@, 36) == Some(45int));
    assert(meminfo_key_index_from("CmaTotal:"@, 35) == Some(45int));
    assert(meminfo_key_index_from("CmaTotal:"@, 34) == Some(45int));
    assert(meminfo_key_index_from("CmaTotal:"@, 33) == Some(45int));
    assert(meminfo_key_index_from("CmaTotal:"@, 32) == Some(45int));
    assert(meminfo_key_index_from("CmaTotal:"@, 31) == Some(45int));
    assert(meminfo_key_index_from("CmaTotal:"@, 30) == Some(45int));
    assert(meminfo_key_index_from("CmaTotal:"@, 29) == Some(45int));
    assert(meminfo_key_index_from("CmaTotal:"@, 28) == Some(45int));
    assert(meminfo_key_index_from("CmaTotal:"@, 27) == Some(45int));
    assert(meminfo_key_index_from("CmaTotal:"@, 26) == Some(45int));
    assert(meminfo_key_index_from("CmaTotal:"@, 25) == Some(45int));
    assert(meminfo_key_index_from("CmaTotal:"@, 24) == Some(45int));
    assert(meminfo_key_index_from("CmaTotal:"@, 23) == Some(45int));
    assert(meminfo_key_index_from("CmaTotal:"@, 22) == Some(45int));
    assert(meminfo_key_index_from("CmaTotal:"@, 21) == Some(45int));
    assert(meminfo_key_index_from("CmaTotal:"@, 20) == Some(45int));
    assert(meminfo_key_index_from("CmaTotal:"@, 19) == Some(45int));
    assert(meminfo_key_index_from("CmaTotal:"@, 18) == Some(45int));
    assert(meminfo_key_index_from("CmaTotal:"@, 17) == Some(45int));
    assert(meminfo_key_index_from("CmaTotal:"@, 16) == Some(45int));
    assert(meminfo_key_index_from("CmaTotal:"@, 15) == Some(45int));
    assert(meminfo_key_index_from("CmaTotal:"@, 14) == Some(45int));
    assert(meminfo_key_index_from("CmaTotal:"@, 13) == Some(45int));
    assert(meminfo_key_index_from("CmaTotal:"@, 12) == Some(45int));
    assert(meminfo_key_index_from("CmaTotal:"@, 11) == Some(45int));
    assert(meminfo_key_index_from("CmaTotal:"@, 10) == Some(45int));
    assert(meminfo_key_index_from("CmaTotal:"@, 9) == Some(45int));
    assert(meminfo_key_index_from("CmaTotal:"@, 8) == Some(45int));
    assert(meminfo_key_index_from("CmaTotal:"@, 7) == Some(45int));
    assert(meminfo_key_index_from("CmaTotal:"@, 6) == Some(45int));
    assert(meminfo_key_index_from("CmaTotal:"@, 5) == Some(45int));
    assert(meminfo_key_index_from("CmaTotal:"@, 4) == Some(45int));
    assert(meminfo_key_index_from("CmaTotal:"@, 3) == Some(45int));
    assert(meminfo_key_index_from("CmaTotal:"@, 2) == Some(45int));
    assert(meminfo_key_index_from("CmaTotal:"@, 1) == Some(45int));
    assert(meminfo_key_index_from("CmaTotal:"@, 0) == Some(45int));
}

proof fn lemma_key_position_46()
    ensures
        meminfo_key_index("CmaFree:"@) == Some(46int),
{
    reveal_strlit("MemTotal:");
    reveal_strlit("MemFree:");
    reveal_strlit("MemAvailable:");
    reveal_strlit("Buffers:");
    reveal_strlit("Cached:");
    reveal_strlit("SwapCached:");
    reveal_strlit("Active:");
    reveal_strlit("Inactive:");
    reveal_strlit("Active(anon):");
    reveal_strlit("Inactive(anon):");
    reveal_strlit("Active(file):");
    reveal_strlit("Inactive(file):");
    reveal_strlit("Unevictable:");
    reveal_strlit("Mlocked:");
    reveal_strlit("SwapTotal:");
    reveal_strlit("SwapFree:");
    reveal_strlit("ZSwap:");
    reveal_strlit("ZSwapTotal:");
    reveal_strlit("Dirty:");
    reveal_strlit("Writeback:");
    reveal_strlit("AnonPages:");
    reveal_strlit("Mapped:");
    reveal_strlit("Shmem:");
    reveal_strlit("KReclaimable:");
    reveal_strlit("Slab:");
    reveal_strlit("SReclaimable:");
    reveal_strlit("SUnreclaim:");
    reveal_strlit("KernelStack:");
    reveal_strlit("PageTables:");
    reveal_strlit("SecMemTables:");
    reveal_strlit("NFS_Unstable:");
    reveal_strlit("Bounce:");
    reveal_strlit("WritebackTmp:");
    reveal_strlit("CommitLimit:");
    reveal_strlit("Committed_AS:");
    reveal_strlit("VmallocTotal:");
    reveal_strlit("VmallocUsed:");
    reveal_strlit("VmallocChunk:");
    reveal_strlit("Percpu:");
    reveal_strlit("HardwareCorrupted:");
    reveal_strlit("AnonHugePages:");
    reveal_strlit("ShmemHugePages:");
    reveal_strlit("ShmemPmdMapped:");
    reveal_strlit("FileHugePages:");
    reveal_strlit("FilePmdMapped:");
    reveal_strlit("CmaTotal:");
    reveal_strlit("CmaFree:");
    assert("MemTotal:"@.len() == 9 && "CmaFree:"@.len() == 8);
    assert("MemFree:"@[0] == 'M' && "CmaFree:"@[0] == 'C');
    assert("MemAvailable:"@.len() == 13 && "CmaFree:"@.len() == 8);
    assert("Buffers:"@[0] == 'B' && "CmaFree:"@[0] == 'C');
    assert("Cached:"@.len() == 7 && "CmaFree:"@.len() == 8);
    assert("SwapCached:"@.len() == 11 && "CmaFree:"@.len() == 8);
    assert("Active:"@.len() == 7 && "CmaFree:"@.len() == 8);
    assert("Inactive:"@.len() == 9 && "CmaFree:"@.len() == 8);
    assert("Active(anon):"@.len() == 13 && "CmaFree:"@.len() == 8);
    assert("Inactive(anon):"@.len() == 15 && "CmaFree:"@.len() == 8);
    assert("Active(file):"@.len() == 13 && "CmaFree:"@.len() == 8);
    assert("Inactive(file):"@.len() == 15 && "CmaFree:"@.len() == 8);
    assert("Unevictable:"@.len() == 12 && "CmaFree:"@.len() == 8);
    assert("Mlocked:"@[0] == 'M' && "CmaFree:"@[0] == 'C');
    assert("SwapTotal:"@.len() == 10 && "CmaFree:"@.len() == 8);
    assert("SwapFree:"@.len() == 9 && "CmaFree:"@.len() == 8);
    assert("ZSwap:"@.len() == 6 && "CmaFree:"@.len() == 8);
    assert("ZSwapTotal:"@.len() == 11 && "CmaFree:"@.len() == 8);
    assert("Dirty:"@.len() == 6 && "CmaFree:"@.len() == 8);
    assert("Writeback:"@.len() == 10 && "CmaFree:"@.len() == 8);
    assert("AnonPages:"@.len() == 10 && "CmaFree:"@.len() == 8);
    assert("Mapped:"@.len() == 7 && "CmaFree:"@.len() == 8);
    assert("Shmem:"@.len() == 6 && "CmaFree:"@.len() == 8);
    assert("KReclaimable:"@.len() == 13 && "CmaFree:"@.len() == 8);
    assert("Slab:"@.len() == 5 && "CmaFree:"@.len() == 8);
    assert("SReclaimable:"@.len() == 13 && "CmaFree:"@.len() == 8);
    assert("SUnreclaim:"@.len() == 11 && "CmaFree:"@.len() == 8);
    assert("KernelStack:"@.len() == 12 && "CmaFree:"@.len() == 8);
    assert("PageTables:"@.len() == 11 && "CmaFree:"@.len() == 8);
    assert("SecMemTables:"@.len() == 13 && "CmaFree:"@.len() == 8);
    assert("NFS_Unstable:"@.len() == 13 && "CmaFree:"@.len() == 8);
    assert("Bounce:"@.len() == 7 && "CmaFree:"@.len() == 8);
    assert("WritebackTmp:"@.len() == 13 && "CmaFree:"@.len() == 8);
    assert("CommitLimit:"@.len() == 12 && "CmaFree:"@.len() == 8);
    assert("Committed_AS:"@.len() == 13 && "CmaFree:"@.len() == 8);
    assert("VmallocTotal:"@.len() == 13 && "CmaFree:"@.len() == 8);
    assert("VmallocUsed:"@.len() == 12 && "CmaFree:"@.len() == 8);
    assert("VmallocChunk:"@.len() == 13 && "CmaFree:"@.len() == 8);
    assert("Percpu:"@.len() == 7 && "CmaFree:"@.len() == 8);
    assert("HardwareCorrupted:"@.len() == 18 && "CmaFree:"@.len() == 8);
    assert("AnonHugePages:"@.len() == 14 && "CmaFree:"@.len() == 8);
    assert("ShmemHugePages:"@.len() == 15 && "CmaFree:"@.len() == 8);
    assert("ShmemPmdMapped:"@.len() == 15 && "CmaFree:"@.len() == 8);
    assert("FileHugePages:"@.len() == 14 && "CmaFree:"@.len() == 8);
    assert("FilePmdMapped:"@.len() == 14 && "CmaFree:"@.len() == 8);
    assert("CmaTotal:"@.len() == 9 && "CmaFree:"@.len() == 8);
    assert(meminfo_key_index_from("CmaFree:"@, 46) == Some(46int));
    assert(meminfo_key_index_from("CmaFree:"@, 45) == Some(46int));
    assert(meminfo_key_index_from("CmaFree:"@, 44) == Some(46int));
    assert(meminfo_key_index_from("CmaFree:"@, 43) == Some(46int));
    assert(meminfo_key_index_from("CmaFree:"@, 42) == Some(46int));
    assert(meminfo_key_index_from("CmaFree:"@, 41) == Some(46int));
    assert(meminfo_key_index_from("CmaFree:"@, 40) == Some(46int));
    assert(meminfo_key_index_from("CmaFree:"@, 39) == Some(46int));
    assert(meminfo_key_index_from("CmaFree:"@, 38) == Some(46int));
    assert(meminfo_key_index_from("CmaFree:"@, 37) == Some(46int));
    assert(meminfo_key_index_from("CmaFree:"@, 36) == Some(46int));
    assert(meminfo_key_index_from("CmaFree:"@, 35) == Some(46int));
    assert(meminfo_key_index_from("CmaFree:"@, 34) == Some(46int));
    assert(meminfo_key_index_from("CmaFree:"@, 33) == Some(46int));
    assert(meminfo_key_index_from("CmaFree:"@, 32) == Some(46int));
    assert(meminfo_key_index_from("CmaFree:"@, 31) == Some(46int));
    assert(meminfo_key_index_from("CmaFree:"@, 30) == Some(46int));
    assert(meminfo_key_index_from("CmaFree:"@, 29) == Some(46int));
    assert(meminfo_key_index_from("CmaFree:"@, 28) == Some(46int));
    assert(meminfo_key_index_from("CmaFree:"@, 27) == Some(46int));
    assert(meminfo_key_index_from("CmaFree:"@, 26) == Some(46int));
    assert(meminfo_key_index_from("CmaFree:"@, 25) == Some(46int));
    assert(meminfo_key_index_from("CmaFree:"@, 24) == Some(46int));
    assert(meminfo_key_index_from("CmaFree:"@, 23) == Some(46int));
    assert(meminfo_key_index_from("CmaFree:"@, 22) == Some(46int));
    assert(meminfo_key_index_from("CmaFree:"@, 21) == Some(46int));
    assert(meminfo_key_index_from("CmaFree:"@, 20) == Some(46int));
    assert(meminfo_key_index_from("CmaFree:"@, 19) == Some(46int));
    assert(meminfo_key_index_from("CmaFree:"@, 18) == Some(46int));
    assert(meminfo_key_index_from("CmaFree:"@, 17) == Some(46int));
    assert(meminfo_key_index_from("CmaFree:"@, 16) == Some(46int));
    assert(meminfo_key_index_from("CmaFree:"@, 15) == Some(46int));
    assert(meminfo_key_index_from("CmaFree:"@, 14) == Some(46int));
    assert(meminfo_key_index_from("CmaFree:"@, 13) == Some(46int));
    assert(meminfo_key_index_from("CmaFree:"@, 12) == Some(46int));
    assert(meminfo_key_index_from("CmaFree:"@, 11) == Some(46int));
    assert(meminfo_key_index_from("CmaFree:"@, 10) == Some(46int));
    assert(meminfo_key_index_from("CmaFree:"@, 9) == Some(46int));
    assert(meminfo_key_index_from("CmaFree:"@, 8) == Some(46int));
    assert(meminfo_key_index_from("CmaFree:"@, 7) == Some(46int));
    assert(meminfo_key_index_from("CmaFree:"@, 6) == Some(46int));
    assert(meminfo_key_index_from("CmaFree:"@, 5) == Some(46int));
    assert(meminfo_key_index_from("CmaFree:"@, 4) == Some(46int));
    assert(meminfo_key_index_from("CmaFree:"@, 3) == Some(46int));
    assert(meminfo_key_index_from("CmaFree:"@, 2) == Some(46int));
    assert(meminfo_key_index_from("CmaFree:"@, 1) == Some(46int));
    assert(meminfo_key_index_from("CmaFree:"@, 0) == Some(46int));
}

proof fn lemma_key_position_47()
    ensures
        meminfo_key_index("HugePages_Total:"@) == Some(47int),
{
    reveal_strlit("MemTotal:");
    reveal_strlit("MemFree:");
    reveal_strlit("MemAvailable:");
    reveal_strlit("Buffers:");
    reveal_strlit("Cached:");
    reveal_strlit("SwapCached:");
    reveal_strlit("Active:");
    reveal_strlit("Inactive:");
    reveal_strlit("Active(anon):");
    reveal_strlit("Inactive(anon):");
    reveal_strlit("Active(file):");
    reveal_strlit("Inactive(file):");
    reveal_strlit("Unevictable:");
    reveal_strlit("Mlocked:");
    reveal_strlit("SwapTotal:");
    reveal_strlit("SwapFree:");
    reveal_strlit("ZSwap:");
    reveal_strlit("ZSwapTotal:");
    reveal_strlit("Dirty:");
    reveal_strlit("Writeback:");
    reveal_strlit("AnonPages:");
    reveal_strlit("Mapped:");
    reveal_strlit("Shmem:");
    reveal_strlit("KReclaimable:");
    reveal_strlit("Slab:");
    reveal_strlit("SReclaimable:");
    reveal_strlit("SUnreclaim:");
    reveal_strlit("KernelStack:");
    reveal_strlit("PageTables:");
    reveal_strlit("SecMemTables:");
    reveal_strlit("NFS_Unstable:");
    reveal_strlit("Bounce:");
    reveal_strlit("WritebackTmp:");
    reveal_strlit("CommitLimit:");
    reveal_strlit("Committed_AS:");
    reveal_strlit("VmallocTotal:");
    reveal_strlit("VmallocUsed:");
    reveal_strlit("VmallocChunk:");
    reveal_strlit("Percpu:");
    reveal_strlit("HardwareCorrupted:");
    reveal_strlit("AnonHugePages:");
    reveal_strlit("ShmemHugePages:");
    reveal_strlit("ShmemPmdMapped:");
    reveal_strlit("FileHugePages:");
    reveal_strlit("FilePmdMapped:");
    reveal_strlit("CmaTotal:");
    reveal_strlit("CmaFree:");
    reveal_strlit("HugePages_Total:");
    assert("MemTotal:"@.len() == 9 && "HugePages_Total:"@.len() == 16);
    assert("MemFree:"@.len() == 8 && "HugePages_Total:"@.len() == 16);
    assert("MemAvailable:"@.len() == 13 && "HugePages_Total:"@.len() == 16);
    assert("Buffers:"@.len() == 8 && "HugePages_Total:"@.len() == 16);
    assert("Cached:"@.len() == 7 && "HugePages_Total:"@.len() == 16);
    assert("SwapCached:"@.len() == 11 && "HugePages_Total:"@.len() == 16);
    assert("Active:"@.len() == 7 && "HugePages_Total:"@.len() == 16);
    assert("Inactive:"@.len() == 9 && "HugePages_Total:"@.len() == 16);
    assert("Active(anon):"@.len() == 13 && "HugePages_Total:"@.len() == 16);
    assert("Inactive(anon):"@.len() == 15 && "HugePages_Total:"@.len() == 16);
    assert("Active(file):"@.len() == 13 && "HugePages_Total:"@.len() == 16);
    assert("Inactive(file):"@.len() == 15 && "HugePages_Total:"@.len() == 16);
    assert("Unevictable:"@.len() == 12 && "HugePages_Total:"@.len() == 16);
    assert("Mlocked:"@.len() == 8 && "HugePages_Total:"@.len() == 16);
    assert("SwapTotal:"@.len() == 10 && "HugePages_Total:"@.len() == 16);
    assert("SwapFree:"@.len() == 9 && "HugePages_Total:"@.len() == 16);
    assert("ZSwap:"@.len() == 6 && "HugePages_Total:"@.len() == 16);
    assert("ZSwapTotal:"@.len() == 11 && "HugePages_Total:"@.len() == 16);
    assert("Dirty:"@.len() == 6 && "HugePages_Total:"@.len() == 16);
    assert("Writeback:"@.len() == 10 && "HugePages_Total:"@.len() == 16);
    assert("AnonPages:"@.len() == 10 && "HugePages_Total:"@.len() == 16);
    assert("Mapped:"@.len() == 7 && "HugePages_Total:"@.len() == 16);
    assert("Shmem:"@.len() == 6 && "HugePages_Total:"@.len() == 16);
    assert("KReclaimable:"@.len() == 13 && "HugePages_Total:"@.len() == 16);
    assert("Slab:"@.len() == 5 && "HugePages_Total:"@.len() == 16);
    assert("SReclaimable:"@.len() == 13 && "HugePages_Total:"@.len() == 16);
    assert("SUnreclaim:"@.len() == 11 && "HugePages_Total:"@.len() == 16);
    assert("KernelStack:"@.len() == 12 && "HugePages_Total:"@.len() == 16);
    assert("PageTables:"@.len() == 11 && "HugePages_Total:"@.len() == 16);
    assert("SecMemTables:"@.len() == 13 && "HugePages_Total:"@.len() == 16);
    assert("NFS_Unstable:"@.len() == 13 && "HugePages_Total:"@.len() == 16);
    assert("Bounce:"@.len() == 7 && "HugePages_Total:"@.len() == 16);
    assert("WritebackTmp:"@.len() == 13 && "HugePages_Total:"@.len() == 16);
    assert("CommitLimit:"@.len() == 12 && "HugePages_Total:"@.len() == 16);
    assert("Committed_AS:"@.len() == 13 && "HugePages_Total:"@.len() == 16);
    assert("VmallocTotal:"@.len() == 13 && "HugePages_Total:"@.len() == 16);
    assert("VmallocUsed:"@.len() == 12 && "HugePages_Total:"@.len() == 16);
    assert("VmallocChunk:"@.len() == 13 && "HugePages_Total:"@.len() == 16);
    assert("Percpu:"@.len() == 7 && "HugePages_Total:"@.len() == 16);
    assert("HardwareCorrupted:"@.len() == 18 && "HugePages_Total:"@.len() == 16);
    assert("AnonHugePages:"@.len() == 14 && "HugePages_Total:"@.len() == 16);
    assert("ShmemHugePages:"@.len() == 15 && "HugePages_Total:"@.len() == 16);
    assert("ShmemPmdMapped:"@.len() == 15 && "HugePages_Total:"@.len() == 16);
    assert("FileHugePages:"@.len() == 14 && "HugePages_Total:"@.len() == 16);
    assert("FilePmdMapped:"@.len() == 14 && "HugePages_Total:"@.len() == 16);
    assert("CmaTotal:"@.len() == 9 && "HugePages_Total:"@.len() == 16);
    assert("CmaFree:"@.len() == 8 && "HugePages_Total:"@.len() == 16);
    assert(meminfo_key_index_from("HugePages_Total:"@, 47) == Some(47int));
    assert(meminfo_key_index_from("HugePages_Total:"@, 46) == Some(47int));
    assert(meminfo_key_index_from("HugePages_Total:"@, 45) == Some(47int));
    assert(meminfo_key_index_from("HugePages_Total:"@, 44) == Some(47int));
    assert(meminfo_key_index_from("HugePages_Total:"@, 43) == Some(47int));
    assert(meminfo_key_index_from("HugePages_Total:"@, 42) == Some(47int));
    assert(meminfo_key_index_from("HugePages_Total:"@, 41) == Some(47int));
    assert(meminfo_key_index_from("HugePages_Total:"@, 40) == Some(47int));
    assert(meminfo_key_index_from("HugePages_Total:"@, 39) == Some(47int));
    assert(meminfo_key_index_from("HugePages_Total:"@, 38) == Some(47int));
    assert(meminfo_key_index_from("HugePages_Total:"@, 37) == Some(47int));
    assert(meminfo_key_index_from("HugePages_Total:"@, 36) == Some(47int));
    assert(meminfo_key_index_from("HugePages_Total:"@, 35) == Some(47int));
    assert(meminfo_key_index_from("HugePages_Total:"@, 34) == Some(47int));
    assert(meminfo_key_index_from("HugePages_Total:"@, 33) == Some(47int));
    assert(meminfo_key_index_from("HugePages_Total:"@, 32) == Some(47int));
    assert(meminfo_key_index_from("HugePages_Total:"@, 31) == Some(47int));
    assert(meminfo_key_index_from("HugePages_Total:"@, 30) == Some(47int));
    assert(meminfo_key_index_from("HugePages_Total:"@, 29) == Some(47int));
    assert(meminfo_key_index_from("HugePages_Total:"@, 28) == Some(47int));
    assert(meminfo_key_index_from("HugePages_Total:"@, 27) == Some(47int));
    assert(meminfo_key_index_from("HugePages_Total:"@, 26) == Some(47int));
    assert(meminfo_key_index_from("HugePages_Total:"@, 25) == Some(47int));
    assert(meminfo_key_index_from("HugePages_Total:"@, 24) == Some(47int));
    assert(meminfo_key_index_from("HugePages_Total:"@, 23) == Some(47int));
    assert(meminfo_key_index_from("HugePages_Total:"@, 22) == Some(47int));
    assert(meminfo_key_index_from("HugePages_Total:"@, 21) == Some(47int));
    assert(meminfo_key_index_from("HugePages_Total:"@, 20) == Some(47int));
    assert(meminfo_key_index_from("HugePages_Total:"@, 19) == Some(47int));
    assert(meminfo_key_index_from("HugePages_Total:"@, 18) == Some(47int));
    assert(meminfo_key_index_from("HugePages_Total:"@, 17) == Some(47int));
    assert(meminfo_key_index_from("HugePages_Total:"@, 16) == Some(47int));
    assert(meminfo_key_index_from("HugePages_Total:"@, 15) == Some(47int));
    assert(meminfo_key_index_from("HugePages_Total:"@, 14) == Some(47int));
    assert(meminfo_key_index_from("HugePages_Total:"@, 13) == Some(47int));
    assert(meminfo_key_index_from("HugePages_Total:"@, 12) == Some(47int));
    assert(meminfo_key_index_from("HugePages_Total:"@, 11) == Some(47int));
    assert(meminfo_key_index_from("HugePages_Total:"@, 10) == Some(47int));
    assert(meminfo_key_index_from("HugePages_Total:"@, 9) == Some(47int));
    assert(meminfo_key_index_from("HugePages_Total:"@, 8) == Some(47int));
    assert(meminfo_key_index_from("HugePages_Total:"@, 7) == Some(47int));
    assert(meminfo_key_index_from("HugePages_Total:"@, 6) == Some(47int));
    assert(meminfo_key_index_from("HugePages_Total:"@, 5) == Some(47int));
    assert(meminfo_key_index_from("HugePages_Total:"@, 4) == Some(47int));
    assert(meminfo_key_index_from("HugePages_Total:"@, 3) == Some(47int));
    assert(meminfo_key_index_from("HugePages_Total:"@, 2) == Some(47int));
    assert(meminfo_key_index_from("HugePages_Total:"@, 1) == Some(47int));
    assert(meminfo_key_index_from("HugePages_Total:"@, 0) == Some(47int));
}

proof fn lemma_key_position_48()
    ensures
        meminfo_key_index("HugePages_Free:"@) == Some(48int),
{
    reveal_strlit("MemTotal:");
    reveal_strlit("MemFree:");
    reveal_strlit("MemAvailable:");
    reveal_strlit("Buffers:");
    reveal_strlit("Cached:");
    reveal_strlit("SwapCached:");
    reveal_strlit("Active:");
    reveal_strlit("Inactive:");
    reveal_strlit("Active(anon):");
    reveal_strlit("Inactive(anon):");
    reveal_strlit("Active(file):");
    reveal_strlit("Inactive(file):");
    reveal_strlit("Unevictable:");
    reveal_strlit("Mlocked:");
    reveal_strlit("SwapTotal:");
    reveal_strlit("SwapFree:");
    reveal_strlit("ZSwap:");
    reveal_strlit("ZSwapTotal:");
    reveal_strlit("Dirty:");
    reveal_strlit("Writeback:");
    reveal_strlit("AnonPages:");
    reveal_strlit("Mapped:");
    reveal_strlit("Shmem:");
    reveal_strlit("KReclaimable:");
    reveal_strlit("Slab:");
    reveal_strlit("SReclaimable:");
    reveal_strlit("SUnreclaim:");
    reveal_strlit("KernelStack:");
    reveal_strlit("PageTables:");
    reveal_strlit("SecMemTables:");
    reveal_strlit("NFS_Unstable:");
    reveal_strlit("Bounce:");
    reveal_strlit("WritebackTmp:");
    reveal_strlit("CommitLimit:");
    reveal_strlit("Committed_AS:");
    reveal_strlit("VmallocTotal:");
    reveal_strlit("VmallocUsed:");
    reveal_strlit("VmallocChunk:");
    reveal_strlit("Percpu:");
    reveal_strlit("HardwareCorrupted:");
    reveal_strlit("AnonHugePages:");
    reveal_strlit("ShmemHugePages:");
    reveal_strlit("ShmemPmdMapped:");
    reveal_strlit("FileHugePages:");
    reveal_strlit("FilePmdMapped:");
    reveal_strlit("CmaTotal:");
    reveal_strlit("CmaFree:");
    reveal_strlit("HugePages_Total:");
    reveal_strlit("HugePages_Free:");
    assert("MemTotal:"@.len() == 9 && "HugePages_Free:"@.len() == 15);
    assert("MemFree:"@.len() == 8 && "HugePages_Free:"@.len() == 15);
    assert("MemAvailable:"@.len() == 13 && "HugePages_Free:"@.len() == 15);
    assert("Buffers:"@.len() == 8 && "HugePages_Free:"@.len() == 15);
    assert("Cached:"@.len() == 7 && "HugePages_Free:"@.len() == 15);
    assert("SwapCached:"@.len() == 11 && "HugePages_Free:"@.len() == 15);
    assert("Active:"@.len() == 7 && "HugePages_Free:"@.len() == 15);
    assert("Inactive:"@.len() == 9 && "HugePages_Free:"@.len() == 15);
    assert("Active(anon):"@.len() == 13 && "HugePages_Free:"@.len() == 15);
    assert("Inactive(anon):"@[0] == 'I' && "HugePages_Free:"@[0] == 'H');
    assert("Active(file):"@.len() == 13 && "HugePages_Free:"@.len() == 15);
    assert("Inactive(file):"@[0] == 'I' && "HugePages_Free:"@[0] == 'H');
    assert("Unevictable:"@.len() == 12 && "HugePages_Free:"@.len() == 15);
    assert("Mlocked:"@.len() == 8 && "HugePages_Free:"@.len() == 15);
    assert("SwapTotal:"@.len() == 10 && "HugePages_Free:"@.len() == 15);
    assert("SwapFree:"@.len() == 9 && "HugePages_Free:"@.len() == 15);
    assert("ZSwap:"@.len() == 6 && "HugePages_Free:"@.len() == 15);
    assert("ZSwapTotal:"@.len() == 11 && "HugePages_Free:"@.len() == 15);
    assert("Dirty:"@.len() == 6 && "HugePages_Free:"@.len() == 15);
    assert("Writeback:"@.len() == 10 && "HugePages_Free:"@.len() == 15);
    assert("AnonPages:"@.len() == 10 && "HugePages_Free:"@.len() == 15);
    assert("Mapped:"@.len() == 7 && "HugePages_Free:"@.len() == 15);
    assert("Shmem:"@.len() == 6 && "HugePages_Free:"@.len() == 15);
    assert("KReclaimable:"@.len() == 13 && "HugePages_Free:"@.len() == 15);
    assert("Slab:"@.len() == 5 && "HugePages_Free:"@.len() == 15);
    assert("SReclaimable:"@.len() == 13 && "HugePages_Free:"@.len() == 15);
    assert("SUnreclaim:"@.len() == 11 && "HugePages_Free:"@.len() == 15);
    assert("KernelStack:"@.len() == 12 && "HugePages_Free:"@.len() == 15);
    assert("PageTables:"@.len() == 11 && "HugePages_Free:"@.len() == 15);
    assert("SecMemTables:"@.len() == 13 && "HugePages_Free:"@.len() == 15);
    assert("NFS_Unstable:"@.len() == 13 && "HugePages_Free:"@.len() == 15);
    assert("Bounce:"@.len() == 7 && "HugePages_Free:"@.len() == 15);
    assert("WritebackTmp:"@.len() == 13 && "HugePages_Free:"@.len() == 15);
    assert("CommitLimit:"@.len() == 12 && "HugePages_Free:"@.len() == 15);
    assert("Committed_AS:"@.len() == 13 && "HugePages_Free:"@.len() == 15);
    assert("VmallocTotal:"@.len() == 13 && "HugePages_Free:"@.len() == 15);
    assert("VmallocUsed:"@.len() == 12 && "HugePages_Free:"@.len() == 15);
    assert("VmallocChunk:"@.len() == 13 && "HugePages_Free:"@.len() == 15);
    assert("Percpu:"@.len() == 7 && "HugePages_Free:"@.len() == 15);
    assert("HardwareCorrupted:"@.len() == 18 && "HugePages_Free:"@.len() == 15);
    assert("AnonHugePages:"@.len() == 14 && "HugePages_Free:"@.len() == 15);
    assert("ShmemHugePages:"@[0] == 'S' && "HugePages_Free:"@[0] == 'H');
    assert("ShmemPmdMapped:"@[0] == 'S' && "HugePages_Free:"@[0] == 'H');
    assert("FileHugePages:"@.len() == 14 && "HugePages_Free:"@.len() == 15);
    assert("FilePmdMapped:"@.len() == 14 && "HugePages_Free:"@.len() == 15);
    assert("CmaTotal:"@.len() == 9 && "HugePages_Free:"@.len() == 15);
    assert("CmaFree:"@.len() == 8 && "HugePages_Free:"@.len() == 15);
    assert("HugePages_Total:"@.len() == 16 && "HugePages_Free:"@.len() == 15);
    assert(meminfo_key_index_from("HugePages_Free:"@, 48) == Some(48int));
    assert(meminfo_key_index_from("HugePages_Free:"@, 47) == Some(48int));
    assert(meminfo_key_index_from("HugePages_Free:"@, 46) == Some(48int));
    assert(meminfo_key_index_from("HugePages_Free:"@, 45) == Some(48int));
    assert(meminfo_key_index_from("HugePages_Free:"@, 44) == Some(48int));
    assert(meminfo_key_index_from("HugePages_Free:"@, 43) == Some(48int));
    assert(meminfo_key_index_from("HugePages_Free:"@, 42) == Some(48int));
    assert(meminfo_key_index_from("HugePages_Free:"@, 41) == Some(48int));
    assert(meminfo_key_index_from("HugePages_Free:"@, 40) == Some(48int));
    assert(meminfo_key_index_from("HugePages_Free:"@, 39) == Some(48int));
    assert(meminfo_key_index_from("HugePages_Free:"@, 38) == Some(48int));
    assert(meminfo_key_index_from("HugePages_Free:"@, 37) == Some(48int));
    assert(meminfo_key_index_from("HugePages_Free:"@, 36) == Some(48int));
    assert(meminfo_key_index_from("HugePages_Free:"@, 35) == Some(48int));
    assert(meminfo_key_index_from("HugePages_Free:"@, 34) == Some(48int));
    assert(meminfo_key_index_from("HugePages_Free:"@, 33) == Some(48int));
    assert(meminfo_key_index_from("HugePages_Free:"@, 32) == Some(48int));
    assert(meminfo_key_index_from("HugePages_Free:"@, 31) == Some(48int));
    assert(meminfo_key_index_from("HugePages_Free:"@, 30) == Some(48int));
    assert(meminfo_key_index_from("HugePages_Free:"@, 29) == Some(48int));
    assert(meminfo_key_index_from("HugePages_Free:"@, 28) == Some(48int));
    assert(meminfo_key_index_from("HugePages_Free:"@, 27) == Some(48int));
    assert(meminfo_key_index_from("HugePages_Free:"@, 26) == Some(48int));
    assert(meminfo_key_index_from("HugePages_Free:"@, 25) == Some(48int));
    assert(meminfo_key_index_from("HugePages_Free:"@, 24) == Some(48int));
    assert(meminfo_key_index_from("HugePages_Free:"@, 23) == Some(48int));
    assert(meminfo_key_index_from("HugePages_Free:"@, 22) == Some(48int));
    assert(meminfo_key_index_from("HugePages_Free:"@, 21) == Some(48int));
    assert(meminfo_key_index_from("HugePages_Free:"@, 20) == Some(48int));
    assert(meminfo_key_index_from("HugePages_Free:"@, 19) == Some(48int));
    assert(meminfo_key_index_from("HugePages_Free:"@, 18) == Some(48int));
    assert(meminfo_key_index_from("HugePages_Free:"@, 17) == Some(48int));
    assert(meminfo_key_index_from("HugePages_Free:"@, 16) == Some(48int));
    assert(meminfo_key_index_from("HugePages_Free:"@, 15) == Some(48int));
    assert(meminfo_key_index_from("HugePages_Free:"@, 14) == Some(48int));
    assert(meminfo_key_index_from("HugePages_Free:"@, 13) == Some(48int));
    assert(meminfo_key_index_from("HugePages_Free:"@, 12) == Some(48int));
    assert(meminfo_key_index_from("HugePages_Free:"@, 11) == Some(48int));
    assert(meminfo_key_index_from("HugePages_Free:"@, 10) == Some(48int));
    assert(meminfo_key_index_from("HugePages_Free:"@, 9) == Some(48int));
    assert(meminfo_key_index_from("HugePages_Free:"@, 8) == Some(48int));
    assert(meminfo_key_index_from("HugePages_Free:"@, 7) == Some(48int));
    assert(meminfo_key_index_from("HugePages_Free:"@, 6) == Some(48int));
    assert(meminfo_key_index_from("HugePages_Free:"@, 5) == Some(48int));
    assert(meminfo_key_index_from("HugePages_Free:"@, 4) == Some(48int));
    assert(meminfo_key_index_from("HugePages_Free:"@, 3) == Some(48int));
    assert(meminfo_key_index_from("HugePages_Free:"@, 2) == Some(48int));
    assert(meminfo_key_index_from("HugePages_Free:"@, 1) == Some(48int));
    assert(meminfo_key_index_from("HugePages_Free:"@, 0) == Some(48int));
}

proof fn lemma_key_position_49()
    ensures
        meminfo_key_index("HugePages_Rsvd:"@) == Some(49int),
{
    reveal_strlit("MemTotal:");
    reveal_strlit("MemFree:");
    reveal_strlit("MemAvailable:");
    reveal_strlit("Buffers:");
    reveal_strlit("Cached:");
    reveal_strlit("SwapCached:");
    reveal_strlit("Active:");
    reveal_strlit("Inactive:");
    reveal_strlit("Active(anon):");
    reveal_strlit("Inactive(anon):");
    reveal_strlit("Active(file):");
    reveal_strlit("Inactive(file):");
    reveal_strlit("Unevictable:");
    reveal_strlit("Mlocked:");
    reveal_strlit("SwapTotal:");
    reveal_strlit("SwapFree:");
    reveal_strlit("ZSwap:");
    reveal_strlit("ZSwapTotal:");
    reveal_strlit("Dirty:");
    reveal_strlit("Writeback:");
    reveal_strlit("AnonPages:");
    reveal_strlit("Mapped:");
    reveal_strlit("Shmem:");
    reveal_strlit("KReclaimable:");
    reveal_strlit("Slab:");
    reveal_strlit("SReclaimable:");
    reveal_strlit("SUnreclaim:");
    reveal_strlit("KernelStack:");
    reveal_strlit("PageTables:");
    reveal_strlit("SecMemTables:");
    reveal_strlit("NFS_Unstable:");
    reveal_strlit("Bounce:");
    reveal_strlit("WritebackTmp:");
    reveal_strlit("CommitLimit:");
    reveal_strlit("Committed_AS:");
    reveal_strlit("VmallocTotal:");
    reveal_strlit("VmallocUsed:");
    reveal_strlit("VmallocChunk:");
    reveal_strlit("Percpu:");
    reveal_strlit("HardwareCorrupted:");
    reveal_strlit("AnonHugePages:");
    reveal_strlit("ShmemHugePages:");
    reveal_strlit("ShmemPmdMapped:");
    reveal_strlit("FileHugePages:");
    reveal_strlit("FilePmdMapped:");
    reveal_strlit("CmaTotal:");
    reveal_strlit("CmaFree:");
    reveal_strlit("HugePages_Total:");
    reveal_strlit("HugePages_Free:");
    reveal_strlit("HugePages_Rsvd:");
    assert("MemTotal:"@.len() == 9 && "HugePages_Rsvd:"@.len() == 15);
    assert("MemFree:"@.len() == 8 && "HugePages_Rsvd:"@.len() == 15);
    assert("MemAvailable:"@.len() == 13 && "HugePages_Rsvd:"@.len() == 15);
    assert("Buffers:"@.len() == 8 && "HugePages_Rsvd:"@.len() == 15);
    assert("Cached:"@.len() == 7 && "HugePages_Rsvd:"@.len() == 15);
    assert("SwapCached:"@.len() == 11 && "HugePages_Rsvd:"@.len() == 15);
    assert("Active:"@.len() == 7 && "HugePages_Rsvd:"@.len() == 15);
    assert("Inactive:"@.len() == 9 && "HugePages_Rsvd:"@.len() == 15);
    assert("Active(anon):"@.len() == 13 && "HugePages_Rsvd:"@.len() == 15);
    assert("Inactive(anon):"@[0] == 'I' && "HugePages_Rsvd:"@[0] == 'H');
    assert("Active(file):"@.len() == 13 && "HugePages_Rsvd:"@.len() == 15);
    assert("Inactive(file):"@[0] == 'I' && "HugePages_Rsvd:"@[0] == 'H');
    assert("Unevictable:"@.len() == 12 && "HugePages_Rsvd:"@.len() == 15);
    assert("Mlocked:"@.len() == 8 && "HugePages_Rsvd:"@.len() == 15);
    assert("SwapTotal:"@.len() == 10 && "HugePages_Rsvd:"@.len() == 15);
    assert("SwapFree:"@.len() == 9 && "HugePages_Rsvd:"@.len() == 15);
    assert("ZSwap:"@.len() == 6 && "HugePages_Rsvd:"@.len() == 15);
    assert("ZSwapTotal:"@.len() == 11 && "HugePages_Rsvd:"@.len() == 15);
    assert("Dirty:"@.len() == 6 && "HugePages_Rsvd:"@.len() == 15);
    assert("Writeback:"@.len() == 10 && "HugePages_Rsvd:"@.len() == 15);
    assert("AnonPages:"@.len() == 10 && "HugePages_Rsvd:"@.len() == 15);
    assert("Mapped:"@.len() == 7 && "HugePages_Rsvd:"@.len() == 15);
    assert("Shmem:"@.len() == 6 && "HugePages_Rsvd:"@.len() == 15);
    assert("KReclaimable:"@.len() == 13 && "HugePages_Rsvd:"@.len() == 15);
    assert("Slab:"@.len() == 5 && "HugePages_Rsvd:"@.len() == 15);
    assert("SReclaimable:"@.len() == 13 && "HugePages_Rsvd:"@.len() == 15);
    assert("SUnreclaim:"@.len() == 11 && "HugePages_Rsvd:"@.len() == 15);
    assert("KernelStack:"@.len() == 12 && "HugePages_Rsvd:"@.len() == 15);
    assert("PageTables:"@.len() == 11 && "HugePages_Rsvd:"@.len() == 15);
    assert("SecMemTables:"@.len() == 13 && "HugePages_Rsvd:"@.len() == 15);
    assert("NFS_Unstable:"@.len() == 13 && "HugePages_Rsvd:"@.len() == 15);
    assert("Bounce:"@.len() == 7 && "HugePages_Rsvd:"@.len() == 15);
    assert("WritebackTmp:"@.len() == 13 && "HugePages_Rsvd:"@.len() == 15);
    assert("CommitLimit:"@.len() == 12 && "HugePages_Rsvd:"@.len() == 15);
    assert("Committed_AS:"@.len() == 13 && "HugePages_Rsvd:"@.len() == 15);
    assert("VmallocTotal:"@.len() == 13 && "HugePages_Rsvd:"@.len() == 15);
    assert("VmallocUsed:"@.len() == 12 && "HugePages_Rsvd:"@.len() == 15);
    assert("VmallocChunk:"@.len() == 13 && "HugePages_Rsvd:"@.len() == 15);
    assert("Percpu:"@.len() == 7 && "HugePages_Rsvd:"@.len() == 15);
    assert("HardwareCorrupted:"@.len() == 18 && "HugePages_Rsvd:"@.len() == 15);
    assert("AnonHugePages:"@.len() == 14 && "HugePages_Rsvd:"@.len() == 15);
    assert("ShmemHugePages:"@[0] == 'S' && "HugePages_Rsvd:"@[0] == 'H');
    assert("ShmemPmdMapped:"@[0] == 'S' && "HugePages_Rsvd:"@[0] == 'H');
    assert("FileHugePages:"@.len() == 14 && "HugePages_Rsvd:"@.len() == 15);
    assert("FilePmdMapped:"@.len() == 14 && "HugePages_Rsvd:"@.len() == 15);
    assert("CmaTotal:"@.len() == 9 && "HugePages_Rsvd:"@.len() == 15);
    assert("CmaFree:"@.len() == 8 && "HugePages_Rsvd:"@.len() == 15);
    assert("HugePages_Total:"@.len() == 16 && "HugePages_Rsvd:"@.len() == 15);
    assert("HugePages_Free:"@[10] == 'F' && "HugePages_Rsvd:"@[10] == 'R');
    assert(meminfo_key_index_from("HugePages_Rsvd:"@, 49) == Some(49int));
    assert(meminfo_key_index_from("HugePages_Rsvd:"@, 48) == Some(49int));
    assert(meminfo_key_index_from("HugePages_Rsvd:"@, 47) == Some(49int));
    assert(meminfo_key_index_from("HugePages_Rsvd:"@, 46) == Some(49int));
    assert(meminfo_key_index_from("HugePages_Rsvd:"@, 45) == Some(49int));
    assert(meminfo_key_index_from("HugePages_Rsvd:"@, 44) == Some(49int));
    assert(meminfo_key_index_from("HugePages_Rsvd:"@, 43) == Some(49int));
    assert(meminfo_key_index_from("HugePages_Rsvd:"@, 42) == Some(49int));
    assert(meminfo_key_index_from("HugePages_Rsvd:"@, 41) == Some(49int));
    assert(meminfo_key_index_from("HugePages_Rsvd:"@, 40) == Some(49int));
    assert(meminfo_key_index_from("HugePages_Rsvd:"@, 39) == Some(49int));
    assert(meminfo_key_index_from("HugePages_Rsvd:"@, 38) == Some(49int));
    assert(meminfo_key_index_from("HugePages_Rsvd:"@, 37) == Some(49int));
    assert(meminfo_key_index_from("HugePages_Rsvd:"@, 36) == Some(49int));
    assert(meminfo_key_index_from("HugePages_Rsvd:"@, 35) == Some(49int));
    assert(meminfo_key_index_from("HugePages_Rsvd:"@, 34) == Some(49int));
    assert(meminfo_key_index_from("HugePages_Rsvd:"@, 33) == Some(49int));
    assert(meminfo_key_index_from("HugePages_Rsvd:"@, 32) == Some(49int));
    assert(meminfo_key_index_from("HugePages_Rsvd:"@, 31) == Some(49int));
    assert(meminfo_key_index_from("HugePages_Rsvd:"@, 30) == Some(49int));
    assert(meminfo_key_index_from("HugePages_Rsvd:"@, 29) == Some(49int));
    assert(meminfo_key_index_from("HugePages_Rsvd:"@, 28) == Some(49int));
    assert(meminfo_key_index_from("HugePages_Rsvd:"@, 27) == Some(49int));
    assert(meminfo_key_index_from("HugePages_Rsvd:"@, 26) == Some(49int));
    assert(meminfo_key_index_from("HugePages_Rsvd:"@, 25) == Some(49int));
    assert(meminfo_key_index_from("HugePages_Rsvd:"@, 24) == Some(49int));
    assert(meminfo_key_index_from("HugePages_Rsvd:"@, 23) == Some(49int));
    assert(meminfo_key_index_from("HugePages_Rsvd:"@, 22) == Some(49int));
    assert(meminfo_key_index_from("HugePages_Rsvd:"@, 21) == Some(49int));
    assert(meminfo_key_index_from("HugePages_Rsvd:"@, 20) == Some(49int));
    assert(meminfo_key_index_from("HugePages_Rsvd:"@, 19) == Some(49int));
    assert(meminfo_key_index_from("HugePages_Rsvd:"@, 18) == Some(49int));
    assert(meminfo_key_index_from("HugePages_Rsvd:"@, 17) == Some(49int));
    assert(meminfo_key_index_from("HugePages_Rsvd:"@, 16) == Some(49int));
    assert(meminfo_key_index_from("HugePages_Rsvd:"@, 15) == Some(49int));
    assert(meminfo_key_index_from("HugePages_Rsvd:"@, 14) == Some(49int));
    assert(meminfo_key_index_from("HugePages_Rsvd:"@, 13) == Some(49int));
    assert(meminfo_key_index_from("HugePages_Rsvd:"@, 12) == Some(49int));
    assert(meminfo_key_index_from("HugePages_Rsvd:"@, 11) == Some(49int));
    assert(meminfo_key_index_from("HugePages_Rsvd:"@, 10) == Some(49int));
    assert(meminfo_key_index_from("HugePages_Rsvd:"@, 9) == Some(49int));
    assert(meminfo_key_index_from("HugePages_Rsvd:"@, 8) == Some(49int));
    assert(meminfo_key_index_from("HugePages_Rsvd:"@, 7) == Some(49int));
    assert(meminfo_key_index_from("HugePages_Rsvd:"@, 6) == Some(49int));
    assert(meminfo_key_index_from("HugePages_Rsvd:"@, 5) == Some(49int));
    assert(meminfo_key_index_from("HugePages_Rsvd:"@, 4) == Some(49int));
    assert(meminfo_key_index_from("HugePages_Rsvd:"@, 3) == Some(49int));
    assert(meminfo_key_index_from("HugePages_Rsvd:"@, 2) == Some(49int));
    assert(meminfo_key_index_from("HugePages_Rsvd:"@, 1) == Some(49int));
    assert(meminfo_key_index_from("HugePages_Rsvd:"@, 0) == Some(49int));
}

proof fn lemma_key_position_50()
    ensures
        meminfo_key_index("HugePages_Surp:"@) == Some(50int),
{
    reveal_strlit("MemTotal:");
    reveal_strlit("MemFree:");
    reveal_strlit("MemAvailable:");
    reveal_strlit("Buffers:");
    reveal_strlit("Cached:");
    reveal_strlit("SwapCached:");
    reveal_strlit("Active:");
    reveal_strlit("Inactive:");
    reveal_strlit("Active(anon):");
    reveal_strlit("Inactive(anon):");
    reveal_strlit("Active(file):");
    reveal_strlit("Inactive(file):");
    reveal_strlit("Unevictable:");
    reveal_strlit("Mlocked:");
    reveal_strlit("SwapTotal:");
    reveal_strlit("SwapFree:");
    reveal_strlit("ZSwap:");
    reveal_strlit("ZSwapTotal:");
    reveal_strlit("Dirty:");
    reveal_strlit("Writeback:");
    reveal_strlit("AnonPages:");
    reveal_strlit("Mapped:");
    reveal_strlit("Shmem:");
    reveal_strlit("KReclaimable:");
    reveal_strlit("Slab:");
    reveal_strlit("SReclaimable:");
    reveal_strlit("SUnreclaim:");
    reveal_strlit("KernelStack:");
    reveal_strlit("PageTables:");
    reveal_strlit("SecMemTables:");
    reveal_strlit("NFS_Unstable:");
    reveal_strlit("Bounce:");
    reveal_strlit("WritebackTmp:");
    reveal_strlit("CommitLimit:");
    reveal_strlit("Committed_AS:");
    reveal_strlit("VmallocTotal:");
    reveal_strlit("VmallocUsed:");
    reveal_strlit("VmallocChunk:");
    reveal_strlit("Percpu:");
    reveal_strlit("HardwareCorrupted:");
    reveal_strlit("AnonHugePages:");
    reveal_strlit("ShmemHugePages:");
    reveal_strlit("ShmemPmdMapped:");
    reveal_strlit("FileHugePages:");
    reveal_strlit("FilePmdMapped:");
    reveal_strlit("CmaTotal:");
    reveal_strlit("CmaFree:");
    reveal_strlit("HugePages_Total:");
    reveal_strlit("HugePages_Free:");
    reveal_strlit("HugePages_Rsvd:");
    reveal_strlit("HugePages_Surp:");
    assert("MemTotal:"@.len() == 9 && "HugePages_Surp:"@.len() == 15);
    assert("MemFree:"@.len() == 8 && "HugePages_Surp:"@.len() == 15);
    assert("MemAvailable:"@.len() == 13 && "HugePages_Surp:"@.len() == 15);
    assert("Buffers:"@.len() == 8 && "HugePages_Surp:"@.len() == 15);
    assert("Cached:"@.len() == 7 && "HugePages_Surp:"@.len() == 15);
    assert("SwapCached:"@.len() == 11 && "HugePages_Surp:"@.len() == 15);
    assert("Active:"@.len() == 7 && "HugePages_Surp:"@.len() == 15);
    assert("Inactive:"@.len() == 9 && "HugePages_Surp:"@.len() == 15);
    assert("Active(anon):"@.len() == 13 && "HugePages_Surp:"@.len() == 15);
    assert("Inactive(anon):"@[0] == 'I' && "HugePages_Surp:"@[0] == 'H');
    assert("Active(file):"@.len() == 13 && "HugePages_Surp:"@.len() == 15);
    assert("Inactive(file):"@[0] == 'I' && "HugePages_Surp:"@[0] == 'H');
    assert("Unevictable:"@.len() == 12 && "HugePages_Surp:"@.len() == 15);
    assert("Mlocked:"@.len() == 8 && "HugePages_Surp:"@.len() == 15);
    assert("SwapTotal:"@.len() == 10 && "HugePages_Surp:"@.len() == 15);
    assert("SwapFree:"@.len() == 9 && "HugePages_Surp:"@.len() == 15);
    assert("ZSwap:"@.len() == 6 && "HugePages_Surp:"@.len() == 15);
    assert("ZSwapTotal:"@.len() == 11 && "HugePages_Surp:"@.len() == 15);
    assert("Dirty:"@.len() == 6 && "HugePages_Surp:"@.len() == 15);
    assert("Writeback:"@.len() == 10 && "HugePages_Surp:"@.len() == 15);
    assert("AnonPages:"@.len() == 10 && "HugePages_Surp:"@.len() == 15);
    assert("Mapped:"@.len() == 7 && "HugePages_Surp:"@.len() == 15);
    assert("Shmem:"@.len() == 6 && "HugePages_Surp:"@.len() == 15);
    assert("KReclaimable:"@.len() == 13 && "HugePages_Surp:"@.len() == 15);
    assert("Slab:"@.len() == 5 && "HugePages_Surp:"@.len() == 15);
    assert("SReclaimable:"@.len() == 13 && "HugePages_Surp:"@.len() == 15);
    assert("SUnreclaim:"@.len() == 11 && "HugePages_Surp:"@.len() == 15);
    assert("KernelStack:"@.len() == 12 && "HugePages_Surp:"@.len() == 15);
    assert("PageTables:"@.len() == 11 && "HugePages_Surp:"@.len() == 15);
    assert("SecMemTables:"@.len() == 13 && "HugePages_Surp:"@.len() == 15);
    assert("NFS_Unstable:"@.len() == 13 && "HugePages_Surp:"@.len() == 15);
    assert("Bounce:"@.len() == 7 && "HugePages_Surp:"@.len() == 15);
    assert("WritebackTmp:"@.len() == 13 && "HugePages_Surp:"@.len() == 15);
    assert("CommitLimit:"@.len() == 12 && "HugePages_Surp:"@.len() == 15);
    assert("Committed_AS:"@.len() == 13 && "HugePages_Surp:"@.len() == 15);
    assert("VmallocTotal:"@.len() == 13 && "HugePages_Surp:"@.len() == 15);
    assert("VmallocUsed:"@.len() == 12 && "HugePages_Surp:"@.len() == 15);
    assert("VmallocChunk:"@.len() == 13 && "HugePages_Surp:"@.len() == 15);
    assert("Percpu:"@.len() == 7 && "HugePages_Surp:"@.len() == 15);
    assert("HardwareCorrupted:"@.len() == 18 && "HugePages_Surp:"@.len() == 15);
    assert("AnonHugePages:"@.len() == 14 && "HugePages_Surp:"@.len() == 15);
    assert("ShmemHugePages:"@[0] == 'S' && "HugePages_Surp:"@[0] == 'H');
    assert("ShmemPmdMapped:"@[0] == 'S' && "HugePages_Surp:"@[0] == 'H');
    assert("FileHugePages:"@.len() == 14 && "HugePages_Surp:"@.len() == 15);
    assert("FilePmdMapped:"@.len() == 14 && "HugePages_Surp:"@.len() == 15);
    assert("CmaTotal:"@.len() == 9 && "HugePages_Surp:"@.len() == 15);
    assert("CmaFree:"@.len() == 8 && "HugePages_Surp:"@.len() == 15);
    assert("HugePages_Total:"@.len() == 16 && "HugePages_Surp:"@.len() == 15);
    assert("HugePages_Free:"@[10] == 'F' && "HugePages_Surp:"@[10] == 'S');
    assert("HugePages_Rsvd:"@[10] == 'R' && "HugePages_Surp:"@[10] == 'S');
    assert(meminfo_key_index_from("HugePages_Surp:"@, 50) == Some(50int));
    assert(meminfo_key_index_from("HugePages_Surp:"@, 49) == Some(50int));
    assert(meminfo_key_index_from("HugePages_Surp:"@, 48) == Some(50int));
    assert(meminfo_key_index_from("HugePages_Surp:"@, 47) == Some(50int));
    assert(meminfo_key_index_from("HugePages_Surp:"@, 46) == Some(50int));
    assert(meminfo_key_index_from("HugePages_Surp:"@, 45) == Some(50int));
    assert(meminfo_key_index_from("HugePages_Surp:"@, 44) == Some(50int));
    assert(meminfo_key_index_from("HugePages_Surp:"@, 43) == Some(50int));
    assert(meminfo_key_index_from("HugePages_Surp:"@, 42) == Some(50int));
    assert(meminfo_key_index_from("HugePages_Surp:"@, 41) == Some(50int));
    assert(meminfo_key_index_from("HugePages_Surp:"@, 40) == Some(50int));
    assert(meminfo_key_index_from("HugePages_Surp:"@, 39) == Some(50int));
    assert(meminfo_key_index_from("HugePages_Surp:"@, 38) == Some(50int));
    assert(meminfo_key_index_from("HugePages_Surp:"@, 37) == Some(50int));
    assert(meminfo_key_index_from("HugePages_Surp:"@, 36) == Some(50int));
    assert(meminfo_key_index_from("HugePages_Surp:"@, 35) == Some(50int));
    assert(meminfo_key_index_from("HugePages_Surp:"@, 34) == Some(50int));
    assert(meminfo_key_index_from("HugePages_Surp:"@, 33) == Some(50int));
    assert(meminfo_key_index_from("HugePages_Surp:"@, 32) == Some(50int));
    assert(meminfo_key_index_from("HugePages_Surp:"@, 31) == Some(50int));
    assert(meminfo_key_index_from("HugePages_Surp:"@, 30) == Some(50int));
    assert(meminfo_key_index_from("HugePages_Surp:"@, 29) == Some(50int));
    assert(meminfo_key_index_from("HugePages_Surp:"@, 28) == Some(50int));
    assert(meminfo_key_index_from("HugePages_Surp:"@, 27) == Some(50int));
    assert(meminfo_key_index_from("HugePages_Surp:"@, 26) == Some(50int));
    assert(meminfo_key_index_from("HugePages_Surp:"@, 25) == Some(50int));
    assert(meminfo_key_index_from("HugePages_Surp:"@, 24) == Some(50int));
    assert(meminfo_key_index_from("HugePages_Surp:"@, 23) == Some(50int));
    assert(meminfo_key_index_from("HugePages_Surp:"@, 22) == Some(50int));
    assert(meminfo_key_index_from("HugePages_Surp:"@, 21) == Some(50int));
    assert(meminfo_key_index_from("HugePages_Surp:"@, 20) == Some(50int));
    assert(meminfo_key_index_from("HugePages_Surp:"@, 19) == Some(50int));
    assert(meminfo_key_index_from("HugePages_Surp:"@, 18) == Some(50int));
    assert(meminfo_key_index_from("HugePages_Surp:"@, 17) == Some(50int));
    assert(meminfo_key_index_from("HugePages_Surp:"@, 16) == Some(50int));
    assert(meminfo_key_index_from("HugePages_Surp:"@, 15) == Some(50int));
    assert(meminfo_key_index_from("HugePages_Surp:"@, 14) == Some(50int));
    assert(meminfo_key_index_from("HugePages_Surp:"@, 13) == Some(50int));
    assert(meminfo_key_index_from("HugePages_Surp:"@, 12) == Some(50int));
    assert(meminfo_key_index_from("HugePages_Surp:"@, 11) == Some(50int));
    assert(meminfo_key_index_from("HugePages_Surp:"@, 10) == Some(50int));
    assert(meminfo_key_index_from("HugePages_Surp:"@, 9) == Some(50int));
    assert(meminfo_key_index_from("HugePages_Surp:"@, 8) == Some(50int));
    assert(meminfo_key_index_from("HugePages_Surp:"@, 7) == Some(50int));
    assert(meminfo_key_index_from("HugePages_Surp:"@, 6) == Some(50int));
    assert(meminfo_key_index_from("HugePages_Surp:"@, 5) == Some(50int));
    assert(meminfo_key_index_from("HugePages_Surp:"@, 4) == Some(50int));
    assert(meminfo_key_index_from("HugePages_Surp:"@, 3) == Some(50int));
    assert(meminfo_key_index_from("HugePages_Surp:"@, 2) == Some(50int));
    assert(meminfo_key_index_from("HugePages_Surp:"@, 1) == Some(50int));
    assert(meminfo_key_index_from("HugePages_Surp:"@, 0) == Some(50int));
}

proof fn lemma_key_position_51()
    ensures
        meminfo_key_index("Hugepagesize:"@) == Some(51int),
{
    reveal_strlit("MemTotal:");
    reveal_strlit("MemFree:");
    reveal_strlit("MemAvailable:");
    reveal_strlit("Buffers:");
    reveal_strlit("Cached:");
    reveal_strlit("SwapCached:");
    reveal_strlit("Active:");
    reveal_strlit("Inactive:");
    reveal_strlit("Active(anon):");
    reveal_strlit("Inactive(anon):");
    reveal_strlit("Active(file):");
    reveal_strlit("Inactive(file):");
    reveal_strlit("Unevictable:");
    reveal_strlit("Mlocked:");
    reveal_strlit("SwapTotal:");
    reveal_strlit("SwapFree:");
    reveal_strlit("ZSwap:");
    reveal_strlit("ZSwapTotal:");
    reveal_strlit("Dirty:");
    reveal_strlit("Writeback:");
    reveal_strlit("AnonPages:");
    reveal_strlit("Mapped:");
    reveal_strlit("Shmem:");
    reveal_strlit("KReclaimable:");
    reveal_strlit("Slab:");
    reveal_strlit("SReclaimable:");
    reveal_strlit("SUnreclaim:");
    reveal_strlit("KernelStack:");
    reveal_strlit("PageTables:");
    reveal_strlit("SecMemTables:");
    reveal_strlit("NFS_Unstable:");
    reveal_strlit("Bounce:");
    reveal_strlit("WritebackTmp:");
    reveal_strlit("CommitLimit:");
    reveal_strlit("Committed_AS:");
    reveal_strlit("VmallocTotal:");
    reveal_strlit("VmallocUsed:");
    reveal_strlit("VmallocChunk:");
    reveal_strlit("Percpu:");
    reveal_strlit("HardwareCorrupted:");
    reveal_strlit("AnonHugePages:");
    reveal_strlit("ShmemHugePages:");
    reveal_strlit("ShmemPmdMapped:");
    reveal_strlit("FileHugePages:");
    reveal_strlit("FilePmdMapped:");
    reveal_strlit("CmaTotal:");
    reveal_strlit("CmaFree:");
    reveal_strlit("HugePages_Total:");
    reveal_strlit("HugePages_Free:");
    reveal_strlit("HugePages_Rsvd:");
    reveal_strlit("HugePages_Surp:");
    reveal_strlit("Hugepagesize:");
    assert("MemTotal:"@.len() == 9 && "Hugepagesize:"@.len() == 13);
    assert("MemFree:"@.len() == 8 && "Hugepagesize:"@.len() == 13);
    assert("MemAvailable:"@[0] == 'M' && "Hugepagesize:"@[0] == 'H');
    assert("Buffers:"@.len() == 8 && "Hugepagesize:"@.len() == 13);
    assert("Cached:"@.len() == 7 && "Hugepagesize:"@.len() == 13);
    assert("SwapCached:"@.len() == 11 && "Hugepagesize:"@.len() == 13);
    assert("Active:"@.len() == 7 && "Hugepagesize:"@.len() == 13);
    assert("Inactive:"@.len() == 9 && "Hugepagesize:"@.len() == 13);
    assert("Active(anon):"@[0] == 'A' && "Hugepagesize:"@[0] == 'H');
    assert("Inactive(anon):"@.len() == 15 && "Hugepagesize:"@.len() == 13);
    assert("Active(file):"@[0] == 'A' && "Hugepagesize:"@[0] == 'H');
    assert("Inactive(file):"@.len() == 15 && "Hugepagesize:"@.len() == 13);
    assert("Unevictable:"@.len() == 12 && "Hugepagesize:"@.len() == 13);
    assert("Mlocked:"@.len() == 8 && "Hugepagesize:"@.len() == 13);
    assert("SwapTotal:"@.len() == 10 && "Hugepagesize:"@.len() == 13);
    assert("SwapFree:"@.len() == 9 && "Hugepagesize:"@.len() == 13);
    assert("ZSwap:"@.len() == 6 && "Hugepagesize:"@.len() == 13);
    assert("ZSwapTotal:"@.len() == 11 && "Hugepagesize:"@.len() == 13);
    assert("Dirty:"@.len() == 6 && "Hugepagesize:"@.len() == 13);
    assert("Writeback:"@.len() == 10 && "Hugepagesize:"@.len() == 13);
    assert("AnonPages:"@.len() == 10 && "Hugepagesize:"@.len() == 13);
    assert("Mapped:"@.len() == 7 && "Hugepagesize:"@.len() == 13);
    assert("Shmem:"@.len() == 6 && "Hugepagesize:"@.len() == 13);
    assert("KReclaimable:"@[0] == 'K' && "Hugepagesize:"@[0] == 'H');
    assert("Slab:"@.len() == 5 && "Hugepagesize:"@.len() == 13);
    assert("SReclaimable:"@[0] == 'S' && "Hugepagesize:"@[0] == 'H');
    assert("SUnreclaim:"@.len() == 11 && "Hugepagesize:"@.len() == 13);
    assert("KernelStack:"@.len() == 12 && "Hugepagesize:"@.len() == 13);
    assert("PageTables:"@.len() == 11 && "Hugepagesize:"@.len() == 13);
    assert("SecMemTables:"@[0] == 'S' && "Hugepagesize:"@[0] == 'H');
    assert("NFS_Unstable:"@[0] == 'N' && "Hugepagesize:"@[0] == 'H');
    assert("Bounce:"@.len() == 7 && "Hugepagesize:"@.len() == 13);
    assert("WritebackTmp:"@[0] == 'W' && "Hugepagesize:"@[0] == 'H');
    assert("CommitLimit:"@.len() == 12 && "Hugepagesize:"@.len() == 13);
    assert("Committed_AS:"@[0] == 'C' && "Hugepagesize:"@[0] == 'H');
    assert("VmallocTotal:"@[0] == 'V' && "Hugepagesize:"@[0] == 'H');
    assert("VmallocUsed:"@.len() == 12 && "Hugepagesize:"@.len() == 13);
    assert("VmallocChunk:"@[0] == 'V' && "Hugepagesize:"@[0] == 'H');
    assert("Percpu:"@.len() == 7 && "Hugepagesize:"@.len() == 13);
    assert("HardwareCorrupted:"@.len() == 18 && "Hugepagesize:"@.len() == 13);
    assert("AnonHugePages:"@.len() == 14 && "Hugepagesize:"@.len() == 13);
    assert("ShmemHugePages:"@.len() == 15 && "Hugepagesize:"@.len() == 13);
    assert("ShmemPmdMapped:"@.len() == 15 && "Hugepagesize:"@.len() == 13);
    assert("FileHugePages:"@.len() == 14 && "Hugepagesize:"@.len() == 13);
    assert("FilePmdMapped:"@.len() == 14 && "Hugepagesize:"@.len() == 13);
    assert("CmaTotal:"@.len() == 9 && "Hugepagesize:"@.len() == 13);
    assert("CmaFree:"@.len() == 8 && "Hugepagesize:"@.len() == 13);
    assert("HugePages_Total:"@.len() == 16 && "Hugepagesize:"@.len() == 13);
    assert("HugePages_Free:"@.len() == 15 && "Hugepagesize:"@.len() == 13);
    assert("HugePages_Rsvd:"@.len() == 15 && "Hugepagesize:"@.len() == 13);
    assert("HugePages_Surp:"@.len() == 15 && "Hugepagesize:"@.len() == 13);
    assert(meminfo_key_index_from("Hugepagesize:"@, 51) == Some(51int));
    assert(meminfo_key_index_from("Hugepagesize:"@, 50) == Some(51int));
    assert(meminfo_key_index_from("Hugepagesize:"@, 49) == Some(51int));
    assert(meminfo_key_index_from("Hugepagesize:"@, 48) == Some(51int));
    assert(meminfo_key_index_from("Hugepagesize:"@, 47) == Some(51int));
    assert(meminfo_key_index_from("Hugepagesize:"@, 46) == Some(51int));
    assert(meminfo_key_index_from("Hugepagesize:"@, 45) == Some(51int));
    assert(meminfo_key_index_from("Hugepagesize:"@, 44) == Some(51int));
    assert(meminfo_key_index_from("Hugepagesize:"@, 43) == Some(51int));
    assert(meminfo_key_index_from("Hugepagesize:"@, 42) == Some(51int));
    assert(meminfo_key_index_from("Hugepagesize:"@, 41) == Some(51int));
    assert(meminfo_key_index_from("Hugepagesize:"@, 40) == Some(51int));
    assert(meminfo_key_index_from("Hugepagesize:"@, 39) == Some(51int));
    assert(meminfo_key_index_from("Hugepagesize:"@, 38) == Some(51int));
    assert(meminfo_key_index_from("Hugepagesize:"@, 37) == Some(51int));
    assert(meminfo_key_index_from("Hugepagesize:"@, 36) == Some(51int));
    assert(meminfo_key_index_from("Hugepagesize:"@, 35) == Some(51int));
    assert(meminfo_key_index_from("Hugepagesize:"@, 34) == Some(51int));
    assert(meminfo_key_index_from("Hugepagesize:"@, 33) == Some(51int));
    assert(meminfo_key_index_from("Hugepagesize:"@, 32) == Some(51int));
    assert(meminfo_key_index_from("Hugepagesize:"@, 31) == Some(51int));
    assert(meminfo_key_index_from("Hugepagesize:"@, 30) == Some(51int));
    assert(meminfo_key_index_from("Hugepagesize:"@, 29) == Some(51int));
    assert(meminfo_key_index_from("Hugepagesize:"@, 28) == Some(51int));
    assert(meminfo_key_index_from("Hugepagesize:"@, 27) == Some(51int));
    assert(meminfo_key_index_from("Hugepagesize:"@, 26) == Some(51int));
    assert(meminfo_key_index_from("Hugepagesize:"@, 25) == Some(51int));
    assert(meminfo_key_index_from("Hugepagesize:"@, 24) == Some(51int));
    assert(meminfo_key_index_from("Hugepagesize:"@, 23) == Some(51int));
    assert(meminfo_key_index_from("Hugepagesize:"@, 22) == Some(51int));
    assert(meminfo_key_index_from("Hugepagesize:"@, 21) == Some(51int));
    assert(meminfo_key_index_from("Hugepagesize:"@, 20) == Some(51int));
    assert(meminfo_key_index_from("Hugepagesize:"@, 19) == Some(51int));
    assert(meminfo_key_index_from("Hugepagesize:"@, 18) == Some(51int));
    assert(meminfo_key_index_from("Hugepagesize:"@, 17) == Some(51int));
    assert(meminfo_key_index_from("Hugepagesize:"@, 16) == Some(51int));
    assert(meminfo_key_index_from("Hugepagesize:"@, 15) == Some(51int));
    assert(meminfo_key_index_from("Hugepagesize:"@, 14) == Some(51int));
    assert(meminfo_key_index_from("Hugepagesize:"@, 13) == Some(51int));
    assert(meminfo_key_index_from("Hugepagesize:"@, 12) == Some(51int));
    assert(meminfo_key_index_from("Hugepagesize:"@, 11) == Some(51int));
    assert(meminfo_key_index_from("Hugepagesize:"@, 10) == Some(51int));
    assert(meminfo_key_index_from("Hugepagesize:"@, 9) == Some(51int));
    assert(meminfo_key_index_from("Hugepagesize:"@, 8) == Some(51int));
    assert(meminfo_key_index_from("Hugepagesize:"@, 7) == Some(51int));
    assert(meminfo_key_index_from("Hugepagesize:"@, 6) == Some(51int));
    assert(meminfo_key_index_from("Hugepagesize:"@, 5) == Some(51int));
    assert(meminfo_key_index_from("Hugepagesize:"@, 4) == Some(51int));
    assert(meminfo_key_index_from("Hugepagesize:"@, 3) == Some(51int));
    assert(meminfo_key_index_from("Hugepagesize:"@, 2) == Some(51int));
    assert(meminfo_key_index_from("Hugepagesize:"@, 1) == Some(51int));
    assert(meminfo_key_index_from("Hugepagesize:"@, 0) == Some(51int));
}

proof fn lemma_key_position_52()
    ensures
        meminfo_key_index("Hugetlb:"@) == Some(52int),
{
    reveal_strlit("MemTotal:");
    reveal_strlit("MemFree:");
    reveal_strlit("MemAvailable:");
    reveal_strlit("Buffers:");
    reveal_strlit("Cached:");
    reveal_strlit("SwapCached:");
    reveal_strlit("Active:");
    reveal_strlit("Inactive:");
    reveal_strlit("Active(anon):");
    reveal_strlit("Inactive(anon):");
    reveal_strlit("Active(file):");
    reveal_strlit("Inactive(file):");
    reveal_strlit("Unevictable:");
    reveal_strlit("Mlocked:");
    reveal_strlit("SwapTotal:");
    reveal_strlit("SwapFree:");
    reveal_strlit("ZSwap:");
    reveal_strlit("ZSwapTotal:");
    reveal_strlit("Dirty:");
    reveal_strlit("Writeback:");
    reveal_strlit("AnonPages:");
    reveal_strlit("Mapped:");
    reveal_strlit("Shmem:");
    reveal_strlit("KReclaimable:");
    reveal_strlit("Slab:");
    reveal_strlit("SReclaimable:");
    reveal_strlit("SUnreclaim:");
    reveal_strlit("KernelStack:");
    reveal_strlit("PageTables:");
    reveal_strlit("SecMemTables:");
    reveal_strlit("NFS_Unstable:");
    reveal_strlit("Bounce:");
    reveal_strlit("WritebackTmp:");
    reveal_strlit("CommitLimit:");
    reveal_strlit("Committed_AS:");
    reveal_strlit("VmallocTotal:");
    reveal_strlit("VmallocUsed:");
    reveal_strlit("VmallocChunk:");
    reveal_strlit("Percpu:");
    reveal_strlit("HardwareCorrupted:");
    reveal_strlit("AnonHugePages:");
    reveal_strlit("ShmemHugePages:");
    reveal_strlit("ShmemPmdMapped:");
    reveal_strlit("FileHugePages:");
    reveal_strlit("FilePmdMapped:");
    reveal_strlit("CmaTotal:");
    reveal_strlit("CmaFree:");
    reveal_strlit("HugePages_Total:");
    reveal_strlit("HugePages_Free:");
    reveal_strlit("HugePages_Rsvd:");
    reveal_strlit("HugePages_Surp:");
    reveal_strlit("Hugepagesize:");
    reveal_strlit("Hugetlb:");
    assert("MemTotal:"@.len() == 9 && "Hugetlb:"@.len() == 8);
    assert("MemFree:"@[0] == 'M' && "Hugetlb:"@[0] == 'H');
    assert("MemAvailable:"@.len() == 13 && "Hugetlb:"@.len() == 8);
    assert("Buffers:"@[0] == 'B' && "Hugetlb:"@[0] == 'H');
    assert("Cached:"@.len() == 7 && "Hugetlb:"@.len() == 8);
    assert("SwapCached:"@.len() == 11 && "Hugetlb:"@.len() == 8);
    assert("Active:"@.len() == 7 && "Hugetlb:"@.len() == 8);
    assert("Inactive:"@.len() == 9 && "Hugetlb:"@.len() == 8);
    assert("Active(anon):"@.len() == 13 && "Hugetlb:"@.len() == 8);
    assert("Inactive(anon):"@.len() == 15 && "Hugetlb:"@.len() == 8);
    assert("Active(file):"@.len() == 13 && "Hugetlb:"@.len() == 8);
    assert("Inactive(file):"@.len() == 15 && "Hugetlb:"@.len() == 8);
    assert("Unevictable:"@.len() == 12 && "Hugetlb:"@.len() == 8);
    assert("Mlocked:"@[0] == 'M' && "Hugetlb:"@[0] == 'H');
    assert("SwapTotal:"@.len() == 10 && "Hugetlb:"@.len() == 8);
    assert("SwapFree:"@.len() == 9 && "Hugetlb:"@.len() == 8);
    assert("ZSwap:"@.len() == 6 && "Hugetlb:"@.len() == 8);
    assert("ZSwapTotal:"@.len() == 11 && "Hugetlb:"@.len() == 8);
    assert("Dirty:"@.len() == 6 && "Hugetlb:"@.len() == 8);
    assert("Writeback:"@.len() == 10 && "Hugetlb:"@.len() == 8);
    assert("AnonPages:"@.len() == 10 && "Hugetlb:"@.len() == 8);
    assert("Mapped:"@.len() == 7 && "Hugetlb:"@.len() == 8);
    assert("Shmem:"@.len() == 6 && "Hugetlb:"@.len() == 8);
    assert("KReclaimable:"@.len() == 13 && "Hugetlb:"@.len() == 8);
    assert("Slab:"@.len() == 5 && "Hugetlb:"@.len() == 8);
    assert("SReclaimable:"@.len() == 13 && "Hugetlb:"@.len() == 8);
    assert("SUnreclaim:"@.len() == 11 && "Hugetlb:"@.len() == 8);
    assert("KernelStack:"@.len() == 12 && "Hugetlb:"@.len() == 8);
    assert("PageTables:"@.len() == 11 && "Hugetlb:"@.len() == 8);
    assert("SecMemTables:"@.len() == 13 && "Hugetlb:"@.len() == 8);
    assert("NFS_Unstable:"@.len() == 13 && "Hugetlb:"@.len() == 8);
    assert("Bounce:"@.len() == 7 && "Hugetlb:"@.len() == 8);
    assert("WritebackTmp:"@.len() == 13 && "Hugetlb:"@.len() == 8);
    assert("CommitLimit:"@.len() == 12 && "Hugetlb:"@.len() == 8);
    assert("Committed_AS:"@.len() == 13 && "Hugetlb:"@.len() == 8);
    assert("VmallocTotal:"@.len() == 13 && "Hugetlb:"@.len() == 8);
    assert("VmallocUsed:"@.len() == 12 && "Hugetlb:"@.len() == 8);
    assert("VmallocChunk:"@.len() == 13 && "Hugetlb:"@.len() == 8);
    assert("Percpu:"@.len() == 7 && "Hugetlb:"@.len() == 8);
    assert("HardwareCorrupted:"@.len() == 18 && "Hugetlb:"@.len() == 8);
    assert("AnonHugePages:"@.len() == 14 && "Hugetlb:"@.len() == 8);
    assert("ShmemHugePages:"@.len() == 15 && "Hugetlb:"@.len() == 8);
    assert("ShmemPmdMapped:"@.len() == 15 && "Hugetlb:"@.len() == 8);
    assert("FileHugePages:"@.len() == 14 && "Hugetlb:"@.len() == 8);
    assert("FilePmdMapped:"@.len() == 14 && "Hugetlb:"@.len() == 8);
    assert("CmaTotal:"@.len() == 9 && "Hugetlb:"@.len() == 8);
    assert("CmaFree:"@[0] == 'C' && "Hugetlb:"@[0] == 'H');
    assert("HugePages_Total:"@.len() == 16 && "Hugetlb:"@.len() == 8);
    assert("HugePages_Free:"@.len() == 15 && "Hugetlb:"@.len() == 8);
    assert("HugePages_Rsvd:"@.len() == 15 && "Hugetlb:"@.len() == 8);
    assert("HugePages_Surp:"@.len() == 15 && "Hugetlb:"@.len() == 8);
    assert("Hugepagesize:"@.len() == 13 && "Hugetlb:"@.len() == 8);
    assert(meminfo_key_index_from("Hugetlb:"@, 52) == Some(52int));
    assert(meminfo_key_index_from("Hugetlb:"@, 51) == Some(52int));
    assert(meminfo_key_index_from("Hugetlb:"@, 50) == Some(52int));
    assert(meminfo_key_index_from("Hugetlb:"@, 49) == Some(52int));
    assert(meminfo_key_index_from("Hugetlb:"@, 48) == Some(52int));
    assert(meminfo_key_index_from("Hugetlb:"@, 47) == Some(52int));
    assert(meminfo_key_index_from("Hugetlb:"@, 46) == Some(52int));
    assert(meminfo_key_index_from("Hugetlb:"@, 45) == Some(52int));
    assert(meminfo_key_index_from("Hugetlb:"@, 44) == Some(52int));
    assert(meminfo_key_index_from("Hugetlb:"@, 43) == Some(52int));
    assert(meminfo_key_index_from("Hugetlb:"@, 42) == Some(52int));
    assert(meminfo_key_index_from("Hugetlb:"@, 41) == Some(52int));
    assert(meminfo_key_index_from("Hugetlb:"@, 40) == Some(52int));
    assert(meminfo_key_index_from("Hugetlb:"@, 39) == Some(52int));
    assert(meminfo_key_index_from("Hugetlb:"@, 38) == Some(52int));
    assert(meminfo_key_index_from("Hugetlb:"@, 37) == Some(52int));
    assert(meminfo_key_index_from("Hugetlb:"@, 36) == Some(52int));
    assert(meminfo_key_index_from("Hugetlb:"@, 35) == Some(52int));
    assert(meminfo_key_index_from("Hugetlb:"@, 34) == Some(52int));
    assert(meminfo_key_index_from("Hugetlb:"@, 33) == Some(52int));
    assert(meminfo_key_index_from("Hugetlb:"@, 32) == Some(52int));
    assert(meminfo_key_index_from("Hugetlb:"@, 31) == Some(52int));
    assert(meminfo_key_index_from("Hugetlb:"@, 30) == Some(52int));
    assert(meminfo_key_index_from("Hugetlb:"@, 29) == Some(52int));
    assert(meminfo_key_index_from("Hugetlb:"@, 28) == Some(52int));
    assert(meminfo_key_index_from("Hugetlb:"@, 27) == Some(52int));
    assert(meminfo_key_index_from("Hugetlb:"@, 26) == Some(52int));
    assert(meminfo_key_index_from("Hugetlb:"@, 25) == Some(52int));
    assert(meminfo_key_index_from("Hugetlb:"@, 24) == Some(52int));
    assert(meminfo_key_index_from("Hugetlb:"@, 23) == Some(52int));
    assert(meminfo_key_index_from("Hugetlb:"@, 22) == Some(52int));
    assert(meminfo_key_index_from("Hugetlb:"@, 21) == Some(52int));
    assert(meminfo_key_index_from("Hugetlb:"@, 20) == Some(52int));
    assert(meminfo_key_index_from("Hugetlb:"@, 19) == Some(52int));
    assert(meminfo_key_index_from("Hugetlb:"@, 18) == Some(52int));
    assert(meminfo_key_index_from("Hugetlb:"@, 17) == Some(52int));
    assert(meminfo_key_index_from("Hugetlb:"@, 16) == Some(52int));
    assert(meminfo_key_index_from("Hugetlb:"@, 15) == Some(52int));
    assert(meminfo_key_index_from("Hugetlb:"@, 14) == Some(52int));
    assert(meminfo_key_index_from("Hugetlb:"@, 13) == Some(52int));
    assert(meminfo_key_index_from("Hugetlb:"@, 12) == Some(52int));
    assert(meminfo_key_index_from("Hugetlb:"@, 11) == Some(52int));
    assert(meminfo_key_index_from("Hugetlb:"@, 10) == Some(52int));
    assert(meminfo_key_index_from("Hugetlb:"@, 9) == Some(52int));
    assert(meminfo_key_index_from("Hugetlb:"@, 8) == Some(52int));
    assert(meminfo_key_index_from("Hugetlb:"@, 7) == Some(52int));
    assert(meminfo_key_index_from("Hugetlb:"@, 6) == Some(52int));
    assert(meminfo_key_index_from("Hugetlb:"@, 5) == Some(52int));
    assert(meminfo_key_index_from("Hugetlb:"@, 4) == Some(52int));
    assert(meminfo_key_index_from("Hugetlb:"@, 3) == Some(52int));
    assert(meminfo_key_index_from("Hugetlb:"@, 2) == Some(52int));
    assert(meminfo_key_index_from("Hugetlb:"@, 1) == Some(52int));
    assert(meminfo_key_index_from("Hugetlb:"@, 0) == Some(52int));
}

proof fn lemma_key_position_53()
    ensures
        meminfo_key_index("DirectMap4k:"@) == Some(53int),
{
    reveal_strlit("MemTotal:");
    reveal_strlit("MemFree:");
    reveal_strlit("MemAvailable:");
    reveal_strlit("Buffers:");
    reveal_strlit("Cached:");
    reveal_strlit("SwapCached:");
    reveal_strlit("Active:");
    reveal_strlit("Inactive:");
    reveal_strlit("Active(anon):");
    reveal_strlit("Inactive(anon):");
    reveal_strlit("Active(file):");
    reveal_strlit("Inactive(file):");
    reveal_strlit("Unevictable:");
    reveal_strlit("Mlocked:");
    reveal_strlit("SwapTotal:");
    reveal_strlit("SwapFree:");
    reveal_strlit("ZSwap:");
    reveal_strlit("ZSwapTotal:");
    reveal_strlit("Dirty:");
    reveal_strlit("Writeback:");
    reveal_strlit("AnonPages:");
    reveal_strlit("Mapped:");
    reveal_strlit("Shmem:");
    reveal_strlit("KReclaimable:");
    reveal_strlit("Slab:");
    reveal_strlit("SReclaimable:");
    reveal_strlit("SUnreclaim:");
    reveal_strlit("KernelStack:");
    reveal_strlit("PageTables:");
    reveal_strlit("SecMemTables:");
    reveal_strlit("NFS_Unstable:");
    reveal_strlit("Bounce:");
    reveal_strlit("WritebackTmp:");
    reveal_strlit("CommitLimit:");
    reveal_strlit("Committed_AS:");
    reveal_strlit("VmallocTotal:");
    reveal_strlit("VmallocUsed:");
    reveal_strlit("VmallocChunk:");
    reveal_strlit("Percpu:");
    reveal_strlit("HardwareCorrupted:");
    reveal_strlit("AnonHugePages:");
    reveal_strlit("ShmemHugePages:");
    reveal_strlit("ShmemPmdMapped:");
    reveal_strlit("FileHugePages:");
    reveal_strlit("FilePmdMapped:");
    reveal_strlit("CmaTotal:");
    reveal_strlit("CmaFree:");
    reveal_strlit("HugePages_Total:");
    reveal_strlit("HugePages_Free:");
    reveal_strlit("HugePages_Rsvd:");
    reveal_strlit("HugePages_Surp:");
    reveal_strlit("Hugepagesize:");
    reveal_strlit("Hugetlb:");
    reveal_strlit("DirectMap4k:");
    assert("MemTotal:"@.len() == 9 && "DirectMap4k:"@.len() == 12);
    assert("MemFree:"@.len() == 8 && "DirectMap4k:"@.len() == 12);
    assert("MemAvailable:"@.len() == 13 && "DirectMap4k:"@.len() == 12);
    assert("Buffers:"@.len() == 8 && "DirectMap4k:"@.len() == 12);
    assert("Cached:"@.len() == 7 && "DirectMap4k:"@.len() == 12);
    assert("SwapCached:"@.len() == 11 && "DirectMap4k:"@.len() == 12);
    assert("Active:"@.len() == 7 && "DirectMap4k:"@.len() == 12);
    assert("Inactive:"@.len() == 9 && "DirectMap4k:"@.len() == 12);
    assert("Active(anon):"@.len() == 13 && "DirectMap4k:"@.len() == 12);
    assert("Inactive(anon):"@.len() == 15 && "DirectMap4k:"@.len() == 12);
    assert("Active(file):"@.len() == 13 && "DirectMap4k:"@.len() == 12);
    assert("Inactive(file):"@.len() == 15 && "DirectMap4k:"@.len() == 12);
    assert("Unevictable:"@[0] == 'U' && "DirectMap4k:"@[0] == 'D');
    assert("Mlocked:"@.len() == 8 && "DirectMap4k:"@.len() == 12);
    assert("SwapTotal:"@.len() == 10 && "DirectMap4k:"@.len() == 12);
    assert("SwapFree:"@.len() == 9 && "DirectMap4k:"@.len() == 12);
    assert("ZSwap:"@.len() == 6 && "DirectMap4k:"@.len() == 12);
    assert("ZSwapTotal:"@.len() == 11 && "DirectMap4k:"@.len() == 12);
    assert("Dirty:"@.len() == 6 && "DirectMap4k:"@.len() == 12);
    assert("Writeback:"@.len() == 10 && "DirectMap4k:"@.len() == 12);
    assert("AnonPages:"@.len() == 10 && "DirectMap4k:"@.len() == 12);
    assert("Mapped:"@.len() == 7 && "DirectMap4k:"@.len() == 12);
    assert("Shmem:"@.len() == 6 && "DirectMap4k:"@.len() == 12);
    assert("KReclaimable:"@.len() == 13 && "DirectMap4k:"@.len() == 12);
    assert("Slab:"@.len() == 5 && "DirectMap4k:"@.len() == 12);
    assert("SReclaimable:"@.len() == 13 && "DirectMap4k:"@.len() == 12);
    assert("SUnreclaim:"@.len() == 11 && "DirectMap4k:"@.len() == 12);
    assert("KernelStack:"@[0] == 'K' && "DirectMap4k:"@[0] == 'D');
    assert("PageTables:"@.len() == 11 && "DirectMap4k:"@.len() == 12);
    assert("SecMemTables:"@.len() == 13 && "DirectMap4k:"@.len() == 12);
    assert("NFS_Unstable:"@.len() == 13 && "DirectMap4k:"@.len() == 12);
    assert("Bounce:"@.len() == 7 && "DirectMap4k:"@.len() == 12);
    assert("WritebackTmp:"@.len() == 13 && "DirectMap4k:"@.len() == 12);
    assert("CommitLimit:"@[0] == 'C' && "DirectMap4k:"@[0] == 'D');
    assert("Committed_AS:"@.len() == 13 && "DirectMap4k:"@.len() == 12);
    assert("VmallocTotal:"@.len() == 13 && "DirectMap4k:"@.len() == 12);
    assert("VmallocUsed:"@[0] == 'V' && "DirectMap4k:"@[0] == 'D');
    assert("VmallocChunk:"@.len() == 13 && "DirectMap4k:"@.len() == 12);
    assert("Percpu:"@.len() == 7 && "DirectMap4k:"@.len() == 12);
    assert("HardwareCorrupted:"@.len() == 18 && "DirectMap4k:"@.len() == 12);
    assert("AnonHugePages:"@.len() == 14 && "DirectMap4k:"@.len() == 12);
    assert("ShmemHugePages:"@.len() == 15 && "DirectMap4k:"@.len() == 12);
    assert("ShmemPmdMapped:"@.len() == 15 && "DirectMap4k:"@.len() == 12);
    assert("FileHugePages:"@.len() == 14 && "DirectMap4k:"@.len() == 12);
    assert("FilePmdMapped:"@.len() == 14 && "DirectMap4k:"@.len() == 12);
    assert("CmaTotal:"@.len() == 9 && "DirectMap4k:"@.len() == 12);
    assert("CmaFree:"@.len() == 8 && "DirectMap4k:"@.len() == 12);
    assert("HugePages_Total:"@.len() == 16 && "DirectMap4k:"@.len() == 12);
    assert("HugePages_Free:"@.len() == 15 && "DirectMap4k:"@.len() == 12);
    assert("HugePages_Rsvd:"@.len() == 15 && "DirectMap4k:"@.len() == 12);
    assert("HugePages_Surp:"@.len() == 15 && "DirectMap4k:"@.len() == 12);
    assert("Hugepagesize:"@.len() == 13 && "DirectMap4k:"@.len() == 12);
    assert("Hugetlb:"@.len() == 8 && "DirectMap4k:"@.len() == 12);
    assert(meminfo_key_index_from("DirectMap4k:"@, 53) == Some(53int));
    assert(meminfo_key_index_from("DirectMap4k:"@, 52) == Some(53int));
    assert(meminfo_key_index_from("DirectMap4k:"@, 51) == Some(53int));
    assert(meminfo_key_index_from("DirectMap4k:"@, 50) == Some(53int));
    assert(meminfo_key_index_from("DirectMap4k:"@, 49) == Some(53int));
    assert(meminfo_key_index_from("DirectMap4k:"@, 48) == Some(53int));
    assert(meminfo_key_index_from("DirectMap4k:"@, 47) == Some(53int));
    assert(meminfo_key_index_from("DirectMap4k:"@, 46) == Some(53int));
    assert(meminfo_key_index_from("DirectMap4k:"@, 45) == Some(53int));
    assert(meminfo_key_index_from("DirectMap4k:"@, 44) == Some(53int));
    assert(meminfo_key_index_from("DirectMap4k:"@, 43) == Some(53int));
    assert(meminfo_key_index_from("DirectMap4k:"@, 42) == Some(53int));
    assert(meminfo_key_index_from("DirectMap4k:"@, 41) == Some(53int));
    assert(meminfo_key_index_from("DirectMap4k:"@, 40) == Some(53int));
    assert(meminfo_key_index_from("DirectMap4k:"@, 39) == Some(53int));
    assert(meminfo_key_index_from("DirectMap4k:"@, 38) == Some(53int));
    assert(meminfo_key_index_from("DirectMap4k:"@, 37) == Some(53int));
    assert(meminfo_key_index_from("DirectMap4k:"@, 36) == Some(53int));
    assert(meminfo_key_index_from("DirectMap4k:"@, 35) == Some(53int));
    assert(meminfo_key_index_from("DirectMap4k:"@, 34) == Some(53int));
    assert(meminfo_key_index_from("DirectMap4k:"@, 33) == Some(53int));
    assert(meminfo_key_index_from("DirectMap4k:"@, 32) == Some(53int));
    assert(meminfo_key_index_from("DirectMap4k:"@, 31) == Some(53int));
    assert(meminfo_key_index_from("DirectMap4k:"@, 30) == Some(53int));
    assert(meminfo_key_index_from("DirectMap4k:"@, 29) == Some(53int));
    assert(meminfo_key_index_from("DirectMap4k:"@, 28) == Some(53int));
    assert(meminfo_key_index_from("DirectMap4k:"@, 27) == Some(53int));
    assert(meminfo_key_index_from("DirectMap4k:"@, 26) == Some(53int));
    assert(meminfo_key_index_from("DirectMap4k:"@, 25) == Some(53int));
    assert(meminfo_key_index_from("DirectMap4k:"@, 24) == Some(53int));
    assert(meminfo_key_index_from("DirectMap4k:"@, 23) == Some(53int));
    assert(meminfo_key_index_from("DirectMap4k:"@, 22) == Some(53int));
    assert(meminfo_key_index_from("DirectMap4k:"@, 21) == Some(53int));
    assert(meminfo_key_index_from("DirectMap4k:"@, 20) == Some(53int));
    assert(meminfo_key_index_from("DirectMap4k:"@, 19) == Some(53int));
    assert(meminfo_key_index_from("DirectMap4k:"@, 18) == Some(53int));
    assert(meminfo_key_index_from("DirectMap4k:"@, 17) == Some(53int));
    assert(meminfo_key_index_from("DirectMap4k:"@, 16) == Some(53int));
    assert(meminfo_key_index_from("DirectMap4k:"@, 15) == Some(53int));
    assert(meminfo_key_index_from("DirectMap4k:"@, 14) == Some(53int));
    assert(meminfo_key_index_from("DirectMap4k:"@, 13) == Some(53int));
    assert(meminfo_key_index_from("DirectMap4k:"@, 12) == Some(53int));
    assert(meminfo_key_index_from("DirectMap4k:"@, 11) == Some(53int));
    assert(meminfo_key_index_from("DirectMap4k:"@, 10) == Some(53int));
    assert(meminfo_key_index_from("DirectMap4k:"@, 9) == Some(53int));
    assert(meminfo_key_index_from("DirectMap4k:"@, 8) == Some(53int));
    assert(meminfo_key_index_from("DirectMap4k:"@, 7) == Some(53int));
    assert(meminfo_key_index_from("DirectMap4k:"@, 6) == Some(53int));
    assert(meminfo_key_index_from("DirectMap4k:"@, 5) == Some(53int));
    assert(meminfo_key_index_from("DirectMap4k:"@, 4) == Some(53int));
    assert(meminfo_key_index_from("DirectMap4k:"@, 3) == Some(53int));
    assert(meminfo_key_index_from("DirectMap4k:"@, 2) == Some(53int));
    assert(meminfo_key_index_from("DirectMap4k:"@, 1) == Some(53int));
    assert(meminfo_key_index_from("DirectMap4k:"@, 0) == Some(53int));
}

proof fn lemma_key_position_54()
    ensures
        meminfo_key_index("DirectMap2M:"@) == Some(54int),
{
    reveal_strlit("MemTotal:");
    reveal_strlit("MemFree:");
    reveal_strlit("MemAvailable:");
    reveal_strlit("Buffers:");
    reveal_strlit("Cached:");
    reveal_strlit("SwapCached:");
    reveal_strlit("Active:");
    reveal_strlit("Inactive:");
    reveal_strlit("Active(anon):");
    reveal_strlit("Inactive(anon):");
    reveal_strlit("Active(file):");
    reveal_strlit("Inactive(file):");
    reveal_strlit("Unevictable:");
    reveal_strlit("Mlocked:");
    reveal_strlit("SwapTotal:");
    reveal_strlit("SwapFree:");
    reveal_strlit("ZSwap:");
    reveal_strlit("ZSwapTotal:");
    reveal_strlit("Dirty:");
    reveal_strlit("Writeback:");
    reveal_strlit("AnonPages:");
    reveal_strlit("Mapped:");
    reveal_strlit("Shmem:");
    reveal_strlit("KReclaimable:");
    reveal_strlit("Slab:");
    reveal_strlit("SReclaimable:");
    reveal_strlit("SUnreclaim:");
    reveal_strlit("KernelStack:");
    reveal_strlit("PageTables:");
    reveal_strlit("SecMemTables:");
    reveal_strlit("NFS_Unstable:");
    reveal_strlit("Bounce:");
    reveal_strlit("WritebackTmp:");
    reveal_strlit("CommitLimit:");
    reveal_strlit("Committed_AS:");
    reveal_strlit("VmallocTotal:");
    reveal_strlit("VmallocUsed:");
    reveal_strlit("VmallocChunk:");
    reveal_strlit("Percpu:");
    reveal_strlit("HardwareCorrupted:");
    reveal_strlit("AnonHugePages:");
    reveal_strlit("ShmemHugePages:");
    reveal_strlit("ShmemPmdMapped:");
    reveal_strlit("FileHugePages:");
    reveal_strlit("FilePmdMapped:");
    reveal_strlit("CmaTotal:");
    reveal_strlit("CmaFree:");
    reveal_strlit("HugePages_Total:");
    reveal_strlit("HugePages_Free:");
    reveal_strlit("HugePages_Rsvd:");
    reveal_strlit("HugePages_Surp:");
    reveal_strlit("Hugepagesize:");
    reveal_strlit("Hugetlb:");
    reveal_strlit("DirectMap4k:");
    reveal_strlit("DirectMap2M:");
    assert("MemTotal:"@.len() == 9 && "DirectMap2M:"@.len() == 12);
    assert("MemFree:"@.len() == 8 && "DirectMap2M:"@.len() == 12);
    assert("MemAvailable:"@.len() == 13 && "DirectMap2M:"@.len() == 12);
    assert("Buffers:"@.len() == 8 && "DirectMap2M:"@.len() == 12);
    assert("Cached:"@.len() == 7 && "DirectMap2M:"@.len() == 12);
    assert("SwapCached:"@.len() == 11 && "DirectMap2M:"@.len() == 12);
    assert("Active:"@.len() == 7 && "DirectMap2M:"@.len() == 12);
    assert("Inactive:"@.len() == 9 && "DirectMap2M:"@.len() == 12);
    assert("Active(anon):"@.len() == 13 && "DirectMap2M:"@.len() == 12);
    assert("Inactive(anon):"@.len() == 15 && "DirectMap2M:"@.len() == 12);
    assert("Active(file):"@.len() == 13 && "DirectMap2M:"@.len() == 12);
    assert("Inactive(file):"@.len() == 15 && "DirectMap2M:"@.len() == 12);
    assert("Unevictable:"@[0] == 'U' && "DirectMap2M:"@[0] == 'D');
    assert("Mlocked:"@.len() == 8 && "DirectMap2M:"@.len() == 12);
    assert("SwapTotal:"@.len() == 10 && "DirectMap2M:"@.len() == 12);
    assert("SwapFree:"@.len() == 9 && "DirectMap2M:"@.len() == 12);
    assert("ZSwap:"@.len() == 6 && "DirectMap2M:"@.len() == 12);
    assert("ZSwapTotal:"@.len() == 11 && "DirectMap2M:"@.len() == 12);
    assert("Dirty:"@.len() == 6 && "DirectMap2M:"@.len() == 12);
    assert("Writeback:"@.len() == 10 && "DirectMap2M:"@.len() == 12);
    assert("AnonPages:"@.len() == 10 && "DirectMap2M:"@.len() == 12);
    assert("Mapped:"@.len() == 7 && "DirectMap2M:"@.len() == 12);
    assert("Shmem:"@.len() == 6 && "DirectMap2M:"@.len() == 12);
    assert("KReclaimable:"@.len() == 13 && "DirectMap2M:"@.len() == 12);
    assert("Slab:"@.len() == 5 && "DirectMap2M:"@.len() == 12);
    assert("SReclaimable:"@.len() == 13 && "DirectMap2M:"@.len() == 12);
    assert("SUnreclaim:"@.len() == 11 && "DirectMap2M:"@.len() == 12);
    assert("KernelStack:"@[0] == 'K' && "DirectMap2M:"@[0] == 'D');
    assert("PageTables:"@.len() == 11 && "DirectMap2M:"@.len() == 12);
    assert("SecMemTables:"@.len() == 13 && "DirectMap2M:"@.len() == 12);
    assert("NFS_Unstable:"@.len() == 13 && "DirectMap2M:"@.len() == 12);
    assert("Bounce:"@.len() == 7 && "DirectMap2M:"@.len() == 12);
    assert("WritebackTmp:"@.len() == 13 && "DirectMap2M:"@.len() == 12);
    assert("CommitLimit:"@[0] == 'C' && "DirectMap2M:"@[0] == 'D');
    assert("Committed_AS:"@.len() == 13 && "DirectMap2M:"@.len() == 12);
    assert("VmallocTotal:"@.len() == 13 && "DirectMap2M:"@.len() == 12);
    assert("VmallocUsed:"@[0] == 'V' && "DirectMap2M:"@[0] == 'D');
    assert("VmallocChunk:"@.len() == 13 && "DirectMap2M:"@.len() == 12);
    assert("Percpu:"@.len() == 7 && "DirectMap2M:"@.len() == 12);
    assert("HardwareCorrupted:"@.len() == 18 && "DirectMap2M:"@.len() == 12);
    assert("AnonHugePages:"@.len() == 14 && "DirectMap2M:"@.len() == 12);
    assert("ShmemHugePages:"@.len() == 15 && "DirectMap2M:"@.len() == 12);
    assert("ShmemPmdMapped:"@.len() == 15 && "DirectMap2M:"@.len() == 12);
    assert("FileHugePages:"@.len() == 14 && "DirectMap2M:"@.len() == 12);
    assert("FilePmdMapped:"@.len() == 14 && "DirectMap2M:"@.len() == 12);
    assert("CmaTotal:"@.len() == 9 && "DirectMap2M:"@.len() == 12);
    assert("CmaFree:"@.len() == 8 && "DirectMap2M:"@.len() == 12);
    assert("HugePages_Total:"@.len() == 16 && "DirectMap2M:"@.len() == 12);
    assert("HugePages_Free:"@.len() == 15 && "DirectMap2M:"@.len() == 12);
    assert("HugePages_Rsvd:"@.len() == 15 && "DirectMap2M:"@.len() == 12);
    assert("HugePages_Surp:"@.len() == 15 && "DirectMap2M:"@.len() == 12);
    assert("Hugepagesize:"@.len() == 13 && "DirectMap2M:"@.len() == 12);
    assert("Hugetlb:"@.len() == 8 && "DirectMap2M:"@.len() == 12);
    assert("DirectMap4k:"@[9] == '4' && "DirectMap2M:"@[9] == '2');
    assert(meminfo_key_index_from("DirectMap2M:"@, 54) == Some(54int));
    assert(meminfo_key_index_from("DirectMap2M:"@, 53) == Some(54int));
    assert(meminfo_key_index_from("DirectMap2M:"@, 52) == Some(54int));
    assert(meminfo_key_index_from("DirectMap2M:"@, 51) == Some(54int));
    assert(meminfo_key_index_from("DirectMap2M:"@, 50) == Some(54int));
    assert(meminfo_key_index_from("DirectMap2M:"@, 49) == Some(54int));
    assert(meminfo_key_index_from("DirectMap2M:"@, 48) == Some(54int));
    assert(meminfo_key_index_from("DirectMap2M:"@, 47) == Some(54int));
    assert(meminfo_key_index_from("DirectMap2M:"@, 46) == Some(54int));
    assert(meminfo_key_index_from("DirectMap2M:"@, 45) == Some(54int));
    assert(meminfo_key_index_from("DirectMap2M:"@, 44) == Some(54int));
    assert(meminfo_key_index_from("DirectMap2M:"@, 43) == Some(54int));
    assert(meminfo_key_index_from("DirectMap2M:"@, 42) == Some(54int));
    assert(meminfo_key_index_from("DirectMap2M:"@, 41) == Some(54int));
    assert(meminfo_key_index_from("DirectMap2M:"@, 40) == Some(54int));
    assert(meminfo_key_index_from("DirectMap2M:"@, 39) == Some(54int));
    assert(meminfo_key_index_from("DirectMap2M:"@, 38) == Some(54int));
    assert(meminfo_key_index_from("DirectMap2M:"@, 37) == Some(54int));
    assert(meminfo_key_index_from("DirectMap2M:"@, 36) == Some(54int));
    assert(meminfo_key_index_from("DirectMap2M:"@, 35) == Some(54int));
    assert(meminfo_key_index_from("DirectMap2M:"@, 34) == Some(54int));
    assert(meminfo_key_index_from("DirectMap2M:"@, 33) == Some(54int));
    assert(meminfo_key_index_from("DirectMap2M:"@, 32) == Some(54int));
    assert(meminfo_key_index_from("DirectMap2M:"@, 31) == Some(54int));
    assert(meminfo_key_index_from("DirectMap2M:"@, 30) == Some(54int));
    assert(meminfo_key_index_from("DirectMap2M:"@, 29) == Some(54int));
    assert(meminfo_key_index_from("DirectMap2M:"@, 28) == Some(54int));
    assert(meminfo_key_index_from("DirectMap2M:"@, 27) == Some(54int));
    assert(meminfo_key_index_from("DirectMap2M:"@, 26) == Some(54int));
    assert(meminfo_key_index_from("DirectMap2M:"@, 25) == Some(54int));
    assert(meminfo_key_index_from("DirectMap2M:"@, 24) == Some(54int));
    assert(meminfo_key_index_from("DirectMap2M:"@, 23) == Some(54int));
    assert(meminfo_key_index_from("DirectMap2M:"@, 22) == Some(54int));
    assert(meminfo_key_index_from("DirectMap2M:"@, 21) == Some(54int));
    assert(meminfo_key_index_from("DirectMap2M:"@, 20) == Some(54int));
    assert(meminfo_key_index_from("DirectMap2M:"@, 19) == Some(54int));
    assert(meminfo_key_index_from("DirectMap2M:"@, 18) == Some(54int));
    assert(meminfo_key_index_from("DirectMap2M:"@, 17) == Some(54int));
    assert(meminfo_key_index_from("DirectMap2M:"@, 16) == Some(54int));
    assert(meminfo_key_index_from("DirectMap2M:"@, 15) == Some(54int));
    assert(meminfo_key_index_from("DirectMap2M:"@, 14) == Some(54int));
    assert(meminfo_key_index_from("DirectMap2M:"@, 13) == Some(54int));
    assert(meminfo_key_index_from("DirectMap2M:"@, 12) == Some(54int));
    assert(meminfo_key_index_from("DirectMap2M:"@, 11) == Some(54int));
    assert(meminfo_key_index_from("DirectMap2M:"@, 10) == Some(54int));
    assert(meminfo_key_index_from("DirectMap2M:"@, 9) == Some(54int));
    assert(meminfo_key_index_from("DirectMap2M:"@, 8) == Some(54int));
    assert(meminfo_key_index_from("DirectMap2M:"@, 7) == Some(54int));
    assert(meminfo_key_index_from("DirectMap2M:"@, 6) == Some(54int));
    assert(meminfo_key_index_from("DirectMap2M:"@, 5) == Some(54int));
    assert(meminfo_key_index_from("DirectMap2M:"@, 4) == Some(54int));
    assert(meminfo_key_index_from("DirectMap2M:"@, 3) == Some(54int));
    assert(meminfo_key_index_from("DirectMap2M:"@, 2) == Some(54int));
    assert(meminfo_key_index_from("DirectMap2M:"@, 1) == Some(54int));
    assert(meminfo_key_index_from("DirectMap2M:"@, 0) == Some(54int));
}

proof fn lemma_key_position_55()
    ensures
        meminfo_key_index("DirectMap1G:"@) == Some(55int),
{
    reveal_strlit("MemTotal:");
    reveal_strlit("MemFree:");
    reveal_strlit("MemAvailable:");
    reveal_strlit("Buffers:");
    reveal_strlit("Cached:");
    reveal_strlit("SwapCached:");
    reveal_strlit("Active:");
    reveal_strlit("Inactive:");
    reveal_strlit("Active(anon):");
    reveal_strlit("Inactive(anon):");
    reveal_strlit("Active(file):");
    reveal_strlit("Inactive(file):");
    reveal_strlit("Unevictable:");
    reveal_strlit("Mlocked:");
    reveal_strlit("SwapTotal:");
    reveal_strlit("SwapFree:");
    reveal_strlit("ZSwap:");
    reveal_strlit("ZSwapTotal:");
    reveal_strlit("Dirty:");
    reveal_strlit("Writeback:");
    reveal_strlit("AnonPages:");
    reveal_strlit("Mapped:");
    reveal_strlit("Shmem:");
    reveal_strlit("KReclaimable:");
    reveal_strlit("Slab:");
    reveal_strlit("SReclaimable:");
    reveal_strlit("SUnreclaim:");
    reveal_strlit("KernelStack:");
    reveal_strlit("PageTables:");
    reveal_strlit("SecMemTables:");
    reveal_strlit("NFS_Unstable:");
    reveal_strlit("Bounce:");
    reveal_strlit("WritebackTmp:");
    reveal_strlit("CommitLimit:");
    reveal_strlit("Committed_AS:");
    reveal_strlit("VmallocTotal:");
    reveal_strlit("VmallocUsed:");
    reveal_strlit("VmallocChunk:");
    reveal_strlit("Percpu:");
    reveal_strlit("HardwareCorrupted:");
    reveal_strlit("AnonHugePages:");
    reveal_strlit("ShmemHugePages:");
    reveal_strlit("ShmemPmdMapped:");
    reveal_strlit("FileHugePages:");
    reveal_strlit("FilePmdMapped:");
    reveal_strlit("CmaTotal:");
    reveal_strlit("CmaFree:");
    reveal_strlit("HugePages_Total:");
    reveal_strlit("HugePages_Free:");
    reveal_strlit("HugePages_Rsvd:");
    reveal_strlit("HugePages_Surp:");
    reveal_strlit("Hugepagesize:");
    reveal_strlit("Hugetlb:");
    reveal_strlit("DirectMap4k:");
    reveal_strlit("DirectMap2M:");
    reveal_strlit("DirectMap1G:");
    assert("MemTotal:"@.len() == 9 && "DirectMap1G:"@.len() == 12);
    assert("MemFree:"@.len() == 8 && "DirectMap1G:"@.len() == 12);
    assert("MemAvailable:"@.len() == 13 && "DirectMap1G:"@.len() == 12);
    assert("Buffers:"@.len() == 8 && "DirectMap1G:"@.len() == 12);
    assert("Cached:"@.len() == 7 && "DirectMap1G:"@.len() == 12);
    assert("SwapCached:"@.len() == 11 && "DirectMap1G:"@.len() == 12);
    assert("Active:"@.len() == 7 && "DirectMap1G:"@.len() == 12);
    assert("Inactive:"@.len() == 9 && "DirectMap1G:"@.len() == 12);
    assert("Active(anon):"@.len() == 13 && "DirectMap1G:"@.len() == 12);
    assert("Inactive(anon):"@.len() == 15 && "DirectMap1G:"@.len() == 12);
    assert("Active(file):"@.len() == 13 && "DirectMap1G:"@.len() == 12);
    assert("Inactive(file):"@.len() == 15 && "DirectMap1G:"@.len() == 12);
    assert("Unevictable:"@[0] == 'U' && "DirectMap1G:"@[0] == 'D');
    assert("Mlocked:"@.len() == 8 && "DirectMap1G:"@.len() == 12);
    assert("SwapTotal:"@.len() == 10 && "DirectMap1G:"@.len() == 12);
    assert("SwapFree:"@.len() == 9 && "DirectMap1G:"@.len() == 12);
    assert("ZSwap:"@.len() == 6 && "DirectMap1G:"@.len() == 12);
    assert("ZSwapTotal:"@.len() == 11 && "DirectMap1G:"@.len() == 12);
    assert("Dirty:"@.len() == 6 && "DirectMap1G:"@.len() == 12);
    assert("Writeback:"@.len() == 10 && "DirectMap1G:"@.len() == 12);
    assert("AnonPages:"@.len() == 10 && "DirectMap1G:"@.len() == 12);
    assert("Mapped:"@.len() == 7 && "DirectMap1G:"@.len() == 12);
    assert("Shmem:"@.len() == 6 && "DirectMap1G:"@.len() == 12);
    assert("KReclaimable:"@.len() == 13 && "DirectMap1G:"@.len() == 12);
    assert("Slab:"@.len() == 5 && "DirectMap1G:"@.len() == 12);
    assert("SReclaimable:"@.len() == 13 && "DirectMap1G:"@.len() == 12);
    assert("SUnreclaim:"@.len() == 11 && "DirectMap1G:"@.len() == 12);
    assert("KernelStack:"@[0] == 'K' && "DirectMap1G:"@[0] == 'D');
    assert("PageTables:"@.len() == 11 && "DirectMap1G:"@.len() == 12);
    assert("SecMemTables:"@.len() == 13 && "DirectMap1G:"@.len() == 12);
    assert("NFS_Unstable:"@.len() == 13 && "DirectMap1G:"@.len() == 12);
    assert("Bounce:"@.len() == 7 && "DirectMap1G:"@.len() == 12);
    assert("WritebackTmp:"@.len() == 13 && "DirectMap1G:"@.len() == 12);
    assert("CommitLimit:"@[0] == 'C' && "DirectMap1G:"@[0] == 'D');
    assert("Committed_AS:"@.len() == 13 && "DirectMap1G:"@.len() == 12);
    assert("VmallocTotal:"@.len() == 13 && "DirectMap1G:"@.len() == 12);
    assert("VmallocUsed:"@[0] == 'V' && "DirectMap1G:"@[0] == 'D');
    assert("VmallocChunk:"@.len() == 13 && "DirectMap1G:"@.len() == 12);
    assert("Percpu:"@.len() == 7 && "DirectMap1G:"@.len() == 12);
    assert("HardwareCorrupted:"@.len() == 18 && "DirectMap1G:"@.len() == 12);
    assert("AnonHugePages:"@.len() == 14 && "DirectMap1G:"@.len() == 12);
    assert("ShmemHugePages:"@.len() == 15 && "DirectMap1G:"@.len() == 12);
    assert("ShmemPmdMapped:"@.len() == 15 && "DirectMap1G:"@.len() == 12);
    assert("FileHugePages:"@.len() == 14 && "DirectMap1G:"@.len() == 12);
    assert("FilePmdMapped:"@.len() == 14 && "DirectMap1G:"@.len() == 12);
    assert("CmaTotal:"@.len() == 9 && "DirectMap1G:"@.len() == 12);
    assert("CmaFree:"@.len() == 8 && "DirectMap1G:"@.len() == 12);
    assert("HugePages_Total:"@.len() == 16 && "DirectMap1G:"@.len() == 12);
    assert("HugePages_Free:"@.len() == 15 && "DirectMap1G:"@.len() == 12);
    assert("HugePages_Rsvd:"@.len() == 15 && "DirectMap1G:"@.len() == 12);
    assert("HugePages_Surp:"@.len() == 15 && "DirectMap1G:"@.len() == 12);
    assert("Hugepagesize:"@.len() == 13 && "DirectMap1G:"@.len() == 12);
    assert("Hugetlb:"@.len() == 8 && "DirectMap1G:"@.len() == 12);
    assert("DirectMap4k:"@[9] == '4' && "DirectMap1G:"@[9] == '1');
    assert("DirectMap2M:"@[9] == '2' && "DirectMap1G:"@[9] == '1');
    assert(meminfo_key_index_from("DirectMap1G:"@, 55) == Some(55int));
    assert(meminfo_key_index_from("DirectMap1G:"@, 54) == Some(55int));
    assert(meminfo_key_index_from("DirectMap1G:"@, 53) == Some(55int));
    assert(meminfo_key_index_from("DirectMap1G:"@, 52) == Some(55int));
    assert(meminfo_key_index_from("DirectMap1G:"@, 51) == Some(55int));
    assert(meminfo_key_index_from("DirectMap1G:"@, 50) == Some(55int));
    assert(meminfo_key_index_from("DirectMap1G:"@, 49) == Some(55int));
    assert(meminfo_key_index_from("DirectMap1G:"@, 48) == Some(55int));
    assert(meminfo_key_index_from("DirectMap1G:"@, 47) == Some(55int));
    assert(meminfo_key_index_from("DirectMap1G:"@, 46) == Some(55int));
    assert(meminfo_key_index_from("DirectMap1G:"@, 45) == Some(55int));
    assert(meminfo_key_index_from("DirectMap1G:"@, 44) == Some(55int));
    assert(meminfo_key_index_from("DirectMap1G:"@, 43) == Some(55int));
    assert(meminfo_key_index_from("DirectMap1G:"@, 42) == Some(55int));
    assert(meminfo_key_index_from("DirectMap1G:"@, 41) == Some(55int));
    assert(meminfo_key_index_from("DirectMap1G:"@, 40) == Some(55int));
    assert(meminfo_key_index_from("DirectMap1G:"@, 39) == Some(55int));
    assert(meminfo_key_index_from("DirectMap1G:"@, 38) == Some(55int));
    assert(meminfo_key_index_from("DirectMap1G:"@, 37) == Some(55int));
    assert(meminfo_key_index_from("DirectMap1G:"@, 36) == Some(55int));
    assert(meminfo_key_index_from("DirectMap1G:"@, 35) == Some(55int));
    assert(meminfo_key_index_from("DirectMap1G:"@, 34) == Some(55int));
    assert(meminfo_key_index_from("DirectMap1G:"@, 33) == Some(55int));
    assert(meminfo_key_index_from("DirectMap1G:"@, 32) == Some(55int));
    assert(meminfo_key_index_from("DirectMap1G:"@, 31) == Some(55int));
    assert(meminfo_key_index_from("DirectMap1G:"@, 30) == Some(55int));
    assert(meminfo_key_index_from("DirectMap1G:"@, 29) == Some(55int));
    assert(meminfo_key_index_from("DirectMap1G:"@, 28) == Some(55int));
    assert(meminfo_key_index_from("DirectMap1G:"@, 27) == Some(55int));
    assert(meminfo_key_index_from("DirectMap1G:"@, 26) == Some(55int));
    assert(meminfo_key_index_from("DirectMap1G:"@, 25) == Some(55int));
    assert(meminfo_key_index_from("DirectMap1G:"@, 24) == Some(55int));
    assert(meminfo_key_index_from("DirectMap1G:"@, 23) == Some(55int));
    assert(meminfo_key_index_from("DirectMap1G:"@, 22) == Some(55int));
    assert(meminfo_key_index_from("DirectMap1G:"@, 21) == Some(55int));
    assert(meminfo_key_index_from("DirectMap1G:"@, 20) == Some(55int));
    assert(meminfo_key_index_from("DirectMap1G:"@, 19) == Some(55int));
    assert(meminfo_key_index_from("DirectMap1G:"@, 18) == Some(55int));
    assert(meminfo_key_index_from("DirectMap1G:"@, 17) == Some(55int));
    assert(meminfo_key_index_from("DirectMap1G:"@, 16) == Some(55int));
    assert(meminfo_key_index_from("DirectMap1G:"@, 15) == Some(55int));
    assert(meminfo_key_index_from("DirectMap1G:"@, 14) == Some(55int));
    assert(meminfo_key_index_from("DirectMap1G:"@, 13) == Some(55int));
    assert(meminfo_key_index_from("DirectMap1G:"@, 12) == Some(55int));
    assert(meminfo_key_index_from("DirectMap1G:"@, 11) == Some(55int));
    assert(meminfo_key_index_from("DirectMap1G:"@, 10) == Some(55int));
    assert(meminfo_key_index_from("DirectMap1G:"@, 9) == Some(55int));
    assert(meminfo_key_index_from("DirectMap1G:"@, 8) == Some(55int));
    assert(meminfo_key_index_from("DirectMap1G:"@, 7) == Some(55int));
    assert(meminfo_key_index_from("DirectMap1G:"@, 6) == Some(55int));
    assert(meminfo_key_index_from("DirectMap1G:"@, 5) == Some(55int));
    assert(meminfo_key_index_from("DirectMap1G:"@, 4) == Some(55int));
    assert(meminfo_key_index_from("DirectMap1G:"@, 3) == Some(55int));
    assert(meminfo_key_index_from("DirectMap1G:"@, 2) == Some(55int));
    assert(meminfo_key_index_from("DirectMap1G:"@, 1) == Some(55int));
    assert(meminfo_key_index_from("DirectMap1G:"@, 0) == Some(55int));
}

/// Law: a line whose first word is a `/proc/meminfo` key sets the entry named for
/// that key, and only it, to the line's number in bytes (the huge page counts to
/// the number itself).
pub proof fn lemma_line_sets_named_entry(m: MemInfo, l: Seq<char>)
    ensures
        word_or_empty(l, 0) == "MemTotal:"@ ==> meminfo_apply_line(m, l) == (MemInfo { mem_total: (meminfo_line_number(l) * 1024) as usize, ..m }),
        word_or_empty(l, 0) == "MemFree:"@ ==> meminfo_apply_line(m, l) == (MemInfo { mem_free: (meminfo_line_number(l) * 1024) as usize, ..m }),
        word_or_empty(l, 0) == "MemAvailable:"@ ==> meminfo_apply_line(m, l) == (MemInfo { mem_available: (meminfo_line_number(l) * 1024) as usize, ..m }),
        word_or_empty(l, 0) == "Buffers:"@ ==> meminfo_apply_line(m, l) == (MemInfo { buffers: (meminfo_line_number(l) * 1024) as usize, ..m }),
        word_or_empty(l, 0) == "Cached:"@ ==> meminfo_apply_line(m, l) == (MemInfo { cached: (meminfo_line_number(l) * 1024) as usize, ..m }),
        word_or_empty(l, 0) == "SwapCached:"@ ==> meminfo_apply_line(m, l) == (MemInfo { swap_cached: (meminfo_line_number(l) * 1024) as usize, ..m }),
        word_or_empty(l, 0) == "Active:"@ ==> meminfo_apply_line(m, l) == (MemInfo { active: (meminfo_line_number(l) * 1024) as usize, ..m }),
        word_or_empty(l, 0) == "Inactive:"@ ==> meminfo_apply_line(m, l) == (MemInfo { inactive: (meminfo_line_number(l) * 1024) as usize, ..m }),
        word_or_empty(l, 0) == "Active(anon):"@ ==> meminfo_apply_line(m, l) == (MemInfo { active_anon: (meminfo_line_number(l) * 1024) as usize, ..m }),
        word_or_empty(l, 0) == "Inactive(anon):"@ ==> meminfo_apply_line(m, l) == (MemInfo { inactive_anon: (meminfo_line_number(l) * 1024) as usize, ..m }),
        word_or_empty(l, 0) == "Active(file):"@ ==> meminfo_apply_line(m, l) == (MemInfo { active_file: (meminfo_line_number(l) * 1024) as usize, ..m }),
        word_or_empty(l, 0) == "Inactive(file):"@ ==> meminfo_apply_line(m, l) == (MemInfo { inactive_file: (meminfo_line_number(l) * 1024) as usize, ..m }),
        word_or_empty(l, 0) == "Unevictable:"@ ==> meminfo_apply_line(m, l) == (MemInfo { unevictable: (meminfo_line_number(l) * 1024) as usize, ..m }),
        word_or_empty(l, 0) == "Mlocked:"@ ==> meminfo_apply_line(m, l) == (MemInfo { m_locked: (meminfo_line_number(l) * 1024) as usize, ..m }),
        word_or_empty(l, 0) == "SwapTotal:"@ ==> meminfo_apply_line(m, l) == (MemInfo { swap_total: (meminfo_line_number(l) * 1024) as usize, ..m }),
        word_or_empty(l, 0) == "SwapFree:"@ ==> meminfo_apply_line(m, l) == (MemInfo { swap_free: (meminfo_line_number(l) * 1024) as usize, ..m }),
        word_or_empty(l, 0) == "ZSwap:"@ ==> meminfo_apply_line(m, l) == (MemInfo { zswap: (meminfo_line_number(l) * 1024) as usize, ..m }),
        word_or_empty(l, 0) == "ZSwapTotal:"@ ==> meminfo_apply_line(m, l) == (MemInfo { zswapped: (meminfo_line_number(l) * 1024) as usize, ..m }),
        word_or_empty(l, 0) == "Dirty:"@ ==> meminfo_apply_line(m, l) == (MemInfo { dirty: (meminfo_line_number(l) * 1024) as usize, ..m }),
        word_or_empty(l, 0) == "Writeback:"@ ==> meminfo_apply_line(m, l) == (MemInfo { writeback: (meminfo_line_number(l) * 1024) as usize, ..m }),
        word_or_empty(l, 0) == "AnonPages:"@ ==> meminfo_apply_line(m, l) == (MemInfo { anon_pages: (meminfo_line_number(l) * 1024) as usize, ..m }),
        word_or_empty(l, 0) == "Mapped:"@ ==> meminfo_apply_line(m, l) == (MemInfo { mapped: (meminfo_line_number(l) * 1024) as usize, ..m }),
        word_or_empty(l, 0) == "Shmem:"@ ==> meminfo_apply_line(m, l) == (MemInfo { sh_mem: (meminfo_line_number(l) * 1024) as usize, ..m }),
        word_or_empty(l, 0) == "KReclaimable:"@ ==> meminfo_apply_line(m, l) == (MemInfo { k_reclaimable: (meminfo_line_number(l) * 1024) as usize, ..m }),
        word_or_empty(l, 0) == "Slab:"@ ==> meminfo_apply_line(m, l) == (MemInfo { slab: (meminfo_line_number(l) * 1024) as usize, ..m }),
        word_or_empty(l, 0) == "SReclaimable:"@ ==> meminfo_apply_line(m, l) == (MemInfo { s_reclaimable: (meminfo_line_number(l) * 1024) as usize, ..m }),
        word_or_empty(l, 0) == "SUnreclaim:"@ ==> meminfo_apply_line(m, l) == (MemInfo { s_unreclaim: (meminfo_line_number(l) * 1024) as usize, ..m }),
        word_or_empty(l, 0) == "KernelStack:"@ ==> meminfo_apply_line(m, l) == (MemInfo { kernel_stack: (meminfo_line_number(l) * 1024) as usize, ..m }),
        word_or_empty(l, 0) == "PageTables:"@ ==> meminfo_apply_line(m, l) == (MemInfo { page_tables: (meminfo_line_number(l) * 1024) as usize, ..m }),
        word_or_empty(l, 0) == "SecMemTables:"@ ==> meminfo_apply_line(m, l) == (MemInfo { sec_page_tables: (meminfo_line_number(l) * 1024) as usize, ..m }),
        word_or_empty(l, 0) == "NFS_Unstable:"@ ==> meminfo_apply_line(m, l) == (MemInfo { nfs_unstable: (meminfo_line_number(l) * 1024) as usize, ..m }),
        word_or_empty(l, 0) == "Bounce:"@ ==> meminfo_apply_line(m, l) == (MemInfo { bounce: (meminfo_line_number(l) * 1024) as usize, ..m }),
        word_or_empty(l, 0) == "WritebackTmp:"@ ==> meminfo_apply_line(m, l) == (MemInfo { writeback_tmp: (meminfo_line_number(l) * 1024) as usize, ..m }),
        word_or_empty(l, 0) == "CommitLimit:"@ ==> meminfo_apply_line(m, l) == (MemInfo { commit_limit: (meminfo_line_number(l) * 1024) as usize, ..m }),
        word_or_empty(l, 0) == "Committed_AS:"@ ==> meminfo_apply_line(m, l) == (MemInfo { committed_as: (meminfo_line_number(l) * 1024) as usize, ..m }),
        word_or_empty(l, 0) == "VmallocTotal:"@ ==> meminfo_apply_line(m, l) == (MemInfo { vmalloc_total: (meminfo_line_number(l) * 1024) as usize, ..m }),
        word_or_empty(l, 0) == "VmallocUsed:"@ ==> meminfo_apply_line(m, l) == (MemInfo { vmalloc_used: (meminfo_line_number(l) * 1024) as usize, ..m }),
        word_or_empty(l, 0) == "VmallocChunk:"@ ==> meminfo_apply_line(m, l) == (MemInfo { vmalloc_chunk: (meminfo_line_number(l) * 1024) as usize, ..m }),
        word_or_empty(l, 0) == "Percpu:"@ ==> meminfo_apply_line(m, l) == (MemInfo { percpu: (meminfo_line_number(l) * 1024) as usize, ..m }),
        word_or_empty(l, 0) == "HardwareCorrupted:"@ ==> meminfo_apply_line(m, l) == (MemInfo { hardware_corrupted: (meminfo_line_number(l) * 1024) as usize, ..m }),
        word_or_empty(l, 0) == "AnonHugePages:"@ ==> meminfo_apply_line(m, l) == (MemInfo { anon_huge_pages: (meminfo_line_number(l) * 1024) as usize, ..m }),
        word_or_empty(l, 0) == "ShmemHugePages:"@ ==> meminfo_apply_line(m, l) == (MemInfo { shmem_huge_pages: (meminfo_line_number(l) * 1024) as usize, ..m }),
        word_or_empty(l, 0) == "ShmemPmdMapped:"@ ==> meminfo_apply_line(m, l) == (MemInfo { shmem_pmd_mapped: (meminfo_line_number(l) * 1024) as usize, ..m }),
        word_or_empty(l, 0) == "FileHugePages:"@ ==> meminfo_apply_line(m, l) == (MemInfo { file_huge_pages: (meminfo_line_number(l) * 1024) as usize, ..m }),
        word_or_empty(l, 0) == "FilePmdMapped:"@ ==> meminfo_apply_line(m, l) == (MemInfo { file_pmd_mapped: (meminfo_line_number(l) * 1024) as usize, ..m }),
        word_or_empty(l, 0) == "CmaTotal:"@ ==> meminfo_apply_line(m, l) == (MemInfo { cma_total: (meminfo_line_number(l) * 1024) as usize, ..m }),
        word_or_empty(l, 0) == "CmaFree:"@ ==> meminfo_apply_line(m, l) == (MemInfo { cma_free: (meminfo_line_number(l) * 1024) as usize, ..m }),
        word_or_empty(l, 0) == "HugePages_Total:"@ ==> meminfo_apply_line(m, l) == (MemInfo { huge_pages_total: meminfo_line_number(l) as usize, ..m }),
        word_or_empty(l, 0) == "HugePages_Free:"@ ==> meminfo_apply_line(m, l) == (MemInfo { huge_pages_free: meminfo_line_number(l) as usize, ..m }),
        word_or_empty(l, 0) == "HugePages_Rsvd:"@ ==> meminfo_apply_line(m, l) == (MemInfo { huge_pages_rsvd: meminfo_line_number(l) as usize, ..m }),
        word_or_empty(l, 0) == "HugePages_Surp:"@ ==> meminfo_apply_line(m, l) == (MemInfo { huge_pages_surp: meminfo_line_number(l) as usize, ..m }),
        word_or_empty(l, 0) == "Hugepagesize:"@ ==> meminfo_apply_line(m, l) == (MemInfo { hugepagesize: (meminfo_line_number(l) * 1024) as usize, ..m }),
        word_or_empty(l, 0) == "Hugetlb:"@ ==> meminfo_apply_line(m, l) == (MemInfo { hugetlb: (meminfo_line_number(l) * 1024) as usize, ..m }),
        word_or_empty(l, 0) == "DirectMap4k:"@ ==> meminfo_apply_line(m, l) == (MemInfo { direct_map4k: (meminfo_line_number(l) * 1024) as usize, ..m }),
        word_or_empty(l, 0) == "DirectMap2M:"@ ==> meminfo_apply_line(m, l) == (MemInfo { direct_map2m: (meminfo_line_number(l) * 1024) as usize, ..m }),
        word_or_empty(l, 0) == "DirectMap1G:"@ ==> meminfo_apply_line(m, l) == (MemInfo { direct_map1g: (meminfo_line_number(l) * 1024) as usize, ..m }),
{
    if word_or_empty(l, 0) == "MemTotal:"@ {
        lemma_key_position_0();
    }
    if word_or_empty(l, 0) == "MemFree:"@ {
        lemma_key_position_1();
    }
    if word_or_empty(l, 0) == "MemAvailable:"@ {
        lemma_key_position_2();
    }
    if word_or_empty(l, 0) == "Buffers:"@ {
        lemma_key_position_3();
    }
    if word_or_empty(l, 0) == "Cached:"@ {
        lemma_key_position_4();
    }
    if word_or_empty(l, 0) == "SwapCached:"@ {
        lemma_key_position_5();
    }
    if word_or_empty(l, 0) == "Active:"@ {
        lemma_key_position_6();
    }
    if word_or_empty(l, 0) == "Inactive:"@ {
        lemma_key_position_7();
    }
    if word_or_empty(l, 0) == "Active(anon):"@ {
        lemma_key_position_8();
    }
    if word_or_empty(l, 0) == "Inactive(anon):"@ {
        lemma_key_position_9();
    }
    if word_or_empty(l, 0) == "Active(file):"@ {
        lemma_key_position_10();
    }
    if word_or_empty(l, 0) == "Inactive(file):"@ {
        lemma_key_position_11();
    }
    if word_or_empty(l, 0) == "Unevictable:"@ {
        lemma_key_position_12();
    }
    if word_or_empty(l, 0) == "Mlocked:"@ {
        lemma_key_position_13();
    }
    if word_or_empty(l, 0) == "SwapTotal:"@ {
        lemma_key_position_14();
    }
    if word_or_empty(l, 0) == "SwapFree:"@ {
        lemma_key_position_15();
    }
    if word_or_empty(l, 0) == "ZSwap:"@ {
        lemma_key_position_16();
    }
    if word_or_empty(l, 0) == "ZSwapTotal:"@ {
        lemma_key_position_17();
    }
    if word_or_empty(l, 0) == "Dirty:"@ {
        lemma_key_position_18();
    }
    if word_or_empty(l, 0) == "Writeback:"@ {
        lemma_key_position_19();
    }
    if word_or_empty(l, 0) == "AnonPages:"@ {
        lemma_key_position_20();
    }
    if word_or_empty(l, 0) == "Mapped:"@ {
        lemma_key_position_21();
    }
    if word_or_empty(l, 0) == "Shmem:"@ {
        lemma_key_position_22();
    }
    if word_or_empty(l, 0) == "KReclaimable:"@ {
        lemma_key_position_23();
    }
    if word_or_empty(l, 0) == "Slab:"@ {
        lemma_key_position_24();
    }
    if word_or_empty(l, 0) == "SReclaimable:"@ {
        lemma_key_position_25();
    }
    if word_or_empty(l, 0) == "SUnreclaim:"@ {
        lemma_key_position_26();
    }
    if word_or_empty(l, 0) == "KernelStack:"@ {
        lemma_key_position_27();
    }
    if word_or_empty(l, 0) == "PageTables:"@ {
        lemma_key_position_28();
    }
    if word_or_empty(l, 0) == "SecMemTables:"@ {
        lemma_key_position_29();
    }
    if word_or_empty(l, 0) == "NFS_Unstable:"@ {
        lemma_key_position_30();
    }
    if word_or_empty(l, 0) == "Bounce:"@ {
        lemma_key_position_31();
    }
    if word_or_empty(l, 0) == "WritebackTmp:"@ {
        lemma_key_position_32();
    }
    if word_or_empty(l, 0) == "CommitLimit:"@ {
        lemma_key_position_33();
    }
    if word_or_empty(l, 0) == "Committed_AS:"@ {
        lemma_key_position_34();
    }
    if word_or_empty(l, 0) == "VmallocTotal:"@ {
        lemma_key_position_35();
    }
    if word_or_empty(l, 0) == "VmallocUsed:"@ {
        lemma_key_position_36();
    }
    if word_or_empty(l, 0) == "VmallocChunk:"@ {
        lemma_key_position_37();
    }
    if word_or_empty(l, 0) == "Percpu:"@ {
        lemma_key_position_38();
    }
    if word_or_empty(l, 0) == "HardwareCorrupted:"@ {
        lemma_key_position_39();
    }
    if word_or_empty(l, 0) == "AnonHugePages:"@ {
        lemma_key_position_40();
    }
    if word_or_empty(l, 0) == "ShmemHugePages:"@ {
        lemma_key_position_41();
    }
    if word_or_empty(l, 0) == "ShmemPmdMapped:"@ {
        lemma_key_position_42();
    }
    if word_or_empty(l, 0) == "FileHugePages:"@ {
        lemma_key_position_43();
    }
    if word_or_empty(l, 0) == "FilePmdMapped:"@ {
        lemma_key_position_44();
    }
    if word_or_empty(l, 0) == "CmaTotal:"@ {
        lemma_key_position_45();
    }
    if word_or_empty(l, 0) == "CmaFree:"@ {
        lemma_key_position_46();
    }
    if word_or_empty(l, 0) == "HugePages_Total:"@ {
        lemma_key_position_47();
    }
    if word_or_empty(l, 0) == "HugePages_Free:"@ {
        lemma_key_position_48();
    }
    if word_or_empty(l, 0) == "HugePages_Rsvd:"@ {
        lemma_key_position_49();
    }
    if word_or_empty(l, 0) == "HugePages_Surp:"@ {
        lemma_key_position_50();
    }
    if word_or_empty(l, 0) == "Hugepagesize:"@ {
        lemma_key_position_51();
    }
    if word_or_empty(l, 0) == "Hugetlb:"@ {
        lemma_key_position_52();
    }
    if word_or_empty(l, 0) == "DirectMap4k:"@ {
        lemma_key_position_53();
    }
    if word_or_empty(l, 0) == "DirectMap2M:"@ {
        lemma_key_position_54();
    }
    if word_or_empty(l, 0) == "DirectMap1G:"@ {
        lemma_key_position_55();
    }
}


/// Law: a line whose first word is none of the `/proc/meminfo` keys changes nothing.
pub proof fn lemma_unknown_key_changes_nothing(m: MemInfo, l: Seq<char>)
    requires
        word_or_empty(l, 0) != "MemTotal:"@,
        word_or_empty(l, 0) != "MemFree:"@,
        word_or_empty(l, 0) != "MemAvailable:"@,
        word_or_empty(l, 0) != "Buffers:"@,
        word_or_empty(l, 0) != "Cached:"@,
        word_or_empty(l, 0) != "SwapCached:"@,
        word_or_empty(l, 0) != "Active:"@,
        word_or_empty(l, 0) != "Inactive:"@,
        word_or_empty(l, 0) != "Active(anon):"@,
        word_or_empty(l, 0) != "Inactive(anon):"@,
        word_or_empty(l, 0) != "Active(file):"@,
        word_or_empty(l, 0) != "Inactive(file):"@,
        word_or_empty(l, 0) != "Unevictable:"@,
        word_or_empty(l, 0) != "Mlocked:"@,
        word_or_empty(l, 0) != "SwapTotal:"@,
        word_or_empty(l, 0) != "SwapFree:"@,
        word_or_empty(l, 0) != "ZSwap:"@,
        word_or_empty(l, 0) != "ZSwapTotal:"@,
        word_or_empty(l, 0) != "Dirty:"@,
        word_or_empty(l, 0) != "Writeback:"@,
        word_or_empty(l, 0) != "AnonPages:"@,
        word_or_empty(l, 0) != "Mapped:"@,
        word_or_empty(l, 0) != "Shmem:"@,
        word_or_empty(l, 0) != "KReclaimable:"@,
        word_or_empty(l, 0) != "Slab:"@,
        word_or_empty(l, 0) != "SReclaimable:"@,
        word_or_empty(l, 0) != "SUnreclaim:"@,
        word_or_empty(l, 0) != "KernelStack:"@,
        word_or_empty(l, 0) != "PageTables:"@,
        word_or_empty(l, 0) != "SecMemTables:"@,
        word_or_empty(l, 0) != "NFS_Unstable:"@,
        word_or_empty(l, 0) != "Bounce:"@,
        word_or_empty(l, 0) != "WritebackTmp:"@,
        word_or_empty(l, 0) != "CommitLimit:"@,
        word_or_empty(l, 0) != "Committed_AS:"@,
        word_or_empty(l, 0) != "VmallocTotal:"@,
        word_or_empty(l, 0) != "VmallocUsed:"@,
        word_or_empty(l, 0) != "VmallocChunk:"@,
        word_or_empty(l, 0) != "Percpu:"@,
        word_or_empty(l, 0) != "HardwareCorrupted:"@,
        word_or_empty(l, 0) != "AnonHugePages:"@,
        word_or_empty(l, 0) != "ShmemHugePages:"@,
        word_or_empty(l, 0) != "ShmemPmdMapped:"@,
        word_or_empty(l, 0) != "FileHugePages:"@,
        word_or_empty(l, 0) != "FilePmdMapped:"@,
        word_or_empty(l, 0) != "CmaTotal:"@,
        word_or_empty(l, 0) != "CmaFree:"@,
        word_or_empty(l, 0) != "HugePages_Total:"@,
        word_or_empty(l, 0) != "HugePages_Free:"@,
        word_or_empty(l, 0) != "HugePages_Rsvd:"@,
        word_or_empty(l, 0) != "HugePages_Surp:"@,
        word_or_empty(l, 0) != "Hugepagesize:"@,
        word_or_empty(l, 0) != "Hugetlb:"@,
        word_or_empty(l, 0) != "DirectMap4k:"@,
        word_or_empty(l, 0) != "DirectMap2M:"@,
        word_or_empty(l, 0) != "DirectMap1G:"@,
    ensures
        meminfo_apply_line(m, l) == m,
{
    assert(meminfo_key_index_from(word_or_empty(l, 0), 56) is None);
    assert(meminfo_key_index_from(word_or_empty(l, 0), 55) is None);
    assert(meminfo_key_index_from(word_or_empty(l, 0), 54) is None);
    assert(meminfo_key_index_from(word_or_empty(l, 0), 53) is None);
    assert(meminfo_key_index_from(word_or_empty(l, 0), 52) is None);
    assert(meminfo_key_index_from(word_or_empty(l, 0), 51) is None);
    assert(meminfo_key_index_from(word_or_empty(l, 0), 50) is None);
    assert(meminfo_key_index_from(word_or_empty(l, 0), 49) is None);
    assert(meminfo_key_index_from(word_or_empty(l, 0), 48) is None);
    assert(meminfo_key_index_from(word_or_empty(l, 0), 47) is None);
    assert(meminfo_key_index_from(word_or_empty(l, 0), 46) is None);
    assert(meminfo_key_index_from(word_or_empty(l, 0), 45) is None);
    assert(meminfo_key_index_from(word_or_empty(l, 0), 44) is None);
    assert(meminfo_key_index_from(word_or_empty(l, 0), 43) is None);
    assert(meminfo_key_index_from(word_or_empty(l, 0), 42) is None);
    assert(meminfo_key_index_from(word_or_empty(l, 0), 41) is None);
    assert(meminfo_key_index_from(word_or_empty(l, 0), 40) is None);
    assert(meminfo_key_index_from(word_or_empty(l, 0), 39) is None);
    assert(meminfo_key_index_from(word_or_empty(l, 0), 38) is None);
    assert(meminfo_key_index_from(word_or_empty(l, 0), 37) is None);
    assert(meminfo_key_index_from(word_or_empty(l, 0), 36) is None);
    assert(meminfo_key_index_from(word_or_empty(l, 0), 35) is None);
    assert(meminfo_key_index_from(word_or_empty(l, 0), 34) is None);
    assert(meminfo_key_index_from(word_or_empty(l, 0), 33) is None);
    assert(meminfo_key_index_from(word_or_empty(l, 0), 32) is None);
    assert(meminfo_key_index_from(word_or_empty(l, 0), 31) is None);
    assert(meminfo_key_index_from(word_or_empty(l, 0), 30) is None);
    assert(meminfo_key_index_from(word_or_empty(l, 0), 29) is None);
    assert(meminfo_key_index_from(word_or_empty(l, 0), 28) is None);
    assert(meminfo_key_index_from(word_or_empty(l, 0), 27) is None);
    assert(meminfo_key_index_from(word_or_empty(l, 0), 26) is None);
    assert(meminfo_key_index_from(word_or_empty(l, 0), 25) is None);
    assert(meminfo_key_index_from(word_or_empty(l, 0), 24) is None);
    assert(meminfo_key_index_from(word_or_empty(l, 0), 23) is None);
    assert(meminfo_key_index_from(word_or_empty(l, 0), 22) is None);
    assert(meminfo_key_index_from(word_or_empty(l, 0), 21) is None);
    assert(meminfo_key_index_from(word_or_empty(l, 0), 20) is None);
    assert(meminfo_key_index_from(word_or_empty(l, 0), 19) is None);
    assert(meminfo_key_index_from(word_or_empty(l, 0), 18) is None);
    assert(meminfo_key_index_from(word_or_empty(l, 0), 17) is None);
    assert(meminfo_key_index_from(word_or_empty(l, 0), 16) is None);
    assert(meminfo_key_index_from(word_or_empty(l, 0), 15) is None);
    assert(meminfo_key_index_from(word_or_empty(l, 0), 14) is None);
    assert(meminfo_key_index_from(word_or_empty(l, 0), 13) is None);
    assert(meminfo_key_index_from(word_or_empty(l, 0), 12) is None);
    assert(meminfo_key_index_from(word_or_empty(l, 0), 11) is None);
    assert(meminfo_key_index_from(word_or_empty(l, 0), 10) is None);
    assert(meminfo_key_index_from(word_or_empty(l, 0), 9) is None);
    assert(meminfo_key_index_from(word_or_empty(l, 0), 8) is None);
    assert(meminfo_key_index_from(word_or_empty(l, 0), 7) is None);
    assert(meminfo_key_index_from(word_or_empty(l, 0), 6) is None);
    assert(meminfo_key_index_from(word_or_empty(l, 0), 5) is None);
    assert(meminfo_key_index_from(word_or_empty(l, 0), 4) is None);
    assert(meminfo_key_index_from(word_or_empty(l, 0), 3) is None);
    assert(meminfo_key_index_from(word_or_empty(l, 0), 2) is None);
    assert(meminfo_key_index_from(word_or_empty(l, 0), 1) is None);
    assert(meminfo_key_index_from(word_or_empty(l, 0), 0) is None);
}

} // verus!
