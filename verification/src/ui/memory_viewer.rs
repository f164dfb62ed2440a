//! The memory viewer: which address its input names, how it pages, and how
//! it lays out a window of bytes.
use vstd::prelude::*;

use crate::text::{
    hex_reads_back, lemma_trim_unspaced, chars_of, concat, hex_padded, hex_seq, hex_string, pad_left, pad_right, pad_string,
    parse_unsigned, parse_unsigned_seq, push_char, starts_with_seq, trim, trim_seq,
};

verus! {

/// The address input and page size of the memory viewer.
#[derive(Debug)]
pub struct MemoryViewerState {
    pub address_input: String,
    page_size: usize,
}

impl MemoryViewerState {
    /// The number of bytes shown per page.
    pub closed spec fn page(self) -> usize {
        self.page_size
    }

    /// The text of the address input.
    pub closed spec fn input(self) -> Seq<char> {
        self.address_input@
    }

    /// A viewer at `0x1000` showing 256-byte pages.
    pub fn new() -> (s: Self)
        ensures
            s.input() == "0x1000"@,
            s.page() == 0x100,
    {
        MemoryViewerState { address_input: String::from_str("0x1000"), page_size: 0x100 }
    }

    /// The number of bytes shown per page.
    pub fn page_size(&self) -> (n: usize)
        ensures
            n == self.page(),
    {
        self.page_size
    }

    /// Moves one page down from `memory_address` (stopping at zero), shows
    /// the new address in the input, and returns it.
    pub fn previous_page(&mut self, memory_address: u64) -> (a: u64)
        ensures
            a == (if memory_address >= old(self).page() {
                memory_address - old(self).page()
            } else {
                0
            }),
            final(self).input() == "0x"@ + hex_seq(a as nat),
            final(self).page() == old(self).page(),
    {
        let page = self.page_size as u64;
        let a = if memory_address >= page {
            memory_address - page
        } else {
            0
        };
        self.address_input = concat("0x", hex_string(a as u128).as_str());
        a
    }

    /// Moves one page up from `memory_address` (stopping at the top of the
    /// address space), shows the new address in the input, and returns it.
    pub fn next_page(&mut self, memory_address: u64) -> (a: u64)
        ensures
            a == (if memory_address + old(self).page() <= u64::MAX {
                (memory_address + old(self).page()) as u64
            } else {
                u64::MAX
            }),
            final(self).input() == "0x"@ + hex_seq(a as nat),
            final(self).page() == old(self).page(),
    {
        let page = self.page_size as u64;
        let a = if memory_address <= u64::MAX - page {
            memory_address + page
        } else {
            u64::MAX
        };
        self.address_input = concat("0x", hex_string(a as u128).as_str());
        a
    }
}

/// The address that `text` names: trimmed, hexadecimal after a `0x` or
/// `0X` prefix, decimal otherwise.
pub open spec fn address_of(text: Seq<char>) -> Option<int> {
    let t = trim_seq(text);
    if starts_with_seq(t, "0x"@) || starts_with_seq(t, "0X"@) {
        parse_unsigned_seq(t.skip(2), 16, u64::MAX as int)
    } else {
        parse_unsigned_seq(t, 10, u64::MAX as int)
    }
}

/// The address that `text` names, if it names one.
pub fn parse_address(text: &str) -> (r: Option<u64>)
    ensures
        r matches Some(a) ==> address_of(text@) == Some(a as int),
        r is None ==> address_of(text@) is None,
{
    let t = trim(text);
    let v = chars_of(t.as_str());
    let hex = v.len() >= 2 && v[0] == '0' && (v[1] == 'x' || v[1] == 'X');
    proof {
        reveal_strlit("0x");
        reveal_strlit("0X");
        let s = trim_seq(text@);
        assert(v@ == s);
        if s.len() >= 2 {
            let p = s.subrange(0, 2);
            if s[0] == '0' && s[1] == 'x' {
                assert(p =~= "0x"@);
            } else if p == "0x"@ {
                assert(p[0] == '0' && p[1] == 'x');
            }
            if s[0] == '0' && s[1] == 'X' {
                assert(p =~= "0X"@);
            } else if p == "0X"@ {
                assert(p[0] == '0' && p[1] == 'X');
            }
            assert(v@.subrange(2, v@.len() as int) =~= s.skip(2));
        }
        assert(hex == (starts_with_seq(s, "0x"@) || starts_with_seq(s, "0X"@)));
        assert(v@.subrange(0, v@.len() as int) =~= s);
    }
    if hex {
        parse_unsigned(&v, 2, 16, 0xffff_ffff_ffff_ffff)
    } else {
        parse_unsigned(&v, 0, 10, 0xffff_ffff_ffff_ffff)
    }
}

/// How a byte shows in the character column: itself when it is a visible
/// ASCII character, a dot otherwise.
pub open spec fn shown_char(b: u8) -> char {
    if 0x21 <= b <= 0x7e {
        b as char
    } else {
        '.'
    }
}

/// The bytes in two hexadecimal digits each, separated by spaces.
pub open spec fn hex_bytes(bytes: Seq<u8>) -> Seq<char>
    decreases bytes.len(),
{
    if bytes.len() == 0 {
        Seq::empty()
    } else if bytes.len() == 1 {
        pad_left(hex_seq(bytes[0] as nat), '0', 2)
    } else {
        hex_bytes(bytes.drop_last()) + " "@ + pad_left(hex_seq(bytes.last() as nat), '0', 2)
    }
}

/// One line of the memory dump: the address in 16 hexadecimal digits, the
/// bytes in hexadecimal padded to 47 columns, and their characters.
pub open spec fn dump_line(address: u64, bytes: Seq<u8>) -> Seq<char> {
    "0x"@ + pad_left(hex_seq(address as nat), '0', 16) + "  "@ + pad_right(hex_bytes(bytes), ' ', 47)
        + "  |"@ + bytes.map_values(|b: u8| shown_char(b)) + "|"@
}

fn byte_char(b: u8) -> (c: char)
    ensures
        c == shown_char(b),
{
    if 0x21 <= b && b <= 0x7e {
        b as char
    } else {
        '.'
    }
}

/// One line of the memory dump for `bytes` at `address`.
pub fn format_dump_line(address: u64, bytes: &[u8]) -> (s: String)
    ensures
        s@ == dump_line(address, bytes@),
{
    let mut hex = String::new();
    let mut text = String::new();
    let mut i: usize = 0;
    while i < bytes.len()
        invariant
            i <= bytes@.len(),
            hex@ == hex_bytes(bytes@.subrange(0, i as int)),
            text@ == bytes@.subrange(0, i as int).map_values(|b: u8| shown_char(b)),
        decreases bytes@.len() - i,
    {
        let ghost pre = bytes@.subrange(0, i as int);
        let ghost next = bytes@.subrange(0, i + 1);
        assert(next.drop_last() == pre);
        if i > 0 {
            hex.append(" ");
        }
        hex.append(hex_padded(bytes[i] as u128, 2).as_str());
        push_char(&mut text, byte_char(bytes[i]));
        assert(text@ =~= next.map_values(|b: u8| shown_char(b)));
        i = i + 1;
    }
    assert(bytes@.subrange(0, bytes@.len() as int) == bytes@);
    pad_string(&mut hex, ' ', 47, false);
    let mut s = concat("0x", hex_padded(address as u128, 16).as_str());
    s.append("  ");
    s.append(hex.as_str());
    s.append("  |");
    s.append(text.as_str());
    s.append("|");
    s
}

/// Line `i` of the dump of `bytes`: its 16 bytes (fewer for the last line).
pub open spec fn dump_chunk(bytes: Seq<u8>, i: int) -> Seq<u8> {
    bytes.subrange(16 * i, if 16 * i + 16 <= bytes.len() {
        16 * i + 16
    } else {
        bytes.len() as int
    })
}

/// The memory dump of `bytes` at `address`: one line per 16 bytes, each at
/// its own address; the line addresses must fit in 64 bits.
pub fn memory_dump(address: u64, bytes: &Vec<u8>) -> (lines: Vec<String>)
    requires
        bytes@.len() == 0 || address + 16 * ((bytes@.len() - 1) / 16) <= u64::MAX,
    ensures
        lines@.len() == (bytes@.len() + 15) / 16,
        forall|i: int|
            0 <= i < lines@.len() ==> (#[trigger] lines@[i])@ == dump_line(
                (address + 16 * i) as u64,
                dump_chunk(bytes@, i),
            ),
{
    let count = bytes.len() / 16 + if bytes.len() % 16 != 0 {
        1
    } else {
        0
    };
    let n = bytes.len();
    let mut lines: Vec<String> = Vec::new();
    let mut i: usize = 0;
    while i < count
        invariant
            n == bytes@.len(),
            count == (bytes@.len() + 15) / 16,
            bytes@.len() == 0 || address + 16 * ((bytes@.len() - 1) / 16) <= u64::MAX,
            i <= count,
            lines@.len() == i,
            forall|k: int|
                0 <= k < i ==> (#[trigger] lines@[k])@ == dump_line(
                    (address + 16 * k) as u64,
                    dump_chunk(bytes@, k),
                ),
        decreases count - i,
    {
        assert(16 * i < n) by (nonlinear_arith)
            requires
                i < count,
                count == (n + 15) / 16,
        ;
        let start = 16 * i;
        let end = if bytes.len() - start >= 16 {
            start + 16
        } else {
            bytes.len()
        };
        let mut chunk: Vec<u8> = Vec::new();
        let mut k = start;
        while k < end
            invariant
                start <= k <= end <= bytes@.len(),
                chunk@ == bytes@.subrange(start as int, k as int),
            decreases end - k,
        {
            chunk.push(bytes[k]);
            assert(chunk@ =~= bytes@.subrange(start as int, k + 1));
            k = k + 1;
        }
        assert(i <= (bytes@.len() - 1) / 16);
        let line_address = address + 16 * (i as u64);
        lines.push(format_dump_line(line_address, chunk.as_slice()));
        i = i + 1;
    }
    lines
}

/// The address that paging writes into the input reads back as that
/// address.
pub proof fn paged_address_reads_back(a: u64)
    ensures
        address_of("0x"@ + hex_seq(a as nat)) == Some(a as int),
{
    reveal_strlit("0x");
    hex_reads_back(a as nat, u64::MAX as int);
    let h = hex_seq(a as nat);
    let t = "0x"@ + h;
    assert(t[0] == '0');
    assert(t[t.len() - 1] == h[h.len() - 1]);
    lemma_trim_unspaced(t);
    assert(t.subrange(0, 2) =~= "0x"@);
    assert(t.skip(2) =~= h);
}

} // verus!
