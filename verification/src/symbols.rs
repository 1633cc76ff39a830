//! The symbol side table: a line-oriented text format in which lines
//! starting with `;` are comments, a `[labels]` section header introduces
//! entries of the form `bank:address name` with bank and address in
//! hexadecimal, and lookup maps an address to its label. The table is
//! passive: it never influences emulation.

use vstd::prelude::*;

verus! {

/// Whether a byte is an ASCII hexadecimal digit.
pub open spec fn spec_is_hex_digit(b: u8) -> bool {
    (0x30 <= b <= 0x39) || (0x41 <= b <= 0x46) || (0x61 <= b <= 0x66)
}

/// The value of an ASCII hexadecimal digit.
pub open spec fn spec_hex_digit(b: u8) -> int {
    if 0x30 <= b <= 0x39 {
        b - 0x30
    } else if 0x41 <= b <= 0x46 {
        b - 0x41 + 10
    } else if 0x61 <= b <= 0x66 {
        b - 0x61 + 10
    } else {
        0
    }
}

/// The number denoted by a big-endian sequence of hexadecimal digits.
pub open spec fn spec_hex_value(s: Seq<u8>) -> int
    decreases s.len(),
{
    if s.len() == 0 {
        0
    } else {
        spec_hex_value(s.drop_last()) * 16 + spec_hex_digit(s.last())
    }
}

/// Whether a byte sequence is a well-formed hexadecimal numeral that fits
/// the lookup key width: nonempty, at most eight digits, digits only.
pub open spec fn spec_hex_wf(s: Seq<u8>) -> bool {
    &&& 1 <= s.len() <= 8
    &&& forall|i: int| 0 <= i < s.len() ==> spec_is_hex_digit(#[trigger] s[i])
}

fn is_hex_digit(b: u8) -> (r: bool)
    ensures
        r == spec_is_hex_digit(b),
{
    (0x30 <= b && b <= 0x39) || (0x41 <= b && b <= 0x46) || (0x61 <= b && b <= 0x66)
}

fn hex_digit(b: u8) -> (r: u32)
    requires
        spec_is_hex_digit(b),
    ensures
        r == spec_hex_digit(b),
        r < 16,
{
    if 0x30 <= b && b <= 0x39 {
        (b - 0x30) as u32
    } else if 0x41 <= b && b <= 0x46 {
        (b - 0x41) as u32 + 10
    } else {
        (b - 0x61) as u32 + 10
    }
}

/// Parse a hexadecimal numeral; fails exactly on the byte sequences that
/// are not well-formed numerals.
pub fn parse_hex(s: &[u8]) -> (r: Option<u32>)
    ensures
        r is Some <==> spec_hex_wf(s@),
        r is Some ==> r.unwrap() == spec_hex_value(s@),
{
    let n = s.len();
    if n == 0 || n > 8 {
        return None;
    }
    let mut value: u32 = 0;
    let mut i: usize = 0;
    while i < n
        invariant
            n == s@.len(),
            1 <= n <= 8,
            i <= n,
            forall|j: int| 0 <= j < i ==> spec_is_hex_digit(#[trigger] s@[j]),
            value == spec_hex_value(s@.subrange(0, i as int)),
        decreases n - i,
    {
        let b = *vstd::slice::slice_index_get(s, i);
        if !is_hex_digit(b) {
            return None;
        }
        proof {
            assert(s@.subrange(0, i + 1).drop_last() =~= s@.subrange(0, i as int));
            assert(s@.subrange(0, i + 1).last() == s@[i as int]);
            lemma_hex_value_bound(s@.subrange(0, i as int));
            reveal_with_fuel(pow16, 9);
            assert(value < pow16(7) ==> value * 16 + 15 < 0x100000000) by (nonlinear_arith)
                requires
                    pow16(7) == 0x10000000,
            ;
        }
        value = value * 16 + hex_digit(b);
        i = i + 1;
    }
    proof {
        assert(s@.subrange(0, n as int) =~= s@);
    }
    Some(value)
}

/// A hexadecimal numeral is non-negative and below sixteen to the power
/// of its digit count.
proof fn lemma_hex_value_bound(s: Seq<u8>)
    requires
        forall|i: int| 0 <= i < s.len() ==> spec_is_hex_digit(#[trigger] s[i]),
    ensures
        0 <= spec_hex_value(s) < pow16(s.len()),
    decreases s.len(),
{
    if s.len() == 0 {
    } else {
        lemma_hex_value_bound(s.drop_last());
        let p = spec_hex_value(s.drop_last());
        let d = spec_hex_digit(s.last());
        assert(0 <= p < pow16((s.len() - 1) as nat) && 0 <= d <= 15 ==> 0 <= p * 16 + d
            < pow16((s.len() - 1) as nat) * 16) by (nonlinear_arith);
        assert(pow16((s.len() - 1) as nat) * 16 == pow16(s.len()));
    }
}

/// Sixteen to the power `k`.
pub open spec fn pow16(k: nat) -> int
    decreases k,
{
    if k == 0 {
        1
    } else {
        16 * pow16((k - 1) as nat)
    }
}

/// The position of the first occurrence of `b` in `s` at or after `from`,
/// or the length when it never occurs.
pub open spec fn spec_find(s: Seq<u8>, b: u8, from: int) -> int
    decreases s.len() - from,
{
    if from < 0 || from >= s.len() {
        s.len() as int
    } else if s[from] == b {
        from
    } else {
        spec_find(s, b, from + 1)
    }
}

/// A scan that stopped at `at` found the first occurrence: nothing before
/// `at` matches, and `at` either matches or is the end.
proof fn lemma_find_at(s: Seq<u8>, b: u8, from: int, at: int)
    requires
        0 <= from <= at <= s.len(),
        forall|j: int| from <= j < at ==> s[j] != b,
        at < s.len() ==> s[at] == b,
    ensures
        spec_find(s, b, from) == at,
    decreases at - from,
{
    if from < at {
        lemma_find_at(s, b, from + 1, at);
    }
}

/// The bytes of the line starting at `start`: up to the next newline,
/// with one trailing carriage return stripped.
pub open spec fn spec_line_at(data: Seq<u8>, start: int) -> Seq<u8> {
    let end = spec_find(data, 0x0A, start);
    if end > start && data[end - 1] == 0x0D {
        data.subrange(start, end - 1)
    } else {
        data.subrange(start, end)
    }
}

/// Where the next line starts: past the newline, or the end of the file.
/// (The final guard only serves the termination measure of the parse
/// below; a scan never moves backwards.)
pub open spec fn spec_next_line(data: Seq<u8>, start: int) -> int {
    let end = spec_find(data, 0x0A, start);
    let next = if end < data.len() {
        end + 1
    } else {
        data.len() as int
    };
    if next > start {
        next
    } else {
        start + 1
    }
}

/// Whether a line is the `[labels]` section header.
pub open spec fn spec_is_labels_header(line: Seq<u8>) -> bool {
    line.len() >= 8 && line.subrange(0, 8) == seq![
        0x5Bu8,
        0x6Cu8,
        0x61u8,
        0x62u8,
        0x65u8,
        0x6Cu8,
        0x73u8,
        0x5Du8,
    ]
}

/// Position of the colon separating a label's bank from its address.
pub open spec fn spec_colon(line: Seq<u8>) -> int {
    spec_find(line, 0x3A, 0)
}

/// Position of the space separating a label's location from its name.
pub open spec fn spec_space(line: Seq<u8>) -> int {
    spec_find(line, 0x20, spec_colon(line) + 1)
}

/// Whether a line decodes as one label: a hexadecimal bank numeral, a
/// colon, a hexadecimal address numeral, a space, and a nonempty name.
pub open spec fn spec_label_line_wf(line: Seq<u8>) -> bool {
    let c = spec_colon(line);
    let s = spec_space(line);
    &&& c < line.len()
    &&& s + 1 < line.len()
    &&& spec_hex_wf(line.subrange(0, c))
    &&& spec_hex_wf(line.subrange(c + 1, s))
}

/// The decoded fields of a label line: bank, address and name bytes.
pub open spec fn spec_label_fields(line: Seq<u8>) -> (int, int, Seq<u8>) {
    let c = spec_colon(line);
    let s = spec_space(line);
    (
        spec_hex_value(line.subrange(0, c)),
        spec_hex_value(line.subrange(c + 1, s)),
        line.subrange(s + 1, line.len() as int),
    )
}

/// The decoded fields of a table's entries, in order.
pub open spec fn spec_entries_of(labels: Seq<SymbolEntry>) -> Seq<(int, int, Seq<u8>)> {
    labels.map(|i: int, e: SymbolEntry| (e.bank as int, e.addr as int, e.name@))
}

/// The table the file decodes to, read from `start` on: blank and comment
/// lines are skipped, lines before the `[labels]` header are ignored, and
/// past the header every line must decode as a label — one malformed
/// label makes the whole file malformed (`None`).
pub open spec fn spec_parse_from(data: Seq<u8>, start: int, in_labels: bool) -> Option<
    Seq<(int, int, Seq<u8>)>>
    decreases data.len() - start,
{
    if start < 0 || start >= data.len() {
        Some(Seq::<(int, int, Seq<u8>)>::empty())
    } else {
        let line = spec_line_at(data, start);
        let next = spec_next_line(data, start);
        if line.len() == 0 || line[0] == 0x3B {
            spec_parse_from(data, next, in_labels)
        } else if !in_labels {
            spec_parse_from(data, next, spec_is_labels_header(line))
        } else if spec_label_line_wf(line) {
            match spec_parse_from(data, next, true) {
                Some(rest) => Some(seq![spec_label_fields(line)] + rest),
                None => None,
            }
        } else {
            None
        }
    }
}

/// One parsed label: its bank, its address, and its name.
pub struct SymbolEntry {
    pub bank: u32,
    pub addr: u32,
    pub name: Vec<u8>,
}

/// The parsed side table.
pub struct Symbols {
    pub labels: Vec<SymbolEntry>,
}

impl Symbols {
    /// Parse a symbol file held in memory. Lines before the `[labels]`
    /// header and comment lines are ignored; every label line after it
    /// must hold a `bank:address` pair in hexadecimal and a name, else the
    /// whole file is rejected as malformed. Success and failure are exact:
    /// the file parses if and only if it decodes, and the table holds the
    /// decoded label lines in order.
    pub fn parse(data: &[u8]) -> (r: Option<Symbols>)
        ensures
            r is Some <==> spec_parse_from(data@, 0, false) is Some,
            r matches Some(t) ==> spec_entries_of(t.labels@) == spec_parse_from(data@, 0,
                false).unwrap(),
            r matches Some(t) ==> forall|i: int|
                0 <= i < t.labels@.len() ==> (#[trigger] t.labels@[i]).name@.len() > 0,
    {
        let mut labels: Vec<SymbolEntry> = Vec::new();
        let mut in_labels = false;
        let n = data.len();
        let mut start: usize = 0;
        while start < n
            invariant
                n == data@.len(),
                start <= n,
                forall|i: int|
                    0 <= i < labels@.len() ==> (#[trigger] labels@[i]).name@.len() > 0,
                spec_parse_from(data@, 0, false) is Some <==> spec_parse_from(data@,
                    start as int, in_labels) is Some,
                spec_parse_from(data@, start as int, in_labels) matches Some(rest)
                    ==> spec_parse_from(data@, 0, false) == Some(
                    spec_entries_of(labels@) + rest),
            decreases n - start,
        {
            let ghost prev_labels = labels@;
            let ghost line_start = start as int;
            // Find the end of the current line.
            let mut end: usize = start;
            while end < n && *vstd::slice::slice_index_get(data, end) != 0x0A
                invariant
                    n == data@.len(),
                    start <= end <= n,
                    forall|j: int| start <= j < end ==> data@[j] != 0x0A,
                decreases n - end,
            {
                end = end + 1;
            }
            proof {
                lemma_find_at(data@, 0x0A, start as int, end as int);
            }
            // Strip a trailing carriage return.
            let mut line_end = end;
            if line_end > start && *vstd::slice::slice_index_get(data, line_end - 1) == 0x0D {
                line_end = line_end - 1;
            }
            let line = crate::lcd::copy_slice_range(data, start, line_end);
            proof {
                assert(line@ == spec_line_at(data@, start as int));
            }

            if line.len() == 0 || line[0] == 0x3B {
                // Empty or comment line.
            } else if !in_labels {
                if is_labels_header(&line) {
                    in_labels = true;
                }
            } else {
                match parse_label_line(&line) {
                    Some(entry) => {
                        labels.push(entry);
                        proof {
                            assert(spec_entries_of(labels@) =~= spec_entries_of(
                                prev_labels).push(spec_label_fields(line@)));
                            let tail = spec_parse_from(data@, spec_next_line(data@,
                                line_start), true);
                            if tail is Some {
                                let rest = tail.unwrap();
                                assert(spec_entries_of(prev_labels) + (seq![
                                    spec_label_fields(line@),
                                ] + rest) =~= spec_entries_of(labels@) + rest);
                            }
                        }
                    }
                    None => {
                        return None;
                    }
                }
            }
            start = if end < n {
                end + 1
            } else {
                n
            };
            proof {
                assert(start as int == spec_next_line(data@, line_start));
            }
        }
        proof {
            assert(spec_entries_of(labels@) + Seq::<(int, int, Seq<u8>)>::empty()
                =~= spec_entries_of(labels@));
        }
        Some(Symbols { labels })
    }

    /// Look up the label recorded for `addr` in bank one, as the passive
    /// address-to-name side table is consulted: the first matching entry
    /// wins.
    pub fn get(&self, addr: u32) -> (r: Option<&Vec<u8>>)
        ensures
            r is Some <==> (exists|i: int|
                0 <= i < self.labels@.len() && (#[trigger] self.labels@[i]).bank == 1
                    && self.labels@[i].addr == addr),
    {
        let mut i: usize = 0;
        let n = self.labels.len();
        while i < n
            invariant
                n == self.labels@.len(),
                i <= n,
                forall|j: int|
                    0 <= j < i ==> !((#[trigger] self.labels@[j]).bank == 1
                        && self.labels@[j].addr == addr),
            decreases n - i,
        {
            let e = &self.labels[i];
            if e.bank == 1 && e.addr == addr {
                return Some(&self.labels[i].name);
            }
            i = i + 1;
        }
        None
    }
}

/// Whether a line starts the `[labels]` section.
fn is_labels_header(line: &Vec<u8>) -> (r: bool)
    ensures
        r == spec_is_labels_header(line@),
{
    if line.len() < 8 {
        return false;
    }
    let r = line[0] == 0x5B && line[1] == 0x6C && line[2] == 0x61 && line[3] == 0x62
        && line[4] == 0x65 && line[5] == 0x6C && line[6] == 0x73 && line[7] == 0x5D;
    proof {
        let lit = seq![0x5Bu8, 0x6Cu8, 0x61u8, 0x62u8, 0x65u8, 0x6Cu8, 0x73u8, 0x5Du8];
        assert(forall|j: int| 0 <= j < 8 ==> line@.subrange(0, 8)[j] == line@[j]);
        if r {
            assert(line@.subrange(0, 8) =~= lit);
        }
    }
    r
}

/// Parse one `bank:address name` label line; the name is everything after
/// the first space and must be nonempty. Success and failure are exact:
/// the line parses if and only if it decodes as a label, and the entry
/// carries the decoded fields.
fn parse_label_line(line: &Vec<u8>) -> (r: Option<SymbolEntry>)
    ensures
        r is Some <==> spec_label_line_wf(line@),
        r matches Some(e) ==> {
            &&& e.bank == spec_label_fields(line@).0
            &&& e.addr == spec_label_fields(line@).1
            &&& e.name@ == spec_label_fields(line@).2
            &&& e.name@.len() > 0
        },
{
    let n = line.len();
    // Find the colon between bank and address.
    let mut colon: usize = 0;
    while colon < n && line[colon] != 0x3A
        invariant
            n == line@.len(),
            colon <= n,
            forall|j: int| 0 <= j < colon ==> line@[j] != 0x3A,
        decreases n - colon,
    {
        colon = colon + 1;
    }
    proof {
        lemma_find_at(line@, 0x3A, 0, colon as int);
    }
    if colon >= n {
        return None;
    }
    // Find the space between the location and the name.
    let mut space: usize = colon + 1;
    while space < n && line[space] != 0x20
        invariant
            n == line@.len(),
            colon < space <= n,
            forall|j: int| colon < j < space ==> line@[j] != 0x20,
        decreases n - space,
    {
        space = space + 1;
    }
    proof {
        lemma_find_at(line@, 0x20, colon as int + 1, space as int);
    }
    if space >= n || space + 1 >= n {
        return None;
    }
    let bank_digits = crate::lcd::copy_slice_range(line.as_slice(), 0, colon);
    let addr_digits = crate::lcd::copy_slice_range(line.as_slice(), colon + 1, space);
    let bank = match parse_hex(bank_digits.as_slice()) {
        Some(v) => v,
        None => {
            return None;
        }
    };
    let addr = match parse_hex(addr_digits.as_slice()) {
        Some(v) => v,
        None => {
            return None;
        }
    };
    let name = crate::lcd::copy_slice_range(line.as_slice(), space + 1, n);
    Some(SymbolEntry { bank, addr, name })
}

} // verus!
