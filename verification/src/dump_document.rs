//! The debug dump document: a header with the time, the cycle count and the
//! screenshot taken with it, then (where the system has a debugger) the CPU state,
//! the disassembly around the program counter and the memory regions, and a
//! closing banner. The document is built line by line from a snapshot of the
//! machine; writing it to a file is done around this module.
use vstd::prelude::*;
use vstd::string::*;

use crate::debug_dump::{
    access_label, access_text, disassembly_line, disassembly_line_spec, dump_chunk,
    dump_line_count, flag_line, flag_line_spec, hex_dump_line_spec, hex_padded,
    append_hex_padded, memory_dump_lines, region_heading, region_heading_spec, register_line,
    register_line_spec,
};
use crate::text::{append_decimal_u64, decimal, opt_view};

verus! {

/// A register of the CPU: name, value and width in bits.
pub struct DumpRegister {
    pub name: String,
    pub value: u64,
    pub width: u32,
}

/// One disassembled instruction.
pub struct DumpInstruction {
    pub address: u32,
    pub bytes: Vec<u8>,
    pub mnemonic: String,
    pub comment: Option<String>,
}

/// A memory region and, where it is readable, what reading it gave (`None` when
/// the read failed).
pub struct DumpRegion {
    pub name: String,
    pub start: u32,
    pub end: u32,
    pub size: usize,
    pub description: String,
    pub readable: bool,
    pub writable: bool,
    pub data: Option<Vec<u8>>,
}

/// What the debugger shows of the machine.
pub struct DebugSnapshot {
    pub pc: u32,
    pub registers: Vec<DumpRegister>,
    pub flags: Vec<(String, bool)>,
    pub instructions: Vec<DumpInstruction>,
    pub regions: Vec<DumpRegion>,
}

/// What became of the screenshot taken with the dump.
pub enum ScreenshotOutcome {
    /// Saved under this path.
    Saved(String),
    /// Saving failed with this message.
    Failed(String),
    /// There was no frame to save.
    NoFrame,
}

/// The text of a list of lines.
pub open spec fn texts(lines: Seq<String>) -> Seq<Seq<char>> {
    lines.map_values(|l: String| l@)
}

/// The rule above and below a banner title.
pub open spec fn rule() -> Seq<char> {
    "==============================================="@
}

/// A banner: the title between two rules, then an empty line.
pub open spec fn banner(title: Seq<char>) -> Seq<Seq<char>> {
    seq![rule(), title, rule(), Seq::<char>::empty()]
}

/// The screenshot line of the header.
pub open spec fn screenshot_line(s: ScreenshotOutcome) -> Seq<char> {
    match s {
        ScreenshotOutcome::Saved(path) => "Screenshot: "@ + path@,
        ScreenshotOutcome::Failed(e) => "Screenshot: Failed to save ("@ + e@ + ") "@,
        ScreenshotOutcome::NoFrame => "Screenshot: No frame buffer available"@,
    }
}

/// One line per register.
pub open spec fn register_lines(regs: Seq<DumpRegister>) -> Seq<Seq<char>> {
    Seq::new(
        regs.len(),
        |k: int| register_line_spec(regs[k].name@, regs[k].value, regs[k].width),
    )
}

/// One line per flag.
pub open spec fn flag_lines(flags: Seq<(String, bool)>) -> Seq<Seq<char>> {
    Seq::new(flags.len(), |k: int| flag_line_spec(flags[k].0@, flags[k].1))
}

/// One line per instruction, the one at the program counter marked.
pub open spec fn instruction_lines(instrs: Seq<DumpInstruction>, pc: u32) -> Seq<Seq<char>> {
    Seq::new(
        instrs.len(),
        |k: int|
            disassembly_line_spec(
                instrs[k].address == pc,
                instrs[k].address,
                instrs[k].bytes@,
                instrs[k].mnemonic@,
                opt_view(instrs[k].comment),
            ),
    )
}

/// The memory dump of `data` read from `start`, 16 bytes per line.
pub open spec fn memory_dump_spec(start: u32, data: Seq<u8>) -> Seq<Seq<char>> {
    Seq::new(
        dump_line_count(data.len() as int) as nat,
        |k: int| hex_dump_line_spec((start + 16 * k) as u32, dump_chunk(data, k)),
    )
}

/// The dump of one memory region: its heading, description and access, then its
/// bytes (or why there are none), then an empty line.
pub open spec fn region_block(r: DumpRegion) -> Seq<Seq<char>> {
    seq![
        region_heading_spec(r.name@, r.start, r.end, r.size as u64),
        "Description: "@ + r.description@,
        "Access: "@ + access_text(r.readable, r.writable),
        Seq::<char>::empty(),
    ] + (if r.readable {
        match r.data {
            Some(d) => memory_dump_spec(r.start, d@),
            None => seq!["(Memory read failed)"@],
        }
    } else {
        seq!["(Not readable)"@]
    }) + seq![Seq::<char>::empty()]
}

/// The dumps of the regions, in order.
pub open spec fn region_blocks(rs: Seq<DumpRegion>) -> Seq<Seq<char>>
    decreases rs.len(),
{
    if rs.len() == 0 {
        Seq::empty()
    } else {
        region_blocks(rs.drop_last()) + region_block(rs.last())
    }
}

/// The dump addresses of a region's bytes fit in 32 bits.
pub open spec fn region_fits(r: DumpRegion) -> bool {
    r.readable ==> match r.data {
        Some(d) => d@.len() == 0 || r.start + 16 * ((d@.len() - 1) / 16) <= u32::MAX,
        None => true,
    }
}

/// The debugger's part of the dump.
pub open spec fn snapshot_lines(s: DebugSnapshot) -> Seq<Seq<char>> {
    banner("       CPU STATE"@) + seq![
        "Program Counter: $"@ + hex_padded(s.pc as nat, 4),
        Seq::<char>::empty(),
        "Registers:"@,
    ] + register_lines(s.registers@) + seq![Seq::<char>::empty(), "Flags:"@] + flag_lines(
        s.flags@,
    ) + seq![Seq::<char>::empty()] + banner("       DISASSEMBLY (\u{b1}100 instructions from PC)"@)
        + instruction_lines(s.instructions@, s.pc) + seq![Seq::<char>::empty()] + banner(
        "       MEMORY REGIONS"@,
    ) + region_blocks(s.regions@)
}

/// The lines of the debug dump.
pub open spec fn dump_document(
    timestamp: Seq<char>,
    cycle_count: u64,
    screenshot: ScreenshotOutcome,
    snapshot: Option<DebugSnapshot>,
) -> Seq<Seq<char>> {
    banner("       HEMULATOR DEBUG DUMP"@) + seq![
        "Timestamp: "@ + timestamp,
        "Cycle Count: "@ + decimal(cycle_count as nat),
        screenshot_line(screenshot),
        Seq::<char>::empty(),
    ] + match snapshot {
        Some(s) => snapshot_lines(s),
        None => seq!["Debug interface not available for this system."@],
    } + seq![rule(), "       END OF DEBUG DUMP"@, rule()]
}

/// Append a banner with `title`.
fn push_banner(out: &mut Vec<String>, title: &str)
    ensures
        texts(final(out)@) == texts(old(out)@) + banner(title@),
{
    out.push(String::from_str("==============================================="));
    out.push(String::from_str(title));
    out.push(String::from_str("==============================================="));
    out.push(String::new());
    assert(texts(out@) =~= texts(old(out)@) + banner(title@));
}

/// Append `line`.
fn push_line(out: &mut Vec<String>, line: String)
    ensures
        texts(final(out)@) == texts(old(out)@).push(line@),
{
    out.push(line);
    assert(texts(out@) =~= texts(old(out)@).push(line@));
}

/// Append the dump of one region.
fn push_region(out: &mut Vec<String>, r: &DumpRegion)
    requires
        region_fits(*r),
    ensures
        texts(final(out)@) == texts(old(out)@) + region_block(*r),
{
    push_line(out, region_heading(r.name.as_str(), r.start, r.end, r.size));
    let mut d = String::from_str("Description: ");
    d.append(r.description.as_str());
    push_line(out, d);
    let mut a = String::from_str("Access: ");
    a.append(access_label(r.readable, r.writable));
    push_line(out, a);
    push_line(out, String::new());
    let ghost mid = texts(out@);
    if r.readable {
        match &r.data {
            Some(data) => {
                let lines = memory_dump_lines(r.start, data.as_slice());
                let mut k: usize = 0;
                while k < lines.len()
                    invariant
                        k <= lines@.len(),
                        lines@.len() == dump_line_count(data@.len() as int),
                        forall|j: int|
                            0 <= j < lines@.len() ==> #[trigger] lines@[j]@ == hex_dump_line_spec(
                                (r.start + 16 * j) as u32,
                                dump_chunk(data@, j),
                            ),
                        texts(out@) == mid + memory_dump_spec(r.start, data@).take(k as int),
                    decreases lines@.len() - k,
                {
                    let line = lines[k].clone();
                    push_line(out, line);
                    k += 1;
                    assert(texts(out@) =~= mid + memory_dump_spec(r.start, data@).take(k as int));
                }
                assert(memory_dump_spec(r.start, data@).take(k as int) =~= memory_dump_spec(
                    r.start,
                    data@,
                ));
            },
            None => {
                push_line(out, String::from_str("(Memory read failed)"));
            },
        }
    } else {
        push_line(out, String::from_str("(Not readable)"));
    }
    push_line(out, String::new());
    assert(texts(out@) =~= texts(old(out)@) + region_block(*r));
}

/// Append the debugger's part of the dump.
fn push_snapshot(out: &mut Vec<String>, s: &DebugSnapshot)
    requires
        forall|k: int| 0 <= k < s.regions@.len() ==> region_fits(#[trigger] s.regions@[k]),
    ensures
        texts(final(out)@) == texts(old(out)@) + snapshot_lines(*s),
{
    push_banner(out, "       CPU STATE");
    let mut pc = String::from_str("Program Counter: $");
    append_hex_padded(&mut pc, s.pc as u64, 4);
    push_line(out, pc);
    push_line(out, String::new());
    push_line(out, String::from_str("Registers:"));
    let ghost before_regs = texts(out@);
    let mut i: usize = 0;
    while i < s.registers.len()
        invariant
            i <= s.registers@.len(),
            texts(out@) == before_regs + register_lines(s.registers@).take(i as int),
        decreases s.registers@.len() - i,
    {
        let reg = &s.registers[i];
        push_line(out, register_line(reg.name.as_str(), reg.value, reg.width));
        i += 1;
        assert(texts(out@) =~= before_regs + register_lines(s.registers@).take(i as int));
    }
    assert(register_lines(s.registers@).take(i as int) =~= register_lines(s.registers@));
    push_line(out, String::new());
    push_line(out, String::from_str("Flags:"));
    let ghost before_flags = texts(out@);
    let mut i: usize = 0;
    while i < s.flags.len()
        invariant
            i <= s.flags@.len(),
            texts(out@) == before_flags + flag_lines(s.flags@).take(i as int),
        decreases s.flags@.len() - i,
    {
        let flag = &s.flags[i];
        push_line(out, flag_line(flag.0.as_str(), flag.1));
        i += 1;
        assert(texts(out@) =~= before_flags + flag_lines(s.flags@).take(i as int));
    }
    assert(flag_lines(s.flags@).take(i as int) =~= flag_lines(s.flags@));
    push_line(out, String::new());
    push_banner(out, "       DISASSEMBLY (\u{b1}100 instructions from PC)");
    let ghost before_instrs = texts(out@);
    let mut i: usize = 0;
    while i < s.instructions.len()
        invariant
            i <= s.instructions@.len(),
            texts(out@) == before_instrs + instruction_lines(s.instructions@, s.pc).take(i as int),
        decreases s.instructions@.len() - i,
    {
        let instr = &s.instructions[i];
        let comment: Option<&str> = match &instr.comment {
            Some(c) => Some(c.as_str()),
            None => None,
        };
        let line = disassembly_line(
            instr.address == s.pc,
            instr.address,
            instr.bytes.as_slice(),
            instr.mnemonic.as_str(),
            comment,
        );
        push_line(out, line);
        i += 1;
        assert(texts(out@) =~= before_instrs + instruction_lines(s.instructions@, s.pc).take(
            i as int,
        ));
    }
    assert(instruction_lines(s.instructions@, s.pc).take(i as int) =~= instruction_lines(
        s.instructions@,
        s.pc,
    ));
    push_line(out, String::new());
    push_banner(out, "       MEMORY REGIONS");
    let ghost before_regions = texts(out@);
    let mut i: usize = 0;
    while i < s.regions.len()
        invariant
            i <= s.regions@.len(),
            forall|k: int| 0 <= k < s.regions@.len() ==> region_fits(#[trigger] s.regions@[k]),
            texts(out@) == before_regions + region_blocks(s.regions@.take(i as int)),
        decreases s.regions@.len() - i,
    {
        push_region(out, &s.regions[i]);
        proof {
            let t = s.regions@.take(i + 1);
            assert(t.drop_last() =~= s.regions@.take(i as int));
            assert(t.last() == s.regions@[i as int]);
        }
        i += 1;
        assert(texts(out@) =~= before_regions + region_blocks(s.regions@.take(i as int)));
    }
    assert(s.regions@.take(i as int) =~= s.regions@);
    assert(texts(out@) =~= texts(old(out)@) + snapshot_lines(*s));
}

/// The lines of the debug dump taken at `timestamp` after `cycle_count` cycles,
/// with the screenshot outcome and, where the system has a debugger, its snapshot.
/// The addresses of every dumped memory line must fit in 32 bits.
pub fn debug_dump_lines(
    timestamp: &str,
    cycle_count: u64,
    screenshot: &ScreenshotOutcome,
    snapshot: &Option<DebugSnapshot>,
) -> (lines: Vec<String>)
    requires
        snapshot matches Some(s) ==> forall|k: int|
            0 <= k < s.regions@.len() ==> region_fits(#[trigger] s.regions@[k]),
    ensures
        texts(lines@) == dump_document(timestamp@, cycle_count, *screenshot, *snapshot),
{
    let mut out: Vec<String> = Vec::new();
    push_banner(&mut out, "       HEMULATOR DEBUG DUMP");
    let mut t = String::from_str("Timestamp: ");
    t.append(timestamp);
    push_line(&mut out, t);
    let mut c = String::from_str("Cycle Count: ");
    append_decimal_u64(&mut c, cycle_count);
    push_line(&mut out, c);
    let shot = match screenshot {
        ScreenshotOutcome::Saved(path) => {
            let mut l = String::from_str("Screenshot: ");
            l.append(path.as_str());
            l
        },
        ScreenshotOutcome::Failed(e) => {
            let mut l = String::from_str("Screenshot: Failed to save (");
            l.append(e.as_str());
            l.append(") ");
            l
        },
        ScreenshotOutcome::NoFrame => String::from_str("Screenshot: No frame buffer available"),
    };
    push_line(&mut out, shot);
    push_line(&mut out, String::new());
    match snapshot {
        Some(s) => push_snapshot(&mut out, s),
        None => push_line(
            &mut out,
            String::from_str("Debug interface not available for this system."),
        ),
    }
    push_line(&mut out, String::from_str("==============================================="));
    push_line(&mut out, String::from_str("       END OF DEBUG DUMP"));
    push_line(&mut out, String::from_str("==============================================="));
    assert(texts(out@) =~= dump_document(timestamp@, cycle_count, *screenshot, *snapshot));
    out
}

} // verus!
