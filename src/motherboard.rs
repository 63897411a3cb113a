//! Base board records, with the chipset and slot usage derived from them.
use crate::errors::{or_empty, ProbeError, QueryError};
use crate::text::{contains_text, decimal, decimal_of, seq_contains, to_upper, upper_of};
use vstd::prelude::*;

verus! {

/// The base board record as the detailed source reports it.
#[derive(Debug, Clone)]
pub struct BaseBoard {
    pub manufacturer: String,
    pub product: String,
    pub version: String,
    pub serial_number: String,
}

/// A system slot record of the detailed source.
#[derive(Debug, Clone)]
pub struct SystemSlot {
    pub slot_designation: Option<String>,
    /// 3 marks an available slot, 4 a slot in use.
    pub current_usage: Option<u16>,
    pub description: Option<String>,
}

/// A physical memory array record of the detailed source.
#[derive(Debug, Clone, Copy)]
pub struct MemoryArray {
    pub memory_devices: Option<u16>,
}

/// How many slots of one kind a board has, how many are in use, and one line
/// per slot.
#[derive(Debug, Clone)]
pub struct SlotInfo {
    pub total: u32,
    pub used: u32,
    pub details: Vec<String>,
}

/// A base board with its derived chipset and slot usage.
#[derive(Debug, Clone)]
pub struct MotherboardInfo {
    pub manufacturer: String,
    pub product: String,
    pub version: String,
    pub serial_number: String,
    pub chipset: String,
    pub ssd_slots: SlotInfo,
    pub gpu_slots: SlotInfo,
    pub ram_slots: SlotInfo,
}

pub struct SlotModel {
    pub total: nat,
    pub used: nat,
    pub details: Seq<Seq<char>>,
}

impl View for SlotInfo {
    type V = SlotModel;

    open spec fn view(&self) -> SlotModel {
        SlotModel {
            total: self.total as nat,
            used: self.used as nat,
            details: self.details@.map_values(|d: String| d@),
        }
    }
}

/// The kinds of slot that designations are classified into.
#[derive(Debug, Clone, Copy, PartialEq, Eq, Structural)]
pub enum SlotKind {
    Gpu,
    Ssd,
}

/// Which kinds an upper-cased slot designation matches; both may hold.
#[derive(Debug, Clone, Copy, PartialEq, Eq, Structural)]
pub struct SlotMatch {
    pub gpu: bool,
    pub ssd: bool,
}

/// Known chipset codes, in the order in which they are tried.
pub open spec fn chipset_table() -> Seq<Seq<char>> {
    seq![
        "X870"@, "X670E"@, "X670"@, "B650E"@, "B650"@, "A620"@,
        "X570"@, "B550"@, "A520"@, "X470"@, "B450"@, "X370"@, "B350"@,
        "Z890"@, "B860"@,
        "Z790"@, "B760"@, "H770"@, "H710"@,
        "Z690"@, "B660"@, "H670"@, "H610"@,
        "Z590"@, "B560"@, "H570"@, "H510"@,
        "Z490"@, "B460"@, "H470"@, "H410"@,
    ]
}

/// The first code of `codes` that occurs in `upper`, or "Unknown".
pub open spec fn first_code_in(upper: Seq<char>, codes: Seq<Seq<char>>) -> Seq<char>
    decreases codes.len(),
{
    if codes.len() == 0 {
        "Unknown"@
    } else if seq_contains(upper, codes[0]) {
        codes[0]
    } else {
        first_code_in(upper, codes.drop_first())
    }
}

pub open spec fn is_gpu_designation(upper: Seq<char>) -> bool {
    seq_contains(upper, "PCIEX16"@) || seq_contains(upper, "PCIE_16"@) || seq_contains(
        upper,
        "PCI-E X16"@,
    )
}

pub open spec fn is_ssd_designation(upper: Seq<char>) -> bool {
    seq_contains(upper, "M.2"@) || seq_contains(upper, "M2_"@)
}

/// The designation of a slot, empty where the source gave none.
pub open spec fn designation(s: SystemSlot) -> Seq<char> {
    match s.slot_designation {
        Some(d) => d@,
        None => Seq::empty(),
    }
}

/// A slot is in use only where its usage code is 4; an absent code means
/// available.
pub open spec fn slot_in_use(s: SystemSlot) -> bool {
    s.current_usage == Some(4u16)
}

pub open spec fn slot_is_kind(s: SystemSlot, kind: SlotKind) -> bool {
    match kind {
        SlotKind::Gpu => is_gpu_designation(upper_of(designation(s))),
        SlotKind::Ssd => is_ssd_designation(upper_of(designation(s))),
    }
}

/// "<designation>: In Use" or "<designation>: Empty".
pub open spec fn slot_detail(s: SystemSlot) -> Seq<char> {
    designation(s) + ": "@ + if slot_in_use(s) {
        "In Use"@
    } else {
        "Empty"@
    }
}

/// The slots of one kind among `slots`, counted in order.
pub open spec fn slot_summary(slots: Seq<SystemSlot>, kind: SlotKind) -> SlotModel
    decreases slots.len(),
{
    if slots.len() == 0 {
        SlotModel { total: 0, used: 0, details: Seq::empty() }
    } else {
        let prev = slot_summary(slots.drop_last(), kind);
        let s = slots.last();
        if slot_is_kind(s, kind) {
            SlotModel {
                total: prev.total + 1,
                used: prev.used + if slot_in_use(s) {
                    1nat
                } else {
                    0nat
                },
                details: prev.details.push(slot_detail(s)),
            }
        } else {
            prev
        }
    }
}

/// The memory slots: the first array's declared device count (0 where
/// absent) against the number of populated modules.
pub open spec fn ram_slot_model(arrays: Seq<MemoryArray>, populated: nat) -> SlotModel {
    let total: nat = if arrays.len() > 0 && arrays[0].memory_devices is Some {
        arrays[0].memory_devices->Some_0 as nat
    } else {
        0
    };
    SlotModel {
        total,
        used: populated,
        details: seq!["Used "@ + decimal_of(populated) + " of "@ + decimal_of(total) + " slots"@],
    }
}

/// The derived board: source fields kept, chipset and slots computed.
pub open spec fn derived_board(
    b: BaseBoard,
    m: MotherboardInfo,
    slots: Seq<SystemSlot>,
    arrays: Seq<MemoryArray>,
    populated: nat,
) -> bool {
    &&& m.manufacturer == b.manufacturer
    &&& m.product == b.product
    &&& m.version == b.version
    &&& m.serial_number == b.serial_number
    &&& m.chipset@ == first_code_in(upper_of(b.product@), chipset_table())
    &&& m.gpu_slots@ == slot_summary(slots, SlotKind::Gpu)
    &&& m.ssd_slots@ == slot_summary(slots, SlotKind::Ssd)
    &&& m.ram_slots@ == ram_slot_model(arrays, populated)
}

/// A slot whose designation matches both an M.2 pattern and a PCIe x16
/// pattern is counted once among the GPU slots and once among the SSD slots,
/// in both used counts where it is in use, and listed in both sets of lines.
pub proof fn lemma_hybrid_slot_counted_twice(slots: Seq<SystemSlot>, s: SystemSlot)
    requires
        is_gpu_designation(upper_of(designation(s))),
        is_ssd_designation(upper_of(designation(s))),
    ensures
        forall|kind: SlotKind|
            #![trigger slot_summary(slots.push(s), kind)]
            slot_summary(slots.push(s), kind).total == slot_summary(slots, kind).total + 1
                && slot_summary(slots.push(s), kind).used == slot_summary(slots, kind).used + (
            if slot_in_use(s) {
                1nat
            } else {
                0nat
            }) && slot_summary(slots.push(s), kind).details == slot_summary(
                slots,
                kind,
            ).details.push(slot_detail(s)),
{
    assert(slots.push(s).drop_last() =~= slots);
}

/// Slot classification depends on nothing but the designations and usage
/// codes, in order: classifying the same list again, or a list that agrees
/// with it on those, gives identical totals and lines.
pub proof fn lemma_slot_summary_deterministic(a: Seq<SystemSlot>, b: Seq<SystemSlot>, kind: SlotKind)
    requires
        a.len() == b.len(),
        forall|i: int|
            0 <= i < a.len() ==> designation(#[trigger] a[i]) == designation(b[i])
                && a[i].current_usage == b[i].current_usage,
    ensures
        slot_summary(a, kind) == slot_summary(b, kind),
    decreases a.len(),
{
    if a.len() > 0 {
        let a0 = a.drop_last();
        let b0 = b.drop_last();
        assert forall|i: int| 0 <= i < a0.len() implies designation(#[trigger] a0[i]) == designation(
            b0[i],
        ) && a0[i].current_usage == b0[i].current_usage by {
            assert(a0[i] == a[i]);
            assert(b0[i] == b[i]);
        }
        lemma_slot_summary_deterministic(a0, b0, kind);
        assert(designation(a.last()) == designation(b.last()));
    }
}

fn chipset_codes() -> (r: Vec<&'static str>)
    ensures
        r@.map_values(|c: &str| c@) == chipset_table(),
{
    let r = vec![
        "X870", "X670E", "X670", "B650E", "B650", "A620",
        "X570", "B550", "A520", "X470", "B450", "X370", "B350",
        "Z890", "B860",
        "Z790", "B760", "H770", "H710",
        "Z690", "B660", "H670", "H610",
        "Z590", "B560", "H570", "H510",
        "Z490", "B460", "H470", "H410",
    ];
    assert(r@.map_values(|c: &str| c@) =~= chipset_table());
    r
}

/// The chipset code named in an upper-cased product name: the first known
/// code that it contains, or "Unknown".
pub fn chipset_in_upper(upper: &str) -> (r: String)
    ensures
        r@ == first_code_in(upper@, chipset_table()),
{
    let codes = chipset_codes();
    let ghost table = chipset_table();
    let mut i: usize = 0;
    assert(table.subrange(0, table.len() as int) =~= table);
    while i < codes.len()
        invariant
            codes@.map_values(|c: &str| c@) == table,
            table == chipset_table(),
            i <= codes@.len(),
            first_code_in(upper@, table.subrange(i as int, table.len() as int))
                == first_code_in(upper@, table),
        decreases codes@.len() - i,
    {
        let code = codes[i];
        assert(table.subrange(i as int, table.len() as int)[0] == code@);
        assert(table.subrange(i as int, table.len() as int).drop_first() =~= table.subrange(
            i + 1,
            table.len() as int,
        ));
        if contains_text(upper, code) {
            return String::from_str(code);
        }
        i += 1;
    }
    assert(table.subrange(i as int, table.len() as int) =~= Seq::<Seq<char>>::empty());
    String::from_str("Unknown")
}

/// The chipset code of a board, read from its product name without regard
/// to case.
pub fn detect_chipset(product: &str) -> (r: String)
    ensures
        r@ == first_code_in(upper_of(product@), chipset_table()),
{
    let upper = to_upper(product);
    chipset_in_upper(upper.as_str())
}

/// Which slot kinds an upper-cased designation matches.
pub fn classify_designation(upper: &str) -> (r: SlotMatch)
    ensures
        r.gpu == is_gpu_designation(upper@),
        r.ssd == is_ssd_designation(upper@),
{
    let gpu = contains_text(upper, "PCIEX16") || contains_text(upper, "PCIE_16") || contains_text(
        upper,
        "PCI-E X16",
    );
    let ssd = contains_text(upper, "M.2") || contains_text(upper, "M2_");
    SlotMatch { gpu, ssd }
}

/// The line that describes one slot.
fn describe_slot(designation: &str, in_use: bool) -> (r: String)
    ensures
        r@ == designation@ + ": "@ + if in_use {
            "In Use"@
        } else {
            "Empty"@
        },
{
    let mut line = String::from_str(designation);
    line.append(": ");
    if in_use {
        line.append("In Use");
    } else {
        line.append("Empty");
    }
    line
}

/// The slots of one kind among `slots`: how many, how many in use, and a line
/// for each. A designation may match both kinds; such a slot is then counted
/// among the GPU slots and among the SSD slots alike.
pub fn summarize_slots(slots: &Vec<SystemSlot>, kind: SlotKind) -> (r: SlotInfo)
    requires
        slots@.len() <= u32::MAX,
    ensures
        r@ == slot_summary(slots@, kind),
{
    let mut info = SlotInfo { total: 0, used: 0, details: Vec::new() };
    let mut i: usize = 0;
    assert(info@.details =~= Seq::<Seq<char>>::empty());
    assert(slots@.subrange(0, 0) =~= Seq::<SystemSlot>::empty());
    while i < slots.len()
        invariant
            slots@.len() <= u32::MAX,
            i <= slots@.len(),
            info@ == slot_summary(slots@.subrange(0, i as int), kind),
            info.total <= i,
            info.used <= info.total,
        decreases slots@.len() - i,
    {
        let slot = &slots[i];
        let des = match &slot.slot_designation {
            Some(d) => d.clone(),
            None => String::new(),
        };
        assert(des@ == designation(*slot));
        let upper = to_upper(des.as_str());
        let kinds = classify_designation(upper.as_str());
        let in_use = match slot.current_usage {
            Some(code) => code == 4,
            None => false,
        };
        let matched = match kind {
            SlotKind::Gpu => kinds.gpu,
            SlotKind::Ssd => kinds.ssd,
        };
        let ghost before = info@;
        assert(slots@.subrange(0, i + 1).drop_last() =~= slots@.subrange(0, i as int));
        assert(slots@.subrange(0, i + 1).last() == *slot);
        if matched {
            info.total = info.total + 1;
            if in_use {
                info.used = info.used + 1;
            }
            let line = describe_slot(des.as_str(), in_use);
            info.details.push(line);
            assert(info@.details =~= before.details.push(slot_detail(*slot)));
        }
        i += 1;
    }
    assert(slots@.subrange(0, slots@.len() as int) =~= slots@);
    info
}

/// The memory slot usage: the first array's declared device count against
/// the number of populated modules.
pub fn ram_slot_info(arrays: &Vec<MemoryArray>, populated: u32) -> (r: SlotInfo)
    ensures
        r@ == ram_slot_model(arrays@, populated as nat),
{
    let total: u32 = if arrays.len() > 0 {
        match arrays[0].memory_devices {
            Some(n) => n as u32,
            None => 0,
        }
    } else {
        0
    };
    let mut line = String::from_str("Used ");
    let used_text = decimal(populated);
    line.append(used_text.as_str());
    line.append(" of ");
    let total_text = decimal(total);
    line.append(total_text.as_str());
    line.append(" slots");
    let mut details: Vec<String> = Vec::new();
    details.push(line);
    let r = SlotInfo { total, used: populated, details };
    assert(r@.details =~= ram_slot_model(arrays@, populated as nat).details);
    r
}

/// Derives chipset and slot usage for each base board. Slot records and
/// memory arrays are shared by all boards.
pub fn derive_motherboards(
    boards: Vec<BaseBoard>,
    slots: &Vec<SystemSlot>,
    arrays: &Vec<MemoryArray>,
    populated: u32,
) -> (r: Vec<MotherboardInfo>)
    requires
        slots@.len() <= u32::MAX,
    ensures
        r@.len() == boards@.len(),
        forall|i: int|
            0 <= i < r@.len() ==> derived_board(
                #[trigger] boards@[i],
                r@[i],
                slots@,
                arrays@,
                populated as nat,
            ),
{
    let mut out: Vec<MotherboardInfo> = Vec::new();
    let mut i: usize = 0;
    while i < boards.len()
        invariant
            slots@.len() <= u32::MAX,
            i <= boards@.len(),
            out@.len() == i,
            forall|k: int|
                0 <= k < i ==> derived_board(
                    #[trigger] boards@[k],
                    out@[k],
                    slots@,
                    arrays@,
                    populated as nat,
                ),
        decreases boards@.len() - i,
    {
        let b = &boards[i];
        let info = MotherboardInfo {
            manufacturer: b.manufacturer.clone(),
            product: b.product.clone(),
            version: b.version.clone(),
            serial_number: b.serial_number.clone(),
            chipset: detect_chipset(b.product.as_str()),
            ssd_slots: summarize_slots(slots, SlotKind::Ssd),
            gpu_slots: summarize_slots(slots, SlotKind::Gpu),
            ram_slots: ram_slot_info(arrays, populated),
        };
        out.push(info);
        i += 1;
    }
    out
}

/// The motherboard probe's result from the answers of its four queries. The
/// base board query is the one the domain depends on; the slot, memory array
/// and memory module queries count as empty when they fail.
pub fn finish_motherboard_probe(
    boards: Result<Vec<BaseBoard>, QueryError>,
    slots: Result<Vec<SystemSlot>, QueryError>,
    arrays: Result<Vec<MemoryArray>, QueryError>,
    module_capacities: Result<Vec<u64>, QueryError>,
) -> (r: Result<Vec<MotherboardInfo>, ProbeError>)
    requires
        slots is Ok ==> slots->Ok_0@.len() <= u32::MAX,
        module_capacities is Ok ==> module_capacities->Ok_0@.len() <= u32::MAX,
    ensures
        boards is Err ==> r == Err::<Vec<MotherboardInfo>, ProbeError>(
            ProbeError::Query(boards->Err_0),
        ),
        boards is Ok ==> r is Ok && r->Ok_0@.len() == boards->Ok_0@.len() && forall|i: int|
            0 <= i < r->Ok_0@.len() ==> derived_board(
                #[trigger] boards->Ok_0@[i],
                r->Ok_0@[i],
                if slots is Ok {
                    slots->Ok_0@
                } else {
                    Seq::empty()
                },
                if arrays is Ok {
                    arrays->Ok_0@
                } else {
                    Seq::empty()
                },
                if module_capacities is Ok {
                    module_capacities->Ok_0@.len()
                } else {
                    0
                },
            ),
{
    match boards {
        Err(e) => Err(ProbeError::Query(e)),
        Ok(boards) => {
            let slots = or_empty(slots);
            let arrays = or_empty(arrays);
            let modules = or_empty(module_capacities);
            let populated = modules.len() as u32;
            Ok(derive_motherboards(boards, &slots, &arrays, populated))
        },
    }
}

} // verus!
