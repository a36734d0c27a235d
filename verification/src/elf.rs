//! What the runner needs to know of a firmware image: where `main` and the
//! control block of the debug transport are, what the vector table holds,
//! and whether the image lives in RAM.

use crate::model::views;
use crate::text::{decimal, push_decimal};
use object::{Object, ObjectSection, ObjectSymbol};
use vstd::prelude::*;
use vstd::string::StringExecFns;

verus! {

/// Mathematical model of an [`ElfSymbol`].
pub struct ElfSymbolView {
    pub name: Option<Seq<char>>,
    pub address: u64,
}

/// A symbol of an image: its name, where the name is UTF-8, and its address.
#[derive(Debug, Clone)]
pub struct ElfSymbol {
    pub name: Option<String>,
    pub address: u64,
}

impl View for ElfSymbol {
    type V = ElfSymbolView;

    open spec fn view(&self) -> ElfSymbolView {
        ElfSymbolView {
            name: match self.name {
                Some(n) => Some(n@),
                None => None,
            },
            address: self.address,
        }
    }
}

/// Mathematical model of an [`ElfSection`].
pub struct ElfSectionView {
    pub name: Option<Seq<char>>,
    pub address: u64,
    pub data: Option<Seq<u8>>,
}

/// A section of an image: its name, where the name is UTF-8, its address, and
/// its octets, where the image holds them.
#[derive(Debug, Clone)]
pub struct ElfSection {
    pub name: Option<String>,
    pub address: u64,
    pub data: Option<Vec<u8>>,
}

impl View for ElfSection {
    type V = ElfSectionView;

    open spec fn view(&self) -> ElfSectionView {
        ElfSectionView {
            name: match self.name {
                Some(n) => Some(n@),
                None => None,
            },
            address: self.address,
            data: match self.data {
                Some(d) => Some(d@),
                None => None,
            },
        }
    }
}

/// Mathematical model of [`ElfContents`].
pub struct ElfContentsView {
    pub symbols: Seq<ElfSymbolView>,
    pub sections: Seq<ElfSectionView>,
}

/// The symbols and sections of an image, in the order of the image.
#[derive(Debug, Clone)]
pub struct ElfContents {
    pub symbols: Vec<ElfSymbol>,
    pub sections: Vec<ElfSection>,
}

impl View for ElfContents {
    type V = ElfContentsView;

    open spec fn view(&self) -> ElfContentsView {
        ElfContentsView { symbols: views(self.symbols@), sections: views(self.sections@) }
    }
}

/// What the `object` crate reads in an image: its symbols and sections, or
/// the message of the error with which it refuses the octets.
pub uninterp spec fn elf_reading(elf_bytes: Seq<u8>) -> Result<ElfContentsView, Seq<char>>;

/// The reading of an image as plain sequences.
pub open spec fn reading_view(r: Result<ElfContents, String>) -> Result<ElfContentsView, Seq<char>> {
    match r {
        Ok(contents) => Ok(contents@),
        Err(message) => Err(message@),
    }
}

/// Calls `object::File::parse` and copies out, for every symbol and section
/// in the file's order, what `name`, `address` and `data` of the `object`
/// crate give (a name or data that it refuses is left out). The contract
/// claims only that the outcome is a function of the octets, named
/// [`elf_reading`].
#[verifier::external_body]
pub(crate) fn read_elf(elf_bytes: &[u8]) -> (r: Result<ElfContents, String>)
    ensures
        reading_view(r) == elf_reading(elf_bytes@),
{
    let elf = object::File::parse(elf_bytes).map_err(|e| e.to_string())?;
    let symbols = elf.symbols().map(
        |s| ElfSymbol { name: s.name().ok().map(String::from), address: s.address() },
    ).collect();
    let sections = elf.sections().map(
        |s|
            ElfSection {
                name: s.name().ok().map(String::from),
                address: s.address(),
                data: s.data().ok().map(Vec::from),
            },
    ).collect();
    Ok(ElfContents { symbols, sections })
}

/// An address of code with its Thumb bit cleared.
pub open spec fn without_thumb_bit(address: u32) -> u32 {
    address & 0xffff_fffeu32
}

/// Clears the Thumb bit of an address of code.
pub fn clear_thumb_bit(address: u32) -> (r: u32)
    ensures
        r == without_thumb_bit(address),
        r & 1 == 0,
{
    let r = address & 0xffff_fffeu32;
    assert((address & 0xffff_fffeu32) & 1 == 0) by (bit_vector);
    r
}

/// An address with its Thumb bit cleared has a clear low bit.
pub proof fn thumb_bit_is_cleared(address: u32)
    ensures
        without_thumb_bit(address) & 1 == 0,
{
    assert((address & 0xffff_fffeu32) & 1 == 0) by (bit_vector);
}

/// Addresses of the symbols that steer a run.
#[derive(Debug, Clone, Copy, PartialEq, Eq, Structural)]
pub struct Symbols {
    /// Address of `main`, Thumb bit cleared.
    pub main: u32,
    /// Address of the control block of the debug transport.
    pub rtt: u32,
}

/// What the vector table of an image holds.
#[derive(Debug, Clone, Copy, PartialEq, Eq, Structural)]
pub struct VectorTable {
    /// Address of the table.
    pub start: u32,
    /// Initial stack pointer.
    pub stack_pointer: u32,
    /// Address of the reset handler.
    pub reset: u32,
    /// Address of the hardfault handler.
    pub hardfault: u32,
}

/// The sections whose address must be a multiple of four.
#[derive(Debug, Clone, Copy, PartialEq, Eq, Structural)]
pub enum ImportantSection {
    VectorTable,
    Text,
    Rodata,
    Data,
}

/// The name of an important section.
pub open spec fn section_name(section: ImportantSection) -> Seq<char> {
    match section {
        ImportantSection::VectorTable => ".vector_table"@,
        ImportantSection::Text => ".text"@,
        ImportantSection::Rodata => ".rodata"@,
        ImportantSection::Data => ".data"@,
    }
}

/// The important section of name `name`, if the name is that of one.
pub open spec fn important(name: Seq<char>) -> Option<ImportantSection> {
    if name == ".vector_table"@ {
        Some(ImportantSection::VectorTable)
    } else if name == ".text"@ {
        Some(ImportantSection::Text)
    } else if name == ".rodata"@ {
        Some(ImportantSection::Rodata)
    } else if name == ".data"@ {
        Some(ImportantSection::Data)
    } else {
        None
    }
}

impl ImportantSection {
    /// The name of the section.
    pub fn name(&self) -> (r: &'static str)
        ensures
            r@ == section_name(*self),
    {
        match self {
            ImportantSection::VectorTable => ".vector_table",
            ImportantSection::Text => ".text",
            ImportantSection::Rodata => ".rodata",
            ImportantSection::Data => ".data",
        }
    }
}

/// Why an image cannot be run.
#[derive(Debug, Clone, Copy, PartialEq, Eq, Structural)]
pub enum ElfFault {
    /// No symbol `main`.
    MainNotFound,
    /// No symbol `_SEGGER_RTT`.
    RttNotFound,
    /// The address of an important section is no multiple of four.
    Unaligned(ImportantSection),
    /// The vector table has no octets in the image.
    NoData,
    /// The vector table holds fewer than four words.
    TooSmall { size: usize },
    /// The address of the vector table does not fit in 32 bits.
    AddressNot32Bit,
    /// No section `.vector_table`.
    VectorTableNotFound,
}

/// The little-endian 32-bit word `i` of `data`.
pub open spec fn le_word(data: Seq<u8>, i: int) -> u32 {
    (data[4 * i] as u32) | ((data[4 * i + 1] as u32) << 8) | ((data[4 * i + 2] as u32) << 16) | ((
    data[4 * i + 3] as u32) << 24)
}

/// Reads the little-endian 32-bit word `i` of `data`.
fn read_le_word(data: &Vec<u8>, i: usize) -> (r: u32)
    requires
        4 * i + 3 < data@.len(),
    ensures
        r == le_word(data@, i as int),
{
    let _ = data.len();
    (data[4 * i] as u32) | ((data[4 * i + 1] as u32) << 8) | ((data[4 * i + 2] as u32) << 16) | ((
    data[4 * i + 3] as u32) << 24)
}

/// What is known of `main` and the control block after symbol `s` was looked
/// at.
pub open spec fn after_symbol(s: ElfSymbolView, found: (Option<u32>, Option<u32>)) -> (
    Option<u32>,
    Option<u32>,
) {
    match s.name {
        None => found,
        Some(name) => (
            if name == "main"@ {
                Some(without_thumb_bit(s.address as u32))
            } else {
                found.0
            },
            if name == "_SEGGER_RTT"@ {
                Some(s.address as u32)
            } else {
                found.1
            },
        ),
    }
}

/// What the scan of the symbols from symbol `i` on finds, given what was
/// found before: every symbol named `main` or `_SEGGER_RTT` replaces what
/// was known under that name, and the scan ends as soon as both are known.
pub open spec fn scan_symbols(
    symbols: Seq<ElfSymbolView>,
    i: int,
    found: (Option<u32>, Option<u32>),
) -> (Option<u32>, Option<u32>)
    decreases symbols.len() - i,
{
    if i < 0 || i >= symbols.len() {
        found
    } else {
        let next = after_symbol(symbols[i], found);
        if symbols[i].name is Some && next.0 is Some && next.1 is Some {
            next
        } else {
            scan_symbols(symbols, i + 1, next)
        }
    }
}

/// The symbols that steer a run, or what is missing; `main` is missed first.
pub open spec fn symbols_of(symbols: Seq<ElfSymbolView>) -> Result<Symbols, ElfFault> {
    let found = scan_symbols(symbols, 0, (None, None));
    match found.0 {
        None => Err(ElfFault::MainNotFound),
        Some(main) => match found.1 {
            None => Err(ElfFault::RttNotFound),
            Some(rtt) => Ok(Symbols { main, rtt }),
        },
    }
}

/// Finds `main` and the control block of the debug transport among the
/// symbols.
pub fn find_symbols(symbols: &Vec<ElfSymbol>) -> (r: Result<Symbols, ElfFault>)
    ensures
        r == symbols_of(views(symbols@)),
        r matches Ok(s) ==> s.main & 1 == 0,
{
    let main_name = String::from_str("main");
    let rtt_name = String::from_str("_SEGGER_RTT");
    let mut main: Option<u32> = None;
    let mut rtt: Option<u32> = None;
    let mut i: usize = 0;
    while i < symbols.len()
        invariant_except_break
            i <= symbols.len(),
            main_name@ == "main"@,
            rtt_name@ == "_SEGGER_RTT"@,
            scan_symbols(views(symbols@), 0, (None, None)) == scan_symbols(
                views(symbols@),
                i as int,
                (main, rtt),
            ),
            main matches Some(m) ==> m & 1 == 0,
        ensures
            scan_symbols(views(symbols@), 0, (None, None)) == (main, rtt),
            main matches Some(m) ==> m & 1 == 0,
        decreases symbols.len() - i,
    {
        assert(views(symbols@)[i as int] == symbols@[i as int]@);
        match &symbols[i].name {
            Some(name) => {
                if *name == main_name {
                    main = Some(clear_thumb_bit(#[verifier::truncate] (symbols[i].address as u32)));
                }
                if *name == rtt_name {
                    rtt = Some(#[verifier::truncate] (symbols[i].address as u32));
                }
                if main.is_some() && rtt.is_some() {
                    break ;
                }
            },
            None => {},
        }
        i += 1;
    }
    match main {
        None => Err(ElfFault::MainNotFound),
        Some(main) => match rtt {
            None => Err(ElfFault::RttNotFound),
            Some(rtt) => Ok(Symbols { main, rtt }),
        },
    }
}

/// What is known of the vector table, and of whether the image lives in RAM,
/// after section `s` was looked at; or why the image cannot be run.
pub open spec fn after_section(s: ElfSectionView, known: (Option<VectorTable>, bool)) -> Result<
    (Option<VectorTable>, bool),
    ElfFault,
> {
    match s.name {
        None => Ok(known),
        Some(name) => match important(name) {
            None => Ok(known),
            Some(section) => if s.address % 4 != 0 {
                Err(ElfFault::Unaligned(section))
            } else if section != ImportantSection::VectorTable {
                Ok(known)
            } else {
                match s.data {
                    None => Err(ElfFault::NoData),
                    Some(data) => if data.len() < 16 {
                        Err(ElfFault::TooSmall { size: data.len() as usize })
                    } else if s.address > u32::MAX {
                        Err(ElfFault::AddressNot32Bit)
                    } else {
                        Ok(
                            (
                                Some(
                                    VectorTable {
                                        start: s.address as u32,
                                        stack_pointer: le_word(data, 0),
                                        reset: le_word(data, 1),
                                        hardfault: le_word(data, 3),
                                    },
                                ),
                                s.address >= 0x2000_0000,
                            ),
                        )
                    },
                }
            },
        },
    }
}

/// What the scan of the sections from section `i` on finds, given what was
/// known before: the last vector table counts, and the first fault ends the
/// scan.
pub open spec fn scan_sections(
    sections: Seq<ElfSectionView>,
    i: int,
    known: (Option<VectorTable>, bool),
) -> Result<(Option<VectorTable>, bool), ElfFault>
    decreases sections.len() - i,
{
    if i < 0 || i >= sections.len() {
        Ok(known)
    } else {
        match after_section(sections[i], known) {
            Err(fault) => Err(fault),
            Ok(next) => scan_sections(sections, i + 1, next),
        }
    }
}

/// The important section of name `name`, if the name is that of one.
fn classify_section(name: &String) -> (r: Option<ImportantSection>)
    ensures
        r == important(name@),
{
    if *name == String::from_str(".vector_table") {
        Some(ImportantSection::VectorTable)
    } else if *name == String::from_str(".text") {
        Some(ImportantSection::Text)
    } else if *name == String::from_str(".rodata") {
        Some(ImportantSection::Rodata)
    } else if *name == String::from_str(".data") {
        Some(ImportantSection::Data)
    } else {
        None
    }
}

/// Looks at one section.
fn look_at_section(s: &ElfSection, known: (Option<VectorTable>, bool)) -> (r: Result<
    (Option<VectorTable>, bool),
    ElfFault,
>)
    ensures
        r == after_section(s@, known),
{
    let name = match &s.name {
        Some(name) => name,
        None => {
            return Ok(known);
        },
    };
    let section = match classify_section(name) {
        Some(section) => section,
        None => {
            return Ok(known);
        },
    };
    if s.address % 4 != 0 {
        return Err(ElfFault::Unaligned(section));
    }
    match section {
        ImportantSection::VectorTable => {},
        _ => {
            return Ok(known);
        },
    }
    let data = match &s.data {
        Some(data) => data,
        None => {
            return Err(ElfFault::NoData);
        },
    };
    if data.len() < 16 {
        return Err(ElfFault::TooSmall { size: data.len() });
    }
    if s.address > 0xffff_ffff {
        return Err(ElfFault::AddressNot32Bit);
    }
    Ok(
        (
            Some(
                VectorTable {
                    start: s.address as u32,
                    stack_pointer: read_le_word(data, 0),
                    reset: read_le_word(data, 1),
                    hardfault: read_le_word(data, 3),
                },
            ),
            s.address >= 0x2000_0000,
        ),
    )
}

/// Checks the important sections and reads the vector table.
pub fn find_vector_table(sections: &Vec<ElfSection>) -> (r: Result<
    (Option<VectorTable>, bool),
    ElfFault,
>)
    ensures
        r == scan_sections(views(sections@), 0, (None, false)),
{
    let mut known: (Option<VectorTable>, bool) = (None, false);
    let mut i: usize = 0;
    while i < sections.len()
        invariant
            i <= sections.len(),
            scan_sections(views(sections@), 0, (None, false)) == scan_sections(
                views(sections@),
                i as int,
                known,
            ),
        decreases sections.len() - i,
    {
        assert(views(sections@)[i as int] == sections@[i as int]@);
        match look_at_section(&sections[i], known) {
            Ok(next) => {
                known = next;
            },
            Err(fault) => {
                return Err(fault);
            },
        }
        i += 1;
    }
    Ok(known)
}

/// What steers the run of an image.
#[derive(Debug, Clone, Copy, PartialEq, Eq, Structural)]
pub struct ElfLayout {
    /// Where `main` and the control block of the debug transport are.
    pub symbols: Symbols,
    /// What the vector table holds, if the image has one.
    pub vector_table: Option<VectorTable>,
    /// Whether the image lives in RAM: its vector table lies at or above
    /// `0x2000_0000`.
    pub from_ram: bool,
}

/// The layout of an image with the given symbols and sections, or the first
/// reason why it cannot be run: symbols are looked at before sections.
pub open spec fn layout_of(contents: ElfContentsView) -> Result<ElfLayout, ElfFault> {
    match symbols_of(contents.symbols) {
        Err(fault) => Err(fault),
        Ok(symbols) => match scan_sections(contents.sections, 0, (None, false)) {
            Err(fault) => Err(fault),
            Ok(known) => Ok(ElfLayout { symbols, vector_table: known.0, from_ram: known.1 }),
        },
    }
}

/// Finds in the symbols and sections of an image what steers its run.
pub fn introspect(contents: &ElfContents) -> (r: Result<ElfLayout, ElfFault>)
    ensures
        r == layout_of(contents@),
        r matches Ok(layout) ==> layout.symbols.main & 1 == 0,
{
    let symbols = match find_symbols(&contents.symbols) {
        Ok(symbols) => symbols,
        Err(fault) => {
            return Err(fault);
        },
    };
    match find_vector_table(&contents.sections) {
        Ok(known) => Ok(ElfLayout { symbols, vector_table: known.0, from_ram: known.1 }),
        Err(fault) => Err(fault),
    }
}

/// The words in which a fault of an image is reported.
pub open spec fn fault_text(fault: ElfFault) -> Seq<char> {
    match fault {
        ElfFault::MainNotFound => "'main' symbol not found"@,
        ElfFault::RttNotFound =>
            "'_SEGGER_RTT' symbol not found, without RTT this CI tool will not work"@,
        ElfFault::Unaligned(section) => "Section '"@ + section_name(section)
            + "' is not 4 byte aligned"@,
        ElfFault::NoData => "There is no data in section '.vector_table'"@,
        ElfFault::TooSmall { size } => "Section '.vector_table' is too small, size = "@ + decimal(
            size as nat,
        ) + " bytes"@,
        ElfFault::AddressNot32Bit => "The address of section '.vector_table' is not 32-bit"@,
        ElfFault::VectorTableNotFound => "'.vector_table' section not found"@,
    }
}

impl ElfFault {
    /// The fault in words.
    pub fn message(&self) -> (r: String)
        ensures
            r@ == fault_text(*self),
    {
        match self {
            ElfFault::MainNotFound => String::from_str("'main' symbol not found"),
            ElfFault::RttNotFound => String::from_str(
                "'_SEGGER_RTT' symbol not found, without RTT this CI tool will not work",
            ),
            ElfFault::Unaligned(section) => {
                let mut s = String::from_str("Section '");
                s.append(section.name());
                s.append("' is not 4 byte aligned");
                s
            },
            ElfFault::NoData => String::from_str("There is no data in section '.vector_table'"),
            ElfFault::TooSmall { size } => {
                let mut s = String::from_str("Section '.vector_table' is too small, size = ");
                push_decimal(&mut s, *size);
                s.append(" bytes");
                s
            },
            ElfFault::AddressNot32Bit => String::from_str(
                "The address of section '.vector_table' is not 32-bit",
            ),
            ElfFault::VectorTableNotFound => String::from_str("'.vector_table' section not found"),
        }
    }
}

} // verus!
