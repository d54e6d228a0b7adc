//! Plugin formats, and their detection from the symbols a native binary
//! exports. The binary is read by goblin; which symbols count, and how, is
//! decided here.

use vstd::prelude::*;
use goblin::mach::Mach;
use goblin::Object;
use crate::target::same_text;
use crate::target::lower_of;
use crate::target::lowercase;
use crate::target::{is_ascii_text, lower_ascii};

verus! {

/// goblin's parse error, carried through as an opaque value.
#[verifier::external_type_specification]
#[verifier::external_body]
pub struct ExGoblinError(goblin::error::Error);

/// A plugin interface that a library can implement.
#[derive(Clone, Copy, Debug, PartialEq, Eq, Structural)]
pub enum Format {
    Vst3,
}

/// A format string that names no known format; holds the string as given.
#[derive(Debug)]
pub enum FormatError {
    UnrecognizedFormat(String),
}

/// Why the format of a binary could not be determined.
#[derive(Debug)]
pub enum DetectError {
    /// The bytes are not a well-formed object of the kind they announce;
    /// holds goblin's error.
    MalformedObject(goblin::error::Error),
    /// The object is of a kind that is not inspected; holds that kind.
    UnsupportedObjectKind(ObjectKind),
    /// A multi-architecture Mach-O container holds no architecture.
    ArchSliceMissing,
    /// No known plugin symbol is exported; holds the inspected path.
    NoFormatMatch(String),
}

/// A detection error as plain values, without goblin's error.
pub ghost enum DetectFailure {
    Malformed,
    Unsupported(ObjectKind),
    ArchSliceMissing,
    NoFormatMatch(Seq<char>),
}

impl DetectError {
    pub open spec fn failure(&self) -> DetectFailure {
        match self {
            DetectError::MalformedObject(_) => DetectFailure::Malformed,
            DetectError::UnsupportedObjectKind(k) => DetectFailure::Unsupported(*k),
            DetectError::ArchSliceMissing => DetectFailure::ArchSliceMissing,
            DetectError::NoFormatMatch(p) => DetectFailure::NoFormatMatch(p@),
        }
    }
}

/// A detection result with its error as plain values.
pub open spec fn outcome<T>(r: Result<T, DetectError>) -> Result<T, DetectFailure> {
    match r {
        Ok(v) => Ok(v),
        Err(e) => Err(e.failure()),
    }
}

/// The kind of object container a binary is.
#[derive(Clone, Copy, Debug, PartialEq, Eq, Structural)]
pub enum ObjectKind {
    Elf,
    /// A multi-architecture Mach-O container, with its number of slices.
    MachFat(usize),
    MachBinary,
    Pe,
    Te,
    Coff,
    Archive,
    /// No known container, with the magic value found.
    Unknown(u64),
    /// A kind that goblin recognises and that is not listed above.
    Other,
}

/// An entry of an ELF dynamic symbol table.
#[derive(Debug)]
pub struct ElfSymbol {
    /// The name found in the dynamic string table, if any.
    pub name: Option<String>,
    /// Global or weak binding with a zero value: the symbol is imported.
    pub is_import: bool,
    /// The symbol's type is a function.
    pub is_function: bool,
}

/// An entry of a Mach-O symbol table (`nlist`).
#[derive(Debug)]
pub struct MachSymbol {
    /// The name found in the string table.
    pub name: String,
    /// The `n_type` byte: stab, private-external, type and external bits.
    pub n_type: u8,
    /// The section number, 0 for none.
    pub n_sect: usize,
}

/// A Mach-O symbol as plain values.
pub ghost struct MachSymbolView {
    pub name: Seq<char>,
    pub n_type: u8,
    pub n_sect: usize,
}

impl View for MachSymbol {
    type V = MachSymbolView;

    open spec fn view(&self) -> MachSymbolView {
        MachSymbolView { name: self.name@, n_type: self.n_type, n_sect: self.n_sect }
    }
}

/// A Mach-O symbol table as plain values.
pub open spec fn mach_symbols_view(v: Seq<MachSymbol>) -> Seq<MachSymbolView> {
    v.map_values(|s: MachSymbol| s@)
}

/// An ELF dynamic symbol as plain values.
pub ghost struct ElfSymbolView {
    pub name: Option<Seq<char>>,
    pub is_import: bool,
    pub is_function: bool,
}

/// The text of an optional string.
pub open spec fn opt_text(o: Option<String>) -> Option<Seq<char>> {
    match o {
        Some(s) => Some(s@),
        None => None,
    }
}

impl View for ElfSymbol {
    type V = ElfSymbolView;

    open spec fn view(&self) -> ElfSymbolView {
        ElfSymbolView {
            name: opt_text(self.name),
            is_import: self.is_import,
            is_function: self.is_function,
        }
    }
}

/// A symbol table as plain values.
pub open spec fn elf_symbols_view(v: Seq<ElfSymbol>) -> Seq<ElfSymbolView> {
    v.map_values(|s: ElfSymbol| s@)
}

/// A list of optional names as text.
pub open spec fn opt_names_view(v: Seq<Option<String>>) -> Seq<Option<Seq<char>>> {
    v.map_values(|s: Option<String>| opt_text(s))
}

/// What kind of object `goblin::Object::parse` finds in the bytes; `None`
/// where it fails.
pub uninterp spec fn object_kind_of(bytes: Seq<u8>) -> Option<ObjectKind>;

/// The dynamic symbols that `goblin::elf::Elf::parse` finds; `None` where it
/// fails.
pub uninterp spec fn elf_dynamic_symbols_of(bytes: Seq<u8>) -> Option<Seq<ElfSymbolView>>;

/// The symbol table of one slice of a multi-architecture Mach-O container,
/// as goblin reads it: `None` where reading fails, `Some(None)` where the
/// slice is an archive.
pub uninterp spec fn fat_slice_symbols_of(bytes: Seq<u8>, index: nat) -> Option<Option<Seq<MachSymbolView>>>;

/// The symbol table of a single-architecture Mach-O binary, as goblin reads
/// it; `None` where reading fails.
pub uninterp spec fn mach_symbols_of(bytes: Seq<u8>) -> Option<Seq<MachSymbolView>>;

/// The export names of a PE binary, as goblin reads them; `None` where
/// reading fails.
pub uninterp spec fn pe_exports_of(bytes: Seq<u8>) -> Option<Seq<Option<Seq<char>>>>;

/// Relies on `goblin::Object::parse`: which kind of container it recognises,
/// for a multi-architecture Mach-O container its `narches` field, and for an
/// unknown one its magic value.
#[verifier::external_body]
fn object_kind(bytes: &[u8]) -> (r: Result<ObjectKind, goblin::error::Error>)
    ensures
        match r {
            Ok(k) => object_kind_of(bytes@) == Some(k),
            Err(_) => object_kind_of(bytes@) is None,
        },
{
    match Object::parse(bytes) {
        Ok(Object::Elf(_)) => Ok(ObjectKind::Elf),
        Ok(Object::Mach(Mach::Fat(m))) => Ok(ObjectKind::MachFat(m.narches)),
        Ok(Object::Mach(Mach::Binary(_))) => Ok(ObjectKind::MachBinary),
        Ok(Object::PE(_)) => Ok(ObjectKind::Pe),
        Ok(Object::TE(_)) => Ok(ObjectKind::Te),
        Ok(Object::COFF(_)) => Ok(ObjectKind::Coff),
        Ok(Object::Archive(_)) => Ok(ObjectKind::Archive),
        Ok(Object::Unknown(magic)) => Ok(ObjectKind::Unknown(magic)),
        Ok(_) => Ok(ObjectKind::Other),
        Err(e) => Err(e),
    }
}

/// Relies on `goblin::elf::Elf::parse`: its `dynsyms` with each name looked
/// up in `dynstrtab` by `Strtab::get_at`, and `Sym::is_import` and
/// `Sym::is_function`.
#[verifier::external_body]
fn elf_dynamic_symbols(bytes: &[u8]) -> (r: Result<Vec<ElfSymbol>, goblin::error::Error>)
    ensures
        match r {
            Ok(v) => elf_dynamic_symbols_of(bytes@) == Some(elf_symbols_view(v@)),
            Err(_) => elf_dynamic_symbols_of(bytes@) is None,
        },
{
    let elf = goblin::elf::Elf::parse(bytes)?;
    Ok(elf.dynsyms.iter().map(|sym| ElfSymbol {
        name: elf.dynstrtab.get_at(sym.st_name).map(String::from),
        is_import: sym.is_import(),
        is_function: sym.is_function(),
    }).collect())
}

/// Relies on `goblin::mach::MultiArch::get` (after `MultiArch::new`) and
/// `MachO::symbols`: the symbol table of the slice at `index`, or `None`
/// where that slice is an archive.
#[verifier::external_body]
fn fat_slice_symbols(bytes: &[u8], index: usize) -> (r: Result<Option<Vec<MachSymbol>>, goblin::error::Error>)
    ensures
        match r {
            Ok(Some(v)) => fat_slice_symbols_of(bytes@, index as nat) == Some(Some(mach_symbols_view(v@))),
            Ok(None) => fat_slice_symbols_of(bytes@, index as nat) == Some(None::<Seq<MachSymbolView>>),
            Err(_) => fat_slice_symbols_of(bytes@, index as nat) is None,
        },
{
    match goblin::mach::MultiArch::new(bytes)?.get(index)? {
        goblin::mach::SingleArch::MachO(m) => Ok(Some(m.symbols().map(|s| s.map(|(name, nl)| MachSymbol {
            name: String::from(name), n_type: nl.n_type, n_sect: nl.n_sect,
        })).collect::<Result<Vec<_>, _>>()?)),
        goblin::mach::SingleArch::Archive(_) => Ok(None),
    }
}

/// Relies on `goblin::mach::MachO::parse` at offset 0 and `MachO::symbols`:
/// the symbol table.
#[verifier::external_body]
fn mach_symbols(bytes: &[u8]) -> (r: Result<Vec<MachSymbol>, goblin::error::Error>)
    ensures
        match r {
            Ok(v) => mach_symbols_of(bytes@) == Some(mach_symbols_view(v@)),
            Err(_) => mach_symbols_of(bytes@) is None,
        },
{
    goblin::mach::MachO::parse(bytes, 0)?.symbols().map(|s| s.map(|(name, nl)| MachSymbol {
        name: String::from(name), n_type: nl.n_type, n_sect: nl.n_sect,
    })).collect()
}

/// Relies on `goblin::pe::PE::parse`: the `name` of each entry of `exports`.
#[verifier::external_body]
fn pe_export_names(bytes: &[u8]) -> (r: Result<Vec<Option<String>>, goblin::error::Error>)
    ensures
        match r {
            Ok(v) => pe_exports_of(bytes@) == Some(opt_names_view(v@)),
            Err(_) => pe_exports_of(bytes@) is None,
        },
{
    Ok(goblin::pe::PE::parse(bytes)?.exports.iter().map(|e| e.name.map(String::from)).collect())
}

/// Whether an ELF dynamic symbol table defines a function of this name.
pub open spec fn elf_defines(syms: Seq<ElfSymbolView>, symbol: Seq<char>) -> bool {
    exists|i: int|
        0 <= i < syms.len() && !(#[trigger] syms[i]).is_import && syms[i].is_function
            && syms[i].name == Some(symbol)
}

/// Whether a Mach-O symbol is exported: not a debugging entry, external and
/// not private-external, and defined in a section or absolute.
pub open spec fn mach_is_exported(s: MachSymbolView) -> bool {
    s.n_type & 0xe0u8 == 0 && s.n_type & 0x01u8 != 0 && s.n_type & 0x10u8 == 0 && (s.n_type
        & 0x0eu8 == 0x0eu8 || s.n_type & 0x0eu8 == 0x02u8)
}

/// Whether a Mach-O symbol table exports the symbol with the underscore
/// prefix that the platform adds to exported names.
pub open spec fn mach_exports(syms: Seq<MachSymbolView>, symbol: Seq<char>) -> bool {
    exists|i: int|
        0 <= i < syms.len() && mach_is_exported(#[trigger] syms[i]) && syms[i].name == "_"@ + symbol
}

/// Whether PE export names hold the symbol.
pub open spec fn pe_lists(names: Seq<Option<Seq<char>>>, symbol: Seq<char>) -> bool {
    exists|i: int| 0 <= i < names.len() && #[trigger] names[i] == Some(symbol)
}

/// Whether the binary in `bytes` exports `symbol`, or why that cannot be
/// told.
pub open spec fn exports_symbol(bytes: Seq<u8>, symbol: Seq<char>) -> Result<bool, DetectFailure> {
    match object_kind_of(bytes) {
        None => Err(DetectFailure::Malformed),
        Some(ObjectKind::Elf) => match elf_dynamic_symbols_of(bytes) {
            None => Err(DetectFailure::Malformed),
            Some(syms) => Ok(elf_defines(syms, symbol)),
        },
        Some(ObjectKind::MachFat(n)) => if n == 0 {
            Err(DetectFailure::ArchSliceMissing)
        } else {
            match fat_slice_symbols_of(bytes, 0) {
                None => Err(DetectFailure::Malformed),
                Some(None) => Err(DetectFailure::Unsupported(ObjectKind::Archive)),
                Some(Some(syms)) => Ok(mach_exports(syms, symbol)),
            }
        },
        Some(ObjectKind::MachBinary) => match mach_symbols_of(bytes) {
            None => Err(DetectFailure::Malformed),
            Some(syms) => Ok(mach_exports(syms, symbol)),
        },
        Some(ObjectKind::Pe) => match pe_exports_of(bytes) {
            None => Err(DetectFailure::Malformed),
            Some(names) => Ok(pe_lists(names, symbol)),
        },
        Some(kind) => Err(DetectFailure::Unsupported(kind)),
    }
}

/// The known plugin symbols, each with the format that exports it, in the
/// order they are tried.
pub open spec fn known_symbols() -> Seq<(Seq<char>, Format)> {
    seq![("GetPluginFactory"@, Format::Vst3)]
}

/// The format of the first entry of `table` whose symbol the binary exports
/// (`None` if there is none), or the first error met on the way.
pub open spec fn detect_with(bytes: Seq<u8>, table: Seq<(Seq<char>, Format)>) -> Result<Option<Format>, DetectFailure>
    decreases table.len(),
{
    if table.len() == 0 {
        Ok(None)
    } else {
        match exports_symbol(bytes, table[0].0) {
            Err(e) => Err(e),
            Ok(true) => Ok(Some(table[0].1)),
            Ok(false) => detect_with(bytes, table.drop_first()),
        }
    }
}

/// The names of known formats, lowercased.
pub open spec fn format_alias(s: Seq<char>) -> Option<Format> {
    if s == "vst"@ || s == "vst3"@ {
        Some(Format::Vst3)
    } else {
        None
    }
}

/// Whether an ELF dynamic symbol table defines a function named `symbol`:
/// an entry that is not imported, is a function, and has that name.
pub fn elf_exports_symbol(symbols: &Vec<ElfSymbol>, symbol: &str) -> (r: bool)
    ensures
        r == elf_defines(elf_symbols_view(symbols@), symbol@),
{
    let ghost view = elf_symbols_view(symbols@);
    let mut i: usize = 0;
    while i < symbols.len()
        invariant
            i <= symbols@.len(),
            view == elf_symbols_view(symbols@),
            forall|j: int|
                0 <= j < i ==> !(!(#[trigger] view[j]).is_import && view[j].is_function
                    && view[j].name == Some(symbol@)),
        decreases symbols@.len() - i,
    {
        let sym = &symbols[i];
        assert(view[i as int] == sym@);
        if !sym.is_import && sym.is_function {
            match &sym.name {
                Some(name) => {
                    if same_text(name.as_str(), symbol) {
                        return true;
                    }
                },
                None => {},
            }
        }
        i = i + 1;
    }
    false
}

/// Whether a Mach-O symbol is exported (see `mach_is_exported`).
pub fn mach_symbol_is_exported(sym: &MachSymbol) -> (r: bool)
    ensures
        r == mach_is_exported(sym@),
{
    let t = sym.n_type;
    t & 0xe0u8 == 0 && t & 0x01u8 != 0 && t & 0x10u8 == 0 && (t & 0x0eu8 == 0x0eu8 || t & 0x0eu8
        == 0x02u8)
}

/// Whether a Mach-O symbol table exports `symbol` prefixed with an
/// underscore.
pub fn mach_exports_symbol(symbols: &Vec<MachSymbol>, symbol: &str) -> (r: bool)
    ensures
        r == mach_exports(mach_symbols_view(symbols@), symbol@),
{
    let ghost view = mach_symbols_view(symbols@);
    let mut wanted = String::from_str("_");
    wanted.append(symbol);
    let mut i: usize = 0;
    while i < symbols.len()
        invariant
            i <= symbols@.len(),
            view == mach_symbols_view(symbols@),
            wanted@ == "_"@ + symbol@,
            forall|j: int|
                0 <= j < i ==> !(mach_is_exported(#[trigger] view[j]) && view[j].name == "_"@
                    + symbol@),
        decreases symbols@.len() - i,
    {
        let sym = &symbols[i];
        assert(view[i as int] == sym@);
        if mach_symbol_is_exported(sym) && same_text(sym.name.as_str(), wanted.as_str()) {
            return true;
        }
        i = i + 1;
    }
    false
}

/// Whether PE export names hold `symbol`.
pub fn pe_exports_symbol(names: &Vec<Option<String>>, symbol: &str) -> (r: bool)
    ensures
        r == pe_lists(opt_names_view(names@), symbol@),
{
    let ghost view = opt_names_view(names@);
    let mut i: usize = 0;
    while i < names.len()
        invariant
            i <= names@.len(),
            view == opt_names_view(names@),
            forall|j: int| 0 <= j < i ==> #[trigger] view[j] != Some(symbol@),
        decreases names@.len() - i,
    {
        assert(view[i as int] == opt_text(names@[i as int]));
        match &names[i] {
            Some(name) => {
                if same_text(name.as_str(), symbol) {
                    return true;
                }
            },
            None => {},
        }
        i = i + 1;
    }
    false
}

/// The known plugin symbols with their formats.
fn known_symbol_table() -> (r: Vec<(&'static str, Format)>)
    ensures
        r@.len() == known_symbols().len(),
        forall|i: int|
            0 <= i < r@.len() ==> (#[trigger] r@[i]).0@ == known_symbols()[i].0 && r@[i].1
                == known_symbols()[i].1,
{
    let mut table: Vec<(&'static str, Format)> = Vec::new();
    table.push(("GetPluginFactory", Format::Vst3));
    table
}

impl Format {
    /// Maps a lowercased format name to its format.
    pub fn parse_lowercase(s: &str) -> (r: Option<Format>)
        ensures
            r == format_alias(s@),
    {
        if same_text(s, "vst") || same_text(s, "vst3") {
            Some(Format::Vst3)
        } else {
            None
        }
    }

    /// Parses a format name (`vst` or `vst3`), ignoring case.
    pub fn parse(s: &str) -> (r: Result<Format, FormatError>)
        ensures
            match r {
                Ok(f) => format_alias(lower_of(s@)) == Some(f),
                Err(FormatError::UnrecognizedFormat(given)) => format_alias(lower_of(s@)) is None
                    && given@ == s@,
            },
            is_ascii_text(s@) ==> match r {
                Ok(f) => format_alias(lower_ascii(s@)) == Some(f),
                Err(_) => format_alias(lower_ascii(s@)) is None,
            },
    {
        let lowered = lowercase(s);
        match Format::parse_lowercase(lowered.as_str()) {
            Some(f) => Ok(f),
            None => Err(FormatError::UnrecognizedFormat(s.to_owned())),
        }
    }

    /// Whether the binary in `bytes` exports `symbol`. ELF binaries count
    /// defined function symbols of the dynamic table; Mach-O binaries count
    /// exported entries of the symbol table under the underscore-prefixed
    /// name, from the first slice of a multi-architecture container; PE
    /// binaries count export names.
    pub fn contains_symbol(bytes: &[u8], symbol: &str) -> (r: Result<bool, DetectError>)
        ensures
            outcome(r) == exports_symbol(bytes@, symbol@),
    {
        match object_kind(bytes) {
            Err(e) => Err(DetectError::MalformedObject(e)),
            Ok(ObjectKind::Elf) => match elf_dynamic_symbols(bytes) {
                Err(e) => Err(DetectError::MalformedObject(e)),
                Ok(syms) => Ok(elf_exports_symbol(&syms, symbol)),
            },
            Ok(ObjectKind::MachFat(n)) => {
                if n == 0 {
                    Err(DetectError::ArchSliceMissing)
                } else {
                    match fat_slice_symbols(bytes, 0) {
                        Err(e) => Err(DetectError::MalformedObject(e)),
                        Ok(None) => Err(DetectError::UnsupportedObjectKind(ObjectKind::Archive)),
                        Ok(Some(syms)) => Ok(mach_exports_symbol(&syms, symbol)),
                    }
                }
            },
            Ok(ObjectKind::MachBinary) => match mach_symbols(bytes) {
                Err(e) => Err(DetectError::MalformedObject(e)),
                Ok(syms) => Ok(mach_exports_symbol(&syms, symbol)),
            },
            Ok(ObjectKind::Pe) => match pe_export_names(bytes) {
                Err(e) => Err(DetectError::MalformedObject(e)),
                Ok(names) => Ok(pe_exports_symbol(&names, symbol)),
            },
            Ok(kind) => Err(DetectError::UnsupportedObjectKind(kind)),
        }
    }

    /// Determines the plugin format of the binary in `bytes`, read from
    /// `path`, by the known symbols it exports.
    pub fn parse_from_symbols(path: &str, bytes: &[u8]) -> (r: Result<Format, DetectError>)
        ensures
            match detect_with(bytes@, known_symbols()) {
                Ok(Some(f)) => outcome(r) == Ok::<Format, DetectFailure>(f),
                Ok(None) => outcome(r) == Err::<Format, DetectFailure>(DetectFailure::NoFormatMatch(path@)),
                Err(e) => outcome(r) == Err::<Format, DetectFailure>(e),
            },
    {
        let table = known_symbol_table();
        let ghost known = known_symbols();
        let mut i: usize = 0;
        assert(known.subrange(0, known.len() as int) =~= known);
        while i < table.len()
            invariant
                i <= table@.len(),
                table@.len() == known.len(),
                known == known_symbols(),
                forall|j: int|
                    0 <= j < table@.len() ==> (#[trigger] table@[j]).0@ == known[j].0
                        && table@[j].1 == known[j].1,
                detect_with(bytes@, known) == detect_with(bytes@, known.subrange(i as int, known.len() as int)),
            decreases table@.len() - i,
        {
            let ghost rest = known.subrange(i as int, known.len() as int);
            assert(rest.drop_first() =~= known.subrange(i + 1, known.len() as int));
            assert(rest[0] == known[i as int]);
            let (symbol, format) = table[i];
            match Format::contains_symbol(bytes, symbol) {
                Err(e) => {
                    return Err(e);
                },
                Ok(true) => {
                    return Ok(format);
                },
                Ok(false) => {},
            }
            i = i + 1;
        }
        assert(known.subrange(i as int, known.len() as int).len() == 0);
        Err(DetectError::NoFormatMatch(path.to_owned()))
    }
}

} // verus!
